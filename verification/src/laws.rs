//! What holds of a build as a whole.

use crate::cargo::{
    cargo_arguments, cargo_invocation, feature_arguments, flag_if, flags_variable_of,
    jobs_arguments, own_arguments, target_flags, variable_of_upper,
};
use crate::command_line::{
    metadata_options_of, named_target_dir, target_dir_index, with_target_dir,
};
use crate::config::Config;
use crate::metadata::{is_sbf_package, sbf_programs, MetadataView};
use crate::package::{
    cdylib_names, parent_of, plain_directory, plain_file_name, program_name, program_of,
    PackageView, ProgramView,
};
use crate::report::BuildErrorView;
use crate::sequence::{begins, begins_with_itself, begins_with_parts};
use crate::session::{
    first_step, metadata_step, next_step, process_step, target_directory_of, ActionView, EventView,
    PlanView, StageView, StepView,
};
use crate::text::{decimal, decimal_denotes_its_number, decimal_value, slices, text_or_empty, texts};
use std::path::PathBuf;
use vstd::prelude::*;

verus! {

/// The step that a build has come to after the given events, if each was what it waited for.
pub open spec fn run(
    config: Config,
    manifest_path: Option<PathBuf>,
    events: Seq<EventView>,
) -> Option<StepView>
    decreases events.len(),
{
    if events.len() == 0 {
        Some(first_step(config, manifest_path))
    } else {
        match run(config, manifest_path, events.drop_last()) {
            Some(step) => next_step(config, step.stage, events.last()),
            None => None,
        }
    }
}

/// Whether the event with the given number is the one that belongs there in a build that has not
/// failed.
pub open spec fn in_order(events: Seq<EventView>, i: int) -> bool {
    if i == 0 {
        events[i] is MetadataRead
    } else if i == 1 {
        events[i] is DirectoryEntered
    } else if i == 2 {
        events[i] is ToolsInstalled
    } else if i == 3 {
        events[i] is ToolsFound && !events[i]->corrupted
    } else if i == 4 {
        events[i] is FlagsRead
    } else if i == 5 {
        events[i] is CargoFinished
    } else {
        events[i] is PostProcessed
    }
}

/// Whether a build that has not ended is at the stage that belongs to the number of events so far.
pub open spec fn stage_after(events: nat, stage: StageView) -> bool {
    if events == 0 {
        stage is Metadata
    } else if events == 1 {
        stage is Directory
    } else if events == 2 {
        stage is Tools
    } else if events == 3 {
        stage is Location
    } else if events == 4 {
        stage is Flags
    } else if events == 5 {
        stage is Cargo
    } else {
        stage is PostProcessing
    }
}

/// A build that has not ended has gone through its stages in order: cargo has described the
/// packages, the directory is entered, the tools are installed, they are found to be sound, the
/// flags are read, cargo is done, and programs are processed. No stage is skipped or repeated, but
/// for the last.
pub proof fn stages_follow_in_order(
    config: Config,
    manifest_path: Option<PathBuf>,
    events: Seq<EventView>,
)
    requires
        run(config, manifest_path, events) is Some,
        !(run(config, manifest_path, events)->0.stage is Done),
    ensures
        stage_after(events.len(), run(config, manifest_path, events)->0.stage),
        forall|i: int| 0 <= i < events.len() ==> #[trigger] in_order(events, i),
    decreases events.len(),
{
    if events.len() > 0 {
        let before = events.drop_last();
        stages_follow_in_order(config, manifest_path, before);
        assert forall|i: int| 0 <= i < events.len() implies #[trigger] in_order(events, i) by {
            if i < before.len() {
                assert(in_order(before, i));
            }
        }
    }
}

/// A build asks for an end, successful or not, exactly when it waits for nothing more, and then no
/// event leads any further.
pub proof fn ended_builds_stay_ended(
    config: Config,
    manifest_path: Option<PathBuf>,
    events: Seq<EventView>,
    event: EventView,
)
    requires
        run(config, manifest_path, events) is Some,
    ensures
        ({
            let step = run(config, manifest_path, events)->0;
            &&& step.stage is Done <==> (step.action is Fail || step.action is Finish)
            &&& step.stage is Done ==> run(config, manifest_path, events.push(event)) is None
        }),
{
    assert(events.push(event).drop_last() =~= events);
}

/// Before each event that it has taken, a build had not ended.
proof fn builds_go_on_until_their_last_event(
    config: Config,
    manifest_path: Option<PathBuf>,
    events: Seq<EventView>,
    taken: int,
)
    requires
        run(config, manifest_path, events) is Some,
        0 <= taken < events.len(),
    ensures
        run(config, manifest_path, events.take(taken)) is Some,
        !(run(config, manifest_path, events.take(taken))->0.stage is Done),
    decreases events.len(),
{
    let before = events.drop_last();
    if taken < before.len() {
        builds_go_on_until_their_last_event(config, manifest_path, before, taken);
        assert(before.take(taken) =~= events.take(taken));
    } else {
        assert(before =~= events.take(taken));
    }
}

/// Where the tools are that a build works with, once it knows.
pub open spec fn tools_at(stage: StageView) -> Option<PathBuf> {
    match stage {
        StageView::Flags { platform_tools_dir, .. } => Some(platform_tools_dir),
        StageView::Cargo { platform_tools_dir, .. } => Some(platform_tools_dir),
        StageView::PostProcessing { platform_tools_dir, .. } => Some(platform_tools_dir),
        _ => None,
    }
}

/// A build that has not ended works with the tools that were found, once they are.
proof fn builds_keep_their_tools(
    config: Config,
    manifest_path: Option<PathBuf>,
    events: Seq<EventView>,
)
    requires
        run(config, manifest_path, events) is Some,
        !(run(config, manifest_path, events)->0.stage is Done),
        events.len() > 3,
    ensures
        tools_at(run(config, manifest_path, events)->0.stage) == Some(
            events[3]->platform_tools_dir,
        ),
    decreases events.len(),
{
    let before = events.drop_last();
    stages_follow_in_order(config, manifest_path, before);
    if before.len() > 3 {
        builds_keep_their_tools(config, manifest_path, before);
        assert(before[3] == events[3]);
    }
}

/// Whether what a build asks for after its first `taken` events is what belongs there: cargo is
/// asked for the packages of the given manifest, a directory is entered, the tools are installed,
/// those of the version that was installed are found, the flags are read, cargo is run with the
/// tools that were found, and programs are processed with the same.
pub open spec fn asked_in_turn(
    config: Config,
    manifest_path: Option<PathBuf>,
    events: Seq<EventView>,
    taken: int,
    action: ActionView,
) -> bool {
    if taken == 0 {
        action == (ActionView::ReadMetadata {
            manifest_path,
            options: metadata_options_of(config),
        })
    } else if taken == 1 {
        action is EnterDirectory
    } else if taken == 2 {
        action is InstallTools
    } else if taken == 3 {
        action == (ActionView::FindTools { version: events[2]->version })
    } else if taken == 4 {
        action == (ActionView::ReadFlags {
            variable: flags_variable_of(events[3]->target_triple),
        })
    } else if taken == 5 {
        action == (ActionView::RunCargo {
            platform_tools_dir: events[3]->platform_tools_dir,
            invocation: cargo_invocation(
                config,
                events[3]->target_triple,
                events[3]->toolchain_name,
                flags_variable_of(events[3]->target_triple),
                events[4]->rustflags,
                events[4]->target_rustflags,
            ),
        })
    } else {
        &&& action matches ActionView::PostProcess { platform_tools_dir, .. }
        &&& platform_tools_dir == events[3]->platform_tools_dir
    }
}

/// What a build that has not ended asks for is what belongs to the events so far.
proof fn the_present_request_is_in_turn(
    config: Config,
    manifest_path: Option<PathBuf>,
    events: Seq<EventView>,
)
    requires
        run(config, manifest_path, events) is Some,
        !(run(config, manifest_path, events)->0.stage is Done),
    ensures
        asked_in_turn(
            config,
            manifest_path,
            events,
            events.len() as int,
            run(config, manifest_path, events)->0.action,
        ),
{
    stages_follow_in_order(config, manifest_path, events);
    if events.len() > 0 {
        let before = events.drop_last();
        stages_follow_in_order(config, manifest_path, before);
        assert(forall|i: int| 0 <= i < before.len() ==> events[i] == before[i]);
        if events.len() == 5 {
            let earlier = before.drop_last();
            stages_follow_in_order(config, manifest_path, earlier);
            assert(before.last() == events[3]);
        }
        if before.len() > 3 {
            builds_keep_their_tools(config, manifest_path, before);
        }
    }
}

/// Whatever happens, what a build has asked for was in turn: the packages of the given manifest
/// once and first, the installation once, the tools of the version that was installed once, cargo
/// once after that, and then nothing but processing. Cargo and all processing get one directory of
/// tools, the one that was found for that version.
pub proof fn requests_come_in_turn(
    config: Config,
    manifest_path: Option<PathBuf>,
    events: Seq<EventView>,
    taken: int,
)
    requires
        run(config, manifest_path, events) is Some,
        0 <= taken <= events.len(),
        taken == events.len() ==> !(run(config, manifest_path, events)->0.stage is Done),
    ensures
        run(config, manifest_path, events.take(taken)) is Some,
        asked_in_turn(
            config,
            manifest_path,
            events,
            taken,
            run(config, manifest_path, events.take(taken))->0.action,
        ),
{
    let early = events.take(taken);
    if taken < events.len() {
        builds_go_on_until_their_last_event(config, manifest_path, events, taken);
    } else {
        assert(early =~= events);
    }
    the_present_request_is_in_turn(config, manifest_path, early);
    assert(forall|i: int| 0 <= i < early.len() ==> early[i] == events[i]);
}

/// Whether what a build asks for after its first `taken` events has its place among what is done
/// with the tools: they are installed, those of the version that was installed are found, cargo is
/// run with those, and then programs are processed with the same.
pub open spec fn one_set_of_tools(
    events: Seq<EventView>,
    taken: int,
    action: ActionView,
) -> bool {
    &&& action is InstallTools <==> taken == 2
    &&& action is FindTools <==> taken == 3
    &&& action is RunCargo <==> taken == 5
    &&& action is PostProcess <==> taken > 5
    &&& action matches ActionView::FindTools { version } ==> version == events[2]->version
    &&& action matches ActionView::RunCargo { platform_tools_dir, .. } ==> platform_tools_dir
        == events[3]->platform_tools_dir
    &&& action matches ActionView::PostProcess { platform_tools_dir, .. } ==> platform_tools_dir
        == events[3]->platform_tools_dir
}

/// A build that ends well has had the tools installed and cargo run, each exactly once and in this
/// order, whether or not there was anything to process. Cargo ran, and every program was
/// processed, with the one directory that was found for the version that was installed.
pub proof fn one_set_of_tools_serves_a_whole_build(
    config: Config,
    manifest_path: Option<PathBuf>,
    events: Seq<EventView>,
)
    requires
        run(config, manifest_path, events) is Some,
        run(config, manifest_path, events)->0.action is Finish,
    ensures
        events.len() > 5,
        events[2] is ToolsInstalled,
        events[3] is ToolsFound,
        forall|taken: int|
            #![trigger events.take(taken)]
            0 <= taken < events.len() ==> one_set_of_tools(
                events,
                taken,
                run(config, manifest_path, events.take(taken))->0.action,
            ),
{
    nothing_is_processed_before_cargo_is_done(config, manifest_path, events);
    assert forall|taken: int|
        #![trigger events.take(taken)]
        0 <= taken < events.len() implies one_set_of_tools(
        events,
        taken,
        run(config, manifest_path, events.take(taken))->0.action,
    ) by {
        requests_come_in_turn(config, manifest_path, events, taken);
    }
}

/// Nothing is processed, and no build ends well, before cargo is done with tools that are sound.
pub proof fn nothing_is_processed_before_cargo_is_done(
    config: Config,
    manifest_path: Option<PathBuf>,
    events: Seq<EventView>,
)
    requires
        run(config, manifest_path, events) is Some,
        ({
            let action = run(config, manifest_path, events)->0.action;
            action is PostProcess || action is Finish
        }),
    ensures
        events.len() > 5,
        events[2] is ToolsInstalled,
        events[3] is ToolsFound && !events[3]->corrupted,
        events[5] is CargoFinished,
{
    let before = events.drop_last();
    stages_follow_in_order(config, manifest_path, before);
    assert(stage_after(before.len(), run(config, manifest_path, before)->0.stage));
    assert(forall|i: int| 0 <= i < before.len() ==> events[i] == before[i]);
    assert(in_order(before, 2));
    assert(in_order(before, 3));
    if before.len() > 5 {
        assert(in_order(before, 5));
    }
}

/// The programs that are to be processed once cargo has described the packages as given.
pub open spec fn planned_programs(config: Config, metadata: MetadataView) -> Seq<ProgramView> {
    if metadata.root_package is Some && !config.workspace {
        seq![
            ProgramView {
                notices: Seq::empty(),
                name: program_name(metadata.root_package->0),
            },
        ]
    } else {
        sbf_programs(metadata.packages, metadata.workspace_members)
    }
}

/// The plan of a build that has one.
pub open spec fn plan_at(stage: StageView) -> PlanView
    recommends
        !(stage is Metadata || stage is Done),
{
    match stage {
        StageView::Directory { plan, .. } => plan,
        StageView::Tools { plan } => plan,
        StageView::Location { plan } => plan,
        StageView::Flags { plan, .. } => plan,
        StageView::Cargo { plan, .. } => plan,
        StageView::PostProcessing { plan, .. } => plan,
        _ => arbitrary(),
    }
}

/// How many programs a build that has not ended has asked to be processed after so many events.
pub open spec fn asked_after(events: nat) -> nat {
    if events < 6 {
        0
    } else {
        (events - 5) as nat
    }
}

/// A build that has not ended keeps to its plan: what is left of it are the planned programs
/// without those that it has asked to be processed.
pub proof fn builds_keep_to_their_plan(
    config: Config,
    manifest_path: Option<PathBuf>,
    events: Seq<EventView>,
)
    requires
        events.len() > 0,
        run(config, manifest_path, events) is Some,
        !(run(config, manifest_path, events)->0.stage is Done),
    ensures
        events[0] is MetadataRead,
        ({
            let planned = planned_programs(config, events[0]->metadata);
            let plan = plan_at(run(config, manifest_path, events)->0.stage);
            &&& plan.target_directory == target_directory_of(config, events[0]->metadata)
            &&& asked_after(events.len()) <= planned.len()
            &&& plan.programs == planned.skip(asked_after(events.len()) as int)
        }),
    decreases events.len(),
{
    stages_follow_in_order(config, manifest_path, events);
    assert(in_order(events, 0));
    let before = events.drop_last();
    let planned = planned_programs(config, events[0]->metadata);
    if before.len() == 0 {
        assert(before =~= Seq::empty());
        assert(planned.skip(0) =~= planned);
    } else {
        builds_keep_to_their_plan(config, manifest_path, before);
        assert(before[0] == events[0]);
        stages_follow_in_order(config, manifest_path, before);
        if events.len() >= 6 {
            let left = planned.skip(asked_after(before.len()) as int);
            assert(left.drop_first() =~= planned.skip(asked_after(events.len()) as int));
        }
    }
}

/// Whatever happens, the programs that a build asks to be processed are the planned ones, one after
/// the other from the first, each with the name of its only dynamic library.
pub proof fn planned_programs_are_processed_in_turn(
    config: Config,
    manifest_path: Option<PathBuf>,
    events: Seq<EventView>,
)
    requires
        run(config, manifest_path, events) is Some,
        run(config, manifest_path, events)->0.action is PostProcess,
    ensures
        ({
            let planned = planned_programs(config, events[0]->metadata);
            let turn = events.len() - 6;
            &&& 0 <= turn < planned.len()
            &&& planned[turn].name is Ok
            &&& run(config, manifest_path, events)->0.action == (ActionView::PostProcess {
                platform_tools_dir: events[3]->platform_tools_dir,
                target_directory: target_directory_of(config, events[0]->metadata),
                program_name: planned[turn].name->Ok_0,
            })
        }),
{
    nothing_is_processed_before_cargo_is_done(config, manifest_path, events);
    let before = events.drop_last();
    builds_keep_to_their_plan(config, manifest_path, before);
    builds_keep_their_tools(config, manifest_path, before);
    assert(before[0] == events[0]);
    assert(before[3] == events[3]);
    stages_follow_in_order(config, manifest_path, before);
    let planned = planned_programs(config, events[0]->metadata);
    assert(plan_at(run(config, manifest_path, before)->0.stage).programs == planned.skip(
        events.len() - 6,
    ));
}

/// A build ends: it takes no more events than there are planned programs and six.
pub proof fn builds_end(config: Config, manifest_path: Option<PathBuf>, events: Seq<EventView>)
    requires
        run(config, manifest_path, events) is Some,
        events.len() > 6,
    ensures
        events[0] is MetadataRead,
        events.len() <= 6 + planned_programs(config, events[0]->metadata).len(),
{
    let before = events.drop_last();
    builds_keep_to_their_plan(config, manifest_path, before);
    assert(before[0] == events[0]);
}

/// What the outside answers in a build in which nothing fails.
pub struct Answers {
    pub metadata: MetadataView,
    pub version: Seq<char>,
    pub platform_tools_dir: PathBuf,
    pub target_triple: Seq<char>,
    pub toolchain_name: Seq<char>,
    pub rustflags: Option<Seq<char>>,
    pub target_rustflags: Option<Seq<char>>,
}

/// The events of a build in which nothing fails and `processed` programs have been processed.
pub open spec fn smooth_events(answers: Answers, processed: nat) -> Seq<EventView> {
    seq![
        EventView::MetadataRead { metadata: answers.metadata },
        EventView::DirectoryEntered,
        EventView::ToolsInstalled { version: answers.version },
        EventView::ToolsFound {
            platform_tools_dir: answers.platform_tools_dir,
            target_triple: answers.target_triple,
            toolchain_name: answers.toolchain_name,
            corrupted: false,
        },
        EventView::FlagsRead {
            rustflags: answers.rustflags,
            target_rustflags: answers.target_rustflags,
        },
        EventView::CargoFinished,
    ] + Seq::new(processed, |i: int| EventView::PostProcessed)
}

/// What a build asks for when its programs are those given and the first `processed` of them have
/// been processed: the next, the error of the next, or the end.
pub open spec fn processing_action(
    platform_tools_dir: PathBuf,
    target_directory: Seq<char>,
    programs: Seq<ProgramView>,
    processed: nat,
) -> ActionView {
    if processed >= programs.len() {
        ActionView::Finish
    } else {
        match programs[processed as int].name {
            Ok(program_name) => ActionView::PostProcess {
                platform_tools_dir,
                target_directory,
                program_name,
            },
            Err(error) => ActionView::Fail { error },
        }
    }
}

/// The steps of a smooth build with the given plan.
proof fn smooth_build(
    config: Config,
    manifest_path: Option<PathBuf>,
    answers: Answers,
    processed: nat,
    directory: Seq<char>,
    plan: PlanView,
)
    requires
        metadata_step(config, answers.metadata).stage == (StageView::Directory { directory, plan }),
        processed <= plan.programs.len(),
        forall|i: int| 0 <= i < processed ==> (#[trigger] plan.programs[i]).name is Ok,
    ensures
        run(config, manifest_path, smooth_events(answers, processed)) == Some(
            process_step(
                PlanView { programs: plan.programs.skip(processed as int), ..plan },
                answers.platform_tools_dir,
            ),
        ),
    decreases processed,
{
    let events = smooth_events(answers, processed);
    if processed == 0 {
        let platform_tools_dir = answers.platform_tools_dir;
        assert(events.drop_last() =~= events.take(5));
        assert(events.take(5).drop_last() =~= events.take(4));
        assert(events.take(4).drop_last() =~= events.take(3));
        assert(events.take(3).drop_last() =~= events.take(2));
        assert(events.take(2).drop_last() =~= events.take(1));
        assert(events.take(1).drop_last() =~= Seq::empty());
        assert(run(config, manifest_path, Seq::empty()) == Some(first_step(config, manifest_path)));
        assert(run(config, manifest_path, events.take(1)) == Some(
            metadata_step(config, answers.metadata),
        ));
        assert(run(config, manifest_path, events.take(2))->0.stage == (StageView::Tools { plan }));
        assert(run(config, manifest_path, events.take(3))->0.stage == (StageView::Location {
            plan,
        }));
        assert(run(config, manifest_path, events.take(4))->0.stage == (StageView::Flags {
            plan,
            platform_tools_dir,
            target_triple: answers.target_triple,
            toolchain_name: answers.toolchain_name,
            flags_variable: flags_variable_of(answers.target_triple),
        }));
        assert(run(config, manifest_path, events.take(5))->0.stage == (StageView::Cargo {
            plan,
            platform_tools_dir,
        }));
        assert(plan.programs.skip(0) =~= plan.programs);
    } else {
        let earlier = (processed - 1) as nat;
        smooth_build(config, manifest_path, answers, earlier, directory, plan);
        assert(events.drop_last() =~= smooth_events(answers, earlier));
        let left = plan.programs.skip(earlier as int);
        assert(left[0] == plan.programs[earlier as int]);
        assert(left.drop_first() =~= plan.programs.skip(processed as int));
    }
}

/// Where the workspace is built, each package of it with a dynamic library is processed once, in
/// the order of the packages, up to the first that builds more than one program. If there is no
/// such package, the build ends well after the last.
pub proof fn workspace_builds_process_each_program(
    config: Config,
    manifest_path: Option<PathBuf>,
    answers: Answers,
    processed: nat,
)
    requires
        config.workspace || answers.metadata.root_package is None,
        processed <= sbf_programs(
            answers.metadata.packages,
            answers.metadata.workspace_members,
        ).len(),
        forall|i: int|
            0 <= i < processed ==> (#[trigger] sbf_programs(
                answers.metadata.packages,
                answers.metadata.workspace_members,
            )[i]).name is Ok,
    ensures
        ({
            let after = run(config, manifest_path, smooth_events(answers, processed));
            &&& after is Some
            &&& after->0.action == processing_action(
                answers.platform_tools_dir,
                target_directory_of(config, answers.metadata),
                sbf_programs(answers.metadata.packages, answers.metadata.workspace_members),
                processed,
            )
        }),
{
    let metadata = answers.metadata;
    let plan = PlanView {
        target_directory: target_directory_of(config, metadata),
        for_root_package: false,
        programs: sbf_programs(metadata.packages, metadata.workspace_members),
    };
    smooth_build(config, manifest_path, answers, processed, metadata.workspace_root, plan);
}

/// Where the root package alone is built, its program is processed, and the build ends well.
pub proof fn package_builds_process_one_program(
    config: Config,
    manifest_path: Option<PathBuf>,
    answers: Answers,
)
    requires
        !config.workspace,
        answers.metadata.root_package is Some,
        answers.metadata.root_package->0.directory is Some,
        program_name(answers.metadata.root_package->0) is Ok,
    ensures
        ({
            let built = run(config, manifest_path, smooth_events(answers, 0));
            &&& built is Some
            &&& built->0.action == (ActionView::PostProcess {
                platform_tools_dir: answers.platform_tools_dir,
                target_directory: target_directory_of(config, answers.metadata),
                program_name: program_name(answers.metadata.root_package->0)->Ok_0,
            })
        }),
        ({
            let processed = run(config, manifest_path, smooth_events(answers, 1));
            processed is Some && processed->0.action is Finish
        }),
{
    let package = answers.metadata.root_package->0;
    let plan = PlanView {
        target_directory: target_directory_of(config, answers.metadata),
        for_root_package: true,
        programs: seq![ProgramView { notices: Seq::empty(), name: program_name(package) }],
    };
    smooth_build(config, manifest_path, answers, 0, package.directory->0, plan);
    smooth_build(config, manifest_path, answers, 1, package.directory->0, plan);
}

/// What a build asks for once cargo has described the packages.
proof fn request_after_the_metadata(
    config: Config,
    manifest_path: Option<PathBuf>,
    metadata: MetadataView,
)
    ensures
        run(config, manifest_path, seq![EventView::MetadataRead { metadata }]) == Some(
            metadata_step(config, metadata),
        ),
{
    let events = seq![EventView::MetadataRead { metadata }];
    assert(events.drop_last() =~= Seq::empty());
    assert(run(config, manifest_path, Seq::empty()) == Some(first_step(config, manifest_path)));
}

/// A package with several programs, and one whose manifest is in no directory, is refused before
/// anything is done.
pub proof fn unfit_root_packages_are_refused_at_once(
    config: Config,
    manifest_path: Option<PathBuf>,
    metadata: MetadataView,
)
    requires
        !config.workspace,
        metadata.root_package is Some,
        program_name(metadata.root_package->0) is Err || metadata.root_package->0.directory is None,
    ensures
        ({
            let refused = run(config, manifest_path, seq![EventView::MetadataRead { metadata }]);
            &&& refused is Some
            &&& refused->0.action == (ActionView::Fail {
                error: match program_name(metadata.root_package->0) {
                    Err(error) => error,
                    Ok(_) => BuildErrorView::NoManifestDirectory {
                        manifest_path: metadata.root_package->0.manifest_path,
                    },
                },
            })
        }),
{
    request_after_the_metadata(config, manifest_path, metadata);
}

/// A root package that is built alone is built where its manifest is: where that is a file in a
/// plain directory, this directory is entered.
pub proof fn packages_are_built_where_their_manifest_is(
    config: Config,
    manifest_path: Option<PathBuf>,
    metadata: MetadataView,
    directory: Seq<char>,
    name: Seq<char>,
)
    requires
        !config.workspace,
        metadata.root_package is Some,
        program_name(metadata.root_package->0) is Ok,
        parent_of(metadata.root_package->0.manifest_path, metadata.root_package->0.directory),
        plain_directory(directory),
        plain_file_name(name),
        metadata.root_package->0.manifest_path == directory + seq!['/'] + name,
    ensures
        ({
            let entered = run(config, manifest_path, seq![EventView::MetadataRead { metadata }]);
            &&& entered is Some
            &&& entered->0.action == (ActionView::EnterDirectory { directory })
        }),
{
    request_after_the_metadata(config, manifest_path, metadata);
}

/// A build enters the directory of the root package where that alone is built, else the root of
/// the workspace, and has the tools installed for the same.
pub proof fn builds_run_where_they_belong(
    config: Config,
    manifest_path: Option<PathBuf>,
    metadata: MetadataView,
)
    requires
        run(
            config,
            manifest_path,
            seq![EventView::MetadataRead { metadata }],
        )->0.action is EnterDirectory,
    ensures
        ({
            let alone = metadata.root_package is Some && !config.workspace;
            let read = EventView::MetadataRead { metadata };
            let entered = run(config, manifest_path, seq![read, EventView::DirectoryEntered]);
            &&& run(config, manifest_path, seq![read])->0.action == (ActionView::EnterDirectory {
                directory: if alone {
                    metadata.root_package->0.directory->0
                } else {
                    metadata.workspace_root
                },
            })
            &&& alone ==> metadata.root_package->0.directory is Some
            &&& entered is Some
            &&& entered->0.action == (ActionView::InstallTools { for_root_package: alone })
        }),
{
    let read = EventView::MetadataRead { metadata };
    let events = seq![read, EventView::DirectoryEntered];
    request_after_the_metadata(config, manifest_path, metadata);
    assert(events.drop_last() =~= seq![read]);
}

/// Only packages of the workspace with a dynamic library are processed when it is built.
pub proof fn processed_programs_are_of_the_workspace(metadata: MetadataView, i: int)
    requires
        0 <= i < sbf_programs(metadata.packages, metadata.workspace_members).len(),
    ensures
        exists|package: PackageView| #[trigger]
            metadata.packages.contains(package) && is_sbf_package(
                metadata.workspace_members,
                package,
            ) && program_of(package) == sbf_programs(
                metadata.packages,
                metadata.workspace_members,
            )[i],
{
    let is_sbf = |package: PackageView| is_sbf_package(metadata.workspace_members, package);
    let kept = metadata.packages.filter(is_sbf);
    metadata.packages.lemma_filter_contains_rev(is_sbf, kept[i]);
    assert(metadata.packages.contains(kept[i]));
}

/// The name of a program is as long as that of its target and holds no `-`.
pub proof fn program_names_hold_no_dash(package: PackageView, name: Seq<char>)
    requires
        program_name(package) matches Ok(Some(program)) && program == name,
    ensures
        cdylib_names(package.targets).len() == 1,
        name.len() == cdylib_names(package.targets)[0].len(),
        forall|i: int| 0 <= i < name.len() ==> name[i] != '-',
{
}

/// The flags that the user sets for all targets apply to the one that is built for, and to no
/// other: they are taken from the variable for all targets, and stand first among the flags for
/// this one, before those that the user sets for this one.
pub proof fn user_flags_move_to_the_target(
    config: Config,
    target_triple: Seq<char>,
    toolchain_name: Seq<char>,
    flags_variable: Seq<char>,
    rustflags: Option<Seq<char>>,
    target_rustflags: Option<Seq<char>>,
)
    ensures
        ({
            let invocation = cargo_invocation(
                config,
                target_triple,
                toolchain_name,
                flags_variable,
                rustflags,
                target_rustflags,
            );
            &&& rustflags is Some <==> invocation.removes_rustflags
            &&& (text_or_empty(rustflags) + " "@ + text_or_empty(target_rustflags)).is_prefix_of(
                invocation.flags,
            )
        }),
{
}

/// In a debug build, paths in binaries are kept whether or not their prefix is to be removed.
pub proof fn debug_builds_keep_paths(
    config: Config,
    other: Config,
    rustflags: Option<Seq<char>>,
    target_rustflags: Option<Seq<char>>,
)
    requires
        config.debug,
        other == (Config { remap_cwd: !config.remap_cwd, ..config }),
    ensures
        target_flags(config, rustflags, target_rustflags) == target_flags(
            other,
            rustflags,
            target_rustflags,
        ),
{
}

/// The arguments that the user passes on stand last, as they are, and change none of those before.
pub proof fn user_arguments_stand_last(
    config: Config,
    target_triple: Seq<char>,
    toolchain_name: Seq<char>,
)
    ensures
        slices(config.cargo_args@).is_suffix_of(
            cargo_arguments(config, target_triple, toolchain_name),
        ),
        own_arguments(config, target_triple, toolchain_name).is_prefix_of(
            cargo_arguments(config, target_triple, toolchain_name),
        ),
{
    let all = cargo_arguments(config, target_triple, toolchain_name);
    let own = own_arguments(config, target_triple, toolchain_name);
    assert(all.subrange(all.len() - config.cargo_args@.len(), all.len() as int) =~= slices(
        config.cargo_args@,
    ));
    assert(all.subrange(0, own.len() as int) =~= own);
}

/// Unless rustup is left aside, the first argument names the toolchain; then cargo is told to build
/// for the target, and to optimize unless debug objects are asked for.
pub proof fn the_toolchain_is_named_first(
    config: Config,
    target_triple: Seq<char>,
    toolchain_name: Seq<char>,
)
    ensures
        ({
            let arguments = cargo_arguments(config, target_triple, toolchain_name);
            let first: int = if config.no_rustup_override {
                0
            } else {
                1
            };
            &&& arguments.len() >= first + 3
            &&& !config.no_rustup_override ==> arguments[0] == "+"@ + toolchain_name
            &&& arguments[first] == "build"@
            &&& arguments[first + 1] == "--target"@
            &&& arguments[first + 2] == target_triple
            &&& !config.debug ==> arguments.len() > first + 3 && arguments[first + 3]
                == "--release"@
        }),
{
    let arguments = cargo_arguments(config, target_triple, toolchain_name);
    let start = flag_if(!config.no_rustup_override, "+"@ + toolchain_name) + seq![
        "build"@,
        "--target"@,
        target_triple,
    ] + flag_if(!config.debug, "--release"@);
    assert(forall|i: int| 0 <= i < start.len() ==> arguments[i] == start[i]);
}

/// Whether two arguments stand one right after the other.
pub open spec fn paired(arguments: Seq<Seq<char>>, first: Seq<char>, second: Seq<char>) -> bool {
    exists|i: int|
        0 <= i < arguments.len() - 1 && #[trigger] arguments[i] == first && arguments[i + 1]
            == second
}

/// A flag whose condition holds is among the arguments.
proof fn flag_is_passed_on(
    arguments: Seq<Seq<char>>,
    before: Seq<Seq<char>>,
    condition: bool,
    flag: Seq<char>,
)
    requires
        begins(arguments, before + flag_if(condition, flag)),
    ensures
        begins(arguments, before),
        condition ==> arguments.contains(flag),
{
    begins_with_parts(arguments, before, flag_if(condition, flag));
    if condition {
        let part = arguments.subrange(before.len() as int, (before.len() + 1) as int);
        assert(part == seq![flag]);
        assert(part[0] == flag);
        assert(arguments[before.len() as int] == flag);
    }
}

/// The number of jobs is among the arguments.
proof fn jobs_are_passed_on(
    arguments: Seq<Seq<char>>,
    before: Seq<Seq<char>>,
    jobs: Option<String>,
)
    requires
        begins(arguments, before + jobs_arguments(jobs)),
    ensures
        begins(arguments, before),
        jobs matches Some(jobs) ==> paired(arguments, "--jobs"@, jobs@),
{
    begins_with_parts(arguments, before, jobs_arguments(jobs));
    if jobs is Some {
        let part = arguments.subrange(before.len() as int, (before.len() + 2) as int);
        assert(part == seq!["--jobs"@, jobs->0@]);
        assert(part[0] == "--jobs"@ && part[1] == jobs->0@);
        assert(arguments[before.len() as int] == "--jobs"@);
    }
}

/// Each feature is among the arguments.
proof fn features_are_passed_on(
    arguments: Seq<Seq<char>>,
    before: Seq<Seq<char>>,
    features: Seq<Seq<char>>,
)
    requires
        begins(arguments, before + feature_arguments(features)),
    ensures
        begins(arguments, before),
        forall|i: int|
            0 <= i < features.len() ==> paired(arguments, "--features"@, #[trigger] features[i]),
{
    begins_with_parts(arguments, before, feature_arguments(features));
    let part = arguments.subrange(
        before.len() as int,
        (before.len() + 2 * features.len()) as int,
    );
    assert forall|i: int| 0 <= i < features.len() implies paired(
        arguments,
        "--features"@,
        #[trigger] features[i],
    ) by {
        assert(part[2 * i] == "--features"@);
        assert(part[2 * i + 1] == features[i]);
        assert(arguments[before.len() + 2 * i] == "--features"@);
    }
}

/// What the configuration asks of cargo is passed on to it: each feature, the number of jobs, and
/// each flag.
pub proof fn requests_are_passed_on(
    config: Config,
    target_triple: Seq<char>,
    toolchain_name: Seq<char>,
)
    ensures
        ({
            let arguments = cargo_arguments(config, target_triple, toolchain_name);
            &&& forall|i: int|
                0 <= i < config.features@.len() ==> #[trigger] paired(
                    arguments,
                    "--features"@,
                    config.features@[i]@,
                )
            &&& config.jobs matches Some(jobs) ==> paired(arguments, "--jobs"@, jobs@)
            &&& config.no_default_features ==> arguments.contains("--no-default-features"@)
            &&& config.verbose ==> arguments.contains("--verbose"@)
            &&& config.quiet ==> arguments.contains("--quiet"@)
            &&& config.workspace ==> arguments.contains("--workspace"@)
        }),
{
    let arguments = cargo_arguments(config, target_triple, toolchain_name);
    let start = flag_if(!config.no_rustup_override, "+"@ + toolchain_name) + seq![
        "build"@,
        "--target"@,
        target_triple,
    ] + flag_if(!config.debug, "--release"@);
    let defaults = start + flag_if(config.no_default_features, "--no-default-features"@);
    let features = defaults + feature_arguments(texts(config.features@));
    let verbose = features + flag_if(config.verbose, "--verbose"@);
    let quiet = verbose + flag_if(config.quiet, "--quiet"@);
    let jobs = quiet + jobs_arguments(config.jobs);
    begins_with_itself(arguments);
    begins_with_parts(
        arguments,
        own_arguments(config, target_triple, toolchain_name),
        slices(config.cargo_args@),
    );
    flag_is_passed_on(arguments, jobs, config.workspace, "--workspace"@);
    jobs_are_passed_on(arguments, quiet, config.jobs);
    flag_is_passed_on(arguments, verbose, config.quiet, "--quiet"@);
    flag_is_passed_on(arguments, features, config.verbose, "--verbose"@);
    features_are_passed_on(arguments, defaults, texts(config.features@));
    flag_is_passed_on(
        arguments,
        start,
        config.no_default_features,
        "--no-default-features"@,
    );
    assert forall|i: int| 0 <= i < config.features@.len() implies #[trigger] paired(
        arguments,
        "--features"@,
        config.features@[i]@,
    ) by {
        assert(texts(config.features@)[i] == config.features@[i]@);
    }
}

/// The size of a stack frame stands last among the compiler's flags, in digits that denote it.
pub proof fn the_stack_size_is_told(
    config: Config,
    rustflags: Option<Seq<char>>,
    target_rustflags: Option<Seq<char>>,
)
    requires
        config.sbf_stack_size is Some,
    ensures
        ({
            let size = config.sbf_stack_size->0;
            let flags = target_flags(config, rustflags, target_rustflags);
            &&& (" -C llvm-args=-sbf-stack-size="@ + decimal(size as nat)).is_suffix_of(flags)
            &&& decimal_value(decimal(size as nat)) == size
        }),
{
    let size = config.sbf_stack_size->0;
    let flags = target_flags(config, rustflags, target_rustflags);
    let told = " -C llvm-args=-sbf-stack-size="@ + decimal(size as nat);
    decimal_denotes_its_number(size as nat);
    assert(flags.subrange(flags.len() - told.len(), flags.len() as int) =~= told);
}

/// The variable for a target's flags holds no `-`, whatever the name of the target.
pub proof fn flags_variables_hold_no_dash(upper: Seq<char>, i: int)
    requires
        0 <= i < variable_of_upper(upper).len(),
    ensures
        variable_of_upper(upper)[i] != '-',
{
    reveal_strlit("CARGO_TARGET_");
    reveal_strlit("_RUSTFLAGS");
}

/// A target directory that takes the place of the one that the arguments for cargo name is the one
/// that they name then; there are as many arguments as before, and the others are what they were.
pub proof fn a_replaced_target_dir_is_named<'a>(cargo_args: Seq<&'a str>, directory: &'a str)
    requires
        target_dir_index(slices(cargo_args)) is Some,
    ensures
        ({
            let replaced = with_target_dir(cargo_args, Some(directory));
            &&& named_target_dir(slices(replaced)) == Some(directory@)
            &&& replaced.len() == cargo_args.len()
            &&& forall|i: int|
                0 <= i < cargo_args.len() && Some(i) != target_dir_index(slices(cargo_args))
                    ==> #[trigger] replaced[i] == cargo_args[i]
        }),
{
    let flag = "--target-dir"@;
    let args = slices(cargo_args);
    let changed = slices(with_target_dir(cargo_args, Some(directory)));
    args.index_of_first_ensures(flag);
    changed.index_of_first_ensures(flag);
    let i = args.index_of_first(flag)->0;
    assert(changed[i] == flag);
    assert(changed.contains(flag));
    let j = changed.index_of_first(flag)->0;
    if j < i {
        assert(changed[j] == args[j]);
    }
    assert(j == i);
}

} // verus!
