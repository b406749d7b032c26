//! What a build asks for and says, told by what it was asked and answered.

use crate::cargo::{cargo_arguments, feature_notices_of, flags_variable_of, target_flags};
use crate::config::Config;
use crate::laws::run;
use crate::metadata::{sbf_programs, MetadataView};
use crate::package::{program_of, PackageView};
use crate::report::{BuildErrorView, NoticeView};
use crate::session::{
    build_directory, metadata_step, next_step, ActionView, EventView, PlanView, StageView,
};
use std::path::PathBuf;
use vstd::prelude::*;

verus! {

/// Each stage waits for events of its own and takes no others.
pub proof fn each_stage_takes_its_own_events(config: Config, stage: StageView, event: EventView)
    ensures
        next_step(config, stage, event) is Some <==> {
            ||| stage is Metadata && (event is MetadataRead || event is MetadataFailed)
            ||| stage is Directory && (event is DirectoryEntered || event is DirectoryRefused)
            ||| stage is Tools && event is ToolsInstalled
            ||| stage is Location && event is ToolsFound
            ||| stage is Flags && event is FlagsRead
            ||| stage is Cargo && event is CargoFinished
            ||| stage is PostProcessing && event is PostProcessed
        },
{
}

/// A plan is handed from stage to stage as it is, but for the program that is processed next, which
/// leaves it; the tools that were found are handed on too.
pub proof fn plans_are_handed_on(config: Config, stage: StageView, event: EventView)
    requires
        next_step(config, stage, event) is Some,
        !(next_step(config, stage, event)->0.stage is Done),
    ensures
        ({
            let next = next_step(config, stage, event)->0.stage;
            &&& stage matches StageView::Directory { plan, .. } ==> next == (StageView::Tools {
                plan,
            })
            &&& stage matches StageView::Tools { plan } ==> next == (StageView::Location { plan })
            &&& stage matches StageView::Location { plan } ==> {
                &&& next matches StageView::Flags {
                    plan: handed,
                    platform_tools_dir,
                    target_triple,
                    toolchain_name,
                    flags_variable,
                }
                &&& handed == plan
                &&& platform_tools_dir == event->platform_tools_dir
                &&& target_triple == event->target_triple
                &&& toolchain_name == event->toolchain_name
                &&& flags_variable == flags_variable_of(event->target_triple)
            }
            &&& stage matches StageView::Flags { plan, platform_tools_dir, .. } ==> next == (
            StageView::Cargo { plan, platform_tools_dir })
            &&& stage matches StageView::Cargo { plan, platform_tools_dir } ==> {
                &&& plan.programs.len() > 0
                &&& next == (StageView::PostProcessing {
                    plan: PlanView { programs: plan.programs.skip(1), ..plan },
                    platform_tools_dir,
                })
            }
            &&& stage matches StageView::PostProcessing { plan, platform_tools_dir } ==> {
                &&& plan.programs.len() > 0
                &&& next == (StageView::PostProcessing {
                    plan: PlanView { programs: plan.programs.skip(1), ..plan },
                    platform_tools_dir,
                })
            }
        }),
{
    match stage {
        StageView::Cargo { plan, .. } => {
            assert(plan.programs.drop_first() =~= plan.programs.skip(1));
        },
        StageView::PostProcessing { plan, .. } => {
            assert(plan.programs.drop_first() =~= plan.programs.skip(1));
        },
        _ => {},
    }
}

/// The stage of a build that has not ended, told by the plan that it made.
spec fn stage_with(first: StageView, events: Seq<EventView>) -> StageView {
    let plan = first->Directory_plan;
    if events.len() == 1 {
        first
    } else if events.len() == 2 {
        StageView::Tools { plan }
    } else if events.len() == 3 {
        StageView::Location { plan }
    } else if events.len() == 4 {
        StageView::Flags {
            plan,
            platform_tools_dir: events[3]->platform_tools_dir,
            target_triple: events[3]->target_triple,
            toolchain_name: events[3]->toolchain_name,
            flags_variable: flags_variable_of(events[3]->target_triple),
        }
    } else if events.len() == 5 {
        StageView::Cargo { plan, platform_tools_dir: events[3]->platform_tools_dir }
    } else {
        StageView::PostProcessing {
            plan: PlanView { programs: plan.programs.skip(events.len() - 5), ..plan },
            platform_tools_dir: events[3]->platform_tools_dir,
        }
    }
}

/// A build that has not ended is where its events have brought it.
proof fn builds_stand_where_they_came(
    config: Config,
    manifest_path: Option<PathBuf>,
    events: Seq<EventView>,
)
    requires
        run(config, manifest_path, events) is Some,
        !(run(config, manifest_path, events)->0.stage is Done),
    ensures
        events.len() == 0 ==> run(config, manifest_path, events)->0.stage is Metadata,
        events.len() > 0 ==> {
            &&& events[0] is MetadataRead
            &&& metadata_step(config, events[0]->metadata).stage is Directory
            &&& run(config, manifest_path, events)->0.stage == stage_with(
                metadata_step(config, events[0]->metadata).stage,
                events,
            )
        },
        events.len() > 3 ==> events[3] is ToolsFound,
        events.len() > 5 ==> events.len() - 5 <= metadata_step(
            config,
            events[0]->metadata,
        ).stage->Directory_plan.programs.len(),
    decreases events.len(),
{
    if events.len() > 0 {
        let before = events.drop_last();
        builds_stand_where_they_came(config, manifest_path, before);
        assert(forall|i: int| 0 <= i < before.len() ==> events[i] == before[i]);
        if events.len() == 1 {
            assert(events.last() == events[0]);
        } else {
            let plan = metadata_step(config, events[0]->metadata).stage->Directory_plan;
            if events.len() == 4 {
                assert(events.last() == events[3]);
            }
            if events.len() == 6 {
                assert(plan.programs.drop_first() =~= plan.programs.skip(1));
            }
            if events.len() > 6 {
                let left = plan.programs.skip(before.len() - 5);
                assert(left.drop_first() =~= plan.programs.skip(events.len() - 5));
            }
        }
    }
}

/// One event more leads a build to the step that follows its stage.
proof fn one_event_more(
    config: Config,
    manifest_path: Option<PathBuf>,
    events: Seq<EventView>,
    event: EventView,
)
    requires
        run(config, manifest_path, events) is Some,
    ensures
        run(config, manifest_path, events.push(event)) == next_step(
            config,
            run(config, manifest_path, events)->0.stage,
            event,
        ),
{
    assert(events.push(event).drop_last() =~= events);
}

/// A build that has not ended takes the event that answers its last request, whatever the answer
/// is, and no other: first the packages, then the directory, the tools twice, the flags, cargo, and
/// from then on that a program is processed.
pub proof fn every_answer_is_taken(
    config: Config,
    manifest_path: Option<PathBuf>,
    events: Seq<EventView>,
    event: EventView,
)
    requires
        run(config, manifest_path, events) is Some,
        !(run(config, manifest_path, events)->0.stage is Done),
    ensures
        run(config, manifest_path, events.push(event)) is Some <==> {
            ||| events.len() == 0 && (event is MetadataRead || event is MetadataFailed)
            ||| events.len() == 1 && (event is DirectoryEntered || event is DirectoryRefused)
            ||| events.len() == 2 && event is ToolsInstalled
            ||| events.len() == 3 && event is ToolsFound
            ||| events.len() == 4 && event is FlagsRead
            ||| events.len() == 5 && event is CargoFinished
            ||| events.len() > 5 && event is PostProcessed
        },
{
    one_event_more(config, manifest_path, events, event);
    builds_stand_where_they_came(config, manifest_path, events);
}

/// A build starts with the request for the packages of the given manifest, says nothing, and tells
/// cargo to leave the network alone exactly where that is asked for.
pub proof fn builds_start_with_the_packages(config: Config, manifest_path: Option<PathBuf>)
    ensures
        ({
            let start = run(config, manifest_path, Seq::empty());
            &&& start is Some
            &&& start->0.stage is Metadata
            &&& start->0.notices.len() == 0
            &&& start->0.action matches ActionView::ReadMetadata { manifest_path: asked, options }
            &&& asked == manifest_path
            &&& options.len() == if config.offline {
                1nat
            } else {
                0nat
            }
            &&& config.offline ==> options[0] == "--offline"@
        }),
{
}

/// In every build, of the root package and of the workspace alike, what was built is sought in the
/// directory that the user named, and where they named none, in that which cargo chose.
pub proof fn programs_are_sought_where_cargo_puts_them(
    config: Config,
    manifest_path: Option<PathBuf>,
    events: Seq<EventView>,
)
    requires
        run(config, manifest_path, events) is Some,
        run(config, manifest_path, events)->0.action is PostProcess,
    ensures
        events.len() > 5,
        events[0] is MetadataRead,
        config.target_directory matches Some(directory) ==> run(
            config,
            manifest_path,
            events,
        )->0.action->target_directory == directory@,
        config.target_directory is None ==> run(
            config,
            manifest_path,
            events,
        )->0.action->target_directory == events[0]->metadata.target_directory,
{
    let before = events.drop_last();
    builds_stand_where_they_came(config, manifest_path, before);
    if before.len() > 0 {
        assert(before[0] == events[0]);
    }
}

/// What cargo says of the packages decides at once whether the build goes on, and where. The root
/// package alone is built where there is one and the workspace is not asked for: in the directory
/// of its manifest, unless it has no such directory or builds more than one program. Otherwise the
/// workspace is built, in its own directory, whatever its packages are.
pub proof fn packages_decide_where_to_build(
    config: Config,
    manifest_path: Option<PathBuf>,
    metadata: MetadataView,
)
    ensures
        ({
            let step = run(config, manifest_path, seq![EventView::MetadataRead { metadata }]);
            let action = step->0.action;
            &&& step is Some
            &&& metadata.root_package is None || config.workspace ==> action == (
            ActionView::EnterDirectory { directory: metadata.workspace_root })
            &&& metadata.root_package matches Some(package) ==> !config.workspace ==> {
                &&& program_of(package).name matches Err(error) ==> action == (ActionView::Fail {
                    error,
                })
                &&& program_of(package).name is Ok ==> {
                    &&& package.directory matches Some(directory) ==> action == (
                    ActionView::EnterDirectory { directory })
                    &&& package.directory is None ==> action == (ActionView::Fail {
                        error: BuildErrorView::NoManifestDirectory {
                            manifest_path: package.manifest_path,
                        },
                    })
                }
            }
        }),
{
    let events = Seq::<EventView>::empty();
    one_event_more(config, manifest_path, events, EventView::MetadataRead { metadata });
    assert(events.push(EventView::MetadataRead { metadata }) =~= seq![
        EventView::MetadataRead { metadata },
    ]);
}

/// The directory to build in is that of the package where there is one, and that of the workspace
/// where there is none; a package whose manifest is in no directory is refused by its path.
pub proof fn directories_are_those_of_the_package_or_the_workspace(
    package: PackageView,
    workspace_root: Seq<char>,
)
    ensures
        build_directory(None, workspace_root) == Ok::<Seq<char>, BuildErrorView>(workspace_root),
        package.directory matches Some(directory) ==> build_directory(
            Some(package),
            workspace_root,
        ) == Ok::<Seq<char>, BuildErrorView>(directory),
        package.directory is None ==> build_directory(Some(package), workspace_root) == Err::<
            Seq<char>,
            BuildErrorView,
        >(BuildErrorView::NoManifestDirectory { manifest_path: package.manifest_path }),
{
}

/// The tools are installed for the root package exactly where it alone is built, those of the
/// version that was installed are found, and the flags for the target that they build for are read.
pub proof fn tools_are_asked_for_as_the_build_needs_them(
    config: Config,
    manifest_path: Option<PathBuf>,
    events: Seq<EventView>,
)
    requires
        run(config, manifest_path, events) is Some,
    ensures
        ({
            let action = run(config, manifest_path, events)->0.action;
            &&& action matches ActionView::InstallTools { for_root_package } ==> {
                &&& events.len() == 2
                &&& events[0] is MetadataRead
                &&& for_root_package <==> events[0]->metadata.root_package is Some
                    && !config.workspace
            }
            &&& action matches ActionView::FindTools { version } ==> {
                &&& events.len() == 3
                &&& events[2] == (EventView::ToolsInstalled { version })
            }
            &&& action matches ActionView::ReadFlags { variable } ==> {
                &&& events.len() == 4
                &&& events[3] is ToolsFound
                &&& variable == flags_variable_of(events[3]->target_triple)
            }
        }),
{
    if events.len() > 0 {
        let before = events.drop_last();
        builds_stand_where_they_came(config, manifest_path, before);
        assert(forall|i: int| 0 <= i < before.len() ==> events[i] == before[i]);
    }
}

/// Cargo is called with the tools that were found, with the variable that was read, which is set to
/// the flags composed from those that were read, and with arguments for the target and the
/// toolchain of those tools.
pub proof fn cargo_is_called_with_what_was_found(
    config: Config,
    manifest_path: Option<PathBuf>,
    events: Seq<EventView>,
)
    requires
        run(config, manifest_path, events) is Some,
        run(config, manifest_path, events)->0.action is RunCargo,
    ensures
        events.len() == 5,
        events[3] is ToolsFound && !events[3]->corrupted,
        events[4] is FlagsRead,
        ({
            let action = run(config, manifest_path, events)->0.action;
            let asked = run(config, manifest_path, events.drop_last());
            &&& action->RunCargo_platform_tools_dir == events[3]->platform_tools_dir
            &&& asked is Some
            &&& asked->0.action == (ActionView::ReadFlags {
                variable: action->invocation.flags_variable,
            })
            &&& action->invocation.flags == target_flags(
                config,
                events[4]->rustflags,
                events[4]->target_rustflags,
            )
            &&& action->invocation.arguments == cargo_arguments(
                config,
                events[3]->target_triple,
                events[3]->toolchain_name,
            )
            &&& action->invocation.removes_rustflags <==> events[4]->rustflags is Some
            &&& action->invocation.script_on_failure == config.generate_child_script_on_failure
        }),
{
    let before = events.drop_last();
    builds_stand_where_they_came(config, manifest_path, before);
    assert(before.len() == 4);
    assert(forall|i: int| 0 <= i < before.len() ==> events[i] == before[i]);
    let earlier = before.drop_last();
    builds_stand_where_they_came(config, manifest_path, earlier);
    assert(before.last() == events[3]);
}

/// A build fails exactly for these reasons, and names the one that holds: cargo does not describe
/// the packages; the root package, built alone, builds more than one program or has no directory;
/// the directory that was asked for is refused; the tools lack parts; or a package of the workspace
/// builds more than one program, when its turn comes.
pub proof fn builds_fail_for_a_reason(
    config: Config,
    manifest_path: Option<PathBuf>,
    events: Seq<EventView>,
    event: EventView,
)
    requires
        run(config, manifest_path, events) is Some,
        run(config, manifest_path, events.push(event)) is Some,
    ensures
        ({
            let asked = run(config, manifest_path, events)->0.action;
            let action = run(config, manifest_path, events.push(event))->0.action;
            let metadata = events[0]->metadata;
            let alone = metadata.root_package is Some && !config.workspace;
            let programs = sbf_programs(metadata.packages, metadata.workspace_members);
            let turn = events.len() - 5;
            &&& event matches EventView::MetadataFailed { reason } ==> action == (
            ActionView::Fail { error: BuildErrorView::MetadataUnavailable { reason } })
            &&& event matches EventView::DirectoryRefused { reason } ==> {
                &&& asked matches ActionView::EnterDirectory { directory }
                &&& action == (ActionView::Fail {
                    error: BuildErrorView::DirectoryUnavailable { directory, reason },
                })
            }
            &&& event matches EventView::ToolsFound { corrupted, .. } ==> {
                &&& corrupted ==> action == (ActionView::Fail {
                    error: BuildErrorView::CorruptedToolchain,
                })
                &&& !corrupted ==> action is ReadFlags
            }
            &&& event is DirectoryEntered ==> action is InstallTools
            &&& event is ToolsInstalled ==> action is FindTools
            &&& event is FlagsRead ==> action is RunCargo
            &&& event is CargoFinished || event is PostProcessed ==> {
                &&& turn >= 0
                &&& alone && turn == 0 ==> action is PostProcess
                &&& alone && turn > 0 ==> action is Finish
                &&& !alone && turn >= programs.len() ==> action is Finish
                &&& !alone && turn < programs.len() ==> {
                    &&& programs[turn].name is Ok ==> action is PostProcess
                    &&& programs[turn].name matches Err(error) ==> action == (ActionView::Fail {
                        error,
                    })
                }
            }
        }),
{
    one_event_more(config, manifest_path, events, event);
    builds_stand_where_they_came(config, manifest_path, events);
    if events.len() == 1 {
        assert(events.drop_last() =~= Seq::empty());
        assert(events.last() == events[0]);
    }
    if events.len() > 5 {
        let plan = metadata_step(config, events[0]->metadata).stage->Directory_plan;
        let turn = events.len() - 5;
        let left = plan.programs.skip(turn);
        if turn < plan.programs.len() {
            assert(left[0] == plan.programs[turn]);
        }
    }
}

/// A program is processed under its own name when its turn comes: that of the root package where it
/// alone is built, else those of the workspace, one after the other.
pub proof fn programs_are_processed_under_their_names(
    config: Config,
    manifest_path: Option<PathBuf>,
    events: Seq<EventView>,
)
    requires
        run(config, manifest_path, events) is Some,
        run(config, manifest_path, events)->0.action is PostProcess,
    ensures
        ({
            let action = run(config, manifest_path, events)->0.action;
            let metadata = events[0]->metadata;
            let programs = sbf_programs(metadata.packages, metadata.workspace_members);
            let turn = events.len() - 6;
            &&& action->PostProcess_platform_tools_dir == events[3]->platform_tools_dir
            &&& metadata.root_package is Some && !config.workspace ==> {
                &&& turn == 0
                &&& program_of(metadata.root_package->0).name == Ok::<
                    Option<Seq<char>>,
                    BuildErrorView,
                >(action->program_name)
            }
            &&& metadata.root_package is None || config.workspace ==> {
                &&& 0 <= turn < programs.len()
                &&& programs[turn].name == Ok::<Option<Seq<char>>, BuildErrorView>(
                    action->program_name,
                )
            }
        }),
{
    let before = events.drop_last();
    builds_stand_where_they_came(config, manifest_path, before);
    assert(forall|i: int| 0 <= i < before.len() ==> events[i] == before[i]);
    let plan = metadata_step(config, events[0]->metadata).stage->Directory_plan;
    let turn = events.len() - 6;
    if turn > 0 {
        assert(plan.programs.skip(turn)[0] == plan.programs[turn]);
    }
}

/// A build says these things and nothing else: what deserves notice about a program, once, where
/// its name is settled; what deserves notice about the features, once the tools are found, sound or
/// not; and that `RUSTFLAGS` is removed, exactly where the user set it.
pub proof fn builds_say_what_deserves_notice(
    config: Config,
    manifest_path: Option<PathBuf>,
    events: Seq<EventView>,
    event: EventView,
)
    requires
        run(config, manifest_path, events) is Some,
        run(config, manifest_path, events.push(event)) is Some,
    ensures
        ({
            let notices = run(config, manifest_path, events.push(event))->0.notices;
            let metadata = events[0]->metadata;
            let alone = metadata.root_package is Some && !config.workspace;
            let programs = sbf_programs(metadata.packages, metadata.workspace_members);
            let turn = events.len() - 5;
            &&& event is MetadataFailed || event is DirectoryEntered || event is DirectoryRefused
                || event is ToolsInstalled ==> notices.len() == 0
            &&& event matches EventView::MetadataRead { metadata } ==> {
                &&& metadata.root_package is None || config.workspace ==> notices.len() == 0
                &&& metadata.root_package matches Some(package) ==> !config.workspace ==> notices
                    == program_of(package).notices
            }
            &&& event is ToolsFound ==> notices == feature_notices_of(config)
            &&& event matches EventView::FlagsRead { rustflags, .. } ==> {
                &&& rustflags is None ==> notices.len() == 0
                &&& rustflags is Some ==> notices == seq![
                    NoticeView::RustflagsRemoved {
                        variable: flags_variable_of(events[3]->target_triple),
                    },
                ]
            }
            &&& event is CargoFinished || event is PostProcessed ==> {
                &&& alone || turn >= programs.len() ==> notices.len() == 0
                &&& !alone && turn < programs.len() ==> notices == programs[turn].notices
            }
        }),
{
    one_event_more(config, manifest_path, events, event);
    builds_stand_where_they_came(config, manifest_path, events);
    if events.len() > 5 {
        let plan = metadata_step(config, events[0]->metadata).stage->Directory_plan;
        let turn = events.len() - 5;
        if turn < plan.programs.len() {
            assert(plan.programs.skip(turn)[0] == plan.programs[turn]);
        }
    }
}

} // verus!
