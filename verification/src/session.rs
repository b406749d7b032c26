//! A build, as a conversation: it asks for one action at a time, is told what came of it, and
//! decides what is next.

use crate::cargo::{
    cargo_invocation, feature_notices, feature_notices_of, flags_variable, flags_variable_of,
    plan_cargo, variable_of_upper, CargoInvocation, CargoInvocationView,
};
use crate::command_line::{metadata_options, metadata_options_of};
use crate::config::Config;
use crate::metadata::{sbf_programs, Metadata, MetadataView};
use crate::package::{
    generate_program_name, program_of, programs_view, Package, PackageView, Program, ProgramView,
};
use crate::report::{notices_view, BuildError, BuildErrorView, Notice, NoticeView};
use crate::text::{ascii, ascii_uppercase, optional_text, texts};
use std::path::PathBuf;
use vstd::prelude::*;

verus! {

/// What a build asks for.
#[derive(Debug)]
pub enum Action<'a> {
    /// Run cargo's metadata command on this manifest, if one is given, with these options.
    ReadMetadata { manifest_path: Option<PathBuf>, options: Vec<String> },
    /// Make this the current directory.
    EnterDirectory { directory: String },
    /// Install and link the tools, for the root package or for the workspace.
    InstallTools { for_root_package: bool },
    /// Find the tools of this version.
    FindTools { version: String },
    /// Read `RUSTFLAGS` and this variable.
    ReadFlags { variable: String },
    /// Run cargo with the tools in this directory.
    RunCargo { platform_tools_dir: &'a PathBuf, invocation: CargoInvocation },
    /// Process what was built for a program, if there is one, with the tools in this directory.
    PostProcess {
        platform_tools_dir: &'a PathBuf,
        target_directory: String,
        program_name: Option<String>,
    },
    /// Stop with an error.
    Fail { error: BuildError },
    /// Stop, since all is done.
    Finish,
}

/// An `Action` over sequences of characters.
pub enum ActionView {
    ReadMetadata { manifest_path: Option<PathBuf>, options: Seq<Seq<char>> },
    EnterDirectory { directory: Seq<char> },
    InstallTools { for_root_package: bool },
    FindTools { version: Seq<char> },
    ReadFlags { variable: Seq<char> },
    RunCargo { platform_tools_dir: PathBuf, invocation: CargoInvocationView },
    PostProcess {
        platform_tools_dir: PathBuf,
        target_directory: Seq<char>,
        program_name: Option<Seq<char>>,
    },
    Fail { error: BuildErrorView },
    Finish,
}

impl View for Action<'_> {
    type V = ActionView;

    open spec fn view(&self) -> ActionView {
        match *self {
            Action::ReadMetadata { manifest_path, options } => ActionView::ReadMetadata {
                manifest_path,
                options: texts(options@),
            },
            Action::EnterDirectory { directory } => ActionView::EnterDirectory {
                directory: directory@,
            },
            Action::InstallTools { for_root_package } => ActionView::InstallTools {
                for_root_package,
            },
            Action::FindTools { version } => ActionView::FindTools { version: version@ },
            Action::ReadFlags { variable } => ActionView::ReadFlags { variable: variable@ },
            Action::RunCargo { platform_tools_dir, invocation } => ActionView::RunCargo {
                platform_tools_dir: *platform_tools_dir,
                invocation: invocation@,
            },
            Action::PostProcess { platform_tools_dir, target_directory, program_name } =>
                ActionView::PostProcess {
                platform_tools_dir: *platform_tools_dir,
                target_directory: target_directory@,
                program_name: optional_text(program_name),
            },
            Action::Fail { error } => ActionView::Fail { error: error@ },
            Action::Finish => ActionView::Finish,
        }
    }
}

/// What came of an action.
#[derive(Debug)]
pub enum Event<'a> {
    /// Cargo described the packages.
    MetadataRead { metadata: Metadata },
    /// Cargo did not describe the packages.
    MetadataFailed { reason: String },
    /// The directory is the current one.
    DirectoryEntered,
    /// The directory could not be entered.
    DirectoryRefused { reason: String },
    /// The tools of this version are installed.
    ToolsInstalled { version: String },
    /// The tools are in this directory, build for this target, are linked as this toolchain, and
    /// lack parts if they are corrupted.
    ToolsFound {
        platform_tools_dir: &'a PathBuf,
        target_triple: String,
        toolchain_name: String,
        corrupted: bool,
    },
    /// The values of `RUSTFLAGS` and of the variable for the target, where they are set.
    FlagsRead { rustflags: Option<String>, target_rustflags: Option<String> },
    /// Cargo is done.
    CargoFinished,
    /// What was built is processed.
    PostProcessed,
}

/// An `Event` over sequences of characters.
pub enum EventView {
    MetadataRead { metadata: MetadataView },
    MetadataFailed { reason: Seq<char> },
    DirectoryEntered,
    DirectoryRefused { reason: Seq<char> },
    ToolsInstalled { version: Seq<char> },
    ToolsFound {
        platform_tools_dir: PathBuf,
        target_triple: Seq<char>,
        toolchain_name: Seq<char>,
        corrupted: bool,
    },
    FlagsRead { rustflags: Option<Seq<char>>, target_rustflags: Option<Seq<char>> },
    CargoFinished,
    PostProcessed,
}

impl View for Event<'_> {
    type V = EventView;

    open spec fn view(&self) -> EventView {
        match *self {
            Event::MetadataRead { metadata } => EventView::MetadataRead { metadata: metadata@ },
            Event::MetadataFailed { reason } => EventView::MetadataFailed { reason: reason@ },
            Event::DirectoryEntered => EventView::DirectoryEntered,
            Event::DirectoryRefused { reason } => EventView::DirectoryRefused { reason: reason@ },
            Event::ToolsInstalled { version } => EventView::ToolsInstalled { version: version@ },
            Event::ToolsFound { platform_tools_dir, target_triple, toolchain_name, corrupted } =>
                EventView::ToolsFound {
                platform_tools_dir: *platform_tools_dir,
                target_triple: target_triple@,
                toolchain_name: toolchain_name@,
                corrupted,
            },
            Event::FlagsRead { rustflags, target_rustflags } => EventView::FlagsRead {
                rustflags: optional_text(rustflags),
                target_rustflags: optional_text(target_rustflags),
            },
            Event::CargoFinished => EventView::CargoFinished,
            Event::PostProcessed => EventView::PostProcessed,
        }
    }
}

/// What is built, and for whom.
#[derive(Debug)]
pub struct Plan {
    /// Where cargo puts what it builds.
    pub target_directory: String,
    /// Whether the root package alone is built.
    pub for_root_package: bool,
    /// The programs that are still to be processed.
    pub programs: Vec<Program>,
}

/// A `Plan` over sequences of characters.
pub struct PlanView {
    pub target_directory: Seq<char>,
    pub for_root_package: bool,
    pub programs: Seq<ProgramView>,
}

impl View for Plan {
    type V = PlanView;

    open spec fn view(&self) -> PlanView {
        PlanView {
            target_directory: self.target_directory@,
            for_root_package: self.for_root_package,
            programs: programs_view(self.programs@),
        }
    }
}

/// What a build waits for.
#[derive(Debug)]
pub enum Stage<'a> {
    /// What cargo says of the packages.
    Metadata,
    /// That the directory to build in is entered.
    Directory { directory: String, plan: Plan },
    /// That the tools are installed.
    Tools { plan: Plan },
    /// That the installed tools are found.
    Location { plan: Plan },
    /// The compiler's flags that the user set.
    Flags {
        plan: Plan,
        platform_tools_dir: &'a PathBuf,
        target_triple: String,
        toolchain_name: String,
        flags_variable: String,
    },
    /// That cargo is done.
    Cargo { plan: Plan, platform_tools_dir: &'a PathBuf },
    /// That what was built for a program is processed.
    PostProcessing { plan: Plan, platform_tools_dir: &'a PathBuf },
    /// Nothing.
    Done,
}

/// A `Stage` over sequences of characters.
pub enum StageView {
    Metadata,
    Directory { directory: Seq<char>, plan: PlanView },
    Tools { plan: PlanView },
    Location { plan: PlanView },
    Flags {
        plan: PlanView,
        platform_tools_dir: PathBuf,
        target_triple: Seq<char>,
        toolchain_name: Seq<char>,
        flags_variable: Seq<char>,
    },
    Cargo { plan: PlanView, platform_tools_dir: PathBuf },
    PostProcessing { plan: PlanView, platform_tools_dir: PathBuf },
    Done,
}

impl View for Stage<'_> {
    type V = StageView;

    open spec fn view(&self) -> StageView {
        match *self {
            Stage::Metadata => StageView::Metadata,
            Stage::Directory { directory, plan } => StageView::Directory {
                directory: directory@,
                plan: plan@,
            },
            Stage::Tools { plan } => StageView::Tools { plan: plan@ },
            Stage::Location { plan } => StageView::Location { plan: plan@ },
            Stage::Flags {
                plan,
                platform_tools_dir,
                target_triple,
                toolchain_name,
                flags_variable,
            } => StageView::Flags {
                plan: plan@,
                platform_tools_dir: *platform_tools_dir,
                target_triple: target_triple@,
                toolchain_name: toolchain_name@,
                flags_variable: flags_variable@,
            },
            Stage::Cargo { plan, platform_tools_dir } => StageView::Cargo {
                plan: plan@,
                platform_tools_dir: *platform_tools_dir,
            },
            Stage::PostProcessing { plan, platform_tools_dir } => StageView::PostProcessing {
                plan: plan@,
                platform_tools_dir: *platform_tools_dir,
            },
            Stage::Done => StageView::Done,
        }
    }
}

/// One step of a build: what deserves notice, what is asked for, and what is waited for then.
#[derive(Debug)]
pub struct Step<'a> {
    pub notices: Vec<Notice>,
    pub action: Action<'a>,
    pub stage: Stage<'a>,
}

/// A `Step` over sequences of characters.
pub struct StepView {
    pub notices: Seq<NoticeView>,
    pub action: ActionView,
    pub stage: StageView,
}

impl View for Step<'_> {
    type V = StepView;

    open spec fn view(&self) -> StepView {
        StepView {
            notices: notices_view(self.notices@),
            action: self.action@,
            stage: self.stage@,
        }
    }
}

/// The step that ends a build with an error.
pub open spec fn failure(notices: Seq<NoticeView>, error: BuildErrorView) -> StepView {
    StepView { notices, action: ActionView::Fail { error }, stage: StageView::Done }
}

/// The first step of a build: cargo is asked for the packages of the given manifest.
pub open spec fn first_step(config: Config, manifest_path: Option<PathBuf>) -> StepView {
    StepView {
        notices: Seq::empty(),
        action: ActionView::ReadMetadata { manifest_path, options: metadata_options_of(config) },
        stage: StageView::Metadata,
    }
}

/// Where cargo puts what it builds: the directory that the user named, else its own choice.
pub open spec fn target_directory_of(config: Config, metadata: MetadataView) -> Seq<char> {
    match config.target_directory {
        Some(directory) => directory@,
        None => metadata.target_directory,
    }
}

/// The directory to build in: that of the package, else that of the workspace.
pub open spec fn build_directory(
    package: Option<PackageView>,
    workspace_root: Seq<char>,
) -> Result<Seq<char>, BuildErrorView> {
    match package {
        Some(package) => match package.directory {
            Some(directory) => Ok(directory),
            None => Err(
                BuildErrorView::NoManifestDirectory { manifest_path: package.manifest_path },
            ),
        },
        None => Ok(workspace_root),
    }
}

/// The step that enters the directory to build in.
pub open spec fn enter_step(
    notices: Seq<NoticeView>,
    directory: Result<Seq<char>, BuildErrorView>,
    plan: PlanView,
) -> StepView {
    match directory {
        Ok(directory) => StepView {
            notices,
            action: ActionView::EnterDirectory { directory },
            stage: StageView::Directory { directory, plan },
        },
        Err(error) => failure(notices, error),
    }
}

/// The step after cargo has described the packages. The root package alone is built where there is
/// one and the workspace is not asked for; then its program is known before anything is done.
pub open spec fn metadata_step(config: Config, metadata: MetadataView) -> StepView {
    let target_directory = target_directory_of(config, metadata);
    match metadata.root_package {
        Some(package) if !config.workspace => {
            let program = program_of(package);
            match program.name {
                Ok(_) => enter_step(
                    program.notices,
                    build_directory(Some(package), metadata.workspace_root),
                    PlanView {
                        target_directory,
                        for_root_package: true,
                        programs: seq![
                            ProgramView { notices: Seq::empty(), name: program.name },
                        ],
                    },
                ),
                Err(error) => failure(program.notices, error),
            }
        },
        _ => enter_step(
            Seq::empty(),
            build_directory(None, metadata.workspace_root),
            PlanView {
                target_directory,
                for_root_package: false,
                programs: sbf_programs(metadata.packages, metadata.workspace_members),
            },
        ),
    }
}

/// The step after cargo is done or a program is processed: the next program is processed, until
/// none is left.
pub open spec fn process_step(plan: PlanView, platform_tools_dir: PathBuf) -> StepView {
    if plan.programs.len() == 0 {
        StepView { notices: Seq::empty(), action: ActionView::Finish, stage: StageView::Done }
    } else {
        let program = plan.programs[0];
        match program.name {
            Ok(program_name) => StepView {
                notices: program.notices,
                action: ActionView::PostProcess {
                    platform_tools_dir,
                    target_directory: plan.target_directory,
                    program_name,
                },
                stage: StageView::PostProcessing {
                    plan: PlanView { programs: plan.programs.drop_first(), ..plan },
                    platform_tools_dir,
                },
            },
            Err(error) => failure(program.notices, error),
        }
    }
}

/// The step that follows an event. There is none where the event is not what the build waits for.
pub open spec fn next_step(config: Config, stage: StageView, event: EventView) -> Option<StepView> {
    match (stage, event) {
        (StageView::Metadata, EventView::MetadataRead { metadata }) => Some(
            metadata_step(config, metadata),
        ),
        (StageView::Metadata, EventView::MetadataFailed { reason }) => Some(
            failure(Seq::empty(), BuildErrorView::MetadataUnavailable { reason }),
        ),
        (StageView::Directory { plan, .. }, EventView::DirectoryEntered) => Some(
            StepView {
                notices: Seq::empty(),
                action: ActionView::InstallTools { for_root_package: plan.for_root_package },
                stage: StageView::Tools { plan },
            },
        ),
        (StageView::Directory { directory, .. }, EventView::DirectoryRefused { reason }) => Some(
            failure(Seq::empty(), BuildErrorView::DirectoryUnavailable { directory, reason }),
        ),
        (StageView::Tools { plan }, EventView::ToolsInstalled { version }) => Some(
            StepView {
                notices: Seq::empty(),
                action: ActionView::FindTools { version },
                stage: StageView::Location { plan },
            },
        ),
        (
            StageView::Location { plan },
            EventView::ToolsFound { platform_tools_dir, target_triple, toolchain_name, corrupted },
        ) => Some(
            if corrupted {
                failure(feature_notices_of(config), BuildErrorView::CorruptedToolchain)
            } else {
                StepView {
                    notices: feature_notices_of(config),
                    action: ActionView::ReadFlags { variable: flags_variable_of(target_triple) },
                    stage: StageView::Flags {
                        plan,
                        platform_tools_dir,
                        target_triple,
                        toolchain_name,
                        flags_variable: flags_variable_of(target_triple),
                    },
                }
            },
        ),
        (
            StageView::Flags {
                plan,
                platform_tools_dir,
                target_triple,
                toolchain_name,
                flags_variable,
            },
            EventView::FlagsRead { rustflags, target_rustflags },
        ) => Some(
            StepView {
                notices: if rustflags is Some {
                    seq![NoticeView::RustflagsRemoved { variable: flags_variable }]
                } else {
                    Seq::empty()
                },
                action: ActionView::RunCargo {
                    platform_tools_dir,
                    invocation: cargo_invocation(
                        config,
                        target_triple,
                        toolchain_name,
                        flags_variable,
                        rustflags,
                        target_rustflags,
                    ),
                },
                stage: StageView::Cargo { plan, platform_tools_dir },
            },
        ),
        (StageView::Cargo { plan, platform_tools_dir }, EventView::CargoFinished) => Some(
            process_step(plan, platform_tools_dir),
        ),
        (StageView::PostProcessing { plan, platform_tools_dir }, EventView::PostProcessed) => Some(
            process_step(plan, platform_tools_dir),
        ),
        _ => None,
    }
}

/// Ends a build with an error.
fn fail<'a>(notices: Vec<Notice>, error: BuildError) -> (step: Step<'a>)
    ensures
        step@ == failure(notices_view(notices@), error@),
{
    Step { notices, action: Action::Fail { error }, stage: Stage::Done }
}

/// Starts a build of what the given manifest describes, or that of the current directory.
pub fn begin<'a>(config: &Config, manifest_path: Option<PathBuf>) -> (step: Step<'a>)
    ensures
        step@ == first_step(*config, manifest_path),
{
    let notices: Vec<Notice> = Vec::new();
    assert(notices_view(notices@) =~= Seq::empty());
    Step {
        notices,
        action: Action::ReadMetadata { manifest_path, options: metadata_options(config) },
        stage: Stage::Metadata,
    }
}

/// Finds the directory to build in.
pub fn find_build_directory(package: Option<&Package>, workspace_root: &str) -> (directory: Result<
    String,
    BuildError,
>)
    ensures
        match build_directory(
            match package {
                Some(package) => Some(package@),
                None => None,
            },
            workspace_root@,
        ) {
            Ok(expected) => directory is Ok && directory->Ok_0@ == expected,
            Err(expected) => directory is Err && directory->Err_0@ == expected,
        },
{
    match package {
        Some(package) => match &package.directory {
            Some(directory) => Ok(directory.clone()),
            None => Err(
                BuildError::NoManifestDirectory { manifest_path: package.manifest_path.clone() },
            ),
        },
        None => Ok(workspace_root.to_owned()),
    }
}

/// Enters the directory to build in.
fn enter<'a>(notices: Vec<Notice>, directory: Result<String, BuildError>, plan: Plan) -> (step:
    Step<'a>)
    ensures
        step@ == enter_step(
            notices_view(notices@),
            match directory {
                Ok(directory) => Ok(directory@),
                Err(error) => Err(error@),
            },
            plan@,
        ),
{
    match directory {
        Ok(directory) => Step {
            notices,
            action: Action::EnterDirectory { directory: directory.clone() },
            stage: Stage::Directory { directory, plan },
        },
        Err(error) => fail(notices, error),
    }
}

/// Plans the build of what cargo described.
pub fn plan_build<'a>(config: &Config, metadata: Metadata) -> (step: Step<'a>)
    ensures
        step@ == metadata_step(*config, metadata@),
{
    let target_directory = match &config.target_directory {
        Some(directory) => directory.clone(),
        None => metadata.target_directory.clone(),
    };
    if let Some(package) = &metadata.root_package {
        if !config.workspace {
            let program = generate_program_name(package);
            let notices = program.notices;
            return match program.name {
                Ok(name) => {
                    let directory = find_build_directory(
                        Some(package),
                        metadata.workspace_root.as_str(),
                    );
                    let none: Vec<Notice> = Vec::new();
                    let programs = vec![Program { notices: none, name: Ok(name) }];
                    assert(notices_view(none@) =~= Seq::empty());
                    assert(programs_view(programs@) =~= seq![
                        ProgramView { notices: Seq::empty(), name: Ok(optional_text(name)) },
                    ]);
                    enter(
                        notices,
                        directory,
                        Plan { target_directory, for_root_package: true, programs },
                    )
                },
                Err(error) => fail(notices, error),
            };
        }
    }
    let programs = metadata.programs();
    let directory = find_build_directory(None, metadata.workspace_root.as_str());
    let notices: Vec<Notice> = Vec::new();
    assert(notices_view(notices@) =~= Seq::empty());
    enter(notices, directory, Plan { target_directory, for_root_package: false, programs })
}

/// Processes the next program, until none is left.
fn process<'a>(mut plan: Plan, platform_tools_dir: &'a PathBuf) -> (step: Step<'a>)
    ensures
        step@ == process_step(plan@, *platform_tools_dir),
{
    if plan.programs.len() == 0 {
        let notices: Vec<Notice> = Vec::new();
        assert(notices_view(notices@) =~= Seq::empty());
        return Step { notices, action: Action::Finish, stage: Stage::Done };
    }
    let ghost programs = plan.programs@;
    let program = plan.programs.remove(0);
    assert(programs_view(plan.programs@) =~= programs_view(programs).drop_first());
    match program.name {
        Ok(program_name) => Step {
            notices: program.notices,
            action: Action::PostProcess {
                platform_tools_dir,
                target_directory: plan.target_directory.clone(),
                program_name,
            },
            stage: Stage::PostProcessing { plan, platform_tools_dir },
        },
        Err(error) => fail(program.notices, error),
    }
}

/// Decides what follows an event.
pub fn advance<'a>(config: &Config, stage: Stage<'a>, event: Event<'a>) -> (step: Option<
    Step<'a>,
>)
    ensures
        match next_step(*config, stage@, event@) {
            Some(expected) => step is Some && step->0@ == expected,
            None => step is None,
        },
        stage@ is Location && event@ is ToolsFound && !event@->corrupted && ascii(
            event@->target_triple,
        ) ==> step->0@.action == (ActionView::ReadFlags {
            variable: variable_of_upper(ascii_uppercase(event@->target_triple)),
        }),
{
    let mut notices: Vec<Notice> = Vec::new();
    assert(notices_view(notices@) =~= Seq::empty());
    match (stage, event) {
        (Stage::Metadata, Event::MetadataRead { metadata }) => Some(plan_build(config, metadata)),
        (Stage::Metadata, Event::MetadataFailed { reason }) => Some(
            fail(notices, BuildError::MetadataUnavailable { reason }),
        ),
        (Stage::Directory { plan, .. }, Event::DirectoryEntered) => Some(
            Step {
                notices,
                action: Action::InstallTools { for_root_package: plan.for_root_package },
                stage: Stage::Tools { plan },
            },
        ),
        (Stage::Directory { directory, .. }, Event::DirectoryRefused { reason }) => Some(
            fail(notices, BuildError::DirectoryUnavailable { directory, reason }),
        ),
        (Stage::Tools { plan }, Event::ToolsInstalled { version }) => Some(
            Step { notices, action: Action::FindTools { version }, stage: Stage::Location { plan } },
        ),
        (
            Stage::Location { plan },
            Event::ToolsFound { platform_tools_dir, target_triple, toolchain_name, corrupted },
        ) => {
            if corrupted {
                return Some(fail(feature_notices(config), BuildError::CorruptedToolchain));
            }
            let variable = flags_variable(target_triple.as_str());
            Some(
                Step {
                    notices: feature_notices(config),
                    action: Action::ReadFlags { variable: variable.clone() },
                    stage: Stage::Flags {
                        plan,
                        platform_tools_dir,
                        target_triple,
                        toolchain_name,
                        flags_variable: variable,
                    },
                },
            )
        },
        (
            Stage::Flags {
                plan,
                platform_tools_dir,
                target_triple,
                toolchain_name,
                flags_variable,
            },
            Event::FlagsRead { rustflags, target_rustflags },
        ) => {
            if rustflags.is_some() {
                notices.push(Notice::RustflagsRemoved { variable: flags_variable.clone() });
                assert(notices_view(notices@) =~= seq![
                    NoticeView::RustflagsRemoved { variable: flags_variable@ },
                ]);
            }
            let invocation = plan_cargo(
                config,
                target_triple.as_str(),
                toolchain_name.as_str(),
                flags_variable,
                &rustflags,
                &target_rustflags,
            );
            Some(
                Step {
                    notices,
                    action: Action::RunCargo { platform_tools_dir, invocation },
                    stage: Stage::Cargo { plan, platform_tools_dir },
                },
            )
        },
        (Stage::Cargo { plan, platform_tools_dir }, Event::CargoFinished) => Some(
            process(plan, platform_tools_dir),
        ),
        (Stage::PostProcessing { plan, platform_tools_dir }, Event::PostProcessed) => Some(
            process(plan, platform_tools_dir),
        ),
        _ => None,
    }
}

} // verus!
