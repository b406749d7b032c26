//! What contracts see of a value: all of it, as it is.

use crate::cargo::{CargoInvocation, ToolVariable};
use crate::metadata::Metadata;
use crate::package::{Package, Program, Target};
use crate::report::{warns, BuildError, BuildErrorView, Notice, NoticeView};
use crate::session::{Action, ActionView, Event, EventView, Plan, Stage, StageView, Step};
use crate::text::{optional_text, slices, texts};
use vstd::prelude::*;

verus! {

/// A list of texts is seen with all of them, in their order, and a text that may be absent is seen
/// exactly where it is there, empty or not.
pub proof fn texts_are_seen_as_they_are(
    strings: Seq<String>,
    parts: Seq<&str>,
    optional: Option<String>,
)
    ensures
        texts(strings).len() == strings.len(),
        forall|i: int| 0 <= i < strings.len() ==> #[trigger] texts(strings)[i] == strings[i]@,
        slices(parts).len() == parts.len(),
        forall|i: int| 0 <= i < parts.len() ==> #[trigger] slices(parts)[i] == parts[i]@,
        optional_text(optional) is Some <==> optional is Some,
        optional matches Some(text) ==> optional_text(optional)->0 == text@,
{
}

/// A package is seen with its identity, its name, its places and all of its targets, each with all
/// of its kinds and crate types.
pub proof fn packages_are_seen_as_they_are(package: Package, target: Target)
    ensures
        package@.id == package.id@,
        package@.name == package.name@,
        package@.manifest_path == package.manifest_path@,
        package@.directory is Some <==> package.directory is Some,
        package.directory matches Some(directory) ==> package@.directory->0 == directory@,
        package@.targets.len() == package.targets@.len(),
        forall|i: int|
            0 <= i < package.targets@.len() ==> #[trigger] package@.targets[i]
                == package.targets@[i]@,
        target@.name == target.name@,
        target@.kind.len() == target.kind@.len(),
        forall|i: int|
            0 <= i < target.kind@.len() ==> #[trigger] target@.kind[i] == target.kind@[i]@,
        target@.crate_types.len() == target.crate_types@.len(),
        forall|i: int|
            0 <= i < target.crate_types@.len() ==> #[trigger] target@.crate_types[i]
                == target.crate_types@[i]@,
{
}

/// What cargo says is seen with all packages, all members of the workspace, both directories, and
/// the root package exactly where there is one.
pub proof fn metadata_are_seen_as_they_are(metadata: Metadata)
    ensures
        metadata@.packages.len() == metadata.packages@.len(),
        forall|i: int|
            0 <= i < metadata.packages@.len() ==> #[trigger] metadata@.packages[i]
                == metadata.packages@[i]@,
        metadata@.workspace_members.len() == metadata.workspace_members@.len(),
        forall|i: int|
            0 <= i < metadata.workspace_members@.len()
                ==> #[trigger] metadata@.workspace_members[i] == metadata.workspace_members@[i]@,
        metadata@.workspace_root == metadata.workspace_root@,
        metadata@.target_directory == metadata.target_directory@,
        metadata@.root_package is Some <==> metadata.root_package is Some,
        metadata.root_package matches Some(package) ==> metadata@.root_package->0 == package@,
{
}

/// A program is seen with all of its notices and its name, or with the error that stands for it.
pub proof fn programs_are_seen_as_they_are(program: Program)
    ensures
        program@.notices.len() == program.notices@.len(),
        forall|i: int|
            0 <= i < program.notices@.len() ==> #[trigger] program@.notices[i]
                == program.notices@[i]@,
        program@.name is Ok <==> program.name is Ok,
        program.name matches Ok(name) ==> {
            &&& program@.name->Ok_0 is Some <==> name is Some
            &&& name matches Some(text) ==> program@.name->Ok_0->0 == text@
        },
        program.name matches Err(error) ==> program@.name->Err_0 == error@,
{
}

/// An error is seen as the same kind of error, with all that it holds.
pub proof fn errors_are_seen_as_they_are(error: BuildError)
    ensures
        match error {
            BuildError::MetadataUnavailable { reason } => error@ == (
            BuildErrorView::MetadataUnavailable { reason: reason@ }),
            BuildError::NoManifestDirectory { manifest_path } => error@ == (
            BuildErrorView::NoManifestDirectory { manifest_path: manifest_path@ }),
            BuildError::DirectoryUnavailable { directory, reason } => error@ == (
            BuildErrorView::DirectoryUnavailable { directory: directory@, reason: reason@ }),
            BuildError::CorruptedToolchain => error@ is CorruptedToolchain,
            BuildError::MultipleCdylibTargets { package, targets } => {
                &&& error@ is MultipleCdylibTargets
                &&& error@->package == package@
                &&& error@->targets.len() == targets@.len()
                &&& forall|i: int|
                    0 <= i < targets@.len() ==> #[trigger] error@->targets[i] == targets@[i]@
            },
            BuildError::AbiRequiresV3 => error@ is AbiRequiresV3,
            BuildError::TargetDirNotCreated { directory, reason } => error@ == (
            BuildErrorView::TargetDirNotCreated { directory: directory@, reason: reason@ }),
            BuildError::TargetDirNotCanonical { directory, reason } => error@ == (
            BuildErrorView::TargetDirNotCanonical { directory: directory@, reason: reason@ }),
        },
{
}

/// A notice is seen as the same kind of notice, with all that it holds; it warns exactly where the
/// user may want to change something: a second crate type, or flags that are removed.
pub proof fn notices_are_seen_as_they_are(notice: Notice)
    ensures
        match notice {
            Notice::NoDefaultFeatures => notice@ is NoDefaultFeatures && !warns(notice@),
            Notice::Features { features } => {
                &&& notice@ is Features
                &&& !warns(notice@)
                &&& notice@->features.len() == features@.len()
                &&& forall|i: int|
                    0 <= i < features@.len() ==> #[trigger] notice@->features[i] == features@[i]@
            },
            Notice::TwoCrateTypes { package, other } => notice@ == (NoticeView::TwoCrateTypes {
                package: package@,
                other: other@,
            }) && warns(notice@),
            Notice::RustflagsRemoved { variable } => notice@ == (NoticeView::RustflagsRemoved {
                variable: variable@,
            }) && warns(notice@),
        },
{
}

/// A call of cargo is seen with all of its tools, flags and arguments.
pub proof fn calls_are_seen_as_they_are(call: CargoInvocation, tool: ToolVariable)
    ensures
        call@.tools.len() == call.tools@.len(),
        forall|i: int|
            0 <= i < call.tools@.len() ==> #[trigger] call@.tools[i] == call.tools@[i]@,
        call@.removes_rustflags == call.removes_rustflags,
        call@.flags_variable == call.flags_variable@,
        call@.flags == call.flags@,
        call@.arguments.len() == call.arguments@.len(),
        forall|i: int|
            0 <= i < call.arguments@.len() ==> #[trigger] call@.arguments[i]
                == call.arguments@[i]@,
        call@.script_on_failure == call.script_on_failure,
        tool@.variable == tool.variable@,
        tool@.path.len() == tool.path@.len(),
        forall|i: int| 0 <= i < tool.path@.len() ==> #[trigger] tool@.path[i] == tool.path@[i]@,
{
}

/// What a build asks for is seen as it is.
pub proof fn actions_are_seen_as_they_are(action: Action)
    ensures
        match action {
            Action::ReadMetadata { manifest_path, options } => {
                &&& action@ is ReadMetadata
                &&& action@->manifest_path == manifest_path
                &&& action@->options.len() == options@.len()
                &&& forall|i: int|
                    0 <= i < options@.len() ==> #[trigger] action@->options[i] == options@[i]@
            },
            Action::EnterDirectory { directory } => action@ == (ActionView::EnterDirectory {
                directory: directory@,
            }),
            Action::InstallTools { for_root_package } => action@ == (ActionView::InstallTools {
                for_root_package,
            }),
            Action::FindTools { version } => action@ == (ActionView::FindTools {
                version: version@,
            }),
            Action::ReadFlags { variable } => action@ == (ActionView::ReadFlags {
                variable: variable@,
            }),
            Action::RunCargo { platform_tools_dir, invocation } => action@ == (
            ActionView::RunCargo {
                platform_tools_dir: *platform_tools_dir,
                invocation: invocation@,
            }),
            Action::PostProcess { platform_tools_dir, target_directory, program_name } => {
                &&& action@ is PostProcess
                &&& action@->PostProcess_platform_tools_dir == *platform_tools_dir
                &&& action@->target_directory == target_directory@
                &&& action@->program_name is Some <==> program_name is Some
                &&& program_name matches Some(name) ==> action@->program_name->0 == name@
            },
            Action::Fail { error } => action@ == (ActionView::Fail { error: error@ }),
            Action::Finish => action@ is Finish,
        },
{
}

/// What a build is told is seen as it is; flags that are set to nothing are seen as set.
pub proof fn events_are_seen_as_they_are(event: Event)
    ensures
        match event {
            Event::MetadataRead { metadata } => event@ == (EventView::MetadataRead {
                metadata: metadata@,
            }),
            Event::MetadataFailed { reason } => event@ == (EventView::MetadataFailed {
                reason: reason@,
            }),
            Event::DirectoryEntered => event@ is DirectoryEntered,
            Event::DirectoryRefused { reason } => event@ == (EventView::DirectoryRefused {
                reason: reason@,
            }),
            Event::ToolsInstalled { version } => event@ == (EventView::ToolsInstalled {
                version: version@,
            }),
            Event::ToolsFound { platform_tools_dir, target_triple, toolchain_name, corrupted } =>
                event@ == (EventView::ToolsFound {
                platform_tools_dir: *platform_tools_dir,
                target_triple: target_triple@,
                toolchain_name: toolchain_name@,
                corrupted,
            }),
            Event::FlagsRead { rustflags, target_rustflags } => {
                &&& event@ is FlagsRead
                &&& event@->rustflags is Some <==> rustflags is Some
                &&& rustflags matches Some(flags) ==> event@->rustflags->0 == flags@
                &&& event@->target_rustflags is Some <==> target_rustflags is Some
                &&& target_rustflags matches Some(flags) ==> event@->target_rustflags->0 == flags@
            },
            Event::CargoFinished => event@ is CargoFinished,
            Event::PostProcessed => event@ is PostProcessed,
        },
{
}

/// A plan is seen with all of its programs, and a step with all of its notices.
pub proof fn plans_and_steps_are_seen_as_they_are(plan: Plan, step: Step)
    ensures
        plan@.target_directory == plan.target_directory@,
        plan@.for_root_package == plan.for_root_package,
        plan@.programs.len() == plan.programs@.len(),
        forall|i: int|
            0 <= i < plan.programs@.len() ==> #[trigger] plan@.programs[i] == plan.programs@[i]@,
        step@.notices.len() == step.notices@.len(),
        forall|i: int|
            0 <= i < step.notices@.len() ==> #[trigger] step@.notices[i] == step.notices@[i]@,
        step@.action == step.action@,
        step@.stage == step.stage@,
{
}

/// What a build waits for is seen as it is.
pub proof fn stages_are_seen_as_they_are(stage: Stage)
    ensures
        match stage {
            Stage::Metadata => stage@ is Metadata,
            Stage::Directory { directory, plan } => stage@ == (StageView::Directory {
                directory: directory@,
                plan: plan@,
            }),
            Stage::Tools { plan } => stage@ == (StageView::Tools { plan: plan@ }),
            Stage::Location { plan } => stage@ == (StageView::Location { plan: plan@ }),
            Stage::Flags {
                plan,
                platform_tools_dir,
                target_triple,
                toolchain_name,
                flags_variable,
            } => stage@ == (StageView::Flags {
                plan: plan@,
                platform_tools_dir: *platform_tools_dir,
                target_triple: target_triple@,
                toolchain_name: toolchain_name@,
                flags_variable: flags_variable@,
            }),
            Stage::Cargo { plan, platform_tools_dir } => stage@ == (StageView::Cargo {
                plan: plan@,
                platform_tools_dir: *platform_tools_dir,
            }),
            Stage::PostProcessing { plan, platform_tools_dir } => stage@ == (
            StageView::PostProcessing { plan: plan@, platform_tools_dir: *platform_tools_dir }),
            Stage::Done => stage@ is Done,
        },
{
}

} // verus!
