//! What the arguments of the command ask for.

use crate::config::Config;
use crate::report::BuildError;
use crate::text::{same_text, slices, texts};
use std::path::PathBuf;
use vstd::prelude::*;

verus! {

/// Whether the first argument is the name of the cargo subcommand.
pub open spec fn called_by_cargo(args: Seq<Seq<char>>) -> bool {
    args.len() > 1 && args[1] == "build-sbf"@
}

/// Removes the name of the subcommand, which stands first among the arguments when cargo calls the
/// command.
pub fn strip_subcommand(args: &mut Vec<String>)
    ensures
        final(args)@ == if called_by_cargo(texts(old(args)@)) {
            old(args)@.remove(1)
        } else {
            old(args)@
        },
        old(args)@.len() > 1 && old(args)@[1]@ == "build-sbf"@ ==> final(args)@ == old(
            args,
        )@.remove(1),
        old(args)@.len() < 2 || old(args)@[1]@ != "build-sbf"@ ==> final(args)@ == old(args)@,
{
    if args.len() > 1 && same_text(args[1].as_str(), "build-sbf") {
        args.remove(1);
    }
}

/// What the command says of its version.
pub open spec fn version_text_of(
    version: Seq<char>,
    tools_version: Seq<char>,
    rust_version: Seq<char>,
) -> Seq<char> {
    version + "\nplatform-tools "@ + tools_version + "\n"@ + rust_version
}

/// What the command says of its version, of that of the tools that it installs by itself, and of
/// that of their compiler.
pub fn version_text(version: &str, tools_version: &str, rust_version: &str) -> (text: String)
    ensures
        text@ == version_text_of(version@, tools_version@, rust_version@),
{
    let mut text = version.to_owned();
    text.append("\nplatform-tools ");
    text.append(tools_version);
    text.append("\n");
    text.append(rust_version);
    text
}

/// Where the target directory stands among the arguments for cargo: right after the first
/// `--target-dir`.
pub open spec fn target_dir_index(cargo_args: Seq<Seq<char>>) -> Option<int> {
    match cargo_args.index_of_first("--target-dir"@) {
        Some(i) => if i + 1 < cargo_args.len() {
            Some(i + 1)
        } else {
            None
        },
        None => None,
    }
}

/// The target directory that the arguments for cargo name.
pub open spec fn named_target_dir(cargo_args: Seq<Seq<char>>) -> Option<Seq<char>> {
    match target_dir_index(cargo_args) {
        Some(i) => Some(cargo_args[i]),
        None => None,
    }
}

/// Finds where the target directory stands among the arguments for cargo.
pub fn target_dir_position(cargo_args: &Vec<&str>) -> (position: Option<usize>)
    ensures
        match target_dir_index(slices(cargo_args@)) {
            Some(i) => 0 < i < cargo_args@.len() && position is Some && position->0 == i,
            None => position is None,
        },
        position matches Some(position) ==> {
            &&& 0 < position < cargo_args@.len()
            &&& cargo_args@[position - 1]@ == "--target-dir"@
            &&& forall|j: int|
                0 <= j < position - 1 ==> (#[trigger] cargo_args@[j])@ != "--target-dir"@
        },
        position is None ==> forall|j: int|
            0 <= j < cargo_args@.len() - 1 ==> (#[trigger] cargo_args@[j])@ != "--target-dir"@,
{
    let ghost args = slices(cargo_args@);
    proof {
        args.index_of_first_ensures("--target-dir"@);
    }
    let mut i: usize = 0;
    while i < cargo_args.len()
        invariant
            i <= cargo_args@.len(),
            args == slices(cargo_args@),
            forall|j: int| 0 <= j < i ==> args[j] != "--target-dir"@,
            forall|j: int| 0 <= j < i ==> (#[trigger] cargo_args@[j])@ != "--target-dir"@,
            match args.index_of_first("--target-dir"@) {
                Some(index) => {
                    &&& 0 <= index < args.len()
                    &&& args[index] == "--target-dir"@
                    &&& forall|j: int| 0 <= j < index < args.len() ==> args[j] != "--target-dir"@
                },
                None => !args.contains("--target-dir"@),
            },
        decreases cargo_args@.len() - i,
    {
        if same_text(cargo_args[i], "--target-dir") {
            assert(args[i as int] == "--target-dir"@);
            assert(args.contains("--target-dir"@));
            if i + 1 < cargo_args.len() {
                return Some(i + 1);
            } else {
                return None;
            }
        }
        i += 1;
    }
    None
}

/// Where build artifacts are placed.
#[derive(Debug)]
pub enum OutDir {
    /// In this directory.
    Here { path: PathBuf },
    /// In this directory below the current one.
    BelowCurrent { path: PathBuf },
}

/// Decides where build artifacts are placed when the user names a directory for them: there, if
/// its path is absolute, else below the current directory.
pub fn place_out_dir(path: PathBuf, absolute: bool) -> (place: OutDir)
    ensures
        place == if absolute {
            OutDir::Here { path }
        } else {
            OutDir::BelowCurrent { path }
        },
{
    if absolute {
        OutDir::Here { path }
    } else {
        OutDir::BelowCurrent { path }
    }
}

/// The values that the command line gives, one for each option.
#[derive(Debug)]
pub struct Arguments<'a> {
    pub cargo_args: Vec<&'a str>,
    /// The absolute path of the place of `--sbf-out-dir`.
    pub sbf_out_dir: Option<PathBuf>,
    pub tools_version: Option<&'a str>,
    pub dump: bool,
    pub features: Vec<String>,
    pub force_tools_install: bool,
    pub skip_tools_install: bool,
    pub no_rustup_override: bool,
    pub generate_child_script_on_failure: bool,
    pub no_default_features: bool,
    pub disable_remap_cwd: bool,
    pub debug: bool,
    pub offline: bool,
    pub verbose: bool,
    pub quiet: bool,
    pub workspace: bool,
    pub jobs: Option<String>,
    pub arch: &'a str,
    pub optimize_size: bool,
    pub lto: bool,
    pub install_only: bool,
    pub sbf_stack_size: Option<u32>,
    pub patch_binaries_for_nix: Option<bool>,
    pub abi_v2: bool,
}

/// The arguments for cargo with the target directory replaced, where they name one and there is
/// one to take its place.
pub open spec fn with_target_dir<'a>(cargo_args: Seq<&'a str>, directory: Option<&'a str>) -> Seq<
    &'a str,
> {
    match (target_dir_index(slices(cargo_args)), directory) {
        (Some(i), Some(directory)) => cargo_args.update(i, directory),
        _ => cargo_args,
    }
}

impl<'a> Arguments<'a> {
    /// What the command line asks for. Where the arguments for cargo name a target directory,
    /// `canonical` is its canonical path, which takes its place.
    pub fn configure(self, canonical: Option<&'a str>) -> (config: Config<'a>)
        ensures
            config.cargo_args@ == with_target_dir(self.cargo_args@, canonical),
            match (target_dir_index(slices(self.cargo_args@)), canonical) {
                (Some(_), Some(canonical)) => config.target_directory is Some
                    && config.target_directory->0@ == canonical@,
                _ => config.target_directory is None,
            },
            canonical is None ==> config.cargo_args@ == self.cargo_args@
                && config.target_directory is None,
            config.sbf_out_dir == self.sbf_out_dir,
            config.platform_tools_version == self.tools_version,
            config.dump == self.dump,
            config.features == self.features,
            config.force_tools_install == self.force_tools_install,
            config.skip_tools_install == self.skip_tools_install,
            config.no_rustup_override == self.no_rustup_override,
            config.generate_child_script_on_failure == self.generate_child_script_on_failure,
            config.no_default_features == self.no_default_features,
            config.offline == self.offline,
            config.remap_cwd == !self.disable_remap_cwd,
            config.debug == self.debug,
            config.verbose == self.verbose,
            config.quiet == self.quiet,
            config.workspace == self.workspace,
            config.jobs == self.jobs,
            config.arch == self.arch,
            config.optimize_size == self.optimize_size,
            config.lto == self.lto,
            config.install_only == self.install_only,
            config.patch_binaries_for_nix == self.patch_binaries_for_nix,
            config.use_abi_v2 == self.abi_v2,
            config.sbf_stack_size == self.sbf_stack_size,
    {
        let mut cargo_args = self.cargo_args;
        let target_directory = match (target_dir_position(&cargo_args), canonical) {
            (Some(position), Some(canonical)) => {
                cargo_args.set(position, canonical);
                Some(canonical.to_owned())
            },
            _ => None,
        };
        Config {
            cargo_args,
            target_directory,
            sbf_out_dir: self.sbf_out_dir,
            platform_tools_version: self.tools_version,
            dump: self.dump,
            features: self.features,
            force_tools_install: self.force_tools_install,
            skip_tools_install: self.skip_tools_install,
            no_rustup_override: self.no_rustup_override,
            generate_child_script_on_failure: self.generate_child_script_on_failure,
            no_default_features: self.no_default_features,
            offline: self.offline,
            remap_cwd: !self.disable_remap_cwd,
            debug: self.debug,
            verbose: self.verbose,
            quiet: self.quiet,
            workspace: self.workspace,
            jobs: self.jobs,
            arch: self.arch,
            optimize_size: self.optimize_size,
            lto: self.lto,
            install_only: self.install_only,
            patch_binaries_for_nix: self.patch_binaries_for_nix,
            use_abi_v2: self.abi_v2,
            sbf_stack_size: self.sbf_stack_size,
        }
    }
}

/// What a run of the command does.
#[derive(Debug)]
pub enum Task<'a> {
    /// It says why it does nothing.
    Reject { error: BuildError },
    /// It installs this version of the tools.
    Install { version: &'a str },
    /// It builds programs.
    Build,
}

/// Decides what a run of the command does. The tools of version `default_version` are installed
/// where no version is asked for.
pub fn choose_task<'a>(config: &Config<'a>, default_version: &'a str) -> (task: Task<'a>)
    ensures
        config.use_abi_v2 && config.arch@ != "v3"@ <==> task is Reject,
        task matches Task::Reject { error } ==> error is AbiRequiresV3,
        !(task is Reject) && config.install_only <==> task is Install,
        task matches Task::Install { version } ==> version == match config.platform_tools_version {
            Some(requested) => requested,
            None => default_version,
        },
{
    if config.use_abi_v2 && !same_text(config.arch, "v3") {
        return Task::Reject { error: BuildError::AbiRequiresV3 };
    }
    if config.install_only {
        let version = match config.platform_tools_version {
            Some(requested) => requested,
            None => default_version,
        };
        return Task::Install { version };
    }
    Task::Build
}

/// The words that cargo's metadata command is given beside the path of the manifest.
pub open spec fn metadata_options_of(config: Config) -> Seq<Seq<char>> {
    if config.offline {
        seq!["--offline"@]
    } else {
        Seq::empty()
    }
}

/// The words that cargo's metadata command is given beside the path of the manifest.
pub fn metadata_options(config: &Config) -> (options: Vec<String>)
    ensures
        texts(options@) == metadata_options_of(*config),
{
    let mut options: Vec<String> = Vec::new();
    if config.offline {
        options.push("--offline".to_owned());
    }
    assert(texts(options@) =~= metadata_options_of(*config));
    options
}

} // verus!
