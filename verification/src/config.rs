//! What one run of the command is asked to do.

use std::path::PathBuf;
use vstd::prelude::*;

verus! {

/// `std::path::PathBuf`, which is carried through as it is.
#[verifier::external_type_specification]
#[verifier::external_body]
pub struct ExPathBuf(std::path::PathBuf);

/// What one run of the command is asked to do.
#[derive(Debug)]
pub struct Config<'a> {
    /// Arguments that are passed on to `cargo build`.
    pub cargo_args: Vec<&'a str>,
    /// The target directory that `cargo_args` name.
    pub target_directory: Option<String>,
    /// Where the final build artifacts are placed.
    pub sbf_out_dir: Option<PathBuf>,
    /// The version of the platform tools to use or to install.
    pub platform_tools_version: Option<&'a str>,
    /// Whether ELF information is dumped to a text file.
    pub dump: bool,
    /// The features to activate.
    pub features: Vec<String>,
    /// Whether the tools are installed even when there are some already.
    pub force_tools_install: bool,
    /// Whether the tools are taken to be in place.
    pub skip_tools_install: bool,
    /// Whether the toolchain is found without rustup.
    pub no_rustup_override: bool,
    /// Whether a script that repeats a failed subcommand is written.
    pub generate_child_script_on_failure: bool,
    /// Whether the `default` feature is left out.
    pub no_default_features: bool,
    /// Whether the network is left alone.
    pub offline: bool,
    /// Whether the prefix of the current directory is removed from paths in binaries.
    pub remap_cwd: bool,
    /// Whether debug objects are built.
    pub debug: bool,
    /// Whether more is said.
    pub verbose: bool,
    /// Whether cargo says less.
    pub quiet: bool,
    /// Whether all packages of the workspace are built.
    pub workspace: bool,
    /// The number of parallel jobs.
    pub jobs: Option<String>,
    /// The target architecture.
    pub arch: &'a str,
    /// Whether programs are optimized for size.
    pub optimize_size: bool,
    /// Whether link-time optimization is on.
    pub lto: bool,
    /// Whether the tools are installed and nothing is built.
    pub install_only: bool,
    /// Whether the tools are patched for nix systems, where that was said.
    pub patch_binaries_for_nix: Option<bool>,
    /// Whether programs are compiled for the second version of the ABI.
    pub use_abi_v2: bool,
    /// The size of a stack frame in bytes.
    pub sbf_stack_size: Option<u32>,
}

impl Default for Config<'_> {
    fn default() -> (config: Self)
        ensures
            config.cargo_args@ == Seq::<&str>::empty(),
            config.target_directory is None,
            config.sbf_out_dir is None,
            config.platform_tools_version is None,
            !config.dump,
            config.features@ == Seq::<String>::empty(),
            !config.force_tools_install,
            !config.skip_tools_install,
            !config.no_rustup_override,
            !config.generate_child_script_on_failure,
            !config.no_default_features,
            !config.offline,
            config.remap_cwd,
            !config.debug,
            !config.verbose,
            !config.quiet,
            !config.workspace,
            config.jobs is None,
            config.arch@ == "v0"@,
            !config.optimize_size,
            !config.lto,
            !config.install_only,
            config.patch_binaries_for_nix is None,
            !config.use_abi_v2,
            config.sbf_stack_size is None,
    {
        Self {
            cargo_args: vec![],
            target_directory: None,
            sbf_out_dir: None,
            platform_tools_version: None,
            dump: false,
            features: vec![],
            force_tools_install: false,
            skip_tools_install: false,
            no_rustup_override: false,
            generate_child_script_on_failure: false,
            no_default_features: false,
            offline: false,
            remap_cwd: true,
            debug: false,
            verbose: false,
            quiet: false,
            workspace: false,
            jobs: None,
            arch: "v0",
            optimize_size: false,
            lto: false,
            install_only: false,
            patch_binaries_for_nix: None,
            use_abi_v2: false,
            sbf_stack_size: None,
        }
    }
}

} // verus!
