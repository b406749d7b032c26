use build_sbf::command_line::{
    choose_task, metadata_options, place_out_dir, strip_subcommand, target_dir_position,
    version_text, Arguments, OutDir, Task,
};
use build_sbf::config::Config;
use build_sbf::report::BuildError;
use std::path::PathBuf;

fn stripped(args: &[&str]) -> Vec<String> {
    let mut args: Vec<String> = args.iter().map(|arg| arg.to_string()).collect();
    strip_subcommand(&mut args);
    args
}

fn arguments<'a>(cargo_args: Vec<&'a str>) -> Arguments<'a> {
    Arguments {
        cargo_args,
        sbf_out_dir: Some(PathBuf::from("/out")),
        tools_version: Some("v1.50"),
        dump: true,
        features: vec!["f".to_string()],
        force_tools_install: false,
        skip_tools_install: true,
        no_rustup_override: false,
        generate_child_script_on_failure: true,
        no_default_features: false,
        disable_remap_cwd: true,
        debug: false,
        offline: true,
        verbose: false,
        quiet: true,
        workspace: false,
        jobs: Some("3".to_string()),
        arch: "v2",
        optimize_size: true,
        lto: false,
        install_only: true,
        sbf_stack_size: Some(1),
        patch_binaries_for_nix: Some(false),
        abi_v2: true,
    }
}

#[test]
fn default_configuration() {
    let config = Config::default();
    assert!(config.cargo_args.is_empty());
    assert!(config.features.is_empty());
    assert!(config.remap_cwd);
    assert_eq!(config.arch, "v0");
    assert_eq!(config.target_directory, None);
    assert_eq!(config.sbf_out_dir, None);
    assert_eq!(config.platform_tools_version, None);
    assert_eq!(config.jobs, None);
    assert_eq!(config.patch_binaries_for_nix, None);
    assert_eq!(config.sbf_stack_size, None);
    assert!(!config.dump && !config.debug && !config.verbose && !config.quiet);
    assert!(!config.force_tools_install && !config.skip_tools_install && !config.install_only);
    assert!(!config.no_rustup_override && !config.no_default_features && !config.offline);
    assert!(!config.workspace && !config.optimize_size && !config.lto && !config.use_abi_v2);
    assert!(!config.generate_child_script_on_failure);
}

#[test]
fn the_subcommand_is_stripped_once() {
    assert_eq!(stripped(&["cargo-build-sbf", "build-sbf", "--lto"]), ["cargo-build-sbf", "--lto"]);
    assert_eq!(stripped(&["x", "build-sbf", "build-sbf"]), ["x", "build-sbf"]);
    assert_eq!(stripped(&["x", "--lto", "build-sbf"]), ["x", "--lto", "build-sbf"]);
    assert_eq!(stripped(&["build-sbf"]), ["build-sbf"]);
    assert!(stripped(&[]).is_empty());
}

#[test]
fn versions_are_told_in_lines() {
    assert_eq!(version_text("1.0", "v1.52", "1.89"), "1.0\nplatform-tools v1.52\n1.89");
}

#[test]
fn target_dirs_follow_their_flag() {
    assert_eq!(target_dir_position(&vec!["--target-dir", "a"]), Some(1));
    assert_eq!(target_dir_position(&vec!["-v", "--target-dir", "a", "--target-dir", "b"]), Some(2));
    assert_eq!(target_dir_position(&vec!["--target-dir", "--target-dir", "a"]), Some(1));
    assert_eq!(target_dir_position(&vec!["-v", "--target-dir"]), None);
    assert_eq!(target_dir_position(&vec!["a"]), None);
    assert_eq!(target_dir_position(&Vec::new()), None);
}

#[test]
fn a_named_target_dir_is_replaced() {
    let config = arguments(vec!["-v", "--target-dir", "a", "b"]).configure(Some("/abs/a"));
    assert_eq!(config.cargo_args, vec!["-v", "--target-dir", "/abs/a", "b"]);
    assert_eq!(config.target_directory, Some("/abs/a".to_string()));
    let flag = arguments(vec!["--target-dir", "a"]).configure(Some("--target-dir"));
    assert_eq!(flag.cargo_args, vec!["--target-dir", "--target-dir"]);
    assert_eq!(target_dir_position(&flag.cargo_args), Some(1));
}

#[test]
fn without_a_target_dir_nothing_is_replaced() {
    let unnamed = arguments(vec!["-v"]).configure(Some("/abs"));
    assert_eq!(unnamed.cargo_args, vec!["-v"]);
    assert_eq!(unnamed.target_directory, None);
    let unresolved = arguments(vec!["--target-dir", "a"]).configure(None);
    assert_eq!(unresolved.cargo_args, vec!["--target-dir", "a"]);
    assert_eq!(unresolved.target_directory, None);
}

#[test]
fn options_become_the_configuration() {
    let config = arguments(Vec::new()).configure(None);
    assert_eq!(config.sbf_out_dir, Some(PathBuf::from("/out")));
    assert_eq!(config.platform_tools_version, Some("v1.50"));
    assert_eq!(config.features, vec!["f"]);
    assert_eq!(config.jobs, Some("3".to_string()));
    assert_eq!(config.arch, "v2");
    assert_eq!(config.sbf_stack_size, Some(1));
    assert_eq!(config.patch_binaries_for_nix, Some(false));
    assert!(!config.remap_cwd);
    assert!(config.dump && config.skip_tools_install && config.generate_child_script_on_failure);
    assert!(config.offline && config.quiet && config.optimize_size && config.install_only);
    assert!(config.use_abi_v2);
    assert!(!config.force_tools_install && !config.no_rustup_override && !config.lto);
    assert!(!config.no_default_features && !config.debug && !config.verbose && !config.workspace);
    let remapped = Arguments { disable_remap_cwd: false, ..arguments(Vec::new()) };
    assert!(remapped.configure(None).remap_cwd);
}

#[test]
fn the_second_abi_asks_for_its_architecture() {
    for (arch, accepted) in [("v0", false), ("v2", false), ("v3", true), ("v4", false)] {
        let config = Config { use_abi_v2: true, arch, install_only: true, ..Config::default() };
        match choose_task(&config, "d") {
            Task::Reject { error } => {
                assert!(!accepted);
                assert!(matches!(error, BuildError::AbiRequiresV3));
            }
            Task::Install { version } => {
                assert!(accepted);
                assert_eq!(version, "d");
            }
            Task::Build => panic!("{arch}"),
        }
    }
}

#[test]
fn tasks_follow_the_configuration() {
    assert!(matches!(choose_task(&Config::default(), "d"), Task::Build));
    let install = Config {
        install_only: true,
        platform_tools_version: Some("v1.51"),
        ..Config::default()
    };
    assert!(matches!(choose_task(&install, "d"), Task::Install { version: "v1.51" }));
}

#[test]
fn offline_runs_ask_for_no_network() {
    assert!(metadata_options(&Config::default()).is_empty());
    let config = Config { offline: true, ..Config::default() };
    assert_eq!(metadata_options(&config), vec!["--offline"]);
}

#[test]
fn artifacts_are_placed_below_the_current_directory_unless_absolute() {
    match place_out_dir(PathBuf::from("/out"), true) {
        OutDir::Here { path } => assert_eq!(path, PathBuf::from("/out")),
        other => panic!("{other:?}"),
    }
    match place_out_dir(PathBuf::from("out"), false) {
        OutDir::BelowCurrent { path } => assert_eq!(path, PathBuf::from("out")),
        other => panic!("{other:?}"),
    }
}
