use build_sbf::config::Config;
use build_sbf::metadata::Metadata;
use build_sbf::package::{Package, Target};
use build_sbf::report::BuildError;
use build_sbf::session::{advance, begin, find_build_directory, Action, Event, Stage, Step};
use std::path::PathBuf;

fn cdylib(name: &str) -> Target {
    Target {
        name: name.to_string(),
        kind: vec!["cdylib".to_string()],
        crate_types: vec!["cdylib".to_string()],
    }
}

fn package(name: &str, manifest_path: &str, targets: Vec<Target>) -> Package {
    Package::new(name.to_string(), name.to_string(), manifest_path.to_string(), targets)
}

fn metadata(packages: Vec<Package>, root_package: Option<Package>) -> Metadata {
    Metadata {
        workspace_members: packages.iter().map(|package| package.id.clone()).collect(),
        packages,
        workspace_root: "/work".to_string(),
        target_directory: "/work/target".to_string(),
        root_package,
    }
}

fn installed() -> Event<'static> {
    Event::ToolsInstalled { version: "v1.51".to_string() }
}

fn found(platform_tools_dir: &PathBuf, corrupted: bool) -> Event<'_> {
    Event::ToolsFound {
        platform_tools_dir,
        target_triple: "sbpf-solana-solana".to_string(),
        toolchain_name: "tc".to_string(),
        corrupted,
    }
}

fn flags<'a>(rustflags: Option<&str>, target_rustflags: Option<&str>) -> Event<'a> {
    Event::FlagsRead {
        rustflags: rustflags.map(|s| s.to_string()),
        target_rustflags: target_rustflags.map(|s| s.to_string()),
    }
}

fn next<'a>(config: &Config, step: Step<'a>, event: Event<'a>) -> Step<'a> {
    advance(config, step.stage, event).unwrap()
}

fn cargo_done<'a>(config: &Config, dir: &'a PathBuf, metadata: Metadata) -> Step<'a> {
    let step = next(config, begin(config, None), Event::MetadataRead { metadata });
    let step = next(config, step, Event::DirectoryEntered);
    let step = next(config, step, installed());
    let step = next(config, step, found(dir, false));
    let step = next(config, step, flags(None, None));
    next(config, step, Event::CargoFinished)
}

fn processed<'a>(step: &'a Step<'_>) -> (&'a str, Option<&'a str>) {
    match &step.action {
        Action::PostProcess { platform_tools_dir, target_directory, program_name } => {
            assert_eq!(*platform_tools_dir, &PathBuf::from("/tools"));
            (target_directory, program_name.as_deref())
        }
        other => panic!("{other:?}"),
    }
}

#[test]
fn builds_begin_with_the_metadata() {
    let config = Config { offline: true, ..Config::default() };
    let step = begin(&config, Some(PathBuf::from("p/Cargo.toml")));
    match &step.action {
        Action::ReadMetadata { manifest_path, options } => {
            assert_eq!(manifest_path, &Some(PathBuf::from("p/Cargo.toml")));
            assert_eq!(options, &vec!["--offline".to_string()]);
        }
        other => panic!("{other:?}"),
    }
    assert!(matches!(step.stage, Stage::Metadata));
    assert!(step.notices.is_empty());
    match begin(&Config::default(), None).action {
        Action::ReadMetadata { manifest_path, options } => {
            assert_eq!(manifest_path, None);
            assert!(options.is_empty());
        }
        other => panic!("{other:?}"),
    }
}

#[test]
fn a_root_package_is_built_alone() {
    let config = Config { remap_cwd: false, ..Config::default() };
    let root = package("p", "/work/p/Cargo.toml", vec![cdylib("my-program")]);
    let other = package("q", "/work/q/Cargo.toml", vec![cdylib("q")]);
    let event = Event::MetadataRead { metadata: metadata(vec![other], Some(root)) };
    let step = next(&config, begin(&config, None), event);
    assert!(matches!(&step.action, Action::EnterDirectory { directory } if directory == "/work/p"));
    let step = next(&config, step, Event::DirectoryEntered);
    assert!(matches!(step.action, Action::InstallTools { for_root_package: true }));
    let step = next(&config, step, installed());
    assert!(matches!(&step.action, Action::FindTools { version } if version == "v1.51"));
    let dir = PathBuf::from("/tools");
    let step = next(&config, step, found(&dir, false));
    let variable = "CARGO_TARGET_SBPF_SOLANA_SOLANA_RUSTFLAGS";
    assert!(matches!(&step.action, Action::ReadFlags { variable: read } if read == variable));
    let step = next(&config, step, flags(Some("-g"), Some("-O")));
    assert_eq!(step.notices.len(), 1);
    assert_eq!(
        step.notices[0].message(),
        format!("Removed RUSTFLAGS from cargo environment, because it overrides {variable}.")
    );
    match &step.action {
        Action::RunCargo { platform_tools_dir, invocation } => {
            assert_eq!(*platform_tools_dir, &dir);
            assert!(invocation.removes_rustflags);
            assert_eq!(invocation.flags_variable, variable);
            assert_eq!(invocation.flags, "-g -O");
            assert_eq!(
                invocation.arguments,
                vec!["+tc", "build", "--target", "sbpf-solana-solana", "--release"]
            );
        }
        other => panic!("{other:?}"),
    }
    let step = next(&config, step, Event::CargoFinished);
    assert_eq!(processed(&step), ("/work/target", Some("my_program")));
    let step = next(&config, step, Event::PostProcessed);
    assert!(matches!(step.action, Action::Finish));
    assert!(matches!(step.stage, Stage::Done));
}

#[test]
fn a_root_package_without_a_program_is_processed_too() {
    let config = Config::default();
    let root = package("p", "/work/Cargo.toml", Vec::new());
    let dir = PathBuf::from("/tools");
    let step = cargo_done(&config, &dir, metadata(Vec::new(), Some(root)));
    assert_eq!(processed(&step), ("/work/target", None));
}

#[test]
fn a_workspace_is_processed_in_order() {
    let config = Config {
        workspace: true,
        target_directory: Some("/elsewhere".to_string()),
        ..Config::default()
    };
    let packages = vec![
        package("b", "/work/b/Cargo.toml", vec![cdylib("b-b")]),
        package("lib", "/work/lib/Cargo.toml", Vec::new()),
        package("a", "/work/a/Cargo.toml", vec![cdylib("a")]),
    ];
    let root = package("r", "/work/Cargo.toml", vec![cdylib("r")]);
    let event = Event::MetadataRead { metadata: metadata(packages, Some(root)) };
    let step = next(&config, begin(&config, None), event);
    assert!(matches!(&step.action, Action::EnterDirectory { directory } if directory == "/work"));
    let step = next(&config, step, Event::DirectoryEntered);
    assert!(matches!(step.action, Action::InstallTools { for_root_package: false }));
    let step = next(&config, step, installed());
    let dir = PathBuf::from("/tools");
    let step = next(&config, step, found(&dir, false));
    let step = next(&config, step, flags(None, None));
    assert!(step.notices.is_empty());
    let step = next(&config, step, Event::CargoFinished);
    assert_eq!(processed(&step), ("/elsewhere", Some("b_b")));
    let step = next(&config, step, Event::PostProcessed);
    assert_eq!(processed(&step), ("/elsewhere", Some("a")));
    let step = next(&config, step, Event::PostProcessed);
    assert!(matches!(step.action, Action::Finish));
}

#[test]
fn a_workspace_without_programs_is_done_after_cargo() {
    let config = Config::default();
    let dir = PathBuf::from("/tools");
    let step = cargo_done(&config, &dir, metadata(Vec::new(), None));
    assert!(matches!(step.action, Action::Finish));
}

#[test]
fn a_workspace_stops_at_the_first_unfit_package() {
    let config = Config::default();
    let packages = vec![
        package("good", "/work/good/Cargo.toml", vec![cdylib("good")]),
        package("bad", "/work/bad/Cargo.toml", vec![cdylib("x"), cdylib("y")]),
        package("never", "/work/never/Cargo.toml", vec![cdylib("never")]),
    ];
    let dir = PathBuf::from("/tools");
    let step = cargo_done(&config, &dir, metadata(packages, None));
    assert_eq!(processed(&step), ("/work/target", Some("good")));
    let step = next(&config, step, Event::PostProcessed);
    match &step.action {
        Action::Fail { error } => assert_eq!(
            error.message(),
            "bad crate contains multiple cdylib targets: [\"x\", \"y\"]"
        ),
        other => panic!("{other:?}"),
    }
    assert!(matches!(step.stage, Stage::Done));
}

#[test]
fn an_unfit_root_package_is_refused_at_once() {
    let config = Config::default();
    let bad = package("bad", "/work/Cargo.toml", vec![cdylib("x"), cdylib("y")]);
    let event = Event::MetadataRead { metadata: metadata(Vec::new(), Some(bad)) };
    let step = next(&config, begin(&config, None), event);
    assert!(matches!(
        step.action,
        Action::Fail { error: BuildError::MultipleCdylibTargets { .. } }
    ));
    let nowhere = package("nowhere", "/", vec![cdylib("x")]);
    let event = Event::MetadataRead { metadata: metadata(Vec::new(), Some(nowhere)) };
    let step = next(&config, begin(&config, None), event);
    match &step.action {
        Action::Fail { error } => assert_eq!(error.message(), "Unable to get directory of /"),
        other => panic!("{other:?}"),
    }
}

#[test]
fn outside_failures_end_the_build() {
    let config = Config { no_default_features: true, ..Config::default() };
    let reason = "why".to_string();
    let step = next(&config, begin(&config, None), Event::MetadataFailed { reason: reason.clone() });
    assert!(matches!(
        &step.action,
        Action::Fail { error: BuildError::MetadataUnavailable { reason } } if reason == "why"
    ));
    let event = Event::MetadataRead { metadata: metadata(Vec::new(), None) };
    let step = next(&config, begin(&config, None), event);
    let step = next(&config, step, Event::DirectoryRefused { reason });
    match &step.action {
        Action::Fail { error } => {
            assert_eq!(error.message(), "Unable to set current directory to /work: why")
        }
        other => panic!("{other:?}"),
    }
    let event = Event::MetadataRead { metadata: metadata(Vec::new(), None) };
    let step = next(&config, begin(&config, None), event);
    let step = next(&config, step, Event::DirectoryEntered);
    let step = next(&config, step, installed());
    let dir = PathBuf::from("/tools");
    let step = next(&config, step, found(&dir, true));
    assert!(matches!(step.action, Action::Fail { error: BuildError::CorruptedToolchain }));
    assert_eq!(step.notices.len(), 1);
}

#[test]
fn events_out_of_turn_lead_nowhere() {
    let config = Config::default();
    assert!(advance(&config, Stage::Metadata, Event::CargoFinished).is_none());
    assert!(advance(&config, Stage::Metadata, installed()).is_none());
    let dir = PathBuf::from("/tools");
    assert!(advance(&config, Stage::Metadata, found(&dir, false)).is_none());
    assert!(advance(&config, Stage::Done, Event::PostProcessed).is_none());
    assert!(advance(&config, Stage::Done, Event::DirectoryEntered).is_none());
}

#[test]
fn the_directory_is_that_of_the_package_or_the_workspace() {
    let inner = package("p", "/work/p/Cargo.toml", Vec::new());
    assert_eq!(find_build_directory(Some(&inner), "/work").unwrap(), "/work/p");
    assert_eq!(find_build_directory(None, "/work").unwrap(), "/work");
    let nowhere = package("p", "/", Vec::new());
    assert!(find_build_directory(Some(&nowhere), "/work").is_err());
}
