use build_sbf::cargo::{
    compose_arguments, compose_flags, feature_notices, flags_variable, plan_cargo, tool_variables,
    variable_from_upper,
};
use build_sbf::config::Config;

fn text(s: &str) -> Option<String> {
    Some(s.to_string())
}

#[test]
fn variables_are_named_after_the_target() {
    assert_eq!(
        flags_variable("sbpf-solana-solana"),
        "CARGO_TARGET_SBPF_SOLANA_SOLANA_RUSTFLAGS"
    );
    assert_eq!(
        flags_variable("sbpfv3-solana-solana"),
        "CARGO_TARGET_SBPFV3_SOLANA_SOLANA_RUSTFLAGS"
    );
    assert_eq!(flags_variable("straße"), "CARGO_TARGET_STRASSE_RUSTFLAGS");
    assert_eq!(variable_from_upper("A-B"), "CARGO_TARGET_A_B_RUSTFLAGS");
    assert!(!flags_variable("-a-").contains('-'));
}

#[test]
fn tools_are_those_of_the_platform() {
    let tools: Vec<_> =
        tool_variables().into_iter().map(|tool| (tool.variable, tool.path.join("/"))).collect();
    let expected = [
        ("CC", "llvm/bin/clang"),
        ("AR", "llvm/bin/llvm-ar"),
        ("OBJDUMP", "llvm/bin/llvm-objdump"),
        ("OBJCOPY", "llvm/bin/llvm-objcopy"),
    ];
    assert_eq!(tools.len(), expected.len());
    for (tool, (variable, path)) in tools.iter().zip(expected) {
        assert_eq!(tool.0, variable);
        assert_eq!(tool.1, path);
    }
}

#[test]
fn default_flags_remap_the_current_directory() {
    assert_eq!(compose_flags(&Config::default(), &None, &None), "  -Zremap-cwd-prefix=");
}

#[test]
fn all_flags_in_order() {
    let config = Config {
        optimize_size: true,
        lto: true,
        sbf_stack_size: Some(8192),
        ..Config::default()
    };
    assert_eq!(
        compose_flags(&config, &text("-A warnings"), &text("-C debuginfo=2")),
        "-A warnings -C debuginfo=2 -Zremap-cwd-prefix= -C opt-level=s -C embed-bitcode=yes \
         -C lto=fat -C llvm-args=-sbf-stack-size=8192"
    );
}

#[test]
fn debug_flags_keep_paths() {
    for remap_cwd in [false, true] {
        let config = Config { debug: true, remap_cwd, ..Config::default() };
        assert_eq!(compose_flags(&config, &None, &text("-g")), " -g");
    }
    let config = Config { remap_cwd: false, ..Config::default() };
    assert_eq!(compose_flags(&config, &text("-g"), &None), "-g ");
}

#[test]
fn default_arguments() {
    assert_eq!(
        compose_arguments(&Config::default(), "sbpf-solana-solana", "1.89.0-sbpf-solana-v1.52"),
        vec![
            "+1.89.0-sbpf-solana-v1.52",
            "build",
            "--target",
            "sbpf-solana-solana",
            "--release",
        ]
    );
}

#[test]
fn all_arguments_in_order() {
    let config = Config {
        cargo_args: vec!["--bin", "x"],
        features: vec!["one".to_string(), "two".to_string()],
        no_rustup_override: true,
        no_default_features: true,
        verbose: true,
        quiet: true,
        jobs: text("4"),
        workspace: true,
        ..Config::default()
    };
    assert_eq!(
        compose_arguments(&config, "t", "unused"),
        vec![
            "build",
            "--target",
            "t",
            "--release",
            "--no-default-features",
            "--features",
            "one",
            "--features",
            "two",
            "--verbose",
            "--quiet",
            "--jobs",
            "4",
            "--workspace",
            "--bin",
            "x",
        ]
    );
}

#[test]
fn debug_arguments_ask_for_no_release() {
    let config = Config { debug: true, ..Config::default() };
    assert_eq!(compose_arguments(&config, "t", "n"), vec!["+n", "build", "--target", "t"]);
}

#[test]
fn user_flags_are_moved_to_the_target() {
    let config = Config { remap_cwd: false, ..Config::default() };
    let moved = plan_cargo(&config, "t", "n", "V".to_string(), &text("-g"), &text("-O"));
    assert!(moved.removes_rustflags);
    assert_eq!(moved.flags_variable, "V");
    assert_eq!(moved.flags, "-g -O");
    assert_eq!(moved.arguments, vec!["+n", "build", "--target", "t", "--release"]);
    assert_eq!(moved.tools.len(), 4);
    assert!(!moved.script_on_failure);
    let scripted = Config { generate_child_script_on_failure: true, ..Config::default() };
    assert!(plan_cargo(&scripted, "t", "n", "V".to_string(), &None, &None).script_on_failure);
    let kept = plan_cargo(&config, "t", "n", "V".to_string(), &None, &text("-O"));
    assert!(!kept.removes_rustflags);
    assert_eq!(kept.flags, " -O");
}

#[test]
fn features_are_noticed() {
    let messages = |config: &Config| {
        feature_notices(config).iter().map(|notice| notice.message()).collect::<Vec<_>>()
    };
    assert!(messages(&Config::default()).is_empty());
    let config = Config {
        no_default_features: true,
        features: vec!["a".to_string(), "b".to_string()],
        ..Config::default()
    };
    assert_eq!(messages(&config), vec!["No default features", "Features: a b"]);
}
