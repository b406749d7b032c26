use build_sbf::report::{BuildError, Notice};

#[test]
fn error_messages() {
    let text = |s: &str| s.to_string();
    let cases = vec![
        (
            BuildError::MetadataUnavailable { reason: text("no manifest") },
            "Failed to obtain package metadata: no manifest",
        ),
        (
            BuildError::NoManifestDirectory { manifest_path: text("/") },
            "Unable to get directory of /",
        ),
        (
            BuildError::DirectoryUnavailable { directory: text("/w"), reason: text("gone") },
            "Unable to set current directory to /w: gone",
        ),
        (
            BuildError::CorruptedToolchain,
            "The Solana toolchain is corrupted. Please, run cargo-build-sbf with the \
             --force-tools-install argument to fix it.",
        ),
        (
            BuildError::MultipleCdylibTargets {
                package: text("multi"),
                targets: vec![text("one"), text("two")],
            },
            "multi crate contains multiple cdylib targets: [\"one\", \"two\"]",
        ),
        (BuildError::AbiRequiresV3, "--abi-v2 requires --arch v3"),
        (
            BuildError::TargetDirNotCreated { directory: text("out"), reason: text("denied") },
            "Unable to create target-dir directory out: denied",
        ),
        (
            BuildError::TargetDirNotCanonical { directory: text("out"), reason: text("gone") },
            "Unable to canonicalize provided target-dir directory out: gone",
        ),
    ];
    for (error, message) in cases {
        assert_eq!(error.message(), message);
    }
}

#[test]
fn notice_messages() {
    let features = Notice::Features { features: vec!["a".to_string(), "b".to_string()] };
    assert_eq!(features.message(), "Features: a b");
    assert!(!features.is_warning());
    assert_eq!(Notice::NoDefaultFeatures.message(), "No default features");
    assert!(!Notice::NoDefaultFeatures.is_warning());
    let types = Notice::TwoCrateTypes { package: "p".to_string(), other: "rlib".to_string() };
    assert_eq!(
        types.message(),
        "Package 'p' has two crate types defined: cdylib and rlib. This setting precludes \
         link-time optimizations (LTO). Use cdylib for programs to be deployed and rlib for \
         packages to be imported by other programs as libraries."
    );
    assert!(types.is_warning());
    let removed = Notice::RustflagsRemoved { variable: "V".to_string() };
    assert_eq!(
        removed.message(),
        "Removed RUSTFLAGS from cargo environment, because it overrides V."
    );
    assert!(removed.is_warning());
}
