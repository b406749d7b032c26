use build_sbf::metadata::Metadata;
use build_sbf::package::{generate_program_name, Package, Target};
use build_sbf::report::BuildError;

fn strings(items: &[&str]) -> Vec<String> {
    items.iter().map(|item| item.to_string()).collect()
}

fn target(name: &str, kind: &[&str], crate_types: &[&str]) -> Target {
    Target { name: name.to_string(), kind: strings(kind), crate_types: strings(crate_types) }
}

fn package(name: &str, targets: Vec<Target>) -> Package {
    Package::new(
        format!("{name} 0.1.0"),
        name.to_string(),
        format!("/work/{name}/Cargo.toml"),
        targets,
    )
}

fn directory_of(manifest_path: &str) -> Option<String> {
    Package::new(String::new(), String::new(), manifest_path.to_string(), Vec::new()).directory
}

#[test]
fn new_packages_keep_what_they_are_given() {
    let built = package("p", vec![target("t", &["lib"], &["lib"])]);
    assert_eq!(built.id, "p 0.1.0");
    assert_eq!(built.name, "p");
    assert_eq!(built.manifest_path, "/work/p/Cargo.toml");
    assert_eq!(built.targets.len(), 1);
    assert_eq!(built.targets[0].name, "t");
}

#[test]
fn manifests_lie_in_directories() {
    assert_eq!(directory_of("/work/p/Cargo.toml"), Some("/work/p".to_string()));
    assert_eq!(directory_of("p/Cargo.toml"), Some("p".to_string()));
    assert_eq!(directory_of("/Cargo.toml"), Some("/".to_string()));
    assert_eq!(directory_of("./Cargo.toml"), Some(".".to_string()));
    assert_eq!(directory_of("../Cargo.toml"), Some("..".to_string()));
    assert_eq!(directory_of("/v1./Cargo.toml"), Some("/v1.".to_string()));
    assert_eq!(directory_of("/ab:/Cargo.toml"), Some("/ab:".to_string()));
    assert_eq!(directory_of("Cargo.toml"), Some(String::new()));
    assert_eq!(directory_of("/"), None);
    assert_eq!(directory_of("/./"), None);
    assert_eq!(directory_of(""), None);
}

#[test]
fn backslashes_separate_on_some_systems() {
    let directory = directory_of("C:\\work\\Cargo.toml").unwrap();
    assert!(directory.is_empty() || directory == "C:\\work");
    let root = directory_of("C:\\Cargo.toml").unwrap();
    assert!(root.is_empty() || root == "C:\\");
    let slashed = directory_of("C:/Cargo.toml").unwrap();
    assert!(slashed == "C:" || slashed == "C:/");
}

#[test]
fn the_only_cdylib_names_the_program() {
    let built = package(
        "p",
        vec![
            target("tool", &["bin"], &["bin"]),
            target("my-own-program", &["cdylib"], &["cdylib"]),
        ],
    );
    let program = generate_program_name(&built);
    assert_eq!(program.name.unwrap(), Some("my_own_program".to_string()));
    assert!(program.notices.is_empty());
}

#[test]
fn packages_without_a_cdylib_build_no_program() {
    let built = package("p", vec![target("p", &["lib"], &["lib"])]);
    let program = generate_program_name(&built);
    assert_eq!(program.name.unwrap(), None);
    assert!(program.notices.is_empty());
    assert_eq!(generate_program_name(&package("q", Vec::new())).name.unwrap(), None);
}

#[test]
fn several_cdylibs_are_an_error() {
    let built = package(
        "multi",
        vec![
            target("one-a", &["cdylib"], &["cdylib", "lib"]),
            target("two", &["cdylib"], &["cdylib"]),
        ],
    );
    let program = generate_program_name(&built);
    match program.name {
        Err(BuildError::MultipleCdylibTargets { package, targets }) => {
            assert_eq!(package, "multi");
            assert_eq!(targets, vec!["one-a", "two"]);
        }
        other => panic!("{other:?}"),
    }
    assert_eq!(program.notices.len(), 1);
}

#[test]
fn another_library_type_is_noticed() {
    let message = |crate_types: &[&str]| {
        let built = package("p", vec![target("t", &["lib"], crate_types)]);
        generate_program_name(&built).notices.iter().map(|n| n.message()).collect::<Vec<_>>()
    };
    assert!(message(&["cdylib"]).is_empty());
    assert!(message(&["lib", "rlib"]).is_empty());
    let lib = message(&["cdylib", "lib"]);
    assert_eq!(lib.len(), 1);
    assert!(lib[0].starts_with("Package 'p' has two crate types defined: cdylib and lib."));
    let both = message(&["lib", "rlib", "cdylib"]);
    assert_eq!(both.len(), 1);
    assert!(both[0].starts_with("Package 'p' has two crate types defined: cdylib and rlib."));
}

#[test]
fn program_names_have_no_dash() {
    let built = package("p", vec![target("-a--b-", &["cdylib"], &["cdylib"])]);
    let name = generate_program_name(&built).name.unwrap().unwrap();
    assert_eq!(name, "_a__b_");
}

#[test]
fn programs_of_the_workspace_come_in_order() {
    let cdylib = |name: &str| target(name, &["cdylib"], &["cdylib"]);
    let metadata = Metadata {
        packages: vec![
            package("outside", vec![cdylib("outside")]),
            package("second", vec![cdylib("second-one")]),
            package("plain", vec![target("plain", &["lib"], &["lib"])]),
            package("first", vec![target("x", &["bin"], &["bin"]), cdylib("first")]),
            package("odd", vec![target("odd", &["lib"], &["cdylib"])]),
        ],
        workspace_members: strings(&["first 0.1.0", "odd 0.1.0", "plain 0.1.0", "second 0.1.0"]),
        workspace_root: "/work".to_string(),
        target_directory: "/work/target".to_string(),
        root_package: None,
    };
    let names: Vec<_> = metadata.programs().into_iter().map(|p| p.name.unwrap()).collect();
    assert_eq!(names, vec![Some("second_one".to_string()), Some("first".to_string())]);
}

#[test]
fn file_names_have_a_directory_before_them() {
    for path in ["/a/./Cargo.toml", "a//Cargo.toml", "../Cargo.toml", "C:/Cargo.toml"] {
        let directory = directory_of(path).unwrap();
        assert!(path.starts_with(&directory));
        assert!(directory.len() < path.len());
    }
}

#[test]
fn fillers_are_not_left_behind() {
    let cases = [
        ("a//Cargo.toml", "a"),
        ("/a/./Cargo.toml", "/a"),
        ("/a/.//./b///./Cargo.toml//.", "/a/.//./b"),
        ("a/b/", "a"),
        ("a/b/.", "a"),
        ("././/name", "."),
        ("/./name", "/"),
        ("/name/", "/"),
        ("name/./", ""),
        ("../", ""),
        (".", ""),
        ("./.", ""),
        ("a/../", "a"),
    ];
    for (path, directory) in cases {
        assert_eq!(directory_of(path).as_deref(), Some(directory), "{path}");
    }
}
