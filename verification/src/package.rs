//! The packages that cargo describes, and the programs that they build.

use crate::report::{notices_view, BuildError, BuildErrorView, Notice, NoticeView};
use crate::sequence::{filter_map_next, map_push};
use crate::text::{contains_text, optional_text, replace_char, replaced, texts};
use vstd::prelude::*;

verus! {

/// A target of a package: what one call of the compiler builds.
#[derive(Debug)]
pub struct Target {
    pub name: String,
    pub kind: Vec<String>,
    pub crate_types: Vec<String>,
}

/// A `Target` over sequences of characters.
pub struct TargetView {
    pub name: Seq<char>,
    pub kind: Seq<Seq<char>>,
    pub crate_types: Seq<Seq<char>>,
}

impl View for Target {
    type V = TargetView;

    open spec fn view(&self) -> TargetView {
        TargetView {
            name: self.name@,
            kind: texts(self.kind@),
            crate_types: texts(self.crate_types@),
        }
    }
}

/// A package.
#[derive(Debug)]
pub struct Package {
    /// What tells the package from all others.
    pub id: String,
    pub name: String,
    /// The path of the manifest.
    pub manifest_path: String,
    /// The directory that holds the manifest, if the path names one.
    pub directory: Option<String>,
    pub targets: Vec<Target>,
}

/// A `Package` over sequences of characters.
pub struct PackageView {
    pub id: Seq<char>,
    pub name: Seq<char>,
    pub manifest_path: Seq<char>,
    pub directory: Option<Seq<char>>,
    pub targets: Seq<TargetView>,
}

/// The targets of a list over sequences of characters.
pub open spec fn targets_view(targets: Seq<Target>) -> Seq<TargetView> {
    targets.map_values(|target: Target| target@)
}

impl View for Package {
    type V = PackageView;

    open spec fn view(&self) -> PackageView {
        PackageView {
            id: self.id@,
            name: self.name@,
            manifest_path: self.manifest_path@,
            directory: optional_text(self.directory),
            targets: targets_view(self.targets@),
        }
    }
}

/// The packages of a list over sequences of characters.
pub open spec fn packages_view(packages: Seq<Package>) -> Seq<PackageView> {
    packages.map_values(|package: Package| package@)
}

/// A character that separates the components of a path: `/` on Unix, both on Windows.
pub open spec fn separator(c: char) -> bool {
    c == '/' || c == '\\'
}

/// Whether a path begins as one on a network share does on Windows.
pub open spec fn on_a_share(path: Seq<char>) -> bool {
    path.len() >= 2 && separator(path[0]) && separator(path[1])
}

/// Whether a text is written as a drive is on Windows.
pub open spec fn drive(directory: Seq<char>) -> bool {
    directory.len() == 2 && !separator(directory[0]) && directory[1] == ':'
}

/// Whether a text is, on Unix and on Windows, a directory that a file name can follow after a
/// separator: it does not end in a separator or in a `.` after one, and it is neither a drive nor
/// on a network share.
pub open spec fn plain_directory(directory: Seq<char>) -> bool {
    &&& directory.len() > 0
    &&& !separator(directory.last())
    &&& !(directory.len() >= 2 && directory.last() == '.' && separator(
        directory[directory.len() - 2],
    ))
    &&& !drive(directory)
    &&& !on_a_share(directory)
}

/// Whether a text is, on Unix and on Windows, one component after a separator.
pub open spec fn plain_file_name(name: Seq<char>) -> bool {
    &&& name.len() > 0
    &&& !(name.len() == 1 && name[0] == '.')
    &&& forall|i: int| 0 <= i < name.len() ==> !separator(#[trigger] name[i])
}

/// Whether a text adds no component to a path: each `/` in it is followed by another, by a `.` that
/// stands alone, or by nothing.
pub open spec fn filler(text: Seq<char>) -> bool {
    forall|i: int|
        0 <= i < text.len() ==> #[trigger] text[i] == '/' || (text[i] == '.' && i > 0 && text[i - 1]
            == '/')
}

/// Whether a text separates two components and adds none: it is a filler that ends in `/`.
pub open spec fn gap(text: Seq<char>) -> bool {
    filler(text) && text.len() > 0 && text.last() == '/'
}

/// Whether a path ends, on Unix and on Windows, in a component after a `/`.
pub open spec fn ends_in_file_name(path: Seq<char>) -> bool {
    exists|i: int|
        0 <= i < path.len() && path[i] == '/' && #[trigger] plain_file_name(path.skip(i + 1))
}

/// Whether `parent` can be what is left of a path without its final component, on Unix or on
/// Windows.
pub open spec fn parent_of(path: Seq<char>, parent: Option<Seq<char>>) -> bool {
    &&& parent matches Some(left) ==> left.len() < path.len() && left == path.take(
        left.len() as int,
    )
    &&& path.len() > 0 && filler(path) && !on_a_share(path) ==> parent is None
    &&& forall|rest: Seq<char>|
        #![trigger filler(rest)]
        filler(rest) && path == seq!['.'] + rest ==> parent == Some(Seq::<char>::empty())
    &&& ends_in_file_name(path) && !on_a_share(path) ==> parent is Some
    &&& forall|name: Seq<char>, rest: Seq<char>|
        #![trigger plain_file_name(name), filler(rest)]
        plain_file_name(name) && filler(rest) && path == name + rest && !(path.len() >= 2 && path[1]
            == ':') ==> parent == Some(Seq::<char>::empty())
    &&& forall|between: Seq<char>, name: Seq<char>, rest: Seq<char>|
        #![trigger gap(between), plain_file_name(name), filler(rest)]
        gap(between) && plain_file_name(name) && filler(rest) && path == between + name + rest
            && !on_a_share(path) ==> parent == Some(seq!['/'])
    &&& forall|directory: Seq<char>, between: Seq<char>, name: Seq<char>, rest: Seq<char>|
        #![trigger plain_directory(directory), gap(between), plain_file_name(name), filler(rest)]
        plain_directory(directory) && gap(between) && plain_file_name(name) && filler(rest) && path
            == directory + between + name + rest ==> parent == Some(directory)
    &&& forall|directory: Seq<char>, name: Seq<char>|
        #![trigger plain_directory(directory), plain_file_name(name)]
        plain_directory(directory) && plain_file_name(name) && path == directory + seq!['/'] + name
            ==> parent == Some(directory)
    &&& forall|directory: Seq<char>, name: Seq<char>|
        #![trigger plain_directory(directory), plain_file_name(name)]
        plain_directory(directory) && plain_file_name(name) && !directory.contains('/') && path
            == directory + seq!['\\'] + name ==> parent == Some(directory) || parent == Some(
            Seq::<char>::empty(),
        )
    &&& forall|directory: Seq<char>, between: Seq<char>, name: Seq<char>, rest: Seq<char>|
        #![trigger drive(directory), gap(between), plain_file_name(name), filler(rest)]
        drive(directory) && gap(between) && plain_file_name(name) && filler(rest) && path
            == directory + between + name + rest ==> parent == Some(directory) || parent == Some(
            directory + seq!['/'],
        )
    &&& forall|directory: Seq<char>, name: Seq<char>|
        #![trigger drive(directory), plain_file_name(name)]
        drive(directory) && plain_file_name(name) && path == directory + seq!['\\'] + name ==> {
            ||| parent == Some(directory)
            ||| parent == Some(directory + seq!['\\'])
            ||| parent == Some(Seq::<char>::empty())
        }
}

/// `Utf8Path::parent` of `camino`: the path without its final component, if there is one. What is
/// left is a shorter beginning of the path.
///
/// Repeated `/`, a `.` after one, and what follows the final component are no components, so they
/// are not left at the end either. The root directory has no parent. There is one where the path
/// ends in a file name after a `/` and is not on a network share, where the name could belong to
/// the share. Of a file name alone, nothing is left; of a file in a plain directory, or in the root
/// directory, that directory is.
///
/// Where `\` stands before the file name and `/` nowhere, the part before it is left on Windows,
/// and nothing on Unix. Where a drive stands before the separator, what is left is the drive, the
/// drive with the separator, or nothing, as the system has it. What counts as a component of other
/// paths depends on the system, so of those no more is said.
#[verifier::external_body]
fn parent_directory(path: &str) -> (parent: Option<String>)
    ensures
        parent_of(path@, optional_text(parent)),
{
    cargo_metadata::camino::Utf8Path::new(path).parent().map(|parent| parent.as_str().to_owned())
}

impl Package {
    /// A package with its manifest at the given path.
    pub fn new(id: String, name: String, manifest_path: String, targets: Vec<Target>) -> (package:
        Self)
        ensures
            package.id == id,
            package.name == name,
            package.manifest_path == manifest_path,
            package.targets == targets,
            parent_of(manifest_path@, package@.directory),
    {
        let directory = parent_directory(manifest_path.as_str());
        Package { id, name, manifest_path, directory, targets }
    }
}

/// Whether a target is a dynamic library: a program to be deployed.
pub open spec fn builds_cdylib(target: TargetView) -> bool {
    target.crate_types.contains("cdylib"@)
}

/// The other library type that a target is built as, where there is one.
pub open spec fn other_crate_type(target: TargetView) -> Option<Seq<char>> {
    if target.crate_types.contains("rlib"@) {
        Some("rlib"@)
    } else if target.crate_types.contains("lib"@) {
        Some("lib"@)
    } else {
        None
    }
}

/// The names of the targets that are dynamic libraries, in order.
pub open spec fn cdylib_names(targets: Seq<TargetView>) -> Seq<Seq<char>> {
    targets.filter(|target: TargetView| builds_cdylib(target)).map_values(
        |target: TargetView| target.name,
    )
}

/// The notices that a package calls for: one for each program that is another library too.
pub open spec fn crate_type_notices(package: Seq<char>, targets: Seq<TargetView>) -> Seq<
    NoticeView,
> {
    targets.filter(
        |target: TargetView| builds_cdylib(target) && other_crate_type(target) is Some,
    ).map_values(
        |target: TargetView|
            NoticeView::TwoCrateTypes { package, other: other_crate_type(target)->0 },
    )
}

/// The name of the program that a package builds: that of its only dynamic library, with `_` for
/// `-`. A package without one builds no program, and one with several is an error.
pub open spec fn program_name(package: PackageView) -> Result<Option<Seq<char>>, BuildErrorView> {
    let names = cdylib_names(package.targets);
    if names.len() == 0 {
        Ok(None)
    } else if names.len() == 1 {
        Ok(Some(replaced(names[0], '-', '_')))
    } else {
        Err(BuildErrorView::MultipleCdylibTargets { package: package.name, targets: names })
    }
}

/// The program that a package builds, and what deserves notice about it.
#[derive(Debug)]
pub struct Program {
    pub notices: Vec<Notice>,
    pub name: Result<Option<String>, BuildError>,
}

/// A `Program` over sequences of characters.
pub struct ProgramView {
    pub notices: Seq<NoticeView>,
    pub name: Result<Option<Seq<char>>, BuildErrorView>,
}

impl View for Program {
    type V = ProgramView;

    open spec fn view(&self) -> ProgramView {
        ProgramView {
            notices: notices_view(self.notices@),
            name: match self.name {
                Ok(name) => Ok(optional_text(name)),
                Err(error) => Err(error@),
            },
        }
    }
}

/// The programs of a list over sequences of characters.
pub open spec fn programs_view(programs: Seq<Program>) -> Seq<ProgramView> {
    programs.map_values(|program: Program| program@)
}

/// The program that a package builds.
pub open spec fn program_of(package: PackageView) -> ProgramView {
    ProgramView {
        notices: crate_type_notices(package.name, package.targets),
        name: program_name(package),
    }
}

/// Finds the program that a package builds.
pub fn generate_program_name(package: &Package) -> (program: Program)
    ensures
        program@ == program_of(package@),
{
    let ghost targets = targets_view(package.targets@);
    let ghost is_cdylib = |target: TargetView| builds_cdylib(target);
    let ghost is_both = |target: TargetView|
        builds_cdylib(target) && other_crate_type(target) is Some;
    let ghost name_of = |target: TargetView| target.name;
    let ghost notice_of = |target: TargetView|
        NoticeView::TwoCrateTypes { package: package.name@, other: other_crate_type(target)->0 };
    let mut names: Vec<String> = Vec::new();
    let mut notices: Vec<Notice> = Vec::new();
    let mut i: usize = 0;
    while i < package.targets.len()
        invariant
            i <= package.targets@.len(),
            targets == targets_view(package.targets@),
            is_cdylib == (|target: TargetView| builds_cdylib(target)),
            is_both == (|target: TargetView|
                builds_cdylib(target) && other_crate_type(target) is Some),
            name_of == (|target: TargetView| target.name),
            notice_of == (|target: TargetView|
                NoticeView::TwoCrateTypes {
                    package: package.name@,
                    other: other_crate_type(target)->0,
                }),
            texts(names@) == targets.take(i as int).filter(is_cdylib).map_values(name_of),
            notices_view(notices@) == targets.take(i as int).filter(is_both).map_values(notice_of),
        decreases package.targets@.len() - i,
    {
        let target = &package.targets[i];
        proof {
            filter_map_next(targets, i as int, is_cdylib, name_of);
            filter_map_next(targets, i as int, is_both, notice_of);
        }
        let ghost known = names@;
        let ghost noticed = notices@;
        if contains_text(&target.crate_types, "cdylib") {
            if contains_text(&target.crate_types, "rlib") {
                let other = "rlib".to_owned();
                notices.push(Notice::TwoCrateTypes { package: package.name.clone(), other });
            } else if contains_text(&target.crate_types, "lib") {
                let other = "lib".to_owned();
                notices.push(Notice::TwoCrateTypes { package: package.name.clone(), other });
            }
            names.push(target.name.clone());
            proof {
                map_push(known, names@.last(), |s: String| s@);
                map_push(noticed, notices@.last(), |notice: Notice| notice@);
            }
        }
        i += 1;
    }
    assert(targets.take(i as int) =~= targets);
    let name = if names.len() == 0 {
        Ok(None)
    } else if names.len() == 1 {
        Ok(Some(replace_char(names[0].as_str(), '-', '_')))
    } else {
        Err(BuildError::MultipleCdylibTargets { package: package.name.clone(), targets: names })
    };
    Program { notices, name }
}

} // verus!
