//! What cargo says of the packages at hand.

use crate::package::{
    generate_program_name, packages_view, program_of, programs_view, Package, PackageView, Program,
    ProgramView, TargetView,
};
use crate::sequence::{filter_map_next, map_push};
use crate::text::{contains_text, texts};
use vstd::prelude::*;

verus! {

/// What cargo says of the packages at hand.
#[derive(Debug)]
pub struct Metadata {
    /// The packages: those of the workspace and those that they need.
    pub packages: Vec<Package>,
    /// What tells the packages of the workspace from all others.
    pub workspace_members: Vec<String>,
    pub workspace_root: String,
    pub target_directory: String,
    /// The package at the root of the workspace, where there is one.
    pub root_package: Option<Package>,
}

/// A `Metadata` over sequences of characters.
pub struct MetadataView {
    pub packages: Seq<PackageView>,
    pub workspace_members: Seq<Seq<char>>,
    pub workspace_root: Seq<char>,
    pub target_directory: Seq<char>,
    pub root_package: Option<PackageView>,
}

impl View for Metadata {
    type V = MetadataView;

    open spec fn view(&self) -> MetadataView {
        MetadataView {
            packages: packages_view(self.packages@),
            workspace_members: texts(self.workspace_members@),
            workspace_root: self.workspace_root@,
            target_directory: self.target_directory@,
            root_package: match self.root_package {
                Some(package) => Some(package@),
                None => None,
            },
        }
    }
}

/// Whether a target is of the dynamic library kind.
pub open spec fn cdylib_kind(target: TargetView) -> bool {
    target.kind.contains("cdylib"@)
}

/// Whether a package belongs to the workspace and has a dynamic library among its targets.
pub open spec fn is_sbf_package(members: Seq<Seq<char>>, package: PackageView) -> bool {
    &&& members.contains(package.id)
    &&& exists|i: int| 0 <= i < package.targets.len() && cdylib_kind(#[trigger] package.targets[i])
}

/// The programs that the packages of a workspace build, in the order of the packages.
pub open spec fn sbf_programs(packages: Seq<PackageView>, members: Seq<Seq<char>>) -> Seq<
    ProgramView,
> {
    packages.filter(|package: PackageView| is_sbf_package(members, package)).map_values(
        |package: PackageView| program_of(package),
    )
}

/// Whether one of the targets is of the dynamic library kind.
fn has_cdylib_kind(package: &Package) -> (found: bool)
    ensures
        found == exists|i: int|
            0 <= i < package@.targets.len() && cdylib_kind(#[trigger] package@.targets[i]),
{
    let mut i: usize = 0;
    while i < package.targets.len()
        invariant
            i <= package.targets@.len(),
            forall|j: int| 0 <= j < i ==> !cdylib_kind(#[trigger] package@.targets[j]),
        decreases package.targets@.len() - i,
    {
        if contains_text(&package.targets[i].kind, "cdylib") {
            assert(cdylib_kind(package@.targets[i as int]));
            return true;
        }
        assert(!cdylib_kind(package@.targets[i as int]));
        i += 1;
    }
    false
}

impl Metadata {
    /// Finds the programs that the packages of the workspace build.
    pub fn programs(&self) -> (programs: Vec<Program>)
        ensures
            programs_view(programs@) == sbf_programs(self@.packages, self@.workspace_members),
    {
        let ghost packages = self@.packages;
        let ghost members = self@.workspace_members;
        let ghost is_sbf = |package: PackageView| is_sbf_package(members, package);
        let ghost program = |package: PackageView| program_of(package);
        let mut programs: Vec<Program> = Vec::new();
        let mut i: usize = 0;
        while i < self.packages.len()
            invariant
                i <= self.packages@.len(),
                packages == packages_view(self.packages@),
                members == texts(self.workspace_members@),
                is_sbf == (|package: PackageView| is_sbf_package(members, package)),
                program == (|package: PackageView| program_of(package)),
                programs_view(programs@) == packages.take(i as int).filter(is_sbf).map_values(
                    program,
                ),
            decreases self.packages@.len() - i,
        {
            let package = &self.packages[i];
            proof {
                filter_map_next(packages, i as int, is_sbf, program);
            }
            if contains_text(&self.workspace_members, package.id.as_str()) && has_cdylib_kind(
                package,
            ) {
                let ghost known = programs@;
                programs.push(generate_program_name(package));
                proof {
                    map_push(known, programs@.last(), |program: Program| program@);
                }
            }
            i += 1;
        }
        assert(packages.take(i as int) =~= packages);
        programs
    }
}

} // verus!
