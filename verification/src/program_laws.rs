//! What holds of the programs that packages build.

use crate::metadata::{cdylib_kind, is_sbf_package, sbf_programs};
use crate::package::{
    builds_cdylib, cdylib_names, other_crate_type, parent_of, plain_directory, plain_file_name,
    program_of, PackageView, TargetView,
};
use crate::report::{BuildErrorView, NoticeView};
use vstd::prelude::*;

verus! {

/// Filtering a sequence of one item keeps it or leaves nothing.
proof fn filter_one<A>(item: A, keep: spec_fn(A) -> bool)
    ensures
        seq![item].filter(keep) == if keep(item) {
            seq![item]
        } else {
            Seq::empty()
        },
{
    reveal_with_fuel(Seq::filter, 2);
    assert(seq![item].drop_last() =~= Seq::empty());
    assert(Seq::<A>::empty().push(item) =~= seq![item]);
}

/// Filtering and mapping two parts one after the other is filtering and mapping the whole.
proof fn filter_map_parts<A, B>(
    first: Seq<A>,
    second: Seq<A>,
    keep: spec_fn(A) -> bool,
    map: spec_fn(A) -> B,
)
    ensures
        (first + second).filter(keep).map_values(map) == first.filter(keep).map_values(map)
            + second.filter(keep).map_values(map),
{
    Seq::filter_distributes_over_add(first, second, keep);
    assert((first.filter(keep) + second.filter(keep)).map_values(map) =~= first.filter(
        keep,
    ).map_values(map) + second.filter(keep).map_values(map));
}

/// How many items are kept: none exactly where none fits, and one exactly where one alone fits,
/// which is then the one that is kept.
proof fn filter_counts<A>(items: Seq<A>, keep: spec_fn(A) -> bool)
    ensures
        items.filter(keep).len() == 0 <==> forall|i: int|
            0 <= i < items.len() ==> !keep(#[trigger] items[i]),
        forall|at: int|
            0 <= at < items.len() && keep(#[trigger] items[at]) && (forall|j: int|
                0 <= j < items.len() && j != at ==> !keep(#[trigger] items[j])) ==> items.filter(
                keep,
            ) == seq![items[at]],
        items.filter(keep).len() > 1 <==> exists|i: int, j: int|
            0 <= i < j < items.len() && keep(#[trigger] items[i]) && keep(#[trigger] items[j]),
    decreases items.len(),
{
    reveal(Seq::filter);
    if items.len() > 0 {
        let before = items.drop_last();
        let last = items.last();
        filter_counts(before, keep);
        let kept = before.filter(keep);
        assert(items.filter(keep) == if keep(last) {
            kept.push(last)
        } else {
            kept
        });
        assert(forall|i: int| 0 <= i < before.len() ==> items[i] == before[i]);
        if kept.len() == 0 {
            assert(forall|i: int| 0 <= i < before.len() ==> !keep(#[trigger] items[i])) by {
                assert forall|i: int| 0 <= i < before.len() implies !keep(#[trigger] items[i]) by {
                    assert(!keep(before[i]));
                }
            }
            assert(kept =~= Seq::empty());
            assert(kept.push(last) =~= seq![last]);
        } else {
            let k = choose|k: int| 0 <= k < before.len() && keep(#[trigger] before[k]);
            assert(keep(items[k]));
            if keep(last) {
                assert(keep(items[items.len() - 1]));
            }
        }
        if kept.len() > 1 {
            let (i, j) = choose|i: int, j: int|
                0 <= i < j < before.len() && keep(#[trigger] before[i]) && keep(
                    #[trigger] before[j],
                );
            assert(keep(items[i]) && keep(items[j]));
        }
        assert forall|at: int|
            0 <= at < items.len() && keep(#[trigger] items[at]) && (forall|j: int|
                0 <= j < items.len() && j != at ==> !keep(#[trigger] items[j])) implies items.filter(
            keep,
        ) == seq![items[at]] by {
            if at < before.len() {
                assert(keep(before[at]));
                assert forall|j: int| 0 <= j < before.len() && j != at implies !keep(
                    #[trigger] before[j],
                ) by {
                    assert(!keep(items[j]));
                }
                assert(!keep(items[items.len() - 1]));
            } else {
                assert forall|j: int| 0 <= j < before.len() implies !keep(#[trigger] before[j]) by {
                    assert(!keep(items[j]));
                }
            }
        }
        if items.filter(keep).len() > 1 && kept.len() == 1 {
            let k = choose|k: int| 0 <= k < before.len() && keep(#[trigger] before[k]);
            assert(keep(items[k]) && keep(items[items.len() - 1]));
        }
        if exists|i: int, j: int|
            0 <= i < j < items.len() && keep(#[trigger] items[i]) && keep(#[trigger] items[j]) {
            let (i, j) = choose|i: int, j: int|
                0 <= i < j < items.len() && keep(#[trigger] items[i]) && keep(#[trigger] items[j]);
            assert(keep(before[i]));
            if j < before.len() {
                assert(keep(before[j]));
            }
        }
    }
}

/// A package with one target that is a dynamic library, whatever else that target is and whatever
/// its other targets are, builds the program that is named like that target, with `_` where the
/// name has `-`.
pub proof fn the_only_cdylib_names_the_program(package: PackageView, at: int)
    requires
        0 <= at < package.targets.len(),
        package.targets[at].crate_types.contains("cdylib"@),
        forall|j: int|
            0 <= j < package.targets.len() && j != at ==> !(
            #[trigger] package.targets[j]).crate_types.contains("cdylib"@),
    ensures
        program_of(package).name matches Ok(Some(name)) && {
            let target = package.targets[at].name;
            &&& name.len() == target.len()
            &&& forall|i: int|
                0 <= i < target.len() ==> #[trigger] name[i] == if target[i] == '-' {
                    '_'
                } else {
                    target[i]
                }
        },
{
    let is_cdylib = |target: TargetView| target.crate_types.contains("cdylib"@);
    filter_counts(package.targets, is_cdylib);
    assert(forall|j: int|
        0 <= j < package.targets.len() && j != at ==> !is_cdylib(#[trigger] package.targets[j]));
    assert(is_cdylib(package.targets[at]));
    same_cdylibs(package.targets);
    assert(cdylib_names(package.targets) =~= seq![package.targets[at].name]);
}

/// The dynamic libraries are the targets with that crate type.
proof fn same_cdylibs(targets: Seq<TargetView>)
    ensures
        cdylib_names(targets) == targets.filter(
            |target: TargetView| target.crate_types.contains("cdylib"@),
        ).map_values(|target: TargetView| target.name),
    decreases targets.len(),
{
    reveal(Seq::filter);
    if targets.len() > 0 {
        let before = targets.drop_last();
        same_cdylibs(before);
        let last = targets.last();
        let is_cdylib = |target: TargetView| target.crate_types.contains("cdylib"@);
        let name_of = |target: TargetView| target.name;
        assert(cdylib_names(targets) =~= if is_cdylib(last) {
            cdylib_names(before).push(last.name)
        } else {
            cdylib_names(before)
        });
        assert(targets.filter(is_cdylib).map_values(name_of) =~= if is_cdylib(last) {
            before.filter(is_cdylib).map_values(name_of).push(last.name)
        } else {
            before.filter(is_cdylib).map_values(name_of)
        });
    }
}

/// A package builds no program exactly where none of its targets is a dynamic library, and it is
/// refused exactly where two are. The refusal names the package and all of those targets.
pub proof fn packages_build_one_program_at_most(package: PackageView)
    ensures
        program_of(package).name == Ok::<Option<Seq<char>>, BuildErrorView>(None) <==> forall|j: int|
            0 <= j < package.targets.len() ==> !(#[trigger] package.targets[j]).crate_types.contains(
                "cdylib"@,
            ),
        program_of(package).name is Err <==> exists|i: int, j: int|
            0 <= i < j < package.targets.len() && (
            #[trigger] package.targets[i]).crate_types.contains("cdylib"@) && (
            #[trigger] package.targets[j]).crate_types.contains("cdylib"@),
        program_of(package).name matches Err(error) ==> error == (
        BuildErrorView::MultipleCdylibTargets {
            package: package.name,
            targets: package.targets.filter(
                |target: TargetView| target.crate_types.contains("cdylib"@),
            ).map_values(|target: TargetView| target.name),
        }),
{
    let is_cdylib = |target: TargetView| target.crate_types.contains("cdylib"@);
    let targets = package.targets;
    filter_counts(targets, is_cdylib);
    same_cdylibs(targets);
    assert((forall|j: int|
        0 <= j < targets.len() ==> !(#[trigger] targets[j]).crate_types.contains("cdylib"@)) <==> (
    forall|j: int| 0 <= j < targets.len() ==> !is_cdylib(#[trigger] targets[j])));
    assert((exists|i: int, j: int|
        0 <= i < j < targets.len() && is_cdylib(#[trigger] targets[i]) && is_cdylib(
            #[trigger] targets[j],
        )) <==> (exists|i: int, j: int|
        0 <= i < j < targets.len() && (#[trigger] targets[i]).crate_types.contains("cdylib"@) && (
        #[trigger] targets[j]).crate_types.contains("cdylib"@)));
}

/// Each target calls for notices by itself: the notices for all targets are those for the first
/// ones and then those for the others.
pub proof fn targets_are_noticed_one_by_one(
    package: PackageView,
    first: Seq<TargetView>,
    second: Seq<TargetView>,
)
    requires
        package.targets == first + second,
    ensures
        program_of(package).notices == program_of(
            PackageView { targets: first, ..package },
        ).notices + program_of(PackageView { targets: second, ..package }).notices,
{
    filter_map_parts(
        first,
        second,
        |target: TargetView|
            builds_cdylib(target) && other_crate_type(target) is Some,
        |target: TargetView|
            NoticeView::TwoCrateTypes {
                package: package.name,
                other: other_crate_type(target)->0,
            },
    );
}

/// A target calls for one notice where it is a dynamic library and another library too, which the
/// notice names, and for none where it is not. Of a package without targets there is no notice.
pub proof fn a_second_library_type_is_noticed(package: PackageView, target: TargetView)
    requires
        package.targets == seq![target],
    ensures
        ({
            let notices = program_of(package).notices;
            let types = target.crate_types;
            let cdylib = types.contains("cdylib"@);
            &&& cdylib && types.contains("rlib"@) ==> notices == seq![
                NoticeView::TwoCrateTypes { package: package.name, other: "rlib"@ },
            ]
            &&& cdylib && !types.contains("rlib"@) && types.contains("lib"@) ==> notices == seq![
                NoticeView::TwoCrateTypes { package: package.name, other: "lib"@ },
            ]
            &&& !cdylib || !(types.contains("rlib"@) || types.contains("lib"@)) ==> notices.len()
                == 0
        }),
        program_of(PackageView { targets: Seq::empty(), ..package }).notices.len() == 0,
{
    filter_one(
        target,
        |target: TargetView|
            builds_cdylib(target) && other_crate_type(target) is Some,
    );
    reveal(Seq::filter);
    let types = target.crate_types;
    let notices = program_of(package).notices;
    if types.contains("cdylib"@) {
        if types.contains("rlib"@) {
            assert(notices =~= seq![
                NoticeView::TwoCrateTypes { package: package.name, other: "rlib"@ },
            ]);
        } else if types.contains("lib"@) {
            assert(notices =~= seq![
                NoticeView::TwoCrateTypes { package: package.name, other: "lib"@ },
            ]);
        }
    }
}

/// The packages of a workspace are looked at one by one: the programs of all packages are those of
/// the first ones and then those of the others.
pub proof fn packages_are_looked_at_one_by_one(
    first: Seq<PackageView>,
    second: Seq<PackageView>,
    members: Seq<Seq<char>>,
)
    ensures
        sbf_programs(first + second, members) == sbf_programs(first, members) + sbf_programs(
            second,
            members,
        ),
        sbf_programs(Seq::empty(), members).len() == 0,
{
    filter_map_parts(
        first,
        second,
        |package: PackageView| is_sbf_package(members, package),
        |package: PackageView| program_of(package),
    );
    reveal(Seq::filter);
}

/// A package gives its program exactly where it belongs to the workspace and one of its targets is
/// of the dynamic library kind, whatever else the kinds of that target are.
pub proof fn members_with_a_cdylib_give_their_program(
    package: PackageView,
    members: Seq<Seq<char>>,
)
    ensures
        members.contains(package.id) && (exists|j: int|
            0 <= j < package.targets.len() && (#[trigger] package.targets[j]).kind.contains(
                "cdylib"@,
            )) ==> sbf_programs(seq![package], members) == seq![program_of(package)],
        !members.contains(package.id) || !(exists|j: int|
            0 <= j < package.targets.len() && (#[trigger] package.targets[j]).kind.contains(
                "cdylib"@,
            )) ==> sbf_programs(seq![package], members).len() == 0,
{
    let is_sbf = |package: PackageView| is_sbf_package(members, package);
    filter_one(package, is_sbf);
    assert(is_sbf(package) <==> members.contains(package.id) && (exists|j: int|
        0 <= j < package.targets.len() && (#[trigger] package.targets[j]).kind.contains(
            "cdylib"@,
        ))) by {
        if exists|j: int|
            0 <= j < package.targets.len() && (#[trigger] package.targets[j]).kind.contains(
                "cdylib"@,
            ) {
            let j = choose|j: int|
                0 <= j < package.targets.len() && (#[trigger] package.targets[j]).kind.contains(
                    "cdylib"@,
                );
            assert(cdylib_kind(package.targets[j]));
        }
    }
    if is_sbf(package) {
        assert(sbf_programs(seq![package], members) =~= seq![program_of(package)]);
    }
}

/// Every package that belongs to the workspace and has a target of the dynamic library kind has
/// its program among those of the workspace.
pub proof fn no_program_of_the_workspace_is_missed(
    packages: Seq<PackageView>,
    members: Seq<Seq<char>>,
    i: int,
    j: int,
)
    requires
        0 <= i < packages.len(),
        members.contains(packages[i].id),
        0 <= j < packages[i].targets.len(),
        packages[i].targets[j].kind.contains("cdylib"@),
    ensures
        sbf_programs(packages, members).contains(program_of(packages[i])),
{
    let package = packages[i];
    let before = packages.take(i);
    let after = packages.skip(i + 1);
    assert(packages =~= before + (seq![package] + after));
    packages_are_looked_at_one_by_one(before, seq![package] + after, members);
    packages_are_looked_at_one_by_one(seq![package], after, members);
    assert(package.targets[j].kind.contains("cdylib"@));
    members_with_a_cdylib_give_their_program(package, members);
    let at = sbf_programs(before, members).len() as int;
    assert(sbf_programs(packages, members)[at] == program_of(package));
}

/// There are as many programs in a workspace as there are packages that belong to it and have a
/// target of the dynamic library kind.
pub proof fn there_is_one_program_for_each_such_package(
    packages: Seq<PackageView>,
    members: Seq<Seq<char>>,
)
    ensures
        sbf_programs(packages, members).len() == packages.filter(
            |package: PackageView|
                members.contains(package.id) && exists|j: int|
                    0 <= j < package.targets.len() && (
                    #[trigger] package.targets[j]).kind.contains("cdylib"@),
        ).len(),
    decreases packages.len(),
{
    let fits = |package: PackageView|
        members.contains(package.id) && exists|j: int|
            0 <= j < package.targets.len() && (#[trigger] package.targets[j]).kind.contains(
                "cdylib"@,
            );
    if packages.len() == 0 {
        packages_are_looked_at_one_by_one(packages, packages, members);
        assert(packages =~= Seq::empty());
        reveal(Seq::filter);
    } else {
        let before = packages.drop_last();
        let last = packages.last();
        there_is_one_program_for_each_such_package(before, members);
        assert(packages =~= before + seq![last]);
        packages_are_looked_at_one_by_one(before, seq![last], members);
        members_with_a_cdylib_give_their_program(last, members);
        Seq::filter_distributes_over_add(before, seq![last], fits);
        filter_one(last, fits);
    }
}

/// A manifest in a directory is found there: of a path that ends in a separator and a file name,
/// what stands before the separator is the directory, where that is no drive, no share and no path
/// that ends in a dot or another separator.
pub proof fn manifests_are_found_in_their_directory(
    directory: Seq<char>,
    file_name: Seq<char>,
    found: Option<Seq<char>>,
)
    requires
        parent_of(directory + seq!['/'] + file_name, found),
        directory.len() > 0,
        !(directory.last() == '/' || directory.last() == '\\' || directory.last() == '.'),
        !(directory.len() == 2 && directory[1] == ':'),
        !(directory[0] == '/' || directory[0] == '\\') || !(directory[1] == '/' || directory[1]
            == '\\'),
        file_name.len() > 0,
        file_name[0] != '.',
        !file_name.contains('/') && !file_name.contains('\\'),
    ensures
        found == Some(directory),
{
    assert(plain_directory(directory));
    assert(plain_file_name(file_name)) by {
        assert forall|i: int| 0 <= i < file_name.len() implies #[trigger] file_name[i] != '/'
            && file_name[i] != '\\' by {
            assert(file_name.contains(file_name[i]));
        }
    }
}

} // verus!
