//! What holds of what the command line asks for.

use crate::command_line::{
    metadata_options_of, named_target_dir, target_dir_index, version_text_of, with_target_dir,
};
use crate::config::Config;
use crate::text::slices;
use crate::text_laws::made_of;
use vstd::prelude::*;

verus! {

/// The command names its own version, that of the tools behind a label on a line of its own, and
/// that of their compiler on the line after.
pub proof fn all_versions_are_told(
    version: Seq<char>,
    tools_version: Seq<char>,
    rust_version: Seq<char>,
)
    ensures
        made_of(
            version_text_of(version, tools_version, rust_version),
            version,
            "\nplatform-tools "@ + tools_version,
            "\n"@ + rust_version,
        ),
{
}

/// The target directory stands at a place exactly where the argument before it is `--target-dir`
/// and none before that is.
pub proof fn the_target_dir_stands_behind_the_first_flag(cargo_args: Seq<Seq<char>>, i: int)
    ensures
        target_dir_index(cargo_args) == Some(i) <==> {
            &&& 0 < i < cargo_args.len()
            &&& cargo_args[i - 1] == "--target-dir"@
            &&& forall|j: int| 0 <= j < i - 1 ==> #[trigger] cargo_args[j] != "--target-dir"@
        },
{
    let flag = "--target-dir"@;
    cargo_args.index_of_first_ensures(flag);
    if 0 < i < cargo_args.len() && cargo_args[i - 1] == flag && (forall|j: int|
        0 <= j < i - 1 ==> #[trigger] cargo_args[j] != flag) {
        assert(cargo_args.contains(flag));
        let first = cargo_args.index_of_first(flag)->0;
        assert(cargo_args[first] == flag);
        assert(first == i - 1);
    }
}

/// No target directory is named exactly where no argument is `--target-dir`, or where the first
/// that is stands last.
pub proof fn a_flag_without_a_directory_names_none(cargo_args: Seq<Seq<char>>)
    ensures
        target_dir_index(cargo_args) is None <==> forall|j: int|
            0 <= j < cargo_args.len() - 1 ==> #[trigger] cargo_args[j] != "--target-dir"@,
        named_target_dir(cargo_args) is None <==> target_dir_index(cargo_args) is None,
        named_target_dir(cargo_args) matches Some(directory) ==> exists|i: int|
            0 < i < cargo_args.len() && #[trigger] cargo_args[i] == directory && cargo_args[i - 1]
                == "--target-dir"@,
{
    let flag = "--target-dir"@;
    cargo_args.index_of_first_ensures(flag);
    if target_dir_index(cargo_args) is None {
        assert forall|j: int| 0 <= j < cargo_args.len() - 1 implies #[trigger] cargo_args[j]
            != flag by {
            if cargo_args[j] == flag {
                assert(cargo_args.contains(flag));
            }
        }
    } else {
        let i = target_dir_index(cargo_args)->0;
        the_target_dir_stands_behind_the_first_flag(cargo_args, i);
        assert(cargo_args[i] == named_target_dir(cargo_args)->0);
    }
}

/// A directory that takes the place of the one that is named changes that argument alone, and
/// nothing is changed where there is none to take its place or none is named.
pub proof fn one_argument_is_replaced_at_most<'a>(
    cargo_args: Seq<&'a str>,
    directory: &'a str,
    i: int,
)
    requires
        0 <= i < cargo_args.len(),
    ensures
        with_target_dir(cargo_args, None) == cargo_args,
        with_target_dir(cargo_args, Some(directory)).len() == cargo_args.len(),
        with_target_dir(cargo_args, Some(directory))[i] == if 0 < i && cargo_args[i - 1]@
            == "--target-dir"@ && (forall|j: int|
            0 <= j < i - 1 ==> (#[trigger] cargo_args[j])@ != "--target-dir"@) {
            directory
        } else {
            cargo_args[i]
        },
{
    let args = slices(cargo_args);
    assert(forall|j: int| 0 <= j < args.len() ==> #[trigger] args[j] == cargo_args[j]@);
    the_target_dir_stands_behind_the_first_flag(args, i);
    if target_dir_index(args) is Some {
        the_target_dir_stands_behind_the_first_flag(args, target_dir_index(args)->0);
    }
    if 0 < i && cargo_args[i - 1]@ == "--target-dir"@ && (forall|j: int|
        0 <= j < i - 1 ==> (#[trigger] cargo_args[j])@ != "--target-dir"@) {
        assert forall|j: int| 0 <= j < i - 1 implies #[trigger] args[j] != "--target-dir"@ by {
            assert(cargo_args[j]@ != "--target-dir"@);
        }
        assert(target_dir_index(args) == Some(i));
    } else if target_dir_index(args) == Some(i) {
        assert forall|j: int| 0 <= j < i - 1 implies (#[trigger] cargo_args[j])@
            != "--target-dir"@ by {
            assert(args[j] != "--target-dir"@);
        }
        assert(false);
    }
}

/// Cargo is told to leave the network alone exactly where that is asked for, and nothing else.
pub proof fn the_network_is_left_alone_where_asked(config: Config)
    ensures
        config.offline ==> metadata_options_of(config).len() == 1 && metadata_options_of(config)[0]
            == "--offline"@,
        !config.offline ==> metadata_options_of(config).len() == 0,
{
}

} // verus!
