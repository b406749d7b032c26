//! What holds of texts that are made from others.

use crate::report::{error_message, notice_message, BuildErrorView, NoticeView};
use crate::text::{
    ascii_uppercase, bracketed, decimal, joined, plain_list, quoted, quoted_list, replaced,
};
use vstd::prelude::*;

verus! {

/// Replacing a character changes that character wherever it stands, and nothing else.
pub proof fn replacing_changes_one_character_only(text: Seq<char>, from: char, to: char)
    ensures
        replaced(text, from, to).len() == text.len(),
        forall|i: int|
            0 <= i < text.len() && text[i] == from ==> #[trigger] replaced(text, from, to)[i] == to,
        forall|i: int|
            0 <= i < text.len() && text[i] != from ==> #[trigger] replaced(text, from, to)[i]
                == text[i],
{
}

/// The upper case of an ASCII text changes its small letters only, each by the same distance.
pub proof fn upper_case_changes_small_letters_only(text: Seq<char>)
    ensures
        ascii_uppercase(text).len() == text.len(),
        forall|i: int|
            0 <= i < text.len() && 'a' <= text[i] <= 'z' ==> (#[trigger] ascii_uppercase(
                text,
            )[i]) as int - 'A' as int == text[i] as int - 'a' as int,
        forall|i: int|
            0 <= i < text.len() && !('a' <= text[i] <= 'z') ==> #[trigger] ascii_uppercase(text)[i]
                == text[i],
{
}

/// The decimal notation of a number is that of its tenth with one digit more, and that of a number
/// below ten is one digit. No notation of more than one digit begins with a zero.
pub proof fn decimal_grows_by_one_digit(n: nat)
    ensures
        decimal(n).len() > 0,
        decimal(n).last() as int == '0' as int + n % 10,
        n < 10 ==> decimal(n).len() == 1,
        n >= 10 ==> decimal(n).drop_last() == decimal(n / 10),
        decimal(n).len() > 1 ==> decimal(n)[0] != '0',
    decreases n,
{
    if n >= 10 {
        decimal_grows_by_one_digit(n / 10);
        assert(decimal(n).drop_last() =~= decimal(n / 10));
        if n / 10 < 10 {
            assert(decimal(n / 10).len() == 1);
            assert(decimal(n / 10)[0] == decimal(n / 10).last());
        }
    }
}

/// Joining nothing gives nothing, joining one part gives that part, and one part more adds the
/// separator and that part.
pub proof fn joining_adds_one_part_at_a_time(
    parts: Seq<Seq<char>>,
    part: Seq<char>,
    separator: Seq<char>,
)
    ensures
        joined(Seq::empty(), separator).len() == 0,
        joined(seq![part], separator) == part,
        parts.len() > 0 ==> joined(parts.push(part), separator) == joined(parts, separator)
            + separator + part,
{
    if parts.len() > 0 {
        assert(parts.push(part).drop_last() =~= parts);
    }
}

/// A list is shown in square brackets, with a comma and a space between each two of its texts,
/// which are quoted.
pub proof fn lists_stand_in_brackets(items: Seq<Seq<char>>)
    ensures
        ({
            let list = bracketed(items);
            &&& list.len() >= 2
            &&& list[0] == '[' && list.last() == ']'
            &&& list.subrange(1, list.len() - 1) == joined(items, seq![',', ' '])
        }),
        ({
            let list = quoted_list(items);
            &&& list.len() >= 2
            &&& list[0] == '[' && list.last() == ']'
            &&& list.subrange(1, list.len() - 1) == joined(
                Seq::new(items.len(), |i: int| quoted(items[i])),
                seq![',', ' '],
            )
        }),
        ({
            let list = plain_list(items);
            &&& list.len() >= 2
            &&& list[0] == '[' && list.last() == ']'
            &&& list.subrange(1, list.len() - 1) == joined(
                Seq::new(items.len(), |i: int| seq!['"'] + items[i] + seq!['"']),
                seq![',', ' '],
            )
        }),
{
    reveal_strlit("[");
    reveal_strlit("]");
    reveal_strlit(", ");
    assert(", "@ =~= seq![',', ' ']);
    let list = bracketed(items);
    assert(list.subrange(1, list.len() - 1) =~= joined(items, ", "@));
    let names = Seq::new(items.len(), |i: int| quoted(items[i]));
    assert(items.map_values(|s: Seq<char>| quoted(s)) =~= names);
    let list = quoted_list(items);
    assert(list.subrange(1, list.len() - 1) =~= joined(names, ", "@));
    let plain = Seq::new(items.len(), |i: int| seq!['"'] + items[i] + seq!['"']);
    assert(items.map_values(|s: Seq<char>| seq!['"'] + s + seq!['"']) =~= plain);
    let list = plain_list(items);
    assert(list.subrange(1, list.len() - 1) =~= joined(plain, ", "@));
}

/// Whether a text is made of these parts, one after the other and with nothing else.
pub open spec fn made_of(
    text: Seq<char>,
    first: Seq<char>,
    second: Seq<char>,
    rest: Seq<char>,
) -> bool {
    &&& text.len() == first.len() + second.len() + rest.len()
    &&& forall|i: int| 0 <= i < first.len() ==> text[i] == #[trigger] first[i]
    &&& forall|i: int| 0 <= i < second.len() ==> text[first.len() + i] == #[trigger] second[i]
    &&& forall|i: int|
        0 <= i < rest.len() ==> text[first.len() + second.len() + i] == #[trigger] rest[i]
}

/// The sentence for an error holds all that is known of it, in its place.
pub proof fn errors_are_told_in_full(first: Seq<char>, second: Seq<char>, names: Seq<Seq<char>>)
    ensures
        made_of(
            error_message(BuildErrorView::MetadataUnavailable { reason: first }),
            "Failed to obtain package metadata: "@,
            first,
            Seq::empty(),
        ),
        made_of(
            error_message(BuildErrorView::NoManifestDirectory { manifest_path: first }),
            "Unable to get directory of "@,
            first,
            Seq::empty(),
        ),
        made_of(
            error_message(
                BuildErrorView::DirectoryUnavailable { directory: first, reason: second },
            ),
            "Unable to set current directory to "@,
            first,
            ": "@ + second,
        ),
        made_of(
            error_message(
                BuildErrorView::MultipleCdylibTargets { package: first, targets: names },
            ),
            first,
            " crate contains multiple cdylib targets: "@,
            quoted_list(names),
        ),
        made_of(
            error_message(BuildErrorView::TargetDirNotCreated { directory: first, reason: second }),
            "Unable to create target-dir directory "@,
            first,
            ": "@ + second,
        ),
        made_of(
            error_message(
                BuildErrorView::TargetDirNotCanonical { directory: first, reason: second },
            ),
            "Unable to canonicalize provided target-dir directory "@,
            first,
            ": "@ + second,
        ),
        error_message(BuildErrorView::CorruptedToolchain)
            == "The Solana toolchain is corrupted. Please, run cargo-build-sbf with the --force-tools-install argument to fix it."@,
        error_message(BuildErrorView::AbiRequiresV3) == "--abi-v2 requires --arch v3"@,
{
}

/// The sentence for a notice holds all that is known of it, in its place.
pub proof fn notices_are_told_in_full(first: Seq<char>, second: Seq<char>, names: Seq<Seq<char>>)
    ensures
        notice_message(NoticeView::NoDefaultFeatures) == "No default features"@,
        made_of(
            notice_message(NoticeView::Features { features: names }),
            "Features: "@,
            joined(names, " "@),
            Seq::empty(),
        ),
        made_of(
            notice_message(NoticeView::TwoCrateTypes { package: first, other: second }),
            "Package '"@ + first,
            "' has two crate types defined: cdylib and "@ + second,
            ". This setting precludes link-time optimizations (LTO). Use cdylib for programs to be deployed and rlib for packages to be imported by other programs as libraries."@,
        ),
        made_of(
            notice_message(NoticeView::RustflagsRemoved { variable: first }),
            "Removed RUSTFLAGS from cargo environment, because it overrides "@,
            first,
            "."@,
        ),
{
}

} // verus!
