//! Text and the sequences of characters that stand for it in contracts.

use vstd::prelude::*;

verus! {

/// `String::push`: appends the given character to the end of the string.
pub assume_specification[ String::push ](s: &mut String, c: char)
    ensures
        final(s)@ == old(s)@.push(c),
;

/// The characters of each string of a list.
pub open spec fn texts(items: Seq<String>) -> Seq<Seq<char>> {
    items.map_values(|s: String| s@)
}

/// The characters of each slice of a list.
pub open spec fn slices(items: Seq<&str>) -> Seq<Seq<char>> {
    items.map_values(|s: &str| s@)
}

/// The characters of a string that may be absent.
pub open spec fn optional_text(item: Option<String>) -> Option<Seq<char>> {
    match item {
        Some(s) => Some(s@),
        None => None,
    }
}

/// What a missing string stands for: the empty one.
pub open spec fn text_or_empty(item: Option<Seq<char>>) -> Seq<char> {
    match item {
        Some(s) => s,
        None => Seq::empty(),
    }
}

/// `text` where `condition` holds, nothing where it does not.
pub open spec fn text_if(condition: bool, text: Seq<char>) -> Seq<char> {
    if condition {
        text
    } else {
        Seq::empty()
    }
}

/// Whether two texts hold the same characters.
pub fn same_text(a: &str, b: &str) -> (same: bool)
    ensures
        same == (a@ == b@),
{
    a.to_owned() == b.to_owned()
}

/// Whether `text` is one of `items`.
pub fn contains_text(items: &Vec<String>, text: &str) -> (found: bool)
    ensures
        found == texts(items@).contains(text@),
{
    let mut i: usize = 0;
    while i < items.len()
        invariant
            i <= items@.len(),
            forall|j: int| 0 <= j < i ==> texts(items@)[j] != text@,
        decreases items@.len() - i,
    {
        if same_text(items[i].as_str(), text) {
            assert(texts(items@)[i as int] == text@);
            return true;
        }
        i += 1;
    }
    false
}

/// Copies a list of strings.
pub fn copy_texts(items: &Vec<String>) -> (copies: Vec<String>)
    ensures
        texts(copies@) == texts(items@),
{
    let copies = items.clone();
    assert(texts(copies@) =~= texts(items@));
    copies
}

/// A character with every `from` turned into `to`.
pub open spec fn replaced_char(c: char, from: char, to: char) -> char {
    if c == from {
        to
    } else {
        c
    }
}

/// A text with every `from` turned into `to`.
pub open spec fn replaced(text: Seq<char>, from: char, to: char) -> Seq<char> {
    text.map_values(|c: char| replaced_char(c, from, to))
}

/// Turns every `from` of a text into `to`.
pub fn replace_char(text: &str, from: char, to: char) -> (result: String)
    ensures
        result@ == replaced(text@, from, to),
{
    let mut result = String::new();
    for c in it: text.chars()
        invariant
            it.seq() == text@,
            result@ == replaced(text@, from, to).take(it.index()),
    {
        let next: char = if c == from {
            to
        } else {
            c
        };
        result.push(next);
    }
    result
}

/// What `str::to_uppercase` makes of a text: the upper case that Unicode gives to each character.
pub uninterp spec fn uppercase(text: Seq<char>) -> Seq<char>;

/// The upper case of an ASCII character: `a` to `z` become `A` to `Z`, the others stay.
pub open spec fn ascii_uppercase_char(c: char) -> char {
    if 'a' <= c <= 'z' {
        (c as u32 - 32) as char
    } else {
        c
    }
}

/// Whether every character of a text is an ASCII character.
pub open spec fn ascii(text: Seq<char>) -> bool {
    forall|i: int| 0 <= i < text.len() ==> (#[trigger] text[i] as u32) < 128
}

/// The upper case of an ASCII text.
pub open spec fn ascii_uppercase(text: Seq<char>) -> Seq<char> {
    text.map_values(|c: char| ascii_uppercase_char(c))
}

/// `str::to_uppercase`: the upper case of a text, which is the same for the same text. Of a text
/// that is all ASCII it turns the letters `a` to `z` into `A` to `Z` and keeps every other
/// character. What it makes of other characters is left to the name.
pub assume_specification[ str::to_uppercase ](text: &str) -> (result: String)
    ensures
        result@ == uppercase(text@),
        ascii(text@) ==> result@ == ascii_uppercase(text@),
;

/// The decimal digit for a number below ten.
pub open spec fn digit(n: nat) -> char {
    ('0' as u32 + n) as char
}

/// The decimal notation of a number, without leading zeros.
pub open spec fn decimal(n: nat) -> Seq<char>
    decreases n,
{
    if n < 10 {
        seq![digit(n)]
    } else {
        decimal(n / 10).push(digit(n % 10))
    }
}

/// The number that a sequence of decimal digits denotes.
pub open spec fn decimal_value(digits: Seq<char>) -> nat
    decreases digits.len(),
{
    if digits.len() == 0 {
        0
    } else {
        (10 * decimal_value(digits.drop_last()) + (digits.last() as int - '0' as int)) as nat
    }
}

/// Appends the decimal notation of a number to a text.
pub fn push_decimal(text: &mut String, n: u32)
    ensures
        final(text)@ == old(text)@ + decimal(n as nat),
    decreases n,
{
    if n >= 10 {
        push_decimal(text, n / 10);
    }
    let last: u8 = (n % 10) as u8;
    text.push((48u8 + last) as char);
}

/// The decimal notation of a number denotes that number.
pub proof fn decimal_denotes_its_number(n: nat)
    ensures
        decimal_value(decimal(n)) == n,
    decreases n,
{
    if n < 10 {
        assert(decimal(n).drop_last() =~= Seq::empty());
        assert(decimal_value(decimal(n).drop_last()) == 0);
    } else {
        decimal_denotes_its_number(n / 10);
        assert(decimal(n).drop_last() =~= decimal(n / 10));
    }
}

/// The decimal notation of a number is made of decimal digits only.
pub proof fn decimal_holds_digits(n: nat)
    ensures
        decimal(n).len() > 0,
        forall|i: int| 0 <= i < decimal(n).len() ==> '0' <= #[trigger] decimal(n)[i] <= '9',
    decreases n,
{
    if n >= 10 {
        decimal_holds_digits(n / 10);
    }
}

/// The parts of a list one after the other, with `separator` between each two.
pub open spec fn joined(parts: Seq<Seq<char>>, separator: Seq<char>) -> Seq<char>
    decreases parts.len(),
{
    if parts.len() == 0 {
        Seq::empty()
    } else if parts.len() == 1 {
        parts[0]
    } else {
        joined(parts.drop_last(), separator) + separator + parts.last()
    }
}

/// Puts the parts of a list one after the other, with `separator` between each two.
pub fn join(parts: &Vec<String>, separator: &str) -> (result: String)
    ensures
        result@ == joined(texts(parts@), separator@),
{
    let mut result = String::new();
    let mut i: usize = 0;
    while i < parts.len()
        invariant
            i <= parts@.len(),
            result@ == joined(texts(parts@).take(i as int), separator@),
        decreases parts@.len() - i,
    {
        if i > 0 {
            result.append(separator);
        }
        result.append(parts[i].as_str());
        proof {
            let longer = texts(parts@).take(i + 1);
            assert(longer.drop_last() =~= texts(parts@).take(i as int));
            assert(longer.last() == parts@[i as int]@);
        }
        i += 1;
    }
    assert(texts(parts@).take(i as int) =~= texts(parts@));
    result
}

/// What the `Debug` format of `str` makes of a text: the text in double quotes, with the
/// characters escaped that cannot stand there as they are.
pub uninterp spec fn quoted(text: Seq<char>) -> Seq<char>;

/// Whether a text is made of ASCII letters, digits, `-` and `_` only.
pub open spec fn plain(text: Seq<char>) -> bool {
    forall|i: int|
        0 <= i < text.len() ==> {
            ||| 'a' <= #[trigger] text[i] <= 'z'
            ||| 'A' <= text[i] <= 'Z'
            ||| '0' <= text[i] <= '9'
            ||| text[i] == '-'
            ||| text[i] == '_'
        }
}

/// The `Debug` format of `str`: the text in double quotes, the same for the same text. Letters,
/// digits, `-` and `_` of ASCII are not escaped. How others are escaped is left to the name.
#[verifier::external_body]
fn quote(text: &str) -> (result: String)
    ensures
        result@ == quoted(text@),
        plain(text@) ==> result@ == seq!['"'] + text@ + seq!['"'],
{
    format!("{:?}", text)
}

/// A list of texts that are quoted already, in square brackets.
pub open spec fn bracketed(parts: Seq<Seq<char>>) -> Seq<char> {
    "["@ + joined(parts, ", "@) + "]"@
}

/// Puts a list of texts that are quoted already in square brackets.
pub fn bracket(parts: &Vec<String>) -> (result: String)
    ensures
        result@ == bracketed(texts(parts@)),
{
    let mut result = "[".to_owned();
    result.append(join(parts, ", ").as_str());
    result.append("]");
    result
}

/// A list of texts as the `Debug` format shows it: each in quotes, in square brackets.
pub open spec fn quoted_list(items: Seq<Seq<char>>) -> Seq<char> {
    bracketed(items.map_values(|s: Seq<char>| quoted(s)))
}

/// A list of plain texts, each in quotes, in square brackets.
pub open spec fn plain_list(items: Seq<Seq<char>>) -> Seq<char> {
    bracketed(items.map_values(|s: Seq<char>| seq!['"'] + s + seq!['"']))
}

/// Whether every text of a list is plain.
pub open spec fn all_plain(items: Seq<Seq<char>>) -> bool {
    forall|i: int| 0 <= i < items.len() ==> plain(#[trigger] items[i])
}

/// Shows a list of texts as the `Debug` format does.
pub fn quote_list(items: &Vec<String>) -> (result: String)
    ensures
        result@ == quoted_list(texts(items@)),
        all_plain(texts(items@)) ==> result@ == plain_list(texts(items@)),
{
    let mut parts: Vec<String> = Vec::new();
    let mut i: usize = 0;
    while i < items.len()
        invariant
            i <= items@.len(),
            parts@.len() == i,
            forall|j: int| 0 <= j < i ==> (#[trigger] parts@[j])@ == quoted(items@[j]@),
            forall|j: int|
                0 <= j < i && plain(items@[j]@) ==> (#[trigger] parts@[j])@ == seq!['"']
                    + items@[j]@ + seq!['"'],
        decreases items@.len() - i,
    {
        parts.push(quote(items[i].as_str()));
        i += 1;
    }
    assert(texts(parts@) =~= texts(items@).map_values(|s: Seq<char>| quoted(s)));
    proof {
        if all_plain(texts(items@)) {
            assert forall|j: int| 0 <= j < items@.len() implies plain(items@[j]@) by {
                assert(plain(texts(items@)[j]));
            }
            assert(texts(parts@) =~= texts(items@).map_values(
                |s: Seq<char>| seq!['"'] + s + seq!['"'],
            ));
        }
    }
    bracket(&parts)
}

} // verus!
