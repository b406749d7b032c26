use build_sbf::text::{
    bracket, contains_text, copy_texts, join, push_decimal, quote_list, replace_char, same_text,
};

fn strings(items: &[&str]) -> Vec<String> {
    items.iter().map(|item| item.to_string()).collect()
}

fn decimal(n: u32) -> String {
    let mut text = String::from("=");
    push_decimal(&mut text, n);
    text
}

#[test]
fn same_text_compares_characters() {
    assert!(same_text("", ""));
    assert!(same_text("v3", "v3"));
    assert!(!same_text("v3", "v30"));
    assert!(!same_text("v3", "V3"));
}

#[test]
fn contains_text_looks_at_whole_items() {
    let items = strings(&["lib", "cdylib"]);
    assert!(contains_text(&items, "cdylib"));
    assert!(contains_text(&items, "lib"));
    assert!(!contains_text(&items, "dylib"));
    assert!(!contains_text(&Vec::new(), ""));
}

#[test]
fn copies_hold_the_same_texts() {
    let items = strings(&["a", "", "b"]);
    assert_eq!(copy_texts(&items), items);
}

#[test]
fn replace_char_replaces_every_occurrence() {
    assert_eq!(replace_char("my-own-program", '-', '_'), "my_own_program");
    assert_eq!(replace_char("--", '-', '_'), "__");
    assert_eq!(replace_char("none", '-', '_'), "none");
    assert_eq!(replace_char("", '-', '_'), "");
    assert_eq!(replace_char("é-ß", '-', '_'), "é_ß");
}

#[test]
fn decimal_notation_has_no_leading_zeros() {
    assert_eq!(decimal(0), "=0");
    assert_eq!(decimal(9), "=9");
    assert_eq!(decimal(10), "=10");
    assert_eq!(decimal(4096), "=4096");
    assert_eq!(decimal(u32::MAX), "=4294967295");
}

#[test]
fn decimal_notation_denotes_its_number() {
    for n in [0u32, 7, 100, 65_536, 1_000_000_007, u32::MAX] {
        assert_eq!(decimal(n)[1..].parse::<u32>(), Ok(n));
    }
}

#[test]
fn join_puts_the_separator_between() {
    assert_eq!(join(&Vec::new(), " "), "");
    assert_eq!(join(&strings(&["a"]), " "), "a");
    assert_eq!(join(&strings(&["a", "b", "c"]), " "), "a b c");
    assert_eq!(join(&strings(&["", ""]), ", "), ", ");
}

#[test]
fn lists_are_shown_quoted() {
    assert_eq!(quote_list(&Vec::new()), "[]");
    assert_eq!(quote_list(&strings(&["one", "two-2", "t_3"])), "[\"one\", \"two-2\", \"t_3\"]");
    let odd = strings(&["a\"b", "c\\d", "e\nf"]);
    assert_eq!(quote_list(&odd), format!("{:?}", odd));
}

#[test]
fn brackets_stand_around_the_parts() {
    assert_eq!(bracket(&strings(&["\"x\"", "\"y\""])), "[\"x\", \"y\"]");
}
