use graphene_ha::text::chars::{chars_of, name_char, slice_of, string_of};
use graphene_ha::text::compose::{
    byte_column, count_char, decimal_string, join, repeat, replace_char,
};
use graphene_ha::text::names::{
    concat2, concat3, has_name, insert_name, lines_of, same_text, split_text, words_of,
};
use graphene_ha::text::runs::{
    strip_prefix, take_after_last, take_last_name, take_name, trim, trim_end, trim_leading,
    trim_leading_text, trim_start, trim_surrounding, trim_trailing,
};
use graphene_ha::text::search::{
    contains_str, ends_with_str, find_str, starts_with_str, text_after_match,
    text_before_match,
};
use graphene_ha::text::split::{take_after, take_before};

fn t(s: &str) -> Vec<char> {
    chars_of(s)
}

fn s(v: Vec<char>) -> String {
    string_of(&v)
}

fn strs(v: &[&str]) -> Vec<String> {
    v.iter().map(|s| s.to_string()).collect()
}

#[test]
fn characters_and_strings_convert_both_ways() {
    assert_eq!(chars_of("aé\n"), vec!['a', 'é', '\n']);
    assert_eq!(string_of(&vec!['x', 'ß', '🦀']), "xß🦀");
    assert_eq!(string_of(&vec![]), "");
    assert_eq!(s(slice_of(&t("hello"), 1, 3)), "el");
    assert!(same_text("é", "é") && !same_text("e", "é") && !same_text("a", "ab"));
    assert_eq!(concat2("a", "b"), "ab");
    assert_eq!(concat3("a", "", "c"), "ac");
}

#[test]
fn lines_end_at_line_feeds() {
    assert_eq!(lines_of("foo\r\nbar\n\nbaz\r"), strs(&["foo", "bar", "", "baz\r"]));
    assert_eq!(lines_of(""), Vec::<String>::new());
    assert_eq!(lines_of("\n"), strs(&[""]));
    assert_eq!(lines_of("a\n"), strs(&["a"]));
    assert_eq!(lines_of("a\nb"), strs(&["a", "b"]));
    assert_eq!(lines_of("\r\n\r\n"), strs(&["", ""]));
    assert_eq!(lines_of("a\r\r\n"), strs(&["a\r"]));
}

#[test]
fn splitting_keeps_empty_pieces() {
    assert_eq!(split_text("a:b", ':'), strs(&["a", "b"]));
    assert_eq!(split_text("a::b:", ':'), strs(&["a", "", "b", ""]));
    assert_eq!(split_text("", ':'), strs(&[""]));
    assert_eq!(split_text("abc", ':'), strs(&["abc"]));
    assert_eq!(s(take_before(&t("a(b(c"), '(')), "a");
    assert_eq!(s(take_before(&t("abc"), '(')), "abc");
    assert_eq!(take_after(&t("a{b{c"), '{').map(s), Some("b{c".to_string()));
    assert_eq!(take_after(&t("abc"), '{'), None);
    assert_eq!(s(take_after_last(&t("a:b:c"), ':')), "c");
    assert_eq!(s(take_after_last(&t("abc"), ':')), "abc");
    assert_eq!(s(take_after_last(&t("abc:"), ':')), "");
}

#[test]
fn words_are_parted_by_white_space() {
    assert_eq!(words_of("  public\tstatic  void\u{a0}main \n"), strs(&["public", "static", "void", "main"]));
    assert_eq!(words_of(" \t "), Vec::<String>::new());
    assert_eq!(words_of("one"), strs(&["one"]));
}

#[test]
fn trimming_removes_white_space_or_a_given_character() {
    assert_eq!(s(trim(&t(" \t a b \n"))), "a b");
    assert_eq!(s(trim_start(&t("  a "))), "a ");
    assert_eq!(s(trim_end(&t("  a "))), "  a");
    assert_eq!(s(trim(&t("   "))), "");
    assert_eq!(s(trim(&t("\u{2003}x\u{3000}"))), "x");
    assert_eq!(s(trim_leading(&t("&&x&"), '&')), "x&");
    assert_eq!(s(trim_trailing(&t("x;;"), ';')), "x");
    assert_eq!(s(trim_surrounding(&t("\"\"name\""), '"')), "name");
    assert_eq!(s(trim_leading_text(&t("package package x"), "package ")), "x");
    assert_eq!(s(trim_leading_text(&t("x"), "")), "x");
    assert_eq!(strip_prefix(&t("mut x"), "mut ").map(s), Some("x".to_string()));
    assert_eq!(strip_prefix(&t("mutx"), "mut "), None);
}

#[test]
fn names_are_runs_of_alphanumerics_and_underscores() {
    assert!(name_char('_') && name_char('z') && name_char('7') && name_char('é') && name_char('名'));
    assert!(!name_char('-') && !name_char(' ') && !name_char('('));
    assert_eq!(s(take_name(&t("naïve_1(x)"))), "naïve_1");
    assert_eq!(s(take_name(&t("(x)"))), "");
    assert_eq!(s(take_last_name(&t("let x = my_handle"))), "my_handle");
    assert_eq!(s(take_last_name(&t("a b ) "))), "b");
    assert_eq!(s(take_last_name(&t(" ) "))), "");
}

#[test]
fn searching_finds_the_first_occurrence() {
    assert_eq!(find_str(&t("abcabc"), "bc"), Some(1));
    assert_eq!(find_str(&t("abcabc"), "cb"), None);
    assert_eq!(find_str(&t("abc"), ""), Some(0));
    assert_eq!(find_str(&t(""), ""), Some(0));
    assert_eq!(find_str(&t("ab"), "abc"), None);
    assert_eq!(find_str(&t("ééx"), "x"), Some(2));
    assert!(contains_str(&t("a go b"), "go ") && !contains_str(&t("ago"), "go "));
    assert!(starts_with_str(&t("//x"), "//") && !starts_with_str(&t("/"), "//"));
    assert!(ends_with_str(&t("a.py"), ".py") && !ends_with_str(&t("py"), ".py"));
    assert_eq!(text_after_match(&t("let x = 1"), "let ").map(s), Some("x = 1".to_string()));
    assert_eq!(text_before_match(&t("a.b.c"), ".").map(s), Some("a".to_string()));
    assert_eq!(text_before_match(&t("abc"), "."), None);
}

#[test]
fn numbers_columns_and_counts() {
    assert_eq!(decimal_string(0), "0");
    assert_eq!(decimal_string(7), "7");
    assert_eq!(decimal_string(10), "10");
    assert_eq!(decimal_string(18446744073709551615), "18446744073709551615");
    assert_eq!(byte_column(&t("aé€🦀z"), 0), 0);
    assert_eq!(byte_column(&t("aé€🦀z"), 1), 1);
    assert_eq!(byte_column(&t("aé€🦀z"), 2), 3);
    assert_eq!(byte_column(&t("aé€🦀z"), 3), 6);
    assert_eq!(byte_column(&t("aé€🦀z"), 4), 10);
    assert_eq!(byte_column(&t("aé€🦀z"), 5), 11);
    assert_eq!(count_char(&t("{{}{"), '{'), 3);
    assert_eq!(count_char(&t(""), '{'), 0);
    assert_eq!(replace_char("a.b.c", '.', "/"), "a/b/c");
    assert_eq!(replace_char("say \"hi\"", '"', "\"\""), "say \"\"hi\"\"");
    assert_eq!(replace_char("a-b", '-', ""), "ab");
    assert_eq!(repeat("ab", 3), "ababab");
    assert_eq!(repeat("ab", 0), "");
    assert_eq!(join(&strs(&["a", "b", "c"]), ", "), "a, b, c");
    assert_eq!(join(&strs(&["a"]), ", "), "a");
    assert_eq!(join(&strs(&[]), ", "), "");
}

#[test]
fn name_lists_hold_each_name_once_in_order() {
    let mut set: Vec<String> = vec![];
    insert_name(&mut set, "b".to_string());
    insert_name(&mut set, "a".to_string());
    insert_name(&mut set, "b".to_string());
    assert_eq!(set, strs(&["b", "a"]));
    assert!(has_name(&set, "a") && !has_name(&set, "c"));
}
