use robertao::error::Error;
use robertao::text::{
    chars_of, concat_strings, decimal_string, join_strings, push_decimal, remove_char, replace_all,
    string_of_range,
};

#[test]
fn error_keeps_its_message() {
    let e = Error::new("Failed to update item");
    assert_eq!(e.message, "Failed to update item");
    assert_eq!(e.to_string(), "Failed to update item");
    assert_eq!(e.description(), "Failed to update item");
}

#[test]
fn decimal_rendering_matches_display() {
    for n in [0i64, 7, 10, 99, 100, 501, -1, -45, 1_000_000, i64::MAX, i64::MIN] {
        assert_eq!(decimal_string(n), n.to_string());
    }
}

#[test]
fn push_decimal_appends() {
    let mut s = String::from("De ");
    push_decimal(&mut s, 1500);
    assert_eq!(s, "De 1500");
}

#[test]
fn join_strings_puts_separator_between_parts() {
    let parts = vec!["@a".to_string(), "@b".to_string(), "[c](tg://user?id=3)".to_string()];
    assert_eq!(join_strings(&parts, " "), "@a @b [c](tg://user?id=3)");
    assert_eq!(join_strings(&vec!["one".to_string()], " "), "one");
    assert_eq!(join_strings(&Vec::new(), " "), "");
}

#[test]
fn remove_char_drops_every_occurrence() {
    assert_eq!(remove_char("@yurick @sousandrei", '@'), "yurick sousandrei");
    assert_eq!(remove_char("", '@'), "");
    assert_eq!(remove_char("sem arroba", '@'), "sem arroba");
}

#[test]
fn replace_all_matches_str_replace() {
    let cases = [
        ("/add@robertao", "@robertao", ""),
        ("/add@robertao@robertao", "@robertao", ""),
        ("/add@robert", "@robertao", ""),
        ("aaaa", "aa", "b"),
        ("ação@bot", "@bot", "!"),
        ("", "@x", "y"),
    ];
    for (s, pat, rep) in cases {
        assert_eq!(replace_all(s, pat, rep), s.replace(pat, rep));
    }
}

#[test]
fn chars_and_ranges() {
    let v = chars_of("olá, mundo");
    assert_eq!(v.len(), 10);
    assert_eq!(string_of_range(&v, 5, 10), "mundo");
    assert_eq!(string_of_range(&v, 0, 3), "olá");
    assert_eq!(string_of_range(&v, 4, 4), "");
}

#[test]
fn concat_writes_parts_in_order() {
    let parts = vec!["a".to_string(), "".to_string(), "bc".to_string()];
    assert_eq!(concat_strings(&parts), "abc");
    assert_eq!(concat_strings(&Vec::new()), "");
}
