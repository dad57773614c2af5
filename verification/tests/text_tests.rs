use beef_market::ollama::ollama_base_url;
use beef_market::text::{before_first_chars, chars_of, replace_char_chars, strip_suffix_chars, trim_str};

#[test]
fn trim_removes_unicode_white_space() {
    assert_eq!(trim_str("\n\t  Veise filee \u{a0}\u{3000}"), "Veise filee");
    assert_eq!(trim_str("   "), "");
    assert_eq!(trim_str("a b"), "a b");
}

#[test]
fn text_before_first_newline() {
    assert_eq!(before_first_chars(&chars_of("12,99\n€/kg"), '\n'), chars_of("12,99"));
    assert_eq!(before_first_chars(&chars_of("no newline"), '\n'), chars_of("no newline"));
    assert_eq!(before_first_chars(&chars_of("\nx"), '\n'), chars_of(""));
}

#[test]
fn commas_become_points() {
    assert_eq!(replace_char_chars(&chars_of("1,2,3"), ',', '.'), chars_of("1.2.3"));
}

#[test]
fn suffix_is_stripped_only_when_present() {
    assert_eq!(strip_suffix_chars(&chars_of("9,99 €/kg"), &chars_of("€/kg")), Some(chars_of("9,99 ")));
    assert_eq!(strip_suffix_chars(&chars_of("9,99"), &chars_of("€/kg")), None);
    assert_eq!(strip_suffix_chars(&chars_of("kg"), &chars_of("€/kg")), None);
}

#[test]
fn ollama_url_prefixes_http() {
    assert_eq!(ollama_base_url("localhost"), "http://localhost");
    assert_eq!(ollama_base_url(""), "http://");
}
