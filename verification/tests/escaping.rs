use verex::escape::{escape, escape_char};
use verex::Verex;

#[test]
fn escape_leaves_plain_text_alone() {
    assert_eq!(escape("hello world"), "hello world");
    assert_eq!(escape("a-z_0 9"), "a-z_0 9");
}

#[test]
fn escape_of_empty_text_is_empty() {
    assert_eq!(escape(""), "");
}

#[test]
fn escape_puts_one_backslash_before_each_syntax_character() {
    assert_eq!(escape("\\"), "\\\\");
    assert_eq!(escape("("), "\\(");
    assert_eq!(escape(")"), "\\)");
    assert_eq!(escape("["), "\\[");
    assert_eq!(escape("]"), "\\]");
    assert_eq!(escape("{"), "\\{");
    assert_eq!(escape("}"), "\\}");
    assert_eq!(escape("."), "\\.");
    assert_eq!(escape("+"), "\\+");
    assert_eq!(escape("*"), "\\*");
    assert_eq!(escape("?"), "\\?");
    assert_eq!(escape("^"), "\\^");
    assert_eq!(escape("$"), "\\$");
    assert_eq!(escape("|"), "\\|");
}

#[test]
fn escape_of_all_syntax_characters_at_once() {
    assert_eq!(
        escape(r"\()[]{}.+*?^$|"),
        r"\\\(\)\[\]\{\}\.\+\*\?\^\$\|"
    );
}

#[test]
fn escape_does_not_escape_its_own_backslashes() {
    assert_eq!(escape(r"a\.b"), r"a\\\.b");
    assert_eq!(escape(r"\\"), r"\\\\");
    assert_eq!(escape(r"(\)"), r"\(\\\)");
}

#[test]
fn escape_is_one_pass_per_call() {
    let once = escape("a.b");
    assert_eq!(once, r"a\.b");
    let twice = escape(&once);
    assert_eq!(twice, r"a\\\.b");
}

#[test]
fn escape_keeps_characters_outside_ascii() {
    assert_eq!(escape("é.ü"), "é\\.ü");
    assert_eq!(escape("日本(語)"), "日本\\(語\\)");
}

#[test]
fn escape_char_marks_only_its_target() {
    assert_eq!(escape_char("a.b.c", '.'), r"a\.b\.c");
    assert_eq!(escape_char("a.b(c", '('), r"a.b\(c");
    assert_eq!(escape_char("abc", '.'), "abc");
    assert_eq!(escape_char("", '.'), "");
    assert_eq!(escape_char(r"\\", '\\'), r"\\\\");
}

#[test]
fn find_matches_a_literal_dot_only() {
    let regex = Verex::new().find("a.b").compile().unwrap();
    assert!(regex.is_match("a.b"));
    assert!(!regex.is_match("axb"));
}

#[test]
fn find_takes_every_syntax_character_literally() {
    let literal = r"\()[]{}.+*?^$|";
    let verex = Verex::new()
        .start_of_line()
        .find(literal)
        .end_of_line()
        .clone();
    assert_eq!(
        verex.source(),
        r"(?:^(?:\\\(\)\[\]\{\}\.\+\*\?\^\$\|)$)"
    );
    let regex = verex.compile().unwrap();
    assert!(regex.is_match(literal));
    assert!(!regex.is_match(r"\()[]{}x+*?^$|"));
    assert!(!regex.is_match(""));
}

#[test]
fn find_of_a_quantified_looking_literal_matches_itself() {
    let regex = Verex::new()
        .start_of_line()
        .find("a+b*(c)?")
        .end_of_line()
        .compile()
        .unwrap();
    assert!(regex.is_match("a+b*(c)?"));
    assert!(!regex.is_match("aab"));
    assert!(!regex.is_match("ab"));
}

#[test]
fn any_takes_syntax_characters_literally() {
    let verex = Verex::new().any("].^").clone();
    assert_eq!(verex.source(), r"(?:[\]\.\^])");
    let regex = verex.compile().unwrap();
    assert!(regex.is_match("]"));
    assert!(regex.is_match("."));
    assert!(regex.is_match("^"));
    assert!(!regex.is_match("a"));
}

#[test]
fn capture_and_maybe_escape_their_literal() {
    assert_eq!(Verex::new().capture("a|b").source(), r"(?:(a\|b))");
    assert_eq!(Verex::new().maybe("a?").source(), r"(?:(?:a\?)?)");
    assert_eq!(Verex::new().or_find("a$").source(), r"(?:|(?:a\$))");
    assert_eq!(
        Verex::new().anything_but("]").source(),
        r"(?:(?:[^\]]*))"
    );
    assert_eq!(
        Verex::new().something_but("[").source(),
        r"(?:(?:[^\[]+))"
    );
}
