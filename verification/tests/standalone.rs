use regex::Regex;
use verex::Expression;

#[test]
fn standalone_functions_start_a_fresh_builder() {
    assert_eq!(verex::any("ab").source(), "(?:[ab])");
    assert_eq!(verex::any_of("a.").source(), r"(?:[a\.])");
    assert_eq!(verex::anything().source(), "(?:(.*))");
    assert_eq!(verex::anything_but("a").source(), "(?:(?:[^a]*))");
    assert_eq!(verex::br().source(), r"(?:(?:\n|(?:\r\n)))");
    assert_eq!(verex::capture("a.").source(), r"(?:(a\.))");
    assert_eq!(verex::digit().source(), r"(?:\d)");
    assert_eq!(verex::end_of_line().source(), "(?:$)");
    assert_eq!(verex::find("a.").source(), r"(?:(?:a\.))");
    assert_eq!(verex::line_break().source(), r"(?:(?:\n|(?:\r\n)))");
    assert_eq!(verex::maybe("a.").source(), r"(?:(?:a\.)?)");
    assert_eq!(verex::range(vec![('a', 'c'), ('x', 'z')]).source(), "(?:[a-cx-z])");
    assert_eq!(verex::something().source(), "(?:(.+))");
    assert_eq!(verex::something_but("a").source(), "(?:(?:[^a]+))");
    assert_eq!(verex::start_of_line().source(), "(?:^)");
    assert_eq!(verex::tab().source(), r"(?:\t)");
    assert_eq!(verex::word().source(), r"(?:(?:\w+))");
}

#[test]
fn standalone_flag_functions_set_the_flag() {
    assert_eq!(verex::with_any_case(true).source(), "(?i:)");
    assert_eq!(verex::with_any_case(false).source(), "(?:)");
    assert_eq!(verex::search_one_line(false).source(), "(?m:)");
    assert_eq!(verex::search_one_line(true).source(), "(?:)");
}

#[test]
fn standalone_expr_functions_splice_raw_text() {
    let sub_regex = Regex::new("a.b").unwrap();
    let sub_verex = verex::find("x");
    assert_eq!(
        verex::capture_expr(Expression::String("a.b")).source(),
        "(?:(a.b))"
    );
    assert_eq!(
        verex::find_expr(Expression::Regex(&sub_regex)).source(),
        "(?:(?:a.b))"
    );
    assert_eq!(
        verex::maybe_expr(Expression::Verex(&sub_verex)).source(),
        "(?:(?:(?:(?:x)))?)"
    );
}

#[test]
fn a_chain_can_start_with_a_standalone_function() {
    let mut verex = verex::find("a");
    let regex1 = verex.compile().unwrap();
    let regex2 = verex.or_find("b").compile().unwrap();
    assert!(!regex1.is_match("b"));
    assert!(regex2.is_match("b"));
    assert_eq!(regex1.as_str(), r"(?:(?:a))");
    assert_eq!(regex2.as_str(), r"(?:(?:a)|(?:b))");
}
