use instance_meta::json::{parse_json, Json};

fn cv(s: &str) -> Vec<char> {
    s.chars().collect()
}

fn parse(s: &str) -> Option<Json> {
    parse_json(&cv(s))
}

#[test]
fn literals() {
    assert_eq!(parse("null"), Some(Json::Null));
    assert_eq!(parse("true"), Some(Json::Bool(true)));
    assert_eq!(parse("false"), Some(Json::Bool(false)));
    assert_eq!(parse("  null  "), Some(Json::Null));
    assert_eq!(parse("nul"), None);
    assert_eq!(parse("truee"), None);
    assert_eq!(parse(""), None);
    assert_eq!(parse("   "), None);
}

#[test]
fn integers() {
    assert_eq!(parse("0"), Some(Json::Int(0)));
    assert_eq!(parse("42"), Some(Json::Int(42)));
    assert_eq!(parse("-7"), Some(Json::Int(-7)));
    assert_eq!(
        parse("9223372036854775807"),
        Some(Json::Int(9223372036854775807))
    );
    assert_eq!(
        parse("-9223372036854775808"),
        Some(Json::Int(-9223372036854775808))
    );
}

#[test]
fn numbers_that_are_not_i64_are_kept_verbatim() {
    assert_eq!(parse("1.5"), Some(Json::NumLit(cv("1.5"))));
    assert_eq!(parse("1e3"), Some(Json::NumLit(cv("1e3"))));
    assert_eq!(parse("-2.25E-2"), Some(Json::NumLit(cv("-2.25E-2"))));
    assert_eq!(
        parse("9223372036854775808"),
        Some(Json::NumLit(cv("9223372036854775808")))
    );
}

#[test]
fn malformed_numbers() {
    assert_eq!(parse("01"), None);
    assert_eq!(parse("-"), None);
    assert_eq!(parse("1."), None);
    assert_eq!(parse("1e"), None);
    assert_eq!(parse("+1"), None);
}

#[test]
fn strings_and_escapes() {
    assert_eq!(parse("\"\""), Some(Json::Str(cv(""))));
    assert_eq!(parse("\"abc\""), Some(Json::Str(cv("abc"))));
    assert_eq!(
        parse("\"a\\n\\t\\\"b\\\\c\\/d\""),
        Some(Json::Str(cv("a\n\t\"b\\c/d")))
    );
    assert_eq!(parse("\"\\u0041\""), Some(Json::Str(cv("A"))));
    assert_eq!(parse("\"\\u00e9\""), Some(Json::Str(cv("\u{e9}"))));
    assert_eq!(parse("\"\\uD83D\\uDE00\""), Some(Json::Str(cv("\u{1F600}"))));
    assert_eq!(parse("\"caf\u{e9}\""), Some(Json::Str(cv("caf\u{e9}"))));
}

#[test]
fn malformed_strings() {
    assert_eq!(parse("\"abc"), None);
    assert_eq!(parse("\"\\x\""), None);
    assert_eq!(parse("\"\\uD83D\""), None);
    assert_eq!(parse("\"\\uDE00\""), None);
    assert_eq!(parse("\"a\nb\""), None);
}

#[test]
fn arrays() {
    assert_eq!(parse("[]"), Some(Json::Arr(vec![])));
    assert_eq!(
        parse("[1, 2, 3]"),
        Some(Json::Arr(vec![Json::Int(1), Json::Int(2), Json::Int(3)]))
    );
    assert_eq!(
        parse("[ [true] , [] ]"),
        Some(Json::Arr(vec![
            Json::Arr(vec![Json::Bool(true)]),
            Json::Arr(vec![])
        ]))
    );
    assert_eq!(parse("[1,]"), None);
    assert_eq!(parse("[1 2]"), None);
    assert_eq!(parse("[1"), None);
}

#[test]
fn objects() {
    assert_eq!(parse("{}"), Some(Json::Obj(vec![])));
    assert_eq!(
        parse("{\"a\": 1, \"b\": [true]}"),
        Some(Json::Obj(vec![
            (cv("a"), Json::Int(1)),
            (cv("b"), Json::Arr(vec![Json::Bool(true)])),
        ]))
    );
    assert_eq!(parse("{\"a\":1,}"), None);
    assert_eq!(parse("{\"a\" 1}"), None);
    assert_eq!(parse("{a: 1}"), None);
    assert_eq!(parse("{\"a\":1} extra"), None);
}

#[test]
fn duplicate_keys_are_kept_in_text_order() {
    // The tree keeps every member; lookups during decoding read the first.
    assert_eq!(
        parse("{\"a\": 1, \"a\": 2}"),
        Some(Json::Obj(vec![
            (cv("a"), Json::Int(1)),
            (cv("a"), Json::Int(2)),
        ]))
    );
}

#[test]
fn deeply_nested_values_parse() {
    let text = "[[[[[[[[[[42]]]]]]]]]]";
    let mut expected = Json::Int(42);
    for _ in 0..10 {
        expected = Json::Arr(vec![expected]);
    }
    assert_eq!(parse(text), Some(expected));
}
