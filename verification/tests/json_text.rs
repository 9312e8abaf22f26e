use nostr_client::json::{decimal, parse, Json};

fn text(s: &str) -> Json {
    Json::Str(s.to_string())
}

#[test]
fn decimal_writes_plain_digits() {
    assert_eq!(decimal(0), "0");
    assert_eq!(decimal(7), "7");
    assert_eq!(decimal(10), "10");
    assert_eq!(decimal(1700000000), "1700000000");
    assert_eq!(decimal(u64::MAX), "18446744073709551615");
}

#[test]
fn scalars_have_their_json_words() {
    assert_eq!(Json::Null.to_text(), "null");
    assert_eq!(Json::Bool(true).to_text(), "true");
    assert_eq!(Json::Bool(false).to_text(), "false");
    assert_eq!(Json::Uint(42).to_text(), "42");
    assert_eq!(Json::Decimal("-2.5".to_string()).to_text(), "-2.5");
}

#[test]
fn strings_are_quoted_and_escaped() {
    assert_eq!(text("plain").to_text(), "\"plain\"");
    assert_eq!(text("").to_text(), "\"\"");
    assert_eq!(text("a\"b").to_text(), "\"a\\\"b\"");
    assert_eq!(text("a\\b").to_text(), "\"a\\\\b\"");
    assert_eq!(text("line\nfeed").to_text(), "\"line\\nfeed\"");
    assert_eq!(text("\r\t").to_text(), "\"\\r\\t\"");
    assert_eq!(text("\u{8}\u{c}").to_text(), "\"\\b\\f\"");
    assert_eq!(text("\u{0}\u{1}\u{1f}").to_text(), "\"\\u0000\\u0001\\u001f\"");
    assert_eq!(text("\u{b}").to_text(), "\"\\u000b\"");
}

#[test]
fn other_characters_stay_as_they_are() {
    assert_eq!(text("/").to_text(), "\"/\"");
    assert_eq!(text("\u{7f}").to_text(), "\"\u{7f}\"");
    assert_eq!(text("é").to_text(), "\"é\"");
    assert_eq!(text("日本語 🎉").to_text(), "\"日本語 🎉\"");
    assert_eq!(text(" ").to_text(), "\" \"");
}

#[test]
fn arrays_and_objects_have_no_white_space() {
    assert_eq!(Json::Array(vec![]).to_text(), "[]");
    assert_eq!(Json::Object(vec![]).to_text(), "{}");
    assert_eq!(Json::Array(vec![Json::Uint(1)]).to_text(), "[1]");
    let value = Json::Array(vec![
        Json::Uint(1),
        text("two"),
        Json::Null,
        Json::Array(vec![Json::Bool(true), Json::Array(vec![])]),
        Json::Object(vec![
            ("b".to_string(), Json::Uint(2)),
            ("a".to_string(), text("x y")),
        ]),
    ]);
    assert_eq!(value.to_text(), "[1,\"two\",null,[true,[]],{\"b\":2,\"a\":\"x y\"}]");
}

#[test]
fn member_names_are_escaped_too() {
    let value = Json::Object(vec![("a\"b".to_string(), Json::Null)]);
    assert_eq!(value.to_text(), "{\"a\\\"b\":null}");
}

#[test]
fn get_finds_the_first_member_of_a_name() {
    let value = Json::Object(vec![
        ("a".to_string(), Json::Uint(1)),
        ("b".to_string(), Json::Uint(2)),
        ("a".to_string(), Json::Uint(3)),
    ]);
    assert_eq!(value.get("a"), Some(&Json::Uint(1)));
    assert_eq!(value.get("b"), Some(&Json::Uint(2)));
    assert_eq!(value.get("c"), None);
    assert_eq!(Json::Array(vec![]).get("a"), None);
    assert_eq!(Json::Null.get("a"), None);
}

#[test]
fn parse_reads_every_kind_of_value() {
    assert_eq!(parse("null"), Some(Json::Null));
    assert_eq!(parse("true"), Some(Json::Bool(true)));
    assert_eq!(parse(" false "), Some(Json::Bool(false)));
    assert_eq!(parse("0"), Some(Json::Uint(0)));
    assert_eq!(parse("18446744073709551615"), Some(Json::Uint(u64::MAX)));
    assert_eq!(parse("-3"), Some(Json::Decimal("-3".to_string())));
    assert_eq!(parse("2.5"), Some(Json::Decimal("2.5".to_string())));
    assert_eq!(parse("\"a\\nb\\u00e9\""), Some(text("a\nbé")));
    assert_eq!(parse("[]"), Some(Json::Array(vec![])));
    assert_eq!(parse("{}"), Some(Json::Object(vec![])));
}

#[test]
fn parse_reads_nested_values_in_order() {
    let read = parse("[1, \"a\", [null, {\"k\": [true]}], {\"x\": 1, \"y\": {\"z\": \"w\"}}]");
    let wanted = Json::Array(vec![
        Json::Uint(1),
        text("a"),
        Json::Array(vec![
            Json::Null,
            Json::Object(vec![("k".to_string(), Json::Array(vec![Json::Bool(true)]))]),
        ]),
        Json::Object(vec![
            ("x".to_string(), Json::Uint(1)),
            ("y".to_string(), Json::Object(vec![("z".to_string(), text("w"))])),
        ]),
    ]);
    assert_eq!(read, Some(wanted));
}

#[test]
fn parse_refuses_what_is_not_json() {
    assert_eq!(parse(""), None);
    assert_eq!(parse("not json"), None);
    assert_eq!(parse("[1,"), None);
    assert_eq!(parse("[1] x"), None);
    assert_eq!(parse("{\"a\"}"), None);
    assert_eq!(parse("'a'"), None);
}

#[test]
fn text_written_is_read_back() {
    let value = Json::Array(vec![
        text("q\"\\\n\u{1}é"),
        Json::Uint(5),
        Json::Object(vec![("k".to_string(), Json::Null)]),
    ]);
    assert_eq!(parse(&value.to_text()), Some(value));
}
