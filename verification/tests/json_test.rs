use pixelast::json::{parse, quote, Json};

#[test]
fn parse_reads_each_kind_of_value() {
    assert_eq!(parse("null").unwrap(), Json::Null);
    assert_eq!(parse("true").unwrap(), Json::Bool(true));
    assert_eq!(parse("false").unwrap(), Json::Bool(false));
    assert_eq!(parse("50").unwrap(), Json::Number(String::from("50")));
    assert_eq!(parse("\"text\"").unwrap(), Json::Text(String::from("text")));
    assert_eq!(
        parse("[1,\"a\",null]").unwrap(),
        Json::Array(vec![
            Json::Number(String::from("1")),
            Json::Text(String::from("a")),
            Json::Null,
        ])
    );
    assert_eq!(
        parse("{\"a\":{\"b\":[true]}}").unwrap(),
        Json::Object(vec![(
            String::from("a"),
            Json::Object(vec![(String::from("b"), Json::Array(vec![Json::Bool(true)]))]),
        )])
    );
}

#[test]
fn parse_keeps_the_text_of_numbers() {
    assert_eq!(parse("-7").unwrap(), Json::Number(String::from("-7")));
    assert_eq!(parse("1.5").unwrap(), Json::Number(String::from("1.5")));
    assert_eq!(parse("0.01").unwrap(), Json::Number(String::from("0.01")));
    assert_eq!(
        parse("18446744073709551615").unwrap(),
        Json::Number(String::from("18446744073709551615"))
    );
}

#[test]
fn parse_unescapes_strings() {
    assert_eq!(parse(r#""a\"b\\c\n""#).unwrap(), Json::Text(String::from("a\"b\\c\n")));
    assert_eq!(parse(r#""\u00e9""#).unwrap(), Json::Text(String::from("é")));
}

#[test]
fn parse_rejects_what_is_no_json() {
    assert!(parse("not json body").is_err());
    assert!(parse("").is_err());
    assert!(parse("{\"a\":1").is_err());
    assert!(parse("{\"a\":1} trailing").is_err());
    assert!(parse("<svg></svg>").is_err());
}

#[test]
fn parse_accepts_surrounding_whitespace() {
    assert_eq!(parse(" \n{ } \t").unwrap(), Json::Object(vec![]));
}

#[test]
fn member_finds_a_member_by_name() {
    let doc = parse(r#"{"b":1,"a":"x"}"#).unwrap();
    assert_eq!(doc.member("a"), Some(&Json::Text(String::from("x"))));
    assert_eq!(doc.member("b"), Some(&Json::Number(String::from("1"))));
    assert_eq!(doc.member("c"), None);
    assert_eq!(doc.member(""), None);
}

#[test]
fn member_of_what_is_no_object_is_none() {
    assert_eq!(Json::Null.member("a"), None);
    assert_eq!(Json::Text(String::from("a")).member("a"), None);
    assert_eq!(Json::Array(vec![Json::Text(String::from("a"))]).member("a"), None);
}

#[test]
fn member_takes_the_first_of_two_with_one_name() {
    let doc = Json::Object(vec![
        (String::from("a"), Json::Bool(true)),
        (String::from("a"), Json::Bool(false)),
    ]);
    assert_eq!(doc.member("a"), Some(&Json::Bool(true)));
}

#[test]
fn quote_writes_a_string_literal() {
    assert_eq!(quote("testid"), "\"testid\"");
    assert_eq!(quote(""), "\"\"");
    assert_eq!(quote("a\"b"), "\"a\\\"b\"");
    assert_eq!(quote("a\\b"), "\"a\\\\b\"");
    assert_eq!(quote("line\nbreak\ttab"), "\"line\\nbreak\\ttab\"");
    assert_eq!(quote("\u{1}"), "\"\\u0001\"");
    assert_eq!(quote("é/"), "\"é/\"");
}

#[test]
fn quote_is_read_back_by_parse() {
    let text = "a\"b\\c\n\u{0}é";
    assert_eq!(parse(&quote(text)).unwrap(), Json::Text(String::from(text)));
}
