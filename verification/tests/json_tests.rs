use mirrord_runner::json::{parse_json, write_json, Json};

fn chars(s: &str) -> Vec<char> {
    s.chars().collect()
}

fn roundtrip(s: &str) -> Option<String> {
    let v = chars(s);
    parse_json(&v).map(|j| write_json(&j).iter().collect())
}

#[test]
fn parses_literals() {
    assert!(matches!(parse_json(&chars("null")), Some(Json::Null)));
    assert!(matches!(parse_json(&chars("true")), Some(Json::Bool(true))));
    assert!(matches!(parse_json(&chars("false")), Some(Json::Bool(false))));
}

#[test]
fn parses_numbers() {
    assert_eq!(roundtrip("0").as_deref(), Some("0"));
    assert_eq!(roundtrip("-1").as_deref(), Some("-1"));
    assert_eq!(roundtrip("3.14").as_deref(), Some("3.14"));
    assert_eq!(roundtrip("1e10").as_deref(), Some("1e10"));
    assert_eq!(roundtrip("-0.5E+2").as_deref(), Some("-0.5E+2"));
    assert_eq!(roundtrip("12e-3").as_deref(), Some("12e-3"));
}

#[test]
fn rejects_bad_numbers() {
    assert!(roundtrip("01").is_none());
    assert!(roundtrip("-").is_none());
    assert!(roundtrip("1.").is_none());
    assert!(roundtrip("1e").is_none());
    assert!(roundtrip(".5").is_none());
    assert!(roundtrip("+1").is_none());
}

#[test]
fn parses_strings_with_escapes() {
    assert_eq!(roundtrip("\"hello\"").as_deref(), Some("\"hello\""));
    assert_eq!(roundtrip("\"a\\\"b\"").as_deref(), Some("\"a\\\"b\""));
    assert_eq!(roundtrip("\"a\\\\b\"").as_deref(), Some("\"a\\\\b\""));
    assert_eq!(roundtrip("\"\\u0041\"").as_deref(), Some("\"\\u0041\""));
    assert_eq!(roundtrip("\"\\n\\t\\r\\b\\f\\/\"").as_deref(), Some("\"\\n\\t\\r\\b\\f\\/\""));
}

#[test]
fn rejects_bad_strings() {
    assert!(roundtrip("\"open").is_none());
    assert!(roundtrip("\"\\x\"").is_none());
    assert!(roundtrip("\"\\u00g0\"").is_none());
    assert!(roundtrip("\"\u{0001}\"").is_none());
}

#[test]
fn parses_arrays() {
    assert_eq!(roundtrip("[]").as_deref(), Some("[]"));
    assert_eq!(roundtrip("[ ]").as_deref(), Some("[]"));
    assert_eq!(roundtrip("[1, 2 ,3]").as_deref(), Some("[1,2,3]"));
    assert_eq!(roundtrip("[[true], null]").as_deref(), Some("[[true],null]"));
}

#[test]
fn rejects_bad_arrays() {
    assert!(roundtrip("[1,]").is_none());
    assert!(roundtrip("[1 2]").is_none());
    assert!(roundtrip("[").is_none());
    assert!(roundtrip("]").is_none());
}

#[test]
fn parses_objects() {
    assert_eq!(roundtrip("{}").as_deref(), Some("{}"));
    assert_eq!(
        roundtrip("{ \"a\" : 1 , \"b\" : [2] }").as_deref(),
        Some("{\"a\":1,\"b\":[2]}")
    );
    // member order and duplicate keys are kept as given
    assert_eq!(
        roundtrip("{\"b\":1,\"a\":2,\"b\":3}").as_deref(),
        Some("{\"b\":1,\"a\":2,\"b\":3}")
    );
}

#[test]
fn rejects_bad_objects() {
    assert!(roundtrip("{\"a\":}").is_none());
    assert!(roundtrip("{\"a\" 1}").is_none());
    assert!(roundtrip("{a:1}").is_none());
    assert!(roundtrip("{\"a\":1,}").is_none());
    assert!(roundtrip("{").is_none());
}

#[test]
fn whole_document_only() {
    assert_eq!(roundtrip("  {\"a\":1}  ").as_deref(), Some("{\"a\":1}"));
    assert!(roundtrip("{\"a\":1} x").is_none());
    assert!(roundtrip("").is_none());
    assert!(roundtrip("   ").is_none());
}

#[test]
fn agrees_with_serde_json_on_acceptance() {
    let cases = [
        "null",
        "{\"a\":1}",
        "[1,2,3]",
        "{\"a\":{\"b\":[true,false,null]}}",
        "\"text\"",
        "-12.5e-1",
        "{\"a\":1,}",
        "[1 2]",
        "{\"a\"}",
        "tru",
        "\"unterminated",
        "01",
    ];
    for case in cases {
        let ours = parse_json(&chars(case)).is_some();
        let theirs = serde_json::from_str::<serde_json::Value>(case).is_ok();
        assert_eq!(ours, theirs, "acceptance differs on {:?}", case);
    }
}
