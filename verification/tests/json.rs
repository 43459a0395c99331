use megalodon::error::Kind;
use megalodon::json::{find, required_text, required_text_list, JsonValue};

#[test]
fn parse_reads_an_object_in_key_order() {
    let doc = JsonValue::parse(br#"{"b": [1, "x", null, true], "a": "text"}"#).unwrap();
    let expected = JsonValue::Object(vec![
        ("a".to_string(), JsonValue::Text("text".to_string())),
        (
            "b".to_string(),
            JsonValue::Array(vec![
                JsonValue::Number(Some(1)),
                JsonValue::Text("x".to_string()),
                JsonValue::Null,
                JsonValue::Bool(true),
            ]),
        ),
    ]);
    assert_eq!(doc, expected);
}

#[test]
fn parse_rejects_malformed_text() {
    let e = JsonValue::parse(b"{\"a\": ").unwrap_err();
    assert_eq!(e.kind, Kind::ParseError);
    assert_eq!(e.field, None);
    assert_eq!(e.fragment, None);
    assert_eq!(e.entity, None);
}

#[test]
fn required_text_tells_missing_null_and_wrong_type_apart() {
    let doc = JsonValue::parse(br#"{"a": "x", "n": null, "k": 3}"#).unwrap();
    let entries = doc.as_object().unwrap();
    assert_eq!(required_text(entries, "a").unwrap(), "x");
    assert_eq!(required_text(entries, "zz").unwrap_err().message, "missing field");
    assert_eq!(required_text(entries, "n").unwrap_err().message, "null in required field");
    assert_eq!(required_text(entries, "k").unwrap_err().message, "wrong JSON type");
    assert_eq!(required_text(entries, "k").unwrap_err().field, Some("k".to_string()));
    assert!(find(entries, "k").is_some());
    assert!(required_text_list(entries, "k").is_err());
}
