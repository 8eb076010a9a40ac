use openapi_schema::json::{duplicate_items, duplicate_members, find, same_text};
use openapi_schema::{CodecError, Entry, Json};
use serde_json::Number;

fn entry(key: &str, value: Json) -> Entry<Json> {
    Entry { key: key.to_string(), value }
}

#[test]
fn text_is_parsed_into_plain_values() {
    let parsed = Json::from_text(r#" {"b": [1, -2, true, null, "s"], "a": {}} "#).unwrap();
    assert_eq!(
        parsed,
        Json::Object(vec![
            entry("a", Json::Object(vec![])),
            entry(
                "b",
                Json::Array(vec![
                    Json::Number(Number::from(1u64)),
                    Json::Number(Number::from(-2i64)),
                    Json::Bool(true),
                    Json::Null,
                    Json::String("s".to_string()),
                ])
            ),
        ])
    );
    assert_eq!(Json::from_bytes(b"[\"\\u00e9\"]"), Ok(Json::Array(vec![Json::String("é".to_string())])));
}

#[test]
fn malformed_text_is_reported() {
    assert_eq!(Json::from_text(""), Err(CodecError::MalformedInput));
    assert_eq!(Json::from_text("{\"a\":}"), Err(CodecError::MalformedInput));
    assert_eq!(Json::from_text("[1] [2]"), Err(CodecError::MalformedInput));
    assert_eq!(Json::from_bytes(b"\"\xff\""), Err(CodecError::MalformedInput));
    assert_eq!(Json::from_bytes(b"tru"), Err(CodecError::MalformedInput));
}

#[test]
fn last_of_two_equal_keys_in_a_text_is_kept() {
    assert_eq!(
        Json::from_text(r#"{"k":1,"k":2}"#),
        Ok(Json::Object(vec![entry("k", Json::Number(Number::from(2u64)))]))
    );
}

#[test]
fn values_are_printed_compactly() {
    let value = Json::Object(vec![
        entry("b", Json::Array(vec![Json::Null, Json::Bool(false)])),
        entry("a", Json::String("quote \" and \\".to_string())),
        entry("n", Json::Number(Number::from(12u64))),
    ]);
    assert_eq!(value.to_text(), r#"{"a":"quote \" and \\","b":[null,false],"n":12}"#);
    assert_eq!(Json::Null.to_text(), "null");
    assert_eq!(Json::from_text(&value.to_text()).unwrap().to_text(), value.to_text());
}

#[test]
fn printed_numbers_are_read_back() {
    for text in ["0", "-1", "18446744073709551615", "1.5", "-2.5e-3", "1e300"] {
        let value = Json::from_text(text).unwrap();
        assert_eq!(Json::from_text(&value.to_text()), Ok(value));
    }
}

#[test]
fn texts_compare_by_their_characters() {
    assert!(same_text("", ""));
    assert!(same_text("$ref", "$ref"));
    assert!(same_text("é", "\u{e9}"));
    assert!(!same_text("a", "b"));
    assert!(!same_text("a", "ab"));
    assert!(!same_text("ab", "a"));
    assert!(!same_text("Name", "name"));
}

#[test]
fn find_takes_the_first_member_with_the_key() {
    let members = vec![
        entry("a", Json::Bool(true)),
        entry("b", Json::Null),
        entry("a", Json::Bool(false)),
    ];
    assert_eq!(find(&members, "a"), Some(&Json::Bool(true)));
    assert_eq!(find(&members, "b"), Some(&Json::Null));
    assert_eq!(find(&members, "c"), None);
    assert_eq!(find(&vec![], "a"), None);
}

#[test]
fn copies_are_deep_and_equal() {
    let value = Json::from_text(r#"{"a":[{"b":[1.25,"s",null]}],"c":true}"#).unwrap();
    assert_eq!(value.duplicate(), value);
    assert_eq!(value.clone(), value);
    match &value {
        Json::Object(members) => assert_eq!(&duplicate_members(members), members),
        other => panic!("unexpected value: {:?}", other),
    }
    let items = vec![Json::Null, value];
    assert_eq!(duplicate_items(&items), items);
}

#[test]
fn errors_describe_themselves() {
    let all = [
        CodecError::MalformedInput,
        CodecError::NoVariantMatched,
        CodecError::ShapeMismatch,
        CodecError::ExtensionCollision,
    ];
    for (i, left) in all.iter().enumerate() {
        assert!(!left.message().is_empty());
        for right in &all[i + 1..] {
            assert_ne!(left.message(), right.message());
        }
    }
    assert_eq!(CodecError::NoVariantMatched.message(), "the input matches no known document shape");
}
