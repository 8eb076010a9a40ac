use openapi_schema::resolver::{pointer_json, sniff, Sniff, POINTER_KEY};
use openapi_schema::v2::{ParameterOrRef, Reference, ResponseOrRef};
use openapi_schema::v3;
use openapi_schema::{Codec, CodecError, Entry, Json};

fn json(text: &str) -> Json {
    Json::from_text(text).unwrap()
}

#[test]
fn parameter_or_ref_dese() {
    let json_str = r#"{
            "$ref":"/some/path"
        }"#;

    assert_eq!(
        ParameterOrRef::decode(&Json::from_text(&json_str).unwrap()).unwrap(),
        ParameterOrRef::Ref(Reference {
            reference: "/some/path".to_string()
        })
    )
}

#[test]
fn reference_wins_over_inline_fields() {
    let value = json(r##"{"$ref":"#/definitions/Pet","type":"object"}"##);
    let decoded = v3::RefOrObject::<v3::Schema>::decode(&value).unwrap();
    assert_eq!(
        decoded,
        v3::RefOrObject::Ref(v3::Reference { reference: "#/definitions/Pet".to_string() })
    );
    assert_eq!(decoded.encode().unwrap(), json(r##"{"$ref":"#/definitions/Pet"}"##));
}

#[test]
fn reference_wins_over_a_full_parameter() {
    let value = json(r#"{"name":"limit","in":"query","$ref":"/p","x-note":1}"#);
    assert_eq!(
        ParameterOrRef::decode(&value),
        Ok(ParameterOrRef::Ref(Reference { reference: "/p".to_string() }))
    );
    assert_eq!(
        v3::RefOrObject::<v3::Parameter>::decode(&value),
        Ok(v3::RefOrObject::Ref(v3::Reference { reference: "/p".to_string() }))
    );
    assert_eq!(
        ResponseOrRef::decode(&json(r#"{"description":"d","$ref":"/r"}"#)),
        Ok(ResponseOrRef::Ref { reference: "/r".to_string() })
    );
}

#[test]
fn pointer_that_is_no_text_is_an_error() {
    let value = json(r#"{"$ref":5,"type":"object"}"#);
    assert_eq!(v3::RefOrObject::<v3::Schema>::decode(&value), Err(CodecError::ShapeMismatch));
    assert_eq!(v3::Schema::decode(&value).map(|schema| schema.type_), Ok(Some("object".to_string())));
    let value = json(r#"{"name":"limit","in":"query","$ref":null}"#);
    assert_eq!(ParameterOrRef::decode(&value), Err(CodecError::ShapeMismatch));
}

#[test]
fn value_without_the_pointer_key_is_inline() {
    let value = json(r#"{"type":"string","ref":"x"}"#);
    match v3::RefOrObject::<v3::Schema>::decode(&value).unwrap() {
        v3::RefOrObject::Object(schema) => assert_eq!(schema.type_, Some("string".to_string())),
        other => panic!("unexpected value: {:?}", other),
    }
    assert_eq!(v3::RefOrObject::<v3::Schema>::decode(&Json::Null), Err(CodecError::ShapeMismatch));
    assert_eq!(v3::RefOrObject::<String>::decode(&json(r#""text""#)), Ok(v3::RefOrObject::Object("text".to_string())));
}

#[test]
fn sniffing_tells_the_three_cases_apart() {
    assert_eq!(POINTER_KEY, "$ref");
    let pointer = json(r#"{"a":1,"$ref":"p"}"#);
    assert!(matches!(sniff(&pointer), Sniff::Pointer(text) if text == "p"));
    assert!(matches!(sniff(&json(r#"{"$ref":[]}"#)), Sniff::Malformed));
    assert!(matches!(sniff(&json(r#"{"ref":"p"}"#)), Sniff::Inline));
    assert!(matches!(sniff(&json(r#"["$ref"]"#)), Sniff::Inline));
    assert_eq!(
        pointer_json(&"p".to_string()),
        Json::Object(vec![Entry { key: "$ref".to_string(), value: Json::String("p".to_string()) }])
    );
}

#[test]
fn standalone_reference_needs_a_text_pointer() {
    assert_eq!(
        v3::Reference::decode(&json(r#"{"$ref":"p","more":1}"#)),
        Ok(v3::Reference { reference: "p".to_string() })
    );
    assert_eq!(v3::Reference::decode(&json(r#"{"more":1}"#)), Err(CodecError::ShapeMismatch));
    assert_eq!(Reference::decode(&json(r#"{"$ref":true}"#)), Err(CodecError::ShapeMismatch));
    assert_eq!(
        Reference { reference: "p".to_string() }.encode(),
        Ok(json(r#"{"$ref":"p"}"#))
    );
}

#[test]
fn inline_value_with_the_pointer_key_comes_back_as_a_reference() {
    let mut parameter = v3::Parameter::decode(&json(r#"{"name":"n","in":"query"}"#)).unwrap();
    parameter
        .extensions
        .entries
        .push(Entry { key: "$ref".to_string(), value: Json::String("p".to_string()) });
    let inline = v3::RefOrObject::Object(parameter);
    let written = inline.encode().unwrap();
    assert_eq!(
        v3::RefOrObject::<v3::Parameter>::decode(&written),
        Ok(v3::RefOrObject::Ref(v3::Reference { reference: "p".to_string() }))
    );
}

#[test]
fn inline_response_is_written_like_a_response() {
    let value = json(r#"{"description":"d","schema":{"type":"string"},"x-k":2}"#);
    let decoded = ResponseOrRef::decode(&value).unwrap();
    match &decoded {
        ResponseOrRef::Response { description, schema, extensions, .. } => {
            assert_eq!(description, "d");
            assert_eq!(schema.as_ref().unwrap().type_, Some("string".to_string()));
            assert_eq!(extensions.get("x-k"), Some(&json("2")));
        }
        other => panic!("unexpected value: {:?}", other),
    }
    assert_eq!(decoded.encode().unwrap(), value);
    assert_eq!(
        ResponseOrRef::Ref { reference: "r".to_string() }.encode().unwrap(),
        json(r#"{"$ref":"r"}"#)
    );
}
