use openapi_schema::v2;
use openapi_schema::v3;
use openapi_schema::{Codec, CodecError, Entry, Json, Table};
use serde_json::Number;

fn json(text: &str) -> Json {
    Json::from_text(text).unwrap()
}

/// The text that a record is written as, with the members of each object in
/// the order of their keys.
fn written<T: Codec>(value: &T) -> String {
    value.encode().unwrap().to_text()
}

#[test]
fn plain_carriers_are_read_and_written() {
    assert_eq!(String::decode(&json(r#""s""#)), Ok("s".to_string()));
    assert_eq!(String::decode(&json("1")), Err(CodecError::ShapeMismatch));
    assert_eq!("s".to_string().encode(), Ok(Json::String("s".to_string())));
    assert_eq!(bool::decode(&json("true")), Ok(true));
    assert_eq!(bool::decode(&json("null")), Err(CodecError::ShapeMismatch));
    assert_eq!(false.encode(), Ok(Json::Bool(false)));
    assert_eq!(Number::decode(&json("-7")), Ok(Number::from(-7i64)));
    assert_eq!(Number::decode(&json(r#""7""#)), Err(CodecError::ShapeMismatch));
    assert_eq!(Number::from(7u64).encode(), Ok(json("7")));
    assert_eq!(Json::decode(&json(r#"{"k":[null]}"#)), Ok(json(r#"{"k":[null]}"#)));
    assert_eq!(<Json as Codec>::encode(&json("[1]")), Ok(json("[1]")));
    assert_eq!(Box::<String>::decode(&json(r#""b""#)), Ok(Box::new("b".to_string())));
    assert_eq!(Box::new(true).encode(), Ok(Json::Bool(true)));
}

#[test]
fn lists_are_read_item_by_item() {
    assert_eq!(
        Vec::<String>::decode(&json(r#"["a","b"]"#)),
        Ok(vec!["a".to_string(), "b".to_string()])
    );
    assert_eq!(Vec::<String>::decode(&json("[]")), Ok(vec![]));
    assert_eq!(Vec::<String>::decode(&json(r#"["a",1]"#)), Err(CodecError::ShapeMismatch));
    assert_eq!(Vec::<String>::decode(&json(r#"{"0":"a"}"#)), Err(CodecError::ShapeMismatch));
    assert_eq!(vec![true, false].encode(), Ok(json("[true,false]")));
}

#[test]
fn tables_keep_keys_and_order() {
    let table = Table::<bool>::decode(&json(r#"{"b":true,"a":false}"#)).unwrap();
    assert_eq!(
        table.entries,
        vec![
            Entry { key: "a".to_string(), value: false },
            Entry { key: "b".to_string(), value: true },
        ]
    );
    assert_eq!(table.len(), 2);
    assert_eq!(table.get("b"), Some(&true));
    assert_eq!(table.get("a"), Some(&false));
    assert_eq!(table.get("c"), None);
    assert_eq!(table.get(""), None);
    assert_eq!(table.encode(), Ok(json(r#"{"a":false,"b":true}"#)));
    assert_eq!(Table::<bool>::decode(&json(r#"{"a":1}"#)), Err(CodecError::ShapeMismatch));
    assert_eq!(Table::<bool>::decode(&json("[]")), Err(CodecError::ShapeMismatch));
    assert_eq!(Table::<bool>::new().len(), 0);
    let unsorted = Table {
        entries: vec![
            Entry { key: "z".to_string(), value: "1".to_string() },
            Entry { key: "a".to_string(), value: "2".to_string() },
        ],
    };
    let written = unsorted.encode().unwrap();
    assert_eq!(unsorted.get("a"), Some(&"2".to_string()));
    assert_eq!(Table::<String>::decode(&written), Ok(unsorted));
    let twice = Table {
        entries: vec![
            Entry { key: "k".to_string(), value: true },
            Entry { key: "k".to_string(), value: false },
        ],
    };
    assert_eq!(twice.get("k"), Some(&true));
}

#[test]
fn enum_texts_follow_their_naming_rule() {
    assert_eq!(v2::Flow::decode(&json(r#""accesscode""#)), Ok(v2::Flow::AccessCode));
    assert_eq!(v2::Flow::decode(&json(r#""accessCode""#)), Err(CodecError::ShapeMismatch));
    assert_eq!(v2::TokenUrl::decode(&json(r#""accessCode""#)), Ok(v2::TokenUrl::AccessCode));
    assert_eq!(v2::TokenUrl::AccessCode.as_str(), "accessCode");
    assert_eq!(v2::Scopes::Application.encode(), Ok(json(r#""application""#)));
    assert_eq!(v2::AuthorizationUrl::decode(&json(r#""implicit""#)), Ok(v2::AuthorizationUrl::Implicit));
    assert_eq!(v2::InEnum::decode(&json(r#""header""#)), Ok(v2::InEnum::Header));
    assert_eq!(v2::InEnum::decode(&json(r#""Header""#)), Err(CodecError::ShapeMismatch));
    assert_eq!(v2::SecuritySchemeType::decode(&json(r#""apiKey""#)), Ok(v2::SecuritySchemeType::ApiKey));
    assert_eq!(v2::ParamInEnum::FormData.encode(), Ok(json(r#""formData""#)));
    assert_eq!(v2::ParameterType::decode(&json(r#""file""#)), Ok(v2::ParameterType::File));
    assert_eq!(v2::ItemsType::decode(&json(r#""file""#)), Err(CodecError::ShapeMismatch));
    assert_eq!(v2::ItemsType::decode(&json("1")), Err(CodecError::ShapeMismatch));
    assert_eq!(v2::TransferProtocol::default(), v2::TransferProtocol::Http);
    assert_eq!(v2::TransferProtocol::Wss.encode(), Ok(json(r#""wss""#)));
    assert_eq!(
        v3::SecuritySchemeType::decode(&json(r#""openIdConnect""#)),
        Ok(v3::SecuritySchemeType::OpenIdConnect)
    );
    assert_eq!(v3::SecuritySchemeType::Oauth2.as_str(), "oauth2");
}

#[test]
fn every_enum_value_is_read_back() {
    for value in [v2::Flow::Implicit, v2::Flow::Password, v2::Flow::Application, v2::Flow::AccessCode] {
        assert_eq!(v2::Flow::decode(&value.encode().unwrap()), Ok(value));
    }
    for value in [
        v2::ParamInEnum::Query,
        v2::ParamInEnum::Header,
        v2::ParamInEnum::Path,
        v2::ParamInEnum::FormData,
        v2::ParamInEnum::Body,
    ] {
        assert_eq!(v2::ParamInEnum::decode(&value.encode().unwrap()), Ok(value));
    }
    for value in [
        v3::SecuritySchemeType::ApiKey,
        v3::SecuritySchemeType::Http,
        v3::SecuritySchemeType::Oauth2,
        v3::SecuritySchemeType::OpenIdConnect,
    ] {
        assert_eq!(v3::SecuritySchemeType::decode(&value.encode().unwrap()), Ok(value));
    }
}

#[test]
fn missing_and_null_fields_read_alike() {
    let with_null = v2::Tag::decode(&json(r#"{"name":"n","description":null}"#)).unwrap();
    let without = v2::Tag::decode(&json(r#"{"name":"n"}"#)).unwrap();
    assert_eq!(with_null, without);
    assert_eq!(without, v2::Tag { name: "n".to_string(), description: None, external_doc: None });
    assert_eq!(without.encode(), Ok(json(r#"{"name":"n"}"#)));
    assert_eq!(v2::Tag::decode(&json(r#"{"name":null}"#)), Err(CodecError::ShapeMismatch));
    assert_eq!(v2::Tag::decode(&json(r#"{}"#)), Err(CodecError::ShapeMismatch));
    assert_eq!(v2::Tag::decode(&json(r#"["name"]"#)), Err(CodecError::ShapeMismatch));
}

#[test]
fn optional_raw_value_that_is_null_comes_back_missing() {
    let mut example = v3::Example::decode(&json(r#"{"summary":"s","value":[null]}"#)).unwrap();
    assert_eq!(example.value, Some(json("[null]")));
    assert_eq!(v3::Example::decode(&example.encode().unwrap()), Ok(example.clone()));
    example.value = Some(Json::Null);
    let written = example.encode().unwrap();
    assert_eq!(written, json(r#"{"summary":"s","value":null}"#));
    assert_eq!(v3::Example::decode(&written).unwrap().value, None);
}

#[test]
fn renamed_keys_are_used() {
    let tag = v2::Tag::decode(&json(r#"{"name":"n","externalDoc":{"url":"u"},"externalDocs":{"url":"w"}}"#)).unwrap();
    assert_eq!(tag.external_doc.unwrap().url, "u");
    let tag = v3::Tag::decode(&json(r#"{"name":"n","externalDocs":{"url":"w"}}"#)).unwrap();
    assert_eq!(tag.external_docs.unwrap().url, "w");
    let text = r#"{"swagger":"2.0","info":{"title":"t"},"paths":{},"SecurityScheme":{},"securityDefinitions":{"k":1}}"#;
    let document = v2::Swagger::decode(&json(text)).unwrap();
    assert_eq!(document.security_definitions.map(|table| table.len()), Some(0));
    assert_eq!(document.extensions.get("securityDefinitions"), Some(&json(r#"{"k":1}"#)));
    let item = v2::PathItem::decode(&json(r##"{"$ref":"#/x"}"##)).unwrap();
    assert_eq!(item.reference, Some("#/x".to_string()));
}

#[test]
fn security_scheme_needs_all_its_required_fields() {
    let text = r#"{"type":"oauth2","name":"n","in":"header","flow":"accesscode","authorizationUrl":"implicit","tokenUrl":"password","scopes":{"read":"r"}}"#;
    let scheme = v2::SecurityScheme::decode(&json(text)).unwrap();
    assert_eq!(scheme.type_, v2::SecuritySchemeType::Oauth2);
    assert_eq!(scheme.in_, v2::InEnum::Header);
    assert_eq!(scheme.flow, v2::Flow::AccessCode);
    assert_eq!(scheme.authorization_url, v2::AuthorizationUrl::Implicit);
    assert_eq!(scheme.token_url, v2::TokenUrl::Password);
    assert_eq!(scheme.scopes.entries[0].value, "r");
    assert_eq!(written(&scheme), json(text).to_text());
    assert_eq!(v2::SecurityScheme::decode(&scheme.encode().unwrap()), Ok(scheme));
    let missing = r#"{"type":"oauth2","name":"n","in":"header","flow":"accesscode","authorizationUrl":"implicit","tokenUrl":"password"}"#;
    assert_eq!(v2::SecurityScheme::decode(&json(missing)), Err(CodecError::ShapeMismatch));
}

#[test]
fn recursive_schema_is_read_and_written() {
    let text = r##"{"allOf":[{"$ref":"#/a"},{"items":{"items":{"type":"integer","maximum":3}}}],"properties":{"p":{"allOf":[]}},"type":"object","x-k":[]}"##;
    let schema = v2::Schema::decode(&json(text)).unwrap();
    let all_of = schema.all_of.as_ref().unwrap();
    assert_eq!(all_of[0].reference, Some("#/a".to_string()));
    let innermost = all_of[1].items.as_ref().unwrap().items.as_ref().unwrap();
    assert_eq!(innermost.type_, Some("integer".to_string()));
    assert_eq!(innermost.maximum, Some(Number::from(3u64)));
    assert_eq!(schema.properties.as_ref().unwrap().entries[0].value.all_of, Some(vec![]));
    assert_eq!(schema.extensions.get("x-k"), Some(&json("[]")));
    let written = schema.encode().unwrap();
    assert_eq!(v2::Schema::decode(&written), Ok(schema.clone()));
    assert_eq!(schema.clone(), schema);
    assert_eq!(
        v2::Schema::decode(&json(r#"{"items":{"items":{"type":1}}}"#)),
        Err(CodecError::ShapeMismatch)
    );
    assert_eq!(v2::Schema::decode(&json(r#"{"allOf":{}}"#)), Err(CodecError::ShapeMismatch));
    assert_eq!(v2::Schema::default().encode(), Ok(json("{}")));
}

#[test]
fn collision_inside_a_recursive_schema_is_found() {
    let mut schema = v2::Schema::decode(&json(r#"{"items":{"type":"string"}}"#)).unwrap();
    let inner = schema.items.as_mut().unwrap();
    inner.extensions.entries.push(Entry { key: "allOf".to_string(), value: Json::Null });
    assert_eq!(schema.encode(), Err(CodecError::ExtensionCollision));
}

#[test]
fn newer_schema_nests_references_and_schemas() {
    let text = r##"{"anyOf":[{"$ref":"#/a"},{"not":{"type":"null"}}],"items":{"$ref":"#/i"},"nullable":true,"oneOf":[],"properties":{"p":{"$ref":"#/p"}},"xml":{"attribute":true}}"##;
    let schema = v3::Schema::decode(&json(text)).unwrap();
    assert_eq!(schema.nullable, Some(true));
    assert_eq!(schema.one_of, Some(vec![]));
    assert_eq!(schema.xml.as_ref().unwrap().attribute, Some(true));
    let any_of = schema.any_of.as_ref().unwrap();
    assert_eq!(*any_of[0], v3::RefOrObject::Ref(v3::Reference { reference: "#/a".to_string() }));
    match &*any_of[1] {
        v3::RefOrObject::Object(inner) => match inner.not.as_deref() {
            Some(v3::RefOrObject::Object(not)) => assert_eq!(not.type_, Some("null".to_string())),
            other => panic!("unexpected value: {:?}", other),
        },
        other => panic!("unexpected value: {:?}", other),
    }
    assert_eq!(written(&schema), text);
    assert_eq!(v3::Schema::decode(&schema.encode().unwrap()), Ok(schema.clone()));
    assert_eq!(schema.clone(), schema);
    assert_eq!(
        v3::Schema::decode(&json(r#"{"anyOf":[{"$ref":1}]}"#)),
        Err(CodecError::ShapeMismatch)
    );
}

#[test]
fn headers_media_and_encodings_nest() {
    let text = r##"{"content":{"application/json":{"encoding":{"p":{"headers":{"X-A":{"description":"d","x-e":1},"X-B":{"$ref":"#/h"}}}}}},"required":true}"##;
    let header = v3::Header::decode(&json(text)).unwrap();
    assert_eq!(header.required, Some(true));
    let media = &header.content.as_ref().unwrap().entries[0].value;
    let encoding = &media.encoding.as_ref().unwrap().entries[0].value;
    let headers = &encoding.headers.as_ref().unwrap().entries;
    match &headers[0].value {
        v3::RefOrObject::Object(inner) => {
            assert_eq!(inner.description, Some("d".to_string()));
            assert_eq!(inner.extensions.get("x-e"), Some(&json("1")));
        }
        other => panic!("unexpected value: {:?}", other),
    }
    assert_eq!(headers[1].value, v3::RefOrObject::Ref(v3::Reference { reference: "#/h".to_string() }));
    assert_eq!(written(&header), text);
    assert_eq!(v3::Header::decode(&header.encode().unwrap()), Ok(header.clone()));
    assert_eq!(header.clone(), header);
    assert_eq!(v3::Header::default().encode(), Ok(json("{}")));
    assert_eq!(
        v3::Header::decode(&json(r#"{"content":{"a":{"encoding":{"p":{"headers":{"X":{"required":1}}}}}}}"#)),
        Err(CodecError::ShapeMismatch)
    );
}

#[test]
fn older_responses_and_requirements_are_tables() {
    let responses = v2::Responses::decode(&json(r#"{"200":{"description":"ok"},"404":{"$ref":"r"}}"#)).unwrap();
    assert_eq!(responses.0.len(), 2);
    assert_eq!(responses.encode(), Ok(json(r#"{"200":{"description":"ok"},"404":{"$ref":"r"}}"#)));
    let requirement = v2::SecurityRequirementObject::decode(&json(r#"{"key":["a","b"]}"#)).unwrap();
    assert_eq!(requirement.0.entries[0].value, vec!["a".to_string(), "b".to_string()]);
    assert_eq!(requirement.encode(), Ok(json(r#"{"key":["a","b"]}"#)));
    assert_eq!(
        v2::SecurityRequirementObject::decode(&json(r#"{"key":"a"}"#)),
        Err(CodecError::ShapeMismatch)
    );
}

#[test]
fn older_items_and_header_share_their_limits() {
    let text = r#"{"enum":[1,"a"],"items":{"exclusiveMaximum":true,"type":"number"},"maxLength":"any","type":"array","uniqueItems":false}"#;
    let header = v2::Header::decode(&json(text)).unwrap();
    assert_eq!(header.type_, v2::ItemsType::Array);
    assert_eq!(header.max_length, Some(Json::String("any".to_string())));
    assert_eq!(header.enum_, Some(vec![json("1"), json(r#""a""#)]));
    let items = header.items.as_ref().unwrap();
    assert_eq!(items.type_, v2::ItemsType::Number);
    assert_eq!(items.exclusive_maximum, Some(true));
    assert_eq!(written(&header), text);
    assert_eq!(v2::Header::decode(&header.encode().unwrap()), Ok(header.clone()));
    assert_eq!(v2::Items::decode(&json(r#"{"maxLength":"any","type":"array"}"#)), Err(CodecError::ShapeMismatch));
    assert_eq!(items.clone(), *items);
}
