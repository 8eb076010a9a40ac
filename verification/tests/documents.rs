use openapi_schema::v2;
use openapi_schema::v3;
use openapi_schema::{
    from_reader, from_str, openapi_from_reader, swagger_from_reader, to_string, Codec, CodecError,
    Doc, Entry, Json,
};

const V2_MINIMAL: &str = r#"{"swagger":"2.0","info":{"title":"t"},"paths":{}}"#;
const V3_MINIMAL: &str = r#"{"openapi":"3.0.0","info":{"title":"t"},"paths":{}}"#;

#[test]
fn minimal_older_document_is_read_as_v2() {
    match from_str(V2_MINIMAL) {
        Ok(Doc::V2(document)) => {
            assert_eq!(document.swagger, "2.0");
            assert_eq!(document.info.title, "t");
            assert_eq!(document.paths.len(), 0);
            assert_eq!(document.host, None);
            assert_eq!(document.extensions.len(), 0);
        }
        other => panic!("unexpected outcome: {:?}", other),
    }
}

#[test]
fn minimal_newer_document_is_read_as_v3() {
    match from_str(V3_MINIMAL) {
        Ok(Doc::V3(document)) => {
            assert_eq!(document.openapi, "3.0.0");
            assert_eq!(document.info.title, "t");
            assert_eq!(document.paths.len(), 0);
            assert_eq!(document.components, None);
        }
        other => panic!("unexpected outcome: {:?}", other),
    }
}

#[test]
fn document_with_both_shapes_is_read_as_v2() {
    let text = r#"{"swagger":"2.0","openapi":"3.0.0","info":{"title":"t"},"paths":{}}"#;
    match from_str(text) {
        Ok(Doc::V2(document)) => {
            assert_eq!(document.swagger, "2.0");
            assert_eq!(
                document.extensions.get("openapi"),
                Some(&Json::String("3.0.0".to_string()))
            );
        }
        other => panic!("unexpected outcome: {:?}", other),
    }
}

#[test]
fn empty_text_matches_no_variant() {
    assert_eq!(from_str(""), Err(CodecError::NoVariantMatched));
    assert_eq!(from_reader(b""), Err(CodecError::NoVariantMatched));
}

#[test]
fn empty_object_matches_no_variant() {
    assert_eq!(from_str("{}"), Err(CodecError::NoVariantMatched));
    assert_eq!(from_reader(b"{}"), Err(CodecError::NoVariantMatched));
}

#[test]
fn value_that_is_no_object_matches_no_variant() {
    assert_eq!(from_str("[1, 2]"), Err(CodecError::NoVariantMatched));
    assert_eq!(from_str("null"), Err(CodecError::NoVariantMatched));
}

#[test]
fn broken_text_is_malformed_input() {
    assert_eq!(from_str("{"), Err(CodecError::MalformedInput));
    assert_eq!(from_str("   "), Err(CodecError::MalformedInput));
    assert_eq!(from_str(r#"{"swagger":"2.0"} trailing"#), Err(CodecError::MalformedInput));
    assert_eq!(from_reader(b"{\"swagger\":"), Err(CodecError::MalformedInput));
    assert_eq!(swagger_from_reader(b""), Err(CodecError::MalformedInput));
    assert_eq!(openapi_from_reader(b"nul"), Err(CodecError::MalformedInput));
}

#[test]
fn missing_required_field_is_a_shape_mismatch() {
    let text = br#"{"swagger":"2.0","paths":{}}"#;
    assert_eq!(swagger_from_reader(text), Err(CodecError::ShapeMismatch));
    assert_eq!(from_reader(text), Err(CodecError::NoVariantMatched));
}

#[test]
fn field_of_wrong_type_is_a_shape_mismatch() {
    let text = br#"{"swagger":2,"info":{"title":"t"},"paths":{}}"#;
    assert_eq!(swagger_from_reader(text), Err(CodecError::ShapeMismatch));
    let text = br#"{"openapi":"3.0.0","info":{"title":"t"},"paths":[]}"#;
    assert_eq!(openapi_from_reader(text), Err(CodecError::ShapeMismatch));
}

#[test]
fn direct_entry_points_do_not_fall_back() {
    assert_eq!(swagger_from_reader(V3_MINIMAL.as_bytes()), Err(CodecError::ShapeMismatch));
    assert_eq!(openapi_from_reader(V2_MINIMAL.as_bytes()), Err(CodecError::ShapeMismatch));
    let older = swagger_from_reader(V2_MINIMAL.as_bytes()).unwrap();
    assert_eq!(older.swagger, "2.0");
    let newer = openapi_from_reader(V3_MINIMAL.as_bytes()).unwrap();
    assert_eq!(newer.openapi, "3.0.0");
}

#[test]
fn swagger_version_is_read() {
    let text = r##"{
        "swagger": "2.0",
        "info": {"title": "Pets", "version": "1.0.0", "x-audience": "public"},
        "host": "pets.example",
        "basePath": "/v1",
        "schemas": ["https", "wss"],
        "paths": {
            "/pets": {
                "get": {
                    "operationId": "listPets",
                    "parameters": [
                        {"name": "limit", "in": "query", "type": "integer", "maximum": 100},
                        {"$ref": "#/parameters/page"}
                    ],
                    "responses": {
                        "200": {"description": "ok", "schema": {"type": "array", "items": {"$ref": "#/definitions/Pet"}}},
                        "default": {"$ref": "#/responses/Failure"}
                    }
                }
            }
        },
        "definitions": {
            "Pet": {"type": "object", "required": ["name"], "properties": {"name": {"type": "string"}}}
        }
    }"##;
    let document = swagger_from_reader(text.as_bytes()).unwrap();
    assert_eq!("2.0", document.swagger);
    assert_eq!(document.host, Some("pets.example".to_string()));
    assert_eq!(document.base_path, Some("/v1".to_string()));
    assert_eq!(
        document.schemas,
        Some(vec![v2::TransferProtocol::Https, v2::TransferProtocol::Wss])
    );
    assert_eq!(document.info.extensions.get("x-audience"), Some(&Json::String("public".to_string())));
    let path = &document.paths.entries[0];
    assert_eq!(path.key, "/pets");
    let get = path.value.get.as_ref().unwrap();
    assert_eq!(get.operation_id, Some("listPets".to_string()));
    let parameters = get.parameters.as_ref().unwrap();
    match &parameters[0] {
        v2::ParameterOrRef::Parameter(parameter) => {
            assert_eq!(parameter.name, "limit");
            assert_eq!(parameter.in_, v2::ParamInEnum::Query);
            assert_eq!(parameter.type_, Some(v2::ParameterType::Integer));
            assert_eq!(parameter.maximum, Some(serde_json::Number::from(100u64)));
        }
        other => panic!("unexpected parameter: {:?}", other),
    }
    assert_eq!(
        parameters[1],
        v2::ParameterOrRef::Ref(v2::Reference { reference: "#/parameters/page".to_string() })
    );
    let responses = &get.responses.0.entries;
    assert_eq!(responses[0].key, "200");
    match &responses[0].value {
        v2::ResponseOrRef::Response { description, schema, .. } => {
            assert_eq!(description, "ok");
            let schema = schema.as_ref().unwrap();
            assert_eq!(schema.type_, Some("array".to_string()));
            let items = schema.items.as_ref().unwrap();
            assert_eq!(items.reference, Some("#/definitions/Pet".to_string()));
        }
        other => panic!("unexpected response: {:?}", other),
    }
    assert_eq!(
        responses[1].value,
        v2::ResponseOrRef::Ref { reference: "#/responses/Failure".to_string() }
    );
    let definitions = document.definitions.as_ref().unwrap();
    let pet = &definitions.entries[0].value;
    assert_eq!(pet.required, Some(vec!["name".to_string()]));
    let properties = pet.properties.as_ref().unwrap();
    assert_eq!(properties.entries[0].key, "name");
    assert_eq!(properties.entries[0].value.type_, Some("string".to_string()));
}

#[test]
fn newer_document_is_read_in_depth() {
    let text = r##"{
        "openapi": "3.0.0",
        "info": {"title": "Pets"},
        "servers": [{"url": "https://pets.example", "variables": {"region": {"default": "443"}}}],
        "paths": {
            "/pets": {
                "post": {
                    "requestBody": {"content": {"application/json": {"schema": {"$ref": "#/components/schemas/Pet"}}}},
                    "responses": {"201": {"description": "made"}},
                    "callbacks": {"done": {"{$request.body#/url}": {"post": {"responses": {"200": {"description": "ok"}}}}}}
                }
            }
        },
        "components": {
            "schemas": {
                "Pet": {"type": "object", "properties": {"tags": {"type": "array", "items": {"type": "string"}}}},
                "Other": {"$ref": "#/components/schemas/Pet"}
            },
            "securitySchemes": {"key": {"$ref": "elsewhere.json#/key"}},
            "x-internal": true
        },
        "ignored": 1
    }"##;
    let document = match from_str(text) {
        Ok(Doc::V3(document)) => document,
        other => panic!("unexpected outcome: {:?}", other),
    };
    let server = &document.servers.as_ref().unwrap()[0];
    assert_eq!(server.url, "https://pets.example");
    assert_eq!(server.variables.as_ref().unwrap().entries[0].value.default, "443");
    let post = document.paths.entries[0].value.post.as_ref().unwrap();
    match post.request_body.as_ref().unwrap() {
        v3::RefOrObject::Object(body) => match &body.content.entries[0].value.schema {
            Some(v3::RefOrObject::Ref(reference)) => {
                assert_eq!(reference.reference, "#/components/schemas/Pet")
            }
            other => panic!("unexpected schema: {:?}", other),
        },
        other => panic!("unexpected body: {:?}", other),
    }
    let callbacks = post.callbacks.as_ref().unwrap();
    assert_eq!(callbacks.entries[0].key, "done");
    match &callbacks.entries[0].value {
        v3::RefOrObject::Object(callback) => {
            assert_eq!(callback.entries[0].key, "{$request.body#/url}");
            assert!(callback.entries[0].value.post.is_some());
        }
        other => panic!("unexpected callback: {:?}", other),
    }
    let components = document.components.as_ref().unwrap();
    assert_eq!(components.extensions.get("x-internal"), Some(&Json::Bool(true)));
    let schemas = components.schemas.as_ref().unwrap();
    assert_eq!(schemas.entries[0].key, "Other");
    assert_eq!(
        schemas.entries[0].value,
        v3::RefOrObject::Ref(v3::Reference { reference: "#/components/schemas/Pet".to_string() })
    );
    match &schemas.entries[1].value {
        v3::RefOrObject::Object(pet) => {
            let tags = &pet.properties.as_ref().unwrap().entries[0];
            assert_eq!(tags.key, "tags");
            match &tags.value {
                v3::RefOrObject::Object(schema) => match schema.items.as_deref() {
                    Some(v3::RefOrObject::Object(items)) => {
                        assert_eq!(items.type_, Some("string".to_string()))
                    }
                    other => panic!("unexpected items: {:?}", other),
                },
                other => panic!("unexpected schema: {:?}", other),
            }
        }
        other => panic!("unexpected schema: {:?}", other),
    }
}

#[test]
fn written_document_is_read_back_unchanged() {
    for text in [V2_MINIMAL, V3_MINIMAL] {
        let document = from_str(text).unwrap();
        let written = to_string(&document).unwrap();
        assert_eq!(from_str(&written), Ok(document));
    }
    let text = r#"{"swagger":"2.0","info":{"title":"t","x-b":[1,null],"x-a":{"k":"v"}},"paths":{"/p":{"get":{"responses":{"200":{"description":"d"}},"x-op":1}}},"x-root":"r"}"#;
    let document = from_str(text).unwrap();
    let written = to_string(&document).unwrap();
    assert_eq!(from_str(&written), Ok(document.clone()));
    let json = document.encode().unwrap();
    assert_eq!(Doc::decode(&json), Ok(document));
}

#[test]
fn written_document_has_the_fields_first_and_the_bag_after() {
    let text = r#"{"x-root":"r","paths":{},"info":{"title":"t"},"swagger":"2.0"}"#;
    let document = from_str(text).unwrap();
    match document.encode().unwrap() {
        Json::Object(members) => {
            let keys: Vec<&str> = members.iter().map(|member| member.key.as_str()).collect();
            assert_eq!(keys, vec!["swagger", "info", "paths", "x-root"]);
        }
        other => panic!("unexpected value: {:?}", other),
    }
    assert_eq!(
        to_string(&document).unwrap(),
        r#"{"info":{"title":"t"},"paths":{},"swagger":"2.0","x-root":"r"}"#
    );
}

#[test]
fn document_decode_takes_a_json_value() {
    let json = Json::Object(vec![
        Entry { key: "openapi".to_string(), value: Json::String("3.1.0".to_string()) },
        Entry {
            key: "info".to_string(),
            value: Json::Object(vec![Entry {
                key: "title".to_string(),
                value: Json::String("t".to_string()),
            }]),
        },
        Entry { key: "paths".to_string(), value: Json::Object(vec![]) },
    ]);
    match Doc::decode(&json) {
        Ok(Doc::V3(document)) => assert_eq!(document.openapi, "3.1.0"),
        other => panic!("unexpected outcome: {:?}", other),
    }
    assert_eq!(Doc::decode(&Json::Null), Err(CodecError::NoVariantMatched));
    assert_eq!(v3::OpenApi::decode(&Json::Null), Err(CodecError::ShapeMismatch));
}

#[test]
fn colliding_extension_stops_the_writing_of_a_document() {
    let mut document = match from_str(V2_MINIMAL).unwrap() {
        Doc::V2(document) => document,
        other => panic!("unexpected document: {:?}", other),
    };
    document
        .info
        .extensions
        .entries
        .push(Entry { key: "description".to_string(), value: Json::Null });
    let document = Doc::V2(document);
    assert_eq!(document.encode(), Err(CodecError::ExtensionCollision));
    assert_eq!(to_string(&document), Err(CodecError::ExtensionCollision));
}
