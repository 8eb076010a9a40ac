use openapi_schema::extension::is_named;
use openapi_schema::v2;
use openapi_schema::v3;
use openapi_schema::{Codec, CodecError, Entry, Extensions, Json, ObjectReader, ObjectWriter};

fn json(text: &str) -> Json {
    Json::from_text(text).unwrap()
}

fn entry(key: &str, value: Json) -> Entry<Json> {
    Entry { key: key.to_string(), value }
}

fn members(value: &Json) -> &Vec<Entry<Json>> {
    match value {
        Json::Object(members) => members,
        other => panic!("no object: {:?}", other),
    }
}

#[test]
fn unknown_keys_land_in_the_bag_verbatim() {
    let value = json(r#"{"title":"t","x-list":[1,{"k":null}],"plain":"no prefix","x-null":null}"#);
    let info = v2::Info::decode(&value).unwrap();
    assert_eq!(info.title, "t");
    assert_eq!(
        info.extensions.entries,
        vec![
            entry("plain", Json::String("no prefix".to_string())),
            entry("x-list", json(r#"[1,{"k":null}]"#)),
            entry("x-null", Json::Null),
        ]
    );
}

#[test]
fn named_keys_never_land_in_the_bag() {
    let value = json(r#"{"name":"n","url":null,"email":"e","x-a":1}"#);
    let contact = v3::Contact::decode(&value).unwrap();
    assert_eq!(contact.name, Some("n".to_string()));
    assert_eq!(contact.url, None);
    assert_eq!(contact.email, Some("e".to_string()));
    assert_eq!(contact.extensions.entries, vec![entry("x-a", json("1"))]);
}

#[test]
fn bag_is_written_at_the_same_level() {
    let value = json(r#"{"name":"MIT","x-b":2,"x-a":{"deep":true}}"#);
    let license = v2::License::decode(&value).unwrap();
    let written = license.encode().unwrap();
    assert_eq!(
        members(&written),
        &vec![
            entry("name", Json::String("MIT".to_string())),
            entry("x-a", json(r#"{"deep":true}"#)),
            entry("x-b", json("2")),
        ]
    );
    assert_eq!(v2::License::decode(&written), Ok(license));
}

#[test]
fn record_without_a_bag_drops_unknown_keys() {
    let value = json(r#"{"url":"u","x-a":1,"other":2}"#);
    let doc = v2::ExternalDoc::decode(&value).unwrap();
    assert_eq!(doc, v2::ExternalDoc { description: None, url: "u".to_string() });
    assert_eq!(doc.encode().unwrap(), json(r#"{"url":"u"}"#));
}

#[test]
fn extension_key_of_a_named_field_is_a_collision() {
    let mut license = v2::License::decode(&json(r#"{"name":"MIT"}"#)).unwrap();
    license.extensions.entries.push(entry("url", Json::String("u".to_string())));
    assert_eq!(license.encode(), Err(CodecError::ExtensionCollision));
    license.extensions.entries.clear();
    license.extensions.entries.push(entry("name", Json::Null));
    assert_eq!(license.encode(), Err(CodecError::ExtensionCollision));
    license.extensions.entries.clear();
    license.extensions.entries.push(entry("Name", Json::Null));
    assert_eq!(
        license.encode().unwrap(),
        Json::Object(vec![entry("name", Json::String("MIT".to_string())), entry("Name", Json::Null)])
    );
}

#[test]
fn collision_deep_inside_is_found() {
    let text = r#"{"swagger":"2.0","info":{"title":"t","contact":{"name":"n"}},"paths":{}}"#;
    let mut document = v2::Swagger::decode(&json(text)).unwrap();
    assert!(document.encode().is_ok());
    let contact = document.info.contact.as_mut().unwrap();
    contact.extensions.entries.push(entry("email", Json::Null));
    assert_eq!(document.encode(), Err(CodecError::ExtensionCollision));
}

#[test]
fn capture_keeps_what_no_name_claims() {
    let value = json(r#"{"a":1,"b":2,"c":3,"d":4}"#);
    let names = vec!["b", "d", "zz"];
    let bag = Extensions::capture(members(&value), &names);
    assert_eq!(bag.entries, vec![entry("a", json("1")), entry("c", json("3"))]);
    assert_eq!(bag.len(), 2);
    assert_eq!(bag.get("c"), Some(&json("3")));
    assert_eq!(bag.get("b"), None);
    assert!(is_named(&names, "d"));
    assert!(!is_named(&names, "a"));
    assert!(!is_named(&names, ""));
    let all = Extensions::capture(members(&value), &vec![]);
    assert_eq!(&all.entries, members(&value));
    assert_eq!(Extensions::new().len(), 0);
    assert_eq!(Extensions::default(), Extensions::new());
    assert_eq!(bag.clone(), bag);
    assert_eq!(bag.duplicate(), bag);
}

#[test]
fn reader_hands_out_fields_and_keeps_the_rest() {
    let value = json(r#"{"a":1,"b":2,"c":3}"#);
    let mut reader = ObjectReader::new(members(&value));
    assert_eq!(reader.field("b"), Some(&json("2")));
    assert_eq!(reader.field("missing"), None);
    assert_eq!(reader.field("b"), Some(&json("2")));
    let rest = reader.rest();
    assert_eq!(rest.entries, vec![entry("a", json("1")), entry("c", json("3"))]);
}

#[test]
fn reader_takes_the_first_of_two_equal_keys() {
    let twice = vec![entry("k", json("1")), entry("k", json("2")), entry("x", Json::Null)];
    let mut reader = ObjectReader::new(&twice);
    assert_eq!(reader.field("k"), Some(&json("1")));
    assert_eq!(reader.rest().entries, vec![entry("x", Json::Null)]);
}

#[test]
fn writer_puts_fields_in_order_and_skips_the_missing() {
    let writer = ObjectWriter::new();
    let writer = writer.put("b", Some(json("2")));
    let writer = writer.put("skipped", None);
    let writer = writer.put("a", Some(Json::Null));
    assert_eq!(
        writer.finish(),
        Json::Object(vec![entry("b", json("2")), entry("a", Json::Null)])
    );
}

#[test]
fn writer_appends_the_bag_and_reports_collisions() {
    let bag = Extensions { entries: vec![entry("x-1", json("1")), entry("x-0", json("0"))] };
    let writer = ObjectWriter::new().put("a", Some(json("true"))).put("b", None);
    assert_eq!(
        writer.finish_with(&bag),
        Ok(Json::Object(vec![
            entry("a", json("true")),
            entry("x-1", json("1")),
            entry("x-0", json("0")),
        ]))
    );
    let colliding = Extensions { entries: vec![entry("x-1", json("1")), entry("b", json("0"))] };
    let writer = ObjectWriter::new().put("a", Some(json("true"))).put("b", None);
    assert_eq!(writer.finish_with(&colliding), Err(CodecError::ExtensionCollision));
    assert_eq!(ObjectWriter::new().finish_with(&colliding).map(|_| ()), Ok(()));
}
