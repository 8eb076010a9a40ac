//! Reading and writing the types of the older format that contain values of
//! their own type, and the lists, tables and references of such values.
//!
//! The functions of such a type call each other in a circle, so they are
//! written here as functions of their own, each with the measure by which it
//! ends; the `Codec` of the type hands on to them.

use vstd::prelude::*;
use serde_json::Number;
use crate::codec::{
    Codec, decode_optional, decode_required, duplicate_optional, encode_optional,
    encode_required, lemma_optional_read_is_valid, lemma_optional_round_trip,
    lemma_required_read_is_valid, lemma_required_round_trip, option_json_model, option_model,
    optional_decoded, optional_encodable, optional_encoded, optional_fits, optional_valid,
    present, present_json, required_decoded, required_encodable, required_encoded,
    required_fits, required_valid, Table,
};
use crate::error::CodecError;
use crate::extension::{
    assembled, collides, Extensions, lemma_assembled_lookup, lemma_assembled_lookup_other,
    lemma_assembled_remainder, lemma_remainder_lookup, lemma_remainder_unnamed, ObjectReader,
    ObjectWriter, remainder,
};
use crate::json::{
    Entry, EntryModel, items_model, Json, JsonModel, lemma_lookup_same_keys, lookup,
    members_model,
};
use crate::resolver::{
    POINTER_KEY, sniffed,
};
use crate::v2::schema::{
    Items, ItemsModel, ItemsType, Schema, SchemaModel,
};

verus! {

impl Schema {
    /// The keys of the named fields, in the order in which they are written.
    pub open spec fn names() -> Seq<Seq<char>> {
        Seq::empty()
            .push("$ref"@)
            .push("title"@)
            .push("description"@)
            .push("type"@)
            .push("format"@)
            .push("enum"@)
            .push("required"@)
            .push("default"@)
            .push("maximum"@)
            .push("exclusiveMaximum"@)
            .push("minimum"@)
            .push("exclusiveMinimum"@)
            .push("maxLength"@)
            .push("minLength"@)
            .push("pattern"@)
            .push("maxItems"@)
            .push("minItems"@)
            .push("uniqueItems"@)
            .push("multipleOf"@)
            .push("items"@)
            .push("properties"@)
            .push("allOf"@)
    }

    /// What each named field is written as, in the order of the names.
    pub open spec fn slots(value: SchemaModel) -> Seq<Option<JsonModel>>
        decreases value, 0nat,
    {
        Seq::empty()
            .push(optional_encoded::<String>(value.reference))
            .push(optional_encoded::<String>(value.title))
            .push(optional_encoded::<String>(value.description))
            .push(optional_encoded::<String>(value.type_))
            .push(optional_encoded::<String>(value.format))
            .push(optional_encoded::<Vec<String>>(value.enum_))
            .push(optional_encoded::<Vec<String>>(value.required))
            .push(optional_encoded::<Json>(value.default))
            .push(optional_encoded::<Number>(value.maximum))
            .push(optional_encoded::<bool>(value.exclusive_maximum))
            .push(optional_encoded::<Number>(value.minimum))
            .push(optional_encoded::<bool>(value.exclusive_minimum))
            .push(optional_encoded::<Number>(value.max_length))
            .push(optional_encoded::<Number>(value.min_length))
            .push(optional_encoded::<String>(value.pattern))
            .push(optional_encoded::<Number>(value.max_items))
            .push(optional_encoded::<Number>(value.min_items))
            .push(optional_encoded::<bool>(value.unique_items))
            .push(optional_encoded::<Number>(value.multiple_of))
            .push(schema_box_slot_encoded(value.items))
            .push(schema_table_slot_encoded(value.properties))
            .push(schema_list_slot_encoded(value.all_of))
    }

    /// No key is named twice.
    pub proof fn lemma_names_distinct()
        ensures
            Self::names().no_duplicates(),
    {
        reveal_strlit("$ref");
        reveal_strlit("title");
        reveal_strlit("description");
        reveal_strlit("type");
        reveal_strlit("format");
        reveal_strlit("enum");
        reveal_strlit("required");
        reveal_strlit("default");
        reveal_strlit("maximum");
        reveal_strlit("exclusiveMaximum");
        reveal_strlit("minimum");
        reveal_strlit("exclusiveMinimum");
        reveal_strlit("maxLength");
        reveal_strlit("minLength");
        reveal_strlit("pattern");
        reveal_strlit("maxItems");
        reveal_strlit("minItems");
        reveal_strlit("uniqueItems");
        reveal_strlit("multipleOf");
        reveal_strlit("items");
        reveal_strlit("properties");
        reveal_strlit("allOf");
        assert("$ref"@.len() == 4 && "$ref"@[0] == '$');
        assert("title"@.len() == 5 && "title"@[0] == 't');
        assert("description"@.len() == 11 && "description"@[0] == 'd');
        assert("type"@.len() == 4 && "type"@[0] == 't');
        assert("format"@.len() == 6);
        assert("enum"@.len() == 4 && "enum"@[0] == 'e');
        assert("required"@.len() == 8 && "required"@[0] == 'r');
        assert("default"@.len() == 7 && "default"@[0] == 'd');
        assert("maximum"@.len() == 7 && "maximum"@[0] == 'm' && "maximum"@[1] == 'a');
        assert("exclusiveMaximum"@.len() == 16 && "exclusiveMaximum"@[10] == 'a');
        assert("minimum"@.len() == 7 && "minimum"@[0] == 'm' && "minimum"@[1] == 'i');
        assert("exclusiveMinimum"@.len() == 16 && "exclusiveMinimum"@[10] == 'i');
        assert("maxLength"@.len() == 9 && "maxLength"@[1] == 'a');
        assert("minLength"@.len() == 9 && "minLength"@[1] == 'i');
        assert("pattern"@.len() == 7 && "pattern"@[0] == 'p');
        assert("maxItems"@.len() == 8 && "maxItems"@[0] == 'm' && "maxItems"@[1] == 'a');
        assert("minItems"@.len() == 8 && "minItems"@[0] == 'm' && "minItems"@[1] == 'i');
        assert("uniqueItems"@.len() == 11 && "uniqueItems"@[0] == 'u');
        assert("multipleOf"@.len() == 10 && "multipleOf"@[0] == 'm');
        assert("items"@.len() == 5 && "items"@[0] == 'i');
        assert("properties"@.len() == 10 && "properties"@[0] == 'p');
        assert("allOf"@.len() == 5 && "allOf"@[0] == 'a');
    }

    /// The mathematical value.
    pub open spec fn tree_model(&self) -> SchemaModel
        decreases self, 0nat,
    {
        SchemaModel {
            reference: option_model(self.reference),
            title: option_model(self.title),
            description: option_model(self.description),
            type_: option_model(self.type_),
            format: option_model(self.format),
            enum_: option_model(self.enum_),
            required: option_model(self.required),
            default: option_model(self.default),
            maximum: option_model(self.maximum),
            exclusive_maximum: option_model(self.exclusive_maximum),
            minimum: option_model(self.minimum),
            exclusive_minimum: option_model(self.exclusive_minimum),
            max_length: option_model(self.max_length),
            min_length: option_model(self.min_length),
            pattern: option_model(self.pattern),
            max_items: option_model(self.max_items),
            min_items: option_model(self.min_items),
            unique_items: option_model(self.unique_items),
            multiple_of: option_model(self.multiple_of),
            items: schema_box_slot_model(self.items),
            properties: schema_table_slot_model(self.properties),
            all_of: schema_list_slot_model(self.all_of),
            extensions: self.extensions.model(),
        }
    }

    /// Whether a JSON value has the shape of the type.
    pub open spec fn tree_fits(json: JsonModel) -> bool
        decreases json, 0nat,
    {
        &&& json is Object
        &&& optional_fits::<String>(lookup(json->Object_0, "$ref"@))
        &&& optional_fits::<String>(lookup(json->Object_0, "title"@))
        &&& optional_fits::<String>(lookup(json->Object_0, "description"@))
        &&& optional_fits::<String>(lookup(json->Object_0, "type"@))
        &&& optional_fits::<String>(lookup(json->Object_0, "format"@))
        &&& optional_fits::<Vec<String>>(lookup(json->Object_0, "enum"@))
        &&& optional_fits::<Vec<String>>(lookup(json->Object_0, "required"@))
        &&& optional_fits::<Json>(lookup(json->Object_0, "default"@))
        &&& optional_fits::<Number>(lookup(json->Object_0, "maximum"@))
        &&& optional_fits::<bool>(lookup(json->Object_0, "exclusiveMaximum"@))
        &&& optional_fits::<Number>(lookup(json->Object_0, "minimum"@))
        &&& optional_fits::<bool>(lookup(json->Object_0, "exclusiveMinimum"@))
        &&& optional_fits::<Number>(lookup(json->Object_0, "maxLength"@))
        &&& optional_fits::<Number>(lookup(json->Object_0, "minLength"@))
        &&& optional_fits::<String>(lookup(json->Object_0, "pattern"@))
        &&& optional_fits::<Number>(lookup(json->Object_0, "maxItems"@))
        &&& optional_fits::<Number>(lookup(json->Object_0, "minItems"@))
        &&& optional_fits::<bool>(lookup(json->Object_0, "uniqueItems"@))
        &&& optional_fits::<Number>(lookup(json->Object_0, "multipleOf"@))
        &&& schema_box_field_fits(json->Object_0, "items"@)
        &&& schema_table_field_fits(json->Object_0, "properties"@)
        &&& schema_list_field_fits(json->Object_0, "allOf"@)
    }

    /// What a JSON value of the right shape holds.
    pub open spec fn tree_decoded(json: JsonModel) -> SchemaModel
        decreases json, 0nat,
    {
        if json is Object {
            SchemaModel {
                reference: optional_decoded::<String>(lookup(json->Object_0, "$ref"@)),
                title: optional_decoded::<String>(lookup(json->Object_0, "title"@)),
                description: optional_decoded::<String>(lookup(json->Object_0, "description"@)),
                type_: optional_decoded::<String>(lookup(json->Object_0, "type"@)),
                format: optional_decoded::<String>(lookup(json->Object_0, "format"@)),
                enum_: optional_decoded::<Vec<String>>(lookup(json->Object_0, "enum"@)),
                required: optional_decoded::<Vec<String>>(lookup(json->Object_0, "required"@)),
                default: optional_decoded::<Json>(lookup(json->Object_0, "default"@)),
                maximum: optional_decoded::<Number>(lookup(json->Object_0, "maximum"@)),
                exclusive_maximum: optional_decoded::<bool>(lookup(json->Object_0, "exclusiveMaximum"@)),
                minimum: optional_decoded::<Number>(lookup(json->Object_0, "minimum"@)),
                exclusive_minimum: optional_decoded::<bool>(lookup(json->Object_0, "exclusiveMinimum"@)),
                max_length: optional_decoded::<Number>(lookup(json->Object_0, "maxLength"@)),
                min_length: optional_decoded::<Number>(lookup(json->Object_0, "minLength"@)),
                pattern: optional_decoded::<String>(lookup(json->Object_0, "pattern"@)),
                max_items: optional_decoded::<Number>(lookup(json->Object_0, "maxItems"@)),
                min_items: optional_decoded::<Number>(lookup(json->Object_0, "minItems"@)),
                unique_items: optional_decoded::<bool>(lookup(json->Object_0, "uniqueItems"@)),
                multiple_of: optional_decoded::<Number>(lookup(json->Object_0, "multipleOf"@)),
                items: schema_box_field_decoded(json->Object_0, "items"@),
                properties: schema_table_field_decoded(json->Object_0, "properties"@),
                all_of: schema_list_field_decoded(json->Object_0, "allOf"@),
                extensions: remainder(json->Object_0, Self::names()),
            }
        } else {
            arbitrary()
        }
    }

    /// Whether the value can be written.
    pub open spec fn tree_encodable(value: SchemaModel) -> bool
        decreases value, 0nat,
    {
        &&& optional_encodable::<String>(value.reference)
        &&& optional_encodable::<String>(value.title)
        &&& optional_encodable::<String>(value.description)
        &&& optional_encodable::<String>(value.type_)
        &&& optional_encodable::<String>(value.format)
        &&& optional_encodable::<Vec<String>>(value.enum_)
        &&& optional_encodable::<Vec<String>>(value.required)
        &&& optional_encodable::<Json>(value.default)
        &&& optional_encodable::<Number>(value.maximum)
        &&& optional_encodable::<bool>(value.exclusive_maximum)
        &&& optional_encodable::<Number>(value.minimum)
        &&& optional_encodable::<bool>(value.exclusive_minimum)
        &&& optional_encodable::<Number>(value.max_length)
        &&& optional_encodable::<Number>(value.min_length)
        &&& optional_encodable::<String>(value.pattern)
        &&& optional_encodable::<Number>(value.max_items)
        &&& optional_encodable::<Number>(value.min_items)
        &&& optional_encodable::<bool>(value.unique_items)
        &&& optional_encodable::<Number>(value.multiple_of)
        &&& schema_box_slot_encodable(value.items)
        &&& schema_table_slot_encodable(value.properties)
        &&& schema_list_slot_encodable(value.all_of)
        &&& !collides(Self::names(), value.extensions)
    }

    /// Whether reading what was written gives the value back.
    pub open spec fn tree_valid(value: SchemaModel) -> bool
        decreases value, 0nat,
    {
        &&& optional_valid::<String>(value.reference)
        &&& optional_valid::<String>(value.title)
        &&& optional_valid::<String>(value.description)
        &&& optional_valid::<String>(value.type_)
        &&& optional_valid::<String>(value.format)
        &&& optional_valid::<Vec<String>>(value.enum_)
        &&& optional_valid::<Vec<String>>(value.required)
        &&& optional_valid::<Json>(value.default)
        &&& optional_valid::<Number>(value.maximum)
        &&& optional_valid::<bool>(value.exclusive_maximum)
        &&& optional_valid::<Number>(value.minimum)
        &&& optional_valid::<bool>(value.exclusive_minimum)
        &&& optional_valid::<Number>(value.max_length)
        &&& optional_valid::<Number>(value.min_length)
        &&& optional_valid::<String>(value.pattern)
        &&& optional_valid::<Number>(value.max_items)
        &&& optional_valid::<Number>(value.min_items)
        &&& optional_valid::<bool>(value.unique_items)
        &&& optional_valid::<Number>(value.multiple_of)
        &&& schema_box_slot_valid(value.items)
        &&& schema_table_slot_valid(value.properties)
        &&& schema_list_slot_valid(value.all_of)
        &&& !collides(Self::names(), value.extensions)
    }

    /// The JSON value that the value is written as.
    pub open spec fn tree_encoded(value: SchemaModel) -> JsonModel
        decreases value, 1nat,
    {
        JsonModel::Object(assembled(Self::names(), Self::slots(value), value.extensions))
    }

    /// Puts the fields of a value together.
    fn from_fields(
        reference: Option<String>,
        title: Option<String>,
        description: Option<String>,
        type_: Option<String>,
        format: Option<String>,
        enum_: Option<Vec<String>>,
        required: Option<Vec<String>>,
        default: Option<Json>,
        maximum: Option<Number>,
        exclusive_maximum: Option<bool>,
        minimum: Option<Number>,
        exclusive_minimum: Option<bool>,
        max_length: Option<Number>,
        min_length: Option<Number>,
        pattern: Option<String>,
        max_items: Option<Number>,
        min_items: Option<Number>,
        unique_items: Option<bool>,
        multiple_of: Option<Number>,
        items: Option<Box<Schema>>,
        properties: Option<Table<Schema>>,
        all_of: Option<Vec<Box<Schema>>>,
        extensions: Extensions,
    ) -> (value: Schema)
        ensures
            value.tree_model() == (SchemaModel {
                reference: option_model(reference),
                title: option_model(title),
                description: option_model(description),
                type_: option_model(type_),
                format: option_model(format),
                enum_: option_model(enum_),
                required: option_model(required),
                default: option_model(default),
                maximum: option_model(maximum),
                exclusive_maximum: option_model(exclusive_maximum),
                minimum: option_model(minimum),
                exclusive_minimum: option_model(exclusive_minimum),
                max_length: option_model(max_length),
                min_length: option_model(min_length),
                pattern: option_model(pattern),
                max_items: option_model(max_items),
                min_items: option_model(min_items),
                unique_items: option_model(unique_items),
                multiple_of: option_model(multiple_of),
                items: schema_box_slot_model(items),
                properties: schema_table_slot_model(properties),
                all_of: schema_list_slot_model(all_of),
                extensions: extensions.model(),
            }),
    {
        Schema { reference, title, description, type_, format, enum_, required, default, maximum, exclusive_maximum, minimum, exclusive_minimum, max_length, min_length, pattern, max_items, min_items, unique_items, multiple_of, items, properties, all_of, extensions }
    }

    /// Reads a value. Fails with `ShapeMismatch` exactly on JSON of another
    /// shape.
    pub fn decode_tree(json: &Json) -> (res: Result<Schema, CodecError>)
        ensures
            match res {
                Ok(value) => Self::tree_fits(json.model()) && value.tree_model()
                    == Self::tree_decoded(json.model()),
                Err(error) => !Self::tree_fits(json.model()) && error
                    == CodecError::ShapeMismatch,
            },
        decreases json.model(), 0nat,
    {
        let members = match json {
            Json::Object(members) => members,
            _ => {
                return Err(CodecError::ShapeMismatch);
            },
        };
        let mut reader = ObjectReader::new(members);
        let reference = decode_optional::<String>(reader.field("$ref"))?;
        let title = decode_optional::<String>(reader.field("title"))?;
        let description = decode_optional::<String>(reader.field("description"))?;
        let type_ = decode_optional::<String>(reader.field("type"))?;
        let format = decode_optional::<String>(reader.field("format"))?;
        let enum_ = decode_optional::<Vec<String>>(reader.field("enum"))?;
        let required = decode_optional::<Vec<String>>(reader.field("required"))?;
        let default = decode_optional::<Json>(reader.field("default"))?;
        let maximum = decode_optional::<Number>(reader.field("maximum"))?;
        let exclusive_maximum = decode_optional::<bool>(reader.field("exclusiveMaximum"))?;
        let minimum = decode_optional::<Number>(reader.field("minimum"))?;
        let exclusive_minimum = decode_optional::<bool>(reader.field("exclusiveMinimum"))?;
        let max_length = decode_optional::<Number>(reader.field("maxLength"))?;
        let min_length = decode_optional::<Number>(reader.field("minLength"))?;
        let pattern = decode_optional::<String>(reader.field("pattern"))?;
        let max_items = decode_optional::<Number>(reader.field("maxItems"))?;
        let min_items = decode_optional::<Number>(reader.field("minItems"))?;
        let unique_items = decode_optional::<bool>(reader.field("uniqueItems"))?;
        let multiple_of = decode_optional::<Number>(reader.field("multipleOf"))?;
        let items = read_schema_box(&mut reader, "items")?;
        let properties = read_schema_table(&mut reader, "properties")?;
        let all_of = read_schema_list(&mut reader, "allOf")?;
        let extensions = reader.rest();
        Ok(Schema::from_fields(reference, title, description, type_, format, enum_, required, default, maximum, exclusive_maximum, minimum, exclusive_minimum, max_length, min_length, pattern, max_items, min_items, unique_items, multiple_of, items, properties, all_of, extensions))
    }

    /// Writes the value. Fails with `ExtensionCollision` exactly on a value
    /// that is not encodable.
    pub fn encode_tree(&self) -> (res: Result<Json, CodecError>)
        ensures
            match res {
                Ok(json) => Self::tree_encodable(self.tree_model()) && json.model()
                    == Self::tree_encoded(self.tree_model()),
                Err(error) => !Self::tree_encodable(self.tree_model()) && error
                    == CodecError::ExtensionCollision,
            },
        decreases self, 0nat,
    {
        let writer = ObjectWriter::new();
        let writer = writer.put("$ref", encode_optional::<String>(&self.reference)?);
        let writer = writer.put("title", encode_optional::<String>(&self.title)?);
        let writer = writer.put("description", encode_optional::<String>(&self.description)?);
        let writer = writer.put("type", encode_optional::<String>(&self.type_)?);
        let writer = writer.put("format", encode_optional::<String>(&self.format)?);
        let writer = writer.put("enum", encode_optional::<Vec<String>>(&self.enum_)?);
        let writer = writer.put("required", encode_optional::<Vec<String>>(&self.required)?);
        let writer = writer.put("default", encode_optional::<Json>(&self.default)?);
        let writer = writer.put("maximum", encode_optional::<Number>(&self.maximum)?);
        let writer = writer.put("exclusiveMaximum", encode_optional::<bool>(&self.exclusive_maximum)?);
        let writer = writer.put("minimum", encode_optional::<Number>(&self.minimum)?);
        let writer = writer.put("exclusiveMinimum", encode_optional::<bool>(&self.exclusive_minimum)?);
        let writer = writer.put("maxLength", encode_optional::<Number>(&self.max_length)?);
        let writer = writer.put("minLength", encode_optional::<Number>(&self.min_length)?);
        let writer = writer.put("pattern", encode_optional::<String>(&self.pattern)?);
        let writer = writer.put("maxItems", encode_optional::<Number>(&self.max_items)?);
        let writer = writer.put("minItems", encode_optional::<Number>(&self.min_items)?);
        let writer = writer.put("uniqueItems", encode_optional::<bool>(&self.unique_items)?);
        let writer = writer.put("multipleOf", encode_optional::<Number>(&self.multiple_of)?);
        let writer = writer.put("items", encode_schema_box_slot(&self.items)?);
        let writer = writer.put("properties", encode_schema_table_slot(&self.properties)?);
        let writer = writer.put("allOf", encode_schema_list_slot(&self.all_of)?);
        writer.finish_with(&self.extensions)
    }

    /// A valid value can be written, what is written has the shape of the
    /// type, and reading it gives the value back.
    pub proof fn lemma_tree_round_trip(value: SchemaModel)
        requires
            Self::tree_valid(value),
        ensures
            Self::tree_encodable(value),
            Self::tree_fits(Self::tree_encoded(value)),
            Self::tree_decoded(Self::tree_encoded(value)) == value,
        decreases value, 0nat,
    {
        let names = Self::names();
        let slots = Self::slots(value);
        let members = Self::tree_encoded(value)->Object_0;
        Self::lemma_names_distinct();
        lemma_assembled_lookup(names, slots, value.extensions, 0);
        lemma_assembled_lookup(names, slots, value.extensions, 1);
        lemma_assembled_lookup(names, slots, value.extensions, 2);
        lemma_assembled_lookup(names, slots, value.extensions, 3);
        lemma_assembled_lookup(names, slots, value.extensions, 4);
        lemma_assembled_lookup(names, slots, value.extensions, 5);
        lemma_assembled_lookup(names, slots, value.extensions, 6);
        lemma_assembled_lookup(names, slots, value.extensions, 7);
        lemma_assembled_lookup(names, slots, value.extensions, 8);
        lemma_assembled_lookup(names, slots, value.extensions, 9);
        lemma_assembled_lookup(names, slots, value.extensions, 10);
        lemma_assembled_lookup(names, slots, value.extensions, 11);
        lemma_assembled_lookup(names, slots, value.extensions, 12);
        lemma_assembled_lookup(names, slots, value.extensions, 13);
        lemma_assembled_lookup(names, slots, value.extensions, 14);
        lemma_assembled_lookup(names, slots, value.extensions, 15);
        lemma_assembled_lookup(names, slots, value.extensions, 16);
        lemma_assembled_lookup(names, slots, value.extensions, 17);
        lemma_assembled_lookup(names, slots, value.extensions, 18);
        lemma_assembled_lookup(names, slots, value.extensions, 19);
        lemma_assembled_lookup(names, slots, value.extensions, 20);
        lemma_assembled_lookup(names, slots, value.extensions, 21);
        lemma_assembled_remainder(names, slots, value.extensions);
        lemma_optional_round_trip::<String>(value.reference);
        lemma_optional_round_trip::<String>(value.title);
        lemma_optional_round_trip::<String>(value.description);
        lemma_optional_round_trip::<String>(value.type_);
        lemma_optional_round_trip::<String>(value.format);
        lemma_optional_round_trip::<Vec<String>>(value.enum_);
        lemma_optional_round_trip::<Vec<String>>(value.required);
        lemma_optional_round_trip::<Json>(value.default);
        lemma_optional_round_trip::<Number>(value.maximum);
        lemma_optional_round_trip::<bool>(value.exclusive_maximum);
        lemma_optional_round_trip::<Number>(value.minimum);
        lemma_optional_round_trip::<bool>(value.exclusive_minimum);
        lemma_optional_round_trip::<Number>(value.max_length);
        lemma_optional_round_trip::<Number>(value.min_length);
        lemma_optional_round_trip::<String>(value.pattern);
        lemma_optional_round_trip::<Number>(value.max_items);
        lemma_optional_round_trip::<Number>(value.min_items);
        lemma_optional_round_trip::<bool>(value.unique_items);
        lemma_optional_round_trip::<Number>(value.multiple_of);
        lemma_schema_box_slot_round_trip(value.items, members, "items"@);
        lemma_schema_table_slot_round_trip(value.properties, members, "properties"@);
        lemma_schema_list_slot_round_trip(value.all_of, members, "allOf"@);
    }

    /// What was read is valid. What is written of it is `null` only where it
    /// was read from `null`, and holds the pointer key only where what it was
    /// read from held it.
    pub proof fn lemma_tree_read_is_valid(json: JsonModel)
        requires
            Self::tree_fits(json),
        ensures
            Self::tree_valid(Self::tree_decoded(json)),
            json != JsonModel::Null ==> Self::tree_encoded(Self::tree_decoded(json))
                != JsonModel::Null,
            sniffed(json) is Inline ==> sniffed(
                Self::tree_encoded(Self::tree_decoded(json)),
            ) is Inline,
        decreases json, 0nat,
    {
        let members = json->Object_0;
        let names = Self::names();
        let value = Self::tree_decoded(json);
        let slots = Self::slots(value);
        lemma_optional_read_is_valid::<String>(lookup(members, "$ref"@));
        lemma_optional_read_is_valid::<String>(lookup(members, "title"@));
        lemma_optional_read_is_valid::<String>(lookup(members, "description"@));
        lemma_optional_read_is_valid::<String>(lookup(members, "type"@));
        lemma_optional_read_is_valid::<String>(lookup(members, "format"@));
        lemma_optional_read_is_valid::<Vec<String>>(lookup(members, "enum"@));
        lemma_optional_read_is_valid::<Vec<String>>(lookup(members, "required"@));
        lemma_optional_read_is_valid::<Json>(lookup(members, "default"@));
        lemma_optional_read_is_valid::<Number>(lookup(members, "maximum"@));
        lemma_optional_read_is_valid::<bool>(lookup(members, "exclusiveMaximum"@));
        lemma_optional_read_is_valid::<Number>(lookup(members, "minimum"@));
        lemma_optional_read_is_valid::<bool>(lookup(members, "exclusiveMinimum"@));
        lemma_optional_read_is_valid::<Number>(lookup(members, "maxLength"@));
        lemma_optional_read_is_valid::<Number>(lookup(members, "minLength"@));
        lemma_optional_read_is_valid::<String>(lookup(members, "pattern"@));
        lemma_optional_read_is_valid::<Number>(lookup(members, "maxItems"@));
        lemma_optional_read_is_valid::<Number>(lookup(members, "minItems"@));
        lemma_optional_read_is_valid::<bool>(lookup(members, "uniqueItems"@));
        lemma_optional_read_is_valid::<Number>(lookup(members, "multipleOf"@));
        lemma_schema_box_slot_read_is_valid(members, "items"@);
        lemma_schema_table_slot_read_is_valid(members, "properties"@);
        lemma_schema_list_slot_read_is_valid(members, "allOf"@);
        lemma_remainder_unnamed(members, names);
        Self::lemma_names_distinct();
        lemma_assembled_lookup(names, slots, value.extensions, 0);
        reveal(optional_decoded);
        reveal(optional_encoded);
    }

    /// A deep copy: a value of its own that holds the same.
    pub fn duplicate_tree(&self) -> (copy: Schema)
        ensures
            copy.tree_model() == self.tree_model(),
        decreases self, 0nat,
    {
        Schema::from_fields(
            duplicate_optional(&self.reference),
            duplicate_optional(&self.title),
            duplicate_optional(&self.description),
            duplicate_optional(&self.type_),
            duplicate_optional(&self.format),
            duplicate_optional(&self.enum_),
            duplicate_optional(&self.required),
            duplicate_optional(&self.default),
            duplicate_optional(&self.maximum),
            duplicate_optional(&self.exclusive_maximum),
            duplicate_optional(&self.minimum),
            duplicate_optional(&self.exclusive_minimum),
            duplicate_optional(&self.max_length),
            duplicate_optional(&self.min_length),
            duplicate_optional(&self.pattern),
            duplicate_optional(&self.max_items),
            duplicate_optional(&self.min_items),
            duplicate_optional(&self.unique_items),
            duplicate_optional(&self.multiple_of),
            duplicate_schema_box_slot(&self.items),
            duplicate_schema_table_slot(&self.properties),
            duplicate_schema_list_slot(&self.all_of),
            self.extensions.duplicate(),
        )
    }
}

impl Clone for Schema {
    fn clone(&self) -> (copy: Schema)
        ensures
            copy.model() == self.model(),
    {
        self.duplicate()
    }
}

impl Codec for Schema {
    type Model = SchemaModel;

    open spec fn model(&self) -> SchemaModel {
        self.tree_model()
    }

    open spec fn fits(json: JsonModel) -> bool {
        Self::tree_fits(json)
    }

    open spec fn decoded(json: JsonModel) -> SchemaModel {
        Self::tree_decoded(json)
    }

    open spec fn encodable(value: SchemaModel) -> bool {
        Self::tree_encodable(value)
    }

    open spec fn encoded(value: SchemaModel) -> JsonModel {
        Self::tree_encoded(value)
    }

    open spec fn valid(value: SchemaModel) -> bool {
        Self::tree_valid(value)
    }

    fn decode(json: &Json) -> (res: Result<Schema, CodecError>) {
        Schema::decode_tree(json)
    }

    fn encode(&self) -> (res: Result<Json, CodecError>) {
        self.encode_tree()
    }

    fn duplicate(&self) -> (copy: Schema) {
        self.duplicate_tree()
    }

    proof fn lemma_round_trip(value: SchemaModel) {
        Self::lemma_tree_round_trip(value);
    }

    proof fn lemma_read_is_valid(json: JsonModel) {
        Self::lemma_tree_read_is_valid(json);
    }
}

impl Items {
    /// The keys of the named fields, in the order in which they are written.
    pub open spec fn names() -> Seq<Seq<char>> {
        Seq::empty()
            .push("type"@)
            .push("format"@)
            .push("items"@)
            .push("collectionFormat"@)
            .push("default"@)
            .push("maximum"@)
            .push("exclusiveMaximum"@)
            .push("minimum"@)
            .push("exclusiveMinimum"@)
            .push("maxLength"@)
            .push("minLength"@)
            .push("pattern"@)
            .push("maxItems"@)
            .push("minItems"@)
            .push("uniqueItems"@)
            .push("enum"@)
            .push("multipleOf"@)
    }

    /// What each named field is written as, in the order of the names.
    pub open spec fn slots(value: ItemsModel) -> Seq<Option<JsonModel>>
        decreases value, 0nat,
    {
        Seq::empty()
            .push(required_encoded::<ItemsType>(value.type_))
            .push(optional_encoded::<String>(value.format))
            .push(items_box_slot_encoded(value.items))
            .push(optional_encoded::<String>(value.collection_format))
            .push(optional_encoded::<Json>(value.default))
            .push(optional_encoded::<Number>(value.maximum))
            .push(optional_encoded::<bool>(value.exclusive_maximum))
            .push(optional_encoded::<Number>(value.minimum))
            .push(optional_encoded::<bool>(value.exclusive_minimum))
            .push(optional_encoded::<Number>(value.max_length))
            .push(optional_encoded::<Number>(value.min_length))
            .push(optional_encoded::<String>(value.pattern))
            .push(optional_encoded::<Number>(value.max_items))
            .push(optional_encoded::<Number>(value.min_items))
            .push(optional_encoded::<bool>(value.unique_items))
            .push(optional_encoded::<Vec<Json>>(value.enum_))
            .push(optional_encoded::<Number>(value.multiple_of))
    }

    /// No key is named twice.
    pub proof fn lemma_names_distinct()
        ensures
            Self::names().no_duplicates(),
    {
        reveal_strlit("type");
        reveal_strlit("format");
        reveal_strlit("items");
        reveal_strlit("collectionFormat");
        reveal_strlit("default");
        reveal_strlit("maximum");
        reveal_strlit("exclusiveMaximum");
        reveal_strlit("minimum");
        reveal_strlit("exclusiveMinimum");
        reveal_strlit("maxLength");
        reveal_strlit("minLength");
        reveal_strlit("pattern");
        reveal_strlit("maxItems");
        reveal_strlit("minItems");
        reveal_strlit("uniqueItems");
        reveal_strlit("enum");
        reveal_strlit("multipleOf");
        assert("type"@.len() == 4 && "type"@[0] == 't');
        assert("format"@.len() == 6);
        assert("items"@.len() == 5);
        assert("collectionFormat"@.len() == 16 && "collectionFormat"@[0] == 'c');
        assert("default"@.len() == 7 && "default"@[0] == 'd');
        assert("maximum"@.len() == 7 && "maximum"@[0] == 'm' && "maximum"@[1] == 'a');
        assert("exclusiveMaximum"@.len() == 16 && "exclusiveMaximum"@[0] == 'e' && "exclusiveMaximum"@[10] == 'a');
        assert("minimum"@.len() == 7 && "minimum"@[0] == 'm' && "minimum"@[1] == 'i');
        assert("exclusiveMinimum"@.len() == 16 && "exclusiveMinimum"@[0] == 'e' && "exclusiveMinimum"@[10] == 'i');
        assert("maxLength"@.len() == 9 && "maxLength"@[1] == 'a');
        assert("minLength"@.len() == 9 && "minLength"@[1] == 'i');
        assert("pattern"@.len() == 7 && "pattern"@[0] == 'p');
        assert("maxItems"@.len() == 8 && "maxItems"@[1] == 'a');
        assert("minItems"@.len() == 8 && "minItems"@[1] == 'i');
        assert("uniqueItems"@.len() == 11);
        assert("enum"@.len() == 4 && "enum"@[0] == 'e');
        assert("multipleOf"@.len() == 10);
    }

    /// The pointer key is none of the names.
    pub proof fn lemma_pointer_unnamed()
        ensures
            !Self::names().contains(POINTER_KEY@),
    {
        reveal_strlit("$ref");
        reveal_strlit("type");
        reveal_strlit("format");
        reveal_strlit("items");
        reveal_strlit("collectionFormat");
        reveal_strlit("default");
        reveal_strlit("maximum");
        reveal_strlit("exclusiveMaximum");
        reveal_strlit("minimum");
        reveal_strlit("exclusiveMinimum");
        reveal_strlit("maxLength");
        reveal_strlit("minLength");
        reveal_strlit("pattern");
        reveal_strlit("maxItems");
        reveal_strlit("minItems");
        reveal_strlit("uniqueItems");
        reveal_strlit("enum");
        reveal_strlit("multipleOf");
        assert("$ref"@.len() == 4 && "$ref"@[0] == '$');
        assert("type"@.len() == 4 && "type"@[0] == 't');
        assert("format"@.len() == 6);
        assert("items"@.len() == 5);
        assert("collectionFormat"@.len() == 16);
        assert("default"@.len() == 7);
        assert("maximum"@.len() == 7);
        assert("exclusiveMaximum"@.len() == 16);
        assert("minimum"@.len() == 7);
        assert("exclusiveMinimum"@.len() == 16);
        assert("maxLength"@.len() == 9);
        assert("minLength"@.len() == 9);
        assert("pattern"@.len() == 7);
        assert("maxItems"@.len() == 8);
        assert("minItems"@.len() == 8);
        assert("uniqueItems"@.len() == 11);
        assert("enum"@.len() == 4 && "enum"@[0] == 'e');
        assert("multipleOf"@.len() == 10);
    }

    /// The mathematical value.
    pub open spec fn tree_model(&self) -> ItemsModel
        decreases self, 0nat,
    {
        ItemsModel {
            type_: self.type_.model(),
            format: option_model(self.format),
            items: items_box_slot_model(self.items),
            collection_format: option_model(self.collection_format),
            default: option_model(self.default),
            maximum: option_model(self.maximum),
            exclusive_maximum: option_model(self.exclusive_maximum),
            minimum: option_model(self.minimum),
            exclusive_minimum: option_model(self.exclusive_minimum),
            max_length: option_model(self.max_length),
            min_length: option_model(self.min_length),
            pattern: option_model(self.pattern),
            max_items: option_model(self.max_items),
            min_items: option_model(self.min_items),
            unique_items: option_model(self.unique_items),
            enum_: option_model(self.enum_),
            multiple_of: option_model(self.multiple_of),
            extensions: self.extensions.model(),
        }
    }

    /// Whether a JSON value has the shape of the type.
    pub open spec fn tree_fits(json: JsonModel) -> bool
        decreases json, 0nat,
    {
        &&& json is Object
        &&& required_fits::<ItemsType>(lookup(json->Object_0, "type"@))
        &&& optional_fits::<String>(lookup(json->Object_0, "format"@))
        &&& items_box_field_fits(json->Object_0, "items"@)
        &&& optional_fits::<String>(lookup(json->Object_0, "collectionFormat"@))
        &&& optional_fits::<Json>(lookup(json->Object_0, "default"@))
        &&& optional_fits::<Number>(lookup(json->Object_0, "maximum"@))
        &&& optional_fits::<bool>(lookup(json->Object_0, "exclusiveMaximum"@))
        &&& optional_fits::<Number>(lookup(json->Object_0, "minimum"@))
        &&& optional_fits::<bool>(lookup(json->Object_0, "exclusiveMinimum"@))
        &&& optional_fits::<Number>(lookup(json->Object_0, "maxLength"@))
        &&& optional_fits::<Number>(lookup(json->Object_0, "minLength"@))
        &&& optional_fits::<String>(lookup(json->Object_0, "pattern"@))
        &&& optional_fits::<Number>(lookup(json->Object_0, "maxItems"@))
        &&& optional_fits::<Number>(lookup(json->Object_0, "minItems"@))
        &&& optional_fits::<bool>(lookup(json->Object_0, "uniqueItems"@))
        &&& optional_fits::<Vec<Json>>(lookup(json->Object_0, "enum"@))
        &&& optional_fits::<Number>(lookup(json->Object_0, "multipleOf"@))
    }

    /// What a JSON value of the right shape holds.
    pub open spec fn tree_decoded(json: JsonModel) -> ItemsModel
        decreases json, 0nat,
    {
        if json is Object {
            ItemsModel {
                type_: required_decoded::<ItemsType>(lookup(json->Object_0, "type"@)),
                format: optional_decoded::<String>(lookup(json->Object_0, "format"@)),
                items: items_box_field_decoded(json->Object_0, "items"@),
                collection_format: optional_decoded::<String>(lookup(json->Object_0, "collectionFormat"@)),
                default: optional_decoded::<Json>(lookup(json->Object_0, "default"@)),
                maximum: optional_decoded::<Number>(lookup(json->Object_0, "maximum"@)),
                exclusive_maximum: optional_decoded::<bool>(lookup(json->Object_0, "exclusiveMaximum"@)),
                minimum: optional_decoded::<Number>(lookup(json->Object_0, "minimum"@)),
                exclusive_minimum: optional_decoded::<bool>(lookup(json->Object_0, "exclusiveMinimum"@)),
                max_length: optional_decoded::<Number>(lookup(json->Object_0, "maxLength"@)),
                min_length: optional_decoded::<Number>(lookup(json->Object_0, "minLength"@)),
                pattern: optional_decoded::<String>(lookup(json->Object_0, "pattern"@)),
                max_items: optional_decoded::<Number>(lookup(json->Object_0, "maxItems"@)),
                min_items: optional_decoded::<Number>(lookup(json->Object_0, "minItems"@)),
                unique_items: optional_decoded::<bool>(lookup(json->Object_0, "uniqueItems"@)),
                enum_: optional_decoded::<Vec<Json>>(lookup(json->Object_0, "enum"@)),
                multiple_of: optional_decoded::<Number>(lookup(json->Object_0, "multipleOf"@)),
                extensions: remainder(json->Object_0, Self::names()),
            }
        } else {
            arbitrary()
        }
    }

    /// Whether the value can be written.
    pub open spec fn tree_encodable(value: ItemsModel) -> bool
        decreases value, 0nat,
    {
        &&& required_encodable::<ItemsType>(value.type_)
        &&& optional_encodable::<String>(value.format)
        &&& items_box_slot_encodable(value.items)
        &&& optional_encodable::<String>(value.collection_format)
        &&& optional_encodable::<Json>(value.default)
        &&& optional_encodable::<Number>(value.maximum)
        &&& optional_encodable::<bool>(value.exclusive_maximum)
        &&& optional_encodable::<Number>(value.minimum)
        &&& optional_encodable::<bool>(value.exclusive_minimum)
        &&& optional_encodable::<Number>(value.max_length)
        &&& optional_encodable::<Number>(value.min_length)
        &&& optional_encodable::<String>(value.pattern)
        &&& optional_encodable::<Number>(value.max_items)
        &&& optional_encodable::<Number>(value.min_items)
        &&& optional_encodable::<bool>(value.unique_items)
        &&& optional_encodable::<Vec<Json>>(value.enum_)
        &&& optional_encodable::<Number>(value.multiple_of)
        &&& !collides(Self::names(), value.extensions)
    }

    /// Whether reading what was written gives the value back.
    pub open spec fn tree_valid(value: ItemsModel) -> bool
        decreases value, 0nat,
    {
        &&& required_valid::<ItemsType>(value.type_)
        &&& optional_valid::<String>(value.format)
        &&& items_box_slot_valid(value.items)
        &&& optional_valid::<String>(value.collection_format)
        &&& optional_valid::<Json>(value.default)
        &&& optional_valid::<Number>(value.maximum)
        &&& optional_valid::<bool>(value.exclusive_maximum)
        &&& optional_valid::<Number>(value.minimum)
        &&& optional_valid::<bool>(value.exclusive_minimum)
        &&& optional_valid::<Number>(value.max_length)
        &&& optional_valid::<Number>(value.min_length)
        &&& optional_valid::<String>(value.pattern)
        &&& optional_valid::<Number>(value.max_items)
        &&& optional_valid::<Number>(value.min_items)
        &&& optional_valid::<bool>(value.unique_items)
        &&& optional_valid::<Vec<Json>>(value.enum_)
        &&& optional_valid::<Number>(value.multiple_of)
        &&& !collides(Self::names(), value.extensions)
    }

    /// The JSON value that the value is written as.
    pub open spec fn tree_encoded(value: ItemsModel) -> JsonModel
        decreases value, 1nat,
    {
        JsonModel::Object(assembled(Self::names(), Self::slots(value), value.extensions))
    }

    /// Puts the fields of a value together.
    fn from_fields(
        type_: ItemsType,
        format: Option<String>,
        items: Option<Box<Items>>,
        collection_format: Option<String>,
        default: Option<Json>,
        maximum: Option<Number>,
        exclusive_maximum: Option<bool>,
        minimum: Option<Number>,
        exclusive_minimum: Option<bool>,
        max_length: Option<Number>,
        min_length: Option<Number>,
        pattern: Option<String>,
        max_items: Option<Number>,
        min_items: Option<Number>,
        unique_items: Option<bool>,
        enum_: Option<Vec<Json>>,
        multiple_of: Option<Number>,
        extensions: Extensions,
    ) -> (value: Items)
        ensures
            value.tree_model() == (ItemsModel {
                type_: type_.model(),
                format: option_model(format),
                items: items_box_slot_model(items),
                collection_format: option_model(collection_format),
                default: option_model(default),
                maximum: option_model(maximum),
                exclusive_maximum: option_model(exclusive_maximum),
                minimum: option_model(minimum),
                exclusive_minimum: option_model(exclusive_minimum),
                max_length: option_model(max_length),
                min_length: option_model(min_length),
                pattern: option_model(pattern),
                max_items: option_model(max_items),
                min_items: option_model(min_items),
                unique_items: option_model(unique_items),
                enum_: option_model(enum_),
                multiple_of: option_model(multiple_of),
                extensions: extensions.model(),
            }),
    {
        Items { type_, format, items, collection_format, default, maximum, exclusive_maximum, minimum, exclusive_minimum, max_length, min_length, pattern, max_items, min_items, unique_items, enum_, multiple_of, extensions }
    }

    /// Reads a value. Fails with `ShapeMismatch` exactly on JSON of another
    /// shape.
    pub fn decode_tree(json: &Json) -> (res: Result<Items, CodecError>)
        ensures
            match res {
                Ok(value) => Self::tree_fits(json.model()) && value.tree_model()
                    == Self::tree_decoded(json.model()),
                Err(error) => !Self::tree_fits(json.model()) && error
                    == CodecError::ShapeMismatch,
            },
        decreases json.model(), 0nat,
    {
        let members = match json {
            Json::Object(members) => members,
            _ => {
                return Err(CodecError::ShapeMismatch);
            },
        };
        let mut reader = ObjectReader::new(members);
        let type_ = decode_required::<ItemsType>(reader.field("type"))?;
        let format = decode_optional::<String>(reader.field("format"))?;
        let items = read_items_box(&mut reader, "items")?;
        let collection_format = decode_optional::<String>(reader.field("collectionFormat"))?;
        let default = decode_optional::<Json>(reader.field("default"))?;
        let maximum = decode_optional::<Number>(reader.field("maximum"))?;
        let exclusive_maximum = decode_optional::<bool>(reader.field("exclusiveMaximum"))?;
        let minimum = decode_optional::<Number>(reader.field("minimum"))?;
        let exclusive_minimum = decode_optional::<bool>(reader.field("exclusiveMinimum"))?;
        let max_length = decode_optional::<Number>(reader.field("maxLength"))?;
        let min_length = decode_optional::<Number>(reader.field("minLength"))?;
        let pattern = decode_optional::<String>(reader.field("pattern"))?;
        let max_items = decode_optional::<Number>(reader.field("maxItems"))?;
        let min_items = decode_optional::<Number>(reader.field("minItems"))?;
        let unique_items = decode_optional::<bool>(reader.field("uniqueItems"))?;
        let enum_ = decode_optional::<Vec<Json>>(reader.field("enum"))?;
        let multiple_of = decode_optional::<Number>(reader.field("multipleOf"))?;
        let extensions = reader.rest();
        Ok(Items::from_fields(type_, format, items, collection_format, default, maximum, exclusive_maximum, minimum, exclusive_minimum, max_length, min_length, pattern, max_items, min_items, unique_items, enum_, multiple_of, extensions))
    }

    /// Writes the value. Fails with `ExtensionCollision` exactly on a value
    /// that is not encodable.
    pub fn encode_tree(&self) -> (res: Result<Json, CodecError>)
        ensures
            match res {
                Ok(json) => Self::tree_encodable(self.tree_model()) && json.model()
                    == Self::tree_encoded(self.tree_model()),
                Err(error) => !Self::tree_encodable(self.tree_model()) && error
                    == CodecError::ExtensionCollision,
            },
        decreases self, 0nat,
    {
        let writer = ObjectWriter::new();
        let writer = writer.put("type", encode_required::<ItemsType>(&self.type_)?);
        let writer = writer.put("format", encode_optional::<String>(&self.format)?);
        let writer = writer.put("items", encode_items_box_slot(&self.items)?);
        let writer = writer.put("collectionFormat", encode_optional::<String>(&self.collection_format)?);
        let writer = writer.put("default", encode_optional::<Json>(&self.default)?);
        let writer = writer.put("maximum", encode_optional::<Number>(&self.maximum)?);
        let writer = writer.put("exclusiveMaximum", encode_optional::<bool>(&self.exclusive_maximum)?);
        let writer = writer.put("minimum", encode_optional::<Number>(&self.minimum)?);
        let writer = writer.put("exclusiveMinimum", encode_optional::<bool>(&self.exclusive_minimum)?);
        let writer = writer.put("maxLength", encode_optional::<Number>(&self.max_length)?);
        let writer = writer.put("minLength", encode_optional::<Number>(&self.min_length)?);
        let writer = writer.put("pattern", encode_optional::<String>(&self.pattern)?);
        let writer = writer.put("maxItems", encode_optional::<Number>(&self.max_items)?);
        let writer = writer.put("minItems", encode_optional::<Number>(&self.min_items)?);
        let writer = writer.put("uniqueItems", encode_optional::<bool>(&self.unique_items)?);
        let writer = writer.put("enum", encode_optional::<Vec<Json>>(&self.enum_)?);
        let writer = writer.put("multipleOf", encode_optional::<Number>(&self.multiple_of)?);
        writer.finish_with(&self.extensions)
    }

    /// A valid value can be written, what is written has the shape of the
    /// type, and reading it gives the value back.
    pub proof fn lemma_tree_round_trip(value: ItemsModel)
        requires
            Self::tree_valid(value),
        ensures
            Self::tree_encodable(value),
            Self::tree_fits(Self::tree_encoded(value)),
            Self::tree_decoded(Self::tree_encoded(value)) == value,
        decreases value, 0nat,
    {
        let names = Self::names();
        let slots = Self::slots(value);
        let members = Self::tree_encoded(value)->Object_0;
        Self::lemma_names_distinct();
        lemma_assembled_lookup(names, slots, value.extensions, 0);
        lemma_assembled_lookup(names, slots, value.extensions, 1);
        lemma_assembled_lookup(names, slots, value.extensions, 2);
        lemma_assembled_lookup(names, slots, value.extensions, 3);
        lemma_assembled_lookup(names, slots, value.extensions, 4);
        lemma_assembled_lookup(names, slots, value.extensions, 5);
        lemma_assembled_lookup(names, slots, value.extensions, 6);
        lemma_assembled_lookup(names, slots, value.extensions, 7);
        lemma_assembled_lookup(names, slots, value.extensions, 8);
        lemma_assembled_lookup(names, slots, value.extensions, 9);
        lemma_assembled_lookup(names, slots, value.extensions, 10);
        lemma_assembled_lookup(names, slots, value.extensions, 11);
        lemma_assembled_lookup(names, slots, value.extensions, 12);
        lemma_assembled_lookup(names, slots, value.extensions, 13);
        lemma_assembled_lookup(names, slots, value.extensions, 14);
        lemma_assembled_lookup(names, slots, value.extensions, 15);
        lemma_assembled_lookup(names, slots, value.extensions, 16);
        lemma_assembled_remainder(names, slots, value.extensions);
        lemma_required_round_trip::<ItemsType>(value.type_);
        lemma_optional_round_trip::<String>(value.format);
        lemma_items_box_slot_round_trip(value.items, members, "items"@);
        lemma_optional_round_trip::<String>(value.collection_format);
        lemma_optional_round_trip::<Json>(value.default);
        lemma_optional_round_trip::<Number>(value.maximum);
        lemma_optional_round_trip::<bool>(value.exclusive_maximum);
        lemma_optional_round_trip::<Number>(value.minimum);
        lemma_optional_round_trip::<bool>(value.exclusive_minimum);
        lemma_optional_round_trip::<Number>(value.max_length);
        lemma_optional_round_trip::<Number>(value.min_length);
        lemma_optional_round_trip::<String>(value.pattern);
        lemma_optional_round_trip::<Number>(value.max_items);
        lemma_optional_round_trip::<Number>(value.min_items);
        lemma_optional_round_trip::<bool>(value.unique_items);
        lemma_optional_round_trip::<Vec<Json>>(value.enum_);
        lemma_optional_round_trip::<Number>(value.multiple_of);
    }

    /// What was read is valid. What is written of it is `null` only where it
    /// was read from `null`, and holds the pointer key only where what it was
    /// read from held it.
    pub proof fn lemma_tree_read_is_valid(json: JsonModel)
        requires
            Self::tree_fits(json),
        ensures
            Self::tree_valid(Self::tree_decoded(json)),
            json != JsonModel::Null ==> Self::tree_encoded(Self::tree_decoded(json))
                != JsonModel::Null,
            sniffed(json) is Inline ==> sniffed(
                Self::tree_encoded(Self::tree_decoded(json)),
            ) is Inline,
        decreases json, 0nat,
    {
        let members = json->Object_0;
        let names = Self::names();
        let value = Self::tree_decoded(json);
        let slots = Self::slots(value);
        lemma_required_read_is_valid::<ItemsType>(lookup(members, "type"@));
        lemma_optional_read_is_valid::<String>(lookup(members, "format"@));
        lemma_items_box_slot_read_is_valid(members, "items"@);
        lemma_optional_read_is_valid::<String>(lookup(members, "collectionFormat"@));
        lemma_optional_read_is_valid::<Json>(lookup(members, "default"@));
        lemma_optional_read_is_valid::<Number>(lookup(members, "maximum"@));
        lemma_optional_read_is_valid::<bool>(lookup(members, "exclusiveMaximum"@));
        lemma_optional_read_is_valid::<Number>(lookup(members, "minimum"@));
        lemma_optional_read_is_valid::<bool>(lookup(members, "exclusiveMinimum"@));
        lemma_optional_read_is_valid::<Number>(lookup(members, "maxLength"@));
        lemma_optional_read_is_valid::<Number>(lookup(members, "minLength"@));
        lemma_optional_read_is_valid::<String>(lookup(members, "pattern"@));
        lemma_optional_read_is_valid::<Number>(lookup(members, "maxItems"@));
        lemma_optional_read_is_valid::<Number>(lookup(members, "minItems"@));
        lemma_optional_read_is_valid::<bool>(lookup(members, "uniqueItems"@));
        lemma_optional_read_is_valid::<Vec<Json>>(lookup(members, "enum"@));
        lemma_optional_read_is_valid::<Number>(lookup(members, "multipleOf"@));
        lemma_remainder_unnamed(members, names);
        Self::lemma_pointer_unnamed();
        lemma_assembled_lookup_other(names, slots, value.extensions, POINTER_KEY@);
        lemma_remainder_lookup(members, names, POINTER_KEY@);
    }

    /// A deep copy: a value of its own that holds the same.
    pub fn duplicate_tree(&self) -> (copy: Items)
        ensures
            copy.tree_model() == self.tree_model(),
        decreases self, 0nat,
    {
        Items::from_fields(
            self.type_.duplicate(),
            duplicate_optional(&self.format),
            duplicate_items_box_slot(&self.items),
            duplicate_optional(&self.collection_format),
            duplicate_optional(&self.default),
            duplicate_optional(&self.maximum),
            duplicate_optional(&self.exclusive_maximum),
            duplicate_optional(&self.minimum),
            duplicate_optional(&self.exclusive_minimum),
            duplicate_optional(&self.max_length),
            duplicate_optional(&self.min_length),
            duplicate_optional(&self.pattern),
            duplicate_optional(&self.max_items),
            duplicate_optional(&self.min_items),
            duplicate_optional(&self.unique_items),
            duplicate_optional(&self.enum_),
            duplicate_optional(&self.multiple_of),
            self.extensions.duplicate(),
        )
    }
}

impl Clone for Items {
    fn clone(&self) -> (copy: Items)
        ensures
            copy.model() == self.model(),
    {
        self.duplicate()
    }
}

impl Codec for Items {
    type Model = ItemsModel;

    open spec fn model(&self) -> ItemsModel {
        self.tree_model()
    }

    open spec fn fits(json: JsonModel) -> bool {
        Self::tree_fits(json)
    }

    open spec fn decoded(json: JsonModel) -> ItemsModel {
        Self::tree_decoded(json)
    }

    open spec fn encodable(value: ItemsModel) -> bool {
        Self::tree_encodable(value)
    }

    open spec fn encoded(value: ItemsModel) -> JsonModel {
        Self::tree_encoded(value)
    }

    open spec fn valid(value: ItemsModel) -> bool {
        Self::tree_valid(value)
    }

    fn decode(json: &Json) -> (res: Result<Items, CodecError>) {
        Items::decode_tree(json)
    }

    fn encode(&self) -> (res: Result<Json, CodecError>) {
        self.encode_tree()
    }

    fn duplicate(&self) -> (copy: Items) {
        self.duplicate_tree()
    }

    proof fn lemma_round_trip(value: ItemsModel) {
        Self::lemma_tree_round_trip(value);
    }

    proof fn lemma_read_is_valid(json: JsonModel) {
        Self::lemma_tree_read_is_valid(json);
    }
}

/// The mathematical value of a field that may hold `Schema`.
pub open spec fn schema_box_slot_model(value: Option<Box<Schema>>) -> Option<Box<SchemaModel>>
    decreases value, 0nat,
{
    match value {
        Some(inner) => Some(Box::new((*inner).tree_model())),
        None => None,
    }
}

/// Whether the field under a key is missing, `null`, or `Schema`.
pub open spec fn schema_box_field_fits(members: Seq<EntryModel<JsonModel>>, key: Seq<char>) -> bool
    decreases members, 0nat,
{
    match present(lookup(members, key)) {
        Some(inner) => Schema::tree_fits(inner),
        None => true,
    }
}

/// What the field under a key holds, where it may hold `Schema`.
pub open spec fn schema_box_field_decoded(members: Seq<EntryModel<JsonModel>>, key: Seq<char>) -> Option<Box<SchemaModel>>
    decreases members, 0nat,
{
    match present(lookup(members, key)) {
        Some(inner) => Some(Box::new(Schema::tree_decoded(inner))),
        None => None,
    }
}

/// Whether a field that may hold `Schema` can be written.
pub open spec fn schema_box_slot_encodable(value: Option<Box<SchemaModel>>) -> bool
    decreases value, 0nat,
{
    match value {
        Some(inner) => Schema::tree_encodable(*inner),
        None => true,
    }
}

/// What a field that may hold `Schema` is written as: nothing where it is missing.
pub open spec fn schema_box_slot_encoded(value: Option<Box<SchemaModel>>) -> Option<JsonModel>
    decreases value, 0nat,
{
    match value {
        Some(inner) => Some(Schema::tree_encoded(*inner)),
        None => None,
    }
}

/// Whether a field that may hold `Schema` comes back unchanged.
pub open spec fn schema_box_slot_valid(value: Option<Box<SchemaModel>>) -> bool
    decreases value, 0nat,
{
    match value {
        Some(inner) => Schema::tree_valid(*inner) && Schema::tree_encoded(*inner) != JsonModel::Null,
        None => true,
    }
}

/// Reads a field that may hold `Schema`. The key counts as named from
/// now on.
pub fn read_schema_box(reader: &mut ObjectReader<'_>, key: &'static str) -> (res: Result<
    Option<Box<Schema>>,
    CodecError,
>)
    ensures
        final(reader).members() == old(reader).members(),
        final(reader).names() == old(reader).names().push(key@),
        match res {
            Ok(value) => schema_box_field_fits(old(reader).members(), key@) && schema_box_slot_model(value)
                == schema_box_field_decoded(old(reader).members(), key@),
            Err(error) => !schema_box_field_fits(old(reader).members(), key@) && error
                == CodecError::ShapeMismatch,
        },
    decreases old(reader).members(), 0nat,
{
    match present_json(reader.field(key)) {
        Some(inner) => match Schema::decode_tree(inner) {
            Ok(value) => Ok(Some(Box::new(value))),
            Err(error) => Err(error),
        },
        None => Ok(None),
    }
}

/// Writes a field that may hold `Schema`.
pub fn encode_schema_box_slot(value: &Option<Box<Schema>>) -> (res: Result<Option<Json>, CodecError>)
    ensures
        match res {
            Ok(slot) => schema_box_slot_encodable(schema_box_slot_model(*value)) && option_json_model(slot)
                == schema_box_slot_encoded(schema_box_slot_model(*value)),
            Err(error) => !schema_box_slot_encodable(schema_box_slot_model(*value)) && error
                == CodecError::ExtensionCollision,
        },
    decreases value, 0nat,
{
    match value {
        Some(inner) => match (**inner).encode_tree() {
            Ok(json) => Ok(Some(json)),
            Err(error) => Err(error),
        },
        None => Ok(None),
    }
}

/// A valid field that may hold `Schema` comes back unchanged from
/// every object that holds under the key what the field is written as.
pub proof fn lemma_schema_box_slot_round_trip(
    value: Option<Box<SchemaModel>>,
    members: Seq<EntryModel<JsonModel>>,
    key: Seq<char>,
)
    requires
        schema_box_slot_valid(value),
        lookup(members, key) == schema_box_slot_encoded(value),
    ensures
        schema_box_slot_encodable(value),
        schema_box_field_fits(members, key),
        schema_box_field_decoded(members, key) == value,
    decreases value, 0nat,
{
    if let Some(inner) = value {
        Schema::lemma_tree_round_trip(*inner);
    }
}

/// A field that may hold `Schema` is valid as it was read.
pub proof fn lemma_schema_box_slot_read_is_valid(members: Seq<EntryModel<JsonModel>>, key: Seq<char>)
    requires
        schema_box_field_fits(members, key),
    ensures
        schema_box_slot_valid(schema_box_field_decoded(members, key)),
    decreases members, 0nat,
{
    if let Some(inner) = present(lookup(members, key)) {
        Schema::lemma_tree_read_is_valid(inner);
    }
}

/// A deep copy of a field that may hold `Schema`.
pub fn duplicate_schema_box_slot(value: &Option<Box<Schema>>) -> (copy: Option<Box<Schema>>)
    ensures
        schema_box_slot_model(copy) == schema_box_slot_model(*value),
    decreases value, 0nat,
{
    match value {
        Some(inner) => Some(Box::new((**inner).duplicate_tree())),
        None => None,
    }
}

/// The mathematical value of a field that may hold a table of `Schema` values.
pub open spec fn schema_table_slot_model(value: Option<Table<Schema>>) -> Option<Seq<EntryModel<SchemaModel>>>
    decreases value, 0nat,
{
    match value {
        Some(inner) => Some(schema_table_model(inner.entries@)),
        None => None,
    }
}

/// Whether the field under a key is missing, `null`, or a table of `Schema` values.
pub open spec fn schema_table_field_fits(members: Seq<EntryModel<JsonModel>>, key: Seq<char>) -> bool
    decreases members, 0nat,
{
    match present(lookup(members, key)) {
        Some(inner) => schema_table_fits(inner),
        None => true,
    }
}

/// What the field under a key holds, where it may hold a table of `Schema` values.
pub open spec fn schema_table_field_decoded(members: Seq<EntryModel<JsonModel>>, key: Seq<char>) -> Option<Seq<EntryModel<SchemaModel>>>
    decreases members, 0nat,
{
    match present(lookup(members, key)) {
        Some(inner) => Some(schema_table_decoded(inner)),
        None => None,
    }
}

/// Whether a field that may hold a table of `Schema` values can be written.
pub open spec fn schema_table_slot_encodable(value: Option<Seq<EntryModel<SchemaModel>>>) -> bool
    decreases value, 0nat,
{
    match value {
        Some(inner) => schema_table_encodable(inner),
        None => true,
    }
}

/// What a field that may hold a table of `Schema` values is written as: nothing where it is missing.
pub open spec fn schema_table_slot_encoded(value: Option<Seq<EntryModel<SchemaModel>>>) -> Option<JsonModel>
    decreases value, 0nat,
{
    match value {
        Some(inner) => Some(schema_table_encoded(inner)),
        None => None,
    }
}

/// Whether a field that may hold a table of `Schema` values comes back unchanged.
pub open spec fn schema_table_slot_valid(value: Option<Seq<EntryModel<SchemaModel>>>) -> bool
    decreases value, 0nat,
{
    match value {
        Some(inner) => schema_table_valid(inner) && schema_table_encoded(inner) != JsonModel::Null,
        None => true,
    }
}

/// Reads a field that may hold a table of `Schema` values. The key counts as named from
/// now on.
pub fn read_schema_table(reader: &mut ObjectReader<'_>, key: &'static str) -> (res: Result<
    Option<Table<Schema>>,
    CodecError,
>)
    ensures
        final(reader).members() == old(reader).members(),
        final(reader).names() == old(reader).names().push(key@),
        match res {
            Ok(value) => schema_table_field_fits(old(reader).members(), key@) && schema_table_slot_model(value)
                == schema_table_field_decoded(old(reader).members(), key@),
            Err(error) => !schema_table_field_fits(old(reader).members(), key@) && error
                == CodecError::ShapeMismatch,
        },
    decreases old(reader).members(), 0nat,
{
    match present_json(reader.field(key)) {
        Some(inner) => match decode_schema_table(inner) {
            Ok(value) => Ok(Some(value)),
            Err(error) => Err(error),
        },
        None => Ok(None),
    }
}

/// Writes a field that may hold a table of `Schema` values.
pub fn encode_schema_table_slot(value: &Option<Table<Schema>>) -> (res: Result<Option<Json>, CodecError>)
    ensures
        match res {
            Ok(slot) => schema_table_slot_encodable(schema_table_slot_model(*value)) && option_json_model(slot)
                == schema_table_slot_encoded(schema_table_slot_model(*value)),
            Err(error) => !schema_table_slot_encodable(schema_table_slot_model(*value)) && error
                == CodecError::ExtensionCollision,
        },
    decreases value, 0nat,
{
    match value {
        Some(inner) => match encode_schema_table(&(*inner)) {
            Ok(json) => Ok(Some(json)),
            Err(error) => Err(error),
        },
        None => Ok(None),
    }
}

/// A valid field that may hold a table of `Schema` values comes back unchanged from
/// every object that holds under the key what the field is written as.
pub proof fn lemma_schema_table_slot_round_trip(
    value: Option<Seq<EntryModel<SchemaModel>>>,
    members: Seq<EntryModel<JsonModel>>,
    key: Seq<char>,
)
    requires
        schema_table_slot_valid(value),
        lookup(members, key) == schema_table_slot_encoded(value),
    ensures
        schema_table_slot_encodable(value),
        schema_table_field_fits(members, key),
        schema_table_field_decoded(members, key) == value,
    decreases value, 0nat,
{
    if let Some(inner) = value {
        lemma_schema_table_round_trip(inner);
    }
}

/// A field that may hold a table of `Schema` values is valid as it was read.
pub proof fn lemma_schema_table_slot_read_is_valid(members: Seq<EntryModel<JsonModel>>, key: Seq<char>)
    requires
        schema_table_field_fits(members, key),
    ensures
        schema_table_slot_valid(schema_table_field_decoded(members, key)),
    decreases members, 0nat,
{
    if let Some(inner) = present(lookup(members, key)) {
        lemma_schema_table_read_is_valid(inner);
    }
}

/// A deep copy of a field that may hold a table of `Schema` values.
pub fn duplicate_schema_table_slot(value: &Option<Table<Schema>>) -> (copy: Option<Table<Schema>>)
    ensures
        schema_table_slot_model(copy) == schema_table_slot_model(*value),
    decreases value, 0nat,
{
    match value {
        Some(inner) => Some(duplicate_schema_table(&(*inner))),
        None => None,
    }
}

/// The mathematical value of a field that may hold a list of `Schema` values.
pub open spec fn schema_list_slot_model(value: Option<Vec<Box<Schema>>>) -> Option<Seq<SchemaModel>>
    decreases value, 0nat,
{
    match value {
        Some(inner) => Some(schema_list_model(inner@)),
        None => None,
    }
}

/// Whether the field under a key is missing, `null`, or a list of `Schema` values.
pub open spec fn schema_list_field_fits(members: Seq<EntryModel<JsonModel>>, key: Seq<char>) -> bool
    decreases members, 0nat,
{
    match present(lookup(members, key)) {
        Some(inner) => schema_list_fits(inner),
        None => true,
    }
}

/// What the field under a key holds, where it may hold a list of `Schema` values.
pub open spec fn schema_list_field_decoded(members: Seq<EntryModel<JsonModel>>, key: Seq<char>) -> Option<Seq<SchemaModel>>
    decreases members, 0nat,
{
    match present(lookup(members, key)) {
        Some(inner) => Some(schema_list_decoded(inner)),
        None => None,
    }
}

/// Whether a field that may hold a list of `Schema` values can be written.
pub open spec fn schema_list_slot_encodable(value: Option<Seq<SchemaModel>>) -> bool
    decreases value, 0nat,
{
    match value {
        Some(inner) => schema_list_encodable(inner),
        None => true,
    }
}

/// What a field that may hold a list of `Schema` values is written as: nothing where it is missing.
pub open spec fn schema_list_slot_encoded(value: Option<Seq<SchemaModel>>) -> Option<JsonModel>
    decreases value, 0nat,
{
    match value {
        Some(inner) => Some(schema_list_encoded(inner)),
        None => None,
    }
}

/// Whether a field that may hold a list of `Schema` values comes back unchanged.
pub open spec fn schema_list_slot_valid(value: Option<Seq<SchemaModel>>) -> bool
    decreases value, 0nat,
{
    match value {
        Some(inner) => schema_list_valid(inner) && schema_list_encoded(inner) != JsonModel::Null,
        None => true,
    }
}

/// Reads a field that may hold a list of `Schema` values. The key counts as named from
/// now on.
pub fn read_schema_list(reader: &mut ObjectReader<'_>, key: &'static str) -> (res: Result<
    Option<Vec<Box<Schema>>>,
    CodecError,
>)
    ensures
        final(reader).members() == old(reader).members(),
        final(reader).names() == old(reader).names().push(key@),
        match res {
            Ok(value) => schema_list_field_fits(old(reader).members(), key@) && schema_list_slot_model(value)
                == schema_list_field_decoded(old(reader).members(), key@),
            Err(error) => !schema_list_field_fits(old(reader).members(), key@) && error
                == CodecError::ShapeMismatch,
        },
    decreases old(reader).members(), 0nat,
{
    match present_json(reader.field(key)) {
        Some(inner) => match decode_schema_list(inner) {
            Ok(value) => Ok(Some(value)),
            Err(error) => Err(error),
        },
        None => Ok(None),
    }
}

/// Writes a field that may hold a list of `Schema` values.
pub fn encode_schema_list_slot(value: &Option<Vec<Box<Schema>>>) -> (res: Result<Option<Json>, CodecError>)
    ensures
        match res {
            Ok(slot) => schema_list_slot_encodable(schema_list_slot_model(*value)) && option_json_model(slot)
                == schema_list_slot_encoded(schema_list_slot_model(*value)),
            Err(error) => !schema_list_slot_encodable(schema_list_slot_model(*value)) && error
                == CodecError::ExtensionCollision,
        },
    decreases value, 0nat,
{
    match value {
        Some(inner) => match encode_schema_list(&(*inner)) {
            Ok(json) => Ok(Some(json)),
            Err(error) => Err(error),
        },
        None => Ok(None),
    }
}

/// A valid field that may hold a list of `Schema` values comes back unchanged from
/// every object that holds under the key what the field is written as.
pub proof fn lemma_schema_list_slot_round_trip(
    value: Option<Seq<SchemaModel>>,
    members: Seq<EntryModel<JsonModel>>,
    key: Seq<char>,
)
    requires
        schema_list_slot_valid(value),
        lookup(members, key) == schema_list_slot_encoded(value),
    ensures
        schema_list_slot_encodable(value),
        schema_list_field_fits(members, key),
        schema_list_field_decoded(members, key) == value,
    decreases value, 0nat,
{
    if let Some(inner) = value {
        lemma_schema_list_round_trip(inner);
    }
}

/// A field that may hold a list of `Schema` values is valid as it was read.
pub proof fn lemma_schema_list_slot_read_is_valid(members: Seq<EntryModel<JsonModel>>, key: Seq<char>)
    requires
        schema_list_field_fits(members, key),
    ensures
        schema_list_slot_valid(schema_list_field_decoded(members, key)),
    decreases members, 0nat,
{
    if let Some(inner) = present(lookup(members, key)) {
        lemma_schema_list_read_is_valid(inner);
    }
}

/// A deep copy of a field that may hold a list of `Schema` values.
pub fn duplicate_schema_list_slot(value: &Option<Vec<Box<Schema>>>) -> (copy: Option<Vec<Box<Schema>>>)
    ensures
        schema_list_slot_model(copy) == schema_list_slot_model(*value),
    decreases value, 0nat,
{
    match value {
        Some(inner) => Some(duplicate_schema_list(&(*inner))),
        None => None,
    }
}

/// The mathematical value of a field that may hold `Items`.
pub open spec fn items_box_slot_model(value: Option<Box<Items>>) -> Option<Box<ItemsModel>>
    decreases value, 0nat,
{
    match value {
        Some(inner) => Some(Box::new((*inner).tree_model())),
        None => None,
    }
}

/// Whether the field under a key is missing, `null`, or `Items`.
pub open spec fn items_box_field_fits(members: Seq<EntryModel<JsonModel>>, key: Seq<char>) -> bool
    decreases members, 0nat,
{
    match present(lookup(members, key)) {
        Some(inner) => Items::tree_fits(inner),
        None => true,
    }
}

/// What the field under a key holds, where it may hold `Items`.
pub open spec fn items_box_field_decoded(members: Seq<EntryModel<JsonModel>>, key: Seq<char>) -> Option<Box<ItemsModel>>
    decreases members, 0nat,
{
    match present(lookup(members, key)) {
        Some(inner) => Some(Box::new(Items::tree_decoded(inner))),
        None => None,
    }
}

/// Whether a field that may hold `Items` can be written.
pub open spec fn items_box_slot_encodable(value: Option<Box<ItemsModel>>) -> bool
    decreases value, 0nat,
{
    match value {
        Some(inner) => Items::tree_encodable(*inner),
        None => true,
    }
}

/// What a field that may hold `Items` is written as: nothing where it is missing.
pub open spec fn items_box_slot_encoded(value: Option<Box<ItemsModel>>) -> Option<JsonModel>
    decreases value, 0nat,
{
    match value {
        Some(inner) => Some(Items::tree_encoded(*inner)),
        None => None,
    }
}

/// Whether a field that may hold `Items` comes back unchanged.
pub open spec fn items_box_slot_valid(value: Option<Box<ItemsModel>>) -> bool
    decreases value, 0nat,
{
    match value {
        Some(inner) => Items::tree_valid(*inner) && Items::tree_encoded(*inner) != JsonModel::Null,
        None => true,
    }
}

/// Reads a field that may hold `Items`. The key counts as named from
/// now on.
pub fn read_items_box(reader: &mut ObjectReader<'_>, key: &'static str) -> (res: Result<
    Option<Box<Items>>,
    CodecError,
>)
    ensures
        final(reader).members() == old(reader).members(),
        final(reader).names() == old(reader).names().push(key@),
        match res {
            Ok(value) => items_box_field_fits(old(reader).members(), key@) && items_box_slot_model(value)
                == items_box_field_decoded(old(reader).members(), key@),
            Err(error) => !items_box_field_fits(old(reader).members(), key@) && error
                == CodecError::ShapeMismatch,
        },
    decreases old(reader).members(), 0nat,
{
    match present_json(reader.field(key)) {
        Some(inner) => match Items::decode_tree(inner) {
            Ok(value) => Ok(Some(Box::new(value))),
            Err(error) => Err(error),
        },
        None => Ok(None),
    }
}

/// Writes a field that may hold `Items`.
pub fn encode_items_box_slot(value: &Option<Box<Items>>) -> (res: Result<Option<Json>, CodecError>)
    ensures
        match res {
            Ok(slot) => items_box_slot_encodable(items_box_slot_model(*value)) && option_json_model(slot)
                == items_box_slot_encoded(items_box_slot_model(*value)),
            Err(error) => !items_box_slot_encodable(items_box_slot_model(*value)) && error
                == CodecError::ExtensionCollision,
        },
    decreases value, 0nat,
{
    match value {
        Some(inner) => match (**inner).encode_tree() {
            Ok(json) => Ok(Some(json)),
            Err(error) => Err(error),
        },
        None => Ok(None),
    }
}

/// A valid field that may hold `Items` comes back unchanged from
/// every object that holds under the key what the field is written as.
pub proof fn lemma_items_box_slot_round_trip(
    value: Option<Box<ItemsModel>>,
    members: Seq<EntryModel<JsonModel>>,
    key: Seq<char>,
)
    requires
        items_box_slot_valid(value),
        lookup(members, key) == items_box_slot_encoded(value),
    ensures
        items_box_slot_encodable(value),
        items_box_field_fits(members, key),
        items_box_field_decoded(members, key) == value,
    decreases value, 0nat,
{
    if let Some(inner) = value {
        Items::lemma_tree_round_trip(*inner);
    }
}

/// A field that may hold `Items` is valid as it was read.
pub proof fn lemma_items_box_slot_read_is_valid(members: Seq<EntryModel<JsonModel>>, key: Seq<char>)
    requires
        items_box_field_fits(members, key),
    ensures
        items_box_slot_valid(items_box_field_decoded(members, key)),
    decreases members, 0nat,
{
    if let Some(inner) = present(lookup(members, key)) {
        Items::lemma_tree_read_is_valid(inner);
    }
}

/// A deep copy of a field that may hold `Items`.
pub fn duplicate_items_box_slot(value: &Option<Box<Items>>) -> (copy: Option<Box<Items>>)
    ensures
        items_box_slot_model(copy) == items_box_slot_model(*value),
    decreases value, 0nat,
{
    match value {
        Some(inner) => Some(Box::new((**inner).duplicate_tree())),
        None => None,
    }
}

/// The mathematical value of a table of `Schema` values.
pub open spec fn schema_table_model(entries: Seq<Entry<Schema>>) -> Seq<EntryModel<SchemaModel>>
    decreases entries, 0nat,
{
    Seq::new(
        entries.len(),
        |i: int|
            if 0 <= i < entries.len() {
                EntryModel { key: entries[i].key@, value: entries[i].value.tree_model() }
            } else {
                arbitrary()
            },
    )
}

/// Whether a JSON value has the shape of a table of `Schema` values.
pub open spec fn schema_table_fits(json: JsonModel) -> bool
    decreases json, 0nat,
{
    json matches JsonModel::Object(members) && forall|i: int|
        0 <= i < members.len() ==> Schema::tree_fits((#[trigger] members[i]).value)
}

/// What a JSON value with the shape of a table of `Schema` values holds.
pub open spec fn schema_table_decoded(json: JsonModel) -> Seq<EntryModel<SchemaModel>>
    decreases json, 0nat,
{
    match json {
        JsonModel::Object(members) => Seq::new(
            members.len(),
            |i: int|
                if 0 <= i < members.len() {
                    EntryModel { key: members[i].key, value: Schema::tree_decoded(members[i].value) }
                } else {
                    arbitrary()
                },
        ),
        _ => Seq::empty(),
    }
}

/// Whether a table of `Schema` values can be written.
pub open spec fn schema_table_encodable(value: Seq<EntryModel<SchemaModel>>) -> bool
    decreases value, 0nat,
{
    forall|i: int| 0 <= i < value.len() ==> Schema::tree_encodable((#[trigger] value[i]).value)
}

/// Whether a table of `Schema` values comes back unchanged.
pub open spec fn schema_table_valid(value: Seq<EntryModel<SchemaModel>>) -> bool
    decreases value, 0nat,
{
    forall|i: int| 0 <= i < value.len() ==> Schema::tree_valid((#[trigger] value[i]).value)
}

/// The JSON value that a table of `Schema` values is written as.
pub open spec fn schema_table_encoded(value: Seq<EntryModel<SchemaModel>>) -> JsonModel
    decreases value, 0nat,
{
    JsonModel::Object(
        Seq::new(
            value.len(),
            |i: int|
                if 0 <= i < value.len() {
                    EntryModel { key: value[i].key, value: Schema::tree_encoded(value[i].value) }
                } else {
                    arbitrary()
                },
        ),
    )
}

/// Reads a table of `Schema` values.
pub fn decode_schema_table(json: &Json) -> (res: Result<Table<Schema>, CodecError>)
    ensures
        match res {
            Ok(value) => schema_table_fits(json.model()) && schema_table_model(value.entries@)
                == schema_table_decoded(json.model()),
            Err(error) => !schema_table_fits(json.model()) && error == CodecError::ShapeMismatch,
        },
    decreases json.model(), 0nat,
{
    match json {
        Json::Object(members) => {
            let mut entries: Vec<Entry<Schema>> = Vec::new();
            let mut i: usize = 0;
            while i < members.len()
                invariant
                    i <= members.len(),
                    entries.len() == i,
                    json.model() == JsonModel::Object(members_model(members@)),
                    forall|j: int|
                        0 <= j < i ==> Schema::tree_fits((#[trigger] members_model(members@)[j]).value)
                            && entries@[j].key@ == members_model(members@)[j].key
                            && entries@[j].value.tree_model() == Schema::tree_decoded(members_model(members@)[j].value),
                decreases members.len() - i,
            {
                assert(json.model()->Object_0[i as int].value == members@[i as int].value.model());
                match Schema::decode_tree(&members[i].value) {
                    Ok(value) => {
                        entries.push(Entry { key: members[i].key.clone(), value: value });
                    },
                    Err(error) => {
                        assert(!Schema::tree_fits(json.model()->Object_0[i as int].value));
                        return Err(error);
                    },
                }
                i += 1;
            }
            let value = Table { entries };
            assert(schema_table_model(value.entries@) =~= schema_table_decoded(json.model()));
            Ok(value)
        },
        _ => Err(CodecError::ShapeMismatch),
    }
}

/// Writes a table of `Schema` values.
pub fn encode_schema_table(table: &Table<Schema>) -> (res: Result<Json, CodecError>)
    ensures
        match res {
            Ok(json) => schema_table_encodable(schema_table_model(table.entries@)) && json.model()
                == schema_table_encoded(schema_table_model(table.entries@)),
            Err(error) => !schema_table_encodable(schema_table_model(table.entries@)) && error
                == CodecError::ExtensionCollision,
        },
    decreases table, 0nat,
{
    let ghost value = schema_table_model(table.entries@);
    let mut members: Vec<Entry<Json>> = Vec::new();
    let mut i: usize = 0;
    while i < table.entries.len()
        invariant
            i <= table.entries.len(),
            members.len() == i,
            value == schema_table_model(table.entries@),
            forall|j: int|
                0 <= j < i ==> Schema::tree_encodable((#[trigger] value[j]).value)
                    && members@[j].key@ == value[j].key
                    && members@[j].value.model() == Schema::tree_encoded(value[j].value),
        decreases table.entries.len() - i,
    {
        assert(value[i as int].value == table.entries@[i as int].value.tree_model());
        match table.entries[i].value.encode_tree() {
            Ok(json) => {
                members.push(Entry { key: table.entries[i].key.clone(), value: json });
            },
            Err(error) => {
                assert(!Schema::tree_encodable(value[i as int].value));
                return Err(error);
            },
        }
        i += 1;
    }
    assert(members_model(members@) =~= schema_table_encoded(value)->Object_0);
    Ok(Json::Object(members))
}

/// A table of `Schema` values that is valid comes back unchanged.
pub proof fn lemma_schema_table_round_trip(value: Seq<EntryModel<SchemaModel>>)
    requires
        schema_table_valid(value),
    ensures
        schema_table_encodable(value),
        schema_table_fits(schema_table_encoded(value)),
        schema_table_decoded(schema_table_encoded(value)) == value,
    decreases value, 0nat,
{
    let members = schema_table_encoded(value)->Object_0;
    assert forall|i: int| 0 <= i < value.len() implies Schema::tree_encodable((#[trigger] value[i]).value)
        && Schema::tree_fits(members[i].value) && Schema::tree_decoded(members[i].value) == value[i].value by {
        Schema::lemma_tree_round_trip(value[i].value);
    }
    assert(schema_table_decoded(schema_table_encoded(value)) =~= value);
}

/// A table of `Schema` values that was read is valid.
pub proof fn lemma_schema_table_read_is_valid(json: JsonModel)
    requires
        schema_table_fits(json),
    ensures
        schema_table_valid(schema_table_decoded(json)),
        json != JsonModel::Null ==> schema_table_encoded(schema_table_decoded(json)) != JsonModel::Null,
        sniffed(json) is Inline ==> sniffed(schema_table_encoded(schema_table_decoded(json))) is Inline,
    decreases json, 0nat,
{
    let members = json->Object_0;
    let value = schema_table_decoded(json);
    assert forall|i: int| 0 <= i < value.len() implies Schema::tree_valid((#[trigger] value[i]).value) by {
        Schema::lemma_tree_read_is_valid(members[i].value);
    }
    lemma_lookup_same_keys(schema_table_encoded(value)->Object_0, members, POINTER_KEY@);
}

/// A deep copy of a table of `Schema` values.
pub fn duplicate_schema_table(table: &Table<Schema>) -> (copy: Table<Schema>)
    ensures
        schema_table_model(copy.entries@) == schema_table_model(table.entries@),
    decreases table, 0nat,
{
    let mut copies: Vec<Entry<Schema>> = Vec::new();
    let mut i: usize = 0;
    while i < table.entries.len()
        invariant
            i <= table.entries.len(),
            copies.len() == i,
            forall|j: int|
                0 <= j < i ==> copies@[j].key@ == table.entries@[j].key@ && copies@[j].value.tree_model()
                    == table.entries@[j].value.tree_model(),
        decreases table.entries.len() - i,
    {
        copies.push(Entry { key: table.entries[i].key.clone(), value: table.entries[i].value.duplicate_tree() });
        i += 1;
    }
    let copy = Table { entries: copies };
    assert(schema_table_model(copy.entries@) =~= schema_table_model(table.entries@));
    copy
}

/// The mathematical value of a list of `Schema` values.
pub open spec fn schema_list_model(list: Seq<Box<Schema>>) -> Seq<SchemaModel>
    decreases list, 0nat,
{
    Seq::new(
        list.len(),
        |i: int|
            if 0 <= i < list.len() {
                (*list[i]).tree_model()
            } else {
                arbitrary()
            },
    )
}

/// Whether a JSON value has the shape of a list of `Schema` values.
pub open spec fn schema_list_fits(json: JsonModel) -> bool
    decreases json, 0nat,
{
    json matches JsonModel::Array(items) && forall|i: int|
        0 <= i < items.len() ==> Schema::tree_fits(#[trigger] items[i])
}

/// What a JSON value with the shape of a list of `Schema` values holds.
pub open spec fn schema_list_decoded(json: JsonModel) -> Seq<SchemaModel>
    decreases json, 0nat,
{
    match json {
        JsonModel::Array(items) => Seq::new(
            items.len(),
            |i: int|
                if 0 <= i < items.len() {
                    Schema::tree_decoded(items[i])
                } else {
                    arbitrary()
                },
        ),
        _ => Seq::empty(),
    }
}

/// Whether a list of `Schema` values can be written.
pub open spec fn schema_list_encodable(value: Seq<SchemaModel>) -> bool
    decreases value, 0nat,
{
    forall|i: int| 0 <= i < value.len() ==> Schema::tree_encodable(#[trigger] value[i])
}

/// Whether a list of `Schema` values comes back unchanged.
pub open spec fn schema_list_valid(value: Seq<SchemaModel>) -> bool
    decreases value, 0nat,
{
    forall|i: int| 0 <= i < value.len() ==> Schema::tree_valid(#[trigger] value[i])
}

/// The JSON value that a list of `Schema` values is written as.
pub open spec fn schema_list_encoded(value: Seq<SchemaModel>) -> JsonModel
    decreases value, 0nat,
{
    JsonModel::Array(
        Seq::new(
            value.len(),
            |i: int|
                if 0 <= i < value.len() {
                    Schema::tree_encoded(value[i])
                } else {
                    arbitrary()
                },
        ),
    )
}

/// Reads a list of `Schema` values.
pub fn decode_schema_list(json: &Json) -> (res: Result<Vec<Box<Schema>>, CodecError>)
    ensures
        match res {
            Ok(value) => schema_list_fits(json.model()) && schema_list_model(value@)
                == schema_list_decoded(json.model()),
            Err(error) => !schema_list_fits(json.model()) && error == CodecError::ShapeMismatch,
        },
    decreases json.model(), 0nat,
{
    match json {
        Json::Array(items) => {
            let mut list: Vec<Box<Schema>> = Vec::new();
            let mut i: usize = 0;
            while i < items.len()
                invariant
                    i <= items.len(),
                    list.len() == i,
                    json.model() == JsonModel::Array(items_model(items@)),
                    forall|j: int|
                        0 <= j < i ==> Schema::tree_fits(#[trigger] items_model(items@)[j])
                            && (*list@[j]).tree_model() == Schema::tree_decoded(items_model(items@)[j]),
                decreases items.len() - i,
            {
                assert(json.model()->Array_0[i as int] == items@[i as int].model());
                match Schema::decode_tree(&items[i]) {
                    Ok(value) => {
                        list.push(Box::new(value));
                    },
                    Err(error) => {
                        assert(!Schema::tree_fits(json.model()->Array_0[i as int]));
                        return Err(error);
                    },
                }
                i += 1;
            }
            assert(schema_list_model(list@) =~= schema_list_decoded(json.model()));
            Ok(list)
        },
        _ => Err(CodecError::ShapeMismatch),
    }
}

/// Writes a list of `Schema` values.
pub fn encode_schema_list(list: &Vec<Box<Schema>>) -> (res: Result<Json, CodecError>)
    ensures
        match res {
            Ok(json) => schema_list_encodable(schema_list_model(list@)) && json.model()
                == schema_list_encoded(schema_list_model(list@)),
            Err(error) => !schema_list_encodable(schema_list_model(list@)) && error
                == CodecError::ExtensionCollision,
        },
    decreases list, 0nat,
{
    let ghost value = schema_list_model(list@);
    let mut items: Vec<Json> = Vec::new();
    let mut i: usize = 0;
    while i < list.len()
        invariant
            i <= list.len(),
            items.len() == i,
            value == schema_list_model(list@),
            forall|j: int|
                0 <= j < i ==> Schema::tree_encodable(#[trigger] value[j])
                    && items@[j].model() == Schema::tree_encoded(value[j]),
        decreases list.len() - i,
    {
        assert(value[i as int] == (*list@[i as int]).tree_model());
        match (*list[i]).encode_tree() {
            Ok(json) => {
                items.push(json);
            },
            Err(error) => {
                assert(!Schema::tree_encodable(value[i as int]));
                return Err(error);
            },
        }
        i += 1;
    }
    assert(items_model(items@) =~= schema_list_encoded(value)->Array_0);
    Ok(Json::Array(items))
}

/// A list of `Schema` values that is valid comes back unchanged.
pub proof fn lemma_schema_list_round_trip(value: Seq<SchemaModel>)
    requires
        schema_list_valid(value),
    ensures
        schema_list_encodable(value),
        schema_list_fits(schema_list_encoded(value)),
        schema_list_decoded(schema_list_encoded(value)) == value,
    decreases value, 0nat,
{
    let items = schema_list_encoded(value)->Array_0;
    assert forall|i: int| 0 <= i < value.len() implies Schema::tree_encodable(#[trigger] value[i])
        && Schema::tree_fits(items[i]) && Schema::tree_decoded(items[i]) == value[i] by {
        Schema::lemma_tree_round_trip(value[i]);
    }
    assert(schema_list_decoded(schema_list_encoded(value)) =~= value);
}

/// A list of `Schema` values that was read is valid.
pub proof fn lemma_schema_list_read_is_valid(json: JsonModel)
    requires
        schema_list_fits(json),
    ensures
        schema_list_valid(schema_list_decoded(json)),
        json != JsonModel::Null ==> schema_list_encoded(schema_list_decoded(json)) != JsonModel::Null,
        sniffed(json) is Inline ==> sniffed(schema_list_encoded(schema_list_decoded(json))) is Inline,
    decreases json, 0nat,
{
    let items = json->Array_0;
    let value = schema_list_decoded(json);
    assert forall|i: int| 0 <= i < value.len() implies Schema::tree_valid(#[trigger] value[i]) by {
        Schema::lemma_tree_read_is_valid(items[i]);
    }
}

/// A deep copy of a list of `Schema` values.
pub fn duplicate_schema_list(list: &Vec<Box<Schema>>) -> (copy: Vec<Box<Schema>>)
    ensures
        schema_list_model(copy@) == schema_list_model(list@),
    decreases list, 0nat,
{
    let mut copies: Vec<Box<Schema>> = Vec::new();
    let mut i: usize = 0;
    while i < list.len()
        invariant
            i <= list.len(),
            copies.len() == i,
            forall|j: int|
                0 <= j < i ==> (*copies@[j]).tree_model() == (*list@[j]).tree_model(),
        decreases list.len() - i,
    {
        copies.push(Box::new((*list[i]).duplicate_tree()));
        i += 1;
    }
    assert(schema_list_model(copies@) =~= schema_list_model(list@));
    copies
}

} // verus!
