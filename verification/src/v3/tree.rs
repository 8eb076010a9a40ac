//! Reading and writing the types of the newer format that contain values of
//! their own type, and the lists, tables and references of such values.
//!
//! The functions of such a type call each other in a circle, so they are
//! written here as functions of their own, each with the measure by which it
//! ends; the `Codec` of the type hands on to them.

use vstd::prelude::*;
use serde_json::Number;
use crate::codec::{
    Codec, decode_optional, decode_required, duplicate_optional, encode_optional,
    encode_required, lemma_optional_read_is_valid, lemma_optional_round_trip,
    lemma_required_read_is_valid, lemma_required_round_trip, option_json_model, option_model,
    optional_decoded, optional_encodable, optional_encoded, optional_fits, optional_valid,
    present, present_json, required_decoded, required_encodable, required_encoded,
    required_fits, required_valid, Table,
};
use crate::error::CodecError;
use crate::extension::{
    assembled, collides, Extensions, lemma_assembled_lookup, lemma_assembled_lookup_other,
    lemma_assembled_remainder, lemma_named_lookup, lemma_named_lookup_other,
    lemma_remainder_lookup, lemma_remainder_unnamed, named_members, ObjectReader, ObjectWriter,
    remainder,
};
use crate::json::{
    Entry, EntryModel, items_model, Json, JsonModel, lemma_lookup_same_keys, lookup,
    members_model,
};
use crate::resolver::{
    lemma_pointer_object_sniffed, pointer_json, POINTER_KEY, pointer_object, Sniff, sniff,
    Sniffed, sniffed,
};
use crate::v3::schema::{
    Discriminator, Encoding, EncodingModel, Example, ExternalDoc, Header, HeaderModel, Media,
    MediaModel, Operation, OperationModel, Parameter, PathItem, PathItemModel, Reference,
    ReferenceModel, RefOrObject, RefOrObjectModel, RequestBody, Response, Schema, SchemaModel,
    Server, XML,
};

verus! {

impl PathItem {
    /// The keys of the named fields, in the order in which they are written.
    pub open spec fn names() -> Seq<Seq<char>> {
        Seq::empty()
            .push("$ref"@)
            .push("summary"@)
            .push("description"@)
            .push("get"@)
            .push("put"@)
            .push("post"@)
            .push("delete"@)
            .push("options"@)
            .push("head"@)
            .push("patch"@)
            .push("trace"@)
            .push("servers"@)
            .push("parameters"@)
    }

    /// What each named field is written as, in the order of the names.
    pub open spec fn slots(value: PathItemModel) -> Seq<Option<JsonModel>>
        decreases value, 0nat,
    {
        Seq::empty()
            .push(optional_encoded::<String>(value.reference))
            .push(optional_encoded::<String>(value.summary))
            .push(optional_encoded::<String>(value.description))
            .push(operation_slot_encoded(value.get))
            .push(operation_slot_encoded(value.put))
            .push(operation_slot_encoded(value.post))
            .push(operation_slot_encoded(value.delete))
            .push(operation_slot_encoded(value.options))
            .push(operation_slot_encoded(value.head))
            .push(operation_slot_encoded(value.patch))
            .push(operation_slot_encoded(value.trace))
            .push(optional_encoded::<Vec<Server>>(value.servers))
            .push(optional_encoded::<Vec<RefOrObject<Parameter>>>(value.parameters))
    }

    /// No key is named twice.
    pub proof fn lemma_names_distinct()
        ensures
            Self::names().no_duplicates(),
    {
        reveal_strlit("$ref");
        reveal_strlit("summary");
        reveal_strlit("description");
        reveal_strlit("get");
        reveal_strlit("put");
        reveal_strlit("post");
        reveal_strlit("delete");
        reveal_strlit("options");
        reveal_strlit("head");
        reveal_strlit("patch");
        reveal_strlit("trace");
        reveal_strlit("servers");
        reveal_strlit("parameters");
        assert("$ref"@.len() == 4 && "$ref"@[0] == '$');
        assert("summary"@.len() == 7 && "summary"@[0] == 's' && "summary"@[1] == 'u');
        assert("description"@.len() == 11);
        assert("get"@.len() == 3 && "get"@[0] == 'g');
        assert("put"@.len() == 3 && "put"@[0] == 'p');
        assert("post"@.len() == 4 && "post"@[0] == 'p');
        assert("delete"@.len() == 6);
        assert("options"@.len() == 7 && "options"@[0] == 'o');
        assert("head"@.len() == 4 && "head"@[0] == 'h');
        assert("patch"@.len() == 5 && "patch"@[0] == 'p');
        assert("trace"@.len() == 5 && "trace"@[0] == 't');
        assert("servers"@.len() == 7 && "servers"@[0] == 's' && "servers"@[1] == 'e');
        assert("parameters"@.len() == 10);
    }

    /// The mathematical value.
    pub open spec fn tree_model(&self) -> PathItemModel
        decreases self, 0nat,
    {
        PathItemModel {
            reference: option_model(self.reference),
            summary: option_model(self.summary),
            description: option_model(self.description),
            get: operation_slot_model(self.get),
            put: operation_slot_model(self.put),
            post: operation_slot_model(self.post),
            delete: operation_slot_model(self.delete),
            options: operation_slot_model(self.options),
            head: operation_slot_model(self.head),
            patch: operation_slot_model(self.patch),
            trace: operation_slot_model(self.trace),
            servers: option_model(self.servers),
            parameters: option_model(self.parameters),
            extensions: self.extensions.model(),
        }
    }

    /// Whether a JSON value has the shape of the type.
    pub open spec fn tree_fits(json: JsonModel) -> bool
        decreases json, 0nat,
    {
        &&& json is Object
        &&& optional_fits::<String>(lookup(json->Object_0, "$ref"@))
        &&& optional_fits::<String>(lookup(json->Object_0, "summary"@))
        &&& optional_fits::<String>(lookup(json->Object_0, "description"@))
        &&& operation_field_fits(json->Object_0, "get"@)
        &&& operation_field_fits(json->Object_0, "put"@)
        &&& operation_field_fits(json->Object_0, "post"@)
        &&& operation_field_fits(json->Object_0, "delete"@)
        &&& operation_field_fits(json->Object_0, "options"@)
        &&& operation_field_fits(json->Object_0, "head"@)
        &&& operation_field_fits(json->Object_0, "patch"@)
        &&& operation_field_fits(json->Object_0, "trace"@)
        &&& optional_fits::<Vec<Server>>(lookup(json->Object_0, "servers"@))
        &&& optional_fits::<Vec<RefOrObject<Parameter>>>(lookup(json->Object_0, "parameters"@))
    }

    /// What a JSON value of the right shape holds.
    pub open spec fn tree_decoded(json: JsonModel) -> PathItemModel
        decreases json, 0nat,
    {
        if json is Object {
            PathItemModel {
                reference: optional_decoded::<String>(lookup(json->Object_0, "$ref"@)),
                summary: optional_decoded::<String>(lookup(json->Object_0, "summary"@)),
                description: optional_decoded::<String>(lookup(json->Object_0, "description"@)),
                get: operation_field_decoded(json->Object_0, "get"@),
                put: operation_field_decoded(json->Object_0, "put"@),
                post: operation_field_decoded(json->Object_0, "post"@),
                delete: operation_field_decoded(json->Object_0, "delete"@),
                options: operation_field_decoded(json->Object_0, "options"@),
                head: operation_field_decoded(json->Object_0, "head"@),
                patch: operation_field_decoded(json->Object_0, "patch"@),
                trace: operation_field_decoded(json->Object_0, "trace"@),
                servers: optional_decoded::<Vec<Server>>(lookup(json->Object_0, "servers"@)),
                parameters: optional_decoded::<Vec<RefOrObject<Parameter>>>(lookup(json->Object_0, "parameters"@)),
                extensions: remainder(json->Object_0, Self::names()),
            }
        } else {
            arbitrary()
        }
    }

    /// Whether the value can be written.
    pub open spec fn tree_encodable(value: PathItemModel) -> bool
        decreases value, 0nat,
    {
        &&& optional_encodable::<String>(value.reference)
        &&& optional_encodable::<String>(value.summary)
        &&& optional_encodable::<String>(value.description)
        &&& operation_slot_encodable(value.get)
        &&& operation_slot_encodable(value.put)
        &&& operation_slot_encodable(value.post)
        &&& operation_slot_encodable(value.delete)
        &&& operation_slot_encodable(value.options)
        &&& operation_slot_encodable(value.head)
        &&& operation_slot_encodable(value.patch)
        &&& operation_slot_encodable(value.trace)
        &&& optional_encodable::<Vec<Server>>(value.servers)
        &&& optional_encodable::<Vec<RefOrObject<Parameter>>>(value.parameters)
        &&& !collides(Self::names(), value.extensions)
    }

    /// Whether reading what was written gives the value back.
    pub open spec fn tree_valid(value: PathItemModel) -> bool
        decreases value, 0nat,
    {
        &&& optional_valid::<String>(value.reference)
        &&& optional_valid::<String>(value.summary)
        &&& optional_valid::<String>(value.description)
        &&& operation_slot_valid(value.get)
        &&& operation_slot_valid(value.put)
        &&& operation_slot_valid(value.post)
        &&& operation_slot_valid(value.delete)
        &&& operation_slot_valid(value.options)
        &&& operation_slot_valid(value.head)
        &&& operation_slot_valid(value.patch)
        &&& operation_slot_valid(value.trace)
        &&& optional_valid::<Vec<Server>>(value.servers)
        &&& optional_valid::<Vec<RefOrObject<Parameter>>>(value.parameters)
        &&& !collides(Self::names(), value.extensions)
    }

    /// The JSON value that the value is written as.
    pub open spec fn tree_encoded(value: PathItemModel) -> JsonModel
        decreases value, 1nat,
    {
        JsonModel::Object(assembled(Self::names(), Self::slots(value), value.extensions))
    }

    /// Puts the fields of a value together.
    fn from_fields(
        reference: Option<String>,
        summary: Option<String>,
        description: Option<String>,
        get: Option<Operation>,
        put: Option<Operation>,
        post: Option<Operation>,
        delete: Option<Operation>,
        options: Option<Operation>,
        head: Option<Operation>,
        patch: Option<Operation>,
        trace: Option<Operation>,
        servers: Option<Vec<Server>>,
        parameters: Option<Vec<RefOrObject<Parameter>>>,
        extensions: Extensions,
    ) -> (value: PathItem)
        ensures
            value.tree_model() == (PathItemModel {
                reference: option_model(reference),
                summary: option_model(summary),
                description: option_model(description),
                get: operation_slot_model(get),
                put: operation_slot_model(put),
                post: operation_slot_model(post),
                delete: operation_slot_model(delete),
                options: operation_slot_model(options),
                head: operation_slot_model(head),
                patch: operation_slot_model(patch),
                trace: operation_slot_model(trace),
                servers: option_model(servers),
                parameters: option_model(parameters),
                extensions: extensions.model(),
            }),
    {
        PathItem { reference, summary, description, get, put, post, delete, options, head, patch, trace, servers, parameters, extensions }
    }

    /// Reads a value. Fails with `ShapeMismatch` exactly on JSON of another
    /// shape.
    pub fn decode_tree(json: &Json) -> (res: Result<PathItem, CodecError>)
        ensures
            match res {
                Ok(value) => Self::tree_fits(json.model()) && value.tree_model()
                    == Self::tree_decoded(json.model()),
                Err(error) => !Self::tree_fits(json.model()) && error
                    == CodecError::ShapeMismatch,
            },
        decreases json.model(), 0nat,
    {
        let members = match json {
            Json::Object(members) => members,
            _ => {
                return Err(CodecError::ShapeMismatch);
            },
        };
        let mut reader = ObjectReader::new(members);
        let reference = decode_optional::<String>(reader.field("$ref"))?;
        let summary = decode_optional::<String>(reader.field("summary"))?;
        let description = decode_optional::<String>(reader.field("description"))?;
        let get = read_operation(&mut reader, "get")?;
        let put = read_operation(&mut reader, "put")?;
        let post = read_operation(&mut reader, "post")?;
        let delete = read_operation(&mut reader, "delete")?;
        let options = read_operation(&mut reader, "options")?;
        let head = read_operation(&mut reader, "head")?;
        let patch = read_operation(&mut reader, "patch")?;
        let trace = read_operation(&mut reader, "trace")?;
        let servers = decode_optional::<Vec<Server>>(reader.field("servers"))?;
        let parameters = decode_optional::<Vec<RefOrObject<Parameter>>>(reader.field("parameters"))?;
        let extensions = reader.rest();
        Ok(PathItem::from_fields(reference, summary, description, get, put, post, delete, options, head, patch, trace, servers, parameters, extensions))
    }

    /// Writes the value. Fails with `ExtensionCollision` exactly on a value
    /// that is not encodable.
    pub fn encode_tree(&self) -> (res: Result<Json, CodecError>)
        ensures
            match res {
                Ok(json) => Self::tree_encodable(self.tree_model()) && json.model()
                    == Self::tree_encoded(self.tree_model()),
                Err(error) => !Self::tree_encodable(self.tree_model()) && error
                    == CodecError::ExtensionCollision,
            },
        decreases self, 0nat,
    {
        let writer = ObjectWriter::new();
        let writer = writer.put("$ref", encode_optional::<String>(&self.reference)?);
        let writer = writer.put("summary", encode_optional::<String>(&self.summary)?);
        let writer = writer.put("description", encode_optional::<String>(&self.description)?);
        let writer = writer.put("get", encode_operation_slot(&self.get)?);
        let writer = writer.put("put", encode_operation_slot(&self.put)?);
        let writer = writer.put("post", encode_operation_slot(&self.post)?);
        let writer = writer.put("delete", encode_operation_slot(&self.delete)?);
        let writer = writer.put("options", encode_operation_slot(&self.options)?);
        let writer = writer.put("head", encode_operation_slot(&self.head)?);
        let writer = writer.put("patch", encode_operation_slot(&self.patch)?);
        let writer = writer.put("trace", encode_operation_slot(&self.trace)?);
        let writer = writer.put("servers", encode_optional::<Vec<Server>>(&self.servers)?);
        let writer = writer.put("parameters", encode_optional::<Vec<RefOrObject<Parameter>>>(&self.parameters)?);
        writer.finish_with(&self.extensions)
    }

    /// A valid value can be written, what is written has the shape of the
    /// type, and reading it gives the value back.
    pub proof fn lemma_tree_round_trip(value: PathItemModel)
        requires
            Self::tree_valid(value),
        ensures
            Self::tree_encodable(value),
            Self::tree_fits(Self::tree_encoded(value)),
            Self::tree_decoded(Self::tree_encoded(value)) == value,
        decreases value, 0nat,
    {
        let names = Self::names();
        let slots = Self::slots(value);
        let members = Self::tree_encoded(value)->Object_0;
        Self::lemma_names_distinct();
        lemma_assembled_lookup(names, slots, value.extensions, 0);
        lemma_assembled_lookup(names, slots, value.extensions, 1);
        lemma_assembled_lookup(names, slots, value.extensions, 2);
        lemma_assembled_lookup(names, slots, value.extensions, 3);
        lemma_assembled_lookup(names, slots, value.extensions, 4);
        lemma_assembled_lookup(names, slots, value.extensions, 5);
        lemma_assembled_lookup(names, slots, value.extensions, 6);
        lemma_assembled_lookup(names, slots, value.extensions, 7);
        lemma_assembled_lookup(names, slots, value.extensions, 8);
        lemma_assembled_lookup(names, slots, value.extensions, 9);
        lemma_assembled_lookup(names, slots, value.extensions, 10);
        lemma_assembled_lookup(names, slots, value.extensions, 11);
        lemma_assembled_lookup(names, slots, value.extensions, 12);
        lemma_assembled_remainder(names, slots, value.extensions);
        lemma_optional_round_trip::<String>(value.reference);
        lemma_optional_round_trip::<String>(value.summary);
        lemma_optional_round_trip::<String>(value.description);
        lemma_operation_slot_round_trip(value.get, members, "get"@);
        lemma_operation_slot_round_trip(value.put, members, "put"@);
        lemma_operation_slot_round_trip(value.post, members, "post"@);
        lemma_operation_slot_round_trip(value.delete, members, "delete"@);
        lemma_operation_slot_round_trip(value.options, members, "options"@);
        lemma_operation_slot_round_trip(value.head, members, "head"@);
        lemma_operation_slot_round_trip(value.patch, members, "patch"@);
        lemma_operation_slot_round_trip(value.trace, members, "trace"@);
        lemma_optional_round_trip::<Vec<Server>>(value.servers);
        lemma_optional_round_trip::<Vec<RefOrObject<Parameter>>>(value.parameters);
    }

    /// What was read is valid. What is written of it is `null` only where it
    /// was read from `null`, and holds the pointer key only where what it was
    /// read from held it.
    pub proof fn lemma_tree_read_is_valid(json: JsonModel)
        requires
            Self::tree_fits(json),
        ensures
            Self::tree_valid(Self::tree_decoded(json)),
            json != JsonModel::Null ==> Self::tree_encoded(Self::tree_decoded(json))
                != JsonModel::Null,
            sniffed(json) is Inline ==> sniffed(
                Self::tree_encoded(Self::tree_decoded(json)),
            ) is Inline,
        decreases json, 0nat,
    {
        let members = json->Object_0;
        let names = Self::names();
        let value = Self::tree_decoded(json);
        let slots = Self::slots(value);
        lemma_optional_read_is_valid::<String>(lookup(members, "$ref"@));
        lemma_optional_read_is_valid::<String>(lookup(members, "summary"@));
        lemma_optional_read_is_valid::<String>(lookup(members, "description"@));
        lemma_operation_slot_read_is_valid(members, "get"@);
        lemma_operation_slot_read_is_valid(members, "put"@);
        lemma_operation_slot_read_is_valid(members, "post"@);
        lemma_operation_slot_read_is_valid(members, "delete"@);
        lemma_operation_slot_read_is_valid(members, "options"@);
        lemma_operation_slot_read_is_valid(members, "head"@);
        lemma_operation_slot_read_is_valid(members, "patch"@);
        lemma_operation_slot_read_is_valid(members, "trace"@);
        lemma_optional_read_is_valid::<Vec<Server>>(lookup(members, "servers"@));
        lemma_optional_read_is_valid::<Vec<RefOrObject<Parameter>>>(lookup(members, "parameters"@));
        lemma_remainder_unnamed(members, names);
        Self::lemma_names_distinct();
        lemma_assembled_lookup(names, slots, value.extensions, 0);
        reveal(optional_decoded);
        reveal(optional_encoded);
    }

    /// A deep copy: a value of its own that holds the same.
    pub fn duplicate_tree(&self) -> (copy: PathItem)
        ensures
            copy.tree_model() == self.tree_model(),
        decreases self, 0nat,
    {
        PathItem::from_fields(
            duplicate_optional(&self.reference),
            duplicate_optional(&self.summary),
            duplicate_optional(&self.description),
            duplicate_operation_slot(&self.get),
            duplicate_operation_slot(&self.put),
            duplicate_operation_slot(&self.post),
            duplicate_operation_slot(&self.delete),
            duplicate_operation_slot(&self.options),
            duplicate_operation_slot(&self.head),
            duplicate_operation_slot(&self.patch),
            duplicate_operation_slot(&self.trace),
            duplicate_optional(&self.servers),
            duplicate_optional(&self.parameters),
            self.extensions.duplicate(),
        )
    }
}

impl Clone for PathItem {
    fn clone(&self) -> (copy: PathItem)
        ensures
            copy.model() == self.model(),
    {
        self.duplicate()
    }
}

impl Codec for PathItem {
    type Model = PathItemModel;

    open spec fn model(&self) -> PathItemModel {
        self.tree_model()
    }

    open spec fn fits(json: JsonModel) -> bool {
        Self::tree_fits(json)
    }

    open spec fn decoded(json: JsonModel) -> PathItemModel {
        Self::tree_decoded(json)
    }

    open spec fn encodable(value: PathItemModel) -> bool {
        Self::tree_encodable(value)
    }

    open spec fn encoded(value: PathItemModel) -> JsonModel {
        Self::tree_encoded(value)
    }

    open spec fn valid(value: PathItemModel) -> bool {
        Self::tree_valid(value)
    }

    fn decode(json: &Json) -> (res: Result<PathItem, CodecError>) {
        PathItem::decode_tree(json)
    }

    fn encode(&self) -> (res: Result<Json, CodecError>) {
        self.encode_tree()
    }

    fn duplicate(&self) -> (copy: PathItem) {
        self.duplicate_tree()
    }

    proof fn lemma_round_trip(value: PathItemModel) {
        Self::lemma_tree_round_trip(value);
    }

    proof fn lemma_read_is_valid(json: JsonModel) {
        Self::lemma_tree_read_is_valid(json);
    }
}

impl Operation {
    /// The keys of the named fields, in the order in which they are written.
    pub open spec fn names() -> Seq<Seq<char>> {
        Seq::empty()
            .push("tags"@)
            .push("summary"@)
            .push("description"@)
            .push("externalDocs"@)
            .push("operationId"@)
            .push("parameters"@)
            .push("requestBody"@)
            .push("responses"@)
            .push("callbacks"@)
            .push("deprecated"@)
            .push("security"@)
            .push("servers"@)
    }

    /// What each named field is written as, in the order of the names.
    pub open spec fn slots(value: OperationModel) -> Seq<Option<JsonModel>>
        decreases value, 0nat,
    {
        Seq::empty()
            .push(optional_encoded::<Vec<String>>(value.tags))
            .push(optional_encoded::<String>(value.summary))
            .push(optional_encoded::<String>(value.description))
            .push(optional_encoded::<ExternalDoc>(value.external_docs))
            .push(optional_encoded::<String>(value.operation_id))
            .push(optional_encoded::<Vec<RefOrObject<Parameter>>>(value.parameters))
            .push(optional_encoded::<RefOrObject<RequestBody>>(value.request_body))
            .push(required_encoded::<Table<RefOrObject<Response>>>(value.responses))
            .push(path_item_table_or_ref_table_slot_encoded(value.callbacks))
            .push(optional_encoded::<bool>(value.deprecated))
            .push(optional_encoded::<Vec<Table<Vec<String>>>>(value.security))
            .push(optional_encoded::<Vec<Server>>(value.servers))
    }

    /// No key is named twice.
    pub proof fn lemma_names_distinct()
        ensures
            Self::names().no_duplicates(),
    {
        reveal_strlit("tags");
        reveal_strlit("summary");
        reveal_strlit("description");
        reveal_strlit("externalDocs");
        reveal_strlit("operationId");
        reveal_strlit("parameters");
        reveal_strlit("requestBody");
        reveal_strlit("responses");
        reveal_strlit("callbacks");
        reveal_strlit("deprecated");
        reveal_strlit("security");
        reveal_strlit("servers");
        assert("tags"@.len() == 4);
        assert("summary"@.len() == 7 && "summary"@[1] == 'u');
        assert("description"@.len() == 11 && "description"@[0] == 'd');
        assert("externalDocs"@.len() == 12);
        assert("operationId"@.len() == 11 && "operationId"@[0] == 'o');
        assert("parameters"@.len() == 10 && "parameters"@[0] == 'p');
        assert("requestBody"@.len() == 11 && "requestBody"@[0] == 'r');
        assert("responses"@.len() == 9 && "responses"@[0] == 'r');
        assert("callbacks"@.len() == 9 && "callbacks"@[0] == 'c');
        assert("deprecated"@.len() == 10 && "deprecated"@[0] == 'd');
        assert("security"@.len() == 8);
        assert("servers"@.len() == 7 && "servers"@[1] == 'e');
    }

    /// The pointer key is none of the names.
    pub proof fn lemma_pointer_unnamed()
        ensures
            !Self::names().contains(POINTER_KEY@),
    {
        reveal_strlit("$ref");
        reveal_strlit("tags");
        reveal_strlit("summary");
        reveal_strlit("description");
        reveal_strlit("externalDocs");
        reveal_strlit("operationId");
        reveal_strlit("parameters");
        reveal_strlit("requestBody");
        reveal_strlit("responses");
        reveal_strlit("callbacks");
        reveal_strlit("deprecated");
        reveal_strlit("security");
        reveal_strlit("servers");
        assert("$ref"@.len() == 4 && "$ref"@[0] == '$');
        assert("tags"@.len() == 4 && "tags"@[0] == 't');
        assert("summary"@.len() == 7);
        assert("description"@.len() == 11);
        assert("externalDocs"@.len() == 12);
        assert("operationId"@.len() == 11);
        assert("parameters"@.len() == 10);
        assert("requestBody"@.len() == 11);
        assert("responses"@.len() == 9);
        assert("callbacks"@.len() == 9);
        assert("deprecated"@.len() == 10);
        assert("security"@.len() == 8);
        assert("servers"@.len() == 7);
    }

    /// The mathematical value.
    pub open spec fn tree_model(&self) -> OperationModel
        decreases self, 0nat,
    {
        OperationModel {
            tags: option_model(self.tags),
            summary: option_model(self.summary),
            description: option_model(self.description),
            external_docs: option_model(self.external_docs),
            operation_id: option_model(self.operation_id),
            parameters: option_model(self.parameters),
            request_body: option_model(self.request_body),
            responses: self.responses.model(),
            callbacks: path_item_table_or_ref_table_slot_model(self.callbacks),
            deprecated: option_model(self.deprecated),
            security: option_model(self.security),
            servers: option_model(self.servers),
            extensions: self.extensions.model(),
        }
    }

    /// Whether a JSON value has the shape of the type.
    pub open spec fn tree_fits(json: JsonModel) -> bool
        decreases json, 0nat,
    {
        &&& json is Object
        &&& optional_fits::<Vec<String>>(lookup(json->Object_0, "tags"@))
        &&& optional_fits::<String>(lookup(json->Object_0, "summary"@))
        &&& optional_fits::<String>(lookup(json->Object_0, "description"@))
        &&& optional_fits::<ExternalDoc>(lookup(json->Object_0, "externalDocs"@))
        &&& optional_fits::<String>(lookup(json->Object_0, "operationId"@))
        &&& optional_fits::<Vec<RefOrObject<Parameter>>>(lookup(json->Object_0, "parameters"@))
        &&& optional_fits::<RefOrObject<RequestBody>>(lookup(json->Object_0, "requestBody"@))
        &&& required_fits::<Table<RefOrObject<Response>>>(lookup(json->Object_0, "responses"@))
        &&& path_item_table_or_ref_table_field_fits(json->Object_0, "callbacks"@)
        &&& optional_fits::<bool>(lookup(json->Object_0, "deprecated"@))
        &&& optional_fits::<Vec<Table<Vec<String>>>>(lookup(json->Object_0, "security"@))
        &&& optional_fits::<Vec<Server>>(lookup(json->Object_0, "servers"@))
    }

    /// What a JSON value of the right shape holds.
    pub open spec fn tree_decoded(json: JsonModel) -> OperationModel
        decreases json, 0nat,
    {
        if json is Object {
            OperationModel {
                tags: optional_decoded::<Vec<String>>(lookup(json->Object_0, "tags"@)),
                summary: optional_decoded::<String>(lookup(json->Object_0, "summary"@)),
                description: optional_decoded::<String>(lookup(json->Object_0, "description"@)),
                external_docs: optional_decoded::<ExternalDoc>(lookup(json->Object_0, "externalDocs"@)),
                operation_id: optional_decoded::<String>(lookup(json->Object_0, "operationId"@)),
                parameters: optional_decoded::<Vec<RefOrObject<Parameter>>>(lookup(json->Object_0, "parameters"@)),
                request_body: optional_decoded::<RefOrObject<RequestBody>>(lookup(json->Object_0, "requestBody"@)),
                responses: required_decoded::<Table<RefOrObject<Response>>>(lookup(json->Object_0, "responses"@)),
                callbacks: path_item_table_or_ref_table_field_decoded(json->Object_0, "callbacks"@),
                deprecated: optional_decoded::<bool>(lookup(json->Object_0, "deprecated"@)),
                security: optional_decoded::<Vec<Table<Vec<String>>>>(lookup(json->Object_0, "security"@)),
                servers: optional_decoded::<Vec<Server>>(lookup(json->Object_0, "servers"@)),
                extensions: remainder(json->Object_0, Self::names()),
            }
        } else {
            arbitrary()
        }
    }

    /// Whether the value can be written.
    pub open spec fn tree_encodable(value: OperationModel) -> bool
        decreases value, 0nat,
    {
        &&& optional_encodable::<Vec<String>>(value.tags)
        &&& optional_encodable::<String>(value.summary)
        &&& optional_encodable::<String>(value.description)
        &&& optional_encodable::<ExternalDoc>(value.external_docs)
        &&& optional_encodable::<String>(value.operation_id)
        &&& optional_encodable::<Vec<RefOrObject<Parameter>>>(value.parameters)
        &&& optional_encodable::<RefOrObject<RequestBody>>(value.request_body)
        &&& required_encodable::<Table<RefOrObject<Response>>>(value.responses)
        &&& path_item_table_or_ref_table_slot_encodable(value.callbacks)
        &&& optional_encodable::<bool>(value.deprecated)
        &&& optional_encodable::<Vec<Table<Vec<String>>>>(value.security)
        &&& optional_encodable::<Vec<Server>>(value.servers)
        &&& !collides(Self::names(), value.extensions)
    }

    /// Whether reading what was written gives the value back.
    pub open spec fn tree_valid(value: OperationModel) -> bool
        decreases value, 0nat,
    {
        &&& optional_valid::<Vec<String>>(value.tags)
        &&& optional_valid::<String>(value.summary)
        &&& optional_valid::<String>(value.description)
        &&& optional_valid::<ExternalDoc>(value.external_docs)
        &&& optional_valid::<String>(value.operation_id)
        &&& optional_valid::<Vec<RefOrObject<Parameter>>>(value.parameters)
        &&& optional_valid::<RefOrObject<RequestBody>>(value.request_body)
        &&& required_valid::<Table<RefOrObject<Response>>>(value.responses)
        &&& path_item_table_or_ref_table_slot_valid(value.callbacks)
        &&& optional_valid::<bool>(value.deprecated)
        &&& optional_valid::<Vec<Table<Vec<String>>>>(value.security)
        &&& optional_valid::<Vec<Server>>(value.servers)
        &&& !collides(Self::names(), value.extensions)
    }

    /// The JSON value that the value is written as.
    pub open spec fn tree_encoded(value: OperationModel) -> JsonModel
        decreases value, 1nat,
    {
        JsonModel::Object(assembled(Self::names(), Self::slots(value), value.extensions))
    }

    /// Puts the fields of a value together.
    fn from_fields(
        tags: Option<Vec<String>>,
        summary: Option<String>,
        description: Option<String>,
        external_docs: Option<ExternalDoc>,
        operation_id: Option<String>,
        parameters: Option<Vec<RefOrObject<Parameter>>>,
        request_body: Option<RefOrObject<RequestBody>>,
        responses: Table<RefOrObject<Response>>,
        callbacks: Option<Table<RefOrObject<Table<PathItem>>>>,
        deprecated: Option<bool>,
        security: Option<Vec<Table<Vec<String>>>>,
        servers: Option<Vec<Server>>,
        extensions: Extensions,
    ) -> (value: Operation)
        ensures
            value.tree_model() == (OperationModel {
                tags: option_model(tags),
                summary: option_model(summary),
                description: option_model(description),
                external_docs: option_model(external_docs),
                operation_id: option_model(operation_id),
                parameters: option_model(parameters),
                request_body: option_model(request_body),
                responses: responses.model(),
                callbacks: path_item_table_or_ref_table_slot_model(callbacks),
                deprecated: option_model(deprecated),
                security: option_model(security),
                servers: option_model(servers),
                extensions: extensions.model(),
            }),
    {
        Operation { tags, summary, description, external_docs, operation_id, parameters, request_body, responses, callbacks, deprecated, security, servers, extensions }
    }

    /// Reads a value. Fails with `ShapeMismatch` exactly on JSON of another
    /// shape.
    pub fn decode_tree(json: &Json) -> (res: Result<Operation, CodecError>)
        ensures
            match res {
                Ok(value) => Self::tree_fits(json.model()) && value.tree_model()
                    == Self::tree_decoded(json.model()),
                Err(error) => !Self::tree_fits(json.model()) && error
                    == CodecError::ShapeMismatch,
            },
        decreases json.model(), 0nat,
    {
        let members = match json {
            Json::Object(members) => members,
            _ => {
                return Err(CodecError::ShapeMismatch);
            },
        };
        let mut reader = ObjectReader::new(members);
        let tags = decode_optional::<Vec<String>>(reader.field("tags"))?;
        let summary = decode_optional::<String>(reader.field("summary"))?;
        let description = decode_optional::<String>(reader.field("description"))?;
        let external_docs = decode_optional::<ExternalDoc>(reader.field("externalDocs"))?;
        let operation_id = decode_optional::<String>(reader.field("operationId"))?;
        let parameters = decode_optional::<Vec<RefOrObject<Parameter>>>(reader.field("parameters"))?;
        let request_body = decode_optional::<RefOrObject<RequestBody>>(reader.field("requestBody"))?;
        let responses = decode_required::<Table<RefOrObject<Response>>>(reader.field("responses"))?;
        let callbacks = read_path_item_table_or_ref_table(&mut reader, "callbacks")?;
        let deprecated = decode_optional::<bool>(reader.field("deprecated"))?;
        let security = decode_optional::<Vec<Table<Vec<String>>>>(reader.field("security"))?;
        let servers = decode_optional::<Vec<Server>>(reader.field("servers"))?;
        let extensions = reader.rest();
        Ok(Operation::from_fields(tags, summary, description, external_docs, operation_id, parameters, request_body, responses, callbacks, deprecated, security, servers, extensions))
    }

    /// Writes the value. Fails with `ExtensionCollision` exactly on a value
    /// that is not encodable.
    pub fn encode_tree(&self) -> (res: Result<Json, CodecError>)
        ensures
            match res {
                Ok(json) => Self::tree_encodable(self.tree_model()) && json.model()
                    == Self::tree_encoded(self.tree_model()),
                Err(error) => !Self::tree_encodable(self.tree_model()) && error
                    == CodecError::ExtensionCollision,
            },
        decreases self, 0nat,
    {
        let writer = ObjectWriter::new();
        let writer = writer.put("tags", encode_optional::<Vec<String>>(&self.tags)?);
        let writer = writer.put("summary", encode_optional::<String>(&self.summary)?);
        let writer = writer.put("description", encode_optional::<String>(&self.description)?);
        let writer = writer.put("externalDocs", encode_optional::<ExternalDoc>(&self.external_docs)?);
        let writer = writer.put("operationId", encode_optional::<String>(&self.operation_id)?);
        let writer = writer.put("parameters", encode_optional::<Vec<RefOrObject<Parameter>>>(&self.parameters)?);
        let writer = writer.put("requestBody", encode_optional::<RefOrObject<RequestBody>>(&self.request_body)?);
        let writer = writer.put("responses", encode_required::<Table<RefOrObject<Response>>>(&self.responses)?);
        let writer = writer.put("callbacks", encode_path_item_table_or_ref_table_slot(&self.callbacks)?);
        let writer = writer.put("deprecated", encode_optional::<bool>(&self.deprecated)?);
        let writer = writer.put("security", encode_optional::<Vec<Table<Vec<String>>>>(&self.security)?);
        let writer = writer.put("servers", encode_optional::<Vec<Server>>(&self.servers)?);
        writer.finish_with(&self.extensions)
    }

    /// A valid value can be written, what is written has the shape of the
    /// type, and reading it gives the value back.
    pub proof fn lemma_tree_round_trip(value: OperationModel)
        requires
            Self::tree_valid(value),
        ensures
            Self::tree_encodable(value),
            Self::tree_fits(Self::tree_encoded(value)),
            Self::tree_decoded(Self::tree_encoded(value)) == value,
        decreases value, 0nat,
    {
        let names = Self::names();
        let slots = Self::slots(value);
        let members = Self::tree_encoded(value)->Object_0;
        Self::lemma_names_distinct();
        lemma_assembled_lookup(names, slots, value.extensions, 0);
        lemma_assembled_lookup(names, slots, value.extensions, 1);
        lemma_assembled_lookup(names, slots, value.extensions, 2);
        lemma_assembled_lookup(names, slots, value.extensions, 3);
        lemma_assembled_lookup(names, slots, value.extensions, 4);
        lemma_assembled_lookup(names, slots, value.extensions, 5);
        lemma_assembled_lookup(names, slots, value.extensions, 6);
        lemma_assembled_lookup(names, slots, value.extensions, 7);
        lemma_assembled_lookup(names, slots, value.extensions, 8);
        lemma_assembled_lookup(names, slots, value.extensions, 9);
        lemma_assembled_lookup(names, slots, value.extensions, 10);
        lemma_assembled_lookup(names, slots, value.extensions, 11);
        lemma_assembled_remainder(names, slots, value.extensions);
        lemma_optional_round_trip::<Vec<String>>(value.tags);
        lemma_optional_round_trip::<String>(value.summary);
        lemma_optional_round_trip::<String>(value.description);
        lemma_optional_round_trip::<ExternalDoc>(value.external_docs);
        lemma_optional_round_trip::<String>(value.operation_id);
        lemma_optional_round_trip::<Vec<RefOrObject<Parameter>>>(value.parameters);
        lemma_optional_round_trip::<RefOrObject<RequestBody>>(value.request_body);
        lemma_required_round_trip::<Table<RefOrObject<Response>>>(value.responses);
        lemma_path_item_table_or_ref_table_slot_round_trip(value.callbacks, members, "callbacks"@);
        lemma_optional_round_trip::<bool>(value.deprecated);
        lemma_optional_round_trip::<Vec<Table<Vec<String>>>>(value.security);
        lemma_optional_round_trip::<Vec<Server>>(value.servers);
    }

    /// What was read is valid. What is written of it is `null` only where it
    /// was read from `null`, and holds the pointer key only where what it was
    /// read from held it.
    pub proof fn lemma_tree_read_is_valid(json: JsonModel)
        requires
            Self::tree_fits(json),
        ensures
            Self::tree_valid(Self::tree_decoded(json)),
            json != JsonModel::Null ==> Self::tree_encoded(Self::tree_decoded(json))
                != JsonModel::Null,
            sniffed(json) is Inline ==> sniffed(
                Self::tree_encoded(Self::tree_decoded(json)),
            ) is Inline,
        decreases json, 0nat,
    {
        let members = json->Object_0;
        let names = Self::names();
        let value = Self::tree_decoded(json);
        let slots = Self::slots(value);
        lemma_optional_read_is_valid::<Vec<String>>(lookup(members, "tags"@));
        lemma_optional_read_is_valid::<String>(lookup(members, "summary"@));
        lemma_optional_read_is_valid::<String>(lookup(members, "description"@));
        lemma_optional_read_is_valid::<ExternalDoc>(lookup(members, "externalDocs"@));
        lemma_optional_read_is_valid::<String>(lookup(members, "operationId"@));
        lemma_optional_read_is_valid::<Vec<RefOrObject<Parameter>>>(lookup(members, "parameters"@));
        lemma_optional_read_is_valid::<RefOrObject<RequestBody>>(lookup(members, "requestBody"@));
        lemma_required_read_is_valid::<Table<RefOrObject<Response>>>(lookup(members, "responses"@));
        lemma_path_item_table_or_ref_table_slot_read_is_valid(members, "callbacks"@);
        lemma_optional_read_is_valid::<bool>(lookup(members, "deprecated"@));
        lemma_optional_read_is_valid::<Vec<Table<Vec<String>>>>(lookup(members, "security"@));
        lemma_optional_read_is_valid::<Vec<Server>>(lookup(members, "servers"@));
        lemma_remainder_unnamed(members, names);
        Self::lemma_pointer_unnamed();
        lemma_assembled_lookup_other(names, slots, value.extensions, POINTER_KEY@);
        lemma_remainder_lookup(members, names, POINTER_KEY@);
    }

    /// A deep copy: a value of its own that holds the same.
    pub fn duplicate_tree(&self) -> (copy: Operation)
        ensures
            copy.tree_model() == self.tree_model(),
        decreases self, 0nat,
    {
        Operation::from_fields(
            duplicate_optional(&self.tags),
            duplicate_optional(&self.summary),
            duplicate_optional(&self.description),
            duplicate_optional(&self.external_docs),
            duplicate_optional(&self.operation_id),
            duplicate_optional(&self.parameters),
            duplicate_optional(&self.request_body),
            self.responses.duplicate(),
            duplicate_path_item_table_or_ref_table_slot(&self.callbacks),
            duplicate_optional(&self.deprecated),
            duplicate_optional(&self.security),
            duplicate_optional(&self.servers),
            self.extensions.duplicate(),
        )
    }
}

impl Clone for Operation {
    fn clone(&self) -> (copy: Operation)
        ensures
            copy.model() == self.model(),
    {
        self.duplicate()
    }
}

impl Codec for Operation {
    type Model = OperationModel;

    open spec fn model(&self) -> OperationModel {
        self.tree_model()
    }

    open spec fn fits(json: JsonModel) -> bool {
        Self::tree_fits(json)
    }

    open spec fn decoded(json: JsonModel) -> OperationModel {
        Self::tree_decoded(json)
    }

    open spec fn encodable(value: OperationModel) -> bool {
        Self::tree_encodable(value)
    }

    open spec fn encoded(value: OperationModel) -> JsonModel {
        Self::tree_encoded(value)
    }

    open spec fn valid(value: OperationModel) -> bool {
        Self::tree_valid(value)
    }

    fn decode(json: &Json) -> (res: Result<Operation, CodecError>) {
        Operation::decode_tree(json)
    }

    fn encode(&self) -> (res: Result<Json, CodecError>) {
        self.encode_tree()
    }

    fn duplicate(&self) -> (copy: Operation) {
        self.duplicate_tree()
    }

    proof fn lemma_round_trip(value: OperationModel) {
        Self::lemma_tree_round_trip(value);
    }

    proof fn lemma_read_is_valid(json: JsonModel) {
        Self::lemma_tree_read_is_valid(json);
    }
}

impl Media {
    /// The keys of the named fields, in the order in which they are written.
    pub open spec fn names() -> Seq<Seq<char>> {
        Seq::empty()
            .push("schema"@)
            .push("example"@)
            .push("examples"@)
            .push("encoding"@)
    }

    /// What each named field is written as, in the order of the names.
    pub open spec fn slots(value: MediaModel) -> Seq<Option<JsonModel>>
        decreases value, 0nat,
    {
        Seq::empty()
            .push(optional_encoded::<RefOrObject<Schema>>(value.schema))
            .push(optional_encoded::<Json>(value.example))
            .push(optional_encoded::<Table<RefOrObject<Example>>>(value.examples))
            .push(encoding_table_slot_encoded(value.encoding))
    }

    /// No key is named twice.
    pub proof fn lemma_names_distinct()
        ensures
            Self::names().no_duplicates(),
    {
        reveal_strlit("schema");
        reveal_strlit("example");
        reveal_strlit("examples");
        reveal_strlit("encoding");
        assert("schema"@.len() == 6);
        assert("example"@.len() == 7);
        assert("examples"@.len() == 8 && "examples"@[1] == 'x');
        assert("encoding"@.len() == 8 && "encoding"@[1] == 'n');
    }

    /// The pointer key is none of the names.
    pub proof fn lemma_pointer_unnamed()
        ensures
            !Self::names().contains(POINTER_KEY@),
    {
        reveal_strlit("$ref");
        reveal_strlit("schema");
        reveal_strlit("example");
        reveal_strlit("examples");
        reveal_strlit("encoding");
        assert("$ref"@.len() == 4);
        assert("schema"@.len() == 6);
        assert("example"@.len() == 7);
        assert("examples"@.len() == 8);
        assert("encoding"@.len() == 8);
    }

    /// The mathematical value.
    pub open spec fn tree_model(&self) -> MediaModel
        decreases self, 0nat,
    {
        MediaModel {
            schema: option_model(self.schema),
            example: option_model(self.example),
            examples: option_model(self.examples),
            encoding: encoding_table_slot_model(self.encoding),
        }
    }

    /// Whether a JSON value has the shape of the type.
    pub open spec fn tree_fits(json: JsonModel) -> bool
        decreases json, 0nat,
    {
        &&& json is Object
        &&& optional_fits::<RefOrObject<Schema>>(lookup(json->Object_0, "schema"@))
        &&& optional_fits::<Json>(lookup(json->Object_0, "example"@))
        &&& optional_fits::<Table<RefOrObject<Example>>>(lookup(json->Object_0, "examples"@))
        &&& encoding_table_field_fits(json->Object_0, "encoding"@)
    }

    /// What a JSON value of the right shape holds.
    pub open spec fn tree_decoded(json: JsonModel) -> MediaModel
        decreases json, 0nat,
    {
        if json is Object {
            MediaModel {
                schema: optional_decoded::<RefOrObject<Schema>>(lookup(json->Object_0, "schema"@)),
                example: optional_decoded::<Json>(lookup(json->Object_0, "example"@)),
                examples: optional_decoded::<Table<RefOrObject<Example>>>(lookup(json->Object_0, "examples"@)),
                encoding: encoding_table_field_decoded(json->Object_0, "encoding"@),
            }
        } else {
            arbitrary()
        }
    }

    /// Whether the value can be written.
    pub open spec fn tree_encodable(value: MediaModel) -> bool
        decreases value, 0nat,
    {
        &&& optional_encodable::<RefOrObject<Schema>>(value.schema)
        &&& optional_encodable::<Json>(value.example)
        &&& optional_encodable::<Table<RefOrObject<Example>>>(value.examples)
        &&& encoding_table_slot_encodable(value.encoding)
    }

    /// Whether reading what was written gives the value back.
    pub open spec fn tree_valid(value: MediaModel) -> bool
        decreases value, 0nat,
    {
        &&& optional_valid::<RefOrObject<Schema>>(value.schema)
        &&& optional_valid::<Json>(value.example)
        &&& optional_valid::<Table<RefOrObject<Example>>>(value.examples)
        &&& encoding_table_slot_valid(value.encoding)
    }

    /// The JSON value that the value is written as.
    pub open spec fn tree_encoded(value: MediaModel) -> JsonModel
        decreases value, 1nat,
    {
        JsonModel::Object(named_members(Self::names(), Self::slots(value)))
    }

    /// Puts the fields of a value together.
    fn from_fields(
        schema: Option<RefOrObject<Schema>>,
        example: Option<Json>,
        examples: Option<Table<RefOrObject<Example>>>,
        encoding: Option<Table<Encoding>>,
    ) -> (value: Media)
        ensures
            value.tree_model() == (MediaModel {
                schema: option_model(schema),
                example: option_model(example),
                examples: option_model(examples),
                encoding: encoding_table_slot_model(encoding),
            }),
    {
        Media { schema, example, examples, encoding }
    }

    /// Reads a value. Fails with `ShapeMismatch` exactly on JSON of another
    /// shape.
    pub fn decode_tree(json: &Json) -> (res: Result<Media, CodecError>)
        ensures
            match res {
                Ok(value) => Self::tree_fits(json.model()) && value.tree_model()
                    == Self::tree_decoded(json.model()),
                Err(error) => !Self::tree_fits(json.model()) && error
                    == CodecError::ShapeMismatch,
            },
        decreases json.model(), 0nat,
    {
        let members = match json {
            Json::Object(members) => members,
            _ => {
                return Err(CodecError::ShapeMismatch);
            },
        };
        let mut reader = ObjectReader::new(members);
        let schema = decode_optional::<RefOrObject<Schema>>(reader.field("schema"))?;
        let example = decode_optional::<Json>(reader.field("example"))?;
        let examples = decode_optional::<Table<RefOrObject<Example>>>(reader.field("examples"))?;
        let encoding = read_encoding_table(&mut reader, "encoding")?;
        Ok(Media::from_fields(schema, example, examples, encoding))
    }

    /// Writes the value. Fails with `ExtensionCollision` exactly on a value
    /// that is not encodable.
    pub fn encode_tree(&self) -> (res: Result<Json, CodecError>)
        ensures
            match res {
                Ok(json) => Self::tree_encodable(self.tree_model()) && json.model()
                    == Self::tree_encoded(self.tree_model()),
                Err(error) => !Self::tree_encodable(self.tree_model()) && error
                    == CodecError::ExtensionCollision,
            },
        decreases self, 0nat,
    {
        let writer = ObjectWriter::new();
        let writer = writer.put("schema", encode_optional::<RefOrObject<Schema>>(&self.schema)?);
        let writer = writer.put("example", encode_optional::<Json>(&self.example)?);
        let writer = writer.put("examples", encode_optional::<Table<RefOrObject<Example>>>(&self.examples)?);
        let writer = writer.put("encoding", encode_encoding_table_slot(&self.encoding)?);
        Ok(writer.finish())
    }

    /// A valid value can be written, what is written has the shape of the
    /// type, and reading it gives the value back.
    pub proof fn lemma_tree_round_trip(value: MediaModel)
        requires
            Self::tree_valid(value),
        ensures
            Self::tree_encodable(value),
            Self::tree_fits(Self::tree_encoded(value)),
            Self::tree_decoded(Self::tree_encoded(value)) == value,
        decreases value, 0nat,
    {
        let names = Self::names();
        let slots = Self::slots(value);
        let members = Self::tree_encoded(value)->Object_0;
        Self::lemma_names_distinct();
        lemma_named_lookup(names, slots, 0);
        lemma_named_lookup(names, slots, 1);
        lemma_named_lookup(names, slots, 2);
        lemma_named_lookup(names, slots, 3);
        lemma_optional_round_trip::<RefOrObject<Schema>>(value.schema);
        lemma_optional_round_trip::<Json>(value.example);
        lemma_optional_round_trip::<Table<RefOrObject<Example>>>(value.examples);
        lemma_encoding_table_slot_round_trip(value.encoding, members, "encoding"@);
    }

    /// What was read is valid. What is written of it is `null` only where it
    /// was read from `null`, and holds the pointer key only where what it was
    /// read from held it.
    pub proof fn lemma_tree_read_is_valid(json: JsonModel)
        requires
            Self::tree_fits(json),
        ensures
            Self::tree_valid(Self::tree_decoded(json)),
            json != JsonModel::Null ==> Self::tree_encoded(Self::tree_decoded(json))
                != JsonModel::Null,
            sniffed(json) is Inline ==> sniffed(
                Self::tree_encoded(Self::tree_decoded(json)),
            ) is Inline,
        decreases json, 0nat,
    {
        let members = json->Object_0;
        let names = Self::names();
        let value = Self::tree_decoded(json);
        let slots = Self::slots(value);
        lemma_optional_read_is_valid::<RefOrObject<Schema>>(lookup(members, "schema"@));
        lemma_optional_read_is_valid::<Json>(lookup(members, "example"@));
        lemma_optional_read_is_valid::<Table<RefOrObject<Example>>>(lookup(members, "examples"@));
        lemma_encoding_table_slot_read_is_valid(members, "encoding"@);
        Self::lemma_pointer_unnamed();
        lemma_named_lookup_other(names, slots, POINTER_KEY@);
    }

    /// A deep copy: a value of its own that holds the same.
    pub fn duplicate_tree(&self) -> (copy: Media)
        ensures
            copy.tree_model() == self.tree_model(),
        decreases self, 0nat,
    {
        Media::from_fields(
            duplicate_optional(&self.schema),
            duplicate_optional(&self.example),
            duplicate_optional(&self.examples),
            duplicate_encoding_table_slot(&self.encoding),
        )
    }
}

impl Clone for Media {
    fn clone(&self) -> (copy: Media)
        ensures
            copy.model() == self.model(),
    {
        self.duplicate()
    }
}

impl Codec for Media {
    type Model = MediaModel;

    open spec fn model(&self) -> MediaModel {
        self.tree_model()
    }

    open spec fn fits(json: JsonModel) -> bool {
        Self::tree_fits(json)
    }

    open spec fn decoded(json: JsonModel) -> MediaModel {
        Self::tree_decoded(json)
    }

    open spec fn encodable(value: MediaModel) -> bool {
        Self::tree_encodable(value)
    }

    open spec fn encoded(value: MediaModel) -> JsonModel {
        Self::tree_encoded(value)
    }

    open spec fn valid(value: MediaModel) -> bool {
        Self::tree_valid(value)
    }

    fn decode(json: &Json) -> (res: Result<Media, CodecError>) {
        Media::decode_tree(json)
    }

    fn encode(&self) -> (res: Result<Json, CodecError>) {
        self.encode_tree()
    }

    fn duplicate(&self) -> (copy: Media) {
        self.duplicate_tree()
    }

    proof fn lemma_round_trip(value: MediaModel) {
        Self::lemma_tree_round_trip(value);
    }

    proof fn lemma_read_is_valid(json: JsonModel) {
        Self::lemma_tree_read_is_valid(json);
    }
}

impl Encoding {
    /// The keys of the named fields, in the order in which they are written.
    pub open spec fn names() -> Seq<Seq<char>> {
        Seq::empty()
            .push("contentType"@)
            .push("headers"@)
            .push("style"@)
            .push("explode"@)
            .push("allowReserved"@)
    }

    /// What each named field is written as, in the order of the names.
    pub open spec fn slots(value: EncodingModel) -> Seq<Option<JsonModel>>
        decreases value, 0nat,
    {
        Seq::empty()
            .push(optional_encoded::<String>(value.content_type))
            .push(header_or_ref_table_slot_encoded(value.headers))
            .push(optional_encoded::<String>(value.style))
            .push(optional_encoded::<bool>(value.explode))
            .push(optional_encoded::<bool>(value.allow_reserved))
    }

    /// No key is named twice.
    pub proof fn lemma_names_distinct()
        ensures
            Self::names().no_duplicates(),
    {
        reveal_strlit("contentType");
        reveal_strlit("headers");
        reveal_strlit("style");
        reveal_strlit("explode");
        reveal_strlit("allowReserved");
        assert("contentType"@.len() == 11);
        assert("headers"@.len() == 7 && "headers"@[0] == 'h');
        assert("style"@.len() == 5);
        assert("explode"@.len() == 7 && "explode"@[0] == 'e');
        assert("allowReserved"@.len() == 13);
    }

    /// The pointer key is none of the names.
    pub proof fn lemma_pointer_unnamed()
        ensures
            !Self::names().contains(POINTER_KEY@),
    {
        reveal_strlit("$ref");
        reveal_strlit("contentType");
        reveal_strlit("headers");
        reveal_strlit("style");
        reveal_strlit("explode");
        reveal_strlit("allowReserved");
        assert("$ref"@.len() == 4);
        assert("contentType"@.len() == 11);
        assert("headers"@.len() == 7);
        assert("style"@.len() == 5);
        assert("explode"@.len() == 7);
        assert("allowReserved"@.len() == 13);
    }

    /// The mathematical value.
    pub open spec fn tree_model(&self) -> EncodingModel
        decreases self, 0nat,
    {
        EncodingModel {
            content_type: option_model(self.content_type),
            headers: header_or_ref_table_slot_model(self.headers),
            style: option_model(self.style),
            explode: option_model(self.explode),
            allow_reserved: option_model(self.allow_reserved),
        }
    }

    /// Whether a JSON value has the shape of the type.
    pub open spec fn tree_fits(json: JsonModel) -> bool
        decreases json, 0nat,
    {
        &&& json is Object
        &&& optional_fits::<String>(lookup(json->Object_0, "contentType"@))
        &&& header_or_ref_table_field_fits(json->Object_0, "headers"@)
        &&& optional_fits::<String>(lookup(json->Object_0, "style"@))
        &&& optional_fits::<bool>(lookup(json->Object_0, "explode"@))
        &&& optional_fits::<bool>(lookup(json->Object_0, "allowReserved"@))
    }

    /// What a JSON value of the right shape holds.
    pub open spec fn tree_decoded(json: JsonModel) -> EncodingModel
        decreases json, 0nat,
    {
        if json is Object {
            EncodingModel {
                content_type: optional_decoded::<String>(lookup(json->Object_0, "contentType"@)),
                headers: header_or_ref_table_field_decoded(json->Object_0, "headers"@),
                style: optional_decoded::<String>(lookup(json->Object_0, "style"@)),
                explode: optional_decoded::<bool>(lookup(json->Object_0, "explode"@)),
                allow_reserved: optional_decoded::<bool>(lookup(json->Object_0, "allowReserved"@)),
            }
        } else {
            arbitrary()
        }
    }

    /// Whether the value can be written.
    pub open spec fn tree_encodable(value: EncodingModel) -> bool
        decreases value, 0nat,
    {
        &&& optional_encodable::<String>(value.content_type)
        &&& header_or_ref_table_slot_encodable(value.headers)
        &&& optional_encodable::<String>(value.style)
        &&& optional_encodable::<bool>(value.explode)
        &&& optional_encodable::<bool>(value.allow_reserved)
    }

    /// Whether reading what was written gives the value back.
    pub open spec fn tree_valid(value: EncodingModel) -> bool
        decreases value, 0nat,
    {
        &&& optional_valid::<String>(value.content_type)
        &&& header_or_ref_table_slot_valid(value.headers)
        &&& optional_valid::<String>(value.style)
        &&& optional_valid::<bool>(value.explode)
        &&& optional_valid::<bool>(value.allow_reserved)
    }

    /// The JSON value that the value is written as.
    pub open spec fn tree_encoded(value: EncodingModel) -> JsonModel
        decreases value, 1nat,
    {
        JsonModel::Object(named_members(Self::names(), Self::slots(value)))
    }

    /// Puts the fields of a value together.
    fn from_fields(
        content_type: Option<String>,
        headers: Option<Table<RefOrObject<Header>>>,
        style: Option<String>,
        explode: Option<bool>,
        allow_reserved: Option<bool>,
    ) -> (value: Encoding)
        ensures
            value.tree_model() == (EncodingModel {
                content_type: option_model(content_type),
                headers: header_or_ref_table_slot_model(headers),
                style: option_model(style),
                explode: option_model(explode),
                allow_reserved: option_model(allow_reserved),
            }),
    {
        Encoding { content_type, headers, style, explode, allow_reserved }
    }

    /// Reads a value. Fails with `ShapeMismatch` exactly on JSON of another
    /// shape.
    pub fn decode_tree(json: &Json) -> (res: Result<Encoding, CodecError>)
        ensures
            match res {
                Ok(value) => Self::tree_fits(json.model()) && value.tree_model()
                    == Self::tree_decoded(json.model()),
                Err(error) => !Self::tree_fits(json.model()) && error
                    == CodecError::ShapeMismatch,
            },
        decreases json.model(), 0nat,
    {
        let members = match json {
            Json::Object(members) => members,
            _ => {
                return Err(CodecError::ShapeMismatch);
            },
        };
        let mut reader = ObjectReader::new(members);
        let content_type = decode_optional::<String>(reader.field("contentType"))?;
        let headers = read_header_or_ref_table(&mut reader, "headers")?;
        let style = decode_optional::<String>(reader.field("style"))?;
        let explode = decode_optional::<bool>(reader.field("explode"))?;
        let allow_reserved = decode_optional::<bool>(reader.field("allowReserved"))?;
        Ok(Encoding::from_fields(content_type, headers, style, explode, allow_reserved))
    }

    /// Writes the value. Fails with `ExtensionCollision` exactly on a value
    /// that is not encodable.
    pub fn encode_tree(&self) -> (res: Result<Json, CodecError>)
        ensures
            match res {
                Ok(json) => Self::tree_encodable(self.tree_model()) && json.model()
                    == Self::tree_encoded(self.tree_model()),
                Err(error) => !Self::tree_encodable(self.tree_model()) && error
                    == CodecError::ExtensionCollision,
            },
        decreases self, 0nat,
    {
        let writer = ObjectWriter::new();
        let writer = writer.put("contentType", encode_optional::<String>(&self.content_type)?);
        let writer = writer.put("headers", encode_header_or_ref_table_slot(&self.headers)?);
        let writer = writer.put("style", encode_optional::<String>(&self.style)?);
        let writer = writer.put("explode", encode_optional::<bool>(&self.explode)?);
        let writer = writer.put("allowReserved", encode_optional::<bool>(&self.allow_reserved)?);
        Ok(writer.finish())
    }

    /// A valid value can be written, what is written has the shape of the
    /// type, and reading it gives the value back.
    pub proof fn lemma_tree_round_trip(value: EncodingModel)
        requires
            Self::tree_valid(value),
        ensures
            Self::tree_encodable(value),
            Self::tree_fits(Self::tree_encoded(value)),
            Self::tree_decoded(Self::tree_encoded(value)) == value,
        decreases value, 0nat,
    {
        let names = Self::names();
        let slots = Self::slots(value);
        let members = Self::tree_encoded(value)->Object_0;
        Self::lemma_names_distinct();
        lemma_named_lookup(names, slots, 0);
        lemma_named_lookup(names, slots, 1);
        lemma_named_lookup(names, slots, 2);
        lemma_named_lookup(names, slots, 3);
        lemma_named_lookup(names, slots, 4);
        lemma_optional_round_trip::<String>(value.content_type);
        lemma_header_or_ref_table_slot_round_trip(value.headers, members, "headers"@);
        lemma_optional_round_trip::<String>(value.style);
        lemma_optional_round_trip::<bool>(value.explode);
        lemma_optional_round_trip::<bool>(value.allow_reserved);
    }

    /// What was read is valid. What is written of it is `null` only where it
    /// was read from `null`, and holds the pointer key only where what it was
    /// read from held it.
    pub proof fn lemma_tree_read_is_valid(json: JsonModel)
        requires
            Self::tree_fits(json),
        ensures
            Self::tree_valid(Self::tree_decoded(json)),
            json != JsonModel::Null ==> Self::tree_encoded(Self::tree_decoded(json))
                != JsonModel::Null,
            sniffed(json) is Inline ==> sniffed(
                Self::tree_encoded(Self::tree_decoded(json)),
            ) is Inline,
        decreases json, 0nat,
    {
        let members = json->Object_0;
        let names = Self::names();
        let value = Self::tree_decoded(json);
        let slots = Self::slots(value);
        lemma_optional_read_is_valid::<String>(lookup(members, "contentType"@));
        lemma_header_or_ref_table_slot_read_is_valid(members, "headers"@);
        lemma_optional_read_is_valid::<String>(lookup(members, "style"@));
        lemma_optional_read_is_valid::<bool>(lookup(members, "explode"@));
        lemma_optional_read_is_valid::<bool>(lookup(members, "allowReserved"@));
        Self::lemma_pointer_unnamed();
        lemma_named_lookup_other(names, slots, POINTER_KEY@);
    }

    /// A deep copy: a value of its own that holds the same.
    pub fn duplicate_tree(&self) -> (copy: Encoding)
        ensures
            copy.tree_model() == self.tree_model(),
        decreases self, 0nat,
    {
        Encoding::from_fields(
            duplicate_optional(&self.content_type),
            duplicate_header_or_ref_table_slot(&self.headers),
            duplicate_optional(&self.style),
            duplicate_optional(&self.explode),
            duplicate_optional(&self.allow_reserved),
        )
    }
}

impl Clone for Encoding {
    fn clone(&self) -> (copy: Encoding)
        ensures
            copy.model() == self.model(),
    {
        self.duplicate()
    }
}

impl Codec for Encoding {
    type Model = EncodingModel;

    open spec fn model(&self) -> EncodingModel {
        self.tree_model()
    }

    open spec fn fits(json: JsonModel) -> bool {
        Self::tree_fits(json)
    }

    open spec fn decoded(json: JsonModel) -> EncodingModel {
        Self::tree_decoded(json)
    }

    open spec fn encodable(value: EncodingModel) -> bool {
        Self::tree_encodable(value)
    }

    open spec fn encoded(value: EncodingModel) -> JsonModel {
        Self::tree_encoded(value)
    }

    open spec fn valid(value: EncodingModel) -> bool {
        Self::tree_valid(value)
    }

    fn decode(json: &Json) -> (res: Result<Encoding, CodecError>) {
        Encoding::decode_tree(json)
    }

    fn encode(&self) -> (res: Result<Json, CodecError>) {
        self.encode_tree()
    }

    fn duplicate(&self) -> (copy: Encoding) {
        self.duplicate_tree()
    }

    proof fn lemma_round_trip(value: EncodingModel) {
        Self::lemma_tree_round_trip(value);
    }

    proof fn lemma_read_is_valid(json: JsonModel) {
        Self::lemma_tree_read_is_valid(json);
    }
}

impl Header {
    /// The keys of the named fields, in the order in which they are written.
    pub open spec fn names() -> Seq<Seq<char>> {
        Seq::empty()
            .push("description"@)
            .push("required"@)
            .push("deprecated"@)
            .push("allowEmptyValue"@)
            .push("style"@)
            .push("explode"@)
            .push("allowReserved"@)
            .push("schema"@)
            .push("example"@)
            .push("examples"@)
            .push("content"@)
    }

    /// What each named field is written as, in the order of the names.
    pub open spec fn slots(value: HeaderModel) -> Seq<Option<JsonModel>>
        decreases value, 0nat,
    {
        Seq::empty()
            .push(optional_encoded::<String>(value.description))
            .push(optional_encoded::<bool>(value.required))
            .push(optional_encoded::<bool>(value.deprecated))
            .push(optional_encoded::<bool>(value.allow_empty_value))
            .push(optional_encoded::<String>(value.style))
            .push(optional_encoded::<bool>(value.explode))
            .push(optional_encoded::<bool>(value.allow_reserved))
            .push(optional_encoded::<RefOrObject<Schema>>(value.schema))
            .push(optional_encoded::<Json>(value.example))
            .push(optional_encoded::<Table<RefOrObject<Example>>>(value.examples))
            .push(media_table_slot_encoded(value.content))
    }

    /// No key is named twice.
    pub proof fn lemma_names_distinct()
        ensures
            Self::names().no_duplicates(),
    {
        reveal_strlit("description");
        reveal_strlit("required");
        reveal_strlit("deprecated");
        reveal_strlit("allowEmptyValue");
        reveal_strlit("style");
        reveal_strlit("explode");
        reveal_strlit("allowReserved");
        reveal_strlit("schema");
        reveal_strlit("example");
        reveal_strlit("examples");
        reveal_strlit("content");
        assert("description"@.len() == 11);
        assert("required"@.len() == 8 && "required"@[0] == 'r');
        assert("deprecated"@.len() == 10);
        assert("allowEmptyValue"@.len() == 15);
        assert("style"@.len() == 5);
        assert("explode"@.len() == 7 && "explode"@[0] == 'e' && "explode"@[2] == 'p');
        assert("allowReserved"@.len() == 13);
        assert("schema"@.len() == 6);
        assert("example"@.len() == 7 && "example"@[0] == 'e' && "example"@[2] == 'a');
        assert("examples"@.len() == 8 && "examples"@[0] == 'e');
        assert("content"@.len() == 7 && "content"@[0] == 'c');
    }

    /// The pointer key is none of the names.
    pub proof fn lemma_pointer_unnamed()
        ensures
            !Self::names().contains(POINTER_KEY@),
    {
        reveal_strlit("$ref");
        reveal_strlit("description");
        reveal_strlit("required");
        reveal_strlit("deprecated");
        reveal_strlit("allowEmptyValue");
        reveal_strlit("style");
        reveal_strlit("explode");
        reveal_strlit("allowReserved");
        reveal_strlit("schema");
        reveal_strlit("example");
        reveal_strlit("examples");
        reveal_strlit("content");
        assert("$ref"@.len() == 4);
        assert("description"@.len() == 11);
        assert("required"@.len() == 8);
        assert("deprecated"@.len() == 10);
        assert("allowEmptyValue"@.len() == 15);
        assert("style"@.len() == 5);
        assert("explode"@.len() == 7);
        assert("allowReserved"@.len() == 13);
        assert("schema"@.len() == 6);
        assert("example"@.len() == 7);
        assert("examples"@.len() == 8);
        assert("content"@.len() == 7);
    }

    /// The mathematical value.
    pub open spec fn tree_model(&self) -> HeaderModel
        decreases self, 0nat,
    {
        HeaderModel {
            description: option_model(self.description),
            required: option_model(self.required),
            deprecated: option_model(self.deprecated),
            allow_empty_value: option_model(self.allow_empty_value),
            style: option_model(self.style),
            explode: option_model(self.explode),
            allow_reserved: option_model(self.allow_reserved),
            schema: option_model(self.schema),
            example: option_model(self.example),
            examples: option_model(self.examples),
            content: media_table_slot_model(self.content),
            extensions: self.extensions.model(),
        }
    }

    /// Whether a JSON value has the shape of the type.
    pub open spec fn tree_fits(json: JsonModel) -> bool
        decreases json, 0nat,
    {
        &&& json is Object
        &&& optional_fits::<String>(lookup(json->Object_0, "description"@))
        &&& optional_fits::<bool>(lookup(json->Object_0, "required"@))
        &&& optional_fits::<bool>(lookup(json->Object_0, "deprecated"@))
        &&& optional_fits::<bool>(lookup(json->Object_0, "allowEmptyValue"@))
        &&& optional_fits::<String>(lookup(json->Object_0, "style"@))
        &&& optional_fits::<bool>(lookup(json->Object_0, "explode"@))
        &&& optional_fits::<bool>(lookup(json->Object_0, "allowReserved"@))
        &&& optional_fits::<RefOrObject<Schema>>(lookup(json->Object_0, "schema"@))
        &&& optional_fits::<Json>(lookup(json->Object_0, "example"@))
        &&& optional_fits::<Table<RefOrObject<Example>>>(lookup(json->Object_0, "examples"@))
        &&& media_table_field_fits(json->Object_0, "content"@)
    }

    /// What a JSON value of the right shape holds.
    pub open spec fn tree_decoded(json: JsonModel) -> HeaderModel
        decreases json, 0nat,
    {
        if json is Object {
            HeaderModel {
                description: optional_decoded::<String>(lookup(json->Object_0, "description"@)),
                required: optional_decoded::<bool>(lookup(json->Object_0, "required"@)),
                deprecated: optional_decoded::<bool>(lookup(json->Object_0, "deprecated"@)),
                allow_empty_value: optional_decoded::<bool>(lookup(json->Object_0, "allowEmptyValue"@)),
                style: optional_decoded::<String>(lookup(json->Object_0, "style"@)),
                explode: optional_decoded::<bool>(lookup(json->Object_0, "explode"@)),
                allow_reserved: optional_decoded::<bool>(lookup(json->Object_0, "allowReserved"@)),
                schema: optional_decoded::<RefOrObject<Schema>>(lookup(json->Object_0, "schema"@)),
                example: optional_decoded::<Json>(lookup(json->Object_0, "example"@)),
                examples: optional_decoded::<Table<RefOrObject<Example>>>(lookup(json->Object_0, "examples"@)),
                content: media_table_field_decoded(json->Object_0, "content"@),
                extensions: remainder(json->Object_0, Self::names()),
            }
        } else {
            arbitrary()
        }
    }

    /// Whether the value can be written.
    pub open spec fn tree_encodable(value: HeaderModel) -> bool
        decreases value, 0nat,
    {
        &&& optional_encodable::<String>(value.description)
        &&& optional_encodable::<bool>(value.required)
        &&& optional_encodable::<bool>(value.deprecated)
        &&& optional_encodable::<bool>(value.allow_empty_value)
        &&& optional_encodable::<String>(value.style)
        &&& optional_encodable::<bool>(value.explode)
        &&& optional_encodable::<bool>(value.allow_reserved)
        &&& optional_encodable::<RefOrObject<Schema>>(value.schema)
        &&& optional_encodable::<Json>(value.example)
        &&& optional_encodable::<Table<RefOrObject<Example>>>(value.examples)
        &&& media_table_slot_encodable(value.content)
        &&& !collides(Self::names(), value.extensions)
    }

    /// Whether reading what was written gives the value back.
    pub open spec fn tree_valid(value: HeaderModel) -> bool
        decreases value, 0nat,
    {
        &&& optional_valid::<String>(value.description)
        &&& optional_valid::<bool>(value.required)
        &&& optional_valid::<bool>(value.deprecated)
        &&& optional_valid::<bool>(value.allow_empty_value)
        &&& optional_valid::<String>(value.style)
        &&& optional_valid::<bool>(value.explode)
        &&& optional_valid::<bool>(value.allow_reserved)
        &&& optional_valid::<RefOrObject<Schema>>(value.schema)
        &&& optional_valid::<Json>(value.example)
        &&& optional_valid::<Table<RefOrObject<Example>>>(value.examples)
        &&& media_table_slot_valid(value.content)
        &&& !collides(Self::names(), value.extensions)
    }

    /// The JSON value that the value is written as.
    pub open spec fn tree_encoded(value: HeaderModel) -> JsonModel
        decreases value, 1nat,
    {
        JsonModel::Object(assembled(Self::names(), Self::slots(value), value.extensions))
    }

    /// Puts the fields of a value together.
    fn from_fields(
        description: Option<String>,
        required: Option<bool>,
        deprecated: Option<bool>,
        allow_empty_value: Option<bool>,
        style: Option<String>,
        explode: Option<bool>,
        allow_reserved: Option<bool>,
        schema: Option<RefOrObject<Schema>>,
        example: Option<Json>,
        examples: Option<Table<RefOrObject<Example>>>,
        content: Option<Table<Media>>,
        extensions: Extensions,
    ) -> (value: Header)
        ensures
            value.tree_model() == (HeaderModel {
                description: option_model(description),
                required: option_model(required),
                deprecated: option_model(deprecated),
                allow_empty_value: option_model(allow_empty_value),
                style: option_model(style),
                explode: option_model(explode),
                allow_reserved: option_model(allow_reserved),
                schema: option_model(schema),
                example: option_model(example),
                examples: option_model(examples),
                content: media_table_slot_model(content),
                extensions: extensions.model(),
            }),
    {
        Header { description, required, deprecated, allow_empty_value, style, explode, allow_reserved, schema, example, examples, content, extensions }
    }

    /// Reads a value. Fails with `ShapeMismatch` exactly on JSON of another
    /// shape.
    pub fn decode_tree(json: &Json) -> (res: Result<Header, CodecError>)
        ensures
            match res {
                Ok(value) => Self::tree_fits(json.model()) && value.tree_model()
                    == Self::tree_decoded(json.model()),
                Err(error) => !Self::tree_fits(json.model()) && error
                    == CodecError::ShapeMismatch,
            },
        decreases json.model(), 0nat,
    {
        let members = match json {
            Json::Object(members) => members,
            _ => {
                return Err(CodecError::ShapeMismatch);
            },
        };
        let mut reader = ObjectReader::new(members);
        let description = decode_optional::<String>(reader.field("description"))?;
        let required = decode_optional::<bool>(reader.field("required"))?;
        let deprecated = decode_optional::<bool>(reader.field("deprecated"))?;
        let allow_empty_value = decode_optional::<bool>(reader.field("allowEmptyValue"))?;
        let style = decode_optional::<String>(reader.field("style"))?;
        let explode = decode_optional::<bool>(reader.field("explode"))?;
        let allow_reserved = decode_optional::<bool>(reader.field("allowReserved"))?;
        let schema = decode_optional::<RefOrObject<Schema>>(reader.field("schema"))?;
        let example = decode_optional::<Json>(reader.field("example"))?;
        let examples = decode_optional::<Table<RefOrObject<Example>>>(reader.field("examples"))?;
        let content = read_media_table(&mut reader, "content")?;
        let extensions = reader.rest();
        Ok(Header::from_fields(description, required, deprecated, allow_empty_value, style, explode, allow_reserved, schema, example, examples, content, extensions))
    }

    /// Writes the value. Fails with `ExtensionCollision` exactly on a value
    /// that is not encodable.
    pub fn encode_tree(&self) -> (res: Result<Json, CodecError>)
        ensures
            match res {
                Ok(json) => Self::tree_encodable(self.tree_model()) && json.model()
                    == Self::tree_encoded(self.tree_model()),
                Err(error) => !Self::tree_encodable(self.tree_model()) && error
                    == CodecError::ExtensionCollision,
            },
        decreases self, 0nat,
    {
        let writer = ObjectWriter::new();
        let writer = writer.put("description", encode_optional::<String>(&self.description)?);
        let writer = writer.put("required", encode_optional::<bool>(&self.required)?);
        let writer = writer.put("deprecated", encode_optional::<bool>(&self.deprecated)?);
        let writer = writer.put("allowEmptyValue", encode_optional::<bool>(&self.allow_empty_value)?);
        let writer = writer.put("style", encode_optional::<String>(&self.style)?);
        let writer = writer.put("explode", encode_optional::<bool>(&self.explode)?);
        let writer = writer.put("allowReserved", encode_optional::<bool>(&self.allow_reserved)?);
        let writer = writer.put("schema", encode_optional::<RefOrObject<Schema>>(&self.schema)?);
        let writer = writer.put("example", encode_optional::<Json>(&self.example)?);
        let writer = writer.put("examples", encode_optional::<Table<RefOrObject<Example>>>(&self.examples)?);
        let writer = writer.put("content", encode_media_table_slot(&self.content)?);
        writer.finish_with(&self.extensions)
    }

    /// A valid value can be written, what is written has the shape of the
    /// type, and reading it gives the value back.
    pub proof fn lemma_tree_round_trip(value: HeaderModel)
        requires
            Self::tree_valid(value),
        ensures
            Self::tree_encodable(value),
            Self::tree_fits(Self::tree_encoded(value)),
            Self::tree_decoded(Self::tree_encoded(value)) == value,
        decreases value, 0nat,
    {
        let names = Self::names();
        let slots = Self::slots(value);
        let members = Self::tree_encoded(value)->Object_0;
        Self::lemma_names_distinct();
        lemma_assembled_lookup(names, slots, value.extensions, 0);
        lemma_assembled_lookup(names, slots, value.extensions, 1);
        lemma_assembled_lookup(names, slots, value.extensions, 2);
        lemma_assembled_lookup(names, slots, value.extensions, 3);
        lemma_assembled_lookup(names, slots, value.extensions, 4);
        lemma_assembled_lookup(names, slots, value.extensions, 5);
        lemma_assembled_lookup(names, slots, value.extensions, 6);
        lemma_assembled_lookup(names, slots, value.extensions, 7);
        lemma_assembled_lookup(names, slots, value.extensions, 8);
        lemma_assembled_lookup(names, slots, value.extensions, 9);
        lemma_assembled_lookup(names, slots, value.extensions, 10);
        lemma_assembled_remainder(names, slots, value.extensions);
        lemma_optional_round_trip::<String>(value.description);
        lemma_optional_round_trip::<bool>(value.required);
        lemma_optional_round_trip::<bool>(value.deprecated);
        lemma_optional_round_trip::<bool>(value.allow_empty_value);
        lemma_optional_round_trip::<String>(value.style);
        lemma_optional_round_trip::<bool>(value.explode);
        lemma_optional_round_trip::<bool>(value.allow_reserved);
        lemma_optional_round_trip::<RefOrObject<Schema>>(value.schema);
        lemma_optional_round_trip::<Json>(value.example);
        lemma_optional_round_trip::<Table<RefOrObject<Example>>>(value.examples);
        lemma_media_table_slot_round_trip(value.content, members, "content"@);
    }

    /// What was read is valid. What is written of it is `null` only where it
    /// was read from `null`, and holds the pointer key only where what it was
    /// read from held it.
    pub proof fn lemma_tree_read_is_valid(json: JsonModel)
        requires
            Self::tree_fits(json),
        ensures
            Self::tree_valid(Self::tree_decoded(json)),
            json != JsonModel::Null ==> Self::tree_encoded(Self::tree_decoded(json))
                != JsonModel::Null,
            sniffed(json) is Inline ==> sniffed(
                Self::tree_encoded(Self::tree_decoded(json)),
            ) is Inline,
        decreases json, 0nat,
    {
        let members = json->Object_0;
        let names = Self::names();
        let value = Self::tree_decoded(json);
        let slots = Self::slots(value);
        lemma_optional_read_is_valid::<String>(lookup(members, "description"@));
        lemma_optional_read_is_valid::<bool>(lookup(members, "required"@));
        lemma_optional_read_is_valid::<bool>(lookup(members, "deprecated"@));
        lemma_optional_read_is_valid::<bool>(lookup(members, "allowEmptyValue"@));
        lemma_optional_read_is_valid::<String>(lookup(members, "style"@));
        lemma_optional_read_is_valid::<bool>(lookup(members, "explode"@));
        lemma_optional_read_is_valid::<bool>(lookup(members, "allowReserved"@));
        lemma_optional_read_is_valid::<RefOrObject<Schema>>(lookup(members, "schema"@));
        lemma_optional_read_is_valid::<Json>(lookup(members, "example"@));
        lemma_optional_read_is_valid::<Table<RefOrObject<Example>>>(lookup(members, "examples"@));
        lemma_media_table_slot_read_is_valid(members, "content"@);
        lemma_remainder_unnamed(members, names);
        Self::lemma_pointer_unnamed();
        lemma_assembled_lookup_other(names, slots, value.extensions, POINTER_KEY@);
        lemma_remainder_lookup(members, names, POINTER_KEY@);
    }

    /// A deep copy: a value of its own that holds the same.
    pub fn duplicate_tree(&self) -> (copy: Header)
        ensures
            copy.tree_model() == self.tree_model(),
        decreases self, 0nat,
    {
        Header::from_fields(
            duplicate_optional(&self.description),
            duplicate_optional(&self.required),
            duplicate_optional(&self.deprecated),
            duplicate_optional(&self.allow_empty_value),
            duplicate_optional(&self.style),
            duplicate_optional(&self.explode),
            duplicate_optional(&self.allow_reserved),
            duplicate_optional(&self.schema),
            duplicate_optional(&self.example),
            duplicate_optional(&self.examples),
            duplicate_media_table_slot(&self.content),
            self.extensions.duplicate(),
        )
    }
}

impl Clone for Header {
    fn clone(&self) -> (copy: Header)
        ensures
            copy.model() == self.model(),
    {
        self.duplicate()
    }
}

impl Codec for Header {
    type Model = HeaderModel;

    open spec fn model(&self) -> HeaderModel {
        self.tree_model()
    }

    open spec fn fits(json: JsonModel) -> bool {
        Self::tree_fits(json)
    }

    open spec fn decoded(json: JsonModel) -> HeaderModel {
        Self::tree_decoded(json)
    }

    open spec fn encodable(value: HeaderModel) -> bool {
        Self::tree_encodable(value)
    }

    open spec fn encoded(value: HeaderModel) -> JsonModel {
        Self::tree_encoded(value)
    }

    open spec fn valid(value: HeaderModel) -> bool {
        Self::tree_valid(value)
    }

    fn decode(json: &Json) -> (res: Result<Header, CodecError>) {
        Header::decode_tree(json)
    }

    fn encode(&self) -> (res: Result<Json, CodecError>) {
        self.encode_tree()
    }

    fn duplicate(&self) -> (copy: Header) {
        self.duplicate_tree()
    }

    proof fn lemma_round_trip(value: HeaderModel) {
        Self::lemma_tree_round_trip(value);
    }

    proof fn lemma_read_is_valid(json: JsonModel) {
        Self::lemma_tree_read_is_valid(json);
    }
}

impl Schema {
    /// The keys of the named fields, in the order in which they are written.
    pub open spec fn names() -> Seq<Seq<char>> {
        Seq::empty()
            .push("title"@)
            .push("enum"@)
            .push("multipleOf"@)
            .push("maximum"@)
            .push("exclusiveMaximum"@)
            .push("minimum"@)
            .push("exclusiveMinimum"@)
            .push("maxLength"@)
            .push("minLength"@)
            .push("pattern"@)
            .push("maxItems"@)
            .push("minItems"@)
            .push("uniqueItems"@)
            .push("items"@)
            .push("properties"@)
            .push("maxProperties"@)
            .push("minProperties"@)
            .push("required"@)
            .push("type"@)
            .push("allOf"@)
            .push("oneOf"@)
            .push("anyOf"@)
            .push("not"@)
            .push("description"@)
            .push("format"@)
            .push("default"@)
            .push("additionalProperties"@)
            .push("nullable"@)
            .push("discriminator"@)
            .push("readOnly"@)
            .push("writeOnly"@)
            .push("xml"@)
            .push("externalDocs"@)
            .push("example"@)
            .push("deprecated"@)
    }

    /// What each named field is written as, in the order of the names.
    pub open spec fn slots(value: SchemaModel) -> Seq<Option<JsonModel>>
        decreases value, 0nat,
    {
        Seq::empty()
            .push(optional_encoded::<String>(value.title))
            .push(optional_encoded::<Vec<String>>(value.enum_))
            .push(optional_encoded::<Number>(value.multiple_of))
            .push(optional_encoded::<Number>(value.maximum))
            .push(optional_encoded::<bool>(value.exclusive_maximum))
            .push(optional_encoded::<Number>(value.minimum))
            .push(optional_encoded::<bool>(value.exclusive_minimum))
            .push(optional_encoded::<Number>(value.max_length))
            .push(optional_encoded::<Number>(value.min_length))
            .push(optional_encoded::<String>(value.pattern))
            .push(optional_encoded::<Number>(value.max_items))
            .push(optional_encoded::<Number>(value.min_items))
            .push(optional_encoded::<bool>(value.unique_items))
            .push(schema_or_ref_box_slot_encoded(value.items))
            .push(schema_or_ref_table_slot_encoded(value.properties))
            .push(optional_encoded::<Number>(value.max_properties))
            .push(optional_encoded::<Number>(value.min_properties))
            .push(optional_encoded::<Vec<String>>(value.required))
            .push(optional_encoded::<String>(value.type_))
            .push(schema_or_ref_list_slot_encoded(value.all_of))
            .push(schema_or_ref_list_slot_encoded(value.one_of))
            .push(schema_or_ref_list_slot_encoded(value.any_of))
            .push(schema_or_ref_box_slot_encoded(value.not))
            .push(optional_encoded::<String>(value.description))
            .push(optional_encoded::<String>(value.format))
            .push(optional_encoded::<String>(value.default))
            .push(optional_encoded::<Json>(value.additional_properties))
            .push(optional_encoded::<bool>(value.nullable))
            .push(optional_encoded::<Discriminator>(value.discriminator))
            .push(optional_encoded::<bool>(value.read_only))
            .push(optional_encoded::<bool>(value.write_only))
            .push(optional_encoded::<XML>(value.xml))
            .push(optional_encoded::<ExternalDoc>(value.external_docs))
            .push(optional_encoded::<Json>(value.example))
            .push(optional_encoded::<bool>(value.deprecated))
    }

    /// No key is named twice.
    pub proof fn lemma_names_distinct()
        ensures
            Self::names().no_duplicates(),
    {
        reveal_strlit("title");
        reveal_strlit("enum");
        reveal_strlit("multipleOf");
        reveal_strlit("maximum");
        reveal_strlit("exclusiveMaximum");
        reveal_strlit("minimum");
        reveal_strlit("exclusiveMinimum");
        reveal_strlit("maxLength");
        reveal_strlit("minLength");
        reveal_strlit("pattern");
        reveal_strlit("maxItems");
        reveal_strlit("minItems");
        reveal_strlit("uniqueItems");
        reveal_strlit("items");
        reveal_strlit("properties");
        reveal_strlit("maxProperties");
        reveal_strlit("minProperties");
        reveal_strlit("required");
        reveal_strlit("type");
        reveal_strlit("allOf");
        reveal_strlit("oneOf");
        reveal_strlit("anyOf");
        reveal_strlit("not");
        reveal_strlit("description");
        reveal_strlit("format");
        reveal_strlit("default");
        reveal_strlit("additionalProperties");
        reveal_strlit("nullable");
        reveal_strlit("discriminator");
        reveal_strlit("readOnly");
        reveal_strlit("writeOnly");
        reveal_strlit("xml");
        reveal_strlit("externalDocs");
        reveal_strlit("example");
        reveal_strlit("deprecated");
        assert("title"@.len() == 5 && "title"@[0] == 't');
        assert("enum"@.len() == 4 && "enum"@[0] == 'e');
        assert("multipleOf"@.len() == 10 && "multipleOf"@[0] == 'm');
        assert("maximum"@.len() == 7 && "maximum"@[0] == 'm' && "maximum"@[1] == 'a');
        assert("exclusiveMaximum"@.len() == 16 && "exclusiveMaximum"@[10] == 'a');
        assert("minimum"@.len() == 7 && "minimum"@[0] == 'm' && "minimum"@[1] == 'i');
        assert("exclusiveMinimum"@.len() == 16 && "exclusiveMinimum"@[10] == 'i');
        assert("maxLength"@.len() == 9 && "maxLength"@[0] == 'm' && "maxLength"@[1] == 'a');
        assert("minLength"@.len() == 9 && "minLength"@[0] == 'm' && "minLength"@[1] == 'i');
        assert("pattern"@.len() == 7 && "pattern"@[0] == 'p');
        assert("maxItems"@.len() == 8 && "maxItems"@[0] == 'm' && "maxItems"@[1] == 'a');
        assert("minItems"@.len() == 8 && "minItems"@[0] == 'm' && "minItems"@[1] == 'i');
        assert("uniqueItems"@.len() == 11 && "uniqueItems"@[0] == 'u');
        assert("items"@.len() == 5 && "items"@[0] == 'i');
        assert("properties"@.len() == 10 && "properties"@[0] == 'p');
        assert("maxProperties"@.len() == 13 && "maxProperties"@[0] == 'm' && "maxProperties"@[1] == 'a');
        assert("minProperties"@.len() == 13 && "minProperties"@[0] == 'm' && "minProperties"@[1] == 'i');
        assert("required"@.len() == 8 && "required"@[0] == 'r' && "required"@[2] == 'q');
        assert("type"@.len() == 4 && "type"@[0] == 't');
        assert("allOf"@.len() == 5 && "allOf"@[0] == 'a' && "allOf"@[1] == 'l');
        assert("oneOf"@.len() == 5 && "oneOf"@[0] == 'o');
        assert("anyOf"@.len() == 5 && "anyOf"@[0] == 'a' && "anyOf"@[1] == 'n');
        assert("not"@.len() == 3 && "not"@[0] == 'n');
        assert("description"@.len() == 11 && "description"@[0] == 'd');
        assert("format"@.len() == 6);
        assert("default"@.len() == 7 && "default"@[0] == 'd');
        assert("additionalProperties"@.len() == 20);
        assert("nullable"@.len() == 8 && "nullable"@[0] == 'n');
        assert("discriminator"@.len() == 13 && "discriminator"@[0] == 'd');
        assert("readOnly"@.len() == 8 && "readOnly"@[0] == 'r' && "readOnly"@[2] == 'a');
        assert("writeOnly"@.len() == 9 && "writeOnly"@[0] == 'w');
        assert("xml"@.len() == 3 && "xml"@[0] == 'x');
        assert("externalDocs"@.len() == 12);
        assert("example"@.len() == 7 && "example"@[0] == 'e');
        assert("deprecated"@.len() == 10 && "deprecated"@[0] == 'd');
    }

    /// The pointer key is none of the names.
    pub proof fn lemma_pointer_unnamed()
        ensures
            !Self::names().contains(POINTER_KEY@),
    {
        reveal_strlit("$ref");
        reveal_strlit("title");
        reveal_strlit("enum");
        reveal_strlit("multipleOf");
        reveal_strlit("maximum");
        reveal_strlit("exclusiveMaximum");
        reveal_strlit("minimum");
        reveal_strlit("exclusiveMinimum");
        reveal_strlit("maxLength");
        reveal_strlit("minLength");
        reveal_strlit("pattern");
        reveal_strlit("maxItems");
        reveal_strlit("minItems");
        reveal_strlit("uniqueItems");
        reveal_strlit("items");
        reveal_strlit("properties");
        reveal_strlit("maxProperties");
        reveal_strlit("minProperties");
        reveal_strlit("required");
        reveal_strlit("type");
        reveal_strlit("allOf");
        reveal_strlit("oneOf");
        reveal_strlit("anyOf");
        reveal_strlit("not");
        reveal_strlit("description");
        reveal_strlit("format");
        reveal_strlit("default");
        reveal_strlit("additionalProperties");
        reveal_strlit("nullable");
        reveal_strlit("discriminator");
        reveal_strlit("readOnly");
        reveal_strlit("writeOnly");
        reveal_strlit("xml");
        reveal_strlit("externalDocs");
        reveal_strlit("example");
        reveal_strlit("deprecated");
        assert("$ref"@.len() == 4 && "$ref"@[0] == '$');
        assert("title"@.len() == 5);
        assert("enum"@.len() == 4 && "enum"@[0] == 'e');
        assert("multipleOf"@.len() == 10);
        assert("maximum"@.len() == 7);
        assert("exclusiveMaximum"@.len() == 16);
        assert("minimum"@.len() == 7);
        assert("exclusiveMinimum"@.len() == 16);
        assert("maxLength"@.len() == 9);
        assert("minLength"@.len() == 9);
        assert("pattern"@.len() == 7);
        assert("maxItems"@.len() == 8);
        assert("minItems"@.len() == 8);
        assert("uniqueItems"@.len() == 11);
        assert("items"@.len() == 5);
        assert("properties"@.len() == 10);
        assert("maxProperties"@.len() == 13);
        assert("minProperties"@.len() == 13);
        assert("required"@.len() == 8);
        assert("type"@.len() == 4 && "type"@[0] == 't');
        assert("allOf"@.len() == 5);
        assert("oneOf"@.len() == 5);
        assert("anyOf"@.len() == 5);
        assert("not"@.len() == 3);
        assert("description"@.len() == 11);
        assert("format"@.len() == 6);
        assert("default"@.len() == 7);
        assert("additionalProperties"@.len() == 20);
        assert("nullable"@.len() == 8);
        assert("discriminator"@.len() == 13);
        assert("readOnly"@.len() == 8);
        assert("writeOnly"@.len() == 9);
        assert("xml"@.len() == 3);
        assert("externalDocs"@.len() == 12);
        assert("example"@.len() == 7);
        assert("deprecated"@.len() == 10);
    }

    /// The mathematical value.
    pub open spec fn tree_model(&self) -> SchemaModel
        decreases self, 0nat,
    {
        SchemaModel {
            title: option_model(self.title),
            enum_: option_model(self.enum_),
            multiple_of: option_model(self.multiple_of),
            maximum: option_model(self.maximum),
            exclusive_maximum: option_model(self.exclusive_maximum),
            minimum: option_model(self.minimum),
            exclusive_minimum: option_model(self.exclusive_minimum),
            max_length: option_model(self.max_length),
            min_length: option_model(self.min_length),
            pattern: option_model(self.pattern),
            max_items: option_model(self.max_items),
            min_items: option_model(self.min_items),
            unique_items: option_model(self.unique_items),
            items: schema_or_ref_box_slot_model(self.items),
            properties: schema_or_ref_table_slot_model(self.properties),
            max_properties: option_model(self.max_properties),
            min_properties: option_model(self.min_properties),
            required: option_model(self.required),
            type_: option_model(self.type_),
            all_of: schema_or_ref_list_slot_model(self.all_of),
            one_of: schema_or_ref_list_slot_model(self.one_of),
            any_of: schema_or_ref_list_slot_model(self.any_of),
            not: schema_or_ref_box_slot_model(self.not),
            description: option_model(self.description),
            format: option_model(self.format),
            default: option_model(self.default),
            additional_properties: option_model(self.additional_properties),
            nullable: option_model(self.nullable),
            discriminator: option_model(self.discriminator),
            read_only: option_model(self.read_only),
            write_only: option_model(self.write_only),
            xml: option_model(self.xml),
            external_docs: option_model(self.external_docs),
            example: option_model(self.example),
            deprecated: option_model(self.deprecated),
        }
    }

    /// Whether a JSON value has the shape of the type.
    pub open spec fn tree_fits(json: JsonModel) -> bool
        decreases json, 0nat,
    {
        &&& json is Object
        &&& optional_fits::<String>(lookup(json->Object_0, "title"@))
        &&& optional_fits::<Vec<String>>(lookup(json->Object_0, "enum"@))
        &&& optional_fits::<Number>(lookup(json->Object_0, "multipleOf"@))
        &&& optional_fits::<Number>(lookup(json->Object_0, "maximum"@))
        &&& optional_fits::<bool>(lookup(json->Object_0, "exclusiveMaximum"@))
        &&& optional_fits::<Number>(lookup(json->Object_0, "minimum"@))
        &&& optional_fits::<bool>(lookup(json->Object_0, "exclusiveMinimum"@))
        &&& optional_fits::<Number>(lookup(json->Object_0, "maxLength"@))
        &&& optional_fits::<Number>(lookup(json->Object_0, "minLength"@))
        &&& optional_fits::<String>(lookup(json->Object_0, "pattern"@))
        &&& optional_fits::<Number>(lookup(json->Object_0, "maxItems"@))
        &&& optional_fits::<Number>(lookup(json->Object_0, "minItems"@))
        &&& optional_fits::<bool>(lookup(json->Object_0, "uniqueItems"@))
        &&& schema_or_ref_box_field_fits(json->Object_0, "items"@)
        &&& schema_or_ref_table_field_fits(json->Object_0, "properties"@)
        &&& optional_fits::<Number>(lookup(json->Object_0, "maxProperties"@))
        &&& optional_fits::<Number>(lookup(json->Object_0, "minProperties"@))
        &&& optional_fits::<Vec<String>>(lookup(json->Object_0, "required"@))
        &&& optional_fits::<String>(lookup(json->Object_0, "type"@))
        &&& schema_or_ref_list_field_fits(json->Object_0, "allOf"@)
        &&& schema_or_ref_list_field_fits(json->Object_0, "oneOf"@)
        &&& schema_or_ref_list_field_fits(json->Object_0, "anyOf"@)
        &&& schema_or_ref_box_field_fits(json->Object_0, "not"@)
        &&& optional_fits::<String>(lookup(json->Object_0, "description"@))
        &&& optional_fits::<String>(lookup(json->Object_0, "format"@))
        &&& optional_fits::<String>(lookup(json->Object_0, "default"@))
        &&& optional_fits::<Json>(lookup(json->Object_0, "additionalProperties"@))
        &&& optional_fits::<bool>(lookup(json->Object_0, "nullable"@))
        &&& optional_fits::<Discriminator>(lookup(json->Object_0, "discriminator"@))
        &&& optional_fits::<bool>(lookup(json->Object_0, "readOnly"@))
        &&& optional_fits::<bool>(lookup(json->Object_0, "writeOnly"@))
        &&& optional_fits::<XML>(lookup(json->Object_0, "xml"@))
        &&& optional_fits::<ExternalDoc>(lookup(json->Object_0, "externalDocs"@))
        &&& optional_fits::<Json>(lookup(json->Object_0, "example"@))
        &&& optional_fits::<bool>(lookup(json->Object_0, "deprecated"@))
    }

    /// What a JSON value of the right shape holds.
    pub open spec fn tree_decoded(json: JsonModel) -> SchemaModel
        decreases json, 0nat,
    {
        if json is Object {
            SchemaModel {
                title: optional_decoded::<String>(lookup(json->Object_0, "title"@)),
                enum_: optional_decoded::<Vec<String>>(lookup(json->Object_0, "enum"@)),
                multiple_of: optional_decoded::<Number>(lookup(json->Object_0, "multipleOf"@)),
                maximum: optional_decoded::<Number>(lookup(json->Object_0, "maximum"@)),
                exclusive_maximum: optional_decoded::<bool>(lookup(json->Object_0, "exclusiveMaximum"@)),
                minimum: optional_decoded::<Number>(lookup(json->Object_0, "minimum"@)),
                exclusive_minimum: optional_decoded::<bool>(lookup(json->Object_0, "exclusiveMinimum"@)),
                max_length: optional_decoded::<Number>(lookup(json->Object_0, "maxLength"@)),
                min_length: optional_decoded::<Number>(lookup(json->Object_0, "minLength"@)),
                pattern: optional_decoded::<String>(lookup(json->Object_0, "pattern"@)),
                max_items: optional_decoded::<Number>(lookup(json->Object_0, "maxItems"@)),
                min_items: optional_decoded::<Number>(lookup(json->Object_0, "minItems"@)),
                unique_items: optional_decoded::<bool>(lookup(json->Object_0, "uniqueItems"@)),
                items: schema_or_ref_box_field_decoded(json->Object_0, "items"@),
                properties: schema_or_ref_table_field_decoded(json->Object_0, "properties"@),
                max_properties: optional_decoded::<Number>(lookup(json->Object_0, "maxProperties"@)),
                min_properties: optional_decoded::<Number>(lookup(json->Object_0, "minProperties"@)),
                required: optional_decoded::<Vec<String>>(lookup(json->Object_0, "required"@)),
                type_: optional_decoded::<String>(lookup(json->Object_0, "type"@)),
                all_of: schema_or_ref_list_field_decoded(json->Object_0, "allOf"@),
                one_of: schema_or_ref_list_field_decoded(json->Object_0, "oneOf"@),
                any_of: schema_or_ref_list_field_decoded(json->Object_0, "anyOf"@),
                not: schema_or_ref_box_field_decoded(json->Object_0, "not"@),
                description: optional_decoded::<String>(lookup(json->Object_0, "description"@)),
                format: optional_decoded::<String>(lookup(json->Object_0, "format"@)),
                default: optional_decoded::<String>(lookup(json->Object_0, "default"@)),
                additional_properties: optional_decoded::<Json>(lookup(json->Object_0, "additionalProperties"@)),
                nullable: optional_decoded::<bool>(lookup(json->Object_0, "nullable"@)),
                discriminator: optional_decoded::<Discriminator>(lookup(json->Object_0, "discriminator"@)),
                read_only: optional_decoded::<bool>(lookup(json->Object_0, "readOnly"@)),
                write_only: optional_decoded::<bool>(lookup(json->Object_0, "writeOnly"@)),
                xml: optional_decoded::<XML>(lookup(json->Object_0, "xml"@)),
                external_docs: optional_decoded::<ExternalDoc>(lookup(json->Object_0, "externalDocs"@)),
                example: optional_decoded::<Json>(lookup(json->Object_0, "example"@)),
                deprecated: optional_decoded::<bool>(lookup(json->Object_0, "deprecated"@)),
            }
        } else {
            arbitrary()
        }
    }

    /// Whether the value can be written.
    pub open spec fn tree_encodable(value: SchemaModel) -> bool
        decreases value, 0nat,
    {
        &&& optional_encodable::<String>(value.title)
        &&& optional_encodable::<Vec<String>>(value.enum_)
        &&& optional_encodable::<Number>(value.multiple_of)
        &&& optional_encodable::<Number>(value.maximum)
        &&& optional_encodable::<bool>(value.exclusive_maximum)
        &&& optional_encodable::<Number>(value.minimum)
        &&& optional_encodable::<bool>(value.exclusive_minimum)
        &&& optional_encodable::<Number>(value.max_length)
        &&& optional_encodable::<Number>(value.min_length)
        &&& optional_encodable::<String>(value.pattern)
        &&& optional_encodable::<Number>(value.max_items)
        &&& optional_encodable::<Number>(value.min_items)
        &&& optional_encodable::<bool>(value.unique_items)
        &&& schema_or_ref_box_slot_encodable(value.items)
        &&& schema_or_ref_table_slot_encodable(value.properties)
        &&& optional_encodable::<Number>(value.max_properties)
        &&& optional_encodable::<Number>(value.min_properties)
        &&& optional_encodable::<Vec<String>>(value.required)
        &&& optional_encodable::<String>(value.type_)
        &&& schema_or_ref_list_slot_encodable(value.all_of)
        &&& schema_or_ref_list_slot_encodable(value.one_of)
        &&& schema_or_ref_list_slot_encodable(value.any_of)
        &&& schema_or_ref_box_slot_encodable(value.not)
        &&& optional_encodable::<String>(value.description)
        &&& optional_encodable::<String>(value.format)
        &&& optional_encodable::<String>(value.default)
        &&& optional_encodable::<Json>(value.additional_properties)
        &&& optional_encodable::<bool>(value.nullable)
        &&& optional_encodable::<Discriminator>(value.discriminator)
        &&& optional_encodable::<bool>(value.read_only)
        &&& optional_encodable::<bool>(value.write_only)
        &&& optional_encodable::<XML>(value.xml)
        &&& optional_encodable::<ExternalDoc>(value.external_docs)
        &&& optional_encodable::<Json>(value.example)
        &&& optional_encodable::<bool>(value.deprecated)
    }

    /// Whether reading what was written gives the value back.
    pub open spec fn tree_valid(value: SchemaModel) -> bool
        decreases value, 0nat,
    {
        &&& optional_valid::<String>(value.title)
        &&& optional_valid::<Vec<String>>(value.enum_)
        &&& optional_valid::<Number>(value.multiple_of)
        &&& optional_valid::<Number>(value.maximum)
        &&& optional_valid::<bool>(value.exclusive_maximum)
        &&& optional_valid::<Number>(value.minimum)
        &&& optional_valid::<bool>(value.exclusive_minimum)
        &&& optional_valid::<Number>(value.max_length)
        &&& optional_valid::<Number>(value.min_length)
        &&& optional_valid::<String>(value.pattern)
        &&& optional_valid::<Number>(value.max_items)
        &&& optional_valid::<Number>(value.min_items)
        &&& optional_valid::<bool>(value.unique_items)
        &&& schema_or_ref_box_slot_valid(value.items)
        &&& schema_or_ref_table_slot_valid(value.properties)
        &&& optional_valid::<Number>(value.max_properties)
        &&& optional_valid::<Number>(value.min_properties)
        &&& optional_valid::<Vec<String>>(value.required)
        &&& optional_valid::<String>(value.type_)
        &&& schema_or_ref_list_slot_valid(value.all_of)
        &&& schema_or_ref_list_slot_valid(value.one_of)
        &&& schema_or_ref_list_slot_valid(value.any_of)
        &&& schema_or_ref_box_slot_valid(value.not)
        &&& optional_valid::<String>(value.description)
        &&& optional_valid::<String>(value.format)
        &&& optional_valid::<String>(value.default)
        &&& optional_valid::<Json>(value.additional_properties)
        &&& optional_valid::<bool>(value.nullable)
        &&& optional_valid::<Discriminator>(value.discriminator)
        &&& optional_valid::<bool>(value.read_only)
        &&& optional_valid::<bool>(value.write_only)
        &&& optional_valid::<XML>(value.xml)
        &&& optional_valid::<ExternalDoc>(value.external_docs)
        &&& optional_valid::<Json>(value.example)
        &&& optional_valid::<bool>(value.deprecated)
    }

    /// The JSON value that the value is written as.
    pub open spec fn tree_encoded(value: SchemaModel) -> JsonModel
        decreases value, 1nat,
    {
        JsonModel::Object(named_members(Self::names(), Self::slots(value)))
    }

    /// Puts the fields of a value together.
    fn from_fields(
        title: Option<String>,
        enum_: Option<Vec<String>>,
        multiple_of: Option<Number>,
        maximum: Option<Number>,
        exclusive_maximum: Option<bool>,
        minimum: Option<Number>,
        exclusive_minimum: Option<bool>,
        max_length: Option<Number>,
        min_length: Option<Number>,
        pattern: Option<String>,
        max_items: Option<Number>,
        min_items: Option<Number>,
        unique_items: Option<bool>,
        items: Option<Box<RefOrObject<Schema>>>,
        properties: Option<Table<RefOrObject<Schema>>>,
        max_properties: Option<Number>,
        min_properties: Option<Number>,
        required: Option<Vec<String>>,
        type_: Option<String>,
        all_of: Option<Vec<Box<RefOrObject<Schema>>>>,
        one_of: Option<Vec<Box<RefOrObject<Schema>>>>,
        any_of: Option<Vec<Box<RefOrObject<Schema>>>>,
        not: Option<Box<RefOrObject<Schema>>>,
        description: Option<String>,
        format: Option<String>,
        default: Option<String>,
        additional_properties: Option<Json>,
        nullable: Option<bool>,
        discriminator: Option<Discriminator>,
        read_only: Option<bool>,
        write_only: Option<bool>,
        xml: Option<XML>,
        external_docs: Option<ExternalDoc>,
        example: Option<Json>,
        deprecated: Option<bool>,
    ) -> (value: Schema)
        ensures
            value.tree_model() == (SchemaModel {
                title: option_model(title),
                enum_: option_model(enum_),
                multiple_of: option_model(multiple_of),
                maximum: option_model(maximum),
                exclusive_maximum: option_model(exclusive_maximum),
                minimum: option_model(minimum),
                exclusive_minimum: option_model(exclusive_minimum),
                max_length: option_model(max_length),
                min_length: option_model(min_length),
                pattern: option_model(pattern),
                max_items: option_model(max_items),
                min_items: option_model(min_items),
                unique_items: option_model(unique_items),
                items: schema_or_ref_box_slot_model(items),
                properties: schema_or_ref_table_slot_model(properties),
                max_properties: option_model(max_properties),
                min_properties: option_model(min_properties),
                required: option_model(required),
                type_: option_model(type_),
                all_of: schema_or_ref_list_slot_model(all_of),
                one_of: schema_or_ref_list_slot_model(one_of),
                any_of: schema_or_ref_list_slot_model(any_of),
                not: schema_or_ref_box_slot_model(not),
                description: option_model(description),
                format: option_model(format),
                default: option_model(default),
                additional_properties: option_model(additional_properties),
                nullable: option_model(nullable),
                discriminator: option_model(discriminator),
                read_only: option_model(read_only),
                write_only: option_model(write_only),
                xml: option_model(xml),
                external_docs: option_model(external_docs),
                example: option_model(example),
                deprecated: option_model(deprecated),
            }),
    {
        Schema { title, enum_, multiple_of, maximum, exclusive_maximum, minimum, exclusive_minimum, max_length, min_length, pattern, max_items, min_items, unique_items, items, properties, max_properties, min_properties, required, type_, all_of, one_of, any_of, not, description, format, default, additional_properties, nullable, discriminator, read_only, write_only, xml, external_docs, example, deprecated }
    }

    /// Reads a value. Fails with `ShapeMismatch` exactly on JSON of another
    /// shape.
    pub fn decode_tree(json: &Json) -> (res: Result<Schema, CodecError>)
        ensures
            match res {
                Ok(value) => Self::tree_fits(json.model()) && value.tree_model()
                    == Self::tree_decoded(json.model()),
                Err(error) => !Self::tree_fits(json.model()) && error
                    == CodecError::ShapeMismatch,
            },
        decreases json.model(), 0nat,
    {
        let members = match json {
            Json::Object(members) => members,
            _ => {
                return Err(CodecError::ShapeMismatch);
            },
        };
        let mut reader = ObjectReader::new(members);
        let title = decode_optional::<String>(reader.field("title"))?;
        let enum_ = decode_optional::<Vec<String>>(reader.field("enum"))?;
        let multiple_of = decode_optional::<Number>(reader.field("multipleOf"))?;
        let maximum = decode_optional::<Number>(reader.field("maximum"))?;
        let exclusive_maximum = decode_optional::<bool>(reader.field("exclusiveMaximum"))?;
        let minimum = decode_optional::<Number>(reader.field("minimum"))?;
        let exclusive_minimum = decode_optional::<bool>(reader.field("exclusiveMinimum"))?;
        let max_length = decode_optional::<Number>(reader.field("maxLength"))?;
        let min_length = decode_optional::<Number>(reader.field("minLength"))?;
        let pattern = decode_optional::<String>(reader.field("pattern"))?;
        let max_items = decode_optional::<Number>(reader.field("maxItems"))?;
        let min_items = decode_optional::<Number>(reader.field("minItems"))?;
        let unique_items = decode_optional::<bool>(reader.field("uniqueItems"))?;
        let items = read_schema_or_ref_box(&mut reader, "items")?;
        let properties = read_schema_or_ref_table(&mut reader, "properties")?;
        let max_properties = decode_optional::<Number>(reader.field("maxProperties"))?;
        let min_properties = decode_optional::<Number>(reader.field("minProperties"))?;
        let required = decode_optional::<Vec<String>>(reader.field("required"))?;
        let type_ = decode_optional::<String>(reader.field("type"))?;
        let all_of = read_schema_or_ref_list(&mut reader, "allOf")?;
        let one_of = read_schema_or_ref_list(&mut reader, "oneOf")?;
        let any_of = read_schema_or_ref_list(&mut reader, "anyOf")?;
        let not = read_schema_or_ref_box(&mut reader, "not")?;
        let description = decode_optional::<String>(reader.field("description"))?;
        let format = decode_optional::<String>(reader.field("format"))?;
        let default = decode_optional::<String>(reader.field("default"))?;
        let additional_properties = decode_optional::<Json>(reader.field("additionalProperties"))?;
        let nullable = decode_optional::<bool>(reader.field("nullable"))?;
        let discriminator = decode_optional::<Discriminator>(reader.field("discriminator"))?;
        let read_only = decode_optional::<bool>(reader.field("readOnly"))?;
        let write_only = decode_optional::<bool>(reader.field("writeOnly"))?;
        let xml = decode_optional::<XML>(reader.field("xml"))?;
        let external_docs = decode_optional::<ExternalDoc>(reader.field("externalDocs"))?;
        let example = decode_optional::<Json>(reader.field("example"))?;
        let deprecated = decode_optional::<bool>(reader.field("deprecated"))?;
        Ok(Schema::from_fields(title, enum_, multiple_of, maximum, exclusive_maximum, minimum, exclusive_minimum, max_length, min_length, pattern, max_items, min_items, unique_items, items, properties, max_properties, min_properties, required, type_, all_of, one_of, any_of, not, description, format, default, additional_properties, nullable, discriminator, read_only, write_only, xml, external_docs, example, deprecated))
    }

    /// Writes the value. Fails with `ExtensionCollision` exactly on a value
    /// that is not encodable.
    pub fn encode_tree(&self) -> (res: Result<Json, CodecError>)
        ensures
            match res {
                Ok(json) => Self::tree_encodable(self.tree_model()) && json.model()
                    == Self::tree_encoded(self.tree_model()),
                Err(error) => !Self::tree_encodable(self.tree_model()) && error
                    == CodecError::ExtensionCollision,
            },
        decreases self, 0nat,
    {
        let writer = ObjectWriter::new();
        let writer = writer.put("title", encode_optional::<String>(&self.title)?);
        let writer = writer.put("enum", encode_optional::<Vec<String>>(&self.enum_)?);
        let writer = writer.put("multipleOf", encode_optional::<Number>(&self.multiple_of)?);
        let writer = writer.put("maximum", encode_optional::<Number>(&self.maximum)?);
        let writer = writer.put("exclusiveMaximum", encode_optional::<bool>(&self.exclusive_maximum)?);
        let writer = writer.put("minimum", encode_optional::<Number>(&self.minimum)?);
        let writer = writer.put("exclusiveMinimum", encode_optional::<bool>(&self.exclusive_minimum)?);
        let writer = writer.put("maxLength", encode_optional::<Number>(&self.max_length)?);
        let writer = writer.put("minLength", encode_optional::<Number>(&self.min_length)?);
        let writer = writer.put("pattern", encode_optional::<String>(&self.pattern)?);
        let writer = writer.put("maxItems", encode_optional::<Number>(&self.max_items)?);
        let writer = writer.put("minItems", encode_optional::<Number>(&self.min_items)?);
        let writer = writer.put("uniqueItems", encode_optional::<bool>(&self.unique_items)?);
        let writer = writer.put("items", encode_schema_or_ref_box_slot(&self.items)?);
        let writer = writer.put("properties", encode_schema_or_ref_table_slot(&self.properties)?);
        let writer = writer.put("maxProperties", encode_optional::<Number>(&self.max_properties)?);
        let writer = writer.put("minProperties", encode_optional::<Number>(&self.min_properties)?);
        let writer = writer.put("required", encode_optional::<Vec<String>>(&self.required)?);
        let writer = writer.put("type", encode_optional::<String>(&self.type_)?);
        let writer = writer.put("allOf", encode_schema_or_ref_list_slot(&self.all_of)?);
        let writer = writer.put("oneOf", encode_schema_or_ref_list_slot(&self.one_of)?);
        let writer = writer.put("anyOf", encode_schema_or_ref_list_slot(&self.any_of)?);
        let writer = writer.put("not", encode_schema_or_ref_box_slot(&self.not)?);
        let writer = writer.put("description", encode_optional::<String>(&self.description)?);
        let writer = writer.put("format", encode_optional::<String>(&self.format)?);
        let writer = writer.put("default", encode_optional::<String>(&self.default)?);
        let writer = writer.put("additionalProperties", encode_optional::<Json>(&self.additional_properties)?);
        let writer = writer.put("nullable", encode_optional::<bool>(&self.nullable)?);
        let writer = writer.put("discriminator", encode_optional::<Discriminator>(&self.discriminator)?);
        let writer = writer.put("readOnly", encode_optional::<bool>(&self.read_only)?);
        let writer = writer.put("writeOnly", encode_optional::<bool>(&self.write_only)?);
        let writer = writer.put("xml", encode_optional::<XML>(&self.xml)?);
        let writer = writer.put("externalDocs", encode_optional::<ExternalDoc>(&self.external_docs)?);
        let writer = writer.put("example", encode_optional::<Json>(&self.example)?);
        let writer = writer.put("deprecated", encode_optional::<bool>(&self.deprecated)?);
        Ok(writer.finish())
    }

    /// A valid value can be written, what is written has the shape of the
    /// type, and reading it gives the value back.
    pub proof fn lemma_tree_round_trip(value: SchemaModel)
        requires
            Self::tree_valid(value),
        ensures
            Self::tree_encodable(value),
            Self::tree_fits(Self::tree_encoded(value)),
            Self::tree_decoded(Self::tree_encoded(value)) == value,
        decreases value, 0nat,
    {
        let names = Self::names();
        let slots = Self::slots(value);
        let members = Self::tree_encoded(value)->Object_0;
        Self::lemma_names_distinct();
        lemma_named_lookup(names, slots, 0);
        lemma_named_lookup(names, slots, 1);
        lemma_named_lookup(names, slots, 2);
        lemma_named_lookup(names, slots, 3);
        lemma_named_lookup(names, slots, 4);
        lemma_named_lookup(names, slots, 5);
        lemma_named_lookup(names, slots, 6);
        lemma_named_lookup(names, slots, 7);
        lemma_named_lookup(names, slots, 8);
        lemma_named_lookup(names, slots, 9);
        lemma_named_lookup(names, slots, 10);
        lemma_named_lookup(names, slots, 11);
        lemma_named_lookup(names, slots, 12);
        lemma_named_lookup(names, slots, 13);
        lemma_named_lookup(names, slots, 14);
        lemma_named_lookup(names, slots, 15);
        lemma_named_lookup(names, slots, 16);
        lemma_named_lookup(names, slots, 17);
        lemma_named_lookup(names, slots, 18);
        lemma_named_lookup(names, slots, 19);
        lemma_named_lookup(names, slots, 20);
        lemma_named_lookup(names, slots, 21);
        lemma_named_lookup(names, slots, 22);
        lemma_named_lookup(names, slots, 23);
        lemma_named_lookup(names, slots, 24);
        lemma_named_lookup(names, slots, 25);
        lemma_named_lookup(names, slots, 26);
        lemma_named_lookup(names, slots, 27);
        lemma_named_lookup(names, slots, 28);
        lemma_named_lookup(names, slots, 29);
        lemma_named_lookup(names, slots, 30);
        lemma_named_lookup(names, slots, 31);
        lemma_named_lookup(names, slots, 32);
        lemma_named_lookup(names, slots, 33);
        lemma_named_lookup(names, slots, 34);
        lemma_optional_round_trip::<String>(value.title);
        lemma_optional_round_trip::<Vec<String>>(value.enum_);
        lemma_optional_round_trip::<Number>(value.multiple_of);
        lemma_optional_round_trip::<Number>(value.maximum);
        lemma_optional_round_trip::<bool>(value.exclusive_maximum);
        lemma_optional_round_trip::<Number>(value.minimum);
        lemma_optional_round_trip::<bool>(value.exclusive_minimum);
        lemma_optional_round_trip::<Number>(value.max_length);
        lemma_optional_round_trip::<Number>(value.min_length);
        lemma_optional_round_trip::<String>(value.pattern);
        lemma_optional_round_trip::<Number>(value.max_items);
        lemma_optional_round_trip::<Number>(value.min_items);
        lemma_optional_round_trip::<bool>(value.unique_items);
        lemma_schema_or_ref_box_slot_round_trip(value.items, members, "items"@);
        lemma_schema_or_ref_table_slot_round_trip(value.properties, members, "properties"@);
        lemma_optional_round_trip::<Number>(value.max_properties);
        lemma_optional_round_trip::<Number>(value.min_properties);
        lemma_optional_round_trip::<Vec<String>>(value.required);
        lemma_optional_round_trip::<String>(value.type_);
        lemma_schema_or_ref_list_slot_round_trip(value.all_of, members, "allOf"@);
        lemma_schema_or_ref_list_slot_round_trip(value.one_of, members, "oneOf"@);
        lemma_schema_or_ref_list_slot_round_trip(value.any_of, members, "anyOf"@);
        lemma_schema_or_ref_box_slot_round_trip(value.not, members, "not"@);
        lemma_optional_round_trip::<String>(value.description);
        lemma_optional_round_trip::<String>(value.format);
        lemma_optional_round_trip::<String>(value.default);
        lemma_optional_round_trip::<Json>(value.additional_properties);
        lemma_optional_round_trip::<bool>(value.nullable);
        lemma_optional_round_trip::<Discriminator>(value.discriminator);
        lemma_optional_round_trip::<bool>(value.read_only);
        lemma_optional_round_trip::<bool>(value.write_only);
        lemma_optional_round_trip::<XML>(value.xml);
        lemma_optional_round_trip::<ExternalDoc>(value.external_docs);
        lemma_optional_round_trip::<Json>(value.example);
        lemma_optional_round_trip::<bool>(value.deprecated);
    }

    /// What was read is valid. What is written of it is `null` only where it
    /// was read from `null`, and holds the pointer key only where what it was
    /// read from held it.
    pub proof fn lemma_tree_read_is_valid(json: JsonModel)
        requires
            Self::tree_fits(json),
        ensures
            Self::tree_valid(Self::tree_decoded(json)),
            json != JsonModel::Null ==> Self::tree_encoded(Self::tree_decoded(json))
                != JsonModel::Null,
            sniffed(json) is Inline ==> sniffed(
                Self::tree_encoded(Self::tree_decoded(json)),
            ) is Inline,
        decreases json, 0nat,
    {
        let members = json->Object_0;
        let names = Self::names();
        let value = Self::tree_decoded(json);
        let slots = Self::slots(value);
        lemma_optional_read_is_valid::<String>(lookup(members, "title"@));
        lemma_optional_read_is_valid::<Vec<String>>(lookup(members, "enum"@));
        lemma_optional_read_is_valid::<Number>(lookup(members, "multipleOf"@));
        lemma_optional_read_is_valid::<Number>(lookup(members, "maximum"@));
        lemma_optional_read_is_valid::<bool>(lookup(members, "exclusiveMaximum"@));
        lemma_optional_read_is_valid::<Number>(lookup(members, "minimum"@));
        lemma_optional_read_is_valid::<bool>(lookup(members, "exclusiveMinimum"@));
        lemma_optional_read_is_valid::<Number>(lookup(members, "maxLength"@));
        lemma_optional_read_is_valid::<Number>(lookup(members, "minLength"@));
        lemma_optional_read_is_valid::<String>(lookup(members, "pattern"@));
        lemma_optional_read_is_valid::<Number>(lookup(members, "maxItems"@));
        lemma_optional_read_is_valid::<Number>(lookup(members, "minItems"@));
        lemma_optional_read_is_valid::<bool>(lookup(members, "uniqueItems"@));
        lemma_schema_or_ref_box_slot_read_is_valid(members, "items"@);
        lemma_schema_or_ref_table_slot_read_is_valid(members, "properties"@);
        lemma_optional_read_is_valid::<Number>(lookup(members, "maxProperties"@));
        lemma_optional_read_is_valid::<Number>(lookup(members, "minProperties"@));
        lemma_optional_read_is_valid::<Vec<String>>(lookup(members, "required"@));
        lemma_optional_read_is_valid::<String>(lookup(members, "type"@));
        lemma_schema_or_ref_list_slot_read_is_valid(members, "allOf"@);
        lemma_schema_or_ref_list_slot_read_is_valid(members, "oneOf"@);
        lemma_schema_or_ref_list_slot_read_is_valid(members, "anyOf"@);
        lemma_schema_or_ref_box_slot_read_is_valid(members, "not"@);
        lemma_optional_read_is_valid::<String>(lookup(members, "description"@));
        lemma_optional_read_is_valid::<String>(lookup(members, "format"@));
        lemma_optional_read_is_valid::<String>(lookup(members, "default"@));
        lemma_optional_read_is_valid::<Json>(lookup(members, "additionalProperties"@));
        lemma_optional_read_is_valid::<bool>(lookup(members, "nullable"@));
        lemma_optional_read_is_valid::<Discriminator>(lookup(members, "discriminator"@));
        lemma_optional_read_is_valid::<bool>(lookup(members, "readOnly"@));
        lemma_optional_read_is_valid::<bool>(lookup(members, "writeOnly"@));
        lemma_optional_read_is_valid::<XML>(lookup(members, "xml"@));
        lemma_optional_read_is_valid::<ExternalDoc>(lookup(members, "externalDocs"@));
        lemma_optional_read_is_valid::<Json>(lookup(members, "example"@));
        lemma_optional_read_is_valid::<bool>(lookup(members, "deprecated"@));
        Self::lemma_pointer_unnamed();
        lemma_named_lookup_other(names, slots, POINTER_KEY@);
    }

    /// A deep copy: a value of its own that holds the same.
    pub fn duplicate_tree(&self) -> (copy: Schema)
        ensures
            copy.tree_model() == self.tree_model(),
        decreases self, 0nat,
    {
        Schema::from_fields(
            duplicate_optional(&self.title),
            duplicate_optional(&self.enum_),
            duplicate_optional(&self.multiple_of),
            duplicate_optional(&self.maximum),
            duplicate_optional(&self.exclusive_maximum),
            duplicate_optional(&self.minimum),
            duplicate_optional(&self.exclusive_minimum),
            duplicate_optional(&self.max_length),
            duplicate_optional(&self.min_length),
            duplicate_optional(&self.pattern),
            duplicate_optional(&self.max_items),
            duplicate_optional(&self.min_items),
            duplicate_optional(&self.unique_items),
            duplicate_schema_or_ref_box_slot(&self.items),
            duplicate_schema_or_ref_table_slot(&self.properties),
            duplicate_optional(&self.max_properties),
            duplicate_optional(&self.min_properties),
            duplicate_optional(&self.required),
            duplicate_optional(&self.type_),
            duplicate_schema_or_ref_list_slot(&self.all_of),
            duplicate_schema_or_ref_list_slot(&self.one_of),
            duplicate_schema_or_ref_list_slot(&self.any_of),
            duplicate_schema_or_ref_box_slot(&self.not),
            duplicate_optional(&self.description),
            duplicate_optional(&self.format),
            duplicate_optional(&self.default),
            duplicate_optional(&self.additional_properties),
            duplicate_optional(&self.nullable),
            duplicate_optional(&self.discriminator),
            duplicate_optional(&self.read_only),
            duplicate_optional(&self.write_only),
            duplicate_optional(&self.xml),
            duplicate_optional(&self.external_docs),
            duplicate_optional(&self.example),
            duplicate_optional(&self.deprecated),
        )
    }
}

impl Clone for Schema {
    fn clone(&self) -> (copy: Schema)
        ensures
            copy.model() == self.model(),
    {
        self.duplicate()
    }
}

impl Codec for Schema {
    type Model = SchemaModel;

    open spec fn model(&self) -> SchemaModel {
        self.tree_model()
    }

    open spec fn fits(json: JsonModel) -> bool {
        Self::tree_fits(json)
    }

    open spec fn decoded(json: JsonModel) -> SchemaModel {
        Self::tree_decoded(json)
    }

    open spec fn encodable(value: SchemaModel) -> bool {
        Self::tree_encodable(value)
    }

    open spec fn encoded(value: SchemaModel) -> JsonModel {
        Self::tree_encoded(value)
    }

    open spec fn valid(value: SchemaModel) -> bool {
        Self::tree_valid(value)
    }

    fn decode(json: &Json) -> (res: Result<Schema, CodecError>) {
        Schema::decode_tree(json)
    }

    fn encode(&self) -> (res: Result<Json, CodecError>) {
        self.encode_tree()
    }

    fn duplicate(&self) -> (copy: Schema) {
        self.duplicate_tree()
    }

    proof fn lemma_round_trip(value: SchemaModel) {
        Self::lemma_tree_round_trip(value);
    }

    proof fn lemma_read_is_valid(json: JsonModel) {
        Self::lemma_tree_read_is_valid(json);
    }
}

/// The mathematical value of a field that may hold `Operation`.
pub open spec fn operation_slot_model(value: Option<Operation>) -> Option<OperationModel>
    decreases value, 0nat,
{
    match value {
        Some(inner) => Some(inner.tree_model()),
        None => None,
    }
}

/// Whether the field under a key is missing, `null`, or `Operation`.
pub open spec fn operation_field_fits(members: Seq<EntryModel<JsonModel>>, key: Seq<char>) -> bool
    decreases members, 0nat,
{
    match present(lookup(members, key)) {
        Some(inner) => Operation::tree_fits(inner),
        None => true,
    }
}

/// What the field under a key holds, where it may hold `Operation`.
pub open spec fn operation_field_decoded(members: Seq<EntryModel<JsonModel>>, key: Seq<char>) -> Option<OperationModel>
    decreases members, 0nat,
{
    match present(lookup(members, key)) {
        Some(inner) => Some(Operation::tree_decoded(inner)),
        None => None,
    }
}

/// Whether a field that may hold `Operation` can be written.
pub open spec fn operation_slot_encodable(value: Option<OperationModel>) -> bool
    decreases value, 0nat,
{
    match value {
        Some(inner) => Operation::tree_encodable(inner),
        None => true,
    }
}

/// What a field that may hold `Operation` is written as: nothing where it is missing.
pub open spec fn operation_slot_encoded(value: Option<OperationModel>) -> Option<JsonModel>
    decreases value, 0nat,
{
    match value {
        Some(inner) => Some(Operation::tree_encoded(inner)),
        None => None,
    }
}

/// Whether a field that may hold `Operation` comes back unchanged.
pub open spec fn operation_slot_valid(value: Option<OperationModel>) -> bool
    decreases value, 0nat,
{
    match value {
        Some(inner) => Operation::tree_valid(inner) && Operation::tree_encoded(inner) != JsonModel::Null,
        None => true,
    }
}

/// Reads a field that may hold `Operation`. The key counts as named from
/// now on.
pub fn read_operation(reader: &mut ObjectReader<'_>, key: &'static str) -> (res: Result<
    Option<Operation>,
    CodecError,
>)
    ensures
        final(reader).members() == old(reader).members(),
        final(reader).names() == old(reader).names().push(key@),
        match res {
            Ok(value) => operation_field_fits(old(reader).members(), key@) && operation_slot_model(value)
                == operation_field_decoded(old(reader).members(), key@),
            Err(error) => !operation_field_fits(old(reader).members(), key@) && error
                == CodecError::ShapeMismatch,
        },
    decreases old(reader).members(), 0nat,
{
    match present_json(reader.field(key)) {
        Some(inner) => match Operation::decode_tree(inner) {
            Ok(value) => Ok(Some(value)),
            Err(error) => Err(error),
        },
        None => Ok(None),
    }
}

/// Writes a field that may hold `Operation`.
pub fn encode_operation_slot(value: &Option<Operation>) -> (res: Result<Option<Json>, CodecError>)
    ensures
        match res {
            Ok(slot) => operation_slot_encodable(operation_slot_model(*value)) && option_json_model(slot)
                == operation_slot_encoded(operation_slot_model(*value)),
            Err(error) => !operation_slot_encodable(operation_slot_model(*value)) && error
                == CodecError::ExtensionCollision,
        },
    decreases value, 0nat,
{
    match value {
        Some(inner) => match (*inner).encode_tree() {
            Ok(json) => Ok(Some(json)),
            Err(error) => Err(error),
        },
        None => Ok(None),
    }
}

/// A valid field that may hold `Operation` comes back unchanged from
/// every object that holds under the key what the field is written as.
pub proof fn lemma_operation_slot_round_trip(
    value: Option<OperationModel>,
    members: Seq<EntryModel<JsonModel>>,
    key: Seq<char>,
)
    requires
        operation_slot_valid(value),
        lookup(members, key) == operation_slot_encoded(value),
    ensures
        operation_slot_encodable(value),
        operation_field_fits(members, key),
        operation_field_decoded(members, key) == value,
    decreases value, 0nat,
{
    if let Some(inner) = value {
        Operation::lemma_tree_round_trip(inner);
    }
}

/// A field that may hold `Operation` is valid as it was read.
pub proof fn lemma_operation_slot_read_is_valid(members: Seq<EntryModel<JsonModel>>, key: Seq<char>)
    requires
        operation_field_fits(members, key),
    ensures
        operation_slot_valid(operation_field_decoded(members, key)),
    decreases members, 0nat,
{
    if let Some(inner) = present(lookup(members, key)) {
        Operation::lemma_tree_read_is_valid(inner);
    }
}

/// A deep copy of a field that may hold `Operation`.
pub fn duplicate_operation_slot(value: &Option<Operation>) -> (copy: Option<Operation>)
    ensures
        operation_slot_model(copy) == operation_slot_model(*value),
    decreases value, 0nat,
{
    match value {
        Some(inner) => Some((*inner).duplicate_tree()),
        None => None,
    }
}

/// The mathematical value of a field that may hold a table of references or tables of `PathItem` values.
pub open spec fn path_item_table_or_ref_table_slot_model(value: Option<Table<RefOrObject<Table<PathItem>>>>) -> Option<Seq<EntryModel<RefOrObjectModel<Seq<EntryModel<PathItemModel>>>>>>
    decreases value, 0nat,
{
    match value {
        Some(inner) => Some(path_item_table_or_ref_table_model(inner.entries@)),
        None => None,
    }
}

/// Whether the field under a key is missing, `null`, or a table of references or tables of `PathItem` values.
pub open spec fn path_item_table_or_ref_table_field_fits(members: Seq<EntryModel<JsonModel>>, key: Seq<char>) -> bool
    decreases members, 0nat,
{
    match present(lookup(members, key)) {
        Some(inner) => path_item_table_or_ref_table_fits(inner),
        None => true,
    }
}

/// What the field under a key holds, where it may hold a table of references or tables of `PathItem` values.
pub open spec fn path_item_table_or_ref_table_field_decoded(members: Seq<EntryModel<JsonModel>>, key: Seq<char>) -> Option<Seq<EntryModel<RefOrObjectModel<Seq<EntryModel<PathItemModel>>>>>>
    decreases members, 0nat,
{
    match present(lookup(members, key)) {
        Some(inner) => Some(path_item_table_or_ref_table_decoded(inner)),
        None => None,
    }
}

/// Whether a field that may hold a table of references or tables of `PathItem` values can be written.
pub open spec fn path_item_table_or_ref_table_slot_encodable(value: Option<Seq<EntryModel<RefOrObjectModel<Seq<EntryModel<PathItemModel>>>>>>) -> bool
    decreases value, 0nat,
{
    match value {
        Some(inner) => path_item_table_or_ref_table_encodable(inner),
        None => true,
    }
}

/// What a field that may hold a table of references or tables of `PathItem` values is written as: nothing where it is missing.
pub open spec fn path_item_table_or_ref_table_slot_encoded(value: Option<Seq<EntryModel<RefOrObjectModel<Seq<EntryModel<PathItemModel>>>>>>) -> Option<JsonModel>
    decreases value, 0nat,
{
    match value {
        Some(inner) => Some(path_item_table_or_ref_table_encoded(inner)),
        None => None,
    }
}

/// Whether a field that may hold a table of references or tables of `PathItem` values comes back unchanged.
pub open spec fn path_item_table_or_ref_table_slot_valid(value: Option<Seq<EntryModel<RefOrObjectModel<Seq<EntryModel<PathItemModel>>>>>>) -> bool
    decreases value, 0nat,
{
    match value {
        Some(inner) => path_item_table_or_ref_table_valid(inner) && path_item_table_or_ref_table_encoded(inner) != JsonModel::Null,
        None => true,
    }
}

/// Reads a field that may hold a table of references or tables of `PathItem` values. The key counts as named from
/// now on.
pub fn read_path_item_table_or_ref_table(reader: &mut ObjectReader<'_>, key: &'static str) -> (res: Result<
    Option<Table<RefOrObject<Table<PathItem>>>>,
    CodecError,
>)
    ensures
        final(reader).members() == old(reader).members(),
        final(reader).names() == old(reader).names().push(key@),
        match res {
            Ok(value) => path_item_table_or_ref_table_field_fits(old(reader).members(), key@) && path_item_table_or_ref_table_slot_model(value)
                == path_item_table_or_ref_table_field_decoded(old(reader).members(), key@),
            Err(error) => !path_item_table_or_ref_table_field_fits(old(reader).members(), key@) && error
                == CodecError::ShapeMismatch,
        },
    decreases old(reader).members(), 0nat,
{
    match present_json(reader.field(key)) {
        Some(inner) => match decode_path_item_table_or_ref_table(inner) {
            Ok(value) => Ok(Some(value)),
            Err(error) => Err(error),
        },
        None => Ok(None),
    }
}

/// Writes a field that may hold a table of references or tables of `PathItem` values.
pub fn encode_path_item_table_or_ref_table_slot(value: &Option<Table<RefOrObject<Table<PathItem>>>>) -> (res: Result<Option<Json>, CodecError>)
    ensures
        match res {
            Ok(slot) => path_item_table_or_ref_table_slot_encodable(path_item_table_or_ref_table_slot_model(*value)) && option_json_model(slot)
                == path_item_table_or_ref_table_slot_encoded(path_item_table_or_ref_table_slot_model(*value)),
            Err(error) => !path_item_table_or_ref_table_slot_encodable(path_item_table_or_ref_table_slot_model(*value)) && error
                == CodecError::ExtensionCollision,
        },
    decreases value, 0nat,
{
    match value {
        Some(inner) => match encode_path_item_table_or_ref_table(&(*inner)) {
            Ok(json) => Ok(Some(json)),
            Err(error) => Err(error),
        },
        None => Ok(None),
    }
}

/// A valid field that may hold a table of references or tables of `PathItem` values comes back unchanged from
/// every object that holds under the key what the field is written as.
pub proof fn lemma_path_item_table_or_ref_table_slot_round_trip(
    value: Option<Seq<EntryModel<RefOrObjectModel<Seq<EntryModel<PathItemModel>>>>>>,
    members: Seq<EntryModel<JsonModel>>,
    key: Seq<char>,
)
    requires
        path_item_table_or_ref_table_slot_valid(value),
        lookup(members, key) == path_item_table_or_ref_table_slot_encoded(value),
    ensures
        path_item_table_or_ref_table_slot_encodable(value),
        path_item_table_or_ref_table_field_fits(members, key),
        path_item_table_or_ref_table_field_decoded(members, key) == value,
    decreases value, 0nat,
{
    if let Some(inner) = value {
        lemma_path_item_table_or_ref_table_round_trip(inner);
    }
}

/// A field that may hold a table of references or tables of `PathItem` values is valid as it was read.
pub proof fn lemma_path_item_table_or_ref_table_slot_read_is_valid(members: Seq<EntryModel<JsonModel>>, key: Seq<char>)
    requires
        path_item_table_or_ref_table_field_fits(members, key),
    ensures
        path_item_table_or_ref_table_slot_valid(path_item_table_or_ref_table_field_decoded(members, key)),
    decreases members, 0nat,
{
    if let Some(inner) = present(lookup(members, key)) {
        lemma_path_item_table_or_ref_table_read_is_valid(inner);
    }
}

/// A deep copy of a field that may hold a table of references or tables of `PathItem` values.
pub fn duplicate_path_item_table_or_ref_table_slot(value: &Option<Table<RefOrObject<Table<PathItem>>>>) -> (copy: Option<Table<RefOrObject<Table<PathItem>>>>)
    ensures
        path_item_table_or_ref_table_slot_model(copy) == path_item_table_or_ref_table_slot_model(*value),
    decreases value, 0nat,
{
    match value {
        Some(inner) => Some(duplicate_path_item_table_or_ref_table(&(*inner))),
        None => None,
    }
}

/// The mathematical value of a field that may hold a table of `Encoding` values.
pub open spec fn encoding_table_slot_model(value: Option<Table<Encoding>>) -> Option<Seq<EntryModel<EncodingModel>>>
    decreases value, 0nat,
{
    match value {
        Some(inner) => Some(encoding_table_model(inner.entries@)),
        None => None,
    }
}

/// Whether the field under a key is missing, `null`, or a table of `Encoding` values.
pub open spec fn encoding_table_field_fits(members: Seq<EntryModel<JsonModel>>, key: Seq<char>) -> bool
    decreases members, 0nat,
{
    match present(lookup(members, key)) {
        Some(inner) => encoding_table_fits(inner),
        None => true,
    }
}

/// What the field under a key holds, where it may hold a table of `Encoding` values.
pub open spec fn encoding_table_field_decoded(members: Seq<EntryModel<JsonModel>>, key: Seq<char>) -> Option<Seq<EntryModel<EncodingModel>>>
    decreases members, 0nat,
{
    match present(lookup(members, key)) {
        Some(inner) => Some(encoding_table_decoded(inner)),
        None => None,
    }
}

/// Whether a field that may hold a table of `Encoding` values can be written.
pub open spec fn encoding_table_slot_encodable(value: Option<Seq<EntryModel<EncodingModel>>>) -> bool
    decreases value, 0nat,
{
    match value {
        Some(inner) => encoding_table_encodable(inner),
        None => true,
    }
}

/// What a field that may hold a table of `Encoding` values is written as: nothing where it is missing.
pub open spec fn encoding_table_slot_encoded(value: Option<Seq<EntryModel<EncodingModel>>>) -> Option<JsonModel>
    decreases value, 0nat,
{
    match value {
        Some(inner) => Some(encoding_table_encoded(inner)),
        None => None,
    }
}

/// Whether a field that may hold a table of `Encoding` values comes back unchanged.
pub open spec fn encoding_table_slot_valid(value: Option<Seq<EntryModel<EncodingModel>>>) -> bool
    decreases value, 0nat,
{
    match value {
        Some(inner) => encoding_table_valid(inner) && encoding_table_encoded(inner) != JsonModel::Null,
        None => true,
    }
}

/// Reads a field that may hold a table of `Encoding` values. The key counts as named from
/// now on.
pub fn read_encoding_table(reader: &mut ObjectReader<'_>, key: &'static str) -> (res: Result<
    Option<Table<Encoding>>,
    CodecError,
>)
    ensures
        final(reader).members() == old(reader).members(),
        final(reader).names() == old(reader).names().push(key@),
        match res {
            Ok(value) => encoding_table_field_fits(old(reader).members(), key@) && encoding_table_slot_model(value)
                == encoding_table_field_decoded(old(reader).members(), key@),
            Err(error) => !encoding_table_field_fits(old(reader).members(), key@) && error
                == CodecError::ShapeMismatch,
        },
    decreases old(reader).members(), 0nat,
{
    match present_json(reader.field(key)) {
        Some(inner) => match decode_encoding_table(inner) {
            Ok(value) => Ok(Some(value)),
            Err(error) => Err(error),
        },
        None => Ok(None),
    }
}

/// Writes a field that may hold a table of `Encoding` values.
pub fn encode_encoding_table_slot(value: &Option<Table<Encoding>>) -> (res: Result<Option<Json>, CodecError>)
    ensures
        match res {
            Ok(slot) => encoding_table_slot_encodable(encoding_table_slot_model(*value)) && option_json_model(slot)
                == encoding_table_slot_encoded(encoding_table_slot_model(*value)),
            Err(error) => !encoding_table_slot_encodable(encoding_table_slot_model(*value)) && error
                == CodecError::ExtensionCollision,
        },
    decreases value, 0nat,
{
    match value {
        Some(inner) => match encode_encoding_table(&(*inner)) {
            Ok(json) => Ok(Some(json)),
            Err(error) => Err(error),
        },
        None => Ok(None),
    }
}

/// A valid field that may hold a table of `Encoding` values comes back unchanged from
/// every object that holds under the key what the field is written as.
pub proof fn lemma_encoding_table_slot_round_trip(
    value: Option<Seq<EntryModel<EncodingModel>>>,
    members: Seq<EntryModel<JsonModel>>,
    key: Seq<char>,
)
    requires
        encoding_table_slot_valid(value),
        lookup(members, key) == encoding_table_slot_encoded(value),
    ensures
        encoding_table_slot_encodable(value),
        encoding_table_field_fits(members, key),
        encoding_table_field_decoded(members, key) == value,
    decreases value, 0nat,
{
    if let Some(inner) = value {
        lemma_encoding_table_round_trip(inner);
    }
}

/// A field that may hold a table of `Encoding` values is valid as it was read.
pub proof fn lemma_encoding_table_slot_read_is_valid(members: Seq<EntryModel<JsonModel>>, key: Seq<char>)
    requires
        encoding_table_field_fits(members, key),
    ensures
        encoding_table_slot_valid(encoding_table_field_decoded(members, key)),
    decreases members, 0nat,
{
    if let Some(inner) = present(lookup(members, key)) {
        lemma_encoding_table_read_is_valid(inner);
    }
}

/// A deep copy of a field that may hold a table of `Encoding` values.
pub fn duplicate_encoding_table_slot(value: &Option<Table<Encoding>>) -> (copy: Option<Table<Encoding>>)
    ensures
        encoding_table_slot_model(copy) == encoding_table_slot_model(*value),
    decreases value, 0nat,
{
    match value {
        Some(inner) => Some(duplicate_encoding_table(&(*inner))),
        None => None,
    }
}

/// The mathematical value of a field that may hold a table of references or `Header` values.
pub open spec fn header_or_ref_table_slot_model(value: Option<Table<RefOrObject<Header>>>) -> Option<Seq<EntryModel<RefOrObjectModel<HeaderModel>>>>
    decreases value, 0nat,
{
    match value {
        Some(inner) => Some(header_or_ref_table_model(inner.entries@)),
        None => None,
    }
}

/// Whether the field under a key is missing, `null`, or a table of references or `Header` values.
pub open spec fn header_or_ref_table_field_fits(members: Seq<EntryModel<JsonModel>>, key: Seq<char>) -> bool
    decreases members, 0nat,
{
    match present(lookup(members, key)) {
        Some(inner) => header_or_ref_table_fits(inner),
        None => true,
    }
}

/// What the field under a key holds, where it may hold a table of references or `Header` values.
pub open spec fn header_or_ref_table_field_decoded(members: Seq<EntryModel<JsonModel>>, key: Seq<char>) -> Option<Seq<EntryModel<RefOrObjectModel<HeaderModel>>>>
    decreases members, 0nat,
{
    match present(lookup(members, key)) {
        Some(inner) => Some(header_or_ref_table_decoded(inner)),
        None => None,
    }
}

/// Whether a field that may hold a table of references or `Header` values can be written.
pub open spec fn header_or_ref_table_slot_encodable(value: Option<Seq<EntryModel<RefOrObjectModel<HeaderModel>>>>) -> bool
    decreases value, 0nat,
{
    match value {
        Some(inner) => header_or_ref_table_encodable(inner),
        None => true,
    }
}

/// What a field that may hold a table of references or `Header` values is written as: nothing where it is missing.
pub open spec fn header_or_ref_table_slot_encoded(value: Option<Seq<EntryModel<RefOrObjectModel<HeaderModel>>>>) -> Option<JsonModel>
    decreases value, 0nat,
{
    match value {
        Some(inner) => Some(header_or_ref_table_encoded(inner)),
        None => None,
    }
}

/// Whether a field that may hold a table of references or `Header` values comes back unchanged.
pub open spec fn header_or_ref_table_slot_valid(value: Option<Seq<EntryModel<RefOrObjectModel<HeaderModel>>>>) -> bool
    decreases value, 0nat,
{
    match value {
        Some(inner) => header_or_ref_table_valid(inner) && header_or_ref_table_encoded(inner) != JsonModel::Null,
        None => true,
    }
}

/// Reads a field that may hold a table of references or `Header` values. The key counts as named from
/// now on.
pub fn read_header_or_ref_table(reader: &mut ObjectReader<'_>, key: &'static str) -> (res: Result<
    Option<Table<RefOrObject<Header>>>,
    CodecError,
>)
    ensures
        final(reader).members() == old(reader).members(),
        final(reader).names() == old(reader).names().push(key@),
        match res {
            Ok(value) => header_or_ref_table_field_fits(old(reader).members(), key@) && header_or_ref_table_slot_model(value)
                == header_or_ref_table_field_decoded(old(reader).members(), key@),
            Err(error) => !header_or_ref_table_field_fits(old(reader).members(), key@) && error
                == CodecError::ShapeMismatch,
        },
    decreases old(reader).members(), 0nat,
{
    match present_json(reader.field(key)) {
        Some(inner) => match decode_header_or_ref_table(inner) {
            Ok(value) => Ok(Some(value)),
            Err(error) => Err(error),
        },
        None => Ok(None),
    }
}

/// Writes a field that may hold a table of references or `Header` values.
pub fn encode_header_or_ref_table_slot(value: &Option<Table<RefOrObject<Header>>>) -> (res: Result<Option<Json>, CodecError>)
    ensures
        match res {
            Ok(slot) => header_or_ref_table_slot_encodable(header_or_ref_table_slot_model(*value)) && option_json_model(slot)
                == header_or_ref_table_slot_encoded(header_or_ref_table_slot_model(*value)),
            Err(error) => !header_or_ref_table_slot_encodable(header_or_ref_table_slot_model(*value)) && error
                == CodecError::ExtensionCollision,
        },
    decreases value, 0nat,
{
    match value {
        Some(inner) => match encode_header_or_ref_table(&(*inner)) {
            Ok(json) => Ok(Some(json)),
            Err(error) => Err(error),
        },
        None => Ok(None),
    }
}

/// A valid field that may hold a table of references or `Header` values comes back unchanged from
/// every object that holds under the key what the field is written as.
pub proof fn lemma_header_or_ref_table_slot_round_trip(
    value: Option<Seq<EntryModel<RefOrObjectModel<HeaderModel>>>>,
    members: Seq<EntryModel<JsonModel>>,
    key: Seq<char>,
)
    requires
        header_or_ref_table_slot_valid(value),
        lookup(members, key) == header_or_ref_table_slot_encoded(value),
    ensures
        header_or_ref_table_slot_encodable(value),
        header_or_ref_table_field_fits(members, key),
        header_or_ref_table_field_decoded(members, key) == value,
    decreases value, 0nat,
{
    if let Some(inner) = value {
        lemma_header_or_ref_table_round_trip(inner);
    }
}

/// A field that may hold a table of references or `Header` values is valid as it was read.
pub proof fn lemma_header_or_ref_table_slot_read_is_valid(members: Seq<EntryModel<JsonModel>>, key: Seq<char>)
    requires
        header_or_ref_table_field_fits(members, key),
    ensures
        header_or_ref_table_slot_valid(header_or_ref_table_field_decoded(members, key)),
    decreases members, 0nat,
{
    if let Some(inner) = present(lookup(members, key)) {
        lemma_header_or_ref_table_read_is_valid(inner);
    }
}

/// A deep copy of a field that may hold a table of references or `Header` values.
pub fn duplicate_header_or_ref_table_slot(value: &Option<Table<RefOrObject<Header>>>) -> (copy: Option<Table<RefOrObject<Header>>>)
    ensures
        header_or_ref_table_slot_model(copy) == header_or_ref_table_slot_model(*value),
    decreases value, 0nat,
{
    match value {
        Some(inner) => Some(duplicate_header_or_ref_table(&(*inner))),
        None => None,
    }
}

/// The mathematical value of a field that may hold a table of `Media` values.
pub open spec fn media_table_slot_model(value: Option<Table<Media>>) -> Option<Seq<EntryModel<MediaModel>>>
    decreases value, 0nat,
{
    match value {
        Some(inner) => Some(media_table_model(inner.entries@)),
        None => None,
    }
}

/// Whether the field under a key is missing, `null`, or a table of `Media` values.
pub open spec fn media_table_field_fits(members: Seq<EntryModel<JsonModel>>, key: Seq<char>) -> bool
    decreases members, 0nat,
{
    match present(lookup(members, key)) {
        Some(inner) => media_table_fits(inner),
        None => true,
    }
}

/// What the field under a key holds, where it may hold a table of `Media` values.
pub open spec fn media_table_field_decoded(members: Seq<EntryModel<JsonModel>>, key: Seq<char>) -> Option<Seq<EntryModel<MediaModel>>>
    decreases members, 0nat,
{
    match present(lookup(members, key)) {
        Some(inner) => Some(media_table_decoded(inner)),
        None => None,
    }
}

/// Whether a field that may hold a table of `Media` values can be written.
pub open spec fn media_table_slot_encodable(value: Option<Seq<EntryModel<MediaModel>>>) -> bool
    decreases value, 0nat,
{
    match value {
        Some(inner) => media_table_encodable(inner),
        None => true,
    }
}

/// What a field that may hold a table of `Media` values is written as: nothing where it is missing.
pub open spec fn media_table_slot_encoded(value: Option<Seq<EntryModel<MediaModel>>>) -> Option<JsonModel>
    decreases value, 0nat,
{
    match value {
        Some(inner) => Some(media_table_encoded(inner)),
        None => None,
    }
}

/// Whether a field that may hold a table of `Media` values comes back unchanged.
pub open spec fn media_table_slot_valid(value: Option<Seq<EntryModel<MediaModel>>>) -> bool
    decreases value, 0nat,
{
    match value {
        Some(inner) => media_table_valid(inner) && media_table_encoded(inner) != JsonModel::Null,
        None => true,
    }
}

/// Reads a field that may hold a table of `Media` values. The key counts as named from
/// now on.
pub fn read_media_table(reader: &mut ObjectReader<'_>, key: &'static str) -> (res: Result<
    Option<Table<Media>>,
    CodecError,
>)
    ensures
        final(reader).members() == old(reader).members(),
        final(reader).names() == old(reader).names().push(key@),
        match res {
            Ok(value) => media_table_field_fits(old(reader).members(), key@) && media_table_slot_model(value)
                == media_table_field_decoded(old(reader).members(), key@),
            Err(error) => !media_table_field_fits(old(reader).members(), key@) && error
                == CodecError::ShapeMismatch,
        },
    decreases old(reader).members(), 0nat,
{
    match present_json(reader.field(key)) {
        Some(inner) => match decode_media_table(inner) {
            Ok(value) => Ok(Some(value)),
            Err(error) => Err(error),
        },
        None => Ok(None),
    }
}

/// Writes a field that may hold a table of `Media` values.
pub fn encode_media_table_slot(value: &Option<Table<Media>>) -> (res: Result<Option<Json>, CodecError>)
    ensures
        match res {
            Ok(slot) => media_table_slot_encodable(media_table_slot_model(*value)) && option_json_model(slot)
                == media_table_slot_encoded(media_table_slot_model(*value)),
            Err(error) => !media_table_slot_encodable(media_table_slot_model(*value)) && error
                == CodecError::ExtensionCollision,
        },
    decreases value, 0nat,
{
    match value {
        Some(inner) => match encode_media_table(&(*inner)) {
            Ok(json) => Ok(Some(json)),
            Err(error) => Err(error),
        },
        None => Ok(None),
    }
}

/// A valid field that may hold a table of `Media` values comes back unchanged from
/// every object that holds under the key what the field is written as.
pub proof fn lemma_media_table_slot_round_trip(
    value: Option<Seq<EntryModel<MediaModel>>>,
    members: Seq<EntryModel<JsonModel>>,
    key: Seq<char>,
)
    requires
        media_table_slot_valid(value),
        lookup(members, key) == media_table_slot_encoded(value),
    ensures
        media_table_slot_encodable(value),
        media_table_field_fits(members, key),
        media_table_field_decoded(members, key) == value,
    decreases value, 0nat,
{
    if let Some(inner) = value {
        lemma_media_table_round_trip(inner);
    }
}

/// A field that may hold a table of `Media` values is valid as it was read.
pub proof fn lemma_media_table_slot_read_is_valid(members: Seq<EntryModel<JsonModel>>, key: Seq<char>)
    requires
        media_table_field_fits(members, key),
    ensures
        media_table_slot_valid(media_table_field_decoded(members, key)),
    decreases members, 0nat,
{
    if let Some(inner) = present(lookup(members, key)) {
        lemma_media_table_read_is_valid(inner);
    }
}

/// A deep copy of a field that may hold a table of `Media` values.
pub fn duplicate_media_table_slot(value: &Option<Table<Media>>) -> (copy: Option<Table<Media>>)
    ensures
        media_table_slot_model(copy) == media_table_slot_model(*value),
    decreases value, 0nat,
{
    match value {
        Some(inner) => Some(duplicate_media_table(&(*inner))),
        None => None,
    }
}

/// The mathematical value of a field that may hold a reference or `Schema`.
pub open spec fn schema_or_ref_box_slot_model(value: Option<Box<RefOrObject<Schema>>>) -> Option<Box<RefOrObjectModel<SchemaModel>>>
    decreases value, 0nat,
{
    match value {
        Some(inner) => Some(Box::new(schema_or_ref_model(*inner))),
        None => None,
    }
}

/// Whether the field under a key is missing, `null`, or a reference or `Schema`.
pub open spec fn schema_or_ref_box_field_fits(members: Seq<EntryModel<JsonModel>>, key: Seq<char>) -> bool
    decreases members, 0nat,
{
    match present(lookup(members, key)) {
        Some(inner) => schema_or_ref_fits(inner),
        None => true,
    }
}

/// What the field under a key holds, where it may hold a reference or `Schema`.
pub open spec fn schema_or_ref_box_field_decoded(members: Seq<EntryModel<JsonModel>>, key: Seq<char>) -> Option<Box<RefOrObjectModel<SchemaModel>>>
    decreases members, 0nat,
{
    match present(lookup(members, key)) {
        Some(inner) => Some(Box::new(schema_or_ref_decoded(inner))),
        None => None,
    }
}

/// Whether a field that may hold a reference or `Schema` can be written.
pub open spec fn schema_or_ref_box_slot_encodable(value: Option<Box<RefOrObjectModel<SchemaModel>>>) -> bool
    decreases value, 0nat,
{
    match value {
        Some(inner) => schema_or_ref_encodable(*inner),
        None => true,
    }
}

/// What a field that may hold a reference or `Schema` is written as: nothing where it is missing.
pub open spec fn schema_or_ref_box_slot_encoded(value: Option<Box<RefOrObjectModel<SchemaModel>>>) -> Option<JsonModel>
    decreases value, 0nat,
{
    match value {
        Some(inner) => Some(schema_or_ref_encoded(*inner)),
        None => None,
    }
}

/// Whether a field that may hold a reference or `Schema` comes back unchanged.
pub open spec fn schema_or_ref_box_slot_valid(value: Option<Box<RefOrObjectModel<SchemaModel>>>) -> bool
    decreases value, 0nat,
{
    match value {
        Some(inner) => schema_or_ref_valid(*inner) && schema_or_ref_encoded(*inner) != JsonModel::Null,
        None => true,
    }
}

/// Reads a field that may hold a reference or `Schema`. The key counts as named from
/// now on.
pub fn read_schema_or_ref_box(reader: &mut ObjectReader<'_>, key: &'static str) -> (res: Result<
    Option<Box<RefOrObject<Schema>>>,
    CodecError,
>)
    ensures
        final(reader).members() == old(reader).members(),
        final(reader).names() == old(reader).names().push(key@),
        match res {
            Ok(value) => schema_or_ref_box_field_fits(old(reader).members(), key@) && schema_or_ref_box_slot_model(value)
                == schema_or_ref_box_field_decoded(old(reader).members(), key@),
            Err(error) => !schema_or_ref_box_field_fits(old(reader).members(), key@) && error
                == CodecError::ShapeMismatch,
        },
    decreases old(reader).members(), 0nat,
{
    match present_json(reader.field(key)) {
        Some(inner) => match decode_schema_or_ref(inner) {
            Ok(value) => Ok(Some(Box::new(value))),
            Err(error) => Err(error),
        },
        None => Ok(None),
    }
}

/// Writes a field that may hold a reference or `Schema`.
pub fn encode_schema_or_ref_box_slot(value: &Option<Box<RefOrObject<Schema>>>) -> (res: Result<Option<Json>, CodecError>)
    ensures
        match res {
            Ok(slot) => schema_or_ref_box_slot_encodable(schema_or_ref_box_slot_model(*value)) && option_json_model(slot)
                == schema_or_ref_box_slot_encoded(schema_or_ref_box_slot_model(*value)),
            Err(error) => !schema_or_ref_box_slot_encodable(schema_or_ref_box_slot_model(*value)) && error
                == CodecError::ExtensionCollision,
        },
    decreases value, 0nat,
{
    match value {
        Some(inner) => match encode_schema_or_ref(&(**inner)) {
            Ok(json) => Ok(Some(json)),
            Err(error) => Err(error),
        },
        None => Ok(None),
    }
}

/// A valid field that may hold a reference or `Schema` comes back unchanged from
/// every object that holds under the key what the field is written as.
pub proof fn lemma_schema_or_ref_box_slot_round_trip(
    value: Option<Box<RefOrObjectModel<SchemaModel>>>,
    members: Seq<EntryModel<JsonModel>>,
    key: Seq<char>,
)
    requires
        schema_or_ref_box_slot_valid(value),
        lookup(members, key) == schema_or_ref_box_slot_encoded(value),
    ensures
        schema_or_ref_box_slot_encodable(value),
        schema_or_ref_box_field_fits(members, key),
        schema_or_ref_box_field_decoded(members, key) == value,
    decreases value, 0nat,
{
    if let Some(inner) = value {
        lemma_schema_or_ref_round_trip(*inner);
    }
}

/// A field that may hold a reference or `Schema` is valid as it was read.
pub proof fn lemma_schema_or_ref_box_slot_read_is_valid(members: Seq<EntryModel<JsonModel>>, key: Seq<char>)
    requires
        schema_or_ref_box_field_fits(members, key),
    ensures
        schema_or_ref_box_slot_valid(schema_or_ref_box_field_decoded(members, key)),
    decreases members, 0nat,
{
    if let Some(inner) = present(lookup(members, key)) {
        lemma_schema_or_ref_read_is_valid(inner);
    }
}

/// A deep copy of a field that may hold a reference or `Schema`.
pub fn duplicate_schema_or_ref_box_slot(value: &Option<Box<RefOrObject<Schema>>>) -> (copy: Option<Box<RefOrObject<Schema>>>)
    ensures
        schema_or_ref_box_slot_model(copy) == schema_or_ref_box_slot_model(*value),
    decreases value, 0nat,
{
    match value {
        Some(inner) => Some(Box::new(duplicate_schema_or_ref(&(**inner)))),
        None => None,
    }
}

/// The mathematical value of a field that may hold a table of references or `Schema` values.
pub open spec fn schema_or_ref_table_slot_model(value: Option<Table<RefOrObject<Schema>>>) -> Option<Seq<EntryModel<RefOrObjectModel<SchemaModel>>>>
    decreases value, 0nat,
{
    match value {
        Some(inner) => Some(schema_or_ref_table_model(inner.entries@)),
        None => None,
    }
}

/// Whether the field under a key is missing, `null`, or a table of references or `Schema` values.
pub open spec fn schema_or_ref_table_field_fits(members: Seq<EntryModel<JsonModel>>, key: Seq<char>) -> bool
    decreases members, 0nat,
{
    match present(lookup(members, key)) {
        Some(inner) => schema_or_ref_table_fits(inner),
        None => true,
    }
}

/// What the field under a key holds, where it may hold a table of references or `Schema` values.
pub open spec fn schema_or_ref_table_field_decoded(members: Seq<EntryModel<JsonModel>>, key: Seq<char>) -> Option<Seq<EntryModel<RefOrObjectModel<SchemaModel>>>>
    decreases members, 0nat,
{
    match present(lookup(members, key)) {
        Some(inner) => Some(schema_or_ref_table_decoded(inner)),
        None => None,
    }
}

/// Whether a field that may hold a table of references or `Schema` values can be written.
pub open spec fn schema_or_ref_table_slot_encodable(value: Option<Seq<EntryModel<RefOrObjectModel<SchemaModel>>>>) -> bool
    decreases value, 0nat,
{
    match value {
        Some(inner) => schema_or_ref_table_encodable(inner),
        None => true,
    }
}

/// What a field that may hold a table of references or `Schema` values is written as: nothing where it is missing.
pub open spec fn schema_or_ref_table_slot_encoded(value: Option<Seq<EntryModel<RefOrObjectModel<SchemaModel>>>>) -> Option<JsonModel>
    decreases value, 0nat,
{
    match value {
        Some(inner) => Some(schema_or_ref_table_encoded(inner)),
        None => None,
    }
}

/// Whether a field that may hold a table of references or `Schema` values comes back unchanged.
pub open spec fn schema_or_ref_table_slot_valid(value: Option<Seq<EntryModel<RefOrObjectModel<SchemaModel>>>>) -> bool
    decreases value, 0nat,
{
    match value {
        Some(inner) => schema_or_ref_table_valid(inner) && schema_or_ref_table_encoded(inner) != JsonModel::Null,
        None => true,
    }
}

/// Reads a field that may hold a table of references or `Schema` values. The key counts as named from
/// now on.
pub fn read_schema_or_ref_table(reader: &mut ObjectReader<'_>, key: &'static str) -> (res: Result<
    Option<Table<RefOrObject<Schema>>>,
    CodecError,
>)
    ensures
        final(reader).members() == old(reader).members(),
        final(reader).names() == old(reader).names().push(key@),
        match res {
            Ok(value) => schema_or_ref_table_field_fits(old(reader).members(), key@) && schema_or_ref_table_slot_model(value)
                == schema_or_ref_table_field_decoded(old(reader).members(), key@),
            Err(error) => !schema_or_ref_table_field_fits(old(reader).members(), key@) && error
                == CodecError::ShapeMismatch,
        },
    decreases old(reader).members(), 0nat,
{
    match present_json(reader.field(key)) {
        Some(inner) => match decode_schema_or_ref_table(inner) {
            Ok(value) => Ok(Some(value)),
            Err(error) => Err(error),
        },
        None => Ok(None),
    }
}

/// Writes a field that may hold a table of references or `Schema` values.
pub fn encode_schema_or_ref_table_slot(value: &Option<Table<RefOrObject<Schema>>>) -> (res: Result<Option<Json>, CodecError>)
    ensures
        match res {
            Ok(slot) => schema_or_ref_table_slot_encodable(schema_or_ref_table_slot_model(*value)) && option_json_model(slot)
                == schema_or_ref_table_slot_encoded(schema_or_ref_table_slot_model(*value)),
            Err(error) => !schema_or_ref_table_slot_encodable(schema_or_ref_table_slot_model(*value)) && error
                == CodecError::ExtensionCollision,
        },
    decreases value, 0nat,
{
    match value {
        Some(inner) => match encode_schema_or_ref_table(&(*inner)) {
            Ok(json) => Ok(Some(json)),
            Err(error) => Err(error),
        },
        None => Ok(None),
    }
}

/// A valid field that may hold a table of references or `Schema` values comes back unchanged from
/// every object that holds under the key what the field is written as.
pub proof fn lemma_schema_or_ref_table_slot_round_trip(
    value: Option<Seq<EntryModel<RefOrObjectModel<SchemaModel>>>>,
    members: Seq<EntryModel<JsonModel>>,
    key: Seq<char>,
)
    requires
        schema_or_ref_table_slot_valid(value),
        lookup(members, key) == schema_or_ref_table_slot_encoded(value),
    ensures
        schema_or_ref_table_slot_encodable(value),
        schema_or_ref_table_field_fits(members, key),
        schema_or_ref_table_field_decoded(members, key) == value,
    decreases value, 0nat,
{
    if let Some(inner) = value {
        lemma_schema_or_ref_table_round_trip(inner);
    }
}

/// A field that may hold a table of references or `Schema` values is valid as it was read.
pub proof fn lemma_schema_or_ref_table_slot_read_is_valid(members: Seq<EntryModel<JsonModel>>, key: Seq<char>)
    requires
        schema_or_ref_table_field_fits(members, key),
    ensures
        schema_or_ref_table_slot_valid(schema_or_ref_table_field_decoded(members, key)),
    decreases members, 0nat,
{
    if let Some(inner) = present(lookup(members, key)) {
        lemma_schema_or_ref_table_read_is_valid(inner);
    }
}

/// A deep copy of a field that may hold a table of references or `Schema` values.
pub fn duplicate_schema_or_ref_table_slot(value: &Option<Table<RefOrObject<Schema>>>) -> (copy: Option<Table<RefOrObject<Schema>>>)
    ensures
        schema_or_ref_table_slot_model(copy) == schema_or_ref_table_slot_model(*value),
    decreases value, 0nat,
{
    match value {
        Some(inner) => Some(duplicate_schema_or_ref_table(&(*inner))),
        None => None,
    }
}

/// The mathematical value of a field that may hold a list of references or `Schema` values.
pub open spec fn schema_or_ref_list_slot_model(value: Option<Vec<Box<RefOrObject<Schema>>>>) -> Option<Seq<RefOrObjectModel<SchemaModel>>>
    decreases value, 0nat,
{
    match value {
        Some(inner) => Some(schema_or_ref_list_model(inner@)),
        None => None,
    }
}

/// Whether the field under a key is missing, `null`, or a list of references or `Schema` values.
pub open spec fn schema_or_ref_list_field_fits(members: Seq<EntryModel<JsonModel>>, key: Seq<char>) -> bool
    decreases members, 0nat,
{
    match present(lookup(members, key)) {
        Some(inner) => schema_or_ref_list_fits(inner),
        None => true,
    }
}

/// What the field under a key holds, where it may hold a list of references or `Schema` values.
pub open spec fn schema_or_ref_list_field_decoded(members: Seq<EntryModel<JsonModel>>, key: Seq<char>) -> Option<Seq<RefOrObjectModel<SchemaModel>>>
    decreases members, 0nat,
{
    match present(lookup(members, key)) {
        Some(inner) => Some(schema_or_ref_list_decoded(inner)),
        None => None,
    }
}

/// Whether a field that may hold a list of references or `Schema` values can be written.
pub open spec fn schema_or_ref_list_slot_encodable(value: Option<Seq<RefOrObjectModel<SchemaModel>>>) -> bool
    decreases value, 0nat,
{
    match value {
        Some(inner) => schema_or_ref_list_encodable(inner),
        None => true,
    }
}

/// What a field that may hold a list of references or `Schema` values is written as: nothing where it is missing.
pub open spec fn schema_or_ref_list_slot_encoded(value: Option<Seq<RefOrObjectModel<SchemaModel>>>) -> Option<JsonModel>
    decreases value, 0nat,
{
    match value {
        Some(inner) => Some(schema_or_ref_list_encoded(inner)),
        None => None,
    }
}

/// Whether a field that may hold a list of references or `Schema` values comes back unchanged.
pub open spec fn schema_or_ref_list_slot_valid(value: Option<Seq<RefOrObjectModel<SchemaModel>>>) -> bool
    decreases value, 0nat,
{
    match value {
        Some(inner) => schema_or_ref_list_valid(inner) && schema_or_ref_list_encoded(inner) != JsonModel::Null,
        None => true,
    }
}

/// Reads a field that may hold a list of references or `Schema` values. The key counts as named from
/// now on.
pub fn read_schema_or_ref_list(reader: &mut ObjectReader<'_>, key: &'static str) -> (res: Result<
    Option<Vec<Box<RefOrObject<Schema>>>>,
    CodecError,
>)
    ensures
        final(reader).members() == old(reader).members(),
        final(reader).names() == old(reader).names().push(key@),
        match res {
            Ok(value) => schema_or_ref_list_field_fits(old(reader).members(), key@) && schema_or_ref_list_slot_model(value)
                == schema_or_ref_list_field_decoded(old(reader).members(), key@),
            Err(error) => !schema_or_ref_list_field_fits(old(reader).members(), key@) && error
                == CodecError::ShapeMismatch,
        },
    decreases old(reader).members(), 0nat,
{
    match present_json(reader.field(key)) {
        Some(inner) => match decode_schema_or_ref_list(inner) {
            Ok(value) => Ok(Some(value)),
            Err(error) => Err(error),
        },
        None => Ok(None),
    }
}

/// Writes a field that may hold a list of references or `Schema` values.
pub fn encode_schema_or_ref_list_slot(value: &Option<Vec<Box<RefOrObject<Schema>>>>) -> (res: Result<Option<Json>, CodecError>)
    ensures
        match res {
            Ok(slot) => schema_or_ref_list_slot_encodable(schema_or_ref_list_slot_model(*value)) && option_json_model(slot)
                == schema_or_ref_list_slot_encoded(schema_or_ref_list_slot_model(*value)),
            Err(error) => !schema_or_ref_list_slot_encodable(schema_or_ref_list_slot_model(*value)) && error
                == CodecError::ExtensionCollision,
        },
    decreases value, 0nat,
{
    match value {
        Some(inner) => match encode_schema_or_ref_list(&(*inner)) {
            Ok(json) => Ok(Some(json)),
            Err(error) => Err(error),
        },
        None => Ok(None),
    }
}

/// A valid field that may hold a list of references or `Schema` values comes back unchanged from
/// every object that holds under the key what the field is written as.
pub proof fn lemma_schema_or_ref_list_slot_round_trip(
    value: Option<Seq<RefOrObjectModel<SchemaModel>>>,
    members: Seq<EntryModel<JsonModel>>,
    key: Seq<char>,
)
    requires
        schema_or_ref_list_slot_valid(value),
        lookup(members, key) == schema_or_ref_list_slot_encoded(value),
    ensures
        schema_or_ref_list_slot_encodable(value),
        schema_or_ref_list_field_fits(members, key),
        schema_or_ref_list_field_decoded(members, key) == value,
    decreases value, 0nat,
{
    if let Some(inner) = value {
        lemma_schema_or_ref_list_round_trip(inner);
    }
}

/// A field that may hold a list of references or `Schema` values is valid as it was read.
pub proof fn lemma_schema_or_ref_list_slot_read_is_valid(members: Seq<EntryModel<JsonModel>>, key: Seq<char>)
    requires
        schema_or_ref_list_field_fits(members, key),
    ensures
        schema_or_ref_list_slot_valid(schema_or_ref_list_field_decoded(members, key)),
    decreases members, 0nat,
{
    if let Some(inner) = present(lookup(members, key)) {
        lemma_schema_or_ref_list_read_is_valid(inner);
    }
}

/// A deep copy of a field that may hold a list of references or `Schema` values.
pub fn duplicate_schema_or_ref_list_slot(value: &Option<Vec<Box<RefOrObject<Schema>>>>) -> (copy: Option<Vec<Box<RefOrObject<Schema>>>>)
    ensures
        schema_or_ref_list_slot_model(copy) == schema_or_ref_list_slot_model(*value),
    decreases value, 0nat,
{
    match value {
        Some(inner) => Some(duplicate_schema_or_ref_list(&(*inner))),
        None => None,
    }
}

/// The mathematical value of a table of `PathItem` values.
pub open spec fn path_item_table_model(entries: Seq<Entry<PathItem>>) -> Seq<EntryModel<PathItemModel>>
    decreases entries, 0nat,
{
    Seq::new(
        entries.len(),
        |i: int|
            if 0 <= i < entries.len() {
                EntryModel { key: entries[i].key@, value: entries[i].value.tree_model() }
            } else {
                arbitrary()
            },
    )
}

/// Whether a JSON value has the shape of a table of `PathItem` values.
pub open spec fn path_item_table_fits(json: JsonModel) -> bool
    decreases json, 0nat,
{
    json matches JsonModel::Object(members) && forall|i: int|
        0 <= i < members.len() ==> PathItem::tree_fits((#[trigger] members[i]).value)
}

/// What a JSON value with the shape of a table of `PathItem` values holds.
pub open spec fn path_item_table_decoded(json: JsonModel) -> Seq<EntryModel<PathItemModel>>
    decreases json, 0nat,
{
    match json {
        JsonModel::Object(members) => Seq::new(
            members.len(),
            |i: int|
                if 0 <= i < members.len() {
                    EntryModel { key: members[i].key, value: PathItem::tree_decoded(members[i].value) }
                } else {
                    arbitrary()
                },
        ),
        _ => Seq::empty(),
    }
}

/// Whether a table of `PathItem` values can be written.
pub open spec fn path_item_table_encodable(value: Seq<EntryModel<PathItemModel>>) -> bool
    decreases value, 0nat,
{
    forall|i: int| 0 <= i < value.len() ==> PathItem::tree_encodable((#[trigger] value[i]).value)
}

/// Whether a table of `PathItem` values comes back unchanged.
pub open spec fn path_item_table_valid(value: Seq<EntryModel<PathItemModel>>) -> bool
    decreases value, 0nat,
{
    forall|i: int| 0 <= i < value.len() ==> PathItem::tree_valid((#[trigger] value[i]).value)
}

/// The JSON value that a table of `PathItem` values is written as.
pub open spec fn path_item_table_encoded(value: Seq<EntryModel<PathItemModel>>) -> JsonModel
    decreases value, 0nat,
{
    JsonModel::Object(
        Seq::new(
            value.len(),
            |i: int|
                if 0 <= i < value.len() {
                    EntryModel { key: value[i].key, value: PathItem::tree_encoded(value[i].value) }
                } else {
                    arbitrary()
                },
        ),
    )
}

/// Reads a table of `PathItem` values.
pub fn decode_path_item_table(json: &Json) -> (res: Result<Table<PathItem>, CodecError>)
    ensures
        match res {
            Ok(value) => path_item_table_fits(json.model()) && path_item_table_model(value.entries@)
                == path_item_table_decoded(json.model()),
            Err(error) => !path_item_table_fits(json.model()) && error == CodecError::ShapeMismatch,
        },
    decreases json.model(), 0nat,
{
    match json {
        Json::Object(members) => {
            let mut entries: Vec<Entry<PathItem>> = Vec::new();
            let mut i: usize = 0;
            while i < members.len()
                invariant
                    i <= members.len(),
                    entries.len() == i,
                    json.model() == JsonModel::Object(members_model(members@)),
                    forall|j: int|
                        0 <= j < i ==> PathItem::tree_fits((#[trigger] members_model(members@)[j]).value)
                            && entries@[j].key@ == members_model(members@)[j].key
                            && entries@[j].value.tree_model() == PathItem::tree_decoded(members_model(members@)[j].value),
                decreases members.len() - i,
            {
                assert(json.model()->Object_0[i as int].value == members@[i as int].value.model());
                match PathItem::decode_tree(&members[i].value) {
                    Ok(value) => {
                        entries.push(Entry { key: members[i].key.clone(), value: value });
                    },
                    Err(error) => {
                        assert(!PathItem::tree_fits(json.model()->Object_0[i as int].value));
                        return Err(error);
                    },
                }
                i += 1;
            }
            let value = Table { entries };
            assert(path_item_table_model(value.entries@) =~= path_item_table_decoded(json.model()));
            Ok(value)
        },
        _ => Err(CodecError::ShapeMismatch),
    }
}

/// Writes a table of `PathItem` values.
pub fn encode_path_item_table(table: &Table<PathItem>) -> (res: Result<Json, CodecError>)
    ensures
        match res {
            Ok(json) => path_item_table_encodable(path_item_table_model(table.entries@)) && json.model()
                == path_item_table_encoded(path_item_table_model(table.entries@)),
            Err(error) => !path_item_table_encodable(path_item_table_model(table.entries@)) && error
                == CodecError::ExtensionCollision,
        },
    decreases table, 0nat,
{
    let ghost value = path_item_table_model(table.entries@);
    let mut members: Vec<Entry<Json>> = Vec::new();
    let mut i: usize = 0;
    while i < table.entries.len()
        invariant
            i <= table.entries.len(),
            members.len() == i,
            value == path_item_table_model(table.entries@),
            forall|j: int|
                0 <= j < i ==> PathItem::tree_encodable((#[trigger] value[j]).value)
                    && members@[j].key@ == value[j].key
                    && members@[j].value.model() == PathItem::tree_encoded(value[j].value),
        decreases table.entries.len() - i,
    {
        assert(value[i as int].value == table.entries@[i as int].value.tree_model());
        match table.entries[i].value.encode_tree() {
            Ok(json) => {
                members.push(Entry { key: table.entries[i].key.clone(), value: json });
            },
            Err(error) => {
                assert(!PathItem::tree_encodable(value[i as int].value));
                return Err(error);
            },
        }
        i += 1;
    }
    assert(members_model(members@) =~= path_item_table_encoded(value)->Object_0);
    Ok(Json::Object(members))
}

/// A table of `PathItem` values that is valid comes back unchanged.
pub proof fn lemma_path_item_table_round_trip(value: Seq<EntryModel<PathItemModel>>)
    requires
        path_item_table_valid(value),
    ensures
        path_item_table_encodable(value),
        path_item_table_fits(path_item_table_encoded(value)),
        path_item_table_decoded(path_item_table_encoded(value)) == value,
    decreases value, 0nat,
{
    let members = path_item_table_encoded(value)->Object_0;
    assert forall|i: int| 0 <= i < value.len() implies PathItem::tree_encodable((#[trigger] value[i]).value)
        && PathItem::tree_fits(members[i].value) && PathItem::tree_decoded(members[i].value) == value[i].value by {
        PathItem::lemma_tree_round_trip(value[i].value);
    }
    assert(path_item_table_decoded(path_item_table_encoded(value)) =~= value);
}

/// A table of `PathItem` values that was read is valid.
pub proof fn lemma_path_item_table_read_is_valid(json: JsonModel)
    requires
        path_item_table_fits(json),
    ensures
        path_item_table_valid(path_item_table_decoded(json)),
        json != JsonModel::Null ==> path_item_table_encoded(path_item_table_decoded(json)) != JsonModel::Null,
        sniffed(json) is Inline ==> sniffed(path_item_table_encoded(path_item_table_decoded(json))) is Inline,
    decreases json, 0nat,
{
    let members = json->Object_0;
    let value = path_item_table_decoded(json);
    assert forall|i: int| 0 <= i < value.len() implies PathItem::tree_valid((#[trigger] value[i]).value) by {
        PathItem::lemma_tree_read_is_valid(members[i].value);
    }
    lemma_lookup_same_keys(path_item_table_encoded(value)->Object_0, members, POINTER_KEY@);
}

/// A deep copy of a table of `PathItem` values.
pub fn duplicate_path_item_table(table: &Table<PathItem>) -> (copy: Table<PathItem>)
    ensures
        path_item_table_model(copy.entries@) == path_item_table_model(table.entries@),
    decreases table, 0nat,
{
    let mut copies: Vec<Entry<PathItem>> = Vec::new();
    let mut i: usize = 0;
    while i < table.entries.len()
        invariant
            i <= table.entries.len(),
            copies.len() == i,
            forall|j: int|
                0 <= j < i ==> copies@[j].key@ == table.entries@[j].key@ && copies@[j].value.tree_model()
                    == table.entries@[j].value.tree_model(),
        decreases table.entries.len() - i,
    {
        copies.push(Entry { key: table.entries[i].key.clone(), value: table.entries[i].value.duplicate_tree() });
        i += 1;
    }
    let copy = Table { entries: copies };
    assert(path_item_table_model(copy.entries@) =~= path_item_table_model(table.entries@));
    copy
}

/// The mathematical value of a reference or a table of `PathItem` values.
pub open spec fn path_item_table_or_ref_model(value: RefOrObject<Table<PathItem>>) -> RefOrObjectModel<Seq<EntryModel<PathItemModel>>>
    decreases value, 1nat,
{
    match value {
        RefOrObject::Ref(reference) => RefOrObjectModel::Ref(reference.model()),
        RefOrObject::Object(inner) => RefOrObjectModel::Object(path_item_table_model(inner.entries@)),
    }
}

/// Whether a JSON value has the shape of a reference or a table of `PathItem` values.
pub open spec fn path_item_table_or_ref_fits(json: JsonModel) -> bool
    decreases json, 1nat,
{
    match sniffed(json) {
        Sniffed::Pointer(_) => true,
        Sniffed::Malformed => false,
        Sniffed::Inline => path_item_table_fits(json),
    }
}

/// What a JSON value with the shape of a reference or a table of `PathItem` values holds.
pub open spec fn path_item_table_or_ref_decoded(json: JsonModel) -> RefOrObjectModel<Seq<EntryModel<PathItemModel>>>
    decreases json, 1nat,
{
    match sniffed(json) {
        Sniffed::Pointer(pointer) => RefOrObjectModel::Ref(ReferenceModel { reference: pointer }),
        _ => RefOrObjectModel::Object(path_item_table_decoded(json)),
    }
}

/// Whether a reference or a table of `PathItem` values can be written.
pub open spec fn path_item_table_or_ref_encodable(value: RefOrObjectModel<Seq<EntryModel<PathItemModel>>>) -> bool
    decreases value, 1nat,
{
    match value {
        RefOrObjectModel::Ref(_) => true,
        RefOrObjectModel::Object(inner) => path_item_table_encodable(inner),
    }
}

/// The JSON value that a reference or a table of `PathItem` values is written as.
pub open spec fn path_item_table_or_ref_encoded(value: RefOrObjectModel<Seq<EntryModel<PathItemModel>>>) -> JsonModel
    decreases value, 1nat,
{
    match value {
        RefOrObjectModel::Ref(reference) => pointer_object(reference.reference),
        RefOrObjectModel::Object(inner) => path_item_table_encoded(inner),
    }
}

/// Whether a reference or a table of `PathItem` values comes back unchanged: an inline value that is
/// written with the pointer key would be read as a reference.
pub open spec fn path_item_table_or_ref_valid(value: RefOrObjectModel<Seq<EntryModel<PathItemModel>>>) -> bool
    decreases value, 1nat,
{
    match value {
        RefOrObjectModel::Ref(_) => true,
        RefOrObjectModel::Object(inner) => path_item_table_valid(inner) && sniffed(path_item_table_encoded(inner)) is Inline,
    }
}

/// Reads a reference or a table of `PathItem` values.
pub fn decode_path_item_table_or_ref(json: &Json) -> (res: Result<RefOrObject<Table<PathItem>>, CodecError>)
    ensures
        match res {
            Ok(value) => path_item_table_or_ref_fits(json.model()) && path_item_table_or_ref_model(value)
                == path_item_table_or_ref_decoded(json.model()),
            Err(error) => !path_item_table_or_ref_fits(json.model()) && error == CodecError::ShapeMismatch,
        },
    decreases json.model(), 1nat,
{
    match sniff(json) {
        Sniff::Pointer(pointer) => Ok(RefOrObject::Ref(Reference { reference: pointer.clone() })),
        Sniff::Malformed => Err(CodecError::ShapeMismatch),
        Sniff::Inline => match decode_path_item_table(json) {
            Ok(value) => Ok(RefOrObject::Object(value)),
            Err(error) => Err(error),
        },
    }
}

/// Writes a reference or a table of `PathItem` values.
pub fn encode_path_item_table_or_ref(value: &RefOrObject<Table<PathItem>>) -> (res: Result<Json, CodecError>)
    ensures
        match res {
            Ok(json) => path_item_table_or_ref_encodable(path_item_table_or_ref_model(*value)) && json.model()
                == path_item_table_or_ref_encoded(path_item_table_or_ref_model(*value)),
            Err(error) => !path_item_table_or_ref_encodable(path_item_table_or_ref_model(*value)) && error
                == CodecError::ExtensionCollision,
        },
    decreases value, 1nat,
{
    match value {
        RefOrObject::Ref(reference) => Ok(pointer_json(&reference.reference)),
        RefOrObject::Object(inner) => encode_path_item_table(&(*inner)),
    }
}

/// A reference or a table of `PathItem` values that is valid comes back unchanged.
pub proof fn lemma_path_item_table_or_ref_round_trip(value: RefOrObjectModel<Seq<EntryModel<PathItemModel>>>)
    requires
        path_item_table_or_ref_valid(value),
    ensures
        path_item_table_or_ref_encodable(value),
        path_item_table_or_ref_fits(path_item_table_or_ref_encoded(value)),
        path_item_table_or_ref_decoded(path_item_table_or_ref_encoded(value)) == value,
    decreases value, 1nat,
{
    match value {
        RefOrObjectModel::Ref(reference) => {
            lemma_pointer_object_sniffed(reference.reference);
        },
        RefOrObjectModel::Object(inner) => {
            lemma_path_item_table_round_trip(inner);
        },
    }
}

/// A reference or a table of `PathItem` values that was read is valid.
pub proof fn lemma_path_item_table_or_ref_read_is_valid(json: JsonModel)
    requires
        path_item_table_or_ref_fits(json),
    ensures
        path_item_table_or_ref_valid(path_item_table_or_ref_decoded(json)),
        json != JsonModel::Null ==> path_item_table_or_ref_encoded(path_item_table_or_ref_decoded(json)) != JsonModel::Null,
        sniffed(json) is Inline ==> sniffed(path_item_table_or_ref_encoded(path_item_table_or_ref_decoded(json))) is Inline,
    decreases json, 1nat,
{
    if sniffed(json) is Inline {
        lemma_path_item_table_read_is_valid(json);
    }
}

/// A deep copy of a reference or a table of `PathItem` values.
pub fn duplicate_path_item_table_or_ref(value: &RefOrObject<Table<PathItem>>) -> (copy: RefOrObject<Table<PathItem>>)
    ensures
        path_item_table_or_ref_model(copy) == path_item_table_or_ref_model(*value),
    decreases value, 1nat,
{
    match value {
        RefOrObject::Ref(reference) => RefOrObject::Ref(Reference { reference: reference.reference.clone() }),
        RefOrObject::Object(inner) => RefOrObject::Object(duplicate_path_item_table(&(*inner))),
    }
}

/// The mathematical value of a table of references or tables of `PathItem` values.
pub open spec fn path_item_table_or_ref_table_model(entries: Seq<Entry<RefOrObject<Table<PathItem>>>>) -> Seq<EntryModel<RefOrObjectModel<Seq<EntryModel<PathItemModel>>>>>
    decreases entries, 0nat,
{
    Seq::new(
        entries.len(),
        |i: int|
            if 0 <= i < entries.len() {
                EntryModel { key: entries[i].key@, value: path_item_table_or_ref_model(entries[i].value) }
            } else {
                arbitrary()
            },
    )
}

/// Whether a JSON value has the shape of a table of references or tables of `PathItem` values.
pub open spec fn path_item_table_or_ref_table_fits(json: JsonModel) -> bool
    decreases json, 0nat,
{
    json matches JsonModel::Object(members) && forall|i: int|
        0 <= i < members.len() ==> path_item_table_or_ref_fits((#[trigger] members[i]).value)
}

/// What a JSON value with the shape of a table of references or tables of `PathItem` values holds.
pub open spec fn path_item_table_or_ref_table_decoded(json: JsonModel) -> Seq<EntryModel<RefOrObjectModel<Seq<EntryModel<PathItemModel>>>>>
    decreases json, 0nat,
{
    match json {
        JsonModel::Object(members) => Seq::new(
            members.len(),
            |i: int|
                if 0 <= i < members.len() {
                    EntryModel { key: members[i].key, value: path_item_table_or_ref_decoded(members[i].value) }
                } else {
                    arbitrary()
                },
        ),
        _ => Seq::empty(),
    }
}

/// Whether a table of references or tables of `PathItem` values can be written.
pub open spec fn path_item_table_or_ref_table_encodable(value: Seq<EntryModel<RefOrObjectModel<Seq<EntryModel<PathItemModel>>>>>) -> bool
    decreases value, 0nat,
{
    forall|i: int| 0 <= i < value.len() ==> path_item_table_or_ref_encodable((#[trigger] value[i]).value)
}

/// Whether a table of references or tables of `PathItem` values comes back unchanged.
pub open spec fn path_item_table_or_ref_table_valid(value: Seq<EntryModel<RefOrObjectModel<Seq<EntryModel<PathItemModel>>>>>) -> bool
    decreases value, 0nat,
{
    forall|i: int| 0 <= i < value.len() ==> path_item_table_or_ref_valid((#[trigger] value[i]).value)
}

/// The JSON value that a table of references or tables of `PathItem` values is written as.
pub open spec fn path_item_table_or_ref_table_encoded(value: Seq<EntryModel<RefOrObjectModel<Seq<EntryModel<PathItemModel>>>>>) -> JsonModel
    decreases value, 0nat,
{
    JsonModel::Object(
        Seq::new(
            value.len(),
            |i: int|
                if 0 <= i < value.len() {
                    EntryModel { key: value[i].key, value: path_item_table_or_ref_encoded(value[i].value) }
                } else {
                    arbitrary()
                },
        ),
    )
}

/// Reads a table of references or tables of `PathItem` values.
pub fn decode_path_item_table_or_ref_table(json: &Json) -> (res: Result<Table<RefOrObject<Table<PathItem>>>, CodecError>)
    ensures
        match res {
            Ok(value) => path_item_table_or_ref_table_fits(json.model()) && path_item_table_or_ref_table_model(value.entries@)
                == path_item_table_or_ref_table_decoded(json.model()),
            Err(error) => !path_item_table_or_ref_table_fits(json.model()) && error == CodecError::ShapeMismatch,
        },
    decreases json.model(), 0nat,
{
    match json {
        Json::Object(members) => {
            let mut entries: Vec<Entry<RefOrObject<Table<PathItem>>>> = Vec::new();
            let mut i: usize = 0;
            while i < members.len()
                invariant
                    i <= members.len(),
                    entries.len() == i,
                    json.model() == JsonModel::Object(members_model(members@)),
                    forall|j: int|
                        0 <= j < i ==> path_item_table_or_ref_fits((#[trigger] members_model(members@)[j]).value)
                            && entries@[j].key@ == members_model(members@)[j].key
                            && path_item_table_or_ref_model(entries@[j].value) == path_item_table_or_ref_decoded(members_model(members@)[j].value),
                decreases members.len() - i,
            {
                assert(json.model()->Object_0[i as int].value == members@[i as int].value.model());
                match decode_path_item_table_or_ref(&members[i].value) {
                    Ok(value) => {
                        entries.push(Entry { key: members[i].key.clone(), value: value });
                    },
                    Err(error) => {
                        assert(!path_item_table_or_ref_fits(json.model()->Object_0[i as int].value));
                        return Err(error);
                    },
                }
                i += 1;
            }
            let value = Table { entries };
            assert(path_item_table_or_ref_table_model(value.entries@) =~= path_item_table_or_ref_table_decoded(json.model()));
            Ok(value)
        },
        _ => Err(CodecError::ShapeMismatch),
    }
}

/// Writes a table of references or tables of `PathItem` values.
pub fn encode_path_item_table_or_ref_table(table: &Table<RefOrObject<Table<PathItem>>>) -> (res: Result<Json, CodecError>)
    ensures
        match res {
            Ok(json) => path_item_table_or_ref_table_encodable(path_item_table_or_ref_table_model(table.entries@)) && json.model()
                == path_item_table_or_ref_table_encoded(path_item_table_or_ref_table_model(table.entries@)),
            Err(error) => !path_item_table_or_ref_table_encodable(path_item_table_or_ref_table_model(table.entries@)) && error
                == CodecError::ExtensionCollision,
        },
    decreases table, 0nat,
{
    let ghost value = path_item_table_or_ref_table_model(table.entries@);
    let mut members: Vec<Entry<Json>> = Vec::new();
    let mut i: usize = 0;
    while i < table.entries.len()
        invariant
            i <= table.entries.len(),
            members.len() == i,
            value == path_item_table_or_ref_table_model(table.entries@),
            forall|j: int|
                0 <= j < i ==> path_item_table_or_ref_encodable((#[trigger] value[j]).value)
                    && members@[j].key@ == value[j].key
                    && members@[j].value.model() == path_item_table_or_ref_encoded(value[j].value),
        decreases table.entries.len() - i,
    {
        assert(value[i as int].value == path_item_table_or_ref_model(table.entries@[i as int].value));
        match encode_path_item_table_or_ref(&table.entries[i].value) {
            Ok(json) => {
                members.push(Entry { key: table.entries[i].key.clone(), value: json });
            },
            Err(error) => {
                assert(!path_item_table_or_ref_encodable(value[i as int].value));
                return Err(error);
            },
        }
        i += 1;
    }
    assert(members_model(members@) =~= path_item_table_or_ref_table_encoded(value)->Object_0);
    Ok(Json::Object(members))
}

/// A table of references or tables of `PathItem` values that is valid comes back unchanged.
pub proof fn lemma_path_item_table_or_ref_table_round_trip(value: Seq<EntryModel<RefOrObjectModel<Seq<EntryModel<PathItemModel>>>>>)
    requires
        path_item_table_or_ref_table_valid(value),
    ensures
        path_item_table_or_ref_table_encodable(value),
        path_item_table_or_ref_table_fits(path_item_table_or_ref_table_encoded(value)),
        path_item_table_or_ref_table_decoded(path_item_table_or_ref_table_encoded(value)) == value,
    decreases value, 0nat,
{
    let members = path_item_table_or_ref_table_encoded(value)->Object_0;
    assert forall|i: int| 0 <= i < value.len() implies path_item_table_or_ref_encodable((#[trigger] value[i]).value)
        && path_item_table_or_ref_fits(members[i].value) && path_item_table_or_ref_decoded(members[i].value) == value[i].value by {
        lemma_path_item_table_or_ref_round_trip(value[i].value);
    }
    assert(path_item_table_or_ref_table_decoded(path_item_table_or_ref_table_encoded(value)) =~= value);
}

/// A table of references or tables of `PathItem` values that was read is valid.
pub proof fn lemma_path_item_table_or_ref_table_read_is_valid(json: JsonModel)
    requires
        path_item_table_or_ref_table_fits(json),
    ensures
        path_item_table_or_ref_table_valid(path_item_table_or_ref_table_decoded(json)),
        json != JsonModel::Null ==> path_item_table_or_ref_table_encoded(path_item_table_or_ref_table_decoded(json)) != JsonModel::Null,
        sniffed(json) is Inline ==> sniffed(path_item_table_or_ref_table_encoded(path_item_table_or_ref_table_decoded(json))) is Inline,
    decreases json, 0nat,
{
    let members = json->Object_0;
    let value = path_item_table_or_ref_table_decoded(json);
    assert forall|i: int| 0 <= i < value.len() implies path_item_table_or_ref_valid((#[trigger] value[i]).value) by {
        lemma_path_item_table_or_ref_read_is_valid(members[i].value);
    }
    lemma_lookup_same_keys(path_item_table_or_ref_table_encoded(value)->Object_0, members, POINTER_KEY@);
}

/// A deep copy of a table of references or tables of `PathItem` values.
pub fn duplicate_path_item_table_or_ref_table(table: &Table<RefOrObject<Table<PathItem>>>) -> (copy: Table<RefOrObject<Table<PathItem>>>)
    ensures
        path_item_table_or_ref_table_model(copy.entries@) == path_item_table_or_ref_table_model(table.entries@),
    decreases table, 0nat,
{
    let mut copies: Vec<Entry<RefOrObject<Table<PathItem>>>> = Vec::new();
    let mut i: usize = 0;
    while i < table.entries.len()
        invariant
            i <= table.entries.len(),
            copies.len() == i,
            forall|j: int|
                0 <= j < i ==> copies@[j].key@ == table.entries@[j].key@ && path_item_table_or_ref_model(copies@[j].value)
                    == path_item_table_or_ref_model(table.entries@[j].value),
        decreases table.entries.len() - i,
    {
        copies.push(Entry { key: table.entries[i].key.clone(), value: duplicate_path_item_table_or_ref(&table.entries[i].value) });
        i += 1;
    }
    let copy = Table { entries: copies };
    assert(path_item_table_or_ref_table_model(copy.entries@) =~= path_item_table_or_ref_table_model(table.entries@));
    copy
}

/// The mathematical value of a table of `Encoding` values.
pub open spec fn encoding_table_model(entries: Seq<Entry<Encoding>>) -> Seq<EntryModel<EncodingModel>>
    decreases entries, 0nat,
{
    Seq::new(
        entries.len(),
        |i: int|
            if 0 <= i < entries.len() {
                EntryModel { key: entries[i].key@, value: entries[i].value.tree_model() }
            } else {
                arbitrary()
            },
    )
}

/// Whether a JSON value has the shape of a table of `Encoding` values.
pub open spec fn encoding_table_fits(json: JsonModel) -> bool
    decreases json, 0nat,
{
    json matches JsonModel::Object(members) && forall|i: int|
        0 <= i < members.len() ==> Encoding::tree_fits((#[trigger] members[i]).value)
}

/// What a JSON value with the shape of a table of `Encoding` values holds.
pub open spec fn encoding_table_decoded(json: JsonModel) -> Seq<EntryModel<EncodingModel>>
    decreases json, 0nat,
{
    match json {
        JsonModel::Object(members) => Seq::new(
            members.len(),
            |i: int|
                if 0 <= i < members.len() {
                    EntryModel { key: members[i].key, value: Encoding::tree_decoded(members[i].value) }
                } else {
                    arbitrary()
                },
        ),
        _ => Seq::empty(),
    }
}

/// Whether a table of `Encoding` values can be written.
pub open spec fn encoding_table_encodable(value: Seq<EntryModel<EncodingModel>>) -> bool
    decreases value, 0nat,
{
    forall|i: int| 0 <= i < value.len() ==> Encoding::tree_encodable((#[trigger] value[i]).value)
}

/// Whether a table of `Encoding` values comes back unchanged.
pub open spec fn encoding_table_valid(value: Seq<EntryModel<EncodingModel>>) -> bool
    decreases value, 0nat,
{
    forall|i: int| 0 <= i < value.len() ==> Encoding::tree_valid((#[trigger] value[i]).value)
}

/// The JSON value that a table of `Encoding` values is written as.
pub open spec fn encoding_table_encoded(value: Seq<EntryModel<EncodingModel>>) -> JsonModel
    decreases value, 0nat,
{
    JsonModel::Object(
        Seq::new(
            value.len(),
            |i: int|
                if 0 <= i < value.len() {
                    EntryModel { key: value[i].key, value: Encoding::tree_encoded(value[i].value) }
                } else {
                    arbitrary()
                },
        ),
    )
}

/// Reads a table of `Encoding` values.
pub fn decode_encoding_table(json: &Json) -> (res: Result<Table<Encoding>, CodecError>)
    ensures
        match res {
            Ok(value) => encoding_table_fits(json.model()) && encoding_table_model(value.entries@)
                == encoding_table_decoded(json.model()),
            Err(error) => !encoding_table_fits(json.model()) && error == CodecError::ShapeMismatch,
        },
    decreases json.model(), 0nat,
{
    match json {
        Json::Object(members) => {
            let mut entries: Vec<Entry<Encoding>> = Vec::new();
            let mut i: usize = 0;
            while i < members.len()
                invariant
                    i <= members.len(),
                    entries.len() == i,
                    json.model() == JsonModel::Object(members_model(members@)),
                    forall|j: int|
                        0 <= j < i ==> Encoding::tree_fits((#[trigger] members_model(members@)[j]).value)
                            && entries@[j].key@ == members_model(members@)[j].key
                            && entries@[j].value.tree_model() == Encoding::tree_decoded(members_model(members@)[j].value),
                decreases members.len() - i,
            {
                assert(json.model()->Object_0[i as int].value == members@[i as int].value.model());
                match Encoding::decode_tree(&members[i].value) {
                    Ok(value) => {
                        entries.push(Entry { key: members[i].key.clone(), value: value });
                    },
                    Err(error) => {
                        assert(!Encoding::tree_fits(json.model()->Object_0[i as int].value));
                        return Err(error);
                    },
                }
                i += 1;
            }
            let value = Table { entries };
            assert(encoding_table_model(value.entries@) =~= encoding_table_decoded(json.model()));
            Ok(value)
        },
        _ => Err(CodecError::ShapeMismatch),
    }
}

/// Writes a table of `Encoding` values.
pub fn encode_encoding_table(table: &Table<Encoding>) -> (res: Result<Json, CodecError>)
    ensures
        match res {
            Ok(json) => encoding_table_encodable(encoding_table_model(table.entries@)) && json.model()
                == encoding_table_encoded(encoding_table_model(table.entries@)),
            Err(error) => !encoding_table_encodable(encoding_table_model(table.entries@)) && error
                == CodecError::ExtensionCollision,
        },
    decreases table, 0nat,
{
    let ghost value = encoding_table_model(table.entries@);
    let mut members: Vec<Entry<Json>> = Vec::new();
    let mut i: usize = 0;
    while i < table.entries.len()
        invariant
            i <= table.entries.len(),
            members.len() == i,
            value == encoding_table_model(table.entries@),
            forall|j: int|
                0 <= j < i ==> Encoding::tree_encodable((#[trigger] value[j]).value)
                    && members@[j].key@ == value[j].key
                    && members@[j].value.model() == Encoding::tree_encoded(value[j].value),
        decreases table.entries.len() - i,
    {
        assert(value[i as int].value == table.entries@[i as int].value.tree_model());
        match table.entries[i].value.encode_tree() {
            Ok(json) => {
                members.push(Entry { key: table.entries[i].key.clone(), value: json });
            },
            Err(error) => {
                assert(!Encoding::tree_encodable(value[i as int].value));
                return Err(error);
            },
        }
        i += 1;
    }
    assert(members_model(members@) =~= encoding_table_encoded(value)->Object_0);
    Ok(Json::Object(members))
}

/// A table of `Encoding` values that is valid comes back unchanged.
pub proof fn lemma_encoding_table_round_trip(value: Seq<EntryModel<EncodingModel>>)
    requires
        encoding_table_valid(value),
    ensures
        encoding_table_encodable(value),
        encoding_table_fits(encoding_table_encoded(value)),
        encoding_table_decoded(encoding_table_encoded(value)) == value,
    decreases value, 0nat,
{
    let members = encoding_table_encoded(value)->Object_0;
    assert forall|i: int| 0 <= i < value.len() implies Encoding::tree_encodable((#[trigger] value[i]).value)
        && Encoding::tree_fits(members[i].value) && Encoding::tree_decoded(members[i].value) == value[i].value by {
        Encoding::lemma_tree_round_trip(value[i].value);
    }
    assert(encoding_table_decoded(encoding_table_encoded(value)) =~= value);
}

/// A table of `Encoding` values that was read is valid.
pub proof fn lemma_encoding_table_read_is_valid(json: JsonModel)
    requires
        encoding_table_fits(json),
    ensures
        encoding_table_valid(encoding_table_decoded(json)),
        json != JsonModel::Null ==> encoding_table_encoded(encoding_table_decoded(json)) != JsonModel::Null,
        sniffed(json) is Inline ==> sniffed(encoding_table_encoded(encoding_table_decoded(json))) is Inline,
    decreases json, 0nat,
{
    let members = json->Object_0;
    let value = encoding_table_decoded(json);
    assert forall|i: int| 0 <= i < value.len() implies Encoding::tree_valid((#[trigger] value[i]).value) by {
        Encoding::lemma_tree_read_is_valid(members[i].value);
    }
    lemma_lookup_same_keys(encoding_table_encoded(value)->Object_0, members, POINTER_KEY@);
}

/// A deep copy of a table of `Encoding` values.
pub fn duplicate_encoding_table(table: &Table<Encoding>) -> (copy: Table<Encoding>)
    ensures
        encoding_table_model(copy.entries@) == encoding_table_model(table.entries@),
    decreases table, 0nat,
{
    let mut copies: Vec<Entry<Encoding>> = Vec::new();
    let mut i: usize = 0;
    while i < table.entries.len()
        invariant
            i <= table.entries.len(),
            copies.len() == i,
            forall|j: int|
                0 <= j < i ==> copies@[j].key@ == table.entries@[j].key@ && copies@[j].value.tree_model()
                    == table.entries@[j].value.tree_model(),
        decreases table.entries.len() - i,
    {
        copies.push(Entry { key: table.entries[i].key.clone(), value: table.entries[i].value.duplicate_tree() });
        i += 1;
    }
    let copy = Table { entries: copies };
    assert(encoding_table_model(copy.entries@) =~= encoding_table_model(table.entries@));
    copy
}

/// The mathematical value of a reference or `Header`.
pub open spec fn header_or_ref_model(value: RefOrObject<Header>) -> RefOrObjectModel<HeaderModel>
    decreases value, 1nat,
{
    match value {
        RefOrObject::Ref(reference) => RefOrObjectModel::Ref(reference.model()),
        RefOrObject::Object(inner) => RefOrObjectModel::Object(inner.tree_model()),
    }
}

/// Whether a JSON value has the shape of a reference or `Header`.
pub open spec fn header_or_ref_fits(json: JsonModel) -> bool
    decreases json, 1nat,
{
    match sniffed(json) {
        Sniffed::Pointer(_) => true,
        Sniffed::Malformed => false,
        Sniffed::Inline => Header::tree_fits(json),
    }
}

/// What a JSON value with the shape of a reference or `Header` holds.
pub open spec fn header_or_ref_decoded(json: JsonModel) -> RefOrObjectModel<HeaderModel>
    decreases json, 1nat,
{
    match sniffed(json) {
        Sniffed::Pointer(pointer) => RefOrObjectModel::Ref(ReferenceModel { reference: pointer }),
        _ => RefOrObjectModel::Object(Header::tree_decoded(json)),
    }
}

/// Whether a reference or `Header` can be written.
pub open spec fn header_or_ref_encodable(value: RefOrObjectModel<HeaderModel>) -> bool
    decreases value, 1nat,
{
    match value {
        RefOrObjectModel::Ref(_) => true,
        RefOrObjectModel::Object(inner) => Header::tree_encodable(inner),
    }
}

/// The JSON value that a reference or `Header` is written as.
pub open spec fn header_or_ref_encoded(value: RefOrObjectModel<HeaderModel>) -> JsonModel
    decreases value, 1nat,
{
    match value {
        RefOrObjectModel::Ref(reference) => pointer_object(reference.reference),
        RefOrObjectModel::Object(inner) => Header::tree_encoded(inner),
    }
}

/// Whether a reference or `Header` comes back unchanged: an inline value that is
/// written with the pointer key would be read as a reference.
pub open spec fn header_or_ref_valid(value: RefOrObjectModel<HeaderModel>) -> bool
    decreases value, 1nat,
{
    match value {
        RefOrObjectModel::Ref(_) => true,
        RefOrObjectModel::Object(inner) => Header::tree_valid(inner) && sniffed(Header::tree_encoded(inner)) is Inline,
    }
}

/// Reads a reference or `Header`.
pub fn decode_header_or_ref(json: &Json) -> (res: Result<RefOrObject<Header>, CodecError>)
    ensures
        match res {
            Ok(value) => header_or_ref_fits(json.model()) && header_or_ref_model(value)
                == header_or_ref_decoded(json.model()),
            Err(error) => !header_or_ref_fits(json.model()) && error == CodecError::ShapeMismatch,
        },
    decreases json.model(), 1nat,
{
    match sniff(json) {
        Sniff::Pointer(pointer) => Ok(RefOrObject::Ref(Reference { reference: pointer.clone() })),
        Sniff::Malformed => Err(CodecError::ShapeMismatch),
        Sniff::Inline => match Header::decode_tree(json) {
            Ok(value) => Ok(RefOrObject::Object(value)),
            Err(error) => Err(error),
        },
    }
}

/// Writes a reference or `Header`.
pub fn encode_header_or_ref(value: &RefOrObject<Header>) -> (res: Result<Json, CodecError>)
    ensures
        match res {
            Ok(json) => header_or_ref_encodable(header_or_ref_model(*value)) && json.model()
                == header_or_ref_encoded(header_or_ref_model(*value)),
            Err(error) => !header_or_ref_encodable(header_or_ref_model(*value)) && error
                == CodecError::ExtensionCollision,
        },
    decreases value, 1nat,
{
    match value {
        RefOrObject::Ref(reference) => Ok(pointer_json(&reference.reference)),
        RefOrObject::Object(inner) => (*inner).encode_tree(),
    }
}

/// A reference or `Header` that is valid comes back unchanged.
pub proof fn lemma_header_or_ref_round_trip(value: RefOrObjectModel<HeaderModel>)
    requires
        header_or_ref_valid(value),
    ensures
        header_or_ref_encodable(value),
        header_or_ref_fits(header_or_ref_encoded(value)),
        header_or_ref_decoded(header_or_ref_encoded(value)) == value,
    decreases value, 1nat,
{
    match value {
        RefOrObjectModel::Ref(reference) => {
            lemma_pointer_object_sniffed(reference.reference);
        },
        RefOrObjectModel::Object(inner) => {
            Header::lemma_tree_round_trip(inner);
        },
    }
}

/// A reference or `Header` that was read is valid.
pub proof fn lemma_header_or_ref_read_is_valid(json: JsonModel)
    requires
        header_or_ref_fits(json),
    ensures
        header_or_ref_valid(header_or_ref_decoded(json)),
        json != JsonModel::Null ==> header_or_ref_encoded(header_or_ref_decoded(json)) != JsonModel::Null,
        sniffed(json) is Inline ==> sniffed(header_or_ref_encoded(header_or_ref_decoded(json))) is Inline,
    decreases json, 1nat,
{
    if sniffed(json) is Inline {
        Header::lemma_tree_read_is_valid(json);
    }
}

/// A deep copy of a reference or `Header`.
pub fn duplicate_header_or_ref(value: &RefOrObject<Header>) -> (copy: RefOrObject<Header>)
    ensures
        header_or_ref_model(copy) == header_or_ref_model(*value),
    decreases value, 1nat,
{
    match value {
        RefOrObject::Ref(reference) => RefOrObject::Ref(Reference { reference: reference.reference.clone() }),
        RefOrObject::Object(inner) => RefOrObject::Object((*inner).duplicate_tree()),
    }
}

/// The mathematical value of a table of references or `Header` values.
pub open spec fn header_or_ref_table_model(entries: Seq<Entry<RefOrObject<Header>>>) -> Seq<EntryModel<RefOrObjectModel<HeaderModel>>>
    decreases entries, 0nat,
{
    Seq::new(
        entries.len(),
        |i: int|
            if 0 <= i < entries.len() {
                EntryModel { key: entries[i].key@, value: header_or_ref_model(entries[i].value) }
            } else {
                arbitrary()
            },
    )
}

/// Whether a JSON value has the shape of a table of references or `Header` values.
pub open spec fn header_or_ref_table_fits(json: JsonModel) -> bool
    decreases json, 0nat,
{
    json matches JsonModel::Object(members) && forall|i: int|
        0 <= i < members.len() ==> header_or_ref_fits((#[trigger] members[i]).value)
}

/// What a JSON value with the shape of a table of references or `Header` values holds.
pub open spec fn header_or_ref_table_decoded(json: JsonModel) -> Seq<EntryModel<RefOrObjectModel<HeaderModel>>>
    decreases json, 0nat,
{
    match json {
        JsonModel::Object(members) => Seq::new(
            members.len(),
            |i: int|
                if 0 <= i < members.len() {
                    EntryModel { key: members[i].key, value: header_or_ref_decoded(members[i].value) }
                } else {
                    arbitrary()
                },
        ),
        _ => Seq::empty(),
    }
}

/// Whether a table of references or `Header` values can be written.
pub open spec fn header_or_ref_table_encodable(value: Seq<EntryModel<RefOrObjectModel<HeaderModel>>>) -> bool
    decreases value, 0nat,
{
    forall|i: int| 0 <= i < value.len() ==> header_or_ref_encodable((#[trigger] value[i]).value)
}

/// Whether a table of references or `Header` values comes back unchanged.
pub open spec fn header_or_ref_table_valid(value: Seq<EntryModel<RefOrObjectModel<HeaderModel>>>) -> bool
    decreases value, 0nat,
{
    forall|i: int| 0 <= i < value.len() ==> header_or_ref_valid((#[trigger] value[i]).value)
}

/// The JSON value that a table of references or `Header` values is written as.
pub open spec fn header_or_ref_table_encoded(value: Seq<EntryModel<RefOrObjectModel<HeaderModel>>>) -> JsonModel
    decreases value, 0nat,
{
    JsonModel::Object(
        Seq::new(
            value.len(),
            |i: int|
                if 0 <= i < value.len() {
                    EntryModel { key: value[i].key, value: header_or_ref_encoded(value[i].value) }
                } else {
                    arbitrary()
                },
        ),
    )
}

/// Reads a table of references or `Header` values.
pub fn decode_header_or_ref_table(json: &Json) -> (res: Result<Table<RefOrObject<Header>>, CodecError>)
    ensures
        match res {
            Ok(value) => header_or_ref_table_fits(json.model()) && header_or_ref_table_model(value.entries@)
                == header_or_ref_table_decoded(json.model()),
            Err(error) => !header_or_ref_table_fits(json.model()) && error == CodecError::ShapeMismatch,
        },
    decreases json.model(), 0nat,
{
    match json {
        Json::Object(members) => {
            let mut entries: Vec<Entry<RefOrObject<Header>>> = Vec::new();
            let mut i: usize = 0;
            while i < members.len()
                invariant
                    i <= members.len(),
                    entries.len() == i,
                    json.model() == JsonModel::Object(members_model(members@)),
                    forall|j: int|
                        0 <= j < i ==> header_or_ref_fits((#[trigger] members_model(members@)[j]).value)
                            && entries@[j].key@ == members_model(members@)[j].key
                            && header_or_ref_model(entries@[j].value) == header_or_ref_decoded(members_model(members@)[j].value),
                decreases members.len() - i,
            {
                assert(json.model()->Object_0[i as int].value == members@[i as int].value.model());
                match decode_header_or_ref(&members[i].value) {
                    Ok(value) => {
                        entries.push(Entry { key: members[i].key.clone(), value: value });
                    },
                    Err(error) => {
                        assert(!header_or_ref_fits(json.model()->Object_0[i as int].value));
                        return Err(error);
                    },
                }
                i += 1;
            }
            let value = Table { entries };
            assert(header_or_ref_table_model(value.entries@) =~= header_or_ref_table_decoded(json.model()));
            Ok(value)
        },
        _ => Err(CodecError::ShapeMismatch),
    }
}

/// Writes a table of references or `Header` values.
pub fn encode_header_or_ref_table(table: &Table<RefOrObject<Header>>) -> (res: Result<Json, CodecError>)
    ensures
        match res {
            Ok(json) => header_or_ref_table_encodable(header_or_ref_table_model(table.entries@)) && json.model()
                == header_or_ref_table_encoded(header_or_ref_table_model(table.entries@)),
            Err(error) => !header_or_ref_table_encodable(header_or_ref_table_model(table.entries@)) && error
                == CodecError::ExtensionCollision,
        },
    decreases table, 0nat,
{
    let ghost value = header_or_ref_table_model(table.entries@);
    let mut members: Vec<Entry<Json>> = Vec::new();
    let mut i: usize = 0;
    while i < table.entries.len()
        invariant
            i <= table.entries.len(),
            members.len() == i,
            value == header_or_ref_table_model(table.entries@),
            forall|j: int|
                0 <= j < i ==> header_or_ref_encodable((#[trigger] value[j]).value)
                    && members@[j].key@ == value[j].key
                    && members@[j].value.model() == header_or_ref_encoded(value[j].value),
        decreases table.entries.len() - i,
    {
        assert(value[i as int].value == header_or_ref_model(table.entries@[i as int].value));
        match encode_header_or_ref(&table.entries[i].value) {
            Ok(json) => {
                members.push(Entry { key: table.entries[i].key.clone(), value: json });
            },
            Err(error) => {
                assert(!header_or_ref_encodable(value[i as int].value));
                return Err(error);
            },
        }
        i += 1;
    }
    assert(members_model(members@) =~= header_or_ref_table_encoded(value)->Object_0);
    Ok(Json::Object(members))
}

/// A table of references or `Header` values that is valid comes back unchanged.
pub proof fn lemma_header_or_ref_table_round_trip(value: Seq<EntryModel<RefOrObjectModel<HeaderModel>>>)
    requires
        header_or_ref_table_valid(value),
    ensures
        header_or_ref_table_encodable(value),
        header_or_ref_table_fits(header_or_ref_table_encoded(value)),
        header_or_ref_table_decoded(header_or_ref_table_encoded(value)) == value,
    decreases value, 0nat,
{
    let members = header_or_ref_table_encoded(value)->Object_0;
    assert forall|i: int| 0 <= i < value.len() implies header_or_ref_encodable((#[trigger] value[i]).value)
        && header_or_ref_fits(members[i].value) && header_or_ref_decoded(members[i].value) == value[i].value by {
        lemma_header_or_ref_round_trip(value[i].value);
    }
    assert(header_or_ref_table_decoded(header_or_ref_table_encoded(value)) =~= value);
}

/// A table of references or `Header` values that was read is valid.
pub proof fn lemma_header_or_ref_table_read_is_valid(json: JsonModel)
    requires
        header_or_ref_table_fits(json),
    ensures
        header_or_ref_table_valid(header_or_ref_table_decoded(json)),
        json != JsonModel::Null ==> header_or_ref_table_encoded(header_or_ref_table_decoded(json)) != JsonModel::Null,
        sniffed(json) is Inline ==> sniffed(header_or_ref_table_encoded(header_or_ref_table_decoded(json))) is Inline,
    decreases json, 0nat,
{
    let members = json->Object_0;
    let value = header_or_ref_table_decoded(json);
    assert forall|i: int| 0 <= i < value.len() implies header_or_ref_valid((#[trigger] value[i]).value) by {
        lemma_header_or_ref_read_is_valid(members[i].value);
    }
    lemma_lookup_same_keys(header_or_ref_table_encoded(value)->Object_0, members, POINTER_KEY@);
}

/// A deep copy of a table of references or `Header` values.
pub fn duplicate_header_or_ref_table(table: &Table<RefOrObject<Header>>) -> (copy: Table<RefOrObject<Header>>)
    ensures
        header_or_ref_table_model(copy.entries@) == header_or_ref_table_model(table.entries@),
    decreases table, 0nat,
{
    let mut copies: Vec<Entry<RefOrObject<Header>>> = Vec::new();
    let mut i: usize = 0;
    while i < table.entries.len()
        invariant
            i <= table.entries.len(),
            copies.len() == i,
            forall|j: int|
                0 <= j < i ==> copies@[j].key@ == table.entries@[j].key@ && header_or_ref_model(copies@[j].value)
                    == header_or_ref_model(table.entries@[j].value),
        decreases table.entries.len() - i,
    {
        copies.push(Entry { key: table.entries[i].key.clone(), value: duplicate_header_or_ref(&table.entries[i].value) });
        i += 1;
    }
    let copy = Table { entries: copies };
    assert(header_or_ref_table_model(copy.entries@) =~= header_or_ref_table_model(table.entries@));
    copy
}

/// The mathematical value of a table of `Media` values.
pub open spec fn media_table_model(entries: Seq<Entry<Media>>) -> Seq<EntryModel<MediaModel>>
    decreases entries, 0nat,
{
    Seq::new(
        entries.len(),
        |i: int|
            if 0 <= i < entries.len() {
                EntryModel { key: entries[i].key@, value: entries[i].value.tree_model() }
            } else {
                arbitrary()
            },
    )
}

/// Whether a JSON value has the shape of a table of `Media` values.
pub open spec fn media_table_fits(json: JsonModel) -> bool
    decreases json, 0nat,
{
    json matches JsonModel::Object(members) && forall|i: int|
        0 <= i < members.len() ==> Media::tree_fits((#[trigger] members[i]).value)
}

/// What a JSON value with the shape of a table of `Media` values holds.
pub open spec fn media_table_decoded(json: JsonModel) -> Seq<EntryModel<MediaModel>>
    decreases json, 0nat,
{
    match json {
        JsonModel::Object(members) => Seq::new(
            members.len(),
            |i: int|
                if 0 <= i < members.len() {
                    EntryModel { key: members[i].key, value: Media::tree_decoded(members[i].value) }
                } else {
                    arbitrary()
                },
        ),
        _ => Seq::empty(),
    }
}

/// Whether a table of `Media` values can be written.
pub open spec fn media_table_encodable(value: Seq<EntryModel<MediaModel>>) -> bool
    decreases value, 0nat,
{
    forall|i: int| 0 <= i < value.len() ==> Media::tree_encodable((#[trigger] value[i]).value)
}

/// Whether a table of `Media` values comes back unchanged.
pub open spec fn media_table_valid(value: Seq<EntryModel<MediaModel>>) -> bool
    decreases value, 0nat,
{
    forall|i: int| 0 <= i < value.len() ==> Media::tree_valid((#[trigger] value[i]).value)
}

/// The JSON value that a table of `Media` values is written as.
pub open spec fn media_table_encoded(value: Seq<EntryModel<MediaModel>>) -> JsonModel
    decreases value, 0nat,
{
    JsonModel::Object(
        Seq::new(
            value.len(),
            |i: int|
                if 0 <= i < value.len() {
                    EntryModel { key: value[i].key, value: Media::tree_encoded(value[i].value) }
                } else {
                    arbitrary()
                },
        ),
    )
}

/// Reads a table of `Media` values.
pub fn decode_media_table(json: &Json) -> (res: Result<Table<Media>, CodecError>)
    ensures
        match res {
            Ok(value) => media_table_fits(json.model()) && media_table_model(value.entries@)
                == media_table_decoded(json.model()),
            Err(error) => !media_table_fits(json.model()) && error == CodecError::ShapeMismatch,
        },
    decreases json.model(), 0nat,
{
    match json {
        Json::Object(members) => {
            let mut entries: Vec<Entry<Media>> = Vec::new();
            let mut i: usize = 0;
            while i < members.len()
                invariant
                    i <= members.len(),
                    entries.len() == i,
                    json.model() == JsonModel::Object(members_model(members@)),
                    forall|j: int|
                        0 <= j < i ==> Media::tree_fits((#[trigger] members_model(members@)[j]).value)
                            && entries@[j].key@ == members_model(members@)[j].key
                            && entries@[j].value.tree_model() == Media::tree_decoded(members_model(members@)[j].value),
                decreases members.len() - i,
            {
                assert(json.model()->Object_0[i as int].value == members@[i as int].value.model());
                match Media::decode_tree(&members[i].value) {
                    Ok(value) => {
                        entries.push(Entry { key: members[i].key.clone(), value: value });
                    },
                    Err(error) => {
                        assert(!Media::tree_fits(json.model()->Object_0[i as int].value));
                        return Err(error);
                    },
                }
                i += 1;
            }
            let value = Table { entries };
            assert(media_table_model(value.entries@) =~= media_table_decoded(json.model()));
            Ok(value)
        },
        _ => Err(CodecError::ShapeMismatch),
    }
}

/// Writes a table of `Media` values.
pub fn encode_media_table(table: &Table<Media>) -> (res: Result<Json, CodecError>)
    ensures
        match res {
            Ok(json) => media_table_encodable(media_table_model(table.entries@)) && json.model()
                == media_table_encoded(media_table_model(table.entries@)),
            Err(error) => !media_table_encodable(media_table_model(table.entries@)) && error
                == CodecError::ExtensionCollision,
        },
    decreases table, 0nat,
{
    let ghost value = media_table_model(table.entries@);
    let mut members: Vec<Entry<Json>> = Vec::new();
    let mut i: usize = 0;
    while i < table.entries.len()
        invariant
            i <= table.entries.len(),
            members.len() == i,
            value == media_table_model(table.entries@),
            forall|j: int|
                0 <= j < i ==> Media::tree_encodable((#[trigger] value[j]).value)
                    && members@[j].key@ == value[j].key
                    && members@[j].value.model() == Media::tree_encoded(value[j].value),
        decreases table.entries.len() - i,
    {
        assert(value[i as int].value == table.entries@[i as int].value.tree_model());
        match table.entries[i].value.encode_tree() {
            Ok(json) => {
                members.push(Entry { key: table.entries[i].key.clone(), value: json });
            },
            Err(error) => {
                assert(!Media::tree_encodable(value[i as int].value));
                return Err(error);
            },
        }
        i += 1;
    }
    assert(members_model(members@) =~= media_table_encoded(value)->Object_0);
    Ok(Json::Object(members))
}

/// A table of `Media` values that is valid comes back unchanged.
pub proof fn lemma_media_table_round_trip(value: Seq<EntryModel<MediaModel>>)
    requires
        media_table_valid(value),
    ensures
        media_table_encodable(value),
        media_table_fits(media_table_encoded(value)),
        media_table_decoded(media_table_encoded(value)) == value,
    decreases value, 0nat,
{
    let members = media_table_encoded(value)->Object_0;
    assert forall|i: int| 0 <= i < value.len() implies Media::tree_encodable((#[trigger] value[i]).value)
        && Media::tree_fits(members[i].value) && Media::tree_decoded(members[i].value) == value[i].value by {
        Media::lemma_tree_round_trip(value[i].value);
    }
    assert(media_table_decoded(media_table_encoded(value)) =~= value);
}

/// A table of `Media` values that was read is valid.
pub proof fn lemma_media_table_read_is_valid(json: JsonModel)
    requires
        media_table_fits(json),
    ensures
        media_table_valid(media_table_decoded(json)),
        json != JsonModel::Null ==> media_table_encoded(media_table_decoded(json)) != JsonModel::Null,
        sniffed(json) is Inline ==> sniffed(media_table_encoded(media_table_decoded(json))) is Inline,
    decreases json, 0nat,
{
    let members = json->Object_0;
    let value = media_table_decoded(json);
    assert forall|i: int| 0 <= i < value.len() implies Media::tree_valid((#[trigger] value[i]).value) by {
        Media::lemma_tree_read_is_valid(members[i].value);
    }
    lemma_lookup_same_keys(media_table_encoded(value)->Object_0, members, POINTER_KEY@);
}

/// A deep copy of a table of `Media` values.
pub fn duplicate_media_table(table: &Table<Media>) -> (copy: Table<Media>)
    ensures
        media_table_model(copy.entries@) == media_table_model(table.entries@),
    decreases table, 0nat,
{
    let mut copies: Vec<Entry<Media>> = Vec::new();
    let mut i: usize = 0;
    while i < table.entries.len()
        invariant
            i <= table.entries.len(),
            copies.len() == i,
            forall|j: int|
                0 <= j < i ==> copies@[j].key@ == table.entries@[j].key@ && copies@[j].value.tree_model()
                    == table.entries@[j].value.tree_model(),
        decreases table.entries.len() - i,
    {
        copies.push(Entry { key: table.entries[i].key.clone(), value: table.entries[i].value.duplicate_tree() });
        i += 1;
    }
    let copy = Table { entries: copies };
    assert(media_table_model(copy.entries@) =~= media_table_model(table.entries@));
    copy
}

/// The mathematical value of a reference or `Schema`.
pub open spec fn schema_or_ref_model(value: RefOrObject<Schema>) -> RefOrObjectModel<SchemaModel>
    decreases value, 1nat,
{
    match value {
        RefOrObject::Ref(reference) => RefOrObjectModel::Ref(reference.model()),
        RefOrObject::Object(inner) => RefOrObjectModel::Object(inner.tree_model()),
    }
}

/// Whether a JSON value has the shape of a reference or `Schema`.
pub open spec fn schema_or_ref_fits(json: JsonModel) -> bool
    decreases json, 1nat,
{
    match sniffed(json) {
        Sniffed::Pointer(_) => true,
        Sniffed::Malformed => false,
        Sniffed::Inline => Schema::tree_fits(json),
    }
}

/// What a JSON value with the shape of a reference or `Schema` holds.
pub open spec fn schema_or_ref_decoded(json: JsonModel) -> RefOrObjectModel<SchemaModel>
    decreases json, 1nat,
{
    match sniffed(json) {
        Sniffed::Pointer(pointer) => RefOrObjectModel::Ref(ReferenceModel { reference: pointer }),
        _ => RefOrObjectModel::Object(Schema::tree_decoded(json)),
    }
}

/// Whether a reference or `Schema` can be written.
pub open spec fn schema_or_ref_encodable(value: RefOrObjectModel<SchemaModel>) -> bool
    decreases value, 1nat,
{
    match value {
        RefOrObjectModel::Ref(_) => true,
        RefOrObjectModel::Object(inner) => Schema::tree_encodable(inner),
    }
}

/// The JSON value that a reference or `Schema` is written as.
pub open spec fn schema_or_ref_encoded(value: RefOrObjectModel<SchemaModel>) -> JsonModel
    decreases value, 1nat,
{
    match value {
        RefOrObjectModel::Ref(reference) => pointer_object(reference.reference),
        RefOrObjectModel::Object(inner) => Schema::tree_encoded(inner),
    }
}

/// Whether a reference or `Schema` comes back unchanged: an inline value that is
/// written with the pointer key would be read as a reference.
pub open spec fn schema_or_ref_valid(value: RefOrObjectModel<SchemaModel>) -> bool
    decreases value, 1nat,
{
    match value {
        RefOrObjectModel::Ref(_) => true,
        RefOrObjectModel::Object(inner) => Schema::tree_valid(inner) && sniffed(Schema::tree_encoded(inner)) is Inline,
    }
}

/// Reads a reference or `Schema`.
pub fn decode_schema_or_ref(json: &Json) -> (res: Result<RefOrObject<Schema>, CodecError>)
    ensures
        match res {
            Ok(value) => schema_or_ref_fits(json.model()) && schema_or_ref_model(value)
                == schema_or_ref_decoded(json.model()),
            Err(error) => !schema_or_ref_fits(json.model()) && error == CodecError::ShapeMismatch,
        },
    decreases json.model(), 1nat,
{
    match sniff(json) {
        Sniff::Pointer(pointer) => Ok(RefOrObject::Ref(Reference { reference: pointer.clone() })),
        Sniff::Malformed => Err(CodecError::ShapeMismatch),
        Sniff::Inline => match Schema::decode_tree(json) {
            Ok(value) => Ok(RefOrObject::Object(value)),
            Err(error) => Err(error),
        },
    }
}

/// Writes a reference or `Schema`.
pub fn encode_schema_or_ref(value: &RefOrObject<Schema>) -> (res: Result<Json, CodecError>)
    ensures
        match res {
            Ok(json) => schema_or_ref_encodable(schema_or_ref_model(*value)) && json.model()
                == schema_or_ref_encoded(schema_or_ref_model(*value)),
            Err(error) => !schema_or_ref_encodable(schema_or_ref_model(*value)) && error
                == CodecError::ExtensionCollision,
        },
    decreases value, 1nat,
{
    match value {
        RefOrObject::Ref(reference) => Ok(pointer_json(&reference.reference)),
        RefOrObject::Object(inner) => (*inner).encode_tree(),
    }
}

/// A reference or `Schema` that is valid comes back unchanged.
pub proof fn lemma_schema_or_ref_round_trip(value: RefOrObjectModel<SchemaModel>)
    requires
        schema_or_ref_valid(value),
    ensures
        schema_or_ref_encodable(value),
        schema_or_ref_fits(schema_or_ref_encoded(value)),
        schema_or_ref_decoded(schema_or_ref_encoded(value)) == value,
    decreases value, 1nat,
{
    match value {
        RefOrObjectModel::Ref(reference) => {
            lemma_pointer_object_sniffed(reference.reference);
        },
        RefOrObjectModel::Object(inner) => {
            Schema::lemma_tree_round_trip(inner);
        },
    }
}

/// A reference or `Schema` that was read is valid.
pub proof fn lemma_schema_or_ref_read_is_valid(json: JsonModel)
    requires
        schema_or_ref_fits(json),
    ensures
        schema_or_ref_valid(schema_or_ref_decoded(json)),
        json != JsonModel::Null ==> schema_or_ref_encoded(schema_or_ref_decoded(json)) != JsonModel::Null,
        sniffed(json) is Inline ==> sniffed(schema_or_ref_encoded(schema_or_ref_decoded(json))) is Inline,
    decreases json, 1nat,
{
    if sniffed(json) is Inline {
        Schema::lemma_tree_read_is_valid(json);
    }
}

/// A deep copy of a reference or `Schema`.
pub fn duplicate_schema_or_ref(value: &RefOrObject<Schema>) -> (copy: RefOrObject<Schema>)
    ensures
        schema_or_ref_model(copy) == schema_or_ref_model(*value),
    decreases value, 1nat,
{
    match value {
        RefOrObject::Ref(reference) => RefOrObject::Ref(Reference { reference: reference.reference.clone() }),
        RefOrObject::Object(inner) => RefOrObject::Object((*inner).duplicate_tree()),
    }
}

/// The mathematical value of a table of references or `Schema` values.
pub open spec fn schema_or_ref_table_model(entries: Seq<Entry<RefOrObject<Schema>>>) -> Seq<EntryModel<RefOrObjectModel<SchemaModel>>>
    decreases entries, 0nat,
{
    Seq::new(
        entries.len(),
        |i: int|
            if 0 <= i < entries.len() {
                EntryModel { key: entries[i].key@, value: schema_or_ref_model(entries[i].value) }
            } else {
                arbitrary()
            },
    )
}

/// Whether a JSON value has the shape of a table of references or `Schema` values.
pub open spec fn schema_or_ref_table_fits(json: JsonModel) -> bool
    decreases json, 0nat,
{
    json matches JsonModel::Object(members) && forall|i: int|
        0 <= i < members.len() ==> schema_or_ref_fits((#[trigger] members[i]).value)
}

/// What a JSON value with the shape of a table of references or `Schema` values holds.
pub open spec fn schema_or_ref_table_decoded(json: JsonModel) -> Seq<EntryModel<RefOrObjectModel<SchemaModel>>>
    decreases json, 0nat,
{
    match json {
        JsonModel::Object(members) => Seq::new(
            members.len(),
            |i: int|
                if 0 <= i < members.len() {
                    EntryModel { key: members[i].key, value: schema_or_ref_decoded(members[i].value) }
                } else {
                    arbitrary()
                },
        ),
        _ => Seq::empty(),
    }
}

/// Whether a table of references or `Schema` values can be written.
pub open spec fn schema_or_ref_table_encodable(value: Seq<EntryModel<RefOrObjectModel<SchemaModel>>>) -> bool
    decreases value, 0nat,
{
    forall|i: int| 0 <= i < value.len() ==> schema_or_ref_encodable((#[trigger] value[i]).value)
}

/// Whether a table of references or `Schema` values comes back unchanged.
pub open spec fn schema_or_ref_table_valid(value: Seq<EntryModel<RefOrObjectModel<SchemaModel>>>) -> bool
    decreases value, 0nat,
{
    forall|i: int| 0 <= i < value.len() ==> schema_or_ref_valid((#[trigger] value[i]).value)
}

/// The JSON value that a table of references or `Schema` values is written as.
pub open spec fn schema_or_ref_table_encoded(value: Seq<EntryModel<RefOrObjectModel<SchemaModel>>>) -> JsonModel
    decreases value, 0nat,
{
    JsonModel::Object(
        Seq::new(
            value.len(),
            |i: int|
                if 0 <= i < value.len() {
                    EntryModel { key: value[i].key, value: schema_or_ref_encoded(value[i].value) }
                } else {
                    arbitrary()
                },
        ),
    )
}

/// Reads a table of references or `Schema` values.
pub fn decode_schema_or_ref_table(json: &Json) -> (res: Result<Table<RefOrObject<Schema>>, CodecError>)
    ensures
        match res {
            Ok(value) => schema_or_ref_table_fits(json.model()) && schema_or_ref_table_model(value.entries@)
                == schema_or_ref_table_decoded(json.model()),
            Err(error) => !schema_or_ref_table_fits(json.model()) && error == CodecError::ShapeMismatch,
        },
    decreases json.model(), 0nat,
{
    match json {
        Json::Object(members) => {
            let mut entries: Vec<Entry<RefOrObject<Schema>>> = Vec::new();
            let mut i: usize = 0;
            while i < members.len()
                invariant
                    i <= members.len(),
                    entries.len() == i,
                    json.model() == JsonModel::Object(members_model(members@)),
                    forall|j: int|
                        0 <= j < i ==> schema_or_ref_fits((#[trigger] members_model(members@)[j]).value)
                            && entries@[j].key@ == members_model(members@)[j].key
                            && schema_or_ref_model(entries@[j].value) == schema_or_ref_decoded(members_model(members@)[j].value),
                decreases members.len() - i,
            {
                assert(json.model()->Object_0[i as int].value == members@[i as int].value.model());
                match decode_schema_or_ref(&members[i].value) {
                    Ok(value) => {
                        entries.push(Entry { key: members[i].key.clone(), value: value });
                    },
                    Err(error) => {
                        assert(!schema_or_ref_fits(json.model()->Object_0[i as int].value));
                        return Err(error);
                    },
                }
                i += 1;
            }
            let value = Table { entries };
            assert(schema_or_ref_table_model(value.entries@) =~= schema_or_ref_table_decoded(json.model()));
            Ok(value)
        },
        _ => Err(CodecError::ShapeMismatch),
    }
}

/// Writes a table of references or `Schema` values.
pub fn encode_schema_or_ref_table(table: &Table<RefOrObject<Schema>>) -> (res: Result<Json, CodecError>)
    ensures
        match res {
            Ok(json) => schema_or_ref_table_encodable(schema_or_ref_table_model(table.entries@)) && json.model()
                == schema_or_ref_table_encoded(schema_or_ref_table_model(table.entries@)),
            Err(error) => !schema_or_ref_table_encodable(schema_or_ref_table_model(table.entries@)) && error
                == CodecError::ExtensionCollision,
        },
    decreases table, 0nat,
{
    let ghost value = schema_or_ref_table_model(table.entries@);
    let mut members: Vec<Entry<Json>> = Vec::new();
    let mut i: usize = 0;
    while i < table.entries.len()
        invariant
            i <= table.entries.len(),
            members.len() == i,
            value == schema_or_ref_table_model(table.entries@),
            forall|j: int|
                0 <= j < i ==> schema_or_ref_encodable((#[trigger] value[j]).value)
                    && members@[j].key@ == value[j].key
                    && members@[j].value.model() == schema_or_ref_encoded(value[j].value),
        decreases table.entries.len() - i,
    {
        assert(value[i as int].value == schema_or_ref_model(table.entries@[i as int].value));
        match encode_schema_or_ref(&table.entries[i].value) {
            Ok(json) => {
                members.push(Entry { key: table.entries[i].key.clone(), value: json });
            },
            Err(error) => {
                assert(!schema_or_ref_encodable(value[i as int].value));
                return Err(error);
            },
        }
        i += 1;
    }
    assert(members_model(members@) =~= schema_or_ref_table_encoded(value)->Object_0);
    Ok(Json::Object(members))
}

/// A table of references or `Schema` values that is valid comes back unchanged.
pub proof fn lemma_schema_or_ref_table_round_trip(value: Seq<EntryModel<RefOrObjectModel<SchemaModel>>>)
    requires
        schema_or_ref_table_valid(value),
    ensures
        schema_or_ref_table_encodable(value),
        schema_or_ref_table_fits(schema_or_ref_table_encoded(value)),
        schema_or_ref_table_decoded(schema_or_ref_table_encoded(value)) == value,
    decreases value, 0nat,
{
    let members = schema_or_ref_table_encoded(value)->Object_0;
    assert forall|i: int| 0 <= i < value.len() implies schema_or_ref_encodable((#[trigger] value[i]).value)
        && schema_or_ref_fits(members[i].value) && schema_or_ref_decoded(members[i].value) == value[i].value by {
        lemma_schema_or_ref_round_trip(value[i].value);
    }
    assert(schema_or_ref_table_decoded(schema_or_ref_table_encoded(value)) =~= value);
}

/// A table of references or `Schema` values that was read is valid.
pub proof fn lemma_schema_or_ref_table_read_is_valid(json: JsonModel)
    requires
        schema_or_ref_table_fits(json),
    ensures
        schema_or_ref_table_valid(schema_or_ref_table_decoded(json)),
        json != JsonModel::Null ==> schema_or_ref_table_encoded(schema_or_ref_table_decoded(json)) != JsonModel::Null,
        sniffed(json) is Inline ==> sniffed(schema_or_ref_table_encoded(schema_or_ref_table_decoded(json))) is Inline,
    decreases json, 0nat,
{
    let members = json->Object_0;
    let value = schema_or_ref_table_decoded(json);
    assert forall|i: int| 0 <= i < value.len() implies schema_or_ref_valid((#[trigger] value[i]).value) by {
        lemma_schema_or_ref_read_is_valid(members[i].value);
    }
    lemma_lookup_same_keys(schema_or_ref_table_encoded(value)->Object_0, members, POINTER_KEY@);
}

/// A deep copy of a table of references or `Schema` values.
pub fn duplicate_schema_or_ref_table(table: &Table<RefOrObject<Schema>>) -> (copy: Table<RefOrObject<Schema>>)
    ensures
        schema_or_ref_table_model(copy.entries@) == schema_or_ref_table_model(table.entries@),
    decreases table, 0nat,
{
    let mut copies: Vec<Entry<RefOrObject<Schema>>> = Vec::new();
    let mut i: usize = 0;
    while i < table.entries.len()
        invariant
            i <= table.entries.len(),
            copies.len() == i,
            forall|j: int|
                0 <= j < i ==> copies@[j].key@ == table.entries@[j].key@ && schema_or_ref_model(copies@[j].value)
                    == schema_or_ref_model(table.entries@[j].value),
        decreases table.entries.len() - i,
    {
        copies.push(Entry { key: table.entries[i].key.clone(), value: duplicate_schema_or_ref(&table.entries[i].value) });
        i += 1;
    }
    let copy = Table { entries: copies };
    assert(schema_or_ref_table_model(copy.entries@) =~= schema_or_ref_table_model(table.entries@));
    copy
}

/// The mathematical value of a list of references or `Schema` values.
pub open spec fn schema_or_ref_list_model(list: Seq<Box<RefOrObject<Schema>>>) -> Seq<RefOrObjectModel<SchemaModel>>
    decreases list, 0nat,
{
    Seq::new(
        list.len(),
        |i: int|
            if 0 <= i < list.len() {
                schema_or_ref_model(*list[i])
            } else {
                arbitrary()
            },
    )
}

/// Whether a JSON value has the shape of a list of references or `Schema` values.
pub open spec fn schema_or_ref_list_fits(json: JsonModel) -> bool
    decreases json, 0nat,
{
    json matches JsonModel::Array(items) && forall|i: int|
        0 <= i < items.len() ==> schema_or_ref_fits(#[trigger] items[i])
}

/// What a JSON value with the shape of a list of references or `Schema` values holds.
pub open spec fn schema_or_ref_list_decoded(json: JsonModel) -> Seq<RefOrObjectModel<SchemaModel>>
    decreases json, 0nat,
{
    match json {
        JsonModel::Array(items) => Seq::new(
            items.len(),
            |i: int|
                if 0 <= i < items.len() {
                    schema_or_ref_decoded(items[i])
                } else {
                    arbitrary()
                },
        ),
        _ => Seq::empty(),
    }
}

/// Whether a list of references or `Schema` values can be written.
pub open spec fn schema_or_ref_list_encodable(value: Seq<RefOrObjectModel<SchemaModel>>) -> bool
    decreases value, 0nat,
{
    forall|i: int| 0 <= i < value.len() ==> schema_or_ref_encodable(#[trigger] value[i])
}

/// Whether a list of references or `Schema` values comes back unchanged.
pub open spec fn schema_or_ref_list_valid(value: Seq<RefOrObjectModel<SchemaModel>>) -> bool
    decreases value, 0nat,
{
    forall|i: int| 0 <= i < value.len() ==> schema_or_ref_valid(#[trigger] value[i])
}

/// The JSON value that a list of references or `Schema` values is written as.
pub open spec fn schema_or_ref_list_encoded(value: Seq<RefOrObjectModel<SchemaModel>>) -> JsonModel
    decreases value, 0nat,
{
    JsonModel::Array(
        Seq::new(
            value.len(),
            |i: int|
                if 0 <= i < value.len() {
                    schema_or_ref_encoded(value[i])
                } else {
                    arbitrary()
                },
        ),
    )
}

/// Reads a list of references or `Schema` values.
pub fn decode_schema_or_ref_list(json: &Json) -> (res: Result<Vec<Box<RefOrObject<Schema>>>, CodecError>)
    ensures
        match res {
            Ok(value) => schema_or_ref_list_fits(json.model()) && schema_or_ref_list_model(value@)
                == schema_or_ref_list_decoded(json.model()),
            Err(error) => !schema_or_ref_list_fits(json.model()) && error == CodecError::ShapeMismatch,
        },
    decreases json.model(), 0nat,
{
    match json {
        Json::Array(items) => {
            let mut list: Vec<Box<RefOrObject<Schema>>> = Vec::new();
            let mut i: usize = 0;
            while i < items.len()
                invariant
                    i <= items.len(),
                    list.len() == i,
                    json.model() == JsonModel::Array(items_model(items@)),
                    forall|j: int|
                        0 <= j < i ==> schema_or_ref_fits(#[trigger] items_model(items@)[j])
                            && schema_or_ref_model(*list@[j]) == schema_or_ref_decoded(items_model(items@)[j]),
                decreases items.len() - i,
            {
                assert(json.model()->Array_0[i as int] == items@[i as int].model());
                match decode_schema_or_ref(&items[i]) {
                    Ok(value) => {
                        list.push(Box::new(value));
                    },
                    Err(error) => {
                        assert(!schema_or_ref_fits(json.model()->Array_0[i as int]));
                        return Err(error);
                    },
                }
                i += 1;
            }
            assert(schema_or_ref_list_model(list@) =~= schema_or_ref_list_decoded(json.model()));
            Ok(list)
        },
        _ => Err(CodecError::ShapeMismatch),
    }
}

/// Writes a list of references or `Schema` values.
pub fn encode_schema_or_ref_list(list: &Vec<Box<RefOrObject<Schema>>>) -> (res: Result<Json, CodecError>)
    ensures
        match res {
            Ok(json) => schema_or_ref_list_encodable(schema_or_ref_list_model(list@)) && json.model()
                == schema_or_ref_list_encoded(schema_or_ref_list_model(list@)),
            Err(error) => !schema_or_ref_list_encodable(schema_or_ref_list_model(list@)) && error
                == CodecError::ExtensionCollision,
        },
    decreases list, 0nat,
{
    let ghost value = schema_or_ref_list_model(list@);
    let mut items: Vec<Json> = Vec::new();
    let mut i: usize = 0;
    while i < list.len()
        invariant
            i <= list.len(),
            items.len() == i,
            value == schema_or_ref_list_model(list@),
            forall|j: int|
                0 <= j < i ==> schema_or_ref_encodable(#[trigger] value[j])
                    && items@[j].model() == schema_or_ref_encoded(value[j]),
        decreases list.len() - i,
    {
        assert(value[i as int] == schema_or_ref_model(*list@[i as int]));
        match encode_schema_or_ref(&(*list[i])) {
            Ok(json) => {
                items.push(json);
            },
            Err(error) => {
                assert(!schema_or_ref_encodable(value[i as int]));
                return Err(error);
            },
        }
        i += 1;
    }
    assert(items_model(items@) =~= schema_or_ref_list_encoded(value)->Array_0);
    Ok(Json::Array(items))
}

/// A list of references or `Schema` values that is valid comes back unchanged.
pub proof fn lemma_schema_or_ref_list_round_trip(value: Seq<RefOrObjectModel<SchemaModel>>)
    requires
        schema_or_ref_list_valid(value),
    ensures
        schema_or_ref_list_encodable(value),
        schema_or_ref_list_fits(schema_or_ref_list_encoded(value)),
        schema_or_ref_list_decoded(schema_or_ref_list_encoded(value)) == value,
    decreases value, 0nat,
{
    let items = schema_or_ref_list_encoded(value)->Array_0;
    assert forall|i: int| 0 <= i < value.len() implies schema_or_ref_encodable(#[trigger] value[i])
        && schema_or_ref_fits(items[i]) && schema_or_ref_decoded(items[i]) == value[i] by {
        lemma_schema_or_ref_round_trip(value[i]);
    }
    assert(schema_or_ref_list_decoded(schema_or_ref_list_encoded(value)) =~= value);
}

/// A list of references or `Schema` values that was read is valid.
pub proof fn lemma_schema_or_ref_list_read_is_valid(json: JsonModel)
    requires
        schema_or_ref_list_fits(json),
    ensures
        schema_or_ref_list_valid(schema_or_ref_list_decoded(json)),
        json != JsonModel::Null ==> schema_or_ref_list_encoded(schema_or_ref_list_decoded(json)) != JsonModel::Null,
        sniffed(json) is Inline ==> sniffed(schema_or_ref_list_encoded(schema_or_ref_list_decoded(json))) is Inline,
    decreases json, 0nat,
{
    let items = json->Array_0;
    let value = schema_or_ref_list_decoded(json);
    assert forall|i: int| 0 <= i < value.len() implies schema_or_ref_valid(#[trigger] value[i]) by {
        lemma_schema_or_ref_read_is_valid(items[i]);
    }
}

/// A deep copy of a list of references or `Schema` values.
pub fn duplicate_schema_or_ref_list(list: &Vec<Box<RefOrObject<Schema>>>) -> (copy: Vec<Box<RefOrObject<Schema>>>)
    ensures
        schema_or_ref_list_model(copy@) == schema_or_ref_list_model(list@),
    decreases list, 0nat,
{
    let mut copies: Vec<Box<RefOrObject<Schema>>> = Vec::new();
    let mut i: usize = 0;
    while i < list.len()
        invariant
            i <= list.len(),
            copies.len() == i,
            forall|j: int|
                0 <= j < i ==> schema_or_ref_model(*copies@[j]) == schema_or_ref_model(*list@[j]),
        decreases list.len() - i,
    {
        copies.push(Box::new(duplicate_schema_or_ref(&(*list[i]))));
        i += 1;
    }
    assert(schema_or_ref_list_model(copies@) =~= schema_or_ref_list_model(list@));
    copies
}

} // verus!
