//! Reading and writing the types of the newer format.

use vstd::prelude::*;
use crate::codec::{
    Codec, decode_optional, decode_required, duplicate_optional, encode_optional,
    encode_required, lemma_optional_read_is_valid, lemma_optional_round_trip,
    lemma_required_read_is_valid, lemma_required_round_trip, option_model, optional_decoded,
    optional_encodable, optional_encoded, optional_fits, optional_valid, required_decoded,
    required_encodable, required_encoded, required_fits, required_valid, Table,
};
use crate::error::CodecError;
use crate::extension::{
    assembled, collides, lemma_assembled_lookup, lemma_assembled_lookup_other,
    lemma_assembled_remainder, lemma_named_lookup, lemma_named_lookup_other,
    lemma_remainder_lookup, lemma_remainder_unnamed, named_members, ObjectReader, ObjectWriter,
    remainder,
};
use crate::json::{
    EntryModel, Json, JsonModel, lookup, same_text,
};
use crate::resolver::{
    lemma_pointer_object_sniffed, pointer_json, POINTER_KEY, pointer_object, Sniff, sniff,
    Sniffed, sniffed,
};
use crate::v3::schema::{
    Components, ComponentsModel, Contact, ContactModel, Discriminator, DiscriminatorModel,
    Example, ExampleModel, ExternalDoc, ExternalDocModel, Header, Info, InfoModel, License,
    LicenseModel, Link, LinkModel, Media, OAuthFlow, OAuthFlowModel, OAuthFlows,
    OAuthFlowsModel, OpenApi, OpenApiModel, Parameter, ParameterModel, PathItem, Reference,
    ReferenceModel, RefOrObject, RefOrObjectModel, RequestBody, RequestBodyModel, Response,
    ResponseModel, Schema, SecurityScheme, SecuritySchemeModel, SecuritySchemeType, Server,
    ServerModel, ServerVariable, ServerVariableModel, Tag, TagModel, XML, XMLModel,
};

verus! {

impl SecuritySchemeType {
    /// The text that the value is written as.
    pub open spec fn text(self) -> Seq<char> {
        match self {
            SecuritySchemeType::ApiKey => "apiKey"@,
            SecuritySchemeType::Http => "http"@,
            SecuritySchemeType::Oauth2 => "oauth2"@,
            SecuritySchemeType::OpenIdConnect => "openIdConnect"@,
        }
    }

    /// The text that the value is written as.
    pub fn as_str(&self) -> (text: &'static str)
        ensures
            text@ == self.text(),
    {
        match self {
            SecuritySchemeType::ApiKey => "apiKey",
            SecuritySchemeType::Http => "http",
            SecuritySchemeType::Oauth2 => "oauth2",
            SecuritySchemeType::OpenIdConnect => "openIdConnect",
        }
    }

    /// No two values are written alike.
    pub proof fn lemma_texts_distinct(left: SecuritySchemeType, right: SecuritySchemeType)
        ensures
            left.text() == right.text() ==> left == right,
    {
        reveal_strlit("apiKey");
        reveal_strlit("http");
        reveal_strlit("oauth2");
        reveal_strlit("openIdConnect");
        assert("apiKey"@.len() == 6 && "apiKey"@[0] == 'a');
        assert("http"@.len() == 4);
        assert("oauth2"@.len() == 6 && "oauth2"@[0] == 'o');
        assert("openIdConnect"@.len() == 13);
    }
}

impl Codec for SecuritySchemeType {
    type Model = SecuritySchemeType;

    open spec fn model(&self) -> SecuritySchemeType {
        *self
    }

    open spec fn fits(json: JsonModel) -> bool {
        json matches JsonModel::String(text) && (text == "apiKey"@ || text == "http"@ || text == "oauth2"@ || text == "openIdConnect"@)
    }

    open spec fn decoded(json: JsonModel) -> SecuritySchemeType {
        if json->String_0 == "apiKey"@ {
            SecuritySchemeType::ApiKey
        } else if json->String_0 == "http"@ {
            SecuritySchemeType::Http
        } else if json->String_0 == "oauth2"@ {
            SecuritySchemeType::Oauth2
        } else {
            SecuritySchemeType::OpenIdConnect
        }
    }

    open spec fn encodable(value: SecuritySchemeType) -> bool {
        true
    }

    open spec fn encoded(value: SecuritySchemeType) -> JsonModel {
        JsonModel::String(value.text())
    }

    open spec fn valid(value: SecuritySchemeType) -> bool {
        true
    }

    fn decode(json: &Json) -> (res: Result<SecuritySchemeType, CodecError>) {
        match json {
            Json::String(text) => {
                if same_text(text.as_str(), "apiKey") {
                    Ok(SecuritySchemeType::ApiKey)
                } else if same_text(text.as_str(), "http") {
                    Ok(SecuritySchemeType::Http)
                } else if same_text(text.as_str(), "oauth2") {
                    Ok(SecuritySchemeType::Oauth2)
                } else if same_text(text.as_str(), "openIdConnect") {
                    Ok(SecuritySchemeType::OpenIdConnect)
                } else {
                    Err(CodecError::ShapeMismatch)
                }
            },
            _ => Err(CodecError::ShapeMismatch),
        }
    }

    fn encode(&self) -> (res: Result<Json, CodecError>) {
        Ok(Json::String(self.as_str().to_owned()))
    }

    fn duplicate(&self) -> (copy: SecuritySchemeType) {
        *self
    }

    proof fn lemma_round_trip(value: SecuritySchemeType) {
        Self::lemma_texts_distinct(value, SecuritySchemeType::ApiKey);
        Self::lemma_texts_distinct(value, SecuritySchemeType::Http);
        Self::lemma_texts_distinct(value, SecuritySchemeType::Oauth2);
        Self::lemma_texts_distinct(value, SecuritySchemeType::OpenIdConnect);
    }

    proof fn lemma_read_is_valid(json: JsonModel) {
    }
}

impl OpenApi {
    /// The keys of the named fields, in the order in which they are written.
    pub open spec fn names() -> Seq<Seq<char>> {
        Seq::empty()
            .push("openapi"@)
            .push("info"@)
            .push("servers"@)
            .push("paths"@)
            .push("components"@)
            .push("security"@)
            .push("tags"@)
            .push("externalDocs"@)
    }

    /// What each named field is written as, in the order of the names.
    pub open spec fn slots(value: OpenApiModel) -> Seq<Option<JsonModel>> {
        Seq::empty()
            .push(required_encoded::<String>(value.openapi))
            .push(required_encoded::<Info>(value.info))
            .push(optional_encoded::<Vec<Server>>(value.servers))
            .push(required_encoded::<Table<PathItem>>(value.paths))
            .push(optional_encoded::<Components>(value.components))
            .push(optional_encoded::<Table<Vec<String>>>(value.security))
            .push(optional_encoded::<Vec<Tag>>(value.tags))
            .push(optional_encoded::<ExternalDoc>(value.external_docs))
    }

    /// No key is named twice.
    pub proof fn lemma_names_distinct()
        ensures
            Self::names().no_duplicates(),
    {
        reveal_strlit("openapi");
        reveal_strlit("info");
        reveal_strlit("servers");
        reveal_strlit("paths");
        reveal_strlit("components");
        reveal_strlit("security");
        reveal_strlit("tags");
        reveal_strlit("externalDocs");
        assert("openapi"@.len() == 7 && "openapi"@[0] == 'o');
        assert("info"@.len() == 4 && "info"@[0] == 'i');
        assert("servers"@.len() == 7 && "servers"@[0] == 's');
        assert("paths"@.len() == 5);
        assert("components"@.len() == 10);
        assert("security"@.len() == 8);
        assert("tags"@.len() == 4 && "tags"@[0] == 't');
        assert("externalDocs"@.len() == 12);
    }

    /// The pointer key is none of the names.
    pub proof fn lemma_pointer_unnamed()
        ensures
            !Self::names().contains(POINTER_KEY@),
    {
        reveal_strlit("$ref");
        reveal_strlit("openapi");
        reveal_strlit("info");
        reveal_strlit("servers");
        reveal_strlit("paths");
        reveal_strlit("components");
        reveal_strlit("security");
        reveal_strlit("tags");
        reveal_strlit("externalDocs");
        assert("$ref"@.len() == 4 && "$ref"@[0] == '$');
        assert("openapi"@.len() == 7);
        assert("info"@.len() == 4 && "info"@[0] == 'i');
        assert("servers"@.len() == 7);
        assert("paths"@.len() == 5);
        assert("components"@.len() == 10);
        assert("security"@.len() == 8);
        assert("tags"@.len() == 4 && "tags"@[0] == 't');
        assert("externalDocs"@.len() == 12);
    }
}

impl Clone for OpenApi {
    fn clone(&self) -> (copy: OpenApi)
        ensures
            copy.model() == self.model(),
    {
        self.duplicate()
    }
}

impl Codec for OpenApi {
    type Model = OpenApiModel;

    open spec fn model(&self) -> OpenApiModel {
        OpenApiModel {
            openapi: self.openapi.model(),
            info: self.info.model(),
            servers: option_model(self.servers),
            paths: self.paths.model(),
            components: option_model(self.components),
            security: option_model(self.security),
            tags: option_model(self.tags),
            external_docs: option_model(self.external_docs),
        }
    }

    open spec fn fits(json: JsonModel) -> bool {
        &&& json is Object
        &&& required_fits::<String>(lookup(json->Object_0, "openapi"@))
        &&& required_fits::<Info>(lookup(json->Object_0, "info"@))
        &&& optional_fits::<Vec<Server>>(lookup(json->Object_0, "servers"@))
        &&& required_fits::<Table<PathItem>>(lookup(json->Object_0, "paths"@))
        &&& optional_fits::<Components>(lookup(json->Object_0, "components"@))
        &&& optional_fits::<Table<Vec<String>>>(lookup(json->Object_0, "security"@))
        &&& optional_fits::<Vec<Tag>>(lookup(json->Object_0, "tags"@))
        &&& optional_fits::<ExternalDoc>(lookup(json->Object_0, "externalDocs"@))
    }

    open spec fn decoded(json: JsonModel) -> OpenApiModel {
        OpenApiModel {
            openapi: required_decoded::<String>(lookup(json->Object_0, "openapi"@)),
            info: required_decoded::<Info>(lookup(json->Object_0, "info"@)),
            servers: optional_decoded::<Vec<Server>>(lookup(json->Object_0, "servers"@)),
            paths: required_decoded::<Table<PathItem>>(lookup(json->Object_0, "paths"@)),
            components: optional_decoded::<Components>(lookup(json->Object_0, "components"@)),
            security: optional_decoded::<Table<Vec<String>>>(lookup(json->Object_0, "security"@)),
            tags: optional_decoded::<Vec<Tag>>(lookup(json->Object_0, "tags"@)),
            external_docs: optional_decoded::<ExternalDoc>(lookup(json->Object_0, "externalDocs"@)),
        }
    }

    open spec fn encodable(value: OpenApiModel) -> bool {
        &&& required_encodable::<String>(value.openapi)
        &&& required_encodable::<Info>(value.info)
        &&& optional_encodable::<Vec<Server>>(value.servers)
        &&& required_encodable::<Table<PathItem>>(value.paths)
        &&& optional_encodable::<Components>(value.components)
        &&& optional_encodable::<Table<Vec<String>>>(value.security)
        &&& optional_encodable::<Vec<Tag>>(value.tags)
        &&& optional_encodable::<ExternalDoc>(value.external_docs)
    }

    open spec fn valid(value: OpenApiModel) -> bool {
        &&& required_valid::<String>(value.openapi)
        &&& required_valid::<Info>(value.info)
        &&& optional_valid::<Vec<Server>>(value.servers)
        &&& required_valid::<Table<PathItem>>(value.paths)
        &&& optional_valid::<Components>(value.components)
        &&& optional_valid::<Table<Vec<String>>>(value.security)
        &&& optional_valid::<Vec<Tag>>(value.tags)
        &&& optional_valid::<ExternalDoc>(value.external_docs)
    }

    open spec fn encoded(value: OpenApiModel) -> JsonModel {
        JsonModel::Object(named_members(Self::names(), Self::slots(value)))
    }

    fn decode(json: &Json) -> (res: Result<OpenApi, CodecError>) {
        let members = match json {
            Json::Object(members) => members,
            _ => {
                return Err(CodecError::ShapeMismatch);
            },
        };
        let mut reader = ObjectReader::new(members);
        let openapi = decode_required::<String>(reader.field("openapi"))?;
        let info = decode_required::<Info>(reader.field("info"))?;
        let servers = decode_optional::<Vec<Server>>(reader.field("servers"))?;
        let paths = decode_required::<Table<PathItem>>(reader.field("paths"))?;
        let components = decode_optional::<Components>(reader.field("components"))?;
        let security = decode_optional::<Table<Vec<String>>>(reader.field("security"))?;
        let tags = decode_optional::<Vec<Tag>>(reader.field("tags"))?;
        let external_docs = decode_optional::<ExternalDoc>(reader.field("externalDocs"))?;
        Ok(OpenApi { openapi, info, servers, paths, components, security, tags, external_docs })
    }

    fn encode(&self) -> (res: Result<Json, CodecError>) {
        let writer = ObjectWriter::new();
        let writer = writer.put("openapi", encode_required::<String>(&self.openapi)?);
        let writer = writer.put("info", encode_required::<Info>(&self.info)?);
        let writer = writer.put("servers", encode_optional::<Vec<Server>>(&self.servers)?);
        let writer = writer.put("paths", encode_required::<Table<PathItem>>(&self.paths)?);
        let writer = writer.put("components", encode_optional::<Components>(&self.components)?);
        let writer = writer.put("security", encode_optional::<Table<Vec<String>>>(&self.security)?);
        let writer = writer.put("tags", encode_optional::<Vec<Tag>>(&self.tags)?);
        let writer = writer.put("externalDocs", encode_optional::<ExternalDoc>(&self.external_docs)?);
        Ok(writer.finish())
    }

    fn duplicate(&self) -> (copy: OpenApi) {
        OpenApi {
            openapi: self.openapi.duplicate(),
            info: self.info.duplicate(),
            servers: duplicate_optional(&self.servers),
            paths: self.paths.duplicate(),
            components: duplicate_optional(&self.components),
            security: duplicate_optional(&self.security),
            tags: duplicate_optional(&self.tags),
            external_docs: duplicate_optional(&self.external_docs),
        }
    }

    proof fn lemma_round_trip(value: OpenApiModel) {
        let names = Self::names();
        let slots = Self::slots(value);
        Self::lemma_names_distinct();
        lemma_named_lookup(names, slots, 0);
        lemma_named_lookup(names, slots, 1);
        lemma_named_lookup(names, slots, 2);
        lemma_named_lookup(names, slots, 3);
        lemma_named_lookup(names, slots, 4);
        lemma_named_lookup(names, slots, 5);
        lemma_named_lookup(names, slots, 6);
        lemma_named_lookup(names, slots, 7);
        lemma_required_round_trip::<String>(value.openapi);
        lemma_required_round_trip::<Info>(value.info);
        lemma_optional_round_trip::<Vec<Server>>(value.servers);
        lemma_required_round_trip::<Table<PathItem>>(value.paths);
        lemma_optional_round_trip::<Components>(value.components);
        lemma_optional_round_trip::<Table<Vec<String>>>(value.security);
        lemma_optional_round_trip::<Vec<Tag>>(value.tags);
        lemma_optional_round_trip::<ExternalDoc>(value.external_docs);
    }

    proof fn lemma_read_is_valid(json: JsonModel) {
        let members = json->Object_0;
        let names = Self::names();
        let value = Self::decoded(json);
        let slots = Self::slots(value);
        lemma_required_read_is_valid::<String>(lookup(members, "openapi"@));
        lemma_required_read_is_valid::<Info>(lookup(members, "info"@));
        lemma_optional_read_is_valid::<Vec<Server>>(lookup(members, "servers"@));
        lemma_required_read_is_valid::<Table<PathItem>>(lookup(members, "paths"@));
        lemma_optional_read_is_valid::<Components>(lookup(members, "components"@));
        lemma_optional_read_is_valid::<Table<Vec<String>>>(lookup(members, "security"@));
        lemma_optional_read_is_valid::<Vec<Tag>>(lookup(members, "tags"@));
        lemma_optional_read_is_valid::<ExternalDoc>(lookup(members, "externalDocs"@));
        Self::lemma_pointer_unnamed();
        lemma_named_lookup_other(names, slots, POINTER_KEY@);
    }
}

impl Info {
    /// The keys of the named fields, in the order in which they are written.
    pub open spec fn names() -> Seq<Seq<char>> {
        Seq::empty()
            .push("title"@)
            .push("description"@)
            .push("termsOfService"@)
            .push("contact"@)
            .push("license"@)
            .push("version"@)
    }

    /// What each named field is written as, in the order of the names.
    pub open spec fn slots(value: InfoModel) -> Seq<Option<JsonModel>> {
        Seq::empty()
            .push(required_encoded::<String>(value.title))
            .push(optional_encoded::<String>(value.description))
            .push(optional_encoded::<String>(value.terms_of_service))
            .push(optional_encoded::<Contact>(value.contact))
            .push(optional_encoded::<License>(value.license))
            .push(optional_encoded::<String>(value.version))
    }

    /// No key is named twice.
    pub proof fn lemma_names_distinct()
        ensures
            Self::names().no_duplicates(),
    {
        reveal_strlit("title");
        reveal_strlit("description");
        reveal_strlit("termsOfService");
        reveal_strlit("contact");
        reveal_strlit("license");
        reveal_strlit("version");
        assert("title"@.len() == 5);
        assert("description"@.len() == 11);
        assert("termsOfService"@.len() == 14);
        assert("contact"@.len() == 7 && "contact"@[0] == 'c');
        assert("license"@.len() == 7 && "license"@[0] == 'l');
        assert("version"@.len() == 7 && "version"@[0] == 'v');
    }

    /// The pointer key is none of the names.
    pub proof fn lemma_pointer_unnamed()
        ensures
            !Self::names().contains(POINTER_KEY@),
    {
        reveal_strlit("$ref");
        reveal_strlit("title");
        reveal_strlit("description");
        reveal_strlit("termsOfService");
        reveal_strlit("contact");
        reveal_strlit("license");
        reveal_strlit("version");
        assert("$ref"@.len() == 4);
        assert("title"@.len() == 5);
        assert("description"@.len() == 11);
        assert("termsOfService"@.len() == 14);
        assert("contact"@.len() == 7);
        assert("license"@.len() == 7);
        assert("version"@.len() == 7);
    }
}

impl Clone for Info {
    fn clone(&self) -> (copy: Info)
        ensures
            copy.model() == self.model(),
    {
        self.duplicate()
    }
}

impl Codec for Info {
    type Model = InfoModel;

    open spec fn model(&self) -> InfoModel {
        InfoModel {
            title: self.title.model(),
            description: option_model(self.description),
            terms_of_service: option_model(self.terms_of_service),
            contact: option_model(self.contact),
            license: option_model(self.license),
            version: option_model(self.version),
            extensions: self.extensions.model(),
        }
    }

    open spec fn fits(json: JsonModel) -> bool {
        &&& json is Object
        &&& required_fits::<String>(lookup(json->Object_0, "title"@))
        &&& optional_fits::<String>(lookup(json->Object_0, "description"@))
        &&& optional_fits::<String>(lookup(json->Object_0, "termsOfService"@))
        &&& optional_fits::<Contact>(lookup(json->Object_0, "contact"@))
        &&& optional_fits::<License>(lookup(json->Object_0, "license"@))
        &&& optional_fits::<String>(lookup(json->Object_0, "version"@))
    }

    open spec fn decoded(json: JsonModel) -> InfoModel {
        InfoModel {
            title: required_decoded::<String>(lookup(json->Object_0, "title"@)),
            description: optional_decoded::<String>(lookup(json->Object_0, "description"@)),
            terms_of_service: optional_decoded::<String>(lookup(json->Object_0, "termsOfService"@)),
            contact: optional_decoded::<Contact>(lookup(json->Object_0, "contact"@)),
            license: optional_decoded::<License>(lookup(json->Object_0, "license"@)),
            version: optional_decoded::<String>(lookup(json->Object_0, "version"@)),
            extensions: remainder(json->Object_0, Self::names()),
        }
    }

    open spec fn encodable(value: InfoModel) -> bool {
        &&& required_encodable::<String>(value.title)
        &&& optional_encodable::<String>(value.description)
        &&& optional_encodable::<String>(value.terms_of_service)
        &&& optional_encodable::<Contact>(value.contact)
        &&& optional_encodable::<License>(value.license)
        &&& optional_encodable::<String>(value.version)
        &&& !collides(Self::names(), value.extensions)
    }

    open spec fn valid(value: InfoModel) -> bool {
        &&& required_valid::<String>(value.title)
        &&& optional_valid::<String>(value.description)
        &&& optional_valid::<String>(value.terms_of_service)
        &&& optional_valid::<Contact>(value.contact)
        &&& optional_valid::<License>(value.license)
        &&& optional_valid::<String>(value.version)
        &&& !collides(Self::names(), value.extensions)
    }

    open spec fn encoded(value: InfoModel) -> JsonModel {
        JsonModel::Object(assembled(Self::names(), Self::slots(value), value.extensions))
    }

    fn decode(json: &Json) -> (res: Result<Info, CodecError>) {
        let members = match json {
            Json::Object(members) => members,
            _ => {
                return Err(CodecError::ShapeMismatch);
            },
        };
        let mut reader = ObjectReader::new(members);
        let title = decode_required::<String>(reader.field("title"))?;
        let description = decode_optional::<String>(reader.field("description"))?;
        let terms_of_service = decode_optional::<String>(reader.field("termsOfService"))?;
        let contact = decode_optional::<Contact>(reader.field("contact"))?;
        let license = decode_optional::<License>(reader.field("license"))?;
        let version = decode_optional::<String>(reader.field("version"))?;
        let extensions = reader.rest();
        Ok(Info { title, description, terms_of_service, contact, license, version, extensions })
    }

    fn encode(&self) -> (res: Result<Json, CodecError>) {
        let writer = ObjectWriter::new();
        let writer = writer.put("title", encode_required::<String>(&self.title)?);
        let writer = writer.put("description", encode_optional::<String>(&self.description)?);
        let writer = writer.put("termsOfService", encode_optional::<String>(&self.terms_of_service)?);
        let writer = writer.put("contact", encode_optional::<Contact>(&self.contact)?);
        let writer = writer.put("license", encode_optional::<License>(&self.license)?);
        let writer = writer.put("version", encode_optional::<String>(&self.version)?);
        writer.finish_with(&self.extensions)
    }

    fn duplicate(&self) -> (copy: Info) {
        Info {
            title: self.title.duplicate(),
            description: duplicate_optional(&self.description),
            terms_of_service: duplicate_optional(&self.terms_of_service),
            contact: duplicate_optional(&self.contact),
            license: duplicate_optional(&self.license),
            version: duplicate_optional(&self.version),
            extensions: self.extensions.duplicate(),
        }
    }

    proof fn lemma_round_trip(value: InfoModel) {
        let names = Self::names();
        let slots = Self::slots(value);
        Self::lemma_names_distinct();
        lemma_assembled_lookup(names, slots, value.extensions, 0);
        lemma_assembled_lookup(names, slots, value.extensions, 1);
        lemma_assembled_lookup(names, slots, value.extensions, 2);
        lemma_assembled_lookup(names, slots, value.extensions, 3);
        lemma_assembled_lookup(names, slots, value.extensions, 4);
        lemma_assembled_lookup(names, slots, value.extensions, 5);
        lemma_assembled_remainder(names, slots, value.extensions);
        lemma_required_round_trip::<String>(value.title);
        lemma_optional_round_trip::<String>(value.description);
        lemma_optional_round_trip::<String>(value.terms_of_service);
        lemma_optional_round_trip::<Contact>(value.contact);
        lemma_optional_round_trip::<License>(value.license);
        lemma_optional_round_trip::<String>(value.version);
    }

    proof fn lemma_read_is_valid(json: JsonModel) {
        let members = json->Object_0;
        let names = Self::names();
        let value = Self::decoded(json);
        let slots = Self::slots(value);
        lemma_required_read_is_valid::<String>(lookup(members, "title"@));
        lemma_optional_read_is_valid::<String>(lookup(members, "description"@));
        lemma_optional_read_is_valid::<String>(lookup(members, "termsOfService"@));
        lemma_optional_read_is_valid::<Contact>(lookup(members, "contact"@));
        lemma_optional_read_is_valid::<License>(lookup(members, "license"@));
        lemma_optional_read_is_valid::<String>(lookup(members, "version"@));
        lemma_remainder_unnamed(members, names);
        Self::lemma_pointer_unnamed();
        lemma_assembled_lookup_other(names, slots, value.extensions, POINTER_KEY@);
        lemma_remainder_lookup(members, names, POINTER_KEY@);
    }
}

impl Contact {
    /// The keys of the named fields, in the order in which they are written.
    pub open spec fn names() -> Seq<Seq<char>> {
        Seq::empty()
            .push("name"@)
            .push("url"@)
            .push("email"@)
    }

    /// What each named field is written as, in the order of the names.
    pub open spec fn slots(value: ContactModel) -> Seq<Option<JsonModel>> {
        Seq::empty()
            .push(optional_encoded::<String>(value.name))
            .push(optional_encoded::<String>(value.url))
            .push(optional_encoded::<String>(value.email))
    }

    /// No key is named twice.
    pub proof fn lemma_names_distinct()
        ensures
            Self::names().no_duplicates(),
    {
        reveal_strlit("name");
        reveal_strlit("url");
        reveal_strlit("email");
        assert("name"@.len() == 4);
        assert("url"@.len() == 3);
        assert("email"@.len() == 5);
    }

    /// The pointer key is none of the names.
    pub proof fn lemma_pointer_unnamed()
        ensures
            !Self::names().contains(POINTER_KEY@),
    {
        reveal_strlit("$ref");
        reveal_strlit("name");
        reveal_strlit("url");
        reveal_strlit("email");
        assert("$ref"@.len() == 4 && "$ref"@[0] == '$');
        assert("name"@.len() == 4 && "name"@[0] == 'n');
        assert("url"@.len() == 3);
        assert("email"@.len() == 5);
    }
}

impl Clone for Contact {
    fn clone(&self) -> (copy: Contact)
        ensures
            copy.model() == self.model(),
    {
        self.duplicate()
    }
}

impl Codec for Contact {
    type Model = ContactModel;

    open spec fn model(&self) -> ContactModel {
        ContactModel {
            name: option_model(self.name),
            url: option_model(self.url),
            email: option_model(self.email),
            extensions: self.extensions.model(),
        }
    }

    open spec fn fits(json: JsonModel) -> bool {
        &&& json is Object
        &&& optional_fits::<String>(lookup(json->Object_0, "name"@))
        &&& optional_fits::<String>(lookup(json->Object_0, "url"@))
        &&& optional_fits::<String>(lookup(json->Object_0, "email"@))
    }

    open spec fn decoded(json: JsonModel) -> ContactModel {
        ContactModel {
            name: optional_decoded::<String>(lookup(json->Object_0, "name"@)),
            url: optional_decoded::<String>(lookup(json->Object_0, "url"@)),
            email: optional_decoded::<String>(lookup(json->Object_0, "email"@)),
            extensions: remainder(json->Object_0, Self::names()),
        }
    }

    open spec fn encodable(value: ContactModel) -> bool {
        &&& optional_encodable::<String>(value.name)
        &&& optional_encodable::<String>(value.url)
        &&& optional_encodable::<String>(value.email)
        &&& !collides(Self::names(), value.extensions)
    }

    open spec fn valid(value: ContactModel) -> bool {
        &&& optional_valid::<String>(value.name)
        &&& optional_valid::<String>(value.url)
        &&& optional_valid::<String>(value.email)
        &&& !collides(Self::names(), value.extensions)
    }

    open spec fn encoded(value: ContactModel) -> JsonModel {
        JsonModel::Object(assembled(Self::names(), Self::slots(value), value.extensions))
    }

    fn decode(json: &Json) -> (res: Result<Contact, CodecError>) {
        let members = match json {
            Json::Object(members) => members,
            _ => {
                return Err(CodecError::ShapeMismatch);
            },
        };
        let mut reader = ObjectReader::new(members);
        let name = decode_optional::<String>(reader.field("name"))?;
        let url = decode_optional::<String>(reader.field("url"))?;
        let email = decode_optional::<String>(reader.field("email"))?;
        let extensions = reader.rest();
        Ok(Contact { name, url, email, extensions })
    }

    fn encode(&self) -> (res: Result<Json, CodecError>) {
        let writer = ObjectWriter::new();
        let writer = writer.put("name", encode_optional::<String>(&self.name)?);
        let writer = writer.put("url", encode_optional::<String>(&self.url)?);
        let writer = writer.put("email", encode_optional::<String>(&self.email)?);
        writer.finish_with(&self.extensions)
    }

    fn duplicate(&self) -> (copy: Contact) {
        Contact {
            name: duplicate_optional(&self.name),
            url: duplicate_optional(&self.url),
            email: duplicate_optional(&self.email),
            extensions: self.extensions.duplicate(),
        }
    }

    proof fn lemma_round_trip(value: ContactModel) {
        let names = Self::names();
        let slots = Self::slots(value);
        Self::lemma_names_distinct();
        lemma_assembled_lookup(names, slots, value.extensions, 0);
        lemma_assembled_lookup(names, slots, value.extensions, 1);
        lemma_assembled_lookup(names, slots, value.extensions, 2);
        lemma_assembled_remainder(names, slots, value.extensions);
        lemma_optional_round_trip::<String>(value.name);
        lemma_optional_round_trip::<String>(value.url);
        lemma_optional_round_trip::<String>(value.email);
    }

    proof fn lemma_read_is_valid(json: JsonModel) {
        let members = json->Object_0;
        let names = Self::names();
        let value = Self::decoded(json);
        let slots = Self::slots(value);
        lemma_optional_read_is_valid::<String>(lookup(members, "name"@));
        lemma_optional_read_is_valid::<String>(lookup(members, "url"@));
        lemma_optional_read_is_valid::<String>(lookup(members, "email"@));
        lemma_remainder_unnamed(members, names);
        Self::lemma_pointer_unnamed();
        lemma_assembled_lookup_other(names, slots, value.extensions, POINTER_KEY@);
        lemma_remainder_lookup(members, names, POINTER_KEY@);
    }
}

impl License {
    /// The keys of the named fields, in the order in which they are written.
    pub open spec fn names() -> Seq<Seq<char>> {
        Seq::empty()
            .push("name"@)
            .push("url"@)
    }

    /// What each named field is written as, in the order of the names.
    pub open spec fn slots(value: LicenseModel) -> Seq<Option<JsonModel>> {
        Seq::empty()
            .push(required_encoded::<String>(value.name))
            .push(optional_encoded::<String>(value.url))
    }

    /// No key is named twice.
    pub proof fn lemma_names_distinct()
        ensures
            Self::names().no_duplicates(),
    {
        reveal_strlit("name");
        reveal_strlit("url");
        assert("name"@.len() == 4);
        assert("url"@.len() == 3);
    }

    /// The pointer key is none of the names.
    pub proof fn lemma_pointer_unnamed()
        ensures
            !Self::names().contains(POINTER_KEY@),
    {
        reveal_strlit("$ref");
        reveal_strlit("name");
        reveal_strlit("url");
        assert("$ref"@.len() == 4 && "$ref"@[0] == '$');
        assert("name"@.len() == 4 && "name"@[0] == 'n');
        assert("url"@.len() == 3);
    }
}

impl Clone for License {
    fn clone(&self) -> (copy: License)
        ensures
            copy.model() == self.model(),
    {
        self.duplicate()
    }
}

impl Codec for License {
    type Model = LicenseModel;

    open spec fn model(&self) -> LicenseModel {
        LicenseModel {
            name: self.name.model(),
            url: option_model(self.url),
            extensions: self.extensions.model(),
        }
    }

    open spec fn fits(json: JsonModel) -> bool {
        &&& json is Object
        &&& required_fits::<String>(lookup(json->Object_0, "name"@))
        &&& optional_fits::<String>(lookup(json->Object_0, "url"@))
    }

    open spec fn decoded(json: JsonModel) -> LicenseModel {
        LicenseModel {
            name: required_decoded::<String>(lookup(json->Object_0, "name"@)),
            url: optional_decoded::<String>(lookup(json->Object_0, "url"@)),
            extensions: remainder(json->Object_0, Self::names()),
        }
    }

    open spec fn encodable(value: LicenseModel) -> bool {
        &&& required_encodable::<String>(value.name)
        &&& optional_encodable::<String>(value.url)
        &&& !collides(Self::names(), value.extensions)
    }

    open spec fn valid(value: LicenseModel) -> bool {
        &&& required_valid::<String>(value.name)
        &&& optional_valid::<String>(value.url)
        &&& !collides(Self::names(), value.extensions)
    }

    open spec fn encoded(value: LicenseModel) -> JsonModel {
        JsonModel::Object(assembled(Self::names(), Self::slots(value), value.extensions))
    }

    fn decode(json: &Json) -> (res: Result<License, CodecError>) {
        let members = match json {
            Json::Object(members) => members,
            _ => {
                return Err(CodecError::ShapeMismatch);
            },
        };
        let mut reader = ObjectReader::new(members);
        let name = decode_required::<String>(reader.field("name"))?;
        let url = decode_optional::<String>(reader.field("url"))?;
        let extensions = reader.rest();
        Ok(License { name, url, extensions })
    }

    fn encode(&self) -> (res: Result<Json, CodecError>) {
        let writer = ObjectWriter::new();
        let writer = writer.put("name", encode_required::<String>(&self.name)?);
        let writer = writer.put("url", encode_optional::<String>(&self.url)?);
        writer.finish_with(&self.extensions)
    }

    fn duplicate(&self) -> (copy: License) {
        License {
            name: self.name.duplicate(),
            url: duplicate_optional(&self.url),
            extensions: self.extensions.duplicate(),
        }
    }

    proof fn lemma_round_trip(value: LicenseModel) {
        let names = Self::names();
        let slots = Self::slots(value);
        Self::lemma_names_distinct();
        lemma_assembled_lookup(names, slots, value.extensions, 0);
        lemma_assembled_lookup(names, slots, value.extensions, 1);
        lemma_assembled_remainder(names, slots, value.extensions);
        lemma_required_round_trip::<String>(value.name);
        lemma_optional_round_trip::<String>(value.url);
    }

    proof fn lemma_read_is_valid(json: JsonModel) {
        let members = json->Object_0;
        let names = Self::names();
        let value = Self::decoded(json);
        let slots = Self::slots(value);
        lemma_required_read_is_valid::<String>(lookup(members, "name"@));
        lemma_optional_read_is_valid::<String>(lookup(members, "url"@));
        lemma_remainder_unnamed(members, names);
        Self::lemma_pointer_unnamed();
        lemma_assembled_lookup_other(names, slots, value.extensions, POINTER_KEY@);
        lemma_remainder_lookup(members, names, POINTER_KEY@);
    }
}

impl Server {
    /// The keys of the named fields, in the order in which they are written.
    pub open spec fn names() -> Seq<Seq<char>> {
        Seq::empty()
            .push("url"@)
            .push("description"@)
            .push("variables"@)
    }

    /// What each named field is written as, in the order of the names.
    pub open spec fn slots(value: ServerModel) -> Seq<Option<JsonModel>> {
        Seq::empty()
            .push(required_encoded::<String>(value.url))
            .push(optional_encoded::<String>(value.description))
            .push(optional_encoded::<Table<ServerVariable>>(value.variables))
    }

    /// No key is named twice.
    pub proof fn lemma_names_distinct()
        ensures
            Self::names().no_duplicates(),
    {
        reveal_strlit("url");
        reveal_strlit("description");
        reveal_strlit("variables");
        assert("url"@.len() == 3);
        assert("description"@.len() == 11);
        assert("variables"@.len() == 9);
    }

    /// The pointer key is none of the names.
    pub proof fn lemma_pointer_unnamed()
        ensures
            !Self::names().contains(POINTER_KEY@),
    {
        reveal_strlit("$ref");
        reveal_strlit("url");
        reveal_strlit("description");
        reveal_strlit("variables");
        assert("$ref"@.len() == 4);
        assert("url"@.len() == 3);
        assert("description"@.len() == 11);
        assert("variables"@.len() == 9);
    }
}

impl Clone for Server {
    fn clone(&self) -> (copy: Server)
        ensures
            copy.model() == self.model(),
    {
        self.duplicate()
    }
}

impl Codec for Server {
    type Model = ServerModel;

    open spec fn model(&self) -> ServerModel {
        ServerModel {
            url: self.url.model(),
            description: option_model(self.description),
            variables: option_model(self.variables),
            extensions: self.extensions.model(),
        }
    }

    open spec fn fits(json: JsonModel) -> bool {
        &&& json is Object
        &&& required_fits::<String>(lookup(json->Object_0, "url"@))
        &&& optional_fits::<String>(lookup(json->Object_0, "description"@))
        &&& optional_fits::<Table<ServerVariable>>(lookup(json->Object_0, "variables"@))
    }

    open spec fn decoded(json: JsonModel) -> ServerModel {
        ServerModel {
            url: required_decoded::<String>(lookup(json->Object_0, "url"@)),
            description: optional_decoded::<String>(lookup(json->Object_0, "description"@)),
            variables: optional_decoded::<Table<ServerVariable>>(lookup(json->Object_0, "variables"@)),
            extensions: remainder(json->Object_0, Self::names()),
        }
    }

    open spec fn encodable(value: ServerModel) -> bool {
        &&& required_encodable::<String>(value.url)
        &&& optional_encodable::<String>(value.description)
        &&& optional_encodable::<Table<ServerVariable>>(value.variables)
        &&& !collides(Self::names(), value.extensions)
    }

    open spec fn valid(value: ServerModel) -> bool {
        &&& required_valid::<String>(value.url)
        &&& optional_valid::<String>(value.description)
        &&& optional_valid::<Table<ServerVariable>>(value.variables)
        &&& !collides(Self::names(), value.extensions)
    }

    open spec fn encoded(value: ServerModel) -> JsonModel {
        JsonModel::Object(assembled(Self::names(), Self::slots(value), value.extensions))
    }

    fn decode(json: &Json) -> (res: Result<Server, CodecError>) {
        let members = match json {
            Json::Object(members) => members,
            _ => {
                return Err(CodecError::ShapeMismatch);
            },
        };
        let mut reader = ObjectReader::new(members);
        let url = decode_required::<String>(reader.field("url"))?;
        let description = decode_optional::<String>(reader.field("description"))?;
        let variables = decode_optional::<Table<ServerVariable>>(reader.field("variables"))?;
        let extensions = reader.rest();
        Ok(Server { url, description, variables, extensions })
    }

    fn encode(&self) -> (res: Result<Json, CodecError>) {
        let writer = ObjectWriter::new();
        let writer = writer.put("url", encode_required::<String>(&self.url)?);
        let writer = writer.put("description", encode_optional::<String>(&self.description)?);
        let writer = writer.put("variables", encode_optional::<Table<ServerVariable>>(&self.variables)?);
        writer.finish_with(&self.extensions)
    }

    fn duplicate(&self) -> (copy: Server) {
        Server {
            url: self.url.duplicate(),
            description: duplicate_optional(&self.description),
            variables: duplicate_optional(&self.variables),
            extensions: self.extensions.duplicate(),
        }
    }

    proof fn lemma_round_trip(value: ServerModel) {
        let names = Self::names();
        let slots = Self::slots(value);
        Self::lemma_names_distinct();
        lemma_assembled_lookup(names, slots, value.extensions, 0);
        lemma_assembled_lookup(names, slots, value.extensions, 1);
        lemma_assembled_lookup(names, slots, value.extensions, 2);
        lemma_assembled_remainder(names, slots, value.extensions);
        lemma_required_round_trip::<String>(value.url);
        lemma_optional_round_trip::<String>(value.description);
        lemma_optional_round_trip::<Table<ServerVariable>>(value.variables);
    }

    proof fn lemma_read_is_valid(json: JsonModel) {
        let members = json->Object_0;
        let names = Self::names();
        let value = Self::decoded(json);
        let slots = Self::slots(value);
        lemma_required_read_is_valid::<String>(lookup(members, "url"@));
        lemma_optional_read_is_valid::<String>(lookup(members, "description"@));
        lemma_optional_read_is_valid::<Table<ServerVariable>>(lookup(members, "variables"@));
        lemma_remainder_unnamed(members, names);
        Self::lemma_pointer_unnamed();
        lemma_assembled_lookup_other(names, slots, value.extensions, POINTER_KEY@);
        lemma_remainder_lookup(members, names, POINTER_KEY@);
    }
}

impl ServerVariable {
    /// The keys of the named fields, in the order in which they are written.
    pub open spec fn names() -> Seq<Seq<char>> {
        Seq::empty()
            .push("enum"@)
            .push("default"@)
            .push("description"@)
    }

    /// What each named field is written as, in the order of the names.
    pub open spec fn slots(value: ServerVariableModel) -> Seq<Option<JsonModel>> {
        Seq::empty()
            .push(optional_encoded::<Vec<String>>(value.enum_))
            .push(required_encoded::<String>(value.default))
            .push(optional_encoded::<String>(value.description))
    }

    /// No key is named twice.
    pub proof fn lemma_names_distinct()
        ensures
            Self::names().no_duplicates(),
    {
        reveal_strlit("enum");
        reveal_strlit("default");
        reveal_strlit("description");
        assert("enum"@.len() == 4);
        assert("default"@.len() == 7);
        assert("description"@.len() == 11);
    }

    /// The pointer key is none of the names.
    pub proof fn lemma_pointer_unnamed()
        ensures
            !Self::names().contains(POINTER_KEY@),
    {
        reveal_strlit("$ref");
        reveal_strlit("enum");
        reveal_strlit("default");
        reveal_strlit("description");
        assert("$ref"@.len() == 4 && "$ref"@[0] == '$');
        assert("enum"@.len() == 4 && "enum"@[0] == 'e');
        assert("default"@.len() == 7);
        assert("description"@.len() == 11);
    }
}

impl Clone for ServerVariable {
    fn clone(&self) -> (copy: ServerVariable)
        ensures
            copy.model() == self.model(),
    {
        self.duplicate()
    }
}

impl Codec for ServerVariable {
    type Model = ServerVariableModel;

    open spec fn model(&self) -> ServerVariableModel {
        ServerVariableModel {
            enum_: option_model(self.enum_),
            default: self.default.model(),
            description: option_model(self.description),
            extensions: self.extensions.model(),
        }
    }

    open spec fn fits(json: JsonModel) -> bool {
        &&& json is Object
        &&& optional_fits::<Vec<String>>(lookup(json->Object_0, "enum"@))
        &&& required_fits::<String>(lookup(json->Object_0, "default"@))
        &&& optional_fits::<String>(lookup(json->Object_0, "description"@))
    }

    open spec fn decoded(json: JsonModel) -> ServerVariableModel {
        ServerVariableModel {
            enum_: optional_decoded::<Vec<String>>(lookup(json->Object_0, "enum"@)),
            default: required_decoded::<String>(lookup(json->Object_0, "default"@)),
            description: optional_decoded::<String>(lookup(json->Object_0, "description"@)),
            extensions: remainder(json->Object_0, Self::names()),
        }
    }

    open spec fn encodable(value: ServerVariableModel) -> bool {
        &&& optional_encodable::<Vec<String>>(value.enum_)
        &&& required_encodable::<String>(value.default)
        &&& optional_encodable::<String>(value.description)
        &&& !collides(Self::names(), value.extensions)
    }

    open spec fn valid(value: ServerVariableModel) -> bool {
        &&& optional_valid::<Vec<String>>(value.enum_)
        &&& required_valid::<String>(value.default)
        &&& optional_valid::<String>(value.description)
        &&& !collides(Self::names(), value.extensions)
    }

    open spec fn encoded(value: ServerVariableModel) -> JsonModel {
        JsonModel::Object(assembled(Self::names(), Self::slots(value), value.extensions))
    }

    fn decode(json: &Json) -> (res: Result<ServerVariable, CodecError>) {
        let members = match json {
            Json::Object(members) => members,
            _ => {
                return Err(CodecError::ShapeMismatch);
            },
        };
        let mut reader = ObjectReader::new(members);
        let enum_ = decode_optional::<Vec<String>>(reader.field("enum"))?;
        let default = decode_required::<String>(reader.field("default"))?;
        let description = decode_optional::<String>(reader.field("description"))?;
        let extensions = reader.rest();
        Ok(ServerVariable { enum_, default, description, extensions })
    }

    fn encode(&self) -> (res: Result<Json, CodecError>) {
        let writer = ObjectWriter::new();
        let writer = writer.put("enum", encode_optional::<Vec<String>>(&self.enum_)?);
        let writer = writer.put("default", encode_required::<String>(&self.default)?);
        let writer = writer.put("description", encode_optional::<String>(&self.description)?);
        writer.finish_with(&self.extensions)
    }

    fn duplicate(&self) -> (copy: ServerVariable) {
        ServerVariable {
            enum_: duplicate_optional(&self.enum_),
            default: self.default.duplicate(),
            description: duplicate_optional(&self.description),
            extensions: self.extensions.duplicate(),
        }
    }

    proof fn lemma_round_trip(value: ServerVariableModel) {
        let names = Self::names();
        let slots = Self::slots(value);
        Self::lemma_names_distinct();
        lemma_assembled_lookup(names, slots, value.extensions, 0);
        lemma_assembled_lookup(names, slots, value.extensions, 1);
        lemma_assembled_lookup(names, slots, value.extensions, 2);
        lemma_assembled_remainder(names, slots, value.extensions);
        lemma_optional_round_trip::<Vec<String>>(value.enum_);
        lemma_required_round_trip::<String>(value.default);
        lemma_optional_round_trip::<String>(value.description);
    }

    proof fn lemma_read_is_valid(json: JsonModel) {
        let members = json->Object_0;
        let names = Self::names();
        let value = Self::decoded(json);
        let slots = Self::slots(value);
        lemma_optional_read_is_valid::<Vec<String>>(lookup(members, "enum"@));
        lemma_required_read_is_valid::<String>(lookup(members, "default"@));
        lemma_optional_read_is_valid::<String>(lookup(members, "description"@));
        lemma_remainder_unnamed(members, names);
        Self::lemma_pointer_unnamed();
        lemma_assembled_lookup_other(names, slots, value.extensions, POINTER_KEY@);
        lemma_remainder_lookup(members, names, POINTER_KEY@);
    }
}

impl Components {
    /// The keys of the named fields, in the order in which they are written.
    pub open spec fn names() -> Seq<Seq<char>> {
        Seq::empty()
            .push("schemas"@)
            .push("responses"@)
            .push("parameters"@)
            .push("examples"@)
            .push("requestBodies"@)
            .push("headers"@)
            .push("securitySchemes"@)
            .push("links"@)
            .push("callbacks"@)
    }

    /// What each named field is written as, in the order of the names.
    pub open spec fn slots(value: ComponentsModel) -> Seq<Option<JsonModel>> {
        Seq::empty()
            .push(optional_encoded::<Table<RefOrObject<Schema>>>(value.schemas))
            .push(optional_encoded::<Table<RefOrObject<Response>>>(value.responses))
            .push(optional_encoded::<Table<RefOrObject<Parameter>>>(value.parameters))
            .push(optional_encoded::<Table<RefOrObject<Example>>>(value.examples))
            .push(optional_encoded::<Table<RefOrObject<RequestBody>>>(value.request_bodies))
            .push(optional_encoded::<Table<RefOrObject<Header>>>(value.headers))
            .push(optional_encoded::<Table<RefOrObject<SecurityScheme>>>(value.security_schemes))
            .push(optional_encoded::<Table<RefOrObject<Link>>>(value.links))
            .push(optional_encoded::<Table<RefOrObject<Table<PathItem>>>>(value.callbacks))
    }

    /// No key is named twice.
    pub proof fn lemma_names_distinct()
        ensures
            Self::names().no_duplicates(),
    {
        reveal_strlit("schemas");
        reveal_strlit("responses");
        reveal_strlit("parameters");
        reveal_strlit("examples");
        reveal_strlit("requestBodies");
        reveal_strlit("headers");
        reveal_strlit("securitySchemes");
        reveal_strlit("links");
        reveal_strlit("callbacks");
        assert("schemas"@.len() == 7 && "schemas"@[0] == 's');
        assert("responses"@.len() == 9 && "responses"@[0] == 'r');
        assert("parameters"@.len() == 10);
        assert("examples"@.len() == 8);
        assert("requestBodies"@.len() == 13);
        assert("headers"@.len() == 7 && "headers"@[0] == 'h');
        assert("securitySchemes"@.len() == 15);
        assert("links"@.len() == 5);
        assert("callbacks"@.len() == 9 && "callbacks"@[0] == 'c');
    }

    /// The pointer key is none of the names.
    pub proof fn lemma_pointer_unnamed()
        ensures
            !Self::names().contains(POINTER_KEY@),
    {
        reveal_strlit("$ref");
        reveal_strlit("schemas");
        reveal_strlit("responses");
        reveal_strlit("parameters");
        reveal_strlit("examples");
        reveal_strlit("requestBodies");
        reveal_strlit("headers");
        reveal_strlit("securitySchemes");
        reveal_strlit("links");
        reveal_strlit("callbacks");
        assert("$ref"@.len() == 4);
        assert("schemas"@.len() == 7);
        assert("responses"@.len() == 9);
        assert("parameters"@.len() == 10);
        assert("examples"@.len() == 8);
        assert("requestBodies"@.len() == 13);
        assert("headers"@.len() == 7);
        assert("securitySchemes"@.len() == 15);
        assert("links"@.len() == 5);
        assert("callbacks"@.len() == 9);
    }
}

impl Clone for Components {
    fn clone(&self) -> (copy: Components)
        ensures
            copy.model() == self.model(),
    {
        self.duplicate()
    }
}

impl Codec for Components {
    type Model = ComponentsModel;

    open spec fn model(&self) -> ComponentsModel {
        ComponentsModel {
            schemas: option_model(self.schemas),
            responses: option_model(self.responses),
            parameters: option_model(self.parameters),
            examples: option_model(self.examples),
            request_bodies: option_model(self.request_bodies),
            headers: option_model(self.headers),
            security_schemes: option_model(self.security_schemes),
            links: option_model(self.links),
            callbacks: option_model(self.callbacks),
            extensions: self.extensions.model(),
        }
    }

    open spec fn fits(json: JsonModel) -> bool {
        &&& json is Object
        &&& optional_fits::<Table<RefOrObject<Schema>>>(lookup(json->Object_0, "schemas"@))
        &&& optional_fits::<Table<RefOrObject<Response>>>(lookup(json->Object_0, "responses"@))
        &&& optional_fits::<Table<RefOrObject<Parameter>>>(lookup(json->Object_0, "parameters"@))
        &&& optional_fits::<Table<RefOrObject<Example>>>(lookup(json->Object_0, "examples"@))
        &&& optional_fits::<Table<RefOrObject<RequestBody>>>(lookup(json->Object_0, "requestBodies"@))
        &&& optional_fits::<Table<RefOrObject<Header>>>(lookup(json->Object_0, "headers"@))
        &&& optional_fits::<Table<RefOrObject<SecurityScheme>>>(lookup(json->Object_0, "securitySchemes"@))
        &&& optional_fits::<Table<RefOrObject<Link>>>(lookup(json->Object_0, "links"@))
        &&& optional_fits::<Table<RefOrObject<Table<PathItem>>>>(lookup(json->Object_0, "callbacks"@))
    }

    open spec fn decoded(json: JsonModel) -> ComponentsModel {
        ComponentsModel {
            schemas: optional_decoded::<Table<RefOrObject<Schema>>>(lookup(json->Object_0, "schemas"@)),
            responses: optional_decoded::<Table<RefOrObject<Response>>>(lookup(json->Object_0, "responses"@)),
            parameters: optional_decoded::<Table<RefOrObject<Parameter>>>(lookup(json->Object_0, "parameters"@)),
            examples: optional_decoded::<Table<RefOrObject<Example>>>(lookup(json->Object_0, "examples"@)),
            request_bodies: optional_decoded::<Table<RefOrObject<RequestBody>>>(lookup(json->Object_0, "requestBodies"@)),
            headers: optional_decoded::<Table<RefOrObject<Header>>>(lookup(json->Object_0, "headers"@)),
            security_schemes: optional_decoded::<Table<RefOrObject<SecurityScheme>>>(lookup(json->Object_0, "securitySchemes"@)),
            links: optional_decoded::<Table<RefOrObject<Link>>>(lookup(json->Object_0, "links"@)),
            callbacks: optional_decoded::<Table<RefOrObject<Table<PathItem>>>>(lookup(json->Object_0, "callbacks"@)),
            extensions: remainder(json->Object_0, Self::names()),
        }
    }

    open spec fn encodable(value: ComponentsModel) -> bool {
        &&& optional_encodable::<Table<RefOrObject<Schema>>>(value.schemas)
        &&& optional_encodable::<Table<RefOrObject<Response>>>(value.responses)
        &&& optional_encodable::<Table<RefOrObject<Parameter>>>(value.parameters)
        &&& optional_encodable::<Table<RefOrObject<Example>>>(value.examples)
        &&& optional_encodable::<Table<RefOrObject<RequestBody>>>(value.request_bodies)
        &&& optional_encodable::<Table<RefOrObject<Header>>>(value.headers)
        &&& optional_encodable::<Table<RefOrObject<SecurityScheme>>>(value.security_schemes)
        &&& optional_encodable::<Table<RefOrObject<Link>>>(value.links)
        &&& optional_encodable::<Table<RefOrObject<Table<PathItem>>>>(value.callbacks)
        &&& !collides(Self::names(), value.extensions)
    }

    open spec fn valid(value: ComponentsModel) -> bool {
        &&& optional_valid::<Table<RefOrObject<Schema>>>(value.schemas)
        &&& optional_valid::<Table<RefOrObject<Response>>>(value.responses)
        &&& optional_valid::<Table<RefOrObject<Parameter>>>(value.parameters)
        &&& optional_valid::<Table<RefOrObject<Example>>>(value.examples)
        &&& optional_valid::<Table<RefOrObject<RequestBody>>>(value.request_bodies)
        &&& optional_valid::<Table<RefOrObject<Header>>>(value.headers)
        &&& optional_valid::<Table<RefOrObject<SecurityScheme>>>(value.security_schemes)
        &&& optional_valid::<Table<RefOrObject<Link>>>(value.links)
        &&& optional_valid::<Table<RefOrObject<Table<PathItem>>>>(value.callbacks)
        &&& !collides(Self::names(), value.extensions)
    }

    open spec fn encoded(value: ComponentsModel) -> JsonModel {
        JsonModel::Object(assembled(Self::names(), Self::slots(value), value.extensions))
    }

    fn decode(json: &Json) -> (res: Result<Components, CodecError>) {
        let members = match json {
            Json::Object(members) => members,
            _ => {
                return Err(CodecError::ShapeMismatch);
            },
        };
        let mut reader = ObjectReader::new(members);
        let schemas = decode_optional::<Table<RefOrObject<Schema>>>(reader.field("schemas"))?;
        let responses = decode_optional::<Table<RefOrObject<Response>>>(reader.field("responses"))?;
        let parameters = decode_optional::<Table<RefOrObject<Parameter>>>(reader.field("parameters"))?;
        let examples = decode_optional::<Table<RefOrObject<Example>>>(reader.field("examples"))?;
        let request_bodies = decode_optional::<Table<RefOrObject<RequestBody>>>(reader.field("requestBodies"))?;
        let headers = decode_optional::<Table<RefOrObject<Header>>>(reader.field("headers"))?;
        let security_schemes = decode_optional::<Table<RefOrObject<SecurityScheme>>>(reader.field("securitySchemes"))?;
        let links = decode_optional::<Table<RefOrObject<Link>>>(reader.field("links"))?;
        let callbacks = decode_optional::<Table<RefOrObject<Table<PathItem>>>>(reader.field("callbacks"))?;
        let extensions = reader.rest();
        Ok(Components { schemas, responses, parameters, examples, request_bodies, headers, security_schemes, links, callbacks, extensions })
    }

    fn encode(&self) -> (res: Result<Json, CodecError>) {
        let writer = ObjectWriter::new();
        let writer = writer.put("schemas", encode_optional::<Table<RefOrObject<Schema>>>(&self.schemas)?);
        let writer = writer.put("responses", encode_optional::<Table<RefOrObject<Response>>>(&self.responses)?);
        let writer = writer.put("parameters", encode_optional::<Table<RefOrObject<Parameter>>>(&self.parameters)?);
        let writer = writer.put("examples", encode_optional::<Table<RefOrObject<Example>>>(&self.examples)?);
        let writer = writer.put("requestBodies", encode_optional::<Table<RefOrObject<RequestBody>>>(&self.request_bodies)?);
        let writer = writer.put("headers", encode_optional::<Table<RefOrObject<Header>>>(&self.headers)?);
        let writer = writer.put("securitySchemes", encode_optional::<Table<RefOrObject<SecurityScheme>>>(&self.security_schemes)?);
        let writer = writer.put("links", encode_optional::<Table<RefOrObject<Link>>>(&self.links)?);
        let writer = writer.put("callbacks", encode_optional::<Table<RefOrObject<Table<PathItem>>>>(&self.callbacks)?);
        writer.finish_with(&self.extensions)
    }

    fn duplicate(&self) -> (copy: Components) {
        Components {
            schemas: duplicate_optional(&self.schemas),
            responses: duplicate_optional(&self.responses),
            parameters: duplicate_optional(&self.parameters),
            examples: duplicate_optional(&self.examples),
            request_bodies: duplicate_optional(&self.request_bodies),
            headers: duplicate_optional(&self.headers),
            security_schemes: duplicate_optional(&self.security_schemes),
            links: duplicate_optional(&self.links),
            callbacks: duplicate_optional(&self.callbacks),
            extensions: self.extensions.duplicate(),
        }
    }

    proof fn lemma_round_trip(value: ComponentsModel) {
        let names = Self::names();
        let slots = Self::slots(value);
        Self::lemma_names_distinct();
        lemma_assembled_lookup(names, slots, value.extensions, 0);
        lemma_assembled_lookup(names, slots, value.extensions, 1);
        lemma_assembled_lookup(names, slots, value.extensions, 2);
        lemma_assembled_lookup(names, slots, value.extensions, 3);
        lemma_assembled_lookup(names, slots, value.extensions, 4);
        lemma_assembled_lookup(names, slots, value.extensions, 5);
        lemma_assembled_lookup(names, slots, value.extensions, 6);
        lemma_assembled_lookup(names, slots, value.extensions, 7);
        lemma_assembled_lookup(names, slots, value.extensions, 8);
        lemma_assembled_remainder(names, slots, value.extensions);
        lemma_optional_round_trip::<Table<RefOrObject<Schema>>>(value.schemas);
        lemma_optional_round_trip::<Table<RefOrObject<Response>>>(value.responses);
        lemma_optional_round_trip::<Table<RefOrObject<Parameter>>>(value.parameters);
        lemma_optional_round_trip::<Table<RefOrObject<Example>>>(value.examples);
        lemma_optional_round_trip::<Table<RefOrObject<RequestBody>>>(value.request_bodies);
        lemma_optional_round_trip::<Table<RefOrObject<Header>>>(value.headers);
        lemma_optional_round_trip::<Table<RefOrObject<SecurityScheme>>>(value.security_schemes);
        lemma_optional_round_trip::<Table<RefOrObject<Link>>>(value.links);
        lemma_optional_round_trip::<Table<RefOrObject<Table<PathItem>>>>(value.callbacks);
    }

    proof fn lemma_read_is_valid(json: JsonModel) {
        let members = json->Object_0;
        let names = Self::names();
        let value = Self::decoded(json);
        let slots = Self::slots(value);
        lemma_optional_read_is_valid::<Table<RefOrObject<Schema>>>(lookup(members, "schemas"@));
        lemma_optional_read_is_valid::<Table<RefOrObject<Response>>>(lookup(members, "responses"@));
        lemma_optional_read_is_valid::<Table<RefOrObject<Parameter>>>(lookup(members, "parameters"@));
        lemma_optional_read_is_valid::<Table<RefOrObject<Example>>>(lookup(members, "examples"@));
        lemma_optional_read_is_valid::<Table<RefOrObject<RequestBody>>>(lookup(members, "requestBodies"@));
        lemma_optional_read_is_valid::<Table<RefOrObject<Header>>>(lookup(members, "headers"@));
        lemma_optional_read_is_valid::<Table<RefOrObject<SecurityScheme>>>(lookup(members, "securitySchemes"@));
        lemma_optional_read_is_valid::<Table<RefOrObject<Link>>>(lookup(members, "links"@));
        lemma_optional_read_is_valid::<Table<RefOrObject<Table<PathItem>>>>(lookup(members, "callbacks"@));
        lemma_remainder_unnamed(members, names);
        Self::lemma_pointer_unnamed();
        lemma_assembled_lookup_other(names, slots, value.extensions, POINTER_KEY@);
        lemma_remainder_lookup(members, names, POINTER_KEY@);
    }
}

impl ExternalDoc {
    /// The keys of the named fields, in the order in which they are written.
    pub open spec fn names() -> Seq<Seq<char>> {
        Seq::empty()
            .push("description"@)
            .push("url"@)
    }

    /// What each named field is written as, in the order of the names.
    pub open spec fn slots(value: ExternalDocModel) -> Seq<Option<JsonModel>> {
        Seq::empty()
            .push(optional_encoded::<String>(value.description))
            .push(required_encoded::<String>(value.url))
    }

    /// No key is named twice.
    pub proof fn lemma_names_distinct()
        ensures
            Self::names().no_duplicates(),
    {
        reveal_strlit("description");
        reveal_strlit("url");
        assert("description"@.len() == 11);
        assert("url"@.len() == 3);
    }

    /// The pointer key is none of the names.
    pub proof fn lemma_pointer_unnamed()
        ensures
            !Self::names().contains(POINTER_KEY@),
    {
        reveal_strlit("$ref");
        reveal_strlit("description");
        reveal_strlit("url");
        assert("$ref"@.len() == 4);
        assert("description"@.len() == 11);
        assert("url"@.len() == 3);
    }
}

impl Clone for ExternalDoc {
    fn clone(&self) -> (copy: ExternalDoc)
        ensures
            copy.model() == self.model(),
    {
        self.duplicate()
    }
}

impl Codec for ExternalDoc {
    type Model = ExternalDocModel;

    open spec fn model(&self) -> ExternalDocModel {
        ExternalDocModel {
            description: option_model(self.description),
            url: self.url.model(),
            extensions: self.extensions.model(),
        }
    }

    open spec fn fits(json: JsonModel) -> bool {
        &&& json is Object
        &&& optional_fits::<String>(lookup(json->Object_0, "description"@))
        &&& required_fits::<String>(lookup(json->Object_0, "url"@))
    }

    open spec fn decoded(json: JsonModel) -> ExternalDocModel {
        ExternalDocModel {
            description: optional_decoded::<String>(lookup(json->Object_0, "description"@)),
            url: required_decoded::<String>(lookup(json->Object_0, "url"@)),
            extensions: remainder(json->Object_0, Self::names()),
        }
    }

    open spec fn encodable(value: ExternalDocModel) -> bool {
        &&& optional_encodable::<String>(value.description)
        &&& required_encodable::<String>(value.url)
        &&& !collides(Self::names(), value.extensions)
    }

    open spec fn valid(value: ExternalDocModel) -> bool {
        &&& optional_valid::<String>(value.description)
        &&& required_valid::<String>(value.url)
        &&& !collides(Self::names(), value.extensions)
    }

    open spec fn encoded(value: ExternalDocModel) -> JsonModel {
        JsonModel::Object(assembled(Self::names(), Self::slots(value), value.extensions))
    }

    fn decode(json: &Json) -> (res: Result<ExternalDoc, CodecError>) {
        let members = match json {
            Json::Object(members) => members,
            _ => {
                return Err(CodecError::ShapeMismatch);
            },
        };
        let mut reader = ObjectReader::new(members);
        let description = decode_optional::<String>(reader.field("description"))?;
        let url = decode_required::<String>(reader.field("url"))?;
        let extensions = reader.rest();
        Ok(ExternalDoc { description, url, extensions })
    }

    fn encode(&self) -> (res: Result<Json, CodecError>) {
        let writer = ObjectWriter::new();
        let writer = writer.put("description", encode_optional::<String>(&self.description)?);
        let writer = writer.put("url", encode_required::<String>(&self.url)?);
        writer.finish_with(&self.extensions)
    }

    fn duplicate(&self) -> (copy: ExternalDoc) {
        ExternalDoc {
            description: duplicate_optional(&self.description),
            url: self.url.duplicate(),
            extensions: self.extensions.duplicate(),
        }
    }

    proof fn lemma_round_trip(value: ExternalDocModel) {
        let names = Self::names();
        let slots = Self::slots(value);
        Self::lemma_names_distinct();
        lemma_assembled_lookup(names, slots, value.extensions, 0);
        lemma_assembled_lookup(names, slots, value.extensions, 1);
        lemma_assembled_remainder(names, slots, value.extensions);
        lemma_optional_round_trip::<String>(value.description);
        lemma_required_round_trip::<String>(value.url);
    }

    proof fn lemma_read_is_valid(json: JsonModel) {
        let members = json->Object_0;
        let names = Self::names();
        let value = Self::decoded(json);
        let slots = Self::slots(value);
        lemma_optional_read_is_valid::<String>(lookup(members, "description"@));
        lemma_required_read_is_valid::<String>(lookup(members, "url"@));
        lemma_remainder_unnamed(members, names);
        Self::lemma_pointer_unnamed();
        lemma_assembled_lookup_other(names, slots, value.extensions, POINTER_KEY@);
        lemma_remainder_lookup(members, names, POINTER_KEY@);
    }
}

impl Parameter {
    /// The keys of the named fields, in the order in which they are written.
    pub open spec fn names() -> Seq<Seq<char>> {
        Seq::empty()
            .push("name"@)
            .push("in"@)
            .push("description"@)
            .push("required"@)
            .push("deprecated"@)
            .push("allowEmptyValue"@)
            .push("style"@)
            .push("explode"@)
            .push("allowReserved"@)
            .push("schema"@)
            .push("example"@)
            .push("examples"@)
            .push("content"@)
    }

    /// What each named field is written as, in the order of the names.
    pub open spec fn slots(value: ParameterModel) -> Seq<Option<JsonModel>> {
        Seq::empty()
            .push(required_encoded::<String>(value.name))
            .push(required_encoded::<String>(value.in_))
            .push(optional_encoded::<String>(value.description))
            .push(optional_encoded::<bool>(value.required))
            .push(optional_encoded::<bool>(value.deprecated))
            .push(optional_encoded::<bool>(value.allow_empty_value))
            .push(optional_encoded::<String>(value.style))
            .push(optional_encoded::<bool>(value.explode))
            .push(optional_encoded::<bool>(value.allow_reserved))
            .push(optional_encoded::<RefOrObject<Schema>>(value.schema))
            .push(optional_encoded::<Json>(value.example))
            .push(optional_encoded::<Table<RefOrObject<Example>>>(value.examples))
            .push(optional_encoded::<Table<Media>>(value.content))
    }

    /// No key is named twice.
    pub proof fn lemma_names_distinct()
        ensures
            Self::names().no_duplicates(),
    {
        reveal_strlit("name");
        reveal_strlit("in");
        reveal_strlit("description");
        reveal_strlit("required");
        reveal_strlit("deprecated");
        reveal_strlit("allowEmptyValue");
        reveal_strlit("style");
        reveal_strlit("explode");
        reveal_strlit("allowReserved");
        reveal_strlit("schema");
        reveal_strlit("example");
        reveal_strlit("examples");
        reveal_strlit("content");
        assert("name"@.len() == 4);
        assert("in"@.len() == 2);
        assert("description"@.len() == 11);
        assert("required"@.len() == 8 && "required"@[0] == 'r');
        assert("deprecated"@.len() == 10);
        assert("allowEmptyValue"@.len() == 15);
        assert("style"@.len() == 5);
        assert("explode"@.len() == 7 && "explode"@[0] == 'e' && "explode"@[2] == 'p');
        assert("allowReserved"@.len() == 13);
        assert("schema"@.len() == 6);
        assert("example"@.len() == 7 && "example"@[0] == 'e' && "example"@[2] == 'a');
        assert("examples"@.len() == 8 && "examples"@[0] == 'e');
        assert("content"@.len() == 7 && "content"@[0] == 'c');
    }

    /// The pointer key is none of the names.
    pub proof fn lemma_pointer_unnamed()
        ensures
            !Self::names().contains(POINTER_KEY@),
    {
        reveal_strlit("$ref");
        reveal_strlit("name");
        reveal_strlit("in");
        reveal_strlit("description");
        reveal_strlit("required");
        reveal_strlit("deprecated");
        reveal_strlit("allowEmptyValue");
        reveal_strlit("style");
        reveal_strlit("explode");
        reveal_strlit("allowReserved");
        reveal_strlit("schema");
        reveal_strlit("example");
        reveal_strlit("examples");
        reveal_strlit("content");
        assert("$ref"@.len() == 4 && "$ref"@[0] == '$');
        assert("name"@.len() == 4 && "name"@[0] == 'n');
        assert("in"@.len() == 2);
        assert("description"@.len() == 11);
        assert("required"@.len() == 8);
        assert("deprecated"@.len() == 10);
        assert("allowEmptyValue"@.len() == 15);
        assert("style"@.len() == 5);
        assert("explode"@.len() == 7);
        assert("allowReserved"@.len() == 13);
        assert("schema"@.len() == 6);
        assert("example"@.len() == 7);
        assert("examples"@.len() == 8);
        assert("content"@.len() == 7);
    }
}

impl Clone for Parameter {
    fn clone(&self) -> (copy: Parameter)
        ensures
            copy.model() == self.model(),
    {
        self.duplicate()
    }
}

impl Codec for Parameter {
    type Model = ParameterModel;

    open spec fn model(&self) -> ParameterModel {
        ParameterModel {
            name: self.name.model(),
            in_: self.in_.model(),
            description: option_model(self.description),
            required: option_model(self.required),
            deprecated: option_model(self.deprecated),
            allow_empty_value: option_model(self.allow_empty_value),
            style: option_model(self.style),
            explode: option_model(self.explode),
            allow_reserved: option_model(self.allow_reserved),
            schema: option_model(self.schema),
            example: option_model(self.example),
            examples: option_model(self.examples),
            content: option_model(self.content),
            extensions: self.extensions.model(),
        }
    }

    open spec fn fits(json: JsonModel) -> bool {
        &&& json is Object
        &&& required_fits::<String>(lookup(json->Object_0, "name"@))
        &&& required_fits::<String>(lookup(json->Object_0, "in"@))
        &&& optional_fits::<String>(lookup(json->Object_0, "description"@))
        &&& optional_fits::<bool>(lookup(json->Object_0, "required"@))
        &&& optional_fits::<bool>(lookup(json->Object_0, "deprecated"@))
        &&& optional_fits::<bool>(lookup(json->Object_0, "allowEmptyValue"@))
        &&& optional_fits::<String>(lookup(json->Object_0, "style"@))
        &&& optional_fits::<bool>(lookup(json->Object_0, "explode"@))
        &&& optional_fits::<bool>(lookup(json->Object_0, "allowReserved"@))
        &&& optional_fits::<RefOrObject<Schema>>(lookup(json->Object_0, "schema"@))
        &&& optional_fits::<Json>(lookup(json->Object_0, "example"@))
        &&& optional_fits::<Table<RefOrObject<Example>>>(lookup(json->Object_0, "examples"@))
        &&& optional_fits::<Table<Media>>(lookup(json->Object_0, "content"@))
    }

    open spec fn decoded(json: JsonModel) -> ParameterModel {
        ParameterModel {
            name: required_decoded::<String>(lookup(json->Object_0, "name"@)),
            in_: required_decoded::<String>(lookup(json->Object_0, "in"@)),
            description: optional_decoded::<String>(lookup(json->Object_0, "description"@)),
            required: optional_decoded::<bool>(lookup(json->Object_0, "required"@)),
            deprecated: optional_decoded::<bool>(lookup(json->Object_0, "deprecated"@)),
            allow_empty_value: optional_decoded::<bool>(lookup(json->Object_0, "allowEmptyValue"@)),
            style: optional_decoded::<String>(lookup(json->Object_0, "style"@)),
            explode: optional_decoded::<bool>(lookup(json->Object_0, "explode"@)),
            allow_reserved: optional_decoded::<bool>(lookup(json->Object_0, "allowReserved"@)),
            schema: optional_decoded::<RefOrObject<Schema>>(lookup(json->Object_0, "schema"@)),
            example: optional_decoded::<Json>(lookup(json->Object_0, "example"@)),
            examples: optional_decoded::<Table<RefOrObject<Example>>>(lookup(json->Object_0, "examples"@)),
            content: optional_decoded::<Table<Media>>(lookup(json->Object_0, "content"@)),
            extensions: remainder(json->Object_0, Self::names()),
        }
    }

    open spec fn encodable(value: ParameterModel) -> bool {
        &&& required_encodable::<String>(value.name)
        &&& required_encodable::<String>(value.in_)
        &&& optional_encodable::<String>(value.description)
        &&& optional_encodable::<bool>(value.required)
        &&& optional_encodable::<bool>(value.deprecated)
        &&& optional_encodable::<bool>(value.allow_empty_value)
        &&& optional_encodable::<String>(value.style)
        &&& optional_encodable::<bool>(value.explode)
        &&& optional_encodable::<bool>(value.allow_reserved)
        &&& optional_encodable::<RefOrObject<Schema>>(value.schema)
        &&& optional_encodable::<Json>(value.example)
        &&& optional_encodable::<Table<RefOrObject<Example>>>(value.examples)
        &&& optional_encodable::<Table<Media>>(value.content)
        &&& !collides(Self::names(), value.extensions)
    }

    open spec fn valid(value: ParameterModel) -> bool {
        &&& required_valid::<String>(value.name)
        &&& required_valid::<String>(value.in_)
        &&& optional_valid::<String>(value.description)
        &&& optional_valid::<bool>(value.required)
        &&& optional_valid::<bool>(value.deprecated)
        &&& optional_valid::<bool>(value.allow_empty_value)
        &&& optional_valid::<String>(value.style)
        &&& optional_valid::<bool>(value.explode)
        &&& optional_valid::<bool>(value.allow_reserved)
        &&& optional_valid::<RefOrObject<Schema>>(value.schema)
        &&& optional_valid::<Json>(value.example)
        &&& optional_valid::<Table<RefOrObject<Example>>>(value.examples)
        &&& optional_valid::<Table<Media>>(value.content)
        &&& !collides(Self::names(), value.extensions)
    }

    open spec fn encoded(value: ParameterModel) -> JsonModel {
        JsonModel::Object(assembled(Self::names(), Self::slots(value), value.extensions))
    }

    fn decode(json: &Json) -> (res: Result<Parameter, CodecError>) {
        let members = match json {
            Json::Object(members) => members,
            _ => {
                return Err(CodecError::ShapeMismatch);
            },
        };
        let mut reader = ObjectReader::new(members);
        let name = decode_required::<String>(reader.field("name"))?;
        let in_ = decode_required::<String>(reader.field("in"))?;
        let description = decode_optional::<String>(reader.field("description"))?;
        let required = decode_optional::<bool>(reader.field("required"))?;
        let deprecated = decode_optional::<bool>(reader.field("deprecated"))?;
        let allow_empty_value = decode_optional::<bool>(reader.field("allowEmptyValue"))?;
        let style = decode_optional::<String>(reader.field("style"))?;
        let explode = decode_optional::<bool>(reader.field("explode"))?;
        let allow_reserved = decode_optional::<bool>(reader.field("allowReserved"))?;
        let schema = decode_optional::<RefOrObject<Schema>>(reader.field("schema"))?;
        let example = decode_optional::<Json>(reader.field("example"))?;
        let examples = decode_optional::<Table<RefOrObject<Example>>>(reader.field("examples"))?;
        let content = decode_optional::<Table<Media>>(reader.field("content"))?;
        let extensions = reader.rest();
        Ok(Parameter { name, in_, description, required, deprecated, allow_empty_value, style, explode, allow_reserved, schema, example, examples, content, extensions })
    }

    fn encode(&self) -> (res: Result<Json, CodecError>) {
        let writer = ObjectWriter::new();
        let writer = writer.put("name", encode_required::<String>(&self.name)?);
        let writer = writer.put("in", encode_required::<String>(&self.in_)?);
        let writer = writer.put("description", encode_optional::<String>(&self.description)?);
        let writer = writer.put("required", encode_optional::<bool>(&self.required)?);
        let writer = writer.put("deprecated", encode_optional::<bool>(&self.deprecated)?);
        let writer = writer.put("allowEmptyValue", encode_optional::<bool>(&self.allow_empty_value)?);
        let writer = writer.put("style", encode_optional::<String>(&self.style)?);
        let writer = writer.put("explode", encode_optional::<bool>(&self.explode)?);
        let writer = writer.put("allowReserved", encode_optional::<bool>(&self.allow_reserved)?);
        let writer = writer.put("schema", encode_optional::<RefOrObject<Schema>>(&self.schema)?);
        let writer = writer.put("example", encode_optional::<Json>(&self.example)?);
        let writer = writer.put("examples", encode_optional::<Table<RefOrObject<Example>>>(&self.examples)?);
        let writer = writer.put("content", encode_optional::<Table<Media>>(&self.content)?);
        writer.finish_with(&self.extensions)
    }

    fn duplicate(&self) -> (copy: Parameter) {
        Parameter {
            name: self.name.duplicate(),
            in_: self.in_.duplicate(),
            description: duplicate_optional(&self.description),
            required: duplicate_optional(&self.required),
            deprecated: duplicate_optional(&self.deprecated),
            allow_empty_value: duplicate_optional(&self.allow_empty_value),
            style: duplicate_optional(&self.style),
            explode: duplicate_optional(&self.explode),
            allow_reserved: duplicate_optional(&self.allow_reserved),
            schema: duplicate_optional(&self.schema),
            example: duplicate_optional(&self.example),
            examples: duplicate_optional(&self.examples),
            content: duplicate_optional(&self.content),
            extensions: self.extensions.duplicate(),
        }
    }

    proof fn lemma_round_trip(value: ParameterModel) {
        let names = Self::names();
        let slots = Self::slots(value);
        Self::lemma_names_distinct();
        lemma_assembled_lookup(names, slots, value.extensions, 0);
        lemma_assembled_lookup(names, slots, value.extensions, 1);
        lemma_assembled_lookup(names, slots, value.extensions, 2);
        lemma_assembled_lookup(names, slots, value.extensions, 3);
        lemma_assembled_lookup(names, slots, value.extensions, 4);
        lemma_assembled_lookup(names, slots, value.extensions, 5);
        lemma_assembled_lookup(names, slots, value.extensions, 6);
        lemma_assembled_lookup(names, slots, value.extensions, 7);
        lemma_assembled_lookup(names, slots, value.extensions, 8);
        lemma_assembled_lookup(names, slots, value.extensions, 9);
        lemma_assembled_lookup(names, slots, value.extensions, 10);
        lemma_assembled_lookup(names, slots, value.extensions, 11);
        lemma_assembled_lookup(names, slots, value.extensions, 12);
        lemma_assembled_remainder(names, slots, value.extensions);
        lemma_required_round_trip::<String>(value.name);
        lemma_required_round_trip::<String>(value.in_);
        lemma_optional_round_trip::<String>(value.description);
        lemma_optional_round_trip::<bool>(value.required);
        lemma_optional_round_trip::<bool>(value.deprecated);
        lemma_optional_round_trip::<bool>(value.allow_empty_value);
        lemma_optional_round_trip::<String>(value.style);
        lemma_optional_round_trip::<bool>(value.explode);
        lemma_optional_round_trip::<bool>(value.allow_reserved);
        lemma_optional_round_trip::<RefOrObject<Schema>>(value.schema);
        lemma_optional_round_trip::<Json>(value.example);
        lemma_optional_round_trip::<Table<RefOrObject<Example>>>(value.examples);
        lemma_optional_round_trip::<Table<Media>>(value.content);
    }

    proof fn lemma_read_is_valid(json: JsonModel) {
        let members = json->Object_0;
        let names = Self::names();
        let value = Self::decoded(json);
        let slots = Self::slots(value);
        lemma_required_read_is_valid::<String>(lookup(members, "name"@));
        lemma_required_read_is_valid::<String>(lookup(members, "in"@));
        lemma_optional_read_is_valid::<String>(lookup(members, "description"@));
        lemma_optional_read_is_valid::<bool>(lookup(members, "required"@));
        lemma_optional_read_is_valid::<bool>(lookup(members, "deprecated"@));
        lemma_optional_read_is_valid::<bool>(lookup(members, "allowEmptyValue"@));
        lemma_optional_read_is_valid::<String>(lookup(members, "style"@));
        lemma_optional_read_is_valid::<bool>(lookup(members, "explode"@));
        lemma_optional_read_is_valid::<bool>(lookup(members, "allowReserved"@));
        lemma_optional_read_is_valid::<RefOrObject<Schema>>(lookup(members, "schema"@));
        lemma_optional_read_is_valid::<Json>(lookup(members, "example"@));
        lemma_optional_read_is_valid::<Table<RefOrObject<Example>>>(lookup(members, "examples"@));
        lemma_optional_read_is_valid::<Table<Media>>(lookup(members, "content"@));
        lemma_remainder_unnamed(members, names);
        Self::lemma_pointer_unnamed();
        lemma_assembled_lookup_other(names, slots, value.extensions, POINTER_KEY@);
        lemma_remainder_lookup(members, names, POINTER_KEY@);
    }
}

impl RequestBody {
    /// The keys of the named fields, in the order in which they are written.
    pub open spec fn names() -> Seq<Seq<char>> {
        Seq::empty()
            .push("description"@)
            .push("content"@)
            .push("required"@)
    }

    /// What each named field is written as, in the order of the names.
    pub open spec fn slots(value: RequestBodyModel) -> Seq<Option<JsonModel>> {
        Seq::empty()
            .push(optional_encoded::<String>(value.description))
            .push(required_encoded::<Table<Media>>(value.content))
            .push(optional_encoded::<bool>(value.required))
    }

    /// No key is named twice.
    pub proof fn lemma_names_distinct()
        ensures
            Self::names().no_duplicates(),
    {
        reveal_strlit("description");
        reveal_strlit("content");
        reveal_strlit("required");
        assert("description"@.len() == 11);
        assert("content"@.len() == 7);
        assert("required"@.len() == 8);
    }

    /// The pointer key is none of the names.
    pub proof fn lemma_pointer_unnamed()
        ensures
            !Self::names().contains(POINTER_KEY@),
    {
        reveal_strlit("$ref");
        reveal_strlit("description");
        reveal_strlit("content");
        reveal_strlit("required");
        assert("$ref"@.len() == 4);
        assert("description"@.len() == 11);
        assert("content"@.len() == 7);
        assert("required"@.len() == 8);
    }
}

impl Clone for RequestBody {
    fn clone(&self) -> (copy: RequestBody)
        ensures
            copy.model() == self.model(),
    {
        self.duplicate()
    }
}

impl Codec for RequestBody {
    type Model = RequestBodyModel;

    open spec fn model(&self) -> RequestBodyModel {
        RequestBodyModel {
            description: option_model(self.description),
            content: self.content.model(),
            required: option_model(self.required),
            extensions: self.extensions.model(),
        }
    }

    open spec fn fits(json: JsonModel) -> bool {
        &&& json is Object
        &&& optional_fits::<String>(lookup(json->Object_0, "description"@))
        &&& required_fits::<Table<Media>>(lookup(json->Object_0, "content"@))
        &&& optional_fits::<bool>(lookup(json->Object_0, "required"@))
    }

    open spec fn decoded(json: JsonModel) -> RequestBodyModel {
        RequestBodyModel {
            description: optional_decoded::<String>(lookup(json->Object_0, "description"@)),
            content: required_decoded::<Table<Media>>(lookup(json->Object_0, "content"@)),
            required: optional_decoded::<bool>(lookup(json->Object_0, "required"@)),
            extensions: remainder(json->Object_0, Self::names()),
        }
    }

    open spec fn encodable(value: RequestBodyModel) -> bool {
        &&& optional_encodable::<String>(value.description)
        &&& required_encodable::<Table<Media>>(value.content)
        &&& optional_encodable::<bool>(value.required)
        &&& !collides(Self::names(), value.extensions)
    }

    open spec fn valid(value: RequestBodyModel) -> bool {
        &&& optional_valid::<String>(value.description)
        &&& required_valid::<Table<Media>>(value.content)
        &&& optional_valid::<bool>(value.required)
        &&& !collides(Self::names(), value.extensions)
    }

    open spec fn encoded(value: RequestBodyModel) -> JsonModel {
        JsonModel::Object(assembled(Self::names(), Self::slots(value), value.extensions))
    }

    fn decode(json: &Json) -> (res: Result<RequestBody, CodecError>) {
        let members = match json {
            Json::Object(members) => members,
            _ => {
                return Err(CodecError::ShapeMismatch);
            },
        };
        let mut reader = ObjectReader::new(members);
        let description = decode_optional::<String>(reader.field("description"))?;
        let content = decode_required::<Table<Media>>(reader.field("content"))?;
        let required = decode_optional::<bool>(reader.field("required"))?;
        let extensions = reader.rest();
        Ok(RequestBody { description, content, required, extensions })
    }

    fn encode(&self) -> (res: Result<Json, CodecError>) {
        let writer = ObjectWriter::new();
        let writer = writer.put("description", encode_optional::<String>(&self.description)?);
        let writer = writer.put("content", encode_required::<Table<Media>>(&self.content)?);
        let writer = writer.put("required", encode_optional::<bool>(&self.required)?);
        writer.finish_with(&self.extensions)
    }

    fn duplicate(&self) -> (copy: RequestBody) {
        RequestBody {
            description: duplicate_optional(&self.description),
            content: self.content.duplicate(),
            required: duplicate_optional(&self.required),
            extensions: self.extensions.duplicate(),
        }
    }

    proof fn lemma_round_trip(value: RequestBodyModel) {
        let names = Self::names();
        let slots = Self::slots(value);
        Self::lemma_names_distinct();
        lemma_assembled_lookup(names, slots, value.extensions, 0);
        lemma_assembled_lookup(names, slots, value.extensions, 1);
        lemma_assembled_lookup(names, slots, value.extensions, 2);
        lemma_assembled_remainder(names, slots, value.extensions);
        lemma_optional_round_trip::<String>(value.description);
        lemma_required_round_trip::<Table<Media>>(value.content);
        lemma_optional_round_trip::<bool>(value.required);
    }

    proof fn lemma_read_is_valid(json: JsonModel) {
        let members = json->Object_0;
        let names = Self::names();
        let value = Self::decoded(json);
        let slots = Self::slots(value);
        lemma_optional_read_is_valid::<String>(lookup(members, "description"@));
        lemma_required_read_is_valid::<Table<Media>>(lookup(members, "content"@));
        lemma_optional_read_is_valid::<bool>(lookup(members, "required"@));
        lemma_remainder_unnamed(members, names);
        Self::lemma_pointer_unnamed();
        lemma_assembled_lookup_other(names, slots, value.extensions, POINTER_KEY@);
        lemma_remainder_lookup(members, names, POINTER_KEY@);
    }
}

impl Response {
    /// The keys of the named fields, in the order in which they are written.
    pub open spec fn names() -> Seq<Seq<char>> {
        Seq::empty()
            .push("description"@)
            .push("headers"@)
            .push("content"@)
            .push("links"@)
    }

    /// What each named field is written as, in the order of the names.
    pub open spec fn slots(value: ResponseModel) -> Seq<Option<JsonModel>> {
        Seq::empty()
            .push(required_encoded::<String>(value.description))
            .push(optional_encoded::<Table<RefOrObject<Header>>>(value.headers))
            .push(optional_encoded::<Table<Media>>(value.content))
            .push(optional_encoded::<Table<RefOrObject<Link>>>(value.links))
    }

    /// No key is named twice.
    pub proof fn lemma_names_distinct()
        ensures
            Self::names().no_duplicates(),
    {
        reveal_strlit("description");
        reveal_strlit("headers");
        reveal_strlit("content");
        reveal_strlit("links");
        assert("description"@.len() == 11);
        assert("headers"@.len() == 7 && "headers"@[0] == 'h');
        assert("content"@.len() == 7 && "content"@[0] == 'c');
        assert("links"@.len() == 5);
    }

    /// The pointer key is none of the names.
    pub proof fn lemma_pointer_unnamed()
        ensures
            !Self::names().contains(POINTER_KEY@),
    {
        reveal_strlit("$ref");
        reveal_strlit("description");
        reveal_strlit("headers");
        reveal_strlit("content");
        reveal_strlit("links");
        assert("$ref"@.len() == 4);
        assert("description"@.len() == 11);
        assert("headers"@.len() == 7);
        assert("content"@.len() == 7);
        assert("links"@.len() == 5);
    }
}

impl Clone for Response {
    fn clone(&self) -> (copy: Response)
        ensures
            copy.model() == self.model(),
    {
        self.duplicate()
    }
}

impl Codec for Response {
    type Model = ResponseModel;

    open spec fn model(&self) -> ResponseModel {
        ResponseModel {
            description: self.description.model(),
            headers: option_model(self.headers),
            content: option_model(self.content),
            links: option_model(self.links),
            extensions: self.extensions.model(),
        }
    }

    open spec fn fits(json: JsonModel) -> bool {
        &&& json is Object
        &&& required_fits::<String>(lookup(json->Object_0, "description"@))
        &&& optional_fits::<Table<RefOrObject<Header>>>(lookup(json->Object_0, "headers"@))
        &&& optional_fits::<Table<Media>>(lookup(json->Object_0, "content"@))
        &&& optional_fits::<Table<RefOrObject<Link>>>(lookup(json->Object_0, "links"@))
    }

    open spec fn decoded(json: JsonModel) -> ResponseModel {
        ResponseModel {
            description: required_decoded::<String>(lookup(json->Object_0, "description"@)),
            headers: optional_decoded::<Table<RefOrObject<Header>>>(lookup(json->Object_0, "headers"@)),
            content: optional_decoded::<Table<Media>>(lookup(json->Object_0, "content"@)),
            links: optional_decoded::<Table<RefOrObject<Link>>>(lookup(json->Object_0, "links"@)),
            extensions: remainder(json->Object_0, Self::names()),
        }
    }

    open spec fn encodable(value: ResponseModel) -> bool {
        &&& required_encodable::<String>(value.description)
        &&& optional_encodable::<Table<RefOrObject<Header>>>(value.headers)
        &&& optional_encodable::<Table<Media>>(value.content)
        &&& optional_encodable::<Table<RefOrObject<Link>>>(value.links)
        &&& !collides(Self::names(), value.extensions)
    }

    open spec fn valid(value: ResponseModel) -> bool {
        &&& required_valid::<String>(value.description)
        &&& optional_valid::<Table<RefOrObject<Header>>>(value.headers)
        &&& optional_valid::<Table<Media>>(value.content)
        &&& optional_valid::<Table<RefOrObject<Link>>>(value.links)
        &&& !collides(Self::names(), value.extensions)
    }

    open spec fn encoded(value: ResponseModel) -> JsonModel {
        JsonModel::Object(assembled(Self::names(), Self::slots(value), value.extensions))
    }

    fn decode(json: &Json) -> (res: Result<Response, CodecError>) {
        let members = match json {
            Json::Object(members) => members,
            _ => {
                return Err(CodecError::ShapeMismatch);
            },
        };
        let mut reader = ObjectReader::new(members);
        let description = decode_required::<String>(reader.field("description"))?;
        let headers = decode_optional::<Table<RefOrObject<Header>>>(reader.field("headers"))?;
        let content = decode_optional::<Table<Media>>(reader.field("content"))?;
        let links = decode_optional::<Table<RefOrObject<Link>>>(reader.field("links"))?;
        let extensions = reader.rest();
        Ok(Response { description, headers, content, links, extensions })
    }

    fn encode(&self) -> (res: Result<Json, CodecError>) {
        let writer = ObjectWriter::new();
        let writer = writer.put("description", encode_required::<String>(&self.description)?);
        let writer = writer.put("headers", encode_optional::<Table<RefOrObject<Header>>>(&self.headers)?);
        let writer = writer.put("content", encode_optional::<Table<Media>>(&self.content)?);
        let writer = writer.put("links", encode_optional::<Table<RefOrObject<Link>>>(&self.links)?);
        writer.finish_with(&self.extensions)
    }

    fn duplicate(&self) -> (copy: Response) {
        Response {
            description: self.description.duplicate(),
            headers: duplicate_optional(&self.headers),
            content: duplicate_optional(&self.content),
            links: duplicate_optional(&self.links),
            extensions: self.extensions.duplicate(),
        }
    }

    proof fn lemma_round_trip(value: ResponseModel) {
        let names = Self::names();
        let slots = Self::slots(value);
        Self::lemma_names_distinct();
        lemma_assembled_lookup(names, slots, value.extensions, 0);
        lemma_assembled_lookup(names, slots, value.extensions, 1);
        lemma_assembled_lookup(names, slots, value.extensions, 2);
        lemma_assembled_lookup(names, slots, value.extensions, 3);
        lemma_assembled_remainder(names, slots, value.extensions);
        lemma_required_round_trip::<String>(value.description);
        lemma_optional_round_trip::<Table<RefOrObject<Header>>>(value.headers);
        lemma_optional_round_trip::<Table<Media>>(value.content);
        lemma_optional_round_trip::<Table<RefOrObject<Link>>>(value.links);
    }

    proof fn lemma_read_is_valid(json: JsonModel) {
        let members = json->Object_0;
        let names = Self::names();
        let value = Self::decoded(json);
        let slots = Self::slots(value);
        lemma_required_read_is_valid::<String>(lookup(members, "description"@));
        lemma_optional_read_is_valid::<Table<RefOrObject<Header>>>(lookup(members, "headers"@));
        lemma_optional_read_is_valid::<Table<Media>>(lookup(members, "content"@));
        lemma_optional_read_is_valid::<Table<RefOrObject<Link>>>(lookup(members, "links"@));
        lemma_remainder_unnamed(members, names);
        Self::lemma_pointer_unnamed();
        lemma_assembled_lookup_other(names, slots, value.extensions, POINTER_KEY@);
        lemma_remainder_lookup(members, names, POINTER_KEY@);
    }
}

impl Example {
    /// The keys of the named fields, in the order in which they are written.
    pub open spec fn names() -> Seq<Seq<char>> {
        Seq::empty()
            .push("summary"@)
            .push("description"@)
            .push("value"@)
            .push("externalValue"@)
    }

    /// What each named field is written as, in the order of the names.
    pub open spec fn slots(value: ExampleModel) -> Seq<Option<JsonModel>> {
        Seq::empty()
            .push(optional_encoded::<String>(value.summary))
            .push(optional_encoded::<String>(value.description))
            .push(optional_encoded::<Json>(value.value))
            .push(optional_encoded::<String>(value.external_value))
    }

    /// No key is named twice.
    pub proof fn lemma_names_distinct()
        ensures
            Self::names().no_duplicates(),
    {
        reveal_strlit("summary");
        reveal_strlit("description");
        reveal_strlit("value");
        reveal_strlit("externalValue");
        assert("summary"@.len() == 7);
        assert("description"@.len() == 11);
        assert("value"@.len() == 5);
        assert("externalValue"@.len() == 13);
    }

    /// The pointer key is none of the names.
    pub proof fn lemma_pointer_unnamed()
        ensures
            !Self::names().contains(POINTER_KEY@),
    {
        reveal_strlit("$ref");
        reveal_strlit("summary");
        reveal_strlit("description");
        reveal_strlit("value");
        reveal_strlit("externalValue");
        assert("$ref"@.len() == 4);
        assert("summary"@.len() == 7);
        assert("description"@.len() == 11);
        assert("value"@.len() == 5);
        assert("externalValue"@.len() == 13);
    }
}

impl Clone for Example {
    fn clone(&self) -> (copy: Example)
        ensures
            copy.model() == self.model(),
    {
        self.duplicate()
    }
}

impl Codec for Example {
    type Model = ExampleModel;

    open spec fn model(&self) -> ExampleModel {
        ExampleModel {
            summary: option_model(self.summary),
            description: option_model(self.description),
            value: option_model(self.value),
            external_value: option_model(self.external_value),
        }
    }

    open spec fn fits(json: JsonModel) -> bool {
        &&& json is Object
        &&& optional_fits::<String>(lookup(json->Object_0, "summary"@))
        &&& optional_fits::<String>(lookup(json->Object_0, "description"@))
        &&& optional_fits::<Json>(lookup(json->Object_0, "value"@))
        &&& optional_fits::<String>(lookup(json->Object_0, "externalValue"@))
    }

    open spec fn decoded(json: JsonModel) -> ExampleModel {
        ExampleModel {
            summary: optional_decoded::<String>(lookup(json->Object_0, "summary"@)),
            description: optional_decoded::<String>(lookup(json->Object_0, "description"@)),
            value: optional_decoded::<Json>(lookup(json->Object_0, "value"@)),
            external_value: optional_decoded::<String>(lookup(json->Object_0, "externalValue"@)),
        }
    }

    open spec fn encodable(value: ExampleModel) -> bool {
        &&& optional_encodable::<String>(value.summary)
        &&& optional_encodable::<String>(value.description)
        &&& optional_encodable::<Json>(value.value)
        &&& optional_encodable::<String>(value.external_value)
    }

    open spec fn valid(value: ExampleModel) -> bool {
        &&& optional_valid::<String>(value.summary)
        &&& optional_valid::<String>(value.description)
        &&& optional_valid::<Json>(value.value)
        &&& optional_valid::<String>(value.external_value)
    }

    open spec fn encoded(value: ExampleModel) -> JsonModel {
        JsonModel::Object(named_members(Self::names(), Self::slots(value)))
    }

    fn decode(json: &Json) -> (res: Result<Example, CodecError>) {
        let members = match json {
            Json::Object(members) => members,
            _ => {
                return Err(CodecError::ShapeMismatch);
            },
        };
        let mut reader = ObjectReader::new(members);
        let summary = decode_optional::<String>(reader.field("summary"))?;
        let description = decode_optional::<String>(reader.field("description"))?;
        let value = decode_optional::<Json>(reader.field("value"))?;
        let external_value = decode_optional::<String>(reader.field("externalValue"))?;
        Ok(Example { summary, description, value, external_value })
    }

    fn encode(&self) -> (res: Result<Json, CodecError>) {
        let writer = ObjectWriter::new();
        let writer = writer.put("summary", encode_optional::<String>(&self.summary)?);
        let writer = writer.put("description", encode_optional::<String>(&self.description)?);
        let writer = writer.put("value", encode_optional::<Json>(&self.value)?);
        let writer = writer.put("externalValue", encode_optional::<String>(&self.external_value)?);
        Ok(writer.finish())
    }

    fn duplicate(&self) -> (copy: Example) {
        Example {
            summary: duplicate_optional(&self.summary),
            description: duplicate_optional(&self.description),
            value: duplicate_optional(&self.value),
            external_value: duplicate_optional(&self.external_value),
        }
    }

    proof fn lemma_round_trip(value: ExampleModel) {
        let names = Self::names();
        let slots = Self::slots(value);
        Self::lemma_names_distinct();
        lemma_named_lookup(names, slots, 0);
        lemma_named_lookup(names, slots, 1);
        lemma_named_lookup(names, slots, 2);
        lemma_named_lookup(names, slots, 3);
        lemma_optional_round_trip::<String>(value.summary);
        lemma_optional_round_trip::<String>(value.description);
        lemma_optional_round_trip::<Json>(value.value);
        lemma_optional_round_trip::<String>(value.external_value);
    }

    proof fn lemma_read_is_valid(json: JsonModel) {
        let members = json->Object_0;
        let names = Self::names();
        let value = Self::decoded(json);
        let slots = Self::slots(value);
        lemma_optional_read_is_valid::<String>(lookup(members, "summary"@));
        lemma_optional_read_is_valid::<String>(lookup(members, "description"@));
        lemma_optional_read_is_valid::<Json>(lookup(members, "value"@));
        lemma_optional_read_is_valid::<String>(lookup(members, "externalValue"@));
        Self::lemma_pointer_unnamed();
        lemma_named_lookup_other(names, slots, POINTER_KEY@);
    }
}

impl Link {
    /// The keys of the named fields, in the order in which they are written.
    pub open spec fn names() -> Seq<Seq<char>> {
        Seq::empty()
            .push("operationRef"@)
            .push("operationId"@)
            .push("parameters"@)
            .push("requestBody"@)
            .push("description"@)
            .push("server"@)
    }

    /// What each named field is written as, in the order of the names.
    pub open spec fn slots(value: LinkModel) -> Seq<Option<JsonModel>> {
        Seq::empty()
            .push(optional_encoded::<String>(value.operation_ref))
            .push(optional_encoded::<String>(value.operation_id))
            .push(optional_encoded::<Table<Json>>(value.parameters))
            .push(optional_encoded::<Json>(value.request_body))
            .push(optional_encoded::<String>(value.description))
            .push(optional_encoded::<Server>(value.server))
    }

    /// No key is named twice.
    pub proof fn lemma_names_distinct()
        ensures
            Self::names().no_duplicates(),
    {
        reveal_strlit("operationRef");
        reveal_strlit("operationId");
        reveal_strlit("parameters");
        reveal_strlit("requestBody");
        reveal_strlit("description");
        reveal_strlit("server");
        assert("operationRef"@.len() == 12);
        assert("operationId"@.len() == 11 && "operationId"@[0] == 'o');
        assert("parameters"@.len() == 10);
        assert("requestBody"@.len() == 11 && "requestBody"@[0] == 'r');
        assert("description"@.len() == 11 && "description"@[0] == 'd');
        assert("server"@.len() == 6);
    }

    /// The pointer key is none of the names.
    pub proof fn lemma_pointer_unnamed()
        ensures
            !Self::names().contains(POINTER_KEY@),
    {
        reveal_strlit("$ref");
        reveal_strlit("operationRef");
        reveal_strlit("operationId");
        reveal_strlit("parameters");
        reveal_strlit("requestBody");
        reveal_strlit("description");
        reveal_strlit("server");
        assert("$ref"@.len() == 4);
        assert("operationRef"@.len() == 12);
        assert("operationId"@.len() == 11);
        assert("parameters"@.len() == 10);
        assert("requestBody"@.len() == 11);
        assert("description"@.len() == 11);
        assert("server"@.len() == 6);
    }
}

impl Clone for Link {
    fn clone(&self) -> (copy: Link)
        ensures
            copy.model() == self.model(),
    {
        self.duplicate()
    }
}

impl Codec for Link {
    type Model = LinkModel;

    open spec fn model(&self) -> LinkModel {
        LinkModel {
            operation_ref: option_model(self.operation_ref),
            operation_id: option_model(self.operation_id),
            parameters: option_model(self.parameters),
            request_body: option_model(self.request_body),
            description: option_model(self.description),
            server: option_model(self.server),
        }
    }

    open spec fn fits(json: JsonModel) -> bool {
        &&& json is Object
        &&& optional_fits::<String>(lookup(json->Object_0, "operationRef"@))
        &&& optional_fits::<String>(lookup(json->Object_0, "operationId"@))
        &&& optional_fits::<Table<Json>>(lookup(json->Object_0, "parameters"@))
        &&& optional_fits::<Json>(lookup(json->Object_0, "requestBody"@))
        &&& optional_fits::<String>(lookup(json->Object_0, "description"@))
        &&& optional_fits::<Server>(lookup(json->Object_0, "server"@))
    }

    open spec fn decoded(json: JsonModel) -> LinkModel {
        LinkModel {
            operation_ref: optional_decoded::<String>(lookup(json->Object_0, "operationRef"@)),
            operation_id: optional_decoded::<String>(lookup(json->Object_0, "operationId"@)),
            parameters: optional_decoded::<Table<Json>>(lookup(json->Object_0, "parameters"@)),
            request_body: optional_decoded::<Json>(lookup(json->Object_0, "requestBody"@)),
            description: optional_decoded::<String>(lookup(json->Object_0, "description"@)),
            server: optional_decoded::<Server>(lookup(json->Object_0, "server"@)),
        }
    }

    open spec fn encodable(value: LinkModel) -> bool {
        &&& optional_encodable::<String>(value.operation_ref)
        &&& optional_encodable::<String>(value.operation_id)
        &&& optional_encodable::<Table<Json>>(value.parameters)
        &&& optional_encodable::<Json>(value.request_body)
        &&& optional_encodable::<String>(value.description)
        &&& optional_encodable::<Server>(value.server)
    }

    open spec fn valid(value: LinkModel) -> bool {
        &&& optional_valid::<String>(value.operation_ref)
        &&& optional_valid::<String>(value.operation_id)
        &&& optional_valid::<Table<Json>>(value.parameters)
        &&& optional_valid::<Json>(value.request_body)
        &&& optional_valid::<String>(value.description)
        &&& optional_valid::<Server>(value.server)
    }

    open spec fn encoded(value: LinkModel) -> JsonModel {
        JsonModel::Object(named_members(Self::names(), Self::slots(value)))
    }

    fn decode(json: &Json) -> (res: Result<Link, CodecError>) {
        let members = match json {
            Json::Object(members) => members,
            _ => {
                return Err(CodecError::ShapeMismatch);
            },
        };
        let mut reader = ObjectReader::new(members);
        let operation_ref = decode_optional::<String>(reader.field("operationRef"))?;
        let operation_id = decode_optional::<String>(reader.field("operationId"))?;
        let parameters = decode_optional::<Table<Json>>(reader.field("parameters"))?;
        let request_body = decode_optional::<Json>(reader.field("requestBody"))?;
        let description = decode_optional::<String>(reader.field("description"))?;
        let server = decode_optional::<Server>(reader.field("server"))?;
        Ok(Link { operation_ref, operation_id, parameters, request_body, description, server })
    }

    fn encode(&self) -> (res: Result<Json, CodecError>) {
        let writer = ObjectWriter::new();
        let writer = writer.put("operationRef", encode_optional::<String>(&self.operation_ref)?);
        let writer = writer.put("operationId", encode_optional::<String>(&self.operation_id)?);
        let writer = writer.put("parameters", encode_optional::<Table<Json>>(&self.parameters)?);
        let writer = writer.put("requestBody", encode_optional::<Json>(&self.request_body)?);
        let writer = writer.put("description", encode_optional::<String>(&self.description)?);
        let writer = writer.put("server", encode_optional::<Server>(&self.server)?);
        Ok(writer.finish())
    }

    fn duplicate(&self) -> (copy: Link) {
        Link {
            operation_ref: duplicate_optional(&self.operation_ref),
            operation_id: duplicate_optional(&self.operation_id),
            parameters: duplicate_optional(&self.parameters),
            request_body: duplicate_optional(&self.request_body),
            description: duplicate_optional(&self.description),
            server: duplicate_optional(&self.server),
        }
    }

    proof fn lemma_round_trip(value: LinkModel) {
        let names = Self::names();
        let slots = Self::slots(value);
        Self::lemma_names_distinct();
        lemma_named_lookup(names, slots, 0);
        lemma_named_lookup(names, slots, 1);
        lemma_named_lookup(names, slots, 2);
        lemma_named_lookup(names, slots, 3);
        lemma_named_lookup(names, slots, 4);
        lemma_named_lookup(names, slots, 5);
        lemma_optional_round_trip::<String>(value.operation_ref);
        lemma_optional_round_trip::<String>(value.operation_id);
        lemma_optional_round_trip::<Table<Json>>(value.parameters);
        lemma_optional_round_trip::<Json>(value.request_body);
        lemma_optional_round_trip::<String>(value.description);
        lemma_optional_round_trip::<Server>(value.server);
    }

    proof fn lemma_read_is_valid(json: JsonModel) {
        let members = json->Object_0;
        let names = Self::names();
        let value = Self::decoded(json);
        let slots = Self::slots(value);
        lemma_optional_read_is_valid::<String>(lookup(members, "operationRef"@));
        lemma_optional_read_is_valid::<String>(lookup(members, "operationId"@));
        lemma_optional_read_is_valid::<Table<Json>>(lookup(members, "parameters"@));
        lemma_optional_read_is_valid::<Json>(lookup(members, "requestBody"@));
        lemma_optional_read_is_valid::<String>(lookup(members, "description"@));
        lemma_optional_read_is_valid::<Server>(lookup(members, "server"@));
        Self::lemma_pointer_unnamed();
        lemma_named_lookup_other(names, slots, POINTER_KEY@);
    }
}

impl Tag {
    /// The keys of the named fields, in the order in which they are written.
    pub open spec fn names() -> Seq<Seq<char>> {
        Seq::empty()
            .push("name"@)
            .push("description"@)
            .push("externalDocs"@)
    }

    /// What each named field is written as, in the order of the names.
    pub open spec fn slots(value: TagModel) -> Seq<Option<JsonModel>> {
        Seq::empty()
            .push(required_encoded::<String>(value.name))
            .push(optional_encoded::<String>(value.description))
            .push(optional_encoded::<ExternalDoc>(value.external_docs))
    }

    /// No key is named twice.
    pub proof fn lemma_names_distinct()
        ensures
            Self::names().no_duplicates(),
    {
        reveal_strlit("name");
        reveal_strlit("description");
        reveal_strlit("externalDocs");
        assert("name"@.len() == 4);
        assert("description"@.len() == 11);
        assert("externalDocs"@.len() == 12);
    }

    /// The pointer key is none of the names.
    pub proof fn lemma_pointer_unnamed()
        ensures
            !Self::names().contains(POINTER_KEY@),
    {
        reveal_strlit("$ref");
        reveal_strlit("name");
        reveal_strlit("description");
        reveal_strlit("externalDocs");
        assert("$ref"@.len() == 4 && "$ref"@[0] == '$');
        assert("name"@.len() == 4 && "name"@[0] == 'n');
        assert("description"@.len() == 11);
        assert("externalDocs"@.len() == 12);
    }
}

impl Clone for Tag {
    fn clone(&self) -> (copy: Tag)
        ensures
            copy.model() == self.model(),
    {
        self.duplicate()
    }
}

impl Codec for Tag {
    type Model = TagModel;

    open spec fn model(&self) -> TagModel {
        TagModel {
            name: self.name.model(),
            description: option_model(self.description),
            external_docs: option_model(self.external_docs),
            extensions: self.extensions.model(),
        }
    }

    open spec fn fits(json: JsonModel) -> bool {
        &&& json is Object
        &&& required_fits::<String>(lookup(json->Object_0, "name"@))
        &&& optional_fits::<String>(lookup(json->Object_0, "description"@))
        &&& optional_fits::<ExternalDoc>(lookup(json->Object_0, "externalDocs"@))
    }

    open spec fn decoded(json: JsonModel) -> TagModel {
        TagModel {
            name: required_decoded::<String>(lookup(json->Object_0, "name"@)),
            description: optional_decoded::<String>(lookup(json->Object_0, "description"@)),
            external_docs: optional_decoded::<ExternalDoc>(lookup(json->Object_0, "externalDocs"@)),
            extensions: remainder(json->Object_0, Self::names()),
        }
    }

    open spec fn encodable(value: TagModel) -> bool {
        &&& required_encodable::<String>(value.name)
        &&& optional_encodable::<String>(value.description)
        &&& optional_encodable::<ExternalDoc>(value.external_docs)
        &&& !collides(Self::names(), value.extensions)
    }

    open spec fn valid(value: TagModel) -> bool {
        &&& required_valid::<String>(value.name)
        &&& optional_valid::<String>(value.description)
        &&& optional_valid::<ExternalDoc>(value.external_docs)
        &&& !collides(Self::names(), value.extensions)
    }

    open spec fn encoded(value: TagModel) -> JsonModel {
        JsonModel::Object(assembled(Self::names(), Self::slots(value), value.extensions))
    }

    fn decode(json: &Json) -> (res: Result<Tag, CodecError>) {
        let members = match json {
            Json::Object(members) => members,
            _ => {
                return Err(CodecError::ShapeMismatch);
            },
        };
        let mut reader = ObjectReader::new(members);
        let name = decode_required::<String>(reader.field("name"))?;
        let description = decode_optional::<String>(reader.field("description"))?;
        let external_docs = decode_optional::<ExternalDoc>(reader.field("externalDocs"))?;
        let extensions = reader.rest();
        Ok(Tag { name, description, external_docs, extensions })
    }

    fn encode(&self) -> (res: Result<Json, CodecError>) {
        let writer = ObjectWriter::new();
        let writer = writer.put("name", encode_required::<String>(&self.name)?);
        let writer = writer.put("description", encode_optional::<String>(&self.description)?);
        let writer = writer.put("externalDocs", encode_optional::<ExternalDoc>(&self.external_docs)?);
        writer.finish_with(&self.extensions)
    }

    fn duplicate(&self) -> (copy: Tag) {
        Tag {
            name: self.name.duplicate(),
            description: duplicate_optional(&self.description),
            external_docs: duplicate_optional(&self.external_docs),
            extensions: self.extensions.duplicate(),
        }
    }

    proof fn lemma_round_trip(value: TagModel) {
        let names = Self::names();
        let slots = Self::slots(value);
        Self::lemma_names_distinct();
        lemma_assembled_lookup(names, slots, value.extensions, 0);
        lemma_assembled_lookup(names, slots, value.extensions, 1);
        lemma_assembled_lookup(names, slots, value.extensions, 2);
        lemma_assembled_remainder(names, slots, value.extensions);
        lemma_required_round_trip::<String>(value.name);
        lemma_optional_round_trip::<String>(value.description);
        lemma_optional_round_trip::<ExternalDoc>(value.external_docs);
    }

    proof fn lemma_read_is_valid(json: JsonModel) {
        let members = json->Object_0;
        let names = Self::names();
        let value = Self::decoded(json);
        let slots = Self::slots(value);
        lemma_required_read_is_valid::<String>(lookup(members, "name"@));
        lemma_optional_read_is_valid::<String>(lookup(members, "description"@));
        lemma_optional_read_is_valid::<ExternalDoc>(lookup(members, "externalDocs"@));
        lemma_remainder_unnamed(members, names);
        Self::lemma_pointer_unnamed();
        lemma_assembled_lookup_other(names, slots, value.extensions, POINTER_KEY@);
        lemma_remainder_lookup(members, names, POINTER_KEY@);
    }
}

impl Discriminator {
    /// The keys of the named fields, in the order in which they are written.
    pub open spec fn names() -> Seq<Seq<char>> {
        Seq::empty()
            .push("propertyName"@)
            .push("mapping"@)
    }

    /// What each named field is written as, in the order of the names.
    pub open spec fn slots(value: DiscriminatorModel) -> Seq<Option<JsonModel>> {
        Seq::empty()
            .push(required_encoded::<String>(value.property_name))
            .push(optional_encoded::<Table<String>>(value.mapping))
    }

    /// No key is named twice.
    pub proof fn lemma_names_distinct()
        ensures
            Self::names().no_duplicates(),
    {
        reveal_strlit("propertyName");
        reveal_strlit("mapping");
        assert("propertyName"@.len() == 12);
        assert("mapping"@.len() == 7);
    }

    /// The pointer key is none of the names.
    pub proof fn lemma_pointer_unnamed()
        ensures
            !Self::names().contains(POINTER_KEY@),
    {
        reveal_strlit("$ref");
        reveal_strlit("propertyName");
        reveal_strlit("mapping");
        assert("$ref"@.len() == 4);
        assert("propertyName"@.len() == 12);
        assert("mapping"@.len() == 7);
    }
}

impl Clone for Discriminator {
    fn clone(&self) -> (copy: Discriminator)
        ensures
            copy.model() == self.model(),
    {
        self.duplicate()
    }
}

impl Codec for Discriminator {
    type Model = DiscriminatorModel;

    open spec fn model(&self) -> DiscriminatorModel {
        DiscriminatorModel {
            property_name: self.property_name.model(),
            mapping: option_model(self.mapping),
        }
    }

    open spec fn fits(json: JsonModel) -> bool {
        &&& json is Object
        &&& required_fits::<String>(lookup(json->Object_0, "propertyName"@))
        &&& optional_fits::<Table<String>>(lookup(json->Object_0, "mapping"@))
    }

    open spec fn decoded(json: JsonModel) -> DiscriminatorModel {
        DiscriminatorModel {
            property_name: required_decoded::<String>(lookup(json->Object_0, "propertyName"@)),
            mapping: optional_decoded::<Table<String>>(lookup(json->Object_0, "mapping"@)),
        }
    }

    open spec fn encodable(value: DiscriminatorModel) -> bool {
        &&& required_encodable::<String>(value.property_name)
        &&& optional_encodable::<Table<String>>(value.mapping)
    }

    open spec fn valid(value: DiscriminatorModel) -> bool {
        &&& required_valid::<String>(value.property_name)
        &&& optional_valid::<Table<String>>(value.mapping)
    }

    open spec fn encoded(value: DiscriminatorModel) -> JsonModel {
        JsonModel::Object(named_members(Self::names(), Self::slots(value)))
    }

    fn decode(json: &Json) -> (res: Result<Discriminator, CodecError>) {
        let members = match json {
            Json::Object(members) => members,
            _ => {
                return Err(CodecError::ShapeMismatch);
            },
        };
        let mut reader = ObjectReader::new(members);
        let property_name = decode_required::<String>(reader.field("propertyName"))?;
        let mapping = decode_optional::<Table<String>>(reader.field("mapping"))?;
        Ok(Discriminator { property_name, mapping })
    }

    fn encode(&self) -> (res: Result<Json, CodecError>) {
        let writer = ObjectWriter::new();
        let writer = writer.put("propertyName", encode_required::<String>(&self.property_name)?);
        let writer = writer.put("mapping", encode_optional::<Table<String>>(&self.mapping)?);
        Ok(writer.finish())
    }

    fn duplicate(&self) -> (copy: Discriminator) {
        Discriminator {
            property_name: self.property_name.duplicate(),
            mapping: duplicate_optional(&self.mapping),
        }
    }

    proof fn lemma_round_trip(value: DiscriminatorModel) {
        let names = Self::names();
        let slots = Self::slots(value);
        Self::lemma_names_distinct();
        lemma_named_lookup(names, slots, 0);
        lemma_named_lookup(names, slots, 1);
        lemma_required_round_trip::<String>(value.property_name);
        lemma_optional_round_trip::<Table<String>>(value.mapping);
    }

    proof fn lemma_read_is_valid(json: JsonModel) {
        let members = json->Object_0;
        let names = Self::names();
        let value = Self::decoded(json);
        let slots = Self::slots(value);
        lemma_required_read_is_valid::<String>(lookup(members, "propertyName"@));
        lemma_optional_read_is_valid::<Table<String>>(lookup(members, "mapping"@));
        Self::lemma_pointer_unnamed();
        lemma_named_lookup_other(names, slots, POINTER_KEY@);
    }
}

impl XML {
    /// The keys of the named fields, in the order in which they are written.
    pub open spec fn names() -> Seq<Seq<char>> {
        Seq::empty()
            .push("name"@)
            .push("namespace"@)
            .push("prefix"@)
            .push("attribute"@)
            .push("wrapped"@)
    }

    /// What each named field is written as, in the order of the names.
    pub open spec fn slots(value: XMLModel) -> Seq<Option<JsonModel>> {
        Seq::empty()
            .push(optional_encoded::<String>(value.name))
            .push(optional_encoded::<String>(value.namespace))
            .push(optional_encoded::<String>(value.prefix))
            .push(optional_encoded::<bool>(value.attribute))
            .push(optional_encoded::<bool>(value.wrapped))
    }

    /// No key is named twice.
    pub proof fn lemma_names_distinct()
        ensures
            Self::names().no_duplicates(),
    {
        reveal_strlit("name");
        reveal_strlit("namespace");
        reveal_strlit("prefix");
        reveal_strlit("attribute");
        reveal_strlit("wrapped");
        assert("name"@.len() == 4);
        assert("namespace"@.len() == 9 && "namespace"@[0] == 'n');
        assert("prefix"@.len() == 6);
        assert("attribute"@.len() == 9 && "attribute"@[0] == 'a');
        assert("wrapped"@.len() == 7);
    }

    /// The pointer key is none of the names.
    pub proof fn lemma_pointer_unnamed()
        ensures
            !Self::names().contains(POINTER_KEY@),
    {
        reveal_strlit("$ref");
        reveal_strlit("name");
        reveal_strlit("namespace");
        reveal_strlit("prefix");
        reveal_strlit("attribute");
        reveal_strlit("wrapped");
        assert("$ref"@.len() == 4 && "$ref"@[0] == '$');
        assert("name"@.len() == 4 && "name"@[0] == 'n');
        assert("namespace"@.len() == 9);
        assert("prefix"@.len() == 6);
        assert("attribute"@.len() == 9);
        assert("wrapped"@.len() == 7);
    }
}

impl Clone for XML {
    fn clone(&self) -> (copy: XML)
        ensures
            copy.model() == self.model(),
    {
        self.duplicate()
    }
}

impl Codec for XML {
    type Model = XMLModel;

    open spec fn model(&self) -> XMLModel {
        XMLModel {
            name: option_model(self.name),
            namespace: option_model(self.namespace),
            prefix: option_model(self.prefix),
            attribute: option_model(self.attribute),
            wrapped: option_model(self.wrapped),
        }
    }

    open spec fn fits(json: JsonModel) -> bool {
        &&& json is Object
        &&& optional_fits::<String>(lookup(json->Object_0, "name"@))
        &&& optional_fits::<String>(lookup(json->Object_0, "namespace"@))
        &&& optional_fits::<String>(lookup(json->Object_0, "prefix"@))
        &&& optional_fits::<bool>(lookup(json->Object_0, "attribute"@))
        &&& optional_fits::<bool>(lookup(json->Object_0, "wrapped"@))
    }

    open spec fn decoded(json: JsonModel) -> XMLModel {
        XMLModel {
            name: optional_decoded::<String>(lookup(json->Object_0, "name"@)),
            namespace: optional_decoded::<String>(lookup(json->Object_0, "namespace"@)),
            prefix: optional_decoded::<String>(lookup(json->Object_0, "prefix"@)),
            attribute: optional_decoded::<bool>(lookup(json->Object_0, "attribute"@)),
            wrapped: optional_decoded::<bool>(lookup(json->Object_0, "wrapped"@)),
        }
    }

    open spec fn encodable(value: XMLModel) -> bool {
        &&& optional_encodable::<String>(value.name)
        &&& optional_encodable::<String>(value.namespace)
        &&& optional_encodable::<String>(value.prefix)
        &&& optional_encodable::<bool>(value.attribute)
        &&& optional_encodable::<bool>(value.wrapped)
    }

    open spec fn valid(value: XMLModel) -> bool {
        &&& optional_valid::<String>(value.name)
        &&& optional_valid::<String>(value.namespace)
        &&& optional_valid::<String>(value.prefix)
        &&& optional_valid::<bool>(value.attribute)
        &&& optional_valid::<bool>(value.wrapped)
    }

    open spec fn encoded(value: XMLModel) -> JsonModel {
        JsonModel::Object(named_members(Self::names(), Self::slots(value)))
    }

    fn decode(json: &Json) -> (res: Result<XML, CodecError>) {
        let members = match json {
            Json::Object(members) => members,
            _ => {
                return Err(CodecError::ShapeMismatch);
            },
        };
        let mut reader = ObjectReader::new(members);
        let name = decode_optional::<String>(reader.field("name"))?;
        let namespace = decode_optional::<String>(reader.field("namespace"))?;
        let prefix = decode_optional::<String>(reader.field("prefix"))?;
        let attribute = decode_optional::<bool>(reader.field("attribute"))?;
        let wrapped = decode_optional::<bool>(reader.field("wrapped"))?;
        Ok(XML { name, namespace, prefix, attribute, wrapped })
    }

    fn encode(&self) -> (res: Result<Json, CodecError>) {
        let writer = ObjectWriter::new();
        let writer = writer.put("name", encode_optional::<String>(&self.name)?);
        let writer = writer.put("namespace", encode_optional::<String>(&self.namespace)?);
        let writer = writer.put("prefix", encode_optional::<String>(&self.prefix)?);
        let writer = writer.put("attribute", encode_optional::<bool>(&self.attribute)?);
        let writer = writer.put("wrapped", encode_optional::<bool>(&self.wrapped)?);
        Ok(writer.finish())
    }

    fn duplicate(&self) -> (copy: XML) {
        XML {
            name: duplicate_optional(&self.name),
            namespace: duplicate_optional(&self.namespace),
            prefix: duplicate_optional(&self.prefix),
            attribute: duplicate_optional(&self.attribute),
            wrapped: duplicate_optional(&self.wrapped),
        }
    }

    proof fn lemma_round_trip(value: XMLModel) {
        let names = Self::names();
        let slots = Self::slots(value);
        Self::lemma_names_distinct();
        lemma_named_lookup(names, slots, 0);
        lemma_named_lookup(names, slots, 1);
        lemma_named_lookup(names, slots, 2);
        lemma_named_lookup(names, slots, 3);
        lemma_named_lookup(names, slots, 4);
        lemma_optional_round_trip::<String>(value.name);
        lemma_optional_round_trip::<String>(value.namespace);
        lemma_optional_round_trip::<String>(value.prefix);
        lemma_optional_round_trip::<bool>(value.attribute);
        lemma_optional_round_trip::<bool>(value.wrapped);
    }

    proof fn lemma_read_is_valid(json: JsonModel) {
        let members = json->Object_0;
        let names = Self::names();
        let value = Self::decoded(json);
        let slots = Self::slots(value);
        lemma_optional_read_is_valid::<String>(lookup(members, "name"@));
        lemma_optional_read_is_valid::<String>(lookup(members, "namespace"@));
        lemma_optional_read_is_valid::<String>(lookup(members, "prefix"@));
        lemma_optional_read_is_valid::<bool>(lookup(members, "attribute"@));
        lemma_optional_read_is_valid::<bool>(lookup(members, "wrapped"@));
        Self::lemma_pointer_unnamed();
        lemma_named_lookup_other(names, slots, POINTER_KEY@);
    }
}

impl SecurityScheme {
    /// The keys of the named fields, in the order in which they are written.
    pub open spec fn names() -> Seq<Seq<char>> {
        Seq::empty()
            .push("type"@)
            .push("description"@)
            .push("name"@)
            .push("in"@)
            .push("scheme"@)
            .push("beareFormat"@)
            .push("flows"@)
            .push("openIdConnectUrl"@)
    }

    /// What each named field is written as, in the order of the names.
    pub open spec fn slots(value: SecuritySchemeModel) -> Seq<Option<JsonModel>> {
        Seq::empty()
            .push(required_encoded::<SecuritySchemeType>(value.type_))
            .push(optional_encoded::<String>(value.description))
            .push(required_encoded::<String>(value.name))
            .push(required_encoded::<String>(value.in_))
            .push(required_encoded::<String>(value.scheme))
            .push(optional_encoded::<String>(value.beare_format))
            .push(required_encoded::<OAuthFlows>(value.flows))
            .push(required_encoded::<String>(value.open_id_connect_url))
    }

    /// No key is named twice.
    pub proof fn lemma_names_distinct()
        ensures
            Self::names().no_duplicates(),
    {
        reveal_strlit("type");
        reveal_strlit("description");
        reveal_strlit("name");
        reveal_strlit("in");
        reveal_strlit("scheme");
        reveal_strlit("beareFormat");
        reveal_strlit("flows");
        reveal_strlit("openIdConnectUrl");
        assert("type"@.len() == 4 && "type"@[0] == 't');
        assert("description"@.len() == 11 && "description"@[0] == 'd');
        assert("name"@.len() == 4 && "name"@[0] == 'n');
        assert("in"@.len() == 2);
        assert("scheme"@.len() == 6);
        assert("beareFormat"@.len() == 11 && "beareFormat"@[0] == 'b');
        assert("flows"@.len() == 5);
        assert("openIdConnectUrl"@.len() == 16);
    }

    /// The pointer key is none of the names.
    pub proof fn lemma_pointer_unnamed()
        ensures
            !Self::names().contains(POINTER_KEY@),
    {
        reveal_strlit("$ref");
        reveal_strlit("type");
        reveal_strlit("description");
        reveal_strlit("name");
        reveal_strlit("in");
        reveal_strlit("scheme");
        reveal_strlit("beareFormat");
        reveal_strlit("flows");
        reveal_strlit("openIdConnectUrl");
        assert("$ref"@.len() == 4 && "$ref"@[0] == '$');
        assert("type"@.len() == 4 && "type"@[0] == 't');
        assert("description"@.len() == 11);
        assert("name"@.len() == 4 && "name"@[0] == 'n');
        assert("in"@.len() == 2);
        assert("scheme"@.len() == 6);
        assert("beareFormat"@.len() == 11);
        assert("flows"@.len() == 5);
        assert("openIdConnectUrl"@.len() == 16);
    }
}

impl Clone for SecurityScheme {
    fn clone(&self) -> (copy: SecurityScheme)
        ensures
            copy.model() == self.model(),
    {
        self.duplicate()
    }
}

impl Codec for SecurityScheme {
    type Model = SecuritySchemeModel;

    open spec fn model(&self) -> SecuritySchemeModel {
        SecuritySchemeModel {
            type_: self.type_.model(),
            description: option_model(self.description),
            name: self.name.model(),
            in_: self.in_.model(),
            scheme: self.scheme.model(),
            beare_format: option_model(self.beare_format),
            flows: self.flows.model(),
            open_id_connect_url: self.open_id_connect_url.model(),
        }
    }

    open spec fn fits(json: JsonModel) -> bool {
        &&& json is Object
        &&& required_fits::<SecuritySchemeType>(lookup(json->Object_0, "type"@))
        &&& optional_fits::<String>(lookup(json->Object_0, "description"@))
        &&& required_fits::<String>(lookup(json->Object_0, "name"@))
        &&& required_fits::<String>(lookup(json->Object_0, "in"@))
        &&& required_fits::<String>(lookup(json->Object_0, "scheme"@))
        &&& optional_fits::<String>(lookup(json->Object_0, "beareFormat"@))
        &&& required_fits::<OAuthFlows>(lookup(json->Object_0, "flows"@))
        &&& required_fits::<String>(lookup(json->Object_0, "openIdConnectUrl"@))
    }

    open spec fn decoded(json: JsonModel) -> SecuritySchemeModel {
        SecuritySchemeModel {
            type_: required_decoded::<SecuritySchemeType>(lookup(json->Object_0, "type"@)),
            description: optional_decoded::<String>(lookup(json->Object_0, "description"@)),
            name: required_decoded::<String>(lookup(json->Object_0, "name"@)),
            in_: required_decoded::<String>(lookup(json->Object_0, "in"@)),
            scheme: required_decoded::<String>(lookup(json->Object_0, "scheme"@)),
            beare_format: optional_decoded::<String>(lookup(json->Object_0, "beareFormat"@)),
            flows: required_decoded::<OAuthFlows>(lookup(json->Object_0, "flows"@)),
            open_id_connect_url: required_decoded::<String>(lookup(json->Object_0, "openIdConnectUrl"@)),
        }
    }

    open spec fn encodable(value: SecuritySchemeModel) -> bool {
        &&& required_encodable::<SecuritySchemeType>(value.type_)
        &&& optional_encodable::<String>(value.description)
        &&& required_encodable::<String>(value.name)
        &&& required_encodable::<String>(value.in_)
        &&& required_encodable::<String>(value.scheme)
        &&& optional_encodable::<String>(value.beare_format)
        &&& required_encodable::<OAuthFlows>(value.flows)
        &&& required_encodable::<String>(value.open_id_connect_url)
    }

    open spec fn valid(value: SecuritySchemeModel) -> bool {
        &&& required_valid::<SecuritySchemeType>(value.type_)
        &&& optional_valid::<String>(value.description)
        &&& required_valid::<String>(value.name)
        &&& required_valid::<String>(value.in_)
        &&& required_valid::<String>(value.scheme)
        &&& optional_valid::<String>(value.beare_format)
        &&& required_valid::<OAuthFlows>(value.flows)
        &&& required_valid::<String>(value.open_id_connect_url)
    }

    open spec fn encoded(value: SecuritySchemeModel) -> JsonModel {
        JsonModel::Object(named_members(Self::names(), Self::slots(value)))
    }

    fn decode(json: &Json) -> (res: Result<SecurityScheme, CodecError>) {
        let members = match json {
            Json::Object(members) => members,
            _ => {
                return Err(CodecError::ShapeMismatch);
            },
        };
        let mut reader = ObjectReader::new(members);
        let type_ = decode_required::<SecuritySchemeType>(reader.field("type"))?;
        let description = decode_optional::<String>(reader.field("description"))?;
        let name = decode_required::<String>(reader.field("name"))?;
        let in_ = decode_required::<String>(reader.field("in"))?;
        let scheme = decode_required::<String>(reader.field("scheme"))?;
        let beare_format = decode_optional::<String>(reader.field("beareFormat"))?;
        let flows = decode_required::<OAuthFlows>(reader.field("flows"))?;
        let open_id_connect_url = decode_required::<String>(reader.field("openIdConnectUrl"))?;
        Ok(SecurityScheme { type_, description, name, in_, scheme, beare_format, flows, open_id_connect_url })
    }

    fn encode(&self) -> (res: Result<Json, CodecError>) {
        let writer = ObjectWriter::new();
        let writer = writer.put("type", encode_required::<SecuritySchemeType>(&self.type_)?);
        let writer = writer.put("description", encode_optional::<String>(&self.description)?);
        let writer = writer.put("name", encode_required::<String>(&self.name)?);
        let writer = writer.put("in", encode_required::<String>(&self.in_)?);
        let writer = writer.put("scheme", encode_required::<String>(&self.scheme)?);
        let writer = writer.put("beareFormat", encode_optional::<String>(&self.beare_format)?);
        let writer = writer.put("flows", encode_required::<OAuthFlows>(&self.flows)?);
        let writer = writer.put("openIdConnectUrl", encode_required::<String>(&self.open_id_connect_url)?);
        Ok(writer.finish())
    }

    fn duplicate(&self) -> (copy: SecurityScheme) {
        SecurityScheme {
            type_: self.type_.duplicate(),
            description: duplicate_optional(&self.description),
            name: self.name.duplicate(),
            in_: self.in_.duplicate(),
            scheme: self.scheme.duplicate(),
            beare_format: duplicate_optional(&self.beare_format),
            flows: self.flows.duplicate(),
            open_id_connect_url: self.open_id_connect_url.duplicate(),
        }
    }

    proof fn lemma_round_trip(value: SecuritySchemeModel) {
        let names = Self::names();
        let slots = Self::slots(value);
        Self::lemma_names_distinct();
        lemma_named_lookup(names, slots, 0);
        lemma_named_lookup(names, slots, 1);
        lemma_named_lookup(names, slots, 2);
        lemma_named_lookup(names, slots, 3);
        lemma_named_lookup(names, slots, 4);
        lemma_named_lookup(names, slots, 5);
        lemma_named_lookup(names, slots, 6);
        lemma_named_lookup(names, slots, 7);
        lemma_required_round_trip::<SecuritySchemeType>(value.type_);
        lemma_optional_round_trip::<String>(value.description);
        lemma_required_round_trip::<String>(value.name);
        lemma_required_round_trip::<String>(value.in_);
        lemma_required_round_trip::<String>(value.scheme);
        lemma_optional_round_trip::<String>(value.beare_format);
        lemma_required_round_trip::<OAuthFlows>(value.flows);
        lemma_required_round_trip::<String>(value.open_id_connect_url);
    }

    proof fn lemma_read_is_valid(json: JsonModel) {
        let members = json->Object_0;
        let names = Self::names();
        let value = Self::decoded(json);
        let slots = Self::slots(value);
        lemma_required_read_is_valid::<SecuritySchemeType>(lookup(members, "type"@));
        lemma_optional_read_is_valid::<String>(lookup(members, "description"@));
        lemma_required_read_is_valid::<String>(lookup(members, "name"@));
        lemma_required_read_is_valid::<String>(lookup(members, "in"@));
        lemma_required_read_is_valid::<String>(lookup(members, "scheme"@));
        lemma_optional_read_is_valid::<String>(lookup(members, "beareFormat"@));
        lemma_required_read_is_valid::<OAuthFlows>(lookup(members, "flows"@));
        lemma_required_read_is_valid::<String>(lookup(members, "openIdConnectUrl"@));
        Self::lemma_pointer_unnamed();
        lemma_named_lookup_other(names, slots, POINTER_KEY@);
    }
}

impl OAuthFlows {
    /// The keys of the named fields, in the order in which they are written.
    pub open spec fn names() -> Seq<Seq<char>> {
        Seq::empty()
            .push("implicit"@)
            .push("password"@)
            .push("clientCredentials"@)
            .push("authorizationCode"@)
    }

    /// What each named field is written as, in the order of the names.
    pub open spec fn slots(value: OAuthFlowsModel) -> Seq<Option<JsonModel>> {
        Seq::empty()
            .push(optional_encoded::<OAuthFlow>(value.implicit))
            .push(optional_encoded::<OAuthFlow>(value.password))
            .push(optional_encoded::<OAuthFlow>(value.client_credentials))
            .push(optional_encoded::<OAuthFlow>(value.authorization_code))
    }

    /// No key is named twice.
    pub proof fn lemma_names_distinct()
        ensures
            Self::names().no_duplicates(),
    {
        reveal_strlit("implicit");
        reveal_strlit("password");
        reveal_strlit("clientCredentials");
        reveal_strlit("authorizationCode");
        assert("implicit"@.len() == 8 && "implicit"@[0] == 'i');
        assert("password"@.len() == 8 && "password"@[0] == 'p');
        assert("clientCredentials"@.len() == 17 && "clientCredentials"@[0] == 'c');
        assert("authorizationCode"@.len() == 17 && "authorizationCode"@[0] == 'a');
    }

    /// The pointer key is none of the names.
    pub proof fn lemma_pointer_unnamed()
        ensures
            !Self::names().contains(POINTER_KEY@),
    {
        reveal_strlit("$ref");
        reveal_strlit("implicit");
        reveal_strlit("password");
        reveal_strlit("clientCredentials");
        reveal_strlit("authorizationCode");
        assert("$ref"@.len() == 4);
        assert("implicit"@.len() == 8);
        assert("password"@.len() == 8);
        assert("clientCredentials"@.len() == 17);
        assert("authorizationCode"@.len() == 17);
    }
}

impl Clone for OAuthFlows {
    fn clone(&self) -> (copy: OAuthFlows)
        ensures
            copy.model() == self.model(),
    {
        self.duplicate()
    }
}

impl Codec for OAuthFlows {
    type Model = OAuthFlowsModel;

    open spec fn model(&self) -> OAuthFlowsModel {
        OAuthFlowsModel {
            implicit: option_model(self.implicit),
            password: option_model(self.password),
            client_credentials: option_model(self.client_credentials),
            authorization_code: option_model(self.authorization_code),
        }
    }

    open spec fn fits(json: JsonModel) -> bool {
        &&& json is Object
        &&& optional_fits::<OAuthFlow>(lookup(json->Object_0, "implicit"@))
        &&& optional_fits::<OAuthFlow>(lookup(json->Object_0, "password"@))
        &&& optional_fits::<OAuthFlow>(lookup(json->Object_0, "clientCredentials"@))
        &&& optional_fits::<OAuthFlow>(lookup(json->Object_0, "authorizationCode"@))
    }

    open spec fn decoded(json: JsonModel) -> OAuthFlowsModel {
        OAuthFlowsModel {
            implicit: optional_decoded::<OAuthFlow>(lookup(json->Object_0, "implicit"@)),
            password: optional_decoded::<OAuthFlow>(lookup(json->Object_0, "password"@)),
            client_credentials: optional_decoded::<OAuthFlow>(lookup(json->Object_0, "clientCredentials"@)),
            authorization_code: optional_decoded::<OAuthFlow>(lookup(json->Object_0, "authorizationCode"@)),
        }
    }

    open spec fn encodable(value: OAuthFlowsModel) -> bool {
        &&& optional_encodable::<OAuthFlow>(value.implicit)
        &&& optional_encodable::<OAuthFlow>(value.password)
        &&& optional_encodable::<OAuthFlow>(value.client_credentials)
        &&& optional_encodable::<OAuthFlow>(value.authorization_code)
    }

    open spec fn valid(value: OAuthFlowsModel) -> bool {
        &&& optional_valid::<OAuthFlow>(value.implicit)
        &&& optional_valid::<OAuthFlow>(value.password)
        &&& optional_valid::<OAuthFlow>(value.client_credentials)
        &&& optional_valid::<OAuthFlow>(value.authorization_code)
    }

    open spec fn encoded(value: OAuthFlowsModel) -> JsonModel {
        JsonModel::Object(named_members(Self::names(), Self::slots(value)))
    }

    fn decode(json: &Json) -> (res: Result<OAuthFlows, CodecError>) {
        let members = match json {
            Json::Object(members) => members,
            _ => {
                return Err(CodecError::ShapeMismatch);
            },
        };
        let mut reader = ObjectReader::new(members);
        let implicit = decode_optional::<OAuthFlow>(reader.field("implicit"))?;
        let password = decode_optional::<OAuthFlow>(reader.field("password"))?;
        let client_credentials = decode_optional::<OAuthFlow>(reader.field("clientCredentials"))?;
        let authorization_code = decode_optional::<OAuthFlow>(reader.field("authorizationCode"))?;
        Ok(OAuthFlows { implicit, password, client_credentials, authorization_code })
    }

    fn encode(&self) -> (res: Result<Json, CodecError>) {
        let writer = ObjectWriter::new();
        let writer = writer.put("implicit", encode_optional::<OAuthFlow>(&self.implicit)?);
        let writer = writer.put("password", encode_optional::<OAuthFlow>(&self.password)?);
        let writer = writer.put("clientCredentials", encode_optional::<OAuthFlow>(&self.client_credentials)?);
        let writer = writer.put("authorizationCode", encode_optional::<OAuthFlow>(&self.authorization_code)?);
        Ok(writer.finish())
    }

    fn duplicate(&self) -> (copy: OAuthFlows) {
        OAuthFlows {
            implicit: duplicate_optional(&self.implicit),
            password: duplicate_optional(&self.password),
            client_credentials: duplicate_optional(&self.client_credentials),
            authorization_code: duplicate_optional(&self.authorization_code),
        }
    }

    proof fn lemma_round_trip(value: OAuthFlowsModel) {
        let names = Self::names();
        let slots = Self::slots(value);
        Self::lemma_names_distinct();
        lemma_named_lookup(names, slots, 0);
        lemma_named_lookup(names, slots, 1);
        lemma_named_lookup(names, slots, 2);
        lemma_named_lookup(names, slots, 3);
        lemma_optional_round_trip::<OAuthFlow>(value.implicit);
        lemma_optional_round_trip::<OAuthFlow>(value.password);
        lemma_optional_round_trip::<OAuthFlow>(value.client_credentials);
        lemma_optional_round_trip::<OAuthFlow>(value.authorization_code);
    }

    proof fn lemma_read_is_valid(json: JsonModel) {
        let members = json->Object_0;
        let names = Self::names();
        let value = Self::decoded(json);
        let slots = Self::slots(value);
        lemma_optional_read_is_valid::<OAuthFlow>(lookup(members, "implicit"@));
        lemma_optional_read_is_valid::<OAuthFlow>(lookup(members, "password"@));
        lemma_optional_read_is_valid::<OAuthFlow>(lookup(members, "clientCredentials"@));
        lemma_optional_read_is_valid::<OAuthFlow>(lookup(members, "authorizationCode"@));
        Self::lemma_pointer_unnamed();
        lemma_named_lookup_other(names, slots, POINTER_KEY@);
    }
}

impl OAuthFlow {
    /// The keys of the named fields, in the order in which they are written.
    pub open spec fn names() -> Seq<Seq<char>> {
        Seq::empty()
            .push("authorizationUrl"@)
            .push("tokenUrl"@)
            .push("refreshUrl"@)
            .push("scopes"@)
    }

    /// What each named field is written as, in the order of the names.
    pub open spec fn slots(value: OAuthFlowModel) -> Seq<Option<JsonModel>> {
        Seq::empty()
            .push(required_encoded::<String>(value.authorization_url))
            .push(required_encoded::<String>(value.token_url))
            .push(optional_encoded::<String>(value.refresh_url))
            .push(required_encoded::<Table<String>>(value.scopes))
    }

    /// No key is named twice.
    pub proof fn lemma_names_distinct()
        ensures
            Self::names().no_duplicates(),
    {
        reveal_strlit("authorizationUrl");
        reveal_strlit("tokenUrl");
        reveal_strlit("refreshUrl");
        reveal_strlit("scopes");
        assert("authorizationUrl"@.len() == 16);
        assert("tokenUrl"@.len() == 8);
        assert("refreshUrl"@.len() == 10);
        assert("scopes"@.len() == 6);
    }

    /// The pointer key is none of the names.
    pub proof fn lemma_pointer_unnamed()
        ensures
            !Self::names().contains(POINTER_KEY@),
    {
        reveal_strlit("$ref");
        reveal_strlit("authorizationUrl");
        reveal_strlit("tokenUrl");
        reveal_strlit("refreshUrl");
        reveal_strlit("scopes");
        assert("$ref"@.len() == 4);
        assert("authorizationUrl"@.len() == 16);
        assert("tokenUrl"@.len() == 8);
        assert("refreshUrl"@.len() == 10);
        assert("scopes"@.len() == 6);
    }
}

impl Clone for OAuthFlow {
    fn clone(&self) -> (copy: OAuthFlow)
        ensures
            copy.model() == self.model(),
    {
        self.duplicate()
    }
}

impl Codec for OAuthFlow {
    type Model = OAuthFlowModel;

    open spec fn model(&self) -> OAuthFlowModel {
        OAuthFlowModel {
            authorization_url: self.authorization_url.model(),
            token_url: self.token_url.model(),
            refresh_url: option_model(self.refresh_url),
            scopes: self.scopes.model(),
        }
    }

    open spec fn fits(json: JsonModel) -> bool {
        &&& json is Object
        &&& required_fits::<String>(lookup(json->Object_0, "authorizationUrl"@))
        &&& required_fits::<String>(lookup(json->Object_0, "tokenUrl"@))
        &&& optional_fits::<String>(lookup(json->Object_0, "refreshUrl"@))
        &&& required_fits::<Table<String>>(lookup(json->Object_0, "scopes"@))
    }

    open spec fn decoded(json: JsonModel) -> OAuthFlowModel {
        OAuthFlowModel {
            authorization_url: required_decoded::<String>(lookup(json->Object_0, "authorizationUrl"@)),
            token_url: required_decoded::<String>(lookup(json->Object_0, "tokenUrl"@)),
            refresh_url: optional_decoded::<String>(lookup(json->Object_0, "refreshUrl"@)),
            scopes: required_decoded::<Table<String>>(lookup(json->Object_0, "scopes"@)),
        }
    }

    open spec fn encodable(value: OAuthFlowModel) -> bool {
        &&& required_encodable::<String>(value.authorization_url)
        &&& required_encodable::<String>(value.token_url)
        &&& optional_encodable::<String>(value.refresh_url)
        &&& required_encodable::<Table<String>>(value.scopes)
    }

    open spec fn valid(value: OAuthFlowModel) -> bool {
        &&& required_valid::<String>(value.authorization_url)
        &&& required_valid::<String>(value.token_url)
        &&& optional_valid::<String>(value.refresh_url)
        &&& required_valid::<Table<String>>(value.scopes)
    }

    open spec fn encoded(value: OAuthFlowModel) -> JsonModel {
        JsonModel::Object(named_members(Self::names(), Self::slots(value)))
    }

    fn decode(json: &Json) -> (res: Result<OAuthFlow, CodecError>) {
        let members = match json {
            Json::Object(members) => members,
            _ => {
                return Err(CodecError::ShapeMismatch);
            },
        };
        let mut reader = ObjectReader::new(members);
        let authorization_url = decode_required::<String>(reader.field("authorizationUrl"))?;
        let token_url = decode_required::<String>(reader.field("tokenUrl"))?;
        let refresh_url = decode_optional::<String>(reader.field("refreshUrl"))?;
        let scopes = decode_required::<Table<String>>(reader.field("scopes"))?;
        Ok(OAuthFlow { authorization_url, token_url, refresh_url, scopes })
    }

    fn encode(&self) -> (res: Result<Json, CodecError>) {
        let writer = ObjectWriter::new();
        let writer = writer.put("authorizationUrl", encode_required::<String>(&self.authorization_url)?);
        let writer = writer.put("tokenUrl", encode_required::<String>(&self.token_url)?);
        let writer = writer.put("refreshUrl", encode_optional::<String>(&self.refresh_url)?);
        let writer = writer.put("scopes", encode_required::<Table<String>>(&self.scopes)?);
        Ok(writer.finish())
    }

    fn duplicate(&self) -> (copy: OAuthFlow) {
        OAuthFlow {
            authorization_url: self.authorization_url.duplicate(),
            token_url: self.token_url.duplicate(),
            refresh_url: duplicate_optional(&self.refresh_url),
            scopes: self.scopes.duplicate(),
        }
    }

    proof fn lemma_round_trip(value: OAuthFlowModel) {
        let names = Self::names();
        let slots = Self::slots(value);
        Self::lemma_names_distinct();
        lemma_named_lookup(names, slots, 0);
        lemma_named_lookup(names, slots, 1);
        lemma_named_lookup(names, slots, 2);
        lemma_named_lookup(names, slots, 3);
        lemma_required_round_trip::<String>(value.authorization_url);
        lemma_required_round_trip::<String>(value.token_url);
        lemma_optional_round_trip::<String>(value.refresh_url);
        lemma_required_round_trip::<Table<String>>(value.scopes);
    }

    proof fn lemma_read_is_valid(json: JsonModel) {
        let members = json->Object_0;
        let names = Self::names();
        let value = Self::decoded(json);
        let slots = Self::slots(value);
        lemma_required_read_is_valid::<String>(lookup(members, "authorizationUrl"@));
        lemma_required_read_is_valid::<String>(lookup(members, "tokenUrl"@));
        lemma_optional_read_is_valid::<String>(lookup(members, "refreshUrl"@));
        lemma_required_read_is_valid::<Table<String>>(lookup(members, "scopes"@));
        Self::lemma_pointer_unnamed();
        lemma_named_lookup_other(names, slots, POINTER_KEY@);
    }
}

impl Codec for Reference {
    type Model = ReferenceModel;

    open spec fn model(&self) -> ReferenceModel {
        ReferenceModel { reference: self.reference@ }
    }

    open spec fn fits(json: JsonModel) -> bool {
        sniffed(json) is Pointer
    }

    open spec fn decoded(json: JsonModel) -> ReferenceModel {
        ReferenceModel { reference: sniffed(json)->Pointer_0 }
    }

    open spec fn encodable(value: ReferenceModel) -> bool {
        true
    }

    open spec fn encoded(value: ReferenceModel) -> JsonModel {
        pointer_object(value.reference)
    }

    open spec fn valid(value: ReferenceModel) -> bool {
        true
    }

    fn decode(json: &Json) -> (res: Result<Reference, CodecError>) {
        match sniff(json) {
            Sniff::Pointer(pointer) => Ok(Reference { reference: pointer.clone() }),
            _ => Err(CodecError::ShapeMismatch),
        }
    }

    fn encode(&self) -> (res: Result<Json, CodecError>) {
        Ok(pointer_json(&self.reference))
    }

    fn duplicate(&self) -> (copy: Reference) {
        Reference { reference: self.reference.clone() }
    }

    proof fn lemma_round_trip(value: ReferenceModel) {
        lemma_pointer_object_sniffed(value.reference);
    }

    proof fn lemma_read_is_valid(json: JsonModel) {
    }
}

/// The test on the pointer key comes first and is final. An object that holds
/// the key is a reference, whatever else it holds: what stands beside the
/// pointer is dropped. An object whose pointer is no text is an error, and is
/// never read as an inline value. Everything else is read as `T`.
impl<T: Codec> Codec for RefOrObject<T> {
    type Model = RefOrObjectModel<T::Model>;

    open spec fn model(&self) -> RefOrObjectModel<T::Model> {
        match self {
            RefOrObject::Ref(reference) => RefOrObjectModel::Ref(reference.model()),
            RefOrObject::Object(inner) => RefOrObjectModel::Object(inner.model()),
        }
    }

    open spec fn fits(json: JsonModel) -> bool {
        match sniffed(json) {
            Sniffed::Pointer(_) => true,
            Sniffed::Malformed => false,
            Sniffed::Inline => T::fits(json),
        }
    }

    open spec fn decoded(json: JsonModel) -> RefOrObjectModel<T::Model> {
        match sniffed(json) {
            Sniffed::Pointer(pointer) => RefOrObjectModel::Ref(
                ReferenceModel { reference: pointer },
            ),
            _ => RefOrObjectModel::Object(T::decoded(json)),
        }
    }

    open spec fn encodable(value: RefOrObjectModel<T::Model>) -> bool {
        match value {
            RefOrObjectModel::Ref(_) => true,
            RefOrObjectModel::Object(inner) => T::encodable(inner),
        }
    }

    open spec fn encoded(value: RefOrObjectModel<T::Model>) -> JsonModel {
        match value {
            RefOrObjectModel::Ref(reference) => pointer_object(reference.reference),
            RefOrObjectModel::Object(inner) => T::encoded(inner),
        }
    }

    /// An inline value that is written with the pointer key would be read as
    /// a reference: such a value is not valid.
    open spec fn valid(value: RefOrObjectModel<T::Model>) -> bool {
        match value {
            RefOrObjectModel::Ref(_) => true,
            RefOrObjectModel::Object(inner) => T::valid(inner) && sniffed(T::encoded(inner))
                is Inline,
        }
    }

    fn decode(json: &Json) -> (res: Result<RefOrObject<T>, CodecError>) {
        match sniff(json) {
            Sniff::Pointer(pointer) => Ok(
                RefOrObject::Ref(Reference { reference: pointer.clone() }),
            ),
            Sniff::Malformed => Err(CodecError::ShapeMismatch),
            Sniff::Inline => match T::decode(json) {
                Ok(value) => Ok(RefOrObject::Object(value)),
                Err(error) => Err(error),
            },
        }
    }

    fn encode(&self) -> (res: Result<Json, CodecError>) {
        match self {
            RefOrObject::Ref(reference) => Ok(pointer_json(&reference.reference)),
            RefOrObject::Object(inner) => inner.encode(),
        }
    }

    fn duplicate(&self) -> (copy: RefOrObject<T>) {
        match self {
            RefOrObject::Ref(reference) => RefOrObject::Ref(reference.duplicate()),
            RefOrObject::Object(inner) => RefOrObject::Object(inner.duplicate()),
        }
    }

    proof fn lemma_round_trip(value: RefOrObjectModel<T::Model>) {
        match value {
            RefOrObjectModel::Ref(reference) => {
                lemma_pointer_object_sniffed(reference.reference);
            },
            RefOrObjectModel::Object(inner) => {
                T::lemma_round_trip(inner);
            },
        }
    }

    proof fn lemma_read_is_valid(json: JsonModel) {
        if sniffed(json) is Inline {
            T::lemma_read_is_valid(json);
        }
    }
}

impl<T: Codec> RefOrObject<T> {
    /// Reference precedence: an object that holds a text under the pointer
    /// key is read as the reference to that text, whether or not it would
    /// also be read as `T`; nothing of what stands beside the pointer is in
    /// what was read.
    pub proof fn lemma_reference_precedence(json: JsonModel, pointer: Seq<char>)
        requires
            json matches JsonModel::Object(members) && lookup(members, POINTER_KEY@) == Some(
                JsonModel::String(pointer),
            ),
        ensures
            Self::fits(json),
            Self::decoded(json) == RefOrObjectModel::<T::Model>::Ref(
                ReferenceModel { reference: pointer },
            ),
    {
    }

    /// No way back: an object that holds the pointer key with anything but a
    /// text is an error, whether or not it would be read as `T`.
    pub proof fn lemma_malformed_pointer(json: JsonModel)
        requires
            json matches JsonModel::Object(members) && lookup(members, POINTER_KEY@) matches Some(
                held,
            ) && !(held is String),
        ensures
            !Self::fits(json),
    {
    }

    /// A reference is written as an object of one member, the pointer key
    /// with the pointer.
    pub proof fn lemma_reference_written(pointer: Seq<char>)
        ensures
            Self::encoded(RefOrObjectModel::Ref(ReferenceModel { reference: pointer }))
                == JsonModel::Object(
                seq![EntryModel { key: POINTER_KEY@, value: JsonModel::String(pointer) }],
            ),
    {
    }
}

impl Clone for Reference {
    fn clone(&self) -> (copy: Reference)
        ensures
            copy.model() == self.model(),
    {
        self.duplicate()
    }
}

impl<T: Codec> Clone for RefOrObject<T> {
    fn clone(&self) -> (copy: RefOrObject<T>)
        ensures
            copy.model() == self.model(),
    {
        self.duplicate()
    }
}

} // verus!
