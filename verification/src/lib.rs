//! Typed reading and writing of API description documents.
//!
//! A document is a JSON text in one of two incompatible root shapes. The
//! library binds such a text to a typed value, and turns a typed value back
//! into JSON. Three mechanisms recur throughout: the version of a document is
//! found from its shape alone, a position may hold a reference or an inline
//! value, and the keys that a record does not name are kept in a bag and
//! emitted again.

use vstd::prelude::*;

pub mod codec;
pub mod error;
pub mod extension;
pub mod json;
pub mod resolver;
pub mod v2;
pub mod v3;
pub mod wire;

pub use codec::{Codec, Table};
pub use error::CodecError;
pub use extension::{Extensions, ObjectReader, ObjectWriter};
pub use json::{Entry, EntryModel, Json, JsonModel};
pub use v2::schema::{Swagger, SwaggerModel};
pub use v3::schema::{OpenApi, OpenApiModel, RefOrObject, RefOrObjectModel};

use extension::lemma_named_lookup_other;
use json::lookup;
use wire::{bytes_value, printed, stored, text_value};

verus! {

/// A document, in the one of the two formats whose root shape it has.
#[derive(Debug, PartialEq)]
pub enum Doc {
    V2(Swagger),
    V3(OpenApi),
}

/// The mathematical value of a [`Doc`].
pub ghost enum DocModel {
    V2(SwaggerModel),
    V3(OpenApiModel),
}

impl Doc {
    /// The mathematical value.
    pub open spec fn model(&self) -> DocModel {
        match self {
            Doc::V2(document) => DocModel::V2(document.model()),
            Doc::V3(document) => DocModel::V3(document.model()),
        }
    }

    /// Whether a JSON value has one of the two root shapes.
    pub open spec fn fits(json: JsonModel) -> bool {
        Swagger::fits(json) || OpenApi::fits(json)
    }

    /// What a JSON value with one of the two root shapes holds. The older
    /// format is tried first: a value that has both shapes is a document of
    /// the older format.
    pub open spec fn decoded(json: JsonModel) -> DocModel {
        if Swagger::fits(json) {
            DocModel::V2(Swagger::decoded(json))
        } else {
            DocModel::V3(OpenApi::decoded(json))
        }
    }

    /// Whether the document can be written.
    pub open spec fn encodable(value: DocModel) -> bool {
        match value {
            DocModel::V2(document) => Swagger::encodable(document),
            DocModel::V3(document) => OpenApi::encodable(document),
        }
    }

    /// The JSON value that the document is written as.
    pub open spec fn encoded(value: DocModel) -> JsonModel {
        match value {
            DocModel::V2(document) => Swagger::encoded(document),
            DocModel::V3(document) => OpenApi::encoded(document),
        }
    }

    /// Whether reading what was written gives the document back.
    pub open spec fn valid(value: DocModel) -> bool {
        match value {
            DocModel::V2(document) => Swagger::valid(document),
            DocModel::V3(document) => OpenApi::valid(document),
        }
    }

    /// Reads a document from a JSON value, without a hint at its version.
    /// The older root shape is tried first, then the newer; the first that
    /// the value has decides. Fails with `NoVariantMatched` exactly where
    /// the value has neither shape.
    pub fn decode(json: &Json) -> (res: Result<Doc, CodecError>)
        ensures
            match res {
                Ok(document) => Self::fits(json.model()) && document.model() == Self::decoded(
                    json.model(),
                ),
                Err(error) => !Self::fits(json.model()) && error == CodecError::NoVariantMatched,
            },
    {
        match Swagger::decode(json) {
            Ok(document) => Ok(Doc::V2(document)),
            Err(_) => match OpenApi::decode(json) {
                Ok(document) => Ok(Doc::V3(document)),
                Err(_) => Err(CodecError::NoVariantMatched),
            },
        }
    }

    /// Writes the document as a JSON value, by the format that it is in.
    /// Fails with `ExtensionCollision` exactly on a document that is not
    /// encodable.
    pub fn encode(&self) -> (res: Result<Json, CodecError>)
        ensures
            match res {
                Ok(json) => Self::encodable(self.model()) && json.model() == Self::encoded(
                    self.model(),
                ),
                Err(error) => !Self::encodable(self.model()) && error
                    == CodecError::ExtensionCollision,
            },
    {
        match self {
            Doc::V2(document) => document.encode(),
            Doc::V3(document) => document.encode(),
        }
    }

    /// A deep copy: a document of its own that holds the same.
    pub fn duplicate(&self) -> (copy: Doc)
        ensures
            copy.model() == self.model(),
    {
        match self {
            Doc::V2(document) => Doc::V2(document.duplicate()),
            Doc::V3(document) => Doc::V3(document.duplicate()),
        }
    }

    /// A document of the newer format is never written with the key that
    /// every document of the older format must hold.
    pub proof fn lemma_newer_is_not_older(document: OpenApiModel)
        ensures
            !Swagger::fits(OpenApi::encoded(document)),
    {
        let names = OpenApi::names();
        reveal_strlit("swagger");
        reveal_strlit("openapi");
        reveal_strlit("info");
        reveal_strlit("servers");
        reveal_strlit("paths");
        reveal_strlit("components");
        reveal_strlit("security");
        reveal_strlit("tags");
        reveal_strlit("externalDocs");
        assert("swagger"@.len() == 7 && "swagger"@[0] == 's' && "swagger"@[1] == 'w');
        assert("openapi"@.len() == 7 && "openapi"@[0] == 'o');
        assert("info"@.len() == 4);
        assert("servers"@.len() == 7 && "servers"@[1] == 'e');
        assert("paths"@.len() == 5);
        assert("components"@.len() == 10);
        assert("security"@.len() == 8);
        assert("tags"@.len() == 4);
        assert("externalDocs"@.len() == 12);
        assert(!names.contains("swagger"@));
        lemma_named_lookup_other(names, OpenApi::slots(document), "swagger"@);
        reveal(codec::required_fits);
    }

    /// Round trip: a valid document can be written, and reading what was
    /// written gives the same document, in the same format.
    pub proof fn lemma_round_trip(value: DocModel)
        requires
            Self::valid(value),
        ensures
            Self::encodable(value),
            Self::fits(Self::encoded(value)),
            Self::decoded(Self::encoded(value)) == value,
    {
        match value {
            DocModel::V2(document) => {
                Swagger::lemma_round_trip(document);
            },
            DocModel::V3(document) => {
                OpenApi::lemma_round_trip(document);
                Self::lemma_newer_is_not_older(document);
            },
        }
    }

    /// Every document that was read is valid.
    pub proof fn lemma_read_is_valid(json: JsonModel)
        requires
            Self::fits(json),
        ensures
            Self::valid(Self::decoded(json)),
    {
        if Swagger::fits(json) {
            Swagger::lemma_read_is_valid(json);
        } else {
            OpenApi::lemma_read_is_valid(json);
        }
    }

    /// Round trip of what was read: every document that was read can be
    /// written, and reading what is written gives the same document.
    pub proof fn lemma_read_written_read(json: JsonModel)
        requires
            Self::fits(json),
        ensures
            Self::encodable(Self::decoded(json)),
            Self::fits(Self::encoded(Self::decoded(json))),
            Self::decoded(Self::encoded(Self::decoded(json))) == Self::decoded(json),
    {
        Self::lemma_read_is_valid(json);
        Self::lemma_round_trip(Self::decoded(json));
    }

    /// Version precedence: a JSON value that has both root shapes is read as
    /// a document of the older format.
    pub proof fn lemma_version_precedence(json: JsonModel)
        requires
            Swagger::fits(json),
            OpenApi::fits(json),
        ensures
            Self::decoded(json) == DocModel::V2(Swagger::decoded(json)),
    {
    }

    /// A JSON value that is no object, or an object that holds neither
    /// version key, has neither root shape.
    pub proof fn lemma_no_version_key(json: JsonModel)
        requires
            json matches JsonModel::Object(members) ==> lookup(members, "swagger"@) is None
                && lookup(members, "openapi"@) is None,
        ensures
            !Self::fits(json),
    {
        reveal(codec::required_fits);
    }
}

impl Clone for Doc {
    fn clone(&self) -> (copy: Doc)
        ensures
            copy.model() == self.model(),
    {
        self.duplicate()
    }
}

/// What reading a document from the outcome of the parser gives: the parser's
/// failure is `MalformedInput`, a value of neither root shape is
/// `NoVariantMatched`.
pub open spec fn read_document(parsed: Option<JsonModel>) -> Result<DocModel, CodecError> {
    match parsed {
        None => Err(CodecError::MalformedInput),
        Some(json) => if Doc::fits(json) {
            Ok(Doc::decoded(json))
        } else {
            Err(CodecError::NoVariantMatched)
        },
    }
}

/// What reading a document of the older format from the outcome of the
/// parser gives.
pub open spec fn read_swagger(parsed: Option<JsonModel>) -> Result<SwaggerModel, CodecError> {
    match parsed {
        None => Err(CodecError::MalformedInput),
        Some(json) => if Swagger::fits(json) {
            Ok(Swagger::decoded(json))
        } else {
            Err(CodecError::ShapeMismatch)
        },
    }
}

/// What reading a document of the newer format from the outcome of the
/// parser gives.
pub open spec fn read_openapi(parsed: Option<JsonModel>) -> Result<OpenApiModel, CodecError> {
    match parsed {
        None => Err(CodecError::MalformedInput),
        Some(json) => if OpenApi::fits(json) {
            Ok(OpenApi::decoded(json))
        } else {
            Err(CodecError::ShapeMismatch)
        },
    }
}

/// The mathematical value of the outcome of reading a document.
pub open spec fn outcome_model(outcome: Result<Doc, CodecError>) -> Result<DocModel, CodecError> {
    match outcome {
        Ok(document) => Ok(document.model()),
        Err(error) => Err(error),
    }
}

/// The mathematical value of the outcome of reading a single record.
pub open spec fn record_outcome_model<T: Codec>(outcome: Result<T, CodecError>) -> Result<
    T::Model,
    CodecError,
> {
    match outcome {
        Ok(record) => Ok(record.model()),
        Err(error) => Err(error),
    }
}

/// Reads a document from a JSON text. An empty text holds no document:
/// `NoVariantMatched`. Any other text goes to the parser, and what it yields
/// is read as `read_document` says.
pub fn from_str(text: &str) -> (res: Result<Doc, CodecError>)
    ensures
        outcome_model(res) == if text@.len() == 0 {
            Err(CodecError::NoVariantMatched)
        } else {
            read_document(text_value(text@))
        },
{
    if text.is_empty() {
        return Err(CodecError::NoVariantMatched);
    }
    match Json::from_text(text) {
        Ok(json) => Doc::decode(&json),
        Err(error) => Err(error),
    }
}

/// Reads a document from the bytes of a JSON text. No bytes hold no document:
/// `NoVariantMatched`. Any other input goes to the parser, and what it yields
/// is read as `read_document` says.
pub fn from_reader(read: &[u8]) -> (res: Result<Doc, CodecError>)
    ensures
        outcome_model(res) == if read@.len() == 0 {
            Err(CodecError::NoVariantMatched)
        } else {
            read_document(bytes_value(read@))
        },
{
    if read.len() == 0 {
        return Err(CodecError::NoVariantMatched);
    }
    match Json::from_bytes(read) {
        Ok(json) => Doc::decode(&json),
        Err(error) => Err(error),
    }
}

/// Reads a document of the older format from the bytes of a JSON text,
/// without trying the newer format.
pub fn swagger_from_reader(read: &[u8]) -> (res: Result<Swagger, CodecError>)
    ensures
        record_outcome_model(res) == read_swagger(bytes_value(read@)),
{
    match Json::from_bytes(read) {
        Ok(json) => Swagger::decode(&json),
        Err(error) => Err(error),
    }
}

/// Reads a document of the newer format from the bytes of a JSON text,
/// without trying the older format.
pub fn openapi_from_reader(read: &[u8]) -> (res: Result<OpenApi, CodecError>)
    ensures
        record_outcome_model(res) == read_openapi(bytes_value(read@)),
{
    match Json::from_bytes(read) {
        Ok(json) => OpenApi::decode(&json),
        Err(error) => Err(error),
    }
}

/// Writes a document as compact JSON text. Fails with `ExtensionCollision`
/// exactly on a document that is not encodable.
pub fn to_string(document: &Doc) -> (res: Result<String, CodecError>)
    ensures
        match res {
            Ok(text) => Doc::encodable(document.model()) && text@ == printed(
                stored(Doc::encoded(document.model())),
            ),
            Err(error) => !Doc::encodable(document.model()) && error
                == CodecError::ExtensionCollision,
        },
{
    match document.encode() {
        Ok(json) => Ok(json.to_text()),
        Err(error) => Err(error),
    }
}

} // verus!
