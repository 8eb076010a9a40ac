//! The types of the older format, each beside its mathematical value.

use vstd::prelude::*;
use serde_json::Number;
use crate::codec::Table;
use crate::extension::Extensions;
use crate::json::{EntryModel, Json, JsonModel};

verus! {

/// A transfer protocol of the API.
#[derive(Clone, Copy, Debug, PartialEq, Eq, Default)]
pub enum TransferProtocol {
    #[default]
    Http,
    Https,
    Ws,
    Wss,
}

/// Where an API key is sent.
#[derive(Clone, Copy, Debug, PartialEq, Eq)]
pub enum InEnum {
    Query,
    Header,
}

/// The flow of an OAuth2 security scheme.
#[derive(Clone, Copy, Debug, PartialEq, Eq)]
pub enum Flow {
    Implicit,
    Password,
    Application,
    AccessCode,
}

/// The flows that carry scopes.
#[derive(Clone, Copy, Debug, PartialEq, Eq)]
pub enum Scopes {
    Implicit,
    Password,
    Application,
    AccessCode,
}

/// The flows that use an authorization URL.
#[derive(Clone, Copy, Debug, PartialEq, Eq)]
pub enum AuthorizationUrl {
    Implicit,
    AccessCode,
}

/// The type of a security scheme.
#[derive(Clone, Copy, Debug, PartialEq, Eq)]
pub enum SecuritySchemeType {
    Basic,
    ApiKey,
    Oauth2,
}

/// The flows that use a token URL.
#[derive(Clone, Copy, Debug, PartialEq, Eq)]
pub enum TokenUrl {
    Password,
    Application,
    AccessCode,
}

/// Where a parameter is sent.
#[derive(Clone, Copy, Debug, PartialEq, Eq)]
pub enum ParamInEnum {
    Query,
    Header,
    Path,
    FormData,
    Body,
}

/// The type of a parameter that is not sent in the body.
#[derive(Clone, Copy, Debug, PartialEq, Eq)]
pub enum ParameterType {
    String,
    Number,
    Integer,
    Boolean,
    Array,
    File,
}

/// The type of the items of an array parameter.
#[derive(Clone, Copy, Debug, PartialEq, Eq)]
pub enum ItemsType {
    String,
    Number,
    Integer,
    Boolean,
    Array,
}

/// The root of a document of the older format.
#[derive(Debug, PartialEq)]
pub struct Swagger {
    /// The version of the format, `2.0`.
    pub swagger: String,
    /// Metadata about the API.
    pub info: Info,
    /// The host, name or address, that serves the API.
    pub host: Option<String>,
    /// The path, relative to the host, under which the API is served.
    pub base_path: Option<String>,
    /// The transfer protocols of the API.
    pub schemas: Option<Vec<TransferProtocol>>,
    /// The MIME types that the API can consume.
    pub consumes: Option<String>,
    /// The MIME types that the API can produce.
    pub produces: Option<String>,
    /// The paths of the API and their operations.
    pub paths: Table<PathItem>,
    /// The data types that operations produce and consume.
    pub definitions: Option<Table<Schema>>,
    /// Parameters that operations can share.
    pub parameters: Option<Table<Parameter>>,
    /// Responses that operations can share.
    pub responses: Option<Table<Response>>,
    /// The security schemes that the document can use.
    pub security_definitions: Option<Table<SecurityScheme>>,
    /// The security schemes that apply to the API as a whole.
    pub security: Option<Vec<SecurityRequirementObject>>,
    /// The tags of the document, with their metadata.
    pub tags: Option<Vec<Tag>>,
    /// Further documentation.
    pub external_docs: Option<ExternalDoc>,
    /// The members that the record does not name.
    pub extensions: Extensions,
}

/// The mathematical value of a [`Swagger`].
pub ghost struct SwaggerModel {
    pub swagger: Seq<char>,
    pub info: InfoModel,
    pub host: Option<Seq<char>>,
    pub base_path: Option<Seq<char>>,
    pub schemas: Option<Seq<TransferProtocol>>,
    pub consumes: Option<Seq<char>>,
    pub produces: Option<Seq<char>>,
    pub paths: Seq<EntryModel<PathItemModel>>,
    pub definitions: Option<Seq<EntryModel<SchemaModel>>>,
    pub parameters: Option<Seq<EntryModel<ParameterModel>>>,
    pub responses: Option<Seq<EntryModel<ResponseModel>>>,
    pub security_definitions: Option<Seq<EntryModel<SecuritySchemeModel>>>,
    pub security: Option<Seq<Seq<EntryModel<Seq<Seq<char>>>>>>,
    pub tags: Option<Seq<TagModel>>,
    pub external_docs: Option<ExternalDocModel>,
    pub extensions: Seq<EntryModel<JsonModel>>,
}

/// Metadata about the API.
#[derive(Debug, PartialEq, Default)]
pub struct Info {
    /// The title of the application.
    pub title: String,
    /// A short description of the application.
    pub description: Option<String>,
    /// The terms of service of the API.
    pub terms_of_service: Option<String>,
    /// Whom to contact about the API.
    pub contact: Option<Contact>,
    /// The license of the API.
    pub license: Option<License>,
    /// The version of the API itself.
    pub version: Option<String>,
    /// The members that the record does not name.
    pub extensions: Extensions,
}

/// The mathematical value of a [`Info`].
pub ghost struct InfoModel {
    pub title: Seq<char>,
    pub description: Option<Seq<char>>,
    pub terms_of_service: Option<Seq<char>>,
    pub contact: Option<ContactModel>,
    pub license: Option<LicenseModel>,
    pub version: Option<Seq<char>>,
    pub extensions: Seq<EntryModel<JsonModel>>,
}

/// Whom to contact about the API.
#[derive(Debug, PartialEq, Default)]
pub struct Contact {
    /// The name of the person or organization.
    pub name: Option<String>,
    /// The URL of the contact information.
    pub url: Option<String>,
    /// The email address of the person or organization.
    pub email: Option<String>,
    /// The members that the record does not name.
    pub extensions: Extensions,
}

/// The mathematical value of a [`Contact`].
pub ghost struct ContactModel {
    pub name: Option<Seq<char>>,
    pub url: Option<Seq<char>>,
    pub email: Option<Seq<char>>,
    pub extensions: Seq<EntryModel<JsonModel>>,
}

/// The license of the API.
#[derive(Debug, PartialEq, Default)]
pub struct License {
    /// The name of the license.
    pub name: String,
    /// The URL of the license.
    pub url: Option<String>,
    /// The members that the record does not name.
    pub extensions: Extensions,
}

/// The mathematical value of a [`License`].
pub ghost struct LicenseModel {
    pub name: Seq<char>,
    pub url: Option<Seq<char>>,
    pub extensions: Seq<EntryModel<JsonModel>>,
}

/// A pointer to documentation kept elsewhere.
#[derive(Debug, PartialEq, Default)]
pub struct ExternalDoc {
    /// A short description of the documentation.
    pub description: Option<String>,
    /// The URL of the documentation.
    pub url: String,
}

/// The mathematical value of a [`ExternalDoc`].
pub ghost struct ExternalDocModel {
    pub description: Option<Seq<char>>,
    pub url: Seq<char>,
}

/// Metadata of one tag that operations use.
#[derive(Debug, PartialEq, Default)]
pub struct Tag {
    /// The name of the tag.
    pub name: String,
    /// A short description of the tag.
    pub description: Option<String>,
    /// Further documentation of the tag.
    pub external_doc: Option<ExternalDoc>,
}

/// The mathematical value of a [`Tag`].
pub ghost struct TagModel {
    pub name: Seq<char>,
    pub description: Option<Seq<char>>,
    pub external_doc: Option<ExternalDocModel>,
}

/// A security scheme that the document can use.
#[derive(Debug, PartialEq)]
pub struct SecurityScheme {
    /// The type of the scheme.
    pub type_: SecuritySchemeType,
    /// A short description of the scheme.
    pub description: Option<String>,
    /// The name of the header or query parameter.
    pub name: String,
    /// Where the API key is sent.
    pub in_: InEnum,
    /// The flow of an OAuth2 scheme.
    pub flow: Flow,
    /// The authorization URL of the flow.
    pub authorization_url: AuthorizationUrl,
    /// The token URL of the flow.
    pub token_url: TokenUrl,
    /// The scopes of an OAuth2 scheme.
    pub scopes: Table<String>,
    /// The members that the record does not name.
    pub extensions: Extensions,
}

/// The mathematical value of a [`SecurityScheme`].
pub ghost struct SecuritySchemeModel {
    pub type_: SecuritySchemeType,
    pub description: Option<Seq<char>>,
    pub name: Seq<char>,
    pub in_: InEnum,
    pub flow: Flow,
    pub authorization_url: AuthorizationUrl,
    pub token_url: TokenUrl,
    pub scopes: Seq<EntryModel<Seq<char>>>,
    pub extensions: Seq<EntryModel<JsonModel>>,
}

/// The operations of one path.
#[derive(Debug, PartialEq)]
pub struct PathItem {
    /// A pointer to a definition of this path item kept elsewhere.
    pub reference: Option<String>,
    /// The GET operation of the path.
    pub get: Option<Operation>,
    /// The PUT operation of the path.
    pub put: Option<Operation>,
    /// The POST operation of the path.
    pub post: Option<Operation>,
    /// The DELETE operation of the path.
    pub delete: Option<Operation>,
    /// The OPTIONS operation of the path.
    pub options: Option<Operation>,
    /// The HEAD operation of the path.
    pub head: Option<Operation>,
    /// The PATCH operation of the path.
    pub patch: Option<Operation>,
    /// The parameters that all operations of the path share.
    pub parameters: Option<Vec<ParameterOrRef>>,
}

/// The mathematical value of a [`PathItem`].
pub ghost struct PathItemModel {
    pub reference: Option<Seq<char>>,
    pub get: Option<OperationModel>,
    pub put: Option<OperationModel>,
    pub post: Option<OperationModel>,
    pub delete: Option<OperationModel>,
    pub options: Option<OperationModel>,
    pub head: Option<OperationModel>,
    pub patch: Option<OperationModel>,
    pub parameters: Option<Seq<ParameterOrRefModel>>,
}

/// One operation of a path.
#[derive(Debug, PartialEq)]
pub struct Operation {
    /// The tags of the operation.
    pub tags: Option<Vec<String>>,
    /// A short summary of what the operation does.
    pub summary: Option<String>,
    /// A longer explanation of the operation.
    pub description: Option<String>,
    /// Further documentation of the operation.
    pub external_docs: Option<ExternalDoc>,
    /// A text that identifies the operation.
    pub operation_id: Option<String>,
    /// The MIME types that the operation can consume.
    pub consumes: Option<Vec<String>>,
    /// The MIME types that the operation can produce.
    pub produces: Option<Vec<String>>,
    /// The parameters of the operation.
    pub parameters: Option<Vec<ParameterOrRef>>,
    /// The responses that the operation can give.
    pub responses: Responses,
    /// The transfer protocol of the operation.
    pub schemas: Option<TransferProtocol>,
    /// Whether the operation is deprecated.
    pub deprecated: Option<String>,
    /// The security schemes that apply to the operation.
    pub security: Option<Vec<SecurityRequirementObject>>,
    /// The members that the record does not name.
    pub extensions: Extensions,
}

/// The mathematical value of a [`Operation`].
pub ghost struct OperationModel {
    pub tags: Option<Seq<Seq<char>>>,
    pub summary: Option<Seq<char>>,
    pub description: Option<Seq<char>>,
    pub external_docs: Option<ExternalDocModel>,
    pub operation_id: Option<Seq<char>>,
    pub consumes: Option<Seq<Seq<char>>>,
    pub produces: Option<Seq<Seq<char>>>,
    pub parameters: Option<Seq<ParameterOrRefModel>>,
    pub responses: Seq<EntryModel<ResponseOrRefModel>>,
    pub schemas: Option<TransferProtocol>,
    pub deprecated: Option<Seq<char>>,
    pub security: Option<Seq<Seq<EntryModel<Seq<Seq<char>>>>>>,
    pub extensions: Seq<EntryModel<JsonModel>>,
}

/// One parameter of an operation.
#[derive(Debug, PartialEq)]
pub struct Parameter {
    /// The name of the parameter.
    pub name: String,
    /// Where the parameter is sent.
    pub in_: ParamInEnum,
    /// A short description of the parameter.
    pub description: Option<String>,
    /// Whether the parameter must be sent.
    pub required: Option<bool>,
    /// The type of a parameter that is sent in the body.
    pub schema: Option<Schema>,
    /// The type of a parameter that is not sent in the body.
    pub type_: Option<ParameterType>,
    /// The format that refines the type.
    pub format: Option<String>,
    /// Whether the parameter may be sent without a value.
    pub allow_empty_value: Option<bool>,
    /// The type of the items of an array parameter.
    pub items: Option<Items>,
    /// How the items of an array parameter are put together.
    pub collection_format: Option<String>,
    /// The value that the server uses where none is sent.
    pub default: Option<Json>,
    /// The largest value allowed.
    pub maximum: Option<Number>,
    /// Whether the largest value itself is left out.
    pub exclusive_maximum: Option<bool>,
    /// The smallest value allowed.
    pub minimum: Option<Number>,
    /// Whether the smallest value itself is left out.
    pub exclusive_minimum: Option<bool>,
    /// The largest length allowed.
    pub max_length: Option<Number>,
    /// The smallest length allowed.
    pub min_length: Option<Number>,
    /// The pattern that a text must match.
    pub pattern: Option<String>,
    /// The largest number of items allowed.
    pub max_items: Option<Number>,
    /// The smallest number of items allowed.
    pub min_items: Option<Number>,
    /// Whether the items must differ from each other.
    pub unique_items: Option<bool>,
    /// The values that the parameter may take.
    pub enum_: Option<Vec<Json>>,
    /// The number of which a value must be a multiple.
    pub multiple_of: Option<Number>,
    /// The members that the record does not name.
    pub extensions: Extensions,
}

/// The mathematical value of a [`Parameter`].
pub ghost struct ParameterModel {
    pub name: Seq<char>,
    pub in_: ParamInEnum,
    pub description: Option<Seq<char>>,
    pub required: Option<bool>,
    pub schema: Option<SchemaModel>,
    pub type_: Option<ParameterType>,
    pub format: Option<Seq<char>>,
    pub allow_empty_value: Option<bool>,
    pub items: Option<ItemsModel>,
    pub collection_format: Option<Seq<char>>,
    pub default: Option<JsonModel>,
    pub maximum: Option<Number>,
    pub exclusive_maximum: Option<bool>,
    pub minimum: Option<Number>,
    pub exclusive_minimum: Option<bool>,
    pub max_length: Option<Number>,
    pub min_length: Option<Number>,
    pub pattern: Option<Seq<char>>,
    pub max_items: Option<Number>,
    pub min_items: Option<Number>,
    pub unique_items: Option<bool>,
    pub enum_: Option<Seq<JsonModel>>,
    pub multiple_of: Option<Number>,
    pub extensions: Seq<EntryModel<JsonModel>>,
}

/// The description of a data type.
#[derive(Debug, PartialEq, Default)]
pub struct Schema {
    /// A pointer to another definition.
    pub reference: Option<String>,
    /// A title.
    pub title: Option<String>,
    /// A description.
    pub description: Option<String>,
    /// The name of the type.
    pub type_: Option<String>,
    /// The format that refines the type.
    pub format: Option<String>,
    /// The values that are allowed.
    pub enum_: Option<Vec<String>>,
    /// The properties that must be there.
    pub required: Option<Vec<String>>,
    /// The value that stands where none is given.
    pub default: Option<Json>,
    /// The largest value allowed.
    pub maximum: Option<Number>,
    /// Whether the largest value itself is left out.
    pub exclusive_maximum: Option<bool>,
    /// The smallest value allowed.
    pub minimum: Option<Number>,
    /// Whether the smallest value itself is left out.
    pub exclusive_minimum: Option<bool>,
    /// The largest length allowed.
    pub max_length: Option<Number>,
    /// The smallest length allowed.
    pub min_length: Option<Number>,
    /// The pattern that a text must match.
    pub pattern: Option<String>,
    /// The largest number of items allowed.
    pub max_items: Option<Number>,
    /// The smallest number of items allowed.
    pub min_items: Option<Number>,
    /// Whether the items must differ from each other.
    pub unique_items: Option<bool>,
    /// The number of which a value must be a multiple.
    pub multiple_of: Option<Number>,
    /// The type of the items of an array.
    pub items: Option<Box<Schema>>,
    /// The types of the properties of an object.
    pub properties: Option<Table<Schema>>,
    /// The types that this type puts together.
    pub all_of: Option<Vec<Box<Schema>>>,
    /// The members that the record does not name.
    pub extensions: Extensions,
}

/// The mathematical value of a [`Schema`].
pub ghost struct SchemaModel {
    pub reference: Option<Seq<char>>,
    pub title: Option<Seq<char>>,
    pub description: Option<Seq<char>>,
    pub type_: Option<Seq<char>>,
    pub format: Option<Seq<char>>,
    pub enum_: Option<Seq<Seq<char>>>,
    pub required: Option<Seq<Seq<char>>>,
    pub default: Option<JsonModel>,
    pub maximum: Option<Number>,
    pub exclusive_maximum: Option<bool>,
    pub minimum: Option<Number>,
    pub exclusive_minimum: Option<bool>,
    pub max_length: Option<Number>,
    pub min_length: Option<Number>,
    pub pattern: Option<Seq<char>>,
    pub max_items: Option<Number>,
    pub min_items: Option<Number>,
    pub unique_items: Option<bool>,
    pub multiple_of: Option<Number>,
    pub items: Option<Box<SchemaModel>>,
    pub properties: Option<Seq<EntryModel<SchemaModel>>>,
    pub all_of: Option<Seq<SchemaModel>>,
    pub extensions: Seq<EntryModel<JsonModel>>,
}

/// The type of the items of an array parameter: a small part of a schema.
#[derive(Debug, PartialEq)]
pub struct Items {
    /// The type of the items.
    pub type_: ItemsType,
    /// The format that refines the type.
    pub format: Option<String>,
    /// The type of the items of an array of arrays.
    pub items: Option<Box<Items>>,
    /// How the items of the array are put together.
    pub collection_format: Option<String>,
    /// The value that the server uses where none is sent.
    pub default: Option<Json>,
    /// The largest value allowed.
    pub maximum: Option<Number>,
    /// Whether the largest value itself is left out.
    pub exclusive_maximum: Option<bool>,
    /// The smallest value allowed.
    pub minimum: Option<Number>,
    /// Whether the smallest value itself is left out.
    pub exclusive_minimum: Option<bool>,
    /// The largest length allowed.
    pub max_length: Option<Number>,
    /// The smallest length allowed.
    pub min_length: Option<Number>,
    /// The pattern that a text must match.
    pub pattern: Option<String>,
    /// The largest number of items allowed.
    pub max_items: Option<Number>,
    /// The smallest number of items allowed.
    pub min_items: Option<Number>,
    /// Whether the items must differ from each other.
    pub unique_items: Option<bool>,
    /// The values that an item may take.
    pub enum_: Option<Vec<Json>>,
    /// The number of which a value must be a multiple.
    pub multiple_of: Option<Number>,
    /// The members that the record does not name.
    pub extensions: Extensions,
}

/// The mathematical value of a [`Items`].
pub ghost struct ItemsModel {
    pub type_: ItemsType,
    pub format: Option<Seq<char>>,
    pub items: Option<Box<ItemsModel>>,
    pub collection_format: Option<Seq<char>>,
    pub default: Option<JsonModel>,
    pub maximum: Option<Number>,
    pub exclusive_maximum: Option<bool>,
    pub minimum: Option<Number>,
    pub exclusive_minimum: Option<bool>,
    pub max_length: Option<Number>,
    pub min_length: Option<Number>,
    pub pattern: Option<Seq<char>>,
    pub max_items: Option<Number>,
    pub min_items: Option<Number>,
    pub unique_items: Option<bool>,
    pub enum_: Option<Seq<JsonModel>>,
    pub multiple_of: Option<Number>,
    pub extensions: Seq<EntryModel<JsonModel>>,
}

/// One response of an operation.
#[derive(Debug, PartialEq)]
pub struct Response {
    /// A short description of the response.
    pub description: String,
    /// The type of the body of the response.
    pub schema: Option<Schema>,
    /// The headers that are sent with the response.
    pub headers: Option<Table<Header>>,
    /// Examples of the body, by MIME type.
    pub examples: Option<Table<Json>>,
    /// The members that the record does not name.
    pub extensions: Extensions,
}

/// The mathematical value of a [`Response`].
pub ghost struct ResponseModel {
    pub description: Seq<char>,
    pub schema: Option<SchemaModel>,
    pub headers: Option<Seq<EntryModel<HeaderModel>>>,
    pub examples: Option<Seq<EntryModel<JsonModel>>>,
    pub extensions: Seq<EntryModel<JsonModel>>,
}

/// One header of a response.
#[derive(Debug, PartialEq)]
pub struct Header {
    /// A short description of the header.
    pub description: Option<String>,
    /// The type of the header.
    pub type_: ItemsType,
    /// The format that refines the type.
    pub format: Option<String>,
    /// The type of the items of an array header.
    pub items: Option<Box<Items>>,
    /// How the items of an array header are put together.
    pub collection_format: Option<String>,
    /// The value that the server uses where none is sent.
    pub default: Option<Json>,
    /// The largest value allowed.
    pub maximum: Option<Number>,
    /// Whether the largest value itself is left out.
    pub exclusive_maximum: Option<bool>,
    /// The smallest value allowed.
    pub minimum: Option<Number>,
    /// Whether the smallest value itself is left out.
    pub exclusive_minimum: Option<bool>,
    /// The largest length allowed.
    pub max_length: Option<Json>,
    /// The smallest length allowed.
    pub min_length: Option<Number>,
    /// The pattern that a text must match.
    pub pattern: Option<String>,
    /// The largest number of items allowed.
    pub max_items: Option<Number>,
    /// The smallest number of items allowed.
    pub min_items: Option<Number>,
    /// Whether the items must differ from each other.
    pub unique_items: Option<bool>,
    /// The values that the header may take.
    pub enum_: Option<Vec<Json>>,
    /// The number of which a value must be a multiple.
    pub multiple_of: Option<Number>,
    /// The members that the record does not name.
    pub extensions: Extensions,
}

/// The mathematical value of a [`Header`].
pub ghost struct HeaderModel {
    pub description: Option<Seq<char>>,
    pub type_: ItemsType,
    pub format: Option<Seq<char>>,
    pub items: Option<ItemsModel>,
    pub collection_format: Option<Seq<char>>,
    pub default: Option<JsonModel>,
    pub maximum: Option<Number>,
    pub exclusive_maximum: Option<bool>,
    pub minimum: Option<Number>,
    pub exclusive_minimum: Option<bool>,
    pub max_length: Option<JsonModel>,
    pub min_length: Option<Number>,
    pub pattern: Option<Seq<char>>,
    pub max_items: Option<Number>,
    pub min_items: Option<Number>,
    pub unique_items: Option<bool>,
    pub enum_: Option<Seq<JsonModel>>,
    pub multiple_of: Option<Number>,
    pub extensions: Seq<EntryModel<JsonModel>>,
}

/// A pointer to a definition kept elsewhere.
#[derive(Debug, PartialEq)]
pub struct Reference {
    /// The pointer.
    pub reference: String,
}

/// The mathematical value of a [`Reference`].
pub ghost struct ReferenceModel {
    pub reference: Seq<char>,
}

/// A parameter, or a pointer to one.
#[derive(Debug, PartialEq)]
pub enum ParameterOrRef {
    Ref(Reference),
    Parameter(Parameter),
}

/// The mathematical value of a [`ParameterOrRef`].
pub ghost enum ParameterOrRefModel {
    Ref(ReferenceModel),
    Parameter(ParameterModel),
}

/// A response, or a pointer to one.
#[derive(Debug, PartialEq)]
pub enum ResponseOrRef {
    Response {
        /// A short description of the response.
        description: String,
        /// The type of the body of the response.
        schema: Option<Schema>,
        /// The headers that are sent with the response.
        headers: Option<Table<Header>>,
        /// Examples of the body, by MIME type.
        examples: Option<Table<Json>>,
        /// The members that the record does not name.
        extensions: Extensions,
    },
    Ref {
        /// The pointer.
        reference: String,
    },
}

/// The mathematical value of a [`ResponseOrRef`].
pub ghost enum ResponseOrRefModel {
    Response(ResponseModel),
    Ref(ReferenceModel),
}

/// The responses of an operation, by status code.
#[derive(Debug, PartialEq)]
pub struct Responses(pub Table<ResponseOrRef>);

/// The security schemes that an operation asks for, each with its scopes.
#[derive(Debug, PartialEq)]
pub struct SecurityRequirementObject(pub Table<Vec<String>>);

} // verus!
