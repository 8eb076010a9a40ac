//! The types of the newer format, each beside its mathematical value.

use vstd::prelude::*;
use serde_json::Number;
use crate::codec::Table;
use crate::extension::Extensions;
use crate::json::{EntryModel, Json, JsonModel};

verus! {

/// The type of a security scheme.
#[derive(Clone, Copy, Debug, PartialEq, Eq)]
pub enum SecuritySchemeType {
    ApiKey,
    Http,
    Oauth2,
    OpenIdConnect,
}

/// The root of a document of the newer format.
#[derive(Debug, PartialEq)]
pub struct OpenApi {
    /// The version of the format that the document uses.
    pub openapi: String,
    /// Metadata about the API.
    pub info: Info,
    /// The servers that serve the API.
    pub servers: Option<Vec<Server>>,
    /// The paths of the API and their operations.
    pub paths: Table<PathItem>,
    /// The definitions that the document shares.
    pub components: Option<Components>,
    /// The security schemes that apply to the API as a whole.
    pub security: Option<Table<Vec<String>>>,
    /// The tags of the document, with their metadata.
    pub tags: Option<Vec<Tag>>,
    /// Further documentation.
    pub external_docs: Option<ExternalDoc>,
}

/// The mathematical value of a [`OpenApi`].
pub ghost struct OpenApiModel {
    pub openapi: Seq<char>,
    pub info: InfoModel,
    pub servers: Option<Seq<ServerModel>>,
    pub paths: Seq<EntryModel<PathItemModel>>,
    pub components: Option<ComponentsModel>,
    pub security: Option<Seq<EntryModel<Seq<Seq<char>>>>>,
    pub tags: Option<Seq<TagModel>>,
    pub external_docs: Option<ExternalDocModel>,
}

/// Metadata about the API.
#[derive(Debug, PartialEq, Default)]
pub struct Info {
    /// The title of the application.
    pub title: String,
    /// A short description of the application.
    pub description: Option<String>,
    /// The terms of service of the API.
    pub terms_of_service: Option<String>,
    /// Whom to contact about the API.
    pub contact: Option<Contact>,
    /// The license of the API.
    pub license: Option<License>,
    /// The version of the API itself.
    pub version: Option<String>,
    /// The members that the record does not name.
    pub extensions: Extensions,
}

/// The mathematical value of a [`Info`].
pub ghost struct InfoModel {
    pub title: Seq<char>,
    pub description: Option<Seq<char>>,
    pub terms_of_service: Option<Seq<char>>,
    pub contact: Option<ContactModel>,
    pub license: Option<LicenseModel>,
    pub version: Option<Seq<char>>,
    pub extensions: Seq<EntryModel<JsonModel>>,
}

/// Whom to contact about the API.
#[derive(Debug, PartialEq, Default)]
pub struct Contact {
    /// The name of the person or organization.
    pub name: Option<String>,
    /// The URL of the contact information.
    pub url: Option<String>,
    /// The email address of the person or organization.
    pub email: Option<String>,
    /// The members that the record does not name.
    pub extensions: Extensions,
}

/// The mathematical value of a [`Contact`].
pub ghost struct ContactModel {
    pub name: Option<Seq<char>>,
    pub url: Option<Seq<char>>,
    pub email: Option<Seq<char>>,
    pub extensions: Seq<EntryModel<JsonModel>>,
}

/// The license of the API.
#[derive(Debug, PartialEq, Default)]
pub struct License {
    /// The name of the license.
    pub name: String,
    /// The URL of the license.
    pub url: Option<String>,
    /// The members that the record does not name.
    pub extensions: Extensions,
}

/// The mathematical value of a [`License`].
pub ghost struct LicenseModel {
    pub name: Seq<char>,
    pub url: Option<Seq<char>>,
    pub extensions: Seq<EntryModel<JsonModel>>,
}

/// A server that serves the API.
#[derive(Debug, PartialEq)]
pub struct Server {
    /// The URL of the server.
    pub url: String,
    /// A short description of the server.
    pub description: Option<String>,
    /// The variables of the URL, by name.
    pub variables: Option<Table<ServerVariable>>,
    /// The members that the record does not name.
    pub extensions: Extensions,
}

/// The mathematical value of a [`Server`].
pub ghost struct ServerModel {
    pub url: Seq<char>,
    pub description: Option<Seq<char>>,
    pub variables: Option<Seq<EntryModel<ServerVariableModel>>>,
    pub extensions: Seq<EntryModel<JsonModel>>,
}

/// A variable of the URL of a server.
#[derive(Debug, PartialEq)]
pub struct ServerVariable {
    /// The values that the variable may take.
    pub enum_: Option<Vec<String>>,
    /// The value that stands where none is given.
    pub default: String,
    /// A short description of the variable.
    pub description: Option<String>,
    /// The members that the record does not name.
    pub extensions: Extensions,
}

/// The mathematical value of a [`ServerVariable`].
pub ghost struct ServerVariableModel {
    pub enum_: Option<Seq<Seq<char>>>,
    pub default: Seq<char>,
    pub description: Option<Seq<char>>,
    pub extensions: Seq<EntryModel<JsonModel>>,
}

/// The definitions that the parts of a document share.
#[derive(Debug, PartialEq)]
pub struct Components {
    /// The shared schemas.
    pub schemas: Option<Table<RefOrObject<Schema>>>,
    /// The shared responses.
    pub responses: Option<Table<RefOrObject<Response>>>,
    /// The shared parameters.
    pub parameters: Option<Table<RefOrObject<Parameter>>>,
    /// The shared examples.
    pub examples: Option<Table<RefOrObject<Example>>>,
    /// The shared request bodies.
    pub request_bodies: Option<Table<RefOrObject<RequestBody>>>,
    /// The shared headers.
    pub headers: Option<Table<RefOrObject<Header>>>,
    /// The shared security schemes.
    pub security_schemes: Option<Table<RefOrObject<SecurityScheme>>>,
    /// The shared links.
    pub links: Option<Table<RefOrObject<Link>>>,
    /// The shared callbacks.
    pub callbacks: Option<Table<RefOrObject<Table<PathItem>>>>,
    /// The members that the record does not name.
    pub extensions: Extensions,
}

/// The mathematical value of a [`Components`].
pub ghost struct ComponentsModel {
    pub schemas: Option<Seq<EntryModel<RefOrObjectModel<SchemaModel>>>>,
    pub responses: Option<Seq<EntryModel<RefOrObjectModel<ResponseModel>>>>,
    pub parameters: Option<Seq<EntryModel<RefOrObjectModel<ParameterModel>>>>,
    pub examples: Option<Seq<EntryModel<RefOrObjectModel<ExampleModel>>>>,
    pub request_bodies: Option<Seq<EntryModel<RefOrObjectModel<RequestBodyModel>>>>,
    pub headers: Option<Seq<EntryModel<RefOrObjectModel<HeaderModel>>>>,
    pub security_schemes: Option<Seq<EntryModel<RefOrObjectModel<SecuritySchemeModel>>>>,
    pub links: Option<Seq<EntryModel<RefOrObjectModel<LinkModel>>>>,
    pub callbacks: Option<Seq<EntryModel<RefOrObjectModel<Seq<EntryModel<PathItemModel>>>>>>,
    pub extensions: Seq<EntryModel<JsonModel>>,
}

/// The operations of one path.
#[derive(Debug, PartialEq)]
pub struct PathItem {
    /// A pointer to a definition of this path item kept elsewhere.
    pub reference: Option<String>,
    /// A summary that applies to all operations of the path.
    pub summary: Option<String>,
    /// A description that applies to all operations of the path.
    pub description: Option<String>,
    /// The GET operation of the path.
    pub get: Option<Operation>,
    /// The PUT operation of the path.
    pub put: Option<Operation>,
    /// The POST operation of the path.
    pub post: Option<Operation>,
    /// The DELETE operation of the path.
    pub delete: Option<Operation>,
    /// The OPTIONS operation of the path.
    pub options: Option<Operation>,
    /// The HEAD operation of the path.
    pub head: Option<Operation>,
    /// The PATCH operation of the path.
    pub patch: Option<Operation>,
    /// The TRACE operation of the path.
    pub trace: Option<Operation>,
    /// The servers that serve the operations of the path.
    pub servers: Option<Vec<Server>>,
    /// The parameters that all operations of the path share.
    pub parameters: Option<Vec<RefOrObject<Parameter>>>,
    /// The members that the record does not name.
    pub extensions: Extensions,
}

/// The mathematical value of a [`PathItem`].
pub ghost struct PathItemModel {
    pub reference: Option<Seq<char>>,
    pub summary: Option<Seq<char>>,
    pub description: Option<Seq<char>>,
    pub get: Option<OperationModel>,
    pub put: Option<OperationModel>,
    pub post: Option<OperationModel>,
    pub delete: Option<OperationModel>,
    pub options: Option<OperationModel>,
    pub head: Option<OperationModel>,
    pub patch: Option<OperationModel>,
    pub trace: Option<OperationModel>,
    pub servers: Option<Seq<ServerModel>>,
    pub parameters: Option<Seq<RefOrObjectModel<ParameterModel>>>,
    pub extensions: Seq<EntryModel<JsonModel>>,
}

/// One operation of a path.
#[derive(Debug, PartialEq)]
pub struct Operation {
    /// The tags of the operation.
    pub tags: Option<Vec<String>>,
    /// A short summary of what the operation does.
    pub summary: Option<String>,
    /// A longer explanation of the operation.
    pub description: Option<String>,
    /// Further documentation of the operation.
    pub external_docs: Option<ExternalDoc>,
    /// A text that identifies the operation.
    pub operation_id: Option<String>,
    /// The parameters of the operation.
    pub parameters: Option<Vec<RefOrObject<Parameter>>>,
    /// The body of the request.
    pub request_body: Option<RefOrObject<RequestBody>>,
    /// The responses that the operation can give.
    pub responses: Table<RefOrObject<Response>>,
    /// The callbacks that the operation can start.
    pub callbacks: Option<Table<RefOrObject<Table<PathItem>>>>,
    /// Whether the operation is on its way out.
    pub deprecated: Option<bool>,
    /// The security schemes that apply to the operation.
    pub security: Option<Vec<Table<Vec<String>>>>,
    /// The servers that serve the operation.
    pub servers: Option<Vec<Server>>,
    /// The members that the record does not name.
    pub extensions: Extensions,
}

/// The mathematical value of a [`Operation`].
pub ghost struct OperationModel {
    pub tags: Option<Seq<Seq<char>>>,
    pub summary: Option<Seq<char>>,
    pub description: Option<Seq<char>>,
    pub external_docs: Option<ExternalDocModel>,
    pub operation_id: Option<Seq<char>>,
    pub parameters: Option<Seq<RefOrObjectModel<ParameterModel>>>,
    pub request_body: Option<RefOrObjectModel<RequestBodyModel>>,
    pub responses: Seq<EntryModel<RefOrObjectModel<ResponseModel>>>,
    pub callbacks: Option<Seq<EntryModel<RefOrObjectModel<Seq<EntryModel<PathItemModel>>>>>>,
    pub deprecated: Option<bool>,
    pub security: Option<Seq<Seq<EntryModel<Seq<Seq<char>>>>>>,
    pub servers: Option<Seq<ServerModel>>,
    pub extensions: Seq<EntryModel<JsonModel>>,
}

/// A pointer to documentation kept elsewhere.
#[derive(Debug, PartialEq)]
pub struct ExternalDoc {
    /// A short description of the documentation.
    pub description: Option<String>,
    /// The URL of the documentation.
    pub url: String,
    /// The members that the record does not name.
    pub extensions: Extensions,
}

/// The mathematical value of a [`ExternalDoc`].
pub ghost struct ExternalDocModel {
    pub description: Option<Seq<char>>,
    pub url: Seq<char>,
    pub extensions: Seq<EntryModel<JsonModel>>,
}

/// One parameter of an operation.
#[derive(Debug, PartialEq)]
pub struct Parameter {
    /// The name of the parameter.
    pub name: String,
    /// Where the parameter is sent.
    pub in_: String,
    /// A short description of the parameter.
    pub description: Option<String>,
    /// Whether the parameter must be sent.
    pub required: Option<bool>,
    /// Whether the parameter is on its way out.
    pub deprecated: Option<bool>,
    /// Whether the parameter may be sent without a value.
    pub allow_empty_value: Option<bool>,
    /// How the value is written out.
    pub style: Option<String>,
    /// Whether an array or an object gives one parameter for each item.
    pub explode: Option<bool>,
    /// Whether reserved characters may stand in the value as they are.
    pub allow_reserved: Option<bool>,
    /// The type of the parameter.
    pub schema: Option<RefOrObject<Schema>>,
    /// An example of the value.
    pub example: Option<Json>,
    /// Examples of the value, by name.
    pub examples: Option<Table<RefOrObject<Example>>>,
    /// The representations of the parameter, by media type.
    pub content: Option<Table<Media>>,
    /// The members that the record does not name.
    pub extensions: Extensions,
}

/// The mathematical value of a [`Parameter`].
pub ghost struct ParameterModel {
    pub name: Seq<char>,
    pub in_: Seq<char>,
    pub description: Option<Seq<char>>,
    pub required: Option<bool>,
    pub deprecated: Option<bool>,
    pub allow_empty_value: Option<bool>,
    pub style: Option<Seq<char>>,
    pub explode: Option<bool>,
    pub allow_reserved: Option<bool>,
    pub schema: Option<RefOrObjectModel<SchemaModel>>,
    pub example: Option<JsonModel>,
    pub examples: Option<Seq<EntryModel<RefOrObjectModel<ExampleModel>>>>,
    pub content: Option<Seq<EntryModel<MediaModel>>>,
    pub extensions: Seq<EntryModel<JsonModel>>,
}

/// The body of a request.
#[derive(Debug, PartialEq)]
pub struct RequestBody {
    /// A short description of the body.
    pub description: Option<String>,
    /// The representations of the body, by media type.
    pub content: Table<Media>,
    /// Whether the body must be sent.
    pub required: Option<bool>,
    /// The members that the record does not name.
    pub extensions: Extensions,
}

/// The mathematical value of a [`RequestBody`].
pub ghost struct RequestBodyModel {
    pub description: Option<Seq<char>>,
    pub content: Seq<EntryModel<MediaModel>>,
    pub required: Option<bool>,
    pub extensions: Seq<EntryModel<JsonModel>>,
}

/// One response of an operation.
#[derive(Debug, PartialEq)]
pub struct Response {
    /// A short description of the response.
    pub description: String,
    /// The headers of the response, by name.
    pub headers: Option<Table<RefOrObject<Header>>>,
    /// The representations of the response, by media type.
    pub content: Option<Table<Media>>,
    /// The links that lead on from the response, by name.
    pub links: Option<Table<RefOrObject<Link>>>,
    /// The members that the record does not name.
    pub extensions: Extensions,
}

/// The mathematical value of a [`Response`].
pub ghost struct ResponseModel {
    pub description: Seq<char>,
    pub headers: Option<Seq<EntryModel<RefOrObjectModel<HeaderModel>>>>,
    pub content: Option<Seq<EntryModel<MediaModel>>>,
    pub links: Option<Seq<EntryModel<RefOrObjectModel<LinkModel>>>>,
    pub extensions: Seq<EntryModel<JsonModel>>,
}

/// The schema and the examples of one media type.
#[derive(Debug, PartialEq)]
pub struct Media {
    /// The type of the content.
    pub schema: Option<RefOrObject<Schema>>,
    /// An example of the content.
    pub example: Option<Json>,
    /// Examples of the content, by name.
    pub examples: Option<Table<RefOrObject<Example>>>,
    /// How each property is encoded, by name.
    pub encoding: Option<Table<Encoding>>,
}

/// The mathematical value of a [`Media`].
pub ghost struct MediaModel {
    pub schema: Option<RefOrObjectModel<SchemaModel>>,
    pub example: Option<JsonModel>,
    pub examples: Option<Seq<EntryModel<RefOrObjectModel<ExampleModel>>>>,
    pub encoding: Option<Seq<EntryModel<EncodingModel>>>,
}

/// How one property of a schema is encoded.
#[derive(Debug, PartialEq)]
pub struct Encoding {
    /// The content type of the property.
    pub content_type: Option<String>,
    /// Further headers, by name.
    pub headers: Option<Table<RefOrObject<Header>>>,
    /// How the value is written out.
    pub style: Option<String>,
    /// Whether an array or an object gives one parameter for each item.
    pub explode: Option<bool>,
    /// Whether reserved characters may stand in the value as they are.
    pub allow_reserved: Option<bool>,
}

/// The mathematical value of a [`Encoding`].
pub ghost struct EncodingModel {
    pub content_type: Option<Seq<char>>,
    pub headers: Option<Seq<EntryModel<RefOrObjectModel<HeaderModel>>>>,
    pub style: Option<Seq<char>>,
    pub explode: Option<bool>,
    pub allow_reserved: Option<bool>,
}

/// An example of a value.
#[derive(Debug, PartialEq)]
pub struct Example {
    /// A short description of the example.
    pub summary: Option<String>,
    /// A long description of the example.
    pub description: Option<String>,
    /// The example itself.
    pub value: Option<Json>,
    /// The URL of an example kept elsewhere.
    pub external_value: Option<String>,
}

/// The mathematical value of a [`Example`].
pub ghost struct ExampleModel {
    pub summary: Option<Seq<char>>,
    pub description: Option<Seq<char>>,
    pub value: Option<JsonModel>,
    pub external_value: Option<Seq<char>>,
}

/// A link that leads on from a response.
#[derive(Debug, PartialEq)]
pub struct Link {
    /// A pointer to the operation that the link leads to.
    pub operation_ref: Option<String>,
    /// The identifier of the operation that the link leads to.
    pub operation_id: Option<String>,
    /// The parameters to pass to the operation, by name.
    pub parameters: Option<Table<Json>>,
    /// The body to send to the operation.
    pub request_body: Option<Json>,
    /// A description of the link.
    pub description: Option<String>,
    /// The server that serves the operation.
    pub server: Option<Server>,
}

/// The mathematical value of a [`Link`].
pub ghost struct LinkModel {
    pub operation_ref: Option<Seq<char>>,
    pub operation_id: Option<Seq<char>>,
    pub parameters: Option<Seq<EntryModel<JsonModel>>>,
    pub request_body: Option<JsonModel>,
    pub description: Option<Seq<char>>,
    pub server: Option<ServerModel>,
}

/// A header: a parameter without a name and a place.
#[derive(Debug, PartialEq, Default)]
pub struct Header {
    /// A short description of the parameter.
    pub description: Option<String>,
    /// Whether the parameter must be sent.
    pub required: Option<bool>,
    /// Whether the parameter is on its way out.
    pub deprecated: Option<bool>,
    /// Whether the parameter may be sent without a value.
    pub allow_empty_value: Option<bool>,
    /// How the value is written out.
    pub style: Option<String>,
    /// Whether an array or an object gives one parameter for each item.
    pub explode: Option<bool>,
    /// Whether reserved characters may stand in the value as they are.
    pub allow_reserved: Option<bool>,
    /// The type of the parameter.
    pub schema: Option<RefOrObject<Schema>>,
    /// An example of the value.
    pub example: Option<Json>,
    /// Examples of the value, by name.
    pub examples: Option<Table<RefOrObject<Example>>>,
    /// The representations of the parameter, by media type.
    pub content: Option<Table<Media>>,
    /// The members that the record does not name.
    pub extensions: Extensions,
}

/// The mathematical value of a [`Header`].
pub ghost struct HeaderModel {
    pub description: Option<Seq<char>>,
    pub required: Option<bool>,
    pub deprecated: Option<bool>,
    pub allow_empty_value: Option<bool>,
    pub style: Option<Seq<char>>,
    pub explode: Option<bool>,
    pub allow_reserved: Option<bool>,
    pub schema: Option<RefOrObjectModel<SchemaModel>>,
    pub example: Option<JsonModel>,
    pub examples: Option<Seq<EntryModel<RefOrObjectModel<ExampleModel>>>>,
    pub content: Option<Seq<EntryModel<MediaModel>>>,
    pub extensions: Seq<EntryModel<JsonModel>>,
}

/// Metadata of one tag that operations use.
#[derive(Debug, PartialEq)]
pub struct Tag {
    /// The name of the tag.
    pub name: String,
    /// A short description of the tag.
    pub description: Option<String>,
    /// Further documentation of the tag.
    pub external_docs: Option<ExternalDoc>,
    /// The members that the record does not name.
    pub extensions: Extensions,
}

/// The mathematical value of a [`Tag`].
pub ghost struct TagModel {
    pub name: Seq<char>,
    pub description: Option<Seq<char>>,
    pub external_docs: Option<ExternalDocModel>,
    pub extensions: Seq<EntryModel<JsonModel>>,
}

/// The description of a data type.
#[derive(Debug, PartialEq)]
pub struct Schema {
    /// A title.
    pub title: Option<String>,
    /// The values that are allowed.
    pub enum_: Option<Vec<String>>,
    /// The number of which a value must be a multiple.
    pub multiple_of: Option<Number>,
    /// The largest value allowed.
    pub maximum: Option<Number>,
    /// Whether the largest value itself is left out.
    pub exclusive_maximum: Option<bool>,
    /// The smallest value allowed.
    pub minimum: Option<Number>,
    /// Whether the smallest value itself is left out.
    pub exclusive_minimum: Option<bool>,
    /// The largest length allowed.
    pub max_length: Option<Number>,
    /// The smallest length allowed.
    pub min_length: Option<Number>,
    /// The pattern that a text must match.
    pub pattern: Option<String>,
    /// The largest number of items allowed.
    pub max_items: Option<Number>,
    /// The smallest number of items allowed.
    pub min_items: Option<Number>,
    /// Whether the items must differ from each other.
    pub unique_items: Option<bool>,
    /// The type of the items of an array.
    pub items: Option<Box<RefOrObject<Schema>>>,
    /// The types of the properties of an object.
    pub properties: Option<Table<RefOrObject<Schema>>>,
    /// The largest number of properties allowed.
    pub max_properties: Option<Number>,
    /// The smallest number of properties allowed.
    pub min_properties: Option<Number>,
    /// The properties that must be there.
    pub required: Option<Vec<String>>,
    /// The name of the type.
    pub type_: Option<String>,
    /// The types that a value must have all at once.
    pub all_of: Option<Vec<Box<RefOrObject<Schema>>>>,
    /// The types of which a value must have exactly one.
    pub one_of: Option<Vec<Box<RefOrObject<Schema>>>>,
    /// The types of which a value must have at least one.
    pub any_of: Option<Vec<Box<RefOrObject<Schema>>>>,
    /// The type that a value must not have.
    pub not: Option<Box<RefOrObject<Schema>>>,
    /// A description.
    pub description: Option<String>,
    /// The format that refines the type.
    pub format: Option<String>,
    /// The value that stands where none is given.
    pub default: Option<String>,
    /// What further properties an object may have.
    pub additional_properties: Option<Json>,
    /// Whether `null` is allowed.
    pub nullable: Option<bool>,
    /// How to tell the alternatives of the type apart.
    pub discriminator: Option<Discriminator>,
    /// Whether the property is only sent in responses.
    pub read_only: Option<bool>,
    /// Whether the property is only sent in requests.
    pub write_only: Option<bool>,
    /// How the property is written in XML.
    pub xml: Option<XML>,
    /// Further documentation of the schema.
    pub external_docs: Option<ExternalDoc>,
    /// An example of a value of the type.
    pub example: Option<Json>,
    /// Whether the schema is on its way out.
    pub deprecated: Option<bool>,
}

/// The mathematical value of a [`Schema`].
pub ghost struct SchemaModel {
    pub title: Option<Seq<char>>,
    pub enum_: Option<Seq<Seq<char>>>,
    pub multiple_of: Option<Number>,
    pub maximum: Option<Number>,
    pub exclusive_maximum: Option<bool>,
    pub minimum: Option<Number>,
    pub exclusive_minimum: Option<bool>,
    pub max_length: Option<Number>,
    pub min_length: Option<Number>,
    pub pattern: Option<Seq<char>>,
    pub max_items: Option<Number>,
    pub min_items: Option<Number>,
    pub unique_items: Option<bool>,
    pub items: Option<Box<RefOrObjectModel<SchemaModel>>>,
    pub properties: Option<Seq<EntryModel<RefOrObjectModel<SchemaModel>>>>,
    pub max_properties: Option<Number>,
    pub min_properties: Option<Number>,
    pub required: Option<Seq<Seq<char>>>,
    pub type_: Option<Seq<char>>,
    pub all_of: Option<Seq<RefOrObjectModel<SchemaModel>>>,
    pub one_of: Option<Seq<RefOrObjectModel<SchemaModel>>>,
    pub any_of: Option<Seq<RefOrObjectModel<SchemaModel>>>,
    pub not: Option<Box<RefOrObjectModel<SchemaModel>>>,
    pub description: Option<Seq<char>>,
    pub format: Option<Seq<char>>,
    pub default: Option<Seq<char>>,
    pub additional_properties: Option<JsonModel>,
    pub nullable: Option<bool>,
    pub discriminator: Option<DiscriminatorModel>,
    pub read_only: Option<bool>,
    pub write_only: Option<bool>,
    pub xml: Option<XMLModel>,
    pub external_docs: Option<ExternalDocModel>,
    pub example: Option<JsonModel>,
    pub deprecated: Option<bool>,
}

/// The property that tells the alternatives of a type apart.
#[derive(Debug, PartialEq)]
pub struct Discriminator {
    /// The name of the property that holds the discriminating value.
    pub property_name: String,
    /// The schema that each value of the property stands for.
    pub mapping: Option<Table<String>>,
}

/// The mathematical value of a [`Discriminator`].
pub ghost struct DiscriminatorModel {
    pub property_name: Seq<char>,
    pub mapping: Option<Seq<EntryModel<Seq<char>>>>,
}

/// How a property is written in XML.
#[derive(Debug, PartialEq)]
pub struct XML {
    /// The name of the element or attribute.
    pub name: Option<String>,
    /// The URI of the namespace.
    pub namespace: Option<String>,
    /// The prefix of the name.
    pub prefix: Option<String>,
    /// Whether the property is an attribute and not an element.
    pub attribute: Option<bool>,
    /// Whether an array is wrapped in an element of its own.
    pub wrapped: Option<bool>,
}

/// The mathematical value of a [`XML`].
pub ghost struct XMLModel {
    pub name: Option<Seq<char>>,
    pub namespace: Option<Seq<char>>,
    pub prefix: Option<Seq<char>>,
    pub attribute: Option<bool>,
    pub wrapped: Option<bool>,
}

/// A security scheme that operations can use.
#[derive(Debug, PartialEq)]
pub struct SecurityScheme {
    /// The type of the scheme.
    pub type_: SecuritySchemeType,
    /// A short description of the scheme.
    pub description: Option<String>,
    /// The name of the header, query or cookie parameter.
    pub name: String,
    /// Where the API key is sent.
    pub in_: String,
    /// The name of the HTTP authorization scheme.
    pub scheme: String,
    /// How the bearer token is formatted.
    pub beare_format: Option<String>,
    /// The flows that the scheme supports.
    pub flows: OAuthFlows,
    /// The URL at which the OAuth2 configuration is found.
    pub open_id_connect_url: String,
}

/// The mathematical value of a [`SecurityScheme`].
pub ghost struct SecuritySchemeModel {
    pub type_: SecuritySchemeType,
    pub description: Option<Seq<char>>,
    pub name: Seq<char>,
    pub in_: Seq<char>,
    pub scheme: Seq<char>,
    pub beare_format: Option<Seq<char>>,
    pub flows: OAuthFlowsModel,
    pub open_id_connect_url: Seq<char>,
}

/// The OAuth flows that a security scheme supports.
#[derive(Debug, PartialEq)]
pub struct OAuthFlows {
    /// The implicit flow.
    pub implicit: Option<OAuthFlow>,
    /// The resource owner password flow.
    pub password: Option<OAuthFlow>,
    /// The client credentials flow.
    pub client_credentials: Option<OAuthFlow>,
    /// The authorization code flow.
    pub authorization_code: Option<OAuthFlow>,
}

/// The mathematical value of a [`OAuthFlows`].
pub ghost struct OAuthFlowsModel {
    pub implicit: Option<OAuthFlowModel>,
    pub password: Option<OAuthFlowModel>,
    pub client_credentials: Option<OAuthFlowModel>,
    pub authorization_code: Option<OAuthFlowModel>,
}

/// One OAuth flow.
#[derive(Debug, PartialEq)]
pub struct OAuthFlow {
    /// The authorization URL of the flow.
    pub authorization_url: String,
    /// The token URL of the flow.
    pub token_url: String,
    /// The URL at which refresh tokens are obtained.
    pub refresh_url: Option<String>,
    /// The scopes of the flow, each with a description.
    pub scopes: Table<String>,
}

/// The mathematical value of a [`OAuthFlow`].
pub ghost struct OAuthFlowModel {
    pub authorization_url: Seq<char>,
    pub token_url: Seq<char>,
    pub refresh_url: Option<Seq<char>>,
    pub scopes: Seq<EntryModel<Seq<char>>>,
}

/// A pointer to a definition kept elsewhere in the document, or outside it.
#[derive(Debug, PartialEq)]
pub struct Reference {
    /// The pointer.
    pub reference: String,
}

/// The mathematical value of a [`Reference`].
pub ghost struct ReferenceModel {
    pub reference: Seq<char>,
}

/// A pointer to a shared definition, or the value itself.
#[derive(Debug, PartialEq)]
pub enum RefOrObject<T> {
    Ref(Reference),
    Object(T),
}

/// The mathematical value of a [`RefOrObject`].
pub ghost enum RefOrObjectModel<M> {
    Ref(ReferenceModel),
    Object(M),
}

/// The paths of an API and their operations, by path.
pub type Paths = Table<PathItem>;

/// The responses of an operation, by status code.
pub type Responses = Table<RefOrObject<Response>>;

/// The requests that an operation may send back later, by expression.
pub type Callback = Table<PathItem>;

/// The security schemes that an operation asks for, each with its scopes.
pub type SecurityRequirement = Table<Vec<String>>;

} // verus!
