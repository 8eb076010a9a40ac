//! The newer of the two document formats.

pub mod codec;
pub mod schema;
pub mod tree;

pub use schema::{
    Callback, Components, Contact, Discriminator, Encoding, Example, ExternalDoc, Header, Info,
    License, Link, Media, OAuthFlow, OAuthFlows, OpenApi, Operation, Parameter, PathItem,
    Paths, Reference, RefOrObject, RequestBody, Response, Responses, Schema,
    SecurityRequirement, SecurityScheme, SecuritySchemeType, Server, ServerVariable, Tag, XML,
};
