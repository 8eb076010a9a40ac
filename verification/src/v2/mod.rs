//! The older of the two document formats.

pub mod codec;
pub mod schema;
pub mod tree;

pub use schema::{
    AuthorizationUrl, Contact, ExternalDoc, Flow, Header, InEnum, Info, Items, ItemsType,
    License, Operation, Parameter, ParameterOrRef, ParameterType, ParamInEnum, PathItem,
    Reference, Response, ResponseOrRef, Responses, Schema, Scopes, SecurityRequirementObject,
    SecurityScheme, SecuritySchemeType, Swagger, Tag, TokenUrl, TransferProtocol,
};
