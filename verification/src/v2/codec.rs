//! Reading and writing the types of the older format.

use vstd::prelude::*;
use serde_json::Number;
use crate::codec::{
    Codec, decode_optional, decode_required, duplicate_optional, encode_optional,
    encode_required, lemma_optional_read_is_valid, lemma_optional_round_trip,
    lemma_required_read_is_valid, lemma_required_round_trip, option_model, optional_decoded,
    optional_encodable, optional_encoded, optional_fits, optional_valid, required_decoded,
    required_encodable, required_encoded, required_fits, required_valid, Table,
};
use crate::error::CodecError;
use crate::extension::{
    assembled, collides, lemma_assembled_lookup, lemma_assembled_lookup_other,
    lemma_assembled_remainder, lemma_named_lookup, lemma_named_lookup_other,
    lemma_remainder_lookup, lemma_remainder_unnamed, named_members, ObjectReader, ObjectWriter,
    remainder,
};
use crate::json::{
    EntryModel, Json, JsonModel, lookup, same_text,
};
use crate::resolver::{
    lemma_pointer_object_sniffed, pointer_json, POINTER_KEY, pointer_object, Sniff, sniff,
    Sniffed, sniffed,
};
use crate::v2::schema::{
    AuthorizationUrl, Contact, ContactModel, ExternalDoc, ExternalDocModel, Flow, Header,
    HeaderModel, InEnum, Info, InfoModel, Items, ItemsType, License, LicenseModel, Operation,
    OperationModel, Parameter, ParameterModel, ParameterOrRef, ParameterOrRefModel,
    ParameterType, ParamInEnum, PathItem, PathItemModel, Reference, ReferenceModel, Response,
    ResponseModel, ResponseOrRef, ResponseOrRefModel, Responses, Schema, Scopes,
    SecurityRequirementObject, SecurityScheme, SecuritySchemeModel, SecuritySchemeType,
    Swagger, SwaggerModel, Tag, TagModel, TokenUrl, TransferProtocol,
};

verus! {

impl TransferProtocol {
    /// The text that the value is written as.
    pub open spec fn text(self) -> Seq<char> {
        match self {
            TransferProtocol::Http => "http"@,
            TransferProtocol::Https => "https"@,
            TransferProtocol::Ws => "ws"@,
            TransferProtocol::Wss => "wss"@,
        }
    }

    /// The text that the value is written as.
    pub fn as_str(&self) -> (text: &'static str)
        ensures
            text@ == self.text(),
    {
        match self {
            TransferProtocol::Http => "http",
            TransferProtocol::Https => "https",
            TransferProtocol::Ws => "ws",
            TransferProtocol::Wss => "wss",
        }
    }

    /// No two values are written alike.
    pub proof fn lemma_texts_distinct(left: TransferProtocol, right: TransferProtocol)
        ensures
            left.text() == right.text() ==> left == right,
    {
        reveal_strlit("http");
        reveal_strlit("https");
        reveal_strlit("ws");
        reveal_strlit("wss");
        assert("http"@.len() == 4);
        assert("https"@.len() == 5);
        assert("ws"@.len() == 2);
        assert("wss"@.len() == 3);
    }
}

impl Codec for TransferProtocol {
    type Model = TransferProtocol;

    open spec fn model(&self) -> TransferProtocol {
        *self
    }

    open spec fn fits(json: JsonModel) -> bool {
        json matches JsonModel::String(text) && (text == "http"@ || text == "https"@ || text == "ws"@ || text == "wss"@)
    }

    open spec fn decoded(json: JsonModel) -> TransferProtocol {
        if json->String_0 == "http"@ {
            TransferProtocol::Http
        } else if json->String_0 == "https"@ {
            TransferProtocol::Https
        } else if json->String_0 == "ws"@ {
            TransferProtocol::Ws
        } else {
            TransferProtocol::Wss
        }
    }

    open spec fn encodable(value: TransferProtocol) -> bool {
        true
    }

    open spec fn encoded(value: TransferProtocol) -> JsonModel {
        JsonModel::String(value.text())
    }

    open spec fn valid(value: TransferProtocol) -> bool {
        true
    }

    fn decode(json: &Json) -> (res: Result<TransferProtocol, CodecError>) {
        match json {
            Json::String(text) => {
                if same_text(text.as_str(), "http") {
                    Ok(TransferProtocol::Http)
                } else if same_text(text.as_str(), "https") {
                    Ok(TransferProtocol::Https)
                } else if same_text(text.as_str(), "ws") {
                    Ok(TransferProtocol::Ws)
                } else if same_text(text.as_str(), "wss") {
                    Ok(TransferProtocol::Wss)
                } else {
                    Err(CodecError::ShapeMismatch)
                }
            },
            _ => Err(CodecError::ShapeMismatch),
        }
    }

    fn encode(&self) -> (res: Result<Json, CodecError>) {
        Ok(Json::String(self.as_str().to_owned()))
    }

    fn duplicate(&self) -> (copy: TransferProtocol) {
        *self
    }

    proof fn lemma_round_trip(value: TransferProtocol) {
        Self::lemma_texts_distinct(value, TransferProtocol::Http);
        Self::lemma_texts_distinct(value, TransferProtocol::Https);
        Self::lemma_texts_distinct(value, TransferProtocol::Ws);
        Self::lemma_texts_distinct(value, TransferProtocol::Wss);
    }

    proof fn lemma_read_is_valid(json: JsonModel) {
    }
}

impl InEnum {
    /// The text that the value is written as.
    pub open spec fn text(self) -> Seq<char> {
        match self {
            InEnum::Query => "query"@,
            InEnum::Header => "header"@,
        }
    }

    /// The text that the value is written as.
    pub fn as_str(&self) -> (text: &'static str)
        ensures
            text@ == self.text(),
    {
        match self {
            InEnum::Query => "query",
            InEnum::Header => "header",
        }
    }

    /// No two values are written alike.
    pub proof fn lemma_texts_distinct(left: InEnum, right: InEnum)
        ensures
            left.text() == right.text() ==> left == right,
    {
        reveal_strlit("query");
        reveal_strlit("header");
        assert("query"@.len() == 5);
        assert("header"@.len() == 6);
    }
}

impl Codec for InEnum {
    type Model = InEnum;

    open spec fn model(&self) -> InEnum {
        *self
    }

    open spec fn fits(json: JsonModel) -> bool {
        json matches JsonModel::String(text) && (text == "query"@ || text == "header"@)
    }

    open spec fn decoded(json: JsonModel) -> InEnum {
        if json->String_0 == "query"@ {
            InEnum::Query
        } else {
            InEnum::Header
        }
    }

    open spec fn encodable(value: InEnum) -> bool {
        true
    }

    open spec fn encoded(value: InEnum) -> JsonModel {
        JsonModel::String(value.text())
    }

    open spec fn valid(value: InEnum) -> bool {
        true
    }

    fn decode(json: &Json) -> (res: Result<InEnum, CodecError>) {
        match json {
            Json::String(text) => {
                if same_text(text.as_str(), "query") {
                    Ok(InEnum::Query)
                } else if same_text(text.as_str(), "header") {
                    Ok(InEnum::Header)
                } else {
                    Err(CodecError::ShapeMismatch)
                }
            },
            _ => Err(CodecError::ShapeMismatch),
        }
    }

    fn encode(&self) -> (res: Result<Json, CodecError>) {
        Ok(Json::String(self.as_str().to_owned()))
    }

    fn duplicate(&self) -> (copy: InEnum) {
        *self
    }

    proof fn lemma_round_trip(value: InEnum) {
        Self::lemma_texts_distinct(value, InEnum::Query);
        Self::lemma_texts_distinct(value, InEnum::Header);
    }

    proof fn lemma_read_is_valid(json: JsonModel) {
    }
}

impl Flow {
    /// The text that the value is written as.
    pub open spec fn text(self) -> Seq<char> {
        match self {
            Flow::Implicit => "implicit"@,
            Flow::Password => "password"@,
            Flow::Application => "application"@,
            Flow::AccessCode => "accesscode"@,
        }
    }

    /// The text that the value is written as.
    pub fn as_str(&self) -> (text: &'static str)
        ensures
            text@ == self.text(),
    {
        match self {
            Flow::Implicit => "implicit",
            Flow::Password => "password",
            Flow::Application => "application",
            Flow::AccessCode => "accesscode",
        }
    }

    /// No two values are written alike.
    pub proof fn lemma_texts_distinct(left: Flow, right: Flow)
        ensures
            left.text() == right.text() ==> left == right,
    {
        reveal_strlit("implicit");
        reveal_strlit("password");
        reveal_strlit("application");
        reveal_strlit("accesscode");
        assert("implicit"@.len() == 8 && "implicit"@[0] == 'i');
        assert("password"@.len() == 8 && "password"@[0] == 'p');
        assert("application"@.len() == 11);
        assert("accesscode"@.len() == 10);
    }
}

impl Codec for Flow {
    type Model = Flow;

    open spec fn model(&self) -> Flow {
        *self
    }

    open spec fn fits(json: JsonModel) -> bool {
        json matches JsonModel::String(text) && (text == "implicit"@ || text == "password"@ || text == "application"@ || text == "accesscode"@)
    }

    open spec fn decoded(json: JsonModel) -> Flow {
        if json->String_0 == "implicit"@ {
            Flow::Implicit
        } else if json->String_0 == "password"@ {
            Flow::Password
        } else if json->String_0 == "application"@ {
            Flow::Application
        } else {
            Flow::AccessCode
        }
    }

    open spec fn encodable(value: Flow) -> bool {
        true
    }

    open spec fn encoded(value: Flow) -> JsonModel {
        JsonModel::String(value.text())
    }

    open spec fn valid(value: Flow) -> bool {
        true
    }

    fn decode(json: &Json) -> (res: Result<Flow, CodecError>) {
        match json {
            Json::String(text) => {
                if same_text(text.as_str(), "implicit") {
                    Ok(Flow::Implicit)
                } else if same_text(text.as_str(), "password") {
                    Ok(Flow::Password)
                } else if same_text(text.as_str(), "application") {
                    Ok(Flow::Application)
                } else if same_text(text.as_str(), "accesscode") {
                    Ok(Flow::AccessCode)
                } else {
                    Err(CodecError::ShapeMismatch)
                }
            },
            _ => Err(CodecError::ShapeMismatch),
        }
    }

    fn encode(&self) -> (res: Result<Json, CodecError>) {
        Ok(Json::String(self.as_str().to_owned()))
    }

    fn duplicate(&self) -> (copy: Flow) {
        *self
    }

    proof fn lemma_round_trip(value: Flow) {
        Self::lemma_texts_distinct(value, Flow::Implicit);
        Self::lemma_texts_distinct(value, Flow::Password);
        Self::lemma_texts_distinct(value, Flow::Application);
        Self::lemma_texts_distinct(value, Flow::AccessCode);
    }

    proof fn lemma_read_is_valid(json: JsonModel) {
    }
}

impl Scopes {
    /// The text that the value is written as.
    pub open spec fn text(self) -> Seq<char> {
        match self {
            Scopes::Implicit => "implicit"@,
            Scopes::Password => "password"@,
            Scopes::Application => "application"@,
            Scopes::AccessCode => "accesscode"@,
        }
    }

    /// The text that the value is written as.
    pub fn as_str(&self) -> (text: &'static str)
        ensures
            text@ == self.text(),
    {
        match self {
            Scopes::Implicit => "implicit",
            Scopes::Password => "password",
            Scopes::Application => "application",
            Scopes::AccessCode => "accesscode",
        }
    }

    /// No two values are written alike.
    pub proof fn lemma_texts_distinct(left: Scopes, right: Scopes)
        ensures
            left.text() == right.text() ==> left == right,
    {
        reveal_strlit("implicit");
        reveal_strlit("password");
        reveal_strlit("application");
        reveal_strlit("accesscode");
        assert("implicit"@.len() == 8 && "implicit"@[0] == 'i');
        assert("password"@.len() == 8 && "password"@[0] == 'p');
        assert("application"@.len() == 11);
        assert("accesscode"@.len() == 10);
    }
}

impl Codec for Scopes {
    type Model = Scopes;

    open spec fn model(&self) -> Scopes {
        *self
    }

    open spec fn fits(json: JsonModel) -> bool {
        json matches JsonModel::String(text) && (text == "implicit"@ || text == "password"@ || text == "application"@ || text == "accesscode"@)
    }

    open spec fn decoded(json: JsonModel) -> Scopes {
        if json->String_0 == "implicit"@ {
            Scopes::Implicit
        } else if json->String_0 == "password"@ {
            Scopes::Password
        } else if json->String_0 == "application"@ {
            Scopes::Application
        } else {
            Scopes::AccessCode
        }
    }

    open spec fn encodable(value: Scopes) -> bool {
        true
    }

    open spec fn encoded(value: Scopes) -> JsonModel {
        JsonModel::String(value.text())
    }

    open spec fn valid(value: Scopes) -> bool {
        true
    }

    fn decode(json: &Json) -> (res: Result<Scopes, CodecError>) {
        match json {
            Json::String(text) => {
                if same_text(text.as_str(), "implicit") {
                    Ok(Scopes::Implicit)
                } else if same_text(text.as_str(), "password") {
                    Ok(Scopes::Password)
                } else if same_text(text.as_str(), "application") {
                    Ok(Scopes::Application)
                } else if same_text(text.as_str(), "accesscode") {
                    Ok(Scopes::AccessCode)
                } else {
                    Err(CodecError::ShapeMismatch)
                }
            },
            _ => Err(CodecError::ShapeMismatch),
        }
    }

    fn encode(&self) -> (res: Result<Json, CodecError>) {
        Ok(Json::String(self.as_str().to_owned()))
    }

    fn duplicate(&self) -> (copy: Scopes) {
        *self
    }

    proof fn lemma_round_trip(value: Scopes) {
        Self::lemma_texts_distinct(value, Scopes::Implicit);
        Self::lemma_texts_distinct(value, Scopes::Password);
        Self::lemma_texts_distinct(value, Scopes::Application);
        Self::lemma_texts_distinct(value, Scopes::AccessCode);
    }

    proof fn lemma_read_is_valid(json: JsonModel) {
    }
}

impl AuthorizationUrl {
    /// The text that the value is written as.
    pub open spec fn text(self) -> Seq<char> {
        match self {
            AuthorizationUrl::Implicit => "implicit"@,
            AuthorizationUrl::AccessCode => "accesscode"@,
        }
    }

    /// The text that the value is written as.
    pub fn as_str(&self) -> (text: &'static str)
        ensures
            text@ == self.text(),
    {
        match self {
            AuthorizationUrl::Implicit => "implicit",
            AuthorizationUrl::AccessCode => "accesscode",
        }
    }

    /// No two values are written alike.
    pub proof fn lemma_texts_distinct(left: AuthorizationUrl, right: AuthorizationUrl)
        ensures
            left.text() == right.text() ==> left == right,
    {
        reveal_strlit("implicit");
        reveal_strlit("accesscode");
        assert("implicit"@.len() == 8);
        assert("accesscode"@.len() == 10);
    }
}

impl Codec for AuthorizationUrl {
    type Model = AuthorizationUrl;

    open spec fn model(&self) -> AuthorizationUrl {
        *self
    }

    open spec fn fits(json: JsonModel) -> bool {
        json matches JsonModel::String(text) && (text == "implicit"@ || text == "accesscode"@)
    }

    open spec fn decoded(json: JsonModel) -> AuthorizationUrl {
        if json->String_0 == "implicit"@ {
            AuthorizationUrl::Implicit
        } else {
            AuthorizationUrl::AccessCode
        }
    }

    open spec fn encodable(value: AuthorizationUrl) -> bool {
        true
    }

    open spec fn encoded(value: AuthorizationUrl) -> JsonModel {
        JsonModel::String(value.text())
    }

    open spec fn valid(value: AuthorizationUrl) -> bool {
        true
    }

    fn decode(json: &Json) -> (res: Result<AuthorizationUrl, CodecError>) {
        match json {
            Json::String(text) => {
                if same_text(text.as_str(), "implicit") {
                    Ok(AuthorizationUrl::Implicit)
                } else if same_text(text.as_str(), "accesscode") {
                    Ok(AuthorizationUrl::AccessCode)
                } else {
                    Err(CodecError::ShapeMismatch)
                }
            },
            _ => Err(CodecError::ShapeMismatch),
        }
    }

    fn encode(&self) -> (res: Result<Json, CodecError>) {
        Ok(Json::String(self.as_str().to_owned()))
    }

    fn duplicate(&self) -> (copy: AuthorizationUrl) {
        *self
    }

    proof fn lemma_round_trip(value: AuthorizationUrl) {
        Self::lemma_texts_distinct(value, AuthorizationUrl::Implicit);
        Self::lemma_texts_distinct(value, AuthorizationUrl::AccessCode);
    }

    proof fn lemma_read_is_valid(json: JsonModel) {
    }
}

impl SecuritySchemeType {
    /// The text that the value is written as.
    pub open spec fn text(self) -> Seq<char> {
        match self {
            SecuritySchemeType::Basic => "basic"@,
            SecuritySchemeType::ApiKey => "apiKey"@,
            SecuritySchemeType::Oauth2 => "oauth2"@,
        }
    }

    /// The text that the value is written as.
    pub fn as_str(&self) -> (text: &'static str)
        ensures
            text@ == self.text(),
    {
        match self {
            SecuritySchemeType::Basic => "basic",
            SecuritySchemeType::ApiKey => "apiKey",
            SecuritySchemeType::Oauth2 => "oauth2",
        }
    }

    /// No two values are written alike.
    pub proof fn lemma_texts_distinct(left: SecuritySchemeType, right: SecuritySchemeType)
        ensures
            left.text() == right.text() ==> left == right,
    {
        reveal_strlit("basic");
        reveal_strlit("apiKey");
        reveal_strlit("oauth2");
        assert("basic"@.len() == 5);
        assert("apiKey"@.len() == 6 && "apiKey"@[0] == 'a');
        assert("oauth2"@.len() == 6 && "oauth2"@[0] == 'o');
    }
}

impl Codec for SecuritySchemeType {
    type Model = SecuritySchemeType;

    open spec fn model(&self) -> SecuritySchemeType {
        *self
    }

    open spec fn fits(json: JsonModel) -> bool {
        json matches JsonModel::String(text) && (text == "basic"@ || text == "apiKey"@ || text == "oauth2"@)
    }

    open spec fn decoded(json: JsonModel) -> SecuritySchemeType {
        if json->String_0 == "basic"@ {
            SecuritySchemeType::Basic
        } else if json->String_0 == "apiKey"@ {
            SecuritySchemeType::ApiKey
        } else {
            SecuritySchemeType::Oauth2
        }
    }

    open spec fn encodable(value: SecuritySchemeType) -> bool {
        true
    }

    open spec fn encoded(value: SecuritySchemeType) -> JsonModel {
        JsonModel::String(value.text())
    }

    open spec fn valid(value: SecuritySchemeType) -> bool {
        true
    }

    fn decode(json: &Json) -> (res: Result<SecuritySchemeType, CodecError>) {
        match json {
            Json::String(text) => {
                if same_text(text.as_str(), "basic") {
                    Ok(SecuritySchemeType::Basic)
                } else if same_text(text.as_str(), "apiKey") {
                    Ok(SecuritySchemeType::ApiKey)
                } else if same_text(text.as_str(), "oauth2") {
                    Ok(SecuritySchemeType::Oauth2)
                } else {
                    Err(CodecError::ShapeMismatch)
                }
            },
            _ => Err(CodecError::ShapeMismatch),
        }
    }

    fn encode(&self) -> (res: Result<Json, CodecError>) {
        Ok(Json::String(self.as_str().to_owned()))
    }

    fn duplicate(&self) -> (copy: SecuritySchemeType) {
        *self
    }

    proof fn lemma_round_trip(value: SecuritySchemeType) {
        Self::lemma_texts_distinct(value, SecuritySchemeType::Basic);
        Self::lemma_texts_distinct(value, SecuritySchemeType::ApiKey);
        Self::lemma_texts_distinct(value, SecuritySchemeType::Oauth2);
    }

    proof fn lemma_read_is_valid(json: JsonModel) {
    }
}

impl TokenUrl {
    /// The text that the value is written as.
    pub open spec fn text(self) -> Seq<char> {
        match self {
            TokenUrl::Password => "password"@,
            TokenUrl::Application => "application"@,
            TokenUrl::AccessCode => "accessCode"@,
        }
    }

    /// The text that the value is written as.
    pub fn as_str(&self) -> (text: &'static str)
        ensures
            text@ == self.text(),
    {
        match self {
            TokenUrl::Password => "password",
            TokenUrl::Application => "application",
            TokenUrl::AccessCode => "accessCode",
        }
    }

    /// No two values are written alike.
    pub proof fn lemma_texts_distinct(left: TokenUrl, right: TokenUrl)
        ensures
            left.text() == right.text() ==> left == right,
    {
        reveal_strlit("password");
        reveal_strlit("application");
        reveal_strlit("accessCode");
        assert("password"@.len() == 8);
        assert("application"@.len() == 11);
        assert("accessCode"@.len() == 10);
    }
}

impl Codec for TokenUrl {
    type Model = TokenUrl;

    open spec fn model(&self) -> TokenUrl {
        *self
    }

    open spec fn fits(json: JsonModel) -> bool {
        json matches JsonModel::String(text) && (text == "password"@ || text == "application"@ || text == "accessCode"@)
    }

    open spec fn decoded(json: JsonModel) -> TokenUrl {
        if json->String_0 == "password"@ {
            TokenUrl::Password
        } else if json->String_0 == "application"@ {
            TokenUrl::Application
        } else {
            TokenUrl::AccessCode
        }
    }

    open spec fn encodable(value: TokenUrl) -> bool {
        true
    }

    open spec fn encoded(value: TokenUrl) -> JsonModel {
        JsonModel::String(value.text())
    }

    open spec fn valid(value: TokenUrl) -> bool {
        true
    }

    fn decode(json: &Json) -> (res: Result<TokenUrl, CodecError>) {
        match json {
            Json::String(text) => {
                if same_text(text.as_str(), "password") {
                    Ok(TokenUrl::Password)
                } else if same_text(text.as_str(), "application") {
                    Ok(TokenUrl::Application)
                } else if same_text(text.as_str(), "accessCode") {
                    Ok(TokenUrl::AccessCode)
                } else {
                    Err(CodecError::ShapeMismatch)
                }
            },
            _ => Err(CodecError::ShapeMismatch),
        }
    }

    fn encode(&self) -> (res: Result<Json, CodecError>) {
        Ok(Json::String(self.as_str().to_owned()))
    }

    fn duplicate(&self) -> (copy: TokenUrl) {
        *self
    }

    proof fn lemma_round_trip(value: TokenUrl) {
        Self::lemma_texts_distinct(value, TokenUrl::Password);
        Self::lemma_texts_distinct(value, TokenUrl::Application);
        Self::lemma_texts_distinct(value, TokenUrl::AccessCode);
    }

    proof fn lemma_read_is_valid(json: JsonModel) {
    }
}

impl ParamInEnum {
    /// The text that the value is written as.
    pub open spec fn text(self) -> Seq<char> {
        match self {
            ParamInEnum::Query => "query"@,
            ParamInEnum::Header => "header"@,
            ParamInEnum::Path => "path"@,
            ParamInEnum::FormData => "formData"@,
            ParamInEnum::Body => "body"@,
        }
    }

    /// The text that the value is written as.
    pub fn as_str(&self) -> (text: &'static str)
        ensures
            text@ == self.text(),
    {
        match self {
            ParamInEnum::Query => "query",
            ParamInEnum::Header => "header",
            ParamInEnum::Path => "path",
            ParamInEnum::FormData => "formData",
            ParamInEnum::Body => "body",
        }
    }

    /// No two values are written alike.
    pub proof fn lemma_texts_distinct(left: ParamInEnum, right: ParamInEnum)
        ensures
            left.text() == right.text() ==> left == right,
    {
        reveal_strlit("query");
        reveal_strlit("header");
        reveal_strlit("path");
        reveal_strlit("formData");
        reveal_strlit("body");
        assert("query"@.len() == 5);
        assert("header"@.len() == 6);
        assert("path"@.len() == 4 && "path"@[0] == 'p');
        assert("formData"@.len() == 8);
        assert("body"@.len() == 4 && "body"@[0] == 'b');
    }
}

impl Codec for ParamInEnum {
    type Model = ParamInEnum;

    open spec fn model(&self) -> ParamInEnum {
        *self
    }

    open spec fn fits(json: JsonModel) -> bool {
        json matches JsonModel::String(text) && (text == "query"@ || text == "header"@ || text == "path"@ || text == "formData"@ || text == "body"@)
    }

    open spec fn decoded(json: JsonModel) -> ParamInEnum {
        if json->String_0 == "query"@ {
            ParamInEnum::Query
        } else if json->String_0 == "header"@ {
            ParamInEnum::Header
        } else if json->String_0 == "path"@ {
            ParamInEnum::Path
        } else if json->String_0 == "formData"@ {
            ParamInEnum::FormData
        } else {
            ParamInEnum::Body
        }
    }

    open spec fn encodable(value: ParamInEnum) -> bool {
        true
    }

    open spec fn encoded(value: ParamInEnum) -> JsonModel {
        JsonModel::String(value.text())
    }

    open spec fn valid(value: ParamInEnum) -> bool {
        true
    }

    fn decode(json: &Json) -> (res: Result<ParamInEnum, CodecError>) {
        match json {
            Json::String(text) => {
                if same_text(text.as_str(), "query") {
                    Ok(ParamInEnum::Query)
                } else if same_text(text.as_str(), "header") {
                    Ok(ParamInEnum::Header)
                } else if same_text(text.as_str(), "path") {
                    Ok(ParamInEnum::Path)
                } else if same_text(text.as_str(), "formData") {
                    Ok(ParamInEnum::FormData)
                } else if same_text(text.as_str(), "body") {
                    Ok(ParamInEnum::Body)
                } else {
                    Err(CodecError::ShapeMismatch)
                }
            },
            _ => Err(CodecError::ShapeMismatch),
        }
    }

    fn encode(&self) -> (res: Result<Json, CodecError>) {
        Ok(Json::String(self.as_str().to_owned()))
    }

    fn duplicate(&self) -> (copy: ParamInEnum) {
        *self
    }

    proof fn lemma_round_trip(value: ParamInEnum) {
        Self::lemma_texts_distinct(value, ParamInEnum::Query);
        Self::lemma_texts_distinct(value, ParamInEnum::Header);
        Self::lemma_texts_distinct(value, ParamInEnum::Path);
        Self::lemma_texts_distinct(value, ParamInEnum::FormData);
        Self::lemma_texts_distinct(value, ParamInEnum::Body);
    }

    proof fn lemma_read_is_valid(json: JsonModel) {
    }
}

impl ParameterType {
    /// The text that the value is written as.
    pub open spec fn text(self) -> Seq<char> {
        match self {
            ParameterType::String => "string"@,
            ParameterType::Number => "number"@,
            ParameterType::Integer => "integer"@,
            ParameterType::Boolean => "boolean"@,
            ParameterType::Array => "array"@,
            ParameterType::File => "file"@,
        }
    }

    /// The text that the value is written as.
    pub fn as_str(&self) -> (text: &'static str)
        ensures
            text@ == self.text(),
    {
        match self {
            ParameterType::String => "string",
            ParameterType::Number => "number",
            ParameterType::Integer => "integer",
            ParameterType::Boolean => "boolean",
            ParameterType::Array => "array",
            ParameterType::File => "file",
        }
    }

    /// No two values are written alike.
    pub proof fn lemma_texts_distinct(left: ParameterType, right: ParameterType)
        ensures
            left.text() == right.text() ==> left == right,
    {
        reveal_strlit("string");
        reveal_strlit("number");
        reveal_strlit("integer");
        reveal_strlit("boolean");
        reveal_strlit("array");
        reveal_strlit("file");
        assert("string"@.len() == 6 && "string"@[0] == 's');
        assert("number"@.len() == 6 && "number"@[0] == 'n');
        assert("integer"@.len() == 7 && "integer"@[0] == 'i');
        assert("boolean"@.len() == 7 && "boolean"@[0] == 'b');
        assert("array"@.len() == 5);
        assert("file"@.len() == 4);
    }
}

impl Codec for ParameterType {
    type Model = ParameterType;

    open spec fn model(&self) -> ParameterType {
        *self
    }

    open spec fn fits(json: JsonModel) -> bool {
        json matches JsonModel::String(text) && (text == "string"@ || text == "number"@ || text == "integer"@ || text == "boolean"@ || text == "array"@ || text == "file"@)
    }

    open spec fn decoded(json: JsonModel) -> ParameterType {
        if json->String_0 == "string"@ {
            ParameterType::String
        } else if json->String_0 == "number"@ {
            ParameterType::Number
        } else if json->String_0 == "integer"@ {
            ParameterType::Integer
        } else if json->String_0 == "boolean"@ {
            ParameterType::Boolean
        } else if json->String_0 == "array"@ {
            ParameterType::Array
        } else {
            ParameterType::File
        }
    }

    open spec fn encodable(value: ParameterType) -> bool {
        true
    }

    open spec fn encoded(value: ParameterType) -> JsonModel {
        JsonModel::String(value.text())
    }

    open spec fn valid(value: ParameterType) -> bool {
        true
    }

    fn decode(json: &Json) -> (res: Result<ParameterType, CodecError>) {
        match json {
            Json::String(text) => {
                if same_text(text.as_str(), "string") {
                    Ok(ParameterType::String)
                } else if same_text(text.as_str(), "number") {
                    Ok(ParameterType::Number)
                } else if same_text(text.as_str(), "integer") {
                    Ok(ParameterType::Integer)
                } else if same_text(text.as_str(), "boolean") {
                    Ok(ParameterType::Boolean)
                } else if same_text(text.as_str(), "array") {
                    Ok(ParameterType::Array)
                } else if same_text(text.as_str(), "file") {
                    Ok(ParameterType::File)
                } else {
                    Err(CodecError::ShapeMismatch)
                }
            },
            _ => Err(CodecError::ShapeMismatch),
        }
    }

    fn encode(&self) -> (res: Result<Json, CodecError>) {
        Ok(Json::String(self.as_str().to_owned()))
    }

    fn duplicate(&self) -> (copy: ParameterType) {
        *self
    }

    proof fn lemma_round_trip(value: ParameterType) {
        Self::lemma_texts_distinct(value, ParameterType::String);
        Self::lemma_texts_distinct(value, ParameterType::Number);
        Self::lemma_texts_distinct(value, ParameterType::Integer);
        Self::lemma_texts_distinct(value, ParameterType::Boolean);
        Self::lemma_texts_distinct(value, ParameterType::Array);
        Self::lemma_texts_distinct(value, ParameterType::File);
    }

    proof fn lemma_read_is_valid(json: JsonModel) {
    }
}

impl ItemsType {
    /// The text that the value is written as.
    pub open spec fn text(self) -> Seq<char> {
        match self {
            ItemsType::String => "string"@,
            ItemsType::Number => "number"@,
            ItemsType::Integer => "integer"@,
            ItemsType::Boolean => "boolean"@,
            ItemsType::Array => "array"@,
        }
    }

    /// The text that the value is written as.
    pub fn as_str(&self) -> (text: &'static str)
        ensures
            text@ == self.text(),
    {
        match self {
            ItemsType::String => "string",
            ItemsType::Number => "number",
            ItemsType::Integer => "integer",
            ItemsType::Boolean => "boolean",
            ItemsType::Array => "array",
        }
    }

    /// No two values are written alike.
    pub proof fn lemma_texts_distinct(left: ItemsType, right: ItemsType)
        ensures
            left.text() == right.text() ==> left == right,
    {
        reveal_strlit("string");
        reveal_strlit("number");
        reveal_strlit("integer");
        reveal_strlit("boolean");
        reveal_strlit("array");
        assert("string"@.len() == 6 && "string"@[0] == 's');
        assert("number"@.len() == 6 && "number"@[0] == 'n');
        assert("integer"@.len() == 7 && "integer"@[0] == 'i');
        assert("boolean"@.len() == 7 && "boolean"@[0] == 'b');
        assert("array"@.len() == 5);
    }
}

impl Codec for ItemsType {
    type Model = ItemsType;

    open spec fn model(&self) -> ItemsType {
        *self
    }

    open spec fn fits(json: JsonModel) -> bool {
        json matches JsonModel::String(text) && (text == "string"@ || text == "number"@ || text == "integer"@ || text == "boolean"@ || text == "array"@)
    }

    open spec fn decoded(json: JsonModel) -> ItemsType {
        if json->String_0 == "string"@ {
            ItemsType::String
        } else if json->String_0 == "number"@ {
            ItemsType::Number
        } else if json->String_0 == "integer"@ {
            ItemsType::Integer
        } else if json->String_0 == "boolean"@ {
            ItemsType::Boolean
        } else {
            ItemsType::Array
        }
    }

    open spec fn encodable(value: ItemsType) -> bool {
        true
    }

    open spec fn encoded(value: ItemsType) -> JsonModel {
        JsonModel::String(value.text())
    }

    open spec fn valid(value: ItemsType) -> bool {
        true
    }

    fn decode(json: &Json) -> (res: Result<ItemsType, CodecError>) {
        match json {
            Json::String(text) => {
                if same_text(text.as_str(), "string") {
                    Ok(ItemsType::String)
                } else if same_text(text.as_str(), "number") {
                    Ok(ItemsType::Number)
                } else if same_text(text.as_str(), "integer") {
                    Ok(ItemsType::Integer)
                } else if same_text(text.as_str(), "boolean") {
                    Ok(ItemsType::Boolean)
                } else if same_text(text.as_str(), "array") {
                    Ok(ItemsType::Array)
                } else {
                    Err(CodecError::ShapeMismatch)
                }
            },
            _ => Err(CodecError::ShapeMismatch),
        }
    }

    fn encode(&self) -> (res: Result<Json, CodecError>) {
        Ok(Json::String(self.as_str().to_owned()))
    }

    fn duplicate(&self) -> (copy: ItemsType) {
        *self
    }

    proof fn lemma_round_trip(value: ItemsType) {
        Self::lemma_texts_distinct(value, ItemsType::String);
        Self::lemma_texts_distinct(value, ItemsType::Number);
        Self::lemma_texts_distinct(value, ItemsType::Integer);
        Self::lemma_texts_distinct(value, ItemsType::Boolean);
        Self::lemma_texts_distinct(value, ItemsType::Array);
    }

    proof fn lemma_read_is_valid(json: JsonModel) {
    }
}

impl Swagger {
    /// The keys of the named fields, in the order in which they are written.
    pub open spec fn names() -> Seq<Seq<char>> {
        Seq::empty()
            .push("swagger"@)
            .push("info"@)
            .push("host"@)
            .push("basePath"@)
            .push("schemas"@)
            .push("consumes"@)
            .push("produces"@)
            .push("paths"@)
            .push("definitions"@)
            .push("parameters"@)
            .push("responses"@)
            .push("SecurityScheme"@)
            .push("security"@)
            .push("tags"@)
            .push("externalDocs"@)
    }

    /// What each named field is written as, in the order of the names.
    pub open spec fn slots(value: SwaggerModel) -> Seq<Option<JsonModel>> {
        Seq::empty()
            .push(required_encoded::<String>(value.swagger))
            .push(required_encoded::<Info>(value.info))
            .push(optional_encoded::<String>(value.host))
            .push(optional_encoded::<String>(value.base_path))
            .push(optional_encoded::<Vec<TransferProtocol>>(value.schemas))
            .push(optional_encoded::<String>(value.consumes))
            .push(optional_encoded::<String>(value.produces))
            .push(required_encoded::<Table<PathItem>>(value.paths))
            .push(optional_encoded::<Table<Schema>>(value.definitions))
            .push(optional_encoded::<Table<Parameter>>(value.parameters))
            .push(optional_encoded::<Table<Response>>(value.responses))
            .push(optional_encoded::<Table<SecurityScheme>>(value.security_definitions))
            .push(optional_encoded::<Vec<SecurityRequirementObject>>(value.security))
            .push(optional_encoded::<Vec<Tag>>(value.tags))
            .push(optional_encoded::<ExternalDoc>(value.external_docs))
    }

    /// No key is named twice.
    pub proof fn lemma_names_distinct()
        ensures
            Self::names().no_duplicates(),
    {
        reveal_strlit("swagger");
        reveal_strlit("info");
        reveal_strlit("host");
        reveal_strlit("basePath");
        reveal_strlit("schemas");
        reveal_strlit("consumes");
        reveal_strlit("produces");
        reveal_strlit("paths");
        reveal_strlit("definitions");
        reveal_strlit("parameters");
        reveal_strlit("responses");
        reveal_strlit("SecurityScheme");
        reveal_strlit("security");
        reveal_strlit("tags");
        reveal_strlit("externalDocs");
        assert("swagger"@.len() == 7 && "swagger"@[1] == 'w');
        assert("info"@.len() == 4 && "info"@[0] == 'i');
        assert("host"@.len() == 4 && "host"@[0] == 'h');
        assert("basePath"@.len() == 8 && "basePath"@[0] == 'b');
        assert("schemas"@.len() == 7 && "schemas"@[1] == 'c');
        assert("consumes"@.len() == 8 && "consumes"@[0] == 'c');
        assert("produces"@.len() == 8 && "produces"@[0] == 'p');
        assert("paths"@.len() == 5);
        assert("definitions"@.len() == 11);
        assert("parameters"@.len() == 10);
        assert("responses"@.len() == 9);
        assert("SecurityScheme"@.len() == 14);
        assert("security"@.len() == 8 && "security"@[0] == 's');
        assert("tags"@.len() == 4 && "tags"@[0] == 't');
        assert("externalDocs"@.len() == 12);
    }

    /// The pointer key is none of the names.
    pub proof fn lemma_pointer_unnamed()
        ensures
            !Self::names().contains(POINTER_KEY@),
    {
        reveal_strlit("$ref");
        reveal_strlit("swagger");
        reveal_strlit("info");
        reveal_strlit("host");
        reveal_strlit("basePath");
        reveal_strlit("schemas");
        reveal_strlit("consumes");
        reveal_strlit("produces");
        reveal_strlit("paths");
        reveal_strlit("definitions");
        reveal_strlit("parameters");
        reveal_strlit("responses");
        reveal_strlit("SecurityScheme");
        reveal_strlit("security");
        reveal_strlit("tags");
        reveal_strlit("externalDocs");
        assert("$ref"@.len() == 4 && "$ref"@[0] == '$');
        assert("swagger"@.len() == 7);
        assert("info"@.len() == 4 && "info"@[0] == 'i');
        assert("host"@.len() == 4 && "host"@[0] == 'h');
        assert("basePath"@.len() == 8);
        assert("schemas"@.len() == 7);
        assert("consumes"@.len() == 8);
        assert("produces"@.len() == 8);
        assert("paths"@.len() == 5);
        assert("definitions"@.len() == 11);
        assert("parameters"@.len() == 10);
        assert("responses"@.len() == 9);
        assert("SecurityScheme"@.len() == 14);
        assert("security"@.len() == 8);
        assert("tags"@.len() == 4 && "tags"@[0] == 't');
        assert("externalDocs"@.len() == 12);
    }
}

impl Clone for Swagger {
    fn clone(&self) -> (copy: Swagger)
        ensures
            copy.model() == self.model(),
    {
        self.duplicate()
    }
}

impl Codec for Swagger {
    type Model = SwaggerModel;

    open spec fn model(&self) -> SwaggerModel {
        SwaggerModel {
            swagger: self.swagger.model(),
            info: self.info.model(),
            host: option_model(self.host),
            base_path: option_model(self.base_path),
            schemas: option_model(self.schemas),
            consumes: option_model(self.consumes),
            produces: option_model(self.produces),
            paths: self.paths.model(),
            definitions: option_model(self.definitions),
            parameters: option_model(self.parameters),
            responses: option_model(self.responses),
            security_definitions: option_model(self.security_definitions),
            security: option_model(self.security),
            tags: option_model(self.tags),
            external_docs: option_model(self.external_docs),
            extensions: self.extensions.model(),
        }
    }

    open spec fn fits(json: JsonModel) -> bool {
        &&& json is Object
        &&& required_fits::<String>(lookup(json->Object_0, "swagger"@))
        &&& required_fits::<Info>(lookup(json->Object_0, "info"@))
        &&& optional_fits::<String>(lookup(json->Object_0, "host"@))
        &&& optional_fits::<String>(lookup(json->Object_0, "basePath"@))
        &&& optional_fits::<Vec<TransferProtocol>>(lookup(json->Object_0, "schemas"@))
        &&& optional_fits::<String>(lookup(json->Object_0, "consumes"@))
        &&& optional_fits::<String>(lookup(json->Object_0, "produces"@))
        &&& required_fits::<Table<PathItem>>(lookup(json->Object_0, "paths"@))
        &&& optional_fits::<Table<Schema>>(lookup(json->Object_0, "definitions"@))
        &&& optional_fits::<Table<Parameter>>(lookup(json->Object_0, "parameters"@))
        &&& optional_fits::<Table<Response>>(lookup(json->Object_0, "responses"@))
        &&& optional_fits::<Table<SecurityScheme>>(lookup(json->Object_0, "SecurityScheme"@))
        &&& optional_fits::<Vec<SecurityRequirementObject>>(lookup(json->Object_0, "security"@))
        &&& optional_fits::<Vec<Tag>>(lookup(json->Object_0, "tags"@))
        &&& optional_fits::<ExternalDoc>(lookup(json->Object_0, "externalDocs"@))
    }

    open spec fn decoded(json: JsonModel) -> SwaggerModel {
        SwaggerModel {
            swagger: required_decoded::<String>(lookup(json->Object_0, "swagger"@)),
            info: required_decoded::<Info>(lookup(json->Object_0, "info"@)),
            host: optional_decoded::<String>(lookup(json->Object_0, "host"@)),
            base_path: optional_decoded::<String>(lookup(json->Object_0, "basePath"@)),
            schemas: optional_decoded::<Vec<TransferProtocol>>(lookup(json->Object_0, "schemas"@)),
            consumes: optional_decoded::<String>(lookup(json->Object_0, "consumes"@)),
            produces: optional_decoded::<String>(lookup(json->Object_0, "produces"@)),
            paths: required_decoded::<Table<PathItem>>(lookup(json->Object_0, "paths"@)),
            definitions: optional_decoded::<Table<Schema>>(lookup(json->Object_0, "definitions"@)),
            parameters: optional_decoded::<Table<Parameter>>(lookup(json->Object_0, "parameters"@)),
            responses: optional_decoded::<Table<Response>>(lookup(json->Object_0, "responses"@)),
            security_definitions: optional_decoded::<Table<SecurityScheme>>(lookup(json->Object_0, "SecurityScheme"@)),
            security: optional_decoded::<Vec<SecurityRequirementObject>>(lookup(json->Object_0, "security"@)),
            tags: optional_decoded::<Vec<Tag>>(lookup(json->Object_0, "tags"@)),
            external_docs: optional_decoded::<ExternalDoc>(lookup(json->Object_0, "externalDocs"@)),
            extensions: remainder(json->Object_0, Self::names()),
        }
    }

    open spec fn encodable(value: SwaggerModel) -> bool {
        &&& required_encodable::<String>(value.swagger)
        &&& required_encodable::<Info>(value.info)
        &&& optional_encodable::<String>(value.host)
        &&& optional_encodable::<String>(value.base_path)
        &&& optional_encodable::<Vec<TransferProtocol>>(value.schemas)
        &&& optional_encodable::<String>(value.consumes)
        &&& optional_encodable::<String>(value.produces)
        &&& required_encodable::<Table<PathItem>>(value.paths)
        &&& optional_encodable::<Table<Schema>>(value.definitions)
        &&& optional_encodable::<Table<Parameter>>(value.parameters)
        &&& optional_encodable::<Table<Response>>(value.responses)
        &&& optional_encodable::<Table<SecurityScheme>>(value.security_definitions)
        &&& optional_encodable::<Vec<SecurityRequirementObject>>(value.security)
        &&& optional_encodable::<Vec<Tag>>(value.tags)
        &&& optional_encodable::<ExternalDoc>(value.external_docs)
        &&& !collides(Self::names(), value.extensions)
    }

    open spec fn valid(value: SwaggerModel) -> bool {
        &&& required_valid::<String>(value.swagger)
        &&& required_valid::<Info>(value.info)
        &&& optional_valid::<String>(value.host)
        &&& optional_valid::<String>(value.base_path)
        &&& optional_valid::<Vec<TransferProtocol>>(value.schemas)
        &&& optional_valid::<String>(value.consumes)
        &&& optional_valid::<String>(value.produces)
        &&& required_valid::<Table<PathItem>>(value.paths)
        &&& optional_valid::<Table<Schema>>(value.definitions)
        &&& optional_valid::<Table<Parameter>>(value.parameters)
        &&& optional_valid::<Table<Response>>(value.responses)
        &&& optional_valid::<Table<SecurityScheme>>(value.security_definitions)
        &&& optional_valid::<Vec<SecurityRequirementObject>>(value.security)
        &&& optional_valid::<Vec<Tag>>(value.tags)
        &&& optional_valid::<ExternalDoc>(value.external_docs)
        &&& !collides(Self::names(), value.extensions)
    }

    open spec fn encoded(value: SwaggerModel) -> JsonModel {
        JsonModel::Object(assembled(Self::names(), Self::slots(value), value.extensions))
    }

    fn decode(json: &Json) -> (res: Result<Swagger, CodecError>) {
        let members = match json {
            Json::Object(members) => members,
            _ => {
                return Err(CodecError::ShapeMismatch);
            },
        };
        let mut reader = ObjectReader::new(members);
        let swagger = decode_required::<String>(reader.field("swagger"))?;
        let info = decode_required::<Info>(reader.field("info"))?;
        let host = decode_optional::<String>(reader.field("host"))?;
        let base_path = decode_optional::<String>(reader.field("basePath"))?;
        let schemas = decode_optional::<Vec<TransferProtocol>>(reader.field("schemas"))?;
        let consumes = decode_optional::<String>(reader.field("consumes"))?;
        let produces = decode_optional::<String>(reader.field("produces"))?;
        let paths = decode_required::<Table<PathItem>>(reader.field("paths"))?;
        let definitions = decode_optional::<Table<Schema>>(reader.field("definitions"))?;
        let parameters = decode_optional::<Table<Parameter>>(reader.field("parameters"))?;
        let responses = decode_optional::<Table<Response>>(reader.field("responses"))?;
        let security_definitions = decode_optional::<Table<SecurityScheme>>(reader.field("SecurityScheme"))?;
        let security = decode_optional::<Vec<SecurityRequirementObject>>(reader.field("security"))?;
        let tags = decode_optional::<Vec<Tag>>(reader.field("tags"))?;
        let external_docs = decode_optional::<ExternalDoc>(reader.field("externalDocs"))?;
        let extensions = reader.rest();
        Ok(Swagger { swagger, info, host, base_path, schemas, consumes, produces, paths, definitions, parameters, responses, security_definitions, security, tags, external_docs, extensions })
    }

    fn encode(&self) -> (res: Result<Json, CodecError>) {
        let writer = ObjectWriter::new();
        let writer = writer.put("swagger", encode_required::<String>(&self.swagger)?);
        let writer = writer.put("info", encode_required::<Info>(&self.info)?);
        let writer = writer.put("host", encode_optional::<String>(&self.host)?);
        let writer = writer.put("basePath", encode_optional::<String>(&self.base_path)?);
        let writer = writer.put("schemas", encode_optional::<Vec<TransferProtocol>>(&self.schemas)?);
        let writer = writer.put("consumes", encode_optional::<String>(&self.consumes)?);
        let writer = writer.put("produces", encode_optional::<String>(&self.produces)?);
        let writer = writer.put("paths", encode_required::<Table<PathItem>>(&self.paths)?);
        let writer = writer.put("definitions", encode_optional::<Table<Schema>>(&self.definitions)?);
        let writer = writer.put("parameters", encode_optional::<Table<Parameter>>(&self.parameters)?);
        let writer = writer.put("responses", encode_optional::<Table<Response>>(&self.responses)?);
        let writer = writer.put("SecurityScheme", encode_optional::<Table<SecurityScheme>>(&self.security_definitions)?);
        let writer = writer.put("security", encode_optional::<Vec<SecurityRequirementObject>>(&self.security)?);
        let writer = writer.put("tags", encode_optional::<Vec<Tag>>(&self.tags)?);
        let writer = writer.put("externalDocs", encode_optional::<ExternalDoc>(&self.external_docs)?);
        writer.finish_with(&self.extensions)
    }

    fn duplicate(&self) -> (copy: Swagger) {
        Swagger {
            swagger: self.swagger.duplicate(),
            info: self.info.duplicate(),
            host: duplicate_optional(&self.host),
            base_path: duplicate_optional(&self.base_path),
            schemas: duplicate_optional(&self.schemas),
            consumes: duplicate_optional(&self.consumes),
            produces: duplicate_optional(&self.produces),
            paths: self.paths.duplicate(),
            definitions: duplicate_optional(&self.definitions),
            parameters: duplicate_optional(&self.parameters),
            responses: duplicate_optional(&self.responses),
            security_definitions: duplicate_optional(&self.security_definitions),
            security: duplicate_optional(&self.security),
            tags: duplicate_optional(&self.tags),
            external_docs: duplicate_optional(&self.external_docs),
            extensions: self.extensions.duplicate(),
        }
    }

    proof fn lemma_round_trip(value: SwaggerModel) {
        let names = Self::names();
        let slots = Self::slots(value);
        Self::lemma_names_distinct();
        lemma_assembled_lookup(names, slots, value.extensions, 0);
        lemma_assembled_lookup(names, slots, value.extensions, 1);
        lemma_assembled_lookup(names, slots, value.extensions, 2);
        lemma_assembled_lookup(names, slots, value.extensions, 3);
        lemma_assembled_lookup(names, slots, value.extensions, 4);
        lemma_assembled_lookup(names, slots, value.extensions, 5);
        lemma_assembled_lookup(names, slots, value.extensions, 6);
        lemma_assembled_lookup(names, slots, value.extensions, 7);
        lemma_assembled_lookup(names, slots, value.extensions, 8);
        lemma_assembled_lookup(names, slots, value.extensions, 9);
        lemma_assembled_lookup(names, slots, value.extensions, 10);
        lemma_assembled_lookup(names, slots, value.extensions, 11);
        lemma_assembled_lookup(names, slots, value.extensions, 12);
        lemma_assembled_lookup(names, slots, value.extensions, 13);
        lemma_assembled_lookup(names, slots, value.extensions, 14);
        lemma_assembled_remainder(names, slots, value.extensions);
        lemma_required_round_trip::<String>(value.swagger);
        lemma_required_round_trip::<Info>(value.info);
        lemma_optional_round_trip::<String>(value.host);
        lemma_optional_round_trip::<String>(value.base_path);
        lemma_optional_round_trip::<Vec<TransferProtocol>>(value.schemas);
        lemma_optional_round_trip::<String>(value.consumes);
        lemma_optional_round_trip::<String>(value.produces);
        lemma_required_round_trip::<Table<PathItem>>(value.paths);
        lemma_optional_round_trip::<Table<Schema>>(value.definitions);
        lemma_optional_round_trip::<Table<Parameter>>(value.parameters);
        lemma_optional_round_trip::<Table<Response>>(value.responses);
        lemma_optional_round_trip::<Table<SecurityScheme>>(value.security_definitions);
        lemma_optional_round_trip::<Vec<SecurityRequirementObject>>(value.security);
        lemma_optional_round_trip::<Vec<Tag>>(value.tags);
        lemma_optional_round_trip::<ExternalDoc>(value.external_docs);
    }

    proof fn lemma_read_is_valid(json: JsonModel) {
        let members = json->Object_0;
        let names = Self::names();
        let value = Self::decoded(json);
        let slots = Self::slots(value);
        lemma_required_read_is_valid::<String>(lookup(members, "swagger"@));
        lemma_required_read_is_valid::<Info>(lookup(members, "info"@));
        lemma_optional_read_is_valid::<String>(lookup(members, "host"@));
        lemma_optional_read_is_valid::<String>(lookup(members, "basePath"@));
        lemma_optional_read_is_valid::<Vec<TransferProtocol>>(lookup(members, "schemas"@));
        lemma_optional_read_is_valid::<String>(lookup(members, "consumes"@));
        lemma_optional_read_is_valid::<String>(lookup(members, "produces"@));
        lemma_required_read_is_valid::<Table<PathItem>>(lookup(members, "paths"@));
        lemma_optional_read_is_valid::<Table<Schema>>(lookup(members, "definitions"@));
        lemma_optional_read_is_valid::<Table<Parameter>>(lookup(members, "parameters"@));
        lemma_optional_read_is_valid::<Table<Response>>(lookup(members, "responses"@));
        lemma_optional_read_is_valid::<Table<SecurityScheme>>(lookup(members, "SecurityScheme"@));
        lemma_optional_read_is_valid::<Vec<SecurityRequirementObject>>(lookup(members, "security"@));
        lemma_optional_read_is_valid::<Vec<Tag>>(lookup(members, "tags"@));
        lemma_optional_read_is_valid::<ExternalDoc>(lookup(members, "externalDocs"@));
        lemma_remainder_unnamed(members, names);
        Self::lemma_pointer_unnamed();
        lemma_assembled_lookup_other(names, slots, value.extensions, POINTER_KEY@);
        lemma_remainder_lookup(members, names, POINTER_KEY@);
    }
}

impl Info {
    /// The keys of the named fields, in the order in which they are written.
    pub open spec fn names() -> Seq<Seq<char>> {
        Seq::empty()
            .push("title"@)
            .push("description"@)
            .push("termsOfService"@)
            .push("contact"@)
            .push("license"@)
            .push("version"@)
    }

    /// What each named field is written as, in the order of the names.
    pub open spec fn slots(value: InfoModel) -> Seq<Option<JsonModel>> {
        Seq::empty()
            .push(required_encoded::<String>(value.title))
            .push(optional_encoded::<String>(value.description))
            .push(optional_encoded::<String>(value.terms_of_service))
            .push(optional_encoded::<Contact>(value.contact))
            .push(optional_encoded::<License>(value.license))
            .push(optional_encoded::<String>(value.version))
    }

    /// No key is named twice.
    pub proof fn lemma_names_distinct()
        ensures
            Self::names().no_duplicates(),
    {
        reveal_strlit("title");
        reveal_strlit("description");
        reveal_strlit("termsOfService");
        reveal_strlit("contact");
        reveal_strlit("license");
        reveal_strlit("version");
        assert("title"@.len() == 5);
        assert("description"@.len() == 11);
        assert("termsOfService"@.len() == 14);
        assert("contact"@.len() == 7 && "contact"@[0] == 'c');
        assert("license"@.len() == 7 && "license"@[0] == 'l');
        assert("version"@.len() == 7 && "version"@[0] == 'v');
    }

    /// The pointer key is none of the names.
    pub proof fn lemma_pointer_unnamed()
        ensures
            !Self::names().contains(POINTER_KEY@),
    {
        reveal_strlit("$ref");
        reveal_strlit("title");
        reveal_strlit("description");
        reveal_strlit("termsOfService");
        reveal_strlit("contact");
        reveal_strlit("license");
        reveal_strlit("version");
        assert("$ref"@.len() == 4);
        assert("title"@.len() == 5);
        assert("description"@.len() == 11);
        assert("termsOfService"@.len() == 14);
        assert("contact"@.len() == 7);
        assert("license"@.len() == 7);
        assert("version"@.len() == 7);
    }
}

impl Clone for Info {
    fn clone(&self) -> (copy: Info)
        ensures
            copy.model() == self.model(),
    {
        self.duplicate()
    }
}

impl Codec for Info {
    type Model = InfoModel;

    open spec fn model(&self) -> InfoModel {
        InfoModel {
            title: self.title.model(),
            description: option_model(self.description),
            terms_of_service: option_model(self.terms_of_service),
            contact: option_model(self.contact),
            license: option_model(self.license),
            version: option_model(self.version),
            extensions: self.extensions.model(),
        }
    }

    open spec fn fits(json: JsonModel) -> bool {
        &&& json is Object
        &&& required_fits::<String>(lookup(json->Object_0, "title"@))
        &&& optional_fits::<String>(lookup(json->Object_0, "description"@))
        &&& optional_fits::<String>(lookup(json->Object_0, "termsOfService"@))
        &&& optional_fits::<Contact>(lookup(json->Object_0, "contact"@))
        &&& optional_fits::<License>(lookup(json->Object_0, "license"@))
        &&& optional_fits::<String>(lookup(json->Object_0, "version"@))
    }

    open spec fn decoded(json: JsonModel) -> InfoModel {
        InfoModel {
            title: required_decoded::<String>(lookup(json->Object_0, "title"@)),
            description: optional_decoded::<String>(lookup(json->Object_0, "description"@)),
            terms_of_service: optional_decoded::<String>(lookup(json->Object_0, "termsOfService"@)),
            contact: optional_decoded::<Contact>(lookup(json->Object_0, "contact"@)),
            license: optional_decoded::<License>(lookup(json->Object_0, "license"@)),
            version: optional_decoded::<String>(lookup(json->Object_0, "version"@)),
            extensions: remainder(json->Object_0, Self::names()),
        }
    }

    open spec fn encodable(value: InfoModel) -> bool {
        &&& required_encodable::<String>(value.title)
        &&& optional_encodable::<String>(value.description)
        &&& optional_encodable::<String>(value.terms_of_service)
        &&& optional_encodable::<Contact>(value.contact)
        &&& optional_encodable::<License>(value.license)
        &&& optional_encodable::<String>(value.version)
        &&& !collides(Self::names(), value.extensions)
    }

    open spec fn valid(value: InfoModel) -> bool {
        &&& required_valid::<String>(value.title)
        &&& optional_valid::<String>(value.description)
        &&& optional_valid::<String>(value.terms_of_service)
        &&& optional_valid::<Contact>(value.contact)
        &&& optional_valid::<License>(value.license)
        &&& optional_valid::<String>(value.version)
        &&& !collides(Self::names(), value.extensions)
    }

    open spec fn encoded(value: InfoModel) -> JsonModel {
        JsonModel::Object(assembled(Self::names(), Self::slots(value), value.extensions))
    }

    fn decode(json: &Json) -> (res: Result<Info, CodecError>) {
        let members = match json {
            Json::Object(members) => members,
            _ => {
                return Err(CodecError::ShapeMismatch);
            },
        };
        let mut reader = ObjectReader::new(members);
        let title = decode_required::<String>(reader.field("title"))?;
        let description = decode_optional::<String>(reader.field("description"))?;
        let terms_of_service = decode_optional::<String>(reader.field("termsOfService"))?;
        let contact = decode_optional::<Contact>(reader.field("contact"))?;
        let license = decode_optional::<License>(reader.field("license"))?;
        let version = decode_optional::<String>(reader.field("version"))?;
        let extensions = reader.rest();
        Ok(Info { title, description, terms_of_service, contact, license, version, extensions })
    }

    fn encode(&self) -> (res: Result<Json, CodecError>) {
        let writer = ObjectWriter::new();
        let writer = writer.put("title", encode_required::<String>(&self.title)?);
        let writer = writer.put("description", encode_optional::<String>(&self.description)?);
        let writer = writer.put("termsOfService", encode_optional::<String>(&self.terms_of_service)?);
        let writer = writer.put("contact", encode_optional::<Contact>(&self.contact)?);
        let writer = writer.put("license", encode_optional::<License>(&self.license)?);
        let writer = writer.put("version", encode_optional::<String>(&self.version)?);
        writer.finish_with(&self.extensions)
    }

    fn duplicate(&self) -> (copy: Info) {
        Info {
            title: self.title.duplicate(),
            description: duplicate_optional(&self.description),
            terms_of_service: duplicate_optional(&self.terms_of_service),
            contact: duplicate_optional(&self.contact),
            license: duplicate_optional(&self.license),
            version: duplicate_optional(&self.version),
            extensions: self.extensions.duplicate(),
        }
    }

    proof fn lemma_round_trip(value: InfoModel) {
        let names = Self::names();
        let slots = Self::slots(value);
        Self::lemma_names_distinct();
        lemma_assembled_lookup(names, slots, value.extensions, 0);
        lemma_assembled_lookup(names, slots, value.extensions, 1);
        lemma_assembled_lookup(names, slots, value.extensions, 2);
        lemma_assembled_lookup(names, slots, value.extensions, 3);
        lemma_assembled_lookup(names, slots, value.extensions, 4);
        lemma_assembled_lookup(names, slots, value.extensions, 5);
        lemma_assembled_remainder(names, slots, value.extensions);
        lemma_required_round_trip::<String>(value.title);
        lemma_optional_round_trip::<String>(value.description);
        lemma_optional_round_trip::<String>(value.terms_of_service);
        lemma_optional_round_trip::<Contact>(value.contact);
        lemma_optional_round_trip::<License>(value.license);
        lemma_optional_round_trip::<String>(value.version);
    }

    proof fn lemma_read_is_valid(json: JsonModel) {
        let members = json->Object_0;
        let names = Self::names();
        let value = Self::decoded(json);
        let slots = Self::slots(value);
        lemma_required_read_is_valid::<String>(lookup(members, "title"@));
        lemma_optional_read_is_valid::<String>(lookup(members, "description"@));
        lemma_optional_read_is_valid::<String>(lookup(members, "termsOfService"@));
        lemma_optional_read_is_valid::<Contact>(lookup(members, "contact"@));
        lemma_optional_read_is_valid::<License>(lookup(members, "license"@));
        lemma_optional_read_is_valid::<String>(lookup(members, "version"@));
        lemma_remainder_unnamed(members, names);
        Self::lemma_pointer_unnamed();
        lemma_assembled_lookup_other(names, slots, value.extensions, POINTER_KEY@);
        lemma_remainder_lookup(members, names, POINTER_KEY@);
    }
}

impl Contact {
    /// The keys of the named fields, in the order in which they are written.
    pub open spec fn names() -> Seq<Seq<char>> {
        Seq::empty()
            .push("name"@)
            .push("url"@)
            .push("email"@)
    }

    /// What each named field is written as, in the order of the names.
    pub open spec fn slots(value: ContactModel) -> Seq<Option<JsonModel>> {
        Seq::empty()
            .push(optional_encoded::<String>(value.name))
            .push(optional_encoded::<String>(value.url))
            .push(optional_encoded::<String>(value.email))
    }

    /// No key is named twice.
    pub proof fn lemma_names_distinct()
        ensures
            Self::names().no_duplicates(),
    {
        reveal_strlit("name");
        reveal_strlit("url");
        reveal_strlit("email");
        assert("name"@.len() == 4);
        assert("url"@.len() == 3);
        assert("email"@.len() == 5);
    }

    /// The pointer key is none of the names.
    pub proof fn lemma_pointer_unnamed()
        ensures
            !Self::names().contains(POINTER_KEY@),
    {
        reveal_strlit("$ref");
        reveal_strlit("name");
        reveal_strlit("url");
        reveal_strlit("email");
        assert("$ref"@.len() == 4 && "$ref"@[0] == '$');
        assert("name"@.len() == 4 && "name"@[0] == 'n');
        assert("url"@.len() == 3);
        assert("email"@.len() == 5);
    }
}

impl Clone for Contact {
    fn clone(&self) -> (copy: Contact)
        ensures
            copy.model() == self.model(),
    {
        self.duplicate()
    }
}

impl Codec for Contact {
    type Model = ContactModel;

    open spec fn model(&self) -> ContactModel {
        ContactModel {
            name: option_model(self.name),
            url: option_model(self.url),
            email: option_model(self.email),
            extensions: self.extensions.model(),
        }
    }

    open spec fn fits(json: JsonModel) -> bool {
        &&& json is Object
        &&& optional_fits::<String>(lookup(json->Object_0, "name"@))
        &&& optional_fits::<String>(lookup(json->Object_0, "url"@))
        &&& optional_fits::<String>(lookup(json->Object_0, "email"@))
    }

    open spec fn decoded(json: JsonModel) -> ContactModel {
        ContactModel {
            name: optional_decoded::<String>(lookup(json->Object_0, "name"@)),
            url: optional_decoded::<String>(lookup(json->Object_0, "url"@)),
            email: optional_decoded::<String>(lookup(json->Object_0, "email"@)),
            extensions: remainder(json->Object_0, Self::names()),
        }
    }

    open spec fn encodable(value: ContactModel) -> bool {
        &&& optional_encodable::<String>(value.name)
        &&& optional_encodable::<String>(value.url)
        &&& optional_encodable::<String>(value.email)
        &&& !collides(Self::names(), value.extensions)
    }

    open spec fn valid(value: ContactModel) -> bool {
        &&& optional_valid::<String>(value.name)
        &&& optional_valid::<String>(value.url)
        &&& optional_valid::<String>(value.email)
        &&& !collides(Self::names(), value.extensions)
    }

    open spec fn encoded(value: ContactModel) -> JsonModel {
        JsonModel::Object(assembled(Self::names(), Self::slots(value), value.extensions))
    }

    fn decode(json: &Json) -> (res: Result<Contact, CodecError>) {
        let members = match json {
            Json::Object(members) => members,
            _ => {
                return Err(CodecError::ShapeMismatch);
            },
        };
        let mut reader = ObjectReader::new(members);
        let name = decode_optional::<String>(reader.field("name"))?;
        let url = decode_optional::<String>(reader.field("url"))?;
        let email = decode_optional::<String>(reader.field("email"))?;
        let extensions = reader.rest();
        Ok(Contact { name, url, email, extensions })
    }

    fn encode(&self) -> (res: Result<Json, CodecError>) {
        let writer = ObjectWriter::new();
        let writer = writer.put("name", encode_optional::<String>(&self.name)?);
        let writer = writer.put("url", encode_optional::<String>(&self.url)?);
        let writer = writer.put("email", encode_optional::<String>(&self.email)?);
        writer.finish_with(&self.extensions)
    }

    fn duplicate(&self) -> (copy: Contact) {
        Contact {
            name: duplicate_optional(&self.name),
            url: duplicate_optional(&self.url),
            email: duplicate_optional(&self.email),
            extensions: self.extensions.duplicate(),
        }
    }

    proof fn lemma_round_trip(value: ContactModel) {
        let names = Self::names();
        let slots = Self::slots(value);
        Self::lemma_names_distinct();
        lemma_assembled_lookup(names, slots, value.extensions, 0);
        lemma_assembled_lookup(names, slots, value.extensions, 1);
        lemma_assembled_lookup(names, slots, value.extensions, 2);
        lemma_assembled_remainder(names, slots, value.extensions);
        lemma_optional_round_trip::<String>(value.name);
        lemma_optional_round_trip::<String>(value.url);
        lemma_optional_round_trip::<String>(value.email);
    }

    proof fn lemma_read_is_valid(json: JsonModel) {
        let members = json->Object_0;
        let names = Self::names();
        let value = Self::decoded(json);
        let slots = Self::slots(value);
        lemma_optional_read_is_valid::<String>(lookup(members, "name"@));
        lemma_optional_read_is_valid::<String>(lookup(members, "url"@));
        lemma_optional_read_is_valid::<String>(lookup(members, "email"@));
        lemma_remainder_unnamed(members, names);
        Self::lemma_pointer_unnamed();
        lemma_assembled_lookup_other(names, slots, value.extensions, POINTER_KEY@);
        lemma_remainder_lookup(members, names, POINTER_KEY@);
    }
}

impl License {
    /// The keys of the named fields, in the order in which they are written.
    pub open spec fn names() -> Seq<Seq<char>> {
        Seq::empty()
            .push("name"@)
            .push("url"@)
    }

    /// What each named field is written as, in the order of the names.
    pub open spec fn slots(value: LicenseModel) -> Seq<Option<JsonModel>> {
        Seq::empty()
            .push(required_encoded::<String>(value.name))
            .push(optional_encoded::<String>(value.url))
    }

    /// No key is named twice.
    pub proof fn lemma_names_distinct()
        ensures
            Self::names().no_duplicates(),
    {
        reveal_strlit("name");
        reveal_strlit("url");
        assert("name"@.len() == 4);
        assert("url"@.len() == 3);
    }

    /// The pointer key is none of the names.
    pub proof fn lemma_pointer_unnamed()
        ensures
            !Self::names().contains(POINTER_KEY@),
    {
        reveal_strlit("$ref");
        reveal_strlit("name");
        reveal_strlit("url");
        assert("$ref"@.len() == 4 && "$ref"@[0] == '$');
        assert("name"@.len() == 4 && "name"@[0] == 'n');
        assert("url"@.len() == 3);
    }
}

impl Clone for License {
    fn clone(&self) -> (copy: License)
        ensures
            copy.model() == self.model(),
    {
        self.duplicate()
    }
}

impl Codec for License {
    type Model = LicenseModel;

    open spec fn model(&self) -> LicenseModel {
        LicenseModel {
            name: self.name.model(),
            url: option_model(self.url),
            extensions: self.extensions.model(),
        }
    }

    open spec fn fits(json: JsonModel) -> bool {
        &&& json is Object
        &&& required_fits::<String>(lookup(json->Object_0, "name"@))
        &&& optional_fits::<String>(lookup(json->Object_0, "url"@))
    }

    open spec fn decoded(json: JsonModel) -> LicenseModel {
        LicenseModel {
            name: required_decoded::<String>(lookup(json->Object_0, "name"@)),
            url: optional_decoded::<String>(lookup(json->Object_0, "url"@)),
            extensions: remainder(json->Object_0, Self::names()),
        }
    }

    open spec fn encodable(value: LicenseModel) -> bool {
        &&& required_encodable::<String>(value.name)
        &&& optional_encodable::<String>(value.url)
        &&& !collides(Self::names(), value.extensions)
    }

    open spec fn valid(value: LicenseModel) -> bool {
        &&& required_valid::<String>(value.name)
        &&& optional_valid::<String>(value.url)
        &&& !collides(Self::names(), value.extensions)
    }

    open spec fn encoded(value: LicenseModel) -> JsonModel {
        JsonModel::Object(assembled(Self::names(), Self::slots(value), value.extensions))
    }

    fn decode(json: &Json) -> (res: Result<License, CodecError>) {
        let members = match json {
            Json::Object(members) => members,
            _ => {
                return Err(CodecError::ShapeMismatch);
            },
        };
        let mut reader = ObjectReader::new(members);
        let name = decode_required::<String>(reader.field("name"))?;
        let url = decode_optional::<String>(reader.field("url"))?;
        let extensions = reader.rest();
        Ok(License { name, url, extensions })
    }

    fn encode(&self) -> (res: Result<Json, CodecError>) {
        let writer = ObjectWriter::new();
        let writer = writer.put("name", encode_required::<String>(&self.name)?);
        let writer = writer.put("url", encode_optional::<String>(&self.url)?);
        writer.finish_with(&self.extensions)
    }

    fn duplicate(&self) -> (copy: License) {
        License {
            name: self.name.duplicate(),
            url: duplicate_optional(&self.url),
            extensions: self.extensions.duplicate(),
        }
    }

    proof fn lemma_round_trip(value: LicenseModel) {
        let names = Self::names();
        let slots = Self::slots(value);
        Self::lemma_names_distinct();
        lemma_assembled_lookup(names, slots, value.extensions, 0);
        lemma_assembled_lookup(names, slots, value.extensions, 1);
        lemma_assembled_remainder(names, slots, value.extensions);
        lemma_required_round_trip::<String>(value.name);
        lemma_optional_round_trip::<String>(value.url);
    }

    proof fn lemma_read_is_valid(json: JsonModel) {
        let members = json->Object_0;
        let names = Self::names();
        let value = Self::decoded(json);
        let slots = Self::slots(value);
        lemma_required_read_is_valid::<String>(lookup(members, "name"@));
        lemma_optional_read_is_valid::<String>(lookup(members, "url"@));
        lemma_remainder_unnamed(members, names);
        Self::lemma_pointer_unnamed();
        lemma_assembled_lookup_other(names, slots, value.extensions, POINTER_KEY@);
        lemma_remainder_lookup(members, names, POINTER_KEY@);
    }
}

impl ExternalDoc {
    /// The keys of the named fields, in the order in which they are written.
    pub open spec fn names() -> Seq<Seq<char>> {
        Seq::empty()
            .push("description"@)
            .push("url"@)
    }

    /// What each named field is written as, in the order of the names.
    pub open spec fn slots(value: ExternalDocModel) -> Seq<Option<JsonModel>> {
        Seq::empty()
            .push(optional_encoded::<String>(value.description))
            .push(required_encoded::<String>(value.url))
    }

    /// No key is named twice.
    pub proof fn lemma_names_distinct()
        ensures
            Self::names().no_duplicates(),
    {
        reveal_strlit("description");
        reveal_strlit("url");
        assert("description"@.len() == 11);
        assert("url"@.len() == 3);
    }

    /// The pointer key is none of the names.
    pub proof fn lemma_pointer_unnamed()
        ensures
            !Self::names().contains(POINTER_KEY@),
    {
        reveal_strlit("$ref");
        reveal_strlit("description");
        reveal_strlit("url");
        assert("$ref"@.len() == 4);
        assert("description"@.len() == 11);
        assert("url"@.len() == 3);
    }
}

impl Clone for ExternalDoc {
    fn clone(&self) -> (copy: ExternalDoc)
        ensures
            copy.model() == self.model(),
    {
        self.duplicate()
    }
}

impl Codec for ExternalDoc {
    type Model = ExternalDocModel;

    open spec fn model(&self) -> ExternalDocModel {
        ExternalDocModel {
            description: option_model(self.description),
            url: self.url.model(),
        }
    }

    open spec fn fits(json: JsonModel) -> bool {
        &&& json is Object
        &&& optional_fits::<String>(lookup(json->Object_0, "description"@))
        &&& required_fits::<String>(lookup(json->Object_0, "url"@))
    }

    open spec fn decoded(json: JsonModel) -> ExternalDocModel {
        ExternalDocModel {
            description: optional_decoded::<String>(lookup(json->Object_0, "description"@)),
            url: required_decoded::<String>(lookup(json->Object_0, "url"@)),
        }
    }

    open spec fn encodable(value: ExternalDocModel) -> bool {
        &&& optional_encodable::<String>(value.description)
        &&& required_encodable::<String>(value.url)
    }

    open spec fn valid(value: ExternalDocModel) -> bool {
        &&& optional_valid::<String>(value.description)
        &&& required_valid::<String>(value.url)
    }

    open spec fn encoded(value: ExternalDocModel) -> JsonModel {
        JsonModel::Object(named_members(Self::names(), Self::slots(value)))
    }

    fn decode(json: &Json) -> (res: Result<ExternalDoc, CodecError>) {
        let members = match json {
            Json::Object(members) => members,
            _ => {
                return Err(CodecError::ShapeMismatch);
            },
        };
        let mut reader = ObjectReader::new(members);
        let description = decode_optional::<String>(reader.field("description"))?;
        let url = decode_required::<String>(reader.field("url"))?;
        Ok(ExternalDoc { description, url })
    }

    fn encode(&self) -> (res: Result<Json, CodecError>) {
        let writer = ObjectWriter::new();
        let writer = writer.put("description", encode_optional::<String>(&self.description)?);
        let writer = writer.put("url", encode_required::<String>(&self.url)?);
        Ok(writer.finish())
    }

    fn duplicate(&self) -> (copy: ExternalDoc) {
        ExternalDoc {
            description: duplicate_optional(&self.description),
            url: self.url.duplicate(),
        }
    }

    proof fn lemma_round_trip(value: ExternalDocModel) {
        let names = Self::names();
        let slots = Self::slots(value);
        Self::lemma_names_distinct();
        lemma_named_lookup(names, slots, 0);
        lemma_named_lookup(names, slots, 1);
        lemma_optional_round_trip::<String>(value.description);
        lemma_required_round_trip::<String>(value.url);
    }

    proof fn lemma_read_is_valid(json: JsonModel) {
        let members = json->Object_0;
        let names = Self::names();
        let value = Self::decoded(json);
        let slots = Self::slots(value);
        lemma_optional_read_is_valid::<String>(lookup(members, "description"@));
        lemma_required_read_is_valid::<String>(lookup(members, "url"@));
        Self::lemma_pointer_unnamed();
        lemma_named_lookup_other(names, slots, POINTER_KEY@);
    }
}

impl Tag {
    /// The keys of the named fields, in the order in which they are written.
    pub open spec fn names() -> Seq<Seq<char>> {
        Seq::empty()
            .push("name"@)
            .push("description"@)
            .push("externalDoc"@)
    }

    /// What each named field is written as, in the order of the names.
    pub open spec fn slots(value: TagModel) -> Seq<Option<JsonModel>> {
        Seq::empty()
            .push(required_encoded::<String>(value.name))
            .push(optional_encoded::<String>(value.description))
            .push(optional_encoded::<ExternalDoc>(value.external_doc))
    }

    /// No key is named twice.
    pub proof fn lemma_names_distinct()
        ensures
            Self::names().no_duplicates(),
    {
        reveal_strlit("name");
        reveal_strlit("description");
        reveal_strlit("externalDoc");
        assert("name"@.len() == 4);
        assert("description"@.len() == 11 && "description"@[0] == 'd');
        assert("externalDoc"@.len() == 11 && "externalDoc"@[0] == 'e');
    }

    /// The pointer key is none of the names.
    pub proof fn lemma_pointer_unnamed()
        ensures
            !Self::names().contains(POINTER_KEY@),
    {
        reveal_strlit("$ref");
        reveal_strlit("name");
        reveal_strlit("description");
        reveal_strlit("externalDoc");
        assert("$ref"@.len() == 4 && "$ref"@[0] == '$');
        assert("name"@.len() == 4 && "name"@[0] == 'n');
        assert("description"@.len() == 11);
        assert("externalDoc"@.len() == 11);
    }
}

impl Clone for Tag {
    fn clone(&self) -> (copy: Tag)
        ensures
            copy.model() == self.model(),
    {
        self.duplicate()
    }
}

impl Codec for Tag {
    type Model = TagModel;

    open spec fn model(&self) -> TagModel {
        TagModel {
            name: self.name.model(),
            description: option_model(self.description),
            external_doc: option_model(self.external_doc),
        }
    }

    open spec fn fits(json: JsonModel) -> bool {
        &&& json is Object
        &&& required_fits::<String>(lookup(json->Object_0, "name"@))
        &&& optional_fits::<String>(lookup(json->Object_0, "description"@))
        &&& optional_fits::<ExternalDoc>(lookup(json->Object_0, "externalDoc"@))
    }

    open spec fn decoded(json: JsonModel) -> TagModel {
        TagModel {
            name: required_decoded::<String>(lookup(json->Object_0, "name"@)),
            description: optional_decoded::<String>(lookup(json->Object_0, "description"@)),
            external_doc: optional_decoded::<ExternalDoc>(lookup(json->Object_0, "externalDoc"@)),
        }
    }

    open spec fn encodable(value: TagModel) -> bool {
        &&& required_encodable::<String>(value.name)
        &&& optional_encodable::<String>(value.description)
        &&& optional_encodable::<ExternalDoc>(value.external_doc)
    }

    open spec fn valid(value: TagModel) -> bool {
        &&& required_valid::<String>(value.name)
        &&& optional_valid::<String>(value.description)
        &&& optional_valid::<ExternalDoc>(value.external_doc)
    }

    open spec fn encoded(value: TagModel) -> JsonModel {
        JsonModel::Object(named_members(Self::names(), Self::slots(value)))
    }

    fn decode(json: &Json) -> (res: Result<Tag, CodecError>) {
        let members = match json {
            Json::Object(members) => members,
            _ => {
                return Err(CodecError::ShapeMismatch);
            },
        };
        let mut reader = ObjectReader::new(members);
        let name = decode_required::<String>(reader.field("name"))?;
        let description = decode_optional::<String>(reader.field("description"))?;
        let external_doc = decode_optional::<ExternalDoc>(reader.field("externalDoc"))?;
        Ok(Tag { name, description, external_doc })
    }

    fn encode(&self) -> (res: Result<Json, CodecError>) {
        let writer = ObjectWriter::new();
        let writer = writer.put("name", encode_required::<String>(&self.name)?);
        let writer = writer.put("description", encode_optional::<String>(&self.description)?);
        let writer = writer.put("externalDoc", encode_optional::<ExternalDoc>(&self.external_doc)?);
        Ok(writer.finish())
    }

    fn duplicate(&self) -> (copy: Tag) {
        Tag {
            name: self.name.duplicate(),
            description: duplicate_optional(&self.description),
            external_doc: duplicate_optional(&self.external_doc),
        }
    }

    proof fn lemma_round_trip(value: TagModel) {
        let names = Self::names();
        let slots = Self::slots(value);
        Self::lemma_names_distinct();
        lemma_named_lookup(names, slots, 0);
        lemma_named_lookup(names, slots, 1);
        lemma_named_lookup(names, slots, 2);
        lemma_required_round_trip::<String>(value.name);
        lemma_optional_round_trip::<String>(value.description);
        lemma_optional_round_trip::<ExternalDoc>(value.external_doc);
    }

    proof fn lemma_read_is_valid(json: JsonModel) {
        let members = json->Object_0;
        let names = Self::names();
        let value = Self::decoded(json);
        let slots = Self::slots(value);
        lemma_required_read_is_valid::<String>(lookup(members, "name"@));
        lemma_optional_read_is_valid::<String>(lookup(members, "description"@));
        lemma_optional_read_is_valid::<ExternalDoc>(lookup(members, "externalDoc"@));
        Self::lemma_pointer_unnamed();
        lemma_named_lookup_other(names, slots, POINTER_KEY@);
    }
}

impl SecurityScheme {
    /// The keys of the named fields, in the order in which they are written.
    pub open spec fn names() -> Seq<Seq<char>> {
        Seq::empty()
            .push("type"@)
            .push("description"@)
            .push("name"@)
            .push("in"@)
            .push("flow"@)
            .push("authorizationUrl"@)
            .push("tokenUrl"@)
            .push("scopes"@)
    }

    /// What each named field is written as, in the order of the names.
    pub open spec fn slots(value: SecuritySchemeModel) -> Seq<Option<JsonModel>> {
        Seq::empty()
            .push(required_encoded::<SecuritySchemeType>(value.type_))
            .push(optional_encoded::<String>(value.description))
            .push(required_encoded::<String>(value.name))
            .push(required_encoded::<InEnum>(value.in_))
            .push(required_encoded::<Flow>(value.flow))
            .push(required_encoded::<AuthorizationUrl>(value.authorization_url))
            .push(required_encoded::<TokenUrl>(value.token_url))
            .push(required_encoded::<Table<String>>(value.scopes))
    }

    /// No key is named twice.
    pub proof fn lemma_names_distinct()
        ensures
            Self::names().no_duplicates(),
    {
        reveal_strlit("type");
        reveal_strlit("description");
        reveal_strlit("name");
        reveal_strlit("in");
        reveal_strlit("flow");
        reveal_strlit("authorizationUrl");
        reveal_strlit("tokenUrl");
        reveal_strlit("scopes");
        assert("type"@.len() == 4 && "type"@[0] == 't');
        assert("description"@.len() == 11);
        assert("name"@.len() == 4 && "name"@[0] == 'n');
        assert("in"@.len() == 2);
        assert("flow"@.len() == 4 && "flow"@[0] == 'f');
        assert("authorizationUrl"@.len() == 16);
        assert("tokenUrl"@.len() == 8);
        assert("scopes"@.len() == 6);
    }

    /// The pointer key is none of the names.
    pub proof fn lemma_pointer_unnamed()
        ensures
            !Self::names().contains(POINTER_KEY@),
    {
        reveal_strlit("$ref");
        reveal_strlit("type");
        reveal_strlit("description");
        reveal_strlit("name");
        reveal_strlit("in");
        reveal_strlit("flow");
        reveal_strlit("authorizationUrl");
        reveal_strlit("tokenUrl");
        reveal_strlit("scopes");
        assert("$ref"@.len() == 4 && "$ref"@[0] == '$');
        assert("type"@.len() == 4 && "type"@[0] == 't');
        assert("description"@.len() == 11);
        assert("name"@.len() == 4 && "name"@[0] == 'n');
        assert("in"@.len() == 2);
        assert("flow"@.len() == 4 && "flow"@[0] == 'f');
        assert("authorizationUrl"@.len() == 16);
        assert("tokenUrl"@.len() == 8);
        assert("scopes"@.len() == 6);
    }
}

impl Clone for SecurityScheme {
    fn clone(&self) -> (copy: SecurityScheme)
        ensures
            copy.model() == self.model(),
    {
        self.duplicate()
    }
}

impl Codec for SecurityScheme {
    type Model = SecuritySchemeModel;

    open spec fn model(&self) -> SecuritySchemeModel {
        SecuritySchemeModel {
            type_: self.type_.model(),
            description: option_model(self.description),
            name: self.name.model(),
            in_: self.in_.model(),
            flow: self.flow.model(),
            authorization_url: self.authorization_url.model(),
            token_url: self.token_url.model(),
            scopes: self.scopes.model(),
            extensions: self.extensions.model(),
        }
    }

    open spec fn fits(json: JsonModel) -> bool {
        &&& json is Object
        &&& required_fits::<SecuritySchemeType>(lookup(json->Object_0, "type"@))
        &&& optional_fits::<String>(lookup(json->Object_0, "description"@))
        &&& required_fits::<String>(lookup(json->Object_0, "name"@))
        &&& required_fits::<InEnum>(lookup(json->Object_0, "in"@))
        &&& required_fits::<Flow>(lookup(json->Object_0, "flow"@))
        &&& required_fits::<AuthorizationUrl>(lookup(json->Object_0, "authorizationUrl"@))
        &&& required_fits::<TokenUrl>(lookup(json->Object_0, "tokenUrl"@))
        &&& required_fits::<Table<String>>(lookup(json->Object_0, "scopes"@))
    }

    open spec fn decoded(json: JsonModel) -> SecuritySchemeModel {
        SecuritySchemeModel {
            type_: required_decoded::<SecuritySchemeType>(lookup(json->Object_0, "type"@)),
            description: optional_decoded::<String>(lookup(json->Object_0, "description"@)),
            name: required_decoded::<String>(lookup(json->Object_0, "name"@)),
            in_: required_decoded::<InEnum>(lookup(json->Object_0, "in"@)),
            flow: required_decoded::<Flow>(lookup(json->Object_0, "flow"@)),
            authorization_url: required_decoded::<AuthorizationUrl>(lookup(json->Object_0, "authorizationUrl"@)),
            token_url: required_decoded::<TokenUrl>(lookup(json->Object_0, "tokenUrl"@)),
            scopes: required_decoded::<Table<String>>(lookup(json->Object_0, "scopes"@)),
            extensions: remainder(json->Object_0, Self::names()),
        }
    }

    open spec fn encodable(value: SecuritySchemeModel) -> bool {
        &&& required_encodable::<SecuritySchemeType>(value.type_)
        &&& optional_encodable::<String>(value.description)
        &&& required_encodable::<String>(value.name)
        &&& required_encodable::<InEnum>(value.in_)
        &&& required_encodable::<Flow>(value.flow)
        &&& required_encodable::<AuthorizationUrl>(value.authorization_url)
        &&& required_encodable::<TokenUrl>(value.token_url)
        &&& required_encodable::<Table<String>>(value.scopes)
        &&& !collides(Self::names(), value.extensions)
    }

    open spec fn valid(value: SecuritySchemeModel) -> bool {
        &&& required_valid::<SecuritySchemeType>(value.type_)
        &&& optional_valid::<String>(value.description)
        &&& required_valid::<String>(value.name)
        &&& required_valid::<InEnum>(value.in_)
        &&& required_valid::<Flow>(value.flow)
        &&& required_valid::<AuthorizationUrl>(value.authorization_url)
        &&& required_valid::<TokenUrl>(value.token_url)
        &&& required_valid::<Table<String>>(value.scopes)
        &&& !collides(Self::names(), value.extensions)
    }

    open spec fn encoded(value: SecuritySchemeModel) -> JsonModel {
        JsonModel::Object(assembled(Self::names(), Self::slots(value), value.extensions))
    }

    fn decode(json: &Json) -> (res: Result<SecurityScheme, CodecError>) {
        let members = match json {
            Json::Object(members) => members,
            _ => {
                return Err(CodecError::ShapeMismatch);
            },
        };
        let mut reader = ObjectReader::new(members);
        let type_ = decode_required::<SecuritySchemeType>(reader.field("type"))?;
        let description = decode_optional::<String>(reader.field("description"))?;
        let name = decode_required::<String>(reader.field("name"))?;
        let in_ = decode_required::<InEnum>(reader.field("in"))?;
        let flow = decode_required::<Flow>(reader.field("flow"))?;
        let authorization_url = decode_required::<AuthorizationUrl>(reader.field("authorizationUrl"))?;
        let token_url = decode_required::<TokenUrl>(reader.field("tokenUrl"))?;
        let scopes = decode_required::<Table<String>>(reader.field("scopes"))?;
        let extensions = reader.rest();
        Ok(SecurityScheme { type_, description, name, in_, flow, authorization_url, token_url, scopes, extensions })
    }

    fn encode(&self) -> (res: Result<Json, CodecError>) {
        let writer = ObjectWriter::new();
        let writer = writer.put("type", encode_required::<SecuritySchemeType>(&self.type_)?);
        let writer = writer.put("description", encode_optional::<String>(&self.description)?);
        let writer = writer.put("name", encode_required::<String>(&self.name)?);
        let writer = writer.put("in", encode_required::<InEnum>(&self.in_)?);
        let writer = writer.put("flow", encode_required::<Flow>(&self.flow)?);
        let writer = writer.put("authorizationUrl", encode_required::<AuthorizationUrl>(&self.authorization_url)?);
        let writer = writer.put("tokenUrl", encode_required::<TokenUrl>(&self.token_url)?);
        let writer = writer.put("scopes", encode_required::<Table<String>>(&self.scopes)?);
        writer.finish_with(&self.extensions)
    }

    fn duplicate(&self) -> (copy: SecurityScheme) {
        SecurityScheme {
            type_: self.type_.duplicate(),
            description: duplicate_optional(&self.description),
            name: self.name.duplicate(),
            in_: self.in_.duplicate(),
            flow: self.flow.duplicate(),
            authorization_url: self.authorization_url.duplicate(),
            token_url: self.token_url.duplicate(),
            scopes: self.scopes.duplicate(),
            extensions: self.extensions.duplicate(),
        }
    }

    proof fn lemma_round_trip(value: SecuritySchemeModel) {
        let names = Self::names();
        let slots = Self::slots(value);
        Self::lemma_names_distinct();
        lemma_assembled_lookup(names, slots, value.extensions, 0);
        lemma_assembled_lookup(names, slots, value.extensions, 1);
        lemma_assembled_lookup(names, slots, value.extensions, 2);
        lemma_assembled_lookup(names, slots, value.extensions, 3);
        lemma_assembled_lookup(names, slots, value.extensions, 4);
        lemma_assembled_lookup(names, slots, value.extensions, 5);
        lemma_assembled_lookup(names, slots, value.extensions, 6);
        lemma_assembled_lookup(names, slots, value.extensions, 7);
        lemma_assembled_remainder(names, slots, value.extensions);
        lemma_required_round_trip::<SecuritySchemeType>(value.type_);
        lemma_optional_round_trip::<String>(value.description);
        lemma_required_round_trip::<String>(value.name);
        lemma_required_round_trip::<InEnum>(value.in_);
        lemma_required_round_trip::<Flow>(value.flow);
        lemma_required_round_trip::<AuthorizationUrl>(value.authorization_url);
        lemma_required_round_trip::<TokenUrl>(value.token_url);
        lemma_required_round_trip::<Table<String>>(value.scopes);
    }

    proof fn lemma_read_is_valid(json: JsonModel) {
        let members = json->Object_0;
        let names = Self::names();
        let value = Self::decoded(json);
        let slots = Self::slots(value);
        lemma_required_read_is_valid::<SecuritySchemeType>(lookup(members, "type"@));
        lemma_optional_read_is_valid::<String>(lookup(members, "description"@));
        lemma_required_read_is_valid::<String>(lookup(members, "name"@));
        lemma_required_read_is_valid::<InEnum>(lookup(members, "in"@));
        lemma_required_read_is_valid::<Flow>(lookup(members, "flow"@));
        lemma_required_read_is_valid::<AuthorizationUrl>(lookup(members, "authorizationUrl"@));
        lemma_required_read_is_valid::<TokenUrl>(lookup(members, "tokenUrl"@));
        lemma_required_read_is_valid::<Table<String>>(lookup(members, "scopes"@));
        lemma_remainder_unnamed(members, names);
        Self::lemma_pointer_unnamed();
        lemma_assembled_lookup_other(names, slots, value.extensions, POINTER_KEY@);
        lemma_remainder_lookup(members, names, POINTER_KEY@);
    }
}

impl PathItem {
    /// The keys of the named fields, in the order in which they are written.
    pub open spec fn names() -> Seq<Seq<char>> {
        Seq::empty()
            .push("$ref"@)
            .push("get"@)
            .push("put"@)
            .push("post"@)
            .push("delete"@)
            .push("options"@)
            .push("head"@)
            .push("patch"@)
            .push("parameters"@)
    }

    /// What each named field is written as, in the order of the names.
    pub open spec fn slots(value: PathItemModel) -> Seq<Option<JsonModel>> {
        Seq::empty()
            .push(optional_encoded::<String>(value.reference))
            .push(optional_encoded::<Operation>(value.get))
            .push(optional_encoded::<Operation>(value.put))
            .push(optional_encoded::<Operation>(value.post))
            .push(optional_encoded::<Operation>(value.delete))
            .push(optional_encoded::<Operation>(value.options))
            .push(optional_encoded::<Operation>(value.head))
            .push(optional_encoded::<Operation>(value.patch))
            .push(optional_encoded::<Vec<ParameterOrRef>>(value.parameters))
    }

    /// No key is named twice.
    pub proof fn lemma_names_distinct()
        ensures
            Self::names().no_duplicates(),
    {
        reveal_strlit("$ref");
        reveal_strlit("get");
        reveal_strlit("put");
        reveal_strlit("post");
        reveal_strlit("delete");
        reveal_strlit("options");
        reveal_strlit("head");
        reveal_strlit("patch");
        reveal_strlit("parameters");
        assert("$ref"@.len() == 4 && "$ref"@[0] == '$');
        assert("get"@.len() == 3 && "get"@[0] == 'g');
        assert("put"@.len() == 3 && "put"@[0] == 'p');
        assert("post"@.len() == 4 && "post"@[0] == 'p');
        assert("delete"@.len() == 6);
        assert("options"@.len() == 7);
        assert("head"@.len() == 4 && "head"@[0] == 'h');
        assert("patch"@.len() == 5);
        assert("parameters"@.len() == 10);
    }
}

impl Clone for PathItem {
    fn clone(&self) -> (copy: PathItem)
        ensures
            copy.model() == self.model(),
    {
        self.duplicate()
    }
}

impl Codec for PathItem {
    type Model = PathItemModel;

    open spec fn model(&self) -> PathItemModel {
        PathItemModel {
            reference: option_model(self.reference),
            get: option_model(self.get),
            put: option_model(self.put),
            post: option_model(self.post),
            delete: option_model(self.delete),
            options: option_model(self.options),
            head: option_model(self.head),
            patch: option_model(self.patch),
            parameters: option_model(self.parameters),
        }
    }

    open spec fn fits(json: JsonModel) -> bool {
        &&& json is Object
        &&& optional_fits::<String>(lookup(json->Object_0, "$ref"@))
        &&& optional_fits::<Operation>(lookup(json->Object_0, "get"@))
        &&& optional_fits::<Operation>(lookup(json->Object_0, "put"@))
        &&& optional_fits::<Operation>(lookup(json->Object_0, "post"@))
        &&& optional_fits::<Operation>(lookup(json->Object_0, "delete"@))
        &&& optional_fits::<Operation>(lookup(json->Object_0, "options"@))
        &&& optional_fits::<Operation>(lookup(json->Object_0, "head"@))
        &&& optional_fits::<Operation>(lookup(json->Object_0, "patch"@))
        &&& optional_fits::<Vec<ParameterOrRef>>(lookup(json->Object_0, "parameters"@))
    }

    open spec fn decoded(json: JsonModel) -> PathItemModel {
        PathItemModel {
            reference: optional_decoded::<String>(lookup(json->Object_0, "$ref"@)),
            get: optional_decoded::<Operation>(lookup(json->Object_0, "get"@)),
            put: optional_decoded::<Operation>(lookup(json->Object_0, "put"@)),
            post: optional_decoded::<Operation>(lookup(json->Object_0, "post"@)),
            delete: optional_decoded::<Operation>(lookup(json->Object_0, "delete"@)),
            options: optional_decoded::<Operation>(lookup(json->Object_0, "options"@)),
            head: optional_decoded::<Operation>(lookup(json->Object_0, "head"@)),
            patch: optional_decoded::<Operation>(lookup(json->Object_0, "patch"@)),
            parameters: optional_decoded::<Vec<ParameterOrRef>>(lookup(json->Object_0, "parameters"@)),
        }
    }

    open spec fn encodable(value: PathItemModel) -> bool {
        &&& optional_encodable::<String>(value.reference)
        &&& optional_encodable::<Operation>(value.get)
        &&& optional_encodable::<Operation>(value.put)
        &&& optional_encodable::<Operation>(value.post)
        &&& optional_encodable::<Operation>(value.delete)
        &&& optional_encodable::<Operation>(value.options)
        &&& optional_encodable::<Operation>(value.head)
        &&& optional_encodable::<Operation>(value.patch)
        &&& optional_encodable::<Vec<ParameterOrRef>>(value.parameters)
    }

    open spec fn valid(value: PathItemModel) -> bool {
        &&& optional_valid::<String>(value.reference)
        &&& optional_valid::<Operation>(value.get)
        &&& optional_valid::<Operation>(value.put)
        &&& optional_valid::<Operation>(value.post)
        &&& optional_valid::<Operation>(value.delete)
        &&& optional_valid::<Operation>(value.options)
        &&& optional_valid::<Operation>(value.head)
        &&& optional_valid::<Operation>(value.patch)
        &&& optional_valid::<Vec<ParameterOrRef>>(value.parameters)
    }

    open spec fn encoded(value: PathItemModel) -> JsonModel {
        JsonModel::Object(named_members(Self::names(), Self::slots(value)))
    }

    fn decode(json: &Json) -> (res: Result<PathItem, CodecError>) {
        let members = match json {
            Json::Object(members) => members,
            _ => {
                return Err(CodecError::ShapeMismatch);
            },
        };
        let mut reader = ObjectReader::new(members);
        let reference = decode_optional::<String>(reader.field("$ref"))?;
        let get = decode_optional::<Operation>(reader.field("get"))?;
        let put = decode_optional::<Operation>(reader.field("put"))?;
        let post = decode_optional::<Operation>(reader.field("post"))?;
        let delete = decode_optional::<Operation>(reader.field("delete"))?;
        let options = decode_optional::<Operation>(reader.field("options"))?;
        let head = decode_optional::<Operation>(reader.field("head"))?;
        let patch = decode_optional::<Operation>(reader.field("patch"))?;
        let parameters = decode_optional::<Vec<ParameterOrRef>>(reader.field("parameters"))?;
        Ok(PathItem { reference, get, put, post, delete, options, head, patch, parameters })
    }

    fn encode(&self) -> (res: Result<Json, CodecError>) {
        let writer = ObjectWriter::new();
        let writer = writer.put("$ref", encode_optional::<String>(&self.reference)?);
        let writer = writer.put("get", encode_optional::<Operation>(&self.get)?);
        let writer = writer.put("put", encode_optional::<Operation>(&self.put)?);
        let writer = writer.put("post", encode_optional::<Operation>(&self.post)?);
        let writer = writer.put("delete", encode_optional::<Operation>(&self.delete)?);
        let writer = writer.put("options", encode_optional::<Operation>(&self.options)?);
        let writer = writer.put("head", encode_optional::<Operation>(&self.head)?);
        let writer = writer.put("patch", encode_optional::<Operation>(&self.patch)?);
        let writer = writer.put("parameters", encode_optional::<Vec<ParameterOrRef>>(&self.parameters)?);
        Ok(writer.finish())
    }

    fn duplicate(&self) -> (copy: PathItem) {
        PathItem {
            reference: duplicate_optional(&self.reference),
            get: duplicate_optional(&self.get),
            put: duplicate_optional(&self.put),
            post: duplicate_optional(&self.post),
            delete: duplicate_optional(&self.delete),
            options: duplicate_optional(&self.options),
            head: duplicate_optional(&self.head),
            patch: duplicate_optional(&self.patch),
            parameters: duplicate_optional(&self.parameters),
        }
    }

    proof fn lemma_round_trip(value: PathItemModel) {
        let names = Self::names();
        let slots = Self::slots(value);
        Self::lemma_names_distinct();
        lemma_named_lookup(names, slots, 0);
        lemma_named_lookup(names, slots, 1);
        lemma_named_lookup(names, slots, 2);
        lemma_named_lookup(names, slots, 3);
        lemma_named_lookup(names, slots, 4);
        lemma_named_lookup(names, slots, 5);
        lemma_named_lookup(names, slots, 6);
        lemma_named_lookup(names, slots, 7);
        lemma_named_lookup(names, slots, 8);
        lemma_optional_round_trip::<String>(value.reference);
        lemma_optional_round_trip::<Operation>(value.get);
        lemma_optional_round_trip::<Operation>(value.put);
        lemma_optional_round_trip::<Operation>(value.post);
        lemma_optional_round_trip::<Operation>(value.delete);
        lemma_optional_round_trip::<Operation>(value.options);
        lemma_optional_round_trip::<Operation>(value.head);
        lemma_optional_round_trip::<Operation>(value.patch);
        lemma_optional_round_trip::<Vec<ParameterOrRef>>(value.parameters);
    }

    proof fn lemma_read_is_valid(json: JsonModel) {
        let members = json->Object_0;
        let names = Self::names();
        let value = Self::decoded(json);
        let slots = Self::slots(value);
        lemma_optional_read_is_valid::<String>(lookup(members, "$ref"@));
        lemma_optional_read_is_valid::<Operation>(lookup(members, "get"@));
        lemma_optional_read_is_valid::<Operation>(lookup(members, "put"@));
        lemma_optional_read_is_valid::<Operation>(lookup(members, "post"@));
        lemma_optional_read_is_valid::<Operation>(lookup(members, "delete"@));
        lemma_optional_read_is_valid::<Operation>(lookup(members, "options"@));
        lemma_optional_read_is_valid::<Operation>(lookup(members, "head"@));
        lemma_optional_read_is_valid::<Operation>(lookup(members, "patch"@));
        lemma_optional_read_is_valid::<Vec<ParameterOrRef>>(lookup(members, "parameters"@));
        Self::lemma_names_distinct();
        lemma_named_lookup(names, slots, 0);
        reveal(optional_decoded);
        reveal(optional_encoded);
    }
}

impl Operation {
    /// The keys of the named fields, in the order in which they are written.
    pub open spec fn names() -> Seq<Seq<char>> {
        Seq::empty()
            .push("tags"@)
            .push("summary"@)
            .push("description"@)
            .push("externalDocs"@)
            .push("operationId"@)
            .push("consumes"@)
            .push("produces"@)
            .push("parameters"@)
            .push("responses"@)
            .push("schemas"@)
            .push("deprecated"@)
            .push("security"@)
    }

    /// What each named field is written as, in the order of the names.
    pub open spec fn slots(value: OperationModel) -> Seq<Option<JsonModel>> {
        Seq::empty()
            .push(optional_encoded::<Vec<String>>(value.tags))
            .push(optional_encoded::<String>(value.summary))
            .push(optional_encoded::<String>(value.description))
            .push(optional_encoded::<ExternalDoc>(value.external_docs))
            .push(optional_encoded::<String>(value.operation_id))
            .push(optional_encoded::<Vec<String>>(value.consumes))
            .push(optional_encoded::<Vec<String>>(value.produces))
            .push(optional_encoded::<Vec<ParameterOrRef>>(value.parameters))
            .push(required_encoded::<Responses>(value.responses))
            .push(optional_encoded::<TransferProtocol>(value.schemas))
            .push(optional_encoded::<String>(value.deprecated))
            .push(optional_encoded::<Vec<SecurityRequirementObject>>(value.security))
    }

    /// No key is named twice.
    pub proof fn lemma_names_distinct()
        ensures
            Self::names().no_duplicates(),
    {
        reveal_strlit("tags");
        reveal_strlit("summary");
        reveal_strlit("description");
        reveal_strlit("externalDocs");
        reveal_strlit("operationId");
        reveal_strlit("consumes");
        reveal_strlit("produces");
        reveal_strlit("parameters");
        reveal_strlit("responses");
        reveal_strlit("schemas");
        reveal_strlit("deprecated");
        reveal_strlit("security");
        assert("tags"@.len() == 4);
        assert("summary"@.len() == 7 && "summary"@[1] == 'u');
        assert("description"@.len() == 11 && "description"@[0] == 'd');
        assert("externalDocs"@.len() == 12);
        assert("operationId"@.len() == 11 && "operationId"@[0] == 'o');
        assert("consumes"@.len() == 8 && "consumes"@[0] == 'c');
        assert("produces"@.len() == 8 && "produces"@[0] == 'p');
        assert("parameters"@.len() == 10 && "parameters"@[0] == 'p');
        assert("responses"@.len() == 9);
        assert("schemas"@.len() == 7 && "schemas"@[1] == 'c');
        assert("deprecated"@.len() == 10 && "deprecated"@[0] == 'd');
        assert("security"@.len() == 8 && "security"@[0] == 's');
    }

    /// The pointer key is none of the names.
    pub proof fn lemma_pointer_unnamed()
        ensures
            !Self::names().contains(POINTER_KEY@),
    {
        reveal_strlit("$ref");
        reveal_strlit("tags");
        reveal_strlit("summary");
        reveal_strlit("description");
        reveal_strlit("externalDocs");
        reveal_strlit("operationId");
        reveal_strlit("consumes");
        reveal_strlit("produces");
        reveal_strlit("parameters");
        reveal_strlit("responses");
        reveal_strlit("schemas");
        reveal_strlit("deprecated");
        reveal_strlit("security");
        assert("$ref"@.len() == 4 && "$ref"@[0] == '$');
        assert("tags"@.len() == 4 && "tags"@[0] == 't');
        assert("summary"@.len() == 7);
        assert("description"@.len() == 11);
        assert("externalDocs"@.len() == 12);
        assert("operationId"@.len() == 11);
        assert("consumes"@.len() == 8);
        assert("produces"@.len() == 8);
        assert("parameters"@.len() == 10);
        assert("responses"@.len() == 9);
        assert("schemas"@.len() == 7);
        assert("deprecated"@.len() == 10);
        assert("security"@.len() == 8);
    }
}

impl Clone for Operation {
    fn clone(&self) -> (copy: Operation)
        ensures
            copy.model() == self.model(),
    {
        self.duplicate()
    }
}

impl Codec for Operation {
    type Model = OperationModel;

    open spec fn model(&self) -> OperationModel {
        OperationModel {
            tags: option_model(self.tags),
            summary: option_model(self.summary),
            description: option_model(self.description),
            external_docs: option_model(self.external_docs),
            operation_id: option_model(self.operation_id),
            consumes: option_model(self.consumes),
            produces: option_model(self.produces),
            parameters: option_model(self.parameters),
            responses: self.responses.model(),
            schemas: option_model(self.schemas),
            deprecated: option_model(self.deprecated),
            security: option_model(self.security),
            extensions: self.extensions.model(),
        }
    }

    open spec fn fits(json: JsonModel) -> bool {
        &&& json is Object
        &&& optional_fits::<Vec<String>>(lookup(json->Object_0, "tags"@))
        &&& optional_fits::<String>(lookup(json->Object_0, "summary"@))
        &&& optional_fits::<String>(lookup(json->Object_0, "description"@))
        &&& optional_fits::<ExternalDoc>(lookup(json->Object_0, "externalDocs"@))
        &&& optional_fits::<String>(lookup(json->Object_0, "operationId"@))
        &&& optional_fits::<Vec<String>>(lookup(json->Object_0, "consumes"@))
        &&& optional_fits::<Vec<String>>(lookup(json->Object_0, "produces"@))
        &&& optional_fits::<Vec<ParameterOrRef>>(lookup(json->Object_0, "parameters"@))
        &&& required_fits::<Responses>(lookup(json->Object_0, "responses"@))
        &&& optional_fits::<TransferProtocol>(lookup(json->Object_0, "schemas"@))
        &&& optional_fits::<String>(lookup(json->Object_0, "deprecated"@))
        &&& optional_fits::<Vec<SecurityRequirementObject>>(lookup(json->Object_0, "security"@))
    }

    open spec fn decoded(json: JsonModel) -> OperationModel {
        OperationModel {
            tags: optional_decoded::<Vec<String>>(lookup(json->Object_0, "tags"@)),
            summary: optional_decoded::<String>(lookup(json->Object_0, "summary"@)),
            description: optional_decoded::<String>(lookup(json->Object_0, "description"@)),
            external_docs: optional_decoded::<ExternalDoc>(lookup(json->Object_0, "externalDocs"@)),
            operation_id: optional_decoded::<String>(lookup(json->Object_0, "operationId"@)),
            consumes: optional_decoded::<Vec<String>>(lookup(json->Object_0, "consumes"@)),
            produces: optional_decoded::<Vec<String>>(lookup(json->Object_0, "produces"@)),
            parameters: optional_decoded::<Vec<ParameterOrRef>>(lookup(json->Object_0, "parameters"@)),
            responses: required_decoded::<Responses>(lookup(json->Object_0, "responses"@)),
            schemas: optional_decoded::<TransferProtocol>(lookup(json->Object_0, "schemas"@)),
            deprecated: optional_decoded::<String>(lookup(json->Object_0, "deprecated"@)),
            security: optional_decoded::<Vec<SecurityRequirementObject>>(lookup(json->Object_0, "security"@)),
            extensions: remainder(json->Object_0, Self::names()),
        }
    }

    open spec fn encodable(value: OperationModel) -> bool {
        &&& optional_encodable::<Vec<String>>(value.tags)
        &&& optional_encodable::<String>(value.summary)
        &&& optional_encodable::<String>(value.description)
        &&& optional_encodable::<ExternalDoc>(value.external_docs)
        &&& optional_encodable::<String>(value.operation_id)
        &&& optional_encodable::<Vec<String>>(value.consumes)
        &&& optional_encodable::<Vec<String>>(value.produces)
        &&& optional_encodable::<Vec<ParameterOrRef>>(value.parameters)
        &&& required_encodable::<Responses>(value.responses)
        &&& optional_encodable::<TransferProtocol>(value.schemas)
        &&& optional_encodable::<String>(value.deprecated)
        &&& optional_encodable::<Vec<SecurityRequirementObject>>(value.security)
        &&& !collides(Self::names(), value.extensions)
    }

    open spec fn valid(value: OperationModel) -> bool {
        &&& optional_valid::<Vec<String>>(value.tags)
        &&& optional_valid::<String>(value.summary)
        &&& optional_valid::<String>(value.description)
        &&& optional_valid::<ExternalDoc>(value.external_docs)
        &&& optional_valid::<String>(value.operation_id)
        &&& optional_valid::<Vec<String>>(value.consumes)
        &&& optional_valid::<Vec<String>>(value.produces)
        &&& optional_valid::<Vec<ParameterOrRef>>(value.parameters)
        &&& required_valid::<Responses>(value.responses)
        &&& optional_valid::<TransferProtocol>(value.schemas)
        &&& optional_valid::<String>(value.deprecated)
        &&& optional_valid::<Vec<SecurityRequirementObject>>(value.security)
        &&& !collides(Self::names(), value.extensions)
    }

    open spec fn encoded(value: OperationModel) -> JsonModel {
        JsonModel::Object(assembled(Self::names(), Self::slots(value), value.extensions))
    }

    fn decode(json: &Json) -> (res: Result<Operation, CodecError>) {
        let members = match json {
            Json::Object(members) => members,
            _ => {
                return Err(CodecError::ShapeMismatch);
            },
        };
        let mut reader = ObjectReader::new(members);
        let tags = decode_optional::<Vec<String>>(reader.field("tags"))?;
        let summary = decode_optional::<String>(reader.field("summary"))?;
        let description = decode_optional::<String>(reader.field("description"))?;
        let external_docs = decode_optional::<ExternalDoc>(reader.field("externalDocs"))?;
        let operation_id = decode_optional::<String>(reader.field("operationId"))?;
        let consumes = decode_optional::<Vec<String>>(reader.field("consumes"))?;
        let produces = decode_optional::<Vec<String>>(reader.field("produces"))?;
        let parameters = decode_optional::<Vec<ParameterOrRef>>(reader.field("parameters"))?;
        let responses = decode_required::<Responses>(reader.field("responses"))?;
        let schemas = decode_optional::<TransferProtocol>(reader.field("schemas"))?;
        let deprecated = decode_optional::<String>(reader.field("deprecated"))?;
        let security = decode_optional::<Vec<SecurityRequirementObject>>(reader.field("security"))?;
        let extensions = reader.rest();
        Ok(Operation { tags, summary, description, external_docs, operation_id, consumes, produces, parameters, responses, schemas, deprecated, security, extensions })
    }

    fn encode(&self) -> (res: Result<Json, CodecError>) {
        let writer = ObjectWriter::new();
        let writer = writer.put("tags", encode_optional::<Vec<String>>(&self.tags)?);
        let writer = writer.put("summary", encode_optional::<String>(&self.summary)?);
        let writer = writer.put("description", encode_optional::<String>(&self.description)?);
        let writer = writer.put("externalDocs", encode_optional::<ExternalDoc>(&self.external_docs)?);
        let writer = writer.put("operationId", encode_optional::<String>(&self.operation_id)?);
        let writer = writer.put("consumes", encode_optional::<Vec<String>>(&self.consumes)?);
        let writer = writer.put("produces", encode_optional::<Vec<String>>(&self.produces)?);
        let writer = writer.put("parameters", encode_optional::<Vec<ParameterOrRef>>(&self.parameters)?);
        let writer = writer.put("responses", encode_required::<Responses>(&self.responses)?);
        let writer = writer.put("schemas", encode_optional::<TransferProtocol>(&self.schemas)?);
        let writer = writer.put("deprecated", encode_optional::<String>(&self.deprecated)?);
        let writer = writer.put("security", encode_optional::<Vec<SecurityRequirementObject>>(&self.security)?);
        writer.finish_with(&self.extensions)
    }

    fn duplicate(&self) -> (copy: Operation) {
        Operation {
            tags: duplicate_optional(&self.tags),
            summary: duplicate_optional(&self.summary),
            description: duplicate_optional(&self.description),
            external_docs: duplicate_optional(&self.external_docs),
            operation_id: duplicate_optional(&self.operation_id),
            consumes: duplicate_optional(&self.consumes),
            produces: duplicate_optional(&self.produces),
            parameters: duplicate_optional(&self.parameters),
            responses: self.responses.duplicate(),
            schemas: duplicate_optional(&self.schemas),
            deprecated: duplicate_optional(&self.deprecated),
            security: duplicate_optional(&self.security),
            extensions: self.extensions.duplicate(),
        }
    }

    proof fn lemma_round_trip(value: OperationModel) {
        let names = Self::names();
        let slots = Self::slots(value);
        Self::lemma_names_distinct();
        lemma_assembled_lookup(names, slots, value.extensions, 0);
        lemma_assembled_lookup(names, slots, value.extensions, 1);
        lemma_assembled_lookup(names, slots, value.extensions, 2);
        lemma_assembled_lookup(names, slots, value.extensions, 3);
        lemma_assembled_lookup(names, slots, value.extensions, 4);
        lemma_assembled_lookup(names, slots, value.extensions, 5);
        lemma_assembled_lookup(names, slots, value.extensions, 6);
        lemma_assembled_lookup(names, slots, value.extensions, 7);
        lemma_assembled_lookup(names, slots, value.extensions, 8);
        lemma_assembled_lookup(names, slots, value.extensions, 9);
        lemma_assembled_lookup(names, slots, value.extensions, 10);
        lemma_assembled_lookup(names, slots, value.extensions, 11);
        lemma_assembled_remainder(names, slots, value.extensions);
        lemma_optional_round_trip::<Vec<String>>(value.tags);
        lemma_optional_round_trip::<String>(value.summary);
        lemma_optional_round_trip::<String>(value.description);
        lemma_optional_round_trip::<ExternalDoc>(value.external_docs);
        lemma_optional_round_trip::<String>(value.operation_id);
        lemma_optional_round_trip::<Vec<String>>(value.consumes);
        lemma_optional_round_trip::<Vec<String>>(value.produces);
        lemma_optional_round_trip::<Vec<ParameterOrRef>>(value.parameters);
        lemma_required_round_trip::<Responses>(value.responses);
        lemma_optional_round_trip::<TransferProtocol>(value.schemas);
        lemma_optional_round_trip::<String>(value.deprecated);
        lemma_optional_round_trip::<Vec<SecurityRequirementObject>>(value.security);
    }

    proof fn lemma_read_is_valid(json: JsonModel) {
        let members = json->Object_0;
        let names = Self::names();
        let value = Self::decoded(json);
        let slots = Self::slots(value);
        lemma_optional_read_is_valid::<Vec<String>>(lookup(members, "tags"@));
        lemma_optional_read_is_valid::<String>(lookup(members, "summary"@));
        lemma_optional_read_is_valid::<String>(lookup(members, "description"@));
        lemma_optional_read_is_valid::<ExternalDoc>(lookup(members, "externalDocs"@));
        lemma_optional_read_is_valid::<String>(lookup(members, "operationId"@));
        lemma_optional_read_is_valid::<Vec<String>>(lookup(members, "consumes"@));
        lemma_optional_read_is_valid::<Vec<String>>(lookup(members, "produces"@));
        lemma_optional_read_is_valid::<Vec<ParameterOrRef>>(lookup(members, "parameters"@));
        lemma_required_read_is_valid::<Responses>(lookup(members, "responses"@));
        lemma_optional_read_is_valid::<TransferProtocol>(lookup(members, "schemas"@));
        lemma_optional_read_is_valid::<String>(lookup(members, "deprecated"@));
        lemma_optional_read_is_valid::<Vec<SecurityRequirementObject>>(lookup(members, "security"@));
        lemma_remainder_unnamed(members, names);
        Self::lemma_pointer_unnamed();
        lemma_assembled_lookup_other(names, slots, value.extensions, POINTER_KEY@);
        lemma_remainder_lookup(members, names, POINTER_KEY@);
    }
}

impl Parameter {
    /// The keys of the named fields, in the order in which they are written.
    pub open spec fn names() -> Seq<Seq<char>> {
        Seq::empty()
            .push("name"@)
            .push("in"@)
            .push("description"@)
            .push("required"@)
            .push("schema"@)
            .push("type"@)
            .push("format"@)
            .push("allowEmptyValue"@)
            .push("items"@)
            .push("collectionFormat"@)
            .push("default"@)
            .push("maximum"@)
            .push("exclusiveMaximum"@)
            .push("minimum"@)
            .push("exclusiveMinimum"@)
            .push("maxLength"@)
            .push("minLength"@)
            .push("pattern"@)
            .push("maxItems"@)
            .push("minItems"@)
            .push("uniqueItems"@)
            .push("enum"@)
            .push("multipleOf"@)
    }

    /// What each named field is written as, in the order of the names.
    pub open spec fn slots(value: ParameterModel) -> Seq<Option<JsonModel>> {
        Seq::empty()
            .push(required_encoded::<String>(value.name))
            .push(required_encoded::<ParamInEnum>(value.in_))
            .push(optional_encoded::<String>(value.description))
            .push(optional_encoded::<bool>(value.required))
            .push(optional_encoded::<Schema>(value.schema))
            .push(optional_encoded::<ParameterType>(value.type_))
            .push(optional_encoded::<String>(value.format))
            .push(optional_encoded::<bool>(value.allow_empty_value))
            .push(optional_encoded::<Items>(value.items))
            .push(optional_encoded::<String>(value.collection_format))
            .push(optional_encoded::<Json>(value.default))
            .push(optional_encoded::<Number>(value.maximum))
            .push(optional_encoded::<bool>(value.exclusive_maximum))
            .push(optional_encoded::<Number>(value.minimum))
            .push(optional_encoded::<bool>(value.exclusive_minimum))
            .push(optional_encoded::<Number>(value.max_length))
            .push(optional_encoded::<Number>(value.min_length))
            .push(optional_encoded::<String>(value.pattern))
            .push(optional_encoded::<Number>(value.max_items))
            .push(optional_encoded::<Number>(value.min_items))
            .push(optional_encoded::<bool>(value.unique_items))
            .push(optional_encoded::<Vec<Json>>(value.enum_))
            .push(optional_encoded::<Number>(value.multiple_of))
    }

    /// No key is named twice.
    pub proof fn lemma_names_distinct()
        ensures
            Self::names().no_duplicates(),
    {
        reveal_strlit("name");
        reveal_strlit("in");
        reveal_strlit("description");
        reveal_strlit("required");
        reveal_strlit("schema");
        reveal_strlit("type");
        reveal_strlit("format");
        reveal_strlit("allowEmptyValue");
        reveal_strlit("items");
        reveal_strlit("collectionFormat");
        reveal_strlit("default");
        reveal_strlit("maximum");
        reveal_strlit("exclusiveMaximum");
        reveal_strlit("minimum");
        reveal_strlit("exclusiveMinimum");
        reveal_strlit("maxLength");
        reveal_strlit("minLength");
        reveal_strlit("pattern");
        reveal_strlit("maxItems");
        reveal_strlit("minItems");
        reveal_strlit("uniqueItems");
        reveal_strlit("enum");
        reveal_strlit("multipleOf");
        assert("name"@.len() == 4 && "name"@[0] == 'n');
        assert("in"@.len() == 2);
        assert("description"@.len() == 11 && "description"@[0] == 'd');
        assert("required"@.len() == 8 && "required"@[0] == 'r');
        assert("schema"@.len() == 6 && "schema"@[0] == 's');
        assert("type"@.len() == 4 && "type"@[0] == 't');
        assert("format"@.len() == 6 && "format"@[0] == 'f');
        assert("allowEmptyValue"@.len() == 15);
        assert("items"@.len() == 5);
        assert("collectionFormat"@.len() == 16 && "collectionFormat"@[0] == 'c');
        assert("default"@.len() == 7 && "default"@[0] == 'd');
        assert("maximum"@.len() == 7 && "maximum"@[0] == 'm' && "maximum"@[1] == 'a');
        assert("exclusiveMaximum"@.len() == 16 && "exclusiveMaximum"@[0] == 'e' && "exclusiveMaximum"@[10] == 'a');
        assert("minimum"@.len() == 7 && "minimum"@[0] == 'm' && "minimum"@[1] == 'i');
        assert("exclusiveMinimum"@.len() == 16 && "exclusiveMinimum"@[0] == 'e' && "exclusiveMinimum"@[10] == 'i');
        assert("maxLength"@.len() == 9 && "maxLength"@[1] == 'a');
        assert("minLength"@.len() == 9 && "minLength"@[1] == 'i');
        assert("pattern"@.len() == 7 && "pattern"@[0] == 'p');
        assert("maxItems"@.len() == 8 && "maxItems"@[0] == 'm' && "maxItems"@[1] == 'a');
        assert("minItems"@.len() == 8 && "minItems"@[0] == 'm' && "minItems"@[1] == 'i');
        assert("uniqueItems"@.len() == 11 && "uniqueItems"@[0] == 'u');
        assert("enum"@.len() == 4 && "enum"@[0] == 'e');
        assert("multipleOf"@.len() == 10);
    }

    /// The pointer key is none of the names.
    pub proof fn lemma_pointer_unnamed()
        ensures
            !Self::names().contains(POINTER_KEY@),
    {
        reveal_strlit("$ref");
        reveal_strlit("name");
        reveal_strlit("in");
        reveal_strlit("description");
        reveal_strlit("required");
        reveal_strlit("schema");
        reveal_strlit("type");
        reveal_strlit("format");
        reveal_strlit("allowEmptyValue");
        reveal_strlit("items");
        reveal_strlit("collectionFormat");
        reveal_strlit("default");
        reveal_strlit("maximum");
        reveal_strlit("exclusiveMaximum");
        reveal_strlit("minimum");
        reveal_strlit("exclusiveMinimum");
        reveal_strlit("maxLength");
        reveal_strlit("minLength");
        reveal_strlit("pattern");
        reveal_strlit("maxItems");
        reveal_strlit("minItems");
        reveal_strlit("uniqueItems");
        reveal_strlit("enum");
        reveal_strlit("multipleOf");
        assert("$ref"@.len() == 4 && "$ref"@[0] == '$');
        assert("name"@.len() == 4 && "name"@[0] == 'n');
        assert("in"@.len() == 2);
        assert("description"@.len() == 11);
        assert("required"@.len() == 8);
        assert("schema"@.len() == 6);
        assert("type"@.len() == 4 && "type"@[0] == 't');
        assert("format"@.len() == 6);
        assert("allowEmptyValue"@.len() == 15);
        assert("items"@.len() == 5);
        assert("collectionFormat"@.len() == 16);
        assert("default"@.len() == 7);
        assert("maximum"@.len() == 7);
        assert("exclusiveMaximum"@.len() == 16);
        assert("minimum"@.len() == 7);
        assert("exclusiveMinimum"@.len() == 16);
        assert("maxLength"@.len() == 9);
        assert("minLength"@.len() == 9);
        assert("pattern"@.len() == 7);
        assert("maxItems"@.len() == 8);
        assert("minItems"@.len() == 8);
        assert("uniqueItems"@.len() == 11);
        assert("enum"@.len() == 4 && "enum"@[0] == 'e');
        assert("multipleOf"@.len() == 10);
    }
}

impl Clone for Parameter {
    fn clone(&self) -> (copy: Parameter)
        ensures
            copy.model() == self.model(),
    {
        self.duplicate()
    }
}

impl Codec for Parameter {
    type Model = ParameterModel;

    open spec fn model(&self) -> ParameterModel {
        ParameterModel {
            name: self.name.model(),
            in_: self.in_.model(),
            description: option_model(self.description),
            required: option_model(self.required),
            schema: option_model(self.schema),
            type_: option_model(self.type_),
            format: option_model(self.format),
            allow_empty_value: option_model(self.allow_empty_value),
            items: option_model(self.items),
            collection_format: option_model(self.collection_format),
            default: option_model(self.default),
            maximum: option_model(self.maximum),
            exclusive_maximum: option_model(self.exclusive_maximum),
            minimum: option_model(self.minimum),
            exclusive_minimum: option_model(self.exclusive_minimum),
            max_length: option_model(self.max_length),
            min_length: option_model(self.min_length),
            pattern: option_model(self.pattern),
            max_items: option_model(self.max_items),
            min_items: option_model(self.min_items),
            unique_items: option_model(self.unique_items),
            enum_: option_model(self.enum_),
            multiple_of: option_model(self.multiple_of),
            extensions: self.extensions.model(),
        }
    }

    open spec fn fits(json: JsonModel) -> bool {
        &&& json is Object
        &&& required_fits::<String>(lookup(json->Object_0, "name"@))
        &&& required_fits::<ParamInEnum>(lookup(json->Object_0, "in"@))
        &&& optional_fits::<String>(lookup(json->Object_0, "description"@))
        &&& optional_fits::<bool>(lookup(json->Object_0, "required"@))
        &&& optional_fits::<Schema>(lookup(json->Object_0, "schema"@))
        &&& optional_fits::<ParameterType>(lookup(json->Object_0, "type"@))
        &&& optional_fits::<String>(lookup(json->Object_0, "format"@))
        &&& optional_fits::<bool>(lookup(json->Object_0, "allowEmptyValue"@))
        &&& optional_fits::<Items>(lookup(json->Object_0, "items"@))
        &&& optional_fits::<String>(lookup(json->Object_0, "collectionFormat"@))
        &&& optional_fits::<Json>(lookup(json->Object_0, "default"@))
        &&& optional_fits::<Number>(lookup(json->Object_0, "maximum"@))
        &&& optional_fits::<bool>(lookup(json->Object_0, "exclusiveMaximum"@))
        &&& optional_fits::<Number>(lookup(json->Object_0, "minimum"@))
        &&& optional_fits::<bool>(lookup(json->Object_0, "exclusiveMinimum"@))
        &&& optional_fits::<Number>(lookup(json->Object_0, "maxLength"@))
        &&& optional_fits::<Number>(lookup(json->Object_0, "minLength"@))
        &&& optional_fits::<String>(lookup(json->Object_0, "pattern"@))
        &&& optional_fits::<Number>(lookup(json->Object_0, "maxItems"@))
        &&& optional_fits::<Number>(lookup(json->Object_0, "minItems"@))
        &&& optional_fits::<bool>(lookup(json->Object_0, "uniqueItems"@))
        &&& optional_fits::<Vec<Json>>(lookup(json->Object_0, "enum"@))
        &&& optional_fits::<Number>(lookup(json->Object_0, "multipleOf"@))
    }

    open spec fn decoded(json: JsonModel) -> ParameterModel {
        ParameterModel {
            name: required_decoded::<String>(lookup(json->Object_0, "name"@)),
            in_: required_decoded::<ParamInEnum>(lookup(json->Object_0, "in"@)),
            description: optional_decoded::<String>(lookup(json->Object_0, "description"@)),
            required: optional_decoded::<bool>(lookup(json->Object_0, "required"@)),
            schema: optional_decoded::<Schema>(lookup(json->Object_0, "schema"@)),
            type_: optional_decoded::<ParameterType>(lookup(json->Object_0, "type"@)),
            format: optional_decoded::<String>(lookup(json->Object_0, "format"@)),
            allow_empty_value: optional_decoded::<bool>(lookup(json->Object_0, "allowEmptyValue"@)),
            items: optional_decoded::<Items>(lookup(json->Object_0, "items"@)),
            collection_format: optional_decoded::<String>(lookup(json->Object_0, "collectionFormat"@)),
            default: optional_decoded::<Json>(lookup(json->Object_0, "default"@)),
            maximum: optional_decoded::<Number>(lookup(json->Object_0, "maximum"@)),
            exclusive_maximum: optional_decoded::<bool>(lookup(json->Object_0, "exclusiveMaximum"@)),
            minimum: optional_decoded::<Number>(lookup(json->Object_0, "minimum"@)),
            exclusive_minimum: optional_decoded::<bool>(lookup(json->Object_0, "exclusiveMinimum"@)),
            max_length: optional_decoded::<Number>(lookup(json->Object_0, "maxLength"@)),
            min_length: optional_decoded::<Number>(lookup(json->Object_0, "minLength"@)),
            pattern: optional_decoded::<String>(lookup(json->Object_0, "pattern"@)),
            max_items: optional_decoded::<Number>(lookup(json->Object_0, "maxItems"@)),
            min_items: optional_decoded::<Number>(lookup(json->Object_0, "minItems"@)),
            unique_items: optional_decoded::<bool>(lookup(json->Object_0, "uniqueItems"@)),
            enum_: optional_decoded::<Vec<Json>>(lookup(json->Object_0, "enum"@)),
            multiple_of: optional_decoded::<Number>(lookup(json->Object_0, "multipleOf"@)),
            extensions: remainder(json->Object_0, Self::names()),
        }
    }

    open spec fn encodable(value: ParameterModel) -> bool {
        &&& required_encodable::<String>(value.name)
        &&& required_encodable::<ParamInEnum>(value.in_)
        &&& optional_encodable::<String>(value.description)
        &&& optional_encodable::<bool>(value.required)
        &&& optional_encodable::<Schema>(value.schema)
        &&& optional_encodable::<ParameterType>(value.type_)
        &&& optional_encodable::<String>(value.format)
        &&& optional_encodable::<bool>(value.allow_empty_value)
        &&& optional_encodable::<Items>(value.items)
        &&& optional_encodable::<String>(value.collection_format)
        &&& optional_encodable::<Json>(value.default)
        &&& optional_encodable::<Number>(value.maximum)
        &&& optional_encodable::<bool>(value.exclusive_maximum)
        &&& optional_encodable::<Number>(value.minimum)
        &&& optional_encodable::<bool>(value.exclusive_minimum)
        &&& optional_encodable::<Number>(value.max_length)
        &&& optional_encodable::<Number>(value.min_length)
        &&& optional_encodable::<String>(value.pattern)
        &&& optional_encodable::<Number>(value.max_items)
        &&& optional_encodable::<Number>(value.min_items)
        &&& optional_encodable::<bool>(value.unique_items)
        &&& optional_encodable::<Vec<Json>>(value.enum_)
        &&& optional_encodable::<Number>(value.multiple_of)
        &&& !collides(Self::names(), value.extensions)
    }

    open spec fn valid(value: ParameterModel) -> bool {
        &&& required_valid::<String>(value.name)
        &&& required_valid::<ParamInEnum>(value.in_)
        &&& optional_valid::<String>(value.description)
        &&& optional_valid::<bool>(value.required)
        &&& optional_valid::<Schema>(value.schema)
        &&& optional_valid::<ParameterType>(value.type_)
        &&& optional_valid::<String>(value.format)
        &&& optional_valid::<bool>(value.allow_empty_value)
        &&& optional_valid::<Items>(value.items)
        &&& optional_valid::<String>(value.collection_format)
        &&& optional_valid::<Json>(value.default)
        &&& optional_valid::<Number>(value.maximum)
        &&& optional_valid::<bool>(value.exclusive_maximum)
        &&& optional_valid::<Number>(value.minimum)
        &&& optional_valid::<bool>(value.exclusive_minimum)
        &&& optional_valid::<Number>(value.max_length)
        &&& optional_valid::<Number>(value.min_length)
        &&& optional_valid::<String>(value.pattern)
        &&& optional_valid::<Number>(value.max_items)
        &&& optional_valid::<Number>(value.min_items)
        &&& optional_valid::<bool>(value.unique_items)
        &&& optional_valid::<Vec<Json>>(value.enum_)
        &&& optional_valid::<Number>(value.multiple_of)
        &&& !collides(Self::names(), value.extensions)
    }

    open spec fn encoded(value: ParameterModel) -> JsonModel {
        JsonModel::Object(assembled(Self::names(), Self::slots(value), value.extensions))
    }

    fn decode(json: &Json) -> (res: Result<Parameter, CodecError>) {
        let members = match json {
            Json::Object(members) => members,
            _ => {
                return Err(CodecError::ShapeMismatch);
            },
        };
        let mut reader = ObjectReader::new(members);
        let name = decode_required::<String>(reader.field("name"))?;
        let in_ = decode_required::<ParamInEnum>(reader.field("in"))?;
        let description = decode_optional::<String>(reader.field("description"))?;
        let required = decode_optional::<bool>(reader.field("required"))?;
        let schema = decode_optional::<Schema>(reader.field("schema"))?;
        let type_ = decode_optional::<ParameterType>(reader.field("type"))?;
        let format = decode_optional::<String>(reader.field("format"))?;
        let allow_empty_value = decode_optional::<bool>(reader.field("allowEmptyValue"))?;
        let items = decode_optional::<Items>(reader.field("items"))?;
        let collection_format = decode_optional::<String>(reader.field("collectionFormat"))?;
        let default = decode_optional::<Json>(reader.field("default"))?;
        let maximum = decode_optional::<Number>(reader.field("maximum"))?;
        let exclusive_maximum = decode_optional::<bool>(reader.field("exclusiveMaximum"))?;
        let minimum = decode_optional::<Number>(reader.field("minimum"))?;
        let exclusive_minimum = decode_optional::<bool>(reader.field("exclusiveMinimum"))?;
        let max_length = decode_optional::<Number>(reader.field("maxLength"))?;
        let min_length = decode_optional::<Number>(reader.field("minLength"))?;
        let pattern = decode_optional::<String>(reader.field("pattern"))?;
        let max_items = decode_optional::<Number>(reader.field("maxItems"))?;
        let min_items = decode_optional::<Number>(reader.field("minItems"))?;
        let unique_items = decode_optional::<bool>(reader.field("uniqueItems"))?;
        let enum_ = decode_optional::<Vec<Json>>(reader.field("enum"))?;
        let multiple_of = decode_optional::<Number>(reader.field("multipleOf"))?;
        let extensions = reader.rest();
        Ok(Parameter { name, in_, description, required, schema, type_, format, allow_empty_value, items, collection_format, default, maximum, exclusive_maximum, minimum, exclusive_minimum, max_length, min_length, pattern, max_items, min_items, unique_items, enum_, multiple_of, extensions })
    }

    fn encode(&self) -> (res: Result<Json, CodecError>) {
        let writer = ObjectWriter::new();
        let writer = writer.put("name", encode_required::<String>(&self.name)?);
        let writer = writer.put("in", encode_required::<ParamInEnum>(&self.in_)?);
        let writer = writer.put("description", encode_optional::<String>(&self.description)?);
        let writer = writer.put("required", encode_optional::<bool>(&self.required)?);
        let writer = writer.put("schema", encode_optional::<Schema>(&self.schema)?);
        let writer = writer.put("type", encode_optional::<ParameterType>(&self.type_)?);
        let writer = writer.put("format", encode_optional::<String>(&self.format)?);
        let writer = writer.put("allowEmptyValue", encode_optional::<bool>(&self.allow_empty_value)?);
        let writer = writer.put("items", encode_optional::<Items>(&self.items)?);
        let writer = writer.put("collectionFormat", encode_optional::<String>(&self.collection_format)?);
        let writer = writer.put("default", encode_optional::<Json>(&self.default)?);
        let writer = writer.put("maximum", encode_optional::<Number>(&self.maximum)?);
        let writer = writer.put("exclusiveMaximum", encode_optional::<bool>(&self.exclusive_maximum)?);
        let writer = writer.put("minimum", encode_optional::<Number>(&self.minimum)?);
        let writer = writer.put("exclusiveMinimum", encode_optional::<bool>(&self.exclusive_minimum)?);
        let writer = writer.put("maxLength", encode_optional::<Number>(&self.max_length)?);
        let writer = writer.put("minLength", encode_optional::<Number>(&self.min_length)?);
        let writer = writer.put("pattern", encode_optional::<String>(&self.pattern)?);
        let writer = writer.put("maxItems", encode_optional::<Number>(&self.max_items)?);
        let writer = writer.put("minItems", encode_optional::<Number>(&self.min_items)?);
        let writer = writer.put("uniqueItems", encode_optional::<bool>(&self.unique_items)?);
        let writer = writer.put("enum", encode_optional::<Vec<Json>>(&self.enum_)?);
        let writer = writer.put("multipleOf", encode_optional::<Number>(&self.multiple_of)?);
        writer.finish_with(&self.extensions)
    }

    fn duplicate(&self) -> (copy: Parameter) {
        Parameter {
            name: self.name.duplicate(),
            in_: self.in_.duplicate(),
            description: duplicate_optional(&self.description),
            required: duplicate_optional(&self.required),
            schema: duplicate_optional(&self.schema),
            type_: duplicate_optional(&self.type_),
            format: duplicate_optional(&self.format),
            allow_empty_value: duplicate_optional(&self.allow_empty_value),
            items: duplicate_optional(&self.items),
            collection_format: duplicate_optional(&self.collection_format),
            default: duplicate_optional(&self.default),
            maximum: duplicate_optional(&self.maximum),
            exclusive_maximum: duplicate_optional(&self.exclusive_maximum),
            minimum: duplicate_optional(&self.minimum),
            exclusive_minimum: duplicate_optional(&self.exclusive_minimum),
            max_length: duplicate_optional(&self.max_length),
            min_length: duplicate_optional(&self.min_length),
            pattern: duplicate_optional(&self.pattern),
            max_items: duplicate_optional(&self.max_items),
            min_items: duplicate_optional(&self.min_items),
            unique_items: duplicate_optional(&self.unique_items),
            enum_: duplicate_optional(&self.enum_),
            multiple_of: duplicate_optional(&self.multiple_of),
            extensions: self.extensions.duplicate(),
        }
    }

    proof fn lemma_round_trip(value: ParameterModel) {
        let names = Self::names();
        let slots = Self::slots(value);
        Self::lemma_names_distinct();
        lemma_assembled_lookup(names, slots, value.extensions, 0);
        lemma_assembled_lookup(names, slots, value.extensions, 1);
        lemma_assembled_lookup(names, slots, value.extensions, 2);
        lemma_assembled_lookup(names, slots, value.extensions, 3);
        lemma_assembled_lookup(names, slots, value.extensions, 4);
        lemma_assembled_lookup(names, slots, value.extensions, 5);
        lemma_assembled_lookup(names, slots, value.extensions, 6);
        lemma_assembled_lookup(names, slots, value.extensions, 7);
        lemma_assembled_lookup(names, slots, value.extensions, 8);
        lemma_assembled_lookup(names, slots, value.extensions, 9);
        lemma_assembled_lookup(names, slots, value.extensions, 10);
        lemma_assembled_lookup(names, slots, value.extensions, 11);
        lemma_assembled_lookup(names, slots, value.extensions, 12);
        lemma_assembled_lookup(names, slots, value.extensions, 13);
        lemma_assembled_lookup(names, slots, value.extensions, 14);
        lemma_assembled_lookup(names, slots, value.extensions, 15);
        lemma_assembled_lookup(names, slots, value.extensions, 16);
        lemma_assembled_lookup(names, slots, value.extensions, 17);
        lemma_assembled_lookup(names, slots, value.extensions, 18);
        lemma_assembled_lookup(names, slots, value.extensions, 19);
        lemma_assembled_lookup(names, slots, value.extensions, 20);
        lemma_assembled_lookup(names, slots, value.extensions, 21);
        lemma_assembled_lookup(names, slots, value.extensions, 22);
        lemma_assembled_remainder(names, slots, value.extensions);
        lemma_required_round_trip::<String>(value.name);
        lemma_required_round_trip::<ParamInEnum>(value.in_);
        lemma_optional_round_trip::<String>(value.description);
        lemma_optional_round_trip::<bool>(value.required);
        lemma_optional_round_trip::<Schema>(value.schema);
        lemma_optional_round_trip::<ParameterType>(value.type_);
        lemma_optional_round_trip::<String>(value.format);
        lemma_optional_round_trip::<bool>(value.allow_empty_value);
        lemma_optional_round_trip::<Items>(value.items);
        lemma_optional_round_trip::<String>(value.collection_format);
        lemma_optional_round_trip::<Json>(value.default);
        lemma_optional_round_trip::<Number>(value.maximum);
        lemma_optional_round_trip::<bool>(value.exclusive_maximum);
        lemma_optional_round_trip::<Number>(value.minimum);
        lemma_optional_round_trip::<bool>(value.exclusive_minimum);
        lemma_optional_round_trip::<Number>(value.max_length);
        lemma_optional_round_trip::<Number>(value.min_length);
        lemma_optional_round_trip::<String>(value.pattern);
        lemma_optional_round_trip::<Number>(value.max_items);
        lemma_optional_round_trip::<Number>(value.min_items);
        lemma_optional_round_trip::<bool>(value.unique_items);
        lemma_optional_round_trip::<Vec<Json>>(value.enum_);
        lemma_optional_round_trip::<Number>(value.multiple_of);
    }

    proof fn lemma_read_is_valid(json: JsonModel) {
        let members = json->Object_0;
        let names = Self::names();
        let value = Self::decoded(json);
        let slots = Self::slots(value);
        lemma_required_read_is_valid::<String>(lookup(members, "name"@));
        lemma_required_read_is_valid::<ParamInEnum>(lookup(members, "in"@));
        lemma_optional_read_is_valid::<String>(lookup(members, "description"@));
        lemma_optional_read_is_valid::<bool>(lookup(members, "required"@));
        lemma_optional_read_is_valid::<Schema>(lookup(members, "schema"@));
        lemma_optional_read_is_valid::<ParameterType>(lookup(members, "type"@));
        lemma_optional_read_is_valid::<String>(lookup(members, "format"@));
        lemma_optional_read_is_valid::<bool>(lookup(members, "allowEmptyValue"@));
        lemma_optional_read_is_valid::<Items>(lookup(members, "items"@));
        lemma_optional_read_is_valid::<String>(lookup(members, "collectionFormat"@));
        lemma_optional_read_is_valid::<Json>(lookup(members, "default"@));
        lemma_optional_read_is_valid::<Number>(lookup(members, "maximum"@));
        lemma_optional_read_is_valid::<bool>(lookup(members, "exclusiveMaximum"@));
        lemma_optional_read_is_valid::<Number>(lookup(members, "minimum"@));
        lemma_optional_read_is_valid::<bool>(lookup(members, "exclusiveMinimum"@));
        lemma_optional_read_is_valid::<Number>(lookup(members, "maxLength"@));
        lemma_optional_read_is_valid::<Number>(lookup(members, "minLength"@));
        lemma_optional_read_is_valid::<String>(lookup(members, "pattern"@));
        lemma_optional_read_is_valid::<Number>(lookup(members, "maxItems"@));
        lemma_optional_read_is_valid::<Number>(lookup(members, "minItems"@));
        lemma_optional_read_is_valid::<bool>(lookup(members, "uniqueItems"@));
        lemma_optional_read_is_valid::<Vec<Json>>(lookup(members, "enum"@));
        lemma_optional_read_is_valid::<Number>(lookup(members, "multipleOf"@));
        lemma_remainder_unnamed(members, names);
        Self::lemma_pointer_unnamed();
        lemma_assembled_lookup_other(names, slots, value.extensions, POINTER_KEY@);
        lemma_remainder_lookup(members, names, POINTER_KEY@);
    }
}

impl Response {
    /// The keys of the named fields, in the order in which they are written.
    pub open spec fn names() -> Seq<Seq<char>> {
        Seq::empty()
            .push("description"@)
            .push("schema"@)
            .push("headers"@)
            .push("examples"@)
    }

    /// What each named field is written as, in the order of the names.
    pub open spec fn slots(value: ResponseModel) -> Seq<Option<JsonModel>> {
        Seq::empty()
            .push(required_encoded::<String>(value.description))
            .push(optional_encoded::<Schema>(value.schema))
            .push(optional_encoded::<Table<Header>>(value.headers))
            .push(optional_encoded::<Table<Json>>(value.examples))
    }

    /// No key is named twice.
    pub proof fn lemma_names_distinct()
        ensures
            Self::names().no_duplicates(),
    {
        reveal_strlit("description");
        reveal_strlit("schema");
        reveal_strlit("headers");
        reveal_strlit("examples");
        assert("description"@.len() == 11);
        assert("schema"@.len() == 6);
        assert("headers"@.len() == 7);
        assert("examples"@.len() == 8);
    }

    /// The pointer key is none of the names.
    pub proof fn lemma_pointer_unnamed()
        ensures
            !Self::names().contains(POINTER_KEY@),
    {
        reveal_strlit("$ref");
        reveal_strlit("description");
        reveal_strlit("schema");
        reveal_strlit("headers");
        reveal_strlit("examples");
        assert("$ref"@.len() == 4);
        assert("description"@.len() == 11);
        assert("schema"@.len() == 6);
        assert("headers"@.len() == 7);
        assert("examples"@.len() == 8);
    }
}

impl Clone for Response {
    fn clone(&self) -> (copy: Response)
        ensures
            copy.model() == self.model(),
    {
        self.duplicate()
    }
}

impl Codec for Response {
    type Model = ResponseModel;

    open spec fn model(&self) -> ResponseModel {
        ResponseModel {
            description: self.description.model(),
            schema: option_model(self.schema),
            headers: option_model(self.headers),
            examples: option_model(self.examples),
            extensions: self.extensions.model(),
        }
    }

    open spec fn fits(json: JsonModel) -> bool {
        &&& json is Object
        &&& required_fits::<String>(lookup(json->Object_0, "description"@))
        &&& optional_fits::<Schema>(lookup(json->Object_0, "schema"@))
        &&& optional_fits::<Table<Header>>(lookup(json->Object_0, "headers"@))
        &&& optional_fits::<Table<Json>>(lookup(json->Object_0, "examples"@))
    }

    open spec fn decoded(json: JsonModel) -> ResponseModel {
        ResponseModel {
            description: required_decoded::<String>(lookup(json->Object_0, "description"@)),
            schema: optional_decoded::<Schema>(lookup(json->Object_0, "schema"@)),
            headers: optional_decoded::<Table<Header>>(lookup(json->Object_0, "headers"@)),
            examples: optional_decoded::<Table<Json>>(lookup(json->Object_0, "examples"@)),
            extensions: remainder(json->Object_0, Self::names()),
        }
    }

    open spec fn encodable(value: ResponseModel) -> bool {
        &&& required_encodable::<String>(value.description)
        &&& optional_encodable::<Schema>(value.schema)
        &&& optional_encodable::<Table<Header>>(value.headers)
        &&& optional_encodable::<Table<Json>>(value.examples)
        &&& !collides(Self::names(), value.extensions)
    }

    open spec fn valid(value: ResponseModel) -> bool {
        &&& required_valid::<String>(value.description)
        &&& optional_valid::<Schema>(value.schema)
        &&& optional_valid::<Table<Header>>(value.headers)
        &&& optional_valid::<Table<Json>>(value.examples)
        &&& !collides(Self::names(), value.extensions)
    }

    open spec fn encoded(value: ResponseModel) -> JsonModel {
        JsonModel::Object(assembled(Self::names(), Self::slots(value), value.extensions))
    }

    fn decode(json: &Json) -> (res: Result<Response, CodecError>) {
        let members = match json {
            Json::Object(members) => members,
            _ => {
                return Err(CodecError::ShapeMismatch);
            },
        };
        let mut reader = ObjectReader::new(members);
        let description = decode_required::<String>(reader.field("description"))?;
        let schema = decode_optional::<Schema>(reader.field("schema"))?;
        let headers = decode_optional::<Table<Header>>(reader.field("headers"))?;
        let examples = decode_optional::<Table<Json>>(reader.field("examples"))?;
        let extensions = reader.rest();
        Ok(Response { description, schema, headers, examples, extensions })
    }

    fn encode(&self) -> (res: Result<Json, CodecError>) {
        let writer = ObjectWriter::new();
        let writer = writer.put("description", encode_required::<String>(&self.description)?);
        let writer = writer.put("schema", encode_optional::<Schema>(&self.schema)?);
        let writer = writer.put("headers", encode_optional::<Table<Header>>(&self.headers)?);
        let writer = writer.put("examples", encode_optional::<Table<Json>>(&self.examples)?);
        writer.finish_with(&self.extensions)
    }

    fn duplicate(&self) -> (copy: Response) {
        Response {
            description: self.description.duplicate(),
            schema: duplicate_optional(&self.schema),
            headers: duplicate_optional(&self.headers),
            examples: duplicate_optional(&self.examples),
            extensions: self.extensions.duplicate(),
        }
    }

    proof fn lemma_round_trip(value: ResponseModel) {
        let names = Self::names();
        let slots = Self::slots(value);
        Self::lemma_names_distinct();
        lemma_assembled_lookup(names, slots, value.extensions, 0);
        lemma_assembled_lookup(names, slots, value.extensions, 1);
        lemma_assembled_lookup(names, slots, value.extensions, 2);
        lemma_assembled_lookup(names, slots, value.extensions, 3);
        lemma_assembled_remainder(names, slots, value.extensions);
        lemma_required_round_trip::<String>(value.description);
        lemma_optional_round_trip::<Schema>(value.schema);
        lemma_optional_round_trip::<Table<Header>>(value.headers);
        lemma_optional_round_trip::<Table<Json>>(value.examples);
    }

    proof fn lemma_read_is_valid(json: JsonModel) {
        let members = json->Object_0;
        let names = Self::names();
        let value = Self::decoded(json);
        let slots = Self::slots(value);
        lemma_required_read_is_valid::<String>(lookup(members, "description"@));
        lemma_optional_read_is_valid::<Schema>(lookup(members, "schema"@));
        lemma_optional_read_is_valid::<Table<Header>>(lookup(members, "headers"@));
        lemma_optional_read_is_valid::<Table<Json>>(lookup(members, "examples"@));
        lemma_remainder_unnamed(members, names);
        Self::lemma_pointer_unnamed();
        lemma_assembled_lookup_other(names, slots, value.extensions, POINTER_KEY@);
        lemma_remainder_lookup(members, names, POINTER_KEY@);
    }
}

impl Header {
    /// The keys of the named fields, in the order in which they are written.
    pub open spec fn names() -> Seq<Seq<char>> {
        Seq::empty()
            .push("description"@)
            .push("type"@)
            .push("format"@)
            .push("items"@)
            .push("collectionFormat"@)
            .push("default"@)
            .push("maximum"@)
            .push("exclusiveMaximum"@)
            .push("minimum"@)
            .push("exclusiveMinimum"@)
            .push("maxLength"@)
            .push("minLength"@)
            .push("pattern"@)
            .push("maxItems"@)
            .push("minItems"@)
            .push("uniqueItems"@)
            .push("enum"@)
            .push("multipleOf"@)
    }

    /// What each named field is written as, in the order of the names.
    pub open spec fn slots(value: HeaderModel) -> Seq<Option<JsonModel>> {
        Seq::empty()
            .push(optional_encoded::<String>(value.description))
            .push(required_encoded::<ItemsType>(value.type_))
            .push(optional_encoded::<String>(value.format))
            .push(optional_encoded::<Box<Items>>(value.items))
            .push(optional_encoded::<String>(value.collection_format))
            .push(optional_encoded::<Json>(value.default))
            .push(optional_encoded::<Number>(value.maximum))
            .push(optional_encoded::<bool>(value.exclusive_maximum))
            .push(optional_encoded::<Number>(value.minimum))
            .push(optional_encoded::<bool>(value.exclusive_minimum))
            .push(optional_encoded::<Json>(value.max_length))
            .push(optional_encoded::<Number>(value.min_length))
            .push(optional_encoded::<String>(value.pattern))
            .push(optional_encoded::<Number>(value.max_items))
            .push(optional_encoded::<Number>(value.min_items))
            .push(optional_encoded::<bool>(value.unique_items))
            .push(optional_encoded::<Vec<Json>>(value.enum_))
            .push(optional_encoded::<Number>(value.multiple_of))
    }

    /// No key is named twice.
    pub proof fn lemma_names_distinct()
        ensures
            Self::names().no_duplicates(),
    {
        reveal_strlit("description");
        reveal_strlit("type");
        reveal_strlit("format");
        reveal_strlit("items");
        reveal_strlit("collectionFormat");
        reveal_strlit("default");
        reveal_strlit("maximum");
        reveal_strlit("exclusiveMaximum");
        reveal_strlit("minimum");
        reveal_strlit("exclusiveMinimum");
        reveal_strlit("maxLength");
        reveal_strlit("minLength");
        reveal_strlit("pattern");
        reveal_strlit("maxItems");
        reveal_strlit("minItems");
        reveal_strlit("uniqueItems");
        reveal_strlit("enum");
        reveal_strlit("multipleOf");
        assert("description"@.len() == 11 && "description"@[0] == 'd');
        assert("type"@.len() == 4 && "type"@[0] == 't');
        assert("format"@.len() == 6);
        assert("items"@.len() == 5);
        assert("collectionFormat"@.len() == 16 && "collectionFormat"@[0] == 'c');
        assert("default"@.len() == 7 && "default"@[0] == 'd');
        assert("maximum"@.len() == 7 && "maximum"@[0] == 'm' && "maximum"@[1] == 'a');
        assert("exclusiveMaximum"@.len() == 16 && "exclusiveMaximum"@[0] == 'e' && "exclusiveMaximum"@[10] == 'a');
        assert("minimum"@.len() == 7 && "minimum"@[0] == 'm' && "minimum"@[1] == 'i');
        assert("exclusiveMinimum"@.len() == 16 && "exclusiveMinimum"@[0] == 'e' && "exclusiveMinimum"@[10] == 'i');
        assert("maxLength"@.len() == 9 && "maxLength"@[1] == 'a');
        assert("minLength"@.len() == 9 && "minLength"@[1] == 'i');
        assert("pattern"@.len() == 7 && "pattern"@[0] == 'p');
        assert("maxItems"@.len() == 8 && "maxItems"@[1] == 'a');
        assert("minItems"@.len() == 8 && "minItems"@[1] == 'i');
        assert("uniqueItems"@.len() == 11 && "uniqueItems"@[0] == 'u');
        assert("enum"@.len() == 4 && "enum"@[0] == 'e');
        assert("multipleOf"@.len() == 10);
    }

    /// The pointer key is none of the names.
    pub proof fn lemma_pointer_unnamed()
        ensures
            !Self::names().contains(POINTER_KEY@),
    {
        reveal_strlit("$ref");
        reveal_strlit("description");
        reveal_strlit("type");
        reveal_strlit("format");
        reveal_strlit("items");
        reveal_strlit("collectionFormat");
        reveal_strlit("default");
        reveal_strlit("maximum");
        reveal_strlit("exclusiveMaximum");
        reveal_strlit("minimum");
        reveal_strlit("exclusiveMinimum");
        reveal_strlit("maxLength");
        reveal_strlit("minLength");
        reveal_strlit("pattern");
        reveal_strlit("maxItems");
        reveal_strlit("minItems");
        reveal_strlit("uniqueItems");
        reveal_strlit("enum");
        reveal_strlit("multipleOf");
        assert("$ref"@.len() == 4 && "$ref"@[0] == '$');
        assert("description"@.len() == 11);
        assert("type"@.len() == 4 && "type"@[0] == 't');
        assert("format"@.len() == 6);
        assert("items"@.len() == 5);
        assert("collectionFormat"@.len() == 16);
        assert("default"@.len() == 7);
        assert("maximum"@.len() == 7);
        assert("exclusiveMaximum"@.len() == 16);
        assert("minimum"@.len() == 7);
        assert("exclusiveMinimum"@.len() == 16);
        assert("maxLength"@.len() == 9);
        assert("minLength"@.len() == 9);
        assert("pattern"@.len() == 7);
        assert("maxItems"@.len() == 8);
        assert("minItems"@.len() == 8);
        assert("uniqueItems"@.len() == 11);
        assert("enum"@.len() == 4 && "enum"@[0] == 'e');
        assert("multipleOf"@.len() == 10);
    }
}

impl Clone for Header {
    fn clone(&self) -> (copy: Header)
        ensures
            copy.model() == self.model(),
    {
        self.duplicate()
    }
}

impl Codec for Header {
    type Model = HeaderModel;

    open spec fn model(&self) -> HeaderModel {
        HeaderModel {
            description: option_model(self.description),
            type_: self.type_.model(),
            format: option_model(self.format),
            items: option_model(self.items),
            collection_format: option_model(self.collection_format),
            default: option_model(self.default),
            maximum: option_model(self.maximum),
            exclusive_maximum: option_model(self.exclusive_maximum),
            minimum: option_model(self.minimum),
            exclusive_minimum: option_model(self.exclusive_minimum),
            max_length: option_model(self.max_length),
            min_length: option_model(self.min_length),
            pattern: option_model(self.pattern),
            max_items: option_model(self.max_items),
            min_items: option_model(self.min_items),
            unique_items: option_model(self.unique_items),
            enum_: option_model(self.enum_),
            multiple_of: option_model(self.multiple_of),
            extensions: self.extensions.model(),
        }
    }

    open spec fn fits(json: JsonModel) -> bool {
        &&& json is Object
        &&& optional_fits::<String>(lookup(json->Object_0, "description"@))
        &&& required_fits::<ItemsType>(lookup(json->Object_0, "type"@))
        &&& optional_fits::<String>(lookup(json->Object_0, "format"@))
        &&& optional_fits::<Box<Items>>(lookup(json->Object_0, "items"@))
        &&& optional_fits::<String>(lookup(json->Object_0, "collectionFormat"@))
        &&& optional_fits::<Json>(lookup(json->Object_0, "default"@))
        &&& optional_fits::<Number>(lookup(json->Object_0, "maximum"@))
        &&& optional_fits::<bool>(lookup(json->Object_0, "exclusiveMaximum"@))
        &&& optional_fits::<Number>(lookup(json->Object_0, "minimum"@))
        &&& optional_fits::<bool>(lookup(json->Object_0, "exclusiveMinimum"@))
        &&& optional_fits::<Json>(lookup(json->Object_0, "maxLength"@))
        &&& optional_fits::<Number>(lookup(json->Object_0, "minLength"@))
        &&& optional_fits::<String>(lookup(json->Object_0, "pattern"@))
        &&& optional_fits::<Number>(lookup(json->Object_0, "maxItems"@))
        &&& optional_fits::<Number>(lookup(json->Object_0, "minItems"@))
        &&& optional_fits::<bool>(lookup(json->Object_0, "uniqueItems"@))
        &&& optional_fits::<Vec<Json>>(lookup(json->Object_0, "enum"@))
        &&& optional_fits::<Number>(lookup(json->Object_0, "multipleOf"@))
    }

    open spec fn decoded(json: JsonModel) -> HeaderModel {
        HeaderModel {
            description: optional_decoded::<String>(lookup(json->Object_0, "description"@)),
            type_: required_decoded::<ItemsType>(lookup(json->Object_0, "type"@)),
            format: optional_decoded::<String>(lookup(json->Object_0, "format"@)),
            items: optional_decoded::<Box<Items>>(lookup(json->Object_0, "items"@)),
            collection_format: optional_decoded::<String>(lookup(json->Object_0, "collectionFormat"@)),
            default: optional_decoded::<Json>(lookup(json->Object_0, "default"@)),
            maximum: optional_decoded::<Number>(lookup(json->Object_0, "maximum"@)),
            exclusive_maximum: optional_decoded::<bool>(lookup(json->Object_0, "exclusiveMaximum"@)),
            minimum: optional_decoded::<Number>(lookup(json->Object_0, "minimum"@)),
            exclusive_minimum: optional_decoded::<bool>(lookup(json->Object_0, "exclusiveMinimum"@)),
            max_length: optional_decoded::<Json>(lookup(json->Object_0, "maxLength"@)),
            min_length: optional_decoded::<Number>(lookup(json->Object_0, "minLength"@)),
            pattern: optional_decoded::<String>(lookup(json->Object_0, "pattern"@)),
            max_items: optional_decoded::<Number>(lookup(json->Object_0, "maxItems"@)),
            min_items: optional_decoded::<Number>(lookup(json->Object_0, "minItems"@)),
            unique_items: optional_decoded::<bool>(lookup(json->Object_0, "uniqueItems"@)),
            enum_: optional_decoded::<Vec<Json>>(lookup(json->Object_0, "enum"@)),
            multiple_of: optional_decoded::<Number>(lookup(json->Object_0, "multipleOf"@)),
            extensions: remainder(json->Object_0, Self::names()),
        }
    }

    open spec fn encodable(value: HeaderModel) -> bool {
        &&& optional_encodable::<String>(value.description)
        &&& required_encodable::<ItemsType>(value.type_)
        &&& optional_encodable::<String>(value.format)
        &&& optional_encodable::<Box<Items>>(value.items)
        &&& optional_encodable::<String>(value.collection_format)
        &&& optional_encodable::<Json>(value.default)
        &&& optional_encodable::<Number>(value.maximum)
        &&& optional_encodable::<bool>(value.exclusive_maximum)
        &&& optional_encodable::<Number>(value.minimum)
        &&& optional_encodable::<bool>(value.exclusive_minimum)
        &&& optional_encodable::<Json>(value.max_length)
        &&& optional_encodable::<Number>(value.min_length)
        &&& optional_encodable::<String>(value.pattern)
        &&& optional_encodable::<Number>(value.max_items)
        &&& optional_encodable::<Number>(value.min_items)
        &&& optional_encodable::<bool>(value.unique_items)
        &&& optional_encodable::<Vec<Json>>(value.enum_)
        &&& optional_encodable::<Number>(value.multiple_of)
        &&& !collides(Self::names(), value.extensions)
    }

    open spec fn valid(value: HeaderModel) -> bool {
        &&& optional_valid::<String>(value.description)
        &&& required_valid::<ItemsType>(value.type_)
        &&& optional_valid::<String>(value.format)
        &&& optional_valid::<Box<Items>>(value.items)
        &&& optional_valid::<String>(value.collection_format)
        &&& optional_valid::<Json>(value.default)
        &&& optional_valid::<Number>(value.maximum)
        &&& optional_valid::<bool>(value.exclusive_maximum)
        &&& optional_valid::<Number>(value.minimum)
        &&& optional_valid::<bool>(value.exclusive_minimum)
        &&& optional_valid::<Json>(value.max_length)
        &&& optional_valid::<Number>(value.min_length)
        &&& optional_valid::<String>(value.pattern)
        &&& optional_valid::<Number>(value.max_items)
        &&& optional_valid::<Number>(value.min_items)
        &&& optional_valid::<bool>(value.unique_items)
        &&& optional_valid::<Vec<Json>>(value.enum_)
        &&& optional_valid::<Number>(value.multiple_of)
        &&& !collides(Self::names(), value.extensions)
    }

    open spec fn encoded(value: HeaderModel) -> JsonModel {
        JsonModel::Object(assembled(Self::names(), Self::slots(value), value.extensions))
    }

    fn decode(json: &Json) -> (res: Result<Header, CodecError>) {
        let members = match json {
            Json::Object(members) => members,
            _ => {
                return Err(CodecError::ShapeMismatch);
            },
        };
        let mut reader = ObjectReader::new(members);
        let description = decode_optional::<String>(reader.field("description"))?;
        let type_ = decode_required::<ItemsType>(reader.field("type"))?;
        let format = decode_optional::<String>(reader.field("format"))?;
        let items = decode_optional::<Box<Items>>(reader.field("items"))?;
        let collection_format = decode_optional::<String>(reader.field("collectionFormat"))?;
        let default = decode_optional::<Json>(reader.field("default"))?;
        let maximum = decode_optional::<Number>(reader.field("maximum"))?;
        let exclusive_maximum = decode_optional::<bool>(reader.field("exclusiveMaximum"))?;
        let minimum = decode_optional::<Number>(reader.field("minimum"))?;
        let exclusive_minimum = decode_optional::<bool>(reader.field("exclusiveMinimum"))?;
        let max_length = decode_optional::<Json>(reader.field("maxLength"))?;
        let min_length = decode_optional::<Number>(reader.field("minLength"))?;
        let pattern = decode_optional::<String>(reader.field("pattern"))?;
        let max_items = decode_optional::<Number>(reader.field("maxItems"))?;
        let min_items = decode_optional::<Number>(reader.field("minItems"))?;
        let unique_items = decode_optional::<bool>(reader.field("uniqueItems"))?;
        let enum_ = decode_optional::<Vec<Json>>(reader.field("enum"))?;
        let multiple_of = decode_optional::<Number>(reader.field("multipleOf"))?;
        let extensions = reader.rest();
        Ok(Header { description, type_, format, items, collection_format, default, maximum, exclusive_maximum, minimum, exclusive_minimum, max_length, min_length, pattern, max_items, min_items, unique_items, enum_, multiple_of, extensions })
    }

    fn encode(&self) -> (res: Result<Json, CodecError>) {
        let writer = ObjectWriter::new();
        let writer = writer.put("description", encode_optional::<String>(&self.description)?);
        let writer = writer.put("type", encode_required::<ItemsType>(&self.type_)?);
        let writer = writer.put("format", encode_optional::<String>(&self.format)?);
        let writer = writer.put("items", encode_optional::<Box<Items>>(&self.items)?);
        let writer = writer.put("collectionFormat", encode_optional::<String>(&self.collection_format)?);
        let writer = writer.put("default", encode_optional::<Json>(&self.default)?);
        let writer = writer.put("maximum", encode_optional::<Number>(&self.maximum)?);
        let writer = writer.put("exclusiveMaximum", encode_optional::<bool>(&self.exclusive_maximum)?);
        let writer = writer.put("minimum", encode_optional::<Number>(&self.minimum)?);
        let writer = writer.put("exclusiveMinimum", encode_optional::<bool>(&self.exclusive_minimum)?);
        let writer = writer.put("maxLength", encode_optional::<Json>(&self.max_length)?);
        let writer = writer.put("minLength", encode_optional::<Number>(&self.min_length)?);
        let writer = writer.put("pattern", encode_optional::<String>(&self.pattern)?);
        let writer = writer.put("maxItems", encode_optional::<Number>(&self.max_items)?);
        let writer = writer.put("minItems", encode_optional::<Number>(&self.min_items)?);
        let writer = writer.put("uniqueItems", encode_optional::<bool>(&self.unique_items)?);
        let writer = writer.put("enum", encode_optional::<Vec<Json>>(&self.enum_)?);
        let writer = writer.put("multipleOf", encode_optional::<Number>(&self.multiple_of)?);
        writer.finish_with(&self.extensions)
    }

    fn duplicate(&self) -> (copy: Header) {
        Header {
            description: duplicate_optional(&self.description),
            type_: self.type_.duplicate(),
            format: duplicate_optional(&self.format),
            items: duplicate_optional(&self.items),
            collection_format: duplicate_optional(&self.collection_format),
            default: duplicate_optional(&self.default),
            maximum: duplicate_optional(&self.maximum),
            exclusive_maximum: duplicate_optional(&self.exclusive_maximum),
            minimum: duplicate_optional(&self.minimum),
            exclusive_minimum: duplicate_optional(&self.exclusive_minimum),
            max_length: duplicate_optional(&self.max_length),
            min_length: duplicate_optional(&self.min_length),
            pattern: duplicate_optional(&self.pattern),
            max_items: duplicate_optional(&self.max_items),
            min_items: duplicate_optional(&self.min_items),
            unique_items: duplicate_optional(&self.unique_items),
            enum_: duplicate_optional(&self.enum_),
            multiple_of: duplicate_optional(&self.multiple_of),
            extensions: self.extensions.duplicate(),
        }
    }

    proof fn lemma_round_trip(value: HeaderModel) {
        let names = Self::names();
        let slots = Self::slots(value);
        Self::lemma_names_distinct();
        lemma_assembled_lookup(names, slots, value.extensions, 0);
        lemma_assembled_lookup(names, slots, value.extensions, 1);
        lemma_assembled_lookup(names, slots, value.extensions, 2);
        lemma_assembled_lookup(names, slots, value.extensions, 3);
        lemma_assembled_lookup(names, slots, value.extensions, 4);
        lemma_assembled_lookup(names, slots, value.extensions, 5);
        lemma_assembled_lookup(names, slots, value.extensions, 6);
        lemma_assembled_lookup(names, slots, value.extensions, 7);
        lemma_assembled_lookup(names, slots, value.extensions, 8);
        lemma_assembled_lookup(names, slots, value.extensions, 9);
        lemma_assembled_lookup(names, slots, value.extensions, 10);
        lemma_assembled_lookup(names, slots, value.extensions, 11);
        lemma_assembled_lookup(names, slots, value.extensions, 12);
        lemma_assembled_lookup(names, slots, value.extensions, 13);
        lemma_assembled_lookup(names, slots, value.extensions, 14);
        lemma_assembled_lookup(names, slots, value.extensions, 15);
        lemma_assembled_lookup(names, slots, value.extensions, 16);
        lemma_assembled_lookup(names, slots, value.extensions, 17);
        lemma_assembled_remainder(names, slots, value.extensions);
        lemma_optional_round_trip::<String>(value.description);
        lemma_required_round_trip::<ItemsType>(value.type_);
        lemma_optional_round_trip::<String>(value.format);
        lemma_optional_round_trip::<Box<Items>>(value.items);
        lemma_optional_round_trip::<String>(value.collection_format);
        lemma_optional_round_trip::<Json>(value.default);
        lemma_optional_round_trip::<Number>(value.maximum);
        lemma_optional_round_trip::<bool>(value.exclusive_maximum);
        lemma_optional_round_trip::<Number>(value.minimum);
        lemma_optional_round_trip::<bool>(value.exclusive_minimum);
        lemma_optional_round_trip::<Json>(value.max_length);
        lemma_optional_round_trip::<Number>(value.min_length);
        lemma_optional_round_trip::<String>(value.pattern);
        lemma_optional_round_trip::<Number>(value.max_items);
        lemma_optional_round_trip::<Number>(value.min_items);
        lemma_optional_round_trip::<bool>(value.unique_items);
        lemma_optional_round_trip::<Vec<Json>>(value.enum_);
        lemma_optional_round_trip::<Number>(value.multiple_of);
    }

    proof fn lemma_read_is_valid(json: JsonModel) {
        let members = json->Object_0;
        let names = Self::names();
        let value = Self::decoded(json);
        let slots = Self::slots(value);
        lemma_optional_read_is_valid::<String>(lookup(members, "description"@));
        lemma_required_read_is_valid::<ItemsType>(lookup(members, "type"@));
        lemma_optional_read_is_valid::<String>(lookup(members, "format"@));
        lemma_optional_read_is_valid::<Box<Items>>(lookup(members, "items"@));
        lemma_optional_read_is_valid::<String>(lookup(members, "collectionFormat"@));
        lemma_optional_read_is_valid::<Json>(lookup(members, "default"@));
        lemma_optional_read_is_valid::<Number>(lookup(members, "maximum"@));
        lemma_optional_read_is_valid::<bool>(lookup(members, "exclusiveMaximum"@));
        lemma_optional_read_is_valid::<Number>(lookup(members, "minimum"@));
        lemma_optional_read_is_valid::<bool>(lookup(members, "exclusiveMinimum"@));
        lemma_optional_read_is_valid::<Json>(lookup(members, "maxLength"@));
        lemma_optional_read_is_valid::<Number>(lookup(members, "minLength"@));
        lemma_optional_read_is_valid::<String>(lookup(members, "pattern"@));
        lemma_optional_read_is_valid::<Number>(lookup(members, "maxItems"@));
        lemma_optional_read_is_valid::<Number>(lookup(members, "minItems"@));
        lemma_optional_read_is_valid::<bool>(lookup(members, "uniqueItems"@));
        lemma_optional_read_is_valid::<Vec<Json>>(lookup(members, "enum"@));
        lemma_optional_read_is_valid::<Number>(lookup(members, "multipleOf"@));
        lemma_remainder_unnamed(members, names);
        Self::lemma_pointer_unnamed();
        lemma_assembled_lookup_other(names, slots, value.extensions, POINTER_KEY@);
        lemma_remainder_lookup(members, names, POINTER_KEY@);
    }
}

impl Codec for Reference {
    type Model = ReferenceModel;

    open spec fn model(&self) -> ReferenceModel {
        ReferenceModel { reference: self.reference@ }
    }

    open spec fn fits(json: JsonModel) -> bool {
        sniffed(json) is Pointer
    }

    open spec fn decoded(json: JsonModel) -> ReferenceModel {
        ReferenceModel { reference: sniffed(json)->Pointer_0 }
    }

    open spec fn encodable(value: ReferenceModel) -> bool {
        true
    }

    open spec fn encoded(value: ReferenceModel) -> JsonModel {
        pointer_object(value.reference)
    }

    open spec fn valid(value: ReferenceModel) -> bool {
        true
    }

    fn decode(json: &Json) -> (res: Result<Reference, CodecError>) {
        match sniff(json) {
            Sniff::Pointer(pointer) => Ok(Reference { reference: pointer.clone() }),
            _ => Err(CodecError::ShapeMismatch),
        }
    }

    fn encode(&self) -> (res: Result<Json, CodecError>) {
        Ok(pointer_json(&self.reference))
    }

    fn duplicate(&self) -> (copy: Reference) {
        Reference { reference: self.reference.clone() }
    }

    proof fn lemma_round_trip(value: ReferenceModel) {
        lemma_pointer_object_sniffed(value.reference);
    }

    proof fn lemma_read_is_valid(json: JsonModel) {
    }
}

/// The test on the pointer key comes first: an object that holds the key is
/// a reference, whatever else it holds.
impl Codec for ParameterOrRef {
    type Model = ParameterOrRefModel;

    open spec fn model(&self) -> ParameterOrRefModel {
        match self {
            ParameterOrRef::Ref(reference) => ParameterOrRefModel::Ref(reference.model()),
            ParameterOrRef::Parameter(inner) => ParameterOrRefModel::Parameter(inner.model()),
        }
    }

    open spec fn fits(json: JsonModel) -> bool {
        match sniffed(json) {
            Sniffed::Pointer(_) => true,
            Sniffed::Malformed => false,
            Sniffed::Inline => Parameter::fits(json),
        }
    }

    open spec fn decoded(json: JsonModel) -> ParameterOrRefModel {
        match sniffed(json) {
            Sniffed::Pointer(pointer) => ParameterOrRefModel::Ref(
                ReferenceModel { reference: pointer },
            ),
            _ => ParameterOrRefModel::Parameter(Parameter::decoded(json)),
        }
    }

    open spec fn encodable(value: ParameterOrRefModel) -> bool {
        match value {
            ParameterOrRefModel::Ref(_) => true,
            ParameterOrRefModel::Parameter(inner) => Parameter::encodable(inner),
        }
    }

    open spec fn encoded(value: ParameterOrRefModel) -> JsonModel {
        match value {
            ParameterOrRefModel::Ref(reference) => pointer_object(reference.reference),
            ParameterOrRefModel::Parameter(inner) => Parameter::encoded(inner),
        }
    }

    open spec fn valid(value: ParameterOrRefModel) -> bool {
        match value {
            ParameterOrRefModel::Ref(_) => true,
            ParameterOrRefModel::Parameter(inner) => Parameter::valid(inner) && sniffed(
                Parameter::encoded(inner),
            ) is Inline,
        }
    }

    fn decode(json: &Json) -> (res: Result<ParameterOrRef, CodecError>) {
        match sniff(json) {
            Sniff::Pointer(pointer) => Ok(
                ParameterOrRef::Ref(Reference { reference: pointer.clone() }),
            ),
            Sniff::Malformed => Err(CodecError::ShapeMismatch),
            Sniff::Inline => match Parameter::decode(json) {
                Ok(value) => Ok(ParameterOrRef::Parameter(value)),
                Err(error) => Err(error),
            },
        }
    }

    fn encode(&self) -> (res: Result<Json, CodecError>) {
        match self {
            ParameterOrRef::Ref(reference) => Ok(pointer_json(&reference.reference)),
            ParameterOrRef::Parameter(inner) => inner.encode(),
        }
    }

    fn duplicate(&self) -> (copy: ParameterOrRef) {
        match self {
            ParameterOrRef::Ref(reference) => ParameterOrRef::Ref(reference.duplicate()),
            ParameterOrRef::Parameter(inner) => ParameterOrRef::Parameter(inner.duplicate()),
        }
    }

    proof fn lemma_round_trip(value: ParameterOrRefModel) {
        match value {
            ParameterOrRefModel::Ref(reference) => {
                lemma_pointer_object_sniffed(reference.reference);
            },
            ParameterOrRefModel::Parameter(inner) => {
                Parameter::lemma_round_trip(inner);
            },
        }
    }

    proof fn lemma_read_is_valid(json: JsonModel) {
        if sniffed(json) is Inline {
            Parameter::lemma_read_is_valid(json);
        }
    }
}

/// The test on the pointer key comes first here too. The inline case has the
/// fields and the shape of a [`Response`].
impl Codec for ResponseOrRef {
    type Model = ResponseOrRefModel;

    open spec fn model(&self) -> ResponseOrRefModel {
        match self {
            ResponseOrRef::Response { description, schema, headers, examples, extensions } => {
                ResponseOrRefModel::Response(
                    ResponseModel {
                        description: description.model(),
                        schema: option_model(*schema),
                        headers: option_model(*headers),
                        examples: option_model(*examples),
                        extensions: extensions.model(),
                    },
                )
            },
            ResponseOrRef::Ref { reference } => ResponseOrRefModel::Ref(
                ReferenceModel { reference: reference@ },
            ),
        }
    }

    open spec fn fits(json: JsonModel) -> bool {
        match sniffed(json) {
            Sniffed::Pointer(_) => true,
            Sniffed::Malformed => false,
            Sniffed::Inline => Response::fits(json),
        }
    }

    open spec fn decoded(json: JsonModel) -> ResponseOrRefModel {
        match sniffed(json) {
            Sniffed::Pointer(pointer) => ResponseOrRefModel::Ref(
                ReferenceModel { reference: pointer },
            ),
            _ => ResponseOrRefModel::Response(Response::decoded(json)),
        }
    }

    open spec fn encodable(value: ResponseOrRefModel) -> bool {
        match value {
            ResponseOrRefModel::Ref(_) => true,
            ResponseOrRefModel::Response(inner) => Response::encodable(inner),
        }
    }

    open spec fn encoded(value: ResponseOrRefModel) -> JsonModel {
        match value {
            ResponseOrRefModel::Ref(reference) => pointer_object(reference.reference),
            ResponseOrRefModel::Response(inner) => Response::encoded(inner),
        }
    }

    open spec fn valid(value: ResponseOrRefModel) -> bool {
        match value {
            ResponseOrRefModel::Ref(_) => true,
            ResponseOrRefModel::Response(inner) => Response::valid(inner) && sniffed(
                Response::encoded(inner),
            ) is Inline,
        }
    }

    fn decode(json: &Json) -> (res: Result<ResponseOrRef, CodecError>) {
        match sniff(json) {
            Sniff::Pointer(pointer) => Ok(ResponseOrRef::Ref { reference: pointer.clone() }),
            Sniff::Malformed => Err(CodecError::ShapeMismatch),
            Sniff::Inline => match Response::decode(json) {
                Ok(value) => {
                    let Response { description, schema, headers, examples, extensions } = value;
                    Ok(ResponseOrRef::Response { description, schema, headers, examples, extensions })
                },
                Err(error) => Err(error),
            },
        }
    }

    fn encode(&self) -> (res: Result<Json, CodecError>) {
        match self {
            ResponseOrRef::Ref { reference } => Ok(pointer_json(reference)),
            ResponseOrRef::Response { description, schema, headers, examples, extensions } => {
                let writer = ObjectWriter::new();
                let writer = writer.put("description", encode_required::<String>(description)?);
                let writer = writer.put("schema", encode_optional::<Schema>(schema)?);
                let writer = writer.put("headers", encode_optional::<Table<Header>>(headers)?);
                let writer = writer.put("examples", encode_optional::<Table<Json>>(examples)?);
                writer.finish_with(extensions)
            },
        }
    }

    fn duplicate(&self) -> (copy: ResponseOrRef) {
        match self {
            ResponseOrRef::Ref { reference } => ResponseOrRef::Ref { reference: reference.clone() },
            ResponseOrRef::Response { description, schema, headers, examples, extensions } => {
                ResponseOrRef::Response {
                    description: description.duplicate(),
                    schema: duplicate_optional(schema),
                    headers: duplicate_optional(headers),
                    examples: duplicate_optional(examples),
                    extensions: extensions.duplicate(),
                }
            },
        }
    }

    proof fn lemma_round_trip(value: ResponseOrRefModel) {
        match value {
            ResponseOrRefModel::Ref(reference) => {
                lemma_pointer_object_sniffed(reference.reference);
            },
            ResponseOrRefModel::Response(inner) => {
                Response::lemma_round_trip(inner);
            },
        }
    }

    proof fn lemma_read_is_valid(json: JsonModel) {
        if sniffed(json) is Inline {
            Response::lemma_read_is_valid(json);
        }
    }
}

impl Codec for Responses {
    type Model = Seq<EntryModel<ResponseOrRefModel>>;

    open spec fn model(&self) -> Seq<EntryModel<ResponseOrRefModel>> {
        self.0.model()
    }

    open spec fn fits(json: JsonModel) -> bool {
        Table::<ResponseOrRef>::fits(json)
    }

    open spec fn decoded(json: JsonModel) -> Seq<EntryModel<ResponseOrRefModel>> {
        Table::<ResponseOrRef>::decoded(json)
    }

    open spec fn encodable(value: Seq<EntryModel<ResponseOrRefModel>>) -> bool {
        Table::<ResponseOrRef>::encodable(value)
    }

    open spec fn encoded(value: Seq<EntryModel<ResponseOrRefModel>>) -> JsonModel {
        Table::<ResponseOrRef>::encoded(value)
    }

    open spec fn valid(value: Seq<EntryModel<ResponseOrRefModel>>) -> bool {
        Table::<ResponseOrRef>::valid(value)
    }

    fn duplicate(&self) -> (copy: Responses) {
        Responses(self.0.duplicate())
    }

    fn decode(json: &Json) -> (res: Result<Responses, CodecError>) {
        match Table::<ResponseOrRef>::decode(json) {
            Ok(table) => Ok(Responses(table)),
            Err(error) => Err(error),
        }
    }

    fn encode(&self) -> (res: Result<Json, CodecError>) {
        self.0.encode()
    }

    proof fn lemma_round_trip(value: Seq<EntryModel<ResponseOrRefModel>>) {
        Table::<ResponseOrRef>::lemma_round_trip(value);
    }

    proof fn lemma_read_is_valid(json: JsonModel) {
        Table::<ResponseOrRef>::lemma_read_is_valid(json);
    }
}

impl Codec for SecurityRequirementObject {
    type Model = Seq<EntryModel<Seq<Seq<char>>>>;

    open spec fn model(&self) -> Seq<EntryModel<Seq<Seq<char>>>> {
        self.0.model()
    }

    open spec fn fits(json: JsonModel) -> bool {
        Table::<Vec<String>>::fits(json)
    }

    open spec fn decoded(json: JsonModel) -> Seq<EntryModel<Seq<Seq<char>>>> {
        Table::<Vec<String>>::decoded(json)
    }

    open spec fn encodable(value: Seq<EntryModel<Seq<Seq<char>>>>) -> bool {
        Table::<Vec<String>>::encodable(value)
    }

    open spec fn encoded(value: Seq<EntryModel<Seq<Seq<char>>>>) -> JsonModel {
        Table::<Vec<String>>::encoded(value)
    }

    open spec fn valid(value: Seq<EntryModel<Seq<Seq<char>>>>) -> bool {
        Table::<Vec<String>>::valid(value)
    }

    fn duplicate(&self) -> (copy: SecurityRequirementObject) {
        SecurityRequirementObject(self.0.duplicate())
    }

    fn decode(json: &Json) -> (res: Result<SecurityRequirementObject, CodecError>) {
        match Table::<Vec<String>>::decode(json) {
            Ok(table) => Ok(SecurityRequirementObject(table)),
            Err(error) => Err(error),
        }
    }

    fn encode(&self) -> (res: Result<Json, CodecError>) {
        self.0.encode()
    }

    proof fn lemma_round_trip(value: Seq<EntryModel<Seq<Seq<char>>>>) {
        Table::<Vec<String>>::lemma_round_trip(value);
    }

    proof fn lemma_read_is_valid(json: JsonModel) {
        Table::<Vec<String>>::lemma_read_is_valid(json);
    }
}

impl Clone for Reference {
    fn clone(&self) -> (copy: Reference)
        ensures
            copy.model() == self.model(),
    {
        self.duplicate()
    }
}

impl Clone for ParameterOrRef {
    fn clone(&self) -> (copy: ParameterOrRef)
        ensures
            copy.model() == self.model(),
    {
        self.duplicate()
    }
}

impl Clone for ResponseOrRef {
    fn clone(&self) -> (copy: ResponseOrRef)
        ensures
            copy.model() == self.model(),
    {
        self.duplicate()
    }
}

impl Clone for Responses {
    fn clone(&self) -> (copy: Responses)
        ensures
            copy.model() == self.model(),
    {
        self.duplicate()
    }
}

impl Clone for SecurityRequirementObject {
    fn clone(&self) -> (copy: SecurityRequirementObject)
        ensures
            copy.model() == self.model(),
    {
        self.duplicate()
    }
}

} // verus!
