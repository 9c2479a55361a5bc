//! What is exchanged with the cluster API, and how its answers are read.
//!
//! Requests are kept as structured values; replies are a status code and a
//! JSON body. Two readings of a body are kept strictly apart: a field that is
//! missing or of the wrong type is an answer (the tolerant path), while a
//! reply that never came, came with a failure status or does not parse is a
//! fault of the cluster (the fatal path).

use vstd::prelude::*;
use crate::identity::FailureKind;

verus! {

/// A call to the cluster API.
#[derive(Debug, Clone, PartialEq, Eq)]
pub enum ClusterRequest {
    /// Ask the authentication API to review a bearer token.
    TokenReview { token: Vec<u8> },
    /// Fetch the service identity `name` in `namespace`.
    ServiceIdentity { namespace: Vec<u8>, name: Vec<u8> },
}

/// A request as a mathematical value.
pub enum RequestModel {
    TokenReview { token: Seq<u8> },
    ServiceIdentity { namespace: Seq<u8>, name: Seq<u8> },
}

impl View for ClusterRequest {
    type V = RequestModel;

    open spec fn view(&self) -> RequestModel {
        match *self {
            ClusterRequest::TokenReview { token } => RequestModel::TokenReview { token: token@ },
            ClusterRequest::ServiceIdentity { namespace, name } => RequestModel::ServiceIdentity {
                namespace: namespace@,
                name: name@,
            },
        }
    }
}

/// What came back from a call.
#[derive(Debug, Clone, PartialEq, Eq)]
pub enum ClusterReply {
    /// No response was obtained at all.
    Unreachable,
    /// A response with its status code and body.
    Response { status: u16, body: Vec<u8> },
}

/// A reply as a mathematical value.
pub enum ReplyModel {
    Unreachable,
    Response { status: u16, body: Seq<u8> },
}

impl View for ClusterReply {
    type V = ReplyModel;

    open spec fn view(&self) -> ReplyModel {
        match *self {
            ClusterReply::Unreachable => ReplyModel::Unreachable,
            ClusterReply::Response { status, body } => ReplyModel::Response { status, body: body@ },
        }
    }
}

/// What a token review said.
#[derive(Debug, Clone, PartialEq, Eq)]
pub struct TokenReviewOutcome {
    pub authenticated: bool,
    pub asserted_user: Option<Vec<u8>>,
}

/// A token review outcome as a mathematical value.
pub struct OutcomeModel {
    pub authenticated: bool,
    pub asserted_user: Option<Seq<u8>>,
}

impl View for TokenReviewOutcome {
    type V = OutcomeModel;

    open spec fn view(&self) -> OutcomeModel {
        OutcomeModel { authenticated: self.authenticated, asserted_user: bytes_model(self.asserted_user) }
    }
}

/// What the logic reads of a fetched service identity.
#[derive(Debug, Clone, PartialEq, Eq)]
pub struct ClusterServiceIdentity {
    /// The name the cluster knows the identity by.
    pub name: Vec<u8>,
    /// The value of the annotation that keeps the module's original name.
    pub original_module_id: Option<Vec<u8>>,
}

/// A service identity as a mathematical value.
pub struct ServiceIdentityModel {
    pub name: Seq<u8>,
    pub original_module_id: Option<Seq<u8>>,
}

impl View for ClusterServiceIdentity {
    type V = ServiceIdentityModel;

    open spec fn view(&self) -> ServiceIdentityModel {
        ServiceIdentityModel {
            name: self.name@,
            original_module_id: bytes_model(self.original_module_id),
        }
    }
}

/// An optional byte string as a mathematical value.
pub open spec fn bytes_model(o: Option<Vec<u8>>) -> Option<Seq<u8>> {
    match o {
        Some(v) => Some(v@),
        None => None,
    }
}

/// What a JSON document holds at some place where a string is looked for.
#[derive(Debug, Clone, PartialEq, Eq)]
pub enum TextField {
    /// Nothing is there.
    Missing,
    /// Something is there, and it is no string.
    Mistyped,
    /// The UTF-8 bytes of the string that is there.
    Text(Vec<u8>),
}

/// A text field as a mathematical value.
pub enum FieldModel {
    Missing,
    Mistyped,
    Text(Seq<u8>),
}

impl View for TextField {
    type V = FieldModel;

    open spec fn view(&self) -> FieldModel {
        match *self {
            TextField::Missing => FieldModel::Missing,
            TextField::Mistyped => FieldModel::Mistyped,
            TextField::Text(text) => FieldModel::Text(text@),
        }
    }
}

/// The status codes that count as an answer.
pub open spec fn is_success(status: u16) -> bool {
    200 <= status < 300
}

/// Where a token review keeps its verdict.
pub open spec fn authenticated_pointer() -> Seq<char> {
    "/status/authenticated"@
}

/// Where a token review keeps the user it asserts.
pub open spec fn username_pointer() -> Seq<char> {
    "/status/user/username"@
}

/// Where a service identity keeps its name.
pub open spec fn name_pointer() -> Seq<char> {
    "/metadata/name"@
}

/// Where a service identity keeps the module's original name: the annotation
/// `net.azure-devices.edge.original-moduleid`.
pub open spec fn original_module_id_pointer() -> Seq<char> {
    "/metadata/annotations/net.azure-devices.edge.original-moduleid"@
}

#[verifier::external_type_specification]
#[verifier::external_body]
pub struct ExJsonValue(serde_json::Value);

/// A JSON value as a mathematical value. Of a number only that it is one is
/// kept; a string is kept as its UTF-8 bytes.
pub enum JsonModel {
    Null,
    Bool(bool),
    Number,
    Text(Seq<u8>),
    List(Seq<JsonModel>),
    Object(Map<Seq<char>, JsonModel>),
}

/// What a `serde_json::Value` holds.
pub uninterp spec fn json_model(value: serde_json::Value) -> JsonModel;

/// The JSON document that `body` spells, where it spells one.
pub uninterp spec fn json_document(body: Seq<u8>) -> Option<JsonModel>;

/// The value that a JSON document holds at a JSON pointer, where it holds
/// one there.
pub uninterp spec fn json_target(document: JsonModel, pointer: Seq<char>) -> Option<JsonModel>;

/// What is there, where something is, as a mathematical value.
pub open spec fn target_model(target: Option<&serde_json::Value>) -> Option<JsonModel> {
    match target {
        Some(value) => Some(json_model(*value)),
        None => None,
    }
}

/// Parses `body` with `serde_json::from_slice`, as a `serde_json::Value`.
/// Trusted: whether a document comes out, and what it holds, is a function
/// of the bytes, named `json_document`; `None` stands for every error of the
/// parser.
#[verifier::external_body]
fn parse_document(body: &[u8]) -> (r: Option<serde_json::Value>)
    ensures
        match r {
            Some(document) => json_document(body@) == Some(json_model(document)),
            None => json_document(body@) is None,
        },
{
    serde_json::from_slice(body).ok()
}

/// Looks `pointer` up in `document` with `serde_json::Value::pointer`.
/// Trusted: whether something is there, and what it holds, is a function of
/// what the document holds and of the pointer, named `json_target`.
#[verifier::external_body]
fn lookup<'a>(document: &'a serde_json::Value, pointer: &str) -> (r: Option<&'a serde_json::Value>)
    ensures
        target_model(r) == json_target(json_model(*document), pointer@),
{
    document.pointer(pointer)
}

/// Reads `value` as a boolean with `serde_json::Value::as_bool`. Trusted: a
/// boolean gives itself, every other value `None`.
#[verifier::external_body]
fn as_flag(value: &serde_json::Value) -> (r: Option<bool>)
    ensures
        r == match json_model(*value) {
            JsonModel::Bool(b) => Some(b),
            _ => None,
        },
{
    value.as_bool()
}

/// Reads `value` as a string with `serde_json::Value::as_str` and hands out
/// the string's bytes. Trusted: a string gives its bytes, every other value
/// `None`.
#[verifier::external_body]
fn as_text(value: &serde_json::Value) -> (r: Option<Vec<u8>>)
    ensures
        bytes_model(r) == match json_model(*value) {
            JsonModel::Text(text) => Some(text),
            _ => None,
        },
{
    value.as_str().map(|text| text.as_bytes().to_vec())
}

/// The boolean that `document` holds at `pointer`. Reading is tolerant:
/// nothing there and no boolean there are both `None`.
pub open spec fn flag_in(document: JsonModel, pointer: Seq<char>) -> Option<bool> {
    match json_target(document, pointer) {
        Some(JsonModel::Bool(b)) => Some(b),
        _ => None,
    }
}

/// The text that `document` holds at `pointer`.
pub open spec fn text_in(document: JsonModel, pointer: Seq<char>) -> FieldModel {
    match json_target(document, pointer) {
        None => FieldModel::Missing,
        Some(JsonModel::Text(text)) => FieldModel::Text(text),
        Some(_) => FieldModel::Mistyped,
    }
}

/// Reads the boolean at `pointer`.
pub fn read_flag(document: &serde_json::Value, pointer: &str) -> (r: Option<bool>)
    ensures
        r == flag_in(json_model(*document), pointer@),
{
    match lookup(document, pointer) {
        Some(target) => as_flag(target),
        None => None,
    }
}

/// Reads the text at `pointer`.
pub fn read_text(document: &serde_json::Value, pointer: &str) -> (r: TextField)
    ensures
        r@ == text_in(json_model(*document), pointer@),
{
    match lookup(document, pointer) {
        None => TextField::Missing,
        Some(target) => match as_text(target) {
            Some(text) => TextField::Text(text),
            None => TextField::Mistyped,
        },
    }
}

/// The outcome that the two fields of a token review stand for. The reading
/// is tolerant: a verdict that is missing or no boolean counts as "not
/// authenticated", and a user that is missing or no string as none.
pub open spec fn outcome_of_fields(flag: Option<bool>, user: FieldModel) -> OutcomeModel {
    OutcomeModel {
        authenticated: flag == Some(true),
        asserted_user: match user {
            FieldModel::Text(name) => Some(name),
            _ => None,
        },
    }
}

/// The outcome that a token review document stands for.
pub open spec fn review_of_document_spec(document: JsonModel) -> OutcomeModel {
    outcome_of_fields(
        flag_in(document, authenticated_pointer()),
        text_in(document, username_pointer()),
    )
}

/// The reading of a token review reply. Only a reply with a success status
/// whose body is a JSON document is an answer; every other is a fault.
pub open spec fn review_outcome_spec(reply: ReplyModel) -> Result<OutcomeModel, FailureKind> {
    match reply {
        ReplyModel::Unreachable => Err(FailureKind::ClusterUnavailable),
        ReplyModel::Response { status, body } => if is_success(status) && json_document(body) is Some {
            Ok(review_of_document_spec(json_document(body)->0))
        } else {
            Err(FailureKind::ClusterUnavailable)
        },
    }
}

/// A token review outcome, or the failure, as a mathematical value.
pub open spec fn review_model(r: Result<TokenReviewOutcome, FailureKind>) -> Result<
    OutcomeModel,
    FailureKind,
> {
    match r {
        Ok(o) => Ok(o@),
        Err(e) => Err(e),
    }
}

/// The token review outcome that the two fields stand for.
pub fn outcome_from_fields(flag: Option<bool>, user: TextField) -> (r: TokenReviewOutcome)
    ensures
        r@ == outcome_of_fields(flag, user@),
{
    let authenticated = match flag {
        Some(verdict) => verdict,
        None => false,
    };
    let asserted_user = match user {
        TextField::Text(name) => Some(name),
        _ => None,
    };
    TokenReviewOutcome { authenticated, asserted_user }
}

/// Reads a token review document.
pub fn review_of_document(document: &serde_json::Value) -> (r: TokenReviewOutcome)
    ensures
        r@ == review_of_document_spec(json_model(*document)),
{
    let flag = read_flag(document, "/status/authenticated");
    let user = read_text(document, "/status/user/username");
    outcome_from_fields(flag, user)
}

/// Reads the reply to a token review.
pub fn review_outcome(reply: &ClusterReply) -> (r: Result<TokenReviewOutcome, FailureKind>)
    ensures
        review_model(r) == review_outcome_spec(reply@),
{
    match reply {
        ClusterReply::Unreachable => Err(FailureKind::ClusterUnavailable),
        ClusterReply::Response { status, body } => {
            if *status < 200 || *status >= 300 {
                return Err(FailureKind::ClusterUnavailable);
            }
            match parse_document(body.as_slice()) {
                Some(document) => Ok(review_of_document(&document)),
                None => Err(FailureKind::ClusterUnavailable),
            }
        },
    }
}

/// The service identity that the two fields stand for. The reading is
/// strict: the name must be there, and both must be strings where they are
/// there; anything else is a fault of the cluster.
pub open spec fn service_identity_of_fields(name: FieldModel, original: FieldModel) -> Result<
    ServiceIdentityModel,
    FailureKind,
> {
    match (name, original) {
        (FieldModel::Text(name), FieldModel::Text(original)) => Ok(
            ServiceIdentityModel { name, original_module_id: Some(original) },
        ),
        (FieldModel::Text(name), FieldModel::Missing) => Ok(
            ServiceIdentityModel { name, original_module_id: None },
        ),
        _ => Err(FailureKind::ClusterUnavailable),
    }
}

/// The service identity that a document stands for.
pub open spec fn service_identity_of_document_spec(document: JsonModel) -> Result<
    ServiceIdentityModel,
    FailureKind,
> {
    service_identity_of_fields(
        text_in(document, name_pointer()),
        text_in(document, original_module_id_pointer()),
    )
}

/// The reading of a service identity reply.
pub open spec fn service_identity_spec(reply: ReplyModel) -> Result<
    ServiceIdentityModel,
    FailureKind,
> {
    match reply {
        ReplyModel::Unreachable => Err(FailureKind::ClusterUnavailable),
        ReplyModel::Response { status, body } => if is_success(status) && json_document(body) is Some {
            service_identity_of_document_spec(json_document(body)->0)
        } else {
            Err(FailureKind::ClusterUnavailable)
        },
    }
}

/// A service identity, or the failure, as a mathematical value.
pub open spec fn service_identity_model(r: Result<ClusterServiceIdentity, FailureKind>) -> Result<
    ServiceIdentityModel,
    FailureKind,
> {
    match r {
        Ok(s) => Ok(s@),
        Err(e) => Err(e),
    }
}

/// The service identity that the two fields stand for.
pub fn service_identity_from_fields(name: TextField, original: TextField) -> (r: Result<
    ClusterServiceIdentity,
    FailureKind,
>)
    ensures
        service_identity_model(r) == service_identity_of_fields(name@, original@),
{
    match (name, original) {
        (TextField::Text(name), TextField::Text(original)) => Ok(
            ClusterServiceIdentity { name, original_module_id: Some(original) },
        ),
        (TextField::Text(name), TextField::Missing) => Ok(
            ClusterServiceIdentity { name, original_module_id: None },
        ),
        _ => Err(FailureKind::ClusterUnavailable),
    }
}

/// Reads a service identity document.
pub fn service_identity_of_document(document: &serde_json::Value) -> (r: Result<
    ClusterServiceIdentity,
    FailureKind,
>)
    ensures
        service_identity_model(r) == service_identity_of_document_spec(json_model(*document)),
{
    let name = read_text(document, "/metadata/name");
    let original = read_text(
        document,
        "/metadata/annotations/net.azure-devices.edge.original-moduleid",
    );
    service_identity_from_fields(name, original)
}

/// Reads the reply to a service identity fetch.
pub fn service_identity(reply: &ClusterReply) -> (r: Result<ClusterServiceIdentity, FailureKind>)
    ensures
        service_identity_model(r) == service_identity_spec(reply@),
{
    match reply {
        ClusterReply::Unreachable => Err(FailureKind::ClusterUnavailable),
        ClusterReply::Response { status, body } => {
            if *status < 200 || *status >= 300 {
                return Err(FailureKind::ClusterUnavailable);
            }
            match parse_document(body.as_slice()) {
                Some(document) => service_identity_of_document(&document),
                None => Err(FailureKind::ClusterUnavailable),
            }
        },
    }
}

} // verus!
