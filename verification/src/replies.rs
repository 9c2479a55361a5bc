//! What the dashboard answers: a status code, a content type where one is
//! set, and a body of text.

use vstd::prelude::*;
use vstd::string::StringExecFns;
use crate::logs::{log_text, log_text_spec};

verus! {

/// An answer of the dashboard.
#[derive(Debug, PartialEq, Eq)]
pub struct Reply {
    pub status: u16,
    pub content_type: Option<String>,
    pub body: String,
}

/// An answer as a mathematical value.
pub struct ReplyText {
    pub status: u16,
    pub content_type: Option<Seq<char>>,
    pub body: Seq<char>,
}

impl View for Reply {
    type V = ReplyText;

    open spec fn view(&self) -> ReplyText {
        ReplyText {
            status: self.status,
            content_type: match self.content_type {
                Some(t) => Some(t@),
                None => None,
            },
            body: self.body@,
        }
    }
}

pub const OK: u16 = 200;

pub const BAD_REQUEST: u16 = 400;

pub const SERVICE_UNAVAILABLE: u16 = 503;

/// The answer to a request that names no module.
pub fn invalid_module_reply() -> (r: Reply)
    ensures
        r@ == (ReplyText { status: BAD_REQUEST, content_type: None, body: "Invalid module ID"@ }),
{
    Reply { status: BAD_REQUEST, content_type: None, body: String::from_str("Invalid module ID") }
}

/// The answer where the device's configuration could not be read: `detail`
/// says why, as plain text.
pub fn unavailable_reply(detail: String) -> (r: Reply)
    ensures
        r@ == (ReplyText {
            status: SERVICE_UNAVAILABLE,
            content_type: Some("text/plain"@),
            body: detail@,
        }),
{
    Reply {
        status: SERVICE_UNAVAILABLE,
        content_type: Some(String::from_str("text/plain")),
        body: detail,
    }
}

/// The answer after a module was restarted.
pub fn restarted_reply() -> (r: Reply)
    ensures
        r@ == (ReplyText { status: OK, content_type: None, body: "Module has restarted"@ }),
{
    Reply { status: OK, content_type: None, body: String::from_str("Module has restarted") }
}

/// The answer that carries a module's logs, read from the chunks of its log
/// stream.
pub fn logs_reply(chunks: &Vec<Vec<u8>>) -> (r: Reply)
    ensures
        r@ == (ReplyText { status: OK, content_type: None, body: log_text_spec(chunks@) }),
{
    Reply { status: OK, content_type: None, body: log_text(chunks) }
}

/// An answer in JSON: the document where there is one, else `apology` with
/// the status "service unavailable".
pub open spec fn json_reply_spec(document: Option<Seq<char>>, apology: Seq<char>) -> ReplyText {
    match document {
        Some(json) => ReplyText { status: OK, content_type: Some("text/json"@), body: json },
        None => ReplyText { status: SERVICE_UNAVAILABLE, content_type: None, body: apology },
    }
}

/// A document, where there is one, as a mathematical value.
pub open spec fn document_text(document: Option<String>) -> Option<Seq<char>> {
    match document {
        Some(json) => Some(json@),
        None => None,
    }
}

/// An answer in JSON.
pub fn json_reply(document: Option<String>, apology: &str) -> (r: Reply)
    ensures
        r@ == json_reply_spec(document_text(document), apology@),
{
    match document {
        Some(json) => Reply {
            status: OK,
            content_type: Some(String::from_str("text/json")),
            body: json,
        },
        None => Reply {
            status: SERVICE_UNAVAILABLE,
            content_type: None,
            body: String::from_str(apology),
        },
    }
}

/// The answer with the module list, given the list as JSON where it could be
/// written as such.
pub fn module_response(document: Option<String>) -> (r: Reply)
    ensures
        r@ == json_reply_spec(document_text(document), "Unable to convert output to JSON"@),
{
    json_reply(document, "Unable to convert output to JSON")
}

/// The answer with the device's health, given the health as JSON where it
/// could be written as such.
pub fn health_response(document: Option<String>) -> (r: Reply)
    ensures
        r@ == json_reply_spec(document_text(document), "Unable to convert to JSON"@),
{
    json_reply(document, "Unable to convert to JSON")
}

} // verus!
