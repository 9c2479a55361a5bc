//! The address of the management API's module list.

use vstd::prelude::*;
use vstd::string::StringExecFns;

verus! {

#[verifier::external_type_specification]
#[verifier::external_body]
pub struct ExUrl(url::Url);

#[verifier::external_type_specification]
#[verifier::external_body]
pub struct ExParseError(url::ParseError);

/// The address could not be used.
#[derive(Debug, Clone, Copy, PartialEq, Eq, Structural)]
pub enum AddressError {
    /// The text is no absolute URL.
    Invalid,
}

/// The text of the module list's address, for the management API at
/// `management_uri` and the API version `api_version`.
pub open spec fn modules_address(management_uri: Seq<char>, api_version: Seq<char>) -> Seq<char> {
    management_uri + "/modules/?api-version="@ + api_version
}

/// The text that a URL is written as.
pub uninterp spec fn url_text(url: url::Url) -> Seq<char>;

/// The text of the absolute URL that `text` spells, in the form that the
/// parser brings it to; `None` where `text` spells none.
pub uninterp spec fn normal_url(text: Seq<char>) -> Option<Seq<char>>;

/// Parses `text` with `url::Url::parse`. Trusted: whether a URL comes out,
/// and which, is a function of the text, named `normal_url`; an error stands
/// for a text that is no absolute URL.
#[verifier::external_body]
fn parse_url(text: &str) -> (r: Result<url::Url, url::ParseError>)
    ensures
        match r {
            Ok(url) => normal_url(text@) == Some(url_text(url)),
            Err(_) => normal_url(text@) is None,
        },
{
    url::Url::parse(text)
}

/// The text of the module list's address.
pub fn modules_address_text(management_uri: &str, api_version: &str) -> (r: String)
    ensures
        r@ == modules_address(management_uri@, api_version@),
{
    let mut text = String::from_str(management_uri);
    text.append("/modules/?api-version=");
    text.append(api_version);
    text
}

/// The URL that `text` spells, or the error where it spells none.
pub open spec fn is_url_of(r: Result<url::Url, AddressError>, text: Seq<char>) -> bool {
    match r {
        Ok(url) => normal_url(text) == Some(url_text(url)),
        Err(e) => normal_url(text) is None && e == AddressError::Invalid,
    }
}

/// The URL that `text` spells, where it spells one.
pub fn checked_url(text: &str) -> (r: Result<url::Url, AddressError>)
    ensures
        is_url_of(r, text@),
{
    match parse_url(text) {
        Ok(url) => Ok(url),
        Err(_) => Err(AddressError::Invalid),
    }
}

/// The URL of the module list.
pub fn modules_url(management_uri: &str, api_version: &str) -> (r: Result<url::Url, AddressError>)
    ensures
        is_url_of(r, modules_address(management_uri@, api_version@)),
{
    let text = modules_address_text(management_uri, api_version);
    checked_url(text.as_str())
}

} // verus!
