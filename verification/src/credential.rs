//! The bearer credential of a request.
//!
//! A credential header is accepted only as the scheme word `Bearer`, one
//! space, and a token of visible ASCII bytes. Everything else is malformed.

use vstd::prelude::*;
use vstd::string::StringSliceAdditionalSpecFns;
use vstd::string::StrSliceExecFns;
use crate::identity::FailureKind;

verus! {

/// The bytes of `Bearer ` (the scheme word and the separating space).
pub open spec fn scheme_prefix() -> Seq<u8> {
    "Bearer ".spec_bytes()
}

/// A byte that may stand in a token: visible ASCII, so neither a space, a
/// control byte nor anything above 0x7e.
pub open spec fn is_token_byte(b: u8) -> bool {
    0x21 <= b <= 0x7e
}

/// `s` begins with `prefix`.
pub open spec fn has_prefix(s: Seq<u8>, prefix: Seq<u8>) -> bool {
    s.len() >= prefix.len() && s.subrange(0, prefix.len() as int) == prefix
}

/// The header value is a bearer credential: the prefix, then a token that is
/// not empty and holds token bytes only.
pub open spec fn is_bearer(header: Seq<u8>) -> bool {
    &&& has_prefix(header, scheme_prefix())
    &&& header.len() > scheme_prefix().len()
    &&& forall|i: int| scheme_prefix().len() <= i < header.len() ==> is_token_byte(#[trigger] header[i])
}

/// The token of a bearer credential: what follows the prefix.
pub open spec fn bearer_token(header: Seq<u8>) -> Seq<u8> {
    header.subrange(scheme_prefix().len() as int, header.len() as int)
}

/// The scheme prefix byte by byte.
pub proof fn lemma_scheme_prefix_bytes()
    ensures
        scheme_prefix() == seq![0x42u8, 0x65u8, 0x61u8, 0x72u8, 0x65u8, 0x72u8, 0x20u8],
        scheme_prefix().len() == 7,
{
    reveal_strlit("Bearer ");
    vstd::string::is_ascii_spec_bytes("Bearer ");
    assert(vstd::string::is_ascii("Bearer "));
    assert(scheme_prefix() =~= seq![0x42u8, 0x65u8, 0x61u8, 0x72u8, 0x65u8, 0x72u8, 0x20u8]);
}

/// The scheme prefix as bytes.
pub fn scheme_bytes() -> (r: Vec<u8>)
    ensures
        r@ == scheme_prefix(),
{
    "Bearer ".as_bytes_vec()
}

/// Whether `data` begins with `prefix`.
pub fn starts_with(data: &[u8], prefix: &[u8]) -> (r: bool)
    ensures
        r == has_prefix(data@, prefix@),
{
    if data.len() < prefix.len() {
        return false;
    }
    let mut i: usize = 0;
    while i < prefix.len()
        invariant
            i <= prefix.len() <= data.len(),
            forall|j: int| 0 <= j < i ==> data@[j] == prefix@[j],
        decreases prefix.len() - i,
    {
        if data[i] != prefix[i] {
            assert(data@.subrange(0, prefix@.len() as int)[i as int] != prefix@[i as int]);
            return false;
        }
        i += 1;
    }
    assert(data@.subrange(0, prefix@.len() as int) =~= prefix@);
    true
}

/// A copy of `data[from..]`.
pub fn tail_bytes(data: &[u8], from: usize) -> (r: Vec<u8>)
    requires
        from <= data.len(),
    ensures
        r@ == data@.subrange(from as int, data@.len() as int),
{
    let mut out: Vec<u8> = Vec::new();
    let mut i: usize = from;
    while i < data.len()
        invariant
            from <= i <= data.len(),
            out@ == data@.subrange(from as int, i as int),
        decreases data.len() - i,
    {
        out.push(data[i]);
        i += 1;
        assert(out@ =~= data@.subrange(from as int, i as int));
    }
    out
}

/// A bearer credential: the token that a request presented.
#[derive(Debug, Clone, PartialEq, Eq)]
pub struct BearerCredential {
    pub token: Vec<u8>,
}

/// `token` can be the token of a bearer credential: it is not empty and
/// holds token bytes only.
pub open spec fn is_token(token: Seq<u8>) -> bool {
    token.len() > 0 && forall|i: int| 0 <= i < token.len() ==> is_token_byte(#[trigger] token[i])
}

impl BearerCredential {
    /// The credential holds a token.
    pub open spec fn well_formed(&self) -> bool {
        is_token(self.token@)
    }

    /// The header value that presents this credential.
    pub open spec fn header(&self) -> Seq<u8> {
        scheme_prefix() + self.token@
    }

    /// The token.
    pub fn token(&self) -> (r: &Vec<u8>)
        ensures
            r@ == self.token@,
    {
        &self.token
    }

    /// Gives the token out.
    pub fn into_token(self) -> (r: Vec<u8>)
        ensures
            r@ == self.token@,
    {
        self.token
    }

    /// The header value that presents this credential.
    pub fn to_header(&self) -> (r: Vec<u8>)
        ensures
            r@ == self.header(),
    {
        let mut out = scheme_bytes();
        let mut i: usize = 0;
        while i < self.token.len()
            invariant
                i <= self.token.len(),
                out@ == scheme_prefix() + self.token@.subrange(0, i as int),
            decreases self.token.len() - i,
        {
            out.push(self.token[i]);
            i += 1;
            assert(out@ =~= scheme_prefix() + self.token@.subrange(0, i as int));
        }
        assert(self.token@.subrange(0, self.token@.len() as int) =~= self.token@);
        out
    }
}

/// The token of a bearer credential is a token.
pub proof fn lemma_bearer_token_is_token(header: Seq<u8>)
    requires
        is_bearer(header),
    ensures
        is_token(bearer_token(header)),
        header == scheme_prefix() + bearer_token(header),
{
    let token = bearer_token(header);
    let n = scheme_prefix().len() as int;
    assert forall|i: int| 0 <= i < token.len() implies is_token_byte(#[trigger] token[i]) by {
        assert(token[i] == header[n + i]);
    }
    assert(header =~= header.subrange(0, n) + token);
}

/// A header of seven bytes or fewer has no room for a token behind the
/// prefix, so it is no bearer credential; `Bearer` alone is one such header.
pub proof fn lemma_short_header_is_malformed(header: Seq<u8>)
    requires
        header.len() <= 7,
    ensures
        !is_bearer(header),
{
    lemma_scheme_prefix_bytes();
}

/// Every token, put behind the scheme prefix, makes a bearer credential with
/// that token: reading a header undoes writing it.
pub proof fn lemma_header_of_token_is_bearer(token: Seq<u8>)
    requires
        is_token(token),
    ensures
        is_bearer(scheme_prefix() + token),
        bearer_token(scheme_prefix() + token) == token,
{
    let header = scheme_prefix() + token;
    let n = scheme_prefix().len() as int;
    assert(header.subrange(0, n) =~= scheme_prefix());
    assert(header.subrange(n, header.len() as int) =~= token);
    assert forall|i: int| n <= i < header.len() implies is_token_byte(#[trigger] header[i]) by {
        assert(header[i] == token[i - n]);
    }
}

/// Reads the credential out of a credential header.
///
/// Succeeds exactly on bearer credentials, with the token; every other header
/// value is a malformed credential.
pub fn parse_bearer(header: &[u8]) -> (r: Result<BearerCredential, FailureKind>)
    ensures
        match r {
            Ok(credential) => is_bearer(header@) && credential.token@ == bearer_token(header@)
                && credential.well_formed(),
            Err(e) => !is_bearer(header@) && e == FailureKind::MalformedCredential,
        },
{
    let prefix = scheme_bytes();
    if !starts_with(header, prefix.as_slice()) {
        return Err(FailureKind::MalformedCredential);
    }
    let start: usize = prefix.len();
    if header.len() == start {
        return Err(FailureKind::MalformedCredential);
    }
    let mut i: usize = start;
    while i < header.len()
        invariant
            start == scheme_prefix().len(),
            start <= i <= header.len(),
            forall|j: int| start <= j < i ==> is_token_byte(#[trigger] header@[j]),
        decreases header.len() - i,
    {
        let b: u8 = header[i];
        if b < 0x21 || b > 0x7e {
            return Err(FailureKind::MalformedCredential);
        }
        i += 1;
    }
    proof {
        lemma_bearer_token_is_token(header@);
    }
    Ok(BearerCredential { token: tail_bytes(header, start) })
}

} // verus!
