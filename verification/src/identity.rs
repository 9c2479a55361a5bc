//! The values that identity resolution produces and fails with.

use vstd::prelude::*;

verus! {

/// Why an authentication attempt failed.
#[derive(Debug, Clone, Copy, PartialEq, Eq, Structural)]
pub enum FailureKind {
    /// The request carried a credential that is not a bearer credential.
    MalformedCredential,
    /// The cluster could not be asked, or answered with something unusable.
    ClusterUnavailable,
}

/// The identity established for one request. `Anonymous` is a result, not a
/// failure: nobody was identified.
#[derive(Debug, Clone, PartialEq, Eq)]
pub enum ResolvedIdentity {
    Anonymous,
    /// The module identity, as the bytes of its name.
    Named(Vec<u8>),
}

/// A resolved identity as a mathematical value.
pub enum IdentityModel {
    Anonymous,
    Named(Seq<u8>),
}

impl View for ResolvedIdentity {
    type V = IdentityModel;

    open spec fn view(&self) -> IdentityModel {
        match *self {
            ResolvedIdentity::Anonymous => IdentityModel::Anonymous,
            ResolvedIdentity::Named(name) => IdentityModel::Named(name@),
        }
    }
}

/// What an attempt ends with: an identity or a failure.
pub type AuthResult = Result<ResolvedIdentity, FailureKind>;

/// The result of an attempt as a mathematical value.
pub open spec fn result_model(r: AuthResult) -> Result<IdentityModel, FailureKind> {
    match r {
        Ok(id) => Ok(id@),
        Err(e) => Err(e),
    }
}

impl ResolvedIdentity {
    /// The name, where one was established.
    pub fn name(&self) -> (r: Option<&Vec<u8>>)
        ensures
            match r {
                Some(n) => self@ == IdentityModel::Named(n@),
                None => self@ == IdentityModel::Anonymous,
            },
    {
        match self {
            ResolvedIdentity::Anonymous => None,
            ResolvedIdentity::Named(n) => Some(n),
        }
    }
}

} // verus!
