//! From the user that the cluster asserts to a module identity.
//!
//! Only a user of the form `system:serviceaccount:<namespace>:<name>` denotes
//! a workload. Its service identity is then looked up by `<name>`, and the
//! module identity is the original name kept in an annotation, or else the
//! name that was fetched.

use vstd::prelude::*;
use vstd::string::StringSliceAdditionalSpecFns;
use vstd::string::StrSliceExecFns;
use crate::cluster::{ClusterServiceIdentity, ServiceIdentityModel};
use crate::credential::{has_prefix, starts_with, tail_bytes};
use crate::identity::{IdentityModel, ResolvedIdentity};

verus! {

/// The byte that separates the parts of an asserted user: `:`.
pub const SEPARATOR: u8 = 0x3a;

/// The bytes of `system:serviceaccount:`, which every service account's user
/// name begins with.
pub open spec fn account_prefix() -> Seq<u8> {
    "system:serviceaccount:".spec_bytes()
}

/// `user` is the prefix, a namespace, one separator at index `at` and a name,
/// where neither the namespace nor the name is empty or holds a separator.
pub open spec fn splits_at(user: Seq<u8>, at: int) -> bool {
    &&& has_prefix(user, account_prefix())
    &&& account_prefix().len() < at < user.len() - 1
    &&& user[at] == SEPARATOR
    &&& forall|j: int|
        account_prefix().len() <= j < user.len() && j != at ==> #[trigger] user[j] != SEPARATOR
}

/// `user` has the form `system:serviceaccount:<namespace>:<name>`.
pub open spec fn is_service_account(user: Seq<u8>) -> bool {
    exists|at: int| splits_at(user, at)
}

/// The index of the separator between namespace and name.
pub open spec fn name_separator(user: Seq<u8>) -> int {
    choose|at: int| splits_at(user, at)
}

/// The `<name>` part of a service account's user name.
pub open spec fn account_name(user: Seq<u8>) -> Seq<u8> {
    user.subrange(name_separator(user) + 1, user.len() as int)
}

/// The `<namespace>` part of a service account's user name.
pub open spec fn account_namespace(user: Seq<u8>) -> Seq<u8> {
    user.subrange(account_prefix().len() as int, name_separator(user))
}

/// A user name splits in one place at most.
pub proof fn lemma_split_is_unique(user: Seq<u8>, a: int, b: int)
    requires
        splits_at(user, a),
        splits_at(user, b),
    ensures
        a == b,
{
    if a != b {
        assert(user[a] != SEPARATOR);
    }
}

/// The index of the first separator in `data[from..]`, or `data.len()`.
fn find_separator(data: &[u8], from: usize) -> (r: usize)
    requires
        from <= data.len(),
    ensures
        from <= r <= data.len(),
        r < data.len() ==> data@[r as int] == SEPARATOR,
        forall|j: int| from <= j < r ==> #[trigger] data@[j] != SEPARATOR,
{
    let mut i: usize = from;
    while i < data.len() && data[i] != SEPARATOR
        invariant
            from <= i <= data.len(),
            forall|j: int| from <= j < i ==> #[trigger] data@[j] != SEPARATOR,
        decreases data.len() - i,
    {
        i += 1;
    }
    i
}

/// The name of the service account that `user` denotes.
///
/// `Some` exactly where `user` has the form
/// `system:serviceaccount:<namespace>:<name>`, with the bytes of `<name>`.
pub fn service_account_name(user: &[u8]) -> (r: Option<Vec<u8>>)
    ensures
        match r {
            Some(name) => is_service_account(user@) && name@ == account_name(user@),
            None => !is_service_account(user@),
        },
{
    let prefix = "system:serviceaccount:".as_bytes_vec();
    if !starts_with(user, prefix.as_slice()) {
        return None;
    }
    let start: usize = prefix.len();
    let at: usize = find_separator(user, start);
    if at == start || at >= user.len() - 1 {
        assert forall|k: int| !splits_at(user@, k) by {
            if splits_at(user@, k) {
                if at < user.len() {
                    assert(user@[at as int] == SEPARATOR);
                } else {
                    assert(user@[k] == SEPARATOR);
                }
            }
        }
        return None;
    }
    let end: usize = find_separator(user, at + 1);
    if end < user.len() {
        assert forall|k: int| !splits_at(user@, k) by {
            if splits_at(user@, k) {
                assert(user@[at as int] == SEPARATOR);
                assert(user@[end as int] == SEPARATOR);
            }
        }
        return None;
    }
    proof {
        assert(splits_at(user@, at as int));
        lemma_split_is_unique(user@, at as int, name_separator(user@));
    }
    Some(tail_bytes(user, at + 1))
}

/// The module identity that a service identity stands for: the original
/// module name where the annotation keeps one, else the fetched name.
pub open spec fn module_identity_spec(account: ServiceIdentityModel) -> IdentityModel {
    match account.original_module_id {
        Some(original) => IdentityModel::Named(original),
        None => IdentityModel::Named(account.name),
    }
}

/// The module identity of a fetched service identity.
pub fn module_identity(account: ClusterServiceIdentity) -> (r: ResolvedIdentity)
    ensures
        r@ == module_identity_spec(account@),
{
    match account.original_module_id {
        Some(original) => ResolvedIdentity::Named(original),
        None => ResolvedIdentity::Named(account.name),
    }
}

} // verus!
