//! What holds of every authentication attempt.
//!
//! Each statement is about `attempt_matches`, the relation that `authenticate`
//! ensures between a credential, the calls made and the result, so it holds
//! of every run of `authenticate`, against any cluster.

use vstd::prelude::*;
use crate::authenticator::{
    advance_spec, attempt_matches, begin_spec, resolve_spec, state_after, ActionModel, AuthState,
};
use crate::cluster::{
    is_success, json_document, review_outcome_spec, service_identity_spec, ReplyModel,
    RequestModel,
};
use crate::credential::{bearer_token, is_bearer};
use crate::identity::{FailureKind, IdentityModel};
use crate::resolver::{account_name, is_service_account, module_identity_spec};

verus! {

/// A reply that is a fault of the cluster: none at all, or one with a
/// failure status.
pub open spec fn is_fault(reply: ReplyModel) -> bool {
    match reply {
        ReplyModel::Unreachable => true,
        ReplyModel::Response { status, body } => !is_success(status),
    }
}

/// A request without a credential is anonymous, and no call is made for it.
pub proof fn no_credential_is_anonymous(
    namespace: Seq<u8>,
    made: Seq<(RequestModel, ReplyModel)>,
    result: Result<IdentityModel, FailureKind>,
)
    requires
        attempt_matches(None, namespace, made, result),
    ensures
        result == Ok::<IdentityModel, FailureKind>(IdentityModel::Anonymous),
        made.len() == 0,
{
}

/// A credential that is no bearer credential fails as malformed, and no call
/// is made for it.
pub proof fn malformed_credential_fails_without_calls(
    header: Seq<u8>,
    namespace: Seq<u8>,
    made: Seq<(RequestModel, ReplyModel)>,
    result: Result<IdentityModel, FailureKind>,
)
    requires
        !is_bearer(header),
        attempt_matches(Some(header), namespace, made, result),
    ensures
        result == Err::<IdentityModel, FailureKind>(FailureKind::MalformedCredential),
        made.len() == 0,
{
}

/// The result for a malformed credential does not depend on the cluster: two
/// attempts on it end alike, whatever namespace they run in and whatever
/// either cluster would have answered.
pub proof fn malformed_credential_ignores_cluster(
    header: Seq<u8>,
    namespace_a: Seq<u8>,
    made_a: Seq<(RequestModel, ReplyModel)>,
    result_a: Result<IdentityModel, FailureKind>,
    namespace_b: Seq<u8>,
    made_b: Seq<(RequestModel, ReplyModel)>,
    result_b: Result<IdentityModel, FailureKind>,
)
    requires
        !is_bearer(header),
        attempt_matches(Some(header), namespace_a, made_a, result_a),
        attempt_matches(Some(header), namespace_b, made_b, result_b),
    ensures
        result_a == result_b,
        made_a == made_b,
{
    assert(made_a =~= made_b);
}

/// A bearer credential has its token, and nothing else, sent for review as
/// the first call.
pub proof fn bearer_token_is_reviewed(
    header: Seq<u8>,
    namespace: Seq<u8>,
    made: Seq<(RequestModel, ReplyModel)>,
    result: Result<IdentityModel, FailureKind>,
)
    requires
        is_bearer(header),
        attempt_matches(Some(header), namespace, made, result),
    ensures
        made.len() >= 1,
        made[0].0 == (RequestModel::TokenReview { token: bearer_token(header) }),
{
}

/// Where the review says "not authenticated", or asserts no user, the caller
/// is anonymous and no identity is fetched.
pub proof fn rejected_token_is_anonymous(
    header: Seq<u8>,
    namespace: Seq<u8>,
    made: Seq<(RequestModel, ReplyModel)>,
    result: Result<IdentityModel, FailureKind>,
)
    requires
        is_bearer(header),
        attempt_matches(Some(header), namespace, made, result),
        made.len() >= 1 ==> {
            &&& review_outcome_spec(made[0].1) is Ok
            &&& (!review_outcome_spec(made[0].1)->Ok_0.authenticated || review_outcome_spec(
                made[0].1,
            )->Ok_0.asserted_user is None)
        },
    ensures
        result == Ok::<IdentityModel, FailureKind>(IdentityModel::Anonymous),
        made.len() == 1,
{
}

/// Where the review asserts a user that is no service account, the caller is
/// anonymous and no identity is fetched.
pub proof fn unrecognised_user_is_anonymous(
    header: Seq<u8>,
    namespace: Seq<u8>,
    made: Seq<(RequestModel, ReplyModel)>,
    result: Result<IdentityModel, FailureKind>,
)
    requires
        is_bearer(header),
        attempt_matches(Some(header), namespace, made, result),
        made.len() >= 1 ==> {
            &&& review_outcome_spec(made[0].1) is Ok
            &&& review_outcome_spec(made[0].1)->Ok_0.asserted_user is Some
            &&& !is_service_account(review_outcome_spec(made[0].1)->Ok_0.asserted_user->0)
        },
    ensures
        result == Ok::<IdentityModel, FailureKind>(IdentityModel::Anonymous),
        made.len() == 1,
{
}

/// A user that is no service account never leads to a fetch.
pub proof fn unrecognised_user_is_not_fetched(asserted_user: Seq<u8>, namespace: Seq<u8>)
    requires
        !is_service_account(asserted_user),
    ensures
        resolve_spec(asserted_user, namespace) == ActionModel::Finish(
            Ok(IdentityModel::Anonymous),
        ),
{
}

/// A fault of the cluster on either call fails the attempt as "cluster
/// unavailable": it never passes for an anonymous caller.
pub proof fn cluster_fault_is_unavailable(
    credential: Option<Seq<u8>>,
    namespace: Seq<u8>,
    made: Seq<(RequestModel, ReplyModel)>,
    result: Result<IdentityModel, FailureKind>,
    call: int,
)
    requires
        attempt_matches(credential, namespace, made, result),
        0 <= call < made.len(),
        is_fault(made[call].1),
    ensures
        result == Err::<IdentityModel, FailureKind>(FailureKind::ClusterUnavailable),
        call == made.len() - 1,
{
}

/// A reply whose body is no JSON document is a fault as well, on either
/// call and whatever its status.
pub proof fn unreadable_reply_is_unavailable(
    credential: Option<Seq<u8>>,
    namespace: Seq<u8>,
    made: Seq<(RequestModel, ReplyModel)>,
    result: Result<IdentityModel, FailureKind>,
    call: int,
)
    requires
        attempt_matches(credential, namespace, made, result),
        0 <= call < made.len(),
        made[call].1 matches ReplyModel::Response { status, body } && json_document(body) is None,
    ensures
        result == Err::<IdentityModel, FailureKind>(FailureKind::ClusterUnavailable),
        call == made.len() - 1,
{
}

/// Where the service identity is found, the attempt ends with its module
/// identity: the original name from the annotation where there is one, and
/// only else the fetched name.
pub proof fn found_identity_is_named(
    credential: Option<Seq<u8>>,
    namespace: Seq<u8>,
    made: Seq<(RequestModel, ReplyModel)>,
    result: Result<IdentityModel, FailureKind>,
)
    requires
        attempt_matches(credential, namespace, made, result),
        made.len() == 2,
        service_identity_spec(made[1].1) is Ok,
    ensures
        result == Ok::<IdentityModel, FailureKind>(
            module_identity_spec(service_identity_spec(made[1].1)->Ok_0),
        ),
        service_identity_spec(made[1].1)->Ok_0.original_module_id matches Some(original)
            ==> result == Ok::<IdentityModel, FailureKind>(IdentityModel::Named(original)),
        service_identity_spec(made[1].1)->Ok_0.original_module_id is None ==> result == Ok::<
            IdentityModel,
            FailureKind,
        >(IdentityModel::Named(service_identity_spec(made[1].1)->Ok_0.name)),
{
}

/// A name is established only at the end of the whole chain: a bearer
/// credential, a review that authenticates a service account, and a fetch,
/// in the runtime's own namespace and by the account's name, that finds the
/// service identity which the name is taken from.
pub proof fn named_only_after_whole_chain(
    credential: Option<Seq<u8>>,
    namespace: Seq<u8>,
    made: Seq<(RequestModel, ReplyModel)>,
    name: Seq<u8>,
)
    requires
        attempt_matches(
            credential,
            namespace,
            made,
            Ok::<IdentityModel, FailureKind>(IdentityModel::Named(name)),
        ),
    ensures
        credential is Some && is_bearer(credential->0),
        made.len() == 2,
        review_outcome_spec(made[0].1) is Ok,
        review_outcome_spec(made[0].1)->Ok_0.authenticated,
        review_outcome_spec(made[0].1)->Ok_0.asserted_user is Some,
        is_service_account(review_outcome_spec(made[0].1)->Ok_0.asserted_user->0),
        made[1].0 == (RequestModel::ServiceIdentity {
            namespace,
            name: account_name(review_outcome_spec(made[0].1)->Ok_0.asserted_user->0),
        }),
        service_identity_spec(made[1].1) is Ok,
        IdentityModel::Named(name) == module_identity_spec(
            service_identity_spec(made[1].1)->Ok_0,
        ),
{
}

/// An attempt makes two calls at most, and its result is determined by the
/// credential, the namespace and the replies: two attempts that got the same
/// replies end alike.
pub proof fn result_is_determined(
    credential: Option<Seq<u8>>,
    namespace: Seq<u8>,
    made: Seq<(RequestModel, ReplyModel)>,
    result_a: Result<IdentityModel, FailureKind>,
    result_b: Result<IdentityModel, FailureKind>,
)
    requires
        attempt_matches(credential, namespace, made, result_a),
        attempt_matches(credential, namespace, made, result_b),
    ensures
        result_a == result_b,
        made.len() <= 2,
{
}

/// Taking an attempt step by step gives what `attempt_matches` describes:
/// an attempt that ends at its start made no call, one that ends on the first
/// reply made one, and one that asks twice ends on the second reply.
pub proof fn steps_make_an_attempt(
    credential: Option<Seq<u8>>,
    namespace: Seq<u8>,
    first_reply: ReplyModel,
    second_reply: ReplyModel,
)
    ensures
        match begin_spec(credential) {
            ActionModel::Finish(end) => attempt_matches(credential, namespace, Seq::empty(), end),
            ActionModel::Submit(first) => match advance_spec(
                AuthState::Reviewing,
                first_reply,
                namespace,
            ) {
                ActionModel::Finish(end) => attempt_matches(
                    credential,
                    namespace,
                    seq![(first, first_reply)],
                    end,
                ),
                ActionModel::Submit(second) => {
                    &&& state_after(AuthState::Reviewing, ActionModel::Submit(second))
                        == AuthState::Fetching
                    &&& advance_spec(AuthState::Fetching, second_reply, namespace) is Finish
                    &&& attempt_matches(
                        credential,
                        namespace,
                        seq![(first, first_reply), (second, second_reply)],
                        advance_spec(AuthState::Fetching, second_reply, namespace)->Finish_0,
                    )
                },
            },
        },
{
}

} // verus!
