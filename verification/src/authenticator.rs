//! Authentication of one request, as a sequence of decisions.
//!
//! An attempt makes at most two calls to the cluster, one after the other: a
//! token review, and then the fetch of a service identity. The decisions
//! between the calls are `begin`, `after_review` and `after_identity`; each
//! says either which call to make next or how the attempt ends. `authenticate`
//! runs them against anything that can submit a call. Nothing is kept between
//! attempts.

use vstd::prelude::*;
use crate::cluster::{
    review_outcome, review_outcome_spec, service_identity, service_identity_spec, ClusterReply,
    ClusterRequest, OutcomeModel, ReplyModel, RequestModel, TokenReviewOutcome,
};
use crate::credential::{bearer_token, is_bearer, parse_bearer, tail_bytes};
use crate::identity::{result_model, AuthResult, FailureKind, IdentityModel, ResolvedIdentity};
use crate::resolver::{
    account_name, is_service_account, module_identity, module_identity_spec, service_account_name,
};

verus! {

/// What an attempt does next.
#[derive(Debug, PartialEq, Eq)]
pub enum AuthAction {
    /// Make this call and come back with its reply.
    Submit(ClusterRequest),
    /// The attempt is over.
    Finish(AuthResult),
}

/// An action as a mathematical value.
pub enum ActionModel {
    Submit(RequestModel),
    Finish(Result<IdentityModel, FailureKind>),
}

impl View for AuthAction {
    type V = ActionModel;

    open spec fn view(&self) -> ActionModel {
        match *self {
            AuthAction::Submit(request) => ActionModel::Submit(request@),
            AuthAction::Finish(result) => ActionModel::Finish(result_model(result)),
        }
    }
}

/// A credential header, where the request has one, as a mathematical value.
pub open spec fn credential_model(credential: Option<&[u8]>) -> Option<Seq<u8>> {
    match credential {
        Some(header) => Some(header@),
        None => None,
    }
}

/// The first decision: without a credential the caller is anonymous; a
/// credential that is no bearer credential ends the attempt at once; a bearer
/// credential has its token reviewed.
pub open spec fn begin_spec(credential: Option<Seq<u8>>) -> ActionModel {
    match credential {
        None => ActionModel::Finish(Ok(IdentityModel::Anonymous)),
        Some(header) => if is_bearer(header) {
            ActionModel::Submit(RequestModel::TokenReview { token: bearer_token(header) })
        } else {
            ActionModel::Finish(Err(FailureKind::MalformedCredential))
        },
    }
}

/// What becomes of the user that the cluster asserts: a service account is
/// looked up by its name in the runtime's own namespace, whatever namespace
/// the user name carries; any other user is anonymous.
pub open spec fn resolve_spec(asserted_user: Seq<u8>, namespace: Seq<u8>) -> ActionModel {
    if is_service_account(asserted_user) {
        ActionModel::Submit(
            RequestModel::ServiceIdentity { namespace, name: account_name(asserted_user) },
        )
    } else {
        ActionModel::Finish(Ok(IdentityModel::Anonymous))
    }
}

/// What follows a token review outcome: only an authenticated outcome with an
/// asserted user goes on to the resolver.
pub open spec fn after_outcome_spec(outcome: OutcomeModel, namespace: Seq<u8>) -> ActionModel {
    if outcome.authenticated && outcome.asserted_user is Some {
        resolve_spec(outcome.asserted_user->0, namespace)
    } else {
        ActionModel::Finish(Ok(IdentityModel::Anonymous))
    }
}

/// The second decision, on the reply to the token review.
pub open spec fn after_review_spec(reply: ReplyModel, namespace: Seq<u8>) -> ActionModel {
    match review_outcome_spec(reply) {
        Err(e) => ActionModel::Finish(Err(e)),
        Ok(outcome) => after_outcome_spec(outcome, namespace),
    }
}

/// The last decision, on the reply to the service identity fetch.
pub open spec fn after_identity_spec(reply: ReplyModel) -> Result<IdentityModel, FailureKind> {
    match service_identity_spec(reply) {
        Err(e) => Err(e),
        Ok(account) => Ok(module_identity_spec(account)),
    }
}

/// Decides what to do with the credential header of a request.
pub fn begin(credential: Option<&[u8]>) -> (r: AuthAction)
    ensures
        r@ == begin_spec(credential_model(credential)),
{
    match credential {
        None => AuthAction::Finish(Ok(ResolvedIdentity::Anonymous)),
        Some(header) => match parse_bearer(header) {
            Ok(credential) => AuthAction::Submit(
                ClusterRequest::TokenReview { token: credential.into_token() },
            ),
            Err(e) => AuthAction::Finish(Err(e)),
        },
    }
}

/// Decides what to do with the user that the cluster asserts.
pub fn resolve(asserted_user: &[u8], namespace: &[u8]) -> (r: AuthAction)
    ensures
        r@ == resolve_spec(asserted_user@, namespace@),
{
    match service_account_name(asserted_user) {
        Some(name) => {
            let scope = tail_bytes(namespace, 0);
            assert(scope@ =~= namespace@);
            AuthAction::Submit(ClusterRequest::ServiceIdentity { namespace: scope, name })
        },
        None => AuthAction::Finish(Ok(ResolvedIdentity::Anonymous)),
    }
}

/// Decides what to do with a token review outcome.
pub fn after_outcome(outcome: &TokenReviewOutcome, namespace: &[u8]) -> (r: AuthAction)
    ensures
        r@ == after_outcome_spec(outcome@, namespace@),
{
    if !outcome.authenticated {
        return AuthAction::Finish(Ok(ResolvedIdentity::Anonymous));
    }
    match &outcome.asserted_user {
        Some(user) => resolve(user.as_slice(), namespace),
        None => AuthAction::Finish(Ok(ResolvedIdentity::Anonymous)),
    }
}

/// Decides what to do with the reply to the token review.
pub fn after_review(reply: &ClusterReply, namespace: &[u8]) -> (r: AuthAction)
    ensures
        r@ == after_review_spec(reply@, namespace@),
{
    match review_outcome(reply) {
        Err(e) => AuthAction::Finish(Err(e)),
        Ok(outcome) => after_outcome(&outcome, namespace),
    }
}

/// Ends the attempt with the reply to the service identity fetch.
pub fn after_identity(reply: &ClusterReply) -> (r: AuthResult)
    ensures
        result_model(r) == after_identity_spec(reply@),
{
    match service_identity(reply) {
        Err(e) => Err(e),
        Ok(account) => Ok(module_identity(account)),
    }
}

/// Where an attempt stands between two decisions.
#[derive(Debug, Clone, Copy, PartialEq, Eq, Structural)]
pub enum AuthState {
    /// The token review has been asked for.
    Reviewing,
    /// The service identity has been asked for.
    Fetching,
    /// The attempt is over.
    Done,
}

/// The state that an action leaves an attempt in, when it was taken in
/// `state`: a call moves on to the next wait, an end is the end.
pub open spec fn state_after(state: AuthState, action: ActionModel) -> AuthState {
    match action {
        ActionModel::Finish(_) => AuthState::Done,
        ActionModel::Submit(_) => match state {
            AuthState::Reviewing => AuthState::Fetching,
            _ => AuthState::Done,
        },
    }
}

/// The decision on a reply that arrives in `state`.
pub open spec fn advance_spec(state: AuthState, reply: ReplyModel, namespace: Seq<u8>) -> ActionModel {
    match state {
        AuthState::Reviewing => after_review_spec(reply, namespace),
        _ => ActionModel::Finish(after_identity_spec(reply)),
    }
}

/// Starts an attempt on the credential header of a request: says what to do
/// first, and the state to come back in with the reply.
pub fn start(credential: Option<&[u8]>) -> (r: (AuthState, AuthAction))
    ensures
        r.1@ == begin_spec(credential_model(credential)),
        r.0 == (if r.1@ is Submit {
            AuthState::Reviewing
        } else {
            AuthState::Done
        }),
{
    match begin(credential) {
        AuthAction::Submit(request) => (AuthState::Reviewing, AuthAction::Submit(request)),
        AuthAction::Finish(end) => (AuthState::Done, AuthAction::Finish(end)),
    }
}

/// Takes an attempt on with the reply to the call that it last asked for:
/// says what to do next, and the state to come back in. An attempt that is
/// over cannot be taken on.
pub fn advance(state: AuthState, reply: &ClusterReply, namespace: &[u8]) -> (r: (
    AuthState,
    AuthAction,
))
    requires
        state != AuthState::Done,
    ensures
        r.1@ == advance_spec(state, reply@, namespace@),
        r.0 == state_after(state, r.1@),
        state == AuthState::Fetching ==> r.0 == AuthState::Done,
{
    match state {
        AuthState::Reviewing => match after_review(reply, namespace) {
            AuthAction::Submit(request) => (AuthState::Fetching, AuthAction::Submit(request)),
            AuthAction::Finish(end) => (AuthState::Done, AuthAction::Finish(end)),
        },
        _ => (AuthState::Done, AuthAction::Finish(after_identity(reply))),
    }
}

/// The capability to submit a call to the cluster API, for anything that
/// can reach a cluster. Nothing is promised of the reply.
pub trait Transport {
    fn send(&mut self, request: &ClusterRequest) -> ClusterReply;
}

/// A cluster API that keeps account of the calls made through it.
pub trait ClusterApi {
    /// The calls submitted so far with their replies, oldest first.
    spec fn exchanges(&self) -> Seq<(RequestModel, ReplyModel)>;

    /// Submits one call. Nothing is promised of the reply.
    fn submit(&mut self, request: &ClusterRequest) -> (reply: ClusterReply)
        ensures
            final(self).exchanges() == old(self).exchanges().push((request@, reply@)),
    ;
}

/// A transport together with the account of the calls made through it.
pub struct Recorded<T: Transport> {
    pub transport: T,
    pub made: Ghost<Seq<(RequestModel, ReplyModel)>>,
}

impl<T: Transport> Recorded<T> {
    /// Starts the account of `transport` with no call made.
    pub fn new(transport: T) -> (r: Self)
        ensures
            r.transport == transport,
            r.exchanges() == Seq::<(RequestModel, ReplyModel)>::empty(),
    {
        Recorded { transport, made: Ghost(Seq::empty()) }
    }

    /// The transport behind the account.
    pub fn transport(&self) -> (r: &T)
        ensures
            *r == self.transport,
    {
        &self.transport
    }

    /// Gives the transport back.
    pub fn into_transport(self) -> (r: T)
        ensures
            r == self.transport,
    {
        self.transport
    }
}

impl<T: Transport> ClusterApi for Recorded<T> {
    open spec fn exchanges(&self) -> Seq<(RequestModel, ReplyModel)> {
        self.made@
    }

    fn submit(&mut self, request: &ClusterRequest) -> (reply: ClusterReply) {
        let reply = self.transport.send(request);
        self.made = Ghost(self.made@.push((request@, reply@)));
        reply
    }
}

/// `made` are the calls of one attempt on `credential` and `result` is what
/// the attempt ended with: each call is the one that the decision before it
/// asked for, each decision was taken on the reply to the call before it, and
/// no call was made beyond them.
pub open spec fn attempt_matches(
    credential: Option<Seq<u8>>,
    namespace: Seq<u8>,
    made: Seq<(RequestModel, ReplyModel)>,
    result: Result<IdentityModel, FailureKind>,
) -> bool {
    match begin_spec(credential) {
        ActionModel::Finish(end) => made.len() == 0 && result == end,
        ActionModel::Submit(first) => made.len() >= 1 && made[0].0 == first && match after_review_spec(
            made[0].1,
            namespace,
        ) {
            ActionModel::Finish(end) => made.len() == 1 && result == end,
            ActionModel::Submit(second) => made.len() == 2 && made[1].0 == second && result
                == after_identity_spec(made[1].1),
        },
    }
}

/// Authenticates one request: `credential` is the value of its credential
/// header, `namespace` the namespace that this runtime is configured with.
///
/// The calls go through `cluster`, and the result is the one that the three
/// decisions give on its replies. A request without a credential, or with a
/// malformed one, is settled without any call.
pub fn authenticate<C: ClusterApi>(
    credential: Option<&[u8]>,
    namespace: &[u8],
    cluster: &mut C,
) -> (r: AuthResult)
    ensures
        old(cluster).exchanges().is_prefix_of(final(cluster).exchanges()),
        attempt_matches(
            credential_model(credential),
            namespace@,
            final(cluster).exchanges().skip(old(cluster).exchanges().len() as int),
            result_model(r),
        ),
        credential is None ==> result_model(r) == Ok::<IdentityModel, FailureKind>(
            IdentityModel::Anonymous,
        ) && final(cluster).exchanges() == old(cluster).exchanges(),
        credential is Some && !is_bearer(credential->0@) ==> result_model(r) == Err::<
            IdentityModel,
            FailureKind,
        >(FailureKind::MalformedCredential) && final(cluster).exchanges() == old(
            cluster,
        ).exchanges(),
{
    let ghost before = cluster.exchanges();
    let first = match begin(credential) {
        AuthAction::Finish(end) => {
            assert(cluster.exchanges().skip(before.len() as int) =~= Seq::empty());
            return end;
        },
        AuthAction::Submit(request) => request,
    };
    let review = cluster.submit(&first);
    let ghost middle = cluster.exchanges();
    let second = match after_review(&review, namespace) {
        AuthAction::Finish(end) => {
            assert(middle.skip(before.len() as int) =~= seq![(first@, review@)]);
            return end;
        },
        AuthAction::Submit(request) => request,
    };
    let fetched = cluster.submit(&second);
    assert(cluster.exchanges().skip(before.len() as int) =~= seq![
        (first@, review@),
        (second@, fetched@),
    ]);
    after_identity(&fetched)
}

} // verus!
