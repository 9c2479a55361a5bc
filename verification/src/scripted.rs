//! A cluster that answers from a script held in memory.
//!
//! It stands in for the cluster API where no cluster is at hand: every token
//! review gets the reply it was made with, a service identity is found where
//! the script holds one under that namespace and name, and everything else is
//! not found.

use vstd::prelude::*;
use crate::authenticator::{ClusterApi, Transport};
use crate::cluster::{ClusterReply, ClusterRequest, ReplyModel, RequestModel};
use crate::credential::{starts_with, tail_bytes};

verus! {

/// The status of the reply to a fetch of something that the script lacks.
pub const NOT_FOUND: u16 = 404;

/// A service identity of the script: where it is found, and the reply.
pub struct ScriptedAccount {
    pub namespace: Vec<u8>,
    pub name: Vec<u8>,
    pub reply: ClusterReply,
}

/// One submitted call and its reply.
pub struct Exchange {
    pub request: ClusterRequest,
    pub reply: ClusterReply,
}

/// The scripted cluster, with the record of the calls it got.
pub struct ScriptedCluster {
    pub review: ClusterReply,
    pub accounts: Vec<ScriptedAccount>,
    pub record: Vec<Exchange>,
}

/// The reply that the accounts from index `from` on hold for the service
/// identity `name` in `namespace`: that of the first such account, or "not
/// found".
pub open spec fn account_reply(
    accounts: Seq<ScriptedAccount>,
    from: int,
    namespace: Seq<u8>,
    name: Seq<u8>,
) -> ReplyModel
    decreases accounts.len() - from,
{
    if from < 0 || from >= accounts.len() {
        ReplyModel::Response { status: NOT_FOUND, body: Seq::empty() }
    } else if accounts[from].namespace@ == namespace && accounts[from].name@ == name {
        accounts[from].reply@
    } else {
        account_reply(accounts, from + 1, namespace, name)
    }
}

/// The reply that the script gives to a request.
pub open spec fn scripted_reply(
    review: ReplyModel,
    accounts: Seq<ScriptedAccount>,
    request: RequestModel,
) -> ReplyModel {
    match request {
        RequestModel::TokenReview { token } => review,
        RequestModel::ServiceIdentity { namespace, name } => account_reply(
            accounts,
            0,
            namespace,
            name,
        ),
    }
}

/// The calls of a record with their replies, as mathematical values.
pub open spec fn record_model(record: Seq<Exchange>) -> Seq<(RequestModel, ReplyModel)> {
    Seq::new(record.len(), |i: int| (record[i].request@, record[i].reply@))
}

/// Whether two byte strings are equal.
pub fn same_bytes(a: &[u8], b: &[u8]) -> (r: bool)
    ensures
        r == (a@ == b@),
{
    if a.len() != b.len() {
        return false;
    }
    let r = starts_with(a, b);
    assert(a@.subrange(0, a@.len() as int) =~= a@);
    r
}

/// A copy of a byte string.
pub fn copy_bytes(v: &Vec<u8>) -> (r: Vec<u8>)
    ensures
        r@ == v@,
{
    let r = tail_bytes(v.as_slice(), 0);
    assert(r@ =~= v@);
    r
}

/// A copy of a request.
pub fn copy_request(request: &ClusterRequest) -> (r: ClusterRequest)
    ensures
        r@ == request@,
{
    match request {
        ClusterRequest::TokenReview { token } => ClusterRequest::TokenReview {
            token: copy_bytes(token),
        },
        ClusterRequest::ServiceIdentity { namespace, name } => ClusterRequest::ServiceIdentity {
            namespace: copy_bytes(namespace),
            name: copy_bytes(name),
        },
    }
}

/// A copy of a reply.
pub fn copy_reply(reply: &ClusterReply) -> (r: ClusterReply)
    ensures
        r@ == reply@,
{
    match reply {
        ClusterReply::Unreachable => ClusterReply::Unreachable,
        ClusterReply::Response { status, body } => ClusterReply::Response {
            status: *status,
            body: copy_bytes(body),
        },
    }
}

impl ScriptedCluster {
    /// A cluster that answers every token review with `review` and knows no
    /// service identity.
    pub fn new(review: ClusterReply) -> (r: Self)
        ensures
            r.review == review,
            r.accounts@.len() == 0,
            r.record@.len() == 0,
    {
        ScriptedCluster { review, accounts: Vec::new(), record: Vec::new() }
    }

    /// A cluster that cannot be reached at all: the token review gets no
    /// response.
    pub fn unreachable() -> (r: Self)
        ensures
            r.review@ == ReplyModel::Unreachable,
            r.accounts@.len() == 0,
            r.record@.len() == 0,
    {
        ScriptedCluster { review: ClusterReply::Unreachable, accounts: Vec::new(), record: Vec::new() }
    }

    /// Adds a service identity to the script, behind those it already holds.
    pub fn add_account(&mut self, namespace: Vec<u8>, name: Vec<u8>, reply: ClusterReply)
        ensures
            final(self).review == old(self).review,
            final(self).record == old(self).record,
            final(self).accounts@ == old(self).accounts@.push(
                ScriptedAccount { namespace, name, reply },
            ),
    {
        self.accounts.push(ScriptedAccount { namespace, name, reply });
    }

    /// The number of calls submitted so far.
    pub fn calls(&self) -> (r: usize)
        ensures
            r == self.exchanges().len(),
    {
        self.record.len()
    }

    /// The `index`-th call that was submitted.
    pub fn call(&self, index: usize) -> (r: Option<&ClusterRequest>)
        ensures
            match r {
                Some(request) => index < self.exchanges().len() && request@
                    == self.exchanges()[index as int].0,
                None => index >= self.exchanges().len(),
            },
    {
        if index < self.record.len() {
            Some(&self.record[index].request)
        } else {
            None
        }
    }

    /// The reply that the script holds for `request`.
    pub fn answer(&self, request: &ClusterRequest) -> (r: ClusterReply)
        ensures
            r@ == scripted_reply(self.review@, self.accounts@, request@),
    {
        match request {
            ClusterRequest::TokenReview { token } => copy_reply(&self.review),
            ClusterRequest::ServiceIdentity { namespace, name } => {
                let mut i: usize = 0;
                while i < self.accounts.len()
                    invariant
                        i <= self.accounts.len(),
                        request@ == (RequestModel::ServiceIdentity {
                            namespace: namespace@,
                            name: name@,
                        }),
                        account_reply(self.accounts@, 0, namespace@, name@) == account_reply(
                            self.accounts@,
                            i as int,
                            namespace@,
                            name@,
                        ),
                    decreases self.accounts.len() - i,
                {
                    let account = &self.accounts[i];
                    if same_bytes(account.namespace.as_slice(), namespace.as_slice()) && same_bytes(
                        account.name.as_slice(),
                        name.as_slice(),
                    ) {
                        let found = copy_reply(&account.reply);
                        assert(account_reply(self.accounts@, i as int, namespace@, name@)
                            == self.accounts@[i as int].reply@);
                        return found;
                    }
                    i += 1;
                }
                ClusterReply::Response { status: NOT_FOUND, body: Vec::new() }
            },
        }
    }
}

impl Transport for ScriptedCluster {
    /// Answers from the script and records the call: the reply is the one
    /// that the script holds for `request`, the script stays as it is, and
    /// the record grows by this call and its reply.
    fn send(&mut self, request: &ClusterRequest) -> (reply: ClusterReply)
        ensures
            reply@ == scripted_reply(old(self).review@, old(self).accounts@, request@),
            final(self).review == old(self).review,
            final(self).accounts == old(self).accounts,
            final(self).exchanges() == old(self).exchanges().push((request@, reply@)),
    {
        self.submit(request)
    }
}

impl ClusterApi for ScriptedCluster {
    open spec fn exchanges(&self) -> Seq<(RequestModel, ReplyModel)> {
        record_model(self.record@)
    }

    /// Answers from the script and records the call.
    fn submit(&mut self, request: &ClusterRequest) -> (reply: ClusterReply)
        ensures
            reply@ == scripted_reply(old(self).review@, old(self).accounts@, request@),
            final(self).review == old(self).review,
            final(self).accounts == old(self).accounts,
    {
        let reply = self.answer(request);
        self.record.push(Exchange { request: copy_request(request), reply: copy_reply(&reply) });
        assert(record_model(self.record@) =~= record_model(old(self).record@).push(
            (request@, reply@),
        ));
        reply
    }
}

} // verus!
