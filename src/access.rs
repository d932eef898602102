//! The query protocol between callers and the data actor, the actor's step,
//! and the accessor that callers hold.
//!
//! Every request that expects an answer carries its own reply channel. The
//! actor owns the store; callers only hold the sending side of its queue.
use vstd::prelude::*;
use std::sync::mpsc::{Receiver, Sender};
use crate::history::{after_use, lemma_after_use_valid, matching};
use crate::schema::{valid_store, Store, StoreError, StoreView};

verus! {

#[verifier::external_type_specification]
#[verifier::external_body]
#[verifier::reject_recursive_types(T)]
pub struct ExSender<T>(std::sync::mpsc::Sender<T>);

#[verifier::external_type_specification]
#[verifier::external_body]
#[verifier::reject_recursive_types(T)]
pub struct ExReceiver<T>(std::sync::mpsc::Receiver<T>);

/// Relies on std::sync::mpsc::channel: a new channel, its sender and receiver.
#[verifier::external_body]
fn new_channel<T>() -> (Sender<T>, Receiver<T>) {
    std::sync::mpsc::channel()
}

/// Relies on Sender::send: true when the value went into the queue, false when
/// the receiving side is gone. Which one holds depends on the other side.
#[verifier::external_body]
fn send_to<T>(s: &Sender<T>, v: T) -> bool {
    s.send(v).is_ok()
}

/// Relies on Receiver::recv: the next value, or None once every sender is gone
/// and nothing is queued.
#[verifier::external_body]
fn receive_from<T>(r: &Receiver<T>) -> Option<T> {
    r.recv().ok()
}

/// Relies on Sender's Clone: another sender on the same channel.
#[verifier::external_body]
fn clone_sender<T>(s: &Sender<T>) -> Sender<T> {
    s.clone()
}

/// A failed access: the request could not be sent, no reply came, or the
/// store reported an error.
#[derive(Debug)]
pub enum AccessErr<T> {
    FailedToSend,
    FailedToRecv,
    InnerError(T),
}

/// A request on the address history, with its reply channel.
pub enum PrevIpQueries {
    GetIps(String, Sender<Result<Vec<String>, StoreError>>),
    AddIp(String, Sender<Result<String, StoreError>>),
}

/// A request to the data actor.
pub enum Query {
    PrevIp(PrevIpQueries),
    End,
}

/// What the caller gets: a failed send, a missing reply, or the store's answer.
pub open spec fn settled<T>(sent: bool, reply: Option<Result<T, StoreError>>) -> Result<T, AccessErr<StoreError>> {
    if !sent {
        Err(AccessErr::FailedToSend)
    } else {
        match reply {
            None => Err(AccessErr::FailedToRecv),
            Some(Ok(v)) => Ok(v),
            Some(Err(e)) => Err(AccessErr::InnerError(e)),
        }
    }
}

/// The store after the actor has served `q`.
pub open spec fn query_effect(m: StoreView, q: PrevIpQueries) -> StoreView {
    match q {
        PrevIpQueries::GetIps(_, _) => m,
        PrevIpQueries::AddIp(ip, _) => match m.1 {
            Some(l) => (m.0, Some(after_use(l, ip@))),
            None => m,
        },
    }
}

/// The store after the actor has taken `q` from its queue.
pub open spec fn step_effect(m: StoreView, q: Query) -> StoreView {
    match q {
        Query::PrevIp(p) => query_effect(m, p),
        Query::End => m,
    }
}

/// The store after the actor has taken the requests of `qs` in order: it stops
/// at the first `End` and serves nothing after it.
pub open spec fn serve_all(m: StoreView, qs: Seq<Query>) -> StoreView
    decreases qs.len(),
{
    if qs.len() == 0 {
        m
    } else {
        match qs[0] {
            Query::End => m,
            Query::PrevIp(p) => serve_all(query_effect(m, p), qs.drop_first()),
        }
    }
}

/// However the callers' requests were interleaved in the queue, serving them
/// keeps the store valid: the history never holds more than its capacity.
pub proof fn lemma_serve_all_valid(m: StoreView, qs: Seq<Query>)
    requires
        valid_store(m),
    ensures
        valid_store(serve_all(m, qs)),
    decreases qs.len(),
{
    if qs.len() > 0 {
        if let Query::PrevIp(p) = qs[0] {
            if let PrevIpQueries::AddIp(ip, _) = p {
                if let Some(l) = m.1 {
                    lemma_after_use_valid(l, ip@);
                }
            }
            lemma_serve_all_valid(query_effect(m, p), qs.drop_first());
        }
    }
}

/// Turns the outcome of a request into the caller's result: a failed send is
/// `FailedToSend`; a missing reply is `FailedToRecv`; a store error is
/// `InnerError`; otherwise the answer.
pub fn settle<T>(sent: bool, reply: Option<Result<T, StoreError>>) -> (r: Result<T, AccessErr<StoreError>>)
    ensures
        r == settled(sent, reply),
{
    if !sent {
        return Err(AccessErr::FailedToSend);
    }
    match reply {
        None => Err(AccessErr::FailedToRecv),
        Some(Ok(v)) => Ok(v),
        Some(Err(e)) => Err(AccessErr::InnerError(e)),
    }
}

/// The reply that the actor writes for a history request.
pub enum Answer {
    /// The reply to `GetIps`.
    Ips(Result<Vec<String>, StoreError>),
    /// The reply to `AddIp`.
    Added(Result<String, StoreError>),
}

/// `a` is the reply owed to `q` on a store `m`: without a history table, the
/// store's `MissingHistoryTable`; otherwise, for `GetIps` the stored addresses
/// that contain the pattern, most recent first, and for `AddIp` the address.
pub open spec fn answers(m: StoreView, q: PrevIpQueries, a: Answer) -> bool {
    match q {
        PrevIpQueries::GetIps(ip, _) => match a {
            Answer::Ips(r) => match m.1 {
                None => r == Err::<Vec<String>, StoreError>(StoreError::MissingHistoryTable),
                Some(l) => (r matches Ok(v) && v@.map_values(|s: String| s@) == matching(l, ip@)),
            },
            Answer::Added(_) => false,
        },
        PrevIpQueries::AddIp(ip, _) => match a {
            Answer::Added(r) => match m.1 {
                None => r == Err::<String, StoreError>(StoreError::MissingHistoryTable),
                Some(l) => (r matches Ok(s) && s@ == ip@),
            },
            Answer::Ips(_) => false,
        },
    }
}

/// Serves one history request on `db` and hands the answer to the request's
/// own reply channel; a caller that is gone is nobody to notify. The result is
/// a ghost copy of the answer computed for the request. That this copy is the
/// value given to the channel is shown by the body, not by a clause: the send
/// goes through std, of which nothing is assumed.
pub fn run_prev_ip_query(query: PrevIpQueries, db: &mut Store) -> (sent: Ghost<Answer>)
    requires
        old(db).wf(),
    ensures
        final(db).wf(),
        final(db)@ == query_effect(old(db)@, query),
        answers(old(db)@, query, sent@),
{
    match query {
        PrevIpQueries::AddIp(ip, sender) => {
            let answer = db.add_prev_ip(ip);
            let ghost copy = Answer::Added(answer);
            let _ = send_to(&sender, answer);
            Ghost(copy)
        },
        PrevIpQueries::GetIps(ip, sender) => {
            let answer = db.get_prev_ips(&ip);
            let ghost copy = Answer::Ips(answer);
            let _ = send_to(&sender, answer);
            Ghost(copy)
        },
    }
}

/// The data actor's step on the next request from its queue. A history
/// request is served (`Some`, with a ghost copy of the answer computed for it),
/// whether the store succeeded or not, and the actor goes on; at `End` it stops
/// (`None`) and leaves the store as it is.
pub fn db_request_step(query: Query, db: &mut Store) -> (served: Option<Ghost<Answer>>)
    requires
        old(db).wf(),
    ensures
        final(db).wf(),
        served is Some <==> query is PrevIp,
        final(db)@ == step_effect(old(db)@, query),
        query matches Query::PrevIp(q) ==> answers(old(db)@, q, served.unwrap()@),
{
    match query {
        Query::PrevIp(q) => Some(run_prev_ip_query(q, db)),
        Query::End => None,
    }
}

/// A cheap handle on the data actor's queue.
pub struct PrevIpAccessor {
    sender: Sender<Query>,
}

/// The lookup request for `ip`, answered on `reply`.
pub fn lookup_request(ip: String, reply: Sender<Result<Vec<String>, StoreError>>) -> (q: PrevIpQueries)
    ensures
        q == PrevIpQueries::GetIps(ip, reply),
{
    PrevIpQueries::GetIps(ip, reply)
}

/// The request to record a use of `ip`, answered on `reply`.
pub fn record_request(ip: String, reply: Sender<Result<String, StoreError>>) -> (q: PrevIpQueries)
    ensures
        q == PrevIpQueries::AddIp(ip, reply),
{
    PrevIpQueries::AddIp(ip, reply)
}

/// The message that puts history request `q` on the actor's queue.
pub fn history_message(q: PrevIpQueries) -> (m: Query)
    ensures
        m == Query::PrevIp(q),
{
    Query::PrevIp(q)
}

impl Clone for PrevIpAccessor {
    fn clone(&self) -> (r: Self) {
        PrevIpAccessor { sender: clone_sender(&self.sender) }
    }
}

impl PrevIpAccessor {
    /// An accessor that sends its requests on `sender`.
    pub fn new(sender: &Sender<Query>) -> (r: Self) {
        PrevIpAccessor { sender: clone_sender(sender) }
    }

    /// Asks the actor for the stored addresses that contain `ip`: it sends
    /// `lookup_request(ip, ..)` with a fresh reply channel and waits for the
    /// answer. The outcome depends on the actor, so the result is whatever
    /// `settled` makes of the send and the reply.
    pub fn get_prev_ips(&self, ip: String) -> (r: Result<Vec<String>, AccessErr<StoreError>>)
        ensures
            exists|sent: bool, reply: Option<Result<Vec<String>, StoreError>>|
                (sent || reply is None) && r == #[trigger] settled(sent, reply),
    {
        let (sender, receiver) = new_channel();
        let query = lookup_request(ip, sender);
        let (r, Ghost(sent), Ghost(reply)) = self.issue_query(query, receiver);
        r
    }

    /// Asks the actor to record a use of `ip`: it sends
    /// `record_request(ip, ..)` with a fresh reply channel and waits for the
    /// answer.
    pub fn add_address(&self, ip: String) -> (r: Result<String, AccessErr<StoreError>>)
        ensures
            exists|sent: bool, reply: Option<Result<String, StoreError>>|
                (sent || reply is None) && r == #[trigger] settled(sent, reply),
    {
        let (sender, receiver) = new_channel();
        let query = record_request(ip, sender);
        let (r, Ghost(sent), Ghost(reply)) = self.issue_query(query, receiver);
        r
    }

    /// Sends `history_message(query)` and waits on `receiver` for the reply; it
    /// does not wait when the send failed. Beside the result it gives, as ghost
    /// values, whether the send went through and the reply that came.
    fn issue_query<T>(&self, query: PrevIpQueries, receiver: Receiver<Result<T, StoreError>>) -> (r: (
        Result<T, AccessErr<StoreError>>,
        Ghost<bool>,
        Ghost<Option<Result<T, StoreError>>>,
    ))
        ensures
            r.0 == settled(r.1@, r.2@),
            !r.1@ ==> r.2@ is None,
    {
        let sent = send_to(&self.sender, history_message(query));
        let reply = if sent {
            receive_from(&receiver)
        } else {
            None
        };
        let ghost g = reply;
        (settle(sent, reply), Ghost(sent), Ghost(g))
    }
}

} // verus!
