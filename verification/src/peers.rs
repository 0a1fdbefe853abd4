//! Calls to the agents of other nodes: which connection serves a call, and
//! what its reply comes to.
use crate::config::NodeConfig;
use crate::status::OpResult;
use crate::text::{
    dec, ends_with, holds_text, int_text, join, joined, nat_text, same, stands_at, text2, text3,
    text4, views,
};
use std::collections::HashMap;
use vstd::prelude::*;
use vstd::std_specs::hash::*;

verus! {

/// Seconds after which a connection is made anew.
pub const MAX_CONNECTION_AGE: u64 = 43_200;

/// Seconds that making a connection is given.
pub const DEFAULT_CONNECT_TIMEOUT: u64 = 5;

/// Seconds that a short call is given.
pub const DEFAULT_REQUEST_TIMEOUT: u64 = 30;

/// Seconds that starting, stopping and promoting are given.
pub const LONG_RPC_TIMEOUT: u64 = 300;

/// Seconds between two signs of life on an idle connection.
pub const KEEP_ALIVE_INTERVAL: u64 = 60;

/// Seconds that a transfer of WAL is given to begin.
pub const FETCH_WAL_SETUP_TIMEOUT: u64 = 5;

/// When each connection was made, in milliseconds of a clock that never goes
/// back.
pub struct ConnectionAges {
    pub made_at: HashMap<i32, u64>,
    pub max_age_ms: u64,
}

impl ConnectionAges {
    /// Whether the connection to node `id` can serve a call at `now`.
    pub open spec fn serves(self, id: i32, now: u64) -> bool {
        self.made_at@.contains_key(id) && now - self.made_at@[id] < self.max_age_ms
    }

    /// No connection was made yet.
    pub fn new(max_age_ms: u64) -> (r: ConnectionAges)
        ensures
            r.made_at@ == Map::<i32, u64>::empty(),
            r.max_age_ms == max_age_ms,
    {
        ConnectionAges { made_at: HashMap::new(), max_age_ms }
    }

    /// Whether the connection to node `id` can serve a call at `now`; if it
    /// cannot, a new one is to be made.
    pub fn is_fresh(&self, id: i32, now: u64) -> (r: bool)
        ensures
            r == self.serves(id, now),
    {
        broadcast use vstd::std_specs::hash::group_hash_axioms;

        match self.made_at.get(&id) {
            Some(t) => now < *t || now - *t < self.max_age_ms,
            None => false,
        }
    }

    /// Takes note that a connection to node `id` was made at `now`.
    pub fn made(&mut self, id: i32, now: u64)
        ensures
            final(self).made_at@ == old(self).made_at@.insert(id, now),
            final(self).max_age_ms == old(self).max_age_ms,
    {
        broadcast use vstd::std_specs::hash::group_hash_axioms;

        self.made_at.insert(id, now);
    }

    /// Takes note that all connections were closed.
    pub fn close(&mut self)
        ensures
            final(self).made_at@ == Map::<i32, u64>::empty(),
            final(self).max_age_ms == old(self).max_age_ms,
    {
        self.made_at = HashMap::new();
    }
}

/// A connection serves calls until its age is up, and not after; another
/// node's connection makes no difference to that.
pub proof fn law_connection_serves_until_its_age(
    a: ConnectionAges,
    b: ConnectionAges,
    id: i32,
    other: i32,
    then: u64,
    now: u64,
)
    requires
        b.made_at@ == a.made_at@.insert(id, then),
        b.max_age_ms == a.max_age_ms,
    ensures
        b.serves(id, now) <==> now - then < b.max_age_ms,
        other != id ==> b.serves(other, now) == a.serves(other, now),
{
}

/// The address of a node's agent.
pub open spec fn address_text(hostname: Seq<char>, port: u16) -> Seq<char> {
    "http://"@ + hostname + ":"@ + dec(port as int)
}

/// The address of a node's agent.
pub fn peer_address(node: &NodeConfig, agent_port: u16) -> (r: String)
    ensures
        r@ == address_text(node.hostname@, agent_port),
{
    text4(
        "http://",
        node.hostname.as_str(),
        ":",
        int_text(agent_port as i64).as_str(),
    )
}

/// An error together with what caused it: the messages from the outermost on.
pub fn describe(chain: &Vec<String>) -> (r: String)
    ensures
        r@ == joined(views(chain@), ": "@),
{
    join(chain, ": ")
}

/// What is said of an agent that could not be reached.
pub fn dial_failed(address: &str, chain: &Vec<String>) -> (r: String)
    ensures
        r@ == "peer dial "@ + address@ + ": "@ + joined(views(chain@), ": "@),
{
    text4("peer dial ", address, ": ", describe(chain).as_str())
}

/// What is said of a call whose time ran out.
pub fn timed_out(call: &str) -> (r: String)
    ensures
        r@ == "peer "@ + call@ + ": timed out after "@ + dec(DEFAULT_REQUEST_TIMEOUT as int) + "s"@,
{
    let mut s = text3("peer ", call, ": timed out after ");
    s.append(nat_text(DEFAULT_REQUEST_TIMEOUT).as_str());
    s.append("s");
    s
}

/// What is said of a transfer of WAL that did not begin in time.
pub fn fetch_wal_timed_out() -> (r: String)
    ensures
        r@ == "peer fetch_wal: no response within "@ + dec(FETCH_WAL_SETUP_TIMEOUT as int)
            + "s (peer unreachable?)"@,
{
    text3(
        "peer fetch_wal: no response within ",
        nat_text(FETCH_WAL_SETUP_TIMEOUT).as_str(),
        "s (peer unreachable?)",
    )
}

/// What is said of a call that failed.
pub open spec fn call_failed(call: Seq<char>, message: Seq<char>) -> Seq<char> {
    "peer "@ + call + ": "@ + message
}

/// What a call that answers with a result comes to: a negative result is an
/// error.
pub fn rpc_result(call: &str, reply: Result<OpResult, String>) -> (r: Result<(), String>)
    ensures
        match reply {
            Ok(o) => if o.ok {
                r is Ok
            } else {
                r is Err && r->Err_0@ == call_failed(call@, o.message@)
            },
            Err(e) => r is Err && r->Err_0@ == call_failed(call@, e@),
        },
{
    match reply {
        Ok(o) => {
            if o.ok {
                Ok(())
            } else {
                Err(text4("peer ", call, ": ", o.message.as_str()))
            }
        },
        Err(e) => Err(text4("peer ", call, ": ", e.as_str())),
    }
}

/// What a call that answers with a value comes to.
pub fn rpc_value<V>(call: &str, reply: Result<V, String>) -> (r: Result<V, String>)
    ensures
        match reply {
            Ok(v) => r == Ok::<V, String>(v),
            Err(e) => r is Err && r->Err_0@ == call_failed(call@, e@),
        },
{
    match reply {
        Ok(v) => Ok(v),
        Err(e) => Err(text4("peer ", call, ": ", e.as_str())),
    }
}

/// How a transfer of WAL began.
pub enum FetchReply<R> {
    /// The segment is coming.
    Stream(R),
    /// The peer does not have the segment.
    NotFound,
    /// The peer failed.
    Failed(String),
    /// The time ran out.
    TimedOut,
}

/// What the beginning of a transfer comes to: the segment, or that the peer
/// does not have it.
pub fn fetch_wal_result<R>(reply: FetchReply<R>) -> (r: Result<Option<R>, String>)
    ensures
        match reply {
            FetchReply::Stream(s) => r == Ok::<Option<R>, String>(Some(s)),
            FetchReply::NotFound => r == Ok::<Option<R>, String>(None),
            FetchReply::Failed(e) => r is Err && r->Err_0@ == call_failed("fetch_wal"@, e@),
            FetchReply::TimedOut => r is Err && r->Err_0@ == "peer fetch_wal: no response within "@
                + dec(FETCH_WAL_SETUP_TIMEOUT as int) + "s (peer unreachable?)"@,
        },
{
    match reply {
        FetchReply::Stream(s) => Ok(Some(s)),
        FetchReply::NotFound => Ok(None),
        FetchReply::Failed(e) => Err(text4("peer ", "fetch_wal", ": ", e.as_str())),
        FetchReply::TimedOut => Err(fetch_wal_timed_out()),
    }
}

/// What comes in on a stream of progress.
pub enum ProgressEvent {
    /// The work is in this phase.
    Phase(String),
    /// The stream ended.
    Ended,
    /// The stream broke.
    Broken(String),
}

/// What one event of the stream comes to; none, where the next is awaited.
pub open spec fn progress_outcome(operation: Seq<char>, event: ProgressEvent) -> Option<
    Result<(), Seq<char>>,
> {
    match event {
        ProgressEvent::Phase(phase) => if phase@ == "done"@ {
            Some(Ok(()))
        } else {
            None
        },
        ProgressEvent::Ended => Some(Err(operation + ": stream ended without 'done' phase"@)),
        ProgressEvent::Broken(e) => Some(Err(operation + ": stream error: "@ + e@)),
    }
}

/// What one event of the stream comes to; none, where the next is awaited.
pub fn drain_progress(operation: &str, event: ProgressEvent) -> (r: Option<Result<(), String>>)
    ensures
        match (r, progress_outcome(operation@, event)) {
            (Some(Ok(())), Some(Ok(()))) => true,
            (Some(Err(e)), Some(Err(want))) => e@ == want,
            (None, None) => true,
            _ => false,
        },
{
    match event {
        ProgressEvent::Phase(phase) => {
            if same(phase.as_str(), "done") {
                Some(Ok(()))
            } else {
                None
            }
        },
        ProgressEvent::Ended => Some(
            Err(text2(operation, ": stream ended without 'done' phase")),
        ),
        ProgressEvent::Broken(e) => Some(Err(text3(operation, ": stream error: ", e.as_str()))),
    }
}

/// What the whole stream comes to: what its first decisive event does.
pub open spec fn stream_outcome(operation: Seq<char>, events: Seq<ProgressEvent>) -> Option<
    Result<(), Seq<char>>,
>
    decreases events.len(),
{
    if events.len() == 0 {
        None
    } else {
        match progress_outcome(operation, events[0]) {
            Some(r) => Some(r),
            None => stream_outcome(operation, events.drop_first()),
        }
    }
}

/// The work counts as done only if the stream says so.
pub proof fn law_success_needs_done(operation: Seq<char>, events: Seq<ProgressEvent>)
    requires
        stream_outcome(operation, events) == Some(Ok::<(), Seq<char>>(())),
    ensures
        exists|i: int|
            0 <= i < events.len() && #[trigger] events[i] is Phase && events[i]->Phase_0@
                == "done"@,
    decreases events.len(),
{
    match progress_outcome(operation, events[0]) {
        Some(_) => {},
        None => {
            let rest = events.drop_first();
            law_success_needs_done(operation, rest);
            let k = choose|k: int|
                0 <= k < rest.len() && #[trigger] rest[k] is Phase && rest[k]->Phase_0@ == "done"@;
            assert(events[k + 1] == rest[k]);
        },
    }
}

/// A registry without peers.
pub struct NoOpPeerRegistry;

impl NoOpPeerRegistry {
    /// Refuses to reach any node.
    pub fn client(&self, node: &NodeConfig) -> (r: Result<(), String>)
        ensures
            r is Err,
            r->Err_0@ == "peer registry: NoOpPeerRegistry (cross-peer calls disabled)"@,
    {
        Err("peer registry: NoOpPeerRegistry (cross-peer calls disabled)".to_owned())
    }

    /// Has nothing to close.
    pub fn close(&self) -> (r: Result<(), String>)
        ensures
            r is Ok,
    {
        Ok(())
    }
}

/// A stream comes to nothing while only other phases than `done` came in, to
/// success with `done`, and to an error, which it ends with, where it broke.
pub proof fn law_streams_end_with_their_first_decision(
    operation: Seq<char>,
    events: Seq<ProgressEvent>,
    more: Seq<ProgressEvent>,
)
    ensures
        stream_outcome(operation, events) is Some ==> stream_outcome(operation, events + more)
            == stream_outcome(operation, events),
        stream_outcome(operation, events) is None ==> stream_outcome(operation, events + more)
            == stream_outcome(operation, more),
        stream_outcome(operation, events) is None <==> forall|i: int|
            0 <= i < events.len() ==> (#[trigger] events[i]) is Phase && events[i]->Phase_0@
                != "done"@,
    decreases events.len(),
{
    if events.len() == 0 {
        assert(events + more =~= more);
    } else {
        let rest = events.drop_first();
        assert((events + more).drop_first() =~= rest + more);
        assert((events + more)[0] == events[0]);
        law_streams_end_with_their_first_decision(operation, rest, more);
        if stream_outcome(operation, events) is None {
            assert forall|i: int| 0 <= i < events.len() implies (#[trigger] events[i]) is Phase
                && events[i]->Phase_0@ != "done"@ by {
                if i > 0 {
                    assert(rest[i - 1] == events[i]);
                }
            }
        }
        if forall|i: int|
            0 <= i < events.len() ==> (#[trigger] events[i]) is Phase && events[i]->Phase_0@
                != "done"@ {
            assert forall|i: int| 0 <= i < rest.len() implies (#[trigger] rest[i]) is Phase
                && rest[i]->Phase_0@ != "done"@ by {
                assert(events[i + 1] == rest[i]);
            }
            assert(events[0] is Phase && events[0]->Phase_0@ != "done"@);
        }
    }
}

/// One event decides exactly where it is `done`, the end, or a break; only
/// `done` is a success, and a break is told with its error.
pub proof fn law_events_that_decide(operation: Seq<char>, event: ProgressEvent)
    ensures
        match progress_outcome(operation, event) {
            None => event is Phase && event->Phase_0@ != "done"@,
            Some(Ok(())) => event is Phase && event->Phase_0@ == "done"@,
            Some(Err(message)) => !(event is Phase) && operation.is_prefix_of(message) && (
            event is Broken ==> ends_with(message, event->Broken_0@)),
        },
{
    if let ProgressEvent::Broken(e) = event {
        let s = operation + ": stream error: "@ + e@;
        assert(s.skip(s.len() - e@.len()) =~= e@);
    }
}

/// A call that failed is told by its name and with its error.
pub proof fn law_failed_calls_are_told(call: Seq<char>, message: Seq<char>)
    ensures
        ends_with(call_failed(call, message), message),
        holds_text(call_failed(call, message), call),
{
    let s = call_failed(call, message);
    assert(s.skip(s.len() - message.len()) =~= message);
    let n = "peer "@.len() as int;
    assert(s.subrange(n, n + call.len()) =~= call);
    assert(stands_at(s, call, n));
}

/// An address tells the host and the port.
pub proof fn law_addresses_tell_host_and_port(hostname: Seq<char>, port: u16)
    ensures
        ends_with(address_text(hostname, port), dec(port as int)),
        holds_text(address_text(hostname, port), hostname),
{
    let s = address_text(hostname, port);
    let d = dec(port as int);
    assert(s.skip(s.len() - d.len()) =~= d);
    let n = "http://"@.len() as int;
    assert(s.subrange(n, n + hostname.len()) =~= hostname);
    assert(stands_at(s, hostname, n));
}

/// Without a connection no call is served.
pub proof fn law_no_connection_serves_nothing(a: ConnectionAges, id: i32, now: u64)
    requires
        !a.made_at@.contains_key(id),
    ensures
        !a.serves(id, now),
{
}

} // verus!
