//! What the orchestrations share: the replies they are fed, the state that a
//! peer reports, and how to reason about a whole run.
use crate::inflight_ops::{InflightOp, InflightPayload};
use crate::preconditions::PreconditionOutcome;
use crate::status::{OpResult, Status};
use vstd::prelude::*;

verus! {

/// The state of a node as the node itself reports it.
#[derive(Clone, Debug, PartialEq, Eq)]
pub struct NodeStatus {
    pub is_running: bool,
    pub is_in_recovery: bool,
    pub is_ready: bool,
    pub replication_lag_bytes: i64,
    pub replication_state: String,
    pub is_postgres_running: bool,
    pub is_pgpool_running: bool,
    pub is_postgres_status_ok: bool,
    pub is_pgpool_status_ok: bool,
    pub timeline_id: i32,
    pub current_wal_lsn: u64,
    pub last_flush_lsn: u64,
}

/// Who holds the lease, and since which term.
#[derive(Clone, Copy, Debug, PartialEq, Eq, Structural)]
pub struct Lease {
    pub holder: i32,
    pub term: u64,
}

/// What came of a claim to the lease.
#[derive(Clone, Copy, Debug, PartialEq, Eq, Structural)]
pub enum TakeoverOutcome {
    /// The claim was granted.
    Won { lease: Lease },
    /// The lease is held, by the given holder where it is known.
    Lost { current: Option<Lease> },
}

/// What came of the outside call that a stage named. A reply that does not
/// answer the call leaves the machine where it is.
pub enum Reply {
    /// The call succeeded and reports nothing.
    Done,
    /// The call failed, with this error.
    Failed(String),
    /// The call succeeded and answers yes or no.
    Flag(bool),
    /// The call succeeded and reports a WAL position.
    Lsn(u64),
    /// The call succeeded and reports a node's state.
    Status(NodeStatus),
    /// The call succeeded and names the journal entry it made.
    Begun(String),
    /// The call succeeded and reports a journal entry, if there is one.
    Entry(Option<InflightOp>),
    /// The check ran and came to this conclusion.
    Verdict(PreconditionOutcome),
    /// The orchestration that was delegated to has answered.
    Outcome(Result<OpResult, Status>),
    /// The call succeeded and describes what it did.
    Text(String),
    /// The claim to the lease was decided.
    Lease(TakeoverOutcome),
}

/// A journal entry to begin.
pub struct JournalBegin {
    /// What the entry is about.
    pub payload: InflightPayload,
    /// The phase that it starts in.
    pub phase: &'static str,
    /// Whether the entry is refused while any other is in progress.
    pub exclusive: bool,
}

/// Where a request leads: to an orchestration that has a call to make, or
/// straight to an answer.
pub enum Turn<M> {
    Ask(M),
    Answer(Result<OpResult, Status>),
}

/// A machine that is fed one reply at a time.
pub trait Machine: Sized {
    /// The machine after one reply.
    spec fn next(self, reply: Reply) -> Self;
}

/// The machine after all of `replies`, in order.
pub open spec fn after<M: Machine>(m: M, replies: Seq<Reply>) -> M
    decreases replies.len(),
{
    if replies.len() == 0 {
        m
    } else {
        after(m, replies.drop_last()).next(replies.last())
    }
}

/// Whether at some point of the run the machine was in a state, and got a
/// reply, of which `call` holds.
pub open spec fn performed<M: Machine>(
    m: M,
    replies: Seq<Reply>,
    call: spec_fn(M, Reply) -> bool,
) -> bool
    decreases replies.len(),
{
    replies.len() > 0 && (performed(m, replies.drop_last(), call) || call(
        after(m, replies.drop_last()),
        replies.last(),
    ))
}

/// What holds at the start and is kept by every reply holds throughout.
pub proof fn lemma_kept<M: Machine>(m: M, replies: Seq<Reply>, inv: spec_fn(M) -> bool)
    requires
        inv(m),
        forall|x: M, r: Reply| inv(x) ==> inv(#[trigger] x.next(r)),
    ensures
        inv(after(m, replies)),
    decreases replies.len(),
{
    if replies.len() > 0 {
        lemma_kept(m, replies.drop_last(), inv);
    }
}

/// What `begin` opens stays open, in the sense of `held`, until `end` closes
/// it.
pub proof fn lemma_held_until<M: Machine>(
    m: M,
    replies: Seq<Reply>,
    begin: spec_fn(M, Reply) -> bool,
    held: spec_fn(M) -> bool,
    end: spec_fn(M, Reply) -> bool,
)
    requires
        forall|x: M, r: Reply|
            held(x) || begin(x, r) ==> held(#[trigger] x.next(r)) || end(x, r),
    ensures
        performed(m, replies, begin) ==> held(after(m, replies)) || performed(m, replies, end),
    decreases replies.len(),
{
    if replies.len() > 0 {
        lemma_held_until(m, replies.drop_last(), begin, held, end);
    }
}

/// What only `begin` opens, in the sense of `open`, and what `end` needs open
/// has been begun wherever it ended.
pub proof fn lemma_comes_after<M: Machine>(
    m: M,
    replies: Seq<Reply>,
    begin: spec_fn(M, Reply) -> bool,
    opened: spec_fn(M) -> bool,
    end: spec_fn(M, Reply) -> bool,
)
    requires
        !opened(m),
        forall|x: M, r: Reply| opened(#[trigger] x.next(r)) ==> opened(x) || begin(x, r),
        forall|x: M, r: Reply| #[trigger] end(x, r) ==> opened(x),
    ensures
        opened(after(m, replies)) ==> performed(m, replies, begin),
        performed(m, replies, end) ==> performed(m, replies, begin),
    decreases replies.len(),
{
    if replies.len() > 0 {
        lemma_comes_after(m, replies.drop_last(), begin, opened, end);
    }
}

/// One of two things happened where the first or the second did.
pub proof fn lemma_either<M: Machine>(
    m: M,
    replies: Seq<Reply>,
    a: spec_fn(M, Reply) -> bool,
    b: spec_fn(M, Reply) -> bool,
)
    ensures
        performed(m, replies, |x: M, r: Reply| a(x, r) || b(x, r)) <==> performed(m, replies, a)
            || performed(m, replies, b),
    decreases replies.len(),
{
    if replies.len() > 0 {
        lemma_either(m, replies.drop_last(), a, b);
    }
}

/// Where `a` leads past every `b` and `b` past every `a`, no run has both.
pub proof fn lemma_excludes<M: Machine>(
    m: M,
    replies: Seq<Reply>,
    a: spec_fn(M, Reply) -> bool,
    past_a: spec_fn(M) -> bool,
    b: spec_fn(M, Reply) -> bool,
    past_b: spec_fn(M) -> bool,
)
    requires
        forall|x: M, r: Reply| past_a(x) || a(x, r) ==> past_a(#[trigger] x.next(r)),
        forall|x: M, r: Reply| past_b(x) || b(x, r) ==> past_b(#[trigger] x.next(r)),
        forall|x: M, r: Reply| #[trigger] a(x, r) ==> !past_b(x) && !b(x, r),
        forall|x: M, r: Reply| #[trigger] b(x, r) ==> !past_a(x),
    ensures
        !(performed(m, replies, a) && performed(m, replies, b)),
        performed(m, replies, a) ==> past_a(after(m, replies)),
        performed(m, replies, b) ==> past_b(after(m, replies)),
    decreases replies.len(),
{
    if replies.len() > 0 {
        lemma_excludes(m, replies.drop_last(), a, past_a, b, past_b);
    }
}

} // verus!
