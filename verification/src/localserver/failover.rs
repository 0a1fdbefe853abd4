//! `failover`: pgpool announces that a backend went down.
//!
//! That the primary is down is only noted: who is promoted is not pgpool's
//! decision. That a standby is down has its replication slot dropped, unless
//! an orchestration owns the slot or the standby turns out to stream.
use crate::config::{lemma_pair_keys_differ, resolved, slot_text, NodeConfig, NodePool, NodeRef};
use crate::inflight_ops::InflightOp;
use crate::maintenance::MaintenancePayload;
use crate::orchestration::{
    after, lemma_comes_after, lemma_excludes, performed, Machine, Reply, Turn,
};
use crate::preconditions::PreconditionOutcome;
use crate::status::{
    answer, bad_argument, broken, decline, no, refuse, succeed, yes, Answer, Code, OpResult, Status,
};
use crate::text::{
    dec, ends_with, holds_text, int_text, lemma_dec_differs, lemma_split_at_comma, stands_at,
    text2, text3, text4, text5,
};
use vstd::prelude::*;

verus! {

/// pgpool's announcement.
pub struct FailoverRequest {
    pub detached: Option<NodeRef>,
    pub new_main: Option<NodeRef>,
    pub old_primary: Option<NodeRef>,
}

/// An announcement that a standby is down, before its marker was looked up.
pub struct FailoverHook {
    pub detached: NodeRef,
    pub new_main: NodeRef,
    pub old_primary: NodeRef,
    /// The key under which the announcement is marked as processed.
    pub key: String,
}

/// The key under which an announcement is marked as processed.
pub open spec fn failover_key(detached: i32, new_main: i32, old_primary: i32) -> Seq<char> {
    "detached="@ + dec(detached as int) + ",new_main="@ + dec(new_main as int) + ",old_primary="@
        + dec(old_primary as int)
}

/// Two announcements are marked under one key only if they name the same nodes.
pub proof fn law_keys_differ(a: (i32, i32, i32), b: (i32, i32, i32))
    requires
        failover_key(a.0, a.1, a.2) == failover_key(b.0, b.1, b.2),
    ensures
        a == b,
{
    reveal_strlit(",new_main=");
    reveal_strlit(",old_primary=");
    let head = "detached="@;
    let s1 = ",new_main="@;
    let s2 = ",old_primary="@;
    let n = head.len() as int;
    let x = s1 + dec(a.1 as int) + s2 + dec(a.2 as int);
    let y = s1 + dec(b.1 as int) + s2 + dec(b.2 as int);
    lemma_dec_differs(a.0 as int, b.0 as int);
    lemma_dec_differs(b.0 as int, a.0 as int);
    assert(failover_key(a.0, a.1, a.2).skip(n) =~= dec(a.0 as int) + x);
    assert(failover_key(b.0, b.1, b.2).skip(n) =~= dec(b.0 as int) + y);
    lemma_split_at_comma(dec(a.0 as int), dec(b.0 as int), x, y);
    lemma_pair_keys_differ(s1, s2, a.1 as int, a.2 as int, b.1 as int, b.2 as int);
}

/// What is said of an announcement that the primary is down.
pub open spec fn advisory(detached: NodeRef, new_main: NodeRef) -> Seq<char> {
    "failover: advisory — lease-driven roles; pgpool announced "@ + detached.hostname@
        + " down (pick "@ + new_main.hostname@ + "), promotion is the HA loop's decision"@
}

/// The answer to an announcement that needs no work.
pub open spec fn failover_answer_to(req: FailoverRequest) -> Option<Answer> {
    match (req.detached, req.new_main, req.old_primary) {
        (None, _, _) => Some(bad_argument("failover: detached is required"@)),
        (_, None, _) => Some(bad_argument("failover: new_main is required"@)),
        (_, _, None) => Some(bad_argument("failover: old_primary is required"@)),
        (Some(detached), Some(new_main), Some(old_primary)) => if new_main.id == -1 {
            Some(no("no standby candidates available"@))
        } else if detached.id == old_primary.id {
            Some(yes(advisory(detached, new_main)))
        } else {
            None
        },
    }
}

impl FailoverHook {
    /// Takes an announcement. Only one that a standby is down needs work, and
    /// leads to a lookup of its marker.
    pub fn new(req: FailoverRequest) -> (r: Turn<FailoverHook>)
        ensures
            match (r, failover_answer_to(req)) {
                (Turn::Answer(a), Some(want)) => answer(a) == want,
                (Turn::Ask(hook), None) => {
                    &&& hook.detached == req.detached->0
                    &&& hook.new_main == req.new_main->0
                    &&& hook.old_primary == req.old_primary->0
                    &&& hook.key@ == failover_key(
                        hook.detached.id,
                        hook.new_main.id,
                        hook.old_primary.id,
                    )
                },
                _ => false,
            },
            req.detached is Some && req.new_main is Some && req.old_primary is Some
                && req.new_main->0.id != -1 ==> (r is Answer <==> req.detached->0.id
                == req.old_primary->0.id),
    {
        let detached = match req.detached {
            Some(n) => n,
            None => {
                return Turn::Answer(
                    refuse(Code::InvalidArgument, "failover: detached is required".to_owned()),
                );
            },
        };
        let new_main = match req.new_main {
            Some(n) => n,
            None => {
                return Turn::Answer(
                    refuse(Code::InvalidArgument, "failover: new_main is required".to_owned()),
                );
            },
        };
        let old_primary = match req.old_primary {
            Some(n) => n,
            None => {
                return Turn::Answer(
                    refuse(Code::InvalidArgument, "failover: old_primary is required".to_owned()),
                );
            },
        };
        if new_main.id == -1 {
            return Turn::Answer(decline("no standby candidates available".to_owned()));
        }
        if detached.id == old_primary.id {
            return Turn::Answer(
                succeed(
                    text5(
                        "failover: advisory — lease-driven roles; pgpool announced ",
                        detached.hostname.as_str(),
                        " down (pick ",
                        new_main.hostname.as_str(),
                        "), promotion is the HA loop's decision",
                    ),
                ),
            );
        }
        let mut key = text4(
            "detached=",
            int_text(detached.id as i64).as_str(),
            ",new_main=",
            int_text(new_main.id as i64).as_str(),
        );
        key.append(",old_primary=");
        key.append(int_text(old_primary.id as i64).as_str());
        Turn::Ask(FailoverHook { detached, new_main, old_primary, key })
    }

    /// The answer that the marker, or an unknown node, leads to.
    pub open spec fn answer_to_marker(self, pool: NodePool, marker: Result<bool, String>) -> Option<
        Answer,
    > {
        match marker {
            Err(e) => Some(broken("failover: idempotency marker check: "@ + e@)),
            Ok(true) => Some(yes("failover: already processed; skipping duplicate"@)),
            Ok(false) => match (
                resolved(pool.members@, self.detached),
                resolved(pool.members@, self.new_main),
                resolved(pool.members@, self.old_primary),
            ) {
                (Err(e), _, _) => Some(bad_argument("failover: detached: "@ + e)),
                (_, Err(e), _) => Some(bad_argument("failover: new_main: "@ + e)),
                (_, _, Err(e)) => Some(bad_argument("failover: old_primary: "@ + e)),
                _ => None,
            },
        }
    }

    /// Goes on with what the lookup of the marker gave.
    pub fn after_marker(self, pool: &NodePool, marker: Result<bool, String>) -> (r: Turn<Failover>)
        ensures
            match (r, self.answer_to_marker(*pool, marker)) {
                (Turn::Answer(a), Some(want)) => answer(a) == want,
                (Turn::Ask(m), None) => {
                    &&& m.key == self.key
                    &&& resolved(pool.members@, self.detached) == Ok::<NodeConfig, Seq<char>>(
                        m.detached,
                    )
                    &&& resolved(pool.members@, self.old_primary) == Ok::<NodeConfig, Seq<char>>(
                        m.old_primary,
                    )
                    &&& m.slot@ == slot_text(m.detached.id)
                    &&& m.stage == FailoverStage::ConsultOwner
                },
                _ => false,
            },
    {
        match marker {
            Err(e) => {
                return Turn::Answer(
                    refuse(
                        Code::Internal,
                        text2("failover: idempotency marker check: ", e.as_str()),
                    ),
                );
            },
            Ok(true) => {
                return Turn::Answer(
                    succeed("failover: already processed; skipping duplicate".to_owned()),
                );
            },
            Ok(false) => {},
        }
        let detached = match pool.resolve_node(&self.detached) {
            Ok(n) => n.clone(),
            Err(e) => {
                return Turn::Answer(
                    refuse(Code::InvalidArgument, text2("failover: detached: ", e.as_str())),
                );
            },
        };
        match pool.resolve_node(&self.new_main) {
            Ok(_) => {},
            Err(e) => {
                return Turn::Answer(
                    refuse(Code::InvalidArgument, text2("failover: new_main: ", e.as_str())),
                );
            },
        }
        let old_primary = match pool.resolve_node(&self.old_primary) {
            Ok(n) => n.clone(),
            Err(e) => {
                return Turn::Answer(
                    refuse(Code::InvalidArgument, text2("failover: old_primary: ", e.as_str())),
                );
            },
        };
        let slot = detached.slot_name();
        Turn::Ask(
            Failover {
                key: self.key,
                detached,
                old_primary,
                slot,
                stage: FailoverStage::ConsultOwner,
            },
        )
    }
}

/// What became of the slot.
pub enum FailoverNote {
    /// An orchestration owns it.
    Retained(InflightOp),
    /// It was dropped.
    Dropped,
    /// It could not be dropped, and the drop is queued.
    Queued,
    /// It could not be dropped, nor could the drop be queued.
    Orphaned,
}

/// The call that is due, or how it ended.
pub enum FailoverStage {
    /// Ask the journal who owns the slot.
    ConsultOwner,
    /// Check that the standby does not stream.
    CheckPrecondition,
    /// Drop the slot here.
    DropSlot,
    /// Queue the drop, which failed with this error.
    QueueCleanup(String),
    /// Mark the announcement as processed.
    WriteMarker(FailoverNote),
    /// The standby streams.
    Refused(String),
    /// The announcement could not be marked.
    MarkerFailed(String),
    /// All done.
    Finished(FailoverNote),
}

/// The standby-down half of `failover`, after its marker was looked up.
pub struct Failover {
    pub key: String,
    pub detached: NodeConfig,
    pub old_primary: NodeConfig,
    pub slot: String,
    pub stage: FailoverStage,
}

/// The stage after `stage` got `reply`.
pub open spec fn failover_next(stage: FailoverStage, reply: Reply) -> FailoverStage {
    match (stage, reply) {
        (FailoverStage::ConsultOwner, Reply::Entry(Some(op))) => FailoverStage::WriteMarker(
            FailoverNote::Retained(op),
        ),
        (FailoverStage::ConsultOwner, Reply::Entry(None)) => FailoverStage::CheckPrecondition,
        (FailoverStage::ConsultOwner, Reply::Failed(_)) => FailoverStage::CheckPrecondition,
        (
            FailoverStage::CheckPrecondition,
            Reply::Verdict(PreconditionOutcome::Refuse { message }),
        ) => FailoverStage::Refused(message),
        (FailoverStage::CheckPrecondition, Reply::Verdict(_)) => FailoverStage::DropSlot,
        (FailoverStage::DropSlot, Reply::Done) => FailoverStage::WriteMarker(FailoverNote::Dropped),
        (FailoverStage::DropSlot, Reply::Failed(e)) => FailoverStage::QueueCleanup(e),
        (FailoverStage::QueueCleanup(_), Reply::Done) => FailoverStage::WriteMarker(
            FailoverNote::Queued,
        ),
        (FailoverStage::QueueCleanup(_), Reply::Failed(_)) => FailoverStage::WriteMarker(
            FailoverNote::Orphaned,
        ),
        (FailoverStage::WriteMarker(note), Reply::Done) => FailoverStage::Finished(note),
        (FailoverStage::WriteMarker(_), Reply::Failed(e)) => FailoverStage::MarkerFailed(e),
        (s, _) => s,
    }
}

impl Machine for Failover {
    open spec fn next(self, reply: Reply) -> Self {
        Failover { stage: failover_next(self.stage, reply), ..self }
    }
}

impl Failover {
    /// What is said of the slot.
    pub open spec fn note_text(self, note: FailoverNote) -> Seq<char> {
        match note {
            FailoverNote::Retained(op) => "standby failover: slot "@ + self.slot@
                + " retained — in-flight "@ + op.payload.name() + " (id="@ + op.id@ + ", phase="@
                + op.phase@ + ") owns node "@ + dec(self.detached.id as int),
            FailoverNote::Dropped => "standby failover: slot "@ + self.slot@ + " dropped"@,
            FailoverNote::Queued => "drop slot "@ + self.slot@ + " on "@ + self.old_primary.hostname@
                + " failed, queued maintenance cleanup"@,
            FailoverNote::Orphaned => "drop slot "@ + self.slot@ + " on "@
                + self.old_primary.hostname@ + " failed; maintenance enqueue also failed"@,
        }
    }

    /// The answer, once there is one.
    pub open spec fn outcome(self) -> Option<Answer> {
        match self.stage {
            FailoverStage::Refused(message) => Some(no(message@)),
            FailoverStage::MarkerFailed(e) => Some(
                broken("failover: idempotency marker write: "@ + e@),
            ),
            FailoverStage::Finished(note) => Some(yes(self.note_text(note))),
            _ => None,
        }
    }

    /// The node that the call that is due goes to; none, where it is made here
    /// or no call is due.
    pub open spec fn called(self) -> Option<NodeConfig> {
        match self.stage {
            FailoverStage::CheckPrecondition => Some(self.detached),
            _ => None,
        }
    }

    /// The node that the call that is due goes to; none, where it is made here
    /// or no call is due.
    pub fn callee(&self) -> (r: Option<&NodeConfig>)
        ensures
            match (r, self.called()) {
                (Some(n), Some(want)) => *n == want,
                (None, None) => true,
                _ => false,
            },
            r is Some <==> (self.stage is CheckPrecondition),
            self.stage is CheckPrecondition ==> r is Some && *r->0 == self.detached,
    {
        match &self.stage {
            FailoverStage::CheckPrecondition => Some(&self.detached),
            _ => None,
        }
    }

    /// Takes the reply to the call that was due.
    pub fn step(self, reply: Reply) -> (r: Self)
        ensures
            r == self.next(reply),
    {
        let stage = match (self.stage, reply) {
            (FailoverStage::ConsultOwner, Reply::Entry(Some(op))) => FailoverStage::WriteMarker(
                FailoverNote::Retained(op),
            ),
            (FailoverStage::ConsultOwner, Reply::Entry(None)) => FailoverStage::CheckPrecondition,
            (FailoverStage::ConsultOwner, Reply::Failed(_)) => FailoverStage::CheckPrecondition,
            (FailoverStage::CheckPrecondition, Reply::Verdict(verdict)) => match verdict {
                PreconditionOutcome::Refuse { message } => FailoverStage::Refused(message),
                _ => FailoverStage::DropSlot,
            },
            (FailoverStage::DropSlot, Reply::Done) => FailoverStage::WriteMarker(
                FailoverNote::Dropped,
            ),
            (FailoverStage::DropSlot, Reply::Failed(e)) => FailoverStage::QueueCleanup(e),
            (FailoverStage::QueueCleanup(_), Reply::Done) => FailoverStage::WriteMarker(
                FailoverNote::Queued,
            ),
            (FailoverStage::QueueCleanup(_), Reply::Failed(_)) => FailoverStage::WriteMarker(
                FailoverNote::Orphaned,
            ),
            (FailoverStage::WriteMarker(note), Reply::Done) => FailoverStage::Finished(note),
            (FailoverStage::WriteMarker(_), Reply::Failed(e)) => FailoverStage::MarkerFailed(e),
            (s, _) => s,
        };
        Failover { stage, ..self }
    }

    /// The cleanup to queue, where one is due.
    pub fn cleanup(&self) -> (r: Option<MaintenancePayload>)
        ensures
            match (r, self.stage) {
                (Some(p), FailoverStage::QueueCleanup(e)) => p.is_cleanup(
                    self.slot@,
                    self.old_primary.hostname@,
                    "standby_down_local_drop_error"@,
                    e@,
                ),
                (None, FailoverStage::QueueCleanup(_)) => false,
                (r, _) => r is None,
            },
    {
        match &self.stage {
            FailoverStage::QueueCleanup(e) => Some(
                MaintenancePayload::cleanup(
                    self.slot.as_str(),
                    self.old_primary.hostname.as_str(),
                    "standby_down_local_drop_error",
                    e.as_str(),
                ),
            ),
            _ => None,
        }
    }

    fn note(&self, note: &FailoverNote) -> (r: String)
        ensures
            r@ == self.note_text(*note),
    {
        match note {
            FailoverNote::Retained(op) => {
                let mut s = text4(
                    "standby failover: slot ",
                    self.slot.as_str(),
                    " retained — in-flight ",
                    op.payload.op_name(),
                );
                s.append(" (id=");
                s.append(op.id.as_str());
                s.append(", phase=");
                s.append(op.phase.as_str());
                s.append(") owns node ");
                s.append(int_text(self.detached.id as i64).as_str());
                s
            },
            FailoverNote::Dropped => text3(
                "standby failover: slot ",
                self.slot.as_str(),
                " dropped",
            ),
            FailoverNote::Queued => text5(
                "drop slot ",
                self.slot.as_str(),
                " on ",
                self.old_primary.hostname.as_str(),
                " failed, queued maintenance cleanup",
            ),
            FailoverNote::Orphaned => text5(
                "drop slot ",
                self.slot.as_str(),
                " on ",
                self.old_primary.hostname.as_str(),
                " failed; maintenance enqueue also failed",
            ),
        }
    }

    /// The answer, once there is one.
    pub fn answer(&self) -> (r: Option<Result<OpResult, Status>>)
        ensures
            match (r, self.outcome()) {
                (Some(a), Some(want)) => answer(a) == want,
                (None, None) => true,
                _ => false,
            },
    {
        match &self.stage {
            FailoverStage::Refused(message) => Some(decline(message.clone())),
            FailoverStage::MarkerFailed(e) => Some(
                refuse(
                    Code::Internal,
                    text2("failover: idempotency marker write: ", e.as_str()),
                ),
            ),
            FailoverStage::Finished(note) => Some(succeed(self.note(note))),
            _ => None,
        }
    }
}

/// The slot is dropped only after the journal named no owner and the check did
/// not refuse.
pub proof fn law_drop_follows_the_checks(m: Failover, replies: Seq<Reply>)
    requires
        m.stage == FailoverStage::ConsultOwner,
        performed(m, replies, |x: Failover, r: Reply| x.stage == FailoverStage::DropSlot),
    ensures
        performed(
            m,
            replies,
            |x: Failover, r: Reply|
                x.stage == FailoverStage::ConsultOwner && (r is Failed || r == Reply::Entry(None)),
        ),
        performed(
            m,
            replies,
            |x: Failover, r: Reply|
                x.stage == FailoverStage::CheckPrecondition && r is Verdict && !(
                r->Verdict_0 is Refuse),
        ),
{
    let drop = |x: Failover, r: Reply| x.stage == FailoverStage::DropSlot;
    lemma_comes_after(
        m,
        replies,
        |x: Failover, r: Reply|
            x.stage == FailoverStage::ConsultOwner && (r is Failed || r == Reply::Entry(None)),
        |x: Failover|
            x.stage is CheckPrecondition || x.stage is DropSlot || x.stage is QueueCleanup,
        drop,
    );
    lemma_comes_after(
        m,
        replies,
        |x: Failover, r: Reply|
            x.stage == FailoverStage::CheckPrecondition && r is Verdict && !(r->Verdict_0 is Refuse),
        |x: Failover| x.stage is DropSlot,
        drop,
    );
}

/// A slot that an orchestration owns is never dropped.
pub proof fn law_owned_slot_is_retained(m: Failover, replies: Seq<Reply>)
    requires
        performed(
            m,
            replies,
            |x: Failover, r: Reply|
                x.stage == FailoverStage::ConsultOwner && r is Entry && r->Entry_0 is Some,
        ),
    ensures
        !performed(m, replies, |x: Failover, r: Reply| x.stage == FailoverStage::DropSlot),
{
    lemma_excludes(
        m,
        replies,
        |x: Failover, r: Reply|
            x.stage == FailoverStage::ConsultOwner && r is Entry && r->Entry_0 is Some,
        |x: Failover|
            x.stage is WriteMarker || x.stage is Finished || x.stage is MarkerFailed,
        |x: Failover, r: Reply| x.stage == FailoverStage::DropSlot,
        |x: Failover| !(x.stage is ConsultOwner),
    );
}

/// A check that refuses ends the matter: nothing is dropped, and the
/// announcement is not marked, so that it can be made again.
pub proof fn law_refusal_leaves_no_trace(m: Failover, replies: Seq<Reply>)
    requires
        m.stage == FailoverStage::ConsultOwner,
        after(m, replies).stage is Refused,
    ensures
        !performed(m, replies, |x: Failover, r: Reply| x.stage == FailoverStage::DropSlot),
        !performed(m, replies, |x: Failover, r: Reply| x.stage is WriteMarker),
{
    lemma_excludes(
        m,
        replies,
        |x: Failover, r: Reply| x.stage == FailoverStage::DropSlot,
        |x: Failover|
            !(x.stage is ConsultOwner || x.stage is CheckPrecondition || x.stage is Refused),
        |x: Failover, r: Reply| false,
        |x: Failover| false,
    );
    lemma_excludes(
        m,
        replies,
        |x: Failover, r: Reply| x.stage is WriteMarker,
        |x: Failover|
            x.stage is WriteMarker || x.stage is Finished || x.stage is MarkerFailed,
        |x: Failover, r: Reply| false,
        |x: Failover| false,
    );
}

/// An announcement that was dealt with is marked as processed.
pub proof fn law_finished_is_marked(m: Failover, replies: Seq<Reply>)
    requires
        m.stage == FailoverStage::ConsultOwner,
        after(m, replies).stage is Finished,
    ensures
        performed(m, replies, |x: Failover, r: Reply| x.stage is WriteMarker && r is Done),
{
    lemma_comes_after(
        m,
        replies,
        |x: Failover, r: Reply| x.stage is WriteMarker && r is Done,
        |x: Failover| x.stage is Finished,
        |x: Failover, r: Reply| false,
    );
}

/// The check comes only where the journal names no owner, or cannot be read; the
/// drop only where the check does not refuse; the queue only where the drop
/// failed. The announcement is marked for what became of the slot, and only a
/// marked one is finished.
pub proof fn law_how_each_stage_comes_about(x: Failover, r: Reply)
    ensures
        ({
            let t = x.next(r).stage;
            t == x.stage || match t {
                FailoverStage::ConsultOwner => false,
                FailoverStage::CheckPrecondition => x.stage is ConsultOwner
                    && (r == Reply::Entry(None) || r is Failed),
                FailoverStage::DropSlot => x.stage is CheckPrecondition && r is Verdict
                    && !(r->Verdict_0 is Refuse),
                FailoverStage::QueueCleanup(e) => x.stage is DropSlot && r == Reply::Failed(e),
                FailoverStage::WriteMarker(note) => match note {
                    FailoverNote::Retained(op) => x.stage is ConsultOwner && r == Reply::Entry(
                        Some(op),
                    ),
                    FailoverNote::Dropped => x.stage is DropSlot && r is Done,
                    FailoverNote::Queued => x.stage is QueueCleanup && r is Done,
                    FailoverNote::Orphaned => x.stage is QueueCleanup && r is Failed,
                },
                FailoverStage::Refused(message) => x.stage is CheckPrecondition
                    && r == Reply::Verdict(
                    PreconditionOutcome::Refuse { message },
                ),
                FailoverStage::MarkerFailed(e) => x.stage is WriteMarker && r == Reply::Failed(e),
                FailoverStage::Finished(note) => x.stage == FailoverStage::WriteMarker(note)
                    && r is Done,
            }
        }),
{
}

/// An answer to the call that is due moves the run on, and nothing else does;
/// the nodes, the slot and the key stay.
pub proof fn law_every_reply_counts(x: Failover, r: Reply)
    ensures
        ({
            let answers = match x.stage {
                FailoverStage::ConsultOwner => r is Entry || r is Failed,
                FailoverStage::CheckPrecondition => r is Verdict,
                FailoverStage::DropSlot | FailoverStage::QueueCleanup(_)
                | FailoverStage::WriteMarker(_) => r is Done || r is Failed,
                _ => false,
            };
            &&& answers ==> x.next(r).stage != x.stage
            &&& !answers ==> x.next(r) == x
            &&& x.next(r) == (Failover { stage: x.next(r).stage, ..x })
        }),
{
}

/// An announcement that names all three nodes and a candidate is answered at
/// once exactly where the node that went down is the primary, whoever the
/// candidate is; where another node went down the run goes on. Without a
/// candidate the answer is negative, and where a node is not named it is a
/// refusal.
pub proof fn law_only_a_lost_standby_needs_work(req: FailoverRequest)
    ensures
        req.detached is Some && req.new_main is Some && req.old_primary is Some ==> ({
            let a = failover_answer_to(req);
            if req.new_main->0.id == -1 {
                a is Some && a->0 is Result && !a->0->ok
            } else if req.detached->0.id == req.old_primary->0.id {
                a is Some && a->0 is Result && a->0->ok
            } else {
                a is None
            }
        }),
        req.detached is None || req.new_main is None || req.old_primary is None ==> ({
            let a = failover_answer_to(req);
            a is Some && a->0 is Refusal && a->0->code == Code::InvalidArgument
        }),
{
}

/// What is said of a lost primary depends only on the two hostnames, and tells
/// both.
pub proof fn law_advisory_names_both_nodes(a: NodeRef, b: NodeRef)
    ensures
        holds_text(advisory(a, b), a.hostname@),
        holds_text(advisory(a, b), b.hostname@),
{
    let head = "failover: advisory — lease-driven roles; pgpool announced "@;
    let mid = " down (pick "@;
    let s = advisory(a, b);
    assert(s.subrange(
        head.len() as int,
        (head.len() + a.hostname@.len()) as int,
    ) =~= a.hostname@);
    assert(stands_at(s, a.hostname@, head.len() as int));
    let k = head.len() + a.hostname@.len() + mid.len();
    assert(s.subrange(k as int, (k + b.hostname@.len()) as int) =~= b.hostname@);
    assert(stands_at(s, b.hostname@, k as int));
}

/// A run goes on exactly where the announcement was not processed before and
/// its nodes are members.
pub proof fn law_announcements_that_go_on(
    hook: FailoverHook,
    pool: NodePool,
    marker: Result<bool, String>,
)
    ensures
        match hook.answer_to_marker(pool, marker) {
            None => marker == Ok::<bool, String>(false)
                && resolved(pool.members@, hook.detached) is Ok
                && resolved(pool.members@, hook.new_main) is Ok && resolved(
                pool.members@,
                hook.old_primary,
            ) is Ok,
            Some(Answer::Result { ok, message }) => ok && marker == Ok::<bool, String>(true),
            Some(Answer::Refusal { code, message }) => if marker is Err {
                code == Code::Internal && ends_with(message, marker->Err_0@)
            } else {
                code == Code::InvalidArgument && marker == Ok::<bool, String>(false) && !(resolved(
                    pool.members@,
                    hook.detached,
                ) is Ok && resolved(pool.members@, hook.new_main) is Ok && resolved(
                    pool.members@,
                    hook.old_primary,
                ) is Ok)
            },
        },
{
    if let Err(e) = marker {
        let s = "failover: idempotency marker check: "@ + e@;
        assert(s.skip(s.len() - e@.len()) =~= e@);
    }
}

/// The answer is positive exactly where the announcement was marked, negative
/// where the check refused, with its words, and a refusal where marking
/// failed.
pub proof fn law_answers_tell_the_end(x: Failover)
    ensures
        match x.outcome() {
            None => !(x.stage is Refused || x.stage is MarkerFailed || x.stage is Finished),
            Some(Answer::Result { ok, message }) => if ok {
                x.stage is Finished
            } else {
                x.stage is Refused && message == x.stage->Refused_0@
            },
            Some(Answer::Refusal { code, message }) => code == Code::Internal
                && x.stage is MarkerFailed && ends_with(message, x.stage->MarkerFailed_0@),
        },
{
    if x.stage is MarkerFailed {
        let e = x.stage->MarkerFailed_0@;
        let s = "failover: idempotency marker write: "@ + e;
        assert(s.skip(s.len() - e.len()) =~= e);
    }
}

/// The standby that went down is the only node that is asked, and only by the
/// check.
pub proof fn law_only_the_lost_standby_is_asked(x: Failover)
    ensures
        x.called() == if x.stage is CheckPrecondition {
            Some(x.detached)
        } else {
            None
        },
{
}

/// What is said of a slot tells the slot, and where it is retained, for which
/// orchestration.
pub proof fn law_notes_tell_the_slot(x: Failover, note: FailoverNote)
    ensures
        holds_text(x.note_text(note), x.slot@),
        note is Retained ==> holds_text(x.note_text(note), note->Retained_0.id@),
        note is Queued || note is Orphaned ==> holds_text(
            x.note_text(note),
            x.old_primary.hostname@,
        ),
{
    let s = x.note_text(note);
    let n = match note {
        FailoverNote::Retained(_) | FailoverNote::Dropped => "standby failover: slot "@.len() as int,
        _ => "drop slot "@.len() as int,
    };
    assert(s.subrange(n, n + x.slot@.len()) =~= x.slot@);
    assert(stands_at(s, x.slot@, n));
    if let FailoverNote::Retained(op) = note {
        let k = n + x.slot@.len() + " retained — in-flight "@.len() + op.payload.name().len()
            + " (id="@.len();
        assert(s.subrange(k, k + op.id@.len()) =~= op.id@);
        assert(stands_at(s, op.id@, k));
    }
    if note is Queued || note is Orphaned {
        let h = x.old_primary.hostname@;
        let k = n + x.slot@.len() + " on "@.len();
        assert(s.subrange(k, k + h.len()) =~= h);
        assert(stands_at(s, h, k));
    }
}

} // verus!
