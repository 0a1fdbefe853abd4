//! `cluster handoff`: the operator has the primary, which is the node this
//! runs on, hand its role to a standby.
//!
//! Before anything is journaled the target has to run, to be a standby, and
//! to lack no more WAL than one segment.
use crate::config::{
    first_with_id, lemma_first_with_id, lemma_pair_keys_differ, slot_text, unknown_id, NodeConfig,
    NodePool, MAX_HANDOFF_LAG_BYTES,
};
use crate::inflight_ops::{InflightOp, InflightPayload, InflightStatus};
use crate::localserver::handoff::{Handoff, HandoffStage, HANDOFF_PHASE_PREFLIGHT_DONE};
use crate::orchestration::{
    after, lemma_comes_after, performed, JournalBegin, Machine, NodeStatus, Reply, Turn,
};
use crate::status::{
    answer, bad_argument, broken, decline, no, refuse, succeed, yes, Answer, Code, OpResult, Status,
};
use crate::text::{
    dec, ends_with, holds_text, int_text, lsn_string, lsn_text, nat_text, stands_at, text2, text3,
    text4, text5,
};
use vstd::prelude::*;

verus! {

/// The operator's request.
pub struct ClusterHandoffRequest {
    pub target_node_id: i32,
    /// Hand over even to a target that lacks WAL.
    pub allow_lag: bool,
}

/// A handoff before its ladder.
pub struct ClusterHandoff {
    pub local: NodeConfig,
    pub target: NodeConfig,
    pub allow_lag: bool,
    /// The key under which the journal knows the handoff.
    pub key: String,
    pub slot: String,
    pub stage: PreflightStage,
}

/// A step that can fail for good.
#[derive(Clone, Copy, Debug, PartialEq, Eq, Structural)]
pub enum PreflightStep {
    Find,
    Dial,
    GetStatus,
    LocalLsn,
}

/// Why the handoff does not go ahead.
pub enum Objection {
    /// It was made already.
    AlreadyDone,
    /// It is going on.
    InFlight(InflightOp),
    /// PostgreSQL does not run on the target.
    TargetStopped,
    /// The target is a primary.
    TargetIsPrimary,
    /// How much WAL the target lacks is not known.
    LagUnknown { local: u64, target: u64 },
    /// The target lacks too much WAL.
    LagTooLarge { local: u64, target: u64 },
    /// The journal does not take it.
    NotBegun(String),
}

/// The call that is due, or how it ended.
pub enum PreflightStage {
    /// Search the journal for the same handoff.
    Find,
    /// Dial the target.
    Dial,
    /// Ask the target for its state.
    GetStatus,
    /// Ask the local database for its WAL position; the target is at this one.
    LocalLsn(u64),
    /// Begin the journal entry.
    Begin,
    /// Climb the ladder under this journal entry.
    Ladder(String),
    /// Have the other standbys follow the new primary.
    FanOut(OpResult),
    /// A step failed with this error.
    Failed(PreflightStep, String),
    /// The handoff does not go ahead.
    Refused(Objection),
    /// The ladder was left with this answer.
    Answered(Result<OpResult, Status>),
}

/// The key under which the journal knows a handoff.
pub open spec fn handoff_key(from: i32, to: i32) -> Seq<char> {
    "from="@ + dec(from as int) + ",to="@ + dec(to as int)
}

/// The journal knows two handoffs by one key only if they are between the same
/// nodes.
pub proof fn law_keys_differ(a: (i32, i32), b: (i32, i32))
    requires
        handoff_key(a.0, a.1) == handoff_key(b.0, b.1),
    ensures
        a == b,
{
    reveal_strlit(",to=");
    lemma_pair_keys_differ("from="@, ",to="@, a.0 as int, a.1 as int, b.0 as int, b.1 as int);
}

/// What the check of the local role, or the choice of the target, leads to.
pub open spec fn handoff_answer_to(
    req: ClusterHandoffRequest,
    pool: NodePool,
    in_recovery: Result<bool, String>,
) -> Option<Answer> {
    match in_recovery {
        Err(e) => Some(broken("cluster_handoff: is_in_recovery: "@ + e@)),
        Ok(true) => Some(
            no(
                "cluster_handoff: local node is not the primary (in recovery); run this on the current primary"@,
            ),
        ),
        Ok(false) => match (
            first_with_id(pool.members@, pool.local_node_id),
            first_with_id(pool.members@, req.target_node_id),
        ) {
            (None, _) => Some(
                broken("cluster_handoff: resolve local: "@ + unknown_id(pool.local_node_id)),
            ),
            (_, None) => Some(
                bad_argument(
                    "cluster_handoff: target node "@ + dec(req.target_node_id as int) + ": "@
                        + unknown_id(req.target_node_id),
                ),
            ),
            (_, Some(target)) => if target.id == pool.local_node_id {
                Some(
                    bad_argument(
                        "cluster_handoff: target is the local node — handoff target must be a peer"@,
                    ),
                )
            } else {
                None
            },
        },
    }
}

/// How much WAL lies between two positions.
pub open spec fn lag_of(local: u64, target: u64) -> int {
    if local > target {
        local - target
    } else {
        0
    }
}

/// The stage after the target reported its state.
pub open spec fn preflight_status(status: NodeStatus, allow_lag: bool) -> PreflightStage {
    if !status.is_postgres_running {
        PreflightStage::Refused(Objection::TargetStopped)
    } else if !status.is_in_recovery {
        PreflightStage::Refused(Objection::TargetIsPrimary)
    } else if allow_lag {
        PreflightStage::Begin
    } else {
        PreflightStage::LocalLsn(status.current_wal_lsn)
    }
}

/// The stage after both WAL positions are known. A position of zero is none.
pub open spec fn preflight_lag(local: u64, target: u64) -> PreflightStage {
    if local == 0 || target == 0 {
        PreflightStage::Refused(Objection::LagUnknown { local, target })
    } else if lag_of(local, target) > MAX_HANDOFF_LAG_BYTES {
        PreflightStage::Refused(Objection::LagTooLarge { local, target })
    } else {
        PreflightStage::Begin
    }
}

/// The stage after the journal was searched.
pub open spec fn preflight_found(found: Option<InflightOp>) -> PreflightStage {
    match found {
        Some(op) => match op.status {
            InflightStatus::Done => PreflightStage::Refused(Objection::AlreadyDone),
            InflightStatus::InProgress => PreflightStage::Refused(Objection::InFlight(op)),
            InflightStatus::Abandoned => PreflightStage::Dial,
        },
        None => PreflightStage::Dial,
    }
}

/// The stage after `stage` got `reply`.
pub open spec fn preflight_next(
    stage: PreflightStage,
    reply: Reply,
    allow_lag: bool,
) -> PreflightStage {
    match (stage, reply) {
        (PreflightStage::Find, Reply::Entry(found)) => preflight_found(found),
        (PreflightStage::Find, Reply::Failed(e)) => PreflightStage::Failed(PreflightStep::Find, e),
        (PreflightStage::Dial, Reply::Done) => PreflightStage::GetStatus,
        (PreflightStage::Dial, Reply::Failed(e)) => PreflightStage::Failed(PreflightStep::Dial, e),
        (PreflightStage::GetStatus, Reply::Status(status)) => preflight_status(status, allow_lag),
        (PreflightStage::GetStatus, Reply::Failed(e)) => PreflightStage::Failed(
            PreflightStep::GetStatus,
            e,
        ),
        (PreflightStage::LocalLsn(target), Reply::Lsn(local)) => preflight_lag(local, target),
        (PreflightStage::LocalLsn(_), Reply::Failed(e)) => PreflightStage::Failed(
            PreflightStep::LocalLsn,
            e,
        ),
        (PreflightStage::Begin, Reply::Begun(id)) => PreflightStage::Ladder(id),
        (PreflightStage::Begin, Reply::Failed(e)) => PreflightStage::Refused(
            Objection::NotBegun(e),
        ),
        (PreflightStage::Ladder(_), Reply::Outcome(r)) => match r {
            Ok(o) => if o.ok {
                PreflightStage::FanOut(o)
            } else {
                PreflightStage::Answered(Ok(o))
            },
            Err(s) => PreflightStage::Answered(Err(s)),
        },
        (PreflightStage::FanOut(o), Reply::Done) => PreflightStage::Answered(Ok(o)),
        (s, _) => s,
    }
}

impl Machine for ClusterHandoff {
    open spec fn next(self, reply: Reply) -> Self {
        ClusterHandoff { stage: preflight_next(self.stage, reply, self.allow_lag), ..self }
    }
}

impl ClusterHandoff {
    /// Goes on with what the check of the local role gave.
    pub fn after_role_check(
        req: ClusterHandoffRequest,
        pool: &NodePool,
        in_recovery: Result<bool, String>,
    ) -> (r: Turn<ClusterHandoff>)
        ensures
            match (r, handoff_answer_to(req, *pool, in_recovery)) {
                (Turn::Answer(a), Some(want)) => answer(a) == want,
                (Turn::Ask(m), None) => {
                    &&& first_with_id(pool.members@, pool.local_node_id) == Some(m.local)
                    &&& first_with_id(pool.members@, req.target_node_id) == Some(m.target)
                    &&& m.allow_lag == req.allow_lag
                    &&& m.key@ == handoff_key(m.local.id, m.target.id)
                    &&& m.slot@ == slot_text(m.local.id)
                    &&& m.stage == PreflightStage::Find
                },
                _ => false,
            },
    {
        match in_recovery {
            Err(e) => {
                return Turn::Answer(
                    refuse(Code::Internal, text2("cluster_handoff: is_in_recovery: ", e.as_str())),
                );
            },
            Ok(true) => {
                return Turn::Answer(
                    decline(
                        "cluster_handoff: local node is not the primary (in recovery); run this on the current primary".to_owned(),
                    ),
                );
            },
            Ok(false) => {},
        }
        let local = match pool.local_node() {
            Ok(n) => n.clone(),
            Err(e) => {
                return Turn::Answer(
                    refuse(Code::Internal, text2("cluster_handoff: resolve local: ", e.as_str())),
                );
            },
        };
        let target = match pool.node_by_id(req.target_node_id) {
            Ok(n) => n.clone(),
            Err(e) => {
                return Turn::Answer(
                    refuse(
                        Code::InvalidArgument,
                        text4(
                            "cluster_handoff: target node ",
                            int_text(req.target_node_id as i64).as_str(),
                            ": ",
                            e.as_str(),
                        ),
                    ),
                );
            },
        };
        if pool.is_local(&target) {
            return Turn::Answer(
                refuse(
                    Code::InvalidArgument,
                    "cluster_handoff: target is the local node — handoff target must be a peer".to_owned(),
                ),
            );
        }
        let key = text4(
            "from=",
            int_text(local.id as i64).as_str(),
            ",to=",
            int_text(target.id as i64).as_str(),
        );
        let slot = local.slot_name();
        Turn::Ask(
            ClusterHandoff {
                local,
                target,
                allow_lag: req.allow_lag,
                key,
                slot,
                stage: PreflightStage::Find,
            },
        )
    }

    /// The node that the call that is due goes to; none, where it is made here
    /// or no call is due.
    pub open spec fn called(self) -> Option<NodeConfig> {
        match self.stage {
            PreflightStage::Dial | PreflightStage::GetStatus => Some(self.target),
            _ => None,
        }
    }

    /// The node that the call that is due goes to; none, where it is made here
    /// or no call is due.
    pub fn callee(&self) -> (r: Option<&NodeConfig>)
        ensures
            match (r, self.called()) {
                (Some(n), Some(want)) => *n == want,
                (None, None) => true,
                _ => false,
            },
            r is Some <==> (self.stage is Dial || self.stage is GetStatus),
            self.stage is Dial || self.stage is GetStatus ==> r is Some && *r->0 == self.target,
    {
        match &self.stage {
            PreflightStage::Dial => Some(&self.target),
            PreflightStage::GetStatus => Some(&self.target),
            _ => None,
        }
    }

    /// Takes the reply to the call that was due.
    pub fn step(self, reply: Reply) -> (r: Self)
        ensures
            r == self.next(reply),
            r.stage is LocalLsn && !(self.stage is LocalLsn) ==> reply is Status
                && r.stage->LocalLsn_0 == reply->Status_0.current_wal_lsn,
            r.stage is Begin && self.stage is LocalLsn ==> reply is Lsn && reply->Lsn_0 > 0
                && self.stage->LocalLsn_0 > 0 && reply->Lsn_0 - self.stage->LocalLsn_0
                <= MAX_HANDOFF_LAG_BYTES,
    {
        let allow_lag = self.allow_lag;
        let stage = match (self.stage, reply) {
            (PreflightStage::Find, Reply::Entry(found)) => match found {
                Some(op) => match op.status {
                    InflightStatus::Done => PreflightStage::Refused(Objection::AlreadyDone),
                    InflightStatus::InProgress => PreflightStage::Refused(Objection::InFlight(op)),
                    InflightStatus::Abandoned => PreflightStage::Dial,
                },
                None => PreflightStage::Dial,
            },
            (PreflightStage::Find, Reply::Failed(e)) => PreflightStage::Failed(
                PreflightStep::Find,
                e,
            ),
            (PreflightStage::Dial, Reply::Done) => PreflightStage::GetStatus,
            (PreflightStage::Dial, Reply::Failed(e)) => PreflightStage::Failed(
                PreflightStep::Dial,
                e,
            ),
            (PreflightStage::GetStatus, Reply::Status(status)) => {
                if !status.is_postgres_running {
                    PreflightStage::Refused(Objection::TargetStopped)
                } else if !status.is_in_recovery {
                    PreflightStage::Refused(Objection::TargetIsPrimary)
                } else if allow_lag {
                    PreflightStage::Begin
                } else {
                    PreflightStage::LocalLsn(status.current_wal_lsn)
                }
            },
            (PreflightStage::GetStatus, Reply::Failed(e)) => PreflightStage::Failed(
                PreflightStep::GetStatus,
                e,
            ),
            (PreflightStage::LocalLsn(target), Reply::Lsn(local)) => {
                if local == 0 || target == 0 {
                    PreflightStage::Refused(Objection::LagUnknown { local, target })
                } else if local.saturating_sub(target) > MAX_HANDOFF_LAG_BYTES {
                    PreflightStage::Refused(Objection::LagTooLarge { local, target })
                } else {
                    PreflightStage::Begin
                }
            },
            (PreflightStage::LocalLsn(_), Reply::Failed(e)) => PreflightStage::Failed(
                PreflightStep::LocalLsn,
                e,
            ),
            (PreflightStage::Begin, Reply::Begun(id)) => PreflightStage::Ladder(id),
            (PreflightStage::Begin, Reply::Failed(e)) => PreflightStage::Refused(
                Objection::NotBegun(e),
            ),
            (PreflightStage::Ladder(_), Reply::Outcome(r)) => match r {
                Ok(o) => {
                    if o.ok {
                        PreflightStage::FanOut(o)
                    } else {
                        PreflightStage::Answered(Ok(o))
                    }
                },
                Err(s) => PreflightStage::Answered(Err(s)),
            },
            (PreflightStage::FanOut(o), Reply::Done) => PreflightStage::Answered(Ok(o)),
            (s, _) => s,
        };
        ClusterHandoff { stage, ..self }
    }

    /// The journal entry to begin: no other may be in progress.
    pub fn begin(&self) -> (r: JournalBegin)
        ensures
            match r.payload {
                InflightPayload::Handoff {
                    from_node_id,
                    to_node_id,
                    to_hostname,
                    slot_name,
                    allow_lag,
                } => from_node_id == self.local.id && to_node_id == self.target.id && to_hostname@
                    == self.target.hostname@ && slot_name@ == self.slot@ && allow_lag
                    == self.allow_lag,
                _ => false,
            },
            r.phase@ == HANDOFF_PHASE_PREFLIGHT_DONE@,
            r.exclusive,
    {
        JournalBegin {
            payload: InflightPayload::Handoff {
                from_node_id: self.local.id,
                to_node_id: self.target.id,
                to_hostname: self.target.hostname.clone(),
                slot_name: self.slot.clone(),
                allow_lag: self.allow_lag,
            },
            phase: HANDOFF_PHASE_PREFLIGHT_DONE,
            exclusive: true,
        }
    }

    /// The ladder to climb, from its bottom, where that is due.
    pub fn ladder(&self) -> (r: Option<Handoff>)
        ensures
            match (r, self.stage) {
                (Some(h), PreflightStage::Ladder(id)) => h == (Handoff {
                    op_id: id,
                    target: self.target,
                    local: self.local,
                    slot: self.slot,
                    basebackup_ran: false,
                    attach_error: None,
                    stage: HandoffStage::Checkpoint,
                }),
                (None, PreflightStage::Ladder(_)) => false,
                (r, _) => r is None,
            },
    {
        match &self.stage {
            PreflightStage::Ladder(id) => Some(
                Handoff {
                    op_id: id.clone(),
                    target: self.target.clone(),
                    local: self.local.clone(),
                    slot: self.slot.clone(),
                    basebackup_ran: false,
                    attach_error: None,
                    stage: HandoffStage::Checkpoint,
                },
            ),
            _ => None,
        }
    }

    /// What is said of a step that failed.
    pub open spec fn failure_text(self, step: PreflightStep, e: Seq<char>) -> Seq<char> {
        match step {
            PreflightStep::Find => "cluster_handoff: inflight lookup: "@ + e,
            PreflightStep::Dial => "cluster_handoff: dial peer "@ + self.target.hostname@ + ": "@ + e,
            PreflightStep::GetStatus => "cluster_handoff: peer get_status "@ + self.target.hostname@
                + ": "@ + e,
            PreflightStep::LocalLsn => "cluster_handoff: local current_wal_lsn: "@ + e,
        }
    }

    /// What is said of a handoff that does not go ahead.
    pub open spec fn objection_answer(self, objection: Objection) -> Answer {
        match objection {
            Objection::AlreadyDone => yes(
                "cluster_handoff: already processed; skipping duplicate"@,
            ),
            Objection::InFlight(op) => no(
                "cluster_handoff: handoff already in flight (id="@ + op.id@ + ", phase="@ + op.phase@
                    + "); resume with `pg_agentctl ops resume "@ + op.id@
                    + "` or abandon with `pg_agentctl ops abandon "@ + op.id@ + "`"@,
            ),
            Objection::TargetStopped => no(
                "cluster_handoff: target "@ + self.target.hostname@
                    + " has postgres stopped; start it first or pick a different target"@,
            ),
            Objection::TargetIsPrimary => no(
                "cluster_handoff: target "@ + self.target.hostname@
                    + " is not a standby (already primary); pick a standby as the handoff target"@,
            ),
            Objection::LagUnknown { local, target } => no(
                "cluster_handoff: cannot measure lag — local current_wal_lsn="@ + dec(local as int)
                    + " target last_replay_lsn="@ + dec(target as int)
                    + " (a 0 value means the LSN probe failed or the peer is on a pre-0.4.0 build); rerun with --allow-lag to override (will accept unknown data loss)"@,
            ),
            Objection::LagTooLarge { local, target } => no(
                "cluster_handoff: target "@ + self.target.hostname@ + " is "@ + dec(
                    lag_of(local, target),
                ) + " bytes behind local primary (local LSN "@ + lsn_text(local)
                    + ", target replay LSN "@ + lsn_text(target) + "); exceeds threshold "@ + dec(
                    MAX_HANDOFF_LAG_BYTES as int,
                )
                    + " bytes (one WAL segment); rerun with --allow-lag to override (will accept data loss for writes between the standby's replay LSN and the primary's current LSN)"@,
            ),
            Objection::NotBegun(e) => no("cluster_handoff: "@ + e@),
        }
    }

    /// The answer, once there is one. A target that cannot be reached is a
    /// refusal: the operator can mend that and ask again.
    pub open spec fn outcome(self) -> Option<Answer> {
        match self.stage {
            PreflightStage::Failed(step, e) => Some(
                if step == PreflightStep::Dial || step == PreflightStep::GetStatus {
                    no(self.failure_text(step, e@))
                } else {
                    broken(self.failure_text(step, e@))
                },
            ),
            PreflightStage::Refused(objection) => Some(self.objection_answer(objection)),
            PreflightStage::Answered(r) => Some(answer(r)),
            _ => None,
        }
    }

    fn objection(&self, objection: &Objection) -> (r: Result<OpResult, Status>)
        ensures
            answer(r) == self.objection_answer(*objection),
    {
        let host = self.target.hostname.as_str();
        match objection {
            Objection::AlreadyDone => succeed(
                "cluster_handoff: already processed; skipping duplicate".to_owned(),
            ),
            Objection::InFlight(op) => {
                let mut s = text5(
                    "cluster_handoff: handoff already in flight (id=",
                    op.id.as_str(),
                    ", phase=",
                    op.phase.as_str(),
                    "); resume with `pg_agentctl ops resume ",
                );
                s.append(op.id.as_str());
                s.append("` or abandon with `pg_agentctl ops abandon ");
                s.append(op.id.as_str());
                s.append("`");
                decline(s)
            },
            Objection::TargetStopped => decline(
                text3(
                    "cluster_handoff: target ",
                    host,
                    " has postgres stopped; start it first or pick a different target",
                ),
            ),
            Objection::TargetIsPrimary => decline(
                text3(
                    "cluster_handoff: target ",
                    host,
                    " is not a standby (already primary); pick a standby as the handoff target",
                ),
            ),
            Objection::LagUnknown { local, target } => decline(
                text5(
                    "cluster_handoff: cannot measure lag — local current_wal_lsn=",
                    nat_text(*local).as_str(),
                    " target last_replay_lsn=",
                    nat_text(*target).as_str(),
                    " (a 0 value means the LSN probe failed or the peer is on a pre-0.4.0 build); rerun with --allow-lag to override (will accept unknown data loss)",
                ),
            ),
            Objection::LagTooLarge { local, target } => {
                let mut s = text5(
                    "cluster_handoff: target ",
                    host,
                    " is ",
                    nat_text(local.saturating_sub(*target)).as_str(),
                    " bytes behind local primary (local LSN ",
                );
                s.append(lsn_string(*local).as_str());
                s.append(", target replay LSN ");
                s.append(lsn_string(*target).as_str());
                s.append("); exceeds threshold ");
                s.append(nat_text(MAX_HANDOFF_LAG_BYTES).as_str());
                s.append(
                    " bytes (one WAL segment); rerun with --allow-lag to override (will accept data loss for writes between the standby's replay LSN and the primary's current LSN)",
                );
                decline(s)
            },
            Objection::NotBegun(e) => decline(text2("cluster_handoff: ", e.as_str())),
        }
    }

    /// The answer, once there is one.
    pub fn answer(self) -> (r: Option<Result<OpResult, Status>>)
        ensures
            match (r, self.outcome()) {
                (Some(a), Some(want)) => answer(a) == want,
                (None, None) => true,
                _ => false,
            },
    {
        match &self.stage {
            PreflightStage::Failed(step, e) => {
                let host = self.target.hostname.as_str();
                let s = match step {
                    PreflightStep::Find => text2("cluster_handoff: inflight lookup: ", e.as_str()),
                    PreflightStep::Dial => text4(
                        "cluster_handoff: dial peer ",
                        host,
                        ": ",
                        e.as_str(),
                    ),
                    PreflightStep::GetStatus => text4(
                        "cluster_handoff: peer get_status ",
                        host,
                        ": ",
                        e.as_str(),
                    ),
                    PreflightStep::LocalLsn => text2(
                        "cluster_handoff: local current_wal_lsn: ",
                        e.as_str(),
                    ),
                };
                return Some(
                    match step {
                        PreflightStep::Dial | PreflightStep::GetStatus => decline(s),
                        _ => refuse(Code::Internal, s),
                    },
                );
            },
            PreflightStage::Refused(objection) => {
                return Some(self.objection(objection));
            },
            _ => {},
        }
        match self.stage {
            PreflightStage::Answered(r) => Some(r),
            _ => None,
        }
    }
}

/// A state of the target in which it can take over.
pub open spec fn ready_target(status: NodeStatus) -> bool {
    status.is_postgres_running && status.is_in_recovery
}

/// Nothing is journaled, so nothing is handed over, before the target was seen
/// running as a standby, and unless lag is allowed before it was seen to lack
/// no more WAL than one segment, with both positions known.
pub proof fn law_no_handoff_to_an_unfit_target(m: ClusterHandoff, replies: Seq<Reply>)
    requires
        m.stage == PreflightStage::Find,
        performed(m, replies, |x: ClusterHandoff, r: Reply| x.stage is Begin),
    ensures
        performed(
            m,
            replies,
            |x: ClusterHandoff, r: Reply|
                x.stage is GetStatus && r is Status && ready_target(r->Status_0),
        ),
        m.allow_lag || performed(
            m,
            replies,
            |x: ClusterHandoff, r: Reply|
                x.stage is LocalLsn && r is Lsn && r->Lsn_0 > 0 && x.stage->LocalLsn_0 > 0
                    && r->Lsn_0 - x.stage->LocalLsn_0 <= MAX_HANDOFF_LAG_BYTES,
        ),
{
    lemma_comes_after(
        m,
        replies,
        |x: ClusterHandoff, r: Reply|
            x.stage is GetStatus && r is Status && ready_target(r->Status_0),
        |x: ClusterHandoff| x.stage is Begin || x.stage is LocalLsn,
        |x: ClusterHandoff, r: Reply| x.stage is Begin,
    );
    if !m.allow_lag {
        lemma_comes_after(
            m,
            replies,
            |x: ClusterHandoff, r: Reply|
                x.stage is LocalLsn && r is Lsn && r->Lsn_0 > 0 && x.stage->LocalLsn_0 > 0
                    && r->Lsn_0 - x.stage->LocalLsn_0 <= MAX_HANDOFF_LAG_BYTES,
            |x: ClusterHandoff| x.allow_lag || x.stage is Begin,
            |x: ClusterHandoff, r: Reply| x.stage is Begin,
        );
    }
}

/// The other standbys are made to follow only after the ladder succeeded, and
/// the answer is then that of the ladder.
pub proof fn law_fan_out_follows_success(m: ClusterHandoff, replies: Seq<Reply>)
    requires
        m.stage == PreflightStage::Find,
        performed(m, replies, |x: ClusterHandoff, r: Reply| x.stage is FanOut),
    ensures
        performed(
            m,
            replies,
            |x: ClusterHandoff, r: Reply|
                x.stage is Ladder && r is Outcome && r->Outcome_0 is Ok && r->Outcome_0->Ok_0.ok,
        ),
{
    lemma_comes_after(
        m,
        replies,
        |x: ClusterHandoff, r: Reply|
            x.stage is Ladder && r is Outcome && r->Outcome_0 is Ok && r->Outcome_0->Ok_0.ok,
        |x: ClusterHandoff| x.stage is FanOut,
        |x: ClusterHandoff, r: Reply| x.stage is FanOut,
    );
}

/// A step is taken only once the one before it allows it: the journal must hold
/// no such handoff that is done or going on, the target must run as a standby,
/// and unless lag is allowed its own WAL position must be at most one segment
/// behind the local one, with both known. The position that is compared is the
/// one that the target reported, whatever else it reported. Each objection is
/// raised only for what it says.
pub proof fn law_how_each_stage_comes_about(x: ClusterHandoff, r: Reply)
    ensures
        ({
            let t = x.next(r).stage;
            t == x.stage || match t {
                PreflightStage::Find => false,
                PreflightStage::Dial => x.stage is Find && r is Entry && (r->Entry_0 is Some
                    ==> r->Entry_0->0.status
                    == InflightStatus::Abandoned),
                PreflightStage::GetStatus => x.stage is Dial && r is Done,
                PreflightStage::LocalLsn(target) => x.stage is GetStatus && r is Status
                    && r->Status_0.is_postgres_running
                    && r->Status_0.is_in_recovery && !x.allow_lag
                        && target == r->Status_0.current_wal_lsn,
                PreflightStage::Begin => {
                    ||| x.stage is GetStatus && r is Status && r->Status_0.is_postgres_running
                        && r->Status_0.is_in_recovery && x.allow_lag
                    ||| x.stage is LocalLsn && r is Lsn && r->Lsn_0 > 0 && x.stage->LocalLsn_0 > 0
                        && r->Lsn_0 - x.stage->LocalLsn_0 <= 16_777_216
                },
                PreflightStage::Ladder(id) => x.stage is Begin && r == Reply::Begun(id),
                PreflightStage::FanOut(o) => x.stage is Ladder && r == Reply::Outcome(Ok(o))
                    && o.ok,
                PreflightStage::Answered(a) => {
                    ||| x.stage is Ladder && r == Reply::Outcome(a) && !(a is Ok && a->Ok_0.ok)
                    ||| x.stage is FanOut && r is Done && a == Ok::<OpResult, Status>(
                        x.stage->FanOut_0,
                    )
                },
                PreflightStage::Failed(step, e) => r == Reply::Failed(e) && match step {
                    PreflightStep::Find => x.stage is Find,
                    PreflightStep::Dial => x.stage is Dial,
                    PreflightStep::GetStatus => x.stage is GetStatus,
                    PreflightStep::LocalLsn => x.stage is LocalLsn,
                },
                PreflightStage::Refused(why) => match why {
                    Objection::AlreadyDone => x.stage is Find && r is Entry && r->Entry_0 is Some
                        && r->Entry_0->0.status == InflightStatus::Done,
                    Objection::InFlight(op) => x.stage is Find && r == Reply::Entry(Some(op))
                        && op.status == InflightStatus::InProgress,
                    Objection::TargetStopped => x.stage is GetStatus && r is Status
                        && !r->Status_0.is_postgres_running,
                    Objection::TargetIsPrimary => x.stage is GetStatus && r is Status
                        && r->Status_0.is_postgres_running && !r->Status_0.is_in_recovery,
                    Objection::LagUnknown { local, target } => x.stage
                        == PreflightStage::LocalLsn(target) && r == Reply::Lsn(local) && (local == 0
                        || target == 0),
                    Objection::LagTooLarge { local, target } => x.stage
                        == PreflightStage::LocalLsn(target) && r == Reply::Lsn(local) && local > 0
                        && target > 0 && local - target > 16_777_216,
                    Objection::NotBegun(e) => x.stage is Begin && r == Reply::Failed(e),
                },
            }
        }),
{
}

/// An answer to the call that is due moves the run on, and nothing else does;
/// the nodes, the slot, the key and the allowance stay.
pub proof fn law_every_reply_counts(x: ClusterHandoff, r: Reply)
    ensures
        ({
            let answers = match x.stage {
                PreflightStage::Find => r is Entry || r is Failed,
                PreflightStage::Dial => r is Done || r is Failed,
                PreflightStage::GetStatus => r is Status || r is Failed,
                PreflightStage::LocalLsn(_) => r is Lsn || r is Failed,
                PreflightStage::Begin => r is Begun || r is Failed,
                PreflightStage::Ladder(_) => r is Outcome,
                PreflightStage::FanOut(_) => r is Done,
                _ => false,
            };
            &&& answers ==> x.next(r).stage != x.stage
            &&& !answers ==> x.next(r) == x
            &&& x.next(r) == (ClusterHandoff { stage: x.next(r).stage, ..x })
        }),
{
}

/// The target reported `status` in the run.
pub open spec fn reported(m: ClusterHandoff, replies: Seq<Reply>, status: NodeStatus) -> bool {
    performed(
        m,
        replies,
        |x: ClusterHandoff, r: Reply| x.stage is GetStatus && r == Reply::Status(status),
    )
}

/// The local database reported the WAL position `lsn` in the run.
pub open spec fn measured(m: ClusterHandoff, replies: Seq<Reply>, lsn: u64) -> bool {
    performed(
        m,
        replies,
        |x: ClusterHandoff, r: Reply| x.stage is LocalLsn && r == Reply::Lsn(lsn),
    )
}

/// A target whose own report shows it running as a standby no more than one
/// segment behind `lsn`, with both positions known.
pub open spec fn close_behind(status: NodeStatus, lsn: u64) -> bool {
    status.is_postgres_running && status.is_in_recovery && status.current_wal_lsn > 0 && lsn > 0
        && lsn - status.current_wal_lsn <= 16_777_216
}

proof fn lemma_lag_of_the_report(m: ClusterHandoff, replies: Seq<Reply>)
    requires
        m.stage == PreflightStage::Find,
        !m.allow_lag,
    ensures
        !after(m, replies).allow_lag,
        after(m, replies).stage is LocalLsn ==> exists|s: NodeStatus|
            reported(m, replies, s) && ready_target(s) && #[trigger] s.current_wal_lsn == after(
                m,
                replies,
            ).stage->LocalLsn_0,
        after(m, replies).stage is Begin || after(m, replies).stage is Ladder || after(
            m,
            replies,
        ).stage is FanOut ==> exists|s: NodeStatus, lsn: u64|
            #[trigger] close_behind(s, lsn) && reported(m, replies, s) && measured(m, replies, lsn),
    decreases replies.len(),
{
    if replies.len() > 0 {
        let front = replies.drop_last();
        let x = after(m, front);
        let r = replies.last();
        lemma_lag_of_the_report(m, front);
        let t = after(m, replies).stage;
        assert(after(m, replies) == x.next(r));
        law_how_each_stage_comes_about(x, r);
        if t is LocalLsn {
            if x.stage is GetStatus {
                let s = r->Status_0;
                assert(reported(m, replies, s));
                assert(s.current_wal_lsn == t->LocalLsn_0);
            } else {
                let s = choose|s: NodeStatus|
                    reported(m, front, s) && ready_target(s) && #[trigger] s.current_wal_lsn
                        == x.stage->LocalLsn_0;
                assert(reported(m, replies, s));
                assert(s.current_wal_lsn == t->LocalLsn_0);
            }
        }
        if t is Begin || t is Ladder || t is FanOut {
            if x.stage is LocalLsn {
                let s = choose|s: NodeStatus|
                    reported(m, front, s) && ready_target(s) && #[trigger] s.current_wal_lsn
                        == x.stage->LocalLsn_0;
                let lsn = r->Lsn_0;
                assert(close_behind(s, lsn) && reported(m, replies, s) && measured(
                    m,
                    replies,
                    lsn,
                ));
            } else {
                let (s, lsn) = choose|s: NodeStatus, lsn: u64|
                    #[trigger] close_behind(s, lsn) && reported(m, front, s) && measured(
                        m,
                        front,
                        lsn,
                    );
                assert(close_behind(s, lsn) && reported(m, replies, s) && measured(
                    m,
                    replies,
                    lsn,
                ));
            }
        }
    }
}

/// Where lag is not allowed, a run that is about to journal the handoff has
/// from the target itself a report of a WAL position, and from the local
/// database one that is at most a segment ahead of that very position.
pub proof fn law_lag_is_measured_against_the_report(m: ClusterHandoff, replies: Seq<Reply>)
    requires
        m.stage == PreflightStage::Find,
        !m.allow_lag,
        after(m, replies).stage is Begin || after(m, replies).stage is Ladder || after(
            m,
            replies,
        ).stage is FanOut,
    ensures
        exists|s: NodeStatus, lsn: u64|
            #[trigger] close_behind(s, lsn) && reported(m, replies, s) && measured(m, replies, lsn),
{
    lemma_lag_of_the_report(m, replies);
}

/// A target that lags more than one segment is never handed the role: after
/// its report and the local position nothing is journaled, and the answer is
/// negative, whatever else it reported.
pub proof fn law_lagging_target_is_refused(m: ClusterHandoff, status: NodeStatus, lsn: u64)
    requires
        m.stage == PreflightStage::GetStatus,
        !m.allow_lag,
        lsn - status.current_wal_lsn > 16_777_216,
    ensures
        ({
            let end = m.next(Reply::Status(status)).next(Reply::Lsn(lsn));
            &&& end.stage is Refused
            &&& end.outcome() is Some
            &&& end.outcome()->0 is Result
            &&& !end.outcome()->0->ok
        }),
{
}

/// A target that runs as a standby, and lacks at most one segment or may lack
/// more, is not refused.
pub proof fn law_fit_target_goes_on(m: ClusterHandoff, status: NodeStatus, lsn: u64)
    requires
        m.stage == PreflightStage::GetStatus,
        status.is_postgres_running,
        status.is_in_recovery,
        m.allow_lag || close_behind(status, lsn),
    ensures
        m.allow_lag ==> m.next(Reply::Status(status)).stage is Begin,
        !m.allow_lag ==> m.next(Reply::Status(status)).next(Reply::Lsn(lsn)).stage is Begin,
{
}

/// What a refusal of a lagging target says tells how many bytes it lacks.
pub proof fn law_lag_is_the_difference(local: u64, target: u64)
    ensures
        local >= target ==> lag_of(local, target) + target == local,
        local <= target ==> lag_of(local, target) == 0,
{
}

/// The answer is positive only where the same handoff was made before, or the
/// ladder says so; a target that cannot be reached, is unfit or lags, and a
/// journal that does not take the handoff, make it negative; an error here is
/// a refusal that ends with it.
pub proof fn law_answers_tell_the_end(x: ClusterHandoff)
    ensures
        match x.stage {
            PreflightStage::Answered(a) => x.outcome() == Some(answer(a)),
            PreflightStage::Refused(Objection::AlreadyDone) => x.outcome() is Some
                && x.outcome()->0 is Result && x.outcome()->0->ok,
            PreflightStage::Refused(_) => x.outcome() is Some && x.outcome()->0 is Result
                && !x.outcome()->0->ok,
            PreflightStage::Failed(step, e) => x.outcome() is Some && match x.outcome()->0 {
                Answer::Result { ok, message } => !ok && (step is Dial || step is GetStatus)
                    && ends_with(message, e@) && holds_text(message, x.target.hostname@),
                Answer::Refusal { code, message } => code == Code::Internal && (step is Find
                    || step is LocalLsn) && ends_with(message, e@),
            },
            _ => x.outcome() is None,
        },
{
    if let PreflightStage::Failed(step, e) = x.stage {
        let s = x.failure_text(step, e@);
        assert(s.skip(s.len() - e@.len()) =~= e@);
        let h = x.target.hostname@;
        if step is Dial {
            let n = "cluster_handoff: dial peer "@.len() as int;
            assert(s.subrange(n, n + h.len()) =~= h);
            assert(stands_at(s, h, n));
        }
        if step is GetStatus {
            let n = "cluster_handoff: peer get_status "@.len() as int;
            assert(s.subrange(n, n + h.len()) =~= h);
            assert(stands_at(s, h, n));
        }
    }
}

/// A request goes on exactly where the local node is a primary and a member,
/// and the target is another member. On a standby it is declined; a target
/// that is unknown or local is a bad argument.
pub proof fn law_requests_that_go_on(
    req: ClusterHandoffRequest,
    pool: NodePool,
    in_recovery: Result<bool, String>,
)
    ensures
        ({
            let a = handoff_answer_to(req, pool, in_recovery);
            let local = first_with_id(pool.members@, pool.local_node_id);
            let target = first_with_id(pool.members@, req.target_node_id);
            &&& a is None <==> in_recovery == Ok::<bool, String>(false) && local is Some
                && target is Some
                && req.target_node_id != pool.local_node_id
            &&& in_recovery == Ok::<bool, String>(true) ==> a->0 is Result && !a->0->ok
            &&& in_recovery is Err ==> a->0 is Refusal && a->0->code == Code::Internal && ends_with(
                a->0->Refusal_message,
                in_recovery->Err_0@,
            )
            &&& in_recovery == Ok::<bool, String>(false) && local is Some && a is Some
                ==> a->0 is Refusal && a->0->code == Code::InvalidArgument
        }),
{
    lemma_first_with_id(pool.members@, req.target_node_id);
    if let Err(e) = in_recovery {
        let s = "cluster_handoff: is_in_recovery: "@ + e@;
        assert(s.skip(s.len() - e@.len()) =~= e@);
    }
}

/// Only the target is called from here.
pub proof fn law_calls_go_to_the_target(x: ClusterHandoff)
    ensures
        x.called() == if x.stage is Dial || x.stage is GetStatus {
            Some(x.target)
        } else {
            None
        },
{
}

} // verus!
