//! `ops resume`: the operator has an orchestration that was cut off go on.
//!
//! The nodes that the journal names have to be those of the pool. A handoff
//! goes on only where the target and the local node are in the state that the
//! last journaled rung implies.
use crate::config::{first_with_id, lemma_first_with_id, unknown_id, NodeConfig, NodePool};
use crate::inflight_ops::{InflightOp, InflightPayload, InflightStatus};
use crate::localserver::follow_driver::{
    fp_phases, law_resume_goes_on, DriveFollowPrimary, DriveStage,
};
use crate::localserver::handoff::{
    handoff_entry, handoff_phase_index, handoff_phases, place_of, Handoff,
};
use crate::orchestration::{
    after, lemma_comes_after, performed, Machine, NodeStatus, Reply, Turn,
};
use crate::status::{
    answer, broken, decline, missing, no, refuse, succeed, yes, Answer, Code, OpResult, Status,
};
use crate::text::{
    debug_text, dec, ends_with, holds_text, int_text, quoted, stands_at, text2, text3, text4,
    text5,
};
use vstd::prelude::*;

verus! {

/// An orchestration that goes on.
pub enum Resume {
    Handoff(ResumeHandoff),
    FollowPrimary(FollowUpRun),
}

/// A handoff whose state is verified before it goes on.
pub struct ResumeHandoff {
    pub op_id: String,
    pub phase: String,
    pub target: NodeConfig,
    pub local: NodeConfig,
    pub slot: String,
    pub stage: VerifyStage,
}

/// A step that can fail for good.
#[derive(Clone, Copy, Debug, PartialEq, Eq, Structural)]
pub enum VerifyStep {
    Dial,
    GetStatus,
    LocalRunning,
    LocalRole,
}

/// How the cluster differs from what the journal implies.
#[derive(Clone, Copy, Debug, PartialEq, Eq, Structural)]
pub enum Divergence {
    /// The target was to be promoted, and is a primary.
    AlreadyPrimary,
    /// The target was promoted, and does not run.
    TargetStopped,
    /// The target was promoted, and is in recovery.
    TargetInRecovery,
    /// The local node was to be stopped, and does not run.
    StoppedEarly,
    /// The local node was stopped, and runs.
    StartedEarly,
    /// The local node was started, and does not run.
    NotStarted,
    /// The local node was started as a standby, and is a primary.
    StillPrimary,
}

/// The call that is due, or how it ended.
pub enum VerifyStage {
    /// Dial the target.
    Dial,
    /// Ask the target for its state.
    GetStatus,
    /// Ask whether PostgreSQL runs here.
    LocalRunning,
    /// Ask whether PostgreSQL is in recovery here.
    LocalRole,
    /// The state is as it should be: climb on.
    Verified,
    /// The state is not as it should be.
    Diverged(Divergence),
    /// A step failed with this error.
    Failed(VerifyStep, String),
}

/// The stage after the target reported its state, in a handoff cut off at
/// `phase`.
pub open spec fn verify_target(phase: Seq<char>, status: NodeStatus) -> VerifyStage {
    if place_of(handoff_phases(), phase) == Some(0usize) {
        if status.is_in_recovery {
            VerifyStage::Verified
        } else {
            VerifyStage::Diverged(Divergence::AlreadyPrimary)
        }
    } else if !status.is_postgres_running {
        VerifyStage::Diverged(Divergence::TargetStopped)
    } else if status.is_in_recovery {
        VerifyStage::Diverged(Divergence::TargetInRecovery)
    } else {
        VerifyStage::LocalRunning
    }
}

/// The stage after it is known whether the local node runs.
pub open spec fn verify_running(phase: Seq<char>, running: bool) -> VerifyStage {
    match place_of(handoff_phases(), phase) {
        None => VerifyStage::Verified,
        Some(k) => if k <= 2 {
            if k == 0 || running {
                VerifyStage::Verified
            } else {
                VerifyStage::Diverged(Divergence::StoppedEarly)
            }
        } else if k <= 5 {
            if running {
                VerifyStage::Diverged(Divergence::StartedEarly)
            } else {
                VerifyStage::Verified
            }
        } else if running {
            VerifyStage::LocalRole
        } else {
            VerifyStage::Diverged(Divergence::NotStarted)
        },
    }
}

/// The stage after `stage` got `reply`.
pub open spec fn verify_next(stage: VerifyStage, reply: Reply, phase: Seq<char>) -> VerifyStage {
    match (stage, reply) {
        (VerifyStage::Dial, Reply::Done) => VerifyStage::GetStatus,
        (VerifyStage::Dial, Reply::Failed(e)) => VerifyStage::Failed(VerifyStep::Dial, e),
        (VerifyStage::GetStatus, Reply::Status(status)) => verify_target(phase, status),
        (VerifyStage::GetStatus, Reply::Failed(e)) => VerifyStage::Failed(VerifyStep::GetStatus, e),
        (VerifyStage::LocalRunning, Reply::Flag(running)) => verify_running(phase, running),
        (VerifyStage::LocalRunning, Reply::Failed(e)) => VerifyStage::Failed(
            VerifyStep::LocalRunning,
            e,
        ),
        (VerifyStage::LocalRole, Reply::Flag(in_recovery)) => if in_recovery {
            VerifyStage::Verified
        } else {
            VerifyStage::Diverged(Divergence::StillPrimary)
        },
        (VerifyStage::LocalRole, Reply::Failed(e)) => VerifyStage::Failed(VerifyStep::LocalRole, e),
        (s, _) => s,
    }
}

impl Machine for ResumeHandoff {
    open spec fn next(self, reply: Reply) -> Self {
        ResumeHandoff { stage: verify_next(self.stage, reply, self.phase@), ..self }
    }
}

/// What is said of a handoff whose nodes are not those of the pool.
pub open spec fn handoff_topology(
    pool: NodePool,
    from: i32,
    to: i32,
    to_hostname: Seq<char>,
) -> Option<Answer> {
    match first_with_id(pool.members@, pool.local_node_id) {
        None => Some(broken("resume_handoff: resolve local: "@ + unknown_id(pool.local_node_id))),
        Some(local) => if local.id != from {
            Some(
                no(
                    "resume_handoff: op recorded from_node_id="@ + dec(from as int)
                        + " but local is node "@ + dec(local.id as int)
                        + "; pool topology has changed since the op began"@,
                ),
            )
        } else {
            match first_with_id(pool.members@, to) {
                None => Some(
                    no(
                        "resume_handoff: target node "@ + dec(to as int) + " not in current pool: "@
                            + unknown_id(to),
                    ),
                ),
                Some(n) => if n.hostname@ == to_hostname {
                    None
                } else {
                    Some(
                        no(
                            "resume_handoff: op recorded to_hostname="@ + quoted(to_hostname)
                                + " but current pool has node "@ + dec(to as int) + " as "@ + quoted(
                                n.hostname@,
                            ) + "; pool topology has changed since the op began"@,
                        ),
                    )
                },
            }
        },
    }
}

impl ResumeHandoff {
    /// Takes up a handoff that was cut off.
    pub fn new(
        op_id: String,
        phase: String,
        from_node_id: i32,
        to_node_id: i32,
        to_hostname: &str,
        slot: String,
        pool: &NodePool,
    ) -> (r: Turn<ResumeHandoff>)
        ensures
            match (r, handoff_topology(*pool, from_node_id, to_node_id, to_hostname@)) {
                (Turn::Answer(a), Some(want)) => answer(a) == want,
                (Turn::Ask(m), None) => {
                    &&& m.op_id == op_id
                    &&& m.phase == phase
                    &&& m.slot == slot
                    &&& first_with_id(pool.members@, pool.local_node_id) == Some(m.local)
                    &&& first_with_id(pool.members@, to_node_id) == Some(m.target)
                    &&& m.stage == VerifyStage::Dial
                },
                _ => false,
            },
    {
        let local = match pool.local_node() {
            Ok(n) => n.clone(),
            Err(e) => {
                return Turn::Answer(
                    refuse(Code::Internal, text2("resume_handoff: resolve local: ", e.as_str())),
                );
            },
        };
        if local.id != from_node_id {
            return Turn::Answer(
                decline(
                    text5(
                        "resume_handoff: op recorded from_node_id=",
                        int_text(from_node_id as i64).as_str(),
                        " but local is node ",
                        int_text(local.id as i64).as_str(),
                        "; pool topology has changed since the op began",
                    ),
                ),
            );
        }
        let target = match pool.node_by_id(to_node_id) {
            Ok(n) => n.clone(),
            Err(e) => {
                return Turn::Answer(
                    decline(
                        text4(
                            "resume_handoff: target node ",
                            int_text(to_node_id as i64).as_str(),
                            " not in current pool: ",
                            e.as_str(),
                        ),
                    ),
                );
            },
        };
        if !crate::text::same(target.hostname.as_str(), to_hostname) {
            let mut s = text5(
                "resume_handoff: op recorded to_hostname=",
                debug_text(to_hostname).as_str(),
                " but current pool has node ",
                int_text(to_node_id as i64).as_str(),
                " as ",
            );
            s.append(debug_text(target.hostname.as_str()).as_str());
            s.append("; pool topology has changed since the op began");
            return Turn::Answer(decline(s));
        }
        Turn::Ask(ResumeHandoff { op_id, phase, target, local, slot, stage: VerifyStage::Dial })
    }

    /// The node that the call that is due goes to; none, where it is made here
    /// or no call is due.
    pub open spec fn called(self) -> Option<NodeConfig> {
        match self.stage {
            VerifyStage::Dial | VerifyStage::GetStatus => Some(self.target),
            _ => None,
        }
    }

    /// The node that the call that is due goes to; none, where it is made here
    /// or no call is due.
    pub fn callee(&self) -> (r: Option<&NodeConfig>)
        ensures
            match (r, self.called()) {
                (Some(n), Some(want)) => *n == want,
                (None, None) => true,
                _ => false,
            },
            r is Some <==> (self.stage is Dial || self.stage is GetStatus),
            self.stage is Dial || self.stage is GetStatus ==> r is Some && *r->0 == self.target,
    {
        match &self.stage {
            VerifyStage::Dial => Some(&self.target),
            VerifyStage::GetStatus => Some(&self.target),
            _ => None,
        }
    }

    /// Takes the reply to the call that was due.
    pub fn step(self, reply: Reply) -> (r: Self)
        ensures
            r == self.next(reply),
    {
        let place = handoff_phase_index(self.phase.as_str());
        let stage = match (self.stage, reply) {
            (VerifyStage::Dial, Reply::Done) => VerifyStage::GetStatus,
            (VerifyStage::Dial, Reply::Failed(e)) => VerifyStage::Failed(VerifyStep::Dial, e),
            (VerifyStage::GetStatus, Reply::Status(status)) => {
                let at_bottom = match place {
                    Some(k) => k == 0,
                    None => false,
                };
                if at_bottom {
                    if status.is_in_recovery {
                        VerifyStage::Verified
                    } else {
                        VerifyStage::Diverged(Divergence::AlreadyPrimary)
                    }
                } else if !status.is_postgres_running {
                    VerifyStage::Diverged(Divergence::TargetStopped)
                } else if status.is_in_recovery {
                    VerifyStage::Diverged(Divergence::TargetInRecovery)
                } else {
                    VerifyStage::LocalRunning
                }
            },
            (VerifyStage::GetStatus, Reply::Failed(e)) => VerifyStage::Failed(
                VerifyStep::GetStatus,
                e,
            ),
            (VerifyStage::LocalRunning, Reply::Flag(running)) => match place {
                Some(1) | Some(2) => {
                    if running {
                        VerifyStage::Verified
                    } else {
                        VerifyStage::Diverged(Divergence::StoppedEarly)
                    }
                },
                Some(3) | Some(4) | Some(5) => {
                    if running {
                        VerifyStage::Diverged(Divergence::StartedEarly)
                    } else {
                        VerifyStage::Verified
                    }
                },
                Some(6) | Some(7) => {
                    if running {
                        VerifyStage::LocalRole
                    } else {
                        VerifyStage::Diverged(Divergence::NotStarted)
                    }
                },
                _ => VerifyStage::Verified,
            },
            (VerifyStage::LocalRunning, Reply::Failed(e)) => VerifyStage::Failed(
                VerifyStep::LocalRunning,
                e,
            ),
            (VerifyStage::LocalRole, Reply::Flag(in_recovery)) => {
                if in_recovery {
                    VerifyStage::Verified
                } else {
                    VerifyStage::Diverged(Divergence::StillPrimary)
                }
            },
            (VerifyStage::LocalRole, Reply::Failed(e)) => VerifyStage::Failed(
                VerifyStep::LocalRole,
                e,
            ),
            (s, _) => s,
        };
        ResumeHandoff { stage, ..self }
    }

    /// The ladder to climb on, once the state is verified.
    pub fn ladder(self) -> (r: Turn<Handoff>)
        ensures
            match place_of(handoff_phases(), self.phase@) {
                None => r is Answer && answer(r->Answer_0) == (Answer::Refusal {
                    code: Code::InvalidArgument,
                    message: "cluster_handoff: unknown phase "@ + quoted(self.phase@),
                }),
                Some(k) => r == Turn::Ask(
                    Handoff {
                        op_id: self.op_id,
                        target: self.target,
                        local: self.local,
                        slot: self.slot,
                        basebackup_ran: false,
                        attach_error: None,
                        stage: handoff_entry(k),
                    },
                ),
            },
    {
        Handoff::from_phase(self.op_id, self.phase.as_str(), self.target, self.local, self.slot)
    }

    /// What is said of a difference.
    pub open spec fn divergence_text(self, d: Divergence) -> Seq<char> {
        match d {
            Divergence::AlreadyPrimary => "target "@ + self.target.hostname@
                + " is already a primary; the original handoff was about to promote it but someone else promoted it first"@,
            Divergence::TargetStopped => "target "@ + self.target.hostname@
                + " has postgres stopped; original handoff had promoted it"@,
            Divergence::TargetInRecovery => "target "@ + self.target.hostname@
                + " is back in recovery; original handoff had promoted it to primary"@,
            Divergence::StoppedEarly => "local PG is stopped but recorded phase is pre-stop; someone else stopped the old primary"@,
            Divergence::StartedEarly => "local PG is running but recorded phase is post-stop; someone else started the old primary"@,
            Divergence::NotStarted => "local PG is stopped but recorded phase is post-start"@,
            Divergence::StillPrimary => "local PG is a primary but recorded phase implies standby"@,
        }
    }

    /// What is said of a step that failed.
    pub open spec fn failure_text(self, step: VerifyStep, e: Seq<char>) -> Seq<char> {
        match step {
            VerifyStep::Dial => "resume_handoff: dial peer "@ + self.target.hostname@ + ": "@ + e,
            VerifyStep::GetStatus => "verify_handoff_state: peer get_status "@
                + self.target.hostname@ + ": "@ + e,
            VerifyStep::LocalRunning => "verify_handoff_state: status_postgres: "@ + e,
            VerifyStep::LocalRole => "verify_handoff_state: is_in_recovery: "@ + e,
        }
    }

    /// The answer, where the handoff does not go on.
    pub open spec fn outcome(self) -> Option<Answer> {
        match self.stage {
            VerifyStage::Failed(step, e) => Some(broken(self.failure_text(step, e@))),
            VerifyStage::Diverged(d) => Some(
                no(
                    "resume_handoff: cluster state diverged from recorded phase "@ + quoted(
                        self.phase@,
                    ) + ": "@ + self.divergence_text(d) + "; run `pg_agentctl ops abandon "@
                        + self.op_id@ + "` if this op is unrecoverable"@,
                ),
            ),
            _ => None,
        }
    }

    fn divergence(&self, d: Divergence) -> (r: String)
        ensures
            r@ == self.divergence_text(d),
    {
        let host = self.target.hostname.as_str();
        match d {
            Divergence::AlreadyPrimary => text3(
                "target ",
                host,
                " is already a primary; the original handoff was about to promote it but someone else promoted it first",
            ),
            Divergence::TargetStopped => text3(
                "target ",
                host,
                " has postgres stopped; original handoff had promoted it",
            ),
            Divergence::TargetInRecovery => text3(
                "target ",
                host,
                " is back in recovery; original handoff had promoted it to primary",
            ),
            Divergence::StoppedEarly => "local PG is stopped but recorded phase is pre-stop; someone else stopped the old primary".to_owned(),
            Divergence::StartedEarly => "local PG is running but recorded phase is post-stop; someone else started the old primary".to_owned(),
            Divergence::NotStarted => "local PG is stopped but recorded phase is post-start".to_owned(),
            Divergence::StillPrimary => "local PG is a primary but recorded phase implies standby".to_owned(),
        }
    }

    /// The answer, where the handoff does not go on.
    pub fn answer(&self) -> (r: Option<Result<OpResult, Status>>)
        ensures
            match (r, self.outcome()) {
                (Some(a), Some(want)) => answer(a) == want,
                (None, None) => true,
                _ => false,
            },
    {
        match &self.stage {
            VerifyStage::Failed(step, e) => {
                let host = self.target.hostname.as_str();
                let s = match step {
                    VerifyStep::Dial => text4("resume_handoff: dial peer ", host, ": ", e.as_str()),
                    VerifyStep::GetStatus => text4(
                        "verify_handoff_state: peer get_status ",
                        host,
                        ": ",
                        e.as_str(),
                    ),
                    VerifyStep::LocalRunning => text2(
                        "verify_handoff_state: status_postgres: ",
                        e.as_str(),
                    ),
                    VerifyStep::LocalRole => text2(
                        "verify_handoff_state: is_in_recovery: ",
                        e.as_str(),
                    ),
                };
                Some(refuse(Code::Internal, s))
            },
            VerifyStage::Diverged(d) => {
                let mut s = text4(
                    "resume_handoff: cluster state diverged from recorded phase ",
                    debug_text(self.phase.as_str()).as_str(),
                    ": ",
                    self.divergence(*d).as_str(),
                );
                s.append("; run `pg_agentctl ops abandon ");
                s.append(self.op_id.as_str());
                s.append("` if this op is unrecoverable");
                Some(decline(s))
            },
            _ => None,
        }
    }
}

/// A follow-up, and what becomes of its journal entry.
pub enum FollowUpStage {
    /// The follow-up is going on.
    Drive(DriveFollowPrimary),
    /// Complete the journal entry.
    Complete,
    /// Abandon the journal entry: the follow-up failed.
    Abandon(DriveFollowPrimary),
    /// Abandon the journal entry: the ladder has no such rung.
    AbandonUnknown,
    /// The entry was completed.
    Completed,
    /// The entry could not be completed.
    NotCompleted(String),
    /// The follow-up failed.
    Abandoned(DriveFollowPrimary),
    /// The ladder has no such rung.
    AbandonedUnknown,
}

/// A follow-up together with its journal entry.
pub struct FollowUpRun {
    pub op_id: String,
    pub phase: String,
    pub detached: NodeConfig,
    pub stage: FollowUpStage,
}

/// The stage that the follow-up `d` leads to.
pub open spec fn follow_up_stage(d: DriveFollowPrimary) -> FollowUpStage {
    match d.outcome() {
        Some(Ok(())) => FollowUpStage::Complete,
        Some(Err(_)) => FollowUpStage::Abandon(d),
        None => FollowUpStage::Drive(d),
    }
}

impl Machine for FollowUpRun {
    open spec fn next(self, reply: Reply) -> Self {
        FollowUpRun {
            stage: match (self.stage, reply) {
                (FollowUpStage::Drive(d), reply) => follow_up_stage(d.next(reply)),
                (FollowUpStage::Complete, Reply::Done) => FollowUpStage::Completed,
                (FollowUpStage::Complete, Reply::Failed(e)) => FollowUpStage::NotCompleted(e),
                (FollowUpStage::Abandon(d), Reply::Done | Reply::Failed(_)) => {
                    FollowUpStage::Abandoned(d)
                },
                (FollowUpStage::AbandonUnknown, Reply::Done | Reply::Failed(_)) => {
                    FollowUpStage::AbandonedUnknown
                },
                (s, _) => s,
            },
            ..self
        }
    }
}

/// What is said of a follow-up whose nodes are not those of the pool.
pub open spec fn follow_topology(
    pool: NodePool,
    detached: i32,
    detached_hostname: Seq<char>,
    new_primary: i32,
    new_primary_hostname: Seq<char>,
) -> Option<Answer> {
    match (first_with_id(pool.members@, detached), first_with_id(pool.members@, new_primary)) {
        (None, _) => Some(
            no(
                "resume_follow_primary: detached node "@ + dec(detached as int)
                    + " not in current pool: "@ + unknown_id(detached),
            ),
        ),
        (Some(d), p) => if d.hostname@ != detached_hostname {
            Some(
                no(
                    "resume_follow_primary: op recorded detached_hostname="@ + quoted(
                        detached_hostname,
                    ) + " but current pool has node "@ + dec(detached as int) + " as "@ + quoted(
                        d.hostname@,
                    ) + "; pool topology has changed"@,
                ),
            )
        } else {
            match p {
                None => Some(
                    no(
                        "resume_follow_primary: new_primary node "@ + dec(new_primary as int)
                            + " not in current pool: "@ + unknown_id(new_primary),
                    ),
                ),
                Some(n) => if n.hostname@ != new_primary_hostname {
                    Some(
                        no(
                            "resume_follow_primary: op recorded new_primary_hostname="@ + quoted(
                                new_primary_hostname,
                            ) + " but current pool has node "@ + dec(new_primary as int) + " as "@
                                + quoted(n.hostname@) + "; pool topology has changed"@,
                        ),
                    )
                } else {
                    None
                },
            }
        },
    }
}

impl FollowUpRun {
    /// Whether this is the follow-up of `detached` to `new_primary` under the
    /// journal entry `op_id`, about to go on above the rung `phase`. Where the
    /// ladder has no such rung, the entry is to be abandoned.
    pub open spec fn takes_up(
        self,
        op_id: String,
        phase: String,
        detached: NodeConfig,
        new_primary: NodeConfig,
    ) -> bool {
        &&& self.op_id == op_id
        &&& self.phase == phase
        &&& self.detached == detached
        &&& match place_of(fp_phases(), phase@) {
            None => self.stage == FollowUpStage::AbandonUnknown,
            Some(k) => {
                &&& self.stage is Drive
                &&& self.stage->Drive_0.op_id == op_id
                &&& self.stage->Drive_0.detached == detached
                &&& self.stage->Drive_0.new_primary == new_primary
                &&& self.stage->Drive_0.slot@ == crate::config::slot_text(detached.id)
                &&& self.stage->Drive_0.from == k
                &&& self.stage->Drive_0.stage == if k == 0 {
                    DriveStage::Journal(1)
                } else {
                    DriveStage::DialDetached
                }
            },
        }
    }

    /// Takes up a follow-up above the rung `phase`.
    pub fn start(
        op_id: String,
        phase: String,
        detached: NodeConfig,
        new_primary: NodeConfig,
    ) -> (r: FollowUpRun)
        ensures
            r.takes_up(op_id, phase, detached, new_primary),
    {
        let stage = match DriveFollowPrimary::from_phase(
            op_id.clone(),
            phase.as_str(),
            detached.clone(),
            new_primary,
        ) {
            Ok(d) => FollowUpStage::Drive(d),
            Err(_) => FollowUpStage::AbandonUnknown,
        };
        FollowUpRun { op_id, phase, detached, stage }
    }

    /// Takes up a follow-up that was cut off.
    pub fn resume(
        op_id: String,
        phase: String,
        detached_node_id: i32,
        detached_hostname: &str,
        new_primary_node_id: i32,
        new_primary_hostname: &str,
        pool: &NodePool,
    ) -> (r: Turn<FollowUpRun>)
        ensures
            match (
                r,
                follow_topology(
                    *pool,
                    detached_node_id,
                    detached_hostname@,
                    new_primary_node_id,
                    new_primary_hostname@,
                ),
            ) {
                (Turn::Answer(a), Some(want)) => answer(a) == want,
                (Turn::Ask(m), None) => m.takes_up(
                    op_id,
                    phase,
                    first_with_id(pool.members@, detached_node_id)->0,
                    first_with_id(pool.members@, new_primary_node_id)->0,
                ),
                _ => false,
            },
    {
        let detached = match pool.node_by_id(detached_node_id) {
            Ok(n) => n.clone(),
            Err(e) => {
                return Turn::Answer(
                    decline(
                        text4(
                            "resume_follow_primary: detached node ",
                            int_text(detached_node_id as i64).as_str(),
                            " not in current pool: ",
                            e.as_str(),
                        ),
                    ),
                );
            },
        };
        if !crate::text::same(detached.hostname.as_str(), detached_hostname) {
            let mut s = text5(
                "resume_follow_primary: op recorded detached_hostname=",
                debug_text(detached_hostname).as_str(),
                " but current pool has node ",
                int_text(detached_node_id as i64).as_str(),
                " as ",
            );
            s.append(debug_text(detached.hostname.as_str()).as_str());
            s.append("; pool topology has changed");
            return Turn::Answer(decline(s));
        }
        let new_primary = match pool.node_by_id(new_primary_node_id) {
            Ok(n) => n.clone(),
            Err(e) => {
                return Turn::Answer(
                    decline(
                        text4(
                            "resume_follow_primary: new_primary node ",
                            int_text(new_primary_node_id as i64).as_str(),
                            " not in current pool: ",
                            e.as_str(),
                        ),
                    ),
                );
            },
        };
        if !crate::text::same(new_primary.hostname.as_str(), new_primary_hostname) {
            let mut s = text5(
                "resume_follow_primary: op recorded new_primary_hostname=",
                debug_text(new_primary_hostname).as_str(),
                " but current pool has node ",
                int_text(new_primary_node_id as i64).as_str(),
                " as ",
            );
            s.append(debug_text(new_primary.hostname.as_str()).as_str());
            s.append("; pool topology has changed");
            return Turn::Answer(decline(s));
        }
        Turn::Ask(FollowUpRun::start(op_id, phase, detached, new_primary))
    }

    /// Takes the reply to the call that was due.
    pub fn step(self, reply: Reply) -> (r: Self)
        ensures
            r == self.next(reply),
    {
        let stage = match self.stage {
            FollowUpStage::Drive(d) => {
                let n = d.step(reply);
                match n.result() {
                    Some(Ok(())) => FollowUpStage::Complete,
                    Some(Err(_)) => FollowUpStage::Abandon(n),
                    None => FollowUpStage::Drive(n),
                }
            },
            FollowUpStage::Complete => match reply {
                Reply::Done => FollowUpStage::Completed,
                Reply::Failed(e) => FollowUpStage::NotCompleted(e),
                _ => FollowUpStage::Complete,
            },
            FollowUpStage::Abandon(d) => match reply {
                Reply::Done => FollowUpStage::Abandoned(d),
                Reply::Failed(_) => FollowUpStage::Abandoned(d),
                _ => FollowUpStage::Abandon(d),
            },
            FollowUpStage::AbandonUnknown => match reply {
                Reply::Done => FollowUpStage::AbandonedUnknown,
                Reply::Failed(_) => FollowUpStage::AbandonedUnknown,
                _ => FollowUpStage::AbandonUnknown,
            },
            s => s,
        };
        FollowUpRun { stage, ..self }
    }

    /// What the follow-up failed with.
    pub open spec fn reason_text(self) -> Option<Seq<char>> {
        match self.stage {
            FollowUpStage::Abandon(d) | FollowUpStage::Abandoned(d) => match d.outcome() {
                Some(Err(e)) => Some(e),
                _ => None,
            },
            FollowUpStage::AbandonUnknown | FollowUpStage::AbandonedUnknown => Some(
                "follow_primary: unknown phase "@ + quoted(self.phase@),
            ),
            _ => None,
        }
    }

    /// What the follow-up failed with: the reason to abandon its entry for.
    pub fn reason(&self) -> (r: Option<String>)
        ensures
            match (r, self.reason_text()) {
                (Some(s), Some(want)) => s@ == want,
                (None, None) => true,
                _ => false,
            },
    {
        let d = match &self.stage {
            FollowUpStage::Abandon(d) => d,
            FollowUpStage::Abandoned(d) => d,
            FollowUpStage::AbandonUnknown => {
                return Some(
                    text2(
                        "follow_primary: unknown phase ",
                        debug_text(self.phase.as_str()).as_str(),
                    ),
                );
            },
            FollowUpStage::AbandonedUnknown => {
                return Some(
                    text2(
                        "follow_primary: unknown phase ",
                        debug_text(self.phase.as_str()).as_str(),
                    ),
                );
            },
            _ => {
                return None;
            },
        };
        match d.result() {
            Some(Err(e)) => Some(e),
            _ => None,
        }
    }

    /// The answer, once there is one.
    pub open spec fn outcome(self) -> Option<Answer> {
        match self.stage {
            FollowUpStage::Completed => Some(
                yes("follow_primary complete for "@ + self.detached.hostname@ + " (resumed)"@),
            ),
            FollowUpStage::NotCompleted(e) => Some(
                broken("resume_follow_primary: complete journal: "@ + e@),
            ),
            FollowUpStage::Abandoned(_) | FollowUpStage::AbandonedUnknown => {
                match self.reason_text() {
                    Some(reason) => Some(
                        no(
                            "resume_follow_primary: driver failed: "@ + reason
                                + "; op marked abandoned"@,
                        ),
                    ),
                    None => None,
                }
            },
            _ => None,
        }
    }

    /// The answer, once there is one.
    pub fn answer(&self) -> (r: Option<Result<OpResult, Status>>)
        ensures
            match (r, self.outcome()) {
                (Some(a), Some(want)) => answer(a) == want,
                (None, None) => true,
                _ => false,
            },
    {
        match &self.stage {
            FollowUpStage::Completed => Some(
                succeed(
                    text3(
                        "follow_primary complete for ",
                        self.detached.hostname.as_str(),
                        " (resumed)",
                    ),
                ),
            ),
            FollowUpStage::NotCompleted(e) => Some(
                refuse(
                    Code::Internal,
                    text2("resume_follow_primary: complete journal: ", e.as_str()),
                ),
            ),
            FollowUpStage::Abandoned(_) | FollowUpStage::AbandonedUnknown => {
                match self.reason() {
                    Some(reason) => Some(
                        decline(
                            text3(
                                "resume_follow_primary: driver failed: ",
                                reason.as_str(),
                                "; op marked abandoned",
                            ),
                        ),
                    ),
                    None => None,
                }
            },
            _ => None,
        }
    }
}

/// What a request to resume `op` is answered where it does not go on.
pub open spec fn resume_answer_to(op: InflightOp, pool: NodePool) -> Option<Answer> {
    if op.status != InflightStatus::InProgress {
        Some(
            no(
                "resume_inflight_op: op "@ + op.id@ + " is in status "@ + op.status.wire()
                    + "; only in-progress ops can be resumed"@,
            ),
        )
    } else {
        match op.payload {
            InflightPayload::Handoff { from_node_id, to_node_id, to_hostname, .. } => {
                handoff_topology(pool, from_node_id, to_node_id, to_hostname@)
            },
            InflightPayload::FollowPrimary {
                detached_node_id,
                detached_hostname,
                new_primary_node_id,
                new_primary_hostname,
            } => follow_topology(
                pool,
                detached_node_id,
                detached_hostname@,
                new_primary_node_id,
                new_primary_hostname@,
            ),
            InflightPayload::Promote { .. } => Some(
                no(
                    "op "@ + op.id@
                        + " is a promotion; nothing to resume — the HA loop re-issues it while the lease is held"@,
                ),
            ),
            InflightPayload::AllowAsync { .. } => Some(
                no(
                    "op "@ + op.id@
                        + " is an allow-async disarm; nothing to resume — the executor re-arms quorum commit when a standby attaches"@,
                ),
            ),
            InflightPayload::Recovery { standby_node_id, .. } => Some(
                no(
                    "resume_inflight_op: op "@ + op.id@
                        + " is a recovery, which has no resume driver. Abandon it (`pg_agentctl ops abandon "@
                        + op.id@ + "`) and re-run `pg_agentctl cluster recover --target "@ + dec(
                        standby_node_id as int,
                    )
                        + " --stop-target-pg`, which restarts the orchestration from a known state."@,
                ),
            ),
        }
    }
}

/// Has an orchestration go on, with what the journal gave for its id.
pub fn resume_inflight_op(found: Result<InflightOp, String>, pool: &NodePool) -> (r: Turn<Resume>)
    ensures
        match found {
            Err(e) => r is Answer && answer(r->Answer_0) == missing("resume_inflight_op: "@ + e@),
            Ok(op) => match (r, resume_answer_to(op, *pool)) {
                (Turn::Answer(a), Some(want)) => answer(a) == want,
                (Turn::Ask(Resume::Handoff(m)), None) => {
                    &&& op.payload is Handoff
                    &&& m.op_id == op.id
                    &&& m.phase == op.phase
                    &&& m.slot@ == op.payload.slot()->0
                    &&& m.stage == VerifyStage::Dial
                    &&& first_with_id(pool.members@, pool.local_node_id) == Some(m.local)
                    &&& first_with_id(pool.members@, op.payload->to_node_id) == Some(m.target)
                },
                (Turn::Ask(Resume::FollowPrimary(m)), None) => {
                    &&& op.payload is FollowPrimary
                    &&& m.takes_up(
                        op.id,
                        op.phase,
                        first_with_id(pool.members@, op.payload->detached_node_id)->0,
                        first_with_id(pool.members@, op.payload->new_primary_node_id)->0,
                    )
                },
                _ => false,
            },
        },
{
    let op = match found {
        Ok(op) => op,
        Err(e) => {
            return Turn::Answer(
                refuse(Code::NotFound, text2("resume_inflight_op: ", e.as_str())),
            );
        },
    };
    if op.status != InflightStatus::InProgress {
        return Turn::Answer(
            decline(
                text5(
                    "resume_inflight_op: op ",
                    op.id.as_str(),
                    " is in status ",
                    op.status.as_wire(),
                    "; only in-progress ops can be resumed",
                ),
            ),
        );
    }
    match op.payload {
        InflightPayload::Handoff { from_node_id, to_node_id, to_hostname, slot_name, .. } => {
            match ResumeHandoff::new(
                op.id,
                op.phase,
                from_node_id,
                to_node_id,
                to_hostname.as_str(),
                slot_name,
                pool,
            ) {
                Turn::Ask(m) => Turn::Ask(Resume::Handoff(m)),
                Turn::Answer(a) => Turn::Answer(a),
            }
        },
        InflightPayload::FollowPrimary {
            detached_node_id,
            detached_hostname,
            new_primary_node_id,
            new_primary_hostname,
        } => {
            match FollowUpRun::resume(
                op.id,
                op.phase,
                detached_node_id,
                detached_hostname.as_str(),
                new_primary_node_id,
                new_primary_hostname.as_str(),
                pool,
            ) {
                Turn::Ask(m) => Turn::Ask(Resume::FollowPrimary(m)),
                Turn::Answer(a) => Turn::Answer(a),
            }
        },
        InflightPayload::Promote { .. } => Turn::Answer(
            decline(
                text3(
                    "op ",
                    op.id.as_str(),
                    " is a promotion; nothing to resume — the HA loop re-issues it while the lease is held",
                ),
            ),
        ),
        InflightPayload::AllowAsync { .. } => Turn::Answer(
            decline(
                text3(
                    "op ",
                    op.id.as_str(),
                    " is an allow-async disarm; nothing to resume — the executor re-arms quorum commit when a standby attaches",
                ),
            ),
        ),
        InflightPayload::Recovery { standby_node_id, .. } => {
            let mut s = text5(
                "resume_inflight_op: op ",
                op.id.as_str(),
                " is a recovery, which has no resume driver. Abandon it (`pg_agentctl ops abandon ",
                op.id.as_str(),
                "`) and re-run `pg_agentctl cluster recover --target ",
            );
            s.append(int_text(standby_node_id as i64).as_str());
            s.append(
                " --stop-target-pg`, which restarts the orchestration from a known state.",
            );
            Turn::Answer(decline(s))
        },
    }
}

/// A follow-up that is taken up at the rung that it last recorded goes on as
/// if it had not been cut off: once both nodes are dialed it is where recording
/// that rung leads.
pub proof fn law_resumed_follow_up_goes_on(
    m: FollowUpRun,
    cut: DriveFollowPrimary,
    op_id: String,
    phase: String,
    detached: NodeConfig,
    new_primary: NodeConfig,
    k: usize,
)
    requires
        m.takes_up(op_id, phase, detached, new_primary),
        place_of(fp_phases(), phase@) == Some(k),
        1 <= k <= 7,
        cut.stage == DriveStage::Journal(k),
    ensures
        k == 1 ==> m.stage == follow_up_stage(
            DriveFollowPrimary { stage: cut.next(Reply::Done).stage, ..m.stage->Drive_0 },
        ),
        k >= 2 ==> after(m, seq![Reply::Done, Reply::Done]).stage == follow_up_stage(
            DriveFollowPrimary { stage: cut.next(Reply::Done).stage, ..m.stage->Drive_0 },
        ),
{
    if k >= 2 {
        let two = seq![Reply::Done, Reply::Done];
        assert(two.drop_last() =~= seq![Reply::Done]);
        assert(two.drop_last().drop_last() =~= Seq::<Reply>::empty());
        assert(after(m, two.drop_last().drop_last()) == m);
        assert(after(m, two.drop_last()) == m.next(Reply::Done));
        law_resume_goes_on(m.stage->Drive_0, cut, k);
        assert(after(m.stage->Drive_0, two.drop_last().drop_last()) == m.stage->Drive_0);
        assert(after(m.stage->Drive_0, two.drop_last()) == m.stage->Drive_0.next(Reply::Done));
    }
}

/// The state in which a handoff cut off at the rung with place `k` may go on,
/// as far as the target shows it.
pub open spec fn fits_target(k: usize, status: NodeStatus) -> bool {
    if k == 0 {
        status.is_in_recovery
    } else {
        status.is_postgres_running && !status.is_in_recovery
    }
}

/// A handoff goes on only where the target was seen in the state that its rung
/// implies: a standby before it was promoted, a running primary after.
pub proof fn law_resume_needs_a_fitting_target(m: ResumeHandoff, replies: Seq<Reply>, k: usize)
    requires
        m.stage is Dial,
        place_of(handoff_phases(), m.phase@) == Some(k),
        after(m, replies).stage is Verified,
    ensures
        performed(
            m,
            replies,
            |x: ResumeHandoff, r: Reply|
                x.stage is GetStatus && r is Status && fits_target(k, r->Status_0),
        ),
{
    lemma_comes_after(
        m,
        replies,
        |x: ResumeHandoff, r: Reply|
            x.stage is GetStatus && r is Status && fits_target(k, r->Status_0),
        |x: ResumeHandoff|
            place_of(handoff_phases(), x.phase@) != Some(k) || x.stage is LocalRunning
                || x.stage is LocalRole || x.stage is Verified,
        |x: ResumeHandoff, r: Reply| false,
    );
}

/// After the promotion a handoff goes on only where the local node was seen
/// running before it was to be stopped, stopped before it was to be started,
/// and running as a standby after.
pub proof fn law_resume_needs_a_fitting_local_node(m: ResumeHandoff, replies: Seq<Reply>, k: usize)
    requires
        m.stage is Dial,
        1 <= k <= 7,
        place_of(handoff_phases(), m.phase@) == Some(k),
        after(m, replies).stage is Verified,
    ensures
        performed(
            m,
            replies,
            |x: ResumeHandoff, r: Reply|
                x.stage is LocalRunning && r == Reply::Flag(k <= 2 || k >= 6),
        ),
        k >= 6 ==> performed(
            m,
            replies,
            |x: ResumeHandoff, r: Reply| x.stage is LocalRole && r == Reply::Flag(true),
        ),
{
    lemma_comes_after(
        m,
        replies,
        |x: ResumeHandoff, r: Reply|
            x.stage is LocalRunning && r == Reply::Flag(k <= 2 || k >= 6),
        |x: ResumeHandoff|
            place_of(handoff_phases(), x.phase@) != Some(k) || x.stage is LocalRole
                || x.stage is Verified,
        |x: ResumeHandoff, r: Reply| false,
    );
    if k >= 6 {
        lemma_comes_after(
            m,
            replies,
            |x: ResumeHandoff, r: Reply| x.stage is LocalRole && r == Reply::Flag(true),
            |x: ResumeHandoff|
                place_of(handoff_phases(), x.phase@) != Some(k) || x.stage is Verified,
            |x: ResumeHandoff, r: Reply| false,
        );
    }
}

/// A follow-up that failed abandons its journal entry, and one that did not
/// fail completes it.
pub proof fn law_follow_up_settles_its_entry(m: FollowUpRun, replies: Seq<Reply>)
    requires
        m.stage is Drive || m.stage is AbandonUnknown,
    ensures
        after(m, replies).outcome() is Some ==> performed(
            m,
            replies,
            |x: FollowUpRun, r: Reply|
                x.stage is Complete || x.stage is Abandon || x.stage is AbandonUnknown,
        ),
        after(m, replies).stage is Completed ==> performed(
            m,
            replies,
            |x: FollowUpRun, r: Reply| x.stage is Complete && r is Done,
        ),
{
    lemma_comes_after(
        m,
        replies,
        |x: FollowUpRun, r: Reply|
            x.stage is Complete || x.stage is Abandon || x.stage is AbandonUnknown,
        |x: FollowUpRun|
            x.stage is Completed || x.stage is NotCompleted || x.stage is Abandoned
                || x.stage is AbandonedUnknown,
        |x: FollowUpRun, r: Reply| false,
    );
    lemma_comes_after(
        m,
        replies,
        |x: FollowUpRun, r: Reply| x.stage is Complete && r is Done,
        |x: FollowUpRun| x.stage is Completed,
        |x: FollowUpRun, r: Reply| false,
    );
}

/// Before the promotion was recorded the target has to be in recovery still.
/// After it the target has to run as a primary, and the local node to run until
/// it was stopped, to be stopped until it was started, and to run as a standby
/// from then on. Each difference is told only where it was seen, and an error
/// that is told is that of the question that failed.
pub proof fn law_how_a_handoff_is_verified(x: ResumeHandoff, r: Reply)
    ensures
        ({
            let t = x.next(r).stage;
            let k = place_of(handoff_phases(), x.phase@);
            t == x.stage || match t {
                VerifyStage::Dial => false,
                VerifyStage::GetStatus => x.stage is Dial && r is Done,
                VerifyStage::LocalRunning => x.stage is GetStatus && r is Status
                    && k != Some(0usize)
                    && r->Status_0.is_postgres_running && !r->Status_0.is_in_recovery,
                VerifyStage::LocalRole => x.stage is LocalRunning && r == Reply::Flag(true)
                    && k is Some && k->0 >= 6,
                VerifyStage::Verified => {
                    ||| x.stage is GetStatus && r is Status && k == Some(0usize)
                        && r->Status_0.is_in_recovery
                    ||| x.stage is LocalRunning && r == Reply::Flag(true) && (k is None
                        || k->0 <= 2)
                    ||| x.stage is LocalRunning && r == Reply::Flag(false) && (k is None
                        || k->0 == 0
                        || 3 <= k->0 <= 5)
                    ||| x.stage is LocalRole && r == Reply::Flag(true)
                },
                VerifyStage::Diverged(d) => match d {
                    Divergence::AlreadyPrimary => x.stage is GetStatus && r is Status && k
                        == Some(0usize) && !r->Status_0.is_in_recovery,
                    Divergence::TargetStopped => x.stage is GetStatus && r is Status && k != Some(
                        0usize,
                    ) && !r->Status_0.is_postgres_running,
                    Divergence::TargetInRecovery => x.stage is GetStatus && r is Status
                        && k != Some(
                        0usize,
                    ) && r->Status_0.is_postgres_running && r->Status_0.is_in_recovery,
                    Divergence::StoppedEarly => x.stage is LocalRunning && r == Reply::Flag(false)
                        && k is Some && 1 <= k->0 <= 2,
                    Divergence::StartedEarly => x.stage is LocalRunning && r == Reply::Flag(true)
                        && k is Some && 3 <= k->0 <= 5,
                    Divergence::NotStarted => x.stage is LocalRunning && r == Reply::Flag(false)
                        && k is Some && k->0 >= 6,
                    Divergence::StillPrimary => x.stage is LocalRole && r == Reply::Flag(false),
                },
                VerifyStage::Failed(step, e) => r == Reply::Failed(e) && match step {
                    VerifyStep::Dial => x.stage is Dial,
                    VerifyStep::GetStatus => x.stage is GetStatus,
                    VerifyStep::LocalRunning => x.stage is LocalRunning,
                    VerifyStep::LocalRole => x.stage is LocalRole,
                },
            }
        }),
{
}

/// An answer to the question that is due moves the run on, and nothing else
/// does; the entry, its phase, the nodes and the slot stay.
pub proof fn law_every_reply_counts(x: ResumeHandoff, r: Reply)
    ensures
        ({
            let answers = match x.stage {
                VerifyStage::Dial => r is Done || r is Failed,
                VerifyStage::GetStatus => r is Status || r is Failed,
                VerifyStage::LocalRunning | VerifyStage::LocalRole => r is Flag || r is Failed,
                _ => false,
            };
            &&& answers ==> x.next(r).stage != x.stage
            &&& !answers ==> x.next(r) == x
            &&& x.next(r) == (ResumeHandoff { stage: x.next(r).stage, ..x })
        }),
{
}

/// The target is dialed and asked; the rest is asked here.
pub proof fn law_questions_go_to_the_target(x: ResumeHandoff)
    ensures
        x.called() == if x.stage is Dial || x.stage is GetStatus {
            Some(x.target)
        } else {
            None
        },
{
}

/// A handoff that does not go on is answered negatively where the cluster
/// differs, and refused with the error where a question failed.
pub proof fn law_answers_tell_the_end(x: ResumeHandoff)
    ensures
        match x.stage {
            VerifyStage::Diverged(d) => x.outcome() is Some && x.outcome()->0 is Result
                && !x.outcome()->0->ok,
            VerifyStage::Failed(step, e) => x.outcome() == Some(broken(x.failure_text(step, e@)))
                && ends_with(x.failure_text(step, e@), e@),
            _ => x.outcome() is None,
        },
{
    if let VerifyStage::Failed(step, e) = x.stage {
        let s = x.failure_text(step, e@);
        assert(s.skip(s.len() - e@.len()) =~= e@);
    }
}

/// A handoff goes on only with the nodes that the journal names: the local node
/// is the one that handed over, and the member with the target's id has the
/// target's hostname. Where they are not, the answer is negative.
pub proof fn law_handoff_keeps_its_nodes(
    pool: NodePool,
    from: i32,
    to: i32,
    to_hostname: Seq<char>,
)
    ensures
        ({
            let a = handoff_topology(pool, from, to, to_hostname);
            let local = first_with_id(pool.members@, pool.local_node_id);
            let target = first_with_id(pool.members@, to);
            &&& a is None <==> local is Some && from == pool.local_node_id && target is Some
                && target->0.hostname@ == to_hostname
            &&& a is Some && local is Some ==> a->0 is Result && !a->0->ok
            &&& local is None ==> a->0 is Refusal && a->0->code == Code::Internal
        }),
{
    lemma_first_with_id(pool.members@, pool.local_node_id);
}

/// A follow-up goes on only with the nodes that the journal names: the members
/// with their ids have their hostnames. Where they do not, the answer is
/// negative.
pub proof fn law_follow_up_keeps_its_nodes(
    pool: NodePool,
    detached: i32,
    detached_hostname: Seq<char>,
    new_primary: i32,
    new_primary_hostname: Seq<char>,
)
    ensures
        ({
            let a = follow_topology(
                pool,
                detached,
                detached_hostname,
                new_primary,
                new_primary_hostname,
            );
            let d = first_with_id(pool.members@, detached);
            let n = first_with_id(pool.members@, new_primary);
            &&& a is None <==> d is Some && d->0.hostname@ == detached_hostname && n is Some
                && n->0.hostname@ == new_primary_hostname
            &&& a is Some ==> a->0 is Result && !a->0->ok
        }),
{
}

/// Only an orchestration in progress is resumed, and only a handoff or a
/// follow-up whose nodes are those of the pool; any other is answered
/// negatively, unless the local node is no member.
pub proof fn law_only_what_is_in_progress_resumes(op: InflightOp, pool: NodePool)
    ensures
        resume_answer_to(op, pool) is None ==> op.status == InflightStatus::InProgress && (
        op.payload is Handoff || op.payload is FollowPrimary),
        op.status != InflightStatus::InProgress || !(op.payload is Handoff
            || op.payload is FollowPrimary) ==> resume_answer_to(op, pool)->0 is Result
            && !resume_answer_to(op, pool)->0->ok,
        op.status == InflightStatus::InProgress && op.payload is Handoff ==> (resume_answer_to(
            op,
            pool,
        ) is None <==> first_with_id(pool.members@, pool.local_node_id) is Some
            && op.payload->from_node_id == pool.local_node_id && first_with_id(
            pool.members@,
            op.payload->to_node_id,
        ) is Some && first_with_id(pool.members@, op.payload->to_node_id)->0.hostname@
            == op.payload->to_hostname@),
        op.status == InflightStatus::InProgress && op.payload is FollowPrimary ==> (
        resume_answer_to(op, pool) is None <==> first_with_id(
            pool.members@,
            op.payload->detached_node_id,
        ) is Some && first_with_id(pool.members@, op.payload->detached_node_id)->0.hostname@
            == op.payload->detached_hostname@ && first_with_id(
            pool.members@,
            op.payload->new_primary_node_id,
        ) is Some && first_with_id(pool.members@, op.payload->new_primary_node_id)->0.hostname@
            == op.payload->new_primary_hostname@),
{
    lemma_first_with_id(pool.members@, pool.local_node_id);
}

/// A follow-up that is going on takes its own steps; its entry is completed
/// exactly where it ended well, and abandoned exactly where it failed or its
/// rung is unknown.
pub proof fn law_how_a_follow_up_is_settled(x: FollowUpRun, r: Reply)
    ensures
        ({
            let t = x.next(r).stage;
            t == x.stage || match t {
                FollowUpStage::Drive(d) => x.stage is Drive && d == x.stage->Drive_0.next(r)
                    && d.outcome() is None,
                FollowUpStage::Complete => x.stage is Drive && x.stage->Drive_0.next(r).outcome()
                    == Some(Ok::<(), Seq<char>>(())),
                FollowUpStage::Abandon(d) => x.stage is Drive && d == x.stage->Drive_0.next(r)
                    && d.outcome() is Some && d.outcome()->0 is Err,
                FollowUpStage::AbandonUnknown => false,
                FollowUpStage::Completed => x.stage is Complete && r is Done,
                FollowUpStage::NotCompleted(e) => x.stage is Complete && r == Reply::Failed(e),
                FollowUpStage::Abandoned(d) => x.stage == FollowUpStage::Abandon(d) && (r is Done
                    || r is Failed),
                FollowUpStage::AbandonedUnknown => x.stage is AbandonUnknown && (r is Done
                    || r is Failed),
            }
        }),
        ({
            let t = x.next(r).stage;
            match x.stage {
                FollowUpStage::Drive(d) => d.next(r).outcome() is Some ==> !(t is Drive),
                FollowUpStage::Complete | FollowUpStage::Abandon(_)
                | FollowUpStage::AbandonUnknown => (r is Done || r is Failed <==> t != x.stage),
                _ => t == x.stage,
            }
        }),
        x.next(r) == (FollowUpRun { stage: x.next(r).stage, ..x }),
{
}

/// A follow-up answers positively exactly where its entry was completed, and
/// negatively, with the reason, where it was abandoned.
pub proof fn law_follow_up_tells_the_end(x: FollowUpRun)
    ensures
        match x.stage {
            FollowUpStage::Completed => x.outcome() is Some && x.outcome()->0 is Result
                && x.outcome()->0->ok,
            FollowUpStage::NotCompleted(e) => x.outcome() is Some && x.outcome()->0 is Refusal
                && x.outcome()->0->code == Code::Internal && ends_with(
                x.outcome()->0->Refusal_message,
                e@,
            ),
            FollowUpStage::Abandoned(_) | FollowUpStage::AbandonedUnknown => x.outcome() is Some
                ==> x.outcome()->0 is Result && !x.outcome()->0->ok && x.reason_text() is Some
                && holds_text(x.outcome()->0->Result_message, x.reason_text()->0),
            _ => x.outcome() is None,
        },
        match x.stage {
            FollowUpStage::Abandon(d) | FollowUpStage::Abandoned(d) => match d.outcome() {
                Some(Err(e)) => x.reason_text() == Some(e),
                _ => x.reason_text() is None,
            },
            FollowUpStage::AbandonUnknown | FollowUpStage::AbandonedUnknown => x.reason_text()
                is Some,
            _ => x.reason_text() is None,
        },
{
    if let FollowUpStage::NotCompleted(e) = x.stage {
        let s = "resume_follow_primary: complete journal: "@ + e@;
        assert(s.skip(s.len() - e@.len()) =~= e@);
    }
    if x.reason_text() is Some {
        let e = x.reason_text()->0;
        let head = "resume_follow_primary: driver failed: "@;
        let s = head + e + "; op marked abandoned"@;
        let n = head.len() as int;
        assert(s.subrange(n, n + e.len()) =~= e);
        assert(stands_at(s, e, n));
    }
}

/// A follow-up that is taken up is that of the given entry and nodes, enters
/// the ladder at the recorded rung, and first records that it dials, or dials.
pub proof fn law_taking_up_keeps_the_record(
    m: FollowUpRun,
    op_id: String,
    phase: String,
    detached: NodeConfig,
    new_primary: NodeConfig,
)
    requires
        m.takes_up(op_id, phase, detached, new_primary),
    ensures
        m.op_id == op_id && m.phase == phase && m.detached == detached,
        m.stage is Drive <==> place_of(fp_phases(), phase@) is Some,
        m.stage is AbandonUnknown <==> place_of(fp_phases(), phase@) is None,
        m.stage is Drive ==> {
            let d = m.stage->Drive_0;
            &&& d.op_id == op_id && d.detached == detached && d.new_primary == new_primary
            &&& d.slot@ == crate::config::slot_text(detached.id)
            &&& place_of(fp_phases(), phase@) == Some(d.from)
            &&& d.stage is DialDetached || (d.from == 0 && d.stage == DriveStage::Journal(1))
            &&& d.from == 0 ==> d.stage is Journal
        },
{
}

} // verus!
