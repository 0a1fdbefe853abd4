//! `follow_primary`: pgpool has a standby follow the new primary, which is
//! the node this runs on.
//!
//! The standby is stopped, gets a slot here, is rewound (or copied afresh
//! where that fails), configured, started and attached. If anything between
//! the creation of the slot and the start fails, the slot is dropped, and
//! where it cannot be dropped the drop is queued. A started standby uses the
//! slot: from then on it stays.
use crate::config::{
    lemma_pair_keys_differ, resolved, slot_text, NodeConfig, NodePool, NodeRef, PostgresRuntime,
};
use crate::maintenance::MaintenancePayload;
use crate::orchestration::{
    after, lemma_comes_after, lemma_either, lemma_excludes, lemma_held_until, performed, Machine,
    Reply, Turn,
};
use crate::pgstandby::{
    basebackup_from, recovery_from, rewind_to, BasebackupOpts, RewindOpts, WriteRecoveryConfOpts,
};
use crate::status::{
    answer, bad_argument, broken, refuse, succeed, yes, Answer, Code, OpResult, Status,
};
use crate::text::{dec, ends_with, int_text, text2, text4};
use vstd::prelude::*;

verus! {

/// pgpool's request.
pub struct FollowPrimaryRequest {
    pub detached: Option<NodeRef>,
    pub new_primary: Option<NodeRef>,
}

/// A request, before its marker was looked up.
pub struct FollowPrimaryHook {
    pub detached: NodeRef,
    pub new_primary: NodeRef,
    /// The key under which the request is marked as processed.
    pub key: String,
}

/// The key under which a request is marked as processed.
pub open spec fn follow_primary_key(detached: i32, new_primary: i32) -> Seq<char> {
    "detached="@ + dec(detached as int) + ",new_primary="@ + dec(new_primary as int)
}

/// Two requests are marked under one key only if they name the same nodes.
pub proof fn law_keys_differ(a: (i32, i32), b: (i32, i32))
    requires
        follow_primary_key(a.0, a.1) == follow_primary_key(b.0, b.1),
    ensures
        a == b,
{
    reveal_strlit(",new_primary=");
    lemma_pair_keys_differ(
        "detached="@,
        ",new_primary="@,
        a.0 as int,
        a.1 as int,
        b.0 as int,
        b.1 as int,
    );
}

impl FollowPrimaryHook {
    /// Takes a request, which leads to a lookup of its marker.
    pub fn new(req: FollowPrimaryRequest) -> (r: Turn<FollowPrimaryHook>)
        ensures
            match (req.detached, req.new_primary) {
                (None, _) => r is Answer && answer(r->Answer_0) == bad_argument(
                    "follow_primary: detached is required"@,
                ),
                (_, None) => r is Answer && answer(r->Answer_0) == bad_argument(
                    "follow_primary: new_primary is required"@,
                ),
                (Some(detached), Some(new_primary)) => {
                    &&& r is Ask
                    &&& r->Ask_0.detached == detached
                    &&& r->Ask_0.new_primary == new_primary
                    &&& r->Ask_0.key@ == follow_primary_key(detached.id, new_primary.id)
                },
            },
    {
        let detached = match req.detached {
            Some(n) => n,
            None => {
                return Turn::Answer(
                    refuse(Code::InvalidArgument, "follow_primary: detached is required".to_owned()),
                );
            },
        };
        let new_primary = match req.new_primary {
            Some(n) => n,
            None => {
                return Turn::Answer(
                    refuse(
                        Code::InvalidArgument,
                        "follow_primary: new_primary is required".to_owned(),
                    ),
                );
            },
        };
        let key = text4(
            "detached=",
            int_text(detached.id as i64).as_str(),
            ",new_primary=",
            int_text(new_primary.id as i64).as_str(),
        );
        Turn::Ask(FollowPrimaryHook { detached, new_primary, key })
    }

    /// The answer that the marker, or an unknown node, leads to.
    pub open spec fn answer_to_marker(self, pool: NodePool, marker: Result<bool, String>) -> Option<
        Answer,
    > {
        match marker {
            Err(e) => Some(broken("follow_primary: idempotency marker check: "@ + e@)),
            Ok(true) => Some(yes("follow_primary: already processed; skipping duplicate"@)),
            Ok(false) => match (
                resolved(pool.members@, self.detached),
                resolved(pool.members@, self.new_primary),
            ) {
                (Err(e), _) => Some(bad_argument("follow_primary: detached: "@ + e)),
                (_, Err(e)) => Some(bad_argument("follow_primary: new_primary: "@ + e)),
                _ => None,
            },
        }
    }

    /// Goes on with what the lookup of the marker gave.
    pub fn after_marker(self, pool: &NodePool, marker: Result<bool, String>) -> (r: Turn<
        FollowPrimary,
    >)
        ensures
            match (r, self.answer_to_marker(*pool, marker)) {
                (Turn::Answer(a), Some(want)) => answer(a) == want,
                (Turn::Ask(m), None) => {
                    &&& m.key == self.key
                    &&& resolved(pool.members@, self.detached) == Ok::<NodeConfig, Seq<char>>(
                        m.detached,
                    )
                    &&& resolved(pool.members@, self.new_primary) == Ok::<NodeConfig, Seq<char>>(
                        m.new_primary,
                    )
                    &&& m.slot@ == slot_text(m.detached.id)
                    &&& m.stage == FollowStage::Dial
                },
                _ => false,
            },
    {
        match marker {
            Err(e) => {
                return Turn::Answer(
                    refuse(
                        Code::Internal,
                        text2("follow_primary: idempotency marker check: ", e.as_str()),
                    ),
                );
            },
            Ok(true) => {
                return Turn::Answer(
                    succeed("follow_primary: already processed; skipping duplicate".to_owned()),
                );
            },
            Ok(false) => {},
        }
        let detached = match pool.resolve_node(&self.detached) {
            Ok(n) => n.clone(),
            Err(e) => {
                return Turn::Answer(
                    refuse(Code::InvalidArgument, text2("follow_primary: detached: ", e.as_str())),
                );
            },
        };
        let new_primary = match pool.resolve_node(&self.new_primary) {
            Ok(n) => n.clone(),
            Err(e) => {
                return Turn::Answer(
                    refuse(
                        Code::InvalidArgument,
                        text2("follow_primary: new_primary: ", e.as_str()),
                    ),
                );
            },
        };
        let slot = detached.slot_name();
        Turn::Ask(
            FollowPrimary { key: self.key, detached, new_primary, slot, stage: FollowStage::Dial },
        )
    }
}

/// A step that can fail for good.
#[derive(Clone, Copy, Debug, PartialEq, Eq, Structural)]
pub enum FollowStep {
    Dial,
    GetStatus,
    Stop,
    Checkpoint,
    CreateSlot,
    Basebackup,
    Configure,
    Start,
    Attach,
    WriteMarker,
}

/// The call that is due, or how it ended.
pub enum FollowStage {
    /// Dial the standby.
    Dial,
    /// Ask the standby for its state.
    GetStatus,
    /// Stop the standby.
    Stop,
    /// Take a checkpoint here.
    Checkpoint,
    /// Create the standby's slot here.
    CreateSlot,
    /// Rewind the standby.
    Rewind,
    /// Copy the standby afresh.
    Basebackup,
    /// Write the standby's recovery configuration.
    Configure,
    /// Start the standby.
    Start,
    /// Attach the standby in pgpool.
    Attach,
    /// Mark the request as processed.
    WriteMarker,
    /// Drop the slot: a step failed with this error.
    DropSlot(FollowStep, String),
    /// Queue the drop, which failed with the second error.
    QueueCleanup(FollowStep, String, String),
    /// A step failed with this error.
    Failed(FollowStep, String),
    /// The standby is down on purpose.
    Skipped,
    /// All done.
    Complete,
}

/// A standby on its way to the new primary.
pub struct FollowPrimary {
    pub key: String,
    pub detached: NodeConfig,
    pub new_primary: NodeConfig,
    pub slot: String,
    pub stage: FollowStage,
}

/// The stage after `stage` succeeded.
pub open spec fn follow_onward(stage: FollowStage) -> FollowStage {
    match stage {
        FollowStage::Dial => FollowStage::GetStatus,
        FollowStage::Stop => FollowStage::Checkpoint,
        FollowStage::Checkpoint => FollowStage::CreateSlot,
        FollowStage::CreateSlot => FollowStage::Rewind,
        FollowStage::Rewind => FollowStage::Configure,
        FollowStage::Basebackup => FollowStage::Configure,
        FollowStage::Configure => FollowStage::Start,
        FollowStage::Start => FollowStage::Attach,
        FollowStage::Attach => FollowStage::WriteMarker,
        FollowStage::WriteMarker => FollowStage::Complete,
        FollowStage::DropSlot(step, e) => FollowStage::Failed(step, e),
        FollowStage::QueueCleanup(step, e, _) => FollowStage::Failed(step, e),
        s => s,
    }
}

/// The stage after `stage` failed with `e`.
pub open spec fn follow_failed(stage: FollowStage, e: String) -> FollowStage {
    match stage {
        FollowStage::Dial => FollowStage::Failed(FollowStep::Dial, e),
        FollowStage::GetStatus => FollowStage::Failed(FollowStep::GetStatus, e),
        FollowStage::Stop => FollowStage::Failed(FollowStep::Stop, e),
        FollowStage::Checkpoint => FollowStage::Failed(FollowStep::Checkpoint, e),
        FollowStage::CreateSlot => FollowStage::Failed(FollowStep::CreateSlot, e),
        FollowStage::Rewind => FollowStage::Basebackup,
        FollowStage::Basebackup => FollowStage::DropSlot(FollowStep::Basebackup, e),
        FollowStage::Configure => FollowStage::DropSlot(FollowStep::Configure, e),
        FollowStage::Start => FollowStage::DropSlot(FollowStep::Start, e),
        FollowStage::Attach => FollowStage::Failed(FollowStep::Attach, e),
        FollowStage::WriteMarker => FollowStage::Failed(FollowStep::WriteMarker, e),
        FollowStage::DropSlot(step, first) => FollowStage::QueueCleanup(step, first, e),
        FollowStage::QueueCleanup(step, first, _) => FollowStage::Failed(step, first),
        s => s,
    }
}

/// The stage after `stage` got `reply`.
pub open spec fn follow_next(stage: FollowStage, reply: Reply) -> FollowStage {
    match reply {
        Reply::Done => follow_onward(stage),
        Reply::Failed(e) => follow_failed(stage, e),
        Reply::Status(status) => if stage is GetStatus {
            if status.is_running {
                FollowStage::Stop
            } else {
                FollowStage::Skipped
            }
        } else {
            stage
        },
        _ => stage,
    }
}

impl Machine for FollowPrimary {
    open spec fn next(self, reply: Reply) -> Self {
        FollowPrimary { stage: follow_next(self.stage, reply), ..self }
    }
}

impl FollowPrimary {
    /// What is said of a step that failed.
    pub open spec fn failure_text(self, step: FollowStep, e: Seq<char>) -> Seq<char> {
        match step {
            FollowStep::Dial => "follow_primary: peer client for "@ + self.detached.hostname@ + ": "@
                + e,
            FollowStep::GetStatus => "follow_primary: get_status "@ + self.detached.hostname@ + ": "@
                + e,
            FollowStep::Stop => "follow_primary: stop "@ + self.detached.hostname@ + ": "@ + e,
            FollowStep::Checkpoint => "follow_primary: checkpoint: "@ + e,
            FollowStep::CreateSlot => "follow_primary: create slot "@ + self.slot@ + ": "@ + e,
            FollowStep::Basebackup => "follow_primary: basebackup "@ + self.detached.hostname@
                + ": "@ + e,
            FollowStep::Configure => "follow_primary: configure_standby "@ + self.detached.hostname@
                + ": "@ + e,
            FollowStep::Start => "follow_primary: start "@ + self.detached.hostname@ + ": "@ + e,
            FollowStep::Attach => "follow_primary: pcp_attach_node "@ + dec(self.detached.id as int)
                + ": "@ + e,
            FollowStep::WriteMarker => "follow_primary: idempotency marker write: "@ + e,
        }
    }

    /// The answer, once there is one.
    pub open spec fn outcome(self) -> Option<Answer> {
        match self.stage {
            FollowStage::Failed(step, e) => Some(broken(self.failure_text(step, e@))),
            FollowStage::Skipped => Some(yes("detached node is stopped, skipping"@)),
            FollowStage::Complete => Some(
                yes("follow_primary complete for "@ + self.detached.hostname@),
            ),
            _ => None,
        }
    }

    /// The node that the call that is due goes to; none, where it is made here
    /// or no call is due.
    pub open spec fn called(self) -> Option<NodeConfig> {
        match self.stage {
            FollowStage::Dial | FollowStage::GetStatus | FollowStage::Stop | FollowStage::Rewind | FollowStage::Basebackup | FollowStage::Configure | FollowStage::Start => Some(self.detached),
            _ => None,
        }
    }

    /// The node that the call that is due goes to; none, where it is made here
    /// or no call is due.
    pub fn callee(&self) -> (r: Option<&NodeConfig>)
        ensures
            match (r, self.called()) {
                (Some(n), Some(want)) => *n == want,
                (None, None) => true,
                _ => false,
            },
            r is Some <==> (self.stage is Dial || self.stage is GetStatus || self.stage is Stop
                || self.stage is Rewind || self.stage is Basebackup || self.stage is Configure
                || self.stage is Start),
            self.stage is Dial || self.stage is GetStatus || self.stage is Stop
                || self.stage is Rewind || self.stage is Basebackup || self.stage is Configure
                || self.stage is Start ==> r is Some && *r->0 == self.detached,
    {
        match &self.stage {
            FollowStage::Dial => Some(&self.detached),
            FollowStage::GetStatus => Some(&self.detached),
            FollowStage::Stop => Some(&self.detached),
            FollowStage::Rewind => Some(&self.detached),
            FollowStage::Basebackup => Some(&self.detached),
            FollowStage::Configure => Some(&self.detached),
            FollowStage::Start => Some(&self.detached),
            _ => None,
        }
    }

    /// The backend to attach in pgpool here, where that is due.
    pub fn backend(&self) -> (r: Option<i32>)
        ensures
            r == if self.stage is Attach {
                Some(self.detached.id)
            } else {
                None
            },
    {
        match &self.stage {
            FollowStage::Attach => Some(self.detached.id),
            _ => None,
        }
    }

    /// Takes the reply to the call that was due.
    pub fn step(self, reply: Reply) -> (r: Self)
        ensures
            r == self.next(reply),
            self.stage is GetStatus && reply is Status && reply->Status_0.is_running
                ==> r.stage is Stop,
            self.stage is GetStatus && reply is Status && !reply->Status_0.is_running
                ==> r.stage is Skipped,
    {
        let stage = match reply {
            Reply::Done => match self.stage {
                FollowStage::Dial => FollowStage::GetStatus,
                FollowStage::Stop => FollowStage::Checkpoint,
                FollowStage::Checkpoint => FollowStage::CreateSlot,
                FollowStage::CreateSlot => FollowStage::Rewind,
                FollowStage::Rewind => FollowStage::Configure,
                FollowStage::Basebackup => FollowStage::Configure,
                FollowStage::Configure => FollowStage::Start,
                FollowStage::Start => FollowStage::Attach,
                FollowStage::Attach => FollowStage::WriteMarker,
                FollowStage::WriteMarker => FollowStage::Complete,
                FollowStage::DropSlot(step, e) => FollowStage::Failed(step, e),
                FollowStage::QueueCleanup(step, e, _) => FollowStage::Failed(step, e),
                s => s,
            },
            Reply::Failed(e) => match self.stage {
                FollowStage::Dial => FollowStage::Failed(FollowStep::Dial, e),
                FollowStage::GetStatus => FollowStage::Failed(FollowStep::GetStatus, e),
                FollowStage::Stop => FollowStage::Failed(FollowStep::Stop, e),
                FollowStage::Checkpoint => FollowStage::Failed(FollowStep::Checkpoint, e),
                FollowStage::CreateSlot => FollowStage::Failed(FollowStep::CreateSlot, e),
                FollowStage::Rewind => FollowStage::Basebackup,
                FollowStage::Basebackup => FollowStage::DropSlot(FollowStep::Basebackup, e),
                FollowStage::Configure => FollowStage::DropSlot(FollowStep::Configure, e),
                FollowStage::Start => FollowStage::DropSlot(FollowStep::Start, e),
                FollowStage::Attach => FollowStage::Failed(FollowStep::Attach, e),
                FollowStage::WriteMarker => FollowStage::Failed(FollowStep::WriteMarker, e),
                FollowStage::DropSlot(step, first) => FollowStage::QueueCleanup(step, first, e),
                FollowStage::QueueCleanup(step, first, _) => FollowStage::Failed(step, first),
                s => s,
            },
            Reply::Status(status) => match self.stage {
                FollowStage::GetStatus => {
                    if status.is_running {
                        FollowStage::Stop
                    } else {
                        FollowStage::Skipped
                    }
                },
                s => s,
            },
            _ => self.stage,
        };
        FollowPrimary { stage, ..self }
    }

    /// The options for rewinding the standby.
    pub fn rewind_opts(&self, pg: &PostgresRuntime) -> (r: RewindOpts)
        ensures
            r.primary_host@ == self.new_primary.hostname@,
            r.primary_port == pg.port,
            r.repl_user@ == pg.repl_user@,
    {
        rewind_to(self.new_primary.hostname.as_str(), pg)
    }

    /// The options for copying the standby afresh.
    pub fn basebackup_opts(&self, pg: &PostgresRuntime) -> (r: BasebackupOpts)
        ensures
            r.primary_host@ == self.new_primary.hostname@,
            r.primary_port == pg.port,
            r.repl_user@ == pg.repl_user@,
            r.slot_name@ == self.slot@,
    {
        basebackup_from(self.new_primary.hostname.as_str(), pg, self.slot.as_str())
    }

    /// The options for configuring the standby.
    pub fn recovery_opts(&self, pg: &PostgresRuntime) -> (r: WriteRecoveryConfOpts)
        ensures
            r.primary_host@ == self.new_primary.hostname@,
            r.primary_port == pg.port,
            r.repl_user@ == pg.repl_user@,
            r.slot_name@ == self.slot@,
    {
        recovery_from(self.new_primary.hostname.as_str(), pg, self.slot.as_str())
    }

    /// The cleanup to queue, where one is due.
    pub fn cleanup(&self) -> (r: Option<MaintenancePayload>)
        ensures
            match (r, self.stage) {
                (Some(p), FollowStage::QueueCleanup(step, _, e)) => p.is_cleanup(
                    self.slot@,
                    self.new_primary.hostname@,
                    follow_cause(step),
                    e@,
                ),
                (None, FollowStage::QueueCleanup(..)) => false,
                (r, _) => r is None,
            },
    {
        match &self.stage {
            FollowStage::QueueCleanup(step, _, e) => Some(
                MaintenancePayload::cleanup(
                    self.slot.as_str(),
                    self.new_primary.hostname.as_str(),
                    cause(*step),
                    e.as_str(),
                ),
            ),
            _ => None,
        }
    }

    fn failure(&self, step: FollowStep, e: &str) -> (r: String)
        ensures
            r@ == self.failure_text(step, e@),
    {
        let host = self.detached.hostname.as_str();
        match step {
            FollowStep::Dial => text4("follow_primary: peer client for ", host, ": ", e),
            FollowStep::GetStatus => text4("follow_primary: get_status ", host, ": ", e),
            FollowStep::Stop => text4("follow_primary: stop ", host, ": ", e),
            FollowStep::Checkpoint => text2("follow_primary: checkpoint: ", e),
            FollowStep::CreateSlot => text4(
                "follow_primary: create slot ",
                self.slot.as_str(),
                ": ",
                e,
            ),
            FollowStep::Basebackup => text4("follow_primary: basebackup ", host, ": ", e),
            FollowStep::Configure => text4("follow_primary: configure_standby ", host, ": ", e),
            FollowStep::Start => text4("follow_primary: start ", host, ": ", e),
            FollowStep::Attach => text4(
                "follow_primary: pcp_attach_node ",
                int_text(self.detached.id as i64).as_str(),
                ": ",
                e,
            ),
            FollowStep::WriteMarker => text2("follow_primary: idempotency marker write: ", e),
        }
    }

    /// The answer, once there is one.
    pub fn answer(&self) -> (r: Option<Result<OpResult, Status>>)
        ensures
            match (r, self.outcome()) {
                (Some(a), Some(want)) => answer(a) == want,
                (None, None) => true,
                _ => false,
            },
    {
        match &self.stage {
            FollowStage::Failed(step, e) => Some(
                refuse(Code::Internal, self.failure(*step, e.as_str())),
            ),
            FollowStage::Skipped => Some(succeed("detached node is stopped, skipping".to_owned())),
            FollowStage::Complete => Some(
                succeed(
                    text2("follow_primary complete for ", self.detached.hostname.as_str()),
                ),
            ),
            _ => None,
        }
    }
}

/// Why the slot has to go after `step` failed.
pub open spec fn follow_cause(step: FollowStep) -> Seq<char> {
    match step {
        FollowStep::Basebackup => "follow_primary_basebackup_failed"@,
        FollowStep::Configure => "follow_primary_configure_standby_failed"@,
        _ => "follow_primary_start_failed"@,
    }
}

/// Why the slot has to go after `step` failed.
pub(crate) fn cause(step: FollowStep) -> (r: &'static str)
    ensures
        r@ == follow_cause(step),
{
    match step {
        FollowStep::Basebackup => "follow_primary_basebackup_failed",
        FollowStep::Configure => "follow_primary_configure_standby_failed",
        _ => "follow_primary_start_failed",
    }
}

/// Whether the slot was created.
pub open spec fn follow_created() -> spec_fn(FollowPrimary, Reply) -> bool {
    |x: FollowPrimary, r: Reply| x.stage is CreateSlot && r is Done
}

/// Whether the standby was started.
pub open spec fn follow_started() -> spec_fn(FollowPrimary, Reply) -> bool {
    |x: FollowPrimary, r: Reply| x.stage is Start && r is Done
}

/// Whether the slot was dropped, or the queue was asked to drop it.
pub open spec fn follow_released() -> spec_fn(FollowPrimary, Reply) -> bool {
    |x: FollowPrimary, r: Reply|
        (x.stage is DropSlot && r is Done) || (x.stage is QueueCleanup && (r is Done || r is Failed))
}

/// A run that created the slot and failed has either started the standby,
/// which uses the slot, or dropped the slot, or asked the queue to drop it.
pub proof fn law_no_slot_left_behind(m: FollowPrimary, replies: Seq<Reply>)
    requires
        performed(m, replies, follow_created()),
        after(m, replies).stage is Failed,
    ensures
        performed(m, replies, follow_started()) || performed(m, replies, follow_released()),
{
    lemma_held_until(
        m,
        replies,
        follow_created(),
        |x: FollowPrimary|
            x.stage is Rewind || x.stage is Basebackup || x.stage is Configure || x.stage is Start
                || x.stage is DropSlot || x.stage is QueueCleanup,
        |x: FollowPrimary, r: Reply| follow_started()(x, r) || follow_released()(x, r),
    );
    lemma_either(m, replies, follow_started(), follow_released());
}

/// Once the standby was started its slot is not dropped.
pub proof fn law_slot_in_use_stays(m: FollowPrimary, replies: Seq<Reply>)
    requires
        performed(m, replies, follow_started()),
    ensures
        !performed(m, replies, |x: FollowPrimary, r: Reply| x.stage is DropSlot),
{
    lemma_excludes(
        m,
        replies,
        follow_started(),
        |x: FollowPrimary|
            x.stage is Attach || x.stage is WriteMarker || x.stage is Complete || x.stage is Failed,
        |x: FollowPrimary, r: Reply| x.stage is DropSlot,
        |x: FollowPrimary| x.stage is DropSlot || x.stage is QueueCleanup || x.stage is Failed,
    );
}

/// The request is marked as processed only once the standby was attached, and
/// a run that completes has marked it.
pub proof fn law_marker_means_attached(m: FollowPrimary, replies: Seq<Reply>)
    requires
        m.stage is Dial,
    ensures
        performed(m, replies, |x: FollowPrimary, r: Reply| x.stage is WriteMarker) ==> performed(
            m,
            replies,
            |x: FollowPrimary, r: Reply| x.stage is Attach && r is Done,
        ),
        after(m, replies).stage is Complete ==> performed(
            m,
            replies,
            |x: FollowPrimary, r: Reply| x.stage is WriteMarker && r is Done,
        ),
{
    lemma_comes_after(
        m,
        replies,
        |x: FollowPrimary, r: Reply| x.stage is Attach && r is Done,
        |x: FollowPrimary| x.stage is WriteMarker,
        |x: FollowPrimary, r: Reply| x.stage is WriteMarker,
    );
    lemma_comes_after(
        m,
        replies,
        |x: FollowPrimary, r: Reply| x.stage is WriteMarker && r is Done,
        |x: FollowPrimary| x.stage is Complete,
        |x: FollowPrimary, r: Reply| false,
    );
}

/// A call is made only once the one before it succeeded; only a standby that
/// was seen down is skipped, only one that was seen running is stopped, and it
/// is copied afresh only where it could not be rewound. The slot is dropped
/// only where one of the steps that use it failed, and an error that is told
/// is that of the call that failed.
pub proof fn law_how_each_stage_comes_about(x: FollowPrimary, r: Reply)
    ensures
        ({
            let t = x.next(r).stage;
            t == x.stage || match t {
                FollowStage::Dial => false,
                FollowStage::GetStatus => x.stage is Dial && r is Done,
                FollowStage::Stop => x.stage is GetStatus && r is Status && r->Status_0.is_running,
                FollowStage::Skipped => x.stage is GetStatus && r is Status
                    && !r->Status_0.is_running,
                FollowStage::Checkpoint => x.stage is Stop && r is Done,
                FollowStage::CreateSlot => x.stage is Checkpoint && r is Done,
                FollowStage::Rewind => x.stage is CreateSlot && r is Done,
                FollowStage::Basebackup => x.stage is Rewind && r is Failed,
                FollowStage::Configure => (x.stage is Rewind || x.stage is Basebackup) && r is Done,
                FollowStage::Start => x.stage is Configure && r is Done,
                FollowStage::Attach => x.stage is Start && r is Done,
                FollowStage::WriteMarker => x.stage is Attach && r is Done,
                FollowStage::Complete => x.stage is WriteMarker && r is Done,
                FollowStage::DropSlot(step, e) => r == Reply::Failed(e) && match step {
                    FollowStep::Basebackup => x.stage is Basebackup,
                    FollowStep::Configure => x.stage is Configure,
                    FollowStep::Start => x.stage is Start,
                    _ => false,
                },
                FollowStage::QueueCleanup(step, e, why) => x.stage == FollowStage::DropSlot(step, e) && r == Reply::Failed(why),
                FollowStage::Failed(step, e) => {
                    ||| x.stage == FollowStage::DropSlot(step, e) && r is Done
                    ||| x.stage is QueueCleanup && x.stage->QueueCleanup_0 == step
                        && x.stage->QueueCleanup_1 == e && (r is Done || r is Failed)
                    ||| r == Reply::Failed(e) && match step {
                        FollowStep::Dial => x.stage is Dial,
                        FollowStep::GetStatus => x.stage is GetStatus,
                        FollowStep::Stop => x.stage is Stop,
                        FollowStep::Checkpoint => x.stage is Checkpoint,
                        FollowStep::CreateSlot => x.stage is CreateSlot,
                        FollowStep::Attach => x.stage is Attach,
                        FollowStep::WriteMarker => x.stage is WriteMarker,
                        _ => false,
                    }
                },
            }
        }),
{
}

/// An answer to the call that is due moves the run on, and nothing else does;
/// the nodes, the slot and the key stay.
pub proof fn law_every_reply_counts(x: FollowPrimary, r: Reply)
    ensures
        ({
            let answers = match x.stage {
                FollowStage::GetStatus => r is Status || r is Failed,
                FollowStage::Skipped | FollowStage::Complete | FollowStage::Failed(..) => false,
                _ => r is Done || r is Failed,
            };
            &&& answers ==> x.next(r).stage != x.stage
            &&& !answers ==> x.next(r) == x
            &&& x.next(r) == (FollowPrimary { stage: x.next(r).stage, ..x })
        }),
{
}

/// A run that skipped the standby saw that it does not run, and one that stopped
/// it saw that it does, whatever else the standby reported.
pub proof fn law_skipped_standby_was_down(m: FollowPrimary, replies: Seq<Reply>)
    requires
        m.stage is Dial,
    ensures
        after(m, replies).stage is Skipped ==> performed(
            m,
            replies,
            |x: FollowPrimary, r: Reply|
                x.stage is GetStatus && r is Status && !r->Status_0.is_running,
        ),
        performed(m, replies, |x: FollowPrimary, r: Reply| x.stage is Stop) ==> performed(
            m,
            replies,
            |x: FollowPrimary, r: Reply|
                x.stage is GetStatus && r is Status && r->Status_0.is_running,
        ),
{
    lemma_comes_after(
        m,
        replies,
        |x: FollowPrimary, r: Reply|
            x.stage is GetStatus && r is Status && !r->Status_0.is_running,
        |x: FollowPrimary| x.stage is Skipped,
        |x: FollowPrimary, r: Reply| false,
    );
    lemma_comes_after(
        m,
        replies,
        |x: FollowPrimary, r: Reply|
            x.stage is GetStatus && r is Status && r->Status_0.is_running,
        |x: FollowPrimary| x.stage is Stop,
        |x: FollowPrimary, r: Reply| x.stage is Stop,
    );
}

/// A run that completes has stopped the standby, given it a slot, rewound or
/// copied it, configured it, started it and attached it, and each of these was
/// done only once the one before it was.
pub proof fn law_complete_run_did_every_step(m: FollowPrimary, replies: Seq<Reply>)
    requires
        m.stage is Dial,
    ensures
        after(m, replies).stage is Complete ==> performed(
            m,
            replies,
            |x: FollowPrimary, r: Reply| x.stage is Attach && r is Done,
        ),
        performed(m, replies, |x: FollowPrimary, r: Reply| x.stage is Attach) ==> performed(
            m,
            replies,
            |x: FollowPrimary, r: Reply| x.stage is Start && r is Done,
        ),
        performed(m, replies, |x: FollowPrimary, r: Reply| x.stage is Start) ==> performed(
            m,
            replies,
            |x: FollowPrimary, r: Reply| x.stage is Configure && r is Done,
        ),
        performed(m, replies, |x: FollowPrimary, r: Reply| x.stage is Configure) ==> performed(
            m,
            replies,
            |x: FollowPrimary, r: Reply|
                (x.stage is Rewind || x.stage is Basebackup) && r is Done,
        ),
        performed(m, replies, |x: FollowPrimary, r: Reply| x.stage is Rewind) ==> performed(
            m,
            replies,
            |x: FollowPrimary, r: Reply| x.stage is CreateSlot && r is Done,
        ) && performed(m, replies, |x: FollowPrimary, r: Reply| x.stage is Stop && r is Done),
{
    let none = |x: FollowPrimary, r: Reply| false;
    let late = |x: FollowPrimary| x.stage is WriteMarker || x.stage is Complete;
    lemma_comes_after(
        m,
        replies,
        |x: FollowPrimary, r: Reply| x.stage is Attach && r is Done,
        late,
        none,
    );
    lemma_comes_after(
        m,
        replies,
        |x: FollowPrimary, r: Reply| x.stage is Start && r is Done,
        |x: FollowPrimary| x.stage is Attach,
        |x: FollowPrimary, r: Reply| x.stage is Attach,
    );
    lemma_comes_after(
        m,
        replies,
        |x: FollowPrimary, r: Reply| x.stage is Configure && r is Done,
        |x: FollowPrimary| x.stage is Start,
        |x: FollowPrimary, r: Reply| x.stage is Start,
    );
    lemma_comes_after(
        m,
        replies,
        |x: FollowPrimary, r: Reply| (x.stage is Rewind || x.stage is Basebackup) && r is Done,
        |x: FollowPrimary| x.stage is Configure,
        |x: FollowPrimary, r: Reply| x.stage is Configure,
    );
    lemma_comes_after(
        m,
        replies,
        |x: FollowPrimary, r: Reply| x.stage is CreateSlot && r is Done,
        |x: FollowPrimary| x.stage is Rewind,
        |x: FollowPrimary, r: Reply| x.stage is Rewind,
    );
    lemma_comes_after(
        m,
        replies,
        |x: FollowPrimary, r: Reply| x.stage is Stop && r is Done,
        |x: FollowPrimary|
            x.stage is Checkpoint || x.stage is CreateSlot || x.stage is Rewind,
        |x: FollowPrimary, r: Reply| x.stage is Rewind,
    );
}

/// The answer is positive exactly where the run completed or the standby was
/// skipped; otherwise it is a refusal that ends with the error.
pub proof fn law_answers_tell_the_end(x: FollowPrimary)
    ensures
        match x.outcome() {
            None => !(x.stage is Complete || x.stage is Skipped || x.stage is Failed),
            Some(Answer::Result { ok, message }) => ok && (x.stage is Complete
                || x.stage is Skipped)
                && (x.stage is Complete ==> ends_with(message, x.detached.hostname@)),
            Some(Answer::Refusal { code, message }) => code == Code::Internal && x.stage is Failed
                && ends_with(message, x.stage->Failed_1@),
        },
{
    match x.outcome() {
        Some(Answer::Result { ok, message }) => {
            let h = x.detached.hostname@;
            if x.stage is Complete {
                assert(message.skip(message.len() - h.len()) =~= h);
            }
        },
        Some(Answer::Refusal { code, message }) => {
            let e = x.stage->Failed_1@;
            assert(message.skip(message.len() - e.len()) =~= e);
        },
        None => {},
    }
}

/// The standby is dialed, asked, stopped, rewound, copied, configured and
/// started; the rest is done here, and no call goes to another node.
pub proof fn law_calls_go_to_the_standby(x: FollowPrimary)
    ensures
        x.called() is Some ==> x.called() == Some(x.detached),
        x.called() is Some <==> (x.stage is Dial || x.stage is GetStatus || x.stage is Stop
            || x.stage is Rewind || x.stage is Basebackup || x.stage is Configure
            || x.stage is Start),
{
}

/// The queue is told which step failed.
pub proof fn law_causes_differ(a: FollowStep, b: FollowStep)
    requires
        a is Basebackup || a is Configure || a is Start,
        b is Basebackup || b is Configure || b is Start,
        follow_cause(a) == follow_cause(b),
    ensures
        a == b,
{
    reveal_strlit("follow_primary_basebackup_failed");
    reveal_strlit("follow_primary_configure_standby_failed");
    reveal_strlit("follow_primary_start_failed");
    assert("follow_primary_basebackup_failed"@.len() == 32);
    assert("follow_primary_configure_standby_failed"@.len() == 39);
    assert("follow_primary_start_failed"@.len() == 27);
}

/// A request goes on exactly where it was not processed before and both its
/// nodes are members; where it was processed it is answered positively, and
/// where a node is unknown it is refused as a bad argument.
pub proof fn law_requests_that_go_on(
    hook: FollowPrimaryHook,
    pool: NodePool,
    marker: Result<bool, String>,
)
    ensures
        match hook.answer_to_marker(pool, marker) {
            None => marker == Ok::<bool, String>(false)
                && resolved(pool.members@, hook.detached) is Ok
                && resolved(pool.members@, hook.new_primary) is Ok,
            Some(Answer::Result { ok, message }) => ok && marker == Ok::<bool, String>(true),
            Some(Answer::Refusal { code, message }) => if marker is Err {
                code == Code::Internal && ends_with(message, marker->Err_0@)
            } else {
                code == Code::InvalidArgument && marker == Ok::<bool, String>(false) && (resolved(
                    pool.members@,
                    hook.detached,
                ) is Err || resolved(pool.members@, hook.new_primary) is Err)
            },
        },
{
    if let Err(e) = marker {
        let s = "follow_primary: idempotency marker check: "@ + e@;
        assert(s.skip(s.len() - e@.len()) =~= e@);
    }
}

} // verus!
