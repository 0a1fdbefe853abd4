//! `recovery_1st_stage`: rebuilds a standby from the primary, which is the
//! node this runs on.
//!
//! The run is journaled before anything is touched. The standby gets a slot
//! here, is copied and configured; pgpool starts and attaches it later. If
//! anything between the creation of the slot and the configuration fails, the
//! slot is dropped, and where it cannot be dropped the drop is queued. A
//! failed run is abandoned in the journal, so that it is not taken for one
//! that is still going on.
use crate::config::{
    law_references_name_members, lemma_pair_keys_differ, resolved, resolved_local, slot_text,
    NodeConfig, NodePool, NodeRef, PostgresRuntime,
};
use crate::inflight_ops::{InflightOp, InflightPayload, InflightStatus};
use crate::maintenance::MaintenancePayload;
use crate::orchestration::{
    after, lemma_comes_after, lemma_either, lemma_excludes, lemma_held_until, lemma_kept,
    performed, JournalBegin, Machine, Reply, Turn,
};
use crate::pgstandby::{basebackup_from, recovery_from, BasebackupOpts, WriteRecoveryConfOpts};
use crate::status::{
    answer, bad_argument, broken, refuse, succeed, yes, Answer, Code, OpResult, Status,
};
use crate::text::{dec, ends_with, int_text, nat_text, text2, text4, text5};
use crate::time::Timestamp;
use vstd::prelude::*;

verus! {

pub const REC_PHASE_STARTED: &'static str = "started";

pub const REC_PHASE_SLOT_CREATED: &'static str = "slot_created";

pub const REC_PHASE_DATA_COPIED: &'static str = "data_copied";

pub const REC_PHASE_STANDBY_CONFIGURED: &'static str = "standby_configured";

/// Hours for which a completed recovery suppresses an identical one.
pub const RECOVERY_DEDUP_HOURS: u64 = 24;

/// A request to rebuild a standby.
pub struct RecoveryRequest {
    pub primary: Option<NodeRef>,
    pub standby: Option<NodeRef>,
    /// Run even where an identical recovery completed recently.
    pub bypass_replay_marker: bool,
}

/// A request, before the journal was searched for a recent recovery.
pub struct RecoveryHook {
    pub primary: NodeRef,
    pub standby: NodeRef,
    pub bypass: bool,
    /// The key under which the journal knows the recovery.
    pub key: String,
}

/// The key under which the journal knows a recovery.
pub open spec fn recovery_key(primary: i32, standby: i32) -> Seq<char> {
    "primary="@ + dec(primary as int) + ",standby="@ + dec(standby as int)
}

/// The journal knows two recoveries by one key only if they are of the same
/// nodes.
pub proof fn law_keys_differ(a: (i32, i32), b: (i32, i32))
    requires
        recovery_key(a.0, a.1) == recovery_key(b.0, b.1),
    ensures
        a == b,
{
    reveal_strlit(",standby=");
    lemma_pair_keys_differ(
        "primary="@,
        ",standby="@,
        a.0 as int,
        a.1 as int,
        b.0 as int,
        b.1 as int,
    );
}

/// Whether `op` is a recovery that completed recently.
pub open spec fn recently_done(op: InflightOp, now: Timestamp) -> bool {
    op.status == InflightStatus::Done && op.completed_at is Some && now.at()
        - op.completed_at->0.at() < RECOVERY_DEDUP_HOURS * 3600 * 1_000_000_000
}

/// What is said when an identical recovery completed recently.
pub open spec fn skipped_text(op: InflightOp) -> Seq<char> {
    "recovery_1st_stage: skipped — an identical recovery completed within the last "@ + dec(
        RECOVERY_DEDUP_HOURS as int,
    ) + "h (op "@ + op.id@
        + "); pass --stop-target-pg via `cluster recover` to force a fresh one"@
}

impl RecoveryHook {
    /// Takes a request, which leads to a search of the journal unless the
    /// request bypasses it.
    pub fn new(req: RecoveryRequest) -> (r: Turn<RecoveryHook>)
        ensures
            match (req.primary, req.standby) {
                (None, _) => r is Answer && answer(r->Answer_0) == bad_argument(
                    "recovery_1st_stage: primary is required"@,
                ),
                (_, None) => r is Answer && answer(r->Answer_0) == bad_argument(
                    "recovery_1st_stage: standby is required"@,
                ),
                (Some(primary), Some(standby)) => {
                    &&& r is Ask
                    &&& r->Ask_0.primary == primary
                    &&& r->Ask_0.standby == standby
                    &&& r->Ask_0.bypass == req.bypass_replay_marker
                    &&& r->Ask_0.key@ == recovery_key(primary.id, standby.id)
                },
            },
    {
        let primary = match req.primary {
            Some(n) => n,
            None => {
                return Turn::Answer(
                    refuse(
                        Code::InvalidArgument,
                        "recovery_1st_stage: primary is required".to_owned(),
                    ),
                );
            },
        };
        let standby = match req.standby {
            Some(n) => n,
            None => {
                return Turn::Answer(
                    refuse(
                        Code::InvalidArgument,
                        "recovery_1st_stage: standby is required".to_owned(),
                    ),
                );
            },
        };
        let key = text4(
            "primary=",
            int_text(primary.id as i64).as_str(),
            ",standby=",
            int_text(standby.id as i64).as_str(),
        );
        Turn::Ask(RecoveryHook { primary, standby, bypass: req.bypass_replay_marker, key })
    }

    /// What the names of the nodes lead to.
    pub open spec fn answer_to_names(self, pool: NodePool) -> Option<Answer> {
        match (resolved_local(pool, self.primary), resolved(pool.members@, self.standby)) {
            (Err(e), _) => Some(bad_argument("recovery_1st_stage: primary: "@ + e)),
            (_, Err(e)) => Some(bad_argument("recovery_1st_stage: standby: "@ + e)),
            _ => None,
        }
    }

    /// What the journal, or the names of the nodes, lead to.
    pub open spec fn answer_to_search(
        self,
        pool: NodePool,
        now: Timestamp,
        found: Result<Option<InflightOp>, String>,
    ) -> Option<Answer> {
        if self.bypass {
            self.answer_to_names(pool)
        } else {
            match found {
                Err(e) => Some(broken("recovery_1st_stage: inflight lookup: "@ + e@)),
                Ok(Some(op)) => if recently_done(op, now) {
                    Some(yes(skipped_text(op)))
                } else {
                    self.answer_to_names(pool)
                },
                Ok(None) => self.answer_to_names(pool),
            }
        }
    }

    /// Whether `m` is the recovery that this request asks for, at its start.
    pub open spec fn starts(self, pool: NodePool, m: Recovery) -> bool {
        &&& resolved_local(pool, self.primary) == Ok::<NodeConfig, Seq<char>>(m.primary)
        &&& resolved(pool.members@, self.standby) == Ok::<NodeConfig, Seq<char>>(m.standby)
        &&& m.slot@ == slot_text(m.standby.id)
        &&& m.op_id@ == Seq::<char>::empty()
        &&& m.stage == RecoveryStage::Begin
    }

    /// Goes on where the journal holds no reason not to.
    pub fn resolve(self, pool: &NodePool) -> (r: Turn<Recovery>)
        ensures
            match (r, self.answer_to_names(*pool)) {
                (Turn::Answer(a), Some(want)) => answer(a) == want,
                (Turn::Ask(m), None) => self.starts(*pool, m),
                _ => false,
            },
    {
        let primary = match pool.resolve_local_node(&self.primary) {
            Ok(n) => n.clone(),
            Err(e) => {
                return Turn::Answer(
                    refuse(
                        Code::InvalidArgument,
                        text2("recovery_1st_stage: primary: ", e.as_str()),
                    ),
                );
            },
        };
        let standby = match pool.resolve_node(&self.standby) {
            Ok(n) => n.clone(),
            Err(e) => {
                return Turn::Answer(
                    refuse(
                        Code::InvalidArgument,
                        text2("recovery_1st_stage: standby: ", e.as_str()),
                    ),
                );
            },
        };
        let slot = standby.slot_name();
        Turn::Ask(
            Recovery { primary, standby, slot, op_id: String::new(), stage: RecoveryStage::Begin },
        )
    }

    /// Goes on with what the search of the journal gave. A request that
    /// bypasses the journal goes on whatever it gave.
    pub fn after_search(
        self,
        pool: &NodePool,
        now: Timestamp,
        found: Result<Option<InflightOp>, String>,
    ) -> (r: Turn<Recovery>)
        ensures
            match (r, self.answer_to_search(*pool, now, found)) {
                (Turn::Answer(a), Some(want)) => answer(a) == want,
                (Turn::Ask(m), None) => self.starts(*pool, m),
                _ => false,
            },
    {
        if self.bypass {
            return self.resolve(pool);
        }
        match found {
            Err(e) => {
                return Turn::Answer(
                    refuse(
                        Code::Internal,
                        text2("recovery_1st_stage: inflight lookup: ", e.as_str()),
                    ),
                );
            },
            Ok(Some(op)) => {
                if op.status == InflightStatus::Done {
                    if let Some(t) = op.completed_at {
                        if now.less_than_secs_since(t, RECOVERY_DEDUP_HOURS * 3600) {
                            return Turn::Answer(
                                succeed(
                                    text5(
                                        "recovery_1st_stage: skipped — an identical recovery completed within the last ",
                                        nat_text(RECOVERY_DEDUP_HOURS).as_str(),
                                        "h (op ",
                                        op.id.as_str(),
                                        "); pass --stop-target-pg via `cluster recover` to force a fresh one",
                                    ),
                                ),
                            );
                        }
                    }
                }
            },
            Ok(None) => {},
        }
        self.resolve(pool)
    }
}

/// A step that can fail for good.
#[derive(Clone, Copy, Debug, PartialEq, Eq, Structural)]
pub enum RecoveryStep {
    Begin,
    Checkpoint,
    CreateSlot,
    Dial,
    Basebackup,
    Configure,
    Complete,
}

/// The call that is due, or how it ended.
pub enum RecoveryStage {
    /// Begin the journal entry.
    Begin,
    /// Take a checkpoint here.
    Checkpoint,
    /// Create the standby's slot here.
    CreateSlot,
    /// Journal that the slot was created.
    JournalSlotCreated,
    /// Dial the standby.
    Dial,
    /// Copy the standby afresh.
    Basebackup,
    /// Journal that the data was copied.
    JournalDataCopied,
    /// Write the standby's recovery configuration.
    Configure,
    /// Journal that the standby was configured.
    JournalConfigured,
    /// Complete the journal entry.
    Complete,
    /// Drop the slot: a step failed with this error.
    DropSlot(RecoveryStep, String),
    /// Queue the drop, which failed with the second error.
    QueueCleanup(RecoveryStep, String, String),
    /// Abandon the journal entry: a step failed with this error.
    Abandon(RecoveryStep, String),
    /// A step failed with this error.
    Failed(RecoveryStep, String),
    /// All done.
    Finished,
}

/// A standby that is being rebuilt.
pub struct Recovery {
    pub primary: NodeConfig,
    pub standby: NodeConfig,
    pub slot: String,
    /// The journal entry, once it was begun.
    pub op_id: String,
    pub stage: RecoveryStage,
}

/// The stage after `stage` succeeded.
pub open spec fn recovery_onward(stage: RecoveryStage) -> RecoveryStage {
    match stage {
        RecoveryStage::Checkpoint => RecoveryStage::CreateSlot,
        RecoveryStage::CreateSlot => RecoveryStage::JournalSlotCreated,
        RecoveryStage::JournalSlotCreated => RecoveryStage::Dial,
        RecoveryStage::Dial => RecoveryStage::Basebackup,
        RecoveryStage::Basebackup => RecoveryStage::JournalDataCopied,
        RecoveryStage::JournalDataCopied => RecoveryStage::Configure,
        RecoveryStage::Configure => RecoveryStage::JournalConfigured,
        RecoveryStage::JournalConfigured => RecoveryStage::Complete,
        RecoveryStage::Complete => RecoveryStage::Finished,
        RecoveryStage::DropSlot(step, e) => RecoveryStage::Abandon(step, e),
        RecoveryStage::QueueCleanup(step, e, _) => RecoveryStage::Abandon(step, e),
        RecoveryStage::Abandon(step, e) => RecoveryStage::Failed(step, e),
        s => s,
    }
}

/// The stage after `stage` failed with `e`. That a phase could not be
/// journaled, or an entry not abandoned, changes nothing.
pub open spec fn recovery_failed(stage: RecoveryStage, e: String) -> RecoveryStage {
    match stage {
        RecoveryStage::Begin => RecoveryStage::Failed(RecoveryStep::Begin, e),
        RecoveryStage::Checkpoint => RecoveryStage::Abandon(RecoveryStep::Checkpoint, e),
        RecoveryStage::CreateSlot => RecoveryStage::Abandon(RecoveryStep::CreateSlot, e),
        RecoveryStage::Dial => RecoveryStage::DropSlot(RecoveryStep::Dial, e),
        RecoveryStage::Basebackup => RecoveryStage::DropSlot(RecoveryStep::Basebackup, e),
        RecoveryStage::Configure => RecoveryStage::DropSlot(RecoveryStep::Configure, e),
        RecoveryStage::Complete => RecoveryStage::Failed(RecoveryStep::Complete, e),
        RecoveryStage::DropSlot(step, first) => RecoveryStage::QueueCleanup(step, first, e),
        RecoveryStage::JournalSlotCreated | RecoveryStage::JournalDataCopied
        | RecoveryStage::JournalConfigured | RecoveryStage::QueueCleanup(..)
        | RecoveryStage::Abandon(..) => recovery_onward(stage),
        s => s,
    }
}

impl Machine for Recovery {
    open spec fn next(self, reply: Reply) -> Self {
        match reply {
            Reply::Begun(id) => if self.stage is Begin {
                Recovery { op_id: id, stage: RecoveryStage::Checkpoint, ..self }
            } else {
                self
            },
            Reply::Done => Recovery { stage: recovery_onward(self.stage), ..self },
            Reply::Failed(e) => Recovery { stage: recovery_failed(self.stage, e), ..self },
            _ => self,
        }
    }
}

/// Why the slot has to go after `step` failed.
pub open spec fn recovery_cause(step: RecoveryStep) -> Seq<char> {
    match step {
        RecoveryStep::Dial => "recovery_1st_stage_peer_dial_failed"@,
        RecoveryStep::Basebackup => "recovery_1st_stage_basebackup_failed"@,
        _ => "recovery_1st_stage_configure_standby_failed"@,
    }
}

/// The phase that a journaling stage records.
pub open spec fn recovery_phase(stage: RecoveryStage) -> Option<Seq<char>> {
    match stage {
        RecoveryStage::JournalSlotCreated => Some(REC_PHASE_SLOT_CREATED@),
        RecoveryStage::JournalDataCopied => Some(REC_PHASE_DATA_COPIED@),
        RecoveryStage::JournalConfigured => Some(REC_PHASE_STANDBY_CONFIGURED@),
        _ => None,
    }
}

impl Recovery {
    /// What is said of a step that failed.
    pub open spec fn failure_text(self, step: RecoveryStep, e: Seq<char>) -> Seq<char> {
        match step {
            RecoveryStep::Begin => "recovery_1st_stage: journal begin: "@ + e,
            RecoveryStep::Checkpoint => "recovery_1st_stage: checkpoint: "@ + e,
            RecoveryStep::CreateSlot => "recovery_1st_stage: create slot "@ + self.slot@ + ": "@ + e,
            RecoveryStep::Dial => "recovery_1st_stage: peer client for "@ + self.standby.hostname@
                + ": "@ + e,
            RecoveryStep::Basebackup => "recovery_1st_stage: basebackup "@ + self.standby.hostname@
                + ": "@ + e,
            RecoveryStep::Configure => "recovery_1st_stage: configure_standby "@
                + self.standby.hostname@ + ": "@ + e,
            RecoveryStep::Complete => "recovery_1st_stage: journal complete: "@ + e,
        }
    }

    /// The answer, once there is one.
    pub open spec fn outcome(self) -> Option<Answer> {
        match self.stage {
            RecoveryStage::Failed(step, e) => Some(broken(self.failure_text(step, e@))),
            RecoveryStage::Finished => Some(yes("recovery complete for "@ + self.standby.hostname@)),
            _ => None,
        }
    }

    /// The node that the call that is due goes to; none, where it is made here
    /// or no call is due.
    pub open spec fn called(self) -> Option<NodeConfig> {
        match self.stage {
            RecoveryStage::Dial | RecoveryStage::Basebackup | RecoveryStage::Configure => Some(self.standby),
            _ => None,
        }
    }

    /// The node that the call that is due goes to; none, where it is made here
    /// or no call is due.
    pub fn callee(&self) -> (r: Option<&NodeConfig>)
        ensures
            match (r, self.called()) {
                (Some(n), Some(want)) => *n == want,
                (None, None) => true,
                _ => false,
            },
            r is Some <==> (self.stage is Dial || self.stage is Basebackup
                || self.stage is Configure),
            self.stage is Dial || self.stage is Basebackup || self.stage is Configure
                ==> r is Some && *r->0 == self.standby,
    {
        match &self.stage {
            RecoveryStage::Dial => Some(&self.standby),
            RecoveryStage::Basebackup => Some(&self.standby),
            RecoveryStage::Configure => Some(&self.standby),
            _ => None,
        }
    }

    /// Takes the reply to the call that was due.
    pub fn step(self, reply: Reply) -> (r: Self)
        ensures
            r == self.next(reply),
    {
        match reply {
            Reply::Begun(id) => match self.stage {
                RecoveryStage::Begin => Recovery {
                    op_id: id,
                    stage: RecoveryStage::Checkpoint,
                    ..self
                },
                _ => self,
            },
            Reply::Done => {
                let stage = match self.stage {
                    RecoveryStage::Checkpoint => RecoveryStage::CreateSlot,
                    RecoveryStage::CreateSlot => RecoveryStage::JournalSlotCreated,
                    RecoveryStage::JournalSlotCreated => RecoveryStage::Dial,
                    RecoveryStage::Dial => RecoveryStage::Basebackup,
                    RecoveryStage::Basebackup => RecoveryStage::JournalDataCopied,
                    RecoveryStage::JournalDataCopied => RecoveryStage::Configure,
                    RecoveryStage::Configure => RecoveryStage::JournalConfigured,
                    RecoveryStage::JournalConfigured => RecoveryStage::Complete,
                    RecoveryStage::Complete => RecoveryStage::Finished,
                    RecoveryStage::DropSlot(step, e) => RecoveryStage::Abandon(step, e),
                    RecoveryStage::QueueCleanup(step, e, _) => RecoveryStage::Abandon(step, e),
                    RecoveryStage::Abandon(step, e) => RecoveryStage::Failed(step, e),
                    s => s,
                };
                Recovery { stage, ..self }
            },
            Reply::Failed(e) => {
                let stage = match self.stage {
                    RecoveryStage::Begin => RecoveryStage::Failed(RecoveryStep::Begin, e),
                    RecoveryStage::Checkpoint => RecoveryStage::Abandon(RecoveryStep::Checkpoint, e),
                    RecoveryStage::CreateSlot => RecoveryStage::Abandon(RecoveryStep::CreateSlot, e),
                    RecoveryStage::JournalSlotCreated => RecoveryStage::Dial,
                    RecoveryStage::Dial => RecoveryStage::DropSlot(RecoveryStep::Dial, e),
                    RecoveryStage::Basebackup => RecoveryStage::DropSlot(
                        RecoveryStep::Basebackup,
                        e,
                    ),
                    RecoveryStage::JournalDataCopied => RecoveryStage::Configure,
                    RecoveryStage::Configure => RecoveryStage::DropSlot(RecoveryStep::Configure, e),
                    RecoveryStage::JournalConfigured => RecoveryStage::Complete,
                    RecoveryStage::Complete => RecoveryStage::Failed(RecoveryStep::Complete, e),
                    RecoveryStage::DropSlot(step, first) => RecoveryStage::QueueCleanup(
                        step,
                        first,
                        e,
                    ),
                    RecoveryStage::QueueCleanup(step, first, _) => RecoveryStage::Abandon(
                        step,
                        first,
                    ),
                    RecoveryStage::Abandon(step, first) => RecoveryStage::Failed(step, first),
                    s => s,
                };
                Recovery { stage, ..self }
            },
            _ => self,
        }
    }

    /// The journal entry to begin.
    pub fn begin(&self) -> (r: JournalBegin)
        ensures
            match r.payload {
                InflightPayload::Recovery {
                    primary_node_id,
                    standby_node_id,
                    standby_hostname,
                    slot_name,
                } => primary_node_id == self.primary.id && standby_node_id == self.standby.id
                    && standby_hostname@ == self.standby.hostname@ && slot_name@ == self.slot@,
                _ => false,
            },
            r.phase@ == REC_PHASE_STARTED@,
            !r.exclusive,
    {
        JournalBegin {
            payload: InflightPayload::Recovery {
                primary_node_id: self.primary.id,
                standby_node_id: self.standby.id,
                standby_hostname: self.standby.hostname.clone(),
                slot_name: self.slot.clone(),
            },
            phase: REC_PHASE_STARTED,
            exclusive: false,
        }
    }

    /// The phase to journal, where one is due.
    pub fn phase(&self) -> (r: Option<&'static str>)
        ensures
            match (r, recovery_phase(self.stage)) {
                (Some(p), Some(want)) => p@ == want,
                (None, None) => true,
                _ => false,
            },
    {
        match &self.stage {
            RecoveryStage::JournalSlotCreated => Some(REC_PHASE_SLOT_CREATED),
            RecoveryStage::JournalDataCopied => Some(REC_PHASE_DATA_COPIED),
            RecoveryStage::JournalConfigured => Some(REC_PHASE_STANDBY_CONFIGURED),
            _ => None,
        }
    }

    /// The options for copying the standby afresh.
    pub fn basebackup_opts(&self, pg: &PostgresRuntime) -> (r: BasebackupOpts)
        ensures
            r.primary_host@ == self.primary.hostname@,
            r.primary_port == pg.port,
            r.repl_user@ == pg.repl_user@,
            r.slot_name@ == self.slot@,
    {
        basebackup_from(self.primary.hostname.as_str(), pg, self.slot.as_str())
    }

    /// The options for configuring the standby.
    pub fn recovery_opts(&self, pg: &PostgresRuntime) -> (r: WriteRecoveryConfOpts)
        ensures
            r.primary_host@ == self.primary.hostname@,
            r.primary_port == pg.port,
            r.repl_user@ == pg.repl_user@,
            r.slot_name@ == self.slot@,
    {
        recovery_from(self.primary.hostname.as_str(), pg, self.slot.as_str())
    }

    /// The cleanup to queue, where one is due.
    pub fn cleanup(&self) -> (r: Option<MaintenancePayload>)
        ensures
            match (r, self.stage) {
                (Some(p), RecoveryStage::QueueCleanup(step, _, e)) => p.is_cleanup(
                    self.slot@,
                    self.primary.hostname@,
                    recovery_cause(step),
                    e@,
                ),
                (None, RecoveryStage::QueueCleanup(..)) => false,
                (r, _) => r is None,
            },
    {
        match &self.stage {
            RecoveryStage::QueueCleanup(step, _, e) => {
                let why = match step {
                    RecoveryStep::Dial => "recovery_1st_stage_peer_dial_failed",
                    RecoveryStep::Basebackup => "recovery_1st_stage_basebackup_failed",
                    _ => "recovery_1st_stage_configure_standby_failed",
                };
                Some(
                    MaintenancePayload::cleanup(
                        self.slot.as_str(),
                        self.primary.hostname.as_str(),
                        why,
                        e.as_str(),
                    ),
                )
            },
            _ => None,
        }
    }

    /// The reason to abandon the journal entry for, where that is due.
    pub fn abandon_reason(&self) -> (r: Option<String>)
        ensures
            match (r, self.stage) {
                (Some(reason), RecoveryStage::Abandon(step, e)) => reason@ == self.failure_text(
                    step,
                    e@,
                ),
                (None, RecoveryStage::Abandon(..)) => false,
                (r, _) => r is None,
            },
    {
        match &self.stage {
            RecoveryStage::Abandon(step, e) => Some(self.failure(*step, e.as_str())),
            _ => None,
        }
    }

    fn failure(&self, step: RecoveryStep, e: &str) -> (r: String)
        ensures
            r@ == self.failure_text(step, e@),
    {
        let host = self.standby.hostname.as_str();
        match step {
            RecoveryStep::Begin => text2("recovery_1st_stage: journal begin: ", e),
            RecoveryStep::Checkpoint => text2("recovery_1st_stage: checkpoint: ", e),
            RecoveryStep::CreateSlot => text4(
                "recovery_1st_stage: create slot ",
                self.slot.as_str(),
                ": ",
                e,
            ),
            RecoveryStep::Dial => text4("recovery_1st_stage: peer client for ", host, ": ", e),
            RecoveryStep::Basebackup => text4("recovery_1st_stage: basebackup ", host, ": ", e),
            RecoveryStep::Configure => text4(
                "recovery_1st_stage: configure_standby ",
                host,
                ": ",
                e,
            ),
            RecoveryStep::Complete => text2("recovery_1st_stage: journal complete: ", e),
        }
    }

    /// The answer, once there is one.
    pub fn answer(&self) -> (r: Option<Result<OpResult, Status>>)
        ensures
            match (r, self.outcome()) {
                (Some(a), Some(want)) => answer(a) == want,
                (None, None) => true,
                _ => false,
            },
    {
        match &self.stage {
            RecoveryStage::Failed(step, e) => Some(
                refuse(Code::Internal, self.failure(*step, e.as_str())),
            ),
            RecoveryStage::Finished => Some(
                succeed(text2("recovery complete for ", self.standby.hostname.as_str())),
            ),
            _ => None,
        }
    }
}

/// Whether the slot was created.
pub open spec fn recovery_created() -> spec_fn(Recovery, Reply) -> bool {
    |x: Recovery, r: Reply| x.stage is CreateSlot && r is Done
}

/// Whether the standby was configured.
pub open spec fn recovery_configured() -> spec_fn(Recovery, Reply) -> bool {
    |x: Recovery, r: Reply| x.stage is Configure && r is Done
}

/// Whether the slot was dropped, or the queue was asked to drop it.
pub open spec fn recovery_released() -> spec_fn(Recovery, Reply) -> bool {
    |x: Recovery, r: Reply|
        (x.stage is DropSlot && r is Done) || (x.stage is QueueCleanup && (r is Done || r is Failed))
}

/// A run that created the slot and failed has either configured the standby,
/// or dropped the slot, or asked the queue to drop it.
pub proof fn law_no_slot_left_behind(m: Recovery, replies: Seq<Reply>)
    requires
        performed(m, replies, recovery_created()),
        after(m, replies).stage is Failed,
    ensures
        performed(m, replies, recovery_configured()) || performed(m, replies, recovery_released()),
{
    lemma_held_until(
        m,
        replies,
        recovery_created(),
        |x: Recovery|
            x.stage is JournalSlotCreated || x.stage is Dial || x.stage is Basebackup
                || x.stage is JournalDataCopied || x.stage is Configure || x.stage is DropSlot
                || x.stage is QueueCleanup,
        |x: Recovery, r: Reply| recovery_configured()(x, r) || recovery_released()(x, r),
    );
    lemma_either(m, replies, recovery_configured(), recovery_released());
}

/// A configured standby keeps its slot.
pub proof fn law_configured_standby_keeps_slot(m: Recovery, replies: Seq<Reply>)
    requires
        performed(m, replies, recovery_configured()),
    ensures
        !performed(m, replies, |x: Recovery, r: Reply| x.stage is DropSlot),
{
    lemma_excludes(
        m,
        replies,
        recovery_configured(),
        |x: Recovery|
            x.stage is JournalConfigured || x.stage is Complete || x.stage is Finished
                || x.stage is Failed,
        |x: Recovery, r: Reply| x.stage is DropSlot,
        |x: Recovery|
            x.stage is DropSlot || x.stage is QueueCleanup || x.stage is Abandon
                || x.stage is Failed,
    );
}

/// Nothing is touched before the run is journaled, and a journaled run that
/// failed was abandoned in the journal, unless all that failed was completing
/// the entry.
pub proof fn law_journal_brackets_the_run(m: Recovery, replies: Seq<Reply>)
    requires
        m.stage is Begin,
    ensures
        performed(m, replies, |x: Recovery, r: Reply| !(x.stage is Begin || x.stage is Failed))
            ==> performed(m, replies, |x: Recovery, r: Reply| x.stage is Begin && r is Begun),
        after(m, replies).stage is Failed && after(m, replies).stage->Failed_0 != RecoveryStep::Begin
            && after(m, replies).stage->Failed_0 != RecoveryStep::Complete ==> performed(
            m,
            replies,
            |x: Recovery, r: Reply| x.stage is Abandon && (r is Done || r is Failed),
        ),
{
    lemma_comes_after(
        m,
        replies,
        |x: Recovery, r: Reply| x.stage is Begin && r is Begun,
        |x: Recovery|
            !(x.stage is Begin || (x.stage is Failed && x.stage->Failed_0 == RecoveryStep::Begin)),
        |x: Recovery, r: Reply| !(x.stage is Begin || x.stage is Failed),
    );
    lemma_comes_after(
        m,
        replies,
        |x: Recovery, r: Reply| x.stage is Abandon && (r is Done || r is Failed),
        |x: Recovery|
            x.stage is Failed && x.stage->Failed_0 != RecoveryStep::Begin && x.stage->Failed_0
                != RecoveryStep::Complete,
        |x: Recovery, r: Reply| false,
    );
}

/// A run that is finished has copied and configured the standby, and completed
/// its journal entry.
pub proof fn law_finished_run_is_complete(m: Recovery, replies: Seq<Reply>)
    requires
        m.stage is Begin,
        after(m, replies).stage is Finished,
    ensures
        performed(m, replies, |x: Recovery, r: Reply| x.stage is Basebackup && r is Done),
        performed(m, replies, recovery_configured()),
        performed(m, replies, |x: Recovery, r: Reply| x.stage is Complete && r is Done),
{
    lemma_comes_after(
        m,
        replies,
        |x: Recovery, r: Reply| x.stage is Basebackup && r is Done,
        |x: Recovery|
            x.stage is JournalDataCopied || x.stage is Configure || x.stage is JournalConfigured
                || x.stage is Complete || x.stage is Finished,
        |x: Recovery, r: Reply| false,
    );
    lemma_comes_after(
        m,
        replies,
        recovery_configured(),
        |x: Recovery|
            x.stage is JournalConfigured || x.stage is Complete || x.stage is Finished,
        |x: Recovery, r: Reply| false,
    );
    lemma_comes_after(
        m,
        replies,
        |x: Recovery, r: Reply| x.stage is Complete && r is Done,
        |x: Recovery| x.stage is Finished,
        |x: Recovery, r: Reply| false,
    );
}

/// A completed recovery suppresses an identical one for a day, and one that
/// bypasses the journal is never suppressed.
pub proof fn law_recent_recovery_suppresses(
    hook: RecoveryHook,
    pool: NodePool,
    now: Timestamp,
    op: InflightOp,
)
    ensures
        !hook.bypass && recently_done(op, now) ==> hook.answer_to_search(
            pool,
            now,
            Ok(Some(op)),
        ) == Some(yes(skipped_text(op))),
        hook.bypass || !recently_done(op, now) ==> hook.answer_to_search(pool, now, Ok(Some(op)))
            == hook.answer_to_search(pool, now, Ok(None)),
{
}

/// A step is taken only once the one before it succeeded; that a phase was not
/// journaled holds nothing up. The slot is dropped only where dialing, copying
/// or configuring the standby failed, and an error that is told is that of the
/// step that failed.
pub proof fn law_how_each_stage_comes_about(x: Recovery, r: Reply)
    ensures
        ({
            let t = x.next(r).stage;
            t == x.stage || match t {
                RecoveryStage::Begin => false,
                RecoveryStage::Checkpoint => x.stage is Begin && r is Begun,
                RecoveryStage::CreateSlot => x.stage is Checkpoint && r is Done,
                RecoveryStage::JournalSlotCreated => x.stage is CreateSlot && r is Done,
                RecoveryStage::Dial => x.stage is JournalSlotCreated && (r is Done || r is Failed),
                RecoveryStage::Basebackup => x.stage is Dial && r is Done,
                RecoveryStage::JournalDataCopied => x.stage is Basebackup && r is Done,
                RecoveryStage::Configure => x.stage is JournalDataCopied && (r is Done
                    || r is Failed),
                RecoveryStage::JournalConfigured => x.stage is Configure && r is Done,
                RecoveryStage::Complete => x.stage is JournalConfigured && (r is Done
                    || r is Failed),
                RecoveryStage::Finished => x.stage is Complete && r is Done,
                RecoveryStage::DropSlot(step, e) => r == Reply::Failed(e) && match step {
                    RecoveryStep::Dial => x.stage is Dial,
                    RecoveryStep::Basebackup => x.stage is Basebackup,
                    RecoveryStep::Configure => x.stage is Configure,
                    _ => false,
                },
                RecoveryStage::QueueCleanup(step, e, why) => x.stage == RecoveryStage::DropSlot(step, e) && r == Reply::Failed(why),
                RecoveryStage::Abandon(step, e) => {
                    ||| x.stage == RecoveryStage::DropSlot(step, e) && r is Done
                    ||| x.stage is QueueCleanup && x.stage->QueueCleanup_0 == step
                        && x.stage->QueueCleanup_1 == e && (r is Done || r is Failed)
                    ||| r == Reply::Failed(e) && match step {
                        RecoveryStep::Checkpoint => x.stage is Checkpoint,
                        RecoveryStep::CreateSlot => x.stage is CreateSlot,
                        _ => false,
                    }
                },
                RecoveryStage::Failed(step, e) => {
                    ||| x.stage == RecoveryStage::Abandon(step, e) && (r is Done || r is Failed)
                    ||| r == Reply::Failed(e) && match step {
                        RecoveryStep::Begin => x.stage is Begin,
                        RecoveryStep::Complete => x.stage is Complete,
                        _ => false,
                    }
                },
            }
        }),
{
}

/// An answer to the call that is due moves the run on, and nothing else does;
/// the nodes and the slot stay, and the journal entry is the one that was begun.
pub proof fn law_every_reply_counts(x: Recovery, r: Reply)
    ensures
        ({
            let answers = match x.stage {
                RecoveryStage::Begin => r is Begun || r is Failed,
                RecoveryStage::Finished | RecoveryStage::Failed(..) => false,
                _ => r is Done || r is Failed,
            };
            &&& answers ==> x.next(r).stage != x.stage
            &&& !answers ==> x.next(r) == x
            &&& x.next(r) == (Recovery {
                stage: x.next(r).stage,
                op_id: if x.stage is Begin && r is Begun {
                    r->Begun_0
                } else {
                    x.op_id
                },
                ..x
            })
        }),
{
}

/// The standby that the request names is dialed, copied and configured, and
/// no call goes to any other node: never to the primary, where they differ.
pub proof fn law_calls_go_to_the_standby(m: Recovery)
    ensures
        m.stage is Dial || m.stage is Basebackup || m.stage is Configure ==> m.called() == Some(
            m.standby,
        ),
        !(m.stage is Dial || m.stage is Basebackup || m.stage is Configure) ==> m.called() is None,
        m.primary != m.standby ==> m.called() != Some(m.primary),
{
}

/// In a run of the recovery that a request asks for, every call that goes to a
/// node goes to the member that the request names as the standby.
pub proof fn law_only_the_named_standby_is_called(
    hook: RecoveryHook,
    pool: NodePool,
    m: Recovery,
    replies: Seq<Reply>,
)
    requires
        hook.starts(pool, m),
    ensures
        after(m, replies).called() is Some ==> resolved(pool.members@, hook.standby) == Ok::<
            NodeConfig,
            Seq<char>,
        >(after(m, replies).called()->0) && after(m, replies).called()->0.id == hook.standby.id,
{
    let standby = m.standby;
    lemma_kept(m, replies, |x: Recovery| x.standby == standby);
    law_references_name_members(pool, hook.standby, m.standby);
}

/// A request starts the recovery of the member that it names as the standby,
/// with the local node as the primary and the slot of the standby.
pub proof fn law_requests_start_what_they_name(hook: RecoveryHook, pool: NodePool, m: Recovery)
    requires
        hook.starts(pool, m),
    ensures
        m.standby.id == hook.standby.id,
        m.standby.hostname@ == hook.standby.hostname@,
        m.primary.id == pool.local_node_id,
        m.primary.id == hook.primary.id,
        m.slot@ == slot_text(hook.standby.id),
        m.stage is Begin,
        m.op_id@.len() == 0,
{
    law_references_name_members(pool, hook.standby, m.standby);
    law_references_name_members(pool, hook.primary, m.primary);
}

/// The answer is positive exactly where the run finished; otherwise it is a
/// refusal that ends with the error.
pub proof fn law_answers_tell_the_end(x: Recovery)
    ensures
        match x.outcome() {
            None => !(x.stage is Finished || x.stage is Failed),
            Some(Answer::Result { ok, message }) => ok && x.stage is Finished && ends_with(
                message,
                x.standby.hostname@,
            ),
            Some(Answer::Refusal { code, message }) => code == Code::Internal && x.stage is Failed
                && ends_with(message, x.stage->Failed_1@),
        },
{
    match x.outcome() {
        Some(Answer::Result { ok, message }) => {
            let h = x.standby.hostname@;
            assert(message.skip(message.len() - h.len()) =~= h);
        },
        Some(Answer::Refusal { code, message }) => {
            let e = x.stage->Failed_1@;
            assert(message.skip(message.len() - e.len()) =~= e);
        },
        None => {},
    }
}

/// The queue is told which step failed.
pub proof fn law_causes_differ(a: RecoveryStep, b: RecoveryStep)
    requires
        a is Dial || a is Basebackup || a is Configure,
        b is Dial || b is Basebackup || b is Configure,
        recovery_cause(a) == recovery_cause(b),
    ensures
        a == b,
{
    reveal_strlit("recovery_1st_stage_peer_dial_failed");
    reveal_strlit("recovery_1st_stage_basebackup_failed");
    reveal_strlit("recovery_1st_stage_configure_standby_failed");
    assert("recovery_1st_stage_peer_dial_failed"@.len() == 35);
    assert("recovery_1st_stage_basebackup_failed"@.len() == 36);
    assert("recovery_1st_stage_configure_standby_failed"@.len() == 43);
}

/// The journal is told a phase exactly after its step succeeded: that the slot
/// was created, the data copied, the standby configured.
pub proof fn law_phases_name_what_was_done(x: Recovery, r: Reply)
    requires
        recovery_phase(x.next(r).stage) is Some,
        x.next(r).stage != x.stage,
    ensures
        r is Done,
        recovery_phase(x.next(r).stage) == Some(REC_PHASE_SLOT_CREATED@) <==> x.stage is CreateSlot,
        recovery_phase(x.next(r).stage) == Some(REC_PHASE_DATA_COPIED@) <==> x.stage is Basebackup,
        recovery_phase(x.next(r).stage) == Some(REC_PHASE_STANDBY_CONFIGURED@)
            <==> x.stage is Configure,
{
    reveal_strlit("slot_created");
    reveal_strlit("data_copied");
    reveal_strlit("standby_configured");
    assert("slot_created"@.len() == 12);
    assert("data_copied"@.len() == 11);
    assert("standby_configured"@.len() == 18);
}

/// A recovery that is done suppresses an identical one exactly until a day,
/// in nanoseconds, has passed since it was completed; one that is not done, or
/// not known when, suppresses none.
pub proof fn law_a_day_of_suppression(op: InflightOp, now: Timestamp)
    ensures
        recently_done(op, now) <==> op.status is Done && op.completed_at is Some && (now.secs
            - op.completed_at->0.secs) * 1_000_000_000 + (now.nanos - op.completed_at->0.nanos)
            < 86_400_000_000_000,
{
}

/// A request goes on exactly where no recent recovery suppresses it and both
/// its nodes are members, the primary being the local one.
pub proof fn law_requests_that_go_on(
    hook: RecoveryHook,
    pool: NodePool,
    now: Timestamp,
    found: Result<Option<InflightOp>, String>,
)
    ensures
        hook.answer_to_search(pool, now, found) is None <==> (hook.bypass || match found {
            Ok(Some(op)) => !recently_done(op, now),
            Ok(None) => true,
            Err(_) => false,
        }) && resolved_local(pool, hook.primary) is Ok
            && resolved(pool.members@, hook.standby) is Ok,
        hook.bypass ==> hook.answer_to_search(pool, now, found) == hook.answer_to_names(pool),
        !hook.bypass && found is Err ==> hook.answer_to_search(pool, now, found) is Some
            && hook.answer_to_search(pool, now, found)->0 is Refusal,
        match hook.answer_to_names(pool) {
            None => true,
            Some(Answer::Result { .. }) => false,
            Some(Answer::Refusal { code, message }) => code == Code::InvalidArgument,
        },
{
}

} // verus!
