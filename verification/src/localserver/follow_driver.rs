//! The follow-up of a handoff: every other standby is made to follow the new
//! primary, each by a journaled run of its own.
use crate::config::{slot_text, NodeConfig, NodePool, PostgresRuntime};
use crate::inflight_ops::InflightPayload;
use crate::localserver::handoff::place_of;
use crate::maintenance::MaintenancePayload;
use crate::orchestration::{
    after, lemma_comes_after, lemma_either, lemma_excludes, lemma_held_until, lemma_kept,
    performed, JournalBegin, Machine, Reply,
};
use crate::pgstandby::{
    basebackup_from, recovery_from, rewind_to, BasebackupOpts, RewindOpts, WriteRecoveryConfOpts,
};
use crate::sort::lemma_filter_has;
use crate::text::{debug_text, dec, ends_with, int_text, quoted, same, text2, text4, text5};
use vstd::prelude::*;

verus! {

pub const FP_PHASE_QUEUED: &'static str = "queued";

pub const FP_PHASE_DIALING: &'static str = "dialing";

pub const FP_PHASE_DETACHED_STOPPED: &'static str = "detached_stopped";

pub const FP_PHASE_SLOT_CREATED: &'static str = "slot_created";

pub const FP_PHASE_DATA_COPIED: &'static str = "data_copied";

pub const FP_PHASE_RECOVERY_CONF_WRITTEN: &'static str = "recovery_conf_written";

pub const FP_PHASE_DETACHED_STARTED: &'static str = "detached_started";

pub const FP_PHASE_ATTACHED: &'static str = "attached";

/// The rungs of the ladder, from the bottom.
pub open spec fn fp_phases() -> Seq<Seq<char>> {
    seq![
        FP_PHASE_QUEUED@,
        FP_PHASE_DIALING@,
        FP_PHASE_DETACHED_STOPPED@,
        FP_PHASE_SLOT_CREATED@,
        FP_PHASE_DATA_COPIED@,
        FP_PHASE_RECOVERY_CONF_WRITTEN@,
        FP_PHASE_DETACHED_STARTED@,
        FP_PHASE_ATTACHED@,
    ]
}

/// No two rungs of the ladder have one name.
pub proof fn lemma_fp_phases_differ()
    ensures
        forall|i: int, j: int|
            0 <= i < j < fp_phases().len() ==> fp_phases()[i] != fp_phases()[j],
{
    reveal_strlit("queued");
    reveal_strlit("dialing");
    reveal_strlit("detached_stopped");
    reveal_strlit("slot_created");
    reveal_strlit("data_copied");
    reveal_strlit("recovery_conf_written");
    reveal_strlit("detached_started");
    reveal_strlit("attached");
    assert("queued"@.len() == 6);
    assert("dialing"@.len() == 7);
    assert("detached_stopped"@.len() == 16 && "detached_stopped"@[11] == 'o');
    assert("slot_created"@.len() == 12);
    assert("data_copied"@.len() == 11);
    assert("recovery_conf_written"@.len() == 21);
    assert("detached_started"@.len() == 16 && "detached_started"@[11] == 'a');
    assert("attached"@.len() == 8);
}

/// A phase stands where the ladder has it.
pub proof fn lemma_place_in_fp_ladder(k: int)
    requires
        0 <= k < 8,
    ensures
        place_of(fp_phases(), fp_phases()[k]) == Some(k as usize),
{
    reveal(place_of);
    lemma_fp_phases_differ();
    let s = fp_phases();
    let x = s[k];
    assert(0 <= k < s.len() && s[k] == x && (forall|j: int| 0 <= j < k ==> s[j] != x));
    let c = choose|i: int|
        0 <= i < s.len() && s[i] == x && (forall|j: int| 0 <= j < i ==> s[j] != x);
    assert(c == k);
}

/// The place of `phase` on the ladder.
pub fn fp_phase_index(phase: &str) -> (r: Option<usize>)
    ensures
        r == place_of(fp_phases(), phase@),
        r is Some ==> r->0 < 8 && fp_phases()[r->0 as int] == phase@,
{
    let k: usize = if same(phase, FP_PHASE_QUEUED) {
        0
    } else if same(phase, FP_PHASE_DIALING) {
        1
    } else if same(phase, FP_PHASE_DETACHED_STOPPED) {
        2
    } else if same(phase, FP_PHASE_SLOT_CREATED) {
        3
    } else if same(phase, FP_PHASE_DATA_COPIED) {
        4
    } else if same(phase, FP_PHASE_RECOVERY_CONF_WRITTEN) {
        5
    } else if same(phase, FP_PHASE_DETACHED_STARTED) {
        6
    } else if same(phase, FP_PHASE_ATTACHED) {
        7
    } else {
        proof {
            reveal(place_of);
        }
        return None;
    };
    proof {
        lemma_place_in_fp_ladder(k as int);
    }
    Some(k)
}

/// The name of the rung with place `k`.
fn fp_phase(k: usize) -> (r: Option<&'static str>)
    ensures
        match r {
            Some(p) => k < 8 && p@ == fp_phases()[k as int],
            None => k >= 8,
        },
{
    match k {
        0 => Some(FP_PHASE_QUEUED),
        1 => Some(FP_PHASE_DIALING),
        2 => Some(FP_PHASE_DETACHED_STOPPED),
        3 => Some(FP_PHASE_SLOT_CREATED),
        4 => Some(FP_PHASE_DATA_COPIED),
        5 => Some(FP_PHASE_RECOVERY_CONF_WRITTEN),
        6 => Some(FP_PHASE_DETACHED_STARTED),
        7 => Some(FP_PHASE_ATTACHED),
        _ => None,
    }
}

/// The members, in their order, whose follow-up a handoff from `local` to
/// `new_primary` calls for.
pub open spec fn bystanders(members: Seq<NodeConfig>, local: i32, new_primary: i32) -> Seq<
    NodeConfig,
> {
    members.filter(|n: NodeConfig| n.id != local && n.id != new_primary)
}

/// The members, in their order, whose follow-up a handoff from `local` to
/// `new_primary` calls for.
pub fn fan_out_follow_primary(pool: &NodePool, local: i32, new_primary: i32) -> (r: Vec<NodeConfig>)
    ensures
        r@ == bystanders(pool.members@, local, new_primary),
{
    let mut out: Vec<NodeConfig> = Vec::new();
    let mut i: usize = 0;
    let ghost keep = |n: NodeConfig| n.id != local && n.id != new_primary;
    assert(pool.members@.take(0).filter(keep) =~= out@) by {
        reveal(Seq::filter);
    }
    while i < pool.members.len()
        invariant
            i <= pool.members.len(),
            keep == (|n: NodeConfig| n.id != local && n.id != new_primary),
            out@ == pool.members@.take(i as int).filter(keep),
        decreases pool.members.len() - i,
    {
        proof {
            let longer = pool.members@.take(i + 1);
            assert(longer.drop_last() =~= pool.members@.take(i as int));
            assert(longer.last() == pool.members@[i as int]);
            reveal(Seq::filter);
        }
        if pool.members[i].id != local && pool.members[i].id != new_primary {
            out.push(pool.members[i].clone());
        }
        i = i + 1;
    }
    assert(pool.members@.take(i as int) =~= pool.members@);
    out
}

/// Every member but the two nodes of the handoff gets a follow-up, and no
/// other node does.
pub proof fn law_every_bystander_follows(
    members: Seq<NodeConfig>,
    local: i32,
    new_primary: i32,
    node: NodeConfig,
)
    ensures
        bystanders(members, local, new_primary).contains(node) <==> members.contains(node)
            && node.id != local && node.id != new_primary,
{
    lemma_filter_has(members, |n: NodeConfig| n.id != local && n.id != new_primary, node);
}

/// The journal entry of one follow-up.
pub fn follow_up(detached: &NodeConfig, new_primary: &NodeConfig) -> (r: JournalBegin)
    ensures
        match r.payload {
            InflightPayload::FollowPrimary {
                detached_node_id,
                detached_hostname,
                new_primary_node_id,
                new_primary_hostname,
            } => detached_node_id == detached.id && detached_hostname@ == detached.hostname@
                && new_primary_node_id == new_primary.id && new_primary_hostname@
                == new_primary.hostname@,
            _ => false,
        },
        r.phase@ == FP_PHASE_QUEUED@,
        !r.exclusive,
{
    JournalBegin {
        payload: InflightPayload::FollowPrimary {
            detached_node_id: detached.id,
            detached_hostname: detached.hostname.clone(),
            new_primary_node_id: new_primary.id,
            new_primary_hostname: new_primary.hostname.clone(),
        },
        phase: FP_PHASE_QUEUED,
        exclusive: false,
    }
}

/// A step that can fail for good.
#[derive(Clone, Copy, Debug, PartialEq, Eq, Structural)]
pub enum DriveStep {
    DialDetached,
    DialNewPrimary,
    GetStatus,
    Stop,
    CreateSlot,
    Basebackup,
    Configure,
    Start,
    Attach,
    Journal(usize),
}

/// The call that is due, or how it ended.
pub enum DriveStage {
    /// Dial the standby.
    DialDetached,
    /// Dial the new primary.
    DialNewPrimary,
    /// Ask the standby for its state.
    GetStatus,
    /// Stop the standby.
    Stop,
    /// Create the standby's slot on the new primary.
    CreateSlot,
    /// Rewind the standby.
    Rewind,
    /// Copy the standby afresh.
    Basebackup,
    /// Write the standby's recovery configuration.
    Configure,
    /// Start the standby.
    Start,
    /// Attach the standby in pgpool.
    Attach,
    /// Journal the rung with this place on the ladder.
    Journal(usize),
    /// Drop the slot on the new primary: a step failed with this error.
    DropSlot(DriveStep, String),
    /// Queue the drop, which failed with the second error.
    QueueCleanup(DriveStep, String, String),
    /// A step failed with this error.
    Failed(DriveStep, String),
    /// The standby is down on purpose.
    Skipped,
    /// All done.
    Complete,
}

/// A standby on its way to the new primary.
pub struct DriveFollowPrimary {
    pub op_id: String,
    pub detached: NodeConfig,
    pub new_primary: NodeConfig,
    pub slot: String,
    /// The rung above which the run entered the ladder.
    pub from: usize,
    pub stage: DriveStage,
}

/// The stage that follows the rung with place `k`, with both nodes dialed.
pub open spec fn drive_entry(k: usize) -> DriveStage {
    if k <= 1 {
        DriveStage::GetStatus
    } else if k == 2 {
        DriveStage::CreateSlot
    } else if k == 3 {
        DriveStage::Rewind
    } else if k == 4 {
        DriveStage::Configure
    } else if k == 5 {
        DriveStage::Start
    } else if k == 6 {
        DriveStage::Attach
    } else {
        DriveStage::Complete
    }
}

fn entry(k: usize) -> (r: DriveStage)
    ensures
        r == drive_entry(k),
{
    match k {
        0 | 1 => DriveStage::GetStatus,
        2 => DriveStage::CreateSlot,
        3 => DriveStage::Rewind,
        4 => DriveStage::Configure,
        5 => DriveStage::Start,
        6 => DriveStage::Attach,
        _ => DriveStage::Complete,
    }
}

/// The stage after `stage` succeeded, in a run that entered above rung `from`.
pub open spec fn drive_onward(stage: DriveStage, from: usize) -> DriveStage {
    match stage {
        DriveStage::DialDetached => DriveStage::DialNewPrimary,
        DriveStage::DialNewPrimary => drive_entry(from),
        DriveStage::Stop => DriveStage::Journal(2),
        DriveStage::CreateSlot => DriveStage::Journal(3),
        DriveStage::Rewind => DriveStage::Journal(4),
        DriveStage::Basebackup => DriveStage::Journal(4),
        DriveStage::Configure => DriveStage::Journal(5),
        DriveStage::Start => DriveStage::Journal(6),
        DriveStage::Attach => DriveStage::Journal(7),
        DriveStage::Journal(k) => if k <= 1 {
            DriveStage::DialDetached
        } else {
            drive_entry(k)
        },
        DriveStage::DropSlot(step, e) => DriveStage::Failed(step, e),
        DriveStage::QueueCleanup(step, e, _) => DriveStage::Failed(step, e),
        s => s,
    }
}

/// The stage after `stage` failed with `e`.
pub open spec fn drive_failed(stage: DriveStage, e: String) -> DriveStage {
    match stage {
        DriveStage::DialDetached => DriveStage::Failed(DriveStep::DialDetached, e),
        DriveStage::DialNewPrimary => DriveStage::Failed(DriveStep::DialNewPrimary, e),
        DriveStage::GetStatus => DriveStage::Failed(DriveStep::GetStatus, e),
        DriveStage::Stop => DriveStage::Failed(DriveStep::Stop, e),
        DriveStage::CreateSlot => DriveStage::Failed(DriveStep::CreateSlot, e),
        DriveStage::Rewind => DriveStage::Basebackup,
        DriveStage::Basebackup => DriveStage::DropSlot(DriveStep::Basebackup, e),
        DriveStage::Configure => DriveStage::DropSlot(DriveStep::Configure, e),
        DriveStage::Start => DriveStage::DropSlot(DriveStep::Start, e),
        DriveStage::Attach => DriveStage::Failed(DriveStep::Attach, e),
        DriveStage::Journal(k) => DriveStage::Failed(DriveStep::Journal(k), e),
        DriveStage::DropSlot(step, first) => DriveStage::QueueCleanup(step, first, e),
        DriveStage::QueueCleanup(step, first, _) => DriveStage::Failed(step, first),
        s => s,
    }
}

impl Machine for DriveFollowPrimary {
    open spec fn next(self, reply: Reply) -> Self {
        match reply {
            Reply::Done => DriveFollowPrimary {
                stage: drive_onward(self.stage, self.from),
                ..self
            },
            Reply::Failed(e) => DriveFollowPrimary { stage: drive_failed(self.stage, e), ..self },
            Reply::Status(status) => if self.stage is GetStatus {
                DriveFollowPrimary {
                    stage: if status.is_running {
                        DriveStage::Stop
                    } else {
                        DriveStage::Skipped
                    },
                    ..self
                }
            } else {
                self
            },
            _ => self,
        }
    }
}

/// Why the slot has to go after `step` failed.
pub open spec fn drive_cause(step: DriveStep) -> Seq<char> {
    match step {
        DriveStep::Basebackup => "follow_primary_basebackup_failed"@,
        DriveStep::Configure => "follow_primary_configure_standby_failed"@,
        _ => "follow_primary_start_failed"@,
    }
}

impl DriveFollowPrimary {
    /// Enters the ladder above the rung `phase`.
    pub fn from_phase(
        op_id: String,
        phase: &str,
        detached: NodeConfig,
        new_primary: NodeConfig,
    ) -> (r: Result<DriveFollowPrimary, String>)
        ensures
            match (r, place_of(fp_phases(), phase@)) {
                (Err(e), None) => e@ == "follow_primary: unknown phase "@ + quoted(phase@),
                (Ok(m), Some(k)) => {
                    &&& m.op_id == op_id
                    &&& m.detached == detached
                    &&& m.new_primary == new_primary
                    &&& m.slot@ == slot_text(detached.id)
                    &&& m.from == k
                    &&& m.stage == if k == 0 {
                        DriveStage::Journal(1)
                    } else {
                        DriveStage::DialDetached
                    }
                },
                _ => false,
            },
    {
        match fp_phase_index(phase) {
            None => Err(text2("follow_primary: unknown phase ", debug_text(phase).as_str())),
            Some(k) => {
                let slot = detached.slot_name();
                let stage = if k == 0 {
                    DriveStage::Journal(1)
                } else {
                    DriveStage::DialDetached
                };
                Ok(DriveFollowPrimary { op_id, detached, new_primary, slot, from: k, stage })
            },
        }
    }

    /// What is said of a step that failed.
    pub open spec fn failure_text(self, step: DriveStep, e: Seq<char>) -> Seq<char> {
        match step {
            DriveStep::DialDetached => "follow_primary: dial detached "@ + self.detached.hostname@
                + ": "@ + e,
            DriveStep::DialNewPrimary => "follow_primary: dial new_primary "@
                + self.new_primary.hostname@ + ": "@ + e,
            DriveStep::GetStatus => "follow_primary: get_status "@ + self.detached.hostname@ + ": "@
                + e,
            DriveStep::Stop => "follow_primary: stop "@ + self.detached.hostname@ + ": "@ + e,
            DriveStep::CreateSlot => "follow_primary: create_slot "@ + self.slot@ + " on "@
                + self.new_primary.hostname@ + ": "@ + e,
            DriveStep::Basebackup => "follow_primary: basebackup "@ + self.detached.hostname@
                + ": "@ + e,
            DriveStep::Configure => "follow_primary: configure_standby "@ + self.detached.hostname@
                + ": "@ + e,
            DriveStep::Start => "follow_primary: start "@ + self.detached.hostname@ + ": "@ + e,
            DriveStep::Attach => "follow_primary: pcp_attach_node "@ + dec(self.detached.id as int)
                + ": "@ + e,
            DriveStep::Journal(k) => "follow_primary: journal "@ + (if k < 8 {
                fp_phases()[k as int]
            } else {
                Seq::<char>::empty()
            }) + ": "@ + e,
        }
    }

    /// How the run ended, once it has.
    pub open spec fn outcome(self) -> Option<Result<(), Seq<char>>> {
        match self.stage {
            DriveStage::Failed(step, e) => Some(Err(self.failure_text(step, e@))),
            DriveStage::Skipped => Some(Ok(())),
            DriveStage::Complete => Some(Ok(())),
            _ => None,
        }
    }

    /// The node that the call that is due goes to; none, where it is made here
    /// or no call is due.
    pub open spec fn called(self) -> Option<NodeConfig> {
        match self.stage {
            DriveStage::DialDetached | DriveStage::GetStatus | DriveStage::Stop | DriveStage::Rewind | DriveStage::Basebackup | DriveStage::Configure | DriveStage::Start => Some(self.detached),
            DriveStage::DialNewPrimary | DriveStage::CreateSlot | DriveStage::DropSlot(..) => Some(self.new_primary),
            _ => None,
        }
    }

    /// The node that the call that is due goes to; none, where it is made here
    /// or no call is due.
    pub fn callee(&self) -> (r: Option<&NodeConfig>)
        ensures
            match (r, self.called()) {
                (Some(n), Some(want)) => *n == want,
                (None, None) => true,
                _ => false,
            },
            r is Some <==> (self.stage is DialDetached || self.stage is GetStatus
                || self.stage is Stop || self.stage is Rewind || self.stage is Basebackup
                || self.stage is Configure || self.stage is Start
                || self.stage is DialNewPrimary || self.stage is CreateSlot
                || self.stage is DropSlot),
            self.stage is DialDetached || self.stage is GetStatus || self.stage is Stop
                || self.stage is Rewind || self.stage is Basebackup || self.stage is Configure
                || self.stage is Start ==> r is Some && *r->0 == self.detached,
            self.stage is DialNewPrimary || self.stage is CreateSlot || self.stage is DropSlot
                ==> r is Some && *r->0 == self.new_primary,
    {
        match &self.stage {
            DriveStage::DialDetached => Some(&self.detached),
            DriveStage::GetStatus => Some(&self.detached),
            DriveStage::Stop => Some(&self.detached),
            DriveStage::Rewind => Some(&self.detached),
            DriveStage::Basebackup => Some(&self.detached),
            DriveStage::Configure => Some(&self.detached),
            DriveStage::Start => Some(&self.detached),
            DriveStage::DialNewPrimary => Some(&self.new_primary),
            DriveStage::CreateSlot => Some(&self.new_primary),
            DriveStage::DropSlot(..) => Some(&self.new_primary),
            _ => None,
        }
    }

    /// The backend to attach in pgpool here, where that is due.
    pub fn backend(&self) -> (r: Option<i32>)
        ensures
            r == if self.stage is Attach {
                Some(self.detached.id)
            } else {
                None
            },
    {
        match &self.stage {
            DriveStage::Attach => Some(self.detached.id),
            _ => None,
        }
    }

    /// Takes the reply to the call that was due.
    pub fn step(self, reply: Reply) -> (r: Self)
        ensures
            r == self.next(reply),
            self.stage is GetStatus && reply is Status && reply->Status_0.is_running
                ==> r.stage is Stop,
            self.stage is GetStatus && reply is Status && !reply->Status_0.is_running
                ==> r.stage is Skipped,
    {
        let stage = match reply {
            Reply::Done => match self.stage {
                DriveStage::DialDetached => DriveStage::DialNewPrimary,
                DriveStage::DialNewPrimary => entry(self.from),
                DriveStage::Stop => DriveStage::Journal(2),
                DriveStage::CreateSlot => DriveStage::Journal(3),
                DriveStage::Rewind => DriveStage::Journal(4),
                DriveStage::Basebackup => DriveStage::Journal(4),
                DriveStage::Configure => DriveStage::Journal(5),
                DriveStage::Start => DriveStage::Journal(6),
                DriveStage::Attach => DriveStage::Journal(7),
                DriveStage::Journal(k) => {
                    if k <= 1 {
                        DriveStage::DialDetached
                    } else {
                        entry(k)
                    }
                },
                DriveStage::DropSlot(step, e) => DriveStage::Failed(step, e),
                DriveStage::QueueCleanup(step, e, _) => DriveStage::Failed(step, e),
                s => s,
            },
            Reply::Failed(e) => match self.stage {
                DriveStage::DialDetached => DriveStage::Failed(DriveStep::DialDetached, e),
                DriveStage::DialNewPrimary => DriveStage::Failed(DriveStep::DialNewPrimary, e),
                DriveStage::GetStatus => DriveStage::Failed(DriveStep::GetStatus, e),
                DriveStage::Stop => DriveStage::Failed(DriveStep::Stop, e),
                DriveStage::CreateSlot => DriveStage::Failed(DriveStep::CreateSlot, e),
                DriveStage::Rewind => DriveStage::Basebackup,
                DriveStage::Basebackup => DriveStage::DropSlot(DriveStep::Basebackup, e),
                DriveStage::Configure => DriveStage::DropSlot(DriveStep::Configure, e),
                DriveStage::Start => DriveStage::DropSlot(DriveStep::Start, e),
                DriveStage::Attach => DriveStage::Failed(DriveStep::Attach, e),
                DriveStage::Journal(k) => DriveStage::Failed(DriveStep::Journal(k), e),
                DriveStage::DropSlot(step, first) => DriveStage::QueueCleanup(step, first, e),
                DriveStage::QueueCleanup(step, first, _) => DriveStage::Failed(step, first),
                s => s,
            },
            Reply::Status(status) => match self.stage {
                DriveStage::GetStatus => {
                    if status.is_running {
                        DriveStage::Stop
                    } else {
                        DriveStage::Skipped
                    }
                },
                s => s,
            },
            _ => self.stage,
        };
        DriveFollowPrimary { stage, ..self }
    }

    /// The phase to journal, where one is due.
    pub fn phase(&self) -> (r: Option<&'static str>)
        ensures
            match (r, self.stage) {
                (Some(p), DriveStage::Journal(k)) => k < 8 && p@ == fp_phases()[k as int],
                (None, DriveStage::Journal(k)) => k >= 8,
                (r, _) => r is None,
            },
    {
        match &self.stage {
            DriveStage::Journal(k) => fp_phase(*k),
            _ => None,
        }
    }

    /// The options for rewinding the standby.
    pub fn rewind_opts(&self, pg: &PostgresRuntime) -> (r: RewindOpts)
        ensures
            r.primary_host@ == self.new_primary.hostname@,
            r.primary_port == pg.port,
            r.repl_user@ == pg.repl_user@,
    {
        rewind_to(self.new_primary.hostname.as_str(), pg)
    }

    /// The options for copying the standby afresh.
    pub fn basebackup_opts(&self, pg: &PostgresRuntime) -> (r: BasebackupOpts)
        ensures
            r.primary_host@ == self.new_primary.hostname@,
            r.primary_port == pg.port,
            r.repl_user@ == pg.repl_user@,
            r.slot_name@ == self.slot@,
    {
        basebackup_from(self.new_primary.hostname.as_str(), pg, self.slot.as_str())
    }

    /// The options for configuring the standby.
    pub fn recovery_opts(&self, pg: &PostgresRuntime) -> (r: WriteRecoveryConfOpts)
        ensures
            r.primary_host@ == self.new_primary.hostname@,
            r.primary_port == pg.port,
            r.repl_user@ == pg.repl_user@,
            r.slot_name@ == self.slot@,
    {
        recovery_from(self.new_primary.hostname.as_str(), pg, self.slot.as_str())
    }

    /// The cleanup to queue, where one is due. The slot is on the new primary.
    pub fn cleanup(&self) -> (r: Option<MaintenancePayload>)
        ensures
            match (r, self.stage) {
                (Some(p), DriveStage::QueueCleanup(step, _, e)) => p.is_cleanup(
                    self.slot@,
                    self.new_primary.hostname@,
                    drive_cause(step),
                    e@,
                ),
                (None, DriveStage::QueueCleanup(..)) => false,
                (r, _) => r is None,
            },
    {
        match &self.stage {
            DriveStage::QueueCleanup(step, _, e) => {
                let why = match step {
                    DriveStep::Basebackup => "follow_primary_basebackup_failed",
                    DriveStep::Configure => "follow_primary_configure_standby_failed",
                    _ => "follow_primary_start_failed",
                };
                Some(
                    MaintenancePayload::cleanup(
                        self.slot.as_str(),
                        self.new_primary.hostname.as_str(),
                        why,
                        e.as_str(),
                    ),
                )
            },
            _ => None,
        }
    }

    fn failure(&self, step: DriveStep, e: &str) -> (r: String)
        ensures
            r@ == self.failure_text(step, e@),
    {
        let host = self.detached.hostname.as_str();
        let primary = self.new_primary.hostname.as_str();
        match step {
            DriveStep::DialDetached => text4("follow_primary: dial detached ", host, ": ", e),
            DriveStep::DialNewPrimary => text4(
                "follow_primary: dial new_primary ",
                primary,
                ": ",
                e,
            ),
            DriveStep::GetStatus => text4("follow_primary: get_status ", host, ": ", e),
            DriveStep::Stop => text4("follow_primary: stop ", host, ": ", e),
            DriveStep::CreateSlot => {
                let mut s = text5(
                    "follow_primary: create_slot ",
                    self.slot.as_str(),
                    " on ",
                    primary,
                    ": ",
                );
                s.append(e);
                s
            },
            DriveStep::Basebackup => text4("follow_primary: basebackup ", host, ": ", e),
            DriveStep::Configure => text4("follow_primary: configure_standby ", host, ": ", e),
            DriveStep::Start => text4("follow_primary: start ", host, ": ", e),
            DriveStep::Attach => text4(
                "follow_primary: pcp_attach_node ",
                int_text(self.detached.id as i64).as_str(),
                ": ",
                e,
            ),
            DriveStep::Journal(k) => {
                let name = match fp_phase(k) {
                    Some(p) => p.to_owned(),
                    None => String::new(),
                };
                text4("follow_primary: journal ", name.as_str(), ": ", e)
            },
        }
    }

    /// How the run ended, once it has. A run that ended well completes its
    /// journal entry, and one that did not abandons it for the error.
    pub fn result(&self) -> (r: Option<Result<(), String>>)
        ensures
            match (r, self.outcome()) {
                (Some(Ok(())), Some(Ok(()))) => true,
                (Some(Err(e)), Some(Err(want))) => e@ == want,
                (None, None) => true,
                _ => false,
            },
    {
        match &self.stage {
            DriveStage::Failed(step, e) => Some(Err(self.failure(*step, e.as_str()))),
            DriveStage::Skipped => Some(Ok(())),
            DriveStage::Complete => Some(Ok(())),
            _ => None,
        }
    }
}

/// Whether the slot was created.
pub open spec fn drive_created() -> spec_fn(DriveFollowPrimary, Reply) -> bool {
    |x: DriveFollowPrimary, r: Reply| x.stage is CreateSlot && r is Done
}

/// Whether the standby was started.
pub open spec fn drive_started() -> spec_fn(DriveFollowPrimary, Reply) -> bool {
    |x: DriveFollowPrimary, r: Reply| x.stage is Start && r is Done
}

/// Whether the slot was dropped, or the queue was asked to drop it.
pub open spec fn drive_released() -> spec_fn(DriveFollowPrimary, Reply) -> bool {
    |x: DriveFollowPrimary, r: Reply|
        (x.stage is DropSlot && r is Done) || (x.stage is QueueCleanup && (r is Done || r is Failed))
}

/// Whether the step that failed is the journaling of a rung.
pub open spec fn stalled_in_journal(stage: DriveStage) -> bool {
    match stage {
        DriveStage::Failed(DriveStep::Journal(_), _) => true,
        _ => false,
    }
}

/// A run that created the slot and failed has either started the standby,
/// which uses the slot, or dropped the slot, or asked the queue to drop it;
/// unless all that failed was recording a rung in the journal.
pub proof fn law_no_slot_left_behind(m: DriveFollowPrimary, replies: Seq<Reply>)
    requires
        m.stage is DialDetached || m.stage == DriveStage::Journal(1),
        performed(m, replies, drive_created()),
        after(m, replies).stage is Failed,
        !stalled_in_journal(after(m, replies).stage),
    ensures
        performed(m, replies, drive_started()) || performed(m, replies, drive_released()),
{
    lemma_held_until(
        m,
        replies,
        drive_created(),
        |x: DriveFollowPrimary|
            (x.stage is Journal && 3 <= x.stage->Journal_0 <= 5) || x.stage is Rewind
                || x.stage is Basebackup || x.stage is Configure || x.stage is Start
                || x.stage is DropSlot || x.stage is QueueCleanup || stalled_in_journal(x.stage),
        |x: DriveFollowPrimary, r: Reply| drive_started()(x, r) || drive_released()(x, r),
    );
    lemma_either(m, replies, drive_started(), drive_released());
}

/// Once the standby was started its slot is not dropped.
pub proof fn law_slot_in_use_stays(m: DriveFollowPrimary, replies: Seq<Reply>)
    requires
        performed(m, replies, drive_started()),
    ensures
        !performed(m, replies, |x: DriveFollowPrimary, r: Reply| x.stage is DropSlot),
{
    lemma_excludes(
        m,
        replies,
        drive_started(),
        |x: DriveFollowPrimary|
            (x.stage is Journal && 6 <= x.stage->Journal_0) || x.stage is Attach
                || x.stage is Complete || x.stage is Failed,
        |x: DriveFollowPrimary, r: Reply| x.stage is DropSlot,
        |x: DriveFollowPrimary|
            x.stage is DropSlot || x.stage is QueueCleanup || x.stage is Failed,
    );
}

/// How high on the ladder a stage is.
pub open spec fn drive_height(stage: DriveStage) -> int {
    match stage {
        DriveStage::Journal(k) => if k <= 1 {
            0
        } else if k == 2 {
            5
        } else if k == 3 {
            7
        } else if k == 4 {
            10
        } else if k == 5 {
            12
        } else if k == 6 {
            14
        } else {
            16
        },
        DriveStage::DialDetached => 1,
        DriveStage::DialNewPrimary => 2,
        DriveStage::GetStatus => 3,
        DriveStage::Stop => 4,
        DriveStage::CreateSlot => 6,
        DriveStage::Rewind => 8,
        DriveStage::Basebackup => 9,
        DriveStage::Configure => 11,
        DriveStage::Start => 13,
        DriveStage::Attach => 15,
        DriveStage::DropSlot(..) => 17,
        DriveStage::QueueCleanup(..) => 18,
        DriveStage::Failed(..) => 19,
        DriveStage::Skipped => 19,
        DriveStage::Complete => 19,
    }
}

/// A run only climbs: no stage is entered again, so the rungs are journaled
/// in their order and each at most once.
pub proof fn law_ladder_only_climbs(m: DriveFollowPrimary, replies: Seq<Reply>)
    ensures
        drive_height(after(m, replies).stage) >= drive_height(m.stage),
        forall|r: Reply|
            drive_height((#[trigger] after(m, replies).next(r)).stage) > drive_height(
                after(m, replies).stage,
            ) || after(m, replies).next(r) == after(m, replies),
{
    let low = drive_height(m.stage);
    lemma_kept(m, replies, |x: DriveFollowPrimary| drive_height(x.stage) >= low);
}

/// A run that is resumed above the rung `k` skips the steps up to it: once
/// both nodes are dialed it is where journaling that rung leads.
pub proof fn law_resume_goes_on(m: DriveFollowPrimary, cut: DriveFollowPrimary, k: usize)
    requires
        2 <= k <= 7,
        cut.stage == DriveStage::Journal(k),
        m.stage is DialDetached,
        m.from == k,
    ensures
        place_of(fp_phases(), fp_phases()[k as int]) == Some(k),
        after(m, seq![Reply::Done, Reply::Done]).stage == cut.next(Reply::Done).stage,
{
    lemma_place_in_fp_ladder(k as int);
    let two = seq![Reply::Done, Reply::Done];
    assert(two.drop_last() =~= seq![Reply::Done]);
    assert(two.drop_last().drop_last() =~= Seq::<Reply>::empty());
    assert(after(m, two.drop_last().drop_last()) == m);
    assert(after(m, two.drop_last()) == m.next(Reply::Done));
}

/// A standby that is down on purpose is left alone: it is not stopped, gets
/// no slot and is not attached.
pub proof fn law_stopped_standby_is_left_alone(m: DriveFollowPrimary, replies: Seq<Reply>)
    requires
        m.from <= 1,
        m.stage is DialDetached || m.stage == DriveStage::Journal(1),
        after(m, replies).stage is Skipped,
    ensures
        !performed(
            m,
            replies,
            |x: DriveFollowPrimary, r: Reply|
                x.stage is Stop || x.stage is CreateSlot || x.stage is Start || x.stage is Attach,
        ),
{
    lemma_excludes(
        m,
        replies,
        |x: DriveFollowPrimary, r: Reply|
            x.stage is Stop || x.stage is CreateSlot || x.stage is Start || x.stage is Attach,
        |x: DriveFollowPrimary| drive_height(x.stage) >= 4 && !(x.stage is Skipped),
        |x: DriveFollowPrimary, r: Reply| false,
        |x: DriveFollowPrimary| false,
    );
}

/// Each step is taken only once the one before it was carried out and recorded,
/// or where the run entered the ladder above that rung, with both nodes dialed.
/// Only a standby that was seen down is skipped, only one that was seen running
/// is stopped, and it is copied afresh only where it could not be rewound. The
/// slot is dropped only where one of the steps that use it failed, and an error
/// that is told is that of the step that failed.
pub proof fn law_how_each_stage_comes_about(x: DriveFollowPrimary, r: Reply)
    ensures
        ({
            let t = x.next(r).stage;
            t == x.stage || match t {
                DriveStage::DialDetached => x.stage is Journal && x.stage->Journal_0 <= 1
                    && r is Done,
                DriveStage::DialNewPrimary => x.stage is DialDetached && r is Done,
                DriveStage::GetStatus => x.stage is DialNewPrimary && r is Done && x.from <= 1,
                DriveStage::Stop => x.stage is GetStatus && r is Status && r->Status_0.is_running,
                DriveStage::Skipped => x.stage is GetStatus && r is Status
                    && !r->Status_0.is_running,
                DriveStage::CreateSlot => {
                    ||| x.stage == DriveStage::Journal(2) && r is Done
                    ||| x.stage is DialNewPrimary && r is Done && x.from == 2
                },
                DriveStage::Rewind => {
                    ||| x.stage == DriveStage::Journal(3) && r is Done
                    ||| x.stage is DialNewPrimary && r is Done && x.from == 3
                },
                DriveStage::Basebackup => x.stage is Rewind && r is Failed,
                DriveStage::Configure => {
                    ||| x.stage == DriveStage::Journal(4) && r is Done
                    ||| x.stage is DialNewPrimary && r is Done && x.from == 4
                },
                DriveStage::Start => {
                    ||| x.stage == DriveStage::Journal(5) && r is Done
                    ||| x.stage is DialNewPrimary && r is Done && x.from == 5
                },
                DriveStage::Attach => {
                    ||| x.stage == DriveStage::Journal(6) && r is Done
                    ||| x.stage is DialNewPrimary && r is Done && x.from == 6
                },
                DriveStage::Complete => {
                    ||| x.stage is Journal && x.stage->Journal_0 >= 7 && r is Done
                    ||| x.stage is DialNewPrimary && r is Done && x.from >= 7
                },
                DriveStage::Journal(k) => {
                    ||| k == 2 && x.stage is Stop && r is Done
                    ||| k == 3 && x.stage is CreateSlot && r is Done
                    ||| k == 4 && (x.stage is Rewind || x.stage is Basebackup) && r is Done
                    ||| k == 5 && x.stage is Configure && r is Done
                    ||| k == 6 && x.stage is Start && r is Done
                    ||| k == 7 && x.stage is Attach && r is Done
                },
                DriveStage::DropSlot(step, e) => r == Reply::Failed(e) && match step {
                    DriveStep::Basebackup => x.stage is Basebackup,
                    DriveStep::Configure => x.stage is Configure,
                    DriveStep::Start => x.stage is Start,
                    _ => false,
                },
                DriveStage::QueueCleanup(step, e, why) => x.stage == DriveStage::DropSlot(step, e) && r == Reply::Failed(why),
                DriveStage::Failed(step, e) => {
                    ||| x.stage == DriveStage::DropSlot(step, e) && r is Done
                    ||| x.stage is QueueCleanup && x.stage->QueueCleanup_0 == step
                        && x.stage->QueueCleanup_1 == e && (r is Done || r is Failed)
                    ||| r == Reply::Failed(e) && match step {
                        DriveStep::DialDetached => x.stage is DialDetached,
                        DriveStep::DialNewPrimary => x.stage is DialNewPrimary,
                        DriveStep::GetStatus => x.stage is GetStatus,
                        DriveStep::Stop => x.stage is Stop,
                        DriveStep::CreateSlot => x.stage is CreateSlot,
                        DriveStep::Attach => x.stage is Attach,
                        DriveStep::Journal(k) => x.stage == DriveStage::Journal(k),
                        _ => false,
                    }
                },
            }
        }),
{
}

/// An answer to the call that is due moves the run on, and nothing else does;
/// the nodes, the slot, the entry and the rung it entered above stay.
pub proof fn law_every_reply_counts(x: DriveFollowPrimary, r: Reply)
    ensures
        ({
            let answers = match x.stage {
                DriveStage::GetStatus => r is Status || r is Failed,
                DriveStage::Skipped | DriveStage::Complete | DriveStage::Failed(..) => false,
                _ => r is Done || r is Failed,
            };
            &&& answers ==> x.next(r).stage != x.stage
            &&& !answers ==> x.next(r) == x
            &&& x.next(r) == (DriveFollowPrimary { stage: x.next(r).stage, ..x })
        }),
{
}

/// A run that enters at the bottom and completes has stopped the standby, given
/// it a slot on the new primary, rewound or copied it, configured it, started
/// it and attached it.
pub proof fn law_complete_run_did_every_step(m: DriveFollowPrimary, replies: Seq<Reply>)
    requires
        m.from <= 1,
        m.stage is DialDetached || m.stage == DriveStage::Journal(1),
        after(m, replies).stage is Complete,
    ensures
        performed(m, replies, |x: DriveFollowPrimary, r: Reply| x.stage is Stop && r is Done),
        performed(m, replies, |x: DriveFollowPrimary, r: Reply| x.stage is CreateSlot && r is Done),
        performed(
            m,
            replies,
            |x: DriveFollowPrimary, r: Reply|
                (x.stage is Rewind || x.stage is Basebackup) && r is Done,
        ),
        performed(m, replies, |x: DriveFollowPrimary, r: Reply| x.stage is Configure && r is Done),
        performed(m, replies, |x: DriveFollowPrimary, r: Reply| x.stage is Start && r is Done),
        performed(m, replies, |x: DriveFollowPrimary, r: Reply| x.stage is Attach && r is Done),
{
    lemma_comes_after(
        m,
        replies,
        |x: DriveFollowPrimary, r: Reply| x.stage is Stop && r is Done,
        |x: DriveFollowPrimary|
            x.from > 1 || (drive_height(x.stage) >= 5 && (drive_height(x.stage) <= 16
            || x.stage is Complete)),
        |x: DriveFollowPrimary, r: Reply| false,
    );
    lemma_comes_after(
        m,
        replies,
        |x: DriveFollowPrimary, r: Reply| x.stage is CreateSlot && r is Done,
        |x: DriveFollowPrimary|
            x.from > 1 || (drive_height(x.stage) >= 7 && (drive_height(x.stage) <= 16
            || x.stage is Complete)),
        |x: DriveFollowPrimary, r: Reply| false,
    );
    lemma_comes_after(
        m,
        replies,
        |x: DriveFollowPrimary, r: Reply| (x.stage is Rewind || x.stage is Basebackup) && r is Done,
        |x: DriveFollowPrimary|
            x.from > 1 || (drive_height(x.stage) >= 10 && (drive_height(x.stage) <= 16
            || x.stage is Complete)),
        |x: DriveFollowPrimary, r: Reply| false,
    );
    lemma_comes_after(
        m,
        replies,
        |x: DriveFollowPrimary, r: Reply| x.stage is Configure && r is Done,
        |x: DriveFollowPrimary|
            x.from > 1 || (drive_height(x.stage) >= 12 && (drive_height(x.stage) <= 16
            || x.stage is Complete)),
        |x: DriveFollowPrimary, r: Reply| false,
    );
    lemma_comes_after(
        m,
        replies,
        |x: DriveFollowPrimary, r: Reply| x.stage is Start && r is Done,
        |x: DriveFollowPrimary|
            x.from > 1 || (drive_height(x.stage) >= 14 && (drive_height(x.stage) <= 16
            || x.stage is Complete)),
        |x: DriveFollowPrimary, r: Reply| false,
    );
    lemma_comes_after(
        m,
        replies,
        |x: DriveFollowPrimary, r: Reply| x.stage is Attach && r is Done,
        |x: DriveFollowPrimary|
            x.from > 1 || (drive_height(x.stage) >= 16 && (drive_height(x.stage) <= 16
            || x.stage is Complete)),
        |x: DriveFollowPrimary, r: Reply| false,
    );
}

/// The new primary is dialed and holds the slot; the standby is dialed, asked,
/// stopped, rewound, copied, configured and started; the rest is done here.
pub proof fn law_calls_go_where_they_belong(x: DriveFollowPrimary)
    ensures
        x.called() == if x.stage is DialNewPrimary || x.stage is CreateSlot || x.stage is DropSlot {
            Some(x.new_primary)
        } else if x.stage is DialDetached || x.stage is GetStatus || x.stage is Stop
            || x.stage is Rewind || x.stage is Basebackup || x.stage is Configure
            || x.stage is Start {
            Some(x.detached)
        } else {
            None
        },
{
}

/// A run ends well exactly where it completed or the standby was skipped, and
/// one that failed ends with the error.
pub proof fn law_outcomes_tell_the_end(x: DriveFollowPrimary)
    ensures
        match x.outcome() {
            None => !(x.stage is Complete || x.stage is Skipped || x.stage is Failed),
            Some(Ok(())) => x.stage is Complete || x.stage is Skipped,
            Some(Err(message)) => x.stage is Failed && ends_with(message, x.stage->Failed_1@),
        },
{
    if x.stage is Failed {
        let e = x.stage->Failed_1@;
        let s = x.failure_text(x.stage->Failed_0, e);
        assert(s.skip(s.len() - e.len()) =~= e);
    }
}

/// The queue is told which step failed.
pub proof fn law_causes_differ(a: DriveStep, b: DriveStep)
    requires
        a is Basebackup || a is Configure || a is Start,
        b is Basebackup || b is Configure || b is Start,
        drive_cause(a) == drive_cause(b),
    ensures
        a == b,
{
    reveal_strlit("follow_primary_basebackup_failed");
    reveal_strlit("follow_primary_configure_standby_failed");
    reveal_strlit("follow_primary_start_failed");
    assert("follow_primary_basebackup_failed"@.len() == 32);
    assert("follow_primary_configure_standby_failed"@.len() == 39);
    assert("follow_primary_start_failed"@.len() == 27);
}

/// A run that skipped the standby saw that it does not run, and one that
/// stopped it saw that it does, whatever else the standby reported.
pub proof fn law_skipped_standby_was_down(m: DriveFollowPrimary, replies: Seq<Reply>)
    requires
        m.stage is DialDetached || m.stage == DriveStage::Journal(1),
    ensures
        after(m, replies).stage is Skipped ==> performed(
            m,
            replies,
            |x: DriveFollowPrimary, r: Reply|
                x.stage is GetStatus && r is Status && !r->Status_0.is_running,
        ),
        performed(m, replies, |x: DriveFollowPrimary, r: Reply| x.stage is Stop) ==> performed(
            m,
            replies,
            |x: DriveFollowPrimary, r: Reply|
                x.stage is GetStatus && r is Status && r->Status_0.is_running,
        ),
{
    lemma_comes_after(
        m,
        replies,
        |x: DriveFollowPrimary, r: Reply|
            x.stage is GetStatus && r is Status && !r->Status_0.is_running,
        |x: DriveFollowPrimary| x.stage is Skipped,
        |x: DriveFollowPrimary, r: Reply| false,
    );
    lemma_comes_after(
        m,
        replies,
        |x: DriveFollowPrimary, r: Reply|
            x.stage is GetStatus && r is Status && r->Status_0.is_running,
        |x: DriveFollowPrimary| x.stage is Stop,
        |x: DriveFollowPrimary, r: Reply| x.stage is Stop,
    );
}

/// Each rung is recorded under the name of the step that leads to it.
pub proof fn law_rungs_are_named_for_their_steps(x: DriveFollowPrimary, r: Reply)
    requires
        x.next(r).stage is Journal,
        x.next(r).stage != x.stage,
    ensures
        ({
            let k = x.next(r).stage->Journal_0 as int;
            &&& 0 <= k < fp_phases().len()
            &&& fp_phases()[k] == match x.stage {
                DriveStage::Stop => "detached_stopped"@,
                DriveStage::CreateSlot => "slot_created"@,
                DriveStage::Rewind | DriveStage::Basebackup => "data_copied"@,
                DriveStage::Configure => "recovery_conf_written"@,
                DriveStage::Start => "detached_started"@,
                _ => "attached"@,
            }
        }),
{
}

/// One member more: it joins the others at the end, unless it is one of the
/// two nodes of the handoff.
pub proof fn law_bystanders_keep_the_order(
    members: Seq<NodeConfig>,
    node: NodeConfig,
    local: i32,
    new_primary: i32,
)
    ensures
        bystanders(members.push(node), local, new_primary) == if node.id == local || node.id
            == new_primary {
            bystanders(members, local, new_primary)
        } else {
            bystanders(members, local, new_primary).push(node)
        },
        bystanders(Seq::<NodeConfig>::empty(), local, new_primary).len() == 0,
{
    reveal(Seq::filter);
    assert(members.push(node).drop_last() =~= members);
}

} // verus!
