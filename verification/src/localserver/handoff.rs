//! The handoff ladder: the target becomes the primary, and the local node its
//! standby.
//!
//! Each rung is journaled once it is reached, so that a run that was cut off
//! can go on from the last rung that was.
use crate::config::{NodeConfig, PostgresRuntime};
use crate::orchestration::{
    after, lemma_comes_after, lemma_kept, performed, Machine, Reply, Turn,
};
use crate::pgstandby::{
    basebackup_from, recovery_from, rewind_to, BasebackupOpts, RewindOpts, WriteRecoveryConfOpts,
};
use crate::status::{
    answer, bad_argument, broken, decline, no, refuse, succeed, yes, Answer, Code, OpResult, Status,
};
use crate::text::{
    debug_text, dec, ends_with, holds_text, int_text, quoted, same, stands_at, text2, text4, text5,
};
use vstd::prelude::*;

verus! {

pub const HANDOFF_PHASE_PREFLIGHT_DONE: &'static str = "preflight_done";

pub const HANDOFF_PHASE_TARGET_PROMOTED: &'static str = "target_promoted";

pub const HANDOFF_PHASE_SLOT_CREATED: &'static str = "slot_created";

pub const HANDOFF_PHASE_LOCAL_STOPPED: &'static str = "local_stopped";

pub const HANDOFF_PHASE_DATA_COPIED: &'static str = "data_copied";

pub const HANDOFF_PHASE_RECOVERY_CONF_WRITTEN: &'static str = "recovery_conf_written";

pub const HANDOFF_PHASE_LOCAL_STARTED: &'static str = "local_started";

pub const HANDOFF_PHASE_ATTACHED: &'static str = "attached";

/// The rungs of the ladder, from the bottom.
pub open spec fn handoff_phases() -> Seq<Seq<char>> {
    seq![
        HANDOFF_PHASE_PREFLIGHT_DONE@,
        HANDOFF_PHASE_TARGET_PROMOTED@,
        HANDOFF_PHASE_SLOT_CREATED@,
        HANDOFF_PHASE_LOCAL_STOPPED@,
        HANDOFF_PHASE_DATA_COPIED@,
        HANDOFF_PHASE_RECOVERY_CONF_WRITTEN@,
        HANDOFF_PHASE_LOCAL_STARTED@,
        HANDOFF_PHASE_ATTACHED@,
    ]
}

/// The first place at which `x` stands in `s`.
#[verifier::opaque]
pub open spec fn place_of(s: Seq<Seq<char>>, x: Seq<char>) -> Option<usize> {
    if exists|i: int| 0 <= i < s.len() && s[i] == x {
        Some(
            (choose|i: int|
                0 <= i < s.len() && s[i] == x && (forall|j: int| 0 <= j < i ==> s[j] != x)) as usize,
        )
    } else {
        None
    }
}

/// No two rungs of the ladder have one name.
pub proof fn lemma_handoff_phases_differ()
    ensures
        forall|i: int, j: int|
            0 <= i < j < handoff_phases().len() ==> handoff_phases()[i] != handoff_phases()[j],
{
    reveal_strlit("preflight_done");
    reveal_strlit("target_promoted");
    reveal_strlit("slot_created");
    reveal_strlit("local_stopped");
    reveal_strlit("data_copied");
    reveal_strlit("recovery_conf_written");
    reveal_strlit("local_started");
    reveal_strlit("attached");
    assert("preflight_done"@.len() == 14);
    assert("target_promoted"@.len() == 15);
    assert("slot_created"@.len() == 12);
    assert("local_stopped"@.len() == 13 && "local_stopped"@[8] == 'o');
    assert("data_copied"@.len() == 11);
    assert("recovery_conf_written"@.len() == 21);
    assert("local_started"@.len() == 13 && "local_started"@[8] == 'a');
    assert("attached"@.len() == 8);
}

/// A phase stands where the ladder has it.
pub proof fn lemma_place_in_ladder(k: int)
    requires
        0 <= k < 8,
    ensures
        place_of(handoff_phases(), handoff_phases()[k]) == Some(k as usize),
{
    reveal(place_of);
    lemma_handoff_phases_differ();
    let s = handoff_phases();
    let x = s[k];
    assert(0 <= k < s.len() && s[k] == x && (forall|j: int| 0 <= j < k ==> s[j] != x));
    let c = choose|i: int|
        0 <= i < s.len() && s[i] == x && (forall|j: int| 0 <= j < i ==> s[j] != x);
    assert(c == k);
}

/// The place of `phase` on the ladder.
pub fn handoff_phase_index(phase: &str) -> (r: Option<usize>)
    ensures
        r == place_of(handoff_phases(), phase@),
        r is Some ==> r->0 < 8 && handoff_phases()[r->0 as int] == phase@,
{
    let k: usize = if same(phase, HANDOFF_PHASE_PREFLIGHT_DONE) {
        0
    } else if same(phase, HANDOFF_PHASE_TARGET_PROMOTED) {
        1
    } else if same(phase, HANDOFF_PHASE_SLOT_CREATED) {
        2
    } else if same(phase, HANDOFF_PHASE_LOCAL_STOPPED) {
        3
    } else if same(phase, HANDOFF_PHASE_DATA_COPIED) {
        4
    } else if same(phase, HANDOFF_PHASE_RECOVERY_CONF_WRITTEN) {
        5
    } else if same(phase, HANDOFF_PHASE_LOCAL_STARTED) {
        6
    } else if same(phase, HANDOFF_PHASE_ATTACHED) {
        7
    } else {
        proof {
            reveal(place_of);
        }
        return None;
    };
    proof {
        lemma_place_in_ladder(k as int);
    }
    Some(k)
}

/// A step that can fail for good.
#[derive(Clone, Copy, Debug, PartialEq, Eq, Structural)]
pub enum HandoffStep {
    Checkpoint,
    Promote,
    CreateSlot,
    StopLocal,
    WriteConf,
    StartLocal,
    Journal,
    Complete,
}

/// The call that is due, or how it ended.
pub enum HandoffStage {
    /// Take a checkpoint here.
    Checkpoint,
    /// Promote the target.
    Promote,
    /// Create the local node's slot on the target.
    CreateSlot,
    /// Stop PostgreSQL here.
    StopLocal,
    /// Rewind the local node.
    Rewind,
    /// Copy the local node afresh.
    Basebackup,
    /// Write the recovery configuration here.
    WriteConf,
    /// Start PostgreSQL here.
    StartLocal,
    /// Attach the local node in pgpool.
    Attach,
    /// Journal the rung with this place on the ladder.
    Journal(usize),
    /// Complete the journal entry.
    Complete,
    /// Drop the slot on the target: both ways to copy failed, the second with
    /// this error.
    DropSlot(String),
    /// Abandon the journal entry for the same reason.
    Abandon(String),
    /// Neither way to copy worked.
    NotCopied(String),
    /// A step failed with this error.
    Failed(HandoffStep, String),
    /// All done.
    Finished,
}

/// A handoff on its ladder.
pub struct Handoff {
    pub op_id: String,
    pub target: NodeConfig,
    pub local: NodeConfig,
    pub slot: String,
    /// Whether the local node was copied afresh.
    pub basebackup_ran: bool,
    /// Why the local node could not be attached.
    pub attach_error: Option<String>,
    pub stage: HandoffStage,
}

/// The stage that follows the rung with place `k`.
pub open spec fn handoff_entry(k: usize) -> HandoffStage {
    if k == 0 {
        HandoffStage::Checkpoint
    } else if k == 1 {
        HandoffStage::CreateSlot
    } else if k == 2 {
        HandoffStage::StopLocal
    } else if k == 3 {
        HandoffStage::Rewind
    } else if k == 4 {
        HandoffStage::WriteConf
    } else if k == 5 {
        HandoffStage::StartLocal
    } else if k == 6 {
        HandoffStage::Attach
    } else {
        HandoffStage::Complete
    }
}

fn entry(k: usize) -> (r: HandoffStage)
    ensures
        r == handoff_entry(k),
{
    match k {
        0 => HandoffStage::Checkpoint,
        1 => HandoffStage::CreateSlot,
        2 => HandoffStage::StopLocal,
        3 => HandoffStage::Rewind,
        4 => HandoffStage::WriteConf,
        5 => HandoffStage::StartLocal,
        6 => HandoffStage::Attach,
        _ => HandoffStage::Complete,
    }
}

/// The stage after `stage` succeeded.
pub open spec fn handoff_onward(stage: HandoffStage) -> HandoffStage {
    match stage {
        HandoffStage::Checkpoint => HandoffStage::Promote,
        HandoffStage::Promote => HandoffStage::Journal(1),
        HandoffStage::CreateSlot => HandoffStage::Journal(2),
        HandoffStage::StopLocal => HandoffStage::Journal(3),
        HandoffStage::Rewind => HandoffStage::Journal(4),
        HandoffStage::Basebackup => HandoffStage::Journal(4),
        HandoffStage::WriteConf => HandoffStage::Journal(5),
        HandoffStage::StartLocal => HandoffStage::Journal(6),
        HandoffStage::Attach => HandoffStage::Journal(7),
        HandoffStage::Journal(k) => handoff_entry(k),
        HandoffStage::Complete => HandoffStage::Finished,
        HandoffStage::DropSlot(e) => HandoffStage::Abandon(e),
        HandoffStage::Abandon(e) => HandoffStage::NotCopied(e),
        s => s,
    }
}

/// The stage after `stage` failed with `e`.
pub open spec fn handoff_failed(stage: HandoffStage, e: String) -> HandoffStage {
    match stage {
        HandoffStage::Checkpoint => HandoffStage::Failed(HandoffStep::Checkpoint, e),
        HandoffStage::Promote => HandoffStage::Failed(HandoffStep::Promote, e),
        HandoffStage::CreateSlot => HandoffStage::Failed(HandoffStep::CreateSlot, e),
        HandoffStage::StopLocal => HandoffStage::Failed(HandoffStep::StopLocal, e),
        HandoffStage::Rewind => HandoffStage::Basebackup,
        HandoffStage::Basebackup => HandoffStage::DropSlot(e),
        HandoffStage::WriteConf => HandoffStage::Failed(HandoffStep::WriteConf, e),
        HandoffStage::StartLocal => HandoffStage::Failed(HandoffStep::StartLocal, e),
        HandoffStage::Attach => HandoffStage::Journal(7),
        HandoffStage::Journal(_) => HandoffStage::Failed(HandoffStep::Journal, e),
        HandoffStage::Complete => HandoffStage::Failed(HandoffStep::Complete, e),
        HandoffStage::DropSlot(first) => HandoffStage::Abandon(first),
        HandoffStage::Abandon(first) => HandoffStage::NotCopied(first),
        s => s,
    }
}

impl Machine for Handoff {
    open spec fn next(self, reply: Reply) -> Self {
        match reply {
            Reply::Done => Handoff {
                stage: handoff_onward(self.stage),
                basebackup_ran: self.basebackup_ran || self.stage is Basebackup,
                ..self
            },
            Reply::Failed(e) => Handoff {
                stage: handoff_failed(self.stage, e),
                attach_error: if self.stage is Attach {
                    Some(e)
                } else {
                    self.attach_error
                },
                ..self
            },
            _ => self,
        }
    }
}

impl Handoff {
    /// Enters the ladder above the rung `phase`.
    pub fn from_phase(
        op_id: String,
        phase: &str,
        target: NodeConfig,
        local: NodeConfig,
        slot: String,
    ) -> (r: Turn<Handoff>)
        ensures
            match place_of(handoff_phases(), phase@) {
                None => r is Answer && answer(r->Answer_0) == bad_argument(
                    "cluster_handoff: unknown phase "@ + quoted(phase@),
                ),
                Some(k) => r == Turn::Ask(
                    Handoff {
                        op_id,
                        target,
                        local,
                        slot,
                        basebackup_ran: false,
                        attach_error: None,
                        stage: handoff_entry(k),
                    },
                ),
            },
    {
        match handoff_phase_index(phase) {
            None => Turn::Answer(
                refuse(
                    Code::InvalidArgument,
                    text2("cluster_handoff: unknown phase ", debug_text(phase).as_str()),
                ),
            ),
            Some(k) => Turn::Ask(
                Handoff {
                    op_id,
                    target,
                    local,
                    slot,
                    basebackup_ran: false,
                    attach_error: None,
                    stage: entry(k),
                },
            ),
        }
    }

    /// What is said of a step that failed.
    pub open spec fn failure_text(self, step: HandoffStep, e: Seq<char>) -> Seq<char> {
        match step {
            HandoffStep::Checkpoint => "cluster_handoff: checkpoint: "@ + e,
            HandoffStep::Promote => "cluster_handoff: promote "@ + self.target.hostname@ + ": "@ + e,
            HandoffStep::CreateSlot => "cluster_handoff: create_slot on "@ + self.target.hostname@
                + ": "@ + e,
            HandoffStep::StopLocal => "cluster_handoff: stop_postgres: "@ + e,
            HandoffStep::WriteConf => "cluster_handoff: write_recovery_conf: "@ + e,
            HandoffStep::StartLocal => "cluster_handoff: start_postgres: "@ + e,
            HandoffStep::Journal => "cluster_handoff: journal: "@ + e,
            HandoffStep::Complete => "cluster_handoff: complete journal: "@ + e,
        }
    }

    /// What is said when neither way to copy worked.
    pub open spec fn not_copied_text(self, e: Seq<char>) -> Seq<char> {
        "cluster_handoff: rewind and basebackup both failed against "@ + self.target.hostname@
            + ": "@ + e
            + "; local PG is stopped, target is now the primary; run `pg_agentctl cluster recover --target "@
            + dec(self.local.id as int)
            + " --stop-target-pg` from the new primary to finish converging the local node"@
    }

    /// What is said when all is done.
    pub open spec fn success_text(self) -> Seq<char> {
        "handoff complete: primary is now "@ + self.target.hostname@
            + "; local demoted to standby via "@ + (if self.basebackup_ran {
            "basebackup"@
        } else {
            "rewind"@
        }) + match self.attach_error {
            Some(e) => "; pgpool attach failed: "@ + e@,
            None => Seq::<char>::empty(),
        }
    }

    /// The answer, once there is one.
    pub open spec fn outcome(self) -> Option<Answer> {
        match self.stage {
            HandoffStage::Failed(step, e) => Some(broken(self.failure_text(step, e@))),
            HandoffStage::NotCopied(e) => Some(no(self.not_copied_text(e@))),
            HandoffStage::Finished => Some(yes(self.success_text())),
            _ => None,
        }
    }

    /// The node that the call that is due goes to; none, where it is made here
    /// or no call is due.
    pub open spec fn called(self) -> Option<NodeConfig> {
        match self.stage {
            HandoffStage::Promote | HandoffStage::CreateSlot | HandoffStage::DropSlot(_) => Some(self.target),
            _ => None,
        }
    }

    /// The node that the call that is due goes to; none, where it is made here
    /// or no call is due.
    pub fn callee(&self) -> (r: Option<&NodeConfig>)
        ensures
            match (r, self.called()) {
                (Some(n), Some(want)) => *n == want,
                (None, None) => true,
                _ => false,
            },
            r is Some <==> (self.stage is Promote || self.stage is CreateSlot
                || self.stage is DropSlot),
            self.stage is Promote || self.stage is CreateSlot || self.stage is DropSlot
                ==> r is Some && *r->0 == self.target,
    {
        match &self.stage {
            HandoffStage::Promote => Some(&self.target),
            HandoffStage::CreateSlot => Some(&self.target),
            HandoffStage::DropSlot(_) => Some(&self.target),
            _ => None,
        }
    }

    /// The backend to attach in pgpool here, where that is due.
    pub fn backend(&self) -> (r: Option<i32>)
        ensures
            r == if self.stage is Attach {
                Some(self.local.id)
            } else {
                None
            },
    {
        match &self.stage {
            HandoffStage::Attach => Some(self.local.id),
            _ => None,
        }
    }

    /// Takes the reply to the call that was due.
    pub fn step(self, reply: Reply) -> (r: Self)
        ensures
            r == self.next(reply),
    {
        match reply {
            Reply::Done => {
                let copied = match &self.stage {
                    HandoffStage::Basebackup => true,
                    _ => self.basebackup_ran,
                };
                let stage = match self.stage {
                    HandoffStage::Checkpoint => HandoffStage::Promote,
                    HandoffStage::Promote => HandoffStage::Journal(1),
                    HandoffStage::CreateSlot => HandoffStage::Journal(2),
                    HandoffStage::StopLocal => HandoffStage::Journal(3),
                    HandoffStage::Rewind => HandoffStage::Journal(4),
                    HandoffStage::Basebackup => HandoffStage::Journal(4),
                    HandoffStage::WriteConf => HandoffStage::Journal(5),
                    HandoffStage::StartLocal => HandoffStage::Journal(6),
                    HandoffStage::Attach => HandoffStage::Journal(7),
                    HandoffStage::Journal(k) => entry(k),
                    HandoffStage::Complete => HandoffStage::Finished,
                    HandoffStage::DropSlot(e) => HandoffStage::Abandon(e),
                    HandoffStage::Abandon(e) => HandoffStage::NotCopied(e),
                    s => s,
                };
                Handoff { stage, basebackup_ran: copied, ..self }
            },
            Reply::Failed(e) => {
                let stage = match self.stage {
                    HandoffStage::Checkpoint => HandoffStage::Failed(HandoffStep::Checkpoint, e),
                    HandoffStage::Promote => HandoffStage::Failed(HandoffStep::Promote, e),
                    HandoffStage::CreateSlot => HandoffStage::Failed(HandoffStep::CreateSlot, e),
                    HandoffStage::StopLocal => HandoffStage::Failed(HandoffStep::StopLocal, e),
                    HandoffStage::Rewind => HandoffStage::Basebackup,
                    HandoffStage::Basebackup => HandoffStage::DropSlot(e),
                    HandoffStage::WriteConf => HandoffStage::Failed(HandoffStep::WriteConf, e),
                    HandoffStage::StartLocal => HandoffStage::Failed(HandoffStep::StartLocal, e),
                    HandoffStage::Attach => {
                        return Handoff {
                            stage: HandoffStage::Journal(7),
                            attach_error: Some(e),
                            ..self
                        };
                    },
                    HandoffStage::Journal(_) => HandoffStage::Failed(HandoffStep::Journal, e),
                    HandoffStage::Complete => HandoffStage::Failed(HandoffStep::Complete, e),
                    HandoffStage::DropSlot(first) => HandoffStage::Abandon(first),
                    HandoffStage::Abandon(first) => HandoffStage::NotCopied(first),
                    s => s,
                };
                Handoff { stage, ..self }
            },
            _ => self,
        }
    }

    /// The phase to journal, where one is due.
    pub fn phase(&self) -> (r: Option<&'static str>)
        ensures
            match (r, self.stage) {
                (Some(p), HandoffStage::Journal(k)) => k < 8 && p@ == handoff_phases()[k as int],
                (None, HandoffStage::Journal(k)) => k >= 8,
                (r, _) => r is None,
            },
    {
        match &self.stage {
            HandoffStage::Journal(k) => match *k {
                0 => Some(HANDOFF_PHASE_PREFLIGHT_DONE),
                1 => Some(HANDOFF_PHASE_TARGET_PROMOTED),
                2 => Some(HANDOFF_PHASE_SLOT_CREATED),
                3 => Some(HANDOFF_PHASE_LOCAL_STOPPED),
                4 => Some(HANDOFF_PHASE_DATA_COPIED),
                5 => Some(HANDOFF_PHASE_RECOVERY_CONF_WRITTEN),
                6 => Some(HANDOFF_PHASE_LOCAL_STARTED),
                7 => Some(HANDOFF_PHASE_ATTACHED),
                _ => None,
            },
            _ => None,
        }
    }

    /// The options for rewinding the local node.
    pub fn rewind_opts(&self, pg: &PostgresRuntime) -> (r: RewindOpts)
        ensures
            r.primary_host@ == self.target.hostname@,
            r.primary_port == pg.port,
            r.repl_user@ == pg.repl_user@,
    {
        rewind_to(self.target.hostname.as_str(), pg)
    }

    /// The options for copying the local node afresh.
    pub fn basebackup_opts(&self, pg: &PostgresRuntime) -> (r: BasebackupOpts)
        ensures
            r.primary_host@ == self.target.hostname@,
            r.primary_port == pg.port,
            r.repl_user@ == pg.repl_user@,
            r.slot_name@ == self.slot@,
    {
        basebackup_from(self.target.hostname.as_str(), pg, self.slot.as_str())
    }

    /// The options for configuring the local node.
    pub fn recovery_opts(&self, pg: &PostgresRuntime) -> (r: WriteRecoveryConfOpts)
        ensures
            r.primary_host@ == self.target.hostname@,
            r.primary_port == pg.port,
            r.repl_user@ == pg.repl_user@,
            r.slot_name@ == self.slot@,
    {
        recovery_from(self.target.hostname.as_str(), pg, self.slot.as_str())
    }

    /// The reason to abandon the journal entry for, where that is due.
    pub fn abandon_reason(&self) -> (r: Option<String>)
        ensures
            match (r, self.stage) {
                (Some(reason), HandoffStage::Abandon(e)) => reason@
                    == "rewind+basebackup both failed: "@ + e@,
                (None, HandoffStage::Abandon(_)) => false,
                (r, _) => r is None,
            },
    {
        match &self.stage {
            HandoffStage::Abandon(e) => Some(text2("rewind+basebackup both failed: ", e.as_str())),
            _ => None,
        }
    }

    fn failure(&self, step: HandoffStep, e: &str) -> (r: String)
        ensures
            r@ == self.failure_text(step, e@),
    {
        let host = self.target.hostname.as_str();
        match step {
            HandoffStep::Checkpoint => text2("cluster_handoff: checkpoint: ", e),
            HandoffStep::Promote => text4("cluster_handoff: promote ", host, ": ", e),
            HandoffStep::CreateSlot => text4("cluster_handoff: create_slot on ", host, ": ", e),
            HandoffStep::StopLocal => text2("cluster_handoff: stop_postgres: ", e),
            HandoffStep::WriteConf => text2("cluster_handoff: write_recovery_conf: ", e),
            HandoffStep::StartLocal => text2("cluster_handoff: start_postgres: ", e),
            HandoffStep::Journal => text2("cluster_handoff: journal: ", e),
            HandoffStep::Complete => text2("cluster_handoff: complete journal: ", e),
        }
    }

    /// The answer, once there is one.
    pub fn answer(&self) -> (r: Option<Result<OpResult, Status>>)
        ensures
            match (r, self.outcome()) {
                (Some(a), Some(want)) => answer(a) == want,
                (None, None) => true,
                _ => false,
            },
    {
        match &self.stage {
            HandoffStage::Failed(step, e) => Some(
                refuse(Code::Internal, self.failure(*step, e.as_str())),
            ),
            HandoffStage::NotCopied(e) => {
                let mut s = text5(
                    "cluster_handoff: rewind and basebackup both failed against ",
                    self.target.hostname.as_str(),
                    ": ",
                    e.as_str(),
                    "; local PG is stopped, target is now the primary; run `pg_agentctl cluster recover --target ",
                );
                s.append(int_text(self.local.id as i64).as_str());
                s.append(
                    " --stop-target-pg` from the new primary to finish converging the local node",
                );
                Some(decline(s))
            },
            HandoffStage::Finished => {
                let how = if self.basebackup_ran {
                    "basebackup"
                } else {
                    "rewind"
                };
                let mut s = text4(
                    "handoff complete: primary is now ",
                    self.target.hostname.as_str(),
                    "; local demoted to standby via ",
                    how,
                );
                match &self.attach_error {
                    Some(e) => {
                        let note = text2("; pgpool attach failed: ", e.as_str());
                        s.append(note.as_str());
                    },
                    None => {
                        assert(s@ + Seq::<char>::empty() =~= s@);
                    },
                }
                Some(succeed(s))
            },
            _ => None,
        }
    }
}

/// How high on the ladder a stage is.
pub open spec fn handoff_height(stage: HandoffStage) -> int {
    match stage {
        HandoffStage::Checkpoint => 0,
        HandoffStage::Promote => 1,
        HandoffStage::CreateSlot => 3,
        HandoffStage::StopLocal => 5,
        HandoffStage::Rewind => 7,
        HandoffStage::Basebackup => 8,
        HandoffStage::WriteConf => 10,
        HandoffStage::StartLocal => 12,
        HandoffStage::Attach => 14,
        HandoffStage::Journal(k) => if k == 1 {
            2
        } else if k == 2 {
            4
        } else if k == 3 {
            6
        } else if k == 4 {
            9
        } else if k == 5 {
            11
        } else if k == 6 {
            13
        } else {
            15
        },
        HandoffStage::Complete => 16,
        HandoffStage::DropSlot(_) => 17,
        HandoffStage::Abandon(_) => 18,
        HandoffStage::NotCopied(_) => 19,
        HandoffStage::Failed(..) => 19,
        HandoffStage::Finished => 19,
    }
}

/// The rungs that the ladder journals.
pub open spec fn on_ladder(m: Handoff) -> bool {
    m.stage is Journal ==> 1 <= m.stage->Journal_0 <= 7
}

/// A run only climbs: no stage is entered again, so the rungs are journaled
/// in their order and each at most once.
pub proof fn law_ladder_only_climbs(m: Handoff, replies: Seq<Reply>)
    requires
        on_ladder(m),
    ensures
        on_ladder(after(m, replies)),
        handoff_height(after(m, replies).stage) >= handoff_height(m.stage),
        forall|r: Reply|
            handoff_height((#[trigger] after(m, replies).next(r)).stage) > handoff_height(
                after(m, replies).stage,
            ) || after(m, replies).next(r) == after(m, replies),
{
    let low = handoff_height(m.stage);
    lemma_kept(m, replies, |x: Handoff| on_ladder(x) && handoff_height(x.stage) >= low);
}

/// What has to have happened before the rung with place `k` is journaled.
pub open spec fn handoff_effect(k: usize) -> spec_fn(Handoff, Reply) -> bool {
    |x: Handoff, r: Reply|
        if k == 1 {
            x.stage is Promote && r is Done
        } else if k == 2 {
            x.stage is CreateSlot && r is Done
        } else if k == 3 {
            x.stage is StopLocal && r is Done
        } else if k == 4 {
            (x.stage is Rewind || x.stage is Basebackup) && r is Done
        } else if k == 5 {
            x.stage is WriteConf && r is Done
        } else if k == 6 {
            x.stage is StartLocal && r is Done
        } else {
            x.stage is Attach && (r is Done || r is Failed)
        }
}

/// A rung is journaled only once its step was carried out, and the step above
/// it only once the rung was journaled.
pub proof fn law_rung_follows_its_step(m: Handoff, replies: Seq<Reply>, k: usize)
    requires
        1 <= k <= 7,
        !(m.stage is Journal),
        handoff_height(m.stage) < handoff_height(HandoffStage::Journal(k)),
    ensures
        performed(m, replies, |x: Handoff, r: Reply| x.stage == HandoffStage::Journal(k))
            ==> performed(m, replies, handoff_effect(k)),
        performed(m, replies, |x: Handoff, r: Reply| x.stage == handoff_entry(k)) ==> performed(
            m,
            replies,
            |x: Handoff, r: Reply| x.stage == HandoffStage::Journal(k) && r is Done,
        ),
{
    lemma_comes_after(
        m,
        replies,
        handoff_effect(k),
        |x: Handoff| x.stage == HandoffStage::Journal(k),
        |x: Handoff, r: Reply| x.stage == HandoffStage::Journal(k),
    );
    lemma_comes_after(
        m,
        replies,
        |x: Handoff, r: Reply| x.stage == HandoffStage::Journal(k) && r is Done,
        |x: Handoff| x.stage == handoff_entry(k) || !on_ladder(x),
        |x: Handoff, r: Reply| x.stage == handoff_entry(k),
    );
}

/// A run that is finished has attached the local node, or tried to, and
/// completed its journal entry; and the old primary was stopped only after the
/// target was promoted and had a slot for it.
pub proof fn law_finished_run_is_complete(m: Handoff, replies: Seq<Reply>)
    requires
        m.stage is Checkpoint,
    ensures
        after(m, replies).stage is Finished ==> performed(
            m,
            replies,
            |x: Handoff, r: Reply| x.stage is Complete && r is Done,
        ),
        performed(m, replies, |x: Handoff, r: Reply| x.stage is StopLocal) ==> performed(
            m,
            replies,
            |x: Handoff, r: Reply| x.stage is Promote && r is Done,
        ) && performed(m, replies, |x: Handoff, r: Reply| x.stage is CreateSlot && r is Done),
{
    lemma_comes_after(
        m,
        replies,
        |x: Handoff, r: Reply| x.stage is Complete && r is Done,
        |x: Handoff| x.stage is Finished,
        |x: Handoff, r: Reply| false,
    );
    lemma_comes_after(
        m,
        replies,
        |x: Handoff, r: Reply| x.stage is Promote && r is Done,
        |x: Handoff| !(x.stage is Checkpoint || x.stage is Promote || x.stage is Failed),
        |x: Handoff, r: Reply| x.stage is StopLocal,
    );
    lemma_comes_after(
        m,
        replies,
        |x: Handoff, r: Reply| x.stage is CreateSlot && r is Done,
        |x: Handoff|
            !on_ladder(x) || (handoff_height(x.stage) >= 4 && !(x.stage is Failed)),
        |x: Handoff, r: Reply| x.stage is StopLocal,
    );
}

/// A run that is cut off and resumed from its journal goes on exactly where it
/// was: the stage it enters is the one that journaling the rung led to.
pub proof fn law_resume_goes_on(m: Handoff, k: usize)
    requires
        1 <= k <= 7,
        m.stage == HandoffStage::Journal(k),
    ensures
        place_of(handoff_phases(), handoff_phases()[k as int]) == Some(k),
        m.next(Reply::Done).stage == handoff_entry(k),
{
    lemma_place_in_ladder(k as int);
}

/// Where neither way to copy worked, the slot was dropped or its drop tried,
/// and the journal entry was abandoned or that was tried.
pub proof fn law_failed_copy_is_undone(m: Handoff, replies: Seq<Reply>)
    requires
        handoff_height(m.stage) <= 16,
        after(m, replies).stage is NotCopied,
    ensures
        performed(
            m,
            replies,
            |x: Handoff, r: Reply| x.stage is DropSlot && (r is Done || r is Failed),
        ),
        performed(
            m,
            replies,
            |x: Handoff, r: Reply| x.stage is Abandon && (r is Done || r is Failed),
        ),
{
    lemma_comes_after(
        m,
        replies,
        |x: Handoff, r: Reply| x.stage is Abandon && (r is Done || r is Failed),
        |x: Handoff| x.stage is NotCopied,
        |x: Handoff, r: Reply| false,
    );
    lemma_comes_after(
        m,
        replies,
        |x: Handoff, r: Reply| x.stage is DropSlot && (r is Done || r is Failed),
        |x: Handoff| x.stage is Abandon || x.stage is NotCopied,
        |x: Handoff, r: Reply| false,
    );
}

/// Each step is taken only once the one before it was carried out and recorded.
/// The local node is copied afresh only where it could not be rewound, the slot
/// is dropped only where neither worked, and that it could not be attached
/// holds nothing up. An error that is told is that of the step that failed.
pub proof fn law_how_each_stage_comes_about(x: Handoff, r: Reply)
    ensures
        ({
            let t = x.next(r).stage;
            t == x.stage || match t {
                HandoffStage::Checkpoint => x.stage is Journal && x.stage->Journal_0 == 0
                    && r is Done,
                HandoffStage::Promote => x.stage is Checkpoint && r is Done,
                HandoffStage::CreateSlot => x.stage == HandoffStage::Journal(1) && r is Done,
                HandoffStage::StopLocal => x.stage == HandoffStage::Journal(2) && r is Done,
                HandoffStage::Rewind => x.stage == HandoffStage::Journal(3) && r is Done,
                HandoffStage::Basebackup => x.stage is Rewind && r is Failed,
                HandoffStage::WriteConf => x.stage == HandoffStage::Journal(4) && r is Done,
                HandoffStage::StartLocal => x.stage == HandoffStage::Journal(5) && r is Done,
                HandoffStage::Attach => x.stage == HandoffStage::Journal(6) && r is Done,
                HandoffStage::Complete => x.stage is Journal && x.stage->Journal_0 >= 7
                    && r is Done,
                HandoffStage::Journal(k) => {
                    ||| k == 1 && x.stage is Promote && r is Done
                    ||| k == 2 && x.stage is CreateSlot && r is Done
                    ||| k == 3 && x.stage is StopLocal && r is Done
                    ||| k == 4 && (x.stage is Rewind || x.stage is Basebackup) && r is Done
                    ||| k == 5 && x.stage is WriteConf && r is Done
                    ||| k == 6 && x.stage is StartLocal && r is Done
                    ||| k == 7 && x.stage is Attach && (r is Done || r is Failed)
                },
                HandoffStage::DropSlot(e) => x.stage is Basebackup && r == Reply::Failed(e),
                HandoffStage::Abandon(e) => x.stage == HandoffStage::DropSlot(e) && (r is Done
                    || r is Failed),
                HandoffStage::NotCopied(e) => x.stage == HandoffStage::Abandon(e) && (r is Done
                    || r is Failed),
                HandoffStage::Failed(step, e) => r == Reply::Failed(e) && match step {
                    HandoffStep::Checkpoint => x.stage is Checkpoint,
                    HandoffStep::Promote => x.stage is Promote,
                    HandoffStep::CreateSlot => x.stage is CreateSlot,
                    HandoffStep::StopLocal => x.stage is StopLocal,
                    HandoffStep::WriteConf => x.stage is WriteConf,
                    HandoffStep::StartLocal => x.stage is StartLocal,
                    HandoffStep::Journal => x.stage is Journal,
                    HandoffStep::Complete => x.stage is Complete,
                },
                HandoffStage::Finished => x.stage is Complete && r is Done,
            }
        }),
{
}

/// An answer to the call that is due moves the run on, and nothing else does;
/// the nodes and the slot stay, and it is kept in mind that the local node was
/// copied afresh, and why it could not be attached.
pub proof fn law_every_reply_counts(x: Handoff, r: Reply)
    ensures
        ({
            let answers = (r is Done || r is Failed) && !(x.stage is NotCopied || x.stage is Failed
                || x.stage is Finished);
            &&& answers ==> x.next(r).stage != x.stage
            &&& !answers ==> x.next(r) == x
            &&& x.next(r) == (Handoff {
                stage: x.next(r).stage,
                basebackup_ran: x.basebackup_ran || (x.stage is Basebackup && r is Done),
                attach_error: if x.stage is Attach && r is Failed {
                    Some(r->Failed_0)
                } else {
                    x.attach_error
                },
                ..x
            })
        }),
{
}

/// A run from the bottom that finishes has promoted the target, given the local
/// node a slot there, stopped the local node, rewound or copied it, configured
/// it, started it and attached it or tried to.
pub proof fn law_finished_run_did_every_step(m: Handoff, replies: Seq<Reply>)
    requires
        m.stage is Checkpoint,
        after(m, replies).stage is Finished,
    ensures
        performed(m, replies, |x: Handoff, r: Reply| x.stage is Promote && r is Done),
        performed(m, replies, |x: Handoff, r: Reply| x.stage is CreateSlot && r is Done),
        performed(m, replies, |x: Handoff, r: Reply| x.stage is StopLocal && r is Done),
        performed(
            m,
            replies,
            |x: Handoff, r: Reply| (x.stage is Rewind || x.stage is Basebackup) && r is Done,
        ),
        performed(m, replies, |x: Handoff, r: Reply| x.stage is WriteConf && r is Done),
        performed(m, replies, |x: Handoff, r: Reply| x.stage is StartLocal && r is Done),
        performed(m, replies, |x: Handoff, r: Reply| x.stage is Attach),
{
    lemma_comes_after(
        m,
        replies,
        |x: Handoff, r: Reply| x.stage is Promote && r is Done,
        |x: Handoff|
            !on_ladder(x) || (handoff_height(x.stage) >= 2 && (handoff_height(x.stage) <= 16
            || x.stage is Finished)),
        |x: Handoff, r: Reply| false,
    );
    lemma_comes_after(
        m,
        replies,
        |x: Handoff, r: Reply| x.stage is CreateSlot && r is Done,
        |x: Handoff|
            !on_ladder(x) || (handoff_height(x.stage) >= 4 && (handoff_height(x.stage) <= 16
            || x.stage is Finished)),
        |x: Handoff, r: Reply| false,
    );
    lemma_comes_after(
        m,
        replies,
        |x: Handoff, r: Reply| x.stage is StopLocal && r is Done,
        |x: Handoff|
            !on_ladder(x) || (handoff_height(x.stage) >= 6 && (handoff_height(x.stage) <= 16
            || x.stage is Finished)),
        |x: Handoff, r: Reply| false,
    );
    lemma_comes_after(
        m,
        replies,
        |x: Handoff, r: Reply| (x.stage is Rewind || x.stage is Basebackup) && r is Done,
        |x: Handoff|
            !on_ladder(x) || (handoff_height(x.stage) >= 9 && (handoff_height(x.stage) <= 16
            || x.stage is Finished)),
        |x: Handoff, r: Reply| false,
    );
    lemma_comes_after(
        m,
        replies,
        |x: Handoff, r: Reply| x.stage is WriteConf && r is Done,
        |x: Handoff|
            !on_ladder(x) || (handoff_height(x.stage) >= 11 && (handoff_height(x.stage) <= 16
            || x.stage is Finished)),
        |x: Handoff, r: Reply| false,
    );
    lemma_comes_after(
        m,
        replies,
        |x: Handoff, r: Reply| x.stage is StartLocal && r is Done,
        |x: Handoff|
            !on_ladder(x) || (handoff_height(x.stage) >= 13 && (handoff_height(x.stage) <= 16
            || x.stage is Finished)),
        |x: Handoff, r: Reply| false,
    );
    lemma_comes_after(
        m,
        replies,
        |x: Handoff, r: Reply| x.stage is Attach,
        |x: Handoff|
            !on_ladder(x) || (handoff_height(x.stage) >= 15 && (handoff_height(x.stage) <= 16
            || x.stage is Finished)),
        |x: Handoff, r: Reply| false,
    );
}

/// A run that enters the ladder above a recorded rung takes none of the steps
/// up to that rung again.
pub proof fn law_entry_takes_no_step_twice(k: usize)
    requires
        1 <= k <= 7,
    ensures
        handoff_entry(k) == match k {
            1 => HandoffStage::CreateSlot,
            2 => HandoffStage::StopLocal,
            3 => HandoffStage::Rewind,
            4 => HandoffStage::WriteConf,
            5 => HandoffStage::StartLocal,
            6 => HandoffStage::Attach,
            _ => HandoffStage::Complete,
        },
        handoff_entry(0) is Checkpoint,
{
}

/// The target is promoted and holds the slot; all else is done here.
pub proof fn law_calls_go_to_the_target(x: Handoff)
    ensures
        x.called() == if x.stage is Promote || x.stage is CreateSlot || x.stage is DropSlot {
            Some(x.target)
        } else {
            None
        },
{
}

/// The answer is positive exactly where the run finished, and then tells how
/// the local node was demoted and why it could not be attached; negative where
/// neither way to copy worked; otherwise a refusal that ends with the error.
pub proof fn law_answers_tell_the_end(x: Handoff)
    ensures
        match x.outcome() {
            None => !(x.stage is Failed || x.stage is NotCopied || x.stage is Finished),
            Some(Answer::Result { ok, message }) => if ok {
                &&& x.stage is Finished
                &&& holds_text(message, x.target.hostname@)
                &&& x.attach_error is Some ==> ends_with(message, x.attach_error->0@)
                &&& x.attach_error is None ==> ends_with(
                    message,
                    if x.basebackup_ran {
                        "basebackup"@
                    } else {
                        "rewind"@
                    },
                )
            } else {
                x.stage is NotCopied && holds_text(message, x.stage->NotCopied_0@) && holds_text(
                    message,
                    x.target.hostname@,
                )
            },
            Some(Answer::Refusal { code, message }) => code == Code::Internal && x.stage is Failed
                && ends_with(message, x.stage->Failed_1@),
        },
{
    let h = x.target.hostname@;
    if x.stage is Failed {
        let e = x.stage->Failed_1@;
        let s = x.failure_text(x.stage->Failed_0, e);
        assert(s.skip(s.len() - e.len()) =~= e);
    }
    if x.stage is NotCopied {
        let e = x.stage->NotCopied_0@;
        let s = x.not_copied_text(e);
        let n = "cluster_handoff: rewind and basebackup both failed against "@.len() as int;
        assert(s.subrange(n, n + h.len()) =~= h);
        assert(stands_at(s, h, n));
        let k = n + h.len() + ": "@.len();
        assert(s.subrange(k, k + e.len()) =~= e);
        assert(stands_at(s, e, k));
    }
    if x.stage is Finished {
        let s = x.success_text();
        let n = "handoff complete: primary is now "@.len() as int;
        assert(s.subrange(n, n + h.len()) =~= h);
        assert(stands_at(s, h, n));
        match x.attach_error {
            Some(e) => {
                assert(s.skip(s.len() - e@.len()) =~= e@);
            },
            None => {
                let how = if x.basebackup_ran {
                    "basebackup"@
                } else {
                    "rewind"@
                };
                assert(s.skip(s.len() - how.len()) =~= how);
            },
        }
    }
}

/// A place on the ladder is that of the first rung with the name, and a name
/// that no rung has, has none.
pub proof fn law_places_are_those_of_the_rungs(s: Seq<Seq<char>>, x: Seq<char>)
    requires
        s.len() <= usize::MAX,
    ensures
        match place_of(s, x) {
            Some(k) => k < s.len() && s[k as int] == x && forall|j: int|
                0 <= j < k ==> #[trigger] s[j] != x,
            None => forall|j: int| 0 <= j < s.len() ==> #[trigger] s[j] != x,
        },
{
    reveal(place_of);
    if exists|i: int| 0 <= i < s.len() && s[i] == x {
        let i = choose|i: int| 0 <= i < s.len() && s[i] == x;
        lemma_first_place(s, x, i);
    }
}

proof fn lemma_first_place(s: Seq<Seq<char>>, x: Seq<char>, i: int)
    requires
        0 <= i < s.len(),
        s[i] == x,
    ensures
        exists|i: int| 0 <= i < s.len() && s[i] == x && (forall|j: int| 0 <= j < i ==> s[j] != x),
    decreases i,
{
    if exists|j: int| 0 <= j < i && s[j] == x {
        let j = choose|j: int| 0 <= j < i && s[j] == x;
        lemma_first_place(s, x, j);
    }
}

/// Each rung is recorded under the name of the step that leads to it.
pub proof fn law_rungs_are_named_for_their_steps(x: Handoff, r: Reply)
    requires
        x.next(r).stage is Journal,
        x.next(r).stage != x.stage,
    ensures
        ({
            let k = x.next(r).stage->Journal_0 as int;
            &&& 0 <= k < handoff_phases().len()
            &&& handoff_phases()[k] == match x.stage {
                HandoffStage::Promote => "target_promoted"@,
                HandoffStage::CreateSlot => "slot_created"@,
                HandoffStage::StopLocal => "local_stopped"@,
                HandoffStage::Rewind | HandoffStage::Basebackup => "data_copied"@,
                HandoffStage::WriteConf => "recovery_conf_written"@,
                HandoffStage::StartLocal => "local_started"@,
                _ => "attached"@,
            }
        }),
{
}

} // verus!
