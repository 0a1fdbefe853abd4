//! `cluster init`: the operator sets up replication from the primary, which is
//! the node this runs on, to every standby.
//!
//! Each standby gets a slot here, is stopped, copied, configured and started.
//! A standby that fails does not stop the others; its slot is dropped, and
//! where it cannot be dropped the drop is queued. Where the agents agree by
//! consensus, their membership is formed and the lease seeded at the end,
//! which is never fatal.
use crate::config::{
    first_with_id, slot_text, unknown_id, NodeConfig, NodePool, PostgresRuntime,
};
use crate::maintenance::MaintenancePayload;
use crate::orchestration::{
    after, lemma_comes_after, lemma_excludes, lemma_held_until, performed, Lease, Machine, Reply,
    TakeoverOutcome,
};
use crate::pgstandby::{basebackup_from, recovery_from, BasebackupOpts, WriteRecoveryConfOpts};
use crate::sort::lemma_filter_has;
use crate::status::{Code, Status};
use crate::text::{
    debug_text, dec, ends_with, holds_text, int_text, nat_text, quoted, stands_at, text2, text3,
    text4, text5,
};
use vstd::prelude::*;

verus! {

/// The operator's request.
pub struct ClusterInitRequest {
    /// Set up this standby alone.
    pub only_node_id: Option<i32>,
}

/// What became of one standby.
pub struct ClusterInitStandbyResult {
    pub node_id: i32,
    pub hostname: String,
    pub ok: bool,
    pub message: String,
}

/// What became of all of them.
pub struct ClusterInitResponse {
    pub ok: bool,
    pub message: String,
    pub repl_user: String,
    pub standbys: Vec<ClusterInitStandbyResult>,
}

/// A step that can fail for good.
#[derive(Clone, Copy, Debug, PartialEq, Eq, Structural)]
pub enum InitStep {
    CreateSlot,
    Dial,
    Stop,
    Basebackup,
    Configure,
    Start,
}

/// The call that is due, or how it ended.
pub enum InitStage {
    /// Create the standby's slot here.
    CreateSlot,
    /// Dial the standby.
    Dial,
    /// Stop the standby.
    Stop,
    /// Copy the standby afresh.
    Basebackup,
    /// Write the standby's recovery configuration.
    Configure,
    /// Start the standby.
    Start,
    /// Drop the slot: a step failed with this error.
    DropSlot(InitStep, String),
    /// Queue the drop, which failed with the second error.
    QueueCleanup(InitStep, String, String),
    /// A step failed with this error.
    Failed(InitStep, String),
    /// All done.
    Initialised,
}

/// A standby that is set up.
pub struct InitStandby {
    pub standby: NodeConfig,
    pub primary_hostname: String,
    pub slot: String,
    pub stage: InitStage,
}

/// The stage after `stage` succeeded.
pub open spec fn init_onward(stage: InitStage) -> InitStage {
    match stage {
        InitStage::CreateSlot => InitStage::Dial,
        InitStage::Dial => InitStage::Stop,
        InitStage::Stop => InitStage::Basebackup,
        InitStage::Basebackup => InitStage::Configure,
        InitStage::Configure => InitStage::Start,
        InitStage::Start => InitStage::Initialised,
        InitStage::DropSlot(step, e) => InitStage::Failed(step, e),
        InitStage::QueueCleanup(step, e, _) => InitStage::Failed(step, e),
        s => s,
    }
}

/// The stage after `stage` failed with `e`.
pub open spec fn init_failed(stage: InitStage, e: String) -> InitStage {
    match stage {
        InitStage::CreateSlot => InitStage::Failed(InitStep::CreateSlot, e),
        InitStage::Dial => InitStage::DropSlot(InitStep::Dial, e),
        InitStage::Stop => InitStage::DropSlot(InitStep::Stop, e),
        InitStage::Basebackup => InitStage::DropSlot(InitStep::Basebackup, e),
        InitStage::Configure => InitStage::DropSlot(InitStep::Configure, e),
        InitStage::Start => InitStage::DropSlot(InitStep::Start, e),
        InitStage::DropSlot(step, first) => InitStage::QueueCleanup(step, first, e),
        InitStage::QueueCleanup(step, first, _) => InitStage::Failed(step, first),
        s => s,
    }
}

impl Machine for InitStandby {
    open spec fn next(self, reply: Reply) -> Self {
        match reply {
            Reply::Done => InitStandby { stage: init_onward(self.stage), ..self },
            Reply::Failed(e) => InitStandby { stage: init_failed(self.stage, e), ..self },
            _ => self,
        }
    }
}

/// The name of a step.
pub open spec fn init_step_text(step: InitStep) -> Seq<char> {
    match step {
        InitStep::CreateSlot => "create_slot"@,
        InitStep::Dial => "peer_client"@,
        InitStep::Stop => "stop"@,
        InitStep::Basebackup => "basebackup"@,
        InitStep::Configure => "configure_standby"@,
        InitStep::Start => "start"@,
    }
}

fn step_name(step: InitStep) -> (r: &'static str)
    ensures
        r@ == init_step_text(step),
{
    match step {
        InitStep::CreateSlot => "create_slot",
        InitStep::Dial => "peer_client",
        InitStep::Stop => "stop",
        InitStep::Basebackup => "basebackup",
        InitStep::Configure => "configure_standby",
        InitStep::Start => "start",
    }
}

impl InitStandby {
    /// Whether `m` is the setup of `standby` at its start.
    pub open spec fn starts(m: InitStandby, standby: NodeConfig, primary_hostname: Seq<char>) -> bool {
        &&& m.standby == standby
        &&& m.primary_hostname@ == primary_hostname
        &&& m.slot@ == slot_text(standby.id)
        &&& m.stage == InitStage::CreateSlot
    }

    /// Begins the setup of a standby.
    pub fn new(standby: NodeConfig, primary_hostname: &str) -> (r: InitStandby)
        ensures
            InitStandby::starts(r, standby, primary_hostname@),
    {
        let slot = standby.slot_name();
        InitStandby {
            standby,
            primary_hostname: primary_hostname.to_owned(),
            slot,
            stage: InitStage::CreateSlot,
        }
    }

    /// Whether the setup has ended.
    pub open spec fn ended(self) -> bool {
        self.stage is Failed || self.stage is Initialised
    }

    /// Whether the setup has ended.
    pub fn has_ended(&self) -> (r: bool)
        ensures
            r == self.ended(),
    {
        match &self.stage {
            InitStage::Failed(..) => true,
            InitStage::Initialised => true,
            _ => false,
        }
    }

    /// The node that the call that is due goes to; none, where it is made here
    /// or no call is due.
    pub open spec fn called(self) -> Option<NodeConfig> {
        match self.stage {
            InitStage::Dial | InitStage::Stop | InitStage::Basebackup | InitStage::Configure | InitStage::Start => Some(self.standby),
            _ => None,
        }
    }

    /// The node that the call that is due goes to; none, where it is made here
    /// or no call is due.
    pub fn callee(&self) -> (r: Option<&NodeConfig>)
        ensures
            match (r, self.called()) {
                (Some(n), Some(want)) => *n == want,
                (None, None) => true,
                _ => false,
            },
            r is Some <==> (self.stage is Dial || self.stage is Stop
                || self.stage is Basebackup || self.stage is Configure || self.stage is Start),
            self.stage is Dial || self.stage is Stop || self.stage is Basebackup
                || self.stage is Configure || self.stage is Start ==> r is Some
                && *r->0 == self.standby,
    {
        match &self.stage {
            InitStage::Dial => Some(&self.standby),
            InitStage::Stop => Some(&self.standby),
            InitStage::Basebackup => Some(&self.standby),
            InitStage::Configure => Some(&self.standby),
            InitStage::Start => Some(&self.standby),
            _ => None,
        }
    }

    /// Takes the reply to the call that was due.
    pub fn step(self, reply: Reply) -> (r: Self)
        ensures
            r == self.next(reply),
            r.stage is Start && !(self.stage is Start) ==> self.stage is Configure && reply is Done,
            r.stage is Initialised && !(self.stage is Initialised) ==> self.stage is Start
                && reply is Done,
    {
        let stage = match reply {
            Reply::Done => match self.stage {
                InitStage::CreateSlot => InitStage::Dial,
                InitStage::Dial => InitStage::Stop,
                InitStage::Stop => InitStage::Basebackup,
                InitStage::Basebackup => InitStage::Configure,
                InitStage::Configure => InitStage::Start,
                InitStage::Start => InitStage::Initialised,
                InitStage::DropSlot(step, e) => InitStage::Failed(step, e),
                InitStage::QueueCleanup(step, e, _) => InitStage::Failed(step, e),
                s => s,
            },
            Reply::Failed(e) => match self.stage {
                InitStage::CreateSlot => InitStage::Failed(InitStep::CreateSlot, e),
                InitStage::Dial => InitStage::DropSlot(InitStep::Dial, e),
                InitStage::Stop => InitStage::DropSlot(InitStep::Stop, e),
                InitStage::Basebackup => InitStage::DropSlot(InitStep::Basebackup, e),
                InitStage::Configure => InitStage::DropSlot(InitStep::Configure, e),
                InitStage::Start => InitStage::DropSlot(InitStep::Start, e),
                InitStage::DropSlot(step, first) => InitStage::QueueCleanup(step, first, e),
                InitStage::QueueCleanup(step, first, _) => InitStage::Failed(step, first),
                s => s,
            },
            _ => self.stage,
        };
        InitStandby { stage, ..self }
    }

    /// The options for copying the standby afresh.
    pub fn basebackup_opts(&self, pg: &PostgresRuntime) -> (r: BasebackupOpts)
        ensures
            r.primary_host@ == self.primary_hostname@,
            r.primary_port == pg.port,
            r.repl_user@ == pg.repl_user@,
            r.slot_name@ == self.slot@,
    {
        basebackup_from(self.primary_hostname.as_str(), pg, self.slot.as_str())
    }

    /// The options for configuring the standby.
    pub fn recovery_opts(&self, pg: &PostgresRuntime) -> (r: WriteRecoveryConfOpts)
        ensures
            r.primary_host@ == self.primary_hostname@,
            r.primary_port == pg.port,
            r.repl_user@ == pg.repl_user@,
            r.slot_name@ == self.slot@,
    {
        recovery_from(self.primary_hostname.as_str(), pg, self.slot.as_str())
    }

    /// The cleanup to queue, where one is due.
    pub fn cleanup(&self) -> (r: Option<MaintenancePayload>)
        ensures
            match (r, self.stage) {
                (Some(p), InitStage::QueueCleanup(step, _, e)) => p.is_cleanup(
                    self.slot@,
                    self.primary_hostname@,
                    "cluster_init_"@ + init_step_text(step) + "_failed"@,
                    e@,
                ),
                (None, InitStage::QueueCleanup(..)) => false,
                (r, _) => r is None,
            },
    {
        match &self.stage {
            InitStage::QueueCleanup(step, _, e) => Some(
                MaintenancePayload::cleanup(
                    self.slot.as_str(),
                    self.primary_hostname.as_str(),
                    text3("cluster_init_", step_name(*step), "_failed").as_str(),
                    e.as_str(),
                ),
            ),
            _ => None,
        }
    }

    /// What is said of the standby once its setup has ended.
    pub open spec fn message_text(self) -> Seq<char> {
        match self.stage {
            InitStage::Failed(InitStep::CreateSlot, e) => "create slot "@ + self.slot@ + ": "@ + e@,
            InitStage::Failed(step, e) => init_step_text(step) + ": "@ + e@,
            InitStage::Initialised => "initialised"@,
            _ => Seq::<char>::empty(),
        }
    }

    /// Whether `r` says what became of this standby.
    pub open spec fn is_result(self, r: ClusterInitStandbyResult) -> bool {
        &&& r.node_id == self.standby.id
        &&& r.hostname@ == self.standby.hostname@
        &&& r.ok == (self.stage is Initialised)
        &&& r.message@ == self.message_text()
    }

    /// What became of the standby.
    pub fn result(&self) -> (r: ClusterInitStandbyResult)
        ensures
            self.is_result(r),
    {
        let (ok, message) = match &self.stage {
            InitStage::Failed(step, e) => match step {
                InitStep::CreateSlot => (
                    false,
                    text4("create slot ", self.slot.as_str(), ": ", e.as_str()),
                ),
                _ => (false, text3(step_name(*step), ": ", e.as_str())),
            },
            InitStage::Initialised => (true, "initialised".to_owned()),
            _ => (false, String::new()),
        };
        ClusterInitStandbyResult {
            node_id: self.standby.id,
            hostname: self.standby.hostname.clone(),
            ok,
            message,
        }
    }
}

/// The call that is due, or that all is done.
pub enum ClusterInitStage {
    /// Make sure that the replication role exists.
    EnsureRole,
    /// Set up this standby.
    Standby(InitStandby),
    /// Form the membership.
    Bootstrap,
    /// Claim the lease for this primary; the membership was formed like this.
    Seed(String),
    /// The replication role could not be made.
    RoleFailed(String),
    /// All done.
    Finished(RaftNote),
}

/// What became of the membership and the lease.
pub enum RaftNote {
    /// There is no consensus to set up.
    Absent,
    /// The membership could not be formed.
    NotFormed(String),
    /// The membership was formed, and the claim to the lease decided.
    Decided(String, TakeoverOutcome),
    /// The membership was formed, but the lease could not be claimed.
    Unclaimed(String, String),
}

/// A cluster that is set up.
pub struct ClusterInit {
    pub primary: NodeConfig,
    pub repl_user: String,
    /// Whether there is a consensus to set up.
    pub raft: bool,
    /// The standbys whose turn is still to come.
    pub waiting: Vec<NodeConfig>,
    /// The standbys whose setup has ended.
    pub ended: Vec<InitStandby>,
    pub stage: ClusterInitStage,
}

/// The standbys that a request selects, in the pool's order.
pub open spec fn selected(members: Seq<NodeConfig>, primary: i32, only: Option<i32>) -> Seq<
    NodeConfig,
> {
    members.filter(
        |n: NodeConfig| n.id != primary && match only {
            Some(id) => n.id == id,
            None => true,
        },
    )
}

/// What the check of the local role leads to: an answer that nothing can be
/// set up from here, or a refusal.
pub open spec fn init_refusal(pool: NodePool, in_recovery: Result<bool, String>) -> Option<
    Result<Seq<char>, Seq<char>>,
> {
    match in_recovery {
        Err(e) => Some(Err("cluster_init: check primary status: "@ + e@)),
        Ok(true) => Some(Ok("cluster_init: local node is not the primary (in recovery)"@)),
        Ok(false) => match first_with_id(pool.members@, pool.local_node_id) {
            None => Some(Err("cluster_init: resolve local node: "@ + unknown_id(pool.local_node_id))),
            Some(_) => None,
        },
    }
}

/// Where a request leads.
pub enum InitTurn {
    Ask(ClusterInit),
    Answer(Result<ClusterInitResponse, Status>),
}

/// The state of the run: what `ClusterInit` holds, as plain sequences.
pub struct ClusterInitState {
    pub primary: NodeConfig,
    pub repl_user: String,
    pub raft: bool,
    pub waiting: Seq<NodeConfig>,
    pub ended: Seq<InitStandby>,
    pub stage: ClusterInitStage,
}

impl View for ClusterInit {
    type V = ClusterInitState;

    open spec fn view(&self) -> ClusterInitState {
        ClusterInitState {
            primary: self.primary,
            repl_user: self.repl_user,
            raft: self.raft,
            waiting: self.waiting@,
            ended: self.ended@,
            stage: self.stage,
        }
    }
}

impl ClusterInitState {
    /// Whether `self` is `was` after it moved on: to the first standby that
    /// waits, or to the consensus where none does.
    pub open spec fn moved_on(self, was: ClusterInitState) -> bool {
        &&& self.primary == was.primary
        &&& self.repl_user == was.repl_user
        &&& self.raft == was.raft
        &&& self.ended == was.ended
        &&& if was.waiting.len() > 0 {
            &&& self.waiting == was.waiting.drop_first()
            &&& self.stage is Standby
            &&& InitStandby::starts(
                self.stage->Standby_0,
                was.waiting[0],
                was.primary.hostname@,
            )
        } else {
            &&& self.waiting == was.waiting
            &&& self.stage == if was.raft {
                ClusterInitStage::Bootstrap
            } else {
                ClusterInitStage::Finished(RaftNote::Absent)
            }
        }
    }

    /// Whether `after` is this state after one reply.
    pub open spec fn leads_to(self, reply: Reply, after: ClusterInitState) -> bool {
        match self.stage {
            ClusterInitStage::EnsureRole => match reply {
                Reply::Done => after.moved_on(self),
                Reply::Failed(e) => after == (ClusterInitState {
                    stage: ClusterInitStage::RoleFailed(e),
                    ..self
                }),
                _ => after == self,
            },
            ClusterInitStage::Standby(m) => if m.next(reply).ended() {
                after.moved_on(
                    ClusterInitState { ended: self.ended.push(m.next(reply)), ..self },
                )
            } else {
                after == (ClusterInitState {
                    stage: ClusterInitStage::Standby(m.next(reply)),
                    ..self
                })
            },
            ClusterInitStage::Bootstrap => match reply {
                Reply::Text(formed) => after == (ClusterInitState {
                    stage: ClusterInitStage::Seed(formed),
                    ..self
                }),
                Reply::Failed(e) => after == (ClusterInitState {
                    stage: ClusterInitStage::Finished(RaftNote::NotFormed(e)),
                    ..self
                }),
                _ => after == self,
            },
            ClusterInitStage::Seed(formed) => match reply {
                Reply::Lease(outcome) => after == (ClusterInitState {
                    stage: ClusterInitStage::Finished(RaftNote::Decided(formed, outcome)),
                    ..self
                }),
                Reply::Failed(e) => after == (ClusterInitState {
                    stage: ClusterInitStage::Finished(RaftNote::Unclaimed(formed, e)),
                    ..self
                }),
                _ => after == self,
            },
            _ => after == self,
        }
    }

    /// Every setup that has ended counts as ended.
    pub open spec fn wf(self) -> bool {
        forall|i: int| 0 <= i < self.ended.len() ==> (#[trigger] self.ended[i]).ended()
    }
}

/// How many of `ended` failed.
pub open spec fn failures(ended: Seq<InitStandby>) -> nat
    decreases ended.len(),
{
    if ended.len() == 0 {
        0
    } else {
        failures(ended.drop_last()) + (if ended.last().stage is Initialised {
            0nat
        } else {
            1nat
        })
    }
}

/// What is said of the standbys.
pub open spec fn standbys_text(repl_user: Seq<char>, ended: Seq<InitStandby>) -> Seq<char> {
    if ended.len() == 0 {
        "cluster_init: replication role "@ + repl_user + " ensured; no standby nodes selected"@
    } else if failures(ended) == 0 {
        "cluster_init complete: "@ + dec(ended.len() as int) + " standby(s) initialised"@
    } else {
        "cluster_init: "@ + dec(failures(ended) as int) + " of "@ + dec(ended.len() as int)
            + " standby(s) failed"@
    }
}

/// What is said of a claim to the lease.
pub open spec fn seed_text(primary: i32, outcome: TakeoverOutcome) -> Seq<char> {
    match outcome {
        TakeoverOutcome::Won { lease } => "lease seeded (node "@ + dec(primary as int) + ", term "@
            + dec(lease.term as int) + ")"@,
        TakeoverOutcome::Lost { current: Some(l) } => "lease already held (node "@ + dec(
            l.holder as int,
        ) + ", term "@ + dec(l.term as int) + ")"@,
        TakeoverOutcome::Lost { current: None } => "lease already held"@,
    }
}

/// What is said of the consensus, if anything.
pub open spec fn raft_text(primary: i32, note: RaftNote) -> Option<Seq<char>> {
    match note {
        RaftNote::Absent => None,
        RaftNote::NotFormed(e) => Some("raft membership bootstrap FAILED: "@ + e@),
        RaftNote::Decided(formed, outcome) => Some(formed@ + "; "@ + seed_text(primary, outcome)),
        RaftNote::Unclaimed(formed, e) => Some(formed@ + "; "@ + ("lease seeding FAILED: "@ + e@)),
    }
}

impl ClusterInit {
    /// Goes on with what the check of the local role gave.
    pub fn after_role_check(
        req: ClusterInitRequest,
        pool: &NodePool,
        pg: &PostgresRuntime,
        raft: bool,
        in_recovery: Result<bool, String>,
    ) -> (r: InitTurn)
        ensures
            match (r, init_refusal(*pool, in_recovery)) {
                (InitTurn::Answer(Err(s)), Some(Err(want))) => s.code == Code::Internal && s.message@
                    == want,
                (InitTurn::Answer(Ok(resp)), Some(Ok(want))) => {
                    &&& !resp.ok
                    &&& resp.message@ == want
                    &&& resp.repl_user@ == pg.repl_user@
                    &&& resp.standbys.len() == 0
                },
                (InitTurn::Ask(m), None) => {
                    &&& first_with_id(pool.members@, pool.local_node_id) == Some(m.primary)
                    &&& m.repl_user@ == pg.repl_user@
                    &&& m.raft == raft
                    &&& m.waiting@ == selected(pool.members@, m.primary.id, req.only_node_id)
                    &&& m.ended@ == Seq::<InitStandby>::empty()
                    &&& m.stage == ClusterInitStage::EnsureRole
                    &&& m@.wf()
                },
                _ => false,
            },
    {
        match in_recovery {
            Err(e) => {
                return InitTurn::Answer(
                    Err(
                        Status {
                            code: Code::Internal,
                            message: text2("cluster_init: check primary status: ", e.as_str()),
                        },
                    ),
                );
            },
            Ok(true) => {
                return InitTurn::Answer(
                    Ok(
                        ClusterInitResponse {
                            ok: false,
                            message: "cluster_init: local node is not the primary (in recovery)".to_owned(),
                            repl_user: pg.repl_user.clone(),
                            standbys: Vec::new(),
                        },
                    ),
                );
            },
            Ok(false) => {},
        }
        let primary = match pool.local_node() {
            Ok(n) => n.clone(),
            Err(e) => {
                return InitTurn::Answer(
                    Err(
                        Status {
                            code: Code::Internal,
                            message: text2("cluster_init: resolve local node: ", e.as_str()),
                        },
                    ),
                );
            },
        };
        let mut waiting: Vec<NodeConfig> = Vec::new();
        let only = req.only_node_id;
        let primary_id: i32 = primary.id;
        let ghost keep = |n: NodeConfig|
            n.id != primary_id && match only {
                Some(id) => n.id == id,
                None => true,
            };
        let mut i: usize = 0;
        assert(pool.members@.take(0).filter(keep) =~= waiting@) by {
            reveal(Seq::filter);
        }
        while i < pool.members.len()
            invariant
                i <= pool.members.len(),
                keep == (|n: NodeConfig|
                    n.id != primary_id && match only {
                        Some(id) => n.id == id,
                        None => true,
                    }),
                waiting@ == pool.members@.take(i as int).filter(keep),
            decreases pool.members.len() - i,
        {
            proof {
                let longer = pool.members@.take(i + 1);
                assert(longer.drop_last() =~= pool.members@.take(i as int));
                assert(longer.last() == pool.members@[i as int]);
                reveal(Seq::filter);
            }
            let id = pool.members[i].id;
            let wanted = match only {
                Some(o) => id == o,
                None => true,
            };
            if id != primary_id && wanted {
                waiting.push(pool.members[i].clone());
            }
            i = i + 1;
        }
        assert(pool.members@.take(i as int) =~= pool.members@);
        InitTurn::Ask(
            ClusterInit {
                primary,
                repl_user: pg.repl_user.clone(),
                raft,
                waiting,
                ended: Vec::new(),
                stage: ClusterInitStage::EnsureRole,
            },
        )
    }

    fn move_on(self) -> (r: Self)
        ensures
            r@.moved_on(self@),
    {
        let mut waiting = self.waiting;
        let stage = if waiting.len() > 0 {
            let ghost all = waiting@;
            let standby = waiting.remove(0);
            assert(waiting@ =~= all.drop_first());
            ClusterInitStage::Standby(
                InitStandby::new(standby, self.primary.hostname.as_str()),
            )
        } else if self.raft {
            ClusterInitStage::Bootstrap
        } else {
            ClusterInitStage::Finished(RaftNote::Absent)
        };
        ClusterInit { waiting, stage, ..self }
    }

    /// Takes the reply to the call that was due.
    pub fn step(self, reply: Reply) -> (r: Self)
        ensures
            self@.leads_to(reply, r@),
            self@.wf() ==> r@.wf(),
    {
        let ghost was = self@;
        match self.stage {
            ClusterInitStage::EnsureRole => match reply {
                Reply::Done => {
                    let m = ClusterInit { stage: ClusterInitStage::EnsureRole, ..self };
                    assert(m@ == was);
                    m.move_on()
                },
                Reply::Failed(e) => ClusterInit { stage: ClusterInitStage::RoleFailed(e), ..self },
                _ => ClusterInit { stage: ClusterInitStage::EnsureRole, ..self },
            },
            ClusterInitStage::Standby(m) => {
                let n = m.step(reply);
                if n.has_ended() {
                    let mut ended = self.ended;
                    ended.push(n);
                    let next = ClusterInit { ended, stage: ClusterInitStage::EnsureRole, ..self };
                    next.move_on()
                } else {
                    ClusterInit { stage: ClusterInitStage::Standby(n), ..self }
                }
            },
            ClusterInitStage::Bootstrap => match reply {
                Reply::Text(formed) => ClusterInit {
                    stage: ClusterInitStage::Seed(formed),
                    ..self
                },
                Reply::Failed(e) => ClusterInit {
                    stage: ClusterInitStage::Finished(RaftNote::NotFormed(e)),
                    ..self
                },
                _ => ClusterInit { stage: ClusterInitStage::Bootstrap, ..self },
            },
            ClusterInitStage::Seed(formed) => match reply {
                Reply::Lease(outcome) => ClusterInit {
                    stage: ClusterInitStage::Finished(RaftNote::Decided(formed, outcome)),
                    ..self
                },
                Reply::Failed(e) => ClusterInit {
                    stage: ClusterInitStage::Finished(RaftNote::Unclaimed(formed, e)),
                    ..self
                },
                _ => ClusterInit { stage: ClusterInitStage::Seed(formed), ..self },
            },
            stage => ClusterInit { stage, ..self },
        }
    }

    fn raft_note(&self, note: &RaftNote) -> (r: Option<String>)
        ensures
            match (r, raft_text(self.primary.id, *note)) {
                (Some(s), Some(want)) => s@ == want,
                (None, None) => true,
                _ => false,
            },
    {
        match note {
            RaftNote::Absent => None,
            RaftNote::NotFormed(e) => Some(
                text2("raft membership bootstrap FAILED: ", e.as_str()),
            ),
            RaftNote::Decided(formed, outcome) => {
                let seed = match outcome {
                    TakeoverOutcome::Won { lease } => text5(
                        "lease seeded (node ",
                        int_text(self.primary.id as i64).as_str(),
                        ", term ",
                        nat_text(lease.term).as_str(),
                        ")",
                    ),
                    TakeoverOutcome::Lost { current } => match current {
                        Some(l) => text5(
                            "lease already held (node ",
                            int_text(l.holder as i64).as_str(),
                            ", term ",
                            nat_text(l.term).as_str(),
                            ")",
                        ),
                        None => "lease already held".to_owned(),
                    },
                };
                Some(text3(formed.as_str(), "; ", seed.as_str()))
            },
            RaftNote::Unclaimed(formed, e) => {
                let seed = text2("lease seeding FAILED: ", e.as_str());
                Some(text3(formed.as_str(), "; ", seed.as_str()))
            },
        }
    }

    /// The answer, once there is one. It is positive if no standby failed.
    pub fn answer(&self) -> (r: Option<Result<ClusterInitResponse, Status>>)
        ensures
            match (r, self.stage) {
                (Some(Err(s)), ClusterInitStage::RoleFailed(e)) => s.code == Code::Internal
                    && s.message@ == "cluster_init: create replication role "@ + quoted(
                    self.repl_user@,
                ) + ": "@ + e@,
                (Some(Ok(resp)), ClusterInitStage::Finished(note)) => {
                    &&& resp.ok == (failures(self.ended@) == 0)
                    &&& resp.message@ == match raft_text(self.primary.id, note) {
                        None => standbys_text(self.repl_user@, self.ended@),
                        Some(n) => standbys_text(self.repl_user@, self.ended@) + "; "@ + n,
                    }
                    &&& resp.repl_user@ == self.repl_user@
                    &&& resp.standbys.len() == self.ended.len()
                    &&& forall|i: int|
                        0 <= i < self.ended.len() ==> (#[trigger] self.ended[i]).is_result(
                            resp.standbys[i],
                        )
                },
                (Some(_), _) => false,
                (None, ClusterInitStage::RoleFailed(_)) => false,
                (None, ClusterInitStage::Finished(_)) => false,
                (None, _) => true,
            },
    {
        match &self.stage {
            ClusterInitStage::RoleFailed(e) => Some(
                Err(
                    Status {
                        code: Code::Internal,
                        message: text4(
                            "cluster_init: create replication role ",
                            debug_text(self.repl_user.as_str()).as_str(),
                            ": ",
                            e.as_str(),
                        ),
                    },
                ),
            ),
            ClusterInitStage::Finished(note) => {
                let mut standbys: Vec<ClusterInitStandbyResult> = Vec::new();
                let mut failed: usize = 0;
                let mut i: usize = 0;
                while i < self.ended.len()
                    invariant
                        i <= self.ended.len(),
                        failed <= i,
                        failed == failures(self.ended@.take(i as int)),
                        standbys.len() == i,
                        forall|k: int|
                            0 <= k < i ==> (#[trigger] self.ended[k]).is_result(standbys[k]),
                    decreases self.ended.len() - i,
                {
                    proof {
                        let longer = self.ended@.take(i + 1);
                        assert(longer.drop_last() =~= self.ended@.take(i as int));
                        assert(longer.last() == self.ended@[i as int]);
                    }
                    let res = self.ended[i].result();
                    if !res.ok {
                        failed = failed + 1;
                    }
                    standbys.push(res);
                    i = i + 1;
                }
                assert(self.ended@.take(i as int) =~= self.ended@);
                let total: usize = self.ended.len();
                let mut message = if total == 0 {
                    text3(
                        "cluster_init: replication role ",
                        self.repl_user.as_str(),
                        " ensured; no standby nodes selected",
                    )
                } else if failed == 0 {
                    text3(
                        "cluster_init complete: ",
                        nat_text(total as u64).as_str(),
                        " standby(s) initialised",
                    )
                } else {
                    text5(
                        "cluster_init: ",
                        nat_text(failed as u64).as_str(),
                        " of ",
                        nat_text(total as u64).as_str(),
                        " standby(s) failed",
                    )
                };
                match self.raft_note(note) {
                    Some(n) => {
                        message.append("; ");
                        message.append(n.as_str());
                    },
                    None => {},
                }
                Some(
                    Ok(
                        ClusterInitResponse {
                            ok: failed == 0,
                            message,
                            repl_user: self.repl_user.clone(),
                            standbys,
                        },
                    ),
                )
            },
            _ => None,
        }
    }
}

/// Whether the slot was created.
pub open spec fn init_created() -> spec_fn(InitStandby, Reply) -> bool {
    |x: InitStandby, r: Reply| x.stage is CreateSlot && r is Done
}

/// Whether the slot was dropped, or the queue was asked to drop it.
pub open spec fn init_released() -> spec_fn(InitStandby, Reply) -> bool {
    |x: InitStandby, r: Reply|
        (x.stage is DropSlot && r is Done) || (x.stage is QueueCleanup && (r is Done || r is Failed))
}

/// A setup that created the slot and failed has dropped it, or asked the queue
/// to drop it; one that succeeded has not.
pub proof fn law_no_slot_left_behind(m: InitStandby, replies: Seq<Reply>)
    requires
        m.stage == InitStage::CreateSlot,
    ensures
        performed(m, replies, init_created()) && after(m, replies).stage is Failed ==> performed(
            m,
            replies,
            init_released(),
        ),
        after(m, replies).stage is Initialised ==> !performed(
            m,
            replies,
            |x: InitStandby, r: Reply| x.stage is DropSlot,
        ),
{
    lemma_held_until(
        m,
        replies,
        init_created(),
        |x: InitStandby|
            !(x.stage is CreateSlot || x.stage is Failed),
        init_released(),
    );
    lemma_excludes(
        m,
        replies,
        |x: InitStandby, r: Reply| x.stage is DropSlot,
        |x: InitStandby| x.stage is DropSlot || x.stage is QueueCleanup || x.stage is Failed,
        |x: InitStandby, r: Reply| false,
        |x: InitStandby| false,
    );
}

/// The standbys whose setup has ended, is going on, or is to come.
pub open spec fn roster(s: ClusterInitState) -> Seq<NodeConfig> {
    s.ended.map_values(|m: InitStandby| m.standby) + (match s.stage {
        ClusterInitStage::Standby(m) => seq![m.standby],
        _ => Seq::<NodeConfig>::empty(),
    }) + s.waiting
}

/// Every reply keeps the roster and its order, so each standby that was
/// selected gets one setup, whatever became of those before it.
pub proof fn law_every_standby_gets_its_turn(
    s: ClusterInitState,
    reply: Reply,
    t: ClusterInitState,
)
    requires
        s.leads_to(reply, t),
    ensures
        roster(t) == roster(s),
{
    let name = |m: InitStandby| m.standby;
    match s.stage {
        ClusterInitStage::EnsureRole => {
            if reply is Done && s.waiting.len() > 0 {
                assert(seq![s.waiting[0]] + s.waiting.drop_first() =~= s.waiting);
            }
            assert(roster(t) =~= roster(s));
        },
        ClusterInitStage::Standby(m) => {
            let n = m.next(reply);
            if n.ended() {
                assert(s.ended.push(n).map_values(name) =~= s.ended.map_values(name).push(
                    n.standby,
                ));
            }
            assert(roster(t) =~= roster(s));
        },
        _ => {},
    }
}

/// A run that is finished has set up every standby of its roster.
pub proof fn law_finished_run_is_complete(s: ClusterInitState, reply: Reply, t: ClusterInitState)
    requires
        s.leads_to(reply, t),
        s.stage is Bootstrap || s.stage is Seed || s.stage is Finished ==> s.waiting.len() == 0,
    ensures
        t.stage is Bootstrap || t.stage is Seed || t.stage is Finished ==> t.waiting.len() == 0
            && roster(t) == t.ended.map_values(|m: InitStandby| m.standby),
{
    if t.waiting.len() == 0 && !(t.stage is Standby) {
        assert(roster(t) =~= t.ended.map_values(|m: InitStandby| m.standby));
    }
}

/// The selection holds every member but the primary, or the one that was
/// named.
pub proof fn law_selection(members: Seq<NodeConfig>, primary: i32, only: Option<i32>, node: NodeConfig)
    ensures
        selected(members, primary, only).contains(node) <==> members.contains(node) && node.id
            != primary && (only is None || only == Some(node.id)),
{
    lemma_filter_has(
        members,
        |n: NodeConfig|
            n.id != primary && match only {
                Some(id) => n.id == id,
                None => true,
            },
        node,
    );
}

/// A step is taken only once the one before it succeeded. The slot is dropped
/// only where a step after its creation failed, and an error that is told is
/// that of the step that failed.
pub proof fn law_how_each_stage_comes_about(x: InitStandby, r: Reply)
    ensures
        ({
            let t = x.next(r).stage;
            t == x.stage || match t {
                InitStage::CreateSlot => false,
                InitStage::Dial => x.stage is CreateSlot && r is Done,
                InitStage::Stop => x.stage is Dial && r is Done,
                InitStage::Basebackup => x.stage is Stop && r is Done,
                InitStage::Configure => x.stage is Basebackup && r is Done,
                InitStage::Start => x.stage is Configure && r is Done,
                InitStage::Initialised => x.stage is Start && r is Done,
                InitStage::DropSlot(step, e) => r == Reply::Failed(e) && match step {
                    InitStep::CreateSlot => false,
                    InitStep::Dial => x.stage is Dial,
                    InitStep::Stop => x.stage is Stop,
                    InitStep::Basebackup => x.stage is Basebackup,
                    InitStep::Configure => x.stage is Configure,
                    InitStep::Start => x.stage is Start,
                },
                InitStage::QueueCleanup(step, e, why) => x.stage == InitStage::DropSlot(step, e) && r == Reply::Failed(why),
                InitStage::Failed(step, e) => {
                    ||| x.stage == InitStage::DropSlot(step, e) && r is Done
                    ||| x.stage is QueueCleanup && x.stage->QueueCleanup_0 == step
                        && x.stage->QueueCleanup_1 == e && (r is Done || r is Failed)
                    ||| x.stage is CreateSlot && step is CreateSlot && r == Reply::Failed(e)
                },
            }
        }),
{
}

/// An answer to the call that is due moves the setup on, and nothing else does;
/// the standby, the primary and the slot stay.
pub proof fn law_every_reply_counts(x: InitStandby, r: Reply)
    ensures
        ({
            let answers = (r is Done || r is Failed) && !(x.stage is Initialised
                || x.stage is Failed);
            &&& answers ==> x.next(r).stage != x.stage
            &&& !answers ==> x.next(r) == x
            &&& x.next(r) == (InitStandby { stage: x.next(r).stage, ..x })
        }),
{
}

/// A setup that ends well has created the slot, stopped, copied, configured
/// and started the standby, each with success; and the standby is started only
/// once it was configured, configured only once it was copied, and copied only
/// once it was stopped.
pub proof fn law_initialised_standby_had_every_step(m: InitStandby, replies: Seq<Reply>)
    requires
        m.stage == InitStage::CreateSlot,
    ensures
        after(m, replies).stage is Initialised ==> {
            &&& performed(m, replies, |x: InitStandby, r: Reply| x.stage is CreateSlot && r is Done)
            &&& performed(m, replies, |x: InitStandby, r: Reply| x.stage is Stop && r is Done)
            &&& performed(m, replies, |x: InitStandby, r: Reply| x.stage is Basebackup && r is Done)
            &&& performed(m, replies, |x: InitStandby, r: Reply| x.stage is Configure && r is Done)
            &&& performed(m, replies, |x: InitStandby, r: Reply| x.stage is Start && r is Done)
        },
        performed(m, replies, |x: InitStandby, r: Reply| x.stage is Start) ==> performed(
            m,
            replies,
            |x: InitStandby, r: Reply| x.stage is Configure && r is Done,
        ),
        performed(m, replies, |x: InitStandby, r: Reply| x.stage is Configure) ==> performed(
            m,
            replies,
            |x: InitStandby, r: Reply| x.stage is Basebackup && r is Done,
        ),
        performed(m, replies, |x: InitStandby, r: Reply| x.stage is Basebackup) ==> performed(
            m,
            replies,
            |x: InitStandby, r: Reply| x.stage is Stop && r is Done,
        ),
{
    lemma_comes_after(
        m,
        replies,
        |x: InitStandby, r: Reply| x.stage is Start && r is Done,
        |x: InitStandby| x.stage is Initialised,
        |x: InitStandby, r: Reply| false,
    );
    lemma_comes_after(
        m,
        replies,
        |x: InitStandby, r: Reply| x.stage is Configure && r is Done,
        |x: InitStandby| x.stage is Start || x.stage is Initialised,
        |x: InitStandby, r: Reply| x.stage is Start,
    );
    lemma_comes_after(
        m,
        replies,
        |x: InitStandby, r: Reply| x.stage is Basebackup && r is Done,
        |x: InitStandby| x.stage is Configure || x.stage is Start || x.stage is Initialised,
        |x: InitStandby, r: Reply| x.stage is Configure,
    );
    lemma_comes_after(
        m,
        replies,
        |x: InitStandby, r: Reply| x.stage is Stop && r is Done,
        |x: InitStandby|
            x.stage is Basebackup || x.stage is Configure || x.stage is Start
                || x.stage is Initialised,
        |x: InitStandby, r: Reply| x.stage is Basebackup,
    );
    lemma_comes_after(
        m,
        replies,
        |x: InitStandby, r: Reply| x.stage is CreateSlot && r is Done,
        |x: InitStandby|
            x.stage is Dial || x.stage is Stop || x.stage is Basebackup || x.stage is Configure
                || x.stage is Start || x.stage is Initialised,
        |x: InitStandby, r: Reply| false,
    );
}

/// The standby is dialed, stopped, copied, configured and started; the slot is
/// created and dropped here, and no call goes to another node.
pub proof fn law_calls_go_to_the_standby(m: InitStandby)
    ensures
        m.called() is Some ==> m.called() == Some(m.standby),
        m.called() is Some <==> (m.stage is Dial || m.stage is Stop || m.stage is Basebackup
            || m.stage is Configure || m.stage is Start),
{
}

/// What is said of a setup tells the standby, whether it was initialised, and
/// where it was not, the error.
pub proof fn law_results_tell_the_end(m: InitStandby, r: ClusterInitStandbyResult)
    requires
        m.is_result(r),
    ensures
        r.node_id == m.standby.id,
        r.hostname@ == m.standby.hostname@,
        r.ok <==> m.stage is Initialised,
        m.stage is Failed ==> ends_with(r.message@, m.stage->Failed_1@),
        m.stage is Initialised ==> r.message@ == "initialised"@,
{
    if m.stage is Failed {
        let e = m.stage->Failed_1@;
        assert(r.message@.skip(r.message@.len() - e.len()) =~= e);
    }
}

/// The queue is told which step failed.
pub proof fn law_step_names_differ(a: InitStep, b: InitStep)
    requires
        init_step_text(a) == init_step_text(b),
    ensures
        a == b,
{
    reveal_strlit("create_slot");
    reveal_strlit("peer_client");
    reveal_strlit("stop");
    reveal_strlit("basebackup");
    reveal_strlit("configure_standby");
    reveal_strlit("start");
    assert("create_slot"@.len() == 11 && "create_slot"@[0] == 'c');
    assert("peer_client"@.len() == 11 && "peer_client"@[0] == 'p');
    assert("stop"@.len() == 4);
    assert("basebackup"@.len() == 10);
    assert("configure_standby"@.len() == 17);
    assert("start"@.len() == 5);
}

/// Whether `m` is the setup of `node` from the primary with the given
/// hostname, before its first call.
pub open spec fn fresh(m: InitStandby, node: NodeConfig, primary_hostname: Seq<char>) -> bool {
    &&& m.standby == node
    &&& m.primary_hostname@ == primary_hostname
    &&& m.slot@ == slot_text(node.id)
    &&& m.stage is CreateSlot
}

/// The replication role comes first, then the standbys one after the other,
/// whatever became of those before, then the membership where there is a
/// consensus, then the claim to the lease.
pub proof fn law_order_of_the_whole(s: ClusterInitState, r: Reply, t: ClusterInitState)
    requires
        s.leads_to(r, t),
    ensures
        ({
            let over = (s.stage is EnsureRole && r is Done) || (s.stage is Standby
                && s.stage->Standby_0.next(r).ended());
            match t.stage {
                ClusterInitStage::EnsureRole => s.stage is EnsureRole && t == s,
                ClusterInitStage::RoleFailed(e) => t == s || (s.stage is EnsureRole && r
                    == Reply::Failed(e)),
                ClusterInitStage::Standby(m) => {
                    ||| over && s.waiting.len() > 0 && fresh(m, s.waiting[0], s.primary.hostname@)
                        && t.waiting == s.waiting.drop_first()
                    ||| !over && s.stage is Standby && m == s.stage->Standby_0.next(r) && t.waiting
                        == s.waiting
                },
                ClusterInitStage::Bootstrap => t == s || (over && s.raft && s.waiting.len() == 0),
                ClusterInitStage::Seed(formed) => t == s || (s.stage is Bootstrap && r
                    == Reply::Text(formed)),
                ClusterInitStage::Finished(note) => t == s || match note {
                    RaftNote::Absent => over && !s.raft && s.waiting.len() == 0,
                    RaftNote::NotFormed(e) => s.stage is Bootstrap && r == Reply::Failed(e),
                    RaftNote::Decided(formed, outcome) => s.stage == ClusterInitStage::Seed(formed)
                        && r == Reply::Lease(outcome),
                    RaftNote::Unclaimed(formed, e) => s.stage == ClusterInitStage::Seed(formed) && r
                        == Reply::Failed(e),
                },
            }
        }),
{
}

/// An answer to the call that is due moves the run on, and nothing else does;
/// the primary, the role and the consensus stay, and the setups that have
/// ended are kept, with the one that just ended behind them.
pub proof fn law_every_reply_of_the_whole_counts(
    s: ClusterInitState,
    r: Reply,
    t: ClusterInitState,
)
    requires
        s.leads_to(r, t),
    ensures
        t.primary == s.primary,
        t.repl_user == s.repl_user,
        t.raft == s.raft,
        t.ended == if s.stage is Standby && s.stage->Standby_0.next(r).ended() {
            s.ended.push(s.stage->Standby_0.next(r))
        } else {
            s.ended
        },
        match s.stage {
            ClusterInitStage::EnsureRole => (r is Done || r is Failed <==> t.stage != s.stage),
            ClusterInitStage::Bootstrap => (r is Text || r is Failed <==> t.stage != s.stage),
            ClusterInitStage::Seed(_) => (r is Lease || r is Failed <==> t.stage != s.stage),
            ClusterInitStage::RoleFailed(_) | ClusterInitStage::Finished(_) => t == s,
            ClusterInitStage::Standby(_) => true,
        },
        s.stage is EnsureRole && r is Failed ==> t.stage is RoleFailed,
        s.stage is Standby && !(r is Done || r is Failed) && !s.stage->Standby_0.ended() ==> t == s,
{
}

/// Failures add up: one for each setup that was not initialised.
pub proof fn law_failures_add_up(a: Seq<InitStandby>, b: Seq<InitStandby>)
    ensures
        failures(a + b) == failures(a) + failures(b),
        failures(a) <= a.len(),
        failures(a) == 0 <==> forall|i: int|
            0 <= i < a.len() ==> (#[trigger] a[i]).stage is Initialised,
        a.len() == 1 && !(a[0].stage is Initialised) ==> failures(a) == 1,
    decreases a.len(), b.len(),
{
    reveal_with_fuel(failures, 2);
    if b.len() > 0 {
        assert((a + b).drop_last() =~= a + b.drop_last());
        assert((a + b).last() == b.last());
        law_failures_add_up(a, b.drop_last());
    } else {
        assert(a + b =~= a);
        if a.len() > 0 {
            law_failures_add_up(a.drop_last(), Seq::empty());
            let front = a.drop_last();
            if failures(a) == 0 {
                assert forall|i: int| 0 <= i < a.len() implies (
                #[trigger] a[i]).stage is Initialised by {
                    if i < front.len() {
                        assert(front[i] == a[i]);
                    }
                }
            }
            if forall|i: int| 0 <= i < a.len() ==> (#[trigger] a[i]).stage is Initialised {
                assert forall|i: int| 0 <= i < front.len() implies (
                #[trigger] front[i]).stage is Initialised by {
                    assert(a[i] == front[i]);
                }
                assert(a[a.len() - 1].stage is Initialised);
            }
        }
    }
}

/// A cluster is set up only from a primary that is a member: anywhere else the
/// request ends at once, without a refusal only on a node in recovery.
pub proof fn law_only_a_primary_goes_on(pool: NodePool, in_recovery: Result<bool, String>)
    ensures
        match init_refusal(pool, in_recovery) {
            None => in_recovery == Ok::<bool, String>(false) && first_with_id(
                pool.members@,
                pool.local_node_id,
            ) is Some,
            Some(Ok(_)) => in_recovery == Ok::<bool, String>(true),
            Some(Err(message)) => in_recovery is Err && ends_with(message, in_recovery->Err_0@) || (
            in_recovery == Ok::<bool, String>(false) && first_with_id(
                pool.members@,
                pool.local_node_id,
            ) is None),
        },
{
    if let Err(e) = in_recovery {
        let s = "cluster_init: check primary status: "@ + e@;
        assert(s.skip(s.len() - e@.len()) =~= e@);
    }
}

/// The consensus is told of exactly where there is one; what failed is told
/// with its error, and what was formed comes first.
pub proof fn law_what_is_said_of_the_consensus(primary: i32, note: RaftNote)
    ensures
        raft_text(primary, note) is None <==> note is Absent,
        match note {
            RaftNote::Absent => true,
            RaftNote::NotFormed(e) => ends_with(raft_text(primary, note)->0, e@),
            RaftNote::Unclaimed(formed, e) => formed@.is_prefix_of(raft_text(primary, note)->0)
                && ends_with(raft_text(primary, note)->0, e@),
            RaftNote::Decided(formed, outcome) => formed@.is_prefix_of(raft_text(primary, note)->0)
                && ends_with(raft_text(primary, note)->0, seed_text(primary, outcome)),
        },
{
    match note {
        RaftNote::Absent => {},
        RaftNote::NotFormed(e) | RaftNote::Unclaimed(_, e) => {
            let s = raft_text(primary, note)->0;
            assert(s.skip(s.len() - e@.len()) =~= e@);
        },
        RaftNote::Decided(formed, outcome) => {
            let s = raft_text(primary, note)->0;
            let e = seed_text(primary, outcome);
            assert(s.skip(s.len() - e.len()) =~= e);
        },
    }
}

/// A lease that was won is told of this primary, and one that was lost of its
/// holder, where that is known.
pub proof fn law_what_is_said_of_the_lease(primary: i32, outcome: TakeoverOutcome)
    ensures
        match outcome {
            TakeoverOutcome::Won { lease } => holds_text(
                seed_text(primary, outcome),
                "seeded (node "@ + dec(primary as int) + ", term "@ + dec(lease.term as int),
            ),
            TakeoverOutcome::Lost { current } => current is Some ==> holds_text(
                seed_text(primary, outcome),
                "held (node "@ + dec(current->0.holder as int) + ", term "@ + dec(
                    current->0.term as int,
                ),
            ),
        },
{
    reveal_strlit("lease seeded (node ");
    reveal_strlit("seeded (node ");
    reveal_strlit("lease already held (node ");
    reveal_strlit("held (node ");
    let s = seed_text(primary, outcome);
    match outcome {
        TakeoverOutcome::Won { lease } => {
            let t = "seeded (node "@ + dec(primary as int) + ", term "@ + dec(lease.term as int);
            assert(s.subrange(6, 6int + t.len()) =~= t);
            assert(stands_at(s, t, 6));
        },
        TakeoverOutcome::Lost { current } => {
            if let Some(l) = current {
                let t = "held (node "@ + dec(l.holder as int) + ", term "@ + dec(l.term as int);
                assert(s.subrange(14, 14int + t.len()) =~= t);
                assert(stands_at(s, t, 14));
            }
        },
    }
}

/// A run told of its standbys says how many there are, and where some failed,
/// how many did.
pub proof fn law_what_is_said_of_the_standbys(repl_user: Seq<char>, ended: Seq<InitStandby>)
    ensures
        ended.len() == 0 ==> holds_text(standbys_text(repl_user, ended), repl_user),
        ended.len() > 0 ==> holds_text(standbys_text(repl_user, ended), dec(ended.len() as int)),
        ended.len() > 0 && failures(ended) > 0 ==> holds_text(
            standbys_text(repl_user, ended),
            dec(failures(ended) as int) + " of "@ + dec(ended.len() as int),
        ),
{
    let s = standbys_text(repl_user, ended);
    let n = dec(ended.len() as int);
    if ended.len() == 0 {
        let k = "cluster_init: replication role "@.len() as int;
        assert(s.subrange(k, k + repl_user.len()) =~= repl_user);
        assert(stands_at(s, repl_user, k));
    } else if failures(ended) == 0 {
        let k = "cluster_init complete: "@.len() as int;
        assert(s.subrange(k, k + n.len()) =~= n);
        assert(stands_at(s, n, k));
    } else {
        let t = dec(failures(ended) as int) + " of "@ + n;
        let k = "cluster_init: "@.len() as int;
        assert(s.subrange(k, k + t.len()) =~= t);
        assert(stands_at(s, t, k));
        let j = k + t.len() - n.len();
        assert(s.subrange(j, j + n.len()) =~= n);
        assert(stands_at(s, n, j));
    }
}

/// One member more: it joins the others at the end, where it is selected.
pub proof fn law_selection_keeps_the_order(
    members: Seq<NodeConfig>,
    node: NodeConfig,
    primary: i32,
    only: Option<i32>,
)
    ensures
        selected(members.push(node), primary, only) == if node.id != primary && (only is None
            || only == Some(node.id)) {
            selected(members, primary, only).push(node)
        } else {
            selected(members, primary, only)
        },
        selected(Seq::<NodeConfig>::empty(), primary, only).len() == 0,
{
    reveal(Seq::filter);
    assert(members.push(node).drop_last() =~= members);
}

/// A setup has ended exactly where it failed or the standby was initialised.
pub proof fn law_when_a_setup_has_ended(m: InitStandby)
    ensures
        m.ended() <==> m.stage is Failed || m.stage is Initialised,
{
}

/// A setup that ends, well or not, leads on to the next standby.
pub proof fn law_one_failure_does_not_stop_the_others(
    s: ClusterInitState,
    r: Reply,
    t: ClusterInitState,
)
    requires
        s.leads_to(r, t),
        s.stage is Standby,
        s.stage->Standby_0.next(r).stage is Failed || s.stage->Standby_0.next(r).stage
            is Initialised,
        s.waiting.len() > 0,
    ensures
        t.stage is Standby,
        t.stage->Standby_0.standby == s.waiting[0],
        t.stage->Standby_0.stage is CreateSlot,
        t.ended.last() == s.stage->Standby_0.next(r),
{
}

} // verus!
