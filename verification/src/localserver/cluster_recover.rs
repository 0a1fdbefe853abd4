//! `cluster recover`: the operator has a standby rebuilt from the primary,
//! which is the node this runs on, and brought back.
use crate::config::{
    first_with_id, lemma_first_with_id, resolved, resolved_local, unknown_id, NodeConfig, NodePool,
    NodeRef,
};
use crate::localserver::recovery::RecoveryRequest;
use crate::orchestration::{
    after, lemma_comes_after, performed, Machine, NodeStatus, Reply, Turn,
};
use crate::status::{
    answer, bad_argument, broken, decline, no, refuse, succeed, yes, Answer, Code, OpResult, Status,
};
use crate::text::{dec, ends_with, holds_text, int_text, stands_at, text2, text3, text4};
use vstd::prelude::*;

verus! {

/// The operator's request.
pub struct ClusterRecoverRequest {
    pub target_node_id: i32,
    /// Stop PostgreSQL on the target first.
    pub stop_target_pg: bool,
}

/// A step that can fail for good.
#[derive(Clone, Copy, Debug, PartialEq, Eq, Structural)]
pub enum RecoverStep {
    Dial,
    GetStatus,
    Stop,
}

/// The call that is due, or how it ended.
pub enum RecoverStage {
    /// Dial the target.
    Dial,
    /// Ask the target for its state.
    GetStatus,
    /// Stop PostgreSQL on the target.
    Stop,
    /// Rebuild the target.
    Recover,
    /// Start PostgreSQL on the target.
    StartPostgres,
    /// Start pgpool on the target.
    StartPgpool,
    /// Attach the target in pgpool.
    Attach,
    /// PostgreSQL runs on the target, and the operator did not ask to stop it.
    TargetRunning,
    /// The rebuild ended with this answer.
    NotRebuilt(Result<OpResult, Status>),
    /// A step failed with this error.
    Failed(RecoverStep, String),
    /// All done.
    Finished,
}

/// A standby that is rebuilt and brought back.
pub struct ClusterRecover {
    pub primary: NodeConfig,
    pub standby: NodeConfig,
    pub stop_target_pg: bool,
    /// Why PostgreSQL could not be started on the target.
    pub start_error: Option<String>,
    /// Why pgpool could not be started on the target.
    pub pgpool_error: Option<String>,
    /// Why the target could not be attached.
    pub attach_error: Option<String>,
    pub stage: RecoverStage,
}

/// What the check of the local role, or the choice of the target, leads to.
pub open spec fn recover_answer_to(
    req: ClusterRecoverRequest,
    pool: NodePool,
    in_recovery: Result<bool, String>,
) -> Option<Answer> {
    match in_recovery {
        Err(e) => Some(broken("cluster_recover: check primary status: "@ + e@)),
        Ok(true) => Some(
            no(
                "cluster_recover: local node is not the primary (in recovery); run this on the current primary"@,
            ),
        ),
        Ok(false) => match (
            first_with_id(pool.members@, pool.local_node_id),
            first_with_id(pool.members@, req.target_node_id),
        ) {
            (None, _) => Some(
                broken("cluster_recover: resolve local node: "@ + unknown_id(pool.local_node_id)),
            ),
            (_, None) => Some(
                bad_argument(
                    "cluster_recover: target node "@ + dec(req.target_node_id as int) + ": "@
                        + unknown_id(req.target_node_id),
                ),
            ),
            (_, Some(target)) => if target.id == pool.local_node_id {
                Some(
                    bad_argument(
                        "cluster_recover: target is the local node — reclone target must be a peer"@,
                    ),
                )
            } else {
                None
            },
        },
    }
}

/// The stage after the target reported its state.
pub open spec fn recover_status(status: NodeStatus, stop_target_pg: bool) -> RecoverStage {
    if !status.is_postgres_running {
        RecoverStage::Recover
    } else if stop_target_pg {
        RecoverStage::Stop
    } else {
        RecoverStage::TargetRunning
    }
}

impl Machine for ClusterRecover {
    open spec fn next(self, reply: Reply) -> Self {
        match (self.stage, reply) {
            (RecoverStage::Dial, Reply::Done) => ClusterRecover {
                stage: RecoverStage::GetStatus,
                ..self
            },
            (RecoverStage::Dial, Reply::Failed(e)) => ClusterRecover {
                stage: RecoverStage::Failed(RecoverStep::Dial, e),
                ..self
            },
            (RecoverStage::GetStatus, Reply::Status(status)) => ClusterRecover {
                stage: recover_status(status, self.stop_target_pg),
                ..self
            },
            (RecoverStage::GetStatus, Reply::Failed(e)) => ClusterRecover {
                stage: RecoverStage::Failed(RecoverStep::GetStatus, e),
                ..self
            },
            (RecoverStage::Stop, Reply::Done) => ClusterRecover {
                stage: RecoverStage::Recover,
                ..self
            },
            (RecoverStage::Stop, Reply::Failed(e)) => ClusterRecover {
                stage: RecoverStage::Failed(RecoverStep::Stop, e),
                ..self
            },
            (RecoverStage::Recover, Reply::Outcome(r)) => ClusterRecover {
                stage: if r is Ok && r->Ok_0.ok {
                    RecoverStage::StartPostgres
                } else {
                    RecoverStage::NotRebuilt(r)
                },
                ..self
            },
            (RecoverStage::StartPostgres, Reply::Done) => ClusterRecover {
                stage: RecoverStage::StartPgpool,
                ..self
            },
            (RecoverStage::StartPostgres, Reply::Failed(e)) => ClusterRecover {
                stage: RecoverStage::StartPgpool,
                start_error: Some(e),
                ..self
            },
            (RecoverStage::StartPgpool, Reply::Done) => ClusterRecover {
                stage: RecoverStage::Attach,
                ..self
            },
            (RecoverStage::StartPgpool, Reply::Failed(e)) => ClusterRecover {
                stage: RecoverStage::Attach,
                pgpool_error: Some(e),
                ..self
            },
            (RecoverStage::Attach, Reply::Done) => ClusterRecover {
                stage: RecoverStage::Finished,
                ..self
            },
            (RecoverStage::Attach, Reply::Failed(e)) => ClusterRecover {
                stage: RecoverStage::Finished,
                attach_error: Some(e),
                ..self
            },
            _ => self,
        }
    }
}

impl ClusterRecover {
    /// Goes on with what the check of the local role gave.
    pub fn after_role_check(
        req: ClusterRecoverRequest,
        pool: &NodePool,
        in_recovery: Result<bool, String>,
    ) -> (r: Turn<ClusterRecover>)
        ensures
            match (r, recover_answer_to(req, *pool, in_recovery)) {
                (Turn::Answer(a), Some(want)) => answer(a) == want,
                (Turn::Ask(m), None) => {
                    &&& first_with_id(pool.members@, pool.local_node_id) == Some(m.primary)
                    &&& first_with_id(pool.members@, req.target_node_id) == Some(m.standby)
                    &&& m.stop_target_pg == req.stop_target_pg
                    &&& m.start_error is None
                    &&& m.pgpool_error is None
                    &&& m.attach_error is None
                    &&& m.stage == RecoverStage::Dial
                },
                _ => false,
            },
    {
        match in_recovery {
            Err(e) => {
                return Turn::Answer(
                    refuse(
                        Code::Internal,
                        text2("cluster_recover: check primary status: ", e.as_str()),
                    ),
                );
            },
            Ok(true) => {
                return Turn::Answer(
                    decline(
                        "cluster_recover: local node is not the primary (in recovery); run this on the current primary".to_owned(),
                    ),
                );
            },
            Ok(false) => {},
        }
        let primary = match pool.local_node() {
            Ok(n) => n.clone(),
            Err(e) => {
                return Turn::Answer(
                    refuse(
                        Code::Internal,
                        text2("cluster_recover: resolve local node: ", e.as_str()),
                    ),
                );
            },
        };
        let standby = match pool.node_by_id(req.target_node_id) {
            Ok(n) => n.clone(),
            Err(e) => {
                return Turn::Answer(
                    refuse(
                        Code::InvalidArgument,
                        text4(
                            "cluster_recover: target node ",
                            int_text(req.target_node_id as i64).as_str(),
                            ": ",
                            e.as_str(),
                        ),
                    ),
                );
            },
        };
        if pool.is_local(&standby) {
            return Turn::Answer(
                refuse(
                    Code::InvalidArgument,
                    "cluster_recover: target is the local node — reclone target must be a peer".to_owned(),
                ),
            );
        }
        Turn::Ask(
            ClusterRecover {
                primary,
                standby,
                stop_target_pg: req.stop_target_pg,
                start_error: None,
                pgpool_error: None,
                attach_error: None,
                stage: RecoverStage::Dial,
            },
        )
    }

    /// The node that the call that is due goes to; none, where it is made here
    /// or no call is due.
    pub open spec fn called(self) -> Option<NodeConfig> {
        match self.stage {
            RecoverStage::Dial | RecoverStage::GetStatus | RecoverStage::Stop | RecoverStage::StartPostgres | RecoverStage::StartPgpool => Some(self.standby),
            _ => None,
        }
    }

    /// The node that the call that is due goes to; none, where it is made here
    /// or no call is due.
    pub fn callee(&self) -> (r: Option<&NodeConfig>)
        ensures
            match (r, self.called()) {
                (Some(n), Some(want)) => *n == want,
                (None, None) => true,
                _ => false,
            },
            r is Some <==> (self.stage is Dial || self.stage is GetStatus || self.stage is Stop
                || self.stage is StartPostgres || self.stage is StartPgpool),
            self.stage is Dial || self.stage is GetStatus || self.stage is Stop
                || self.stage is StartPostgres || self.stage is StartPgpool ==> r is Some
                && *r->0 == self.standby,
    {
        match &self.stage {
            RecoverStage::Dial => Some(&self.standby),
            RecoverStage::GetStatus => Some(&self.standby),
            RecoverStage::Stop => Some(&self.standby),
            RecoverStage::StartPostgres => Some(&self.standby),
            RecoverStage::StartPgpool => Some(&self.standby),
            _ => None,
        }
    }

    /// The backend to attach in pgpool here, where that is due.
    pub fn backend(&self) -> (r: Option<i32>)
        ensures
            r == if self.stage is Attach {
                Some(self.standby.id)
            } else {
                None
            },
    {
        match &self.stage {
            RecoverStage::Attach => Some(self.standby.id),
            _ => None,
        }
    }

    /// Takes the reply to the call that was due.
    pub fn step(self, reply: Reply) -> (r: Self)
        ensures
            r == self.next(reply),
    {
        let stop_target_pg = self.stop_target_pg;
        let mut start_error = self.start_error;
        let mut pgpool_error = self.pgpool_error;
        let mut attach_error = self.attach_error;
        let stage = match (self.stage, reply) {
            (RecoverStage::Dial, Reply::Done) => RecoverStage::GetStatus,
            (RecoverStage::Dial, Reply::Failed(e)) => RecoverStage::Failed(RecoverStep::Dial, e),
            (RecoverStage::GetStatus, Reply::Status(status)) => {
                if !status.is_postgres_running {
                    RecoverStage::Recover
                } else if stop_target_pg {
                    RecoverStage::Stop
                } else {
                    RecoverStage::TargetRunning
                }
            },
            (RecoverStage::GetStatus, Reply::Failed(e)) => RecoverStage::Failed(
                RecoverStep::GetStatus,
                e,
            ),
            (RecoverStage::Stop, Reply::Done) => RecoverStage::Recover,
            (RecoverStage::Stop, Reply::Failed(e)) => RecoverStage::Failed(RecoverStep::Stop, e),
            (RecoverStage::Recover, Reply::Outcome(r)) => {
                let rebuilt = match &r {
                    Ok(o) => o.ok,
                    Err(_) => false,
                };
                if rebuilt {
                    RecoverStage::StartPostgres
                } else {
                    RecoverStage::NotRebuilt(r)
                }
            },
            (RecoverStage::StartPostgres, Reply::Done) => RecoverStage::StartPgpool,
            (RecoverStage::StartPostgres, Reply::Failed(e)) => {
                start_error = Some(e);
                RecoverStage::StartPgpool
            },
            (RecoverStage::StartPgpool, Reply::Done) => RecoverStage::Attach,
            (RecoverStage::StartPgpool, Reply::Failed(e)) => {
                pgpool_error = Some(e);
                RecoverStage::Attach
            },
            (RecoverStage::Attach, Reply::Done) => RecoverStage::Finished,
            (RecoverStage::Attach, Reply::Failed(e)) => {
                attach_error = Some(e);
                RecoverStage::Finished
            },
            (s, _) => s,
        };
        ClusterRecover {
            primary: self.primary,
            standby: self.standby,
            stop_target_pg,
            start_error,
            pgpool_error,
            attach_error,
            stage,
        }
    }

    /// Whether `req` asks for the rebuild that is due.
    pub open spec fn asks_for_rebuild(self, req: RecoveryRequest) -> bool {
        &&& req.primary is Some
        &&& req.primary->0.id == self.primary.id
        &&& req.primary->0.hostname@ == self.primary.hostname@
        &&& req.primary->0.pg_port == 0
        &&& req.primary->0.pg_data@.len() == 0
        &&& req.standby is Some
        &&& req.standby->0.id == self.standby.id
        &&& req.standby->0.hostname@ == self.standby.hostname@
        &&& req.standby->0.pg_port == 0
        &&& req.standby->0.pg_data@.len() == 0
        &&& req.bypass_replay_marker
    }

    /// The request for the rebuild. It runs whatever ran before.
    pub fn recovery_request(&self) -> (r: RecoveryRequest)
        ensures
            self.asks_for_rebuild(r),
    {
        RecoveryRequest {
            primary: Some(
                NodeRef {
                    id: self.primary.id,
                    hostname: self.primary.hostname.clone(),
                    pg_port: 0,
                    pg_data: String::new(),
                },
            ),
            standby: Some(
                NodeRef {
                    id: self.standby.id,
                    hostname: self.standby.hostname.clone(),
                    pg_port: 0,
                    pg_data: String::new(),
                },
            ),
            bypass_replay_marker: true,
        }
    }

    /// What is said of a step that failed.
    pub open spec fn failure_text(self, step: RecoverStep, e: Seq<char>) -> Seq<char> {
        match step {
            RecoverStep::Dial => "cluster_recover: dial peer "@ + self.standby.hostname@ + ": "@ + e,
            RecoverStep::GetStatus => "cluster_recover: peer get_status "@ + self.standby.hostname@
                + ": "@ + e,
            RecoverStep::Stop => "cluster_recover: stop postgres on "@ + self.standby.hostname@
                + ": "@ + e,
        }
    }

    /// What is said when all is done: what became of each of the last steps.
    pub open spec fn success_text(self) -> Seq<char> {
        "recovery complete for "@ + self.standby.hostname@ + "; "@ + match self.start_error {
            None => "postgres started"@,
            Some(e) => "postgres start failed: "@ + e@,
        } + "; "@ + match self.pgpool_error {
            None => "pgpool started"@,
            Some(e) => "pgpool start failed: "@ + e@,
        } + "; "@ + match self.attach_error {
            None => "attached node "@ + dec(self.standby.id as int) + " in pgpool"@,
            Some(e) => "pgpool attach failed: "@ + e@,
        }
    }

    /// The answer, once there is one.
    pub open spec fn outcome(self) -> Option<Answer> {
        match self.stage {
            RecoverStage::TargetRunning => Some(
                no(
                    "cluster_recover: postgres is running on target "@ + self.standby.hostname@
                        + "; rerun with --stop-target-pg to stop it before reclone, or stop it manually on that host first"@,
                ),
            ),
            RecoverStage::NotRebuilt(r) => Some(answer(r)),
            RecoverStage::Failed(step, e) => Some(broken(self.failure_text(step, e@))),
            RecoverStage::Finished => Some(yes(self.success_text())),
            _ => None,
        }
    }

    fn success(&self) -> (r: String)
        ensures
            r@ == self.success_text(),
    {
        let mut s = text3("recovery complete for ", self.standby.hostname.as_str(), "; ");
        let started = match &self.start_error {
            None => "postgres started".to_owned(),
            Some(e) => text2("postgres start failed: ", e.as_str()),
        };
        s.append(started.as_str());
        s.append("; ");
        let pgpool = match &self.pgpool_error {
            None => "pgpool started".to_owned(),
            Some(e) => text2("pgpool start failed: ", e.as_str()),
        };
        s.append(pgpool.as_str());
        s.append("; ");
        let attached = match &self.attach_error {
            None => text3(
                "attached node ",
                int_text(self.standby.id as i64).as_str(),
                " in pgpool",
            ),
            Some(e) => text2("pgpool attach failed: ", e.as_str()),
        };
        s.append(attached.as_str());
        s
    }

    /// The answer, once there is one.
    pub fn answer(self) -> (r: Option<Result<OpResult, Status>>)
        ensures
            match (r, self.outcome()) {
                (Some(a), Some(want)) => answer(a) == want,
                (None, None) => true,
                _ => false,
            },
    {
        match &self.stage {
            RecoverStage::TargetRunning => {
                return Some(
                    decline(
                        text3(
                            "cluster_recover: postgres is running on target ",
                            self.standby.hostname.as_str(),
                            "; rerun with --stop-target-pg to stop it before reclone, or stop it manually on that host first",
                        ),
                    ),
                );
            },
            RecoverStage::Failed(step, e) => {
                let host = self.standby.hostname.as_str();
                let s = match step {
                    RecoverStep::Dial => text4(
                        "cluster_recover: dial peer ",
                        host,
                        ": ",
                        e.as_str(),
                    ),
                    RecoverStep::GetStatus => text4(
                        "cluster_recover: peer get_status ",
                        host,
                        ": ",
                        e.as_str(),
                    ),
                    RecoverStep::Stop => text4(
                        "cluster_recover: stop postgres on ",
                        host,
                        ": ",
                        e.as_str(),
                    ),
                };
                return Some(refuse(Code::Internal, s));
            },
            RecoverStage::Finished => {
                return Some(succeed(self.success()));
            },
            _ => {},
        }
        match self.stage {
            RecoverStage::NotRebuilt(r) => Some(r),
            _ => None,
        }
    }
}

/// The rebuild is asked for only once PostgreSQL was seen not to run on the
/// target, or was stopped there at the operator's request.
pub proof fn law_rebuild_needs_a_stopped_target(m: ClusterRecover, replies: Seq<Reply>)
    requires
        m.stage == RecoverStage::Dial,
        performed(m, replies, |x: ClusterRecover, r: Reply| x.stage is Recover),
    ensures
        performed(
            m,
            replies,
            |x: ClusterRecover, r: Reply|
                (x.stage is GetStatus && r is Status && !r->Status_0.is_postgres_running) || (
                x.stage is Stop && r is Done && x.stop_target_pg),
        ),
{
    lemma_comes_after(
        m,
        replies,
        |x: ClusterRecover, r: Reply|
            (x.stage is GetStatus && r is Status && !r->Status_0.is_postgres_running) || (
            x.stage is Stop && r is Done && x.stop_target_pg),
        |x: ClusterRecover|
            x.stage is Recover || (x.stage is Stop && !x.stop_target_pg),
        |x: ClusterRecover, r: Reply| x.stage is Recover,
    );
}

/// The request for the rebuild names the very nodes that were chosen.
pub proof fn law_rebuild_request_resolves(m: ClusterRecover, pool: NodePool, req: RecoveryRequest)
    requires
        first_with_id(pool.members@, pool.local_node_id) == Some(m.primary),
        first_with_id(pool.members@, m.standby.id) == Some(m.standby),
        m.asks_for_rebuild(req),
    ensures
        resolved_local(pool, req.primary->0) == Ok::<NodeConfig, Seq<char>>(m.primary),
        resolved(pool.members@, req.standby->0) == Ok::<NodeConfig, Seq<char>>(m.standby),
{
    lemma_first_with_id(pool.members@, pool.local_node_id);
}

/// The target is stopped only where PostgreSQL was seen running there and the
/// operator asked for it, and rebuilt only once it does not run, whatever else
/// it reported. It is brought back only after a rebuild that succeeded; what
/// fails then holds nothing up. An error that is told is that of the step that
/// failed.
pub proof fn law_how_each_stage_comes_about(x: ClusterRecover, r: Reply)
    ensures
        ({
            let t = x.next(r).stage;
            t == x.stage || match t {
                RecoverStage::Dial => false,
                RecoverStage::GetStatus => x.stage is Dial && r is Done,
                RecoverStage::Stop => x.stage is GetStatus && r is Status
                    && r->Status_0.is_postgres_running
                    && x.stop_target_pg,
                RecoverStage::TargetRunning => x.stage is GetStatus && r is Status
                    && r->Status_0.is_postgres_running && !x.stop_target_pg,
                RecoverStage::Recover => {
                    ||| x.stage is GetStatus && r is Status && !r->Status_0.is_postgres_running
                    ||| x.stage is Stop && r is Done
                },
                RecoverStage::StartPostgres => x.stage is Recover && r is Outcome
                    && r->Outcome_0 is Ok && r->Outcome_0->Ok_0.ok,
                RecoverStage::StartPgpool => x.stage is StartPostgres && (r is Done || r is Failed),
                RecoverStage::Attach => x.stage is StartPgpool && (r is Done || r is Failed),
                RecoverStage::Finished => x.stage is Attach && (r is Done || r is Failed),
                RecoverStage::NotRebuilt(a) => x.stage is Recover && r == Reply::Outcome(a)
                    && !(a is Ok
                    && a->Ok_0.ok),
                RecoverStage::Failed(step, e) => r == Reply::Failed(e) && match step {
                    RecoverStep::Dial => x.stage is Dial,
                    RecoverStep::GetStatus => x.stage is GetStatus,
                    RecoverStep::Stop => x.stage is Stop,
                },
            }
        }),
{
}

/// An answer to the call that is due moves the run on, and nothing else does;
/// the nodes and the wish to stop stay, and the errors of the last steps are
/// kept apart.
pub proof fn law_every_reply_counts(x: ClusterRecover, r: Reply)
    ensures
        ({
            let answers = match x.stage {
                RecoverStage::GetStatus => r is Status || r is Failed,
                RecoverStage::Recover => r is Outcome,
                RecoverStage::TargetRunning | RecoverStage::NotRebuilt(_)
                | RecoverStage::Failed(..) | RecoverStage::Finished => false,
                _ => r is Done || r is Failed,
            };
            &&& answers ==> x.next(r).stage != x.stage
            &&& !answers ==> x.next(r) == x
            &&& x.next(r) == (ClusterRecover {
                stage: x.next(r).stage,
                start_error: if x.stage is StartPostgres && r is Failed {
                    Some(r->Failed_0)
                } else {
                    x.start_error
                },
                pgpool_error: if x.stage is StartPgpool && r is Failed {
                    Some(r->Failed_0)
                } else {
                    x.pgpool_error
                },
                attach_error: if x.stage is Attach && r is Failed {
                    Some(r->Failed_0)
                } else {
                    x.attach_error
                },
                ..x
            })
        }),
{
}

/// A run that finishes was told of a rebuild that succeeded, and has tried to
/// start PostgreSQL and pgpool on the target and to attach it, in this order.
pub proof fn law_finished_run_did_every_step(m: ClusterRecover, replies: Seq<Reply>)
    requires
        m.stage is Dial,
    ensures
        performed(m, replies, |x: ClusterRecover, r: Reply| x.stage is StartPostgres)
            ==> performed(
            m,
            replies,
            |x: ClusterRecover, r: Reply|
                x.stage is Recover && r is Outcome && r->Outcome_0 is Ok && r->Outcome_0->Ok_0.ok,
        ),
        performed(m, replies, |x: ClusterRecover, r: Reply| x.stage is StartPgpool) ==> performed(
            m,
            replies,
            |x: ClusterRecover, r: Reply| x.stage is StartPostgres,
        ),
        performed(m, replies, |x: ClusterRecover, r: Reply| x.stage is Attach) ==> performed(
            m,
            replies,
            |x: ClusterRecover, r: Reply| x.stage is StartPgpool,
        ),
        after(m, replies).stage is Finished ==> performed(
            m,
            replies,
            |x: ClusterRecover, r: Reply| x.stage is Attach,
        ),
{
    lemma_comes_after(
        m,
        replies,
        |x: ClusterRecover, r: Reply|
            x.stage is Recover && r is Outcome && r->Outcome_0 is Ok && r->Outcome_0->Ok_0.ok,
        |x: ClusterRecover| x.stage is StartPostgres,
        |x: ClusterRecover, r: Reply| x.stage is StartPostgres,
    );
    lemma_comes_after(
        m,
        replies,
        |x: ClusterRecover, r: Reply| x.stage is StartPostgres,
        |x: ClusterRecover| x.stage is StartPgpool,
        |x: ClusterRecover, r: Reply| x.stage is StartPgpool,
    );
    lemma_comes_after(
        m,
        replies,
        |x: ClusterRecover, r: Reply| x.stage is StartPgpool,
        |x: ClusterRecover| x.stage is Attach,
        |x: ClusterRecover, r: Reply| x.stage is Attach,
    );
    lemma_comes_after(
        m,
        replies,
        |x: ClusterRecover, r: Reply| x.stage is Attach,
        |x: ClusterRecover| x.stage is Finished,
        |x: ClusterRecover, r: Reply| false,
    );
}

/// Every call goes to the target.
pub proof fn law_calls_go_to_the_target(x: ClusterRecover)
    ensures
        x.called() == if x.stage is Dial || x.stage is GetStatus || x.stage is Stop
            || x.stage is StartPostgres || x.stage is StartPgpool {
            Some(x.standby)
        } else {
            None
        },
{
}

/// The answer is positive exactly where the run finished, and then ends with
/// the last error, where there is one; negative where the target runs and may
/// not be stopped; that of the rebuild where that did not succeed; otherwise a
/// refusal that ends with the error.
pub proof fn law_answers_tell_the_end(x: ClusterRecover)
    ensures
        match x.stage {
            RecoverStage::Finished => x.outcome() is Some && x.outcome()->0 is Result
                && x.outcome()->0->ok && (x.attach_error is Some ==> ends_with(
                x.success_text(),
                x.attach_error->0@,
            )) && x.outcome() == Some(yes(x.success_text())),
            RecoverStage::TargetRunning => x.outcome() is Some && x.outcome()->0 is Result
                && !x.outcome()->0->ok,
            RecoverStage::NotRebuilt(a) => x.outcome() == Some(answer(a)),
            RecoverStage::Failed(step, e) => x.outcome() is Some && x.outcome()->0 is Refusal
                && x.outcome()->0->code == Code::Internal && ends_with(
                x.failure_text(step, e@),
                e@,
            ) && x.outcome() == Some(broken(x.failure_text(step, e@))),
            _ => x.outcome() is None,
        },
{
    if let RecoverStage::Failed(step, e) = x.stage {
        let s = x.failure_text(step, e@);
        assert(s.skip(s.len() - e@.len()) =~= e@);
    }
    if let Some(e) = x.attach_error {
        let s = x.success_text();
        assert(s.skip(s.len() - e@.len()) =~= e@);
    }
}

/// What is said at the end tells every error of the last steps.
pub proof fn law_every_late_error_is_told(x: ClusterRecover)
    ensures
        holds_text(x.success_text(), x.standby.hostname@),
        x.start_error is Some ==> holds_text(x.success_text(), x.start_error->0@),
        x.pgpool_error is Some ==> holds_text(x.success_text(), x.pgpool_error->0@),
        x.attach_error is Some ==> holds_text(x.success_text(), x.attach_error->0@),
{
    let s = x.success_text();
    let h = x.standby.hostname@;
    let n = "recovery complete for "@.len() as int;
    assert(s.subrange(n, n + h.len()) =~= h);
    assert(stands_at(s, h, n));
    let a = match x.start_error {
        None => "postgres started"@,
        Some(e) => "postgres start failed: "@ + e@,
    };
    let b = match x.pgpool_error {
        None => "pgpool started"@,
        Some(e) => "pgpool start failed: "@ + e@,
    };
    let c = match x.attach_error {
        None => "attached node "@ + dec(x.standby.id as int) + " in pgpool"@,
        Some(e) => "pgpool attach failed: "@ + e@,
    };
    let i = n + h.len() + "; "@.len();
    let j = i + a.len() + "; "@.len();
    let k = j + b.len() + "; "@.len();
    if let Some(e) = x.start_error {
        let at = i + "postgres start failed: "@.len();
        assert(s.subrange(at, at + e@.len()) =~= e@);
        assert(stands_at(s, e@, at));
    }
    if let Some(e) = x.pgpool_error {
        let at = j + "pgpool start failed: "@.len();
        assert(s.subrange(at, at + e@.len()) =~= e@);
        assert(stands_at(s, e@, at));
    }
    if let Some(e) = x.attach_error {
        let at = k + "pgpool attach failed: "@.len();
        assert(s.subrange(at, at + e@.len()) =~= e@);
        assert(stands_at(s, e@, at));
    }
}

/// A request goes on exactly where the local node is a primary and a member,
/// and the target is another member. On a standby it is declined; a target
/// that is unknown or local is a bad argument.
pub proof fn law_requests_that_go_on(
    req: ClusterRecoverRequest,
    pool: NodePool,
    in_recovery: Result<bool, String>,
)
    ensures
        ({
            let a = recover_answer_to(req, pool, in_recovery);
            let local = first_with_id(pool.members@, pool.local_node_id);
            let target = first_with_id(pool.members@, req.target_node_id);
            &&& a is None <==> in_recovery == Ok::<bool, String>(false) && local is Some
                && target is Some
                && req.target_node_id != pool.local_node_id
            &&& in_recovery == Ok::<bool, String>(true) ==> a->0 is Result && !a->0->ok
            &&& in_recovery is Err ==> a->0 is Refusal && a->0->code == Code::Internal && ends_with(
                a->0->Refusal_message,
                in_recovery->Err_0@,
            )
            &&& in_recovery == Ok::<bool, String>(false) && local is Some && a is Some
                ==> a->0 is Refusal && a->0->code == Code::InvalidArgument
        }),
{
    lemma_first_with_id(pool.members@, req.target_node_id);
    if let Err(e) = in_recovery {
        let s = "cluster_recover: check primary status: "@ + e@;
        assert(s.skip(s.len() - e@.len()) =~= e@);
    }
}

/// The rebuild that is asked for is of the target, from the local node, by
/// their own names, and runs whatever ran before.
pub proof fn law_rebuild_request_is_forced(m: ClusterRecover, req: RecoveryRequest)
    requires
        m.asks_for_rebuild(req),
    ensures
        req.bypass_replay_marker,
        req.standby is Some && req.standby->0.id == m.standby.id && req.standby->0.hostname@
            == m.standby.hostname@,
        req.primary is Some && req.primary->0.id == m.primary.id && req.primary->0.hostname@
            == m.primary.hostname@,
        req.standby->0.pg_port == 0 && req.primary->0.pg_port == 0,
        req.standby->0.pg_data@.len() == 0 && req.primary->0.pg_data@.len() == 0,
{
}

} // verus!
