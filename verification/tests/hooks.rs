use pg_agent_core::config::{NodeConfig, NodePool, NodeRef, PostgresRuntime};
use pg_agent_core::inflight_ops::{
    owner_of_slot, slot_claim, InflightOp, InflightPayload, InflightStatus, SlotClaim,
    CROSS_OP_GRACE,
};
use pg_agent_core::localserver::failover::{
    Failover, FailoverHook, FailoverRequest, FailoverStage,
};
use pg_agent_core::localserver::follow_primary::{
    FollowPrimary, FollowPrimaryHook, FollowPrimaryRequest, FollowStage,
};
use pg_agent_core::localserver::recovery::{
    Recovery, RecoveryHook, RecoveryRequest, RecoveryStage,
};
use pg_agent_core::localserver::requests::{
    escalation, RemoteStart, RemoteStartRequest, RemoteStartStage,
};
use pg_agent_core::maintenance::MaintenancePayload;
use pg_agent_core::orchestration::{NodeStatus, Reply, Turn};
use pg_agent_core::preconditions::{
    validate_cluster_preconditions, ClusterIntent, PreconditionOutcome, Probe,
};
use pg_agent_core::status::{Code, OpResult, Status};
use pg_agent_core::time::Timestamp;

fn pool() -> NodePool {
    NodePool {
        members: vec![
            NodeConfig { id: 0, hostname: "local".to_string() },
            NodeConfig { id: 1, hostname: "peer1.local".to_string() },
            NodeConfig { id: 2, hostname: "peer2.local".to_string() },
        ],
        local_node_id: 0,
    }
}

fn pg() -> PostgresRuntime {
    PostgresRuntime { port: 5432, data_dir: "/d".to_string(), repl_user: "repl".to_string() }
}

fn hostname(id: i32) -> String {
    match id {
        0 => "local".to_string(),
        1 => "peer1.local".to_string(),
        2 => "peer2.local".to_string(),
        _ => String::new(),
    }
}

fn node_ref(id: i32) -> NodeRef {
    NodeRef { id, hostname: hostname(id), pg_port: 0, pg_data: String::new() }
}

fn failover_req(detached: i32, new_main: i32, old_primary: i32) -> FailoverRequest {
    FailoverRequest {
        detached: Some(node_ref(detached)),
        new_main: Some(node_ref(new_main)),
        old_primary: Some(node_ref(old_primary)),
    }
}

fn answered<M>(turn: Turn<M>) -> Result<OpResult, Status> {
    match turn {
        Turn::Answer(a) => a,
        Turn::Ask(_) => panic!("an answer was expected"),
    }
}

fn asked<M>(turn: Turn<M>) -> M {
    match turn {
        Turn::Ask(m) => m,
        Turn::Answer(a) => panic!("unexpected answer {a:?}"),
    }
}

fn failover() -> Failover {
    asked(asked(FailoverHook::new(failover_req(1, 0, 0))).after_marker(&pool(), Ok(false)))
}

fn err(e: &str) -> Reply {
    Reply::Failed(e.to_string())
}

fn status(running: bool) -> Reply {
    Reply::Status(NodeStatus {
        is_running: running,
        is_in_recovery: false,
        is_ready: true,
        replication_lag_bytes: 0,
        replication_state: String::new(),
        is_postgres_running: running,
        is_pgpool_running: true,
        is_postgres_status_ok: true,
        is_pgpool_status_ok: true,
        timeline_id: 0,
        current_wal_lsn: 0,
        last_flush_lsn: 0,
    })
}

fn at(secs: i64) -> Timestamp {
    Timestamp { secs, nanos: 0 }
}

fn recovery_op(status: InflightStatus, completed: Option<i64>) -> InflightOp {
    InflightOp {
        id: "op-7".to_string(),
        status,
        payload: InflightPayload::Recovery {
            primary_node_id: 0,
            standby_node_id: 1,
            standby_hostname: "peer1.local".to_string(),
            slot_name: "node1".to_string(),
        },
        phase: "slot_created".to_string(),
        started_at: at(0),
        updated_at: at(0),
        completed_at: completed.map(at),
        discharged_at: None,
        last_error: None,
    }
}

fn cause_of(p: Option<MaintenancePayload>) -> (String, String, String, String) {
    match p.unwrap() {
        MaintenancePayload::DropSlotCleanup { slot_name, target_hostname, cause, initial_error } => {
            (slot_name, target_hostname, cause, initial_error)
        }
    }
}

#[test]
fn failover_no_candidates_returns_ok_false_without_marker() {
    let r = answered(FailoverHook::new(failover_req(1, -1, 0))).unwrap();
    assert!(!r.ok);
    assert_eq!(r.message, "no standby candidates available");
}

#[test]
fn failover_primary_down_is_always_advisory() {
    let r = answered(FailoverHook::new(failover_req(1, 0, 1))).unwrap();
    assert!(r.ok);
    assert_eq!(
        r.message,
        "failover: advisory — lease-driven roles; pgpool announced peer1.local down \
         (pick local), promotion is the HA loop's decision"
    );
}

#[test]
fn failover_rejects_missing_refs() {
    let mut req = failover_req(1, 0, 0);
    req.detached = None;
    let e = answered(FailoverHook::new(req)).unwrap_err();
    assert_eq!((e.code, e.message.as_str()), (Code::InvalidArgument, "failover: detached is required"));
    let mut req = failover_req(1, 0, 0);
    req.new_main = None;
    assert_eq!(answered(FailoverHook::new(req)).unwrap_err().message, "failover: new_main is required");
    let mut req = failover_req(1, -1, 0);
    req.old_primary = None;
    assert_eq!(
        answered(FailoverHook::new(req)).unwrap_err().message,
        "failover: old_primary is required"
    );
}

#[test]
fn failover_skips_when_replay_marker_present() {
    let hook = asked(FailoverHook::new(failover_req(1, 0, 0)));
    assert_eq!(hook.key, "detached=1,new_main=0,old_primary=0");
    let r = answered(hook.after_marker(&pool(), Ok(true))).unwrap();
    assert!(r.ok);
    assert!(r.message.contains("already processed"));
    let hook = asked(FailoverHook::new(failover_req(1, 0, 0)));
    let e = answered(hook.after_marker(&pool(), Err("io".to_string()))).unwrap_err();
    assert_eq!((e.code, e.message.as_str()), (Code::Internal, "failover: idempotency marker check: io"));
}

#[test]
fn failover_rejects_nodes_that_are_not_in_the_pool() {
    let mut req = failover_req(1, 0, 0);
    req.detached = Some(NodeRef {
        id: 9,
        hostname: "x".to_string(),
        pg_port: 0,
        pg_data: String::new(),
    });
    let hook = asked(FailoverHook::new(req));
    let e = answered(hook.after_marker(&pool(), Ok(false))).unwrap_err();
    assert_eq!(e.code, Code::InvalidArgument);
    assert!(e.message.starts_with("failover: detached: "), "{}", e.message);
    let mut req = failover_req(1, 0, 0);
    req.new_main = Some(NodeRef {
        id: 2,
        hostname: "renamed".to_string(),
        pg_port: 0,
        pg_data: String::new(),
    });
    let hook = asked(FailoverHook::new(req));
    let e = answered(hook.after_marker(&pool(), Ok(false))).unwrap_err();
    assert!(e.message.starts_with("failover: new_main: "), "{}", e.message);
}

#[test]
fn failover_standby_down_drops_slot_locally() {
    let m = failover();
    assert_eq!(m.slot, "node1");
    let m = m.step(Reply::Entry(None));
    let m = m.step(Reply::Verdict(PreconditionOutcome::Pass));
    assert!(matches!(m.stage, FailoverStage::DropSlot));
    let m = m.step(Reply::Done);
    assert!(matches!(m.stage, FailoverStage::WriteMarker(_)));
    assert!(m.answer().is_none());
    let r = m.step(Reply::Done).answer().unwrap().unwrap();
    assert!(r.ok);
    assert_eq!(r.message, "standby failover: slot node1 dropped");
}

#[test]
fn failover_standby_down_local_drop_failure_queues_maintenance() {
    let dropped = || {
        failover()
            .step(Reply::Entry(None))
            .step(Reply::Verdict(PreconditionOutcome::Unverifiable { reason: "x".to_string() }))
            .step(err("stub: drop_slot boom"))
    };
    let m = dropped();
    assert_eq!(
        cause_of(m.cleanup()),
        (
            "node1".to_string(),
            "local".to_string(),
            "standby_down_local_drop_error".to_string(),
            "stub: drop_slot boom".to_string()
        )
    );
    let r = m.step(Reply::Done).step(Reply::Done).answer().unwrap().unwrap();
    assert!(r.ok);
    assert_eq!(r.message, "drop slot node1 on local failed, queued maintenance cleanup");
    let r = dropped().step(err("full")).step(Reply::Done).answer().unwrap().unwrap();
    assert!(r.ok);
    assert_eq!(r.message, "drop slot node1 on local failed; maintenance enqueue also failed");
}

#[test]
fn failover_skips_slot_drop_while_a_recovery_owns_the_node() {
    let m = failover().step(Reply::Entry(Some(recovery_op(InflightStatus::InProgress, None))));
    assert!(matches!(m.stage, FailoverStage::WriteMarker(_)));
    let r = m.step(Reply::Done).answer().unwrap().unwrap();
    assert!(r.ok);
    assert_eq!(
        r.message,
        "standby failover: slot node1 retained — in-flight recovery (id=op-7, \
         phase=slot_created) owns node 1"
    );
}

#[test]
fn failover_refuses_slot_drop_when_detached_standby_streaming() {
    let m = failover().step(Reply::Entry(None));
    let probe = match status(true) {
        Reply::Status(s) => Probe::Status(NodeStatus {
            is_in_recovery: true,
            replication_state: "streaming".to_string(),
            ..s
        }),
        _ => unreachable!(),
    };
    let node = m.callee().unwrap();
    assert_eq!(node.hostname, "peer1.local");
    let intent = ClusterIntent::DropSlotBecauseStandbyDown { detached: node };
    let verdict = validate_cluster_preconditions(intent, probe);
    let m = m.step(Reply::Verdict(verdict));
    assert!(matches!(m.stage, FailoverStage::Refused(_)));
    let r = m.answer().unwrap().unwrap();
    assert!(!r.ok);
    assert_eq!(
        r.message,
        "failover: refusing to drop slot node1: announced-failed standby node 1 (peer1.local) \
         is reachable, running, and streaming — the failure report is wrong, and dropping its \
         slot would break healthy replication. No action taken."
    );
    let m = m.step(Reply::Done).step(err("x"));
    assert!(matches!(m.stage, FailoverStage::Refused(_)));
}

#[test]
fn failover_proceeds_when_the_journal_cannot_be_read() {
    let m = failover().step(err("journal"));
    assert!(matches!(m.stage, FailoverStage::CheckPrecondition));
    let m = m
        .step(Reply::Verdict(PreconditionOutcome::Pass))
        .step(Reply::Done)
        .step(err("disk"));
    let e = m.answer().unwrap().unwrap_err();
    assert_eq!((e.code, e.message.as_str()), (Code::Internal, "failover: idempotency marker write: disk"));
}

#[test]
fn replies_that_answer_nothing_change_nothing() {
    let m = failover().step(Reply::Done).step(Reply::Flag(true)).step(Reply::Lsn(5));
    assert!(matches!(m.stage, FailoverStage::ConsultOwner));
}

/// A failover after the journal, with `op` in it, was consulted.
fn failover_consulting(op: &InflightOp, now: i64, active: bool) -> Failover {
    let m = failover();
    let ops = vec![op.clone()];
    let owner = owner_of_slot(&ops, &m.slot, at(now), CROSS_OP_GRACE, active).cloned();
    m.step(Reply::Entry(owner))
}

/// Whether the failover goes on to drop the slot, and what it answers.
fn drops(m: Failover) -> (bool, OpResult) {
    let mut m = m;
    let mut dropped = false;
    while m.answer().is_none() {
        let reply = match m.stage {
            FailoverStage::CheckPrecondition => Reply::Verdict(PreconditionOutcome::Pass),
            FailoverStage::DropSlot => {
                dropped = true;
                assert_eq!(m.slot, "node1");
                Reply::Done
            }
            _ => Reply::Done,
        };
        m = m.step(reply);
    }
    (dropped, m.answer().unwrap().unwrap())
}

#[test]
fn failover_skips_slot_drop_just_after_a_recovery_completes() {
    let op = recovery_op(InflightStatus::Done, Some(100));
    assert_eq!(slot_claim(&op, "node2", at(219), CROSS_OP_GRACE, false), SlotClaim::Free);
    let (dropped, r) = drops(failover_consulting(&op, 219, false));
    assert!(!dropped && r.ok);
    assert!(r.message.contains("retained"));
}

#[test]
fn failover_drops_slot_once_the_grace_window_has_passed() {
    let op = recovery_op(InflightStatus::Done, Some(100));
    let (dropped, r) = drops(failover_consulting(&op, 221, false));
    assert!(dropped && r.ok);
}

#[test]
fn failover_discharges_ownership_when_the_rebuilt_standby_streams() {
    let op = recovery_op(InflightStatus::Done, Some(100));
    assert_eq!(slot_claim(&op, "node1", at(101), CROSS_OP_GRACE, true), SlotClaim::Discharge);
    let (dropped, r) = drops(failover_consulting(&op, 101, true));
    assert!(dropped && r.ok);
    assert!(!r.message.contains("retained"));
    let running = recovery_op(InflightStatus::InProgress, None);
    assert!(!drops(failover_consulting(&running, 101, true)).0);
}

#[test]
fn failover_reclaims_immediately_once_discharged() {
    let mut op = recovery_op(InflightStatus::Done, Some(100));
    op.discharged_at = Some(at(101));
    let (dropped, r) = drops(failover_consulting(&op, 102, false));
    assert!(dropped && r.ok);
    let abandoned = recovery_op(InflightStatus::Abandoned, Some(100));
    let ops = vec![op, abandoned, recovery_op(InflightStatus::InProgress, None)];
    let owner = owner_of_slot(&ops, "node1", at(102), 120, false).unwrap();
    assert_eq!(owner.status, InflightStatus::InProgress);
    assert!(owner_of_slot(&ops, "node2", at(102), 120, false).is_none());
}

fn follow_req() -> FollowPrimaryRequest {
    FollowPrimaryRequest { detached: Some(node_ref(1)), new_primary: Some(node_ref(0)) }
}

fn follow() -> FollowPrimary {
    asked(asked(FollowPrimaryHook::new(follow_req())).after_marker(&pool(), Ok(false)))
}

fn follow_to_slot() -> FollowPrimary {
    follow()
        .step(Reply::Done)
        .step(status(true))
        .step(Reply::Done)
        .step(Reply::Done)
        .step(Reply::Done)
}

#[test]
fn follow_primary_happy_path_with_rewind() {
    let m = follow_to_slot();
    assert!(matches!(m.stage, FollowStage::Rewind));
    let opts = m.rewind_opts(&pg());
    assert_eq!((opts.primary_host.as_str(), opts.primary_port), ("local", 5432));
    let m = m.step(Reply::Done);
    assert!(matches!(m.stage, FollowStage::Configure));
    assert_eq!(m.recovery_opts(&pg()).slot_name, "node1");
    let m = m.step(Reply::Done).step(Reply::Done).step(Reply::Done);
    assert!(matches!(m.stage, FollowStage::WriteMarker));
    let r = m.step(Reply::Done).answer().unwrap().unwrap();
    assert_eq!(r, OpResult { ok: true, message: "follow_primary complete for peer1.local".to_string() });
}

#[test]
fn follow_primary_falls_back_to_basebackup_when_rewind_fails() {
    let m = follow_to_slot().step(err("diverged"));
    assert!(matches!(m.stage, FollowStage::Basebackup));
    assert_eq!(m.basebackup_opts(&pg()).slot_name, "node1");
    assert!(matches!(m.step(Reply::Done).stage, FollowStage::Configure));
}

#[test]
fn follow_primary_skips_when_replay_marker_present() {
    let hook = asked(FollowPrimaryHook::new(follow_req()));
    assert_eq!(hook.key, "detached=1,new_primary=0");
    let r = answered(hook.after_marker(&pool(), Ok(true))).unwrap();
    assert!(r.ok && r.message.contains("already processed"));
}

#[test]
fn follow_primary_skips_when_detached_not_running() {
    let m = follow().step(Reply::Done).step(status(false));
    let r = m.answer().unwrap().unwrap();
    assert_eq!(r, OpResult { ok: true, message: "detached node is stopped, skipping".to_string() });
}

#[test]
fn follow_primary_rejects_missing_detached() {
    let mut req = follow_req();
    req.detached = None;
    assert_eq!(answered(FollowPrimaryHook::new(req)).unwrap_err().code, Code::InvalidArgument);
    let mut req = follow_req();
    req.new_primary = None;
    assert_eq!(
        answered(FollowPrimaryHook::new(req)).unwrap_err().message,
        "follow_primary: new_primary is required"
    );
}

#[test]
fn follow_primary_rejects_unknown_detached() {
    let mut req = follow_req();
    req.detached = Some(node_ref(9));
    let e = answered(asked(FollowPrimaryHook::new(req)).after_marker(&pool(), Ok(false))).unwrap_err();
    assert_eq!(e.code, Code::InvalidArgument);
}

#[test]
fn follow_primary_basebackup_failure_drops_slot() {
    let m = follow_to_slot().step(err("r")).step(err("boom"));
    assert!(matches!(m.stage, FollowStage::DropSlot(..)));
    let e = m.step(Reply::Done).answer().unwrap().unwrap_err();
    assert_eq!(e.message, "follow_primary: basebackup peer1.local: boom");
}

#[test]
fn follow_primary_start_failure_drops_slot() {
    let m = follow_to_slot().step(Reply::Done).step(Reply::Done).step(err("boom"));
    assert!(matches!(m.stage, FollowStage::DropSlot(..)));
    let e = m.step(Reply::Done).answer().unwrap().unwrap_err();
    assert_eq!(e.message, "follow_primary: start peer1.local: boom");
}

#[test]
fn follow_primary_attach_failure_does_not_drop_slot() {
    let m = follow_to_slot()
        .step(Reply::Done)
        .step(Reply::Done)
        .step(Reply::Done)
        .step(err("pcp"));
    assert!(matches!(m.stage, FollowStage::Failed(..)));
    let e = m.answer().unwrap().unwrap_err();
    assert_eq!(e.message, "follow_primary: pcp_attach_node 1: pcp");
}

#[test]
fn follow_primary_drop_slot_failure_queues_maintenance() {
    let m = follow_to_slot().step(err("r")).step(err("boom")).step(err("drop"));
    let (slot, host, cause, error) = cause_of(m.cleanup());
    assert_eq!((slot.as_str(), host.as_str()), ("node1", "local"));
    assert_eq!((cause.as_str(), error.as_str()), ("follow_primary_basebackup_failed", "drop"));
    let e = m.step(err("queue")).answer().unwrap().unwrap_err();
    assert!(e.message.contains("basebackup"));
}

#[test]
fn follow_primary_names_each_step_that_fails() {
    let texts = [
        "follow_primary: peer client for peer1.local: e",
        "follow_primary: get_status peer1.local: e",
        "follow_primary: stop peer1.local: e",
        "follow_primary: checkpoint: e",
        "follow_primary: create slot node1: e",
    ];
    for (n, text) in texts.iter().enumerate() {
        let mut m = follow();
        for k in 0..n {
            m = m.step(if k == 1 { status(true) } else { Reply::Done });
        }
        let e = m.step(err("e")).answer().unwrap().unwrap_err();
        assert_eq!(e.message, *text);
    }
    let m = follow_to_slot().step(Reply::Done).step(err("e")).step(Reply::Done);
    assert_eq!(
        m.answer().unwrap().unwrap_err().message,
        "follow_primary: configure_standby peer1.local: e"
    );
    let mut m = follow_to_slot();
    for _ in 0..4 {
        m = m.step(Reply::Done);
    }
    assert_eq!(
        m.step(err("e")).answer().unwrap().unwrap_err().message,
        "follow_primary: idempotency marker write: e"
    );
}

fn recovery_req(primary: i32, standby: i32, bypass: bool) -> RecoveryRequest {
    RecoveryRequest {
        primary: Some(node_ref(primary)),
        standby: Some(node_ref(standby)),
        bypass_replay_marker: bypass,
    }
}

fn recovery() -> Recovery {
    asked(asked(RecoveryHook::new(recovery_req(0, 1, false))).after_search(&pool(), at(0), Ok(None)))
}

fn recovery_to_dial() -> Recovery {
    recovery()
        .step(Reply::Begun("op-1".to_string()))
        .step(Reply::Done)
        .step(Reply::Done)
        .step(Reply::Done)
}

#[test]
fn recovery_first_stage_happy_path() {
    let m = recovery();
    let begin = m.begin();
    assert_eq!((begin.phase, begin.exclusive), ("started", false));
    assert_eq!(begin.payload.op_name(), "recovery");
    let m = m.step(Reply::Begun("op-1".to_string()));
    assert_eq!(m.op_id, "op-1");
    let m = m.step(Reply::Done).step(Reply::Done);
    assert_eq!(m.phase(), Some("slot_created"));
    let m = m.step(err("journal")).step(Reply::Done);
    assert!(matches!(m.stage, RecoveryStage::Basebackup));
    assert_eq!(m.basebackup_opts(&pg()).primary_host, "local");
    let m = m.step(Reply::Done);
    assert_eq!(m.phase(), Some("data_copied"));
    let m = m.step(Reply::Done);
    assert_eq!(m.recovery_opts(&pg()).slot_name, "node1");
    let m = m.step(Reply::Done);
    assert_eq!(m.phase(), Some("standby_configured"));
    let m = m.step(Reply::Done).step(Reply::Done);
    let r = m.answer().unwrap().unwrap();
    assert_eq!(r, OpResult { ok: true, message: "recovery complete for peer1.local".to_string() });
}

#[test]
fn recovery_first_stage_skips_after_a_recent_completion() {
    let day = 24 * 3600;
    let hook = || asked(RecoveryHook::new(recovery_req(0, 1, false)));
    assert_eq!(hook().key, "primary=0,standby=1");
    let found = |done: i64| Ok(Some(recovery_op(InflightStatus::Done, Some(done))));
    let r = answered(hook().after_search(&pool(), at(day - 1), found(0))).unwrap();
    assert!(r.ok);
    assert_eq!(
        r.message,
        "recovery_1st_stage: skipped — an identical recovery completed within the last 24h \
         (op op-7); pass --stop-target-pg via `cluster recover` to force a fresh one"
    );
    let _ = asked(hook().after_search(&pool(), at(day), found(0)));
    let abandoned = Ok(Some(recovery_op(InflightStatus::Abandoned, Some(0))));
    let _ = asked(hook().after_search(&pool(), at(1), abandoned));
    let e = answered(hook().after_search(&pool(), at(1), Err("io".to_string()))).unwrap_err();
    assert_eq!(e.message, "recovery_1st_stage: inflight lookup: io");
}

#[test]
fn recovery_first_stage_bypass_runs_even_with_marker_present() {
    let hook = asked(RecoveryHook::new(recovery_req(0, 1, true)));
    let found = Ok(Some(recovery_op(InflightStatus::Done, Some(0))));
    let m = asked(hook.after_search(&pool(), at(1), found));
    assert!(matches!(m.stage, RecoveryStage::Begin));
    let hook = asked(RecoveryHook::new(recovery_req(0, 1, true)));
    assert_eq!(asked(hook.resolve(&pool())).slot, "node1");
}

#[test]
fn recovery_first_stage_rejects_non_local_primary() {
    let hook = asked(RecoveryHook::new(recovery_req(1, 2, false)));
    let e = answered(hook.after_search(&pool(), at(0), Ok(None))).unwrap_err();
    assert_eq!(e.code, Code::InvalidArgument);
    assert!(e.message.contains("primary"));
}

#[test]
fn recovery_first_stage_rejects_missing_primary() {
    let mut req = recovery_req(0, 1, false);
    req.primary = None;
    let e = answered(RecoveryHook::new(req)).unwrap_err();
    assert_eq!((e.code, e.message.as_str()), (
        Code::InvalidArgument,
        "recovery_1st_stage: primary is required"
    ));
    let mut req = recovery_req(0, 1, false);
    req.standby = None;
    assert_eq!(
        answered(RecoveryHook::new(req)).unwrap_err().message,
        "recovery_1st_stage: standby is required"
    );
}

#[test]
fn recovery_first_stage_basebackup_failure_drops_slot() {
    let m = recovery_to_dial().step(Reply::Done).step(err("boom"));
    assert!(matches!(m.stage, RecoveryStage::DropSlot(..)));
    let m = m.step(Reply::Done);
    assert_eq!(
        m.abandon_reason().unwrap(),
        "recovery_1st_stage: basebackup peer1.local: boom"
    );
    let e = m.step(Reply::Done).answer().unwrap().unwrap_err();
    assert!(e.message.contains("basebackup"));
}

#[test]
fn recovery_first_stage_configure_standby_failure_drops_slot() {
    let m = recovery_to_dial().step(Reply::Done).step(Reply::Done).step(Reply::Done).step(err("x"));
    assert!(matches!(m.stage, RecoveryStage::DropSlot(..)));
    let e = m.step(Reply::Done).step(err("j")).answer().unwrap().unwrap_err();
    assert_eq!(e.message, "recovery_1st_stage: configure_standby peer1.local: x");
}

#[test]
fn recovery_first_stage_drop_slot_failure_queues_maintenance() {
    let m = recovery_to_dial().step(Reply::Done).step(err("boom")).step(err("drop"));
    let (slot, host, cause, error) = cause_of(m.cleanup());
    assert_eq!((slot.as_str(), host.as_str()), ("node1", "local"));
    assert_eq!((cause.as_str(), error.as_str()), ("recovery_1st_stage_basebackup_failed", "drop"));
    assert!(matches!(m.step(Reply::Done).stage, RecoveryStage::Abandon(..)));
    let m = recovery_to_dial().step(err("down")).step(err("drop"));
    assert_eq!(cause_of(m.cleanup()).2, "recovery_1st_stage_peer_dial_failed");
}

#[test]
fn recovery_names_each_step_that_fails() {
    let m = recovery().step(err("e"));
    assert_eq!(m.answer().unwrap().unwrap_err().message, "recovery_1st_stage: journal begin: e");
    let begun = || recovery().step(Reply::Begun("i".to_string()));
    let m = begun().step(err("e"));
    assert_eq!(m.abandon_reason().unwrap(), "recovery_1st_stage: checkpoint: e");
    let m = begun().step(Reply::Done).step(err("e"));
    assert_eq!(m.abandon_reason().unwrap(), "recovery_1st_stage: create slot node1: e");
    let mut m = recovery_to_dial();
    for _ in 0..5 {
        m = m.step(Reply::Done);
    }
    assert!(matches!(m.stage, RecoveryStage::Complete));
    assert_eq!(
        m.step(err("e")).answer().unwrap().unwrap_err().message,
        "recovery_1st_stage: journal complete: e"
    );
}

#[test]
fn escalation_is_no_op_ok() {
    assert_eq!(escalation().unwrap(), OpResult { ok: true, message: String::new() });
}

#[test]
fn remote_start_calls_peer_start() {
    let m = asked(RemoteStart::new(RemoteStartRequest { target: Some(node_ref(1)) }, &pool()));
    let m = m.step(Reply::Flag(false)).step(Reply::Done);
    assert!(matches!(m.stage, RemoteStartStage::Start));
    assert!(m.step(Reply::Done).answer().unwrap().unwrap().ok);
}

#[test]
fn remote_start_refuses_when_local_is_replica() {
    let m = asked(RemoteStart::new(RemoteStartRequest { target: Some(node_ref(1)) }, &pool()));
    let r = m.step(Reply::Flag(true)).answer().unwrap().unwrap();
    assert!(!r.ok && r.message.contains("not the primary"));
}

#[test]
fn remote_start_propagates_peer_error_as_internal() {
    let start = || asked(RemoteStart::new(RemoteStartRequest { target: Some(node_ref(1)) }, &pool()));
    let e = start().step(Reply::Flag(false)).step(Reply::Done).step(err("boom"));
    let e = e.answer().unwrap().unwrap_err();
    assert_eq!(e.message, "remote_start: peer start on peer1.local: boom");
    let e = start().step(Reply::Flag(false)).step(err("x")).answer().unwrap().unwrap_err();
    assert_eq!(e.message, "remote_start: peer client for peer1.local: x");
    let e = start().step(err("x")).answer().unwrap().unwrap_err();
    assert_eq!(e.message, "remote_start: check primary status: x");
}

#[test]
fn remote_start_rejects_missing_target() {
    let e = answered(RemoteStart::new(RemoteStartRequest { target: None }, &pool())).unwrap_err();
    assert_eq!(e.message, "remote_start: target is required");
}

#[test]
fn remote_start_rejects_unknown_target() {
    let e = answered(RemoteStart::new(RemoteStartRequest { target: Some(node_ref(9)) }, &pool()));
    assert_eq!(e.unwrap_err().code, Code::InvalidArgument);
}

#[test]
fn failover_advisory_wins_over_a_stale_legacy_replay_marker() {
    let r = answered(FailoverHook::new(failover_req(1, 0, 1))).unwrap();
    assert!(r.ok);
    assert!(r.message.contains("advisory"));
}

#[test]
fn failover_standby_down_still_drops_slot() {
    let m = failover().step(Reply::Entry(None)).step(Reply::Verdict(PreconditionOutcome::Pass));
    assert!(matches!(m.stage, FailoverStage::DropSlot));
    assert_eq!(m.slot, "node1");
    assert!(m.step(Reply::Done).step(Reply::Done).answer().unwrap().unwrap().ok);
}

#[test]
fn failover_drops_slot_when_detached_standby_up_but_not_streaming() {
    let m = failover().step(Reply::Entry(None));
    let probe = match status(true) {
        Reply::Status(s) => Probe::Status(NodeStatus { is_in_recovery: true, ..s }),
        _ => unreachable!(),
    };
    let intent = ClusterIntent::DropSlotBecauseStandbyDown { detached: &m.detached };
    let verdict = validate_cluster_preconditions(intent, probe);
    assert_eq!(verdict, PreconditionOutcome::Pass);
    let m = m.step(Reply::Verdict(verdict));
    assert!(matches!(m.stage, FailoverStage::DropSlot));
    assert_eq!(m.slot, "node1");
}

#[test]
fn only_the_standby_is_called_from_the_new_primary() {
    let mut m = follow();
    let mut called = Vec::new();
    while m.answer().is_none() {
        let reply = match m.stage {
            FollowStage::GetStatus => status(true),
            _ => Reply::Done,
        };
        called.push((m.callee().map(|n| n.id), m.backend()));
        m = m.step(reply);
    }
    let peer = (Some(1), None);
    let here = (None, None);
    assert_eq!(
        called,
        vec![peer, peer, peer, here, here, peer, peer, peer, (None, Some(1)), here]
    );
}
