use pg_agent_core::config::{NodeConfig, NodePool, PostgresRuntime, MAX_HANDOFF_LAG_BYTES};
use pg_agent_core::inflight_ops::{InflightOp, InflightPayload, InflightStatus};
use pg_agent_core::localserver::cluster_handoff::{
    ClusterHandoff, ClusterHandoffRequest, PreflightStage,
};
use pg_agent_core::localserver::cluster_init::{
    ClusterInit, ClusterInitRequest, ClusterInitResponse, ClusterInitStage, InitStage, InitTurn,
};
use pg_agent_core::localserver::cluster_recover::{
    ClusterRecover, ClusterRecoverRequest, RecoverStage,
};
use pg_agent_core::localserver::cluster_view::{
    cluster_status, get_pgpool_backends, NodeConfigResponse, Report,
};
use pg_agent_core::localserver::follow_driver::{
    fan_out_follow_primary, follow_up, fp_phase_index, DriveFollowPrimary, DriveStage,
};
use pg_agent_core::localserver::handoff::{handoff_phase_index, Handoff, HandoffStage};
use pg_agent_core::localserver::recovery::{RecoveryHook, RecoveryStage};
use pg_agent_core::localserver::restore_wal::{
    FetchOutcome, RestoreWal, RestoreWalRequest, WalCooldowns,
};
use pg_agent_core::localserver::resume::{
    resume_inflight_op, FollowUpRun, FollowUpStage, Resume, ResumeHandoff, VerifyStage,
};
use pg_agent_core::maintenance::MaintenancePayload;
use pg_agent_core::orchestration::{Lease, NodeStatus, Reply, TakeoverOutcome, Turn};
use pg_agent_core::status::{Code, OpResult, Status};
use pg_agent_core::time::Timestamp;

const BASE_LSN: u64 = 0x1_0000_0000;

fn node(id: i32) -> NodeConfig {
    NodeConfig {
        id,
        hostname: if id == 0 { "local".to_string() } else { format!("peer{id}.local") },
    }
}

fn pool() -> NodePool {
    NodePool { members: vec![node(0), node(1), node(2)], local_node_id: 0 }
}

fn pg() -> PostgresRuntime {
    PostgresRuntime { port: 5432, data_dir: "/d".to_string(), repl_user: "repl".to_string() }
}

fn err(e: &str) -> Reply {
    Reply::Failed(e.to_string())
}

fn state(running: bool, recovery: bool, lsn: u64) -> NodeStatus {
    NodeStatus {
        is_running: running,
        is_in_recovery: recovery,
        is_ready: true,
        replication_lag_bytes: 0,
        replication_state: String::new(),
        is_postgres_running: running,
        is_pgpool_running: true,
        is_postgres_status_ok: true,
        is_pgpool_status_ok: true,
        timeline_id: 0,
        current_wal_lsn: lsn,
        last_flush_lsn: 0,
    }
}

fn status(running: bool, recovery: bool, lsn: u64) -> Reply {
    Reply::Status(state(running, recovery, lsn))
}

fn answered<M>(turn: Turn<M>) -> Result<OpResult, Status> {
    match turn {
        Turn::Answer(a) => a,
        Turn::Ask(_) => panic!("an answer was expected"),
    }
}

fn asked<M>(turn: Turn<M>) -> M {
    match turn {
        Turn::Ask(m) => m,
        Turn::Answer(a) => panic!("unexpected answer {a:?}"),
    }
}

fn op(id: &str, payload: InflightPayload, phase: &str, status: InflightStatus) -> InflightOp {
    let t = Timestamp { secs: 0, nanos: 0 };
    InflightOp {
        id: id.to_string(),
        status,
        payload,
        phase: phase.to_string(),
        started_at: t,
        updated_at: t,
        completed_at: None,
        discharged_at: None,
        last_error: None,
    }
}

fn handoff_payload() -> InflightPayload {
    InflightPayload::Handoff {
        from_node_id: 0,
        to_node_id: 1,
        to_hostname: "peer1.local".to_string(),
        slot_name: "node0".to_string(),
        allow_lag: false,
    }
}

fn follow_payload(host: &str) -> InflightPayload {
    InflightPayload::FollowPrimary {
        detached_node_id: 2,
        detached_hostname: host.to_string(),
        new_primary_node_id: 1,
        new_primary_hostname: "peer1.local".to_string(),
    }
}

// ----- cluster recover -------------------------------------------------

fn recover(stop: bool) -> ClusterRecover {
    let req = ClusterRecoverRequest { target_node_id: 1, stop_target_pg: stop };
    asked(ClusterRecover::after_role_check(req, &pool(), Ok(false)))
}

fn complete(ok: bool) -> Reply {
    Reply::Outcome(Ok(OpResult { ok, message: "inner".to_string() }))
}

#[test]
fn cluster_recover_delegates_to_recovery_first_stage() {
    let m = recover(false).step(Reply::Done).step(status(false, false, 0));
    assert!(matches!(m.stage, RecoverStage::Recover));
    let req = m.recovery_request();
    assert!(req.bypass_replay_marker);
    assert_eq!(req.standby.unwrap().id, 1);
    let m = m.step(complete(true)).step(Reply::Done).step(Reply::Done).step(Reply::Done);
    let r = m.answer().unwrap().unwrap();
    assert!(r.ok);
    assert_eq!(
        r.message,
        "recovery complete for peer1.local; postgres started; pgpool started; \
         attached node 1 in pgpool"
    );
}

#[test]
fn cluster_recover_continues_when_post_steps_fail() {
    let m = recover(false)
        .step(Reply::Done)
        .step(status(false, false, 0))
        .step(complete(true))
        .step(err("a"))
        .step(err("b"))
        .step(err("c"));
    let r = m.answer().unwrap().unwrap();
    assert!(r.ok);
    assert_eq!(
        r.message,
        "recovery complete for peer1.local; postgres start failed: a; pgpool start failed: b; \
         pgpool attach failed: c"
    );
}

#[test]
fn cluster_recover_skips_post_steps_when_recovery_fails() {
    let at_recover = || recover(false).step(Reply::Done).step(status(false, false, 0));
    let r = at_recover().step(complete(false)).answer().unwrap().unwrap();
    assert_eq!(r, OpResult { ok: false, message: "inner".to_string() });
    let refused = Status { code: Code::Internal, message: "boom".to_string() };
    let m = at_recover().step(Reply::Outcome(Err(refused)));
    assert_eq!(m.answer().unwrap().unwrap_err().message, "boom");
}

#[test]
fn cluster_recover_refuses_when_local_is_replica() {
    let req = || ClusterRecoverRequest { target_node_id: 1, stop_target_pg: false };
    let r = answered(ClusterRecover::after_role_check(req(), &pool(), Ok(true))).unwrap();
    assert!(!r.ok && r.message.contains("not the primary"));
    let e = answered(ClusterRecover::after_role_check(req(), &pool(), Err("x".to_string())));
    assert_eq!(e.unwrap_err().message, "cluster_recover: check primary status: x");
}

#[test]
fn cluster_recover_rejects_unknown_target_id() {
    let req = ClusterRecoverRequest { target_node_id: 99, stop_target_pg: false };
    let e = answered(ClusterRecover::after_role_check(req, &pool(), Ok(false))).unwrap_err();
    assert_eq!(e.code, Code::InvalidArgument);
    assert!(e.message.contains("target node 99"));
}

#[test]
fn cluster_recover_rejects_local_node_as_target() {
    let req = ClusterRecoverRequest { target_node_id: 0, stop_target_pg: false };
    let e = answered(ClusterRecover::after_role_check(req, &pool(), Ok(false))).unwrap_err();
    assert!(e.message.contains("target is the local node"));
}

#[test]
fn cluster_recover_refuses_when_target_pg_running_without_flag() {
    let m = recover(false).step(Reply::Done).step(status(true, true, 0));
    let r = m.answer().unwrap().unwrap();
    assert!(!r.ok);
    assert!(r.message.contains("postgres is running on target peer1.local; rerun with --stop-target-pg"));
}

#[test]
fn cluster_recover_stops_target_pg_when_flag_set() {
    let m = recover(true).step(Reply::Done).step(status(true, true, 0));
    assert!(matches!(m.stage, RecoverStage::Stop));
    assert!(matches!(m.step(Reply::Done).stage, RecoverStage::Recover));
    let m = recover(true).step(Reply::Done).step(status(true, true, 0)).step(err("x"));
    assert_eq!(
        m.answer().unwrap().unwrap_err().message,
        "cluster_recover: stop postgres on peer1.local: x"
    );
}

#[test]
fn cluster_recover_skips_stop_when_target_pg_already_stopped() {
    let m = recover(true).step(Reply::Done).step(status(false, false, 0));
    assert!(matches!(m.stage, RecoverStage::Recover));
    let m = recover(true).step(err("x"));
    assert_eq!(m.answer().unwrap().unwrap_err().message, "cluster_recover: dial peer peer1.local: x");
    let m = recover(true).step(Reply::Done).step(err("x"));
    assert_eq!(
        m.answer().unwrap().unwrap_err().message,
        "cluster_recover: peer get_status peer1.local: x"
    );
}

// ----- cluster handoff ---------------------------------------------------

fn handoff(allow_lag: bool) -> ClusterHandoff {
    let req = ClusterHandoffRequest { target_node_id: 1, allow_lag };
    asked(ClusterHandoff::after_role_check(req, &pool(), Ok(false)))
}

fn handoff_at_status(allow_lag: bool) -> ClusterHandoff {
    handoff(allow_lag).step(Reply::Entry(None)).step(Reply::Done)
}

#[test]
fn cluster_handoff_happy_path() {
    let m = handoff(false);
    assert_eq!((m.key.as_str(), m.slot.as_str()), ("from=0,to=1", "node0"));
    let m = m.step(Reply::Entry(None)).step(Reply::Done).step(status(true, true, BASE_LSN));
    let m = m.step(Reply::Lsn(BASE_LSN));
    assert!(matches!(m.stage, PreflightStage::Begin));
    let begin = m.begin();
    assert_eq!((begin.phase, begin.exclusive), ("preflight_done", true));
    assert_eq!(begin.payload, handoff_payload());
    let m = m.step(Reply::Begun("h-1".to_string()));
    let ladder = m.ladder().unwrap();
    assert_eq!(ladder.op_id, "h-1");
    let mut h = ladder;
    let mut phases = Vec::new();
    while h.answer().is_none() {
        if let Some(p) = h.phase() {
            phases.push(p);
        }
        h = h.step(Reply::Done);
    }
    assert_eq!(
        phases,
        vec![
            "target_promoted",
            "slot_created",
            "local_stopped",
            "data_copied",
            "recovery_conf_written",
            "local_started",
            "attached"
        ]
    );
    let outcome = h.answer().unwrap();
    assert_eq!(
        outcome.as_ref().unwrap().message,
        "handoff complete: primary is now peer1.local; local demoted to standby via rewind"
    );
    let m = m.step(Reply::Outcome(outcome));
    assert!(matches!(m.stage, PreflightStage::FanOut(_)));
    assert!(m.step(Reply::Done).answer().unwrap().unwrap().ok);
}

#[test]
fn cluster_handoff_refuses_when_local_is_standby() {
    let req = ClusterHandoffRequest { target_node_id: 1, allow_lag: false };
    let r = answered(ClusterHandoff::after_role_check(req, &pool(), Ok(true))).unwrap();
    assert!(!r.ok && r.message.contains("not the primary"));
}

#[test]
fn cluster_handoff_rejects_local_node_as_target() {
    let req = ClusterHandoffRequest { target_node_id: 0, allow_lag: false };
    let e = answered(ClusterHandoff::after_role_check(req, &pool(), Ok(false))).unwrap_err();
    assert!(e.message.contains("target is the local node"));
}

#[test]
fn cluster_handoff_rejects_unknown_target_id() {
    let req = ClusterHandoffRequest { target_node_id: 99, allow_lag: false };
    let e = answered(ClusterHandoff::after_role_check(req, &pool(), Ok(false))).unwrap_err();
    assert!(e.message.contains("target node 99"));
    let mut lost = pool();
    lost.local_node_id = 7;
    let req = ClusterHandoffRequest { target_node_id: 1, allow_lag: false };
    let e = answered(ClusterHandoff::after_role_check(req, &lost, Ok(false))).unwrap_err();
    assert_eq!(e.code, Code::Internal);
}

#[test]
fn cluster_handoff_refuses_when_target_pg_not_running() {
    let m = handoff_at_status(false).step(status(false, true, 1));
    let r = m.answer().unwrap().unwrap();
    assert!(!r.ok && r.message.contains("postgres stopped"));
}

#[test]
fn cluster_handoff_refuses_when_target_is_already_primary() {
    let m = handoff_at_status(false).step(status(true, false, 1));
    let r = m.answer().unwrap().unwrap();
    assert!(!r.ok && r.message.contains("not a standby"));
}

#[test]
fn cluster_handoff_refuses_when_lag_exceeds_threshold() {
    let lag = |n: u64| {
        handoff_at_status(false).step(status(true, true, BASE_LSN)).step(Reply::Lsn(BASE_LSN + n))
    };
    let r = lag(MAX_HANDOFF_LAG_BYTES + 1).answer().unwrap().unwrap();
    assert!(!r.ok);
    assert_eq!(
        r.message,
        "cluster_handoff: target peer1.local is 16777217 bytes behind local primary (local LSN \
         1/01000001, target replay LSN 1/00000000); exceeds threshold 16777216 bytes (one WAL \
         segment); rerun with --allow-lag to override (will accept data loss for writes between \
         the standby's replay LSN and the primary's current LSN)"
    );
    assert!(matches!(lag(MAX_HANDOFF_LAG_BYTES).stage, PreflightStage::Begin));
    let ahead = handoff_at_status(false).step(status(true, true, BASE_LSN)).step(Reply::Lsn(1));
    assert!(matches!(ahead.stage, PreflightStage::Begin));
}

#[test]
fn cluster_handoff_refuses_when_lsn_probe_unknown() {
    let m = handoff_at_status(false).step(status(true, true, 0)).step(Reply::Lsn(7));
    let r = m.answer().unwrap().unwrap();
    assert!(!r.ok && r.message.contains("cannot measure lag — local current_wal_lsn=7 target last_replay_lsn=0"));
    let m = handoff_at_status(false).step(status(true, true, 7)).step(Reply::Lsn(0));
    assert!(m.answer().unwrap().unwrap().message.contains("--allow-lag"));
}

#[test]
fn cluster_handoff_proceeds_with_high_lag_when_flag_set() {
    let m = handoff_at_status(true).step(status(true, true, 0));
    assert!(matches!(m.stage, PreflightStage::Begin));
    let r = m.step(err("another op is in flight")).answer().unwrap().unwrap();
    assert_eq!(r, OpResult { ok: false, message: "cluster_handoff: another op is in flight".to_string() });
}

#[test]
fn cluster_handoff_is_idempotent_via_inflight_done() {
    let done = op("h", handoff_payload(), "attached", InflightStatus::Done);
    let r = handoff(false).step(Reply::Entry(Some(done))).answer().unwrap().unwrap();
    assert!(r.ok && r.message.contains("already processed"));
    let gone = op("h", handoff_payload(), "attached", InflightStatus::Abandoned);
    assert!(matches!(handoff(false).step(Reply::Entry(Some(gone))).stage, PreflightStage::Dial));
}

#[test]
fn cluster_handoff_refuses_when_an_inflight_handoff_exists() {
    let stuck = op("stuck-handoff", handoff_payload(), "slot_created", InflightStatus::InProgress);
    let r = handoff(false).step(Reply::Entry(Some(stuck))).answer().unwrap().unwrap();
    assert!(!r.ok);
    assert_eq!(
        r.message,
        "cluster_handoff: handoff already in flight (id=stuck-handoff, phase=slot_created); \
         resume with `pg_agentctl ops resume stuck-handoff` or abandon with \
         `pg_agentctl ops abandon stuck-handoff`"
    );
}

#[test]
fn cluster_handoff_names_each_step_that_fails() {
    let text = |m: ClusterHandoff| m.answer().unwrap().unwrap_err().message;
    assert_eq!(text(handoff(false).step(err("e"))), "cluster_handoff: inflight lookup: e");
    let m = handoff_at_status(false).step(status(true, true, 1)).step(err("e"));
    assert_eq!(text(m), "cluster_handoff: local current_wal_lsn: e");
}

#[test]
fn cluster_handoff_refuses_a_target_that_cannot_be_reached() {
    let m = handoff(false).step(Reply::Entry(None)).step(err("e"));
    let r = m.answer().unwrap().unwrap();
    assert!(!r.ok);
    assert_eq!(r.message, "cluster_handoff: dial peer peer1.local: e");
    let r = handoff_at_status(false).step(err("e")).answer().unwrap().unwrap();
    assert!(!r.ok);
    assert_eq!(r.message, "cluster_handoff: peer get_status peer1.local: e");
}

fn ladder(phase: &str) -> Handoff {
    asked(Handoff::from_phase("h".to_string(), phase, node(1), node(0), "node0".to_string()))
}

#[test]
fn phases_have_their_places() {
    assert_eq!(handoff_phase_index("preflight_done"), Some(0));
    assert_eq!(handoff_phase_index("local_started"), Some(6));
    assert_eq!(handoff_phase_index("queued"), None);
    assert_eq!(fp_phase_index("queued"), Some(0));
    assert_eq!(fp_phase_index("attached"), Some(7));
    assert_eq!(fp_phase_index("preflight_done"), None);
    let e = answered(Handoff::from_phase("h".into(), "x", node(1), node(0), "s".into()));
    assert_eq!(e.unwrap_err().message, "cluster_handoff: unknown phase \"x\"");
}

#[test]
fn cluster_handoff_falls_back_to_basebackup_when_rewind_fails() {
    let m = ladder("local_stopped").step(err("diverged"));
    assert!(matches!(m.stage, HandoffStage::Basebackup));
    assert_eq!(m.basebackup_opts(&pg()).primary_host, "peer1.local");
    let mut m = m.step(Reply::Done);
    while m.answer().is_none() {
        m = m.step(Reply::Done);
    }
    assert!(m.answer().unwrap().unwrap().message.ends_with("via basebackup"));
}

#[test]
fn cluster_handoff_drops_slot_when_both_data_copies_fail() {
    let m = ladder("local_stopped").step(err("r")).step(err("full"));
    assert!(matches!(m.stage, HandoffStage::DropSlot(_)));
    let m = m.step(err("drop"));
    assert_eq!(m.abandon_reason().unwrap(), "rewind+basebackup both failed: full");
    let r = m.step(Reply::Done).answer().unwrap().unwrap();
    assert!(!r.ok);
    assert_eq!(
        r.message,
        "cluster_handoff: rewind and basebackup both failed against peer1.local: full; local PG \
         is stopped, target is now the primary; run `pg_agentctl cluster recover --target 0 \
         --stop-target-pg` from the new primary to finish converging the local node"
    );
}

#[test]
fn cluster_handoff_attach_failure_does_not_fail_rpc() {
    let m = ladder("local_started").step(err("pcp")).step(Reply::Done).step(Reply::Done);
    let r = m.answer().unwrap().unwrap();
    assert!(r.ok);
    assert_eq!(
        r.message,
        "handoff complete: primary is now peer1.local; local demoted to standby via rewind; \
         pgpool attach failed: pcp"
    );
}

#[test]
fn handoff_names_each_step_that_fails() {
    let text = |m: Handoff| m.step(err("e")).answer().unwrap().unwrap_err().message;
    assert_eq!(text(ladder("preflight_done")), "cluster_handoff: checkpoint: e");
    assert_eq!(
        text(ladder("preflight_done").step(Reply::Done)),
        "cluster_handoff: promote peer1.local: e"
    );
    assert_eq!(text(ladder("target_promoted")), "cluster_handoff: create_slot on peer1.local: e");
    assert_eq!(text(ladder("slot_created")), "cluster_handoff: stop_postgres: e");
    assert_eq!(text(ladder("data_copied")), "cluster_handoff: write_recovery_conf: e");
    assert_eq!(text(ladder("recovery_conf_written")), "cluster_handoff: start_postgres: e");
    assert_eq!(text(ladder("slot_created").step(Reply::Done)), "cluster_handoff: journal: e");
    assert_eq!(text(ladder("attached")), "cluster_handoff: complete journal: e");
}

// ----- resume ------------------------------------------------------------

fn resume_handoff(phase: &str) -> ResumeHandoff {
    let found = op("h", handoff_payload(), phase, InflightStatus::InProgress);
    match asked(resume_inflight_op(Ok(found), &pool())) {
        Resume::Handoff(m) => m,
        Resume::FollowPrimary(_) => panic!("a handoff was expected"),
    }
}

#[test]
fn resume_inflight_op_continues_handoff_from_slot_created() {
    let m = resume_handoff("slot_created")
        .step(Reply::Done)
        .step(status(true, false, 0))
        .step(Reply::Flag(true));
    assert!(matches!(m.stage, VerifyStage::Verified));
    let h = asked(m.ladder());
    assert!(matches!(h.stage, HandoffStage::StopLocal));
}

#[test]
fn resume_inflight_op_refuses_when_cluster_state_diverged() {
    let at_status = |phase: &str| resume_handoff(phase).step(Reply::Done);
    let text = |m: ResumeHandoff| m.answer().unwrap().unwrap().message;
    assert_eq!(
        text(at_status("slot_created").step(status(true, true, 0))),
        "resume_handoff: cluster state diverged from recorded phase \"slot_created\": target \
         peer1.local is back in recovery; original handoff had promoted it to primary; run \
         `pg_agentctl ops abandon h` if this op is unrecoverable"
    );
    assert!(text(at_status("preflight_done").step(status(true, false, 0))).contains("already a primary"));
    assert!(text(at_status("attached").step(status(false, false, 0))).contains("has postgres stopped"));
    let promoted = |phase: &str| at_status(phase).step(status(true, false, 0));
    assert!(text(promoted("target_promoted").step(Reply::Flag(false))).contains("pre-stop"));
    assert!(text(promoted("data_copied").step(Reply::Flag(true))).contains("post-stop"));
    assert!(text(promoted("local_started").step(Reply::Flag(false))).contains("post-start"));
    let m = promoted("attached").step(Reply::Flag(true)).step(Reply::Flag(false));
    assert!(text(m).contains("implies standby"));
    let m = promoted("attached").step(Reply::Flag(true)).step(Reply::Flag(true));
    assert!(matches!(m.stage, VerifyStage::Verified));
    assert!(matches!(
        at_status("preflight_done").step(status(false, true, 0)).stage,
        VerifyStage::Verified
    ));
}

#[test]
fn resume_handoff_names_each_question_that_fails() {
    let text = |m: ResumeHandoff| m.step(err("e")).answer().unwrap().unwrap_err().message;
    let start = || resume_handoff("attached");
    assert_eq!(text(start()), "resume_handoff: dial peer peer1.local: e");
    let m = start().step(Reply::Done);
    assert_eq!(text(m), "verify_handoff_state: peer get_status peer1.local: e");
    let m = || start().step(Reply::Done).step(status(true, false, 0));
    assert_eq!(text(m()), "verify_handoff_state: status_postgres: e");
    assert_eq!(text(m().step(Reply::Flag(true))), "verify_handoff_state: is_in_recovery: e");
}

#[test]
fn resume_inflight_op_refuses_terminal_op() {
    let done = op("h", handoff_payload(), "attached", InflightStatus::Done);
    let r = answered(resume_inflight_op(Ok(done), &pool())).unwrap();
    assert_eq!(
        r.message,
        "resume_inflight_op: op h is in status done; only in-progress ops can be resumed"
    );
    let e = answered(resume_inflight_op(Err("no entry".to_string()), &pool())).unwrap_err();
    assert_eq!((e.code, e.message.as_str()), (Code::NotFound, "resume_inflight_op: no entry"));
}

#[test]
fn resume_points_at_what_has_no_driver() {
    let text = |p: InflightPayload| {
        let found = op("x", p, "p", InflightStatus::InProgress);
        let r = answered(resume_inflight_op(Ok(found), &pool())).unwrap();
        assert!(!r.ok);
        r.message
    };
    assert!(text(InflightPayload::Promote { node_id: 1 }).starts_with("op x is a promotion"));
    assert!(text(InflightPayload::AllowAsync { node_id: 1 }).starts_with("op x is an allow-async"));
    let recovery = InflightPayload::Recovery {
        primary_node_id: 0,
        standby_node_id: 2,
        standby_hostname: "peer2.local".to_string(),
        slot_name: "node2".to_string(),
    };
    assert!(text(recovery).contains("cluster recover --target 2 --stop-target-pg"));
}

#[test]
fn resume_handoff_refuses_on_topology_mismatch() {
    let text = |p: InflightPayload, pool: &NodePool| {
        let found = op("h", p, "attached", InflightStatus::InProgress);
        answered(resume_inflight_op(Ok(found), pool)).unwrap().message
    };
    let mut moved = pool();
    moved.local_node_id = 2;
    assert!(text(handoff_payload(), &moved).contains("from_node_id=0 but local is node 2"));
    let mut renamed = pool();
    renamed.members[1].hostname = "other".to_string();
    assert!(text(handoff_payload(), &renamed)
        .contains("to_hostname=\"peer1.local\" but current pool has node 1 as \"other\""));
    let mut shrunk = pool();
    shrunk.members.remove(1);
    assert!(text(handoff_payload(), &shrunk).contains("target node 1 not in current pool"));
}

fn resumed_follow(phase: &str) -> FollowUpRun {
    let found = op("fp-resume", follow_payload("peer2.local"), phase, InflightStatus::InProgress);
    match asked(resume_inflight_op(Ok(found), &pool())) {
        Resume::FollowPrimary(m) => m,
        Resume::Handoff(_) => panic!("a follow-up was expected"),
    }
}

#[test]
fn resume_follow_primary_completes_via_resume_inflight_op() {
    let mut m = resumed_follow("queued");
    while m.answer().is_none() {
        let at_status = match &m.stage {
            FollowUpStage::Drive(d) => matches!(d.stage, DriveStage::GetStatus),
            _ => false,
        };
        m = m.step(if at_status { status(true, true, 0) } else { Reply::Done });
    }
    assert!(matches!(m.stage, FollowUpStage::Completed));
    let r = m.answer().unwrap().unwrap();
    assert_eq!(r.message, "follow_primary complete for peer2.local (resumed)");
}

#[test]
fn resume_follow_primary_abandons_what_failed() {
    let m = resumed_follow("dialing").step(err("down"));
    assert_eq!(m.reason().unwrap(), "follow_primary: dial detached peer2.local: down");
    let r = m.step(Reply::Done).answer().unwrap().unwrap();
    assert_eq!(
        r.message,
        "resume_follow_primary: driver failed: follow_primary: dial detached peer2.local: down; \
         op marked abandoned"
    );
    let m = resumed_follow("nonsense");
    assert_eq!(m.reason().unwrap(), "follow_primary: unknown phase \"nonsense\"");
    assert!(!m.step(err("j")).answer().unwrap().unwrap().ok);
    let m = resumed_follow("attached").step(Reply::Done).step(Reply::Done);
    assert!(matches!(m.stage, FollowUpStage::Complete));
    assert_eq!(
        m.step(err("e")).answer().unwrap().unwrap_err().message,
        "resume_follow_primary: complete journal: e"
    );
}

#[test]
fn resume_follow_primary_refuses_on_topology_mismatch() {
    let found = op("x", follow_payload("renamed.example"), "queued", InflightStatus::InProgress);
    let r = answered(resume_inflight_op(Ok(found), &pool())).unwrap();
    assert!(!r.ok);
    assert_eq!(
        r.message,
        "resume_follow_primary: op recorded detached_hostname=\"renamed.example\" but current \
         pool has node 2 as \"peer2.local\"; pool topology has changed"
    );
}

// ----- follow-ups ----------------------------------------------------------

fn drive(phase: &str) -> DriveFollowPrimary {
    DriveFollowPrimary::from_phase("op".to_string(), phase, node(2), node(1)).ok().unwrap()
}

fn run_drive(mut m: DriveFollowPrimary) -> (Vec<&'static str>, DriveFollowPrimary) {
    let mut phases = Vec::new();
    while m.result().is_none() {
        if let Some(p) = m.phase() {
            phases.push(p);
        }
        let at_status = matches!(m.stage, DriveStage::GetStatus);
        m = m.step(if at_status { status(true, true, 0) } else { Reply::Done });
    }
    (phases, m)
}

#[test]
fn drive_follow_primary_happy_path() {
    let (phases, m) = run_drive(drive("queued"));
    assert_eq!(
        phases,
        vec![
            "dialing",
            "detached_stopped",
            "slot_created",
            "data_copied",
            "recovery_conf_written",
            "detached_started",
            "attached"
        ]
    );
    assert_eq!(m.result(), Some(Ok(())));
    assert_eq!(m.slot, "node2");
}

#[test]
fn drive_follow_primary_falls_back_to_basebackup() {
    let m = drive("slot_created").step(Reply::Done).step(Reply::Done).step(err("r"));
    assert!(matches!(m.stage, DriveStage::Basebackup));
    assert_eq!(m.rewind_opts(&pg()).primary_host, "peer1.local");
    assert_eq!(run_drive(m).1.result(), Some(Ok(())));
}

#[test]
fn drive_follow_primary_skips_when_detached_stopped() {
    let m = drive("queued").step(Reply::Done).step(Reply::Done).step(Reply::Done);
    assert!(matches!(m.stage, DriveStage::GetStatus));
    let m = m.step(status(false, true, 0));
    assert_eq!(m.result(), Some(Ok(())));
}

#[test]
fn drive_follow_primary_queues_maintenance_on_basebackup_failure() {
    let m = drive("slot_created")
        .step(Reply::Done)
        .step(Reply::Done)
        .step(err("r"))
        .step(err("boom"))
        .step(err("drop"));
    match m.cleanup().unwrap() {
        MaintenancePayload::DropSlotCleanup { slot_name, target_hostname, cause, initial_error } => {
            assert_eq!(slot_name, "node2");
            assert_eq!(target_hostname, "peer1.local");
            assert_eq!(cause, "follow_primary_basebackup_failed");
            assert_eq!(initial_error, "drop");
        }
    }
    let m = m.step(Reply::Done);
    assert_eq!(
        m.result(),
        Some(Err("follow_primary: basebackup peer2.local: boom".to_string()))
    );
}

#[test]
fn drive_follow_primary_resumes_from_recorded_phase() {
    let m = drive("slot_created");
    assert!(matches!(m.stage, DriveStage::DialDetached));
    let m = m.step(Reply::Done).step(Reply::Done);
    assert!(matches!(m.stage, DriveStage::Rewind));
    let (phases, _) = run_drive(m);
    assert_eq!(phases[0], "data_copied");
}

#[test]
fn drive_names_each_step_that_fails() {
    let text = |m: DriveFollowPrimary| m.step(err("e")).result().unwrap().unwrap_err();
    assert_eq!(text(drive("queued")), "follow_primary: journal dialing: e");
    assert_eq!(
        text(drive("dialing").step(Reply::Done)),
        "follow_primary: dial new_primary peer1.local: e"
    );
    let dialed = |p: &str| drive(p).step(Reply::Done).step(Reply::Done);
    assert_eq!(text(dialed("dialing")), "follow_primary: get_status peer2.local: e");
    assert_eq!(
        text(dialed("dialing").step(status(true, true, 0))),
        "follow_primary: stop peer2.local: e"
    );
    assert_eq!(
        text(dialed("detached_stopped")),
        "follow_primary: create_slot node2 on peer1.local: e"
    );
    assert_eq!(text(dialed("detached_started")), "follow_primary: pcp_attach_node 2: e");
    let start = dialed("recovery_conf_written").step(err("e")).step(Reply::Done);
    assert_eq!(start.result(), Some(Err("follow_primary: start peer2.local: e".to_string())));
    let bad = DriveFollowPrimary::from_phase("o".into(), "x", node(2), node(1)).err();
    assert_eq!(bad.unwrap(), "follow_primary: unknown phase \"x\"");
}

#[test]
fn fan_out_follow_primary_enqueues_one_per_other_standby() {
    let targets = fan_out_follow_primary(&pool(), 0, 1);
    assert_eq!(targets, vec![node(2)]);
    let begin = follow_up(&targets[0], &node(1));
    assert_eq!(begin.payload, follow_payload("peer2.local"));
    assert_eq!((begin.phase, begin.exclusive), ("queued", false));
}

// ----- cluster init ----------------------------------------------------------

fn init(only: Option<i32>, raft: bool) -> ClusterInit {
    let req = ClusterInitRequest { only_node_id: only };
    match ClusterInit::after_role_check(req, &pool(), &pg(), raft, Ok(false)) {
        InitTurn::Ask(m) => m,
        InitTurn::Answer(_) => panic!("no answer was expected"),
    }
}

fn run_init(mut m: ClusterInit, fail: &dyn Fn(i32, &InitStage) -> bool) -> ClusterInitResponse {
    loop {
        if let Some(r) = m.answer() {
            return r.unwrap();
        }
        let reply = match &m.stage {
            ClusterInitStage::Standby(s) if fail(s.standby.id, &s.stage) => err("boom"),
            _ => Reply::Done,
        };
        m = m.step(reply);
    }
}

#[test]
fn cluster_init_happy_path_initialises_all_standbys() {
    let r = run_init(init(None, false), &|_, _| false);
    assert!(r.ok);
    assert_eq!(r.message, "cluster_init complete: 2 standby(s) initialised");
    assert_eq!(r.repl_user, "repl");
    let ids: Vec<i32> = r.standbys.iter().map(|s| s.node_id).collect();
    assert_eq!(ids, vec![1, 2]);
    assert!(r.standbys.iter().all(|s| s.ok && s.message == "initialised"));
}

#[test]
fn cluster_init_refuses_when_local_is_replica() {
    let req = || ClusterInitRequest { only_node_id: None };
    match ClusterInit::after_role_check(req(), &pool(), &pg(), false, Ok(true)) {
        InitTurn::Answer(Ok(r)) => {
            assert!(!r.ok && r.message.contains("not the primary"));
            assert!(r.standbys.is_empty());
        }
        _ => panic!("an answer was expected"),
    }
    match ClusterInit::after_role_check(req(), &pool(), &pg(), false, Err("x".to_string())) {
        InitTurn::Answer(Err(s)) => {
            assert_eq!(s.message, "cluster_init: check primary status: x")
        }
        _ => panic!("a refusal was expected"),
    }
}

#[test]
fn cluster_init_only_node_id_targets_one_standby() {
    let r = run_init(init(Some(2), false), &|_, _| false);
    assert_eq!(r.standbys.len(), 1);
    assert_eq!(r.standbys[0].hostname, "peer2.local");
    assert_eq!(run_init(init(Some(0), false), &|_, _| false).standbys.len(), 0);
}

#[test]
fn cluster_init_partial_failure_aggregates() {
    let r = run_init(init(None, false), &|id, s| id == 2 && matches!(s, InitStage::Basebackup));
    assert!(!r.ok);
    assert_eq!(r.message, "cluster_init: 1 of 2 standby(s) failed");
    assert!(r.standbys[0].ok);
    assert_eq!(r.standbys[1].message, "basebackup: boom");
}

#[test]
fn cluster_init_create_repl_role_failure_is_fatal() {
    let m = init(None, false).step(err("denied"));
    match m.answer() {
        Some(Err(s)) => {
            assert_eq!(s.message, "cluster_init: create replication role \"repl\": denied")
        }
        _ => panic!("a refusal was expected"),
    }
}

#[test]
fn cluster_init_stop_failure_drops_slot() {
    let m = init(Some(1), false).step(Reply::Done).step(Reply::Done).step(Reply::Done);
    let m = m.step(err("boom"));
    match &m.stage {
        ClusterInitStage::Standby(s) => assert!(matches!(s.stage, InitStage::DropSlot(..))),
        _ => panic!("a standby was expected"),
    }
    match m.step(Reply::Done).answer() {
        Some(Ok(r)) => assert_eq!(r.standbys[0].message, "stop: boom"),
        _ => panic!("an answer was expected"),
    }
}

#[test]
fn cluster_init_drop_slot_cleanup_failure_queues_maintenance() {
    let mut m = init(Some(1), false);
    for _ in 0..4 {
        m = m.step(Reply::Done);
    }
    let m = m.step(err("boom")).step(err("drop"));
    match &m.stage {
        ClusterInitStage::Standby(s) => match s.cleanup().unwrap() {
            MaintenancePayload::DropSlotCleanup { cause, target_hostname, .. } => {
                assert_eq!(cause, "cluster_init_basebackup_failed");
                assert_eq!(target_hostname, "local");
            }
        },
        _ => panic!("a standby was expected"),
    }
    let first = init(Some(1), false).step(Reply::Done).step(err("exists"));
    match first.answer() {
        Some(Ok(r)) => assert_eq!(r.standbys[0].message, "create slot node1: exists"),
        _ => panic!("an answer was expected"),
    }
}

#[test]
fn cluster_init_local_only_pool_emits_no_standby_results() {
    let single = NodePool { members: vec![node(0)], local_node_id: 0 };
    let req = ClusterInitRequest { only_node_id: None };
    let m = match ClusterInit::after_role_check(req, &single, &pg(), false, Ok(false)) {
        InitTurn::Ask(m) => m,
        InitTurn::Answer(_) => panic!("no answer was expected"),
    };
    let r = m.step(Reply::Done).answer().unwrap().ok().unwrap();
    assert!(r.ok);
    assert_eq!(
        r.message,
        "cluster_init: replication role repl ensured; no standby nodes selected"
    );
}

#[test]
fn cluster_init_seeds_the_lease() {
    let at_raft = || init(Some(0), true).step(Reply::Done);
    let text = |m: ClusterInit| m.answer().unwrap().ok().unwrap().message;
    let head = "cluster_init: replication role repl ensured; no standby nodes selected";
    let formed = || at_raft().step(Reply::Text("formed".to_string()));
    let won = TakeoverOutcome::Won { lease: Lease { holder: 0, term: 3 } };
    assert_eq!(
        text(formed().step(Reply::Lease(won))),
        format!("{head}; formed; lease seeded (node 0, term 3)")
    );
    let lost = TakeoverOutcome::Lost { current: Some(Lease { holder: 2, term: 9 }) };
    assert_eq!(
        text(formed().step(Reply::Lease(lost))),
        format!("{head}; formed; lease already held (node 2, term 9)")
    );
    let vacant = TakeoverOutcome::Lost { current: None };
    assert_eq!(text(formed().step(Reply::Lease(vacant))), format!("{head}; formed; lease already held"));
    assert_eq!(text(formed().step(err("e"))), format!("{head}; formed; lease seeding FAILED: e"));
    assert_eq!(
        text(at_raft().step(err("e"))),
        format!("{head}; raft membership bootstrap FAILED: e")
    );
}

// ----- restore_wal -------------------------------------------------------------

fn restore() -> RestoreWal {
    let req = RestoreWalRequest { wal_file: "0001".to_string(), dest_path: "pg_wal/x".to_string() };
    asked(RestoreWal::new(req, &pool()))
}

#[test]
fn restore_wal_rejects_empty_wal_file() {
    let req = RestoreWalRequest { wal_file: String::new(), dest_path: "x".to_string() };
    let e = answered(RestoreWal::new(req, &pool())).unwrap_err();
    assert_eq!((e.code, e.message.as_str()), (Code::InvalidArgument, "restore_wal: wal_file is required"));
}

#[test]
fn restore_wal_rejects_empty_dest_path() {
    let req = RestoreWalRequest { wal_file: "w".to_string(), dest_path: String::new() };
    assert_eq!(
        answered(RestoreWal::new(req, &pool())).unwrap_err().message,
        "restore_wal: dest_path is required"
    );
}

#[test]
fn restore_wal_fetches_from_first_peer_with_segment() {
    let mut m = restore();
    let none = WalCooldowns::new();
    let p = m.next_peer(&none, 0).unwrap();
    assert_eq!(p.id, 1);
    let r = m.after_fetch(&p, FetchOutcome::Fetched).unwrap().unwrap();
    assert_eq!(r.message, "restored 0001 from peer1.local");
}

#[test]
fn restore_wal_skips_to_next_peer_when_segment_missing() {
    let mut m = restore();
    let none = WalCooldowns::new();
    for outcome in [FetchOutcome::NotOnPeer, FetchOutcome::Unavailable, FetchOutcome::WriteFailed] {
        assert!(m.after_fetch(&node(1), outcome).is_none());
        assert!(!outcome.cools_down());
    }
    let _ = m.next_peer(&none, 0).unwrap();
    let p = m.next_peer(&none, 0).unwrap();
    assert_eq!(p.hostname, "peer2.local");
    assert!(m.next_peer(&none, 0).is_none());
}

#[test]
fn restore_wal_returns_not_found_when_no_peer_has_segment() {
    let e = restore().exhausted().unwrap_err();
    assert_eq!((e.code, e.message.as_str()), (
        Code::NotFound,
        "restore_wal: 0001 not found on any peer"
    ));
}

#[test]
fn restore_wal_dest_outside_pgdata_is_fatal() {
    let e = restore().after_fetch(&node(1), FetchOutcome::OutsidePgData).unwrap().unwrap_err();
    assert_eq!(e.message, "restore_wal: dest_path outside pg_data_dir");
}

#[test]
fn restore_wal_cools_down_a_failed_peer_across_invocations() {
    let mut cooldowns = WalCooldowns::new();
    assert!(FetchOutcome::FetchFailed.cools_down() && FetchOutcome::TimedOut.cools_down());
    cooldowns.note(1, 1000);
    assert_eq!(restore().next_peer(&cooldowns, 10_999).unwrap().id, 2);
    assert_eq!(restore().next_peer(&cooldowns, 11_000).unwrap().id, 1);
    cooldowns.note(2, 1000);
    assert!(restore().next_peer(&cooldowns, 5000).is_none());
}

// ----- cluster view ------------------------------------------------------------

#[test]
fn cluster_status_has_one_row_for_each_node() {
    let shuffled = NodePool { members: vec![node(2), node(0), node(1)], local_node_id: 0 };
    let reports = vec![
        Report::DialFailed("x".to_string()),
        Report::Failed("y".to_string()),
        Report::Answered(state(true, true, 1)),
    ];
    let r = cluster_status(&shuffled, reports);
    assert!(!r.all_reachable);
    let ids: Vec<i32> = r.nodes.iter().map(|n| n.node_id).collect();
    assert_eq!(ids, vec![0, 1, 2]);
    assert_eq!(r.nodes[0].error, "local get_status: y");
    assert!(r.nodes[1].reachable && r.nodes[1].status.is_some());
    assert_eq!(r.nodes[2].error, "dial peer: x");
}

#[test]
fn backends_that_do_not_answer_are_marked() {
    let answer = |port: i32| {
        Report::Answered(NodeConfigResponse { pg_port: port, pg_data_dir: "/d".to_string() })
    };
    let r = get_pgpool_backends(&pool(), vec![answer(1), answer(2), Report::Failed("z".to_string())]);
    assert!(!r.all_reachable);
    assert_eq!((r.backends[1].pg_port, r.backends[1].pg_data.as_str()), (2, "/d"));
    assert_eq!((r.backends[2].pg_port, r.backends[2].error.as_str()), (0, "get_node_config: z"));
    assert!(get_pgpool_backends(&pool(), vec![answer(1), answer(2), answer(3)]).all_reachable);
}

#[test]
fn cluster_recover_bypasses_stale_replay_marker() {
    let m = recover(false).step(Reply::Done).step(status(false, false, 0));
    let hook = asked(RecoveryHook::new(m.recovery_request()));
    assert!(hook.bypass);
    assert_eq!(hook.key, "primary=0,standby=1");
    let recovery = asked(hook.resolve(&pool()));
    assert!(matches!(recovery.stage, RecoveryStage::Begin));
    assert_eq!(recovery.slot, "node1");
}

#[test]
fn cluster_handoff_catches_silent_lag_when_receive_lsn_is_stale() {
    let s = NodeStatus { replication_lag_bytes: 0, ..state(true, true, BASE_LSN) };
    let m = handoff_at_status(false)
        .step(Reply::Status(s))
        .step(Reply::Lsn(BASE_LSN + MAX_HANDOFF_LAG_BYTES + 1024));
    let r = m.answer().unwrap().unwrap();
    assert!(!r.ok);
    assert!(r.message.contains("bytes behind local primary"));
}

#[test]
fn cluster_handoff_unknown_lsns_with_allow_lag_proceed() {
    let m = handoff_at_status(true).step(status(true, true, 0)).step(Reply::Begun("h".to_string()));
    assert!(matches!(m.ladder().unwrap().stage, HandoffStage::Checkpoint));
}

#[test]
fn restore_wal_skips_unreachable_peer() {
    let mut m = restore();
    let none = WalCooldowns::new();
    let p1 = m.next_peer(&none, 0).unwrap();
    assert!(m.after_fetch(&p1, FetchOutcome::Unavailable).is_none());
    let p2 = m.next_peer(&none, 0).unwrap();
    let r = m.after_fetch(&p2, FetchOutcome::Fetched).unwrap().unwrap();
    assert!(r.ok);
    assert!(r.message.contains("peer2.local"));
}

#[test]
fn restore_wal_propagates_peer_rpc_error_as_try_next() {
    let mut m = restore();
    let none = WalCooldowns::new();
    let p1 = m.next_peer(&none, 0).unwrap();
    assert!(m.after_fetch(&p1, FetchOutcome::FetchFailed).is_none());
    let p2 = m.next_peer(&none, 0).unwrap();
    let r = m.after_fetch(&p2, FetchOutcome::Fetched).unwrap().unwrap();
    assert!(r.ok);
    assert!(r.message.contains("peer2.local"));
}

#[test]
fn the_slot_of_a_follower_is_kept_on_the_new_primary() {
    let m = drive("detached_stopped").step(Reply::Done).step(Reply::Done);
    assert!(matches!(m.stage, DriveStage::CreateSlot));
    assert_eq!(m.callee().unwrap().id, m.new_primary.id);
    let m = m.step(Reply::Done).step(Reply::Done);
    assert!(matches!(m.stage, DriveStage::Rewind));
    assert_eq!(m.callee().unwrap().id, m.detached.id);
    let m = m.step(err("r")).step(err("b"));
    assert!(matches!(m.stage, DriveStage::DropSlot(..)));
    assert_eq!(m.callee().unwrap().id, m.new_primary.id);
}

#[test]
fn the_old_primary_is_attached_after_a_handoff() {
    let h = ladder("local_started");
    assert!(matches!(h.stage, HandoffStage::Attach));
    assert_eq!((h.callee().map(|n| n.id), h.backend()), (None, Some(0)));
    let h = ladder("target_promoted");
    assert!(matches!(h.stage, HandoffStage::CreateSlot));
    assert_eq!((h.callee().map(|n| n.id), h.backend()), (Some(1), None));
}

#[test]
fn the_rebuild_is_asked_for_by_name_alone() {
    let req = recover(false).recovery_request();
    for node in [req.primary.unwrap(), req.standby.unwrap()] {
        assert_eq!((node.pg_port, node.pg_data.as_str()), (0, ""));
    }
}

#[test]
fn a_resumed_follow_up_goes_on_at_its_rung() {
    for (phase, first) in [("queued", "journal"), ("data_copied", "dial")] {
        let run = resumed_follow(phase);
        let FollowUpStage::Drive(d) = &run.stage else { panic!("no follow-up") };
        assert_eq!((d.op_id.as_str(), d.slot.as_str()), (run.op_id.as_str(), "node2"));
        match d.stage {
            DriveStage::Journal(1) => assert_eq!(first, "journal"),
            DriveStage::DialDetached => assert_eq!(first, "dial"),
            _ => panic!("another stage"),
        }
    }
    let run = resumed_follow("data_copied").step(Reply::Done).step(Reply::Done);
    let FollowUpStage::Drive(d) = &run.stage else { panic!("no follow-up") };
    assert!(matches!(d.stage, DriveStage::Configure));
}
