use pg_agent_core::inflight_ops::{InflightOp, InflightPayload, InflightStatus};
use pg_agent_core::orchestration::{Reply, Turn};
use pg_agent_core::pcp::NodeInfo;
use pg_agent_core::peerserver::{
    basebackup, command_answer, configure_standby, fetch_wal, final_event, progress_event, rewind,
    validate_slot_name, wal_open_failed, AttachNode, AttachStage, BasebackupGate, DropSlot,
    DropStage, GateStage, PeerTlsConfig, StreamedOp, WalOpenError,
};
use pg_agent_core::status::{internal, Code, OpResult, Status};
use pg_agent_core::time::Timestamp;

fn backend(id: i32, up: bool) -> NodeInfo {
    NodeInfo {
        id,
        hostname: format!("db{id}"),
        port: 5432,
        status_code: if up { 2 } else { 3 },
        lb_weight: "0.33".into(),
        status_name: if up { "up" } else { "down" }.into(),
        actual_status: "up".into(),
        role: "standby".into(),
        actual_role: "standby".into(),
        replication_delay: "0".into(),
        replication_state: "none".into(),
        sync_state: "none".into(),
    }
}

fn attach(states: &[(i32, bool)]) -> AttachNode {
    let infos = states.iter().map(|(id, up)| backend(*id, *up)).collect();
    match AttachNode::new(1, 0, Ok(infos)) {
        Turn::Ask(m) => m,
        Turn::Answer(a) => panic!("unexpected answer {a:?}"),
    }
}

fn err(e: &str) -> Reply {
    Reply::Failed(e.to_string())
}

fn owner() -> InflightOp {
    let t = Timestamp { secs: 0, nanos: 0 };
    InflightOp {
        id: "r1".to_string(),
        status: InflightStatus::InProgress,
        payload: InflightPayload::Recovery {
            primary_node_id: 0,
            standby_node_id: 1,
            standby_hostname: "db1".into(),
            slot_name: "node1".into(),
        },
        phase: "slot_created".to_string(),
        started_at: t,
        updated_at: t,
        completed_at: None,
        discharged_at: None,
        last_error: None,
    }
}

#[test]
fn peerserver_internal_maps_anyhow_to_internal_status() {
    let err = internal("boom".to_string());
    assert_eq!(err.code, Code::Internal);
    assert_eq!(err.message, "boom");
}

#[test]
fn start_propagates_systemd_failure_as_internal() {
    let e = command_answer(Err("start boom".to_string())).unwrap_err();
    assert_eq!(e, Status { code: Code::Internal, message: "start boom".to_string() });
    assert_eq!(command_answer(Ok(())), Ok(OpResult { ok: true, message: String::new() }));
}

#[test]
fn attach_node_attaches_a_down_backend() {
    let m = attach(&[(0, true), (1, false)]);
    assert!(matches!(m.stage, AttachStage::AttachNode));
    let r = m.step(Reply::Done).answer().unwrap().unwrap();
    assert_eq!(r, OpResult { ok: true, message: "attach_node: backend 1 attached".to_string() });
}

#[test]
fn attach_node_leaves_an_up_backend_alone() {
    let m = attach(&[(0, true), (1, true)]);
    let r = m.answer().unwrap().unwrap();
    assert!(r.ok && r.message.contains("no action"));
    assert!(attach(&[]).answer().unwrap().unwrap().ok);
}

#[test]
fn attach_node_fixes_a_primaryless_map_first() {
    let m = attach(&[(0, false), (1, false)]);
    assert!(matches!(m.stage, AttachStage::AttachPrimary));
    let m = m.step(Reply::Done);
    assert!(matches!(m.stage, AttachStage::AttachNode));
    let r = m.step(err("pcp")).answer().unwrap().unwrap();
    assert_eq!(r.message, "attach_node: pcp_attach_node(1): pcp");
    let r = attach(&[(0, false), (1, false)]).step(err("x")).answer().unwrap().unwrap();
    assert!(!r.ok);
    assert_eq!(
        r.message,
        "attach_node: refusing to attach node 1 into a primary-less map — attaching primary \
         backend 0 first failed: x"
    );
}

#[test]
fn attach_node_reports_unavailable_pgpool_as_not_ok() {
    match AttachNode::new(1, 0, Err("down".to_string())) {
        Turn::Answer(Ok(r)) => {
            assert!(!r.ok);
            assert_eq!(r.message, "attach_node: local pgpool map unavailable: down");
        }
        _ => panic!("an answer was expected"),
    }
}

#[test]
fn create_slot_rejects_empty_name() {
    let e = validate_slot_name("").unwrap_err();
    assert_eq!((e.code, e.message.as_str()), (Code::InvalidArgument, "slot_name is required"));
}

#[test]
fn create_slot_rejects_injection_attempt() {
    let e = validate_slot_name("node1; DROP TABLE x;").unwrap_err();
    assert_eq!(e.message, "slot_name contains invalid characters");
    assert!(validate_slot_name("node1\n").is_err());
    assert_eq!(validate_slot_name("node1"), Ok(()));
}

#[test]
fn drop_slot_calls_db() {
    let m = DropSlot::new("node1".to_string()).ok().unwrap().step(Reply::Entry(None));
    assert!(matches!(m.stage, DropStage::Drop));
    assert!(m.step(Reply::Done).answer().unwrap().unwrap().ok);
    let m = DropSlot::new("node1".to_string()).ok().unwrap().step(err("j")).step(err("in use"));
    assert_eq!(m.answer().unwrap().unwrap_err().message, "in use");
}

#[test]
fn drop_slot_refuses_while_an_orchestration_owns_it() {
    let m = DropSlot::new("node1".to_string()).ok().unwrap().step(Reply::Entry(Some(owner())));
    let r = m.answer().unwrap().unwrap();
    assert!(r.ok);
    assert_eq!(
        r.message,
        "slot node1 retained: in-flight recovery (id=r1, phase=slot_created) owns it"
    );
}

#[test]
fn drop_slot_rejects_empty_name() {
    assert_eq!(DropSlot::new(String::new()).err().unwrap().code, Code::InvalidArgument);
}

fn configure(host: &str, port: i32) -> Result<u16, Status> {
    configure_standby(host.to_string(), port, "repl".to_string(), "node1".to_string())
        .map(|o| o.primary_port)
}

#[test]
fn configure_standby_writes_recovery_conf() {
    let (host, user, slot) = ("primary.local", "repl", "node1");
    let opts = configure_standby(host.to_string(), 5432, user.to_string(), slot.to_string());
    let opts = opts.unwrap();
    assert_eq!((opts.primary_host.as_str(), opts.primary_port), (host, 5432));
    assert_eq!((opts.repl_user.as_str(), opts.slot_name.as_str()), (user, slot));
}

#[test]
fn configure_standby_rejects_bad_host() {
    let e = configure("primary host=attacker", 5432).unwrap_err();
    assert_eq!(e.code, Code::InvalidArgument);
    assert_eq!(
        e.message,
        "invalid configure_standby: primary_host contains invalid characters"
    );
}

#[test]
fn configure_standby_rejects_zero_port() {
    let e = configure("primary.local", 0).unwrap_err();
    assert_eq!(e.message, "invalid configure_standby: primary_port must be greater than zero");
}

#[test]
fn configure_standby_rejects_negative_port() {
    let e = configure("primary.local", -1).unwrap_err();
    assert_eq!(e.message, "primary_port must fit in u16 and be > 0");
    assert_eq!(configure("primary.local", 65536).unwrap_err().code, Code::InvalidArgument);
    assert_eq!(configure("primary.local", 65535), Ok(65535));
}

#[test]
fn basebackup_streams_progress_then_done() {
    let p = progress_event(StreamedOp::Basebackup, 512, 1024);
    assert_eq!((p.phase.as_str(), p.bytes_done, p.bytes_total), ("streaming", 512, 1024));
    let last = final_event(StreamedOp::Basebackup, Ok(())).ok().unwrap();
    assert_eq!((last.phase.as_str(), last.bytes_done, last.message.as_str()), ("done", 0, ""));
}

#[test]
fn rewind_streams_progress_then_done() {
    for (done, total) in [(0, 200), (200, 200)] {
        let p = progress_event(StreamedOp::Rewind, done, total);
        assert_eq!((p.phase.as_str(), p.bytes_done, p.bytes_total), ("rewinding", done, total));
        assert_eq!(p.message, "");
    }
    let last = final_event(StreamedOp::Rewind, Ok(())).ok().unwrap();
    assert_eq!(last.phase, "done");
    let e = final_event(StreamedOp::Rewind, Err("boom".to_string())).err().unwrap();
    assert_eq!((e.code, e.message.as_str()), (Code::Internal, "rewinding: boom"));
}

#[test]
fn basebackup_surface_subprocess_error_in_stream() {
    let e = final_event(StreamedOp::Basebackup, Err("basebackup boom".to_string())).err().unwrap();
    assert_eq!((e.code, e.message.as_str()), (Code::Internal, "streaming: basebackup boom"));
}

#[test]
fn basebackup_refuses_when_postgres_running() {
    let g = BasebackupGate::new().step(Reply::Flag(false), 0);
    assert!(matches!(g.stage, GateStage::AskRunning));
    let e = g.step(Reply::Flag(true), 0).refusal().unwrap();
    assert_eq!(e.code, Code::FailedPrecondition);
    assert!(e.message.contains("postgres is running"));
}

#[test]
fn basebackup_waits_for_postgres_to_settle() {
    let g = BasebackupGate::new().step(Reply::Flag(true), 29_999);
    assert!(matches!(g.stage, GateStage::Wait));
    let g = g.step(Reply::Done, 29_999);
    assert!(g.refusal().is_none());
    let e = g.step(Reply::Flag(true), 30_000).refusal().unwrap();
    assert!(e.message.contains("stuck in a transitional state for 30s"));
    let g = BasebackupGate::new().step(Reply::Flag(false), 0).step(Reply::Flag(false), 0);
    assert!(matches!(g.stage, GateStage::Clear) && g.refusal().is_none());
    assert_eq!(BasebackupGate::new().step(err("bus"), 0).refusal().unwrap().code, Code::Internal);
}

#[test]
fn basebackup_rejects_bad_host() {
    let r = basebackup("primary host=attacker".into(), 5432, "repl".into(), "node1".into());
    assert_eq!(r.err().unwrap().code, Code::InvalidArgument);
    assert!(basebackup("primary.local".into(), 5432, "repl".into(), "node1".into()).is_ok());
}

#[test]
fn rewind_rejects_zero_port() {
    let e = rewind("primary.local".into(), 0, "repl".into()).unwrap_err();
    assert_eq!(e.message, "invalid rewind: primary_port must be greater than zero");
    assert!(rewind("primary.local".into(), 1, "repl".into()).is_ok());
}

#[test]
fn fetch_wal_returns_not_found_for_unknown_segment() {
    let e = wal_open_failed("missing.wal", WalOpenError::NotFound("missing.wal".to_string()));
    assert_eq!((e.code, e.message.as_str()), (
        Code::NotFound,
        "WAL segment not found: missing.wal"
    ));
}

#[test]
fn fetch_wal_returns_invalid_argument_for_invalid_filename() {
    let bad = WalOpenError::Invalid { wal_file: "bad name".into(), reason: "stub invalid".into() };
    let e = wal_open_failed("bad name", bad);
    assert_eq!((e.code, e.message.as_str()), (
        Code::InvalidArgument,
        "invalid wal_file \"bad name\": stub invalid"
    ));
    let e = wal_open_failed("w", WalOpenError::Other("io".to_string()));
    assert_eq!((e.code, e.message.as_str()), (Code::Internal, "open w: io"));
}

#[test]
fn fetch_wal_rejects_empty_filename() {
    assert_eq!(fetch_wal("").unwrap_err().message, "wal_file is required");
    assert_eq!(fetch_wal("0001"), Ok(()));
}

#[test]
fn only_listed_names_are_let_in() {
    let tls = PeerTlsConfig {
        allowed_peer_sans: vec!["node1.local".to_string(), "node2.local".to_string()],
    };
    let names = |v: &[&str]| v.iter().map(|s| s.to_string()).collect::<Vec<_>>();
    assert_eq!(tls.check_peer(&names(&["x", "node2.local"])), Ok(()));
    assert_eq!(
        tls.check_peer(&names(&["intruder.local", "x"])),
        Err("peer cert DNS SANs [\"intruder.local\", \"x\"] not in allowlist".to_string())
    );
    assert_eq!(
        tls.check_peer(&vec![]),
        Err("peer cert DNS SANs [] not in allowlist".to_string())
    );
}
