use pg_agent_core::config::NodeConfig;
use pg_agent_core::orchestration::NodeStatus;
use pg_agent_core::peers::{
    describe, dial_failed, drain_progress, fetch_wal_result, peer_address, rpc_result, rpc_value,
    timed_out, ConnectionAges, FetchReply, NoOpPeerRegistry, ProgressEvent,
};
use pg_agent_core::preconditions::{
    log_unverifiable, validate_cluster_preconditions, ClusterIntent, PreconditionOutcome, Probe,
    PRECONDITION_TIMEOUT,
};
use pg_agent_core::status::OpResult;

fn node(id: i32, hostname: &str) -> NodeConfig {
    NodeConfig { id, hostname: hostname.to_string() }
}

fn status(running: bool, recovery: bool, state: &str) -> NodeStatus {
    NodeStatus {
        is_running: running,
        is_in_recovery: recovery,
        is_ready: true,
        replication_lag_bytes: 0,
        replication_state: state.to_string(),
        is_postgres_running: running,
        is_pgpool_running: true,
        is_postgres_status_ok: true,
        is_pgpool_status_ok: true,
        timeline_id: 1,
        current_wal_lsn: 0,
        last_flush_lsn: 0,
    }
}

#[test]
fn no_op_registry_errors_on_client() {
    let reg = NoOpPeerRegistry;
    let e = reg.client(&node(1, "x")).unwrap_err();
    assert!(e.contains("NoOpPeerRegistry"), "got {e}");
    reg.close().unwrap();
}

#[test]
fn cache_redials_after_age_expiry() {
    let mut ages = ConnectionAges::new(5);
    assert!(!ages.is_fresh(7, 0));
    ages.made(7, 100);
    assert!(ages.is_fresh(7, 104));
    assert!(!ages.is_fresh(7, 105));
    assert!(!ages.is_fresh(8, 104));
    ages.made(7, 105);
    assert!(ages.is_fresh(7, 106));
    ages.close();
    assert!(!ages.is_fresh(7, 106));
}

#[test]
fn dial_fails_fast_when_peer_unreachable() {
    let addr = peer_address(&node(1, "127.0.0.1"), 1);
    assert_eq!(addr, "http://127.0.0.1:1");
    let chain = vec!["transport error".to_string(), "connection refused".to_string()];
    assert_eq!(
        dial_failed(&addr, &chain),
        "peer dial http://127.0.0.1:1: transport error: connection refused"
    );
    assert_eq!(describe(&vec!["only".to_string()]), "only");
}

#[test]
fn replies_come_to_results() {
    let res = |ok: bool| OpResult { ok, message: "m".to_string() };
    assert_eq!(rpc_result("start", Ok(res(true))), Ok(()));
    assert_eq!(rpc_result("start", Ok(res(false))), Err("peer start: m".to_string()));
    assert_eq!(rpc_result("stop", Err("gone".to_string())), Err("peer stop: gone".to_string()));
    assert_eq!(rpc_value("get_status", Ok(5)), Ok(5));
    assert_eq!(
        rpc_value::<u8>("get_status", Err("e".to_string())),
        Err("peer get_status: e".to_string())
    );
    assert_eq!(timed_out("drop_slot"), "peer drop_slot: timed out after 30s");
}

#[test]
fn missing_wal_is_no_error() {
    assert_eq!(fetch_wal_result(FetchReply::Stream(1u8)), Ok(Some(1)));
    assert_eq!(fetch_wal_result::<u8>(FetchReply::NotFound), Ok(None));
    assert_eq!(
        fetch_wal_result::<u8>(FetchReply::Failed("e".to_string())),
        Err("peer fetch_wal: e".to_string())
    );
    assert_eq!(
        fetch_wal_result::<u8>(FetchReply::TimedOut),
        Err("peer fetch_wal: no response within 5s (peer unreachable?)".to_string())
    );
}

#[test]
fn progress_needs_done() {
    let phase = |p: &str| ProgressEvent::Phase(p.to_string());
    assert_eq!(drain_progress("peer rewind", phase("streaming")), None);
    assert_eq!(drain_progress("peer rewind", phase("done")), Some(Ok(())));
    assert_eq!(
        drain_progress("peer rewind", ProgressEvent::Ended),
        Some(Err("peer rewind: stream ended without 'done' phase".to_string()))
    );
    assert_eq!(
        drain_progress("peer rewind", ProgressEvent::Broken("reset".to_string())),
        Some(Err("peer rewind: stream error: reset".to_string()))
    );
}

#[test]
fn unreachable_peer_yields_unverifiable_within_the_budget() {
    let n = node(1, "db1");
    let check = |probe: Probe| {
        validate_cluster_preconditions(
            ClusterIntent::DropSlotBecauseStandbyDown { detached: &n },
            probe,
        )
    };
    assert_eq!(PRECONDITION_TIMEOUT, 5);
    assert_eq!(
        check(Probe::TimedOut),
        PreconditionOutcome::Unverifiable { reason: "db1 did not answer within 5s".to_string() }
    );
    assert_eq!(
        check(Probe::DialFailed("no route".to_string())),
        PreconditionOutcome::Unverifiable { reason: "dial db1: no route".to_string() }
    );
    assert_eq!(
        check(Probe::StatusFailed("eof".to_string())),
        PreconditionOutcome::Unverifiable { reason: "get_status(db1): eof".to_string() }
    );
}

#[test]
fn only_a_streaming_standby_shields_its_slot() {
    let n = node(1, "db1");
    let check = |s: NodeStatus| {
        validate_cluster_preconditions(
            ClusterIntent::DropSlotBecauseStandbyDown { detached: &n },
            Probe::Status(s),
        )
    };
    assert_eq!(
        check(status(true, true, "streaming")),
        PreconditionOutcome::Refuse {
            message: "failover: refusing to drop slot node1: announced-failed standby node 1 \
                      (db1) is reachable, running, and streaming — the failure report is \
                      wrong, and dropping its slot would break healthy replication. No \
                      action taken."
                .to_string()
        }
    );
    assert_eq!(check(status(true, true, "catchup")), PreconditionOutcome::Pass);
    assert_eq!(check(status(true, false, "streaming")), PreconditionOutcome::Pass);
    assert_eq!(check(status(false, true, "streaming")), PreconditionOutcome::Pass);
    let log = log_unverifiable("standby_down", "x");
    assert_eq!((log.check.as_str(), log.reason.as_str()), ("standby_down", "x"));
    assert_eq!(
        log.message,
        "precondition unverifiable; proceeding (refusing on absent evidence would trade \
         split-brain risk for guaranteed unavailability — see docs/promotion-authority.md §3)"
    );
}
