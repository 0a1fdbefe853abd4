use pg_agent_core::config::{NodeConfig, NodePool};
use pg_agent_core::inflight_ops::{InflightOp, InflightPayload, InflightStatus};
use pg_agent_core::maintenance::{
    backoff, fail, intent_file, is_intent_file, list, list_pending, make_id, process_sweep,
    DropSlotRun, DropStage, MaintenanceIntent, MaintenancePayload, MaintenanceStatus, Retry,
    SkippedIntent, BASE_BACKOFF, MAX_ATTEMPTS, MAX_BACKOFF,
};
use pg_agent_core::orchestration::Reply;
use pg_agent_core::time::Timestamp;
use std::time::Duration;

fn at(secs: i64) -> Timestamp {
    Timestamp { secs, nanos: 0 }
}

fn payload() -> MaintenancePayload {
    MaintenancePayload::DropSlotCleanup {
        slot_name: "node1".to_string(),
        target_hostname: "peer1.local".to_string(),
        cause: "test".to_string(),
        initial_error: "boom".to_string(),
    }
}

fn intent(id: &str, created: i64, status: MaintenanceStatus) -> MaintenanceIntent {
    MaintenanceIntent {
        id: id.to_string(),
        status,
        payload: payload(),
        attempts: 0,
        last_error: String::new(),
        created_at: at(created),
        updated_at: at(created),
        next_retry_at: None,
    }
}

fn pool() -> NodePool {
    NodePool {
        members: vec![
            NodeConfig { id: 0, hostname: "local".to_string() },
            NodeConfig { id: 1, hostname: "peer1.local".to_string() },
        ],
        local_node_id: 0,
    }
}

fn owner() -> InflightOp {
    InflightOp {
        id: "op".to_string(),
        status: InflightStatus::InProgress,
        payload: InflightPayload::Recovery {
            primary_node_id: 0,
            standby_node_id: 1,
            standby_hostname: "peer1.local".to_string(),
            slot_name: "node1".to_string(),
        },
        phase: "slot_created".to_string(),
        started_at: at(0),
        updated_at: at(0),
        completed_at: None,
        discharged_at: None,
        last_error: None,
    }
}

#[test]
fn backoff_doubles_then_caps() {
    assert_eq!(Duration::from_secs(backoff(1)), Duration::from_secs(30));
    assert_eq!(Duration::from_secs(backoff(2)), Duration::from_secs(60));
    assert_eq!(Duration::from_secs(backoff(3)), Duration::from_secs(120));
    assert_eq!(Duration::from_secs(backoff(4)), Duration::from_secs(240));
    assert_eq!(Duration::from_secs(backoff(5)), Duration::from_secs(480));
    assert_eq!(backoff(6), MAX_BACKOFF);
    assert_eq!(backoff(10), MAX_BACKOFF);
    assert_eq!(backoff(u32::MAX), MAX_BACKOFF);
}

#[test]
fn backoff_zero_or_one_is_base() {
    assert_eq!(backoff(0), BASE_BACKOFF);
    assert_eq!(backoff(1), BASE_BACKOFF);
}

#[test]
fn status_names_on_the_wire() {
    assert_eq!(MaintenanceStatus::Pending.as_wire(), "pending");
    assert_eq!(MaintenanceStatus::Done.as_wire(), "done");
    assert_eq!(MaintenanceStatus::Abandoned.as_wire(), "abandoned");
    assert_eq!(payload().op_name(), "drop_slot_cleanup");
}

#[test]
fn append_then_get_round_trips() {
    let made = MaintenanceIntent::new(payload(), Timestamp { secs: 1, nanos: 500 }, 7);
    assert_eq!(made.id, "1000000500-drop_slot_cleanup-7");
    assert_eq!(made.status, MaintenanceStatus::Pending);
    assert_eq!(made.attempts, 0);
    assert_eq!(made.payload, payload());
    assert_eq!(made.created_at, made.updated_at);
    assert!(made.next_retry_at.is_none());
    assert_eq!(intent_file(&made.id), Ok("1000000500-drop_slot_cleanup-7.json".to_string()));
}

#[test]
fn ids_of_points_that_do_not_fit_start_with_zero() {
    assert_eq!(make_id(&payload(), at(9_300_000_000), 0), "0-drop_slot_cleanup-0");
    assert_eq!(make_id(&payload(), at(-1), 3), "-1000000000-drop_slot_cleanup-3");
}

#[test]
fn get_rejects_empty_id() {
    assert_eq!(intent_file(""), Err("maintenance: id is required".to_string()));
}

#[test]
fn only_json_files_hold_intents() {
    assert!(is_intent_file("a.json"));
    assert!(is_intent_file("1-drop_slot_cleanup-0.json"));
    assert!(!is_intent_file(".json"));
    assert!(!is_intent_file("a.json.tmp"));
    assert!(!is_intent_file("json"));
    assert!(!is_intent_file(""));
}

#[test]
fn list_pending_returns_only_pending_oldest_first() {
    let all = vec![
        intent("c", 30, MaintenanceStatus::Pending),
        intent("b", 10, MaintenanceStatus::Pending),
        intent("a", 10, MaintenanceStatus::Pending),
        intent("d", 5, MaintenanceStatus::Done),
    ];
    let r = list_pending(all, at(31), 24 * 3600 * 1_000_000_000);
    let ids: Vec<&str> = r.pending.iter().map(|i| i.id.as_str()).collect();
    assert_eq!(ids, vec!["a", "b", "c"]);
    assert!(r.expired.is_empty());
}

#[test]
fn list_pending_prunes_terminal_past_retention() {
    let all = vec![
        intent("old", 0, MaintenanceStatus::Abandoned),
        intent("kept", 100, MaintenanceStatus::Done),
        intent("waiting", 0, MaintenanceStatus::Pending),
    ];
    let r = list_pending(all, at(101), 100_000_000_000);
    assert_eq!(r.expired.len(), 1);
    assert_eq!(r.expired[0].id, "old");
    assert_eq!(r.pending.len(), 1);
    let exact = list_pending(vec![intent("old", 0, MaintenanceStatus::Done)], at(100), 100_000_000_000);
    assert!(exact.expired.is_empty());
    let part = list_pending(vec![intent("old", 0, MaintenanceStatus::Done)], at(100), 99_999_999_999);
    assert_eq!(part.expired.len(), 1);
}

#[test]
fn list_filters_by_status() {
    let all = || {
        vec![
            intent("a", 1, MaintenanceStatus::Pending),
            intent("b", 2, MaintenanceStatus::Done),
            intent("c", 3, MaintenanceStatus::Abandoned),
        ]
    };
    let (every, _) = list(all(), vec![], &vec![]);
    assert_eq!(every.len(), 3);
    let (done, _) = list(all(), vec![], &vec![MaintenanceStatus::Done]);
    assert_eq!(done.len(), 1);
    assert_eq!(done[0].id, "b");
}

#[test]
fn list_surfaces_corrupt_files() {
    let bad = |p: &str| SkippedIntent { path: p.to_string(), error: "parse".to_string() };
    let (_, skipped) = list(vec![], vec![bad("z.json"), bad("a.json")], &vec![]);
    assert_eq!(skipped[0].path, "a.json");
    assert_eq!(skipped[1].path, "z.json");
}

#[test]
fn mark_attempt_bumps_counter_and_sets_next_retry() {
    let i = intent("a", 0, MaintenanceStatus::Pending)
        .mark_attempt("boom".to_string(), at(10), at(40));
    assert_eq!(i.attempts, 1);
    assert_eq!(i.last_error, "boom");
    assert_eq!(i.next_retry_at, Some(at(40)));
    assert_eq!(i.updated_at, at(10));
    assert_eq!(i.status, MaintenanceStatus::Pending);
}

#[test]
fn mark_done_clears_retry_and_error() {
    let i = intent("a", 0, MaintenanceStatus::Pending)
        .mark_attempt("boom".to_string(), at(10), at(40))
        .mark_done(at(50));
    assert_eq!(i.status, MaintenanceStatus::Done);
    assert_eq!(i.last_error, "");
    assert!(i.next_retry_at.is_none());
    assert_eq!(i.attempts, 1);
}

#[test]
fn mark_abandoned_keeps_the_error() {
    let i = intent("a", 0, MaintenanceStatus::Pending).mark_abandoned("gone".to_string(), at(9));
    assert_eq!(i.status, MaintenanceStatus::Abandoned);
    assert_eq!(i.last_error, "gone");
    assert!(i.next_retry_at.is_none());
}

#[test]
fn reschedule_refuses_non_pending() {
    let e = intent("a", 0, MaintenanceStatus::Done).reschedule(at(1), at(2)).unwrap_err();
    assert_eq!(e, "maintenance: cannot reschedule intent a in status Done");
    let e = intent("a", 0, MaintenanceStatus::Abandoned).reschedule(at(1), at(2)).unwrap_err();
    assert_eq!(e, "maintenance: cannot reschedule intent a in status Abandoned");
}

#[test]
fn reschedule_does_not_consume_attempt() {
    let i = intent("a", 0, MaintenanceStatus::Pending).reschedule(at(1), at(2)).unwrap();
    assert_eq!(i.attempts, 0);
    assert_eq!(i.next_retry_at, Some(at(2)));
    assert_eq!(i.updated_at, at(1));
}

#[test]
fn worker_honours_next_retry_at_in_future() {
    let mut later = intent("later", 0, MaintenanceStatus::Pending);
    later.next_retry_at = Some(at(100));
    let mut now = intent("now", 0, MaintenanceStatus::Pending);
    now.next_retry_at = Some(at(50));
    let fresh = intent("fresh", 0, MaintenanceStatus::Pending);
    let due = process_sweep(vec![later, now, fresh], at(50));
    let ids: Vec<&str> = due.iter().map(|i| i.id.as_str()).collect();
    assert_eq!(ids, vec!["now", "fresh"]);
}

#[test]
fn worker_success_path_marks_done_in_one_sweep() {
    let run = DropSlotRun::new(intent("a", 0, MaintenanceStatus::Pending), &pool());
    assert!(!run.local);
    let run = run.step(Reply::Entry(None));
    assert!(matches!(run.stage, DropStage::Dial));
    let run = run.step(Reply::Done);
    assert!(matches!(run.stage, DropStage::DropRemote));
    let run = run.step(Reply::Done);
    assert!(matches!(run.stage, DropStage::MarkDone));
    let run = run.step(Reply::Done);
    assert_eq!(run.result(), Some(Ok(())));
}

#[test]
fn worker_drops_a_local_slot_itself() {
    let mut i = intent("a", 0, MaintenanceStatus::Pending);
    i.payload = MaintenancePayload::cleanup("node1", "local", "c", "e");
    let run = DropSlotRun::new(i, &pool()).step(Reply::Entry(None));
    assert!(matches!(run.stage, DropStage::DropLocal));
    let run = run.step(Reply::Failed("busy".to_string()));
    assert_eq!(run.failure(), Some("busy".to_string()));
}

#[test]
fn worker_transient_failure_marks_attempt_with_backoff() {
    let run = DropSlotRun::new(intent("a", 0, MaintenanceStatus::Pending), &pool())
        .step(Reply::Entry(None))
        .step(Reply::Failed("refused".to_string()));
    assert_eq!(run.failure(), Some("peer client for \"peer1.local\": refused".to_string()));
    assert_eq!(fail(run.intent.attempts, at(1000)), Retry::At(at(1030)));
    let run = run.step(Reply::Done);
    assert_eq!(run.result(), Some(Ok(())));
}

#[test]
fn worker_names_the_rpc_and_the_timeout() {
    let start = || {
        DropSlotRun::new(intent("a", 0, MaintenanceStatus::Pending), &pool())
            .step(Reply::Entry(None))
            .step(Reply::Done)
    };
    let run = start().step(Reply::Failed("in use".to_string()));
    assert_eq!(
        run.failure(),
        Some("drop slot rpc \"node1\" on \"peer1.local\": in use".to_string())
    );
    let run = start().time_out();
    assert_eq!(
        run.failure(),
        Some("drop slot \"node1\" on \"peer1.local\": per-op timeout 30s".to_string())
    );
}

#[test]
fn worker_exhausts_budget_then_abandons() {
    let now = at(0);
    assert_eq!(fail(0, now), Retry::At(at(30)));
    assert_eq!(fail(1, now), Retry::At(at(60)));
    assert_eq!(fail(2, now), Retry::At(at(120)));
    assert_eq!(fail(3, now), Retry::At(at(240)));
    assert_eq!(fail(MAX_ATTEMPTS - 1, now), Retry::GiveUp);
    assert_eq!(fail(u32::MAX, now), Retry::GiveUp);
}

#[test]
fn worker_unknown_target_fails_intent() {
    let mut i = intent("a", 0, MaintenanceStatus::Pending);
    i.payload = MaintenancePayload::cleanup("node1", "nowhere", "c", "e");
    let run = DropSlotRun::new(i, &pool());
    assert!(matches!(run.stage, DropStage::FailUnknown));
    let text = run.failure().unwrap();
    assert!(text.starts_with("resolve target host \"nowhere\": "), "{text}");
}

#[test]
fn worker_retains_a_slot_that_is_owned() {
    let run = DropSlotRun::new(intent("a", 0, MaintenanceStatus::Pending), &pool())
        .step(Reply::Entry(Some(owner())));
    assert!(matches!(run.stage, DropStage::MarkDone));
}

#[test]
fn worker_reports_what_it_could_not_note() {
    let done = DropSlotRun::new(intent("a", 0, MaintenanceStatus::Pending), &pool())
        .step(Reply::Entry(Some(owner())))
        .step(Reply::Failed("disk".to_string()));
    assert_eq!(done.result(), Some(Err("mark maintenance intent done: disk".to_string())));
    let mut last = intent("a", 0, MaintenanceStatus::Pending);
    last.attempts = 4;
    let failed = |i: MaintenanceIntent| {
        DropSlotRun::new(i, &pool())
            .step(Reply::Entry(None))
            .step(Reply::Failed("x".to_string()))
            .step(Reply::Failed("disk".to_string()))
            .result()
    };
    assert_eq!(failed(last), Some(Err("mark abandoned: disk".to_string())));
    assert_eq!(
        failed(intent("a", 0, MaintenanceStatus::Pending)),
        Some(Err("mark attempt: disk".to_string()))
    );
}

#[test]
fn ids_and_files_of_two_intents_differ() {
    let a = MaintenanceIntent::new(payload(), at(1), 0);
    let b = MaintenanceIntent::new(payload(), at(1), 1);
    assert_eq!(a.id, "1000000000-drop_slot_cleanup-0");
    assert_ne!(a.id, b.id);
    assert_ne!(intent_file(&a.id), intent_file(&b.id));
}

#[test]
fn a_cleanup_calls_the_host_of_its_slot() {
    let run = DropSlotRun::new(intent("a", 0, MaintenanceStatus::Pending), &pool());
    assert!(run.callee().is_none());
    let run = run.step(Reply::Entry(None));
    assert!(matches!(run.stage, DropStage::Dial));
    assert_eq!(run.callee().unwrap().hostname, run.intent.payload.target_hostname());
}

#[test]
fn payload_op_name_is_that_of_its_operation() {
    assert_eq!(payload().op_name(), "drop_slot_cleanup");
}
