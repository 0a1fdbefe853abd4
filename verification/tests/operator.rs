use pg_agent_core::config::{NodeConfig, NodePool};
use pg_agent_core::inflight_ops::{InflightOp, InflightPayload, InflightStatus};
use pg_agent_core::localserver::requests::{
    inflight_to_proto, intent_to_proto, list_inflight_ops, list_maintenance, listing_failed,
    lookup_failed, map_intent_lookup_error, parse_inflight_statuses, parse_status_filter,
    require_id, retry_answer, retry_maintenance, time_string, Abandonment, AllowAsync,
    AllowAsyncStage,
};
use pg_agent_core::maintenance::{
    list, MaintenanceIntent, MaintenancePayload, MaintenanceStatus, SkippedIntent,
};
use pg_agent_core::orchestration::{Reply, Turn};
use pg_agent_core::status::{internal, Code, OpResult, Status};
use pg_agent_core::time::{Timestamp, MAX_SECS, MIN_SECS};

fn pool() -> NodePool {
    NodePool {
        members: vec![NodeConfig { id: 4, hostname: "local".to_string() }],
        local_node_id: 4,
    }
}

fn intent(id: &str, status: MaintenanceStatus) -> MaintenanceIntent {
    let t = Timestamp { secs: 0, nanos: 0 };
    MaintenanceIntent {
        id: id.to_string(),
        status,
        payload: MaintenancePayload::cleanup("node1", "peer1.local", "test", "boom"),
        attempts: 0,
        last_error: String::new(),
        created_at: t,
        updated_at: Timestamp { secs: 1_700_000_000, nanos: 5 },
        next_retry_at: None,
    }
}

fn op(status: InflightStatus) -> InflightOp {
    let t = Timestamp { secs: 0, nanos: 0 };
    InflightOp {
        id: "op".to_string(),
        status,
        payload: InflightPayload::AllowAsync { node_id: 4 },
        phase: "disarming".to_string(),
        started_at: t,
        updated_at: t,
        completed_at: Some(Timestamp { secs: 1, nanos: 0 }),
        discharged_at: None,
        last_error: None,
    }
}

fn answered<M>(turn: Turn<M>) -> Result<OpResult, Status> {
    match turn {
        Turn::Answer(a) => a,
        Turn::Ask(_) => panic!("an answer was expected"),
    }
}

fn strings(v: &[&str]) -> Vec<String> {
    v.iter().map(|s| s.to_string()).collect()
}

#[test]
fn localserver_internal_maps_anyhow_to_internal_status() {
    let err = internal("boom".to_string());
    assert_eq!(err.code, Code::Internal);
    assert_eq!(err.message, "boom");
}

#[test]
fn intent_proto_round_trips_payload_shape() {
    let mut body = serde_json::Map::new();
    body.insert("op".to_string(), serde_json::Value::from("drop_slot_cleanup"));
    body.insert("slot_name".to_string(), serde_json::Value::from("node1"));
    let bytes = serde_json::to_vec(&serde_json::Value::Object(body)).unwrap();
    let proto = intent_to_proto(&intent("alpha", MaintenanceStatus::Pending), Ok(bytes)).ok().unwrap();
    assert_eq!(proto.id, "alpha");
    assert_eq!(proto.op, "drop_slot_cleanup");
    assert_eq!(proto.status, "pending");
    let parsed: serde_json::Value = serde_json::from_slice(&proto.payload).unwrap();
    assert_eq!(parsed["op"], "drop_slot_cleanup");
    assert_eq!(parsed["slot_name"], "node1");
    assert_eq!(proto.created_at, "1970-01-01T00:00:00.000000000Z");
    assert_eq!(proto.updated_at, "2023-11-14T22:13:20.000000005Z");
    assert_eq!(proto.next_retry_at, "");
}

#[test]
fn intent_attempts_keep_their_width() {
    let mut i = intent("a", MaintenanceStatus::Pending);
    i.attempts = u32::MAX;
    assert_eq!(intent_to_proto(&i, Ok(vec![])).ok().unwrap().attempts, -1);
    i.attempts = 5;
    assert_eq!(intent_to_proto(&i, Ok(vec![])).ok().unwrap().attempts, 5);
    let e = intent_to_proto(&i, Err("bad".to_string())).err().unwrap();
    assert_eq!(e.message, "serialize maintenance payload: bad");
}

#[test]
fn get_inflight_op_returns_full_payload() {
    let p = inflight_to_proto(&op(InflightStatus::Done), Ok(vec![7])).ok().unwrap();
    assert_eq!((p.op.as_str(), p.status.as_str(), p.payload.len()), ("allow_async", "done", 1));
    assert_eq!(p.completed_at, "1970-01-01T00:00:01.000000000Z");
    assert_eq!(p.last_error, "");
    let e = inflight_to_proto(&op(InflightStatus::Done), Err("x".to_string())).err().unwrap();
    assert_eq!(e.message, "inflight_to_proto: marshal payload: x");
}

#[test]
fn list_maintenance_filters_by_status() {
    assert_eq!(
        parse_status_filter(&strings(&["pending", "abandoned", "done"])),
        Ok(vec![
            MaintenanceStatus::Pending,
            MaintenanceStatus::Abandoned,
            MaintenanceStatus::Done
        ])
    );
    assert_eq!(parse_status_filter(&vec![]), Ok(vec![]));
}

#[test]
fn list_maintenance_rejects_unknown_filter() {
    let e = list_maintenance(&strings(&["done", "bogus", "worse"])).unwrap_err();
    assert_eq!(e.code, Code::InvalidArgument);
    assert_eq!(
        e.message,
        "list_maintenance: invalid status filter \"bogus\": expected one of pending/done/abandoned"
    );
    assert_eq!(listing_failed("list_maintenance", "io").message, "list_maintenance: io");
}

#[test]
fn list_inflight_ops_returns_seeded_op_and_filters_by_status() {
    let seeded = |id: &str, phase: &str, status| InflightOp {
        id: id.to_string(),
        phase: phase.to_string(),
        payload: InflightPayload::Handoff {
            from_node_id: 0,
            to_node_id: 1,
            to_hostname: "peer1.local".to_string(),
            slot_name: "node0".to_string(),
            allow_lag: false,
        },
        ..op(status)
    };
    let ops = [
        seeded("alpha", "slot_created", InflightStatus::InProgress),
        seeded("bravo", "done", InflightStatus::Done),
    ];
    let listed = |names: &[&str]| {
        let filter = list_inflight_ops(&strings(names)).unwrap();
        let shown = ops.iter().filter(|o| filter.is_empty() || filter.contains(&o.status));
        shown.map(|o| inflight_to_proto(o, Ok(vec![1])).unwrap()).collect::<Vec<_>>()
    };
    assert_eq!(listed(&[]).len(), 2);
    let only = listed(&["in_progress"]);
    assert_eq!(only.len(), 1);
    assert_eq!(only[0].id, "alpha");
    assert_eq!(only[0].phase, "slot_created");
    assert_eq!(only[0].op, "handoff");
    assert_eq!(
        parse_inflight_statuses(&strings(&["in_progress", "done", "abandoned"])),
        Ok(vec![InflightStatus::InProgress, InflightStatus::Done, InflightStatus::Abandoned])
    );
    let e = list_inflight_ops(&strings(&["pending"])).unwrap_err();
    assert_eq!(
        e.message,
        "list_inflight_ops: unknown status filter \"pending\"; expected one of: in_progress, \
         done, abandoned"
    );
}

#[test]
fn get_maintenance_missing_id_returns_not_found() {
    let e = map_intent_lookup_error("x", "read: No such file or directory (os error 2)");
    assert_eq!((e.code, e.message.as_str()), (Code::NotFound, "maintenance intent \"x\" not found"));
    assert_eq!(map_intent_lookup_error("x", "Intent NOT Found").code, Code::NotFound);
    let e = map_intent_lookup_error("x", "permission denied");
    assert_eq!((e.code, e.message.as_str()), (Code::Internal, "maintenance store: permission denied"));
}

#[test]
fn get_maintenance_empty_id_returns_invalid_argument() {
    let e = require_id("get_maintenance", "").unwrap_err();
    assert_eq!((e.code, e.message.as_str()), (
        Code::InvalidArgument,
        "get_maintenance: id is required"
    ));
    assert_eq!(require_id("get_maintenance", "a"), Ok(()));
    let e = lookup_failed("get_inflight_op", "gone");
    assert_eq!((e.code, e.message.as_str()), (Code::NotFound, "get_inflight_op: gone"));
}

#[test]
fn retry_maintenance_reschedules_pending_intent() {
    assert!(retry_maintenance(&intent("a", MaintenanceStatus::Pending)).is_none());
    let r = retry_answer("a", Ok(())).unwrap();
    assert!(r.ok);
    assert_eq!(retry_answer("a", Err("not found".to_string())).unwrap_err().code, Code::NotFound);
}

#[test]
fn retry_maintenance_refuses_non_pending_intent() {
    let r = retry_maintenance(&intent("a", MaintenanceStatus::Done)).unwrap().unwrap();
    assert!(!r.ok);
    assert_eq!(
        r.message,
        "intent a is in status \"done\"; only pending intents can be retried"
    );
}

#[test]
fn abandon_inflight_op_marks_terminal_and_includes_reason() {
    let turn = Abandonment::new(Ok(op(InflightStatus::InProgress)), String::new());
    let a = match turn {
        Turn::Ask(a) => a,
        Turn::Answer(_) => panic!("no answer was expected"),
    };
    assert_eq!(a.reason, "operator-abandoned");
    assert_eq!(a.answer(Ok(())).unwrap().message, "op op abandoned (was at phase disarming)");
    assert_eq!(a.answer(Err("io".to_string())).unwrap_err().message, "abandon_inflight_op: io");
    match Abandonment::new(Ok(op(InflightStatus::InProgress)), "why".to_string()) {
        Turn::Ask(a) => assert_eq!(a.reason, "why"),
        Turn::Answer(_) => panic!("no answer was expected"),
    }
}

#[test]
fn abandon_inflight_op_refuses_terminal_op() {
    let r = answered(Abandonment::new(Ok(op(InflightStatus::Abandoned)), String::new())).unwrap();
    assert!(!r.ok && r.message.contains("only in-progress"));
    let e = answered(Abandonment::new(Err("gone".to_string()), String::new())).unwrap_err();
    assert_eq!((e.code, e.message.as_str()), (Code::NotFound, "abandon_inflight_op: gone"));
}

#[test]
fn allow_async_disarms_and_journals() {
    let m = AllowAsync::new(&pool()).step(Reply::Flag(false));
    let begin = m.begin();
    assert_eq!((begin.phase, begin.exclusive), ("disarming", false));
    assert_eq!(begin.payload, InflightPayload::AllowAsync { node_id: 4 });
    let m = m.step(Reply::Begun("x".to_string()));
    assert_eq!(m.op_id, "x");
    let m = m.step(Reply::Done);
    assert!(matches!(m.stage, AllowAsyncStage::Complete));
    let r = m.step(Reply::Failed("journal".to_string())).answer().unwrap().unwrap();
    assert!(r.ok && r.message.starts_with("quorum commit disarmed"));
}

#[test]
fn allow_async_refuses_and_fails() {
    let fail = |e: &str| Reply::Failed(e.to_string());
    let start = || AllowAsync::new(&pool());
    let r = start().step(Reply::Flag(true)).answer().unwrap().unwrap();
    assert!(!r.ok && r.message.contains("not the primary"));
    let text = |m: AllowAsync| m.answer().unwrap().unwrap_err().message;
    assert_eq!(text(start().step(fail("e"))), "allow-async: is_in_recovery: e");
    let begin = || start().step(Reply::Flag(false));
    assert_eq!(text(begin().step(fail("e"))), "allow-async: journal begin: e");
    let m = begin().step(Reply::Begun("x".to_string())).step(fail("e"));
    assert!(matches!(m.stage, AllowAsyncStage::Abandon(_)));
    assert_eq!(text(m.step(Reply::Done)), "allow-async: disarm: e");
}

#[test]
fn the_first_and_the_last_second_have_a_date() {
    let at = |secs, nanos| time_string(Some(Timestamp { secs, nanos }));
    assert_eq!(at(MIN_SECS, 0), "-262143-01-01T00:00:00.000000000Z");
    assert_eq!(at(MAX_SECS, 999_999_999), "+262142-12-31T23:59:59.999999999Z");
    assert_eq!(time_string(None), "");
}

#[test]
fn list_maintenance_no_filter_returns_all() {
    let all = vec![intent("a", MaintenanceStatus::Pending), intent("b", MaintenanceStatus::Done)];
    let filter = list_maintenance(&Vec::new()).unwrap();
    assert_eq!(list(all, Vec::new(), &filter).0.len(), 2);
}

#[test]
fn list_maintenance_surfaces_skipped() {
    let skipped = vec![SkippedIntent {
        path: "/tmp/corrupt.json".to_string(),
        error: "bad json".to_string(),
    }];
    let (_, skipped) = list(Vec::new(), skipped, &list_maintenance(&Vec::new()).unwrap());
    assert_eq!(skipped.len(), 1);
    assert_eq!(skipped[0].path, "/tmp/corrupt.json");
}

#[test]
fn get_maintenance_returns_existing_intent() {
    let p = intent_to_proto(&intent("alpha", MaintenanceStatus::Pending), Ok(vec![1])).unwrap();
    assert_eq!(p.id, "alpha");
    assert_eq!(p.op, "drop_slot_cleanup");
    assert_eq!(p.status, "pending");
    assert!(!p.payload.is_empty());
}

#[test]
fn retry_maintenance_missing_id_returns_not_found() {
    let e = map_intent_lookup_error("nope", "intent nope not found");
    assert_eq!(e.code, Code::NotFound);
}
