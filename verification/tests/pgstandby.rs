use pg_agent_core::orchestration::Reply;
use pg_agent_core::pgstandby::{
    append_tail, join_path, parse_kb_fraction, process_line, process_text, recovery_conf,
    render_recovery_conf, run_pg_binary, PgRun, RecoveryConfRun, RewindOpts, StandbyExec, StandbyRun, StandbyStage,
    StderrDrain, WriteRecoveryConfOpts, STDERR_TAIL_MAX,
};

#[test]
fn parse_kb_fraction_basebackup_shape() {
    assert_eq!(
        parse_kb_fraction("55564/1261024 kB (4%), 1/1 tablespace"),
        Some((55564, 1261024))
    );
}

#[test]
fn parse_kb_fraction_rewind_shape() {
    assert_eq!(
        parse_kb_fraction("55564/1261024 kB (4%) copied"),
        Some((55564, 1261024))
    );
}

#[test]
fn parse_kb_fraction_uppercase_kb_unit() {
    assert_eq!(parse_kb_fraction("1/2 KB"), Some((1, 2)));
}

#[test]
fn parse_kb_fraction_rejects_garbage() {
    for line in [
        "",
        "no kB here",
        "garbage/text kB ok",
        "1024 kB",
        "FATAL: out of disk",
        "WARNING: pg_basebackup: aborted",
    ] {
        assert_eq!(parse_kb_fraction(line), None, "expected None for {line:?}");
    }
}

#[test]
fn parse_kb_fraction_edges() {
    assert_eq!(parse_kb_fraction(" +1 / -2 kB"), Some((1, -2)));
    assert_eq!(
        parse_kb_fraction("9223372036854775807/-9223372036854775808 kB"),
        Some((i64::MAX, i64::MIN))
    );
    assert_eq!(parse_kb_fraction("9223372036854775808/1 kB"), None);
    assert_eq!(parse_kb_fraction("000000000000000000000000000001/2 kB"), Some((1, 2)));
    assert_eq!(parse_kb_fraction("1/2/3 kB"), None);
    assert_eq!(parse_kb_fraction("x KB 1/2 kB"), None);
    assert_eq!(parse_kb_fraction("1/2 KB then kB"), None);
    assert_eq!(parse_kb_fraction("-/2 kB"), None);
}

#[test]
fn append_tail_joins_with_newline() {
    let mut t = String::new();
    append_tail(&mut t, "first");
    append_tail(&mut t, "second");
    assert_eq!(t, "first\nsecond");
}

#[test]
fn append_tail_drops_overflow_lines() {
    let mut t = String::new();
    let big = "x".repeat(STDERR_TAIL_MAX - 10);
    append_tail(&mut t, &big);
    let before = t.clone();
    append_tail(&mut t, "this line will not fit");
    assert_eq!(t, before, "overflow line should have been dropped");
}

#[test]
fn append_tail_counts_bytes() {
    let mut t = String::new();
    let wide = "é".repeat(STDERR_TAIL_MAX / 2);
    append_tail(&mut t, &wide);
    assert_eq!(t.len(), STDERR_TAIL_MAX);
    append_tail(&mut t, "");
    assert_eq!(t.len(), STDERR_TAIL_MAX);
    let mut u = "x".repeat(STDERR_TAIL_MAX - 2);
    append_tail(&mut u, "é");
    assert_eq!(u.len(), STDERR_TAIL_MAX - 2);
    append_tail(&mut u, "y");
    assert_eq!(u.len(), STDERR_TAIL_MAX);
}

#[test]
fn drain_stderr_dispatches_progress_and_captures_tail() {
    let bytes: &[u8] = b"55564/1261024 kB (4%), 1/1 tablespace\
        \r110000/1261024 kB (8%), 1/1 tablespace\
        \rFATAL: could not connect to server\n\
        pg_basebackup: error: aborted\n";
    let mut drain = StderrDrain::new();
    let calls = drain.feed(bytes);
    assert_eq!(drain.finish(), None);
    assert_eq!(
        calls,
        vec![
            (55564 * 1024, 1261024 * 1024),
            (110000 * 1024, 1261024 * 1024),
        ]
    );
    assert_eq!(
        drain.tail,
        "FATAL: could not connect to server\npg_basebackup: error: aborted"
    );
}

#[test]
fn drain_stderr_flushes_partial_final_line() {
    let mut drain = StderrDrain::new();
    assert!(drain.feed(b"FATAL: incomplete").is_empty());
    assert_eq!(drain.tail, "");
    assert_eq!(drain.finish(), None);
    assert_eq!(drain.tail, "FATAL: incomplete");
}

#[test]
fn drain_stderr_handles_no_progress_callback() {
    let mut drain = StderrDrain::new();
    let _ = drain.feed(b"1/2 kB\nFATAL: x\n");
    assert!(!drain.tail.contains("1/2 kB"));
    assert!(drain.tail.contains("FATAL: x"));
}

#[test]
fn drain_does_not_depend_on_pieces() {
    let bytes: &[u8] = b"\r\n1/2 kB\rFATAL: \xff\n\n 3/4 KB";
    let mut whole = StderrDrain::new();
    let mut a = whole.feed(bytes);
    a.extend(whole.finish());
    let mut pieces = StderrDrain::new();
    let mut b = Vec::new();
    for byte in bytes {
        b.extend(pieces.feed(&[*byte]));
    }
    b.extend(pieces.finish());
    assert_eq!(a, b);
    assert_eq!(a, vec![(1024, 2048), (3072, 4096)]);
    assert_eq!(whole.tail, pieces.tail);
    assert_eq!(whole.tail, "FATAL: \u{fffd}");
}

#[test]
fn lines_are_reported_or_kept() {
    let mut tail = String::new();
    assert_eq!(process_line(b"  1/2 kB", &mut tail), Some((1024, 2048)));
    assert_eq!(process_line(b" \t ", &mut tail), None);
    assert_eq!(tail, "");
    assert_eq!(process_text(" oops\u{a0}", &mut tail), None);
    assert_eq!(tail, "oops");
}

#[test]
fn render_recovery_conf_no_tls_matches_template() {
    let got = render_recovery_conf("host=server1 port=5432 user=repl", "node0").unwrap();
    assert_eq!(
        got,
        "# managed by pg_agent\n\
         primary_conninfo = 'host=server1 port=5432 user=repl'\n\
         primary_slot_name = 'node0'\n\
         restore_command = 'pg_agentc restore-wal %f %p'\n"
    );
}

#[test]
fn render_recovery_conf_rejects_quoting_break_chars() {
    for bad in [
        "host=server'1 port=5432 user=repl",
        "host=server\n port=5432",
        "host=server\rport=5432",
    ] {
        let err = render_recovery_conf(bad, "node0").unwrap_err().to_string();
        assert!(err.contains("forbidden characters"), "got {err:?}");
    }
}

#[test]
fn render_recovery_conf_rejects_empty_inputs() {
    assert!(render_recovery_conf("", "node0").is_err());
    assert!(render_recovery_conf("host=x", "").is_err());
}

#[test]
fn render_recovery_conf_rejects_bad_slot_name() {
    assert!(render_recovery_conf("host=x", "bad slot name").is_err());
    assert!(render_recovery_conf("host=x", "drop;").is_err());
}

fn valid_opts() -> WriteRecoveryConfOpts {
    WriteRecoveryConfOpts {
        primary_host: "server1".into(),
        primary_port: 5432,
        repl_user: "repl".into(),
        slot_name: "node0".into(),
    }
}

#[test]
fn validate_accepts_well_formed_input() {
    valid_opts().validate().unwrap();
}

#[test]
fn validate_rejects_each_bad_field() {
    type Mutator = fn(&mut WriteRecoveryConfOpts);
    let cases: &[(&str, Mutator)] = &[
        ("primary_host", |o| o.primary_host.clear()),
        ("primary_host", |o| o.primary_host = "bad host".into()),
        ("primary_port", |o| o.primary_port = 0),
        ("slot_name", |o| o.slot_name.clear()),
        ("slot_name", |o| o.slot_name = "drop;".into()),
        ("repl_user", |o| o.repl_user.clear()),
        ("repl_user", |o| o.repl_user = "with space".into()),
    ];
    for (label, mutate) in cases {
        let mut o = valid_opts();
        mutate(&mut o);
        assert!(
            o.validate().is_err(),
            "expected {label:?} mutation to fail validation"
        );
    }
}

#[test]
fn validate_names_the_first_fault() {
    let mut o = valid_opts();
    o.primary_host = "a\n".into();
    o.primary_port = 0;
    assert_eq!(o.validate(), Err("primary_host contains invalid characters".to_string()));
    o.primary_host = "::1".into();
    assert_eq!(o.validate(), Err("primary_port must be greater than zero".to_string()));
    o.primary_port = 1;
    o.slot_name = "a:b".into();
    o.repl_user = "".into();
    assert_eq!(o.validate(), Err("slot_name contains invalid characters".to_string()));
    o.slot_name = "a_b.c-d9".into();
    assert_eq!(o.validate(), Err("repl_user is required".to_string()));
    o.repl_user = "r\u{e9}pl".into();
    assert_eq!(o.validate(), Err("repl_user contains invalid characters".to_string()));
    let r = RewindOpts { primary_host: "".into(), primary_port: 1, repl_user: "r".into() };
    assert_eq!(r.validate(), Err("primary_host is required".to_string()));
}

#[test]
fn recovery_conf_checks_the_options_first() {
    let mut o = valid_opts();
    assert!(recovery_conf(&o, "host=server1").unwrap().contains("primary_slot_name = 'node0'"));
    o.primary_port = 0;
    assert_eq!(
        recovery_conf(&o, "host=server1"),
        Err("write_recovery_conf: validate: primary_port must be greater than zero".to_string())
    );
    assert_eq!(recovery_conf(&valid_opts(), ""), Err("conninfo is required".to_string()));
}

#[test]
fn programs_and_their_arguments() {
    let x = StandbyExec::new("/usr/lib/postgresql/17".to_string(), "/d".to_string(), ());
    assert_eq!(x.basebackup_bin(), "/usr/lib/postgresql/17/bin/pg_basebackup");
    assert_eq!(x.rewind_bin(), "/usr/lib/postgresql/17/bin/pg_rewind");
    assert_eq!(
        x.basebackup_args("host=a", "node1", true),
        vec![
            "--pgdata",
            "/d",
            "--dbname",
            "host=a",
            "--wal-method=stream",
            "--checkpoint=fast",
            "--no-password",
            "--slot",
            "node1",
            "--progress"
        ]
    );
    assert_eq!(x.basebackup_args("host=a", "", false).len(), 7);
    assert_eq!(
        x.rewind_args("host=a"),
        vec!["--target-pgdata", "/d", "--source-server", "host=a", "--no-password", "--progress"]
    );
    assert_eq!(join_path("", "bin"), "bin");
    assert_eq!(join_path("/", "bin"), "/bin");
}

#[test]
fn runs_of_programs_come_to_errors() {
    let run = |r: PgRun, tail: &str| run_pg_binary("/h/bin/pg_rewind", "pg_rewind", Some("/h"), r, tail);
    assert_eq!(run(PgRun::Succeeded, "x"), Ok(()));
    assert_eq!(run(PgRun::Exited(Some(1)), ""), Err("pg_rewind: exit 1".to_string()));
    assert_eq!(
        run(PgRun::Exited(None), "FATAL"),
        Err("pg_rewind: exit ?; stderr: FATAL".to_string())
    );
    assert_eq!(
        run(PgRun::SpawnFailed("e".to_string()), ""),
        Err("spawn /h/bin/pg_rewind: e".to_string())
    );
    assert_eq!(run(PgRun::WaitFailed("e".to_string()), ""), Err("wait pg_rewind: e".to_string()));
    assert!(run(PgRun::NotFound, "").unwrap_err().contains("check that pghome=/h is correct"));
    assert!(run_pg_binary("b", "b", None, PgRun::NotFound, "").unwrap_err().contains("pghome=? is"));
}

#[test]
fn rewind_cleans_before_and_after() {
    let m = StandbyRun::rewind().step(Reply::Done);
    assert!(matches!(m.stage, StandbyStage::Rewind));
    let m = m.step(Reply::Done);
    assert!(matches!(m.stage, StandbyStage::CleanSlotsAfter));
    assert_eq!(m.step(Reply::Done).result(), Some(Ok(())));
    let failed = StandbyRun::rewind().step(Reply::Failed("x".to_string()));
    assert_eq!(failed.result(), Some(Err("rewind: pre-clean replslots: x".to_string())));
    let failed = StandbyRun::basebackup().step(Reply::Done).step(Reply::Failed("x".to_string()));
    assert_eq!(failed.result(), Some(Err("basebackup: x".to_string())));
}

#[test]
fn the_configuration_is_written_before_the_mark() {
    let begin = || RecoveryConfRun::new(&valid_opts(), "host=server1").unwrap();
    let m = begin();
    let (name, contents) = m.due().unwrap();
    assert_eq!(name, "myrecovery.conf");
    assert!(contents.contains("primary_conninfo = 'host=server1'"));
    assert!(m.result().is_none());
    let m = m.step(Reply::Done);
    assert_eq!(m.due(), Some(("standby.signal", "")));
    let m = m.step(Reply::Done);
    assert!(m.due().is_none());
    assert_eq!(m.result(), Some(Ok(())));
    let m = begin().step(Reply::Failed("disk".to_string()));
    assert_eq!(
        m.result(),
        Some(Err("write_recovery_conf: write myrecovery.conf: disk".to_string()))
    );
    let m = begin().step(Reply::Done).step(Reply::Failed("disk".to_string()));
    assert_eq!(
        m.result(),
        Some(Err("write_recovery_conf: write standby.signal: disk".to_string()))
    );
    assert_eq!(
        RecoveryConfRun::new(&valid_opts(), "").err(),
        Some("conninfo is required".to_string())
    );
}
