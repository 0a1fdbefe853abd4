use pg_agent_core::config::{PcpConfig, DEFAULT_PCP_PORT, DEFAULT_PCP_USER};
use pg_agent_core::pcp::{
    attach_command, combine_output, detach_command, exit_code, node_count, node_count_command,
    node_info_command, parse_node_info_all, run_pcp, spawn_error, NodeInfo, PcpCli, PcpRun,
};

fn cfg_with(user: Option<&str>, port: Option<u16>) -> PcpConfig {
    PcpConfig {
        user: user.map(String::from),
        port,
        pgpool_service: None,
    }
}

#[test]
fn new_uses_defaults_when_unset() {
    let cli = PcpCli::new(&cfg_with(None, None));
    assert_eq!(cli.host, "localhost");
    assert_eq!(cli.port, DEFAULT_PCP_PORT);
    assert_eq!(cli.user, DEFAULT_PCP_USER);
}

#[test]
fn new_respects_explicit_values() {
    let cli = PcpCli::new(&cfg_with(Some("monitor"), Some(11001)));
    assert_eq!(cli.host, "localhost");
    assert_eq!(cli.port, 11001);
    assert_eq!(cli.user, "monitor");
}

#[test]
fn common_args_layout() {
    let cli = PcpCli::new(&cfg_with(Some("pgpool"), Some(9898)));
    assert_eq!(
        cli.common_args(),
        vec!["-h", "localhost", "-p", "9898", "-U", "pgpool", "-w",]
    );
}

#[test]
fn combine_output_handles_each_empty_combination() {
    assert_eq!(combine_output(b"", b""), "");
    assert_eq!(combine_output(b"3\n", b""), "3\n");
    assert_eq!(combine_output(b"", b"oops\n"), "oops\n");
    assert_eq!(combine_output(b"hello\n", b"warn\n"), "hello\n\nwarn\n");
}

#[test]
fn combine_output_handles_non_utf8_gracefully() {
    let bytes = &[b'o', b'k', 0xFF, b'\n'];
    let s = combine_output(bytes, b"");
    assert!(s.starts_with("ok"));
    assert!(s.ends_with("\n"));
}

const DOCS_EXAMPLE: &str = "\
/tmp 11002 1 0.500000 waiting up primary primary 0 none none 2021-02-27 14:51:30
/tmp 11003 1 0.500000 waiting up standby standby 0 streaming async 2021-02-27 14:51:30
";

#[test]
fn parse_node_info_all_parses_docs_example() {
    let nodes = parse_node_info_all(DOCS_EXAMPLE).unwrap();
    assert_eq!(nodes.len(), 2);
    assert_eq!(nodes[0].id, 0);
    assert_eq!(nodes[0].hostname, "/tmp");
    assert_eq!(nodes[0].port, 11002);
    assert_eq!(nodes[0].status_code, 1);
    let weight: f64 = nodes[0].lb_weight.parse().unwrap();
    assert!((weight - 0.5).abs() < 1e-9);
    assert_eq!(nodes[0].status_name, "waiting");
    assert_eq!(nodes[0].actual_status, "up");
    assert_eq!(nodes[0].role, "primary");
    assert_eq!(nodes[0].actual_role, "primary");
    assert_eq!(nodes[0].replication_delay, "0");
    assert_eq!(nodes[0].replication_state, "none");
    assert_eq!(nodes[0].sync_state, "none");
    assert_eq!(nodes[1].id, 1);
    assert_eq!(nodes[1].role, "standby");
    assert_eq!(nodes[1].replication_state, "streaming");
}

#[test]
fn parse_node_info_all_handles_down_backend() {
    let raw = "\
server1 5432 2 0.333333 up up primary primary 0 none none 2025-12-04 10:00:00
server2 5432 2 0.333333 up up standby standby 1024 streaming async 2025-12-04 10:00:00
server3 5432 3 0.333333 down down standby standby 0 none none 2025-12-04 09:55:00
";
    let nodes = parse_node_info_all(raw).unwrap();
    assert_eq!(nodes.len(), 3);
    assert!(nodes[0].is_up());
    assert!(nodes[1].is_up());
    assert!(!nodes[2].is_up());
    assert_eq!(nodes[2].status_name, "down");
    assert_eq!(nodes[2].status_code, 3);
}

#[test]
fn is_up_predicate_covers_waiting_and_up() {
    let mut n = NodeInfo {
        id: 0,
        hostname: "h".into(),
        port: 5432,
        status_code: 1,
        lb_weight: "1.0".into(),
        status_name: "waiting".into(),
        actual_status: "up".into(),
        role: "primary".into(),
        actual_role: "primary".into(),
        replication_delay: "0".into(),
        replication_state: "none".into(),
        sync_state: "none".into(),
    };
    assert!(n.is_up(), "status_code=1 (waiting) should be up");
    n.status_code = 2;
    assert!(n.is_up(), "status_code=2 (up) should be up");
    n.status_code = 3;
    assert!(!n.is_up(), "status_code=3 (down) should not be up");
    n.status_code = 0;
    assert!(!n.is_up(), "status_code=0 (init) should not be up");
}

#[test]
fn parse_node_info_all_skips_blank_lines() {
    let raw = "\n\n/tmp 11002 1 0.500000 waiting up primary primary 0 none none 2021-02-27 14:51:30\n\n";
    let nodes = parse_node_info_all(raw).unwrap();
    assert_eq!(nodes.len(), 1);
    assert_eq!(nodes[0].id, 0);
}

#[test]
fn parse_node_info_all_returns_empty_for_empty_input() {
    let nodes = parse_node_info_all("").unwrap();
    assert!(nodes.is_empty());
}

#[test]
fn parse_node_info_all_fails_on_short_line() {
    let raw = "/tmp 11002 1 0.500000 waiting up\n";
    let err = parse_node_info_all(raw).unwrap_err().to_string();
    assert!(err.contains("expected"));
    assert_eq!(
        err,
        "pcp_node_info -a: line 1 \"/tmp 11002 1 0.500000 waiting up\": expected ≥11 tokens, got 6"
    );
}

#[test]
fn parse_node_info_all_fails_on_unparseable_port() {
    let raw =
        "/tmp notaport 1 0.500000 waiting up primary primary 0 none none 2021-02-27 14:51:30\n";
    let err = parse_node_info_all(raw).unwrap_err().to_string();
    assert!(err.contains("port"));
    assert!(err.ends_with("port \"notaport\": invalid digit found in string"), "{err}");
}

#[test]
fn parse_node_info_all_fails_on_unparseable_status_code() {
    let raw =
        "/tmp 11002 X 0.500000 waiting up primary primary 0 none none 2021-02-27 14:51:30\n";
    let err = parse_node_info_all(raw).unwrap_err().to_string();
    assert!(err.contains("status_code"));
}

#[test]
fn numbers_out_of_range_are_refused() {
    let row = |port: &str, code: &str, weight: &str| {
        let line = format!("h {port} {code} {weight} up up standby standby 0 none none\r\n");
        parse_node_info_all(&line)
    };
    assert!(row("65535", "255", "1").is_ok());
    assert!(row("65536", "1", "1").unwrap_err().contains("number too large"));
    assert!(row("1", "256", "1").unwrap_err().contains("status_code \"256\""));
    assert!(row("+5432", "+1", "1e-3").is_ok());
    assert!(row("-1", "1", "1").is_err());
}

#[test]
fn weights_are_the_floats_that_the_standard_library_reads() {
    for text in [
        "0.5", "1", "1.", ".5", "1e5", "1E+5", "1.5e-3", "inf", "-INF", "+infinity", "NaN", "nan",
        "", ".", "e5", "1e", "1e+", "1.2.3", "infin", "0x1", "1_0", "--1", "+-1", "1e5.0", "+.e1",
        "é", "1e٣", "+", "-.5E-07",
    ] {
        let raw = format!("h 1 1 {text}x up up standby standby 0 none none a\n");
        assert!(parse_node_info_all(&raw).is_err(), "{text}x");
        assert_eq!(pg_agent_core::scan::float(text), text.parse::<f64>().is_ok(), "{text:?}");
    }
    let bad = "h 1 1 weight up up standby standby 0 none none\n";
    let err = parse_node_info_all(bad).unwrap_err();
    assert!(err.ends_with("lb_weight \"weight\": invalid float literal"), "{err}");
}

#[test]
fn node_counts_are_read() {
    assert_eq!(node_count("3\n"), Ok(3));
    assert_eq!(node_count("  -2 "), Ok(-2));
    let err = node_count("three\n").unwrap_err();
    assert_eq!(err, "pcp_node_count: parse \"three\": invalid digit found in string");
}

#[test]
fn commands_name_their_node() {
    let c = attach_command(2);
    assert_eq!((c.bin, c.desc.as_str()), ("pcp_attach_node", "pcp_attach_node (node 2)"));
    assert_eq!(c.extra_args, vec!["-n", "2"]);
    let c = detach_command(-1);
    assert_eq!((c.bin, c.desc.as_str()), ("pcp_detach_node", "pcp_detach_node (node -1)"));
    assert_eq!(c.extra_args, vec!["-n", "-1"]);
    assert!(node_count_command().extra_args.is_empty());
    assert_eq!(node_info_command().extra_args, vec!["-a"]);
}

#[test]
fn runs_come_to_output_or_error() {
    let c = attach_command(2);
    assert_eq!(
        run_pcp(&c, PcpRun::TimedOut),
        Err("pcp_attach_node (node 2): timed out after 30s".to_string())
    );
    assert_eq!(
        run_pcp(&c, PcpRun::SpawnFailed("denied".to_string())),
        Err("pcp_attach_node: spawn: denied".to_string())
    );
    assert!(run_pcp(&c, PcpRun::NotFound).unwrap_err().contains("install the pgpool2 package"));
    let failed = PcpRun::Exited {
        code: Some(1),
        stdout: b"out\n".to_vec(),
        stderr: b"ERROR: x\n".to_vec(),
    };
    assert_eq!(
        run_pcp(&c, failed),
        Err("pcp_attach_node (node 2): exit 1: out\n\nERROR: x".to_string())
    );
    let killed = PcpRun::Exited { code: None, stdout: vec![], stderr: vec![] };
    assert_eq!(run_pcp(&c, killed), Err("pcp_attach_node (node 2): exit ?: ".to_string()));
    assert_eq!(run_pcp(&c, PcpRun::Succeeded { stdout: b"ok\n".to_vec() }), Ok("ok\n".to_string()));
    assert_eq!(exit_code(Some(-9)), "-9");
    assert_eq!(spawn_error("x", false, "e"), "x: spawn: e");
}
