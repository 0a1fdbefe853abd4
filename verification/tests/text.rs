use pg_agent_core::config::{slot_of, NodeConfig, NodePool, NodeRef};
use pg_agent_core::scan::{split_lines, split_words, trim};
use pg_agent_core::text::{
    contains_text, int_text, is_text_before, join, lsn_string, nat_text, same,
};
use pg_agent_core::time::Timestamp;

#[test]
fn numbers_are_written_as_the_standard_library_writes_them() {
    for i in [0i64, 7, 10, 99, 100, -1, -10, i64::MAX, i64::MIN] {
        assert_eq!(int_text(i), i.to_string());
    }
    for n in [0u64, 9, 10, 16_777_216, u64::MAX] {
        assert_eq!(nat_text(n), n.to_string());
    }
    for lsn in [0u64, 1, 0x1_0000_0000, 0xABCD_EF01_2345_6789, u64::MAX] {
        assert_eq!(lsn_string(lsn), format!("{:X}/{:08X}", lsn >> 32, lsn as u32));
    }
}

#[test]
fn texts_are_searched_and_ordered_as_the_standard_library_does() {
    let texts = ["", "a", "ab", "b", "é", "z", "\u{10ffff}", "\u{ffff}", "aé", "not found"];
    for a in texts {
        for b in texts {
            assert_eq!(is_text_before(a, b), a < b, "{a:?} {b:?}");
            assert_eq!(contains_text(a, b), a.contains(b), "{a:?} {b:?}");
            assert_eq!(same(a, b), a == b);
        }
    }
}

#[test]
fn text_is_cut_as_the_standard_library_cuts_it() {
    for s in [
        "", " ", "a", " a b ", "\t\u{a0}x\u{3000}y\u{2003}", "a\nb\n", "\n\na\r\n\nb", "\r\n",
        "x\u{85}y\u{200b}z", "\u{1680}\u{2028}\u{2029}\u{202f}\u{205f}w\u{b}\u{c}",
    ] {
        assert_eq!(trim(s), s.trim(), "{s:?}");
        let words: Vec<&str> = s.split_whitespace().collect();
        assert_eq!(split_words(s), words, "{s:?}");
        let lines: Vec<String> = split_lines(s).iter().map(|l| trim(l)).collect();
        let want: Vec<String> = s.lines().map(|l| l.trim().to_string()).collect();
        assert_eq!(lines, want, "{s:?}");
    }
    for code in 0..0x3100u32 {
        if let Some(c) = char::from_u32(code) {
            assert_eq!(pg_agent_core::scan::white(c), c.is_whitespace(), "{code:x}");
        }
    }
}

#[test]
fn lists_are_joined() {
    assert_eq!(join(&vec![], ": "), "");
    assert_eq!(join(&vec!["a".to_string(), "b".to_string(), "c".to_string()], ", "), "a, b, c");
}

#[test]
fn nodes_are_looked_up() {
    let pool = NodePool {
        members: vec![
            NodeConfig { id: 3, hostname: "a".to_string() },
            NodeConfig { id: -1, hostname: "b".to_string() },
        ],
        local_node_id: 3,
    };
    assert_eq!(pool.node_by_id(-1).unwrap().hostname, "b");
    assert_eq!(pool.node_by_hostname("a").unwrap().id, 3);
    assert!(pool.node_by_id(0).unwrap_err().contains("node id 0"));
    assert!(pool.node_by_hostname("c").is_err());
    assert_eq!(pool.local_node().unwrap().id, 3);
    let named = |id: i32, host: &str| NodeRef {
        id,
        hostname: host.to_string(),
        pg_port: 0,
        pg_data: String::new(),
    };
    assert_eq!(pool.resolve_node(&named(3, "a")).unwrap().id, 3);
    assert!(pool.resolve_node(&named(3, "b")).is_err());
    assert!(pool.resolve_local_node(&named(-1, "b")).is_err());
    assert_eq!(pool.resolve_local_node(&named(3, "a")).unwrap().slot_name(), "node3");
    assert_eq!(slot_of(-7), "node-7");
}

#[test]
fn points_in_time_are_compared() {
    let t = |secs: i64, nanos: u32| Timestamp { secs, nanos };
    assert!(t(1, 1).is_after(t(1, 0)));
    assert!(!t(1, 0).is_after(t(1, 0)));
    assert!(t(31, 0).more_than_nanos_since(t(0, 999), 30_000_000_000));
    assert!(!t(30, 0).more_than_nanos_since(t(0, 0), 30_000_000_000));
    assert!(t(30, 0).less_than_secs_since(t(0, 1), 30));
    assert!(!t(30, 0).less_than_secs_since(t(0, 0), 30));
    assert_eq!(t(-2, 5).plus_secs(3), t(1, 5));
    assert_eq!(t(-1, 5).unix_nanos(), -999_999_995);
}
