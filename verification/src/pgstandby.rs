//! Making a node a standby: the options, the commands and the progress of
//! `pg_basebackup` and `pg_rewind`, and the recovery configuration.
//!
//! Hosts, roles and slots go into connection strings and into a file that
//! PostgreSQL reads. They may hold only characters that mean nothing there.
use crate::config::PostgresRuntime;
use crate::orchestration::{after, lemma_comes_after, performed, Machine, Reply};
use crate::pcp::{exit_code, exit_text};
use crate::scan::{law_numbers_are_read_back, number_in, parse_i64, trim, trim_range, trimmed};
use crate::text::{
    chars_of, dec, ends_with, find, holds_text, lossy, lossy_text, stands_at, text2, text3, text4,
    text5, views,
};
use vstd::prelude::*;
use vstd::utf8::encode_utf8;

verus! {

/// The most bytes of error output that are kept.
pub const STDERR_TAIL_MAX: usize = 4096;

/// What the name of a host may be made of.
pub const HOST_PATTERN: &'static str = "^[A-Za-z0-9._:-]+$";

/// What the name of a role or a slot may be made of.
pub const NAME_PATTERN: &'static str = "^[A-Za-z0-9_.-]+$";

/// A character that the name of a role or a slot may hold.
pub open spec fn is_name_char(c: char) -> bool {
    'A' <= c <= 'Z' || 'a' <= c <= 'z' || '0' <= c <= '9' || c == '_' || c == '.' || c == '-'
}

/// A character that the name of a host may hold.
pub open spec fn is_host_char(c: char) -> bool {
    is_name_char(c) || c == ':'
}

/// A name that a role or a slot may have.
pub open spec fn is_name(s: Seq<char>) -> bool {
    s.len() > 0 && forall|i: int| 0 <= i < s.len() ==> is_name_char(#[trigger] s[i])
}

/// A name that a host may have.
pub open spec fn is_host(s: Seq<char>) -> bool {
    s.len() > 0 && forall|i: int| 0 <= i < s.len() ==> is_host_char(#[trigger] s[i])
}

/// Whether a text matches one of the two patterns: `regex::Regex::new` and
/// `Regex::is_match`.
///
/// Claimed of them: both patterns compile, and each is matched by exactly the
/// texts that are not empty and hold only the characters between its brackets.
#[verifier::external_body]
fn matches_pattern(pattern: &str, text: &str) -> (r: bool)
    requires
        pattern@ == HOST_PATTERN@ || pattern@ == NAME_PATTERN@,
    ensures
        pattern@ == HOST_PATTERN@ ==> r == is_host(text@),
        pattern@ == NAME_PATTERN@ ==> r == is_name(text@),
{
    regex::Regex::new(pattern).expect("the pattern compiles").is_match(text)
}

/// Whether a host may have this name.
pub fn allowed_primary_host(s: &str) -> (r: bool)
    ensures
        r == is_host(s@),
{
    matches_pattern(HOST_PATTERN, s)
}

/// Whether a role may have this name.
pub fn allowed_repl_user(s: &str) -> (r: bool)
    ensures
        r == is_name(s@),
{
    matches_pattern(NAME_PATTERN, s)
}

/// Whether a slot may have this name.
pub fn allowed_slot_name(s: &str) -> (r: bool)
    ensures
        r == is_name(s@),
{
    matches_pattern(NAME_PATTERN, s)
}

/// What `pg_basebackup` needs to copy a primary.
#[derive(Clone, Debug, PartialEq, Eq)]
pub struct BasebackupOpts {
    pub primary_host: String,
    pub primary_port: u16,
    pub repl_user: String,
    pub slot_name: String,
}

/// What `pg_rewind` needs to rewind to a primary.
#[derive(Clone, Debug, PartialEq, Eq)]
pub struct RewindOpts {
    pub primary_host: String,
    pub primary_port: u16,
    pub repl_user: String,
}

/// What the recovery configuration of a standby names.
#[derive(Clone, Debug, PartialEq, Eq)]
pub struct WriteRecoveryConfOpts {
    pub primary_host: String,
    pub primary_port: u16,
    pub repl_user: String,
    pub slot_name: String,
}

/// What is wrong with a host and a port.
pub open spec fn address_fault(host: Seq<char>, port: u16) -> Option<Seq<char>> {
    if host.len() == 0 {
        Some("primary_host is required"@)
    } else if !is_host(host) {
        Some("primary_host contains invalid characters"@)
    } else if port == 0 {
        Some("primary_port must be greater than zero"@)
    } else {
        None
    }
}

/// What is wrong with a slot.
pub open spec fn slot_fault(slot: Seq<char>) -> Option<Seq<char>> {
    if slot.len() == 0 {
        Some("slot_name is required"@)
    } else if !is_name(slot) {
        Some("slot_name contains invalid characters"@)
    } else {
        None
    }
}

/// What is wrong with a role.
pub open spec fn user_fault(user: Seq<char>) -> Option<Seq<char>> {
    if user.len() == 0 {
        Some("repl_user is required"@)
    } else if !is_name(user) {
        Some("repl_user contains invalid characters"@)
    } else {
        None
    }
}

/// The first of two faults, if there is one.
pub open spec fn first_fault(a: Option<Seq<char>>, b: Option<Seq<char>>) -> Option<Seq<char>> {
    match a {
        Some(e) => Some(e),
        None => b,
    }
}

/// Whether `r` reports `fault`.
pub open spec fn reports(r: Result<(), String>, fault: Option<Seq<char>>) -> bool {
    match (r, fault) {
        (Ok(()), None) => true,
        (Err(e), Some(want)) => e@ == want,
        _ => false,
    }
}

fn check_address(host: &str, port: u16) -> (r: Result<(), String>)
    ensures
        reports(r, address_fault(host@, port)),
{
    if host.is_empty() {
        return Err("primary_host is required".to_owned());
    }
    if !allowed_primary_host(host) {
        return Err("primary_host contains invalid characters".to_owned());
    }
    if port == 0 {
        return Err("primary_port must be greater than zero".to_owned());
    }
    Ok(())
}

/// Checks the name of a slot.
pub fn check_slot(slot: &str) -> (r: Result<(), String>)
    ensures
        reports(r, slot_fault(slot@)),
{
    if slot.is_empty() {
        return Err("slot_name is required".to_owned());
    }
    if !allowed_slot_name(slot) {
        return Err("slot_name contains invalid characters".to_owned());
    }
    Ok(())
}

fn check_user(user: &str) -> (r: Result<(), String>)
    ensures
        reports(r, user_fault(user@)),
{
    if user.is_empty() {
        return Err("repl_user is required".to_owned());
    }
    if !allowed_repl_user(user) {
        return Err("repl_user contains invalid characters".to_owned());
    }
    Ok(())
}

impl WriteRecoveryConfOpts {
    /// What is wrong with the options.
    pub open spec fn fault(self) -> Option<Seq<char>> {
        first_fault(
            address_fault(self.primary_host@, self.primary_port),
            first_fault(slot_fault(self.slot_name@), user_fault(self.repl_user@)),
        )
    }

    /// Checks the options.
    pub fn validate(&self) -> (r: Result<(), String>)
        ensures
            reports(r, self.fault()),
    {
        match check_address(self.primary_host.as_str(), self.primary_port) {
            Ok(()) => {},
            Err(e) => {
                return Err(e);
            },
        }
        match check_slot(self.slot_name.as_str()) {
            Ok(()) => {},
            Err(e) => {
                return Err(e);
            },
        }
        check_user(self.repl_user.as_str())
    }
}

impl BasebackupOpts {
    /// What is wrong with the options.
    pub open spec fn fault(self) -> Option<Seq<char>> {
        first_fault(
            address_fault(self.primary_host@, self.primary_port),
            first_fault(slot_fault(self.slot_name@), user_fault(self.repl_user@)),
        )
    }

    /// Checks the options.
    pub fn validate(&self) -> (r: Result<(), String>)
        ensures
            reports(r, self.fault()),
    {
        match check_address(self.primary_host.as_str(), self.primary_port) {
            Ok(()) => {},
            Err(e) => {
                return Err(e);
            },
        }
        match check_slot(self.slot_name.as_str()) {
            Ok(()) => {},
            Err(e) => {
                return Err(e);
            },
        }
        check_user(self.repl_user.as_str())
    }
}

impl RewindOpts {
    /// What is wrong with the options.
    pub open spec fn fault(self) -> Option<Seq<char>> {
        first_fault(
            address_fault(self.primary_host@, self.primary_port),
            user_fault(self.repl_user@),
        )
    }

    /// Checks the options.
    pub fn validate(&self) -> (r: Result<(), String>)
        ensures
            reports(r, self.fault()),
    {
        match check_address(self.primary_host.as_str(), self.primary_port) {
            Ok(()) => {},
            Err(e) => {
                return Err(e);
            },
        }
        check_user(self.repl_user.as_str())
    }
}

/// The options for copying `host` through `slot`.
pub fn basebackup_from(host: &str, pg: &PostgresRuntime, slot: &str) -> (r: BasebackupOpts)
    ensures
        r.primary_host@ == host@,
        r.primary_port == pg.port,
        r.repl_user@ == pg.repl_user@,
        r.slot_name@ == slot@,
{
    BasebackupOpts {
        primary_host: host.to_owned(),
        primary_port: pg.port,
        repl_user: pg.repl_user.clone(),
        slot_name: slot.to_owned(),
    }
}

/// The options for rewinding to `host`.
pub fn rewind_to(host: &str, pg: &PostgresRuntime) -> (r: RewindOpts)
    ensures
        r.primary_host@ == host@,
        r.primary_port == pg.port,
        r.repl_user@ == pg.repl_user@,
{
    RewindOpts {
        primary_host: host.to_owned(),
        primary_port: pg.port,
        repl_user: pg.repl_user.clone(),
    }
}

/// The options for following `host` through `slot`.
pub fn recovery_from(host: &str, pg: &PostgresRuntime, slot: &str) -> (r: WriteRecoveryConfOpts)
    ensures
        r.primary_host@ == host@,
        r.primary_port == pg.port,
        r.repl_user@ == pg.repl_user@,
        r.slot_name@ == slot@,
{
    WriteRecoveryConfOpts {
        primary_host: host.to_owned(),
        primary_port: pg.port,
        repl_user: pg.repl_user.clone(),
        slot_name: slot.to_owned(),
    }
}

/// `name` within the directory `dir`.
pub open spec fn within(dir: Seq<char>, name: Seq<char>) -> Seq<char> {
    if dir.len() == 0 {
        name
    } else if dir.last() == '/' {
        dir + name
    } else {
        dir + "/"@ + name
    }
}

/// `name` within the directory `dir`.
pub fn join_path(dir: &str, name: &str) -> (r: String)
    ensures
        r@ == within(dir@, name@),
{
    let c = chars_of(dir);
    if c.len() == 0 {
        name.to_owned()
    } else if c[c.len() - 1] == '/' {
        text2(dir, name)
    } else {
        text3(dir, "/", name)
    }
}

/// Where PostgreSQL's programs and data are, and the TLS material with which
/// a primary is reached.
pub struct StandbyExec<T> {
    pub pg_home: String,
    pub pg_data_dir: String,
    pub replication_tls: T,
}

impl<T> StandbyExec<T> {
    /// Takes what it is given.
    pub fn new(pg_home: String, pg_data_dir: String, replication_tls: T) -> (r: StandbyExec<T>)
        ensures
            r == (StandbyExec { pg_home, pg_data_dir, replication_tls }),
    {
        StandbyExec { pg_home, pg_data_dir, replication_tls }
    }

    /// The path of `pg_basebackup`.
    pub fn basebackup_bin(&self) -> (r: String)
        ensures
            r@ == within(within(self.pg_home@, "bin"@), "pg_basebackup"@),
    {
        join_path(join_path(self.pg_home.as_str(), "bin").as_str(), "pg_basebackup")
    }

    /// The path of `pg_rewind`.
    pub fn rewind_bin(&self) -> (r: String)
        ensures
            r@ == within(within(self.pg_home@, "bin"@), "pg_rewind"@),
    {
        join_path(join_path(self.pg_home.as_str(), "bin").as_str(), "pg_rewind")
    }

    /// The arguments of `pg_basebackup`. The recovery configuration is not
    /// left to it.
    pub fn basebackup_args(&self, conninfo: &str, slot_name: &str, progress: bool) -> (r: Vec<String>)
        ensures
            views(r@) == seq![
                "--pgdata"@,
                self.pg_data_dir@,
                "--dbname"@,
                conninfo@,
                "--wal-method=stream"@,
                "--checkpoint=fast"@,
                "--no-password"@,
            ] + (if slot_name@.len() > 0 {
                seq!["--slot"@, slot_name@]
            } else {
                seq![]
            }) + (if progress {
                seq!["--progress"@]
            } else {
                seq![]
            }),
    {
        let mut args: Vec<String> = Vec::new();
        args.push("--pgdata".to_owned());
        args.push(self.pg_data_dir.clone());
        args.push("--dbname".to_owned());
        args.push(conninfo.to_owned());
        args.push("--wal-method=stream".to_owned());
        args.push("--checkpoint=fast".to_owned());
        args.push("--no-password".to_owned());
        if !slot_name.is_empty() {
            args.push("--slot".to_owned());
            args.push(slot_name.to_owned());
        }
        if progress {
            args.push("--progress".to_owned());
        }
        assert(views(args@) =~= seq![
            "--pgdata"@,
            self.pg_data_dir@,
            "--dbname"@,
            conninfo@,
            "--wal-method=stream"@,
            "--checkpoint=fast"@,
            "--no-password"@,
        ] + (if slot_name@.len() > 0 {
            seq!["--slot"@, slot_name@]
        } else {
            seq![]
        }) + (if progress {
            seq!["--progress"@]
        } else {
            seq![]
        }));
        args
    }

    /// The arguments of `pg_rewind`.
    pub fn rewind_args(&self, conninfo: &str) -> (r: Vec<String>)
        ensures
            views(r@) == seq![
                "--target-pgdata"@,
                self.pg_data_dir@,
                "--source-server"@,
                conninfo@,
                "--no-password"@,
                "--progress"@,
            ],
    {
        let mut args: Vec<String> = Vec::new();
        args.push("--target-pgdata".to_owned());
        args.push(self.pg_data_dir.clone());
        args.push("--source-server".to_owned());
        args.push(conninfo.to_owned());
        args.push("--no-password".to_owned());
        args.push("--progress".to_owned());
        assert(views(args@) =~= seq![
            "--target-pgdata"@,
            self.pg_data_dir@,
            "--source-server"@,
            conninfo@,
            "--no-password"@,
            "--progress"@,
        ]);
        args
    }
}

/// What is said of a program that is not there; `pg_home` is where it was
/// looked for, where that is known.
pub fn binary_not_found(bin: &str, pg_home: Option<&str>) -> (r: String)
    ensures
        r@ == bin@
            + ": binary not found (install the matching PostgreSQL client package or check that pghome="@
            + (match pg_home {
            Some(h) => h@,
            None => "?"@,
        }) + " is correct)"@,
{
    let home = match pg_home {
        Some(h) => h,
        None => "?",
    };
    text4(
        bin,
        ": binary not found (install the matching PostgreSQL client package or check that pghome=",
        home,
        " is correct)",
    )
}

/// What is said of a program that failed: its code, and the error output that
/// was kept, if there was any.
pub open spec fn exit_error_text(bin: Seq<char>, code: Option<i32>, tail: Seq<char>) -> Seq<char> {
    bin + ": exit "@ + exit_text(code) + (if tail.len() == 0 {
        Seq::<char>::empty()
    } else {
        "; stderr: "@ + tail
    })
}

/// What is said of a program that failed.
pub fn exit_error(bin: &str, code: Option<i32>, tail: &str) -> (r: String)
    ensures
        r@ == exit_error_text(bin@, code, tail@),
{
    let mut s = text3(bin, ": exit ", exit_code(code).as_str());
    if !tail.is_empty() {
        let suffix = text2("; stderr: ", tail);
        s.append(suffix.as_str());
    } else {
        assert(s@ + Seq::<char>::empty() =~= s@);
    }
    s
}

/// How a run of a program ended.
pub enum PgRun {
    /// There is no such program.
    NotFound,
    /// It could not be started.
    SpawnFailed(String),
    /// It could not be waited for.
    WaitFailed(String),
    /// It failed, with this code where it has one.
    Exited(Option<i32>),
    /// It succeeded.
    Succeeded,
}

/// What is said of a run of `bin`, whose name is `bin_name`, that did not
/// succeed.
pub open spec fn pg_run_fault(
    bin: Seq<char>,
    bin_name: Seq<char>,
    pg_home: Seq<char>,
    run: PgRun,
    tail: Seq<char>,
) -> Option<Seq<char>> {
    match run {
        PgRun::NotFound => Some(
            bin
                + ": binary not found (install the matching PostgreSQL client package or check that pghome="@
                + pg_home + " is correct)"@,
        ),
        PgRun::SpawnFailed(e) => Some("spawn "@ + bin + ": "@ + e@),
        PgRun::WaitFailed(e) => Some("wait "@ + bin_name + ": "@ + e@),
        PgRun::Exited(code) => Some(exit_error_text(bin_name, code, tail)),
        PgRun::Succeeded => None,
    }
}

/// What a run of a program gives, with the error output that was kept.
/// `pg_home` is where the program was looked for, where that is known.
pub fn run_pg_binary(
    bin: &str,
    bin_name: &str,
    pg_home: Option<&str>,
    run: PgRun,
    tail: &str,
) -> (r: Result<(), String>)
    ensures
        reports(
            r,
            pg_run_fault(
                bin@,
                bin_name@,
                match pg_home {
                    Some(h) => h@,
                    None => "?"@,
                },
                run,
                tail@,
            ),
        ),
{
    match run {
        PgRun::NotFound => Err(binary_not_found(bin, pg_home)),
        PgRun::SpawnFailed(e) => Err(text4("spawn ", bin, ": ", e.as_str())),
        PgRun::WaitFailed(e) => Err(text4("wait ", bin_name, ": ", e.as_str())),
        PgRun::Exited(code) => Err(exit_error(bin_name, code, tail)),
        PgRun::Succeeded => Ok(()),
    }
}

/// How many bytes a text takes.
pub open spec fn byte_len(s: Seq<char>) -> nat {
    encode_utf8(s).len()
}

/// `tail` with `line` on a line of its own behind it, where that fits; else
/// `tail` as it is.
pub open spec fn tail_with(tail: Seq<char>, line: Seq<char>) -> Seq<char> {
    if byte_len(tail) >= STDERR_TAIL_MAX {
        tail
    } else if tail.len() == 0 {
        if byte_len(line) > STDERR_TAIL_MAX {
            tail
        } else {
            line
        }
    } else if byte_len(tail) + byte_len(line) + 1 > STDERR_TAIL_MAX {
        tail
    } else {
        tail + "\n"@ + line
    }
}

/// Puts `line` on a line of its own behind `tail`, where that fits.
pub fn append_tail(tail: &mut String, line: &str)
    ensures
        final(tail)@ == tail_with(old(tail)@, line@),
{
    let have: usize = tail.as_str().as_bytes().len();
    if have >= STDERR_TAIL_MAX {
        return;
    }
    let room: usize = STDERR_TAIL_MAX - have;
    let need: usize = line.as_bytes().len();
    if tail.as_str().is_empty() {
        assert(encode_utf8(tail@).len() == 0);
        if need > room {
            return;
        }
        tail.append(line);
        assert(tail@ =~= line@);
    } else {
        if need > room - 1 {
            return;
        }
        tail.append("\n");
        tail.append(line);
    }
}

proof fn lemma_byte_len_of_two(a: Seq<char>, b: Seq<char>)
    ensures
        byte_len(a + b) == byte_len(a) + byte_len(b),
    decreases a.len(),
{
    if a.len() == 0 {
        assert(a + b =~= b);
    } else {
        lemma_byte_len_of_two(a.drop_first(), b);
        assert((a + b).drop_first() =~= a.drop_first() + b);
    }
}

/// What is kept of the error output never exceeds its limit, and what was kept
/// first stays.
pub proof fn law_tail_is_bounded(tail: Seq<char>, line: Seq<char>)
    requires
        byte_len(tail) <= STDERR_TAIL_MAX,
    ensures
        byte_len(tail_with(tail, line)) <= STDERR_TAIL_MAX,
        tail.is_prefix_of(tail_with(tail, line)),
{
    reveal_strlit("\n");
    assert("\n"@ =~= seq!['\n']);
    assert(seq!['\n'].drop_first() =~= Seq::<char>::empty());
    assert(encode_utf8(seq!['\n'].drop_first()).len() == 0);
    assert(byte_len("\n"@) == 1);
    lemma_byte_len_of_two(tail + "\n"@, line);
    lemma_byte_len_of_two(tail, "\n"@);
}

/// The first place from `from` on at which `needle` stands in `s`.
pub open spec fn seek(s: Seq<char>, needle: Seq<char>, from: int) -> Option<int>
    decreases s.len() + 1 - from,
{
    if from < 0 || from > s.len() {
        None
    } else if stands_at(s, needle, from) {
        Some(from)
    } else {
        seek(s, needle, from + 1)
    }
}

proof fn lemma_seek(s: Seq<char>, needle: Seq<char>, from: int, place: int)
    requires
        0 <= from <= place,
        stands_at(s, needle, place),
        forall|j: int| 0 <= j < place ==> !stands_at(s, needle, j),
    ensures
        seek(s, needle, from) == Some(place),
    decreases place - from,
{
    if from < place {
        lemma_seek(s, needle, from + 1, place);
    }
}

proof fn lemma_seek_none(s: Seq<char>, needle: Seq<char>, from: int)
    requires
        0 <= from,
        !holds_text(s, needle),
    ensures
        seek(s, needle, from) is None,
    decreases s.len() + 1 - from,
{
    if from <= s.len() {
        lemma_seek_none(s, needle, from + 1);
    }
}

/// The signed number of sixty-four bits that `s` spells.
pub open spec fn i64_in(s: Seq<char>) -> Option<i64> {
    match number_in(s, true) {
        Some(n) => if i64::MIN <= n <= i64::MAX {
            Some(n as i64)
        } else {
            None
        },
        None => None,
    }
}

/// The two numbers around the first slash of `s`.
pub open spec fn fraction_in(s: Seq<char>) -> Option<(i64, i64)> {
    match seek(s, "/"@, 0) {
        None => None,
        Some(p) => match (i64_in(trimmed(s.take(p))), i64_in(trimmed(s.skip(p + 1)))) {
            (Some(a), Some(b)) => Some((a, b)),
            _ => None,
        },
    }
}

/// The kilobytes done and in all that a line of progress names before its
/// first `kB`, or `KB` where there is no `kB`.
pub open spec fn kb_fraction(s: Seq<char>) -> Option<(i64, i64)> {
    match (seek(s, " kB"@, 0), seek(s, " KB"@, 0)) {
        (Some(i), _) => fraction_in(trimmed(s.take(i))),
        (None, Some(i)) => fraction_in(trimmed(s.take(i))),
        (None, None) => None,
    }
}

fn read_fraction(v: &Vec<char>, from: usize, to: usize) -> (r: Option<(i64, i64)>)
    requires
        from <= to <= v.len(),
    ensures
        r == fraction_in(v@.subrange(from as int, to as int)),
{
    let ghost s = v@.subrange(from as int, to as int);
    let mut p: usize = from;
    proof {
        reveal_strlit("/");
        assert("/"@ =~= seq!['/']);
    }
    while p < to && v[p] != '/'
        invariant
            from <= p <= to <= v.len(),
            s == v@.subrange(from as int, to as int),
            forall|j: int| 0 <= j < p - from ==> s[j] != '/',
        decreases to - p,
    {
        p = p + 1;
    }
    let ghost q = p - from;
    proof {
        assert forall|j: int| 0 <= j < q implies !stands_at(s, "/"@, j) by {
            if stands_at(s, "/"@, j) {
                assert(s.subrange(j, j + 1)[0] == '/');
            }
        }
    }
    if p == to {
        proof {
            assert forall|j: int| !stands_at(s, "/"@, j) by {
            }
            lemma_seek_none(s, "/"@, 0);
        }
        return None;
    }
    proof {
        assert(s.subrange(q, q + 1) =~= "/"@);
        lemma_seek(s, "/"@, 0, q);
        assert(s.take(q) =~= v@.subrange(from as int, p as int));
        assert(s.skip(q + 1) =~= v@.subrange(p + 1, to as int));
    }
    let (a, b) = trim_range(v, from, p);
    let (c, d) = trim_range(v, p + 1, to);
    match (parse_i64(v, a, b), parse_i64(v, c, d)) {
        (Some(done), Some(total)) => Some((done, total)),
        _ => None,
    }
}

/// Reads a line of progress.
pub fn parse_kb_fraction(s: &str) -> (r: Option<(i64, i64)>)
    ensures
        r == kb_fraction(s@),
{
    let v = chars_of(s);
    let small = find(&v, " kB");
    let large = find(&v, " KB");
    proof {
        match small {
            Some(i) => lemma_seek(v@, " kB"@, 0, i as int),
            None => lemma_seek_none(v@, " kB"@, 0),
        }
        match large {
            Some(i) => lemma_seek(v@, " KB"@, 0, i as int),
            None => lemma_seek_none(v@, " KB"@, 0),
        }
    }
    let idx = match (small, large) {
        (Some(i), _) => i,
        (None, Some(i)) => i,
        (None, None) => {
            return None;
        },
    };
    assert(v@.subrange(0, idx as int) =~= v@.take(idx as int));
    let (a, b) = trim_range(&v, 0, idx);
    read_fraction(&v, a, b)
}

/// What is left of a run's error output: the line that is not yet complete,
/// what is kept, and the progress that was reported, in bytes.
pub struct DrainState {
    pub line: Seq<u8>,
    pub tail: Seq<char>,
    pub progress: Seq<(i64, i64)>,
}

/// Kilobytes in bytes, as a number of sixty-four bits.
pub open spec fn in_bytes(kb: (i64, i64)) -> (i64, i64) {
    (
        vstd::wrapping::i64_specs::wrapping_mul(kb.0, 1024),
        vstd::wrapping::i64_specs::wrapping_mul(kb.1, 1024),
    )
}

/// What a line that reads `text` reports, in bytes; none, where it is no line
/// of progress.
pub open spec fn progress_of(text: Seq<char>) -> Option<(i64, i64)> {
    match kb_fraction(trimmed(text)) {
        Some(kb) => if trimmed(text).len() > 0 {
            Some(in_bytes(kb))
        } else {
            None
        },
        None => None,
    }
}

/// What is kept after a line that reads `text`.
pub open spec fn tail_after(tail: Seq<char>, text: Seq<char>) -> Seq<char> {
    if trimmed(text).len() == 0 || kb_fraction(trimmed(text)) is Some {
        tail
    } else {
        tail_with(tail, trimmed(text))
    }
}

impl DrainState {
    /// The state after the line at hand ended.
    pub open spec fn line_ended(self) -> DrainState {
        if self.line.len() == 0 {
            self
        } else {
            DrainState {
                line: seq![],
                tail: tail_after(self.tail, lossy(self.line)),
                progress: match progress_of(lossy(self.line)) {
                    Some(p) => self.progress.push(p),
                    None => self.progress,
                },
            }
        }
    }

    /// The state after one more byte.
    pub open spec fn with_byte(self, b: u8) -> DrainState {
        if b == 13 || b == 10 {
            self.line_ended()
        } else {
            DrainState { line: self.line.push(b), ..self }
        }
    }

    /// The state after more bytes.
    pub open spec fn with_bytes(self, bytes: Seq<u8>) -> DrainState
        decreases bytes.len(),
    {
        if bytes.len() == 0 {
            self
        } else {
            self.with_bytes(bytes.drop_last()).with_byte(bytes.last())
        }
    }
}

/// Takes a line of error output, as text: progress is reported, in bytes, and
/// anything else is kept as far as it fits.
pub fn process_text(text: &str, tail: &mut String) -> (r: Option<(i64, i64)>)
    ensures
        r == progress_of(text@),
        final(tail)@ == tail_after(old(tail)@, text@),
{
    let line = trim(text);
    if line.as_str().is_empty() {
        return None;
    }
    match parse_kb_fraction(line.as_str()) {
        Some((done, total)) => Some((done.wrapping_mul(1024), total.wrapping_mul(1024))),
        None => {
            append_tail(tail, line.as_str());
            None
        },
    }
}

/// Takes a line of error output.
pub fn process_line(bytes: &[u8], tail: &mut String) -> (r: Option<(i64, i64)>)
    ensures
        r == progress_of(lossy(bytes@)),
        final(tail)@ == tail_after(old(tail)@, lossy(bytes@)),
{
    let text = lossy_text(bytes);
    process_text(text.as_str(), tail)
}

/// A run's error output as it comes in. Lines end with a line feed or a
/// carriage return.
pub struct StderrDrain {
    pub line: Vec<u8>,
    pub tail: String,
}

impl StderrDrain {
    /// What is left so far, with no progress reported.
    pub open spec fn state(self) -> DrainState {
        DrainState { line: self.line@, tail: self.tail@, progress: seq![] }
    }

    /// Nothing came in yet.
    pub fn new() -> (r: StderrDrain)
        ensures
            r.state() == (DrainState { line: seq![], tail: seq![], progress: seq![] }),
    {
        let r = StderrDrain { line: Vec::new(), tail: String::new() };
        assert(r.line@ =~= Seq::<u8>::empty());
        assert(r.tail@ =~= Seq::<char>::empty());
        r
    }

    fn end_line(&mut self) -> (r: Option<(i64, i64)>)
        ensures
            ({
                let s = old(self).state().line_ended();
                &&& final(self).line@ == s.line
                &&& final(self).tail@ == s.tail
                &&& s.progress == match r {
                    Some(p) => seq![p],
                    None => seq![],
                }
            }),
    {
        if self.line.len() == 0 {
            return None;
        }
        let r = process_line(self.line.as_slice(), &mut self.tail);
        self.line = Vec::new();
        assert(self.line@ =~= Seq::<u8>::empty());
        proof {
            if let Some(p) = r {
                assert(Seq::<(i64, i64)>::empty().push(p) =~= seq![p]);
            }
        }
        r
    }

    /// Takes more output. The result is the progress that it reports.
    pub fn feed(&mut self, chunk: &[u8]) -> (r: Vec<(i64, i64)>)
        ensures
            ({
                let s = old(self).state().with_bytes(chunk@);
                &&& final(self).line@ == s.line
                &&& final(self).tail@ == s.tail
                &&& r@ == s.progress
            }),
    {
        let mut out: Vec<(i64, i64)> = Vec::new();
        let mut i: usize = 0;
        let ghost start = self.state();
        assert(chunk@.take(0) =~= Seq::<u8>::empty());
        assert(out@ =~= Seq::<(i64, i64)>::empty());
        while i < chunk.len()
            invariant
                i <= chunk.len(),
                ({
                    let s = start.with_bytes(chunk@.take(i as int));
                    &&& self.line@ == s.line
                    &&& self.tail@ == s.tail
                    &&& out@ == s.progress
                }),
            decreases chunk.len() - i,
        {
            let b = chunk[i];
            let ghost s = start.with_bytes(chunk@.take(i as int));
            proof {
                assert(chunk@.take(i + 1).drop_last() =~= chunk@.take(i as int));
                assert(chunk@.take(i + 1).last() == b);
            }
            if b == 13 || b == 10 {
                let ghost before = self.state();
                match self.end_line() {
                    Some(p) => {
                        assert(before.line_ended().progress.len() == 1);
                        assert(s.line_ended().progress == s.progress.push(p)) by {
                            assert(before.line_ended().progress[0] == p);
                        }
                        out.push(p);
                    },
                    None => {
                        assert(before.line_ended().progress.len() == 0);
                    },
                }
            } else {
                self.line.push(b);
            }
            i = i + 1;
        }
        assert(chunk@.take(i as int) =~= chunk@);
        out
    }

    /// Takes note that the output ended. The result is the progress that a
    /// last line without an end reports.
    pub fn finish(&mut self) -> (r: Option<(i64, i64)>)
        ensures
            ({
                let s = old(self).state().line_ended();
                &&& final(self).line@ == s.line
                &&& final(self).tail@ == s.tail
                &&& s.progress == match r {
                    Some(p) => seq![p],
                    None => seq![],
                }
            }),
    {
        self.end_line()
    }
}

/// How the output is cut into pieces makes no difference.
pub proof fn law_pieces_do_not_matter(s: DrainState, a: Seq<u8>, b: Seq<u8>)
    ensures
        s.with_bytes(a).with_bytes(b) == s.with_bytes(a + b),
    decreases b.len(),
{
    if b.len() == 0 {
        assert(a + b =~= a);
    } else {
        law_pieces_do_not_matter(s, a, b.drop_last());
        assert((a + b).drop_last() =~= a + b.drop_last());
        assert((a + b).last() == b.last());
    }
}

/// The call that is due when a node is copied or rewound, or how that ended.
pub enum StandbyStage {
    /// Empty the data directory.
    ClearData,
    /// Run `pg_basebackup`.
    Basebackup,
    /// Remove the slots that the node had before.
    CleanSlotsBefore,
    /// Run `pg_rewind`.
    Rewind,
    /// Remove the slots that came with the data.
    CleanSlotsAfter,
    /// A step failed; the text says which, and with which error.
    Failed(StandbyStep, String),
    /// All done.
    Done,
}

/// A step of copying or rewinding.
#[derive(Clone, Copy, Debug, PartialEq, Eq, Structural)]
pub enum StandbyStep {
    ClearData,
    Basebackup,
    CleanSlotsBefore,
    Rewind,
    CleanSlotsAfter,
}

/// A node that is copied or rewound.
pub struct StandbyRun {
    pub stage: StandbyStage,
}

impl Machine for StandbyRun {
    open spec fn next(self, reply: Reply) -> Self {
        StandbyRun {
            stage: match (self.stage, reply) {
                (StandbyStage::ClearData, Reply::Done) => StandbyStage::Basebackup,
                (StandbyStage::ClearData, Reply::Failed(e)) => StandbyStage::Failed(
                    StandbyStep::ClearData,
                    e,
                ),
                (StandbyStage::Basebackup, Reply::Done) => StandbyStage::Done,
                (StandbyStage::Basebackup, Reply::Failed(e)) => StandbyStage::Failed(
                    StandbyStep::Basebackup,
                    e,
                ),
                (StandbyStage::CleanSlotsBefore, Reply::Done) => StandbyStage::Rewind,
                (StandbyStage::CleanSlotsBefore, Reply::Failed(e)) => StandbyStage::Failed(
                    StandbyStep::CleanSlotsBefore,
                    e,
                ),
                (StandbyStage::Rewind, Reply::Done) => StandbyStage::CleanSlotsAfter,
                (StandbyStage::Rewind, Reply::Failed(e)) => StandbyStage::Failed(
                    StandbyStep::Rewind,
                    e,
                ),
                (StandbyStage::CleanSlotsAfter, Reply::Done) => StandbyStage::Done,
                (StandbyStage::CleanSlotsAfter, Reply::Failed(e)) => StandbyStage::Failed(
                    StandbyStep::CleanSlotsAfter,
                    e,
                ),
                (s, _) => s,
            },
        }
    }
}

impl StandbyRun {
    /// A node that is copied afresh.
    pub fn basebackup() -> (r: StandbyRun)
        ensures
            r.stage == StandbyStage::ClearData,
    {
        StandbyRun { stage: StandbyStage::ClearData }
    }

    /// A node that is rewound.
    pub fn rewind() -> (r: StandbyRun)
        ensures
            r.stage == StandbyStage::CleanSlotsBefore,
    {
        StandbyRun { stage: StandbyStage::CleanSlotsBefore }
    }

    /// Takes the reply to the call that was due.
    pub fn step(self, reply: Reply) -> (r: Self)
        ensures
            r == self.next(reply),
    {
        let stage = match (self.stage, reply) {
            (StandbyStage::ClearData, Reply::Done) => StandbyStage::Basebackup,
            (StandbyStage::ClearData, Reply::Failed(e)) => StandbyStage::Failed(
                StandbyStep::ClearData,
                e,
            ),
            (StandbyStage::Basebackup, Reply::Done) => StandbyStage::Done,
            (StandbyStage::Basebackup, Reply::Failed(e)) => StandbyStage::Failed(
                StandbyStep::Basebackup,
                e,
            ),
            (StandbyStage::CleanSlotsBefore, Reply::Done) => StandbyStage::Rewind,
            (StandbyStage::CleanSlotsBefore, Reply::Failed(e)) => StandbyStage::Failed(
                StandbyStep::CleanSlotsBefore,
                e,
            ),
            (StandbyStage::Rewind, Reply::Done) => StandbyStage::CleanSlotsAfter,
            (StandbyStage::Rewind, Reply::Failed(e)) => StandbyStage::Failed(
                StandbyStep::Rewind,
                e,
            ),
            (StandbyStage::CleanSlotsAfter, Reply::Done) => StandbyStage::Done,
            (StandbyStage::CleanSlotsAfter, Reply::Failed(e)) => StandbyStage::Failed(
                StandbyStep::CleanSlotsAfter,
                e,
            ),
            (s, _) => s,
        };
        StandbyRun { stage }
    }

    /// How it ended, once it has.
    pub open spec fn outcome(self) -> Option<Result<(), Seq<char>>> {
        match self.stage {
            StandbyStage::Done => Some(Ok(())),
            StandbyStage::Failed(step, e) => Some(
                Err(
                    match step {
                        StandbyStep::ClearData => "basebackup: clear pgdata: "@ + e@,
                        StandbyStep::Basebackup => "basebackup: "@ + e@,
                        StandbyStep::CleanSlotsBefore => "rewind: pre-clean replslots: "@ + e@,
                        StandbyStep::Rewind => "rewind: "@ + e@,
                        StandbyStep::CleanSlotsAfter => "rewind: post-clean replslots: "@ + e@,
                    },
                ),
            ),
            _ => None,
        }
    }

    /// How it ended, once it has.
    pub fn result(&self) -> (r: Option<Result<(), String>>)
        ensures
            match (r, self.outcome()) {
                (Some(Ok(())), Some(Ok(()))) => true,
                (Some(Err(e)), Some(Err(want))) => e@ == want,
                (None, None) => true,
                _ => false,
            },
    {
        match &self.stage {
            StandbyStage::Done => Some(Ok(())),
            StandbyStage::Failed(step, e) => {
                let what = match step {
                    StandbyStep::ClearData => "basebackup: clear pgdata: ",
                    StandbyStep::Basebackup => "basebackup: ",
                    StandbyStep::CleanSlotsBefore => "rewind: pre-clean replslots: ",
                    StandbyStep::Rewind => "rewind: ",
                    StandbyStep::CleanSlotsAfter => "rewind: post-clean replslots: ",
                };
                Some(Err(text2(what, e.as_str())))
            },
            _ => None,
        }
    }
}

/// A node that was rewound had its slots removed before and after, and one
/// that was copied had its data directory emptied before.
pub proof fn law_data_is_cleaned(m: StandbyRun, replies: Seq<Reply>)
    ensures
        m.stage is CleanSlotsBefore && after(m, replies).stage is Done ==> performed(
            m,
            replies,
            |x: StandbyRun, r: Reply| x.stage is CleanSlotsBefore && r is Done,
        ) && performed(
            m,
            replies,
            |x: StandbyRun, r: Reply| x.stage is CleanSlotsAfter && r is Done,
        ),
        m.stage is ClearData && performed(
            m,
            replies,
            |x: StandbyRun, r: Reply| x.stage is Basebackup,
        ) ==> performed(m, replies, |x: StandbyRun, r: Reply| x.stage is ClearData && r is Done),
{
    if m.stage is CleanSlotsBefore {
        lemma_comes_after(
            m,
            replies,
            |x: StandbyRun, r: Reply| x.stage is CleanSlotsBefore && r is Done,
            |x: StandbyRun| !(x.stage is CleanSlotsBefore || x.stage is Failed),
            |x: StandbyRun, r: Reply| false,
        );
        lemma_comes_after(
            m,
            replies,
            |x: StandbyRun, r: Reply| x.stage is CleanSlotsAfter && r is Done,
            |x: StandbyRun| x.stage is Done || x.stage is Basebackup || x.stage is ClearData,
            |x: StandbyRun, r: Reply| false,
        );
    }
    if m.stage is ClearData {
        lemma_comes_after(
            m,
            replies,
            |x: StandbyRun, r: Reply| x.stage is ClearData && r is Done,
            |x: StandbyRun| x.stage is Basebackup,
            |x: StandbyRun, r: Reply| x.stage is Basebackup,
        );
    }
}

/// Whether a text holds a character that would end the quotes around it.
pub open spec fn breaks_quotes(s: Seq<char>) -> bool {
    s.contains('\'') || s.contains('\r') || s.contains('\n')
}

fn holds_break(s: &str) -> (r: bool)
    ensures
        r == breaks_quotes(s@),
{
    let v = chars_of(s);
    let mut i: usize = 0;
    while i < v.len()
        invariant
            i <= v.len(),
            v@ == s@,
            forall|k: int| 0 <= k < i ==> v@[k] != '\'' && v@[k] != '\r' && v@[k] != '\n',
        decreases v.len() - i,
    {
        if v[i] == '\'' || v[i] == '\r' || v[i] == '\n' {
            assert(s@[i as int] == v@[i as int]);
            return true;
        }
        i = i + 1;
    }
    false
}

/// What is wrong with what the recovery configuration is to hold.
pub open spec fn conf_fault(conninfo: Seq<char>, slot_name: Seq<char>) -> Option<Seq<char>> {
    if conninfo.len() == 0 {
        Some("conninfo is required"@)
    } else if breaks_quotes(conninfo) {
        Some("conninfo contains forbidden characters"@)
    } else {
        slot_fault(slot_name)
    }
}

/// The recovery configuration.
pub open spec fn conf_text(conninfo: Seq<char>, slot_name: Seq<char>) -> Seq<char> {
    "# managed by pg_agent\nprimary_conninfo = '"@ + conninfo + "'\nprimary_slot_name = '"@
        + slot_name + "'\nrestore_command = 'pg_agentc restore-wal %f %p'\n"@
}

/// Writes out the recovery configuration. What would end the quotes around it
/// is refused.
pub fn render_recovery_conf(conninfo: &str, slot_name: &str) -> (r: Result<String, String>)
    ensures
        match (r, conf_fault(conninfo@, slot_name@)) {
            (Ok(s), None) => s@ == conf_text(conninfo@, slot_name@),
            (Err(e), Some(want)) => e@ == want,
            _ => false,
        },
{
    if conninfo.is_empty() {
        return Err("conninfo is required".to_owned());
    }
    if holds_break(conninfo) {
        return Err("conninfo contains forbidden characters".to_owned());
    }
    match check_slot(slot_name) {
        Ok(()) => {},
        Err(e) => {
            return Err(e);
        },
    }
    Ok(
        text5(
            "# managed by pg_agent\nprimary_conninfo = '",
            conninfo,
            "'\nprimary_slot_name = '",
            slot_name,
            "'\nrestore_command = 'pg_agentc restore-wal %f %p'\n",
        ),
    )
}

/// The recovery configuration for `opts`, with the connection string made
/// from them.
pub fn recovery_conf(opts: &WriteRecoveryConfOpts, conninfo: &str) -> (r: Result<String, String>)
    ensures
        match opts.fault() {
            Some(want) => r is Err && r->Err_0@ == "write_recovery_conf: validate: "@ + want,
            None => match (r, conf_fault(conninfo@, opts.slot_name@)) {
                (Ok(s), None) => s@ == conf_text(conninfo@, opts.slot_name@),
                (Err(e), Some(want)) => e@ == want,
                _ => false,
            },
        },
{
    match opts.validate() {
        Ok(()) => {},
        Err(e) => {
            return Err(text2("write_recovery_conf: validate: ", e.as_str()));
        },
    }
    render_recovery_conf(conninfo, opts.slot_name.as_str())
}

/// The permissions of the files that make a node a standby.
pub const STANDBY_FILE_MODE: u32 = 0o640;

/// A file that makes a node a standby.
#[derive(Clone, Copy, Debug, PartialEq, Eq, Structural)]
pub enum StandbyFile {
    /// The recovery configuration.
    Conf,
    /// The mark that has PostgreSQL start as a standby.
    Signal,
}

impl StandbyFile {
    /// The name of the file in the data directory.
    pub open spec fn file_name(self) -> Seq<char> {
        match self {
            StandbyFile::Conf => "myrecovery.conf"@,
            StandbyFile::Signal => "standby.signal"@,
        }
    }

    /// The name of the file in the data directory.
    pub fn name(self) -> (r: &'static str)
        ensures
            r@ == self.file_name(),
    {
        match self {
            StandbyFile::Conf => "myrecovery.conf",
            StandbyFile::Signal => "standby.signal",
        }
    }
}

/// The file that is to be written, or how that ended.
pub enum RecoveryConfStage {
    /// Write this file.
    Write(StandbyFile),
    /// This file could not be written.
    Failed(StandbyFile, String),
    /// Both files were written.
    Done,
}

/// A node that is made a standby.
pub struct RecoveryConfRun {
    /// The recovery configuration.
    pub conf: String,
    pub stage: RecoveryConfStage,
}

impl Machine for RecoveryConfRun {
    open spec fn next(self, reply: Reply) -> Self {
        RecoveryConfRun {
            stage: match (self.stage, reply) {
                (RecoveryConfStage::Write(StandbyFile::Conf), Reply::Done) => {
                    RecoveryConfStage::Write(StandbyFile::Signal)
                },
                (RecoveryConfStage::Write(StandbyFile::Signal), Reply::Done) => {
                    RecoveryConfStage::Done
                },
                (RecoveryConfStage::Write(f), Reply::Failed(e)) => RecoveryConfStage::Failed(f, e),
                (s, _) => s,
            },
            ..self
        }
    }
}

impl RecoveryConfRun {
    /// Begins with the configuration for `opts` and the connection string made
    /// from them.
    pub fn new(opts: &WriteRecoveryConfOpts, conninfo: &str) -> (r: Result<RecoveryConfRun, String>)
        ensures
            match opts.fault() {
                Some(want) => r is Err && r->Err_0@ == "write_recovery_conf: validate: "@ + want,
                None => match (r, conf_fault(conninfo@, opts.slot_name@)) {
                    (Ok(m), None) => m.conf@ == conf_text(conninfo@, opts.slot_name@) && m.stage
                        == RecoveryConfStage::Write(StandbyFile::Conf),
                    (Err(e), Some(want)) => e@ == want,
                    _ => false,
                },
            },
    {
        match recovery_conf(opts, conninfo) {
            Ok(conf) => Ok(
                RecoveryConfRun { conf, stage: RecoveryConfStage::Write(StandbyFile::Conf) },
            ),
            Err(e) => Err(e),
        }
    }

    /// The name and the contents of the file that is to be written, where one
    /// is.
    pub fn due(&self) -> (r: Option<(&'static str, &str)>)
        ensures
            match (r, self.stage) {
                (Some(f), RecoveryConfStage::Write(file)) => f.0@ == file.file_name() && f.1@
                    == match file {
                    StandbyFile::Conf => self.conf@,
                    StandbyFile::Signal => ""@,
                },
                (None, RecoveryConfStage::Write(_)) => false,
                (r, _) => r is None,
            },
    {
        match &self.stage {
            RecoveryConfStage::Write(StandbyFile::Conf) => Some(
                (StandbyFile::Conf.name(), self.conf.as_str()),
            ),
            RecoveryConfStage::Write(StandbyFile::Signal) => Some((StandbyFile::Signal.name(), "")),
            _ => None,
        }
    }

    /// Takes the reply to the write that was due.
    pub fn step(self, reply: Reply) -> (r: Self)
        ensures
            r == self.next(reply),
    {
        let stage = match (self.stage, reply) {
            (RecoveryConfStage::Write(StandbyFile::Conf), Reply::Done) => RecoveryConfStage::Write(
                StandbyFile::Signal,
            ),
            (RecoveryConfStage::Write(StandbyFile::Signal), Reply::Done) => RecoveryConfStage::Done,
            (RecoveryConfStage::Write(f), Reply::Failed(e)) => RecoveryConfStage::Failed(f, e),
            (s, _) => s,
        };
        RecoveryConfRun { stage, ..self }
    }

    /// How it ended, once it has.
    pub open spec fn outcome(self) -> Option<Result<(), Seq<char>>> {
        match self.stage {
            RecoveryConfStage::Done => Some(Ok(())),
            RecoveryConfStage::Failed(f, e) => Some(
                Err("write_recovery_conf: write "@ + f.file_name() + ": "@ + e@),
            ),
            _ => None,
        }
    }

    /// How it ended, once it has.
    pub fn result(&self) -> (r: Option<Result<(), String>>)
        ensures
            match (r, self.outcome()) {
                (Some(Ok(())), Some(Ok(()))) => true,
                (Some(Err(e)), Some(Err(want))) => e@ == want,
                (None, None) => true,
                _ => false,
            },
    {
        match &self.stage {
            RecoveryConfStage::Done => Some(Ok(())),
            RecoveryConfStage::Failed(f, e) => Some(
                Err(text4("write_recovery_conf: write ", f.name(), ": ", e.as_str())),
            ),
            _ => None,
        }
    }
}

/// A node is marked as a standby only once its recovery configuration is
/// written.
pub proof fn law_mark_follows_the_configuration(m: RecoveryConfRun, replies: Seq<Reply>)
    requires
        m.stage == RecoveryConfStage::Write(StandbyFile::Conf),
        performed(
            m,
            replies,
            |x: RecoveryConfRun, r: Reply| x.stage == RecoveryConfStage::Write(StandbyFile::Signal),
        ),
    ensures
        performed(
            m,
            replies,
            |x: RecoveryConfRun, r: Reply|
                x.stage == RecoveryConfStage::Write(StandbyFile::Conf) && r is Done,
        ),
{
    lemma_comes_after(
        m,
        replies,
        |x: RecoveryConfRun, r: Reply|
            x.stage == RecoveryConfStage::Write(StandbyFile::Conf) && r is Done,
        |x: RecoveryConfRun| x.stage == RecoveryConfStage::Write(StandbyFile::Signal),
        |x: RecoveryConfRun, r: Reply| x.stage == RecoveryConfStage::Write(StandbyFile::Signal),
    );
}

/// Names that pass the checks cannot end the quotes around them, nor the line
/// that they stand on.
pub proof fn law_checked_names_keep_their_quotes(opts: WriteRecoveryConfOpts)
    requires
        opts.fault() is None,
    ensures
        !breaks_quotes(opts.primary_host@),
        !breaks_quotes(opts.repl_user@),
        !breaks_quotes(opts.slot_name@),
        !opts.primary_host@.contains(' '),
        !opts.repl_user@.contains(' '),
        !opts.slot_name@.contains(' '),
{
}

/// A node is copied only once its data directory is empty; it is rewound only
/// once the slots it had are gone, and only once those that came are gone too
/// is it done.
pub proof fn law_how_a_node_is_copied(x: StandbyRun, r: Reply)
    ensures
        ({
            let t = x.next(r).stage;
            t == x.stage || match t {
                StandbyStage::ClearData => false,
                StandbyStage::CleanSlotsBefore => false,
                StandbyStage::Basebackup => x.stage is ClearData && r is Done,
                StandbyStage::Rewind => x.stage is CleanSlotsBefore && r is Done,
                StandbyStage::CleanSlotsAfter => x.stage is Rewind && r is Done,
                StandbyStage::Done => (x.stage is Basebackup || x.stage is CleanSlotsAfter)
                    && r is Done,
                StandbyStage::Failed(step, e) => r == Reply::Failed(e) && match step {
                    StandbyStep::ClearData => x.stage is ClearData,
                    StandbyStep::Basebackup => x.stage is Basebackup,
                    StandbyStep::CleanSlotsBefore => x.stage is CleanSlotsBefore,
                    StandbyStep::Rewind => x.stage is Rewind,
                    StandbyStep::CleanSlotsAfter => x.stage is CleanSlotsAfter,
                },
            }
        }),
{
}

/// An answer to the call that is due moves the run on, and nothing else does.
pub proof fn law_every_reply_to_a_copy_counts(x: StandbyRun, r: Reply)
    ensures
        ({
            let answers = !(x.stage is Done || x.stage is Failed) && (r is Done || r is Failed);
            &&& answers ==> x.next(r).stage != x.stage
            &&& !answers ==> x.next(r) == x
            &&& x.next(r) == (StandbyRun { stage: x.next(r).stage })
        }),
{
}

/// A run ended well exactly where all was done, and one that failed ends with
/// the error.
pub proof fn law_copies_tell_the_end(x: StandbyRun)
    ensures
        match x.outcome() {
            None => !(x.stage is Done || x.stage is Failed),
            Some(Ok(())) => x.stage is Done,
            Some(Err(message)) => x.stage is Failed && ends_with(message, x.stage->Failed_1@),
        },
{
    if let StandbyStage::Failed(step, e) = x.stage {
        let s = x.outcome()->0->Err_0;
        assert(s.skip(s.len() - e@.len()) =~= e@);
    }
}

/// The mark is written only once the configuration is, and all is done only once
/// the mark is.
pub proof fn law_how_a_node_is_made_a_standby(x: RecoveryConfRun, r: Reply)
    ensures
        ({
            let t = x.next(r).stage;
            t == x.stage || match t {
                RecoveryConfStage::Write(f) => f is Signal
                    && x.stage == RecoveryConfStage::Write(StandbyFile::Conf) && r is Done,
                RecoveryConfStage::Failed(f, e) => x.stage == RecoveryConfStage::Write(f)
                    && r == Reply::Failed(e),
                RecoveryConfStage::Done => x.stage == RecoveryConfStage::Write(StandbyFile::Signal) && r is Done,
            }
        }),
{
}

/// An answer to the write that is due moves the run on, and nothing else does;
/// the configuration stays.
pub proof fn law_every_reply_to_a_write_counts(x: RecoveryConfRun, r: Reply)
    ensures
        ({
            let answers = x.stage is Write && (r is Done || r is Failed);
            &&& answers ==> x.next(r).stage != x.stage
            &&& !answers ==> x.next(r) == x
            &&& x.next(r) == (RecoveryConfRun { stage: x.next(r).stage, ..x })
        }),
{
}

/// A run ended well exactly where both files were written, and one that failed
/// tells the file and ends with the error.
pub proof fn law_writes_tell_the_end(x: RecoveryConfRun)
    ensures
        match x.outcome() {
            None => x.stage is Write,
            Some(Ok(())) => x.stage is Done,
            Some(Err(message)) => x.stage is Failed && ends_with(message, x.stage->Failed_1@)
                && holds_text(message, x.stage->Failed_0.file_name()),
        },
        StandbyFile::Conf.file_name() != StandbyFile::Signal.file_name(),
{
    reveal_strlit("myrecovery.conf");
    reveal_strlit("standby.signal");
    assert("myrecovery.conf"@.len() == 15 && "standby.signal"@.len() == 14);
    if let RecoveryConfStage::Failed(f, e) = x.stage {
        let s = x.outcome()->0->Err_0;
        assert(s.skip(s.len() - e@.len()) =~= e@);
        let n = "write_recovery_conf: write "@.len() as int;
        assert(s.subrange(n, n + f.file_name().len()) =~= f.file_name());
        assert(stands_at(s, f.file_name(), n));
    }
}

/// Options are accepted exactly where host, role and slot are there and hold
/// only their own characters, and the port is not zero.
pub proof fn law_options_that_are_accepted(
    b: BasebackupOpts,
    r: RewindOpts,
    w: WriteRecoveryConfOpts,
)
    ensures
        b.fault() is None <==> is_host(b.primary_host@) && b.primary_port > 0 && is_name(
            b.slot_name@,
        ) && is_name(b.repl_user@),
        r.fault() is None <==> is_host(r.primary_host@) && r.primary_port > 0 && is_name(
            r.repl_user@,
        ),
        w.fault() is None <==> is_host(w.primary_host@) && w.primary_port > 0 && is_name(
            w.slot_name@,
        ) && is_name(w.repl_user@),
{
}

/// A name is not empty and holds only letters, digits, underscores, points and
/// dashes; the name of a host may hold colons besides.
pub proof fn law_characters_of_names(s: Seq<char>)
    ensures
        is_name(s) <==> s.len() > 0 && forall|i: int|
            0 <= i < s.len() ==> ('a' <= #[trigger] s[i] <= 'z' || 'A' <= s[i] <= 'Z' || '0' <= s[i]
                <= '9' || s[i] == '_' || s[i] == '.' || s[i] == '-'),
        is_host(s) <==> s.len() > 0 && forall|i: int|
            0 <= i < s.len() ==> ('a' <= #[trigger] s[i] <= 'z' || 'A' <= s[i] <= 'Z' || '0' <= s[i]
                <= '9' || s[i] == '_' || s[i] == '.' || s[i] == '-' || s[i] == ':'),
{
    if is_name(s) {
        assert forall|i: int| 0 <= i < s.len() implies ('a' <= #[trigger] s[i] <= 'z' || 'A' <= s[i]
            <= 'Z' || '0' <= s[i] <= '9' || s[i] == '_' || s[i] == '.' || s[i] == '-') by {
            assert(is_name_char(s[i]));
        }
    }
    if is_host(s) {
        assert forall|i: int| 0 <= i < s.len() implies ('a' <= #[trigger] s[i] <= 'z' || 'A' <= s[i]
            <= 'Z' || '0' <= s[i] <= '9' || s[i] == '_' || s[i] == '.' || s[i] == '-' || s[i]
            == ':') by {
            assert(is_host_char(s[i]));
        }
    }
}

/// A fault tells the field: host before port, port before slot, slot before
/// role.
pub proof fn law_first_fault_is_told(w: WriteRecoveryConfOpts)
    ensures
        !(is_host(w.primary_host@) && w.primary_port > 0) ==> w.fault() == address_fault(
            w.primary_host@,
            w.primary_port,
        ),
        is_host(w.primary_host@) && w.primary_port > 0 && !is_name(w.slot_name@) ==> w.fault()
            == slot_fault(w.slot_name@),
        is_host(w.primary_host@) && w.primary_port > 0 && is_name(w.slot_name@) ==> w.fault()
            == user_fault(w.repl_user@),
{
}

/// A name within a directory is behind it, with one slash between them.
pub proof fn law_paths_have_one_slash(dir: Seq<char>, name: Seq<char>)
    ensures
        ends_with(within(dir, name), name),
        dir.is_prefix_of(within(dir, name)),
        dir.len() > 0 ==> within(dir, name)[within(dir, name).len() - name.len() - 1] == '/',
        within(dir, name).len() <= dir.len() + name.len() + 1,
        dir.len() == 0 || dir.last() == '/' ==> within(dir, name).len() == dir.len() + name.len(),
{
    reveal_strlit("/");
    let s = within(dir, name);
    assert(s.skip(s.len() - name.len()) =~= name);
}

/// A run of a program is a success exactly where the program succeeded; what is
/// said otherwise tells the program, and the error or the output that was kept
/// at its end.
pub proof fn law_only_a_success_is_one(
    bin: Seq<char>,
    bin_name: Seq<char>,
    pg_home: Seq<char>,
    run: PgRun,
    tail: Seq<char>,
)
    ensures
        match pg_run_fault(bin, bin_name, pg_home, run, tail) {
            None => run is Succeeded,
            Some(message) => match run {
                PgRun::NotFound => bin.is_prefix_of(message) && holds_text(message, pg_home),
                PgRun::SpawnFailed(e) => ends_with(message, e@) && holds_text(message, bin),
                PgRun::WaitFailed(e) => ends_with(message, e@) && holds_text(message, bin_name),
                PgRun::Exited(code) => bin_name.is_prefix_of(message) && ends_with(message, tail)
                    && (tail.len() == 0 ==> ends_with(message, exit_text(code))),
                PgRun::Succeeded => false,
            },
        },
{
    if let Some(s) = pg_run_fault(bin, bin_name, pg_home, run, tail) {
        match run {
            PgRun::NotFound => {
                let n = bin.len()
                    + ": binary not found (install the matching PostgreSQL client package or check that pghome="@.len();
                assert(s.subrange(n as int, (n + pg_home.len()) as int) =~= pg_home);
                assert(stands_at(s, pg_home, n as int));
            },
            PgRun::SpawnFailed(e) => {
                assert(s.skip(s.len() - e@.len()) =~= e@);
                let n = "spawn "@.len() as int;
                assert(s.subrange(n, n + bin.len()) =~= bin);
                assert(stands_at(s, bin, n));
            },
            PgRun::WaitFailed(e) => {
                assert(s.skip(s.len() - e@.len()) =~= e@);
                let n = "wait "@.len() as int;
                assert(s.subrange(n, n + bin_name.len()) =~= bin_name);
                assert(stands_at(s, bin_name, n));
            },
            PgRun::Exited(code) => {
                assert(s.skip(s.len() - tail.len()) =~= tail);
                if tail.len() == 0 {
                    let e = exit_text(code);
                    assert(s.skip(s.len() - e.len()) =~= e);
                }
            },
            PgRun::Succeeded => {},
        }
    }
}

/// A line that fits is kept at the end, on a line of its own; one that does not
/// fit changes nothing.
pub proof fn law_lines_that_fit_are_kept(tail: Seq<char>, line: Seq<char>)
    requires
        byte_len(tail) < 4096,
    ensures
        tail.len() == 0 && byte_len(line) <= 4096 ==> tail_with(tail, line) == line,
        tail.len() > 0 && byte_len(tail) + 1 + byte_len(line) <= 4096 ==> ends_with(
            tail_with(tail, line),
            seq!['\n'] + line,
        ) && tail.is_prefix_of(tail_with(tail, line)) && tail_with(tail, line).len() == tail.len()
            + 1 + line.len(),
        tail.len() > 0 && byte_len(tail) + 1 + byte_len(line) > 4096 ==> tail_with(tail, line)
            == tail,
{
    reveal_strlit("\n");
    let s = tail + "\n"@ + line;
    let e = seq!['\n'] + line;
    assert(s.skip(s.len() - e.len()) =~= e);
}

/// The first place at which a text stands is found, and none where it stands
/// nowhere.
pub proof fn law_seeking_finds_the_first(s: Seq<char>, needle: Seq<char>)
    ensures
        match seek(s, needle, 0) {
            Some(i) => stands_at(s, needle, i) && forall|j: int|
                0 <= j < i ==> !stands_at(s, needle, j),
            None => !holds_text(s, needle),
        },
{
    lemma_seek_from(s, needle, 0);
}

proof fn lemma_seek_from(s: Seq<char>, needle: Seq<char>, from: int)
    requires
        0 <= from,
    ensures
        match seek(s, needle, from) {
            Some(i) => from <= i && stands_at(s, needle, i) && forall|j: int|
                from <= j < i ==> !stands_at(s, needle, j),
            None => forall|j: int| from <= j ==> !stands_at(s, needle, j),
        },
    decreases s.len() + 1 - from,
{
    if from <= s.len() && !stands_at(s, needle, from) {
        lemma_seek_from(s, needle, from + 1);
    }
}

/// Progress that is written as two numbers around a slash before ` kB` is read
/// as these numbers, whatever follows, and reported in bytes.
pub proof fn law_progress_is_read(a: i64, b: i64, rest: Seq<char>)
    requires
        0 <= a,
        0 <= b,
    ensures
        kb_fraction(dec(a as int) + seq!['/'] + dec(b as int) + " kB"@ + rest) == Some((a, b)),
        a * 1024 <= i64::MAX && b * 1024 <= i64::MAX ==> in_bytes((a, b)) == (
            (a * 1024) as i64,
            (b * 1024) as i64,
        ),
{
    reveal_strlit(" kB");
    reveal_strlit("/");
    let x = dec(a as int);
    let y = dec(b as int);
    let f = x + seq!['/'] + y;
    let s = f + " kB"@ + rest;
    crate::text::lemma_dec_differs(a as int, a as int);
    crate::text::lemma_dec_differs(b as int, b as int);
    crate::text::lemma_dec_digits(a as nat);
    crate::text::lemma_dec_digits(b as nat);
    let n = f.len() as int;
    assert forall|i: int| 0 <= i < n implies f[i] != ' ' by {
        if i < x.len() {
            assert(f[i] == x[i]);
        } else if i > x.len() {
            assert(f[i] == y[i - x.len() - 1]);
        }
    }
    assert(s.subrange(n, n + 3) =~= " kB"@);
    assert forall|j: int| 0 <= j < n implies !stands_at(s, " kB"@, j) by {
        if stands_at(s, " kB"@, j) {
            assert(s.subrange(j, j + 3)[0] == s[j]);
            assert(s[j] == f[j]);
        }
    }
    lemma_seek(s, " kB"@, 0, n);
    assert(s.take(n) =~= f);
    lemma_black_stays(f);
    let k = x.len() as int;
    assert forall|j: int| 0 <= j < k implies !stands_at(f, "/"@, j) by {
        if stands_at(f, "/"@, j) {
            assert(f.subrange(j, j + 1)[0] == f[j]);
            assert(f[j] == x[j]);
        }
    }
    assert(f.subrange(k, k + 1) =~= "/"@);
    lemma_seek(f, "/"@, 0, k);
    assert(f.take(k) =~= x);
    assert(f.skip(k + 1) =~= y);
    lemma_black_stays(x);
    lemma_black_stays(y);
    law_numbers_are_read_back(a as int);
    law_numbers_are_read_back(b as int);
}

proof fn lemma_black_stays(s: Seq<char>)
    requires
        forall|i: int| 0 <= i < s.len() ==> ('0' <= #[trigger] s[i] <= '9' || s[i] == '/' || s[i]
            == '-'),
    ensures
        trimmed(s) == s,
{
    if s.len() > 0 {
        crate::scan::law_what_is_whitespace(s[0]);
        crate::scan::law_what_is_whitespace(s.last());
    }
}

/// A line without ` kB` and ` KB` is no progress.
pub proof fn law_other_lines_are_no_progress(s: Seq<char>)
    requires
        !holds_text(s, " kB"@),
        !holds_text(s, " KB"@),
    ensures
        kb_fraction(s) is None,
{
    lemma_seek_none(s, " kB"@, 0);
    lemma_seek_none(s, " KB"@, 0);
}

/// A line that reports progress is not kept, a blank one does nothing, and any
/// other is kept as far as it fits.
pub proof fn law_lines_are_progress_or_kept(tail: Seq<char>, text: Seq<char>)
    ensures
        progress_of(text) is Some ==> tail_after(tail, text) == tail && kb_fraction(trimmed(text))
            is Some && progress_of(text)->0 == in_bytes(kb_fraction(trimmed(text))->0),
        trimmed(text).len() == 0 ==> tail_after(tail, text) == tail && progress_of(text) is None,
        trimmed(text).len() > 0 && progress_of(text) is None ==> tail_after(tail, text)
            == tail_with(tail, trimmed(text)),
        trimmed(text).len() > 0 && kb_fraction(trimmed(text)) is Some ==> progress_of(text) is Some,
{
}

/// A line ends with a line feed or a carriage return; any other byte joins the
/// line at hand. A line that ended leaves nothing behind but what is kept of it
/// and the progress that it reports.
pub proof fn law_lines_end_with_feeds_and_returns(s: DrainState, b: u8)
    ensures
        b != 10 && b != 13 ==> s.with_byte(b) == (DrainState { line: s.line.push(b), ..s }),
        b == 10 || b == 13 ==> s.with_byte(b) == s.line_ended(),
        s.line_ended().line.len() == 0,
        s.line.len() == 0 ==> s.line_ended() == s,
        s.line.len() > 0 ==> s.line_ended().tail == tail_after(s.tail, lossy(s.line)),
        s.line.len() > 0 ==> match progress_of(lossy(s.line)) {
            Some(p) => s.line_ended().progress == s.progress.push(p),
            None => s.line_ended().progress == s.progress,
        },
{
}

/// A configuration is refused exactly where the connection string is empty or
/// would end its quotes, or the slot's name is none.
pub proof fn law_configurations_that_are_accepted(conninfo: Seq<char>, slot_name: Seq<char>)
    ensures
        conf_fault(conninfo, slot_name) is None <==> conninfo.len() > 0 && !conninfo.contains('\'')
            && !conninfo.contains('\r') && !conninfo.contains('\n') && is_name(slot_name),
{
}

/// A configuration names the connection string and the slot, each between
/// quotes and on a line of its own.
pub proof fn law_configurations_name_primary_and_slot(conninfo: Seq<char>, slot_name: Seq<char>)
    ensures
        holds_text(
            conf_text(conninfo, slot_name),
            "primary_conninfo = '"@ + conninfo + "'\n"@,
        ),
        holds_text(
            conf_text(conninfo, slot_name),
            "primary_slot_name = '"@ + slot_name + "'\n"@,
        ),
        holds_text(
            conf_text(conninfo, slot_name),
            "restore_command = 'pg_agentc restore-wal %f %p'"@,
        ),
{
    reveal_strlit("# managed by pg_agent\nprimary_conninfo = '");
    reveal_strlit("primary_conninfo = '");
    reveal_strlit("'\nprimary_slot_name = '");
    reveal_strlit("primary_slot_name = '");
    reveal_strlit("'\nrestore_command = 'pg_agentc restore-wal %f %p'\n");
    reveal_strlit("restore_command = 'pg_agentc restore-wal %f %p'");
    reveal_strlit("'\n");
    let s = conf_text(conninfo, slot_name);
    let a = "primary_conninfo = '"@ + conninfo + "'\n"@;
    let i = "# managed by pg_agent\nprimary_conninfo = '"@.len() - "primary_conninfo = '"@.len();
    assert(s.subrange(i, i + a.len()) =~= a);
    assert(stands_at(s, a, i));
    let b = "primary_slot_name = '"@ + slot_name + "'\n"@;
    let j = i + a.len();
    assert(s.subrange(j, j + b.len()) =~= b);
    assert(stands_at(s, b, j));
    let c = "restore_command = 'pg_agentc restore-wal %f %p'"@;
    let k = j + b.len();
    assert(s.subrange(k, k + c.len()) =~= c);
    assert(stands_at(s, c, k));
}

/// What is kept takes no more bytes, encoded, than its limit, and a line is left
/// out only where it would take more.
pub proof fn law_limits_are_in_bytes(tail: Seq<char>, line: Seq<char>)
    requires
        encode_utf8(tail).len() <= 4096,
    ensures
        encode_utf8(tail_with(tail, line)).len() <= 4096,
        tail_with(tail, line) == tail || tail_with(tail, line).len() >= tail.len() + line.len(),
        line.len() > 0 && tail_with(tail, line) == tail ==> encode_utf8(tail).len() + encode_utf8(
            line,
        ).len() + 1 > 4096,
{
    law_tail_is_bounded(tail, line);
}

/// Progress before ` KB` is read in the same way where there is no ` kB`.
pub proof fn law_progress_in_capitals_is_read(a: i64, b: i64, rest: Seq<char>)
    requires
        0 <= a,
        0 <= b,
        !holds_text(dec(a as int) + seq!['/'] + dec(b as int) + " KB"@ + rest, " kB"@),
    ensures
        kb_fraction(dec(a as int) + seq!['/'] + dec(b as int) + " KB"@ + rest) == Some((a, b)),
{
    reveal_strlit(" kB");
    reveal_strlit(" KB");
    let f = dec(a as int) + seq!['/'] + dec(b as int);
    let s = f + " KB"@ + rest;
    let t = f + " kB"@ + rest;
    let n = f.len() as int;
    law_progress_is_read(a, b, rest);
    lemma_seek_none(s, " kB"@, 0);
    law_seeking_finds_the_first(t, " kB"@);
    law_seeking_finds_the_first(s, " KB"@);
    crate::text::lemma_dec_differs(a as int, a as int);
    crate::text::lemma_dec_differs(b as int, b as int);
    assert(s.subrange(n, n + 3) =~= " KB"@);
    assert(t.subrange(n, n + 3) =~= " kB"@);
    assert(stands_at(s, " KB"@, n) && stands_at(t, " kB"@, n));
    assert forall|i: int| 0 <= i < n implies f[i] != ' ' by {
        let x = dec(a as int);
        let y = dec(b as int);
        if i < x.len() {
            assert(f[i] == x[i]);
        } else if i > x.len() {
            assert(f[i] == y[i - x.len() - 1]);
        }
    }
    assert forall|j: int| 0 <= j < n implies !stands_at(s, " KB"@, j) && !stands_at(
        t,
        " kB"@,
        j,
    ) by {
        if stands_at(s, " KB"@, j) {
            assert(s.subrange(j, j + 3)[0] == s[j]);
            assert(s[j] == f[j]);
        }
        if stands_at(t, " kB"@, j) {
            assert(t.subrange(j, j + 3)[0] == t[j]);
            assert(t[j] == f[j]);
        }
    }
    lemma_seek(s, " KB"@, 0, n);
    lemma_seek(t, " kB"@, 0, n);
    assert(s.take(n) =~= f);
    assert(t.take(n) =~= f);
}

} // verus!
