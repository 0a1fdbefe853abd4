//! pgpool's control protocol: the commands to run, and what their output says.
use crate::config::{PcpConfig, DEFAULT_PCP_PORT, DEFAULT_PCP_USER};
use crate::scan::{
    float, i32_error, is_float, lemma_unsigned_numbers, lines_of, number_in, parse_i32, parse_u16,
    parse_u8, split_lines, split_words, trim, trimmed, u16_error, u8_error, words,
};
use crate::text::{
    debug_text, dec, ends_with, int_text, lossy, lossy_text, nat_text, quoted, text2, text3, text4,
    text5, views,
};
use vstd::prelude::*;

verus! {

/// Seconds that one command is given.
pub const PCP_TIMEOUT: u64 = 30;

/// One backend as pgpool sees it.
#[derive(Clone, Debug, PartialEq, Eq)]
pub struct NodeInfo {
    /// The place of the backend in pgpool's configuration.
    pub id: i32,
    pub hostname: String,
    pub port: u16,
    /// 0: not used; 1: up, without connections; 2: up; 3: down.
    pub status_code: u8,
    /// The share of the load, as the decimal number that pgpool printed.
    pub lb_weight: String,
    pub status_name: String,
    pub actual_status: String,
    pub role: String,
    pub actual_role: String,
    pub replication_delay: String,
    pub replication_state: String,
    pub sync_state: String,
}

/// What a `NodeInfo` says.
pub struct NodeInfoView {
    pub id: i32,
    pub hostname: Seq<char>,
    pub port: u16,
    pub status_code: u8,
    pub lb_weight: Seq<char>,
    pub status_name: Seq<char>,
    pub actual_status: Seq<char>,
    pub role: Seq<char>,
    pub actual_role: Seq<char>,
    pub replication_delay: Seq<char>,
    pub replication_state: Seq<char>,
    pub sync_state: Seq<char>,
}

impl View for NodeInfo {
    type V = NodeInfoView;

    open spec fn view(&self) -> NodeInfoView {
        NodeInfoView {
            id: self.id,
            hostname: self.hostname@,
            port: self.port,
            status_code: self.status_code,
            lb_weight: self.lb_weight@,
            status_name: self.status_name@,
            actual_status: self.actual_status@,
            role: self.role@,
            actual_role: self.actual_role@,
            replication_delay: self.replication_delay@,
            replication_state: self.replication_state@,
            sync_state: self.sync_state@,
        }
    }
}

impl NodeInfo {
    /// Whether pgpool sends queries to this backend.
    pub open spec fn up(self) -> bool {
        0 < self.status_code < 3
    }

    /// Whether pgpool sends queries to this backend.
    pub fn is_up(&self) -> (r: bool)
        ensures
            r == self.up(),
    {
        self.status_code > 0 && self.status_code < 3
    }
}

/// Where pgpool's control port is, and who asks.
pub struct PcpCli {
    pub host: String,
    pub port: u16,
    pub user: String,
}

/// A command to run: its name, what it is called in messages, and what comes
/// behind the arguments that all commands share.
pub struct PcpCommand {
    pub bin: &'static str,
    pub desc: String,
    pub extra_args: Vec<String>,
}

/// How a command ended.
pub enum PcpRun {
    /// Its time ran out.
    TimedOut,
    /// There is no such command.
    NotFound,
    /// It could not be started.
    SpawnFailed(String),
    /// It failed, with this code where it has one.
    Exited { code: Option<i32>, stdout: Vec<u8>, stderr: Vec<u8> },
    /// It succeeded.
    Succeeded { stdout: Vec<u8> },
}

impl PcpCli {
    /// Asks the local pgpool, as configured.
    pub fn new(cfg: &PcpConfig) -> (r: PcpCli)
        ensures
            r.host@ == "localhost"@,
            r.port == match cfg.port {
                Some(p) => p,
                None => DEFAULT_PCP_PORT,
            },
            r.user@ == match cfg.user {
                Some(u) => u@,
                None => DEFAULT_PCP_USER@,
            },
    {
        PcpCli {
            host: "localhost".to_owned(),
            port: match cfg.port {
                Some(p) => p,
                None => DEFAULT_PCP_PORT,
            },
            user: match &cfg.user {
                Some(u) => u.clone(),
                None => DEFAULT_PCP_USER.to_owned(),
            },
        }
    }

    /// The arguments that all commands share: where to connect, as whom, and
    /// that no password is asked for.
    pub fn common_args(&self) -> (r: Vec<String>)
        ensures
            views(r@) == seq![
                "-h"@,
                self.host@,
                "-p"@,
                dec(self.port as int),
                "-U"@,
                self.user@,
                "-w"@,
            ],
    {
        let mut args: Vec<String> = Vec::new();
        args.push("-h".to_owned());
        args.push(self.host.clone());
        args.push("-p".to_owned());
        args.push(int_text(self.port as i64));
        args.push("-U".to_owned());
        args.push(self.user.clone());
        args.push("-w".to_owned());
        assert(views(args@) =~= seq![
            "-h"@,
            self.host@,
            "-p"@,
            dec(self.port as int),
            "-U"@,
            self.user@,
            "-w"@,
        ]);
        args
    }
}

/// The command that attaches a backend.
pub fn attach_command(node_id: i32) -> (r: PcpCommand)
    ensures
        r.bin@ == "pcp_attach_node"@,
        r.desc@ == "pcp_attach_node (node "@ + dec(node_id as int) + ")"@,
        views(r.extra_args@) == seq!["-n"@, dec(node_id as int)],
{
    let id = int_text(node_id as i64);
    let desc = text3("pcp_attach_node (node ", id.as_str(), ")");
    let mut extra_args: Vec<String> = Vec::new();
    extra_args.push("-n".to_owned());
    extra_args.push(id);
    assert(views(extra_args@) =~= seq!["-n"@, dec(node_id as int)]);
    PcpCommand { bin: "pcp_attach_node", desc, extra_args }
}

/// The command that detaches a backend.
pub fn detach_command(node_id: i32) -> (r: PcpCommand)
    ensures
        r.bin@ == "pcp_detach_node"@,
        r.desc@ == "pcp_detach_node (node "@ + dec(node_id as int) + ")"@,
        views(r.extra_args@) == seq!["-n"@, dec(node_id as int)],
{
    let id = int_text(node_id as i64);
    let desc = text3("pcp_detach_node (node ", id.as_str(), ")");
    let mut extra_args: Vec<String> = Vec::new();
    extra_args.push("-n".to_owned());
    extra_args.push(id);
    assert(views(extra_args@) =~= seq!["-n"@, dec(node_id as int)]);
    PcpCommand { bin: "pcp_detach_node", desc, extra_args }
}

/// The command that counts the backends.
pub fn node_count_command() -> (r: PcpCommand)
    ensures
        r.bin@ == "pcp_node_count"@,
        r.desc@ == "pcp_node_count"@,
        r.extra_args.len() == 0,
{
    PcpCommand {
        bin: "pcp_node_count",
        desc: "pcp_node_count".to_owned(),
        extra_args: Vec::new(),
    }
}

/// The command that shows all backends.
pub fn node_info_command() -> (r: PcpCommand)
    ensures
        r.bin@ == "pcp_node_info"@,
        r.desc@ == "pcp_node_info -a"@,
        views(r.extra_args@) == seq!["-a"@],
{
    let mut extra_args: Vec<String> = Vec::new();
    extra_args.push("-a".to_owned());
    assert(views(extra_args@) =~= seq!["-a"@]);
    PcpCommand { bin: "pcp_node_info", desc: "pcp_node_info -a".to_owned(), extra_args }
}

/// What is said of a command that could not be started.
pub open spec fn spawn_error_text(bin: Seq<char>, not_found: bool, e: Seq<char>) -> Seq<char> {
    if not_found {
        bin
            + ": binary not found on $PATH (install the pgpool2 package on this node, or check that /usr/bin is in pg_agentd.service's effective PATH)"@
    } else {
        bin + ": spawn: "@ + e
    }
}

/// What is said of a command that could not be started.
pub fn spawn_error(bin: &str, not_found: bool, e: &str) -> (r: String)
    ensures
        r@ == spawn_error_text(bin@, not_found, e@),
{
    if not_found {
        text2(
            bin,
            ": binary not found on $PATH (install the pgpool2 package on this node, or check that /usr/bin is in pg_agentd.service's effective PATH)",
        )
    } else {
        text3(bin, ": spawn: ", e)
    }
}

/// An exit code, or a question mark where there is none.
pub open spec fn exit_text(code: Option<i32>) -> Seq<char> {
    match code {
        Some(c) => dec(c as int),
        None => "?"@,
    }
}

/// An exit code, or a question mark where there is none.
pub fn exit_code(code: Option<i32>) -> (r: String)
    ensures
        r@ == exit_text(code),
{
    match code {
        Some(c) => int_text(c as i64),
        None => "?".to_owned(),
    }
}

/// Two outputs as one: with a line feed between them where neither is empty.
pub open spec fn combined(out: Seq<char>, err: Seq<char>) -> Seq<char> {
    if out.len() == 0 {
        err
    } else if err.len() == 0 {
        out
    } else {
        out + "\n"@ + err
    }
}

/// Two outputs as one, as text.
pub fn combine_text(out: String, err: String) -> (r: String)
    ensures
        r@ == combined(out@, err@),
{
    if out.as_str().is_empty() {
        err
    } else if err.as_str().is_empty() {
        out
    } else {
        text3(out.as_str(), "\n", err.as_str())
    }
}

/// Two outputs as one.
pub fn combine_output(stdout: &[u8], stderr: &[u8]) -> (r: String)
    ensures
        r@ == combined(lossy(stdout@), lossy(stderr@)),
{
    combine_text(lossy_text(stdout), lossy_text(stderr))
}

/// What a command that ended like `run` gives: what it printed, or an error.
pub open spec fn run_outcome(bin: Seq<char>, desc: Seq<char>, run: PcpRun) -> Result<
    Seq<char>,
    Seq<char>,
> {
    match run {
        PcpRun::TimedOut => Err(desc + ": timed out after "@ + dec(PCP_TIMEOUT as int) + "s"@),
        PcpRun::NotFound => Err(spawn_error_text(bin, true, Seq::<char>::empty())),
        PcpRun::SpawnFailed(e) => Err(spawn_error_text(bin, false, e@)),
        PcpRun::Exited { code, stdout, stderr } => Err(
            desc + ": exit "@ + exit_text(code) + ": "@ + trimmed(
                combined(lossy(stdout@), lossy(stderr@)),
            ),
        ),
        PcpRun::Succeeded { stdout } => Ok(lossy(stdout@)),
    }
}

/// What a command gives: what it printed, or an error.
pub fn run_pcp(command: &PcpCommand, run: PcpRun) -> (r: Result<String, String>)
    ensures
        match (r, run_outcome(command.bin@, command.desc@, run)) {
            (Ok(s), Ok(want)) => s@ == want,
            (Err(e), Err(want)) => e@ == want,
            _ => false,
        },
{
    match run {
        PcpRun::TimedOut => Err(
            text4(
                command.desc.as_str(),
                ": timed out after ",
                nat_text(PCP_TIMEOUT).as_str(),
                "s",
            ),
        ),
        PcpRun::NotFound => Err(spawn_error(command.bin, true, String::new().as_str())),
        PcpRun::SpawnFailed(e) => Err(spawn_error(command.bin, false, e.as_str())),
        PcpRun::Exited { code, stdout, stderr } => {
            let tail = combine_output(stdout.as_slice(), stderr.as_slice());
            Err(
                text5(
                    command.desc.as_str(),
                    ": exit ",
                    exit_code(code).as_str(),
                    ": ",
                    trim(tail.as_str()).as_str(),
                ),
            )
        },
        PcpRun::Succeeded { stdout } => Ok(lossy_text(stdout.as_slice())),
    }
}

/// Reads the number of backends.
pub fn node_count(raw: &str) -> (r: Result<i32, String>)
    ensures
        match (r, number_in(trimmed(raw@), true)) {
            (Ok(n), Some(want)) => n == want,
            (Ok(_), None) => false,
            (Err(e), Some(want)) => (want < i32::MIN || want > i32::MAX) && e@
                == "pcp_node_count: parse "@ + quoted(trimmed(raw@)) + ": "@ + i32_error(
                trimmed(raw@),
            ),
            (Err(e), None) => e@ == "pcp_node_count: parse "@ + quoted(trimmed(raw@)) + ": "@
                + i32_error(trimmed(raw@)),
        },
{
    let text = trim(raw);
    match parse_i32(text.as_str()) {
        Ok(n) => Ok(n),
        Err(e) => Err(
            text4(
                "pcp_node_count: parse ",
                debug_text(text.as_str()).as_str(),
                ": ",
                e.as_str(),
            ),
        ),
    }
}

/// The unsigned number that `s` spells, where it is at most `max`.
pub open spec fn number_to(s: Seq<char>, max: int) -> Option<int> {
    match number_in(s, false) {
        Some(n) => if n <= max {
            Some(n)
        } else {
            None
        },
        None => None,
    }
}

/// What one line says of the backend with the given id.
pub open spec fn info_of_line(id: i32, line: Seq<char>) -> Result<NodeInfoView, Seq<char>> {
    let t = words(line);
    if t.len() < 11 {
        Err("expected ≥11 tokens, got "@ + dec(t.len() as int))
    } else {
        match (number_to(t[1], u16::MAX as int), number_to(t[2], u8::MAX as int)) {
            (None, _) => Err("port "@ + quoted(t[1]) + ": "@ + u16_error(t[1])),
            (_, None) => Err("status_code "@ + quoted(t[2]) + ": "@ + u8_error(t[2])),
            (Some(port), Some(status)) => if !is_float(t[3]) {
                Err("lb_weight "@ + quoted(t[3]) + ": invalid float literal"@)
            } else {
                Ok(
                    NodeInfoView {
                        id,
                        hostname: t[0],
                        port: port as u16,
                        status_code: status as u8,
                        lb_weight: t[3],
                        status_name: t[4],
                        actual_status: t[5],
                        role: t[6],
                        actual_role: t[7],
                        replication_delay: t[8],
                        replication_state: t[9],
                        sync_state: t[10],
                    },
                )
            },
        }
    }
}

/// Reads one line.
pub fn parse_node_info_line(id: i32, line: &str) -> (r: Result<NodeInfo, String>)
    ensures
        match (r, info_of_line(id, line@)) {
            (Ok(n), Ok(want)) => n@ == want,
            (Err(e), Err(want)) => e@ == want,
            _ => false,
        },
{
    let t = split_words(line);
    assert(t.len() == words(line@).len());
    if t.len() < 11 {
        return Err(text2("expected ≥11 tokens, got ", nat_text(t.len() as u64).as_str()));
    }
    assert forall|i: int| 0 <= i < t.len() implies (#[trigger] t@[i])@ == words(line@)[i] by {
        assert(views(t@)[i] == t@[i]@);
    }
    let port = match parse_u16(t[1].as_str()) {
        Ok(n) => n,
        Err(e) => {
            return Err(
                text4("port ", debug_text(t[1].as_str()).as_str(), ": ", e.as_str()),
            );
        },
    };
    let status_code = match parse_u8(t[2].as_str()) {
        Ok(n) => n,
        Err(e) => {
            return Err(
                text4("status_code ", debug_text(t[2].as_str()).as_str(), ": ", e.as_str()),
            );
        },
    };
    if !float(t[3].as_str()) {
        return Err(
            text3("lb_weight ", debug_text(t[3].as_str()).as_str(), ": invalid float literal"),
        );
    }
    Ok(
        NodeInfo {
            id,
            hostname: t[0].clone(),
            port,
            status_code,
            lb_weight: t[3].clone(),
            status_name: t[4].clone(),
            actual_status: t[5].clone(),
            role: t[6].clone(),
            actual_role: t[7].clone(),
            replication_delay: t[8].clone(),
            replication_state: t[9].clone(),
            sync_state: t[10].clone(),
        },
    )
}

/// What the lines from the one with place `i` on say, behind what the lines
/// before it said. Blank lines say nothing, and a line that cannot be read
/// spoils the whole.
pub open spec fn info_from(lines: Seq<Seq<char>>, i: int, found: Seq<NodeInfoView>) -> Result<
    Seq<NodeInfoView>,
    Seq<char>,
>
    decreases lines.len() - i,
{
    if i < 0 || i >= lines.len() {
        Ok(found)
    } else if trimmed(lines[i]).len() == 0 {
        info_from(lines, i + 1, found)
    } else {
        match info_of_line(found.len() as i32, trimmed(lines[i])) {
            Ok(n) => info_from(lines, i + 1, found.push(n)),
            Err(e) => Err(
                "pcp_node_info -a: line "@ + dec(i + 1) + " "@ + quoted(trimmed(lines[i])) + ": "@ + e,
            ),
        }
    }
}

/// What a list of backends says.
pub open spec fn info_views(v: Seq<NodeInfo>) -> Seq<NodeInfoView> {
    v.map_values(|n: NodeInfo| n@)
}

/// Reads what `pcp_node_info -a` printed: one backend on each line.
pub fn parse_node_info_all(raw: &str) -> (r: Result<Vec<NodeInfo>, String>)
    ensures
        match (r, info_from(lines_of(raw@), 0, Seq::<NodeInfoView>::empty())) {
            (Ok(v), Ok(want)) => info_views(v@) == want,
            (Err(e), Err(want)) => e@ == want,
            _ => false,
        },
{
    let lines = split_lines(raw);
    let mut out: Vec<NodeInfo> = Vec::new();
    let mut i: usize = 0;
    assert(info_views(out@) =~= Seq::<NodeInfoView>::empty());
    assert(lines.len() == lines_of(raw@).len());
    while i < lines.len()
        invariant
            i <= lines.len(),
            views(lines@) == lines_of(raw@),
            lines.len() == lines_of(raw@).len(),
            info_from(lines_of(raw@), 0, Seq::<NodeInfoView>::empty()) == info_from(
                lines_of(raw@),
                i as int,
                info_views(out@),
            ),
        decreases lines.len() - i,
    {
        assert(views(lines@)[i as int] == lines@[i as int]@);
        let line = trim(lines[i].as_str());
        if !line.as_str().is_empty() {
            match parse_node_info_line(out.len() as i32, line.as_str()) {
                Ok(n) => {
                    assert(info_views(out@.push(n)) =~= info_views(out@).push(n@));
                    out.push(n);
                },
                Err(e) => {
                    let mut s = text5(
                        "pcp_node_info -a: line ",
                        nat_text(i as u64 + 1).as_str(),
                        " ",
                        debug_text(line.as_str()).as_str(),
                        ": ",
                    );
                    s.append(e.as_str());
                    return Err(s);
                },
            }
        }
        i = i + 1;
    }
    Ok(out)
}

/// Reading the lines of all backends gives one backend for each line that is
/// not blank, in order, with its place for its id.
pub proof fn law_rows_are_numbered(lines: Seq<Seq<char>>, i: int, found: Seq<NodeInfoView>)
    requires
        0 <= i <= lines.len() <= i32::MAX,
        found.len() <= i,
        forall|k: int| 0 <= k < found.len() ==> (#[trigger] found[k]).id == k,
        info_from(lines, i, found) is Ok,
    ensures
        ({
            let all = info_from(lines, i, found)->Ok_0;
            &&& found.len() <= all.len() <= lines.len()
            &&& forall|k: int| 0 <= k < all.len() ==> (#[trigger] all[k]).id == k
            &&& forall|k: int| 0 <= k < found.len() ==> #[trigger] all[k] == found[k]
        }),
    decreases lines.len() - i,
{
    if i < lines.len() {
        if trimmed(lines[i]).len() == 0 {
            law_rows_are_numbered(lines, i + 1, found);
        } else {
            match info_of_line(found.len() as i32, trimmed(lines[i])) {
                Ok(n) => {
                    law_rows_are_numbered(lines, i + 1, found.push(n));
                    let all = info_from(lines, i, found)->Ok_0;
                    assert forall|k: int| 0 <= k < found.len() implies #[trigger] all[k]
                        == found[k] by {
                        assert(found.push(n)[k] == found[k]);
                    }
                },
                Err(_) => {},
            }
        }
    }
}

/// A backend is up exactly where it waits or is up: not before pgpool knows it,
/// and not where it is down.
pub proof fn law_only_waiting_and_up_are_up(n: NodeInfo)
    ensures
        n.up() <==> n.status_code == 1 || n.status_code == 2,
{
}

/// Both kinds of output are told, one line after the other, and an empty one is
/// not.
pub proof fn law_outputs_are_both_told(out: Seq<char>, err: Seq<char>)
    ensures
        out.is_prefix_of(combined(out, err)),
        ends_with(combined(out, err), err),
        combined(out, err).len() == out.len() + err.len() + if out.len() > 0 && err.len() > 0 {
            1int
        } else {
            0
        },
{
    reveal_strlit("\n");
    let s = combined(out, err);
    assert(s.skip(s.len() - err.len()) =~= err);
}

/// A run gives its output exactly where it succeeded; otherwise the error tells
/// the command, and where it could not be started, why.
pub proof fn law_only_a_successful_run_gives_output(
    bin: Seq<char>,
    desc: Seq<char>,
    run: PcpRun,
)
    ensures
        match run_outcome(bin, desc, run) {
            Ok(out) => run is Succeeded && out == lossy(run->Succeeded_stdout@),
            Err(message) => !(run is Succeeded) && (bin.is_prefix_of(message) || desc.is_prefix_of(
                message,
            )) && (run is SpawnFailed ==> ends_with(message, run->SpawnFailed_0@)) && (
            run is TimedOut || run is Exited ==> desc.is_prefix_of(message)),
        },
{
    if let PcpRun::SpawnFailed(e) = run {
        let s = bin + ": spawn: "@ + e@;
        assert(s.skip(s.len() - e@.len()) =~= e@);
    }
}

/// A row holds the words of its line in their order; a line of fewer than
/// eleven words, or with a port, a status or a weight that is no number of its
/// kind, is refused.
pub proof fn law_rows_hold_their_words(id: i32, line: Seq<char>)
    ensures
        match info_of_line(id, line) {
            Ok(n) => {
                &&& words(line).len() >= 11
                &&& n.id == id
                &&& n.hostname == words(line)[0]
                &&& number_in(words(line)[1], false) == Some(n.port as int)
                &&& number_in(words(line)[2], false) == Some(n.status_code as int)
                &&& is_float(words(line)[3]) && n.lb_weight == words(line)[3]
                &&& n.status_name == words(line)[4]
                &&& n.actual_status == words(line)[5]
                &&& n.role == words(line)[6]
                &&& n.actual_role == words(line)[7]
                &&& n.replication_delay == words(line)[8]
                &&& n.replication_state == words(line)[9]
                &&& n.sync_state == words(line)[10]
            },
            Err(_) => {
                ||| words(line).len() < 11
                ||| number_in(words(line)[1], false) is None
                ||| number_in(words(line)[1], false)->0 > 65535
                ||| number_in(words(line)[2], false) is None
                ||| number_in(words(line)[2], false)->0 > 255
                ||| !is_float(words(line)[3])
            },
        },
{
    if words(line).len() >= 11 {
        lemma_unsigned_numbers(words(line)[1]);
        lemma_unsigned_numbers(words(line)[2]);
    }
}

/// One line more: a blank one changes nothing, one that can be read adds a row
/// with the next number, and one that cannot has the whole refused.
pub proof fn law_one_line_more(
    lines: Seq<Seq<char>>,
    line: Seq<char>,
    i: int,
    found: Seq<NodeInfoView>,
)
    requires
        0 <= i <= lines.len(),
    ensures
        ({
            let was = info_from(lines, i, found);
            let is = info_from(lines.push(line), i, found);
            match was {
                Err(_) => is is Err,
                Ok(v) => if trimmed(line).len() == 0 {
                    is == was
                } else {
                    match info_of_line(v.len() as i32, trimmed(line)) {
                        Ok(n) => is == Ok::<Seq<NodeInfoView>, Seq<char>>(v.push(n)),
                        Err(e) => is is Err && ends_with(is->Err_0, e),
                    }
                },
            }
        }),
    decreases lines.len() - i,
{
    let more = lines.push(line);
    reveal_with_fuel(info_from, 3);
    if i < lines.len() {
        assert(more[i] == lines[i]);
        if trimmed(lines[i]).len() == 0 {
            law_one_line_more(lines, line, i + 1, found);
        } else {
            match info_of_line(found.len() as i32, trimmed(lines[i])) {
                Ok(n) => law_one_line_more(lines, line, i + 1, found.push(n)),
                Err(_) => {},
            }
        }
    } else {
        assert(more[i] == line);
        if trimmed(line).len() > 0 {
            if let Err(e) = info_of_line(found.len() as i32, trimmed(line)) {
                let s = info_from(more, i, found)->Err_0;
                assert(s.skip(s.len() - e.len()) =~= e);
            }
        }
    }
}

} // verus!
