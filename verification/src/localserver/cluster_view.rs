//! `cluster status` and the backends of pgpool: one row for each member of the
//! pool, with those that did not answer marked as such.
use crate::config::{NodeConfig, NodePool};
use crate::sort::{in_order, law_sorting_orders_and_keeps, lemma_sorted_has, sorted, Ranked};
use crate::text::{ends_with, text2};
use vstd::prelude::*;

verus! {

/// What came of asking one member.
pub enum Report<S> {
    /// The member answered.
    Answered(S),
    /// The member was reached, but did not answer.
    Failed(String),
    /// The member was not reached.
    DialFailed(String),
}

/// The state of one member.
pub struct ClusterStatusEntry<S> {
    pub node_id: i32,
    pub hostname: String,
    pub reachable: bool,
    pub error: String,
    pub status: Option<S>,
}

/// The state of the cluster.
pub struct ClusterStatusResponse<S> {
    pub all_reachable: bool,
    pub nodes: Vec<ClusterStatusEntry<S>>,
}

/// Where a member's PostgreSQL listens and keeps its data.
pub struct NodeConfigResponse {
    pub pg_port: i32,
    pub pg_data_dir: String,
}

/// One backend of pgpool.
pub struct PgpoolBackendEntry {
    pub node_id: i32,
    pub hostname: String,
    pub reachable: bool,
    pub error: String,
    pub pg_port: i32,
    pub pg_data: String,
}

/// The backends of pgpool.
pub struct GetPgpoolBackendsResponse {
    pub all_reachable: bool,
    pub backends: Vec<PgpoolBackendEntry>,
}

impl<S> Ranked for ClusterStatusEntry<S> {
    open spec fn before(self, other: Self) -> bool {
        self.node_id < other.node_id
    }

    proof fn lemma_order(a: Self, b: Self, c: Self) {
    }

    fn is_before(&self, other: &Self) -> (r: bool) {
        self.node_id < other.node_id
    }
}

impl Ranked for PgpoolBackendEntry {
    open spec fn before(self, other: Self) -> bool {
        self.node_id < other.node_id
    }

    proof fn lemma_order(a: Self, b: Self, c: Self) {
    }

    fn is_before(&self, other: &Self) -> (r: bool) {
        self.node_id < other.node_id
    }
}

/// What is said of a member that did not answer a call named `call`.
pub open spec fn report_error<S>(local: bool, call: Seq<char>, report: Report<S>) -> Seq<char> {
    match report {
        Report::Answered(_) => Seq::<char>::empty(),
        Report::Failed(e) => if local {
            "local "@ + call + ": "@ + e@
        } else {
            call + ": "@ + e@
        },
        Report::DialFailed(e) => "dial peer: "@ + e@,
    }
}

/// Whether `row` is the row of `node`, of which `report` came.
pub open spec fn is_status_row<S>(
    row: ClusterStatusEntry<S>,
    pool: NodePool,
    node: NodeConfig,
    report: Report<S>,
) -> bool {
    &&& row.node_id == node.id
    &&& row.hostname@ == node.hostname@
    &&& row.reachable == (report is Answered)
    &&& row.error@ == report_error(node.id == pool.local_node_id, "get_status"@, report)
    &&& row.status == match report {
        Report::Answered(s) => Some(s),
        _ => None,
    }
}

/// Whether `rows` are the rows of the pool's members, in the pool's order.
pub open spec fn are_status_rows<S>(
    rows: Seq<ClusterStatusEntry<S>>,
    pool: NodePool,
    reports: Seq<Report<S>>,
) -> bool {
    rows.len() == reports.len() && forall|i: int|
        0 <= i < rows.len() ==> is_status_row(
            #[trigger] rows[i],
            pool,
            pool.members@[i],
            reports[i],
        )
}

fn error_text<S>(local: bool, call: &str, report: &Report<S>) -> (r: String)
    ensures
        r@ == report_error(local, call@, *report),
{
    match report {
        Report::Answered(_) => String::new(),
        Report::Failed(e) => {
            let mut s = if local {
                text2("local ", call)
            } else {
                call.to_owned()
            };
            s.append(": ");
            s.append(e.as_str());
            s
        },
        Report::DialFailed(e) => text2("dial peer: ", e.as_str()),
    }
}

/// The row of one member.
pub fn status_entry<S>(pool: &NodePool, node: &NodeConfig, report: Report<S>) -> (r:
    ClusterStatusEntry<S>)
    ensures
        is_status_row(r, *pool, *node, report),
{
    let error = error_text(pool.is_local(node), "get_status", &report);
    let (reachable, status) = match report {
        Report::Answered(s) => (true, Some(s)),
        _ => (false, None),
    };
    ClusterStatusEntry {
        node_id: node.id,
        hostname: node.hostname.clone(),
        reachable,
        error,
        status,
    }
}

/// The rows of all members, in the order of their ids. `reports` holds what
/// came of asking each member, in the pool's order.
pub fn cluster_status<S>(pool: &NodePool, reports: Vec<Report<S>>) -> (r: ClusterStatusResponse<S>)
    requires
        reports.len() == pool.members.len(),
    ensures
        exists|rows: Seq<ClusterStatusEntry<S>>|
            are_status_rows(rows, *pool, reports@) && r.nodes@ == #[trigger] in_order(rows),
        r.all_reachable == (forall|i: int|
            0 <= i < reports.len() ==> (#[trigger] reports[i]) is Answered),
{
    let ghost all = reports@;
    let mut rest = reports;
    let mut rows: Vec<ClusterStatusEntry<S>> = Vec::new();
    let mut all_reachable = true;
    let mut i: usize = 0;
    while i < pool.members.len()
        invariant
            i <= pool.members.len() == all.len(),
            rest@ == all.skip(i as int),
            are_status_rows(rows@, *pool, all.take(i as int)),
            all_reachable == (forall|k: int| 0 <= k < i ==> (#[trigger] all[k]) is Answered),
        decreases pool.members.len() - i,
    {
        let report = rest.remove(0);
        assert(report == all[i as int]);
        let row = status_entry(pool, &pool.members[i], report);
        if !row.reachable {
            all_reachable = false;
        }
        rows.push(row);
        i = i + 1;
        assert(rest@ =~= all.skip(i as int));
    }
    assert(all.take(i as int) =~= all);
    ClusterStatusResponse { all_reachable, nodes: sorted(rows) }
}

/// Whether `row` is the row of `node`, of which `report` came.
pub open spec fn is_backend_row(
    row: PgpoolBackendEntry,
    pool: NodePool,
    node: NodeConfig,
    report: Report<NodeConfigResponse>,
) -> bool {
    &&& row.node_id == node.id
    &&& row.hostname@ == node.hostname@
    &&& row.reachable == (report is Answered)
    &&& row.error@ == report_error(node.id == pool.local_node_id, "get_node_config"@, report)
    &&& match report {
        Report::Answered(c) => row.pg_port == c.pg_port && row.pg_data == c.pg_data_dir,
        _ => row.pg_port == 0 && row.pg_data@ == Seq::<char>::empty(),
    }
}

/// Whether `rows` are the rows of the pool's members, in the pool's order.
pub open spec fn are_backend_rows(
    rows: Seq<PgpoolBackendEntry>,
    pool: NodePool,
    reports: Seq<Report<NodeConfigResponse>>,
) -> bool {
    rows.len() == reports.len() && forall|i: int|
        0 <= i < rows.len() ==> is_backend_row(
            #[trigger] rows[i],
            pool,
            pool.members@[i],
            reports[i],
        )
}

/// The row of one backend.
pub fn backend_entry(pool: &NodePool, node: &NodeConfig, report: Report<NodeConfigResponse>) -> (r:
    PgpoolBackendEntry)
    ensures
        is_backend_row(r, *pool, *node, report),
{
    let error = error_text(pool.is_local(node), "get_node_config", &report);
    let (reachable, pg_port, pg_data) = match report {
        Report::Answered(c) => (true, c.pg_port, c.pg_data_dir),
        _ => (false, 0, String::new()),
    };
    PgpoolBackendEntry {
        node_id: node.id,
        hostname: node.hostname.clone(),
        reachable,
        error,
        pg_port,
        pg_data,
    }
}

/// The rows of all backends, in the order of their ids. `reports` holds what
/// came of asking each member, in the pool's order.
pub fn get_pgpool_backends(pool: &NodePool, reports: Vec<Report<NodeConfigResponse>>) -> (r:
    GetPgpoolBackendsResponse)
    requires
        reports.len() == pool.members.len(),
    ensures
        exists|rows: Seq<PgpoolBackendEntry>|
            are_backend_rows(rows, *pool, reports@) && r.backends@ == #[trigger] in_order(rows),
        r.all_reachable == (forall|i: int|
            0 <= i < reports.len() ==> (#[trigger] reports[i]) is Answered),
{
    let ghost all = reports@;
    let mut rest = reports;
    let mut rows: Vec<PgpoolBackendEntry> = Vec::new();
    let mut all_reachable = true;
    let mut i: usize = 0;
    while i < pool.members.len()
        invariant
            i <= pool.members.len() == all.len(),
            rest@ == all.skip(i as int),
            are_backend_rows(rows@, *pool, all.take(i as int)),
            all_reachable == (forall|k: int| 0 <= k < i ==> (#[trigger] all[k]) is Answered),
        decreases pool.members.len() - i,
    {
        let report = rest.remove(0);
        assert(report == all[i as int]);
        let row = backend_entry(pool, &pool.members[i], report);
        if !row.reachable {
            all_reachable = false;
        }
        rows.push(row);
        i = i + 1;
        assert(rest@ =~= all.skip(i as int));
    }
    assert(all.take(i as int) =~= all);
    GetPgpoolBackendsResponse { all_reachable, backends: sorted(rows) }
}

/// The rows are those of the members, in the order of the ids: each has a row
/// of its own, with its id and its name, which says that it is reachable, and
/// what it reported, exactly where it answered, and otherwise ends with the
/// error.
pub proof fn law_every_member_has_a_row<S>(
    rows: Seq<ClusterStatusEntry<S>>,
    pool: NodePool,
    reports: Seq<Report<S>>,
    i: int,
    j: int,
)
    requires
        are_status_rows(rows, pool, reports),
        reports.len() == pool.members.len(),
    ensures
        in_order(rows).len() == pool.members.len(),
        0 <= i < rows.len() ==> {
            &&& in_order(rows).contains(rows[i])
            &&& rows[i].node_id == pool.members[i].id
            &&& rows[i].hostname@ == pool.members[i].hostname@
            &&& match reports[i] {
                Report::Answered(s) => rows[i].reachable && rows[i].status == Some(s)
                    && rows[i].error@.len() == 0,
                Report::Failed(e) => !rows[i].reachable && rows[i].status is None && ends_with(
                    rows[i].error@,
                    e@,
                ),
                Report::DialFailed(e) => !rows[i].reachable && rows[i].status is None && ends_with(
                    rows[i].error@,
                    e@,
                ),
            }
        },
        0 <= i < j < in_order(rows).len() ==> in_order(rows)[i].node_id <= in_order(rows)[j].node_id,
{
    law_sorting_orders_and_keeps(rows);
    if 0 <= i < rows.len() {
        lemma_sorted_has(rows, i);
        assert(is_status_row(rows[i], pool, pool.members@[i], reports[i]));
        match reports[i] {
            Report::Failed(e) | Report::DialFailed(e) => {
                let s = rows[i].error@;
                assert(s.skip(s.len() - e@.len()) =~= e@);
            },
            _ => {},
        }
    }
}

/// The same of the backends: the port and the data directory are those that the
/// member reported, and none where it did not answer.
pub proof fn law_every_backend_has_a_row(
    rows: Seq<PgpoolBackendEntry>,
    pool: NodePool,
    reports: Seq<Report<NodeConfigResponse>>,
    i: int,
    j: int,
)
    requires
        are_backend_rows(rows, pool, reports),
        reports.len() == pool.members.len(),
    ensures
        in_order(rows).len() == pool.members.len(),
        0 <= i < rows.len() ==> {
            &&& in_order(rows).contains(rows[i])
            &&& rows[i].node_id == pool.members[i].id
            &&& rows[i].hostname@ == pool.members[i].hostname@
            &&& match reports[i] {
                Report::Answered(c) => rows[i].reachable && rows[i].pg_port == c.pg_port
                    && rows[i].pg_data@ == c.pg_data_dir@ && rows[i].error@.len() == 0,
                Report::Failed(e) => !rows[i].reachable && rows[i].pg_port == 0
                    && rows[i].pg_data@.len() == 0 && ends_with(rows[i].error@, e@),
                Report::DialFailed(e) => !rows[i].reachable && rows[i].pg_port == 0
                    && rows[i].pg_data@.len() == 0 && ends_with(rows[i].error@, e@),
            }
        },
        0 <= i < j < in_order(rows).len() ==> in_order(rows)[i].node_id <= in_order(rows)[j].node_id,
{
    law_sorting_orders_and_keeps(rows);
    if 0 <= i < rows.len() {
        lemma_sorted_has(rows, i);
        assert(is_backend_row(rows[i], pool, pool.members@[i], reports[i]));
        match reports[i] {
            Report::Failed(e) | Report::DialFailed(e) => {
                let s = rows[i].error@;
                assert(s.skip(s.len() - e@.len()) =~= e@);
            },
            _ => {},
        }
    }
}

/// Only the local member's own failure is told as local.
pub proof fn law_local_failures_are_told_as_local<S>(call: Seq<char>, e: String)
    ensures
        report_error(true, call, Report::<S>::Failed(e)) == "local "@ + report_error(
            false,
            call,
            Report::<S>::Failed(e),
        ),
        report_error(true, call, Report::<S>::DialFailed(e)) == report_error(
            false,
            call,
            Report::<S>::DialFailed(e),
        ),
        call.is_prefix_of(report_error(false, call, Report::<S>::Failed(e))),
{
    assert("local "@ + call + ": "@ + e@ =~= "local "@ + (call + ": "@ + e@));
}

} // verus!
