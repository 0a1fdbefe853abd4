//! Whether the cluster contradicts the reason given for a destructive step.
//!
//! A node that is announced dead but is reachable and demonstrably healthy
//! proves the announcement wrong, and the step is refused. A node that cannot
//! be asked proves nothing: the step goes on.
use crate::config::{slot_text, NodeConfig};
use crate::orchestration::NodeStatus;
use crate::text::{dec, holds_text, int_text, same, stands_at, text4};
use vstd::prelude::*;

verus! {

/// Seconds within which the evidence has to be gathered.
pub const PRECONDITION_TIMEOUT: u64 = 5;

/// A destructive step, and the node that it presumes dead.
pub enum ClusterIntent<'a> {
    /// Drop the replication slot of `detached`, a standby presumed down.
    DropSlotBecauseStandbyDown { detached: &'a NodeConfig },
}

/// What came of asking the node.
pub enum Probe {
    /// The node could not be dialed.
    DialFailed(String),
    /// The node did not report its state.
    StatusFailed(String),
    /// The time ran out.
    TimedOut,
    /// The node reported its state.
    Status(NodeStatus),
}

/// What came of a check.
#[derive(Clone, Debug, PartialEq, Eq)]
pub enum PreconditionOutcome {
    /// Nothing speaks against the step.
    Pass,
    /// The cluster contradicts the reason given for the step.
    Refuse { message: String },
    /// The cluster could not be asked.
    Unverifiable { reason: String },
}

/// A standby that runs, is in recovery and streams.
pub open spec fn streams(status: NodeStatus) -> bool {
    status.is_postgres_running && status.is_in_recovery && status.replication_state@ == "streaming"@
}

/// What is said when a slot is not dropped because its standby streams.
pub open spec fn refusal(detached: NodeConfig) -> Seq<char> {
    "failover: refusing to drop slot "@ + slot_text(detached.id)
        + ": announced-failed standby node "@ + dec(detached.id as int) + " ("@
        + detached.hostname@
        + ") is reachable, running, and streaming — the failure report is wrong, and dropping its slot would break healthy replication. No action taken."@
}

/// The node that an intent presumes dead.
pub open spec fn presumed_dead(intent: ClusterIntent) -> NodeConfig {
    match intent {
        ClusterIntent::DropSlotBecauseStandbyDown { detached } => *detached,
    }
}

/// Holds what the node said of itself against what the step presumes of it.
pub fn validate_cluster_preconditions(intent: ClusterIntent, probe: Probe) -> (r:
    PreconditionOutcome)
    ensures
        match probe {
            Probe::DialFailed(e) => r is Unverifiable && r->reason@ == "dial "@ + presumed_dead(
                intent,
            ).hostname@ + ": "@ + e@,
            Probe::StatusFailed(e) => r is Unverifiable && r->reason@ == "get_status("@
                + presumed_dead(intent).hostname@ + "): "@ + e@,
            Probe::TimedOut => r is Unverifiable && r->reason@ == presumed_dead(intent).hostname@
                + " did not answer within "@ + dec(PRECONDITION_TIMEOUT as int) + "s"@,
            Probe::Status(status) => if streams(status) {
                r is Refuse && r->message@ == refusal(presumed_dead(intent))
            } else {
                r is Pass
            },
        },
{
    let detached = match intent {
        ClusterIntent::DropSlotBecauseStandbyDown { detached } => detached,
    };
    let host = detached.hostname.as_str();
    match probe {
        Probe::DialFailed(e) => PreconditionOutcome::Unverifiable {
            reason: text4("dial ", host, ": ", e.as_str()),
        },
        Probe::StatusFailed(e) => PreconditionOutcome::Unverifiable {
            reason: text4("get_status(", host, "): ", e.as_str()),
        },
        Probe::TimedOut => PreconditionOutcome::Unverifiable {
            reason: text4(
                host,
                " did not answer within ",
                int_text(PRECONDITION_TIMEOUT as i64).as_str(),
                "s",
            ),
        },
        Probe::Status(status) => {
            if status.is_postgres_running && status.is_in_recovery && same(
                status.replication_state.as_str(),
                "streaming",
            ) {
                let mut s = text4(
                    "failover: refusing to drop slot ",
                    detached.slot_name().as_str(),
                    ": announced-failed standby node ",
                    int_text(detached.id as i64).as_str(),
                );
                s.append(" (");
                s.append(host);
                s.append(
                    ") is reachable, running, and streaming — the failure report is wrong, and dropping its slot would break healthy replication. No action taken.",
                );
                PreconditionOutcome::Refuse { message: s }
            } else {
                PreconditionOutcome::Pass
            }
        },
    }
}

/// What is logged before going on without evidence.
pub struct UnverifiableLog {
    pub check: String,
    pub reason: String,
    pub message: &'static str,
}

/// What to log before going on without evidence.
pub fn log_unverifiable(check: &str, reason: &str) -> (r: UnverifiableLog)
    ensures
        r.check@ == check@,
        r.reason@ == reason@,
        r.message@
            == "precondition unverifiable; proceeding (refusing on absent evidence would trade split-brain risk for guaranteed unavailability — see docs/promotion-authority.md §3)"@,
{
    UnverifiableLog {
        check: check.to_owned(),
        reason: reason.to_owned(),
        message: "precondition unverifiable; proceeding (refusing on absent evidence would trade split-brain risk for guaranteed unavailability — see docs/promotion-authority.md §3)",
    }
}

/// A standby shields its slot exactly where it runs, is in recovery and says
/// that it streams, whatever else it reports.
pub proof fn law_only_streaming_shields(status: NodeStatus)
    ensures
        streams(status) <==> status.is_postgres_running && status.is_in_recovery
            && status.replication_state@ == seq!['s', 't', 'r', 'e', 'a', 'm', 'i', 'n', 'g'],
{
    reveal_strlit("streaming");
    assert("streaming"@ =~= seq!['s', 't', 'r', 'e', 'a', 'm', 'i', 'n', 'g']);
}

/// A refusal tells the slot, the node and its host.
pub proof fn law_refusal_tells_the_node(detached: NodeConfig)
    ensures
        holds_text(refusal(detached), slot_text(detached.id)),
        holds_text(refusal(detached), dec(detached.id as int)),
        holds_text(refusal(detached), detached.hostname@),
{
    let s = refusal(detached);
    let a = slot_text(detached.id);
    let b = dec(detached.id as int);
    let c = detached.hostname@;
    let i = "failover: refusing to drop slot "@.len() as int;
    assert(s.subrange(i, i + a.len()) =~= a);
    assert(stands_at(s, a, i));
    let j = i + a.len() + ": announced-failed standby node "@.len();
    assert(s.subrange(j, j + b.len()) =~= b);
    assert(stands_at(s, b, j));
    let k = j + b.len() + " ("@.len();
    assert(s.subrange(k, k + c.len()) =~= c);
    assert(stands_at(s, c, k));
}

/// The node that is asked is the one that the step presumes dead.
pub proof fn law_presumed_dead_is_the_detached(detached: &NodeConfig)
    ensures
        presumed_dead(ClusterIntent::DropSlotBecauseStandbyDown { detached }) == *detached,
{
}

} // verus!
