//! The journal of orchestrations: what each entry records, and which entry
//! owns a replication slot.
use crate::config::{slot_of, slot_text};
use crate::text::same;
use crate::time::Timestamp;
use vstd::prelude::*;

verus! {

/// Seconds for which a finished orchestration still owns its slot where the
/// node that it rebuilt never comes up.
pub const CROSS_OP_GRACE: u64 = 120;

/// Where an orchestration stands.
#[derive(Clone, Copy, Debug, PartialEq, Eq, Structural)]
pub enum InflightStatus {
    InProgress,
    Done,
    Abandoned,
}

impl InflightStatus {
    /// The status on the wire.
    pub open spec fn wire(self) -> Seq<char> {
        match self {
            InflightStatus::InProgress => "in_progress"@,
            InflightStatus::Done => "done"@,
            InflightStatus::Abandoned => "abandoned"@,
        }
    }

    /// The status on the wire.
    pub fn as_wire(&self) -> (r: &'static str)
        ensures
            r@ == self.wire(),
    {
        match self {
            InflightStatus::InProgress => "in_progress",
            InflightStatus::Done => "done",
            InflightStatus::Abandoned => "abandoned",
        }
    }
}

/// What an orchestration is about.
#[derive(Clone, Debug, PartialEq, Eq)]
pub enum InflightPayload {
    Handoff {
        from_node_id: i32,
        to_node_id: i32,
        to_hostname: String,
        slot_name: String,
        allow_lag: bool,
    },
    FollowPrimary {
        detached_node_id: i32,
        detached_hostname: String,
        new_primary_node_id: i32,
        new_primary_hostname: String,
    },
    Recovery {
        primary_node_id: i32,
        standby_node_id: i32,
        standby_hostname: String,
        slot_name: String,
    },
    Promote { node_id: i32 },
    AllowAsync { node_id: i32 },
}

impl InflightPayload {
    /// The name of the operation.
    pub open spec fn name(self) -> Seq<char> {
        match self {
            InflightPayload::Handoff { .. } => "handoff"@,
            InflightPayload::FollowPrimary { .. } => "follow_primary"@,
            InflightPayload::Recovery { .. } => "recovery"@,
            InflightPayload::Promote { .. } => "promote"@,
            InflightPayload::AllowAsync { .. } => "allow_async"@,
        }
    }

    /// The name of the operation.
    pub fn op_name(&self) -> (r: &'static str)
        ensures
            r@ == self.name(),
    {
        match self {
            InflightPayload::Handoff { .. } => "handoff",
            InflightPayload::FollowPrimary { .. } => "follow_primary",
            InflightPayload::Recovery { .. } => "recovery",
            InflightPayload::Promote { .. } => "promote",
            InflightPayload::AllowAsync { .. } => "allow_async",
        }
    }

    /// The replication slot that the orchestration sets up, if it sets one up.
    pub open spec fn slot(self) -> Option<Seq<char>> {
        match self {
            InflightPayload::Handoff { slot_name, .. } => Some(slot_name@),
            InflightPayload::FollowPrimary { detached_node_id, .. } => Some(
                slot_text(detached_node_id),
            ),
            InflightPayload::Recovery { slot_name, .. } => Some(slot_name@),
            InflightPayload::Promote { .. } => None,
            InflightPayload::AllowAsync { .. } => None,
        }
    }

    /// Whether the orchestration sets up the slot `slot`.
    pub fn claims(&self, slot: &str) -> (r: bool)
        ensures
            r == (self.slot() == Some(slot@)),
    {
        match self {
            InflightPayload::Handoff { slot_name, .. } => same(slot_name.as_str(), slot),
            InflightPayload::FollowPrimary { detached_node_id, .. } => {
                same(slot_of(*detached_node_id).as_str(), slot)
            },
            InflightPayload::Recovery { slot_name, .. } => same(slot_name.as_str(), slot),
            InflightPayload::Promote { .. } => false,
            InflightPayload::AllowAsync { .. } => false,
        }
    }
}

/// One entry of the journal.
#[derive(Clone, Debug, PartialEq, Eq)]
pub struct InflightOp {
    pub id: String,
    pub status: InflightStatus,
    pub payload: InflightPayload,
    pub phase: String,
    pub started_at: Timestamp,
    pub updated_at: Timestamp,
    pub completed_at: Option<Timestamp>,
    pub discharged_at: Option<Timestamp>,
    pub last_error: Option<String>,
}

/// What an entry means for the slot it set up.
#[derive(Clone, Copy, Debug, PartialEq, Eq, Structural)]
pub enum SlotClaim {
    /// The entry owns the slot: it must not be dropped.
    Owns,
    /// The entry's node was seen alive: its claim ends now, and the end is to
    /// be recorded.
    Discharge,
    /// The entry has no claim to the slot.
    Free,
}

/// What `op` means for `slot` at `now`, where `active` says whether a
/// receiver is seen on the slot. An orchestration in progress owns its slot.
/// A finished one owns it until its node is seen alive, and for no longer
/// than `grace` seconds.
pub open spec fn claim_of(
    op: InflightOp,
    slot: Seq<char>,
    now: Timestamp,
    grace: u64,
    active: bool,
) -> SlotClaim {
    if op.payload.slot() != Some(slot) {
        SlotClaim::Free
    } else {
        match (op.status, op.completed_at, op.discharged_at) {
            (InflightStatus::InProgress, _, _) => SlotClaim::Owns,
            (InflightStatus::Done, Some(t), None) => if now.at() - t.at() >= grace * 1_000_000_000 {
                SlotClaim::Free
            } else if active {
                SlotClaim::Discharge
            } else {
                SlotClaim::Owns
            },
            _ => SlotClaim::Free,
        }
    }
}

/// What `op` means for `slot` at `now`.
pub fn slot_claim(op: &InflightOp, slot: &str, now: Timestamp, grace: u64, active: bool) -> (r:
    SlotClaim)
    ensures
        r == claim_of(*op, slot@, now, grace, active),
{
    if !op.payload.claims(slot) {
        return SlotClaim::Free;
    }
    match (op.status, op.completed_at, op.discharged_at) {
        (InflightStatus::InProgress, _, _) => SlotClaim::Owns,
        (InflightStatus::Done, Some(t), None) => {
            if !now.less_than_secs_since(t, grace) {
                SlotClaim::Free
            } else if active {
                SlotClaim::Discharge
            } else {
                SlotClaim::Owns
            }
        },
        _ => SlotClaim::Free,
    }
}

/// The first entry that owns the slot.
pub open spec fn owner_among(
    ops: Seq<InflightOp>,
    slot: Seq<char>,
    now: Timestamp,
    grace: u64,
    active: bool,
) -> Option<InflightOp>
    decreases ops.len(),
{
    if ops.len() == 0 {
        None
    } else if claim_of(ops[0], slot, now, grace, active) == SlotClaim::Owns {
        Some(ops[0])
    } else {
        owner_among(ops.drop_first(), slot, now, grace, active)
    }
}

/// The first entry that owns the slot.
pub fn owner_of_slot<'a>(
    ops: &'a Vec<InflightOp>,
    slot: &str,
    now: Timestamp,
    grace: u64,
    active: bool,
) -> (r: Option<&'a InflightOp>)
    ensures
        match (r, owner_among(ops@, slot@, now, grace, active)) {
            (Some(op), Some(want)) => *op == want,
            (None, None) => true,
            _ => false,
        },
{
    let mut i: usize = 0;
    assert(ops@.skip(0) =~= ops@);
    while i < ops.len()
        invariant
            i <= ops.len(),
            owner_among(ops@.skip(i as int), slot@, now, grace, active) == owner_among(
                ops@,
                slot@,
                now,
                grace,
                active,
            ),
        decreases ops.len() - i,
    {
        proof {
            assert(ops@.skip(i as int).drop_first() =~= ops@.skip(i + 1));
        }
        if slot_claim(&ops[i], slot, now, grace, active) == SlotClaim::Owns {
            return Some(&ops[i]);
        }
        i = i + 1;
    }
    None
}

/// A slot is retained if and only if some entry of the journal owns it.
pub proof fn lemma_owner_exists(
    ops: Seq<InflightOp>,
    slot: Seq<char>,
    now: Timestamp,
    grace: u64,
    active: bool,
)
    ensures
        owner_among(ops, slot, now, grace, active) is Some <==> exists|i: int|
            0 <= i < ops.len() && claim_of(#[trigger] ops[i], slot, now, grace, active)
                == SlotClaim::Owns,
    decreases ops.len(),
{
    if ops.len() > 0 {
        let rest = ops.drop_first();
        lemma_owner_exists(rest, slot, now, grace, active);
        if owner_among(rest, slot, now, grace, active) is Some {
            let k = choose|k: int|
                0 <= k < rest.len() && claim_of(#[trigger] rest[k], slot, now, grace, active)
                    == SlotClaim::Owns;
            assert(ops[k + 1] == rest[k]);
        }
        if exists|i: int|
            0 <= i < ops.len() && claim_of(#[trigger] ops[i], slot, now, grace, active)
                == SlotClaim::Owns {
            let k = choose|k: int|
                0 <= k < ops.len() && claim_of(#[trigger] ops[k], slot, now, grace, active)
                    == SlotClaim::Owns;
            if k > 0 {
                assert(rest[k - 1] == ops[k]);
            }
        }
    }
}

/// A finished orchestration stops owning its slot at the moment its node is
/// seen alive, and in any case once the grace has passed; one in progress
/// owns it throughout.
pub proof fn law_ownership_ends(op: InflightOp, slot: Seq<char>, now: Timestamp, grace: u64, active: bool)
    requires
        op.payload.slot() == Some(slot),
    ensures
        op.status == InflightStatus::InProgress ==> claim_of(op, slot, now, grace, active)
            == SlotClaim::Owns,
        op.status != InflightStatus::InProgress && active ==> claim_of(op, slot, now, grace, active)
            != SlotClaim::Owns,
        op.status != InflightStatus::InProgress && op.discharged_at is Some ==> claim_of(
            op,
            slot,
            now,
            grace,
            active,
        ) == SlotClaim::Free,
        op.status != InflightStatus::InProgress && op.completed_at is Some && now.at()
            - op.completed_at->0.at() >= grace * 1_000_000_000 ==> claim_of(
            op,
            slot,
            now,
            grace,
            active,
        ) == SlotClaim::Free,
        op.status == InflightStatus::Abandoned ==> claim_of(op, slot, now, grace, active)
            == SlotClaim::Free,
{
}

/// An entry has a claim only to its own slot. In progress it owns the slot.
/// Done, and not yet seen alive, it owns the slot until the grace has passed
/// since it was completed, unless a receiver is seen, which ends the claim.
pub proof fn law_claims_to_a_slot(
    op: InflightOp,
    slot: Seq<char>,
    now: Timestamp,
    grace: u64,
    active: bool,
)
    ensures
        ({
            let own = op.payload.slot() == Some(slot);
            let waits = op.status == InflightStatus::Done && op.completed_at is Some
                && op.discharged_at is None && now.at() - op.completed_at->0.at() < grace
                * 1_000_000_000;
            let claim = claim_of(op, slot, now, grace, active);
            &&& claim == SlotClaim::Owns <==> own && (op.status == InflightStatus::InProgress || (
            waits && !active))
            &&& claim == SlotClaim::Discharge <==> own && waits && active
        }),
{
}

/// The slot of a handoff and of a recovery is the one that was recorded, that
/// of a follow-up the one of its standby, and nothing else has one.
pub proof fn law_slots_of_orchestrations(p: InflightPayload)
    ensures
        match p {
            InflightPayload::Handoff { slot_name, .. } => p.slot() == Some(slot_name@),
            InflightPayload::FollowPrimary { detached_node_id, .. } => p.slot() == Some(
                slot_text(detached_node_id),
            ),
            InflightPayload::Recovery { slot_name, .. } => p.slot() == Some(slot_name@),
            _ => p.slot() is None,
        },
{
}

/// The owner of a slot is the first entry that owns it, and there is none
/// exactly where no entry does.
pub proof fn law_first_owner_owns(
    ops: Seq<InflightOp>,
    slot: Seq<char>,
    now: Timestamp,
    grace: u64,
    active: bool,
    i: int,
)
    requires
        0 <= i < ops.len(),
        claim_of(ops[i], slot, now, grace, active) == SlotClaim::Owns,
        forall|j: int|
            0 <= j < i ==> claim_of(#[trigger] ops[j], slot, now, grace, active)
                != SlotClaim::Owns,
    ensures
        owner_among(ops, slot, now, grace, active) == Some(ops[i]),
    decreases i,
{
    if i > 0 {
        let rest = ops.drop_first();
        assert forall|j: int| 0 <= j < i - 1 implies claim_of(
            #[trigger] rest[j],
            slot,
            now,
            grace,
            active,
        ) != SlotClaim::Owns by {
            assert(rest[j] == ops[j + 1]);
        }
        law_first_owner_owns(rest, slot, now, grace, active, i - 1);
    }
}

/// No two kinds of orchestration have one name.
pub proof fn law_names_tell_the_kind(a: InflightPayload, b: InflightPayload)
    requires
        a.name() == b.name(),
    ensures
        a is Handoff <==> b is Handoff,
        a is FollowPrimary <==> b is FollowPrimary,
        a is Recovery <==> b is Recovery,
        a is Promote <==> b is Promote,
        a is AllowAsync <==> b is AllowAsync,
{
    reveal_strlit("handoff");
    reveal_strlit("follow_primary");
    reveal_strlit("recovery");
    reveal_strlit("promote");
    reveal_strlit("allow_async");
    assert("handoff"@.len() == 7 && "handoff"@[0] == 'h');
    assert("follow_primary"@.len() == 14);
    assert("recovery"@.len() == 8);
    assert("promote"@.len() == 7 && "promote"@[0] == 'p');
    assert("allow_async"@.len() == 11);
}

} // verus!
