//! `restore_wal`: PostgreSQL lacks a WAL segment, and the peers are asked for
//! it one after the other.
//!
//! A peer that failed to answer is left out for a short while, so that a
//! segment that is missing everywhere does not cost its timeout every time.
use crate::config::{first_with_id, unknown_id, NodeConfig, NodePool};
use crate::orchestration::Turn;
use crate::sort::lemma_filter_has;
use crate::status::{
    answer, bad_argument, broken, missing, refuse, succeed, yes, Answer, Code, OpResult, Status,
};
use crate::text::{ends_with, holds_text, stands_at, text2, text3, text4};
use std::collections::HashMap;
use vstd::prelude::*;
use vstd::std_specs::hash::*;

verus! {

/// Seconds that one peer is given.
pub const RESTORE_WAL_PER_PEER_TIMEOUT: u64 = 30;

/// Milliseconds for which a peer that failed is left out.
pub const RESTORE_WAL_PEER_COOLDOWN_MS: u64 = 10_000;

/// When each peer last failed, in milliseconds of a clock that never goes
/// back.
pub struct WalCooldowns {
    pub since: HashMap<i32, u64>,
}

impl WalCooldowns {
    /// Whether peer `id` is left out at `now`.
    pub open spec fn cools(self, id: i32, now: u64) -> bool {
        self.since@.contains_key(id) && now - self.since@[id] < RESTORE_WAL_PEER_COOLDOWN_MS
    }

    /// No peer has failed.
    pub fn new() -> (r: WalCooldowns)
        ensures
            r.since@ == Map::<i32, u64>::empty(),
    {
        WalCooldowns { since: HashMap::new() }
    }

    /// Whether peer `id` is left out at `now`.
    pub fn is_cooling(&self, id: i32, now: u64) -> (r: bool)
        ensures
            r == self.cools(id, now),
    {
        broadcast use vstd::std_specs::hash::group_hash_axioms;

        match self.since.get(&id) {
            Some(since) => now < *since || now - *since < RESTORE_WAL_PEER_COOLDOWN_MS,
            None => false,
        }
    }

    /// Notes that peer `id` failed at `now`.
    pub fn note(&mut self, id: i32, now: u64)
        ensures
            final(self).since@ == old(self).since@.insert(id, now),
    {
        broadcast use vstd::std_specs::hash::group_hash_axioms;

        self.since.insert(id, now);
    }
}

/// A request for a segment.
pub struct RestoreWalRequest {
    pub wal_file: String,
    pub dest_path: String,
}

/// What came of asking one peer.
#[derive(Clone, Copy, Debug, PartialEq, Eq, Structural)]
pub enum FetchOutcome {
    /// The segment was fetched and put in its place.
    Fetched,
    /// The peer was not reached.
    Unavailable,
    /// The peer does not have the segment.
    NotOnPeer,
    /// The peer failed to answer.
    FetchFailed,
    /// The segment could not be put in its place.
    WriteFailed,
    /// The place is not within the data directory.
    OutsidePgData,
    /// The time of the peer ran out.
    TimedOut,
}

impl FetchOutcome {
    /// Whether the peer is to be left out for a while.
    pub fn cools_down(&self) -> (r: bool)
        ensures
            r == (self is FetchFailed || self is TimedOut),
    {
        match self {
            FetchOutcome::FetchFailed => true,
            FetchOutcome::TimedOut => true,
            _ => false,
        }
    }
}

/// A segment that is looked for.
pub struct RestoreWal {
    pub wal_file: String,
    pub dest_path: String,
    /// The peers, in the pool's order.
    pub peers: Vec<NodeConfig>,
    /// The peer whose turn it is.
    pub next: usize,
}

/// What the request itself leads to.
pub open spec fn restore_answer_to(req: RestoreWalRequest, pool: NodePool) -> Option<Answer> {
    if req.wal_file@.len() == 0 {
        Some(bad_argument("restore_wal: wal_file is required"@))
    } else if req.dest_path@.len() == 0 {
        Some(bad_argument("restore_wal: dest_path is required"@))
    } else if first_with_id(pool.members@, pool.local_node_id) is None {
        Some(broken("restore_wal: resolve local node: "@ + unknown_id(pool.local_node_id)))
    } else {
        None
    }
}

/// The members other than the local one, in the pool's order.
pub open spec fn peers_of(pool: NodePool) -> Seq<NodeConfig> {
    pool.members@.filter(|n: NodeConfig| n.id != pool.local_node_id)
}

/// The first peer from `from` on that is not left out at `now`.
pub open spec fn next_warm(
    peers: Seq<NodeConfig>,
    from: int,
    cooldowns: WalCooldowns,
    now: u64,
) -> int
    decreases peers.len() - from,
{
    if 0 <= from < peers.len() && cooldowns.cools(peers[from].id, now) {
        next_warm(peers, from + 1, cooldowns, now)
    } else {
        from
    }
}

impl RestoreWal {
    /// Takes a request.
    pub fn new(req: RestoreWalRequest, pool: &NodePool) -> (r: Turn<RestoreWal>)
        ensures
            match (r, restore_answer_to(req, *pool)) {
                (Turn::Answer(a), Some(want)) => answer(a) == want,
                (Turn::Ask(m), None) => {
                    &&& m.wal_file == req.wal_file
                    &&& m.dest_path == req.dest_path
                    &&& m.peers@ == peers_of(*pool)
                    &&& m.next == 0
                },
                _ => false,
            },
    {
        if req.wal_file.as_str().is_empty() {
            return Turn::Answer(
                refuse(Code::InvalidArgument, "restore_wal: wal_file is required".to_owned()),
            );
        }
        if req.dest_path.as_str().is_empty() {
            return Turn::Answer(
                refuse(Code::InvalidArgument, "restore_wal: dest_path is required".to_owned()),
            );
        }
        match pool.local_node() {
            Ok(_) => {},
            Err(e) => {
                return Turn::Answer(
                    refuse(Code::Internal, text2("restore_wal: resolve local node: ", e.as_str())),
                );
            },
        }
        let mut peers: Vec<NodeConfig> = Vec::new();
        let mut i: usize = 0;
        let ghost keep = |n: NodeConfig| n.id != pool.local_node_id;
        assert(pool.members@.take(0).filter(keep) =~= peers@) by {
            reveal(Seq::filter);
        }
        while i < pool.members.len()
            invariant
                i <= pool.members.len(),
                keep == (|n: NodeConfig| n.id != pool.local_node_id),
                peers@ == pool.members@.take(i as int).filter(keep),
            decreases pool.members.len() - i,
        {
            proof {
                let longer = pool.members@.take(i + 1);
                assert(longer.drop_last() =~= pool.members@.take(i as int));
                assert(longer.last() == pool.members@[i as int]);
                reveal(Seq::filter);
            }
            if !pool.is_local(&pool.members[i]) {
                peers.push(pool.members[i].clone());
            }
            i = i + 1;
        }
        assert(pool.members@.take(i as int) =~= pool.members@);
        Turn::Ask(RestoreWal { wal_file: req.wal_file, dest_path: req.dest_path, peers, next: 0 })
    }

    /// The peer to ask, which is then behind: the next one that is not left
    /// out at `now`.
    pub fn next_peer(&mut self, cooldowns: &WalCooldowns, now: u64) -> (r: Option<NodeConfig>)
        ensures
            final(self).wal_file == old(self).wal_file,
            final(self).dest_path == old(self).dest_path,
            final(self).peers == old(self).peers,
            ({
                let i = next_warm(old(self).peers@, old(self).next as int, *cooldowns, now);
                if i < old(self).peers.len() {
                    &&& r == Some(old(self).peers[i])
                    &&& final(self).next == i + 1
                } else {
                    &&& r is None
                    &&& final(self).next == i
                }
            }),
    {
        while self.next < self.peers.len() && cooldowns.is_cooling(self.peers[self.next].id, now)
            invariant
                self.wal_file == old(self).wal_file,
                self.dest_path == old(self).dest_path,
                self.peers == old(self).peers,
                next_warm(self.peers@, self.next as int, *cooldowns, now) == next_warm(
                    old(self).peers@,
                    old(self).next as int,
                    *cooldowns,
                    now,
                ),
            decreases self.peers.len() - self.next,
        {
            self.next = self.next + 1;
        }
        if self.next < self.peers.len() {
            let peer = self.peers[self.next].clone();
            self.next = self.next + 1;
            Some(peer)
        } else {
            None
        }
    }

    /// What asking `peer` leads to; none, where the next peer is to be asked.
    pub open spec fn outcome_of(self, peer: NodeConfig, outcome: FetchOutcome) -> Option<Answer> {
        match outcome {
            FetchOutcome::Fetched => Some(
                yes("restored "@ + self.wal_file@ + " from "@ + peer.hostname@),
            ),
            FetchOutcome::OutsidePgData => Some(
                bad_argument("restore_wal: dest_path outside pg_data_dir"@),
            ),
            _ => None,
        }
    }

    /// What asking `peer` leads to; none, where the next peer is to be asked.
    pub fn after_fetch(&self, peer: &NodeConfig, outcome: FetchOutcome) -> (r: Option<
        Result<OpResult, Status>,
    >)
        ensures
            match (r, self.outcome_of(*peer, outcome)) {
                (Some(a), Some(want)) => answer(a) == want,
                (None, None) => true,
                _ => false,
            },
    {
        match outcome {
            FetchOutcome::Fetched => Some(
                succeed(
                    text4(
                        "restored ",
                        self.wal_file.as_str(),
                        " from ",
                        peer.hostname.as_str(),
                    ),
                ),
            ),
            FetchOutcome::OutsidePgData => Some(
                refuse(
                    Code::InvalidArgument,
                    "restore_wal: dest_path outside pg_data_dir".to_owned(),
                ),
            ),
            _ => None,
        }
    }

    /// The answer once no peer is left.
    pub fn exhausted(&self) -> (r: Result<OpResult, Status>)
        ensures
            answer(r) == missing(
                "restore_wal: "@ + self.wal_file@ + " not found on any peer"@,
            ),
    {
        refuse(
            Code::NotFound,
            text3("restore_wal: ", self.wal_file.as_str(), " not found on any peer"),
        )
    }
}

/// The search stops at a peer that is not left out, and passes over only
/// those that are.
pub proof fn law_only_cooling_peers_are_passed_over(
    peers: Seq<NodeConfig>,
    from: int,
    cooldowns: WalCooldowns,
    now: u64,
)
    requires
        0 <= from <= peers.len(),
    ensures
        from <= next_warm(peers, from, cooldowns, now) <= peers.len(),
        forall|i: int|
            from <= i < next_warm(peers, from, cooldowns, now) ==> cooldowns.cools(
                (#[trigger] peers[i]).id,
                now,
            ),
        next_warm(peers, from, cooldowns, now) < peers.len() ==> !cooldowns.cools(
            peers[next_warm(peers, from, cooldowns, now)].id,
            now,
        ),
    decreases peers.len() - from,
{
    if from < peers.len() && cooldowns.cools(peers[from].id, now) {
        law_only_cooling_peers_are_passed_over(peers, from + 1, cooldowns, now);
    }
}

/// The local node is never asked, and every other member is.
pub proof fn law_every_peer_and_no_other(pool: NodePool, node: NodeConfig)
    ensures
        peers_of(pool).contains(node) <==> pool.members@.contains(node) && node.id
            != pool.local_node_id,
{
    lemma_filter_has(pool.members@, |n: NodeConfig| n.id != pool.local_node_id, node);
}

/// A peer that failed is left out for ten seconds, and not longer; another
/// peer's failure makes no difference to that.
pub proof fn law_cooldown_lasts_ten_seconds(
    a: WalCooldowns,
    b: WalCooldowns,
    id: i32,
    other: i32,
    then: u64,
    now: u64,
)
    requires
        b.since@ == a.since@.insert(id, then),
    ensures
        b.cools(id, now) <==> now - then < 10_000,
        other != id ==> b.cools(other, now) == a.cools(other, now),
        a.since@.dom() =~= Set::empty() && other != id ==> !b.cools(other, now),
{
}

/// A request goes on exactly where it names a segment and a place for it and
/// the local node is a member; without a segment or a place it is a bad
/// argument.
pub proof fn law_requests_that_go_on(req: RestoreWalRequest, pool: NodePool)
    ensures
        ({
            let a = restore_answer_to(req, pool);
            &&& a is None <==> req.wal_file@.len() > 0 && req.dest_path@.len() > 0 && first_with_id(
                pool.members@,
                pool.local_node_id,
            ) is Some
            &&& a is Some ==> a->0 is Refusal
            &&& req.wal_file@.len() == 0 || req.dest_path@.len() == 0 ==> a->0->code
                == Code::InvalidArgument
            &&& req.wal_file@.len() > 0 && req.dest_path@.len() > 0 && a is Some ==> a->0->code
                == Code::Internal
        }),
{
}

/// The search ends with the peer that had the segment, positively, or with a
/// place outside the data directory, as a bad argument; whatever else becomes
/// of a peer, the next one is asked.
pub proof fn law_search_ends_with_the_segment(
    m: RestoreWal,
    peer: NodeConfig,
    outcome: FetchOutcome,
)
    ensures
        match m.outcome_of(peer, outcome) {
            Some(Answer::Result { ok, message }) => ok && outcome is Fetched && ends_with(
                message,
                peer.hostname@,
            ) && holds_text(message, m.wal_file@),
            Some(Answer::Refusal { code, message }) => code == Code::InvalidArgument
                && outcome is OutsidePgData,
            None => !(outcome is Fetched || outcome is OutsidePgData),
        },
{
    let s = "restored "@ + m.wal_file@ + " from "@ + peer.hostname@;
    let n = "restored "@.len() as int;
    assert(s.skip(s.len() - peer.hostname@.len()) =~= peer.hostname@);
    assert(s.subrange(n, n + m.wal_file@.len()) =~= m.wal_file@);
    assert(stands_at(s, m.wal_file@, n));
}

/// The first peer that is not left out is the next to be asked.
pub proof fn law_first_warm_peer_is_next(
    peers: Seq<NodeConfig>,
    from: int,
    cooldowns: WalCooldowns,
    now: u64,
    i: int,
)
    requires
        0 <= from <= i < peers.len(),
        !cooldowns.cools(peers[i].id, now),
        forall|j: int| from <= j < i ==> cooldowns.cools((#[trigger] peers[j]).id, now),
    ensures
        next_warm(peers, from, cooldowns, now) == i,
    decreases i - from,
{
    if from < i {
        law_first_warm_peer_is_next(peers, from + 1, cooldowns, now, i);
    }
}

/// A peer that never failed is not left out.
pub proof fn law_peers_that_never_failed_are_asked(a: WalCooldowns, id: i32, now: u64)
    requires
        !a.since@.contains_key(id),
    ensures
        !a.cools(id, now),
{
}

/// One member more: it is asked after the others, unless it is the local node.
pub proof fn law_peers_keep_the_order(pool: NodePool, longer: NodePool, node: NodeConfig)
    requires
        longer.members@ == pool.members@.push(node),
        longer.local_node_id == pool.local_node_id,
    ensures
        peers_of(longer) == if node.id == pool.local_node_id {
            peers_of(pool)
        } else {
            peers_of(pool).push(node)
        },
{
    reveal(Seq::filter);
    assert(longer.members@.drop_last() =~= pool.members@);
    let keep = |n: NodeConfig| n.id != pool.local_node_id;
    assert(keep == (|n: NodeConfig| n.id != longer.local_node_id));
}

} // verus!
