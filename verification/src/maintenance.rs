//! The queue of cleanups that have to be tried again.
//!
//! A replication slot that could not be dropped keeps its host from recycling
//! WAL. Its drop is queued and tried again, at growing intervals, until it
//! succeeds or has failed for the fifth time.
use crate::config::{
    first_with_hostname, unknown_hostname, NodeConfig, NodePool,
};
use crate::orchestration::{lemma_comes_after, lemma_excludes, performed, after, Machine, Reply};
use crate::sort::{in_order, law_sorting_orders_and_keeps, lemma_filter_has, sorted, Ranked};
use crate::text::{
    debug_text, dec, ends_with, holds_text, int_text, is_text_before, lemma_dec_differs,
    lemma_dec_digits, lemma_text_order, nat_text, quoted, stands_at, text2, text3, text4, text5,
    text_before,
};
use crate::time::{Timestamp, MAX_SECS};
use vstd::prelude::*;

verus! {

/// Seconds between two sweeps.
pub const DEFAULT_SWEEP_INTERVAL: u64 = 30;

/// The failure after which a cleanup is given up.
pub const MAX_ATTEMPTS: u32 = 5;

/// Seconds to wait after the first failure.
pub const BASE_BACKOFF: u64 = 30;

/// The most seconds to wait after a failure.
pub const MAX_BACKOFF: u64 = 600;

/// Seconds that one cleanup is given.
pub const PER_OP_TIMEOUT: u64 = 30;

/// Where a queued cleanup stands.
#[derive(Clone, Copy, Debug, PartialEq, Eq, Structural)]
pub enum MaintenanceStatus {
    Pending,
    Done,
    Abandoned,
}

impl MaintenanceStatus {
    /// The status on the wire.
    pub open spec fn wire(self) -> Seq<char> {
        match self {
            MaintenanceStatus::Pending => "pending"@,
            MaintenanceStatus::Done => "done"@,
            MaintenanceStatus::Abandoned => "abandoned"@,
        }
    }

    /// The status on the wire.
    pub fn as_wire(&self) -> (r: &'static str)
        ensures
            r@ == self.wire(),
    {
        match self {
            MaintenanceStatus::Pending => "pending",
            MaintenanceStatus::Done => "done",
            MaintenanceStatus::Abandoned => "abandoned",
        }
    }

    /// The name of the status.
    pub open spec fn name(self) -> Seq<char> {
        match self {
            MaintenanceStatus::Pending => "Pending"@,
            MaintenanceStatus::Done => "Done"@,
            MaintenanceStatus::Abandoned => "Abandoned"@,
        }
    }
}

/// What is to be cleaned up.
#[derive(Clone, Debug, PartialEq, Eq)]
pub enum MaintenancePayload {
    /// A replication slot that could not be dropped when it had to be.
    DropSlotCleanup {
        /// The slot.
        slot_name: String,
        /// The host that holds the slot.
        target_hostname: String,
        /// Why the slot had to go.
        cause: String,
        /// Why it could not be dropped at first.
        initial_error: String,
    },
}

impl MaintenancePayload {
    /// The name of the operation.
    pub fn op_name(&self) -> (r: &'static str)
        ensures
            r@ == "drop_slot_cleanup"@,
    {
        match self {
            MaintenancePayload::DropSlotCleanup { .. } => "drop_slot_cleanup",
        }
    }

    /// Whether this is the cleanup of `slot` on `host`, for `cause`, after
    /// `error`.
    pub open spec fn is_cleanup(
        self,
        slot: Seq<char>,
        host: Seq<char>,
        cause: Seq<char>,
        error: Seq<char>,
    ) -> bool {
        match self {
            MaintenancePayload::DropSlotCleanup {
                slot_name,
                target_hostname,
                cause: c,
                initial_error,
            } => slot_name@ == slot && target_hostname@ == host && c@ == cause && initial_error@
                == error,
        }
    }

    /// The cleanup of `slot` on `host`, for `cause`, after `error`.
    pub fn cleanup(slot: &str, host: &str, cause: &str, error: &str) -> (r: Self)
        ensures
            r.is_cleanup(slot@, host@, cause@, error@),
    {
        MaintenancePayload::DropSlotCleanup {
            slot_name: slot.to_owned(),
            target_hostname: host.to_owned(),
            cause: cause.to_owned(),
            initial_error: error.to_owned(),
        }
    }

    /// The slot to drop.
    pub open spec fn slot(self) -> Seq<char> {
        match self {
            MaintenancePayload::DropSlotCleanup { slot_name, .. } => slot_name@,
        }
    }

    /// The host that holds the slot.
    pub open spec fn host(self) -> Seq<char> {
        match self {
            MaintenancePayload::DropSlotCleanup { target_hostname, .. } => target_hostname@,
        }
    }

    /// The slot to drop.
    pub fn slot_name(&self) -> (r: &str)
        ensures
            r@ == self.slot(),
    {
        match self {
            MaintenancePayload::DropSlotCleanup { slot_name, .. } => slot_name.as_str(),
        }
    }

    /// The host that holds the slot.
    pub fn target_hostname(&self) -> (r: &str)
        ensures
            r@ == self.host(),
    {
        match self {
            MaintenancePayload::DropSlotCleanup { target_hostname, .. } => target_hostname.as_str(),
        }
    }
}

/// A queued cleanup.
#[derive(Clone, Debug, PartialEq, Eq)]
pub struct MaintenanceIntent {
    pub id: String,
    pub status: MaintenanceStatus,
    pub payload: MaintenancePayload,
    /// How often it has failed.
    pub attempts: u32,
    /// What it failed with last.
    pub last_error: String,
    pub created_at: Timestamp,
    pub updated_at: Timestamp,
    /// When it is due again; at once, where this is absent.
    pub next_retry_at: Option<Timestamp>,
}

/// A stored cleanup that could not be read.
#[derive(Clone, Debug, PartialEq, Eq)]
pub struct SkippedIntent {
    pub path: String,
    pub error: String,
}

/// Seconds to wait before attempt `n`: thirty, doubled with every attempt, up
/// to ten minutes.
pub open spec fn backoff_before(n: nat) -> nat
    decreases n,
{
    if n <= 1 {
        BASE_BACKOFF as nat
    } else if 2 * backoff_before((n - 1) as nat) >= MAX_BACKOFF {
        MAX_BACKOFF as nat
    } else {
        2 * backoff_before((n - 1) as nat)
    }
}

proof fn lemma_capped(n: nat, m: nat)
    requires
        n <= m,
        backoff_before(n) == MAX_BACKOFF,
    ensures
        backoff_before(m) == MAX_BACKOFF,
    decreases m - n,
{
    if n < m {
        lemma_capped(n, (m - 1) as nat);
    }
}

/// Seconds to wait before attempt `next_attempt`.
pub fn backoff(next_attempt: u32) -> (r: u64)
    ensures
        r == backoff_before(next_attempt as nat),
{
    if next_attempt <= 1 {
        return BASE_BACKOFF;
    }
    let mut d: u64 = BASE_BACKOFF;
    let mut n: u32 = 1;
    while n < next_attempt
        invariant
            1 <= n <= next_attempt,
            d == backoff_before(n as nat),
            d <= MAX_BACKOFF,
        decreases next_attempt - n,
    {
        if d >= MAX_BACKOFF / 2 {
            proof {
                lemma_capped((n + 1) as nat, next_attempt as nat);
            }
            return MAX_BACKOFF;
        }
        d = d * 2;
        n = n + 1;
    }
    d
}

/// The waits are thirty seconds, then one, two, four and eight minutes, then
/// ten minutes for ever; they never shrink.
pub proof fn law_backoff_doubles_up_to_a_cap(n: nat, m: nat)
    ensures
        backoff_before(1) == 30,
        backoff_before(2) == 60,
        backoff_before(3) == 120,
        backoff_before(4) == 240,
        backoff_before(5) == 480,
        n >= 6 ==> backoff_before(n) == 600,
        30 <= backoff_before(n) <= 600,
        n <= m ==> backoff_before(n) <= backoff_before(m),
    decreases m,
{
    reveal_with_fuel(backoff_before, 7);
    if n >= 6 {
        lemma_capped(6, n);
    }
    if n < m {
        law_backoff_doubles_up_to_a_cap(n, (m - 1) as nat);
    }
}

/// The id of a cleanup: when it was made in nanoseconds (zero where that does
/// not fit), its operation, and a number of its own.
pub open spec fn intent_id(now: Timestamp, seq: u64) -> Seq<char> {
    dec(
        if i64::MIN <= now.at() <= i64::MAX {
            now.at()
        } else {
            0
        },
    ) + "-"@ + "drop_slot_cleanup"@ + "-"@ + dec(seq as int)
}

/// A text is told from another by what follows its last dash.
proof fn lemma_dashes_differ(p: Seq<char>, q: Seq<char>, a: nat, b: nat)
    requires
        p + "-"@ + dec(a as int) == q + "-"@ + dec(b as int),
    ensures
        a == b,
{
    reveal_strlit("-");
    lemma_dec_digits(a);
    lemma_dec_digits(b);
    let x = dec(a as int);
    let y = dec(b as int);
    let s = p + "-"@ + x;
    let t = q + "-"@ + y;
    let n = s.len() as int;
    if x.len() < y.len() {
        assert(s[n - 1 - x.len()] == '-');
        assert(t[n - 1 - x.len()] == y[y.len() - 1 - x.len()]);
    } else if y.len() < x.len() {
        assert(t[n - 1 - y.len()] == '-');
        assert(s[n - 1 - y.len()] == x[x.len() - 1 - y.len()]);
    }
    assert(x =~= s.skip(n - x.len()));
    assert(y =~= t.skip(n - y.len()));
    lemma_dec_differs(a as int, b as int);
}

/// Cleanups with different numbers have different ids, whenever they were made.
pub proof fn law_intent_ids_differ(t: Timestamp, a: u64, u: Timestamp, b: u64)
    ensures
        a != b ==> intent_id(t, a) != intent_id(u, b),
{
    if intent_id(t, a) == intent_id(u, b) {
        let head = |now: Timestamp|
            dec(
                if i64::MIN <= now.at() <= i64::MAX {
                    now.at()
                } else {
                    0
                },
            ) + "-"@ + "drop_slot_cleanup"@;
        lemma_dashes_differ(head(t), head(u), a as nat, b as nat);
    }
}

/// The id of a cleanup.
pub fn make_id(payload: &MaintenancePayload, now: Timestamp, seq: u64) -> (r: String)
    ensures
        r@ == intent_id(now, seq),
{
    let at = now.unix_nanos();
    let nanos: i64 = if i64::MIN as i128 <= at && at <= i64::MAX as i128 {
        at as i64
    } else {
        0
    };
    text5(int_text(nanos).as_str(), "-", payload.op_name(), "-", nat_text(seq).as_str())
}

impl MaintenanceIntent {
    /// Makes a cleanup that is due at once.
    pub fn new(payload: MaintenancePayload, now: Timestamp, seq: u64) -> (r: MaintenanceIntent)
        ensures
            r.id@ == intent_id(now, seq),
            r.status == MaintenanceStatus::Pending,
            r.payload == payload,
            r.attempts == 0,
            r.last_error@ == Seq::<char>::empty(),
            r.created_at == now,
            r.updated_at == now,
            r.next_retry_at is None,
    {
        MaintenanceIntent {
            id: make_id(&payload, now, seq),
            status: MaintenanceStatus::Pending,
            payload,
            attempts: 0,
            last_error: String::new(),
            created_at: now,
            updated_at: now,
            next_retry_at: None,
        }
    }

    /// Notes a failure, after which the cleanup is due at `next_retry_at`.
    pub fn mark_attempt(self, error: String, now: Timestamp, next_retry_at: Timestamp) -> (r: Self)
        requires
            self.attempts < u32::MAX,
        ensures
            r == (MaintenanceIntent {
                attempts: (self.attempts + 1) as u32,
                last_error: error,
                updated_at: now,
                next_retry_at: Some(next_retry_at),
                status: MaintenanceStatus::Pending,
                ..self
            }),
    {
        MaintenanceIntent {
            attempts: self.attempts + 1,
            last_error: error,
            updated_at: now,
            next_retry_at: Some(next_retry_at),
            status: MaintenanceStatus::Pending,
            ..self
        }
    }

    /// Notes the success.
    pub fn mark_done(self, now: Timestamp) -> (r: Self)
        ensures
            r.last_error@ == Seq::<char>::empty(),
            r == (MaintenanceIntent {
                status: MaintenanceStatus::Done,
                updated_at: now,
                next_retry_at: None,
                last_error: r.last_error,
                ..self
            }),
    {
        MaintenanceIntent {
            status: MaintenanceStatus::Done,
            updated_at: now,
            next_retry_at: None,
            last_error: String::new(),
            ..self
        }
    }

    /// Notes the failure for which the cleanup is given up.
    pub fn mark_abandoned(self, error: String, now: Timestamp) -> (r: Self)
        ensures
            r == (MaintenanceIntent {
                status: MaintenanceStatus::Abandoned,
                updated_at: now,
                last_error: error,
                next_retry_at: None,
                ..self
            }),
    {
        MaintenanceIntent {
            status: MaintenanceStatus::Abandoned,
            updated_at: now,
            last_error: error,
            next_retry_at: None,
            ..self
        }
    }

    /// Has a pending cleanup tried at `when`. That does not count as an
    /// attempt.
    pub fn reschedule(self, now: Timestamp, when: Timestamp) -> (r: Result<Self, String>)
        ensures
            match r {
                Ok(i) => self.status == MaintenanceStatus::Pending && i == (MaintenanceIntent {
                    updated_at: now,
                    next_retry_at: Some(when),
                    ..self
                }),
                Err(e) => self.status != MaintenanceStatus::Pending && e@
                    == "maintenance: cannot reschedule intent "@ + self.id@ + " in status "@
                    + self.status.name(),
            },
    {
        let name = match self.status {
            MaintenanceStatus::Pending => {
                return Ok(
                    MaintenanceIntent { updated_at: now, next_retry_at: Some(when), ..self },
                );
            },
            MaintenanceStatus::Done => "Done",
            MaintenanceStatus::Abandoned => "Abandoned",
        };
        Err(
            text4(
                "maintenance: cannot reschedule intent ",
                self.id.as_str(),
                " in status ",
                name,
            ),
        )
    }

    /// Whether the cleanup is due at `now`.
    pub open spec fn due(self, now: Timestamp) -> bool {
        match self.next_retry_at {
            Some(t) => t.at() <= now.at(),
            None => true,
        }
    }

    /// Whether the cleanup is due at `now`.
    pub fn is_due(&self, now: Timestamp) -> (r: bool)
        ensures
            r == self.due(now),
    {
        match self.next_retry_at {
            Some(t) => !t.is_after(now),
            None => true,
        }
    }

    /// Whether the cleanup has ended, and did so more than `retention`
    /// nanoseconds before `now`.
    pub open spec fn expired(self, now: Timestamp, retention: i128) -> bool {
        self.status != MaintenanceStatus::Pending && now.at() - self.updated_at.at() > retention
    }
}

impl Ranked for MaintenanceIntent {
    /// Oldest first, and by id where two are equally old.
    open spec fn before(self, other: Self) -> bool {
        self.created_at.at() < other.created_at.at() || (self.created_at.at()
            == other.created_at.at() && text_before(self.id@, other.id@))
    }

    proof fn lemma_order(a: Self, b: Self, c: Self) {
        lemma_text_order(a.id@, b.id@, c.id@);
    }

    fn is_before(&self, other: &Self) -> (r: bool) {
        other.created_at.is_after(self.created_at) || (!self.created_at.is_after(other.created_at)
            && is_text_before(self.id.as_str(), other.id.as_str()))
    }
}

impl Ranked for SkippedIntent {
    open spec fn before(self, other: Self) -> bool {
        text_before(self.path@, other.path@)
    }

    proof fn lemma_order(a: Self, b: Self, c: Self) {
        lemma_text_order(a.path@, b.path@, c.path@);
    }

    fn is_before(&self, other: &Self) -> (r: bool) {
        is_text_before(self.path.as_str(), other.path.as_str())
    }
}

/// The cleanups that are pending, oldest first, and those that are to be
/// removed for good.
pub struct PendingList {
    pub pending: Vec<MaintenanceIntent>,
    pub expired: Vec<MaintenanceIntent>,
}

/// Splits what is stored. What has ended is kept for `retention` nanoseconds.
pub fn list_pending(intents: Vec<MaintenanceIntent>, now: Timestamp, retention: i128) -> (r:
    PendingList)
    ensures
        r.pending@ == in_order(
            intents@.filter(|i: MaintenanceIntent| i.status == MaintenanceStatus::Pending),
        ),
        r.expired@ == intents@.filter(|i: MaintenanceIntent| i.expired(now, retention)),
{
    let ghost all = intents@;
    let ghost keep = |i: MaintenanceIntent| i.status == MaintenanceStatus::Pending;
    let ghost gone = |i: MaintenanceIntent| i.expired(now, retention);
    let mut rest = intents;
    let mut pending: Vec<MaintenanceIntent> = Vec::new();
    let mut expired: Vec<MaintenanceIntent> = Vec::new();
    let ghost mut n: int = 0;
    assert(all.take(0).filter(keep) =~= pending@ && all.take(0).filter(gone) =~= expired@) by {
        reveal(Seq::filter);
    }
    while rest.len() > 0
        invariant
            0 <= n <= all.len(),
            rest@ == all.skip(n),
            keep == (|i: MaintenanceIntent| i.status == MaintenanceStatus::Pending),
            gone == (|i: MaintenanceIntent| i.expired(now, retention)),
            pending@ == all.take(n).filter(keep),
            expired@ == all.take(n).filter(gone),
        decreases rest.len(),
    {
        let intent = rest.remove(0);
        proof {
            assert(intent == all[n]);
            assert(all.take(n + 1).drop_last() =~= all.take(n));
            assert(all.take(n + 1).last() == intent);
            assert(rest@ =~= all.skip(n + 1));
            reveal(Seq::filter);
            n = n + 1;
        }
        if intent.status == MaintenanceStatus::Pending {
            pending.push(intent);
        } else if now.more_than_nanos_since(intent.updated_at, retention) {
            expired.push(intent);
        }
    }
    assert(all.take(n) =~= all);
    PendingList { pending: sorted(pending), expired }
}

/// Whether `status` is among `statuses`; where none are given, any status is.
pub open spec fn asked_for(statuses: Seq<MaintenanceStatus>, status: MaintenanceStatus) -> bool {
    statuses.len() == 0 || statuses.contains(status)
}

fn is_asked_for(statuses: &Vec<MaintenanceStatus>, status: MaintenanceStatus) -> (r: bool)
    ensures
        r == asked_for(statuses@, status),
{
    if statuses.len() == 0 {
        return true;
    }
    let mut i: usize = 0;
    while i < statuses.len()
        invariant
            i <= statuses.len(),
            forall|k: int| 0 <= k < i ==> statuses[k] != status,
        decreases statuses.len() - i,
    {
        if statuses[i] == status {
            return true;
        }
        i = i + 1;
    }
    false
}

/// The stored cleanups with a status that is asked for, oldest first, and
/// those that could not be read, by their paths.
pub fn list(
    intents: Vec<MaintenanceIntent>,
    skipped: Vec<SkippedIntent>,
    statuses: &Vec<MaintenanceStatus>,
) -> (r: (Vec<MaintenanceIntent>, Vec<SkippedIntent>))
    ensures
        r.0@ == in_order(intents@.filter(|i: MaintenanceIntent| asked_for(statuses@, i.status))),
        r.1@ == in_order(skipped@),
{
    let ghost all = intents@;
    let ghost keep = |i: MaintenanceIntent| asked_for(statuses@, i.status);
    let mut rest = intents;
    let mut kept: Vec<MaintenanceIntent> = Vec::new();
    let ghost mut n: int = 0;
    assert(all.take(0).filter(keep) =~= kept@) by {
        reveal(Seq::filter);
    }
    while rest.len() > 0
        invariant
            0 <= n <= all.len(),
            rest@ == all.skip(n),
            keep == (|i: MaintenanceIntent| asked_for(statuses@, i.status)),
            kept@ == all.take(n).filter(keep),
        decreases rest.len(),
    {
        let intent = rest.remove(0);
        proof {
            assert(intent == all[n]);
            assert(all.take(n + 1).drop_last() =~= all.take(n));
            assert(all.take(n + 1).last() == intent);
            assert(rest@ =~= all.skip(n + 1));
            reveal(Seq::filter);
            n = n + 1;
        }
        if is_asked_for(statuses, intent.status) {
            kept.push(intent);
        }
    }
    assert(all.take(n) =~= all);
    (sorted(kept), sorted(skipped))
}

/// Whether a file of this name holds a cleanup: its extension is `json`.
pub fn is_intent_file(name: &str) -> (r: bool)
    ensures
        r == (name@.len() > 5 && name@.skip(name@.len() - 5) == ".json"@),
{
    let c = crate::text::chars_of(name);
    if c.len() <= 5 {
        return false;
    }
    let tail = crate::text::text_of(&c, c.len() - 5, c.len());
    assert(tail@ =~= name@.skip(name@.len() - 5));
    crate::text::same(tail.as_str(), ".json")
}

/// The name of the file that holds the cleanup `id`.
pub open spec fn file_of(id: Seq<char>) -> Seq<char> {
    id + ".json"@
}

/// The name of the file that holds the cleanup `id`.
pub fn intent_file(id: &str) -> (r: Result<String, String>)
    ensures
        match r {
            Ok(name) => id@.len() > 0 && name@ == file_of(id@),
            Err(e) => id@.len() == 0 && e@ == "maintenance: id is required"@,
        },
{
    if id.is_empty() {
        Err("maintenance: id is required".to_owned())
    } else {
        Ok(text2(id, ".json"))
    }
}

/// The cleanups of a sweep at `now`: those of `pending` that are due, in their
/// order.
pub fn process_sweep(pending: Vec<MaintenanceIntent>, now: Timestamp) -> (r: Vec<MaintenanceIntent>)
    ensures
        r@ == pending@.filter(|i: MaintenanceIntent| i.due(now)),
{
    let ghost all = pending@;
    let ghost keep = |i: MaintenanceIntent| i.due(now);
    let mut rest = pending;
    let mut due: Vec<MaintenanceIntent> = Vec::new();
    let ghost mut n: int = 0;
    assert(all.take(0).filter(keep) =~= due@) by {
        reveal(Seq::filter);
    }
    while rest.len() > 0
        invariant
            0 <= n <= all.len(),
            rest@ == all.skip(n),
            keep == (|i: MaintenanceIntent| i.due(now)),
            due@ == all.take(n).filter(keep),
        decreases rest.len(),
    {
        let intent = rest.remove(0);
        proof {
            assert(intent == all[n]);
            assert(all.take(n + 1).drop_last() =~= all.take(n));
            assert(all.take(n + 1).last() == intent);
            assert(rest@ =~= all.skip(n + 1));
            reveal(Seq::filter);
            n = n + 1;
        }
        if intent.is_due(now) {
            due.push(intent);
        }
    }
    assert(all.take(n) =~= all);
    due
}

/// A file named after an id is one that holds a cleanup.
pub proof fn law_intent_files_are_found(id: Seq<char>)
    requires
        id.len() > 0,
    ensures
        file_of(id).len() > 5,
        file_of(id).skip(file_of(id).len() - 5) == ".json"@,
{
    reveal_strlit(".json");
    assert(file_of(id).skip(file_of(id).len() - 5) =~= ".json"@);
}

/// One file holds the cleanup of one id.
pub proof fn law_intent_files_differ(a: Seq<char>, b: Seq<char>)
    requires
        file_of(a) == file_of(b),
    ensures
        a == b,
{
    assert(a =~= file_of(a).take(a.len() as int));
    assert(b =~= file_of(b).take(b.len() as int));
}

/// In a directory that gives back what was last written under a name, two
/// cleanups that were made with different numbers are both found under their
/// ids, and what is held under any other id stays.
pub proof fn law_new_cleanups_are_found(
    dir: Map<Seq<char>, MaintenanceIntent>,
    a: MaintenanceIntent,
    t: Timestamp,
    x: u64,
    b: MaintenanceIntent,
    u: Timestamp,
    y: u64,
    other: Seq<char>,
)
    requires
        a.id@ == intent_id(t, x),
        b.id@ == intent_id(u, y),
        x != y,
    ensures
        ({
            let both = dir.insert(file_of(a.id@), a).insert(file_of(b.id@), b);
            &&& both.contains_key(file_of(a.id@)) && both[file_of(a.id@)] == a
            &&& both.contains_key(file_of(b.id@)) && both[file_of(b.id@)] == b
            &&& other != a.id@ && other != b.id@ ==> both.contains_key(file_of(other))
                == dir.contains_key(file_of(other)) && both[file_of(other)] == dir[file_of(other)]
        }),
{
    law_intent_ids_differ(t, x, u, y);
    if file_of(a.id@) == file_of(b.id@) {
        law_intent_files_differ(a.id@, b.id@);
    }
    if file_of(other) == file_of(a.id@) {
        law_intent_files_differ(other, a.id@);
    }
    if file_of(other) == file_of(b.id@) {
        law_intent_files_differ(other, b.id@);
    }
}

/// What a failure leads to.
#[derive(Clone, Copy, Debug, PartialEq, Eq, Structural)]
pub enum Retry {
    /// Try again at this point.
    At(Timestamp),
    /// Give up.
    GiveUp,
}

/// What the next failure of a cleanup that has failed `attempts` times leads
/// to.
pub open spec fn retry_after(attempts: u32, now: Timestamp) -> Retry {
    if attempts + 1 >= MAX_ATTEMPTS {
        Retry::GiveUp
    } else {
        Retry::At(
            Timestamp {
                secs: (now.secs + backoff_before((attempts + 1) as nat)) as i64,
                nanos: now.nanos,
            },
        )
    }
}

/// What the next failure of a cleanup that has failed `attempts` times leads
/// to.
pub fn fail(attempts: u32, now: Timestamp) -> (r: Retry)
    requires
        now.secs <= MAX_SECS - MAX_BACKOFF,
    ensures
        r == retry_after(attempts, now),
{
    if attempts >= MAX_ATTEMPTS - 1 {
        Retry::GiveUp
    } else {
        proof {
            law_backoff_doubles_up_to_a_cap((attempts + 1) as nat, (attempts + 1) as nat);
        }
        Retry::At(now.plus_secs(backoff(attempts + 1)))
    }
}

/// A cleanup is tried again after each of its first four failures, each time
/// later than the failure, and given up with the fifth.
pub proof fn law_fifth_failure_is_the_last(attempts: u32, now: Timestamp)
    requires
        now.secs <= MAX_SECS - MAX_BACKOFF,
    ensures
        retry_after(attempts, now) == Retry::GiveUp <==> attempts >= 4,
        retry_after(attempts, now) is At ==> now.at() + 30 * 1_000_000_000 <= retry_after(
            attempts,
            now,
        )->At_0.at() <= now.at() + 600 * 1_000_000_000,
{
    law_backoff_doubles_up_to_a_cap((attempts + 1) as nat, (attempts + 1) as nat);
}

/// A step of a cleanup that failed.
#[derive(Clone, Copy, Debug, PartialEq, Eq, Structural)]
pub enum DropStep {
    /// Dropping the slot here.
    Local,
    /// Dialing the host.
    Dial,
    /// Dropping the slot on the host.
    Remote,
}

/// The call that is due, or how it ended.
pub enum DropStage {
    /// Ask the journal who owns the slot.
    ConsultOwner,
    /// Drop the slot here.
    DropLocal,
    /// Dial the host.
    Dial,
    /// Drop the slot on the host.
    DropRemote,
    /// Note the success.
    MarkDone,
    /// Note a failure: no member has the host's name.
    FailUnknown,
    /// Note a failure: a step failed with this error.
    FailStep(DropStep, String),
    /// Note a failure: the time ran out.
    FailTimeout,
    /// The outcome was noted.
    Noted,
    /// The success could not be noted.
    NotNotedDone(String),
    /// The failure could not be noted; the flag says whether it was the last.
    NotNotedFailure(bool, String),
}

/// A cleanup that is tried.
pub struct DropSlotRun {
    pub intent: MaintenanceIntent,
    /// The host, where a member has its name.
    pub node: Option<NodeConfig>,
    /// Whether the host is the local node.
    pub local: bool,
    pub stage: DropStage,
}

impl DropSlotRun {
    /// Begins to try a cleanup.
    pub fn new(intent: MaintenanceIntent, pool: &NodePool) -> (r: DropSlotRun)
        ensures
            r.intent == intent,
            r.node == first_with_hostname(pool.members@, intent.payload.host()),
            r.local == (r.node is Some && r.node->0.id == pool.local_node_id),
            r.stage == if r.node is Some {
                DropStage::ConsultOwner
            } else {
                DropStage::FailUnknown
            },
    {
        match pool.node_by_hostname(intent.payload.target_hostname()) {
            Ok(n) => {
                let local = pool.is_local(n);
                let node = n.clone();
                DropSlotRun { intent, node: Some(node), local, stage: DropStage::ConsultOwner }
            },
            Err(_) => DropSlotRun { intent, node: None, local: false, stage: DropStage::FailUnknown },
        }
    }

    /// Whether a failure is to be noted.
    pub open spec fn failing(self) -> bool {
        self.stage is FailUnknown || self.stage is FailStep || self.stage is FailTimeout
    }

    /// Whether the time that one cleanup is given is running.
    pub open spec fn dropping(self) -> bool {
        self.stage is DropLocal || self.stage is Dial || self.stage is DropRemote
    }

    /// Whether the time that one cleanup is given is running.
    pub fn is_dropping(&self) -> (r: bool)
        ensures
            r == self.dropping(),
    {
        match &self.stage {
            DropStage::DropLocal => true,
            DropStage::Dial => true,
            DropStage::DropRemote => true,
            _ => false,
        }
    }

    /// Takes note that the time ran out.
    pub fn time_out(self) -> (r: Self)
        ensures
            r == if self.dropping() {
                DropSlotRun { stage: DropStage::FailTimeout, ..self }
            } else {
                self
            },
    {
        if self.is_dropping() {
            DropSlotRun { stage: DropStage::FailTimeout, ..self }
        } else {
            self
        }
    }

    /// What is said of the failure that is to be noted.
    pub open spec fn failure_text(self) -> Seq<char> {
        let slot = self.intent.payload.slot();
        let host = self.intent.payload.host();
        match self.stage {
            DropStage::FailUnknown => "resolve target host "@ + quoted(host) + ": "@
                + unknown_hostname(host),
            DropStage::FailStep(DropStep::Local, e) => e@,
            DropStage::FailStep(DropStep::Dial, e) => "peer client for "@ + quoted(host) + ": "@
                + e@,
            DropStage::FailStep(DropStep::Remote, e) => "drop slot rpc "@ + quoted(slot) + " on "@
                + quoted(host) + ": "@ + e@,
            DropStage::FailTimeout => "drop slot "@ + quoted(slot) + " on "@ + quoted(host)
                + ": per-op timeout "@ + dec(PER_OP_TIMEOUT as int) + "s"@,
            _ => Seq::<char>::empty(),
        }
    }

    /// The failure to note, where one is: what is said of it.
    pub fn failure(&self) -> (r: Option<String>)
        ensures
            match r {
                Some(s) => self.failing() && s@ == self.failure_text(),
                None => !self.failing(),
            },
    {
        let slot = debug_text(self.intent.payload.slot_name());
        let host = debug_text(self.intent.payload.target_hostname());
        match &self.stage {
            DropStage::FailUnknown => {
                let why = text3("hostname ", host.as_str(), " is not in the pool");
                Some(text4("resolve target host ", host.as_str(), ": ", why.as_str()))
            },
            DropStage::FailStep(step, e) => match step {
                DropStep::Local => Some(e.clone()),
                DropStep::Dial => Some(text4("peer client for ", host.as_str(), ": ", e.as_str())),
                DropStep::Remote => {
                    let mut s = text5(
                        "drop slot rpc ",
                        slot.as_str(),
                        " on ",
                        host.as_str(),
                        ": ",
                    );
                    s.append(e.as_str());
                    Some(s)
                },
            },
            DropStage::FailTimeout => {
                let mut s = text5(
                    "drop slot ",
                    slot.as_str(),
                    " on ",
                    host.as_str(),
                    ": per-op timeout ",
                );
                s.append(nat_text(PER_OP_TIMEOUT).as_str());
                s.append("s");
                Some(s)
            },
            _ => None,
        }
    }

    /// The node that the call that is due goes to; none, where it is made here
    /// or no call is due.
    pub open spec fn called(self) -> Option<NodeConfig> {
        match self.stage {
            DropStage::Dial | DropStage::DropRemote => self.node,
            _ => None,
        }
    }

    /// The node that the call that is due goes to; none, where it is made here
    /// or no call is due.
    pub fn callee(&self) -> (r: Option<&NodeConfig>)
        ensures
            match (r, self.called()) {
                (Some(n), Some(want)) => *n == want,
                (None, None) => true,
                _ => false,
            },
    {
        match (&self.stage, &self.node) {
            (DropStage::Dial, Some(n)) => Some(n),
            (DropStage::DropRemote, Some(n)) => Some(n),
            _ => None,
        }
    }

    /// Takes the reply to the call that was due.
    pub fn step(self, reply: Reply) -> (r: Self)
        ensures
            r == self.next(reply),
    {
        let local = self.local;
        let last = self.intent.attempts >= MAX_ATTEMPTS - 1;
        let stage = match (self.stage, reply) {
            (DropStage::ConsultOwner, Reply::Entry(Some(_))) => DropStage::MarkDone,
            (DropStage::ConsultOwner, Reply::Entry(None)) => {
                if local {
                    DropStage::DropLocal
                } else {
                    DropStage::Dial
                }
            },
            (DropStage::ConsultOwner, Reply::Failed(_)) => {
                if local {
                    DropStage::DropLocal
                } else {
                    DropStage::Dial
                }
            },
            (DropStage::DropLocal, Reply::Done) => DropStage::MarkDone,
            (DropStage::DropLocal, Reply::Failed(e)) => DropStage::FailStep(DropStep::Local, e),
            (DropStage::Dial, Reply::Done) => DropStage::DropRemote,
            (DropStage::Dial, Reply::Failed(e)) => DropStage::FailStep(DropStep::Dial, e),
            (DropStage::DropRemote, Reply::Done) => DropStage::MarkDone,
            (DropStage::DropRemote, Reply::Failed(e)) => DropStage::FailStep(DropStep::Remote, e),
            (DropStage::MarkDone, Reply::Done) => DropStage::Noted,
            (DropStage::MarkDone, Reply::Failed(e)) => DropStage::NotNotedDone(e),
            (DropStage::FailUnknown, Reply::Done) => DropStage::Noted,
            (DropStage::FailStep(..), Reply::Done) => DropStage::Noted,
            (DropStage::FailTimeout, Reply::Done) => DropStage::Noted,
            (DropStage::FailUnknown, Reply::Failed(e)) => DropStage::NotNotedFailure(last, e),
            (DropStage::FailStep(..), Reply::Failed(e)) => DropStage::NotNotedFailure(last, e),
            (DropStage::FailTimeout, Reply::Failed(e)) => DropStage::NotNotedFailure(last, e),
            (s, _) => s,
        };
        DropSlotRun { stage, ..self }
    }

    /// How the try ended, once it has: well, or with what could not be noted.
    pub open spec fn outcome(self) -> Option<Result<(), Seq<char>>> {
        match self.stage {
            DropStage::Noted => Some(Ok(())),
            DropStage::NotNotedDone(e) => Some(Err("mark maintenance intent done: "@ + e@)),
            DropStage::NotNotedFailure(true, e) => Some(Err("mark abandoned: "@ + e@)),
            DropStage::NotNotedFailure(false, e) => Some(Err("mark attempt: "@ + e@)),
            _ => None,
        }
    }

    /// How the try ended, once it has.
    pub fn result(&self) -> (r: Option<Result<(), String>>)
        ensures
            match (r, self.outcome()) {
                (Some(Ok(())), Some(Ok(()))) => true,
                (Some(Err(e)), Some(Err(want))) => e@ == want,
                (None, None) => true,
                _ => false,
            },
    {
        match &self.stage {
            DropStage::Noted => Some(Ok(())),
            DropStage::NotNotedDone(e) => Some(
                Err(text2("mark maintenance intent done: ", e.as_str())),
            ),
            DropStage::NotNotedFailure(last, e) => {
                if *last {
                    Some(Err(text2("mark abandoned: ", e.as_str())))
                } else {
                    Some(Err(text2("mark attempt: ", e.as_str())))
                }
            },
            _ => None,
        }
    }
}

/// The stage after `stage` got `reply`, in a run whose next failure is the
/// last where `last` says so.
pub open spec fn drop_next(stage: DropStage, reply: Reply, local: bool, last: bool) -> DropStage {
    match (stage, reply) {
        (DropStage::ConsultOwner, Reply::Entry(Some(_))) => DropStage::MarkDone,
        (DropStage::ConsultOwner, Reply::Entry(None) | Reply::Failed(_)) => if local {
            DropStage::DropLocal
        } else {
            DropStage::Dial
        },
        (DropStage::DropLocal, Reply::Done) => DropStage::MarkDone,
        (DropStage::DropLocal, Reply::Failed(e)) => DropStage::FailStep(DropStep::Local, e),
        (DropStage::Dial, Reply::Done) => DropStage::DropRemote,
        (DropStage::Dial, Reply::Failed(e)) => DropStage::FailStep(DropStep::Dial, e),
        (DropStage::DropRemote, Reply::Done) => DropStage::MarkDone,
        (DropStage::DropRemote, Reply::Failed(e)) => DropStage::FailStep(DropStep::Remote, e),
        (DropStage::MarkDone, Reply::Done) => DropStage::Noted,
        (DropStage::MarkDone, Reply::Failed(e)) => DropStage::NotNotedDone(e),
        (
            DropStage::FailUnknown | DropStage::FailStep(..) | DropStage::FailTimeout,
            Reply::Done,
        ) => DropStage::Noted,
        (
            DropStage::FailUnknown | DropStage::FailStep(..) | DropStage::FailTimeout,
            Reply::Failed(e),
        ) => DropStage::NotNotedFailure(last, e),
        (s, _) => s,
    }
}

impl Machine for DropSlotRun {
    open spec fn next(self, reply: Reply) -> Self {
        DropSlotRun {
            stage: drop_next(
                self.stage,
                reply,
                self.local,
                self.intent.attempts + 1 >= MAX_ATTEMPTS,
            ),
            ..self
        }
    }
}

/// A slot that an orchestration owns is not dropped; its cleanup counts as
/// done.
pub proof fn law_owned_slot_is_retained(m: DropSlotRun, replies: Seq<Reply>)
    requires
        performed(
            m,
            replies,
            |x: DropSlotRun, r: Reply| x.stage is ConsultOwner && r is Entry && r->Entry_0 is Some,
        ),
    ensures
        !performed(m, replies, |x: DropSlotRun, r: Reply| x.dropping()),
        after(m, replies).stage is MarkDone || after(m, replies).stage is Noted || after(
            m,
            replies,
        ).stage is NotNotedDone,
{
    lemma_excludes(
        m,
        replies,
        |x: DropSlotRun, r: Reply| x.stage is ConsultOwner && r is Entry && r->Entry_0 is Some,
        |x: DropSlotRun|
            x.stage is MarkDone || x.stage is Noted || x.stage is NotNotedDone,
        |x: DropSlotRun, r: Reply| x.dropping(),
        |x: DropSlotRun| !(x.stage is ConsultOwner),
    );
}

/// A cleanup counts as done only where its slot was dropped or is owned.
pub proof fn law_done_means_dropped_or_owned(m: DropSlotRun, replies: Seq<Reply>)
    requires
        m.stage is ConsultOwner || m.stage is FailUnknown,
        performed(m, replies, |x: DropSlotRun, r: Reply| x.stage is MarkDone),
    ensures
        performed(
            m,
            replies,
            |x: DropSlotRun, r: Reply|
                (x.stage is ConsultOwner && r is Entry && r->Entry_0 is Some) || ((
                x.stage is DropLocal || x.stage is DropRemote) && r is Done),
        ),
{
    lemma_comes_after(
        m,
        replies,
        |x: DropSlotRun, r: Reply|
            (x.stage is ConsultOwner && r is Entry && r->Entry_0 is Some) || ((x.stage is DropLocal
                || x.stage is DropRemote) && r is Done),
        |x: DropSlotRun| x.stage is MarkDone,
        |x: DropSlotRun, r: Reply| x.stage is MarkDone,
    );
}

/// The list holds exactly the pending cleanups, and what is removed has ended.
pub proof fn law_pending_are_never_removed(
    all: Seq<MaintenanceIntent>,
    now: Timestamp,
    retention: i128,
    i: MaintenanceIntent,
)
    ensures
        all.filter(|i: MaintenanceIntent| i.status == MaintenanceStatus::Pending).contains(i)
            <==> all.contains(i) && i.status == MaintenanceStatus::Pending,
        all.filter(|i: MaintenanceIntent| i.expired(now, retention)).contains(i) ==> i.status
            != MaintenanceStatus::Pending,
{
    lemma_filter_has(all, |i: MaintenanceIntent| i.status == MaintenanceStatus::Pending, i);
    lemma_filter_has(all, |i: MaintenanceIntent| i.expired(now, retention), i);
}

/// The slot is dropped only where the journal names no owner, or cannot be read:
/// here where the host is the local node, and on the host, once it was dialed,
/// where it is not. Success is noted only of a slot that was dropped or is
/// owned, and a failure only of the step that failed.
pub proof fn law_how_a_cleanup_goes(x: DropSlotRun, r: Reply)
    ensures
        ({
            let t = x.next(r).stage;
            t == x.stage || match t {
                DropStage::ConsultOwner => false,
                DropStage::DropLocal => x.stage is ConsultOwner && (r == Reply::Entry(None)
                    || r is Failed) && x.local,
                DropStage::Dial => x.stage is ConsultOwner && (r == Reply::Entry(None)
                    || r is Failed) && !x.local,
                DropStage::DropRemote => x.stage is Dial && r is Done,
                DropStage::MarkDone => {
                    ||| x.stage is ConsultOwner && r is Entry && r->Entry_0 is Some
                    ||| (x.stage is DropLocal || x.stage is DropRemote) && r is Done
                },
                DropStage::FailUnknown => false,
                DropStage::FailTimeout => false,
                DropStage::FailStep(step, e) => r == Reply::Failed(e) && match step {
                    DropStep::Local => x.stage is DropLocal,
                    DropStep::Dial => x.stage is Dial,
                    DropStep::Remote => x.stage is DropRemote,
                },
                DropStage::Noted => (x.stage is MarkDone || x.stage is FailUnknown
                    || x.stage is FailStep
                    || x.stage is FailTimeout) && r is Done,
                DropStage::NotNotedDone(e) => x.stage is MarkDone && r == Reply::Failed(e),
                DropStage::NotNotedFailure(last, e) => (x.stage is FailUnknown
                    || x.stage is FailStep
                    || x.stage is FailTimeout) && r == Reply::Failed(e) && (last
                    <==> x.intent.attempts >= 4),
            }
        }),
{
}

/// An answer to the call that is due moves the try on, and nothing else does;
/// the cleanup and its host stay.
pub proof fn law_every_reply_to_a_cleanup_counts(x: DropSlotRun, r: Reply)
    ensures
        ({
            let answers = match x.stage {
                DropStage::ConsultOwner => r is Entry || r is Failed,
                DropStage::Noted | DropStage::NotNotedDone(_) | DropStage::NotNotedFailure(..) => {
                    false
                },
                _ => r is Done || r is Failed,
            };
            &&& answers ==> x.next(r).stage != x.stage
            &&& !answers ==> x.next(r) == x
            &&& x.next(r) == (DropSlotRun { stage: x.next(r).stage, ..x })
        }),
{
}

/// Only the host of the slot is called.
pub proof fn law_the_host_is_called(x: DropSlotRun)
    ensures
        x.called() == if x.stage is Dial || x.stage is DropRemote {
            x.node
        } else {
            None
        },
        x.dropping() <==> x.stage is DropLocal || x.stage is Dial || x.stage is DropRemote,
        x.failing() <==> x.stage is FailUnknown || x.stage is FailStep || x.stage is FailTimeout,
{
}

/// A try ended well exactly where its outcome was noted; where it could not be
/// noted it ends with why.
pub proof fn law_tries_tell_the_end(x: DropSlotRun)
    ensures
        match x.outcome() {
            None => !(x.stage is Noted || x.stage is NotNotedDone || x.stage is NotNotedFailure),
            Some(Ok(())) => x.stage is Noted,
            Some(Err(message)) => match x.stage {
                DropStage::NotNotedDone(e) => ends_with(message, e@),
                DropStage::NotNotedFailure(_, e) => ends_with(message, e@),
                _ => false,
            },
        },
{
    match x.stage {
        DropStage::NotNotedDone(e) => {
            let s = "mark maintenance intent done: "@ + e@;
            assert(s.skip(s.len() - e@.len()) =~= e@);
        },
        DropStage::NotNotedFailure(last, e) => {
            let s = "mark abandoned: "@ + e@;
            assert(s.skip(s.len() - e@.len()) =~= e@);
            let s = "mark attempt: "@ + e@;
            assert(s.skip(s.len() - e@.len()) =~= e@);
        },
        _ => {},
    }
}

/// A failure that is noted ends with the error of the step, where one failed.
pub proof fn law_failures_tell_the_error(x: DropSlotRun)
    requires
        x.stage is FailStep,
    ensures
        ends_with(x.failure_text(), x.stage->FailStep_1@),
{
    let e = x.stage->FailStep_1@;
    let s = x.failure_text();
    assert(s.skip(s.len() - e.len()) =~= e);
}

/// A cleanup is due exactly where no time is set for it, or that time has come,
/// to the nanosecond.
pub proof fn law_when_a_cleanup_is_due(i: MaintenanceIntent, now: Timestamp)
    ensures
        i.due(now) <==> (i.next_retry_at is None || (i.next_retry_at->0.secs - now.secs)
            * 1_000_000_000 + (i.next_retry_at->0.nanos - now.nanos) <= 0),
{
}

/// A cleanup is removed for good exactly where it has ended, done or abandoned,
/// and longer ago than it is kept.
pub proof fn law_when_a_cleanup_is_removed(i: MaintenanceIntent, now: Timestamp, retention: i128)
    ensures
        i.expired(now, retention) <==> (i.status is Done || i.status is Abandoned) && now.at()
            - i.updated_at.at() > retention,
{
}

/// An empty filter asks for every status, and any other for exactly those that
/// it holds.
pub proof fn law_what_a_filter_asks_for(
    statuses: Seq<MaintenanceStatus>,
    status: MaintenanceStatus,
)
    ensures
        statuses.len() == 0 ==> asked_for(statuses, status),
        statuses.len() > 0 ==> (asked_for(statuses, status) <==> exists|i: int|
            0 <= i < statuses.len() && #[trigger] statuses[i] == status),
{
}

/// The list is in the order of the times at which the cleanups were made, and
/// of the ids where these are equal.
pub proof fn law_lists_are_oldest_first(all: Seq<MaintenanceIntent>, i: int, j: int)
    requires
        0 <= i < j < in_order(all).len(),
    ensures
        in_order(all)[i].created_at.at() <= in_order(all)[j].created_at.at(),
        in_order(all)[i].created_at.at() == in_order(all)[j].created_at.at() ==> !text_before(
            in_order(all)[j].id@,
            in_order(all)[i].id@,
        ),
{
    law_sorting_orders_and_keeps(all);
    assert(!in_order(all)[j].before(in_order(all)[i]));
}

/// Unreadable cleanups are listed in the order of their paths.
pub proof fn law_unreadable_are_listed_by_path(all: Seq<SkippedIntent>, i: int, j: int)
    requires
        0 <= i < j < in_order(all).len(),
    ensures
        !text_before(in_order(all)[j].path@, in_order(all)[i].path@),
{
    law_sorting_orders_and_keeps(all);
    assert(!in_order(all)[j].before(in_order(all)[i]));
}

/// After a failure at `now` the next try is due exactly when the wait for it
/// has passed.
pub proof fn law_next_try_is_due_after_its_wait(attempts: u32, now: Timestamp)
    requires
        now.secs <= MAX_SECS - MAX_BACKOFF,
        attempts <= 3,
    ensures
        retry_after(attempts, now) is At,
        retry_after(attempts, now)->At_0.at() - now.at() == 1_000_000_000 * match attempts {
            0 => 30int,
            1 => 60int,
            2 => 120int,
            _ => 240int,
        },
{
    law_backoff_doubles_up_to_a_cap((attempts + 1) as nat, (attempts + 1) as nat);
}

/// A cleanup's id starts with the nanoseconds at which it was made and ends
/// with its number.
pub proof fn law_ids_tell_time_and_number(now: Timestamp, seq: u64)
    requires
        i64::MIN <= now.at() <= i64::MAX,
    ensures
        dec(now.at()).is_prefix_of(intent_id(now, seq)),
        ends_with(intent_id(now, seq), dec(seq as int)),
        holds_text(intent_id(now, seq), "-drop_slot_cleanup-"@),
{
    let s = intent_id(now, seq);
    let d = dec(seq as int);
    assert(s.skip(s.len() - d.len()) =~= d);
    let n = dec(now.at()).len() as int;
    let mid = "-drop_slot_cleanup-"@;
    reveal_strlit("-drop_slot_cleanup-");
    reveal_strlit("drop_slot_cleanup");
    reveal_strlit("-");
    assert(mid =~= "-"@ + "drop_slot_cleanup"@ + "-"@);
    assert(s.subrange(n, n + mid.len()) =~= mid);
    assert(stands_at(s, mid, n));
}

/// The payload of a cleanup tells its slot and its host.
pub proof fn law_payloads_tell_slot_and_host(
    p: MaintenancePayload,
    slot: Seq<char>,
    host: Seq<char>,
    cause: Seq<char>,
    error: Seq<char>,
)
    ensures
        match p {
            MaintenancePayload::DropSlotCleanup {
                slot_name,
                target_hostname,
                cause: c,
                initial_error,
            } => {
                &&& p.slot() == slot_name@
                &&& p.host() == target_hostname@
                &&& p.is_cleanup(slot, host, cause, error) <==> slot_name@ == slot
                    && target_hostname@ == host && c@ == cause && initial_error@ == error
            },
        },
{
}

} // verus!
