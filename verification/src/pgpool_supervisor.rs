//! Keeps pgpool running: when to start it, and when to give up.
use vstd::prelude::*;

verus! {

/// Milliseconds between two looks at pgpool.
pub const TICK_MS: u64 = 5_000;

/// Milliseconds that have to lie between two starts.
pub const MIN_ATTEMPT_GAP_MS: u64 = 30_000;

/// The failed starts in a row after which no further one is tried.
pub const MAX_CONSECUTIVE_FAILURES: usize = 10;

/// What the supervisor goes by. Times are milliseconds of a clock that never
/// goes back.
#[derive(Clone, Copy, Debug, PartialEq, Eq, Structural)]
pub struct PgpoolSupervisor {
    pub tick_ms: u64,
    pub min_attempt_gap_ms: u64,
    pub max_consecutive_failures: usize,
    /// When the last start was tried.
    pub last_attempt: Option<u64>,
    /// The failed starts since pgpool was last seen running.
    pub consecutive_failures: usize,
    /// How many starts were tried, counted in the width of a machine word.
    pub started_count: usize,
}

impl PgpoolSupervisor {
    /// A supervisor with the usual cadence.
    pub fn new() -> (r: PgpoolSupervisor)
        ensures
            r == (PgpoolSupervisor {
                tick_ms: TICK_MS,
                min_attempt_gap_ms: MIN_ATTEMPT_GAP_MS,
                max_consecutive_failures: MAX_CONSECUTIVE_FAILURES,
                last_attempt: None,
                consecutive_failures: 0,
                started_count: 0,
            }),
    {
        PgpoolSupervisor::with_params(TICK_MS, MIN_ATTEMPT_GAP_MS, MAX_CONSECUTIVE_FAILURES)
    }

    /// A supervisor with a cadence of its own.
    pub fn with_params(tick_ms: u64, min_attempt_gap_ms: u64, max_consecutive_failures: usize) -> (r:
        PgpoolSupervisor)
        ensures
            r == (PgpoolSupervisor {
                tick_ms,
                min_attempt_gap_ms,
                max_consecutive_failures,
                last_attempt: None,
                consecutive_failures: 0,
                started_count: 0,
            }),
    {
        PgpoolSupervisor {
            tick_ms,
            min_attempt_gap_ms,
            max_consecutive_failures,
            last_attempt: None,
            consecutive_failures: 0,
            started_count: 0,
        }
    }

    /// Whether a start at `now` would come too soon after the last one.
    pub open spec fn cooling(self, now: u64) -> bool {
        self.last_attempt is Some && now - self.last_attempt->0 < self.min_attempt_gap_ms
    }

    /// Whether the supervisor has given up.
    pub open spec fn given_up(self) -> bool {
        self.consecutive_failures >= self.max_consecutive_failures
    }

    /// The supervisor after it tried a start at `now`.
    pub open spec fn attempted(self, now: u64) -> PgpoolSupervisor {
        PgpoolSupervisor {
            last_attempt: Some(now),
            started_count: vstd::wrapping::usize_specs::wrapping_add(self.started_count, 1),
            ..self
        }
    }

    /// Whether pgpool is to be started after a look at `now` that found it
    /// running or not, or failed.
    pub open spec fn starts(self, running: Result<bool, String>, now: u64) -> bool {
        running == Ok::<bool, String>(false) && !self.given_up() && !self.cooling(now)
    }

    /// The supervisor after a look at `now`.
    pub open spec fn ticked(self, running: Result<bool, String>, now: u64) -> PgpoolSupervisor {
        if running == Ok::<bool, String>(true) {
            PgpoolSupervisor { consecutive_failures: 0, ..self }
        } else if self.starts(running, now) {
            self.attempted(now)
        } else {
            self
        }
    }

    fn attempt(&mut self, now: u64)
        ensures
            *final(self) == old(self).attempted(now),
    {
        self.last_attempt = Some(now);
        self.started_count = self.started_count.wrapping_add(1);
    }

    /// Takes note of a look at pgpool. The result says whether to start it.
    /// A look that failed counts for nothing.
    pub fn tick_once(&mut self, running: Result<bool, String>, now: u64) -> (r: bool)
        ensures
            r == old(self).starts(running, now),
            *final(self) == old(self).ticked(running, now),
    {
        let running = match running {
            Ok(b) => b,
            Err(_) => {
                return false;
            },
        };
        if running {
            self.consecutive_failures = 0;
            return false;
        }
        if self.consecutive_failures >= self.max_consecutive_failures {
            return false;
        }
        if let Some(last) = self.last_attempt {
            if now < last || now - last < self.min_attempt_gap_ms {
                return false;
            }
        }
        self.attempt(now);
        true
    }

    /// Takes note of the look at pgpool at startup, which no earlier start
    /// holds up. The result says whether to start it, or that the look failed.
    pub fn ensure_running_once(&mut self, running: Result<bool, String>, now: u64) -> (r: Result<
        bool,
        String,
    >)
        ensures
            match running {
                Ok(b) => {
                    &&& r == Ok::<bool, String>(!b && !old(self).given_up())
                    &&& *final(self) == if !b && !old(self).given_up() {
                        old(self).attempted(now)
                    } else {
                        *old(self)
                    }
                },
                Err(e) => r == Err::<bool, String>(e) && *final(self) == *old(self),
            },
    {
        match running {
            Ok(b) => {
                if b || self.consecutive_failures >= self.max_consecutive_failures {
                    return Ok(false);
                }
                self.attempt(now);
                Ok(true)
            },
            Err(e) => Err(e),
        }
    }

    /// Takes note of how a start ended. A start that succeeded counts for
    /// nothing until pgpool is seen running.
    pub fn start_ended(&mut self, ok: bool)
        ensures
            *final(self) == if ok {
                *old(self)
            } else {
                PgpoolSupervisor {
                    consecutive_failures: vstd::wrapping::usize_specs::wrapping_add(
                        old(self).consecutive_failures,
                        1,
                    ),
                    ..*old(self)
                }
            },
    {
        if !ok {
            self.consecutive_failures = self.consecutive_failures.wrapping_add(1);
        }
    }
}

/// The supervisor after some looks, each with what it found and when.
pub open spec fn after_looks(
    s: PgpoolSupervisor,
    looks: Seq<(Result<bool, String>, u64)>,
) -> PgpoolSupervisor
    decreases looks.len(),
{
    if looks.len() == 0 {
        s
    } else {
        after_looks(s, looks.drop_last()).ticked(looks.last().0, looks.last().1)
    }
}

/// Whether look number `i` leads to a start.
pub open spec fn look_starts(
    s: PgpoolSupervisor,
    looks: Seq<(Result<bool, String>, u64)>,
    i: int,
) -> bool {
    after_looks(s, looks.take(i)).starts(looks[i].0, looks[i].1)
}

/// A supervisor that has given up starts nothing, however often it looks,
/// until pgpool is seen running; that it is seen running has it begin anew.
pub proof fn law_gives_up_at_the_cap(
    s: PgpoolSupervisor,
    looks: Seq<(Result<bool, String>, u64)>,
    now: u64,
)
    requires
        s.given_up(),
        forall|i: int|
            0 <= i < looks.len() ==> (#[trigger] looks[i]).0 != Ok::<bool, String>(true),
    ensures
        after_looks(s, looks) == s,
        forall|i: int| 0 <= i < looks.len() ==> !#[trigger] look_starts(s, looks, i),
        s.max_consecutive_failures > 0 ==> !s.ticked(Ok(true), now).given_up(),
    decreases looks.len(),
{
    if looks.len() > 0 {
        let before = looks.drop_last();
        law_gives_up_at_the_cap(s, before, now);
        assert forall|i: int| 0 <= i < looks.len() implies !#[trigger] look_starts(s, looks, i) by {
            assert(looks.take(looks.len() - 1) =~= before);
            if i < before.len() {
                assert(looks.take(i) =~= before.take(i));
                assert(!look_starts(s, before, i));
            }
        }
    }
}

/// Two starts are at least the gap apart: after a start at `then` none follows
/// before the gap has passed, whatever the looks in between find.
pub proof fn law_starts_are_spaced(
    s: PgpoolSupervisor,
    looks: Seq<(Result<bool, String>, u64)>,
    then: u64,
)
    requires
        s.last_attempt == Some(then),
        forall|i: int|
            0 <= i < looks.len() ==> (#[trigger] looks[i]).1 - then < s.min_attempt_gap_ms,
    ensures
        after_looks(s, looks).last_attempt == Some(then),
        after_looks(s, looks).min_attempt_gap_ms == s.min_attempt_gap_ms,
        forall|i: int| 0 <= i < looks.len() ==> !#[trigger] look_starts(s, looks, i),
    decreases looks.len(),
{
    if looks.len() > 0 {
        let before = looks.drop_last();
        law_starts_are_spaced(s, before, then);
        assert forall|i: int| 0 <= i < looks.len() implies !#[trigger] look_starts(s, looks, i) by {
            assert(looks.take(looks.len() - 1) =~= before);
            if i < before.len() {
                assert(looks.take(i) =~= before.take(i));
                assert(!look_starts(s, before, i));
            }
        }
    }
}

/// Pgpool that runs is never started, and a look that failed changes nothing.
pub proof fn law_running_pgpool_is_left_alone(s: PgpoolSupervisor, e: String, now: u64)
    ensures
        !s.starts(Ok(true), now),
        s.ticked(Ok(true), now).started_count == s.started_count,
        !s.starts(Err(e), now),
        s.ticked(Err(e), now) == s,
{
}

/// Pgpool is started exactly where it was seen down, fewer starts in a row have
/// failed than the cap, and the gap has passed since the last start, if there
/// was one. A start notes its time and is counted; pgpool that was seen running
/// has the failures forgotten; nothing else changes.
pub proof fn law_when_pgpool_is_started(
    s: PgpoolSupervisor,
    running: Result<bool, String>,
    now: u64,
)
    ensures
        s.starts(running, now) <==> running is Ok && !running->Ok_0 && s.consecutive_failures
            < s.max_consecutive_failures && (s.last_attempt is None || now - s.last_attempt->0
            >= s.min_attempt_gap_ms),
        ({
            let t = s.ticked(running, now);
            &&& t.tick_ms == s.tick_ms && t.min_attempt_gap_ms == s.min_attempt_gap_ms
                && t.max_consecutive_failures == s.max_consecutive_failures
            &&& t.consecutive_failures == if running is Ok && running->Ok_0 {
                0
            } else {
                s.consecutive_failures
            }
            &&& t.last_attempt == if s.starts(running, now) {
                Some(now)
            } else {
                s.last_attempt
            }
            &&& !s.starts(running, now) ==> t.started_count == s.started_count
            &&& s.starts(running, now) && s.started_count < usize::MAX ==> t.started_count
                == s.started_count + 1
        }),
{
}

/// A start that is tried at startup notes its time and is counted, whatever
/// came before; it is tried exactly where the supervisor has not given up.
pub proof fn law_startup_is_not_held_up(s: PgpoolSupervisor, now: u64)
    ensures
        s.given_up() <==> s.consecutive_failures >= s.max_consecutive_failures,
        s.attempted(now).last_attempt == Some(now),
        s.attempted(now).consecutive_failures == s.consecutive_failures,
        s.started_count < usize::MAX ==> s.attempted(now).started_count == s.started_count + 1,
        s.cooling(now) <==> s.last_attempt is Some && now - s.last_attempt->0
            < s.min_attempt_gap_ms,
{
}

} // verus!
