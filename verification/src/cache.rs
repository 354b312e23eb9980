//! A time-windowed memoization cell.
//!
//! [`Memoized`] keeps the last produced value together with the time it was
//! produced. A read within the freshness window serves that value; the first
//! read after the window triggers exactly one refresh, and readers that
//! arrive while that refresh is in flight wait for its result instead of
//! triggering their own. The producer itself (a database aggregation, a page
//! fetch) is run by the caller: [`Memoized::get`] only decides, and
//! [`Memoized::complete`] records what the producer returned.
//!
//! Failure policy: a failed production keeps the last good value and does
//! not advance the freshness timestamp, so the next reader retries at once
//! instead of locking the failure in for a whole window.
use vstd::prelude::*;

verus! {

/// The last produced value and the moment (milliseconds) it was produced.
pub struct Cached<T> {
    /// When `value` was produced, in milliseconds on the caller's monotone clock.
    pub at: u64,
    /// The last successfully produced value.
    pub value: T,
}

/// What a read decided: serve the cached value, produce a fresh one, or wait
/// for the refresh that another reader already triggered.
#[derive(Clone, Copy, Debug, PartialEq, Eq, Structural)]
pub enum GetOutcome {
    /// The cached value is within its freshness window: read it.
    Fresh,
    /// The cached value is stale and no refresh is in flight: this caller must
    /// run the producer and then call [`Memoized::complete`].
    MustProduce,
    /// A refresh is already in flight: wait for its completion, then read.
    Wait,
}

/// The mathematical state of a [`Memoized`] cell.
pub ghost struct CacheState<T> {
    /// Freshness window in milliseconds.
    pub window: int,
    /// When the current value was produced.
    pub produced_at: int,
    /// The current (last good) value.
    pub value: T,
    /// Whether a refresh is in flight.
    pub refreshing: bool,
    /// How many producer runs have been triggered so far (the initial fill counts).
    pub productions: int,
}

/// What one call of [`Memoized::get`] at time `now` does to the state, and
/// what it answers. A refresh in flight always wins; otherwise a value inside
/// its window is served, and only a stale value with no refresh in flight
/// starts a new production.
pub open spec fn spec_get<T>(s: CacheState<T>, now: int) -> (CacheState<T>, GetOutcome) {
    if s.refreshing {
        (s, GetOutcome::Wait)
    } else if now - s.produced_at < s.window {
        (s, GetOutcome::Fresh)
    } else {
        (
            CacheState { refreshing: true, productions: s.productions + 1, ..s },
            GetOutcome::MustProduce,
        )
    }
}

/// What recording a producer's outcome does to the state: a produced value
/// replaces the cached one and restarts the window at `now`; a failure keeps
/// the last good value and leaves the timestamp alone, so the next read
/// retries immediately.
pub open spec fn spec_complete<T>(s: CacheState<T>, now: int, produced: Option<T>) -> CacheState<T> {
    match produced {
        Some(v) => CacheState { value: v, produced_at: now, refreshing: false, ..s },
        None => CacheState { refreshing: false, ..s },
    }
}

/// The state after a sequence of reads at the given times, with no completion
/// in between.
pub open spec fn run_gets<T>(s: CacheState<T>, times: Seq<int>) -> CacheState<T>
    decreases times.len(),
{
    if times.len() == 0 {
        s
    } else {
        run_gets(spec_get(s, times[0]).0, times.subrange(1, times.len() as int))
    }
}

/// A memoization cell: the cached value, its freshness window, and the
/// refresh-in-flight flag that keeps productions single-flight.
pub struct Memoized<T> {
    timeout: u64,
    cached: Cached<T>,
    refreshing: bool,
    productions: Ghost<int>,
}

impl<T> Memoized<T> {
    /// The mathematical state of this cell.
    pub closed spec fn model(&self) -> CacheState<T> {
        CacheState {
            window: self.timeout as int,
            produced_at: self.cached.at as int,
            value: self.cached.value,
            refreshing: self.refreshing,
            productions: self.productions@,
        }
    }

    /// Creates a cell already filled with the value the caller produced at
    /// time `now` (the synchronous initial fill, which counts as the first
    /// production).
    pub fn new(timeout: u64, now: u64, initial: T) -> (c: Self)
        ensures
            c.model() == (CacheState {
                window: timeout as int,
                produced_at: now as int,
                value: initial,
                refreshing: false,
                productions: 1int,
            }),
    {
        Memoized {
            timeout,
            cached: Cached { at: now, value: initial },
            refreshing: false,
            productions: Ghost(1int),
        }
    }

    /// Decides what a reader arriving at time `now` must do, and — when the
    /// cached value is stale and nobody else is refreshing — claims the single
    /// refresh slot for this reader.
    pub fn get(&mut self, now: u64) -> (o: GetOutcome)
        requires
            now >= old(self).model().produced_at,
        ensures
            final(self).model() == spec_get(old(self).model(), now as int).0,
            o == spec_get(old(self).model(), now as int).1,
    {
        if self.refreshing {
            GetOutcome::Wait
        } else if now - self.cached.at < self.timeout {
            GetOutcome::Fresh
        } else {
            self.refreshing = true;
            proof {
                self.productions@ = self.productions@ + 1;
            }
            GetOutcome::MustProduce
        }
    }

    /// Records the outcome of the in-flight production: `Some(v)` installs the
    /// fresh value at time `now`; `None` (the producer failed) keeps the last
    /// good value and does not advance the freshness timestamp.
    pub fn complete(&mut self, now: u64, produced: Option<T>)
        requires
            old(self).model().refreshing,
            now >= old(self).model().produced_at,
        ensures
            final(self).model() == spec_complete(old(self).model(), now as int, produced),
    {
        self.refreshing = false;
        match produced {
            Some(v) => {
                self.cached = Cached { at: now, value: v };
            },
            None => {},
        }
    }

    /// Reads the current (last good) value.
    pub fn read(&self) -> (v: &T)
        ensures
            *v == self.model().value,
    {
        &self.cached.value
    }
}

/// Freshness bound: reads within the freshness window of the last production
/// trigger no production at all and leave the cell untouched.
pub proof fn lemma_freshness_bound<T>(s: CacheState<T>, times: Seq<int>)
    requires
        !s.refreshing,
        forall|i: int| 0 <= i < times.len() ==> s.produced_at <= #[trigger] times[i] < s.produced_at + s.window,
    ensures
        run_gets(s, times) == s,
    decreases times.len(),
{
    if times.len() > 0 {
        assert(spec_get(s, times[0]).0 == s);
        lemma_freshness_bound(s, times.subrange(1, times.len() as int));
    }
}

/// While a refresh is in flight, readers only wait: no sequence of reads
/// changes the cell, and in particular none triggers a second production.
pub proof fn lemma_refreshing_reads_wait<T>(s: CacheState<T>, times: Seq<int>)
    requires
        s.refreshing,
    ensures
        run_gets(s, times) == s,
    decreases times.len(),
{
    if times.len() > 0 {
        assert(spec_get(s, times[0]).0 == s);
        lemma_refreshing_reads_wait(s, times.subrange(1, times.len() as int));
    }
}

/// Without a completion there is at most one production: whatever times
/// readers arrive at, until the triggered refresh completes the producer is
/// invoked at most once more than before.
pub proof fn lemma_at_most_one_production<T>(s: CacheState<T>, times: Seq<int>)
    requires
        !s.refreshing,
    ensures
        run_gets(s, times).productions <= s.productions + 1,
    decreases times.len(),
{
    if times.len() > 0 {
        let (s1, o) = spec_get(s, times[0]);
        let rest = times.subrange(1, times.len() as int);
        if s1.refreshing {
            lemma_refreshing_reads_wait(s1, rest);
        } else {
            lemma_at_most_one_production(s1, rest);
        }
    }
}

/// Single-flight: when a stale, idle cell is read at time `t`, that read
/// triggers exactly one production; every concurrent read before completion
/// waits and changes nothing; and once the refresh completes with value `v`,
/// the cell holds exactly `v` — so every waiting reader receives that same
/// value.
pub proof fn lemma_single_flight<T>(s: CacheState<T>, t: int, waiters: Seq<int>, t_done: int, v: T)
    requires
        !s.refreshing,
        t - s.produced_at >= s.window,
    ensures
        spec_get(s, t).1 == GetOutcome::MustProduce,
        spec_get(s, t).0.productions == s.productions + 1,
        run_gets(spec_get(s, t).0, waiters) == spec_get(s, t).0,
        spec_complete(run_gets(spec_get(s, t).0, waiters), t_done, Some(v)).value == v,
{
    lemma_refreshing_reads_wait(spec_get(s, t).0, waiters);
}

/// One interaction with a cell: a read at some time, or the completion of
/// the refresh in flight.
pub ghost enum CacheEvent<T> {
    /// A read at time `now`.
    Get { now: int },
    /// The in-flight refresh completed at `now` with this outcome.
    Complete { now: int, produced: Option<T> },
}

/// The state after one interaction. A completion without a refresh in
/// flight changes nothing (the cell's `complete` is only called by the
/// reader that triggered the refresh).
pub open spec fn spec_step<T>(s: CacheState<T>, e: CacheEvent<T>) -> CacheState<T> {
    match e {
        CacheEvent::Get { now } => spec_get(s, now).0,
        CacheEvent::Complete { now, produced } => if s.refreshing {
            spec_complete(s, now, produced)
        } else {
            s
        },
    }
}

/// The state after a sequence of interactions.
pub open spec fn run_events<T>(s: CacheState<T>, events: Seq<CacheEvent<T>>) -> CacheState<T>
    decreases events.len(),
{
    if events.len() == 0 {
        s
    } else {
        run_events(spec_step(s, events[0]), events.subrange(1, events.len() as int))
    }
}

/// How many of the interactions are completions.
pub open spec fn count_completions<T>(events: Seq<CacheEvent<T>>) -> int
    decreases events.len(),
{
    if events.len() == 0 {
        0
    } else {
        (if events[0] is Complete {
            1int
        } else {
            0int
        }) + count_completions(events.subrange(1, events.len() as int))
    }
}

/// Productions are paced by completions: over any sequence of reads and
/// completions, the producer is triggered at most once more than the number
/// of refreshes that completed — a new production cannot start before the
/// previous one has finished.
pub proof fn lemma_productions_paced_by_completions<T>(
    s: CacheState<T>,
    events: Seq<CacheEvent<T>>,
)
    ensures
        run_events(s, events).productions <= s.productions + 1 + count_completions(events),
        s.refreshing ==> run_events(s, events).productions <= s.productions + count_completions(
            events,
        ),
    decreases events.len(),
{
    if events.len() > 0 {
        let s1 = spec_step(s, events[0]);
        let rest = events.subrange(1, events.len() as int);
        lemma_productions_paced_by_completions(s1, rest);
    }
}

/// Stale-on-failure: if the in-flight refresh fails, the cell still holds the
/// value it was primed with, and the freshness timestamp has not moved, so
/// the next stale read retries the producer instead of caching the failure.
pub proof fn lemma_stale_on_failure<T>(s: CacheState<T>, t_done: int)
    requires
        s.refreshing,
    ensures
        spec_complete(s, t_done, None::<T>).value == s.value,
        spec_complete(s, t_done, None::<T>).produced_at == s.produced_at,
        !spec_complete(s, t_done, None::<T>).refreshing,
{
}

} // verus!

