use vstd::prelude::*;

use std::collections::VecDeque;
use std::time::Instant;

verus! {

#[verifier::external_type_specification]
#[verifier::external_body]
pub struct ExInstant(Instant);

/// Relies on std's `Instant::now`: a reading of the monotonic clock.
#[verifier::external_body]
fn clock_now() -> Instant {
    Instant::now()
}

/// Relies on std's `Instant::elapsed`: the whole milliseconds since `origin`.
/// Nothing is promised of the reading itself.
#[verifier::external_body]
fn millis_since(origin: &Instant) -> u64 {
    origin.elapsed().as_millis() as u64
}

/// Milliseconds from `t` to `now`, or zero when `now` is earlier.
pub open spec fn elapsed_ms(t: u64, now: u64) -> int {
    if now >= t {
        now - t
    } else {
        0
    }
}

/// An entry recorded at `t` has left a window of `timeout` milliseconds by `now`.
pub open spec fn expired(t: u64, now: u64, timeout: u64) -> bool {
    elapsed_ms(t, now) >= timeout
}

/// The window with its leading expired entries removed.
pub open spec fn purge(window: Seq<u64>, now: u64, timeout: u64) -> Seq<u64>
    decreases window.len(),
{
    if window.len() > 0 && expired(window[0], now, timeout) {
        purge(window.drop_first(), now, timeout)
    } else {
        window
    }
}

/// The time at which an entry recorded at `t` leaves the window, capped at the largest `u64`.
pub open spec fn deadline(t: u64, timeout: u64) -> u64 {
    if t + timeout <= u64::MAX {
        (t + timeout) as u64
    } else {
        u64::MAX
    }
}

/// The window after an admission test at `now`: the purged window, with `now`
/// added when it was empty.
pub open spec fn window_after_accept(window: Seq<u64>, now: u64, timeout: u64) -> Seq<u64> {
    let w = purge(window, now, timeout);
    if w.len() == 0 {
        seq![now]
    } else {
        w
    }
}

/// The answer of an admission test at `now`: admitted when the purged window is
/// empty, else the time at which its oldest entry expires.
pub open spec fn accept_answer(window: Seq<u64>, now: u64, timeout: u64) -> Result<(), u64> {
    let w = purge(window, now, timeout);
    if w.len() == 0 {
        Ok(())
    } else {
        Err(deadline(w[0], timeout))
    }
}

/// Purging never adds entries.
pub proof fn lemma_purge_shrinks(window: Seq<u64>, now: u64, timeout: u64)
    ensures
        purge(window, now, timeout).len() <= window.len(),
    decreases window.len(),
{
    if window.len() > 0 && expired(window[0], now, timeout) {
        lemma_purge_shrinks(window.drop_first(), now, timeout);
    }
}

/// After an admission at `t` into an empty window, a second test less than
/// `timeout` later is refused, and one `timeout` or more later is admitted.
pub proof fn lemma_one_admission_per_window(t: u64, later: u64, timeout: u64)
    requires
        t <= later,
    ensures
        accept_answer(Seq::<u64>::empty(), t, timeout) is Ok,
        window_after_accept(Seq::<u64>::empty(), t, timeout) == seq![t],
        later - t < timeout ==> accept_answer(seq![t], later, timeout) == Err::<(), u64>(
            deadline(t, timeout),
        ),
        later - t >= timeout ==> accept_answer(seq![t], later, timeout) is Ok,
{
    assert(purge(Seq::<u64>::empty(), t, timeout) == Seq::<u64>::empty());
    assert(seq![t].drop_first() =~= Seq::<u64>::empty());
    assert(purge(Seq::<u64>::empty(), later, timeout) == Seq::<u64>::empty());
}

/// A sliding-window admission limiter: at most one event is admitted per window of
/// `timeout` milliseconds. Times are milliseconds on the limiter's own clock, which starts at zero.
pub struct Throttle {
    timeout: u64,
    deque: VecDeque<u64>,
    origin: Instant,
}

impl Throttle {
    /// The window length in milliseconds.
    pub closed spec fn timeout_ms(&self) -> u64 {
        self.timeout
    }

    /// The admission times still held, oldest first.
    pub closed spec fn window(&self) -> Seq<u64> {
        self.deque@
    }

    /// The window never holds more than one admitted event.
    pub closed spec fn wf(&self) -> bool {
        self.deque@.len() <= 1
    }

    /// A limiter with an empty window of `timeout_ms` milliseconds.
    pub fn new(timeout_ms: u64) -> (r: Throttle)
        ensures
            r.wf(),
            r.timeout_ms() == timeout_ms,
            r.window() == Seq::<u64>::empty(),
    {
        Throttle { timeout: timeout_ms, deque: VecDeque::new(), origin: clock_now() }
    }

    /// Drops the entries that have left the window by `now`.
    pub fn flush_at(&mut self, now: u64)
        requires
            old(self).wf(),
        ensures
            final(self).wf(),
            final(self).timeout_ms() == old(self).timeout_ms(),
            final(self).window() == purge(old(self).window(), now, old(self).timeout_ms()),
    {
        proof {
            lemma_purge_shrinks(self.deque@, now, self.timeout);
        }
        let mut done = false;
        while !done && self.deque.len() > 0
            invariant
                self.timeout == old(self).timeout,
                purge(self.deque@, now, self.timeout) == purge(
                    old(self).deque@,
                    now,
                    self.timeout,
                ),
                done ==> purge(self.deque@, now, self.timeout) == self.deque@,
                self.deque@.len() <= old(self).deque@.len(),
            decreases self.deque@.len(), if done { 0int } else { 1int },
        {
            let first = self.deque[0];
            let gone = if now >= first {
                now - first >= self.timeout
            } else {
                self.timeout == 0
            };
            if gone {
                let ghost before = self.deque@;
                self.deque.pop_front();
                assert(self.deque@ == before.drop_first());
            } else {
                done = true;
            }
        }
    }

    /// The number of entries still in the window at `now`, after dropping the rest.
    pub fn size_at(&mut self, now: u64) -> (r: usize)
        requires
            old(self).wf(),
        ensures
            final(self).wf(),
            final(self).timeout_ms() == old(self).timeout_ms(),
            final(self).window() == purge(old(self).window(), now, old(self).timeout_ms()),
            r == final(self).window().len(),
    {
        self.flush_at(now);
        self.deque.len()
    }

    /// Whether an event at `now` would be admitted.
    pub fn available_at(&mut self, now: u64) -> (r: bool)
        requires
            old(self).wf(),
        ensures
            final(self).wf(),
            final(self).timeout_ms() == old(self).timeout_ms(),
            final(self).window() == purge(old(self).window(), now, old(self).timeout_ms()),
            r == (purge(old(self).window(), now, old(self).timeout_ms()).len() == 0),
    {
        self.size_at(now) < 1
    }

    /// Admits an event at `now` when the window is empty and records it; otherwise
    /// returns the time at which the oldest entry leaves the window.
    pub fn accept_at(&mut self, now: u64) -> (r: Result<(), u64>)
        requires
            old(self).wf(),
        ensures
            final(self).wf(),
            final(self).timeout_ms() == old(self).timeout_ms(),
            final(self).window() == window_after_accept(
                old(self).window(),
                now,
                old(self).timeout_ms(),
            ),
            r == accept_answer(old(self).window(), now, old(self).timeout_ms()),
    {
        self.flush_at(now);
        if self.deque.len() >= 1 {
            let first = self.deque[0];
            let until = if first <= u64::MAX - self.timeout {
                first + self.timeout
            } else {
                u64::MAX
            };
            return Err(until);
        }
        self.deque.push_back(now);
        assert(self.deque@ == seq![now]);
        Ok(())
    }

    /// The current reading of the limiter's clock, in milliseconds.
    pub fn now_ms(&self) -> u64 {
        millis_since(&self.origin)
    }

    /// Drops the entries that have left the window by the current time.
    pub fn flush(&mut self)
        requires
            old(self).wf(),
        ensures
            final(self).wf(),
            final(self).timeout_ms() == old(self).timeout_ms(),
            exists|now: u64|
                final(self).window() == purge(old(self).window(), now, old(self).timeout_ms()),
    {
        let now = millis_since(&self.origin);
        self.flush_at(now);
    }

    /// The number of entries still in the window at the current time.
    pub fn size(&mut self) -> (r: usize)
        requires
            old(self).wf(),
        ensures
            final(self).wf(),
            final(self).timeout_ms() == old(self).timeout_ms(),
            exists|now: u64|
                final(self).window() == purge(old(self).window(), now, old(self).timeout_ms()),
            r == final(self).window().len(),
    {
        let now = millis_since(&self.origin);
        self.size_at(now)
    }

    /// Whether an event now would be admitted.
    pub fn available(&mut self) -> (r: bool)
        requires
            old(self).wf(),
        ensures
            final(self).wf(),
            final(self).timeout_ms() == old(self).timeout_ms(),
            exists|now: u64|
                final(self).window() == purge(old(self).window(), now, old(self).timeout_ms())
                    && r == (final(self).window().len() == 0),
    {
        let now = millis_since(&self.origin);
        self.available_at(now)
    }

    /// Admits an event now when the window is empty; otherwise returns the time,
    /// on the limiter's clock, at which the oldest entry leaves.
    pub fn accept(&mut self) -> (r: Result<(), u64>)
        requires
            old(self).wf(),
        ensures
            final(self).wf(),
            final(self).timeout_ms() == old(self).timeout_ms(),
            exists|now: u64|
                final(self).window() == window_after_accept(
                    old(self).window(),
                    now,
                    old(self).timeout_ms(),
                ) && r == accept_answer(old(self).window(), now, old(self).timeout_ms()),
    {
        let now = millis_since(&self.origin);
        self.accept_at(now)
    }
}

} // verus!
