//! A minimum-interval gate: the shared core of the trigger debouncer and of
//! the alert rate limiter.
use vstd::prelude::*;

verus! {

/// Whether an occurrence at `now` may pass, given the time of the last one
/// that passed (`None`: nothing has passed yet) and the minimum interval.
/// Times are milliseconds on a monotonic clock.
pub open spec fn admits(last: Option<u64>, min_interval: u64, now: u64) -> bool {
    match last {
        None => true,
        Some(l) => now - l > min_interval,
    }
}

/// Remembers when an occurrence last passed and lets a new one through only
/// when strictly more than `min_interval` milliseconds have elapsed since.
#[derive(Clone, Copy, Debug, PartialEq, Eq)]
pub struct IntervalGate {
    pub last: Option<u64>,
    pub min_interval: u64,
}

/// The time of the last pass after the first `n` occurrences of `times`
/// went through a gate that started with `init`.
pub open spec fn last_after(min_interval: u64, init: Option<u64>, times: Seq<u64>, n: nat) -> Option<u64>
    decreases n,
{
    if n == 0 {
        init
    } else {
        let prev = last_after(min_interval, init, times, (n - 1) as nat);
        if admits(prev, min_interval, times[n - 1]) {
            Some(times[n - 1])
        } else {
            prev
        }
    }
}

/// Whether occurrence `i` of `times` passes a gate that started with `init`.
pub open spec fn passes(min_interval: u64, init: Option<u64>, times: Seq<u64>, i: nat) -> bool {
    admits(last_after(min_interval, init, times, i), min_interval, times[i as int])
}

impl IntervalGate {
    /// A gate that has let nothing through yet.
    pub fn new(min_interval: u64) -> (r: IntervalGate)
        ensures
            r.last == None::<u64>,
            r.min_interval == min_interval,
    {
        IntervalGate { last: None, min_interval }
    }

    /// Forgets the last pass, so that the next occurrence passes.
    pub fn reset(&mut self)
        ensures
            final(self).last == None::<u64>,
            final(self).min_interval == old(self).min_interval,
    {
        self.last = None;
    }

    /// Offers an occurrence at `now`. It passes exactly when `admits` says so;
    /// then `now` becomes the last pass. One that does not pass leaves the
    /// gate as it was.
    pub fn try_pass(&mut self, now: u64) -> (r: bool)
        ensures
            r == admits(old(self).last, old(self).min_interval, now),
            r ==> *final(self) == (IntervalGate { last: Some(now), min_interval: old(self).min_interval }),
            !r ==> *final(self) == *old(self),
    {
        let open = match self.last {
            None => true,
            Some(l) => now > l && now - l > self.min_interval,
        };
        if open {
            self.last = Some(now);
        }
        open
    }

    /// Offers each time of `times` in turn and reports which passed.
    pub fn pass_all(&mut self, times: &Vec<u64>) -> (r: Vec<bool>)
        ensures
            r@.len() == times@.len(),
            forall|i: int|
                0 <= i < times@.len() ==> r@[i] == #[trigger] passes(
                    old(self).min_interval,
                    old(self).last,
                    times@,
                    i as nat,
                ),
            final(self).last == last_after(old(self).min_interval, old(self).last, times@, times@.len()),
            final(self).min_interval == old(self).min_interval,
    {
        let ghost init = self.last;
        let mut r: Vec<bool> = Vec::new();
        let mut i: usize = 0;
        while i < times.len()
            invariant
                i <= times@.len(),
                r@.len() == i,
                self.min_interval == old(self).min_interval,
                self.last == last_after(self.min_interval, init, times@, i as nat),
                forall|j: int|
                    0 <= j < i ==> r@[j] == #[trigger] passes(self.min_interval, init, times@, j as nat),
            decreases times@.len() - i,
        {
            let passed = self.try_pass(times[i]);
            r.push(passed);
            i = i + 1;
        }
        r
    }
}

/// What `last_after` is: nothing before `n` passed and it is still the
/// initial `None`, or it is the time of the last occurrence before `n` that
/// passed.
proof fn lemma_last_after_is_last_pass(min_interval: u64, times: Seq<u64>, n: nat)
    requires
        n <= times.len(),
    ensures
        last_after(min_interval, None, times, n) is None <==> (forall|j: nat|
            j < n ==> !#[trigger] passes(min_interval, None, times, j)),
        last_after(min_interval, None, times, n) is Some ==> exists|j: nat|
            j < n && #[trigger] passes(min_interval, None, times, j)
                && last_after(min_interval, None, times, n) == Some(times[j as int])
                && (forall|k: nat| j < k < n ==> !#[trigger] passes(min_interval, None, times, k)),
    decreases n,
{
    if n > 0 {
        let m = (n - 1) as nat;
        lemma_last_after_is_last_pass(min_interval, times, m);
        if passes(min_interval, None, times, m) {
            assert(last_after(min_interval, None, times, n) == Some(times[m as int]));
            assert(forall|k: nat| m < k < n ==> !#[trigger] passes(min_interval, None, times, k));
        } else {
            assert(last_after(min_interval, None, times, n) == last_after(min_interval, None, times, m));
            if last_after(min_interval, None, times, m) is Some {
                let j = choose|j: nat|
                    j < m && #[trigger] passes(min_interval, None, times, j)
                        && last_after(min_interval, None, times, m) == Some(times[j as int])
                        && (forall|k: nat| j < k < m ==> !#[trigger] passes(min_interval, None, times, k));
                assert(forall|k: nat| j < k < n ==> !#[trigger] passes(min_interval, None, times, k));
            }
        }
    }
}

/// A gate that starts empty lets occurrence `i` of a sequence through exactly
/// when none before it passed, or when more than the minimum interval has
/// elapsed since the last one before it that passed. This holds of trigger
/// edges at the debouncer and of received notifications at the rate limiter.
pub proof fn lemma_passes_iff_interval_since_last_pass(min_interval: u64, times: Seq<u64>, i: nat)
    requires
        i < times.len(),
    ensures
        passes(min_interval, None, times, i) <==> (
            (forall|j: nat| j < i ==> !#[trigger] passes(min_interval, None, times, j))
            || exists|j: nat|
                j < i && #[trigger] passes(min_interval, None, times, j)
                    && (forall|k: nat| j < k < i ==> !#[trigger] passes(min_interval, None, times, k))
                    && times[i as int] - times[j as int] > min_interval),
{
    lemma_last_after_is_last_pass(min_interval, times, i);
    if last_after(min_interval, None, times, i) is Some {
        let j0 = choose|j: nat|
            j < i && #[trigger] passes(min_interval, None, times, j)
                && last_after(min_interval, None, times, i) == Some(times[j as int])
                && (forall|k: nat| j < k < i ==> !#[trigger] passes(min_interval, None, times, k));
        assert forall|j: nat|
            j < i && #[trigger] passes(min_interval, None, times, j)
                && (forall|k: nat| j < k < i ==> !#[trigger] passes(min_interval, None, times, k))
        implies j == j0 by {
            if j < j0 {
                assert(passes(min_interval, None, times, j0));
            } else if j0 < j {
                assert(passes(min_interval, None, times, j));
            }
        }
        assert(!(forall|j: nat| j < i ==> !#[trigger] passes(min_interval, None, times, j)));
    }
}

} // verus!
