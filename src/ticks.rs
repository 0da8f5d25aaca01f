//! Monotonic timer-tick counter that paces the calendar clock.
use vstd::prelude::*;

verus! {

/// Timer interrupts per second of clock time (the timer runs at about 1 kHz).
pub const TICKS_PER_SECOND: usize = 1000;

/// The counter value after one more interrupt; it wraps at the end of the
/// machine word as an atomic add does.
pub open spec fn next_count(count: usize) -> usize {
    if count == usize::MAX {
        0
    } else {
        (count + 1) as usize
    }
}

/// The counter value after `n` interrupts from `start`.
pub open spec fn count_after(start: usize, n: nat) -> usize
    decreases n,
{
    if n == 0 {
        start
    } else {
        next_count(count_after(start, (n - 1) as nat))
    }
}

/// Whether a counter value marks the passing of one clock second.
pub open spec fn second_boundary(count: usize) -> bool {
    count % TICKS_PER_SECOND == 0
}

/// Counts timer interrupts from zero; never reset.
pub struct TickCounter {
    count: usize,
}

impl View for TickCounter {
    type V = usize;

    closed spec fn view(&self) -> usize {
        self.count
    }
}

impl TickCounter {
    pub fn new() -> (r: TickCounter)
        ensures
            r@ == 0,
    {
        TickCounter { count: 0 }
    }

    pub fn value(&self) -> (r: usize)
        ensures
            r == self@,
    {
        self.count
    }

    /// Records one timer interrupt. Returns whether the new count completes a
    /// second, in which case the clock is to advance by one second.
    pub fn tick(&mut self) -> (advance_clock: bool)
        ensures
            final(self)@ == next_count(old(self)@),
            advance_clock == second_boundary(final(self)@),
    {
        self.count = self.count.wrapping_add(1);
        self.count % TICKS_PER_SECOND == 0
    }
}

/// `n` timer interrupts raise the counter by exactly `n`, and no prefix of
/// them lowers it, as long as the count stays within the machine word.
pub proof fn lemma_ticks_advance_exactly(start: usize, n: nat)
    requires
        start + n <= usize::MAX,
    ensures
        count_after(start, n) == start + n,
        forall|m: nat| m <= n ==> #[trigger] count_after(start, m) == start + m,
        forall|m1: nat, m2: nat|
            m1 <= m2 <= n ==> #[trigger] count_after(start, m1) <= #[trigger] count_after(start, m2),
    decreases n,
{
    if n > 0 {
        lemma_ticks_advance_exactly(start, (n - 1) as nat);
    }
    assert forall|m: nat| m <= n implies #[trigger] count_after(start, m) == start + m by {
        if m < n {
            lemma_ticks_advance_exactly(start, (n - 1) as nat);
        }
    }
}

} // verus!
