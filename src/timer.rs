use vstd::prelude::*;

use std::sync::atomic::{AtomicU8, Ordering};

verus! {

/// The counter one tick later: one less, but never below zero.
pub open spec fn countdown(v: u8) -> u8 {
    if v > 0 {
        (v - 1) as u8
    } else {
        0
    }
}

/// The counter `n` ticks later.
pub open spec fn countdown_n(v: u8, n: nat) -> u8
    decreases n,
{
    if n == 0 {
        v
    } else {
        countdown(countdown_n(v, (n - 1) as nat))
    }
}

/// After `n` ticks a counter loaded with `v` holds `v - n`, or zero once `n`
/// reaches `v`; ticking a counter at zero leaves it at zero.
pub proof fn lemma_countdown_settles(v: u8, n: nat)
    ensures
        countdown_n(v, n) == if n >= v {
            0
        } else {
            v - n
        },
        countdown(0) == 0,
    decreases n,
{
    if n > 0 {
        lemma_countdown_settles(v, (n - 1) as nat);
    }
}

/// The decrement that a tick applies to the stored value, or `None` where the
/// counter is at zero and is left alone.
pub fn countdown_step(v: u8) -> (r: Option<u8>)
    ensures
        v > 0 ==> r == Some(countdown(v)),
        v == 0 ==> r is None,
{
    if v > 0 {
        Some(v - 1)
    } else {
        None
    }
}

/// Relies on `AtomicU8::fetch_update`: it applies `countdown_step` to the
/// stored value atomically, retrying on interference, and returns `Ok` with the
/// value it replaced where the step gave `Some`, `Err` with the value it found
/// where the step gave `None`.
#[verifier::external_body]
fn atomic_countdown(value: &AtomicU8) -> (r: Result<u8, u8>)
    ensures
        r matches Ok(prev) ==> prev > 0,
        r matches Err(prev) ==> prev == 0,
{
    value.fetch_update(Ordering::SeqCst, Ordering::Relaxed, |v| countdown_step(v))
}

/// An 8-bit countdown counter shared between the engine, which loads and reads
/// it, and the clock, which ticks it. Another thread may change the value
/// between any two calls, so no call promises what a later one sees.
pub struct Timer {
    value: AtomicU8,
}

impl Timer {
    /// A counter at zero.
    pub fn new() -> (t: Timer) {
        Timer { value: AtomicU8::new(0) }
    }

    /// Sets the counter.
    pub fn load(&self, val: u8) {
        self.value.store(val, Ordering::Relaxed);
    }

    /// The counter's current value.
    pub fn get(&self) -> (r: u8) {
        self.value.load(Ordering::Relaxed)
    }

    /// Takes one from the counter in a single atomic step, unless it is at
    /// zero: a concurrent load is never lost and the value never wraps.
    pub fn tick(&self) {
        let _ = atomic_countdown(&self.value);
    }
}

} // verus!
