//! The repeating timer behind an interval property, as plain nanosecond
//! counts, and what a run of ticks does to it.

use bevy_time::{Timer, TimerMode};
use core::time::Duration;
use vstd::prelude::*;

verus! {

/// Whether a repeating timer that stands at `elapsed` completes its period
/// when it is advanced by `delta`.
pub open spec fn timer_fires(period: nat, elapsed: nat, delta: nat) -> bool {
    elapsed + delta >= period
}

/// Where a repeating timer that stood at `elapsed` stands after it is
/// advanced by `delta`: whole periods are dropped.
pub open spec fn timer_wraps_to(period: nat, elapsed: nat, delta: nat) -> nat {
    (elapsed + delta) % period
}

/// The time that a run of ticks covers.
pub open spec fn total(deltas: Seq<nat>) -> nat
    decreases deltas.len(),
{
    if deltas.len() == 0 {
        0
    } else {
        total(deltas.drop_last()) + deltas.last()
    }
}

/// One `Timer::tick` of a `bevy_time::Timer`, all times in nanoseconds: the
/// timer is made by `Timer::new` with the given period in
/// `TimerMode::Repeating`, put at `elapsed` by `Timer::set_elapsed`, and
/// ticked by `delta`. What comes back is `Timer::elapsed` and
/// `Timer::finished` after the tick. Such a timer is finished when the time
/// on it has reached the period, and it then keeps only what is left over
/// after whole periods; otherwise it keeps all of the time.
#[verifier::external_body]
pub(crate) fn tick_repeating(period: u64, elapsed: u64, delta: u64) -> (after: (u64, bool))
    requires
        period > 0,
        elapsed < period,
    ensures
        after.0 == timer_wraps_to(period as nat, elapsed as nat, delta as nat),
        after.1 == timer_fires(period as nat, elapsed as nat, delta as nat),
{
    let mut timer = Timer::new(Duration::from_nanos(period), TimerMode::Repeating);
    timer.set_elapsed(Duration::from_nanos(elapsed));
    timer.tick(Duration::from_nanos(delta));
    (timer.elapsed().as_nanos() as u64, timer.finished())
}

/// A tick leaves less than one period on the timer, however long it was: a
/// tick of no time right after it completes nothing, so no firing is ever
/// owed from an earlier tick.
pub proof fn lemma_nothing_carried_over(period: nat, elapsed: nat, delta: nat)
    requires
        period > 0,
    ensures
        timer_wraps_to(period, elapsed, delta) < period,
        !timer_fires(period, timer_wraps_to(period, elapsed, delta), 0),
{
    assert(((elapsed + delta) as int) % (period as int) < period) by (nonlinear_arith)
        requires
            period > 0,
    ;
}

/// A tick that does not reach the period completes nothing and keeps all
/// of its time on the timer.
pub proof fn lemma_short_tick_is_quiet(period: nat, elapsed: nat, delta: nat)
    requires
        elapsed + delta < period,
    ensures
        !timer_fires(period, elapsed, delta),
        timer_wraps_to(period, elapsed, delta) == elapsed + delta,
{
    assert(((elapsed + delta) as int) % (period as int) == elapsed + delta) by (nonlinear_arith)
        requires
            0 <= elapsed + delta < period,
    ;
}

} // verus!
