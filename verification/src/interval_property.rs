//! A producer behind a repeating timer: a new value when the period runs
//! out, and the last one held in between.
//!
//! All times are whole nanoseconds.

use crate::repeating_timer::{
    lemma_nothing_carried_over, lemma_short_tick_is_quiet, tick_repeating, timer_fires,
    timer_wraps_to, total,
};
use crate::variable_property::{PropertyError, VariableProperty};
use vstd::prelude::*;

verus! {

/// The period of a latch that is built without one: one second.
pub const DEFAULT_INTERVAL: u64 = 1_000_000_000;

/// A producer that is asked for a new value once per period, and the value
/// it gave last.
pub struct IntervalProperty<T: VariableProperty> {
    property: T,
    period: u64,
    elapsed: u64,
    curr: Option<T::Output>,
}

impl<T: VariableProperty> IntervalProperty<T> {
    /// The producer behind the timer.
    pub closed spec fn property(&self) -> T {
        self.property
    }

    /// The timer's period.
    pub closed spec fn period(&self) -> nat {
        self.period as nat
    }

    /// The time on the timer since it last completed a period.
    pub closed spec fn elapsed(&self) -> nat {
        self.elapsed as nat
    }

    /// The latched value, if one has been produced or given yet.
    pub closed spec fn current(&self) -> Option<T::Output> {
        self.curr
    }

    /// Whether a tick of `delta` completes the period.
    pub open spec fn fires_on(&self, delta: nat) -> bool {
        timer_fires(self.period(), self.elapsed(), delta)
    }

    /// Whether a tick of `delta` refreshes the latch: it completes the
    /// period, and the producer has a value to give.
    pub open spec fn refreshes_on(&self, delta: nat) -> bool {
        self.fires_on(delta) && self.property().fault() is None
    }

    /// Whether this is `before` one tick of `delta` later: the same producer
    /// and period; the timer advanced, whole periods dropped; and the latch
    /// either refreshed with a value that the producer may give, or left as
    /// it was.
    pub open spec fn ticked_from(&self, before: &Self, delta: nat) -> bool {
        &&& self.property() == before.property()
        &&& self.period() == before.period()
        &&& self.elapsed() == timer_wraps_to(before.period(), before.elapsed(), delta)
        &&& if before.refreshes_on(delta) {
            self.current() is Some && before.property().may_yield(self.current()->Some_0)
        } else {
            self.current() == before.current()
        }
    }

    #[verifier::type_invariant]
    spec fn well_formed(&self) -> bool {
        self.elapsed < self.period
    }

    /// A latch with nothing held yet. The period must be positive.
    pub fn new(property: T, interval: u64) -> (latch: Self)
        requires
            interval > 0,
        ensures
            latch.property() == property,
            latch.period() == interval,
            latch.elapsed() == 0,
            latch.current() is None,
    {
        Self { property, period: interval, elapsed: 0, curr: None }
    }

    /// A latch that holds `init` until the timer first completes its period.
    /// The period must be positive.
    pub fn new_with_initial_value(property: T, interval: u64, init: T::Output) -> (latch: Self)
        requires
            interval > 0,
        ensures
            latch.property() == property,
            latch.period() == interval,
            latch.elapsed() == 0,
            latch.current() == Some(init),
    {
        Self { property, period: interval, elapsed: 0, curr: Some(init) }
    }

    /// A latch that asks the producer for a value at once and holds it until
    /// the timer first completes its period. The period must be positive and
    /// the producer free of faults.
    pub fn new_with_generated_inital_value(property: T, interval: u64) -> (latch: Self)
        requires
            interval > 0,
            property.fault() is None,
        ensures
            latch.property() == property,
            latch.period() == interval,
            latch.elapsed() == 0,
            latch.current() is Some,
            property.may_yield(latch.current()->Some_0),
    {
        let curr = Some(property.get_value());
        Self { property, period: interval, elapsed: 0, curr }
    }

    /// Advances the timer by `delta`. When that completes the period, asks
    /// the producer for one value, latches it, and returns it; otherwise
    /// leaves the latch as it is and returns nothing.
    ///
    /// The producer is asked only when the period completes, so only then
    /// must it be free of faults.
    pub fn tick_value(&mut self, delta: u64) -> (fresh: Option<&T::Output>)
        requires
            old(self).fires_on(delta as nat) ==> old(self).property().fault() is None,
        ensures
            final(self).ticked_from(old(self), delta as nat),
            fresh is Some <==> old(self).fires_on(delta as nat),
            fresh is Some ==> final(self).current() == Some(*fresh->Some_0),
    {
        proof {
            use_type_invariant(&*self);
        }
        let (elapsed, finished) = tick_repeating(self.period, self.elapsed, delta);
        self.elapsed = elapsed;
        if finished {
            self.curr = Some(self.property.get_value());
            self.curr.as_ref()
        } else {
            None
        }
    }

    /// Advances the timer by `delta` as [`IntervalProperty::tick_value`]
    /// does, for any producer: when the period completes and the producer has
    /// a fault, the fault is reported and the latch is left as it is.
    pub fn try_tick_value(&mut self, delta: u64) -> (outcome: Result<
        Option<&T::Output>,
        PropertyError,
    >)
        ensures
            final(self).ticked_from(old(self), delta as nat),
            outcome is Err <==> old(self).fires_on(delta as nat) && old(self).property().fault()
                is Some,
            outcome is Err ==> outcome->Err_0 == old(self).property().fault()->Some_0,
            outcome is Ok ==> (outcome->Ok_0 is Some <==> old(self).fires_on(delta as nat)),
            outcome is Ok && outcome->Ok_0 is Some ==> final(self).current() == Some(
                *outcome->Ok_0->Some_0,
            ),
    {
        proof {
            use_type_invariant(&*self);
        }
        let (elapsed, finished) = tick_repeating(self.period, self.elapsed, delta);
        self.elapsed = elapsed;
        if finished {
            match self.property.try_get_value() {
                Ok(value) => {
                    self.curr = Some(value);
                    Ok(self.curr.as_ref())
                },
                Err(error) => Err(error),
            }
        } else {
            Ok(None)
        }
    }

    /// One step of a driver that copies fresh values to a target unless it
    /// is paused. Timer and latch change exactly as under
    /// [`IntervalProperty::try_tick_value`], paused or not, and a fault is
    /// reported in the same way; what comes back otherwise is the value to
    /// copy, and while paused there is none.
    pub fn tick_value_unless_paused(&mut self, delta: u64, paused: bool) -> (outcome: Result<
        Option<&T::Output>,
        PropertyError,
    >)
        ensures
            final(self).ticked_from(old(self), delta as nat),
            outcome is Err <==> old(self).fires_on(delta as nat) && old(self).property().fault()
                is Some,
            outcome is Err ==> outcome->Err_0 == old(self).property().fault()->Some_0,
            outcome is Ok ==> (outcome->Ok_0 is Some <==> !paused && old(self).fires_on(
                delta as nat,
            )),
            outcome is Ok && outcome->Ok_0 is Some ==> final(self).current() == Some(
                *outcome->Ok_0->Some_0,
            ),
    {
        match self.try_tick_value(delta) {
            Ok(fresh) => {
                if paused {
                    Ok(None)
                } else {
                    Ok(fresh)
                }
            },
            Err(error) => Err(error),
        }
    }

    /// The latched value, if there is one yet. Nothing changes.
    pub fn get_curr_value(&self) -> (held: Option<&T::Output>)
        ensures
            held is Some <==> self.current() is Some,
            held is Some ==> *held->Some_0 == self.current()->Some_0,
    {
        self.curr.as_ref()
    }
}

impl<T: VariableProperty + Default> Default for IntervalProperty<T> {
    /// A latch over the default producer, with a period of one second and
    /// nothing held yet.
    fn default() -> (latch: Self)
        ensures
            call_ensures(T::default, (), latch.property()),
            latch.period() == DEFAULT_INTERVAL,
            latch.elapsed() == 0,
            latch.current() is None,
    {
        Self { property: T::default(), period: DEFAULT_INTERVAL, elapsed: 0, curr: None }
    }
}

/// Whether `states` is what a latch goes through under the ticks `deltas`,
/// one state before each tick and one after the last.
pub open spec fn is_run<T: VariableProperty>(
    states: Seq<IntervalProperty<T>>,
    deltas: Seq<nat>,
) -> bool {
    &&& states.len() == deltas.len() + 1
    &&& forall|i: int|
        0 <= i < deltas.len() ==> (#[trigger] states[i + 1]).ticked_from(&states[i], deltas[i])
}

/// While the ticks of a run that starts with nothing on the timer cover
/// less than the period, no tick completes the period, and the latch holds
/// throughout what it held at the start.
pub proof fn lemma_latch_keeps_while_quiet<T: VariableProperty>(
    states: Seq<IntervalProperty<T>>,
    deltas: Seq<nat>,
)
    requires
        is_run(states, deltas),
        states[0].elapsed() == 0,
        total(deltas) < states[0].period(),
    ensures
        forall|i: int| 0 <= i < deltas.len() ==> !(#[trigger] states[i]).fires_on(deltas[i]),
        forall|i: int|
            0 <= i <= deltas.len() ==> (#[trigger] states[i]).current() == states[0].current(),
        states.last().elapsed() == total(deltas),
    decreases deltas.len(),
{
    if deltas.len() > 0 {
        let last = deltas.len() - 1;
        let earlier = deltas.drop_last();
        assert(is_run(states.drop_last(), earlier)) by {
            assert forall|i: int| 0 <= i < earlier.len() implies (#[trigger] states.drop_last()[i
                + 1]).ticked_from(&states.drop_last()[i], earlier[i]) by {
                assert(states[i + 1].ticked_from(&states[i], deltas[i]));
            }
        }
        lemma_latch_keeps_while_quiet(states.drop_last(), earlier);
        lemma_run_keeps_producer(states, deltas, last);
        assert(states.drop_last().last() == states[last]);
        assert(states.drop_last()[0] == states[0]);
        assert(states[last + 1].ticked_from(&states[last], deltas[last]));
        assert(states.last() == states[last + 1]);
        lemma_short_tick_is_quiet(states[0].period(), total(earlier), deltas.last());
        assert(!states[last].fires_on(deltas[last]));
        assert forall|i: int| 0 <= i < deltas.len() implies !(#[trigger] states[i]).fires_on(
            deltas[i],
        ) by {
            if i < last {
                assert(states[i] == states.drop_last()[i]);
                assert(deltas[i] == earlier[i]);
            }
        }
        assert forall|i: int| 0 <= i <= deltas.len() implies (#[trigger] states[i]).current()
            == states[0].current() by {
            if i <= last {
                assert(states[i] == states.drop_last()[i]);
            }
        }
    }
}

/// The tick of a run with which the time covered first reaches the period
/// completes it, however far beyond the period it reaches. A producer free
/// of faults is then asked, and the latch holds a value that it may give;
/// and less than one period is left on the timer, so that nothing more is
/// owed for that tick.
pub proof fn lemma_latch_refreshes_on_reaching_period<T: VariableProperty>(
    states: Seq<IntervalProperty<T>>,
    deltas: Seq<nat>,
)
    requires
        is_run(states, deltas),
        deltas.len() > 0,
        states[0].elapsed() == 0,
        states[0].property().fault() is None,
        total(deltas.drop_last()) < states[0].period() <= total(deltas),
    ensures
        states[deltas.len() - 1].fires_on(deltas.last()),
        states.last().current() is Some,
        states[0].property().may_yield(states.last().current()->Some_0),
        states.last().elapsed() < states.last().period(),
        !states.last().fires_on(0),
{
    let last = deltas.len() - 1;
    let earlier = deltas.drop_last();
    assert(is_run(states.drop_last(), earlier)) by {
        assert forall|i: int| 0 <= i < earlier.len() implies (#[trigger] states.drop_last()[i
            + 1]).ticked_from(&states.drop_last()[i], earlier[i]) by {
            assert(states[i + 1].ticked_from(&states[i], deltas[i]));
        }
    }
    lemma_latch_keeps_while_quiet(states.drop_last(), earlier);
    lemma_run_keeps_producer(states, deltas, last);
    assert(states.drop_last().last() == states[last]);
    assert(states.drop_last()[0] == states[0]);
    assert(states[last + 1].ticked_from(&states[last], deltas[last]));
    assert(states.last() == states[last + 1]);
    lemma_nothing_carried_over(states[0].period(), total(earlier), deltas.last());
}

/// Producer and period stay what they were throughout a run.
pub proof fn lemma_run_keeps_producer<T: VariableProperty>(
    states: Seq<IntervalProperty<T>>,
    deltas: Seq<nat>,
    at: int,
)
    requires
        is_run(states, deltas),
        0 <= at <= deltas.len(),
    ensures
        states[at].property() == states[0].property(),
        states[at].period() == states[0].period(),
    decreases at,
{
    if at > 0 {
        lemma_run_keeps_producer(states, deltas, at - 1);
        assert(states[at - 1 + 1].ticked_from(&states[at - 1], deltas[at - 1]));
    }
}

} // verus!
