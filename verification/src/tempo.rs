//! The clock as far as it is arithmetic: the time between two ticks, and
//! the counter that lets one tick in so many through.

use vstd::arithmetic::div_mod::lemma_fundamental_div_mod_converse;
use vstd::prelude::*;

use crate::iter_utils::lemma_count_on;

verus! {

/// What a clock tells its subscribers.
#[derive(Debug, Clone, Copy, PartialEq, Eq, Structural)]
pub enum ClockEvent {
    /// A base tick.
    Tick,
    /// The next base tick starts a new count.
    Restart,
}

/// The microseconds in a minute.
pub const MICROS_PER_MINUTE: u64 = 60_000_000;

/// The microseconds between two base ticks at `bpm` beats a minute and
/// `ppqn` ticks a beat, rounded down. At a tempo of 0, or with 0 ticks a
/// beat, no tick ever comes: the time is the longest there is.
pub open spec fn interval_micros(bpm: u64, ppqn: u64) -> int {
    if bpm == 0 || ppqn == 0 {
        u64::MAX as int
    } else {
        MICROS_PER_MINUTE as int / (bpm as int * ppqn as int)
    }
}

/// The time between two base ticks, in microseconds.
pub fn get_interval(bpm: u64, ppqn: u64) -> (micros: u64)
    ensures
        micros == interval_micros(bpm, ppqn),
{
    if bpm == 0 || ppqn == 0 {
        return u64::MAX;
    }
    assert(bpm as int * ppqn as int >= 1) by (nonlinear_arith)
        requires
            bpm >= 1,
            ppqn >= 1,
    ;
    match bpm.checked_mul(ppqn) {
        Some(ticks_per_minute) => MICROS_PER_MINUTE / ticks_per_minute,
        None => {
            assert(MICROS_PER_MINUTE as int / (bpm as int * ppqn as int) == 0) by (nonlinear_arith)
                requires
                    bpm as int * ppqn as int > 60_000_000,
                    MICROS_PER_MINUTE == 60_000_000,
            ;
            0
        },
    }
}

/// The counter of a subscription that gets one tick in `period`.
#[derive(Debug)]
pub struct Every {
    count: u64,
    max: u64,
}

/// The counter as contracts see it.
pub struct EveryView {
    /// How many base ticks make one tick of the subscription.
    pub period: int,
    /// How many base ticks have come since the last one that was let
    /// through.
    pub count: int,
}

/// What a clock event does to a counter.
pub struct Counted {
    pub state: EveryView,
    /// Whether the subscription gets a tick.
    pub emits: bool,
}

impl EveryView {
    pub open spec fn wf(self) -> bool {
        0 <= self.count < self.period
    }

    /// A counter that has seen no tick.
    pub open spec fn fresh(period: int) -> EveryView {
        EveryView { period, count: 0 }
    }

    /// A base tick is let through when the count has reached the last
    /// value, and the count starts over; otherwise the count goes up. A
    /// restart lets nothing through and puts the count on its last value, so
    /// that the next base tick is let through.
    pub open spec fn step(self, event: ClockEvent) -> Counted {
        match event {
            ClockEvent::Tick => if self.count == self.period - 1 {
                Counted { state: EveryView { count: 0, ..self }, emits: true }
            } else {
                Counted { state: EveryView { count: self.count + 1, ..self }, emits: false }
            },
            ClockEvent::Restart => Counted {
                state: EveryView { count: self.period - 1, ..self },
                emits: false,
            },
        }
    }

    /// The counter after so many base ticks.
    pub open spec fn after_ticks(self, ticks: nat) -> EveryView
        decreases ticks,
    {
        if ticks == 0 {
            self
        } else {
            self.after_ticks((ticks - 1) as nat).step(ClockEvent::Tick).state
        }
    }
}

impl View for Every {
    type V = EveryView;

    closed spec fn view(&self) -> EveryView {
        EveryView { period: self.max + 1, count: self.count as int }
    }
}

impl Every {
    #[verifier::type_invariant]
    spec fn inv(&self) -> bool {
        self.count <= self.max
    }

    /// Feeds the counter a clock event and says whether the subscription
    /// gets a tick for it.
    pub fn step(&mut self, evt: ClockEvent) -> (emits: bool)
        ensures
            old(self)@.wf(),
            final(self)@.wf(),
            final(self)@ == old(self)@.step(evt).state,
            emits == old(self)@.step(evt).emits,
        no_unwind
    {
        proof {
            use_type_invariant(&*self);
        }
        match evt {
            ClockEvent::Tick => {
                let max_reached: bool = self.count == self.max;
                if max_reached {
                    self.count = 0;
                } else {
                    self.count = self.count + 1;
                }
                max_reached
            },
            ClockEvent::Restart => {
                self.count = self.max;
                false
            },
        }
    }
}

/// A counter that lets one base tick in `n` through, the first after
/// `n - 1` others.
pub fn every(n: u64) -> (counter: Every)
    requires
        n >= 1,
    ensures
        counter@ == EveryView::fresh(n as int),
        counter@.wf(),
{
    Every { count: 0, max: n - 1 }
}

/// From a counter that has seen no tick, the count after `ticks` base ticks
/// is the remainder of `ticks` by the period. So the base tick with index
/// `ticks`, counted from 0, is let through exactly when that remainder is
/// the period less 1: the ticks with index `period - 1`, `2 * period - 1`
/// and so on.
pub proof fn lemma_one_in_period(period: int, ticks: nat)
    requires
        period >= 1,
    ensures
        EveryView::fresh(period).after_ticks(ticks).period == period,
        EveryView::fresh(period).after_ticks(ticks).count == ticks as int % period,
        EveryView::fresh(period).after_ticks(ticks).step(ClockEvent::Tick).emits <==> ticks as int
            % period == period - 1,
    decreases ticks,
{
    if ticks == 0 {
        lemma_fundamental_div_mod_converse(0, period, 0, 0);
    } else {
        lemma_one_in_period(period, (ticks - 1) as nat);
        lemma_count_on(ticks - 1, period);
    }
    lemma_count_on(ticks as int, period);
}

/// After a restart the very next base tick is let through, wherever the
/// count stood, and the count starts over.
pub proof fn lemma_restart_then_tick(counter: EveryView)
    requires
        counter.period >= 1,
    ensures
        !counter.step(ClockEvent::Restart).emits,
        counter.step(ClockEvent::Restart).state.step(ClockEvent::Tick).emits,
        counter.step(ClockEvent::Restart).state.step(ClockEvent::Tick).state == EveryView::fresh(
            counter.period,
        ),
{
}

} // verus!
