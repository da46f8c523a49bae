//! The signal itself: machine integers, no allocation, no clock.

use vstd::prelude::*;
use vstd::std_specs::cmp::PartialEqSpecImpl;
use crate::model::{Pending, SignalView};

verus! {

/// The scheduled transition, as it is stored.
#[derive(Debug, Clone, Copy, PartialEq, Eq, Structural)]
enum TickAction {
    /// Nothing is scheduled.
    Idle,
    /// Take the level when the tick is reached. The tick is stored wide
    /// enough for the end of any hold, which is the sum of a tick and a
    /// duration and may lie beyond the last tick of a 64-bit counter.
    TriggerAt(u128, bool),
    /// Hold the level for a number of ticks. Lives only until the next
    /// evaluation, which turns it into a `TriggerAt`.
    HoldFor(u64, bool),
    /// Blink with the given period.
    Blink(u32),
}

impl View for TickAction {
    type V = Pending;

    closed spec fn view(&self) -> Pending {
        match *self {
            TickAction::Idle => Pending::Idle,
            TickAction::TriggerAt(tick, target) => Pending::TriggerAt { tick: tick as nat, target },
            TickAction::HoldFor(duration, target) => Pending::HoldFor {
                duration: duration as nat,
                target,
            },
            TickAction::Blink(period) => Pending::Blink { period: period as nat },
        }
    }
}

/// A boolean signal with at most one scheduled transition.
///
/// The owner supplies the time: [`TimedSignal::update`] takes the current tick
/// and returns the level for it. Ticks are expected not to decrease from one
/// evaluation to the next; the signal does not check this.
///
/// Requests come in three kinds. Those that replace (`set`, `on`, `off`,
/// `toggle`, `blink`, `set_at`, `set_until` and their `on_`/`off_` forms)
/// discard whatever was scheduled. Those that yield (`set_for`, `toggle_at`,
/// `toggle_until`, `toggle_for` and `on_for`/`off_for`) do nothing while
/// anything is scheduled. Those that retrigger (`set_for_retrigger`,
/// `toggle_for_retrigger`) restart the window. No request looks at the tick:
/// what it schedules takes effect at the next evaluation.
#[derive(Debug)]
pub struct TimedSignal {
    /// Current level, false = off, true = on.
    state: bool,
    /// Scheduled transition.
    tick_action: TickAction,
}

impl View for TimedSignal {
    type V = SignalView;

    closed spec fn view(&self) -> SignalView {
        SignalView { state: self.state, pending: self.tick_action@ }
    }
}

impl Default for TimedSignal {
    /// Same as [`TimedSignal::new`].
    fn default() -> (signal: Self)
        ensures
            signal@ == SignalView::initial(),
    {
        TimedSignal { state: false, tick_action: TickAction::Idle }
    }
}

impl Clone for TimedSignal {
    /// The copy has the same level and the same scheduled transition.
    fn clone(&self) -> (copy: Self)
        ensures
            copy@ == self@,
    {
        proof {
            use_type_invariant(self);
        }
        TimedSignal { state: self.state, tick_action: self.tick_action }
    }
}

impl PartialEq for TimedSignal {
    /// Two signals are equal when their levels and their scheduled
    /// transitions are.
    fn eq(&self, other: &Self) -> (equal: bool) {
        self.state == other.state && self.tick_action == other.tick_action
    }
}

impl PartialEqSpecImpl for TimedSignal {
    open spec fn obeys_eq_spec() -> bool {
        true
    }

    open spec fn eq_spec(&self, other: &Self) -> bool {
        self@ == other@
    }
}

impl Eq for TimedSignal {}

impl TimedSignal {
    /// A blink that is scheduled has a period that can be divided by.
    #[verifier::type_invariant]
    spec fn blink_period_nonzero(&self) -> bool {
        self.tick_action matches TickAction::Blink(period) ==> period > 0
    }

    /// Returns a signal that is off and has nothing scheduled.
    pub fn new() -> (signal: Self)
        ensures
            signal@ == SignalView::initial(),
    {
        Self::default()
    }

    /// Evaluates the signal at `tick` and returns its level.
    ///
    /// A hold that is waiting starts at `tick`; a trigger whose tick has been
    /// reached fires, however late; a blink recomputes the level. A hold of
    /// zero ticks starts and reverts within this one call.
    ///
    /// A hold whose end lies beyond the last tick of a 64-bit counter never
    /// reverts by itself. The signal does not notice a counter that wraps
    /// around or goes back: it evaluates each tick as it is given.
    ///
    /// Evaluating again at the same tick changes nothing and returns the
    /// same level.
    pub fn update(&mut self, tick: u64) -> (level: bool)
        ensures
            final(self)@ == old(self)@.step(tick as nat),
            level == final(self)@.state,
            final(self)@.step(tick as nat) == final(self)@,
    {
        proof {
            use_type_invariant(&*self);
        }
        if let TickAction::HoldFor(duration_ticks, state) = self.tick_action {
            self.state = state;
            self.tick_action = TickAction::TriggerAt(
                tick as u128 + duration_ticks as u128,
                !state,
            );
        }
        match self.tick_action {
            TickAction::TriggerAt(trigger_tick, state) => {
                if tick as u128 >= trigger_tick {
                    self.state = state;
                    self.tick_action = TickAction::Idle;
                }
            },
            TickAction::Blink(period) => {
                self.state = tick % (period as u64) < (period / 2) as u64;
            },
            _ => {},
        }
        self.state
    }

    /// Returns the stored level: the one last returned by
    /// [`TimedSignal::update`] or assigned since. A hold or a trigger that no
    /// evaluation has resolved yet has not changed it.
    pub fn state(&self) -> (level: bool)
        ensures
            level == self@.state,
    {
        self.state
    }

    /// Assigns the level and cancels whatever was scheduled.
    pub fn set(&mut self, state: bool)
        ensures
            final(self)@ == old(self)@.set(state),
    {
        proof {
            use_type_invariant(&*self);
        }
        self.state = state;
        self.tick_action = TickAction::Idle;
    }

    /// Switches on and cancels whatever was scheduled.
    pub fn on(&mut self)
        ensures
            final(self)@ == old(self)@.set(true),
    {
        self.set(true);
    }

    /// Switches off and cancels whatever was scheduled.
    pub fn off(&mut self)
        ensures
            final(self)@ == old(self)@.set(false),
    {
        self.set(false);
    }

    /// Inverts the stored level and cancels whatever was scheduled.
    ///
    /// The stored level is the one [`TimedSignal::state`] returns, so a hold
    /// or a trigger that was scheduled and never evaluated is discarded
    /// without having had any effect.
    pub fn toggle(&mut self)
        ensures
            final(self)@ == old(self)@.toggle(),
    {
        self.set(!self.state);
    }

    /// Schedules blinking, replacing whatever was scheduled: from the next
    /// evaluation on, the signal is on during the first `period / 2` ticks of
    /// every `period` ticks and off during the rest. With a period of 4 it is
    /// on for two ticks and off for two.
    ///
    /// A period of zero has no level to compute and is not accepted.
    pub fn blink(&mut self, period: u32)
        requires
            period > 0,
        ensures
            final(self)@ == old(self)@.blink(period as nat),
    {
        self.tick_action = TickAction::Blink(period);
    }

    /// Schedules `state` for `trigger_tick`, replacing whatever was
    /// scheduled. The level stays as it is until the trigger fires.
    pub fn set_at(&mut self, trigger_tick: u64, state: bool)
        ensures
            final(self)@ == old(self)@.set_at(trigger_tick as nat, state),
    {
        self.tick_action = TickAction::TriggerAt(trigger_tick as u128, state);
    }

    /// Switches to `state` at once and schedules the opposite level for
    /// `trigger_tick`, replacing whatever was scheduled.
    pub fn set_until(&mut self, trigger_tick: u64, state: bool)
        ensures
            final(self)@ == old(self)@.set_until(trigger_tick as nat, state),
    {
        self.set(state);
        self.tick_action = TickAction::TriggerAt(trigger_tick as u128, !state);
    }

    /// Schedules a hold of `state` for `duration_ticks`, starting at the next
    /// evaluation. Does nothing while anything is scheduled.
    pub fn set_for(&mut self, duration_ticks: u64, state: bool)
        ensures
            final(self)@ == old(self)@.set_for(duration_ticks as nat, state),
            !old(self)@.idle() ==> final(self)@ == old(self)@,
    {
        if self.tick_action == TickAction::Idle {
            self.tick_action = TickAction::HoldFor(duration_ticks, state);
        }
    }

    /// Schedules a hold of `state` for `duration_ticks`, starting at the next
    /// evaluation and restarting any window that is running.
    pub fn set_for_retrigger(&mut self, duration_ticks: u64, state: bool)
        ensures
            final(self)@ == old(self)@.set_for_retrigger(duration_ticks as nat, state),
            final(self)@.pending == (Pending::HoldFor {
                duration: duration_ticks as nat,
                target: state,
            }),
    {
        self.tick_action = TickAction::HoldFor(duration_ticks, state);
    }

    /// Schedules on for `trigger_tick`, replacing whatever was scheduled.
    pub fn on_at(&mut self, trigger_tick: u64)
        ensures
            final(self)@ == old(self)@.set_at(trigger_tick as nat, true),
    {
        self.set_at(trigger_tick, true);
    }

    /// Switches on at once and schedules off for `trigger_tick`, replacing
    /// whatever was scheduled.
    pub fn on_until(&mut self, trigger_tick: u64)
        ensures
            final(self)@ == old(self)@.set_until(trigger_tick as nat, true),
    {
        self.set_until(trigger_tick, true);
    }

    /// Schedules on for `duration_ticks`, then off. Does nothing while
    /// anything is scheduled.
    pub fn on_for(&mut self, duration_ticks: u64)
        ensures
            final(self)@ == old(self)@.set_for(duration_ticks as nat, true),
            !old(self)@.idle() ==> final(self)@ == old(self)@,
    {
        self.set_for(duration_ticks, true);
    }

    /// Schedules off for `trigger_tick`, replacing whatever was scheduled.
    pub fn off_at(&mut self, trigger_tick: u64)
        ensures
            final(self)@ == old(self)@.set_at(trigger_tick as nat, false),
    {
        self.set_at(trigger_tick, false);
    }

    /// Switches off at once and schedules on for `trigger_tick`, replacing
    /// whatever was scheduled.
    pub fn off_until(&mut self, trigger_tick: u64)
        ensures
            final(self)@ == old(self)@.set_until(trigger_tick as nat, false),
    {
        self.set_until(trigger_tick, false);
    }

    /// Schedules off for `duration_ticks`, then on. Does nothing while
    /// anything is scheduled.
    pub fn off_for(&mut self, duration_ticks: u64)
        ensures
            final(self)@ == old(self)@.set_for(duration_ticks as nat, false),
            !old(self)@.idle() ==> final(self)@ == old(self)@,
    {
        self.set_for(duration_ticks, false);
    }

    /// Schedules the opposite of the stored level for `trigger_tick`. Does
    /// nothing while anything is scheduled.
    pub fn toggle_at(&mut self, trigger_tick: u64)
        ensures
            final(self)@ == old(self)@.toggle_at(trigger_tick as nat),
            !old(self)@.idle() ==> final(self)@ == old(self)@,
    {
        if self.tick_action == TickAction::Idle {
            self.tick_action = TickAction::TriggerAt(trigger_tick as u128, !self.state);
        }
    }

    /// Inverts the level at once and schedules the return to the present
    /// level for `trigger_tick`. Does nothing while anything is scheduled.
    pub fn toggle_until(&mut self, trigger_tick: u64)
        ensures
            final(self)@ == old(self)@.toggle_until(trigger_tick as nat),
            !old(self)@.idle() ==> final(self)@ == old(self)@,
    {
        if self.tick_action == TickAction::Idle {
            self.toggle();
            self.tick_action = TickAction::TriggerAt(trigger_tick as u128, !self.state);
        }
    }

    /// Schedules a hold of the opposite of the stored level for
    /// `duration_ticks`, starting at the next evaluation. Does nothing while
    /// anything is scheduled.
    pub fn toggle_for(&mut self, duration_ticks: u64)
        ensures
            final(self)@ == old(self)@.toggle_for(duration_ticks as nat),
            !old(self)@.idle() ==> final(self)@ == old(self)@,
    {
        if self.tick_action == TickAction::Idle {
            self.tick_action = TickAction::HoldFor(duration_ticks, !self.state);
        }
    }

    /// Schedules a hold of the opposite level for `duration_ticks`, starting
    /// at the next evaluation and restarting any window that is running.
    ///
    /// While a trigger is scheduled the opposite is taken of the trigger's
    /// target, so that retriggering inside a running window keeps its level.
    /// Otherwise it is taken of the stored level.
    pub fn toggle_for_retrigger(&mut self, duration_ticks: u64)
        ensures
            final(self)@ == old(self)@.toggle_for_retrigger(duration_ticks as nat),
            final(self)@.pending matches Pending::HoldFor { duration, .. }
                && duration == duration_ticks,
    {
        match self.tick_action {
            TickAction::TriggerAt(_, state) => {
                self.tick_action = TickAction::HoldFor(duration_ticks, !state);
            },
            _ => {
                self.tick_action = TickAction::HoldFor(duration_ticks, !self.state);
            },
        }
    }
}

} // verus!
