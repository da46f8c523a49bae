//! The abstract machine that a timed signal refines.
//!
//! Ticks, durations and periods are natural numbers here, so nothing in this
//! module can overflow. [`crate::signal::TimedSignal`] is the machine-integer
//! implementation; each of its methods is specified by the function of the
//! same name in this module, and `update` by [`SignalView::step`].

use vstd::prelude::*;

verus! {

/// The one transition a signal may have scheduled.
pub enum Pending {
    /// Nothing is scheduled.
    Idle,
    /// Become `target` at the first evaluation whose tick is at least `tick`.
    TriggerAt { tick: nat, target: bool },
    /// A hold that has not started: the next evaluation switches to `target`
    /// and schedules the opposite level `duration` ticks after it.
    HoldFor { duration: nat, target: bool },
    /// At every evaluation, be on during the first half of each `period`.
    Blink { period: nat },
}

/// What a signal is, mathematically: its level and its scheduled transition.
pub struct SignalView {
    /// The level last computed or assigned.
    pub state: bool,
    /// The scheduled transition.
    pub pending: Pending,
}

/// The level of a blinking signal at `tick`: on for the first `period / 2`
/// ticks of every period, off for the rest.
pub open spec fn blink_level(tick: nat, period: nat) -> bool {
    tick % period < period / 2
}

/// Whether the ticks never go back: each is at least the one before it.
pub open spec fn non_decreasing(ticks: Seq<nat>) -> bool {
    forall|i: int, j: int| 0 <= i <= j < ticks.len() ==> ticks[i] <= ticks[j]
}

impl SignalView {
    /// A signal as it is created: off, with nothing scheduled.
    pub open spec fn initial() -> SignalView {
        SignalView { state: false, pending: Pending::Idle }
    }

    /// Whether nothing is scheduled.
    pub open spec fn idle(self) -> bool {
        self.pending is Idle
    }

    /// The level that the signal is heading for: the target of a scheduled
    /// trigger, else the stored level.
    pub open spec fn heading_for(self) -> bool {
        match self.pending {
            Pending::TriggerAt { target, .. } => target,
            _ => self.state,
        }
    }

    /// The same level with another scheduled transition.
    pub open spec fn schedule(self, pending: Pending) -> SignalView {
        SignalView { state: self.state, pending }
    }

    // ----- evaluation -----

    /// One evaluation at `tick`.
    ///
    /// A trigger fires, and is cleared, once `tick` has reached it. A hold
    /// starts: the signal takes the hold's target and is due to take the
    /// opposite level `duration` ticks after `tick`; with a duration of zero
    /// that is now, so the signal ends at the opposite level with nothing
    /// scheduled. A blink takes the level of `tick` and stays scheduled.
    pub open spec fn step(self, tick: nat) -> SignalView {
        match self.pending {
            Pending::Idle => self,
            Pending::TriggerAt { tick: at, target } => if tick >= at {
                SignalView { state: target, pending: Pending::Idle }
            } else {
                self
            },
            Pending::HoldFor { duration, target } => if duration == 0 {
                SignalView { state: !target, pending: Pending::Idle }
            } else {
                SignalView {
                    state: target,
                    pending: Pending::TriggerAt { tick: tick + duration, target: !target },
                }
            },
            Pending::Blink { period } => SignalView {
                state: blink_level(tick, period),
                pending: Pending::Blink { period },
            },
        }
    }

    /// The signal after one evaluation at each tick of `ticks`, in order.
    pub open spec fn run(self, ticks: Seq<nat>) -> SignalView
        decreases ticks.len(),
    {
        if ticks.len() == 0 {
            self
        } else {
            self.run(ticks.drop_last()).step(ticks.last())
        }
    }

    // ----- direct mutation -----

    /// Assigns the level and cancels whatever was scheduled.
    pub open spec fn set(self, value: bool) -> SignalView {
        SignalView { state: value, pending: Pending::Idle }
    }

    /// Inverts the stored level and cancels whatever was scheduled.
    pub open spec fn toggle(self) -> SignalView {
        SignalView { state: !self.state, pending: Pending::Idle }
    }

    // ----- requests that replace what was scheduled -----

    /// Schedules blinking with the given period; the level waits for the next
    /// evaluation.
    pub open spec fn blink(self, period: nat) -> SignalView {
        self.schedule(Pending::Blink { period })
    }

    /// Schedules `target` for the tick `trigger`; the level stays until then.
    pub open spec fn set_at(self, trigger: nat, target: bool) -> SignalView {
        self.schedule(Pending::TriggerAt { tick: trigger, target })
    }

    /// Switches to `target` at once and schedules the opposite level for the
    /// tick `trigger`.
    pub open spec fn set_until(self, trigger: nat, target: bool) -> SignalView {
        SignalView { state: target, pending: Pending::TriggerAt { tick: trigger, target: !target } }
    }

    // ----- requests that restart the window -----

    /// Schedules a hold of `target` for `duration` ticks, whatever was
    /// scheduled.
    pub open spec fn set_for_retrigger(self, duration: nat, target: bool) -> SignalView {
        self.schedule(Pending::HoldFor { duration, target })
    }

    /// Schedules a hold, for `duration` ticks, of the opposite of the level
    /// that the signal is heading for, whatever was scheduled.
    pub open spec fn toggle_for_retrigger(self, duration: nat) -> SignalView {
        self.schedule(Pending::HoldFor { duration, target: !self.heading_for() })
    }

    // ----- requests that yield to what is scheduled -----

    /// Schedules a hold of `target` for `duration` ticks if nothing is
    /// scheduled, else changes nothing.
    pub open spec fn set_for(self, duration: nat, target: bool) -> SignalView {
        if self.idle() {
            self.schedule(Pending::HoldFor { duration, target })
        } else {
            self
        }
    }

    /// Schedules the opposite of the stored level for the tick `trigger` if
    /// nothing is scheduled, else changes nothing.
    pub open spec fn toggle_at(self, trigger: nat) -> SignalView {
        if self.idle() {
            self.schedule(Pending::TriggerAt { tick: trigger, target: !self.state })
        } else {
            self
        }
    }

    /// Inverts the level at once and schedules the return to the present
    /// level for the tick `trigger` if nothing is scheduled, else changes
    /// nothing.
    pub open spec fn toggle_until(self, trigger: nat) -> SignalView {
        if self.idle() {
            SignalView {
                state: !self.state,
                pending: Pending::TriggerAt { tick: trigger, target: self.state },
            }
        } else {
            self
        }
    }

    /// Schedules a hold of the opposite of the stored level for `duration`
    /// ticks if nothing is scheduled, else changes nothing.
    pub open spec fn toggle_for(self, duration: nat) -> SignalView {
        if self.idle() {
            self.schedule(Pending::HoldFor { duration, target: !self.state })
        } else {
            self
        }
    }
}

} // verus!
