//! What holds of every signal: the laws of the abstract machine.
//!
//! Each law is stated over [`SignalView`], whose functions are the contracts
//! of the methods of the same name on [`crate::signal::TimedSignal`]. A law
//! about `step` is therefore a law about `update`.

use vstd::prelude::*;
use crate::model::{blink_level, non_decreasing, Pending, SignalView};

verus! {

// ----- one evaluation -----

/// Evaluating again at the same tick changes nothing: the second evaluation
/// leaves the signal as the first one left it, and so returns the same level.
pub proof fn lemma_update_idempotent(s: SignalView, tick: nat)
    ensures
        s.step(tick).step(tick) == s.step(tick),
{
}

/// Any number of evaluations at one tick, at least one, amount to a single
/// evaluation at that tick.
pub proof fn lemma_update_repeated(s: SignalView, tick: nat, n: nat)
    requires
        n >= 1,
    ensures
        s.run(Seq::new(n, |i: int| tick)) == s.step(tick),
    decreases n,
{
    let ticks = Seq::new(n, |i: int| tick);
    if n == 1 {
        assert(s.run(ticks.drop_last()) == s);
    } else {
        assert(ticks.drop_last() =~= Seq::new((n - 1) as nat, |i: int| tick));
        lemma_update_repeated(s, tick, (n - 1) as nat);
    }
}

/// A hold is a trigger that starts when it is first evaluated: evaluating a
/// waiting hold at `tick` is evaluating, at `tick`, a signal that is at the
/// hold's target and has the opposite level scheduled `duration` ticks after
/// `tick`.
pub proof fn lemma_hold_starts_at_update(s: SignalView, duration: nat, target: bool, tick: nat)
    requires
        s.pending == (Pending::HoldFor { duration, target }),
    ensures
        s.step(tick) == s.set_until(tick + duration, target).step(tick),
{
}

/// A hold waits for one evaluation only: after any evaluation, none is
/// waiting.
pub proof fn lemma_no_hold_after_update(s: SignalView, tick: nat)
    ensures
        !(s.step(tick).pending is HoldFor),
{
}

/// Assigning a level decides the next evaluation: whatever was scheduled
/// before, and at whatever tick, the evaluation returns the assigned level
/// and leaves nothing scheduled.
pub proof fn lemma_set_then_update(s: SignalView, value: bool, tick: nat)
    ensures
        s.set(value).step(tick).state == value,
        s.set(value).step(tick).idle(),
{
}

/// A blinking signal evaluated at `tick` is on exactly when `tick` falls in
/// the first half of its period, and it goes on blinking.
pub proof fn lemma_blink_then_update(s: SignalView, period: nat, tick: nat)
    requires
        period > 0,
    ensures
        s.blink(period).step(tick).state == (tick % period < period / 2),
        s.blink(period).step(tick).pending == (Pending::Blink { period }),
{
}

// ----- evaluation over time -----

/// A signal with nothing scheduled stays as it is, however often and at
/// whatever ticks it is evaluated.
pub proof fn lemma_run_idle(s: SignalView, ticks: Seq<nat>)
    requires
        s.idle(),
    ensures
        s.run(ticks) == s,
    decreases ticks.len(),
{
    if ticks.len() > 0 {
        lemma_run_idle(s, ticks.drop_last());
    }
}

/// A scheduled trigger, evaluated at ticks that never go back: as long as the
/// ticks stay below the trigger's tick the signal is unchanged; from the
/// first tick that reaches it, the signal is at the target with nothing
/// scheduled.
pub proof fn lemma_run_trigger(s: SignalView, at: nat, target: bool, ticks: Seq<nat>)
    requires
        s.pending == (Pending::TriggerAt { tick: at, target }),
        ticks.len() > 0,
        non_decreasing(ticks),
    ensures
        ticks.last() < at ==> s.run(ticks) == s,
        ticks.last() >= at ==> s.run(ticks) == s.set(target),
    decreases ticks.len(),
{
    let earlier = ticks.drop_last();
    if earlier.len() == 0 {
        assert(s.run(earlier) == s);
    } else {
        lemma_run_trigger(s, at, target, earlier);
    }
}

/// A waiting hold, evaluated at ticks that never go back: it starts at the
/// first of them, and the signal is at the hold's target at every tick less
/// than `duration` after the first, and at the opposite level, with nothing
/// scheduled, from then on.
pub proof fn lemma_run_hold(s: SignalView, duration: nat, target: bool, ticks: Seq<nat>)
    requires
        s.pending == (Pending::HoldFor { duration, target }),
        ticks.len() > 0,
        non_decreasing(ticks),
    ensures
        ticks.last() < ticks[0] + duration ==> s.run(ticks) == s.set_until(
            ticks[0] + duration,
            target,
        ),
        ticks.last() >= ticks[0] + duration ==> s.run(ticks) == s.set(!target),
    decreases ticks.len(),
{
    let earlier = ticks.drop_last();
    if earlier.len() == 0 {
        assert(s.run(earlier) == s);
    } else {
        lemma_run_hold(s, duration, target, earlier);
    }
}

/// A blinking signal, evaluated at any ticks: its level is the blink level of
/// the last tick, and it goes on blinking.
pub proof fn lemma_run_blink(s: SignalView, period: nat, ticks: Seq<nat>)
    requires
        s.pending == (Pending::Blink { period }),
        ticks.len() > 0,
    ensures
        s.run(ticks) == (SignalView {
            state: blink_level(ticks.last(), period),
            pending: Pending::Blink { period },
        }),
    decreases ticks.len(),
{
    let earlier = ticks.drop_last();
    if earlier.len() == 0 {
        assert(s.run(earlier) == s);
    } else {
        lemma_run_blink(s, period, earlier);
    }
}

// ----- requests -----

/// While anything is scheduled, the requests that yield change nothing.
pub proof fn lemma_guarded_requests_yield(s: SignalView, ticks: nat, target: bool)
    requires
        !s.idle(),
    ensures
        s.set_for(ticks, target) == s,
        s.toggle_at(ticks) == s,
        s.toggle_until(ticks) == s,
        s.toggle_for(ticks) == s,
{
}

/// While nothing is scheduled, a request that yields does what the request
/// that does not yield would do, on the stored level.
pub proof fn lemma_guarded_requests_when_idle(s: SignalView, ticks: nat, target: bool)
    requires
        s.idle(),
    ensures
        s.set_for(ticks, target) == s.set_for_retrigger(ticks, target),
        s.toggle_at(ticks) == s.set_at(ticks, !s.state),
        s.toggle_until(ticks) == s.set_until(ticks, !s.state),
        s.toggle_for(ticks) == s.set_for_retrigger(ticks, !s.state),
        s.toggle_for(ticks) == s.toggle_for_retrigger(ticks),
{
}

/// The retriggering requests override: whatever was scheduled, a hold of the
/// requested duration is waiting afterwards, and the stored level is
/// untouched.
pub proof fn lemma_retrigger_overrides(s: SignalView, duration: nat, target: bool)
    ensures
        s.set_for_retrigger(duration, target).state == s.state,
        s.set_for_retrigger(duration, target).pending == (Pending::HoldFor { duration, target }),
        s.toggle_for_retrigger(duration).state == s.state,
        s.toggle_for_retrigger(duration).pending == (Pending::HoldFor {
            duration,
            target: !s.heading_for(),
        }),
{
}

/// Retriggering a toggle keeps its level: once the hold of a toggle has been
/// started by an evaluation, toggling again holds the same target as the
/// first toggle did, with the window counted anew.
pub proof fn lemma_toggle_retrigger_keeps_level(
    s: SignalView,
    duration: nat,
    tick: nat,
    again: nat,
)
    ensures
        ({
            let started = s.toggle_for_retrigger(duration).step(tick);
            started.toggle_for_retrigger(again) == started.set_for_retrigger(
                again,
                !s.heading_for(),
            )
        }),
{
}

/// The requests that replace what was scheduled do not depend on it: two
/// signals at the same level are equal after the same request.
pub proof fn lemma_replacing_requests_forget(
    a: SignalView,
    b: SignalView,
    ticks: nat,
    target: bool,
)
    requires
        a.state == b.state,
    ensures
        a.set(target) == b.set(target),
        a.toggle() == b.toggle(),
        a.blink(ticks) == b.blink(ticks),
        a.set_at(ticks, target) == b.set_at(ticks, target),
        a.set_until(ticks, target) == b.set_until(ticks, target),
        a.set_for_retrigger(ticks, target) == b.set_for_retrigger(ticks, target),
{
}

} // verus!
