//! A rate gate: at most one action per interval.
//!
//! A gate is idle until the first action is recorded and cooling from then
//! on. While cooling it is closed until a full interval has passed since the
//! last recorded action. What arrives at a closed gate is dropped: nothing is
//! queued and nothing is delayed.
//!
//! Times are nanoseconds on a monotonic clock whose origin the caller picks.
//! A time before the last recorded action counts as inside the cooldown.

use vstd::prelude::*;

verus! {

/// What a gate is, as mathematics: its interval and the time of the last
/// recorded action, if there was one.
pub struct GateView {
    pub interval: nat,
    pub last: Option<nat>,
}

impl GateView {
    /// An action at time `now` is let through: the rate gate is idle, or a
    /// full interval lies between the last recorded action and `now`.
    pub open spec fn open_at(self, now: nat) -> bool {
        match self.last {
            None => true,
            Some(t) => now - t >= self.interval,
        }
    }

    /// The rate gate after an action at time `now` was recorded.
    pub open spec fn recorded(self, now: nat) -> GateView {
        GateView { interval: self.interval, last: Some(now) }
    }
}

/// A time that may be missing, as mathematics.
pub open spec fn moment(t: Option<u128>) -> Option<nat> {
    match t {
        None => None,
        Some(t) => Some(t as nat),
    }
}

/// The rate gate.
#[derive(Clone, Copy, Debug, PartialEq, Eq)]
pub struct IntervalGate {
    interval: u128,
    last: Option<u128>,
}

impl View for IntervalGate {
    type V = GateView;

    closed spec fn view(&self) -> GateView {
        GateView { interval: self.interval as nat, last: moment(self.last) }
    }
}

impl IntervalGate {
    /// An idle gate with the given interval.
    pub fn new(interval: u128) -> (gate: Self)
        ensures
            gate@ == (GateView { interval: interval as nat, last: None }),
    {
        IntervalGate { interval, last: None }
    }

    /// The interval that must pass between two actions.
    pub fn interval(&self) -> (r: u128)
        ensures
            r == self@.interval,
    {
        self.interval
    }

    /// The time of the last recorded action; `None` while idle.
    pub fn last_action(&self) -> (r: Option<u128>)
        ensures
            moment(r) == self@.last,
    {
        self.last
    }

    /// Replaces the interval and keeps the time of the last action.
    pub fn set_interval(&mut self, interval: u128)
        ensures
            final(self)@ == (GateView { interval: interval as nat, last: old(self)@.last }),
    {
        self.interval = interval;
    }

    /// Whether an action at time `now` may go ahead. Asking changes nothing:
    /// an action that is refused is lost.
    pub fn should_act(&self, now: u128) -> (r: bool)
        ensures
            r == self@.open_at(now as nat),
    {
        match self.last {
            None => true,
            Some(t) => now >= t && now - t >= self.interval,
        }
    }

    /// Records an action at time `now`, which becomes the start of the
    /// cooldown.
    pub fn record_action(&mut self, now: u128)
        ensures
            final(self)@ == old(self)@.recorded(now as nat),
    {
        self.last = Some(now);
    }
}

/// An idle gate is open at any time.
pub proof fn lemma_idle_gate_is_open(gate: GateView, now: nat)
    requires
        gate.last is None,
    ensures
        gate.open_at(now),
{
}

/// Right after an action is recorded, and until a full interval has passed,
/// a gate with a positive interval is closed.
pub proof fn lemma_closed_within_interval(gate: GateView, recorded_at: nat, now: nat)
    requires
        gate.interval > 0,
        recorded_at <= now < recorded_at + gate.interval,
    ensures
        !gate.recorded(recorded_at).open_at(now),
{
}

/// Once a full interval has passed since the recorded action, a gate is open
/// again.
pub proof fn lemma_open_after_interval(gate: GateView, recorded_at: nat, now: nat)
    requires
        now >= recorded_at + gate.interval,
    ensures
        gate.recorded(recorded_at).open_at(now),
{
}

} // verus!
