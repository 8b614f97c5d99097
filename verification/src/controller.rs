//! The per-iteration control state machine.
//!
//! One loop shape serves three variants, selected at composition time by a
//! [`DecisionPolicy`]: the magnetic-sensor variant drives the logical NOT of
//! a digital input, the digital-echo variant mirrors it (optionally
//! inverted), and the joystick variant steers a blink interval with two
//! analog axes.  Each iteration the firmware samples under the converter
//! cell, hands the readings to [`Controller::iterate`], and performs the
//! returned [`Action`] on the pins.  When the cell was not ready the
//! iteration is skipped: no decision, no actuation change.

use vstd::prelude::*;
use crate::thresholds::interval_after;
use crate::thresholds::next_interval;

verus! {

/// Which decision policy the loop was composed with.
#[derive(Clone, Copy, PartialEq, Eq, Structural, Debug)]
pub enum DecisionPolicy {
    /// Magnetic-sensor variant: drive the logical NOT of the digital input.
    BinaryPassthrough,
    /// Digital-echo variant: mirror the digital input, negated when
    /// `inverted` is set.
    BinaryMirror { inverted: bool },
    /// Joystick variant: two axes adjust and override a blink interval.
    DualAxisInterval,
}

/// What one sampling pass produced.  The binary variants sample the analog
/// channel as telemetry only: the value is carried here so the converter is
/// exercised every iteration, but the decision ignores it.
#[derive(Clone, Copy, PartialEq, Eq, Structural, Debug)]
pub enum Readings {
    /// A digital level plus the telemetry-only analog sample.
    Binary { sensor_high: bool, telemetry: u16 },
    /// The two joystick axes.
    DualAxis { x: u16, y: u16 },
}

/// The actuation parameter: what threshold evaluation updates and actuation
/// consumes.  A scalar — either a direct output level or a blink interval in
/// milliseconds, according to the policy.
#[derive(Clone, Copy, PartialEq, Eq, Structural, Debug)]
pub enum ActuationParam {
    /// The level the output pin is to hold.
    Level(bool),
    /// The half-period of the blink signal, in milliseconds.
    IntervalMs(u32),
}

/// What the firmware is to do with the output pin after one iteration.
#[derive(Clone, Copy, PartialEq, Eq, Structural, Debug)]
pub enum Action {
    /// Drive the pin to this level and loop again immediately.
    DriveLevel(bool),
    /// Drive the pin high for `high_ms`, then low for `low_ms`, blocking
    /// through both waits; one full output period is their sum.
    Blink { high_ms: u32, low_ms: u32 },
}

/// Whether an actuation parameter is of the shape the policy updates.
pub open spec fn param_matches(policy: DecisionPolicy, param: ActuationParam) -> bool {
    match policy {
        DecisionPolicy::DualAxisInterval => param is IntervalMs,
        _ => param is Level,
    }
}

/// Whether a sampling pass produced what the policy decides from.
pub open spec fn readings_match(policy: DecisionPolicy, readings: Readings) -> bool {
    match policy {
        DecisionPolicy::DualAxisInterval => readings is DualAxis,
        _ => readings is Binary,
    }
}

/// The interval a parameter carries; zero for a level parameter, which no
/// interval policy ever holds.
pub open spec fn interval_of(param: ActuationParam) -> u32 {
    match param {
        ActuationParam::IntervalMs(ms) => ms,
        ActuationParam::Level(_) => 0,
    }
}

/// The decision rule of the loop: what one iteration's readings make of the
/// previous actuation parameter, under each policy.
pub open spec fn decide(
    policy: DecisionPolicy,
    param: ActuationParam,
    readings: Readings,
) -> ActuationParam
    recommends
        param_matches(policy, param),
        readings_match(policy, readings),
{
    match (policy, readings) {
        (DecisionPolicy::BinaryPassthrough, Readings::Binary { sensor_high, .. }) => {
            ActuationParam::Level(!sensor_high)
        },
        (DecisionPolicy::BinaryMirror { inverted }, Readings::Binary { sensor_high, .. }) => {
            ActuationParam::Level(sensor_high != inverted)
        },
        (DecisionPolicy::DualAxisInterval, Readings::DualAxis { x, y }) => {
            ActuationParam::IntervalMs(interval_after(x, y, interval_of(param)) as u32)
        },
        _ => param,
    }
}

/// How a parameter is realized on the output pin: a level is driven at once,
/// an interval blinks with equal high and low half-periods.
pub open spec fn action_for(param: ActuationParam) -> Action {
    match param {
        ActuationParam::Level(level) => Action::DriveLevel(level),
        ActuationParam::IntervalMs(ms) => Action::Blink { high_ms: ms, low_ms: ms },
    }
}

/// The decision core of the loop: the composed policy and the actuation
/// parameter it updates.  The policy never changes after composition.
#[derive(Clone, Copy, PartialEq, Eq, Structural, Debug)]
pub struct Controller {
    /// The policy the loop was composed with.
    pub policy: DecisionPolicy,
    /// The current actuation parameter.
    pub param: ActuationParam,
}

impl Controller {
    /// The controller's invariant: the parameter is of the shape its policy
    /// updates.
    pub open spec fn wf(self) -> bool {
        param_matches(self.policy, self.param)
    }

    /// Whether a sampling pass produced what this controller decides from.
    pub open spec fn accepts(self, readings: Readings) -> bool {
        readings_match(self.policy, readings)
    }

    /// A magnetic-sensor controller, with the level its pin starts at.
    pub fn new_binary_passthrough(initial_level: bool) -> (c: Controller)
        ensures
            c.wf(),
            c.policy == DecisionPolicy::BinaryPassthrough,
            c.param == ActuationParam::Level(initial_level),
    {
        Controller {
            policy: DecisionPolicy::BinaryPassthrough,
            param: ActuationParam::Level(initial_level),
        }
    }

    /// A digital-echo controller, with the level its pin starts at.
    pub fn new_binary_mirror(inverted: bool, initial_level: bool) -> (c: Controller)
        ensures
            c.wf(),
            c.policy == (DecisionPolicy::BinaryMirror { inverted }),
            c.param == ActuationParam::Level(initial_level),
    {
        Controller {
            policy: DecisionPolicy::BinaryMirror { inverted },
            param: ActuationParam::Level(initial_level),
        }
    }

    /// A joystick controller, with its starting blink interval.
    pub fn new_dual_axis(initial_interval_ms: u32) -> (c: Controller)
        ensures
            c.wf(),
            c.policy == DecisionPolicy::DualAxisInterval,
            c.param == ActuationParam::IntervalMs(initial_interval_ms),
    {
        Controller {
            policy: DecisionPolicy::DualAxisInterval,
            param: ActuationParam::IntervalMs(initial_interval_ms),
        }
    }

    /// Whether the controller's invariant holds; the firmware tests this
    /// before handing readings in.
    pub fn is_wf(&self) -> (ok: bool)
        ensures
            ok == self.wf(),
    {
        match (self.policy, self.param) {
            (DecisionPolicy::DualAxisInterval, ActuationParam::IntervalMs(_)) => true,
            (DecisionPolicy::DualAxisInterval, _) => false,
            (_, ActuationParam::Level(_)) => true,
            _ => false,
        }
    }

    /// Whether a sampling pass produced what this controller decides from;
    /// the firmware tests this before handing readings in.
    pub fn accepts_readings(&self, readings: &Readings) -> (ok: bool)
        ensures
            ok == self.accepts(*readings),
    {
        match (self.policy, readings) {
            (DecisionPolicy::DualAxisInterval, Readings::DualAxis { .. }) => true,
            (DecisionPolicy::DualAxisInterval, _) => false,
            (_, Readings::Binary { .. }) => true,
            _ => false,
        }
    }

    /// One decision: update the actuation parameter from this iteration's
    /// readings and say what to do with the output pin.
    pub fn step(&mut self, readings: Readings) -> (action: Action)
        requires
            old(self).wf(),
            old(self).accepts(readings),
        ensures
            final(self).wf(),
            final(self).policy == old(self).policy,
            final(self).param == decide(old(self).policy, old(self).param, readings),
            action == action_for(final(self).param),
    {
        match (self.policy, readings) {
            (DecisionPolicy::BinaryPassthrough, Readings::Binary { sensor_high, telemetry: _ }) => {
                let level = !sensor_high;
                self.param = ActuationParam::Level(level);
                Action::DriveLevel(level)
            },
            (DecisionPolicy::BinaryMirror { inverted }, Readings::Binary {
                sensor_high,
                telemetry: _,
            }) => {
                let level = sensor_high != inverted;
                self.param = ActuationParam::Level(level);
                Action::DriveLevel(level)
            },
            (DecisionPolicy::DualAxisInterval, Readings::DualAxis { x, y }) => {
                let prev_ms: u32 = match self.param {
                    ActuationParam::IntervalMs(ms) => ms,
                    ActuationParam::Level(_) => 0,
                };
                let next_ms = next_interval(x, y, prev_ms);
                self.param = ActuationParam::IntervalMs(next_ms);
                Action::Blink { high_ms: next_ms, low_ms: next_ms }
            },
            _ => unreached(),
        }
    }

    /// One full iteration as the decision core sees it: `sampled` is what the
    /// converter cell produced, or `None` when the cell was not ready, in
    /// which case nothing is decided and the actuation parameter — and so the
    /// pin's last-driven state — is left exactly as it was.
    pub fn iterate(&mut self, sampled: Option<Readings>) -> (action: Option<Action>)
        requires
            old(self).wf(),
            sampled is Some ==> old(self).accepts(sampled->0),
        ensures
            final(self).wf(),
            final(self).policy == old(self).policy,
            sampled is None ==> *final(self) == *old(self) && action is None,
            sampled is Some ==> final(self).param == decide(
                old(self).policy,
                old(self).param,
                sampled->0,
            ) && action == Some(action_for(final(self).param)),
    {
        match sampled {
            Some(readings) => Some(self.step(readings)),
            None => None,
        }
    }
}

/// Digital-echo law: after one iteration the decided output level equals the
/// digital input sampled that same iteration — negated in the inverted
/// sub-variant — independent of the analog reading's value and of the
/// previous actuation parameter.
pub proof fn lemma_mirror_echoes_input(
    inverted: bool,
    sensor_high: bool,
    telemetry: u16,
    param: ActuationParam,
)
    ensures
        decide(
            DecisionPolicy::BinaryMirror { inverted },
            param,
            Readings::Binary { sensor_high, telemetry },
        ) == ActuationParam::Level(sensor_high != inverted),
{
}

/// Magnetic-sensor law: the decided output level is the logical NOT of the
/// digital input; the analog sample taken in the same pass is telemetry only
/// and cannot influence it.
pub proof fn lemma_passthrough_ignores_telemetry(
    sensor_high: bool,
    telemetry: u16,
    param: ActuationParam,
)
    ensures
        decide(
            DecisionPolicy::BinaryPassthrough,
            param,
            Readings::Binary { sensor_high, telemetry },
        ) == ActuationParam::Level(!sensor_high),
{
}

} // verus!

