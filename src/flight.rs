use vstd::prelude::*;
use crate::altitude::{
    at_or_above, at_or_below, is_at_or_above, is_at_or_below, BALLOON_POP_FEET,
    BALLOON_RELEASE_FEET, CHUTE_DEPLOY_FEET, ROCKET_FEET,
};

verus! {

/// The physical one-shot events, each driven by its own output channel.
#[derive(Clone, Copy, Debug, PartialEq, Eq, Structural)]
pub enum FlightEvent {
    ChuteDeploy,
    BalloonRelease,
    BalloonPop,
    RocketLaunch,
}

/// What the sequencer intends to do next. `Idle` is the decision state, in
/// which no event is targeted.
#[derive(Clone, Copy, Debug, PartialEq, Eq, Structural)]
pub enum FlightPhase {
    Idle,
    ChuteDeploying,
    BalloonReleasing,
    BalloonPopping,
    RocketLaunching,
}

/// The event a phase intends to fire.
pub open spec fn event_of(p: FlightPhase) -> Option<FlightEvent> {
    match p {
        FlightPhase::Idle => None,
        FlightPhase::ChuteDeploying => Some(FlightEvent::ChuteDeploy),
        FlightPhase::BalloonReleasing => Some(FlightEvent::BalloonRelease),
        FlightPhase::BalloonPopping => Some(FlightEvent::BalloonPop),
        FlightPhase::RocketLaunching => Some(FlightEvent::RocketLaunch),
    }
}

impl FlightPhase {
    pub fn event(self) -> (r: Option<FlightEvent>)
        ensures
            r == event_of(self),
    {
        match self {
            FlightPhase::Idle => None,
            FlightPhase::ChuteDeploying => Some(FlightEvent::ChuteDeploy),
            FlightPhase::BalloonReleasing => Some(FlightEvent::BalloonRelease),
            FlightPhase::BalloonPopping => Some(FlightEvent::BalloonPop),
            FlightPhase::RocketLaunching => Some(FlightEvent::RocketLaunch),
        }
    }
}

/// The order in which events fire: each one is unlocked only once all
/// events before it have fired.
pub open spec fn event_order() -> Seq<FlightEvent> {
    seq![
        FlightEvent::RocketLaunch,
        FlightEvent::BalloonPop,
        FlightEvent::BalloonRelease,
        FlightEvent::ChuteDeploy,
    ]
}

/// Position of an event in `event_order`.
pub open spec fn rank(e: FlightEvent) -> nat {
    match e {
        FlightEvent::RocketLaunch => 0,
        FlightEvent::BalloonPop => 1,
        FlightEvent::BalloonRelease => 2,
        FlightEvent::ChuteDeploy => 3,
    }
}

/// One-way records of which events have fired.
#[derive(Clone, Copy, Debug, PartialEq, Eq, Structural)]
pub struct EventFlags {
    pub rocket_fired: bool,
    pub balloon_popped: bool,
    pub balloon_released: bool,
    pub chute_deployed: bool,
}

impl EventFlags {
    pub open spec fn has(self, e: FlightEvent) -> bool {
        match e {
            FlightEvent::RocketLaunch => self.rocket_fired,
            FlightEvent::BalloonPop => self.balloon_popped,
            FlightEvent::BalloonRelease => self.balloon_released,
            FlightEvent::ChuteDeploy => self.chute_deployed,
        }
    }

    /// The flags with `e` recorded as fired.
    pub open spec fn with(self, e: FlightEvent) -> EventFlags {
        match e {
            FlightEvent::RocketLaunch => EventFlags { rocket_fired: true, ..self },
            FlightEvent::BalloonPop => EventFlags { balloon_popped: true, ..self },
            FlightEvent::BalloonRelease => EventFlags { balloon_released: true, ..self },
            FlightEvent::ChuteDeploy => EventFlags { chute_deployed: true, ..self },
        }
    }

    /// The unlock precondition of `e`: the events before it have fired and
    /// `e` itself has not.
    pub open spec fn unlocks(self, e: FlightEvent) -> bool {
        match e {
            FlightEvent::RocketLaunch => !self.rocket_fired && !self.balloon_popped
                && !self.balloon_released && !self.chute_deployed,
            FlightEvent::BalloonPop => self.rocket_fired && !self.balloon_popped,
            FlightEvent::BalloonRelease => self.rocket_fired && self.balloon_popped
                && !self.balloon_released,
            FlightEvent::ChuteDeploy => self.rocket_fired && self.balloon_popped
                && self.balloon_released && !self.chute_deployed,
        }
    }

    /// The flags set form a prefix of `event_order`.
    pub open spec fn wf(self) -> bool {
        &&& self.chute_deployed ==> self.balloon_released
        &&& self.balloon_released ==> self.balloon_popped
        &&& self.balloon_popped ==> self.rocket_fired
    }

    /// How many events have fired.
    pub open spec fn count(self) -> nat {
        (if self.rocket_fired { 1nat } else { 0nat }) + (if self.balloon_popped { 1nat } else { 0nat })
            + (if self.balloon_released { 1nat } else { 0nat }) + (if self.chute_deployed {
            1nat
        } else {
            0nat
        })
    }

    /// Every flag set in `self` is set in `other`.
    pub open spec fn within(self, other: EventFlags) -> bool {
        &&& self.rocket_fired ==> other.rocket_fired
        &&& self.balloon_popped ==> other.balloon_popped
        &&& self.balloon_released ==> other.balloon_released
        &&& self.chute_deployed ==> other.chute_deployed
    }

    pub fn none() -> (r: EventFlags)
        ensures
            r.wf(),
            r.count() == 0,
            !r.rocket_fired && !r.balloon_popped && !r.balloon_released && !r.chute_deployed,
    {
        EventFlags {
            rocket_fired: false,
            balloon_popped: false,
            balloon_released: false,
            chute_deployed: false,
        }
    }

    pub fn is_set(&self, e: FlightEvent) -> (r: bool)
        ensures
            r == self.has(e),
    {
        match e {
            FlightEvent::RocketLaunch => self.rocket_fired,
            FlightEvent::BalloonPop => self.balloon_popped,
            FlightEvent::BalloonRelease => self.balloon_released,
            FlightEvent::ChuteDeploy => self.chute_deployed,
        }
    }

    /// Whether the unlock precondition of `e` holds.
    pub fn is_unlocked(&self, e: FlightEvent) -> (r: bool)
        ensures
            r == self.unlocks(e),
    {
        match e {
            FlightEvent::RocketLaunch => !self.rocket_fired && !self.balloon_popped
                && !self.balloon_released && !self.chute_deployed,
            FlightEvent::BalloonPop => self.rocket_fired && !self.balloon_popped,
            FlightEvent::BalloonRelease => self.rocket_fired && self.balloon_popped
                && !self.balloon_released,
            FlightEvent::ChuteDeploy => self.rocket_fired && self.balloon_popped
                && self.balloon_released && !self.chute_deployed,
        }
    }

    /// Records `e` as fired.
    pub fn set(&mut self, e: FlightEvent)
        ensures
            *final(self) == old(self).with(e),
    {
        match e {
            FlightEvent::RocketLaunch => self.rocket_fired = true,
            FlightEvent::BalloonPop => self.balloon_popped = true,
            FlightEvent::BalloonRelease => self.balloon_released = true,
            FlightEvent::ChuteDeploy => self.chute_deployed = true,
        }
    }
}

/// Externally sourced signals that authorise a transition whatever the
/// altitude.
#[derive(Clone, Copy, Debug, PartialEq, Eq, Structural)]
pub struct OverrideFlags {
    pub force_rocket: bool,
    pub force_pop: bool,
    pub force_release: bool,
    pub force_chute: bool,
}

impl OverrideFlags {
    pub open spec fn any(self) -> bool {
        self.force_rocket || self.force_pop || self.force_release || self.force_chute
    }
}

/// The override reading when no override source is wired: nothing forced.
pub fn checkFlags() -> (r: OverrideFlags)
    ensures
        !r.any(),
{
    OverrideFlags { force_rocket: false, force_pop: false, force_release: false, force_chute: false }
}

/// An optional altitude as a mathematical integer.
pub open spec fn widen(alt_mm: Option<i32>) -> Option<int> {
    match alt_mm {
        Some(a) => Some(a as int),
        None => None,
    }
}

/// `alt_mm` is a known altitude at or below `feet` feet.
pub open spec fn known_at_or_below(alt_mm: Option<int>, feet: int) -> bool {
    alt_mm matches Some(a) && at_or_below(a, feet)
}

/// `alt_mm` is a known altitude at or above `feet` feet.
pub open spec fn known_at_or_above(alt_mm: Option<int>, feet: int) -> bool {
    alt_mm matches Some(a) && at_or_above(a, feet)
}

/// The decision ladder: the phase targeted at altitude `alt_mm` (`None`
/// when no usable altitude exists, so only overrides can target), first
/// match winning, or `None` for no change. A rung whose event has already
/// fired is passed over.
pub open spec fn ladder(alt_mm: Option<int>, flags: EventFlags, ov: OverrideFlags) -> Option<FlightPhase> {
    if (known_at_or_above(alt_mm, ROCKET_FEET as int) && !flags.rocket_fired) || ov.force_rocket {
        Some(FlightPhase::RocketLaunching)
    } else if (known_at_or_below(alt_mm, BALLOON_POP_FEET as int) || ov.force_pop)
        && !flags.balloon_popped {
        Some(FlightPhase::BalloonPopping)
    } else if (known_at_or_below(alt_mm, BALLOON_RELEASE_FEET as int) || ov.force_release)
        && !flags.balloon_released {
        Some(FlightPhase::BalloonReleasing)
    } else if (known_at_or_below(alt_mm, CHUTE_DEPLOY_FEET as int) || ov.force_chute)
        && !flags.chute_deployed {
        Some(FlightPhase::ChuteDeploying)
    } else {
        None
    }
}

/// Whether `alt_mm` is a known altitude at or below `feet` feet.
fn known_below(alt_mm: Option<i32>, feet: i64) -> (r: bool)
    requires
        0 <= feet <= 1_000_000,
    ensures
        r == known_at_or_below(widen(alt_mm), feet as int),
{
    match alt_mm {
        Some(a) => is_at_or_below(a, feet),
        None => false,
    }
}

/// Whether `alt_mm` is a known altitude at or above `feet` feet.
fn known_above(alt_mm: Option<i32>, feet: i64) -> (r: bool)
    requires
        0 <= feet <= 1_000_000,
    ensures
        r == known_at_or_above(widen(alt_mm), feet as int),
{
    match alt_mm {
        Some(a) => is_at_or_above(a, feet),
        None => false,
    }
}

/// The phase and the event flags: the whole decision state of a flight.
#[derive(Clone, Copy, Debug, PartialEq, Eq, Structural)]
pub struct FlightState {
    pub phase: FlightPhase,
    pub flags: EventFlags,
}

/// The state after the ladder has been evaluated: the phase becomes the
/// target, or stays as it was when nothing is targeted.
pub open spec fn transition_spec(s: FlightState, alt_mm: Option<int>, ov: OverrideFlags) -> FlightState {
    match ladder(alt_mm, s.flags, ov) {
        Some(p) => FlightState { phase: p, flags: s.flags },
        None => s,
    }
}

/// One decision: evaluate the ladder, then fire the targeted event if its
/// unlock precondition holds. Firing records the flag and returns the phase
/// to `Idle`.
pub open spec fn step_spec(s: FlightState, alt_mm: Option<int>, ov: OverrideFlags) -> (FlightState, Option<FlightEvent>) {
    let t = transition_spec(s, alt_mm, ov);
    match event_of(t.phase) {
        Some(e) if t.flags.unlocks(e) => (
            FlightState { phase: FlightPhase::Idle, flags: t.flags.with(e) },
            Some(e),
        ),
        _ => (t, None),
    }
}

impl FlightState {
    /// The state at process start: idle, nothing fired.
    pub fn new() -> (r: FlightState)
        ensures
            r.phase == FlightPhase::Idle,
            r.flags == (EventFlags {
                rocket_fired: false,
                balloon_popped: false,
                balloon_released: false,
                chute_deployed: false,
            }),
            r.flags.count() == 0,
            r.flags.wf(),
    {
        FlightState { phase: FlightPhase::Idle, flags: EventFlags::none() }
    }

    /// Evaluates the decision ladder and sets the phase to its target.
    pub fn transition(&mut self, alt_mm: Option<i32>, ov: OverrideFlags)
        ensures
            *final(self) == transition_spec(*old(self), widen(alt_mm), ov),
    {
        if (known_above(alt_mm, ROCKET_FEET) && !self.flags.rocket_fired) || ov.force_rocket {
            self.phase = FlightPhase::RocketLaunching;
        } else if (known_below(alt_mm, BALLOON_POP_FEET) || ov.force_pop)
            && !self.flags.balloon_popped {
            self.phase = FlightPhase::BalloonPopping;
        } else if (known_below(alt_mm, BALLOON_RELEASE_FEET) || ov.force_release)
            && !self.flags.balloon_released {
            self.phase = FlightPhase::BalloonReleasing;
        } else if (known_below(alt_mm, CHUTE_DEPLOY_FEET) || ov.force_chute)
            && !self.flags.chute_deployed {
            self.phase = FlightPhase::ChuteDeploying;
        }
    }

    /// Fires `e`: records its flag and returns to `Idle`. An event whose
    /// unlock precondition does not hold is rejected and nothing changes.
    pub fn fire(&mut self, e: FlightEvent) -> (r: Result<(), FireError>)
        ensures
            r is Ok <==> old(self).flags.unlocks(e),
            r is Ok ==> *final(self) == (FlightState {
                phase: FlightPhase::Idle,
                flags: old(self).flags.with(e),
            }),
            r is Err ==> r == Err::<(), FireError>(FireError::Locked) && *final(self) == *old(self),
    {
        if self.flags.is_unlocked(e) {
            self.flags.set(e);
            self.phase = FlightPhase::Idle;
            Ok(())
        } else {
            Err(FireError::Locked)
        }
    }

    /// One decision at altitude `alt_mm` (`None`: no usable altitude) under
    /// the overrides `ov`; returns the event fired, if any.
    pub fn step(&mut self, alt_mm: Option<i32>, ov: OverrideFlags) -> (r: Option<FlightEvent>)
        ensures
            (*final(self), r) == step_spec(*old(self), widen(alt_mm), ov),
    {
        self.transition(alt_mm, ov);
        match self.phase.event() {
            Some(e) => {
                if self.flags.is_unlocked(e) {
                    let _ = self.fire(e);
                    Some(e)
                } else {
                    None
                }
            },
            None => None,
        }
    }
}

/// Why a request to fire an event was refused.
#[derive(Clone, Copy, Debug, PartialEq, Eq, Structural)]
pub enum FireError {
    /// The event's unlock precondition does not hold.
    Locked,
    /// A pulse for the event is still being driven.
    InFlight,
    /// The event's pulse has already been driven once.
    AlreadyFired,
}

} // verus!
