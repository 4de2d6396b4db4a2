use vstd::prelude::*;
use crate::flight::{FireError, FlightEvent};

verus! {

/// Pulse duration of every event, in milliseconds.
pub const PULSE_MS: u64 = 500;

/// Where an event's output pulse stands.
#[derive(Clone, Copy, Debug, PartialEq, Eq, Structural)]
pub enum PulseStatus {
    /// Never requested.
    Ready,
    /// Requested; the pulse is being driven and has not reported back.
    InFlight,
    /// The pulse was driven high and low again.
    Done,
    /// Driving the output failed; the event is not retried.
    Faulted,
}

impl FlightEvent {
    /// The output channel that drives this event.
    pub fn output_channel(self) -> (r: u8)
        ensures
            r == match self {
                FlightEvent::ChuteDeploy => 10u8,
                FlightEvent::BalloonRelease => 11u8,
                FlightEvent::BalloonPop => 12u8,
                FlightEvent::RocketLaunch => 13u8,
            },
    {
        match self {
            FlightEvent::ChuteDeploy => 10,
            FlightEvent::BalloonRelease => 11,
            FlightEvent::BalloonPop => 12,
            FlightEvent::RocketLaunch => 13,
        }
    }
}

/// Tracks, per event, whether its one pulse is still to come, in flight,
/// or over.
#[derive(Clone, Copy, Debug, PartialEq, Eq, Structural)]
pub struct PulseController {
    pub chute: PulseStatus,
    pub release: PulseStatus,
    pub pop: PulseStatus,
    pub rocket: PulseStatus,
}

impl PulseController {
    pub open spec fn status_of(self, e: FlightEvent) -> PulseStatus {
        match e {
            FlightEvent::ChuteDeploy => self.chute,
            FlightEvent::BalloonRelease => self.release,
            FlightEvent::BalloonPop => self.pop,
            FlightEvent::RocketLaunch => self.rocket,
        }
    }

    /// The controller with the status of `e` replaced by `st`.
    pub open spec fn with_status(self, e: FlightEvent, st: PulseStatus) -> PulseController {
        match e {
            FlightEvent::ChuteDeploy => PulseController { chute: st, ..self },
            FlightEvent::BalloonRelease => PulseController { release: st, ..self },
            FlightEvent::BalloonPop => PulseController { pop: st, ..self },
            FlightEvent::RocketLaunch => PulseController { rocket: st, ..self },
        }
    }

    pub open spec fn in_flight(self) -> bool {
        ||| self.chute == PulseStatus::InFlight
        ||| self.release == PulseStatus::InFlight
        ||| self.pop == PulseStatus::InFlight
        ||| self.rocket == PulseStatus::InFlight
    }

    pub fn new() -> (r: PulseController)
        ensures
            forall|e: FlightEvent| r.status_of(e) == PulseStatus::Ready,
            !r.in_flight(),
    {
        PulseController {
            chute: PulseStatus::Ready,
            release: PulseStatus::Ready,
            pop: PulseStatus::Ready,
            rocket: PulseStatus::Ready,
        }
    }

    pub fn status(&self, e: FlightEvent) -> (r: PulseStatus)
        ensures
            r == self.status_of(e),
    {
        match e {
            FlightEvent::ChuteDeploy => self.chute,
            FlightEvent::BalloonRelease => self.release,
            FlightEvent::BalloonPop => self.pop,
            FlightEvent::RocketLaunch => self.rocket,
        }
    }

    fn set_status(&mut self, e: FlightEvent, st: PulseStatus)
        ensures
            *final(self) == old(self).with_status(e, st),
    {
        match e {
            FlightEvent::ChuteDeploy => self.chute = st,
            FlightEvent::BalloonRelease => self.release = st,
            FlightEvent::BalloonPop => self.pop = st,
            FlightEvent::RocketLaunch => self.rocket = st,
        }
    }

    /// Whether some event's pulse is still being driven.
    pub fn any_in_flight(&self) -> (r: bool)
        ensures
            r == self.in_flight(),
    {
        self.chute == PulseStatus::InFlight || self.release == PulseStatus::InFlight
            || self.pop == PulseStatus::InFlight || self.rocket == PulseStatus::InFlight
    }

    /// Asks for the pulse of `e`. Granted only the first time: a request
    /// while the pulse is in flight, or after it, is refused and changes
    /// nothing.
    pub fn request(&mut self, e: FlightEvent) -> (r: Result<(), FireError>)
        ensures
            r is Ok <==> old(self).status_of(e) == PulseStatus::Ready,
            r is Ok ==> *final(self) == old(self).with_status(e, PulseStatus::InFlight),
            r is Err ==> *final(self) == *old(self),
            old(self).status_of(e) == PulseStatus::InFlight ==> r == Err::<(), FireError>(
                FireError::InFlight,
            ),
            (old(self).status_of(e) == PulseStatus::Done || old(self).status_of(e)
                == PulseStatus::Faulted) ==> r == Err::<(), FireError>(FireError::AlreadyFired),
    {
        match self.status(e) {
            PulseStatus::Ready => {
                self.set_status(e, PulseStatus::InFlight);
                Ok(())
            },
            PulseStatus::InFlight => Err(FireError::InFlight),
            _ => Err(FireError::AlreadyFired),
        }
    }

    /// Takes the report of the pulse of `e`: `ok` when the output was driven
    /// high and low again, false on a fault. A report for an event with no
    /// pulse in flight changes nothing.
    pub fn finish(&mut self, e: FlightEvent, ok: bool)
        ensures
            old(self).status_of(e) == PulseStatus::InFlight ==> *final(self) == old(
                self,
            ).with_status(e, if ok { PulseStatus::Done } else { PulseStatus::Faulted }),
            old(self).status_of(e) != PulseStatus::InFlight ==> *final(self) == *old(self),
    {
        if self.status(e) == PulseStatus::InFlight {
            if ok {
                self.set_status(e, PulseStatus::Done);
            } else {
                self.set_status(e, PulseStatus::Faulted);
            }
        }
    }
}

} // verus!
