use vstd::prelude::*;
use crate::altitude::{AltitudeReading, AltitudeSample, AltitudeSampler};
use crate::flight::{step_spec, widen, EventFlags, FlightEvent, FlightPhase, FlightState, OverrideFlags};
use crate::laws::lemma_step_orders_flags;
use crate::pulse::{PulseController, PulseStatus};

verus! {

/// What the control loop owns: the flight state, the altitude sampler and
/// the pulse controller. Each loop iteration calls `read_due`, then
/// `record_altitude` when a read was due, then `decide`; a pulse that
/// `decide` starts is reported back through `pulse_finished`.
#[derive(Clone, Copy, Debug)]
pub struct FlightSequencer {
    pub state: FlightState,
    pub sampler: AltitudeSampler,
    pub pulses: PulseController,
}

impl FlightSequencer {
    /// The flags are well ordered, and an event has been fired exactly when
    /// its pulse has been requested.
    pub open spec fn wf(self) -> bool {
        &&& self.state.flags.wf()
        &&& self.sampler.wf()
        &&& forall|e: FlightEvent|
            #![auto]
            self.state.flags.has(e) <==> self.pulses.status_of(e) != PulseStatus::Ready
    }

    pub fn new() -> (r: FlightSequencer)
        ensures
            r.wf(),
            r.state == (FlightState {
                phase: FlightPhase::Idle,
                flags: EventFlags {
                    rocket_fired: false,
                    balloon_popped: false,
                    balloon_released: false,
                    chute_deployed: false,
                },
            }),
            r.sampler.counter == 0,
            r.sampler.sample == (AltitudeSample { previous: None, current: None }),
            r.sampler.failed_reads == 0,
            forall|e: FlightEvent| r.pulses.status_of(e) == PulseStatus::Ready,
            !r.pulses.in_flight(),
    {
        FlightSequencer {
            state: FlightState::new(),
            sampler: AltitudeSampler::new(),
            pulses: PulseController::new(),
        }
    }

    /// Advances the sampling cadence; true when the altitude source is to be
    /// read in this iteration.
    pub fn read_due(&mut self) -> (due: bool)
        requires
            old(self).wf(),
        ensures
            final(self).wf(),
            final(self).sampler.counter == (old(self).sampler.counter + 1) % 256,
            due == (final(self).sampler.counter == 0),
            final(self).sampler.sample == old(self).sampler.sample,
            final(self).sampler.failed_reads == old(self).sampler.failed_reads,
            final(self).state == old(self).state,
            final(self).pulses == old(self).pulses,
    {
        self.sampler.tick()
    }

    /// Stores the outcome of a read of the altitude source (`None` when the
    /// read failed).
    pub fn record_altitude(&mut self, reading: Option<AltitudeReading>)
        requires
            old(self).wf(),
        ensures
            final(self).wf(),
            final(self).state == old(self).state,
            final(self).pulses == old(self).pulses,
            final(self).sampler.counter == old(self).sampler.counter,
            match reading {
                Some(r) => {
                    &&& final(self).sampler.sample == (AltitudeSample {
                        previous: old(self).sampler.sample.current,
                        current: Some(r),
                    })
                    &&& final(self).sampler.failed_reads == 0
                },
                None => {
                    &&& final(self).sampler.sample == old(self).sampler.sample
                    &&& final(self).sampler.failed_reads == if old(self).sampler.failed_reads
                        == 255 {
                        255
                    } else {
                        old(self).sampler.failed_reads + 1
                    }
                },
            },
    {
        self.sampler.record(reading);
    }

    /// The decision of one loop iteration. While a pulse is in flight
    /// nothing is decided. Otherwise the ladder is evaluated at the latest
    /// usable altitude, or on the overrides alone when there is none; an
    /// event that fires has its pulse requested, and is returned for the
    /// caller to drive.
    pub fn decide(&mut self, ov: OverrideFlags) -> (r: Option<FlightEvent>)
        requires
            old(self).wf(),
        ensures
            final(self).wf(),
            final(self).sampler == old(self).sampler,
            r matches Some(e) ==> old(self).pulses.status_of(e) == PulseStatus::Ready,
            old(self).pulses.in_flight() ==> r is None && *final(self) == *old(self),
            !old(self).pulses.in_flight() ==> {
                &&& (final(self).state, r) == step_spec(
                    old(self).state,
                    widen(old(self).sampler.usable_altitude()),
                    ov,
                )
                &&& match r {
                    Some(e) => final(self).pulses == old(self).pulses.with_status(
                        e,
                        PulseStatus::InFlight,
                    ),
                    None => final(self).pulses == old(self).pulses,
                }
            },
    {
        if self.pulses.any_in_flight() {
            return None;
        }
        let alt = self.sampler.altitude();
        proof {
            lemma_step_orders_flags(self.state, widen(alt), ov);
        }
        let ghost before = *self;
        let fired = self.state.step(alt, ov);
        match fired {
            Some(e) => {
                let _ = self.pulses.request(e);
            },
            None => {},
        }
        proof {
            assert forall|e: FlightEvent|
                self.state.flags.has(e) <==> self.pulses.status_of(e) != PulseStatus::Ready by {
                assert(before.state.flags.has(e) <==> before.pulses.status_of(e)
                    != PulseStatus::Ready);
            }
        }
        fired
    }

    /// Takes the report of the pulse of `e`: `ok` when it was driven high and
    /// low again, false on an actuation fault.
    pub fn pulse_finished(&mut self, e: FlightEvent, ok: bool)
        requires
            old(self).wf(),
        ensures
            final(self).wf(),
            final(self).state == old(self).state,
            final(self).sampler == old(self).sampler,
            old(self).pulses.status_of(e) == PulseStatus::InFlight ==> final(self).pulses == old(
                self,
            ).pulses.with_status(e, if ok { PulseStatus::Done } else { PulseStatus::Faulted }),
            old(self).pulses.status_of(e) != PulseStatus::InFlight ==> final(self).pulses == old(
                self,
            ).pulses,
    {
        let ghost before = *self;
        self.pulses.finish(e, ok);
        proof {
            assert forall|e2: FlightEvent|
                self.state.flags.has(e2) <==> self.pulses.status_of(e2) != PulseStatus::Ready by {
                assert(before.state.flags.has(e2) <==> before.pulses.status_of(e2)
                    != PulseStatus::Ready);
            }
        }
    }

    /// Vertical rate in millimetres per second between the last two
    /// readings, when it can be derived.
    pub fn vertical_rate(&self) -> (r: Option<i64>)
        ensures
            r matches Some(v) ==> self.sampler.sample.rate_spec() == Some(v as int),
            r is None <==> self.sampler.sample.rate_spec() is None,
    {
        self.sampler.sample.rate()
    }
}

} // verus!
