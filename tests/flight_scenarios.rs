use balloon_sequencer::altitude::AltitudeReading;
use balloon_sequencer::flight::{
    checkFlags, EventFlags, FireError, FlightEvent, FlightPhase, FlightState, OverrideFlags,
};
use balloon_sequencer::pulse::{PulseController, PulseStatus};
use balloon_sequencer::sequencer::FlightSequencer;

fn no_overrides() -> OverrideFlags {
    checkFlags()
}

fn metres(m: i32) -> i32 {
    m * 1000
}

/// Feeds one reading and makes one decision.
fn iterate(seq: &mut FlightSequencer, alt_mm: i32, time_ms: u64, ov: OverrideFlags) -> Option<FlightEvent> {
    seq.record_altitude(Some(AltitudeReading { altitude_mm: alt_mm, time_ms }));
    seq.decide(ov)
}

fn ascent_done() -> EventFlags {
    EventFlags { rocket_fired: true, balloon_popped: true, balloon_released: true, chute_deployed: false }
}

#[test]
fn monotonic_rise_fires_only_rocket() {
    let mut seq = FlightSequencer::new();
    let mut fired = Vec::new();
    let mut t: u64 = 0;
    let mut alt: i32 = 0;
    while alt <= metres(700) {
        if let Some(e) = iterate(&mut seq, alt, t, no_overrides()) {
            fired.push(e);
            seq.pulse_finished(e, true);
        }
        alt += 10_000;
        t += 1000;
    }
    assert_eq!(fired, vec![FlightEvent::RocketLaunch]);
    assert!(seq.state.flags.rocket_fired);
    assert!(!seq.state.flags.balloon_popped);
    assert!(!seq.state.flags.balloon_released);
    assert!(!seq.state.flags.chute_deployed);
}

#[test]
fn descent_deploys_chute_once_without_refiring() {
    let mut state = FlightState { phase: FlightPhase::Idle, flags: ascent_done() };
    assert_eq!(state.step(Some(metres(1000)), no_overrides()), None);
    assert_eq!(state.step(Some(metres(500)), no_overrides()), None);
    assert_eq!(state, FlightState { phase: FlightPhase::Idle, flags: ascent_done() });
    assert_eq!(state.step(Some(metres(300)), no_overrides()), Some(FlightEvent::ChuteDeploy));
    assert!(state.flags.chute_deployed);
    assert_eq!(state.phase, FlightPhase::Idle);
    assert_eq!(state.step(Some(metres(300)), no_overrides()), None);
    assert_eq!(state.step(Some(metres(250)), no_overrides()), None);
    assert!(state.flags.rocket_fired && state.flags.balloon_popped && state.flags.balloon_released);
}

#[test]
fn chute_waits_at_threshold_edge() {
    let mut state = FlightState { phase: FlightPhase::Idle, flags: ascent_done() };
    // 304.879 m is above 1000 ft / 3.28; 304.878 m is not
    assert_eq!(state.step(Some(304_879), no_overrides()), None);
    assert_eq!(state.step(Some(304_878), no_overrides()), Some(FlightEvent::ChuteDeploy));
}

#[test]
fn chute_fires_once_by_override_above_descent_bands() {
    let mut state = FlightState { phase: FlightPhase::Idle, flags: ascent_done() };
    let ov = OverrideFlags { force_rocket: false, force_pop: false, force_release: false, force_chute: true };
    assert_eq!(state.step(Some(metres(580)), ov), Some(FlightEvent::ChuteDeploy));
    assert!(state.flags.chute_deployed);
    assert_eq!(state.phase, FlightPhase::Idle);
    assert_eq!(state.step(Some(metres(580)), ov), None);
}

#[test]
fn forced_pop_fires_above_pop_threshold() {
    let mut state = FlightState {
        phase: FlightPhase::Idle,
        flags: EventFlags { rocket_fired: true, balloon_popped: false, balloon_released: false, chute_deployed: false },
    };
    let ov = OverrideFlags { force_rocket: false, force_pop: true, force_release: false, force_chute: false };
    assert_eq!(state.step(Some(metres(900)), ov), Some(FlightEvent::BalloonPop));
    assert!(state.flags.balloon_popped);
    assert!(!state.flags.balloon_released);
}

#[test]
fn rocket_pulse_fires_once_while_in_flight() {
    let mut seq = FlightSequencer::new();
    let ov = OverrideFlags { force_rocket: true, force_pop: false, force_release: false, force_chute: false };
    assert_eq!(iterate(&mut seq, metres(650), 0, ov), Some(FlightEvent::RocketLaunch));
    assert_eq!(seq.pulses.status(FlightEvent::RocketLaunch), PulseStatus::InFlight);
    assert_eq!(iterate(&mut seq, metres(660), 1000, ov), None);
    assert_eq!(seq.pulses.status(FlightEvent::RocketLaunch), PulseStatus::InFlight);

    let mut pulses = PulseController::new();
    assert_eq!(pulses.request(FlightEvent::RocketLaunch), Ok(()));
    assert_eq!(pulses.request(FlightEvent::RocketLaunch), Err(FireError::InFlight));
}

#[test]
fn vertical_rate_one_second_apart() {
    let mut seq = FlightSequencer::new();
    seq.record_altitude(Some(AltitudeReading { altitude_mm: 100_000, time_ms: 0 }));
    assert_eq!(seq.vertical_rate(), None);
    seq.record_altitude(Some(AltitudeReading { altitude_mm: 105_000, time_ms: 1000 }));
    assert_eq!(seq.vertical_rate(), Some(5000));
}

#[test]
fn events_fire_in_causal_order_under_overrides() {
    let mut seq = FlightSequencer::new();
    let mk = |r, p, rel, c| OverrideFlags { force_rocket: r, force_pop: p, force_release: rel, force_chute: c };
    let plan = [
        mk(false, false, false, true),
        mk(false, false, true, false),
        mk(false, true, false, false),
        mk(true, false, false, false),
        mk(false, true, false, false),
        mk(false, false, true, false),
        mk(false, false, false, true),
        mk(true, true, true, true),
    ];
    let mut fired = Vec::new();
    for (i, ov) in plan.iter().enumerate() {
        if let Some(e) = iterate(&mut seq, metres(580), i as u64 * 1000, *ov) {
            fired.push(e);
            seq.pulse_finished(e, true);
        }
    }
    assert_eq!(
        fired,
        vec![
            FlightEvent::RocketLaunch,
            FlightEvent::BalloonPop,
            FlightEvent::BalloonRelease,
            FlightEvent::ChuteDeploy
        ]
    );
}

#[test]
fn descent_band_is_fixed_point_once_chute_deployed() {
    let all = EventFlags { rocket_fired: true, balloon_popped: true, balloon_released: true, chute_deployed: true };
    let start = FlightState { phase: FlightPhase::Idle, flags: all };
    let mut state = start;
    for alt in [metres(400), metres(305), metres(457)] {
        assert_eq!(state.step(Some(alt), no_overrides()), None);
        assert_eq!(state, start);
    }
}

#[test]
fn fire_out_of_order_is_rejected() {
    let mut state = FlightState::new();
    assert_eq!(state.fire(FlightEvent::ChuteDeploy), Err(FireError::Locked));
    assert_eq!(state, FlightState::new());
    assert_eq!(state.fire(FlightEvent::RocketLaunch), Ok(()));
    assert_eq!(state.fire(FlightEvent::RocketLaunch), Err(FireError::Locked));
    assert_eq!(state.fire(FlightEvent::BalloonPop), Ok(()));
    assert!(state.flags.rocket_fired && state.flags.balloon_popped);
}

#[test]
fn pulse_after_completion_is_already_fired() {
    let mut pulses = PulseController::new();
    assert_eq!(pulses.request(FlightEvent::BalloonPop), Ok(()));
    assert!(pulses.any_in_flight());
    pulses.finish(FlightEvent::BalloonPop, true);
    assert!(!pulses.any_in_flight());
    assert_eq!(pulses.status(FlightEvent::BalloonPop), PulseStatus::Done);
    assert_eq!(pulses.request(FlightEvent::BalloonPop), Err(FireError::AlreadyFired));
}

#[test]
fn actuation_fault_is_observable_and_not_retried() {
    let mut seq = FlightSequencer::new();
    assert_eq!(iterate(&mut seq, metres(620), 0, no_overrides()), Some(FlightEvent::RocketLaunch));
    seq.pulse_finished(FlightEvent::RocketLaunch, false);
    assert_eq!(seq.pulses.status(FlightEvent::RocketLaunch), PulseStatus::Faulted);
    assert_eq!(iterate(&mut seq, metres(630), 1000, no_overrides()), None);
    assert_eq!(seq.pulses.request(FlightEvent::RocketLaunch), Err(FireError::AlreadyFired));
}

#[test]
fn report_for_idle_pulse_changes_nothing() {
    let mut pulses = PulseController::new();
    pulses.finish(FlightEvent::ChuteDeploy, false);
    assert_eq!(pulses, PulseController::new());
}

#[test]
fn overrides_act_without_altitude() {
    let mut seq = FlightSequencer::new();
    assert_eq!(seq.decide(no_overrides()), None);
    assert_eq!(seq.state, FlightState::new());
    let ov = OverrideFlags { force_rocket: true, force_pop: false, force_release: false, force_chute: false };
    assert_eq!(seq.decide(ov), Some(FlightEvent::RocketLaunch));
    assert!(seq.state.flags.rocket_fired);
}

#[test]
fn stale_altitude_is_not_acted_on() {
    let mut seq = FlightSequencer::new();
    seq.record_altitude(Some(AltitudeReading { altitude_mm: metres(650), time_ms: 0 }));
    for _ in 0..4 {
        seq.record_altitude(None);
    }
    assert_eq!(seq.decide(no_overrides()), None);
    assert!(!seq.state.flags.rocket_fired);
}

#[test]
fn no_decision_while_pulse_in_flight() {
    let mut seq = FlightSequencer::new();
    assert_eq!(iterate(&mut seq, metres(620), 0, no_overrides()), Some(FlightEvent::RocketLaunch));
    let ov = OverrideFlags { force_rocket: false, force_pop: true, force_release: false, force_chute: false };
    let before = seq.state;
    assert_eq!(iterate(&mut seq, metres(620), 1000, ov), None);
    assert_eq!(seq.state, before);
    seq.pulse_finished(FlightEvent::RocketLaunch, true);
    assert_eq!(seq.decide(ov), Some(FlightEvent::BalloonPop));
}

#[test]
fn output_channels() {
    assert_eq!(FlightEvent::ChuteDeploy.output_channel(), 10);
    assert_eq!(FlightEvent::BalloonRelease.output_channel(), 11);
    assert_eq!(FlightEvent::BalloonPop.output_channel(), 12);
    assert_eq!(FlightEvent::RocketLaunch.output_channel(), 13);
}

#[test]
fn phase_events() {
    assert_eq!(FlightPhase::Idle.event(), None);
    assert_eq!(FlightPhase::BalloonReleasing.event(), Some(FlightEvent::BalloonRelease));
}
