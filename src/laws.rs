use vstd::prelude::*;
use crate::altitude::{at_or_below, BALLOON_RELEASE_FEET, CHUTE_DEPLOY_FEET};
use crate::flight::{
    event_order, rank, step_spec, EventFlags, FlightEvent, FlightPhase, FlightState,
    OverrideFlags,
};

verus! {

/// Runs the decision step over a sequence of (altitude, overrides) inputs;
/// gives the final state and the events fired, in firing order.
pub open spec fn run(s: FlightState, inputs: Seq<(Option<int>, OverrideFlags)>) -> (FlightState, Seq<FlightEvent>)
    decreases inputs.len(),
{
    if inputs.len() == 0 {
        (s, Seq::empty())
    } else {
        let (s1, fired) = step_spec(s, inputs[0].0, inputs[0].1);
        let (s2, rest) = run(s1, inputs.drop_first());
        match fired {
            Some(e) => (s2, seq![e] + rest),
            None => (s2, rest),
        }
    }
}

/// One step keeps the flags well ordered and never clears a flag; it sets
/// at most one flag, and the one it sets belongs to the event fired, which
/// is the next event of `event_order`.
pub proof fn lemma_step_orders_flags(s: FlightState, alt_mm: Option<int>, ov: OverrideFlags)
    requires
        s.flags.wf(),
    ensures
        step_spec(s, alt_mm, ov).0.flags.wf(),
        s.flags.within(step_spec(s, alt_mm, ov).0.flags),
        match step_spec(s, alt_mm, ov).1 {
            Some(e) => {
                &&& !s.flags.has(e)
                &&& step_spec(s, alt_mm, ov).0.flags == s.flags.with(e)
                &&& rank(e) == s.flags.count()
                &&& step_spec(s, alt_mm, ov).0.flags.count() == s.flags.count() + 1
            },
            None => step_spec(s, alt_mm, ov).0.flags == s.flags,
        },
{
}

/// Over any sequence of altitudes and overrides, the events fired are the
/// next ones of `event_order` (rocket, pop, release, chute), in that order,
/// each at most once; flags stay well ordered and none is ever cleared.
pub proof fn lemma_run_fires_in_order(s: FlightState, inputs: Seq<(Option<int>, OverrideFlags)>)
    requires
        s.flags.wf(),
    ensures
        run(s, inputs).0.flags.wf(),
        s.flags.within(run(s, inputs).0.flags),
        run(s, inputs).0.flags.count() == s.flags.count() + run(s, inputs).1.len(),
        run(s, inputs).1 == event_order().subrange(
            s.flags.count() as int,
            (s.flags.count() + run(s, inputs).1.len()) as int,
        ),
    decreases inputs.len(),
{
    if inputs.len() > 0 {
        let (s1, fired) = step_spec(s, inputs[0].0, inputs[0].1);
        lemma_step_orders_flags(s, inputs[0].0, inputs[0].1);
        lemma_run_fires_in_order(s1, inputs.drop_first());
        let rest = run(s1, inputs.drop_first()).1;
        match fired {
            Some(e) => {
                assert(event_order()[rank(e) as int] == e);
                assert(run(s, inputs).1 =~= event_order().subrange(
                    s.flags.count() as int,
                    (s.flags.count() + run(s, inputs).1.len()) as int,
                ));
            },
            None => {},
        }
    }
}

/// No event fires twice: from the start of a flight, every sequence of
/// inputs fires each event at most once.
pub proof fn lemma_no_event_fires_twice(inputs: Seq<(Option<int>, OverrideFlags)>)
    ensures
        run(
            FlightState {
                phase: FlightPhase::Idle,
                flags: EventFlags {
                    rocket_fired: false,
                    balloon_popped: false,
                    balloon_released: false,
                    chute_deployed: false,
                },
            },
            inputs,
        ).1.no_duplicates(),
{
    let s = FlightState {
        phase: FlightPhase::Idle,
        flags: EventFlags {
            rocket_fired: false,
            balloon_popped: false,
            balloon_released: false,
            chute_deployed: false,
        },
    };
    lemma_run_fires_in_order(s, inputs);
    let fired = run(s, inputs).1;
    assert forall|i: int, j: int| 0 <= i < fired.len() && 0 <= j < fired.len() && i != j implies fired[i]
        != fired[j] by {
        assert(fired[i] == event_order()[i]);
        assert(fired[j] == event_order()[j]);
    }
}

/// Once the chute has deployed, with no override and the altitude strictly
/// between the chute and release thresholds, the state is a fixed point of
/// the step: nothing fires and nothing changes.
pub proof fn lemma_descent_band_fixed_point(s: FlightState, alt_mm: int)
    requires
        s.flags.wf(),
        s.flags.chute_deployed,
        !at_or_below(alt_mm, CHUTE_DEPLOY_FEET as int),
        at_or_below(alt_mm, BALLOON_RELEASE_FEET as int),
    ensures
        step_spec(
            s,
            Some(alt_mm),
            OverrideFlags {
                force_rocket: false,
                force_pop: false,
                force_release: false,
                force_chute: false,
            },
        ) == (s, None::<FlightEvent>),
{
}

/// With rocket, pop and release done and the chute not yet deployed, an
/// altitude at or below the chute threshold deploys the chute, with no
/// override needed.
pub proof fn lemma_chute_deploys_on_descent(s: FlightState, alt_mm: int)
    requires
        s.flags.rocket_fired,
        s.flags.balloon_popped,
        s.flags.balloon_released,
        !s.flags.chute_deployed,
        at_or_below(alt_mm, CHUTE_DEPLOY_FEET as int),
    ensures
        step_spec(
            s,
            Some(alt_mm),
            OverrideFlags {
                force_rocket: false,
                force_pop: false,
                force_release: false,
                force_chute: false,
            },
        ) == (
            FlightState {
                phase: FlightPhase::Idle,
                flags: s.flags.with(FlightEvent::ChuteDeploy),
            },
            Some(FlightEvent::ChuteDeploy),
        ),
{
}

} // verus!
