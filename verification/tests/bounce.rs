use raytracing_iow::bounce::{step, trace, CastEvent, SampleResult, SampleState};

#[test]
fn miss_terminates_with_sky() {
    let s = step(SampleState::Active { depth: 0 }, CastEvent::Miss, 50);
    assert_eq!(s, SampleState::Terminated { result: SampleResult::Sky });
}

#[test]
fn absorbed_terminates_with_black() {
    let s = step(SampleState::Active { depth: 3 }, CastEvent::Absorbed, 50);
    assert_eq!(s, SampleState::Terminated { result: SampleResult::Black });
}

#[test]
fn attenuated_increments_depth() {
    let s = step(SampleState::Active { depth: 3 }, CastEvent::Attenuated, 50);
    assert_eq!(s, SampleState::Active { depth: 4 });
}

#[test]
fn attenuated_at_cap_terminates_with_black() {
    let s = step(SampleState::Active { depth: 50 }, CastEvent::Attenuated, 50);
    assert_eq!(s, SampleState::Terminated { result: SampleResult::Black });
}

#[test]
fn zero_cap_terminates_on_first_bounce() {
    let s = step(SampleState::Active { depth: 0 }, CastEvent::Attenuated, 0);
    assert_eq!(s, SampleState::Terminated { result: SampleResult::Black });
}

#[test]
fn terminal_states_are_absorbing() {
    for result in [SampleResult::Sky, SampleResult::Black] {
        for event in [CastEvent::Miss, CastEvent::Attenuated, CastEvent::Absorbed] {
            let s = step(SampleState::Terminated { result }, event, 50);
            assert_eq!(s, SampleState::Terminated { result });
        }
    }
}

#[test]
fn trace_of_no_events_is_the_start_state() {
    let s = trace(&Vec::new(), 50);
    assert_eq!(s, SampleState::Active { depth: 0 });
}

#[test]
fn trace_bounces_then_escapes_to_the_sky() {
    let events = vec![CastEvent::Attenuated, CastEvent::Attenuated, CastEvent::Miss];
    let s = trace(&events, 50);
    assert_eq!(s, SampleState::Terminated { result: SampleResult::Sky });
}

#[test]
fn trace_counts_bounces() {
    let events = vec![CastEvent::Attenuated; 5];
    let s = trace(&events, 50);
    assert_eq!(s, SampleState::Active { depth: 5 });
}

#[test]
fn trace_truncates_a_deep_path_to_black() {
    let events = vec![CastEvent::Attenuated; 51];
    let s = trace(&events, 50);
    assert_eq!(s, SampleState::Terminated { result: SampleResult::Black });
}

#[test]
fn trace_ignores_events_after_termination() {
    let events = vec![CastEvent::Absorbed, CastEvent::Miss, CastEvent::Attenuated];
    let s = trace(&events, 50);
    assert_eq!(s, SampleState::Terminated { result: SampleResult::Black });
}
