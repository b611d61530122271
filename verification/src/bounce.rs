//! The per-sample bounce loop, as a state machine.
//!
//! A sample follows one camera ray through the scene.  Each round the
//! driver casts the current ray against the world and reports what
//! happened as a [`CastEvent`]; the machine decides whether the sample
//! keeps bouncing or terminates, and with which contribution.  The
//! numeric work (intersection, scattering, the attenuation product)
//! stays with the driver; every decision — including the hard depth cap
//! that truncates a path to black — is made here.

use vstd::prelude::*;

verus! {

/// What one cast of the current ray against the scene reported.
#[derive(Debug, Clone, Copy, PartialEq, Eq, Structural)]
pub enum CastEvent {
    /// The ray hit nothing.
    Miss,
    /// The nearest hit's material scattered the ray and returned an
    /// attenuation.
    Attenuated,
    /// The nearest hit's material absorbed the ray.
    Absorbed,
}

/// What a finished sample contributes to its pixel.
#[derive(Debug, Clone, Copy, PartialEq, Eq, Structural)]
pub enum SampleResult {
    /// The accumulated attenuation times the sky gradient of the last ray.
    Sky,
    /// Exact black: the path was absorbed, or ran past the depth cap.
    Black,
}

/// The state of one sample of the bounce loop.
#[derive(Debug, Clone, Copy, PartialEq, Eq, Structural)]
pub enum SampleState {
    /// The sample still follows a ray; `depth` scattering bounces have
    /// been applied to it so far.
    Active { depth: u32 },
    /// The sample terminated; terminal states are absorbing.
    Terminated { result: SampleResult },
}

/// One transition of the bounce loop.
///
/// From `Active { depth }`:
/// - `Miss` terminates the sample with its sky contribution;
/// - `Absorbed` terminates it with black;
/// - `Attenuated` increments the depth, except that a path whose new
///   depth would exceed `max_depth` is truncated and terminates with
///   black.
///
/// A `Terminated` state is absorbing: every event maps it to itself.
pub open spec fn spec_step(state: SampleState, event: CastEvent, max_depth: u32) -> SampleState {
    match state {
        SampleState::Terminated { result } => SampleState::Terminated { result },
        SampleState::Active { depth } => match event {
            CastEvent::Miss => SampleState::Terminated { result: SampleResult::Sky },
            CastEvent::Absorbed => SampleState::Terminated { result: SampleResult::Black },
            CastEvent::Attenuated => {
                if depth >= max_depth {
                    SampleState::Terminated { result: SampleResult::Black }
                } else {
                    SampleState::Active { depth: (depth + 1) as u32 }
                }
            },
        },
    }
}

/// The state in which every sample starts.
pub open spec fn spec_start() -> SampleState {
    SampleState::Active { depth: 0 }
}

/// The state after folding `spec_step` over a sequence of events.
pub open spec fn spec_trace(events: Seq<CastEvent>, max_depth: u32) -> SampleState
    decreases events.len(),
{
    if events.len() == 0 {
        spec_start()
    } else {
        spec_step(spec_trace(events.drop_last(), max_depth), events.last(), max_depth)
    }
}

/// Performs one transition of the bounce loop.
pub fn step(state: SampleState, event: CastEvent, max_depth: u32) -> (r: SampleState)
    ensures
        r == spec_step(state, event, max_depth),
{
    match state {
        SampleState::Terminated { result } => SampleState::Terminated { result },
        SampleState::Active { depth } => match event {
            CastEvent::Miss => SampleState::Terminated { result: SampleResult::Sky },
            CastEvent::Absorbed => SampleState::Terminated { result: SampleResult::Black },
            CastEvent::Attenuated => {
                if depth >= max_depth {
                    SampleState::Terminated { result: SampleResult::Black }
                } else {
                    SampleState::Active { depth: depth + 1 }
                }
            },
        },
    }
}

/// Runs the bounce loop over a recorded sequence of cast events, from
/// the start state.
pub fn trace(events: &Vec<CastEvent>, max_depth: u32) -> (r: SampleState)
    ensures
        r == spec_trace(events@, max_depth),
{
    let mut state = SampleState::Active { depth: 0 };
    let mut i: usize = 0;
    while i < events.len()
        invariant
            i <= events@.len(),
            state == spec_trace(events@.take(i as int), max_depth),
        decreases events@.len() - i,
    {
        proof {
            assert(events@.take(i + 1).drop_last() =~= events@.take(i as int));
            assert(events@.take(i + 1).last() == events@[i as int]);
        }
        state = step(state, events[i], max_depth);
        i = i + 1;
    }
    proof {
        assert(events@.take(events@.len() as int) =~= events@);
    }
    state
}

/// Terminal states are absorbing: once a sample has terminated, no
/// further event changes its state or its contribution.
pub proof fn lemma_terminal_absorbing(result: SampleResult, event: CastEvent, max_depth: u32)
    ensures
        spec_step((SampleState::Terminated { result }), event, max_depth)
            == (SampleState::Terminated { result }),
{
}

/// The bounce loop never holds a depth above the cap: a transition from
/// a state whose depth is within `max_depth` stays within `max_depth`.
pub proof fn lemma_depth_bounded(state: SampleState, event: CastEvent, max_depth: u32)
    requires
        state matches SampleState::Active { depth } ==> depth <= max_depth,
    ensures
        spec_step(state, event, max_depth) matches SampleState::Active { depth }
            ==> depth <= max_depth,
{
}

/// A path that scatters on and on is truncated: after more than
/// `max_depth` attenuated bounces the sample has terminated with black,
/// whatever came before the cap was reached.
pub proof fn lemma_path_truncated(events: Seq<CastEvent>, max_depth: u32)
    requires
        events.len() > max_depth,
        forall|i: int| 0 <= i < events.len() ==> events[i] == CastEvent::Attenuated,
    ensures
        spec_trace(events, max_depth)
            == (SampleState::Terminated { result: SampleResult::Black }),
    decreases events.len(),
{
    lemma_trace_depth(events.drop_last(), max_depth);
    if events.len() - 1 > max_depth {
        lemma_path_truncated(events.drop_last(), max_depth);
    } else {
        lemma_all_attenuated_depth(events.drop_last(), max_depth);
    }
}

/// A path that scatters within the cap and then escapes contributes
/// its sky colour: attenuated bounces up to `max_depth`, then a miss,
/// end in the sky result.
pub proof fn lemma_escape_to_sky(events: Seq<CastEvent>, max_depth: u32)
    requires
        events.len() >= 1,
        events.last() == CastEvent::Miss,
        events.len() - 1 <= max_depth,
        forall|i: int| 0 <= i < events.len() - 1 ==> events[i] == CastEvent::Attenuated,
    ensures
        spec_trace(events, max_depth) == (SampleState::Terminated { result: SampleResult::Sky }),
{
    lemma_all_attenuated_depth(events.drop_last(), max_depth);
}

/// A path whose ray is absorbed contributes black, however many
/// attenuated bounces came before.
pub proof fn lemma_absorption_is_black(events: Seq<CastEvent>, max_depth: u32)
    requires
        events.len() >= 1,
        events.last() == CastEvent::Absorbed,
        events.len() - 1 <= max_depth,
        forall|i: int| 0 <= i < events.len() - 1 ==> events[i] == CastEvent::Attenuated,
    ensures
        spec_trace(events, max_depth) == (SampleState::Terminated { result: SampleResult::Black }),
{
    lemma_all_attenuated_depth(events.drop_last(), max_depth);
}

/// While a trace is still active, its depth never exceeds the cap.
pub proof fn lemma_trace_depth(events: Seq<CastEvent>, max_depth: u32)
    ensures
        spec_trace(events, max_depth) matches SampleState::Active { depth }
            ==> depth <= max_depth,
    decreases events.len(),
{
    if events.len() > 0 {
        lemma_trace_depth(events.drop_last(), max_depth);
        lemma_depth_bounded(spec_trace(events.drop_last(), max_depth), events.last(), max_depth);
    }
}

/// As long as the cap allows, a purely attenuated path stays active and
/// its depth counts its bounces exactly.
pub proof fn lemma_all_attenuated_depth(events: Seq<CastEvent>, max_depth: u32)
    requires
        events.len() <= max_depth,
        forall|i: int| 0 <= i < events.len() ==> events[i] == CastEvent::Attenuated,
    ensures
        spec_trace(events, max_depth) == (SampleState::Active { depth: events.len() as u32 }),
    decreases events.len(),
{
    if events.len() > 0 {
        lemma_all_attenuated_depth(events.drop_last(), max_depth);
    }
}

} // verus!
