//! The bounce budget of a light path.
//!
//! The radiance of a camera ray is found by following it through the scene: at each bounce
//! the ray is tested against the scene, and the surface hit either absorbs it or scatters it
//! into a new ray. Each bounce spends one unit of the depth budget; a path whose budget runs
//! out carries no light. This module decides, bounce by bounce, whether the path goes on and
//! how it ends; the caller does the geometry and multiplies the attenuations.

use vstd::prelude::*;

verus! {

/// What the scene did with the ray of the current bounce.
#[derive(Clone, Copy, Debug, PartialEq, Eq, Structural)]
pub enum Event {
    /// The ray hit nothing and leaves the scene.
    Miss,
    /// The ray hit a surface whose material absorbed it.
    Absorbed,
    /// The ray hit a surface whose material scattered it into a new ray.
    Scattered,
}

/// What the radiance computation does next.
#[derive(Clone, Copy, Debug, PartialEq, Eq, Structural)]
pub enum Step {
    /// The path ends and carries no light.
    Black,
    /// The path ends in the sky: its light is the background, tinted by the attenuations
    /// gathered on the way.
    Background,
    /// Test the current ray against the scene, with the given number of bounces left.
    Trace(u16),
}

/// The first step of a path whose budget is `max_depth` bounces.
pub open spec fn start_spec(max_depth: u16) -> Step {
    if max_depth == 0 {
        Step::Black
    } else {
        Step::Trace(max_depth)
    }
}

/// The step that follows `event` on a bounce with `depth` bounces left.
pub open spec fn next_spec(depth: u16, event: Event) -> Step {
    match event {
        Event::Miss => Step::Background,
        Event::Absorbed => Step::Black,
        Event::Scattered => if depth <= 1 {
            Step::Black
        } else {
            Step::Trace((depth - 1) as u16)
        },
    }
}

/// Where the bounce loop stands after starting from `step` and meeting `events` in turn.
pub open spec fn run(step: Step, events: Seq<Event>) -> Step
    decreases events.len(),
{
    match step {
        Step::Trace(depth) => if events.len() == 0 {
            step
        } else {
            run(next_spec(depth, events[0]), events.drop_first())
        },
        _ => step,
    }
}

/// How the path ends when radiance is defined recursively: no budget gives black, a miss
/// gives the background, an absorbed ray black, and a scattered ray the radiance of the new
/// ray with one bounce less. Where the events run out first, the path is still being traced.
pub open spec fn recursive_outcome(depth: nat, events: Seq<Event>) -> Step
    decreases depth,
{
    if depth == 0 {
        Step::Black
    } else if events.len() == 0 {
        Step::Trace(depth as u16)
    } else {
        match events[0] {
            Event::Miss => Step::Background,
            Event::Absorbed => Step::Black,
            Event::Scattered => recursive_outcome((depth - 1) as nat, events.drop_first()),
        }
    }
}

/// The first step of a path whose budget is `max_depth` bounces: black at once when there
/// is no budget, else a test of the camera ray against the scene.
pub fn start_path(max_depth: u16) -> (r: Step)
    ensures
        r == start_spec(max_depth),
        max_depth == 0 ==> r == Step::Black,
        max_depth > 0 ==> r == Step::Trace(max_depth),
{
    if max_depth == 0 {
        Step::Black
    } else {
        Step::Trace(max_depth)
    }
}

/// The step after a bounce with `depth` bounces left on which the scene gave `event`.
pub fn next_step(depth: u16, event: Event) -> (r: Step)
    requires
        depth >= 1,
    ensures
        r == next_spec(depth, event),
        event == Event::Miss ==> r == Step::Background,
        event == Event::Absorbed ==> r == Step::Black,
        event == Event::Scattered && depth == 1 ==> r == Step::Black,
        event == Event::Scattered && depth > 1 ==> r == Step::Trace((depth - 1) as u16),
{
    match event {
        Event::Miss => Step::Background,
        Event::Absorbed => Step::Black,
        Event::Scattered => if depth == 1 {
            Step::Black
        } else {
            Step::Trace(depth - 1)
        },
    }
}

/// A path with no bounce budget is black, whatever the scene does.
pub proof fn lemma_no_budget_is_black(events: Seq<Event>)
    ensures
        run(start_spec(0), events) == Step::Black,
        recursive_outcome(0, events) == Step::Black,
{
}

/// Following a path bounce by bounce from `Trace(depth)` ends as the recursive definition of
/// radiance does with the same budget and the same events.
pub proof fn lemma_trace_matches_recursion(depth: u16, events: Seq<Event>)
    requires
        depth >= 1,
    ensures
        run(Step::Trace(depth), events) == recursive_outcome(depth as nat, events),
    decreases events.len(),
{
    if events.len() == 0 {
        assert(run(Step::Trace(depth), events) == Step::Trace(depth));
        assert(recursive_outcome(depth as nat, events) == Step::Trace(depth));
    } else {
        let rest = events.drop_first();
        assert(run(Step::Trace(depth), events) == run(next_spec(depth, events[0]), rest));
        if events[0] == Event::Scattered && depth > 1 {
            lemma_trace_matches_recursion((depth - 1) as u16, rest);
        } else {
            assert(run(next_spec(depth, events[0]), rest) == next_spec(depth, events[0]));
        }
    }
}

/// The bounce loop computes the recursive radiance: for every budget and every sequence of
/// scene events, both end the same way.
pub proof fn lemma_loop_matches_recursion(max_depth: u16, events: Seq<Event>)
    ensures
        run(start_spec(max_depth), events) == recursive_outcome(max_depth as nat, events),
{
    if max_depth > 0 {
        lemma_trace_matches_recursion(max_depth, events);
    }
}

/// A path ends after at most `max_depth` bounces: given that many scene events, the loop
/// has stopped, in black or in the background.
pub proof fn lemma_path_ends_within_budget(max_depth: u16, events: Seq<Event>)
    requires
        events.len() >= max_depth,
    ensures
        run(start_spec(max_depth), events) == Step::Black || run(start_spec(max_depth), events)
            == Step::Background,
{
    lemma_loop_matches_recursion(max_depth, events);
    lemma_recursion_ends(max_depth as nat, events);
}

proof fn lemma_recursion_ends(depth: nat, events: Seq<Event>)
    requires
        events.len() >= depth,
    ensures
        recursive_outcome(depth, events) == Step::Black || recursive_outcome(depth, events)
            == Step::Background,
    decreases depth,
{
    if depth > 0 && events[0] == Event::Scattered {
        lemma_recursion_ends((depth - 1) as nat, events.drop_first());
    }
}

} // verus!
