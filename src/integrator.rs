//! Control of the recursive light-transport integrator: what a trace does at
//! one path vertex, given its remaining depth budget, whether the ray hit
//! anything, and whether the hit material continues the path.

use vstd::prelude::*;

verus! {

/// What the integrator does at one vertex of a path.
#[derive(Clone, Copy, Debug, PartialEq, Eq, Structural)]
pub enum TraceStep {
    /// The depth budget is spent: the path contributes black.
    Black,
    /// The ray hit nothing: the path contributes the background color.
    Background,
    /// The material ended the path (an emitter, or an absorbed ray): return
    /// the surface response at this vertex alone.
    Stop,
    /// Continue the path from the hit point with the given depth budget.
    Recurse(u8),
}

/// The step taken with `depth` bounces left, after learning whether the ray
/// hit (`hit`) and whether the hit material sent it on (`continues`).
pub open spec fn spec_trace_step(depth: u8, hit: bool, continues: bool) -> TraceStep {
    if depth == 0 {
        TraceStep::Black
    } else if !hit {
        TraceStep::Background
    } else if !continues {
        TraceStep::Stop
    } else {
        TraceStep::Recurse((depth - 1) as u8)
    }
}

pub fn trace_step(depth: u8, hit: bool, continues: bool) -> (r: TraceStep)
    ensures
        r == spec_trace_step(depth, hit, continues),
        depth == 0 ==> r == TraceStep::Black,
        depth > 0 && !hit ==> r == TraceStep::Background,
        depth > 0 && hit && !continues ==> r == TraceStep::Stop,
        depth > 0 && hit && continues ==> r == TraceStep::Recurse((depth - 1) as u8),
{
    if depth == 0 {
        TraceStep::Black
    } else if !hit {
        TraceStep::Background
    } else if !continues {
        TraceStep::Stop
    } else {
        TraceStep::Recurse(depth - 1)
    }
}

/// Number of nested recursions of a trace that starts with `depth` bounces
/// left, where the vertex at nesting level `k` sees `events[k]` as its
/// (`hit`, `continues`) pair; a path that runs out of events stops there.
pub open spec fn spec_nesting(depth: u8, events: Seq<(bool, bool)>) -> nat
    decreases events.len(),
{
    if events.len() == 0 {
        0
    } else {
        match spec_trace_step(depth, events[0].0, events[0].1) {
            TraceStep::Recurse(d) => 1 + spec_nesting(d, events.drop_first()),
            _ => 0,
        }
    }
}

/// Whatever the rays meet, a trace started with `depth` bounces left nests
/// at most `depth` recursive calls; with no budget it nests none.
pub proof fn lemma_nesting_bounded(depth: u8, events: Seq<(bool, bool)>)
    ensures
        spec_nesting(depth, events) <= depth,
        depth == 0 ==> spec_nesting(depth, events) == 0,
    decreases events.len(),
{
    if events.len() > 0 && depth > 0 {
        lemma_nesting_bounded((depth - 1) as u8, events.drop_first());
    }
}

} // verus!
