//! The integrator's per-bounce decision.
//!
//! `ray_color` estimates radiance recursively: it returns black when the
//! bounce budget is spent, the background colour when the ray leaves the
//! scene, the hit material's emission alone when that material does not
//! scatter, and otherwise the emission plus the attenuated radiance of the
//! scattered ray one bounce deeper. The colours and the intersection are
//! floating-point and belong to the surrounding renderer; the decision
//! between those four outcomes is exact, is made here, and is what bounds
//! the recursion.

use vstd::prelude::*;

verus! {

/// What casting a ray into the scene produced: no hit at all, a hit whose
/// material only emits, or a hit whose material scattered the ray onward.
#[derive(Clone, Copy, PartialEq, Eq, Structural, Debug)]
pub enum SurfaceEvent {
    Miss,
    Emit,
    Scatter,
}

/// How the radiance estimate continues: black (budget spent), the
/// background colour, the hit's emission alone, or the emission plus the
/// attenuated estimate of the scattered ray one bounce deeper.
#[derive(Clone, Copy, PartialEq, Eq, Structural, Debug)]
pub enum RadianceStep {
    Black,
    Background,
    EmittedOnly,
    EmittedPlusScattered,
}

/// The decision `ray_color` takes at one bounce.
pub open spec fn radiance_step(depth: int, event: SurfaceEvent) -> RadianceStep {
    if depth <= 0 {
        RadianceStep::Black
    } else {
        match event {
            SurfaceEvent::Miss => RadianceStep::Background,
            SurfaceEvent::Emit => RadianceStep::EmittedOnly,
            SurfaceEvent::Scatter => RadianceStep::EmittedPlusScattered,
        }
    }
}

/// Decides how the radiance estimate continues at one bounce. With the
/// budget spent the answer is black whatever the scene produced; only a
/// scattering hit with budget left continues the recursion.
pub fn ray_color_step(depth: i32, event: SurfaceEvent) -> (r: RadianceStep)
    ensures
        r == radiance_step(depth as int, event),
        depth <= 0 ==> r == RadianceStep::Black,
        (r == RadianceStep::EmittedPlusScattered) <==> (depth > 0 && event
            == SurfaceEvent::Scatter),
{
    if depth <= 0 {
        RadianceStep::Black
    } else {
        match event {
            SurfaceEvent::Miss => RadianceStep::Background,
            SurfaceEvent::Emit => RadianceStep::EmittedOnly,
            SurfaceEvent::Scatter => RadianceStep::EmittedPlusScattered,
        }
    }
}

/// How many times a path recurses when the scene answers its successive
/// rays with `events`: one bounce for each leading scatter the budget
/// still covers.
pub open spec fn path_bounces(depth: int, events: Seq<SurfaceEvent>) -> int
    decreases events.len(),
{
    if events.len() == 0 || radiance_step(depth, events[0])
        != RadianceStep::EmittedPlusScattered {
        0
    } else {
        1 + path_bounces(depth - 1, events.drop_first())
    }
}

/// The integrator terminates: however the scene answers, a path that
/// starts with bounce budget `depth` recurses at most `depth` times (and
/// never more often than the scene answers at all).
pub proof fn lemma_path_terminates(depth: int, events: Seq<SurfaceEvent>)
    ensures
        path_bounces(depth, events) <= events.len(),
        depth >= 0 ==> path_bounces(depth, events) <= depth,
        depth <= 0 ==> path_bounces(depth, events) == 0,
    decreases events.len(),
{
    if events.len() != 0 && radiance_step(depth, events[0])
        == RadianceStep::EmittedPlusScattered {
        lemma_path_terminates(depth - 1, events.drop_first());
    }
}

} // verus!
