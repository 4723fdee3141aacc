//! Shadow visibility: whether a light reaches a hit point.
//!
//! Per light the renderer casts one shadow ray from the hit point toward the
//! light and asks whether anything blocks it. Distances arrive as the same
//! order-preserving integer keys that nearest-hit selection uses. A
//! directional light stands infinitely far away and carries no distance key;
//! a spherical (point) light carries the key of its distance from the hit
//! point.

use vstd::prelude::*;

verus! {

/// Whether the light reaches the point: nothing blocks the shadow ray, or
/// the nearest blocker stands at or beyond the light itself. A directional
/// light (`light_distance` absent, infinitely far) is blocked by any hit.
pub open spec fn visible_spec(shadow_hit: Option<u64>, light_distance: Option<u64>) -> bool {
    match shadow_hit {
        None => true,
        Some(s) => match light_distance {
            None => false,
            Some(l) => s >= l,
        },
    }
}

/// Decide shadow visibility for one light from the nearest shadow-ray hit
/// (`shadow_hit`) and the light's own distance key (`light_distance`, absent
/// for a directional light). The light contributes to the point exactly when
/// this returns true; an occluded light of either kind contributes nothing.
pub fn light_visible(shadow_hit: Option<u64>, light_distance: Option<u64>) -> (r: bool)
    ensures
        r == visible_spec(shadow_hit, light_distance),
{
    match shadow_hit {
        None => true,
        Some(s) => match light_distance {
            None => false,
            Some(l) => s >= l,
        },
    }
}

/// Law: a point light is cut off exactly by a strictly nearer blocker. Its
/// contribution gate is closed if and only if the shadow ray strikes another
/// primitive at a distance strictly less than the distance to the light.
pub proof fn lemma_point_light_occlusion(shadow_hit: Option<u64>, light_distance: u64)
    ensures
        !visible_spec(shadow_hit, Some(light_distance)) <==> (shadow_hit matches Some(s)
            && s < light_distance),
{
}

} // verus!
