//! Ray casting: the pixel-to-sensor mapping of primary rays, and nearest-hit
//! selection over the scene's primitives.
//!
//! For one ray, each primitive reports either no hit or a hit distance. The
//! embedding program hands those distances in as order-preserving integer
//! keys (one entry per primitive, in scene order), and the selection below
//! decides which primitive the ray strikes first: the smallest present key,
//! ties going to the earliest primitive.

use vstd::prelude::*;

verus! {

/// Where pixel `(x, y)`'s center sits on the camera's sensor plane, as a
/// pair of numerators over the common denominator `height`.
///
/// The pixel center `x + 1/2` maps to `[-1, 1]` device coordinates, the x
/// axis is scaled by the aspect ratio `width / height`, and the y axis is
/// flipped so that row zero looks up. Folding the aspect ratio in leaves
/// `(2x + 1 - width) / height` and `(height - 2y - 1) / height`; the camera
/// multiplies each by its field-of-view factor to get the ray direction's x
/// and y components. Landscape framing (`width > height`) is a precondition
/// of the camera model, not a recoverable error.
pub fn sensor_numerators(x: u32, y: u32, width: u32, height: u32) -> (r: (i64, i64))
    requires
        x < width,
        y < height,
        width > height,
    ensures
        r.0 == 2 * x + 1 - width,
        r.1 == height - 2 * y - 1,
{
    (2 * (x as i64) + 1 - (width as i64), (height as i64) - 2 * (y as i64) - 1)
}

/// Pick the nearest hit among the candidate distances: returns the index and
/// key of the smallest present entry, the first such index on equal keys, or
/// `None` when no entry is present.
pub fn nearest_hit(hits: &Vec<Option<u64>>) -> (r: Option<(usize, u64)>)
    ensures
        r is None <==> (forall|j: int| 0 <= j < hits@.len() ==> hits@[j] is None),
        r matches Some((i, d)) ==> {
            &&& i < hits@.len()
            &&& hits@[i as int] == Some(d)
            &&& (forall|j: int| 0 <= j < hits@.len() && hits@[j] is Some ==> d <= hits@[j]->0)
            &&& (forall|j: int| 0 <= j < i ==> hits@[j] is None || hits@[j]->0 > d)
        },
{
    let mut best: Option<(usize, u64)> = None;
    let mut idx: usize = 0;
    while idx < hits.len()
        invariant
            idx <= hits@.len(),
            best is None <==> (forall|j: int| 0 <= j < idx ==> hits@[j] is None),
            best matches Some((i, d)) ==> {
                &&& i < idx
                &&& hits@[i as int] == Some(d)
                &&& (forall|j: int| 0 <= j < idx && hits@[j] is Some ==> d <= hits@[j]->0)
                &&& (forall|j: int| 0 <= j < i ==> hits@[j] is None || hits@[j]->0 > d)
            },
        decreases hits@.len() - idx,
    {
        match hits[idx] {
            Some(d) => {
                match best {
                    Some((_, bd)) => {
                        if d < bd {
                            best = Some((idx, d));
                        }
                    },
                    None => {
                        best = Some((idx, d));
                    },
                }
            },
            None => {},
        }
        idx = idx + 1;
    }
    best
}

} // verus!
