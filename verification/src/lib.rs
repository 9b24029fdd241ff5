//! Core logic of a desktop mouse-trail overlay.
//!
//! A background sampler forwards raw pointer-motion deltas through a bounded
//! channel; each frame tick the deltas are folded into a fixed-size circular
//! buffer of cumulative sums (the trail), and a renderer derives position,
//! rank and size attributes for every trail slot from that buffer alone.

use vstd::prelude::*;

pub mod arrow;
pub mod render;
pub mod stream;
pub mod trail;

verus! {

/// Flips the window hit-test flag on a key-press edge; otherwise keeps it.
pub fn hit_test_after(pressed: bool, current: bool) -> (r: bool)
    ensures
        r == (if pressed { !current } else { current }),
{
    if pressed {
        !current
    } else {
        current
    }
}

} // verus!
