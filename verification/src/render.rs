//! The trail renderer: derives, for each dot slot, a screen position, a
//! circular distance-from-head rank, a depth layer and a size numerator
//! from the trail buffer alone.  The derivation is a pure function of the
//! buffer snapshot; no renderer state persists between frames.
//!
//! The fractional attributes of the original display (size scale, lightness,
//! alpha) are all affine in `size_scale = (TRAIL_LEN - 0.75*rank)/TRAIL_LEN
//! = scale_num / (4*TRAIL_LEN)`, so this module hands the caller the exact
//! integer numerator `scale_num` and leaves the floating-point evaluation to
//! the display layer.

use vstd::prelude::*;

use crate::trail::{trunc_div4, TrailBuffer, TrailState, DELTA_DIV, TRAIL_LEN};

verus! {

/// Screen-space x offset added to every unscaled sum.
pub const ORIGIN_X: i64 = 480;

/// Screen-space y offset subtracted after the y sum is unscaled and negated.
pub const ORIGIN_Y: i64 = 380;

/// The attributes the renderer computes for one dot slot each tick.  Both
/// the core and the glow dot of a slot share these; they differ only in the
/// fixed hue/saturation and in the affine coefficients applied to
/// `scale_num`, which live with the display layer.
#[derive(Clone, Copy, Debug, PartialEq, Eq, Structural)]
pub struct DotAttrs {
    /// Screen x position: the slot's x sum divided by [`DELTA_DIV`]
    /// (truncating) plus [`ORIGIN_X`].
    pub x: i64,
    /// Screen y position: the slot's y sum divided by [`DELTA_DIV`]
    /// (truncating), negated, minus [`ORIGIN_Y`].
    pub y: i64,
    /// Circular distance of the slot behind the visual head.
    pub rank: usize,
    /// Depth layer: `2 * (TRAIL_LEN - rank)`; nearer the head is drawn on
    /// top.
    pub depth: usize,
    /// Numerator of the size scale over the denominator `4 * TRAIL_LEN`.
    pub scale_num: usize,
}

/// The visual head: one slot ahead of the storage head, wrapped to `0` at
/// the end of the buffer.  It is the reference point for distance ranking.
pub open spec fn visual_head(head: int) -> int {
    if head == TRAIL_LEN - 1 {
        0
    } else {
        head + 1
    }
}

/// Circular distance of slot `i` behind the visual head `h`.
pub open spec fn rank_of(i: int, h: int) -> int {
    if i >= h {
        i - h
    } else {
        TRAIL_LEN - h + i
    }
}

/// The attributes of slot `i` as a pure function of the buffer snapshot.
pub open spec fn dot_spec(st: TrailState, i: int) -> DotAttrs {
    let r = rank_of(i, visual_head(st.head));
    DotAttrs {
        x: (trunc_div4(st.sums[i].0) + ORIGIN_X) as i64,
        y: (-trunc_div4(st.sums[i].1) - ORIGIN_Y) as i64,
        rank: r as usize,
        depth: (2 * (TRAIL_LEN - r)) as usize,
        scale_num: (4 * TRAIL_LEN - 3 * r) as usize,
    }
}

/// Renderer determinism: the attributes depend on the buffer snapshot
/// alone, so two buffers with the same snapshot render every slot alike —
/// there is no renderer-local state to diverge on.
pub proof fn lemma_render_deterministic(a: TrailBuffer, b: TrailBuffer, i: int)
    requires
        a@ == b@,
    ensures
        dot_spec(a@, i) == dot_spec(b@, i),
{
}

/// Divides a stored sum by [`DELTA_DIV`], truncating toward zero.
fn unscale(s: i64) -> (q: i64)
    ensures
        q == trunc_div4(s as int),
        -0x2000_0000_0000_0000 <= q <= 0x2000_0000_0000_0000,
{
    s / DELTA_DIV
}

/// Computes the attributes of dot slot `index` from the buffer alone.
pub fn render_dot(buffer: &TrailBuffer, index: usize) -> (attrs: DotAttrs)
    requires
        buffer.wf(),
        index < TRAIL_LEN,
    ensures
        attrs == dot_spec(buffer@, index as int),
{
    let head = buffer.head();
    let visual = if head == TRAIL_LEN - 1 { 0 } else { head + 1 };
    let rank = if index >= visual { index - visual } else { TRAIL_LEN - visual + index };
    let sum = buffer.sum_at(index);
    DotAttrs {
        x: unscale(sum.0) + ORIGIN_X,
        y: -unscale(sum.1) - ORIGIN_Y,
        rank,
        depth: 2 * (TRAIL_LEN - rank),
        scale_num: 4 * TRAIL_LEN - 3 * rank,
    }
}

/// Computes the attributes of every dot slot for this tick.
pub fn render_all(buffer: &TrailBuffer) -> (attrs: Vec<DotAttrs>)
    requires
        buffer.wf(),
    ensures
        attrs@.len() == TRAIL_LEN,
        forall|i: int| 0 <= i < TRAIL_LEN ==> attrs@[i] == dot_spec(buffer@, i),
{
    let mut attrs: Vec<DotAttrs> = Vec::new();
    let mut i: usize = 0;
    while i < TRAIL_LEN
        invariant
            buffer.wf(),
            i <= TRAIL_LEN,
            attrs@.len() == i,
            forall|j: int| 0 <= j < i ==> attrs@[j] == dot_spec(buffer@, j),
        decreases TRAIL_LEN - i,
    {
        let a = render_dot(buffer, i);
        attrs.push(a);
        i = i + 1;
    }
    attrs
}

} // verus!
