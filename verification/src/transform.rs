//! From source size, clip box and target size to canvas size and scale.
//!
//! All of it is exact: lengths are fixed-point, scales are ratios, and the
//! canvas size is the ceiling of an exact product.

use crate::error::RenderError;
use crate::snapshot::ConfigSnapshot;
use crate::snapshot::SnapshotView;
use crate::units::clipped_raw;
use crate::units::Length;
use vstd::prelude::*;

verus! {

/// The size an image declares for itself, before any scaling.
#[derive(Clone, Copy, Debug, PartialEq, Eq, Structural)]
pub struct IntrinsicSize {
    pub width: Length,
    pub height: Length,
}

/// A scale factor: `target` pixels of output for `source` of input.
#[derive(Clone, Copy, Debug, PartialEq, Eq, Structural)]
pub struct Scale {
    pub target: u32,
    pub source: Length,
}

/// What the rasterizer is asked to do for one snapshot: draw the source,
/// moved by `(-offset_x, -offset_y)` and then scaled by `(scale_x, scale_y)`,
/// onto a canvas of `canvas_width` by `canvas_height` pixels.
#[derive(Clone, Copy, Debug, PartialEq, Eq, Structural)]
pub struct RenderPlan {
    /// Width of the source that is left inside the clip box.
    pub clipped_width: Length,
    /// Height of the source that is left inside the clip box.
    pub clipped_height: Length,
    pub scale_x: Scale,
    pub scale_y: Scale,
    /// Source pixels cut at the left, which the shift moves out of view.
    pub offset_x: u32,
    /// Source pixels cut at the top, which the shift moves out of view.
    pub offset_y: u32,
    pub canvas_width: u32,
    pub canvas_height: u32,
}

/// The least whole number that is at least `a / b`; zero where `b` is zero.
pub open spec fn ceil_div(a: nat, b: nat) -> nat {
    if b == 0 {
        0
    } else {
        ((a + b - 1) / (b as int)) as nat
    }
}

/// Whether, of the two ratios `own_target / own` and `other_target / other`,
/// the first is the smaller or they tie, so that under a common scale this
/// axis is the one that fills its target. A ratio over zero counts as
/// larger than any other.
pub open spec fn limits(own: nat, other: nat, own_target: nat, other_target: nat) -> bool {
    own_target * other <= other_target * own
}

/// The canvas extent along one axis. `own` is the clipped source extent on
/// this axis and `own_target` the target extent; `other` and `other_target`
/// are those of the other axis.
///
/// Nothing is left to draw where the clipped extent is zero. With
/// independent scales the axis is stretched onto its whole target. With a
/// common scale, the smaller of the two ratios, the limiting axis fills its
/// target and the other gets its extent times that scale, rounded up.
pub open spec fn canvas_extent(
    own: nat,
    other: nat,
    own_target: nat,
    other_target: nat,
    keep_aspect: bool,
) -> nat {
    if own == 0 {
        0
    } else if !keep_aspect || limits(own, other, own_target, other_target) {
        own_target
    } else {
        ceil_div(own * other_target, other)
    }
}

/// The plan for a snapshot and a source size, where the canvas has an area.
pub open spec fn planned(s: SnapshotView, size: IntrinsicSize) -> RenderPlan {
    let cw = size.width.spec_clipped(s.clip_left, s.clip_right);
    let ch = size.height.spec_clipped(s.clip_top, s.clip_bottom);
    let by_width = Scale { target: s.width, source: cw };
    let by_height = Scale { target: s.height, source: ch };
    let width_limits = limits(cw.raw as nat, ch.raw as nat, s.width as nat, s.height as nat);
    RenderPlan {
        clipped_width: cw,
        clipped_height: ch,
        scale_x: if s.maintain_aspect_ratio && !width_limits {
            by_height
        } else {
            by_width
        },
        scale_y: if s.maintain_aspect_ratio && width_limits {
            by_width
        } else {
            by_height
        },
        offset_x: s.clip_left,
        offset_y: s.clip_top,
        canvas_width: canvas_width(s, size) as u32,
        canvas_height: canvas_height(s, size) as u32,
    }
}

/// Width of the canvas for a snapshot and a source size.
pub open spec fn canvas_width(s: SnapshotView, size: IntrinsicSize) -> nat {
    canvas_extent(
        clipped_raw(size.width.raw as nat, s.clip_left as nat, s.clip_right as nat),
        clipped_raw(size.height.raw as nat, s.clip_top as nat, s.clip_bottom as nat),
        s.width as nat,
        s.height as nat,
        s.maintain_aspect_ratio,
    )
}

/// Height of the canvas for a snapshot and a source size.
pub open spec fn canvas_height(s: SnapshotView, size: IntrinsicSize) -> nat {
    canvas_extent(
        clipped_raw(size.height.raw as nat, s.clip_top as nat, s.clip_bottom as nat),
        clipped_raw(size.width.raw as nat, s.clip_left as nat, s.clip_right as nat),
        s.height as nat,
        s.width as nat,
        s.maintain_aspect_ratio,
    )
}

/// Whether clip and target leave something to draw: both clipped extents and
/// both target extents are positive.
pub open spec fn drawable(s: SnapshotView, size: IntrinsicSize) -> bool {
    &&& clipped_raw(size.width.raw as nat, s.clip_left as nat, s.clip_right as nat) > 0
    &&& clipped_raw(size.height.raw as nat, s.clip_top as nat, s.clip_bottom as nat) > 0
    &&& s.width > 0
    &&& s.height > 0
}

/// The ceiling of a quotient is the least whole number whose product with
/// the divisor reaches the dividend.
pub proof fn lemma_ceil_div_is_least(a: nat, b: nat)
    requires
        b > 0,
    ensures
        ceil_div(a, b) * b >= a,
        a > 0 ==> (ceil_div(a, b) - 1) * b < a,
        a > 0 ==> ceil_div(a, b) >= 1,
        a == 0 ==> ceil_div(a, b) == 0,
{
    let q = ceil_div(a, b);
    assert(q * b >= a && (a > 0 ==> (q - 1) * b < a) && (a > 0 ==> q >= 1) && (a == 0 ==> q == 0))
        by (nonlinear_arith)
        requires
            b > 0,
            q == (a + b - 1) / (b as int),
    ;
}

/// A canvas extent never exceeds its target, and it is zero only where the
/// clipped extent or a target extent is zero.
pub proof fn lemma_canvas_extent_bounds(
    own: nat,
    other: nat,
    own_target: nat,
    other_target: nat,
    keep_aspect: bool,
)
    ensures
        canvas_extent(own, other, own_target, other_target, keep_aspect) <= own_target,
        canvas_extent(own, other, own_target, other_target, keep_aspect) > 0 <==> own > 0
            && own_target > 0 && (keep_aspect && other > 0 ==> other_target > 0),
{
    if own > 0 && keep_aspect && limits(own, other, own_target, other_target) {
        assert(own_target > 0 && other > 0 ==> other_target > 0) by (nonlinear_arith)
            requires
                own_target * other <= other_target * own,
        ;
    }
    if own > 0 && keep_aspect && !limits(own, other, own_target, other_target) {
        assert(other > 0 && own_target > 0) by (nonlinear_arith)
            requires
                own_target * other > other_target * own,
        ;
        lemma_ceil_div_is_least(own * other_target, other);
        let q = ceil_div(own * other_target, other);
        assert(q <= own_target) by (nonlinear_arith)
            requires
                own * other_target > 0 ==> (q - 1) * other < own * other_target,
                own * other_target == 0 ==> q == 0,
                own_target * other > other_target * own,
                other > 0,
        ;
        assert(own * other_target > 0 <==> other_target > 0) by (nonlinear_arith)
            requires
                own > 0,
        ;
    }
}

/// With independent scales a canvas that has an area is the target exactly,
/// so that nothing is left to pad.
pub proof fn lemma_stretch_fills_target(s: SnapshotView, size: IntrinsicSize)
    requires
        !s.maintain_aspect_ratio,
        drawable(s, size),
    ensures
        planned(s, size).canvas_width == s.width,
        planned(s, size).canvas_height == s.height,
{
}

/// With a common scale a canvas that has an area fills its target along at
/// least one axis, and stays inside it along the other.
pub proof fn lemma_common_scale_fills_one_axis(s: SnapshotView, size: IntrinsicSize)
    requires
        s.maintain_aspect_ratio,
        drawable(s, size),
    ensures
        planned(s, size).canvas_width == s.width || planned(s, size).canvas_height == s.height,
        1 <= planned(s, size).canvas_width <= s.width,
        1 <= planned(s, size).canvas_height <= s.height,
{
    let cw = clipped_raw(size.width.raw as nat, s.clip_left as nat, s.clip_right as nat);
    let ch = clipped_raw(size.height.raw as nat, s.clip_top as nat, s.clip_bottom as nat);
    lemma_canvas_extent_bounds(cw, ch, s.width as nat, s.height as nat, true);
    lemma_canvas_extent_bounds(ch, cw, s.height as nat, s.width as nat, true);
    assert(limits(cw, ch, s.width as nat, s.height as nat) || limits(
        ch,
        cw,
        s.height as nat,
        s.width as nat,
    )) by (nonlinear_arith);
}

/// Under a common scale both axes are scaled alike, and the canvas is the
/// clipped source under that scale, each extent rounded up to whole
/// pixels: a canvas extent times the scale's source length reaches the
/// clipped extent times the scale's target, and would not with one pixel
/// less.
pub proof fn lemma_common_scale_keeps_the_aspect(s: SnapshotView, size: IntrinsicSize)
    requires
        s.maintain_aspect_ratio,
        drawable(s, size),
    ensures
        planned(s, size).scale_x == planned(s, size).scale_y,
        planned(s, size).canvas_width * planned(s, size).scale_x.source.raw >= planned(
            s,
            size,
        ).clipped_width.raw * planned(s, size).scale_x.target,
        (planned(s, size).canvas_width - 1) * planned(s, size).scale_x.source.raw < planned(
            s,
            size,
        ).clipped_width.raw * planned(s, size).scale_x.target,
        planned(s, size).canvas_height * planned(s, size).scale_y.source.raw >= planned(
            s,
            size,
        ).clipped_height.raw * planned(s, size).scale_y.target,
        (planned(s, size).canvas_height - 1) * planned(s, size).scale_y.source.raw < planned(
            s,
            size,
        ).clipped_height.raw * planned(s, size).scale_y.target,
{
    let cw = clipped_raw(size.width.raw as nat, s.clip_left as nat, s.clip_right as nat);
    let ch = clipped_raw(size.height.raw as nat, s.clip_top as nat, s.clip_bottom as nat);
    let w = s.width as nat;
    let h = s.height as nat;
    let p = planned(s, size);
    lemma_canvas_extent_bounds(cw, ch, w, h, true);
    lemma_canvas_extent_bounds(ch, cw, h, w, true);
    assert(p.clipped_width.raw == cw && p.clipped_height.raw == ch);
    if limits(cw, ch, w, h) {
        // Both axes are scaled by w / cw, and the width fills its target.
        assert(p.scale_x.target == w && p.scale_x.source.raw == cw);
        assert(p.canvas_width == w);
        if limits(ch, cw, h, w) {
            assert(p.canvas_height == h);
            assert(h * cw >= ch * w && (h - 1) * cw < ch * w) by (nonlinear_arith)
                requires
                    h * cw <= w * ch,
                    w * ch <= h * cw,
                    cw > 0,
            ;
        } else {
            lemma_ceil_div_is_least(ch * w, cw);
            assert(ch * w > 0) by (nonlinear_arith)
                requires
                    ch > 0,
                    w > 0,
            ;
            assert(p.canvas_height == ceil_div(ch * w, cw));
        }
        assert(w * cw >= cw * w && (w - 1) * cw < cw * w) by (nonlinear_arith)
            requires
                cw > 0,
        ;
    } else {
        // Both axes are scaled by h / ch, and the height fills its target.
        assert(p.scale_x.target == h && p.scale_x.source.raw == ch);
        assert(limits(ch, cw, h, w)) by (nonlinear_arith)
            requires
                w * ch > h * cw,
        ;
        assert(p.canvas_height == h);
        lemma_ceil_div_is_least(cw * h, ch);
        assert(cw * h > 0) by (nonlinear_arith)
            requires
                cw > 0,
                h > 0,
        ;
        assert(p.canvas_width == ceil_div(cw * h, ch));
        assert(h * ch >= ch * h && (h - 1) * ch < ch * h) by (nonlinear_arith)
            requires
                ch > 0,
        ;
    }
}

/// Decides which axis limits a common scale, by cross-multiplying the two
/// ratios.
fn axis_limits(own: u64, other: u64, own_target: u32, other_target: u32) -> (r: bool)
    ensures
        r == limits(own as nat, other as nat, own_target as nat, other_target as nat),
{
    assert(own_target * other <= 0xffff_ffff * 0xffff_ffff_ffff_ffff && other_target * own
        <= 0xffff_ffff * 0xffff_ffff_ffff_ffff) by (nonlinear_arith)
        requires
            own_target <= 0xffff_ffff,
            other_target <= 0xffff_ffff,
            own <= 0xffff_ffff_ffff_ffff,
            other <= 0xffff_ffff_ffff_ffff,
    ;
    let mine: u128 = (own_target as u128) * (other as u128);
    let theirs: u128 = (other_target as u128) * (own as u128);
    mine <= theirs
}

/// The canvas extent along one axis, computed.
fn measure_canvas(own: u64, other: u64, own_target: u32, other_target: u32, keep_aspect: bool) -> (r:
    u32)
    ensures
        r == canvas_extent(
            own as nat,
            other as nat,
            own_target as nat,
            other_target as nat,
            keep_aspect,
        ),
{
    if own == 0 {
        return 0;
    }
    if !keep_aspect || axis_limits(own, other, own_target, other_target) {
        return own_target;
    }
    proof {
        lemma_canvas_extent_bounds(
            own as nat,
            other as nat,
            own_target as nat,
            other_target as nat,
            true,
        );
        assert(other > 0) by (nonlinear_arith)
            requires
                own_target * other > other_target * own,
                other >= 0,
                own >= 0,
                other_target >= 0,
        ;
        assert(own * other_target <= 0xffff_ffff_ffff_ffff * 0xffff_ffff) by (nonlinear_arith)
            requires
                other_target <= 0xffff_ffff,
                own <= 0xffff_ffff_ffff_ffff,
        ;
    }
    let product: u128 = (own as u128) * (other_target as u128);
    let reach: u128 = product + (other as u128 - 1);
    let quotient: u128 = reach / (other as u128);
    quotient as u32
}

/// Works out the canvas and the scale for a snapshot and the size of its
/// source.
///
/// The clip box is cut from the source first; a cut that meets or passes the
/// far edge leaves an extent of zero. Where that, or a target extent of
/// zero, leaves a canvas without area, the plan is refused with the canvas
/// size that came out.
pub fn plan(snapshot: &ConfigSnapshot, size: IntrinsicSize) -> (r: Result<RenderPlan, RenderError>)
    ensures
        r is Ok <==> drawable(snapshot@, size),
        r matches Ok(p) ==> p == planned(snapshot@, size),
        r matches Err(e) ==> e == (RenderError::DegenerateSize {
            width: canvas_width(snapshot@, size) as u32,
            height: canvas_height(snapshot@, size) as u32,
        }),
{
    let cw = size.width.clipped(snapshot.clip_left, snapshot.clip_right);
    let ch = size.height.clipped(snapshot.clip_top, snapshot.clip_bottom);
    let keep = snapshot.maintain_aspect_ratio;
    let canvas_w = measure_canvas(cw.raw, ch.raw, snapshot.width, snapshot.height, keep);
    let canvas_h = measure_canvas(ch.raw, cw.raw, snapshot.height, snapshot.width, keep);
    proof {
        lemma_canvas_extent_bounds(
            cw.raw as nat,
            ch.raw as nat,
            snapshot.width as nat,
            snapshot.height as nat,
            keep,
        );
        lemma_canvas_extent_bounds(
            ch.raw as nat,
            cw.raw as nat,
            snapshot.height as nat,
            snapshot.width as nat,
            keep,
        );
    }
    if canvas_w == 0 || canvas_h == 0 {
        return Err(RenderError::DegenerateSize { width: canvas_w, height: canvas_h });
    }
    let by_width = Scale { target: snapshot.width, source: cw };
    let by_height = Scale { target: snapshot.height, source: ch };
    let width_limits = keep && axis_limits(cw.raw, ch.raw, snapshot.width, snapshot.height);
    let height_limits = keep && !width_limits;
    Ok(
        RenderPlan {
            clipped_width: cw,
            clipped_height: ch,
            scale_x: if height_limits {
                by_height
            } else {
                by_width
            },
            scale_y: if width_limits {
                by_width
            } else {
                by_height
            },
            offset_x: snapshot.clip_left,
            offset_y: snapshot.clip_top,
            canvas_width: canvas_w,
            canvas_height: canvas_h,
        },
    )
}

} // verus!
