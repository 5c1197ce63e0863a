//! Where the ideal response peaks: squared distances from the window centre.
//!
//! The ideal response at pixel `(x, y)` is `exp(-d / 2)`, with `d` the squared
//! distance from the real-valued centre `(width / 2, height / 2)`. In
//! half-pixel units that distance is an integer: `d = centre_distance / 4`.

use crate::geometry::{centre_sample, WindowSize};
use vstd::prelude::*;

verus! {

/// Four times the squared distance of sample `v` from the midpoint `n / 2`
/// (a real number) of an axis of `n` samples.
pub open spec fn axis_distance(n: int, v: int) -> int {
    (2 * v - n) * (2 * v - n)
}

/// Four times the squared distance of pixel `(x, y)` from the real-valued
/// centre of a `width` by `height` window.
pub open spec fn centre_distance(width: int, height: int, x: int, y: int) -> int {
    axis_distance(width, x) + axis_distance(height, y)
}

/// No sample of an axis is farther from its midpoint than the extent of the axis.
proof fn lemma_axis_distance_bound(n: int, v: int)
    requires
        0 <= v < n,
    ensures
        0 <= axis_distance(n, v) <= n * n,
{
    let d = 2 * v - n;
    assert(0 <= d * d <= n * n) by (nonlinear_arith)
        requires
            -n <= d < n,
    ;
}

/// The squares of two positive extents sum to less than `2^128` when their
/// product fits in 64 bits.
proof fn lemma_square_sum_fits(w: int, h: int)
    requires
        1 <= w,
        1 <= h,
        w * h <= u64::MAX,
    ensures
        w * w + h * h <= u128::MAX,
{
    let p = w * h;
    assert(w * w + h * h <= p * p + 1) by (nonlinear_arith)
        requires
            1 <= w,
            1 <= h,
            p == w * h,
    {
        assert((w * w - 1) * (h * h - 1) >= 0);
    }
    assert(p * p <= 0xFFFF_FFFF_FFFF_FFFF * 0xFFFF_FFFF_FFFF_FFFF) by (nonlinear_arith)
        requires
            0 <= p <= 0xFFFF_FFFF_FFFF_FFFF,
    ;
}

/// Distance of sample `v` from the midpoint of an axis, doubled.
fn axis_gap(n: usize, v: usize) -> (r: u128)
    requires
        v < n,
    ensures
        r * r == axis_distance(n as int, v as int),
        r <= n,
{
    let twice: u128 = 2 * (v as u128);
    let extent: u128 = n as u128;
    let r: u128 = if twice >= extent {
        twice - extent
    } else {
        extent - twice
    };
    assert(r * r == (2 * v - n) * (2 * v - n)) by (nonlinear_arith)
        requires
            r == 2 * v - n || r == n - 2 * v,
    ;
    r
}

/// Four times the squared distance of pixel `(x, y)` from the centre of the
/// window, for a pixel inside it.
pub fn target_distance(size: &WindowSize, x: usize, y: usize) -> (r: Option<u128>)
    ensures
        r.is_some() <==> x < size.w() && y < size.h(),
        r matches Some(d) ==> d == centre_distance(size.w(), size.h(), x as int, y as int),
{
    let w = size.width();
    let h = size.height();
    if x < w && y < h {
        let dx = axis_gap(w, x);
        let dy = axis_gap(h, y);
        proof {
            lemma_axis_distance_bound(w as int, x as int);
            lemma_axis_distance_bound(h as int, y as int);
            lemma_square_sum_fits(w as int, h as int);
        }
        Some(dx * dx + dy * dy)
    } else {
        None
    }
}

/// On one axis, no sample is nearer to the midpoint than the centre sample.
pub proof fn law_centre_sample_is_nearest(n: int, v: int)
    ensures
        axis_distance(n, centre_sample(n)) <= axis_distance(n, v),
        axis_distance(n, centre_sample(n)) == 0 || axis_distance(n, centre_sample(n)) == 1,
{
    let c = 2 * (n / 2) - n;
    let d = 2 * v - n;
    assert(c == 0 || c == -1);
    assert(c * c == 0 || c * c == 1) by (nonlinear_arith)
        requires
            c == 0 || c == -1,
    ;
    if c == -1 {
        assert(d != 0);
        assert(d * d >= 1) by (nonlinear_arith)
            requires
                d != 0,
        ;
    } else {
        assert(d * d >= 0) by (nonlinear_arith);
    }
}

/// The ideal response peaks at the centre pixel: no pixel is nearer to the
/// real-valued centre of the window than pixel `(width / 2, height / 2)`.
pub proof fn law_centre_pixel_is_nearest(width: int, height: int, x: int, y: int)
    ensures
        centre_distance(width, height, centre_sample(width), centre_sample(height))
            <= centre_distance(width, height, x, y),
{
    law_centre_sample_is_nearest(width, x);
    law_centre_sample_is_nearest(height, y);
}

} // verus!
