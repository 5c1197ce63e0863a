//! The raised-cosine taper, one axis at a time.
//!
//! The weight of sample `v` on an axis of `n` samples is
//! `(1 - cos(2 * pi * v / (n - 1))) / 2`; the weight of a pixel is the product
//! of its row's and its column's weight. An axis of one sample has the
//! constant weight 1. The cosine is evaluated by the caller; this module
//! decides at which fraction of a turn, and ranks samples by weight.

use crate::geometry::centre_sample;
use vstd::prelude::*;

verus! {

/// How the weight of one sample of an axis is obtained.
#[derive(Clone, Copy, Debug, PartialEq, Eq, Structural)]
pub enum AxisWeight {
    /// The axis has a single sample: its weight is 1.
    One,
    /// The raised cosine at `step / span` of a full turn, with `span >= 1`.
    RaisedCosine { step: usize, span: usize },
}

/// The weight rule for sample `v` of an axis of `n` samples.
pub open spec fn weight_rule(n: int, v: int) -> AxisWeight {
    if n == 1 {
        AxisWeight::One
    } else {
        AxisWeight::RaisedCosine { step: v as usize, span: (n - 1) as usize }
    }
}

/// Distance of sample `v` from the midpoint `(n - 1) / 2` of the axis,
/// doubled. The raised cosine falls as this distance grows.
pub open spec fn midpoint_gap(n: int, v: int) -> int {
    if 2 * v >= n - 1 {
        2 * v - (n - 1)
    } else {
        (n - 1) - 2 * v
    }
}

/// The weight rule for sample `v` of an axis of `n` samples, for a sample on
/// the axis.
pub fn axis_weight(n: usize, v: usize) -> (r: Option<AxisWeight>)
    ensures
        r.is_some() <==> v < n,
        r matches Some(rule) ==> rule == weight_rule(n as int, v as int),
        r matches Some(AxisWeight::RaisedCosine { step, span }) ==> step <= span && span >= 1,
{
    if v >= n {
        None
    } else if n == 1 {
        Some(AxisWeight::One)
    } else {
        Some(AxisWeight::RaisedCosine { step: v, span: n - 1 })
    }
}

/// Doubled distance of sample `v` from the midpoint of an axis of `n`
/// samples, for a sample on the axis.
pub fn sample_gap(n: usize, v: usize) -> (r: Option<usize>)
    ensures
        r.is_some() <==> v < n,
        r matches Some(gap) ==> gap == midpoint_gap(n as int, v as int),
{
    if v >= n {
        None
    } else if v >= n - 1 - v {
        Some(v - (n - 1 - v))
    } else {
        Some((n - 1 - v) - v)
    }
}

/// The taper is greatest at the centre: no sample of the axis is nearer to
/// its midpoint than the centre sample `n / 2`.
pub proof fn law_centre_sample_has_least_gap(n: int, v: int)
    requires
        0 <= v < n,
    ensures
        midpoint_gap(n, centre_sample(n)) <= midpoint_gap(n, v),
        midpoint_gap(n, centre_sample(n)) <= 1,
{
}

/// The taper is least at the edges: no sample of the axis is farther from its
/// midpoint than the first and the last.
pub proof fn law_edges_have_greatest_gap(n: int, v: int)
    requires
        0 <= v < n,
    ensures
        0 <= midpoint_gap(n, v) <= n - 1,
        midpoint_gap(n, 0) == n - 1,
        midpoint_gap(n, n - 1) == n - 1,
{
}

} // verus!
