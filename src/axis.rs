use vstd::prelude::*;

verus! {

/// The position of a pixel along one axis of the frame, as the fraction
/// `num / den` of the way from the view's minimum to its maximum coordinate.
#[derive(Copy, Clone, Debug, PartialEq, Eq, Structural)]
pub struct AxisFraction {
    pub num: u32,
    pub den: u32,
}

/// Pixel `index` of an axis with `extent` pixels sits at `index / (extent - 1)`;
/// an axis of a single pixel is pinned to the minimum coordinate instead of
/// dividing by zero.
pub open spec fn spec_axis_fraction(index: u32, extent: u32) -> AxisFraction {
    if extent >= 2 {
        AxisFraction { num: index, den: (extent - 1) as u32 }
    } else {
        AxisFraction { num: 0, den: 1 }
    }
}

/// Where pixel `index` of an axis with `extent` pixels lies between the
/// view's minimum and maximum coordinate.
pub fn axis_fraction(index: u32, extent: u32) -> (r: AxisFraction)
    requires
        index < extent,
    ensures
        r == spec_axis_fraction(index, extent),
        r.den > 0,
        r.num <= r.den,
{
    if extent >= 2 {
        AxisFraction { num: index, den: extent - 1 }
    } else {
        AxisFraction { num: 0, den: 1 }
    }
}

/// The first pixel of an axis maps to the view's minimum coordinate (fraction
/// zero) and the last pixel of an axis of two or more pixels maps to the
/// maximum (fraction one).
pub proof fn lemma_axis_ends(extent: u32)
    requires
        extent >= 1,
    ensures
        spec_axis_fraction(0, extent).num == 0,
        spec_axis_fraction(0, extent).den > 0,
        extent >= 2 ==> spec_axis_fraction((extent - 1) as u32, extent).num == spec_axis_fraction(
            (extent - 1) as u32,
            extent,
        ).den,
{
}

} // verus!
