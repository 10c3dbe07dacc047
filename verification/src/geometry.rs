//! Sizes and clip shapes.
//!
//! All lengths are integers. A node's size is measured in whole pixels;
//! resolved corner radii are measured in **centipixels** (hundredths of a
//! pixel), so that resolving a percentage radius — `p/100` of the minimum
//! side — is exact integer arithmetic: `p` percent of `m` pixels is exactly
//! `p * m` centipixels.

use vstd::prelude::*;
use crate::unit::PxPct;

verus! {

/// A node's layout size: width and height in whole pixels, never negative.
#[derive(Clone, Copy, PartialEq, Eq, Structural, Debug)]
pub struct Size {
    pub width: u64,
    pub height: u64,
}

impl Size {
    /// The all-zero size used when no layout has been computed for a node.
    pub fn zero() -> (s: Size)
        ensures
            s == (Size { width: 0, height: 0 }),
    {
        Size { width: 0, height: 0 }
    }

    /// The length of the shorter side, in pixels.
    pub fn min_side(&self) -> (m: u64)
        ensures
            m == self.spec_min_side(),
    {
        if self.width <= self.height {
            self.width
        } else {
            self.height
        }
    }

    /// The length of the shorter side.
    pub open spec fn spec_min_side(&self) -> u64 {
        if self.width <= self.height {
            self.width
        } else {
            self.height
        }
    }
}

/// The four resolved corner radii of a rounded rectangle, in centipixels,
/// assigned positionally.
#[derive(Clone, Copy, PartialEq, Eq, Structural, Debug)]
pub struct CornerRadii {
    pub top_left: i128,
    pub top_right: i128,
    pub bottom_right: i128,
    pub bottom_left: i128,
}

impl CornerRadii {
    /// Holds when no corner demands rounding: every radius is zero or less.
    pub open spec fn all_non_positive(&self) -> bool {
        self.top_left <= 0 && self.top_right <= 0 && self.bottom_right <= 0
            && self.bottom_left <= 0
    }
}

/// The region a clipping node hands to the paint context: the node's own
/// bounding rectangle `[0,0]–[width,height]`, plain or with rounded corners.
#[derive(Clone, Copy, PartialEq, Eq, Structural, Debug)]
pub enum ClipShape {
    /// An axis-aligned rectangle from the origin, sides in whole pixels.
    Rect { width: u64, height: u64 },
    /// The same rectangle with four independent corner radii in centipixels.
    /// Oversized radii are passed through unclamped; the rounding primitive
    /// downstream is responsible for them.
    Rounded { width: u64, height: u64, radii: CornerRadii },
}

/// The resolved value of one corner-radius style, in centipixels: an absolute
/// pixel value is scaled by one hundred, a percentage `p` of the minimum side
/// `m` resolves to `p/100 * m` pixels, which is exactly `p * m` centipixels.
pub open spec fn spec_resolve_radius(radius: PxPct, min_side: u64) -> int {
    match radius {
        PxPct::Px(px) => px * 100,
        PxPct::Pct(pct) => pct * min_side,
    }
}

/// Resolves one corner-radius style value against the minimum side length.
pub fn resolve_radius(radius: PxPct, min_side: u64) -> (r: i128)
    ensures
        r == spec_resolve_radius(radius, min_side),
{
    match radius {
        PxPct::Px(px) => {
            (px as i128) * 100
        },
        PxPct::Pct(pct) => {
            proof {
                lemma_pct_product_fits(pct as int, min_side as int);
            }
            (pct as i128) * (min_side as i128)
        },
    }
}

/// The product of a percentage and a side length stays within `i128`.
proof fn lemma_pct_product_fits(pct: int, min_side: int)
    requires
        i64::MIN <= pct <= i64::MAX,
        0 <= min_side <= u64::MAX,
    ensures
        i128::MIN <= pct * min_side <= i128::MAX,
{
    assert(i128::MIN <= pct * min_side <= i128::MAX) by (nonlinear_arith)
        requires
            i64::MIN <= pct <= i64::MAX,
            0 <= min_side <= u64::MAX,
    ;
}

/// A percentage radius on a zero-minimum-side node resolves to zero, and an
/// absolute zero radius resolves to zero, whichever corner it stands at.
pub proof fn lemma_zero_size_radius(radius: PxPct, size: Size)
    requires
        size.width == 0 || size.height == 0,
        radius is Pct || radius == PxPct::Px(0),
    ensures
        spec_resolve_radius(radius, size.spec_min_side()) == 0,
{
    assert(size.spec_min_side() == 0);
}

} // verus!
