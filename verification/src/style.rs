//! Resolved style snapshots and the clip-shape computation.

use vstd::prelude::*;
use crate::geometry::{ClipShape, CornerRadii, Size, spec_resolve_radius, resolve_radius};
use crate::unit::PxPct;

verus! {

/// The already-cascaded style values one node needs here: its four
/// corner-radius values, one per corner, assigned positionally.
#[derive(Clone, Copy, PartialEq, Eq, Structural, Debug)]
pub struct Style {
    pub border_radius_top_left: PxPct,
    pub border_radius_top_right: PxPct,
    pub border_radius_bottom_right: PxPct,
    pub border_radius_bottom_left: PxPct,
}

impl Style {
    /// The style of a node the style engine knows nothing about: sharp
    /// corners everywhere.
    pub fn default_style() -> (s: Style)
        ensures
            s == Style::spec_default(),
    {
        Style {
            border_radius_top_left: PxPct::Px(0),
            border_radius_top_right: PxPct::Px(0),
            border_radius_bottom_right: PxPct::Px(0),
            border_radius_bottom_left: PxPct::Px(0),
        }
    }

    /// The default style: every corner radius is zero pixels.
    pub open spec fn spec_default() -> Style {
        Style {
            border_radius_top_left: PxPct::Px(0),
            border_radius_top_right: PxPct::Px(0),
            border_radius_bottom_right: PxPct::Px(0),
            border_radius_bottom_left: PxPct::Px(0),
        }
    }
}

/// The four corner radii of `style`, each resolved against the minimum side
/// of `size`, in centipixels.
pub open spec fn spec_resolved_radii(style: Style, size: Size) -> CornerRadii {
    CornerRadii {
        top_left: spec_resolve_radius(style.border_radius_top_left, size.spec_min_side()) as i128,
        top_right: spec_resolve_radius(
            style.border_radius_top_right,
            size.spec_min_side(),
        ) as i128,
        bottom_right: spec_resolve_radius(
            style.border_radius_bottom_right,
            size.spec_min_side(),
        ) as i128,
        bottom_left: spec_resolve_radius(
            style.border_radius_bottom_left,
            size.spec_min_side(),
        ) as i128,
    }
}

/// The clip region a node of the given style and size applies: its bounding
/// rectangle, rounded exactly when some resolved corner radius is positive.
pub open spec fn spec_clip_shape(style: Style, size: Size) -> ClipShape {
    let radii = spec_resolved_radii(style, size);
    if radii.all_non_positive() {
        ClipShape::Rect { width: size.width, height: size.height }
    } else {
        ClipShape::Rounded { width: size.width, height: size.height, radii }
    }
}

/// Computes the clip region for one node: resolves the four corner radii
/// against the minimum side of `size` and picks the plain rectangle when all
/// of them are zero or less, the rounded rectangle otherwise.
pub fn clip_shape(style: &Style, size: Size) -> (shape: ClipShape)
    ensures
        shape == spec_clip_shape(*style, size),
{
    let min_side = size.min_side();
    let top_left = resolve_radius(style.border_radius_top_left, min_side);
    let top_right = resolve_radius(style.border_radius_top_right, min_side);
    let bottom_right = resolve_radius(style.border_radius_bottom_right, min_side);
    let bottom_left = resolve_radius(style.border_radius_bottom_left, min_side);
    if top_left > 0 || top_right > 0 || bottom_right > 0 || bottom_left > 0 {
        ClipShape::Rounded {
            width: size.width,
            height: size.height,
            radii: CornerRadii { top_left, top_right, bottom_right, bottom_left },
        }
    } else {
        ClipShape::Rect { width: size.width, height: size.height }
    }
}

/// A degenerate node — zero width or zero height — resolves every percentage
/// radius to zero; when every corner is a percentage (or an absolute zero),
/// the clip falls back to the plain rectangle.
pub proof fn lemma_degenerate_size_clips_to_rect(style: Style, size: Size)
    requires
        size.width == 0 || size.height == 0,
        style.border_radius_top_left is Pct,
        style.border_radius_top_right is Pct,
        style.border_radius_bottom_right is Pct,
        style.border_radius_bottom_left is Pct,
    ensures
        spec_resolved_radii(style, size) == (CornerRadii {
            top_left: 0,
            top_right: 0,
            bottom_right: 0,
            bottom_left: 0,
        }),
        spec_clip_shape(style, size) == (ClipShape::Rect {
            width: size.width,
            height: size.height,
        }),
{
    assert(size.spec_min_side() == 0);
}

/// Whenever all four resolved radii come out at zero or less, the applied
/// clip shape is exactly the node's bounding rectangle.
pub proof fn lemma_non_positive_radii_clip_to_rect(style: Style, size: Size)
    requires
        spec_resolved_radii(style, size).all_non_positive(),
    ensures
        spec_clip_shape(style, size) == (ClipShape::Rect {
            width: size.width,
            height: size.height,
        }),
{
}

/// A percentage radius `p` resolves to `p/100` of the minimum side — that is,
/// to `p * min(w, h)` centipixels — at whichever corner it stands: the four
/// corners of a style that repeats the same percentage all resolve alike.
pub proof fn lemma_pct_radius_resolution(p: i64, size: Size)
    ensures
        spec_resolve_radius(PxPct::Pct(p), size.spec_min_side()) == p * size.spec_min_side(),
        spec_resolved_radii(
            Style {
                border_radius_top_left: PxPct::Pct(p),
                border_radius_top_right: PxPct::Pct(p),
                border_radius_bottom_right: PxPct::Pct(p),
                border_radius_bottom_left: PxPct::Pct(p),
            },
            size,
        ) == (CornerRadii {
            top_left: (p * size.spec_min_side()) as i128,
            top_right: (p * size.spec_min_side()) as i128,
            bottom_right: (p * size.spec_min_side()) as i128,
            bottom_left: (p * size.spec_min_side()) as i128,
        }),
{
}

} // verus!
