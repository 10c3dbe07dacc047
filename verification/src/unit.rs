//! Style units for corner radii.

use vstd::prelude::*;

verus! {

/// A corner-radius value as the style engine resolves it: either an absolute
/// length in pixels, or a percentage of the node's own minimum side length.
#[derive(Clone, Copy, PartialEq, Eq, Structural, Debug)]
pub enum PxPct {
    /// An absolute length, in whole pixels.
    Px(i64),
    /// A percentage, in whole percent, of the node's minimum side length.
    Pct(i64),
}

} // verus!
