//! A verified core of a retained-mode view tree: generic child traversal,
//! a paint context that stacks drawing state, and a clipping node that
//! computes a rectangular or rounded-rectangular clip region from its own
//! layout size and corner-radius style before painting its child.

pub mod context;
pub mod geometry;
pub mod id;
pub mod style;
pub mod unit;
pub mod view;
pub mod views;

pub use context::{Layout, PaintCx, PaintEvent};
pub use geometry::{ClipShape, CornerRadii, Size};
pub use id::{Id, IdAllocator};
pub use style::{clip_shape, Style};
pub use unit::PxPct;
pub use view::{AnyView, IdCollector, ViewData, ViewNode, Visitor, VisitorMut};
pub use views::clip::{Clip, clip};
pub use views::empty::{Empty, empty};
