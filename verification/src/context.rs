//! The paint context: one mutable object threaded through a whole paint
//! pass.
//!
//! It owns a stack of saved drawing states (here: how much of the clip
//! chain was active at the save), the current clip chain — the ordered
//! intersection of every shape clipped since the pass began — a command log
//! that records what the pass did in order, and read-only lookups of layout
//! and style keyed by node identity. `save` and `restore` must be balanced
//! by every node's paint; `restore` with no matching `save` is a caller
//! error and is excluded by contract.

use vstd::prelude::*;
use std::collections::HashMap;
use crate::geometry::{ClipShape, Size};
use crate::id::Id;
use crate::style::Style;
use crate::view::{AnyView, ViewNode};

verus! {

broadcast use vstd::std_specs::hash::group_hash_axioms;

/// One node's layout as the layout engine computed it. Only the size is
/// consumed here.
#[derive(Clone, Copy, PartialEq, Eq, Structural, Debug)]
pub struct Layout {
    pub size: Size,
}

/// One entry of the paint log: everything a paint pass does to the drawing
/// state, in the order it happens.
#[derive(Clone, Copy, PartialEq, Eq, Structural, Debug)]
pub enum PaintEvent {
    /// A drawing state was pushed.
    Saved,
    /// The last saved drawing state was popped and reinstated.
    Restored,
    /// The given shape was intersected into the active clip region.
    Clipped(ClipShape),
    /// The node with the given identity issued its drawing primitives.
    Painted(Id),
}

/// The layout size recorded for `id`, or the zero size when the layout
/// engine has not yet produced one — a node painted before layout clips to
/// a zero-area rectangle rather than failing.
pub open spec fn spec_size_for(id: Id, layouts: Map<u64, Layout>) -> Size {
    if layouts.contains_key(id.value) {
        layouts[id.value].size
    } else {
        Size { width: 0, height: 0 }
    }
}

/// The style recorded for `id`, or the default style (all radii zero) when
/// the style engine has not yet produced one.
pub open spec fn spec_style_for(id: Id, styles: Map<u64, Style>) -> Style {
    if styles.contains_key(id.value) {
        styles[id.value]
    } else {
        Style::spec_default()
    }
}

/// The shared paint context.
pub struct PaintCx {
    /// For each saved drawing state, the length of the clip chain when it
    /// was saved; restoring truncates the chain back to that length.
    pub saves: Vec<usize>,
    /// The active clip region: the intersection of all these shapes.
    pub clips: Vec<ClipShape>,
    /// Everything the pass has done so far, in order.
    pub log: Vec<PaintEvent>,
    /// Layout, keyed by node identity; owned upstream, read here.
    pub layouts: HashMap<u64, Layout>,
    /// Resolved style, keyed by node identity; owned upstream, read here.
    pub styles: HashMap<u64, Style>,
}

impl PaintCx {
    /// Saved clip-chain lengths never exceed the chain itself and never
    /// shrink as the stack grows, so each restore finds a valid mark.
    pub open spec fn wf(&self) -> bool {
        &&& forall|i: int| 0 <= i < self.saves@.len() ==> self.saves@[i] <= self.clips@.len()
        &&& forall|i: int, j: int|
            0 <= i <= j < self.saves@.len() ==> self.saves@[i] <= self.saves@[j]
    }

    /// A context for a fresh paint pass: no saved state, no active clip, an
    /// empty log, and no layout or style registered yet.
    pub fn new() -> (cx: PaintCx)
        ensures
            cx.wf(),
            cx.saves@ == Seq::<usize>::empty(),
            cx.clips@ == Seq::<ClipShape>::empty(),
            cx.log@ == Seq::<PaintEvent>::empty(),
            cx.layouts@ == Map::<u64, Layout>::empty(),
            cx.styles@ == Map::<u64, Style>::empty(),
    {
        PaintCx {
            saves: Vec::new(),
            clips: Vec::new(),
            log: Vec::new(),
            layouts: HashMap::new(),
            styles: HashMap::new(),
        }
    }

    /// Records the layout the layout engine computed for `id`.
    pub fn set_layout(&mut self, id: Id, layout: Layout)
        ensures
            final(self).layouts@ == old(self).layouts@.insert(id.value, layout),
            final(self).styles@ == old(self).styles@,
            final(self).saves@ == old(self).saves@,
            final(self).clips@ == old(self).clips@,
            final(self).log@ == old(self).log@,
    {
        self.layouts.insert(id.value, layout);
    }

    /// Records the style the style engine resolved for `id`.
    pub fn set_builtin_style(&mut self, id: Id, style: Style)
        ensures
            final(self).styles@ == old(self).styles@.insert(id.value, style),
            final(self).layouts@ == old(self).layouts@,
            final(self).saves@ == old(self).saves@,
            final(self).clips@ == old(self).clips@,
            final(self).log@ == old(self).log@,
    {
        self.styles.insert(id.value, style);
    }

    /// Looks up the layout computed for `id`, or nothing when the layout
    /// engine knows nothing about it.
    pub fn get_layout(&self, id: Id) -> (r: Option<Layout>)
        ensures
            r == (if self.layouts@.contains_key(id.value) {
                Some(self.layouts@[id.value])
            } else {
                None::<Layout>
            }),
            r matches Some(layout) ==> layout.size == spec_size_for(id, self.layouts@),
            r is None ==> spec_size_for(id, self.layouts@) == (Size { width: 0, height: 0 }),
    {
        match self.layouts.get(&id.value) {
            Some(layout) => Some(*layout),
            None => None,
        }
    }

    /// Looks up the style resolved for `id`; a node the style engine knows
    /// nothing about gets the default style.
    pub fn get_builtin_style(&self, id: Id) -> (s: Style)
        ensures
            s == spec_style_for(id, self.styles@),
    {
        match self.styles.get(&id.value) {
            Some(style) => *style,
            None => Style::default_style(),
        }
    }

    /// Pushes the current drawing state, to be reinstated by the matching
    /// `restore`.
    pub fn save(&mut self)
        requires
            old(self).wf(),
        ensures
            final(self).wf(),
            final(self).saves@ == old(self).saves@.push(old(self).clips@.len() as usize),
            final(self).clips@ == old(self).clips@,
            final(self).log@ == old(self).log@.push(PaintEvent::Saved),
            final(self).layouts@ == old(self).layouts@,
            final(self).styles@ == old(self).styles@,
    {
        let mark = self.clips.len();
        self.saves.push(mark);
        self.log.push(PaintEvent::Saved);
    }

    /// Pops the last saved drawing state and reinstates it, dropping every
    /// clip applied since the matching `save`. Calling it with nothing
    /// saved is a programming error and is ruled out by contract.
    pub fn restore(&mut self)
        requires
            old(self).wf(),
            old(self).saves@.len() > 0,
        ensures
            final(self).wf(),
            final(self).saves@ == old(self).saves@.drop_last(),
            final(self).clips@ == old(self).clips@.subrange(0, old(self).saves@.last() as int),
            final(self).log@ == old(self).log@.push(PaintEvent::Restored),
            final(self).layouts@ == old(self).layouts@,
            final(self).styles@ == old(self).styles@,
    {
        let mark = self.saves.pop().unwrap();
        self.clips.truncate(mark);
        self.log.push(PaintEvent::Restored);
    }

    /// Intersects the active clip region with `shape` and makes the result
    /// active; only a `restore` undoes it.
    pub fn clip(&mut self, shape: ClipShape)
        requires
            old(self).wf(),
        ensures
            final(self).wf(),
            final(self).clips@ == old(self).clips@.push(shape),
            final(self).log@ == old(self).log@.push(PaintEvent::Clipped(shape)),
            final(self).saves@ == old(self).saves@,
            final(self).layouts@ == old(self).layouts@,
            final(self).styles@ == old(self).styles@,
    {
        self.clips.push(shape);
        self.log.push(PaintEvent::Clipped(shape));
    }

    /// Records that the node with identity `id` issued its drawing
    /// primitives under the currently active clip region.
    pub fn mark_painted(&mut self, id: Id)
        requires
            old(self).wf(),
        ensures
            final(self).wf(),
            final(self).log@ == old(self).log@.push(PaintEvent::Painted(id)),
            final(self).saves@ == old(self).saves@,
            final(self).clips@ == old(self).clips@,
            final(self).layouts@ == old(self).layouts@,
            final(self).styles@ == old(self).styles@,
    {
        self.log.push(PaintEvent::Painted(id));
    }

    /// Delegates painting to `view` with this same context: the recursive
    /// step of the depth-first paint pass. The view's paint appends exactly
    /// its paint trace to the log and leaves drawing state, tables and the
    /// view itself as they were.
    pub fn paint_view(&mut self, view: &mut AnyView)
        requires
            old(self).wf(),
        ensures
            final(self).wf(),
            final(self).saves@ == old(self).saves@,
            final(self).clips@ == old(self).clips@,
            final(self).layouts@ == old(self).layouts@,
            final(self).styles@ == old(self).styles@,
            final(self).log@ == old(self).log@ + crate::view::paint_trace(
                *old(view),
                old(self).layouts@,
                old(self).styles@,
            ),
            *final(view) == *old(view),
        decreases *view, 1int,
    {
        view.paint(self);
    }
}

} // verus!
