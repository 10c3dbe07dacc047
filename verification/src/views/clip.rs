//! A node that clips its single child.
//!
//! On paint it saves the drawing state, computes a clip shape from its own
//! layout size and resolved corner-radius style — the plain bounding
//! rectangle when every resolved radius is zero or less, the rounded one
//! otherwise — intersects it into the active clip region, paints its child
//! inside it, and restores, whatever the child's own paint did.

use vstd::prelude::*;
use crate::context::{PaintCx, spec_size_for, spec_style_for};
use crate::geometry::Size;
use crate::id::IdAllocator;
use crate::style::{clip_shape, spec_clip_shape};
use crate::view::{
    AnyView,
    ViewNode,
    ViewData,
    Visitor,
    VisitorMut,
    clip_paint_trace,
    ids_of,
    view_id,
};

verus! {

/// A composite node wrapping exactly one exclusively owned child.
pub struct Clip {
    pub data: ViewData,
    pub child: Box<AnyView>,
}

/// Wraps `child` in a clipping node with a fresh identity.
pub fn clip(child: AnyView, ids: &mut IdAllocator) -> (node: Clip)
    requires
        old(ids).next_value < u64::MAX,
    ensures
        node.data.id.value == old(ids).next_value,
        node.data.repaint_requested == false,
        *node.child == child,
        final(ids).next_value == old(ids).next_value + 1,
{
    let id = ids.next_identity();
    Clip { data: ViewData::new(id), child: Box::new(child) }
}

impl ViewNode for Clip {
    open spec fn spec_data(&self) -> ViewData {
        self.data
    }

    open spec fn children(&self) -> Seq<AnyView> {
        seq![*self.child]
    }

    fn view_data(&self) -> (data: &ViewData) {
        &self.data
    }

    fn view_data_mut(&mut self) -> (data: &mut ViewData) {
        &mut self.data
    }

    fn debug_name(&self) -> (name: &'static str)
        ensures
            name@ == "Clip"@,
    {
        "Clip"
    }

    /// Shows the visitor the one child; whether or not it signals stop,
    /// there is nothing further to visit.
    fn for_each_child<V: Visitor>(&self, visitor: &mut V)
        ensures
            final(visitor).seen() == old(visitor).seen().push(view_id(*self.child)),
    {
        let _stop = visitor.visit(&self.child);
        proof {
            assert(ids_of(self.children()).take(1) =~= seq![view_id(*self.child)]);
            assert(visitor.seen() =~= old(visitor).seen() + ids_of(self.children()).take(1));
        }
    }

    fn for_each_child_mut<V: VisitorMut>(&mut self, visitor: &mut V)
        ensures
            final(visitor).seen() == old(visitor).seen().push(view_id(*old(self).child)),
            final(self).data == old(self).data,
    {
        let _stop = visitor.visit_mut(&mut self.child);
        proof {
            assert(ids_of(old(self).children()).take(1) =~= seq![view_id(*old(self).child)]);
            assert(visitor.seen() =~= old(visitor).seen() + ids_of(old(self).children()).take(1));
        }
    }

    /// With a single child, reverse order shows the same one child.
    fn for_each_child_rev_mut<V: VisitorMut>(&mut self, visitor: &mut V)
        ensures
            final(visitor).seen() == old(visitor).seen().push(view_id(*old(self).child)),
            final(self).data == old(self).data,
    {
        let _stop = visitor.visit_mut(&mut self.child);
        proof {
            assert(ids_of(old(self).children().reverse()).take(1) =~= seq![view_id(*old(self).child)]);
            assert(visitor.seen() =~= old(visitor).seen() + ids_of(
                old(self).children().reverse(),
            ).take(1));
        }
    }

    /// Saves, clips to the shape its own layout size and style call for,
    /// paints the child inside the clip, and restores — exactly one save
    /// and one matching restore, whatever the child's paint does, so the
    /// context comes back with the drawing state it went in with.
    fn paint(&mut self, cx: &mut PaintCx)
        ensures
            final(cx).log@ == old(cx).log@ + clip_paint_trace(
                *old(self),
                old(cx).layouts@,
                old(cx).styles@,
            ),
        decreases *self, 1int,
    {
        cx.save();

        let size = match cx.get_layout(self.data.id) {
            Some(layout) => layout.size,
            None => Size::zero(),
        };
        let style = cx.get_builtin_style(self.data.id);
        let shape = clip_shape(&style, size);
        cx.clip(shape);
        cx.paint_view(&mut self.child);
        let ghost cx_after_child = *cx;
        cx.restore();

        proof {
            assert(old(cx).clips@.len() == old(cx).clips.len());
            assert(cx.clips@ == cx_after_child.clips@.subrange(0, old(cx).clips@.len() as int));
            assert(shape == spec_clip_shape(
                spec_style_for(old(self).data.id, old(cx).styles@),
                spec_size_for(old(self).data.id, old(cx).layouts@),
            ));
            assert(cx.saves@ =~= old(cx).saves@);
            assert(cx.clips@ =~= old(cx).clips@);
            assert(cx.log@ =~= old(cx).log@ + clip_paint_trace(
                *old(self),
                old(cx).layouts@,
                old(cx).styles@,
            ));
            assert(old(cx).log@.is_prefix_of(cx.log@)) by {
                assert(cx.log@.subrange(0, old(cx).log@.len() as int) =~= old(cx).log@);
            }
        }
    }
}

} // verus!
