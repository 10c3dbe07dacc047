//! A leaf node: no children, nothing to clip; painting it just issues its
//! drawing primitives under whatever clip region is active.

use vstd::prelude::*;
use crate::context::{PaintCx, PaintEvent};
use crate::id::IdAllocator;
use crate::view::{AnyView, ViewNode, ViewData, Visitor, VisitorMut, ids_of};

verus! {

/// A childless view node.
pub struct Empty {
    pub data: ViewData,
}

/// Builds a leaf node with a fresh identity.
pub fn empty(ids: &mut IdAllocator) -> (leaf: Empty)
    requires
        old(ids).next_value < u64::MAX,
    ensures
        leaf.data.id.value == old(ids).next_value,
        leaf.data.repaint_requested == false,
        final(ids).next_value == old(ids).next_value + 1,
{
    let id = ids.next_identity();
    Empty { data: ViewData::new(id) }
}

impl ViewNode for Empty {
    open spec fn spec_data(&self) -> ViewData {
        self.data
    }

    open spec fn children(&self) -> Seq<AnyView> {
        Seq::empty()
    }

    fn view_data(&self) -> (data: &ViewData) {
        &self.data
    }

    fn view_data_mut(&mut self) -> (data: &mut ViewData) {
        &mut self.data
    }

    fn debug_name(&self) -> (name: &'static str)
        ensures
            name@ == "Empty"@,
    {
        "Empty"
    }

    /// A leaf has no children: the visitor is never called.
    fn for_each_child<V: Visitor>(&self, visitor: &mut V)
        ensures
            final(visitor).seen() == old(visitor).seen(),
    {
        proof {
            assert(ids_of(self.children()).take(0) =~= Seq::<crate::id::Id>::empty());
            assert(visitor.seen() + ids_of(self.children()).take(0) =~= visitor.seen());
        }
    }

    fn for_each_child_mut<V: VisitorMut>(&mut self, visitor: &mut V)
        ensures
            final(visitor).seen() == old(visitor).seen(),
    {
        proof {
            assert(ids_of(self.children()).take(0) =~= Seq::<crate::id::Id>::empty());
            assert(visitor.seen() + ids_of(self.children()).take(0) =~= visitor.seen());
        }
    }

    fn for_each_child_rev_mut<V: VisitorMut>(&mut self, visitor: &mut V)
        ensures
            final(visitor).seen() == old(visitor).seen(),
    {
        proof {
            assert(ids_of(self.children().reverse()).take(0) =~= Seq::<crate::id::Id>::empty());
            assert(visitor.seen() + ids_of(self.children().reverse()).take(0) =~= visitor.seen());
        }
    }

    /// Issues this leaf's drawing primitives: one `Painted` entry in the
    /// log, and nothing else changes.
    fn paint(&mut self, cx: &mut PaintCx)
        ensures
            final(cx).log@ == old(cx).log@.push(PaintEvent::Painted(old(self).data.id)),
    {
        cx.mark_painted(self.data.id);
        proof {
            assert(old(cx).log@.is_prefix_of(cx.log@)) by {
                assert(cx.log@.subrange(0, old(cx).log@.len() as int) =~= old(cx).log@);
            }
        }
    }
}

} // verus!
