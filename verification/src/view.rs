//! The view-node abstraction: node data, the capability interface every
//! node variant implements, visitors for generic child traversal, and the
//! specification of what one node's paint appends to the context's log.

use vstd::prelude::*;
use crate::context::{Layout, PaintCx, PaintEvent, spec_size_for, spec_style_for};
use crate::id::Id;
use crate::style::{Style, spec_clip_shape};
use crate::views::clip::Clip;
use crate::views::empty::Empty;

verus! {

/// The per-node state record every node variant embeds exactly once: its
/// identity, plus node-local bookkeeping (here, a pending-repaint flag).
#[derive(Clone, Copy, PartialEq, Eq, Structural, Debug)]
pub struct ViewData {
    pub id: Id,
    /// Node-local bookkeeping a caller may flip through `view_data_mut`.
    pub repaint_requested: bool,
}

impl ViewData {
    /// Node data for a freshly built node: nothing pending.
    pub fn new(id: Id) -> (data: ViewData)
        ensures
            data == (ViewData { id, repaint_requested: false }),
    {
        ViewData { id, repaint_requested: false }
    }
}

/// A closed set of node variants; child slots hold this type, so a parent
/// never knows its child's concrete variant.
pub enum AnyView {
    /// A leaf with no children.
    Empty(Empty),
    /// A node that clips its single child.
    Clip(Clip),
}

/// The identity of a view, whichever variant it is.
pub open spec fn view_id(view: AnyView) -> Id {
    match view {
        AnyView::Empty(leaf) => leaf.data.id,
        AnyView::Clip(node) => node.data.id,
    }
}

/// A caller-supplied visitor for read-only child traversal. Its abstract
/// state is the sequence of identities it has been shown; each visit
/// appends one and may signal (by returning true) that iteration must stop.
pub trait Visitor {
    /// The identities of the views this visitor has been shown, in order.
    spec fn seen(&self) -> Seq<Id>;

    /// Visits one child; a true result stops the iteration early.
    fn visit(&mut self, view: &AnyView) -> (stop: bool)
        ensures
            final(self).seen() == old(self).seen().push(view_id(*view)),
    ;
}

/// A caller-supplied visitor for mutating child traversal; it may rewrite
/// the child it is handed.
pub trait VisitorMut {
    /// The identities of the views this visitor has been shown, in order,
    /// as they were when shown.
    spec fn seen(&self) -> Seq<Id>;

    /// Visits one child, possibly mutating it; a true result stops the
    /// iteration early.
    fn visit_mut(&mut self, view: &mut AnyView) -> (stop: bool)
        ensures
            final(self).seen() == old(self).seen().push(view_id(*old(view))),
    ;
}

/// The identities of a sequence of views, in order.
pub open spec fn ids_of(views: Seq<AnyView>) -> Seq<Id> {
    views.map(|i: int, v: AnyView| view_id(v))
}

/// A visitor that records the identity of every child it is shown and never
/// stops early.
pub struct IdCollector {
    pub ids: Vec<Id>,
}

impl IdCollector {
    /// A collector that has seen nothing yet.
    pub fn new() -> (collector: IdCollector)
        ensures
            collector.ids@ == Seq::<Id>::empty(),
    {
        IdCollector { ids: Vec::new() }
    }
}

impl Visitor for IdCollector {
    open spec fn seen(&self) -> Seq<Id> {
        self.ids@
    }

    fn visit(&mut self, view: &AnyView) -> (stop: bool) {
        let data = view.view_data();
        self.ids.push(data.id);
        false
    }
}

impl VisitorMut for IdCollector {
    open spec fn seen(&self) -> Seq<Id> {
        self.ids@
    }

    fn visit_mut(&mut self, view: &mut AnyView) -> (stop: bool) {
        let data = view.view_data();
        self.ids.push(data.id);
        false
    }
}

/// The capability set every node variant implements: expose its node data,
/// enumerate its direct children forward and (mutably) in both directions,
/// report a debug label, and paint itself through the shared context. A
/// node's paint is the only place it touches the context, and it must leave
/// the saved-state stack and the active clip region exactly as it found
/// them, whatever its subtree does — no drawing state leaks between
/// sibling subtrees.
pub trait ViewNode: Sized {
    /// The node's own data record.
    spec fn spec_data(&self) -> ViewData;

    /// The node's direct children, in creation order.
    spec fn children(&self) -> Seq<AnyView>;

    /// Read access to the node's own data record.
    fn view_data(&self) -> (data: &ViewData)
        ensures
            *data == self.spec_data(),
    ;

    /// Write access to the node's own data record; nothing else about the
    /// node changes through it.
    fn view_data_mut(&mut self) -> (data: &mut ViewData)
        ensures
            *data == old(self).spec_data(),
            final(self).spec_data() == *final(data),
            final(self).children() == old(self).children(),
    ;

    /// A human-readable label for debugging.
    fn debug_name(&self) -> (name: &'static str);

    /// Shows each direct child to the visitor in creation order, stopping
    /// as soon as the visitor signals stop: the visitor is shown the
    /// identities of some prefix of the children.
    fn for_each_child<V: Visitor>(&self, visitor: &mut V)
        ensures
            exists|n: int|
                0 <= n <= self.children().len() && final(visitor).seen() == old(visitor).seen()
                    + #[trigger] ids_of(self.children()).take(n),
    ;

    /// Like `for_each_child`, but the visitor may mutate each child; the
    /// node's own data and its number of children are untouched.
    fn for_each_child_mut<V: VisitorMut>(&mut self, visitor: &mut V)
        ensures
            exists|n: int|
                0 <= n <= old(self).children().len() && final(visitor).seen() == old(
                    visitor,
                ).seen() + #[trigger] ids_of(old(self).children()).take(n),
            final(self).spec_data() == old(self).spec_data(),
            final(self).children().len() == old(self).children().len(),
    ;

    /// Like `for_each_child_mut`, but shows the children in reverse
    /// creation order.
    fn for_each_child_rev_mut<V: VisitorMut>(&mut self, visitor: &mut V)
        ensures
            exists|n: int|
                0 <= n <= old(self).children().len() && final(visitor).seen() == old(
                    visitor,
                ).seen() + #[trigger] ids_of(old(self).children().reverse()).take(n),
            final(self).spec_data() == old(self).spec_data(),
            final(self).children().len() == old(self).children().len(),
    ;

    /// Paints this node through the shared context. Every implementation
    /// balances its own saves and restores: the saved-state stack, the
    /// active clip region and the lookup tables come back exactly as they
    /// were, the log only grows, and the node itself is unchanged.
    fn paint(&mut self, cx: &mut PaintCx)
        requires
            old(cx).wf(),
        ensures
            final(cx).wf(),
            final(cx).saves@ == old(cx).saves@,
            final(cx).clips@ == old(cx).clips@,
            final(cx).layouts@ == old(cx).layouts@,
            final(cx).styles@ == old(cx).styles@,
            old(cx).log@.is_prefix_of(final(cx).log@),
            *final(self) == *old(self),
    ;
}

/// What painting `view` appends to the context's log: a pure function of
/// the view and of the layout and style tables alone, so repainting an
/// unchanged tree appends an identical trace.
pub open spec fn paint_trace(
    view: AnyView,
    layouts: Map<u64, Layout>,
    styles: Map<u64, Style>,
) -> Seq<PaintEvent>
    decreases view,
{
    match view {
        AnyView::Empty(leaf) => seq![PaintEvent::Painted(leaf.data.id)],
        AnyView::Clip(node) => clip_paint_trace(node, layouts, styles),
    }
}

/// What painting a clip node appends to the log: one save, the clip shape
/// computed from the node's own layout size and resolved style, the child's
/// whole trace, and the matching restore.
pub open spec fn clip_paint_trace(
    node: Clip,
    layouts: Map<u64, Layout>,
    styles: Map<u64, Style>,
) -> Seq<PaintEvent>
    decreases node,
{
    seq![
        PaintEvent::Saved,
        PaintEvent::Clipped(
            spec_clip_shape(
                spec_style_for(node.data.id, styles),
                spec_size_for(node.data.id, layouts),
            ),
        ),
    ] + paint_trace(*node.child, layouts, styles) + seq![PaintEvent::Restored]
}

/// How many times a trace pushed a drawing state.
pub open spec fn saves_in(trace: Seq<PaintEvent>) -> int
    decreases trace.len(),
{
    if trace.len() == 0 {
        0
    } else {
        (if trace[0] is Saved {
            1int
        } else {
            0int
        }) + saves_in(trace.drop_first())
    }
}

/// How many times a trace popped a drawing state.
pub open spec fn restores_in(trace: Seq<PaintEvent>) -> int
    decreases trace.len(),
{
    if trace.len() == 0 {
        0
    } else {
        (if trace[0] is Restored {
            1int
        } else {
            0int
        }) + restores_in(trace.drop_first())
    }
}

/// Counting saves and restores distributes over concatenation.
proof fn lemma_counts_distribute(left: Seq<PaintEvent>, right: Seq<PaintEvent>)
    ensures
        saves_in(left + right) == saves_in(left) + saves_in(right),
        restores_in(left + right) == restores_in(left) + restores_in(right),
    decreases left.len(),
{
    if left.len() == 0 {
        assert(left + right =~= right);
    } else {
        assert((left + right).drop_first() =~= left.drop_first() + right);
        lemma_counts_distribute(left.drop_first(), right);
    }
}

/// Save/restore balance: whatever the subtree looks like, the trace a paint
/// appends pushes the drawing state exactly as many times as it pops it,
/// and in no prefix has it popped more than it pushed — every restore
/// matches an earlier save of the same trace, so each node brackets its own
/// work and no drawing state leaks out.
pub proof fn lemma_paint_trace_balanced(
    view: AnyView,
    layouts: Map<u64, Layout>,
    styles: Map<u64, Style>,
)
    ensures
        saves_in(paint_trace(view, layouts, styles)) == restores_in(
            paint_trace(view, layouts, styles),
        ),
        forall|p: int|
            0 <= p <= paint_trace(view, layouts, styles).len() ==> restores_in(
                #[trigger] paint_trace(view, layouts, styles).take(p),
            ) <= saves_in(paint_trace(view, layouts, styles).take(p)),
    decreases view,
{
    reveal_with_fuel(saves_in, 3);
    reveal_with_fuel(restores_in, 3);
    let trace = paint_trace(view, layouts, styles);
    match view {
        AnyView::Empty(leaf) => {
            assert(saves_in(trace) == 0);
            assert(restores_in(trace) == 0);
            assert forall|p: int| 0 <= p <= trace.len() implies restores_in(
                #[trigger] trace.take(p),
            ) <= saves_in(trace.take(p)) by {
                if p == 0 {
                    assert(trace.take(p) =~= Seq::<PaintEvent>::empty());
                } else {
                    assert(trace.take(p) =~= trace);
                }
            }
        },
        AnyView::Clip(node) => {
            let head = seq![
                PaintEvent::Saved,
                PaintEvent::Clipped(
                    spec_clip_shape(
                        spec_style_for(node.data.id, styles),
                        spec_size_for(node.data.id, layouts),
                    ),
                ),
            ];
            let child = paint_trace(*node.child, layouts, styles);
            let tail = seq![PaintEvent::Restored];
            lemma_paint_trace_balanced(*node.child, layouts, styles);
            lemma_counts_distribute(head, child);
            lemma_counts_distribute(head + child, tail);
            assert(head.drop_first().drop_first() =~= Seq::<PaintEvent>::empty());
            assert(tail.drop_first() =~= Seq::<PaintEvent>::empty());
            assert(saves_in(head) == 1 && restores_in(head) == 0);
            assert(saves_in(tail) == 0 && restores_in(tail) == 1);
            assert(trace == head + child + tail);
            assert forall|p: int| 0 <= p <= trace.len() implies restores_in(
                #[trigger] trace.take(p),
            ) <= saves_in(trace.take(p)) by {
                if p == 0 {
                    assert(trace.take(p) =~= Seq::<PaintEvent>::empty());
                } else if p == 1 {
                    assert(trace.take(p) =~= seq![PaintEvent::Saved]);
                    assert(seq![PaintEvent::Saved].drop_first() =~= Seq::<PaintEvent>::empty());
                } else if p <= 2 + child.len() {
                    assert(trace.take(p) =~= head + child.take(p - 2));
                    lemma_counts_distribute(head, child.take(p - 2));
                    assert(child.take(p - 2) == paint_trace(*node.child, layouts, styles).take(
                        p - 2,
                    ));
                } else {
                    assert(trace.take(p) =~= trace);
                    assert(child.take(child.len() as int) =~= child);
                }
            }
        },
    }
}

impl ViewNode for AnyView {
    open spec fn spec_data(&self) -> ViewData {
        match self {
            AnyView::Empty(leaf) => leaf.data,
            AnyView::Clip(node) => node.data,
        }
    }

    open spec fn children(&self) -> Seq<AnyView> {
        match self {
            AnyView::Empty(leaf) => Seq::empty(),
            AnyView::Clip(node) => seq![*node.child],
        }
    }

    fn view_data(&self) -> (data: &ViewData) {
        match self {
            AnyView::Empty(leaf) => leaf.view_data(),
            AnyView::Clip(node) => node.view_data(),
        }
    }

    fn view_data_mut(&mut self) -> (data: &mut ViewData) {
        match self {
            AnyView::Empty(leaf) => leaf.view_data_mut(),
            AnyView::Clip(node) => node.view_data_mut(),
        }
    }

    /// Reports the label of whichever variant this is.
    fn debug_name(&self) -> (name: &'static str)
        ensures
            self is Empty ==> name@ == "Empty"@,
            self is Clip ==> name@ == "Clip"@,
    {
        match self {
            AnyView::Empty(leaf) => leaf.debug_name(),
            AnyView::Clip(node) => node.debug_name(),
        }
    }

    /// Shows the visitor every child of the variant, in creation order: one
    /// for a clipping node, none for a leaf.
    fn for_each_child<V: Visitor>(&self, visitor: &mut V)
        ensures
            final(visitor).seen() == old(visitor).seen() + ids_of(self.children()),
    {
        match self {
            AnyView::Empty(leaf) => {
                leaf.for_each_child(visitor);
                proof {
                    assert(ids_of(self.children()) =~= Seq::<Id>::empty());
                    assert(ids_of(self.children()).take(0) =~= Seq::<Id>::empty());
                    assert(visitor.seen() =~= old(visitor).seen() + ids_of(self.children()));
                    assert(visitor.seen() =~= old(visitor).seen() + ids_of(
                        self.children(),
                    ).take(0));
                }
            },
            AnyView::Clip(node) => {
                node.for_each_child(visitor);
                proof {
                    assert(ids_of(self.children()) =~= seq![view_id(*node.child)]);
                    assert(ids_of(self.children()).take(1) =~= seq![view_id(*node.child)]);
                    assert(visitor.seen() =~= old(visitor).seen() + ids_of(self.children()));
                    assert(visitor.seen() =~= old(visitor).seen() + ids_of(
                        self.children(),
                    ).take(1));
                }
            },
        }
    }

    /// Shows the visitor every child of the variant, in creation order.
    fn for_each_child_mut<V: VisitorMut>(&mut self, visitor: &mut V)
        ensures
            final(visitor).seen() == old(visitor).seen() + ids_of(old(self).children()),
    {
        match self {
            AnyView::Empty(leaf) => {
                leaf.for_each_child_mut(visitor);
                proof {
                    assert(ids_of(old(self).children()) =~= Seq::<Id>::empty());
                    assert(ids_of(old(self).children()).take(0) =~= Seq::<Id>::empty());
                    assert(visitor.seen() =~= old(visitor).seen() + ids_of(old(self).children()));
                    assert(visitor.seen() =~= old(visitor).seen() + ids_of(
                        old(self).children(),
                    ).take(0));
                }
            },
            AnyView::Clip(node) => {
                let ghost pre_child = *node.child;
                node.for_each_child_mut(visitor);
                proof {
                    assert(old(self).children() =~= seq![pre_child]);
                    assert(ids_of(old(self).children()) =~= seq![view_id(pre_child)]);
                    assert(ids_of(old(self).children()).take(1) =~= seq![view_id(pre_child)]);
                    assert(visitor.seen() =~= old(visitor).seen() + ids_of(old(self).children()));
                    assert(visitor.seen() =~= old(visitor).seen() + ids_of(
                        old(self).children(),
                    ).take(1));
                }
            },
        }
    }

    /// Shows the visitor every child of the variant, in reverse creation
    /// order.
    fn for_each_child_rev_mut<V: VisitorMut>(&mut self, visitor: &mut V)
        ensures
            final(visitor).seen() == old(visitor).seen() + ids_of(old(self).children().reverse()),
    {
        match self {
            AnyView::Empty(leaf) => {
                leaf.for_each_child_rev_mut(visitor);
                proof {
                    assert(ids_of(old(self).children().reverse()) =~= Seq::<Id>::empty());
                    assert(ids_of(old(self).children().reverse()).take(0) =~= Seq::<Id>::empty());
                    assert(visitor.seen() =~= old(visitor).seen() + ids_of(
                        old(self).children().reverse(),
                    ));
                    assert(visitor.seen() =~= old(visitor).seen() + ids_of(
                        old(self).children().reverse(),
                    ).take(0));
                }
            },
            AnyView::Clip(node) => {
                let ghost pre_child = *node.child;
                node.for_each_child_rev_mut(visitor);
                proof {
                    assert(old(self).children() =~= seq![pre_child]);
                    assert(ids_of(old(self).children().reverse()) =~= seq![view_id(pre_child)]);
                    assert(ids_of(old(self).children().reverse()).take(1) =~= seq![
                        view_id(pre_child),
                    ]);
                    assert(visitor.seen() =~= old(visitor).seen() + ids_of(
                        old(self).children().reverse(),
                    ));
                    assert(visitor.seen() =~= old(visitor).seen() + ids_of(
                        old(self).children().reverse(),
                    ).take(1));
                }
            },
        }
    }

    /// Dispatches to the variant's paint; appends exactly the variant's
    /// paint trace to the log.
    fn paint(&mut self, cx: &mut PaintCx)
        ensures
            final(cx).log@ == old(cx).log@ + paint_trace(*old(self), old(cx).layouts@, old(cx).styles@),
        decreases *self, 0int,
    {
        match self {
            AnyView::Empty(leaf) => leaf.paint(cx),
            AnyView::Clip(node) => node.paint(cx),
        }
    }
}

} // verus!
