//! Identity allocation, node data accessors, and child traversal.

use clip_view::{
    clip, empty, AnyView, Id, IdAllocator, IdCollector, PaintCx, PaintEvent, ViewNode,
};

#[test]
fn allocator_mints_distinct_increasing_identities() {
    let mut ids = IdAllocator::new();
    let a = ids.next_identity();
    let b = ids.next_identity();
    let c = ids.next_identity();
    assert_eq!(a, Id { value: 0 });
    assert_eq!(b, Id { value: 1 });
    assert_eq!(c, Id { value: 2 });
    assert_ne!(a, b);
    assert_ne!(b, c);
}

#[test]
fn view_data_exposes_the_node_record() {
    let mut ids = IdAllocator::new();
    let leaf = empty(&mut ids);
    let mut node = clip(AnyView::Empty(leaf), &mut ids);
    assert_eq!(node.view_data().id, Id { value: 1 });
    assert!(!node.view_data().repaint_requested);

    node.view_data_mut().repaint_requested = true;
    assert!(node.view_data().repaint_requested);
    assert_eq!(node.view_data().id, Id { value: 1 });
}

#[test]
fn debug_names_label_the_variants() {
    let mut ids = IdAllocator::new();
    let leaf = empty(&mut ids);
    assert_eq!(leaf.debug_name(), "Empty");
    let node = clip(AnyView::Empty(leaf), &mut ids);
    assert_eq!(node.debug_name(), "Clip");

    let mut ids = IdAllocator::new();
    let wrapped_leaf = AnyView::Empty(empty(&mut ids));
    assert_eq!(wrapped_leaf.debug_name(), "Empty");
    let wrapped_clip = AnyView::Clip(clip(wrapped_leaf, &mut ids));
    assert_eq!(wrapped_clip.debug_name(), "Clip");
}

#[test]
fn for_each_child_visits_exactly_the_one_child() {
    let mut ids = IdAllocator::new();
    let leaf = empty(&mut ids);
    let leaf_id = leaf.data.id;
    let node = clip(AnyView::Empty(leaf), &mut ids);

    let mut collector = IdCollector::new();
    node.for_each_child(&mut collector);
    assert_eq!(collector.ids, vec![leaf_id]);
}

#[test]
fn mutable_traversals_visit_the_same_single_child() {
    let mut ids = IdAllocator::new();
    let leaf = empty(&mut ids);
    let leaf_id = leaf.data.id;
    let mut node = clip(AnyView::Empty(leaf), &mut ids);

    let mut forward = IdCollector::new();
    node.for_each_child_mut(&mut forward);
    assert_eq!(forward.ids, vec![leaf_id]);

    let mut reverse = IdCollector::new();
    node.for_each_child_rev_mut(&mut reverse);
    assert_eq!(reverse.ids, vec![leaf_id]);
}

#[test]
fn leaf_traversal_visits_nothing() {
    let mut ids = IdAllocator::new();
    let mut leaf = empty(&mut ids);

    let mut collector = IdCollector::new();
    leaf.for_each_child(&mut collector);
    leaf.for_each_child_mut(&mut collector);
    leaf.for_each_child_rev_mut(&mut collector);
    assert!(collector.ids.is_empty());
}

#[test]
fn any_view_traversal_dispatches_to_the_variant() {
    let mut ids = IdAllocator::new();
    let leaf = empty(&mut ids);
    let leaf_id = leaf.data.id;
    let node = clip(AnyView::Empty(leaf), &mut ids);
    let mut tree = AnyView::Clip(node);

    let mut collector = IdCollector::new();
    tree.for_each_child(&mut collector);
    tree.for_each_child_mut(&mut collector);
    tree.for_each_child_rev_mut(&mut collector);
    assert_eq!(collector.ids, vec![leaf_id, leaf_id, leaf_id]);
}

#[test]
fn paint_view_delegates_through_the_context() {
    let mut ids = IdAllocator::new();
    let leaf = empty(&mut ids);
    let leaf_id = leaf.data.id;
    let mut tree = AnyView::Empty(leaf);

    let mut cx = PaintCx::new();
    cx.paint_view(&mut tree);
    assert_eq!(cx.log, vec![PaintEvent::Painted(leaf_id)]);
}
