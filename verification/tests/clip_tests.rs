//! Clip-shape computation and end-to-end paint behaviour.

use clip_view::{
    clip, empty, AnyView, ClipShape, CornerRadii, Id, IdAllocator, Layout, PaintCx, PaintEvent,
    PxPct, Size, Style, ViewNode,
};

fn style_with(
    top_left: PxPct,
    top_right: PxPct,
    bottom_right: PxPct,
    bottom_left: PxPct,
) -> Style {
    Style {
        border_radius_top_left: top_left,
        border_radius_top_right: top_right,
        border_radius_bottom_right: bottom_right,
        border_radius_bottom_left: bottom_left,
    }
}

fn zero_radii() -> CornerRadii {
    CornerRadii { top_left: 0, top_right: 0, bottom_right: 0, bottom_left: 0 }
}

#[test]
fn degenerate_size_resolves_percentages_to_zero() {
    // A zero-height node: every percentage radius resolves to zero and the
    // clip falls back to the plain rectangle, whatever the percentages are.
    let style = style_with(PxPct::Pct(50), PxPct::Pct(100), PxPct::Pct(7), PxPct::Pct(250));
    let size = Size { width: 120, height: 0 };
    let shape = clip_view::style::clip_shape(&style, size);
    assert_eq!(shape, ClipShape::Rect { width: 120, height: 0 });

    let size = Size { width: 0, height: 0 };
    let shape = clip_view::style::clip_shape(&style, size);
    assert_eq!(shape, ClipShape::Rect { width: 0, height: 0 });
}

#[test]
fn non_positive_radii_clip_to_plain_rect() {
    // All four resolved radii at zero or below: the shape is exactly the
    // bounding rectangle.
    let style = style_with(PxPct::Px(0), PxPct::Px(-5), PxPct::Pct(-10), PxPct::Px(0));
    let size = Size { width: 100, height: 50 };
    let shape = clip_view::style::clip_shape(&style, size);
    assert_eq!(shape, ClipShape::Rect { width: 100, height: 50 });
}

#[test]
fn percentage_resolves_against_min_side_at_every_corner() {
    // 30% of min(100, 50) is 15 pixels, i.e. 1500 centipixels, whichever
    // corner carries the percentage.
    let size = Size { width: 100, height: 50 };
    let px0 = PxPct::Px(0);
    let corners = [
        style_with(PxPct::Pct(30), px0, px0, px0),
        style_with(px0, PxPct::Pct(30), px0, px0),
        style_with(px0, px0, PxPct::Pct(30), px0),
        style_with(px0, px0, px0, PxPct::Pct(30)),
    ];
    let radii_of = |shape: ClipShape| match shape {
        ClipShape::Rounded { radii, .. } => radii,
        ClipShape::Rect { .. } => panic!("expected a rounded shape"),
    };
    assert_eq!(
        radii_of(clip_view::style::clip_shape(&corners[0], size)),
        CornerRadii { top_left: 1500, ..zero_radii() }
    );
    assert_eq!(
        radii_of(clip_view::style::clip_shape(&corners[1], size)),
        CornerRadii { top_right: 1500, ..zero_radii() }
    );
    assert_eq!(
        radii_of(clip_view::style::clip_shape(&corners[2], size)),
        CornerRadii { bottom_right: 1500, ..zero_radii() }
    );
    assert_eq!(
        radii_of(clip_view::style::clip_shape(&corners[3], size)),
        CornerRadii { bottom_left: 1500, ..zero_radii() }
    );
}

#[test]
fn pixel_radius_is_used_as_is() {
    // An absolute 8-pixel radius resolves to 800 centipixels regardless of
    // the node's size, even when it exceeds half the shorter side.
    let style = style_with(PxPct::Px(8), PxPct::Px(0), PxPct::Px(0), PxPct::Px(0));
    let size = Size { width: 10, height: 4 };
    let shape = clip_view::style::clip_shape(&style, size);
    assert_eq!(
        shape,
        ClipShape::Rounded {
            width: 10,
            height: 4,
            radii: CornerRadii { top_left: 800, ..zero_radii() }
        }
    );
}

#[test]
fn paint_clips_to_plain_rect() {
    // Size (100, 50), all radii zero pixels: the applied clip shape is the
    // rectangle (0,0)-(100,50), and the child paints inside the bracket.
    let mut ids = IdAllocator::new();
    let leaf = empty(&mut ids);
    let leaf_id = leaf.data.id;
    let mut node = clip(AnyView::Empty(leaf), &mut ids);
    let node_id = node.data.id;

    let mut cx = PaintCx::new();
    cx.set_layout(node_id, Layout { size: Size { width: 100, height: 50 } });
    cx.set_builtin_style(node_id, Style::default_style());
    node.paint(&mut cx);

    assert_eq!(
        cx.log,
        vec![
            PaintEvent::Saved,
            PaintEvent::Clipped(ClipShape::Rect { width: 100, height: 50 }),
            PaintEvent::Painted(leaf_id),
            PaintEvent::Restored,
        ]
    );
    assert!(cx.saves.is_empty());
    assert!(cx.clips.is_empty());
}

#[test]
fn paint_resolves_percentage_radius() {
    // Size (100, 50), top-left radius 50%: the resolved radius is half the
    // minimum side, 25 pixels = 2500 centipixels; the other corners stay
    // sharp.
    let mut ids = IdAllocator::new();
    let leaf = empty(&mut ids);
    let leaf_id = leaf.data.id;
    let mut node = clip(AnyView::Empty(leaf), &mut ids);
    let node_id = node.data.id;

    let mut cx = PaintCx::new();
    cx.set_layout(node_id, Layout { size: Size { width: 100, height: 50 } });
    cx.set_builtin_style(
        node_id,
        style_with(PxPct::Pct(50), PxPct::Px(0), PxPct::Px(0), PxPct::Px(0)),
    );
    node.paint(&mut cx);

    assert_eq!(
        cx.log,
        vec![
            PaintEvent::Saved,
            PaintEvent::Clipped(ClipShape::Rounded {
                width: 100,
                height: 50,
                radii: CornerRadii { top_left: 2500, ..zero_radii() },
            }),
            PaintEvent::Painted(leaf_id),
            PaintEvent::Restored,
        ]
    );
}

#[test]
fn paint_without_layout_defaults_to_zero_size() {
    // No layout registered for the node: size defaults to (0,0), every
    // percentage radius resolves to zero, and the clip is the empty
    // rectangle at the origin.
    let mut ids = IdAllocator::new();
    let leaf = empty(&mut ids);
    let mut node = clip(AnyView::Empty(leaf), &mut ids);
    let node_id = node.data.id;

    let mut cx = PaintCx::new();
    cx.set_builtin_style(
        node_id,
        style_with(PxPct::Pct(50), PxPct::Pct(50), PxPct::Pct(50), PxPct::Pct(50)),
    );
    node.paint(&mut cx);

    assert_eq!(cx.log[1], PaintEvent::Clipped(ClipShape::Rect { width: 0, height: 0 }));
}

#[test]
fn paint_without_style_uses_sharp_corners() {
    // No style registered either: the default style has all radii zero.
    let mut ids = IdAllocator::new();
    let leaf = empty(&mut ids);
    let mut node = clip(AnyView::Empty(leaf), &mut ids);
    let node_id = node.data.id;

    let mut cx = PaintCx::new();
    cx.set_layout(node_id, Layout { size: Size { width: 7, height: 9 } });
    node.paint(&mut cx);

    assert_eq!(cx.log[1], PaintEvent::Clipped(ClipShape::Rect { width: 7, height: 9 }));
}

#[test]
fn repaint_appends_identical_trace() {
    // Painting the same node twice with unchanged layout and style appends
    // two identical traces: the clip shape is a pure function of current
    // size and style.
    let mut ids = IdAllocator::new();
    let leaf = empty(&mut ids);
    let mut node = clip(AnyView::Empty(leaf), &mut ids);
    let node_id = node.data.id;

    let mut cx = PaintCx::new();
    cx.set_layout(node_id, Layout { size: Size { width: 64, height: 64 } });
    cx.set_builtin_style(
        node_id,
        style_with(PxPct::Pct(25), PxPct::Px(3), PxPct::Px(0), PxPct::Pct(75)),
    );
    node.paint(&mut cx);
    let first = cx.log.clone();
    node.paint(&mut cx);

    assert_eq!(cx.log.len(), 2 * first.len());
    assert_eq!(&cx.log[..first.len()], &first[..]);
    assert_eq!(&cx.log[first.len()..], &first[..]);
}

#[test]
fn updated_layout_and_style_change_the_applied_clip() {
    // The clip shape follows the current tables: overwriting the node's
    // layout or style changes what the next paint applies.
    let mut ids = IdAllocator::new();
    let leaf = empty(&mut ids);
    let mut node = clip(AnyView::Empty(leaf), &mut ids);
    let node_id = node.data.id;

    let mut cx = PaintCx::new();
    cx.set_layout(node_id, Layout { size: Size { width: 100, height: 50 } });
    node.paint(&mut cx);
    assert_eq!(cx.log[1], PaintEvent::Clipped(ClipShape::Rect { width: 100, height: 50 }));

    cx.set_layout(node_id, Layout { size: Size { width: 40, height: 80 } });
    cx.set_builtin_style(
        node_id,
        style_with(PxPct::Px(0), PxPct::Px(0), PxPct::Pct(10), PxPct::Px(0)),
    );
    node.paint(&mut cx);
    assert_eq!(
        cx.log[5],
        PaintEvent::Clipped(ClipShape::Rounded {
            width: 40,
            height: 80,
            radii: CornerRadii { bottom_right: 400, ..zero_radii() },
        })
    );
}

#[test]
fn nested_clips_balance_their_brackets() {
    // A clip inside a clip: each issues exactly one save and one matching
    // restore, and the inner pair nests strictly inside the outer one.
    let mut ids = IdAllocator::new();
    let leaf = empty(&mut ids);
    let leaf_id = leaf.data.id;
    let inner = clip(AnyView::Empty(leaf), &mut ids);
    let inner_id = inner.data.id;
    let mut outer = clip(AnyView::Clip(inner), &mut ids);
    let outer_id = outer.data.id;

    let mut cx = PaintCx::new();
    cx.set_layout(outer_id, Layout { size: Size { width: 200, height: 100 } });
    cx.set_layout(inner_id, Layout { size: Size { width: 80, height: 40 } });
    outer.paint(&mut cx);

    assert_eq!(
        cx.log,
        vec![
            PaintEvent::Saved,
            PaintEvent::Clipped(ClipShape::Rect { width: 200, height: 100 }),
            PaintEvent::Saved,
            PaintEvent::Clipped(ClipShape::Rect { width: 80, height: 40 }),
            PaintEvent::Painted(leaf_id),
            PaintEvent::Restored,
            PaintEvent::Restored,
        ]
    );
    assert!(cx.saves.is_empty());
    assert!(cx.clips.is_empty());
}

#[test]
fn paint_restores_outer_drawing_state() {
    // A paint that starts under an already-saved state with an active clip
    // leaves both exactly as they were.
    let mut ids = IdAllocator::new();
    let leaf = empty(&mut ids);
    let mut node = clip(AnyView::Empty(leaf), &mut ids);
    let node_id = node.data.id;

    let mut cx = PaintCx::new();
    cx.set_layout(node_id, Layout { size: Size { width: 10, height: 10 } });
    cx.save();
    cx.clip(ClipShape::Rect { width: 500, height: 500 });
    let saves_before = cx.saves.clone();
    let clips_before = cx.clips.clone();
    node.paint(&mut cx);

    assert_eq!(cx.saves, saves_before);
    assert_eq!(cx.clips, clips_before);
}

#[test]
fn context_lookups_default_when_unknown() {
    let mut cx = PaintCx::new();
    let known = Id { value: 4 };
    let unknown = Id { value: 9 };
    cx.set_layout(known, Layout { size: Size { width: 3, height: 5 } });
    assert_eq!(cx.get_layout(known), Some(Layout { size: Size { width: 3, height: 5 } }));
    assert_eq!(cx.get_layout(unknown), None);
    assert_eq!(cx.get_builtin_style(unknown), Style::default_style());

    let rounded = style_with(PxPct::Px(1), PxPct::Px(2), PxPct::Px(3), PxPct::Px(4));
    cx.set_builtin_style(known, rounded);
    assert_eq!(cx.get_builtin_style(known), rounded);
}
