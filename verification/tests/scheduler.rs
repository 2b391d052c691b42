use shape_renderer::geometry::{Matrix, Rect};
use shape_renderer::paint::{BlendMode, Color, Fill};
use shape_renderer::render::RenderState;
use shape_renderer::shape::{Shape, ShapeTree, ROOT_NODE_ID};
use shape_renderer::surface::CanvasOp;
use std::cell::Cell;

fn plain_shape(bounds: Rect) -> Shape {
    Shape {
        bounds,
        hidden: false,
        clip: false,
        transform: Matrix::identity(),
        fills: Vec::new(),
        strokes: Vec::new(),
        shadows: Vec::new(),
        children: Vec::new(),
        recursive: false,
        blend_mode: BlendMode::Normal,
        opacity: 255,
        has_image_filter: false,
    }
}

fn unit_rect() -> Rect {
    Rect::new(0, 0, 1, 1)
}

/// root -> [A, B], A -> [C]; all visible unit rectangles with one fill.
fn nested_tree() -> ShapeTree {
    let mut tree = ShapeTree::new();
    let mut root = plain_shape(unit_rect());
    root.recursive = true;
    root.children = vec![1, 2];
    tree.insert(ROOT_NODE_ID, root);

    let mut a = plain_shape(unit_rect());
    a.recursive = true;
    a.children = vec![3];
    a.fills = vec![Fill { color: Color::new(255, 0, 0, 255) }];
    tree.insert(1, a);

    let mut b = plain_shape(unit_rect());
    b.fills = vec![Fill { color: Color::new(0, 255, 0, 255) }];
    tree.insert(2, b);

    let mut c = plain_shape(unit_rect());
    c.fills = vec![Fill { color: Color::new(0, 0, 255, 255) }];
    tree.insert(3, c);

    tree
}

fn count_final_opens(state: &RenderState) -> usize {
    state
        .final_surface
        .ops
        .iter()
        .filter(|op| matches!(op, CanvasOp::SaveLayer { .. } | CanvasOp::Save))
        .count()
}

fn count_final_closes(state: &RenderState) -> usize {
    state
        .final_surface
        .ops
        .iter()
        .filter(|op| matches!(op, CanvasOp::Restore))
        .count()
}

#[test]
fn layer_opens_match_closes_over_full_traversal() {
    let tree = nested_tree();
    let mut state = RenderState::new(100, 100);
    state.start_rendering(ROOT_NODE_ID);
    state.render_all(&tree, false, || 0u64);
    assert!(!state.is_running);
    assert_eq!(count_final_opens(&state), count_final_closes(&state));
    // Four visible nodes, each opening exactly one layer.
    assert_eq!(count_final_opens(&state), 4);
    // The running balance never goes negative: closes never outrun opens.
    let mut depth: i64 = 0;
    for op in state.final_surface.ops.iter() {
        match op {
            CanvasOp::SaveLayer { .. } | CanvasOp::Save => depth += 1,
            CanvasOp::Restore => {
                depth -= 1;
                assert!(depth >= 0);
            }
            _ => {}
        }
    }
    assert_eq!(depth, 0);
}

#[test]
fn budgeted_resumptions_match_single_pass() {
    let tree = nested_tree();

    let mut single = RenderState::new(100, 100);
    single.start_rendering(ROOT_NODE_ID);
    single.render_all(&tree, false, || 0u64);
    assert!(!single.is_running);

    let mut split = RenderState::new(100, 100);
    split.start_rendering(ROOT_NODE_ID);
    let t = Cell::new(0u64);
    let jumping_clock = || {
        t.set(t.get() + 100);
        t.get()
    };
    let mut ticks = 0;
    while split.is_running {
        split.render_all(&tree, false, jumping_clock);
        ticks += 1;
        assert!(ticks < 100, "the budgeted traversal failed to finish");
    }
    // The budget of 16 time units is exceeded after every frame, so the
    // traversal really was split into several resumptions.
    assert!(ticks > 1);

    assert_eq!(single.final_surface.ops, split.final_surface.ops);
    assert_eq!(single.drawing_surface.ops, split.drawing_surface.ops);
    assert_eq!(single.shadow_surface.ops, split.shadow_surface.ops);
    assert_eq!(single.debug_surface.ops, split.debug_surface.ops);
    assert_eq!(single.stack, split.stack);
}

#[test]
fn hidden_node_renders_nothing_and_enqueues_no_children() {
    let mut tree = ShapeTree::new();
    let mut root = plain_shape(unit_rect());
    root.recursive = true;
    root.children = vec![1];
    tree.insert(ROOT_NODE_ID, root);
    // A hidden container with a child that would otherwise be drawn.
    let mut a = plain_shape(unit_rect());
    a.hidden = true;
    a.recursive = true;
    a.children = vec![2];
    a.fills = vec![Fill { color: Color::new(255, 0, 0, 255) }];
    tree.insert(1, a);
    let mut c = plain_shape(unit_rect());
    c.fills = vec![Fill { color: Color::new(0, 0, 255, 255) }];
    tree.insert(2, c);

    let mut state = RenderState::new(100, 100);
    state.start_rendering(ROOT_NODE_ID);
    state.render_all(&tree, false, || 0u64);
    assert!(!state.is_running);

    // Zero fill, stroke or shadow draws anywhere.
    for op in state.drawing_surface.ops.iter() {
        assert!(!matches!(
            op,
            CanvasOp::DrawFill { .. } | CanvasOp::DrawStroke { .. }
        ));
    }
    assert!(!state
        .final_surface
        .ops
        .iter()
        .any(|op| matches!(op, CanvasOp::DrawShadowSurface)));
    // The culled node is marked, its subtree never visited.
    assert!(state
        .debug_surface
        .ops
        .contains(&CanvasOp::Mark { id: 1, visible: false }));
    assert!(!state
        .debug_surface
        .ops
        .iter()
        .any(|op| matches!(op, CanvasOp::Mark { id: 2, .. })));
}

#[test]
fn out_of_view_node_is_culled() {
    let mut tree = ShapeTree::new();
    let mut root = plain_shape(unit_rect());
    root.recursive = true;
    root.children = vec![1];
    tree.insert(ROOT_NODE_ID, root);
    // Far outside the 100x100 viewbox at zoom 1, pan 0.
    let mut a = plain_shape(Rect::new(1000, 1000, 1010, 1010));
    a.fills = vec![Fill { color: Color::new(255, 0, 0, 255) }];
    tree.insert(1, a);

    let mut state = RenderState::new(100, 100);
    state.start_rendering(ROOT_NODE_ID);
    state.render_all(&tree, false, || 0u64);

    assert!(state
        .debug_surface
        .ops
        .contains(&CanvasOp::Mark { id: 1, visible: false }));
    assert!(!state
        .drawing_surface
        .ops
        .iter()
        .any(|op| matches!(op, CanvasOp::DrawFill { .. })));
}

#[test]
fn full_render_then_cache_replay_scenario() {
    let mut tree = ShapeTree::new();
    let mut root = plain_shape(unit_rect());
    root.recursive = true;
    root.children = vec![1];
    tree.insert(ROOT_NODE_ID, root);
    let mut a = plain_shape(unit_rect());
    a.fills = vec![Fill { color: Color::new(10, 20, 30, 255) }];
    tree.insert(1, a);

    let mut state = RenderState::new(100, 100);
    state.start_rendering(ROOT_NODE_ID);

    // Before any completed render the cache replay must fail.
    assert_eq!(
        state.render_all_from_cache(),
        Err(shape_renderer::render::RenderError::Uninitialized)
    );

    state.render_all(&tree, true, || 0u64);
    assert!(!state.is_running);
    let cached = state.cached_surface_image.clone().expect("cache captured");
    assert!(cached.has_all_shapes);

    let ops_after_render = state.final_surface.ops.clone();
    assert_eq!(cached.image, ops_after_render);

    // Pan and zoom unchanged: the replay transform is the identity.
    assert_eq!(state.render_all_from_cache(), Ok(()));
    let mut saw_scale = false;
    let mut saw_translate = false;
    let mut saw_draw = false;
    for op in state.final_surface.ops[ops_after_render.len()..].iter() {
        match op {
            CanvasOp::Scale {
                sx_num,
                sx_den,
                sy_num,
                sy_den,
            } => {
                saw_scale = true;
                assert_eq!(sx_num, sx_den);
                assert_eq!(sy_num, sy_den);
            }
            CanvasOp::Translate { dx, dy } => {
                saw_translate = true;
                assert_eq!(*dx, 0);
                assert_eq!(*dy, 0);
            }
            CanvasOp::DrawCachedImage => saw_draw = true,
            _ => {}
        }
    }
    assert!(saw_scale && saw_translate && saw_draw);
}

#[test]
fn hidden_only_child_leaves_background_untouched() {
    let mut tree = ShapeTree::new();
    let mut root = plain_shape(unit_rect());
    root.recursive = true;
    root.children = vec![1];
    tree.insert(ROOT_NODE_ID, root);
    let mut a = plain_shape(unit_rect());
    a.hidden = true;
    a.fills = vec![Fill { color: Color::new(10, 20, 30, 255) }];
    tree.insert(1, a);

    let mut state = RenderState::new(100, 100);
    state.set_debug_flags(1);
    state.start_rendering(ROOT_NODE_ID);
    state.render_all(&tree, true, || 0u64);
    assert!(!state.is_running);

    // No geometry was drawn: the final surface holds only the root's
    // layer bookkeeping, the drawing-surface transfer and the overlay.
    for op in state.final_surface.ops.iter() {
        assert!(matches!(
            op,
            CanvasOp::SaveLayer { .. }
                | CanvasOp::Restore
                | CanvasOp::DrawDrawingSurface
                | CanvasOp::DrawDebugSurface
        ));
    }
    // And nothing was ever painted into the drawing surface.
    for op in state.drawing_surface.ops.iter() {
        assert!(!matches!(
            op,
            CanvasOp::DrawFill { .. } | CanvasOp::DrawStroke { .. }
        ));
    }
    // The debug overlay marks the hidden node as culled.
    assert!(state
        .debug_surface
        .ops
        .contains(&CanvasOp::Mark { id: 1, visible: false }));
}

#[test]
fn missing_node_is_skipped_and_traversal_continues() {
    let mut tree = ShapeTree::new();
    let mut root = plain_shape(unit_rect());
    root.recursive = true;
    root.children = vec![7, 1];
    tree.insert(ROOT_NODE_ID, root);
    let mut a = plain_shape(unit_rect());
    a.fills = vec![Fill { color: Color::new(1, 2, 3, 255) }];
    tree.insert(1, a);

    let mut state = RenderState::new(100, 100);
    state.start_rendering(ROOT_NODE_ID);
    state.render_all(&tree, false, || 0u64);
    assert!(!state.is_running);
    // Node 7 is missing from the tree, but node 1 still rendered.
    assert!(state
        .drawing_surface
        .ops
        .iter()
        .any(|op| matches!(op, CanvasOp::DrawFill { .. })));
    assert!(state
        .debug_surface
        .ops
        .contains(&CanvasOp::Mark { id: 1, visible: true }));
}
