use shape_renderer::geometry::{Matrix, Rect};
use shape_renderer::paint::Color;
use shape_renderer::render::{RenderError, RenderState};
use shape_renderer::shadow::{Shadow, ShadowStyle};
use shape_renderer::shape::{Group, ShapeTree, ROOT_NODE_ID};
use shape_renderer::surface::CanvasOp;
use shape_renderer::viewbox::Viewbox;

#[test]
fn resize_gives_all_four_surfaces_the_device_dimensions() {
    let mut state = RenderState::new(100, 50);
    state.set_dpr(1500); // a ratio of 1.5
    // set_dpr itself resizes at the current logical size.
    assert_eq!(state.final_surface.width, 150);
    assert_eq!(state.final_surface.height, 75);

    state.resize(33, 21);
    // floor(33 * 1.5) = 49, floor(21 * 1.5) = 31
    for s in [
        &state.final_surface,
        &state.drawing_surface,
        &state.shadow_surface,
        &state.debug_surface,
    ] {
        assert_eq!(s.width, 49);
        assert_eq!(s.height, 31);
    }
    assert_eq!(state.viewbox.width, 33);
    assert_eq!(state.viewbox.height, 21);
}

#[test]
fn unchanged_dpr_is_a_no_op() {
    let mut state = RenderState::new(100, 50);
    state.set_dpr(2000);
    state.flush();
    let ops_len = state.final_surface.ops.len();
    state.set_dpr(2000);
    // No resize happened: the command log survived.
    assert_eq!(state.final_surface.ops.len(), ops_len);
}

#[test]
fn cache_replay_applies_the_exact_pan_zoom_correction() {
    let mut tree = ShapeTree::new();
    let mut root = shape_renderer::shape::Shape {
        bounds: Rect::new(0, 0, 1, 1),
        hidden: false,
        clip: false,
        transform: Matrix::identity(),
        fills: Vec::new(),
        strokes: Vec::new(),
        shadows: Vec::new(),
        children: Vec::new(),
        recursive: false,
        blend_mode: shape_renderer::paint::BlendMode::Normal,
        opacity: 255,
        has_image_filter: false,
    };
    root.recursive = false;
    tree.insert(ROOT_NODE_ID, root);

    let mut state = RenderState::new(100, 100);
    state.set_dpr(2000); // dpr 2.0
    state.start_rendering(ROOT_NODE_ID);
    state.render_all(&tree, true, || 0u64);
    assert!(!state.is_running);

    // Camera motion only: zoom 1.0 -> 2.5, pan (0,0) -> (40,-8).
    state.viewbox.zoom_to(2500);
    state.viewbox.pan(40, -8);
    let before = state.final_surface.ops.len();
    assert_eq!(state.render_all_from_cache(), Ok(()));

    let tail = &state.final_surface.ops[before..];
    assert!(tail.contains(&CanvasOp::Scale {
        sx_num: 2500,
        sx_den: 1000,
        sy_num: 2500,
        sy_den: 1000,
    }));
    // captured zoom (1000) * pan delta * dpr (2000)
    assert!(tail.contains(&CanvasOp::Translate {
        dx: 1000i128 * 40 * 2000,
        dy: 1000i128 * -8 * 2000,
    }));
    assert!(tail.contains(&CanvasOp::DrawCachedImage));
    assert_eq!(*tail.last().unwrap(), CanvasOp::Flush);
}

#[test]
fn viewbox_area_tracks_pan_zoom_and_size() {
    let mut vb = Viewbox::new(200, 100);
    let area = vb.area();
    assert_eq!(area, Rect::new(0, 0, 200, 100));

    vb.pan(10, 20);
    vb.zoom_to(2000);
    let area = vb.area();
    // Extent halves under a zoom factor of two.
    assert_eq!(area, Rect::new(10, 20, 110, 70));

    vb.set_wh(300, 60);
    let area = vb.area();
    assert_eq!(area, Rect::new(10, 20, 160, 50));
}

#[test]
fn zoom_is_clamped_to_the_accepted_range() {
    let mut vb = Viewbox::new(10, 10);
    vb.zoom_to(0);
    assert_eq!(vb.zoom_milli, 1);
    vb.zoom_to(5_000_000);
    assert_eq!(vb.zoom_milli, 1_000_000);
}

#[test]
fn to_device_is_the_exact_scaled_offset() {
    let mut vb = Viewbox::new(100, 100);
    vb.pan(5, -3);
    vb.zoom_to(1500);
    let (dx, dy) = vb.to_device(25, 7, 2000);
    assert_eq!(dx, (25 - 5) as i128 * 1500 * 2000);
    assert_eq!(dy, (7 + 3) as i128 * 1500 * 2000);
}

#[test]
fn rect_intersection_is_strict_overlap() {
    let a = Rect::new(0, 0, 10, 10);
    assert!(a.intersects(&Rect::new(5, 5, 15, 15)));
    // Touching edges do not intersect.
    assert!(!a.intersects(&Rect::new(10, 0, 20, 10)));
    assert!(!a.intersects(&Rect::new(11, 0, 20, 10)));
}

#[test]
fn matrix_as_bytes_is_little_endian_coefficients() {
    let m = Matrix::new(1, 2, 3, 4, 5, -1);
    let bytes = m.as_bytes();
    assert_eq!(bytes.len(), 24);
    assert_eq!(&bytes[0..4], &[1, 0, 0, 0]);
    assert_eq!(&bytes[4..8], &[2, 0, 0, 0]);
    assert_eq!(&bytes[20..24], &[255, 255, 255, 255]);
}

#[test]
fn matrix_no_translation_zeroes_the_offsets() {
    let m = Matrix::new(10, 20, 30, 40, 50, 60);
    let n = m.no_translation();
    assert_eq!(n, Matrix::new(10, 20, 30, 40, 0, 0));
    assert_eq!(m.translation(), (50, 60));
    assert_eq!(m.scale(), (10, 40));
    assert_eq!(m.skew(), (30, 20));
}

#[test]
fn shadow_style_from_byte() {
    assert_eq!(ShadowStyle::from(0u8), ShadowStyle::Drop);
    assert_eq!(ShadowStyle::from(1u8), ShadowStyle::Inner);
    // Anything else falls back to the default style.
    assert_eq!(ShadowStyle::from(7u8), ShadowStyle::Drop);
    assert_eq!(ShadowStyle::default(), ShadowStyle::Drop);
}

#[test]
fn shadow_paint_scales_every_spatial_parameter() {
    let sh = Shadow::new(
        Color::new(0, 0, 0, 128),
        3,
        2,
        (4, -5),
        ShadowStyle::Drop,
        false,
    );
    assert_eq!(sh.style(), ShadowStyle::Drop);
    assert!(!sh.hidden());
    let p = sh.to_paint(true, 2_000_000); // zoom 1.0 at dpr 2.0
    assert_eq!(p.offset_x_scaled, 8_000_000);
    assert_eq!(p.offset_y_scaled, -10_000_000);
    assert_eq!(p.blur_scaled, 6_000_000);
    assert_eq!(p.spread_scaled, Some(4_000_000));
    let q = sh.to_paint(false, 2_000_000);
    assert_eq!(q.spread_scaled, None);
}

#[test]
fn asset_registration_rejects_empty_bytes() {
    let mut state = RenderState::new(10, 10);
    assert_eq!(
        state.add_image(42, &[]),
        Err(RenderError::AssetDecodeFailure)
    );
    assert!(!state.has_image(42));
    assert_eq!(state.add_image(42, &[1, 2, 3]), Ok(()));
    assert!(state.has_image(42));

    assert_eq!(
        state.add_font("mono".to_string(), &[]),
        Err(RenderError::AssetDecodeFailure)
    );
    assert_eq!(state.add_font("mono".to_string(), &[0, 1]), Ok(()));
}

#[test]
fn background_color_change_without_cache_clears_and_recaptures() {
    let mut state = RenderState::new(10, 10);
    let red = Color::new(255, 0, 0, 255);
    state.set_background_color(red);
    assert_eq!(state.background_color, red);
    assert!(state
        .final_surface
        .ops
        .contains(&CanvasOp::Clear { color: red }));
    assert!(!state
        .final_surface
        .ops
        .iter()
        .any(|op| matches!(op, CanvasOp::DrawCachedImage)));
    // An explicit background change replaces the cache wholesale; with
    // no completed render behind it, the snapshot covers no shapes.
    let cached = state.cached_surface_image.clone().expect("cache captured");
    assert!(!cached.has_all_shapes);
    assert_eq!(cached.image, state.final_surface.ops);
}

#[test]
fn background_color_change_with_cache_replays_and_recaptures() {
    let mut tree = ShapeTree::new();
    let root = shape_renderer::shape::Shape {
        bounds: Rect::new(0, 0, 1, 1),
        hidden: false,
        clip: false,
        transform: Matrix::identity(),
        fills: Vec::new(),
        strokes: Vec::new(),
        shadows: Vec::new(),
        children: Vec::new(),
        recursive: false,
        blend_mode: shape_renderer::paint::BlendMode::Normal,
        opacity: 255,
        has_image_filter: false,
    };
    tree.insert(ROOT_NODE_ID, root);

    let mut state = RenderState::new(20, 20);
    state.start_rendering(ROOT_NODE_ID);
    state.render_all(&tree, true, || 0u64);
    assert!(state.cached_surface_image.as_ref().unwrap().has_all_shapes);

    let blue = Color::new(0, 0, 255, 255);
    state.set_background_color(blue);
    assert!(state
        .final_surface
        .ops
        .iter()
        .any(|op| matches!(op, CanvasOp::DrawCachedImage)));
    // The cache was replaced wholesale: fresh snapshot, same coverage.
    let cached = state.cached_surface_image.clone().expect("cache recaptured");
    assert!(cached.has_all_shapes);
    assert_eq!(cached.image, state.final_surface.ops);
}

#[test]
fn uninitialized_replay_leaves_surfaces_untouched() {
    let mut state = RenderState::new(10, 10);
    state.flush();
    let final_ops = state.final_surface.ops.clone();
    let drawing_ops = state.drawing_surface.ops.clone();
    assert_eq!(state.render_all_from_cache(), Err(RenderError::Uninitialized));
    assert_eq!(state.final_surface.ops, final_ops);
    assert_eq!(state.drawing_surface.ops, drawing_ops);
    assert!(state.shadow_surface.ops.is_empty());
    assert!(state.debug_surface.ops.is_empty());
}

#[test]
fn renderer_starts_with_the_default_font_family() {
    let state = RenderState::new(10, 10);
    assert_eq!(state.font_families, vec!["robotomono-regular".to_string()]);
}

#[test]
fn groups_remember_their_mask_flag() {
    let g = Group::new(true);
    let h = Group::new(true);
    assert_eq!(g, h);
    assert_ne!(Group::new(false), g);
}
