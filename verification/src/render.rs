use vstd::prelude::*;

use std::collections::HashMap;

use crate::geometry::Rect;
use crate::paint::{Color, Fill, Stroke};
use crate::shadow::{Shadow, ShadowStyle};
use crate::shape::{Shape, ShapeTree, ROOT_NODE_ID};
use crate::surface::{CanvasOp, Surface};
use crate::viewbox::Viewbox;

verus! {

broadcast use vstd::std_specs::hash::group_hash_axioms, vstd::string::group_string_axioms;

/// The time budget of one scheduler tick, in clock units.
pub const RENDER_BUDGET: u64 = 16;

/// The hard ceiling on frames processed in one tick; it keeps a clock
/// that never advances from turning a malformed, cyclic graph into an
/// unbounded pass.
pub const FRAME_CEILING: u64 = 0xffffffffffffffff;

/// The flag bit under which the debug overlay is composited onto the
/// final surface.
pub const DEBUG_VISIBLE: u32 = 1;

/// Default device-pixel ratio, in milli-units (a factor of one).
pub const DEFAULT_DPR_MILLI: u32 = 1000;

/// What the renderer reports to its caller.
#[derive(Debug, Clone, Copy, PartialEq, Eq, Structural)]
pub enum RenderError {
    /// A cache replay was requested before any completed render.
    Uninitialized,
    /// An asset's bytes were malformed and could not be registered.
    AssetDecodeFailure,
}

/// Renderer options: an optional device-pixel ratio (defaulting lazily)
/// and diagnostic flags.
#[derive(Debug, Clone, Copy, PartialEq, Eq, Structural)]
pub struct RenderOptions {
    pub dpr_milli: Option<u32>,
    pub debug_flags: u32,
}

impl RenderOptions {
    /// The device-pixel ratio in force: the configured one, or the
    /// default when none was set.
    pub open spec fn spec_dpr(self) -> u32 {
        match self.dpr_milli {
            Some(d) => d,
            None => DEFAULT_DPR_MILLI,
        }
    }

    pub fn dpr(&self) -> (d: u32)
        ensures
            d == self.spec_dpr(),
    {
        match self.dpr_milli {
            Some(d) => d,
            None => DEFAULT_DPR_MILLI,
        }
    }

    pub open spec fn spec_is_debug_visible(self) -> bool {
        self.debug_flags & DEBUG_VISIBLE != 0
    }

    pub fn is_debug_visible(&self) -> (r: bool)
        ensures
            r == self.spec_is_debug_visible(),
    {
        self.debug_flags & DEBUG_VISIBLE != 0
    }
}

impl Default for RenderOptions {
    fn default() -> (r: RenderOptions)
        ensures
            r == (RenderOptions { dpr_milli: None, debug_flags: 0 }),
    {
        RenderOptions { dpr_milli: None, debug_flags: 0 }
    }
}

/// Raster assets registered with the renderer, keyed by identifier. Only
/// membership is observable to the renderer; decoding lives in the asset
/// backend.
#[derive(Debug)]
pub struct ImageStore {
    images: HashMap<u128, Vec<u8>>,
}

impl View for ImageStore {
    type V = Set<u128>;

    closed spec fn view(&self) -> Set<u128> {
        self.images@.dom()
    }
}

impl ImageStore {
    pub fn new() -> (s: ImageStore)
        ensures
            s@ =~= Set::<u128>::empty(),
    {
        ImageStore { images: HashMap::new() }
    }

    /// Registers image bytes under an identifier. Empty data is the one
    /// malformation visible to the renderer and is rejected rather than
    /// aborting the render.
    pub fn add(&mut self, id: u128, data: &[u8]) -> (r: Result<(), RenderError>)
        ensures
            r is Ok <==> data@.len() > 0,
            r is Ok ==> final(self)@ == old(self)@.insert(id),
            r is Err ==> final(self)@ == old(self)@ && r == Err::<(), RenderError>(
                RenderError::AssetDecodeFailure,
            ),
    {
        if data.len() == 0 {
            Err(RenderError::AssetDecodeFailure)
        } else {
            let mut bytes: Vec<u8> = Vec::new();
            let mut i: usize = 0;
            while i < data.len()
                invariant
                    i <= data@.len(),
                decreases data@.len() - i,
            {
                bytes.push(data[i]);
                i = i + 1;
            }
            self.images.insert(id, bytes);
            assert(self@ =~= old(self)@.insert(id));
            Ok(())
        }
    }

    pub fn contains(&self, id: u128) -> (r: bool)
        ensures
            r == self@.contains(id),
    {
        self.images.contains_key(&id)
    }
}

/// A completed render's snapshot: the final surface's commands, the
/// camera they were rendered at, and whether the traversal had seen every
/// shape. Replaced wholesale; never mutated in place.
#[derive(Debug, Clone)]
pub struct CachedSurfaceImage {
    pub image: Vec<CanvasOp>,
    pub viewbox: Viewbox,
    pub has_all_shapes: bool,
}

/// One traversal stack entry: a node and whether its children have
/// already been enqueued (in which case the frame only closes the node's
/// layer).
#[derive(Debug, Clone, Copy, PartialEq, Eq, Structural)]
pub struct Frame {
    pub id: u128,
    pub visited: bool,
}

/// The scheduler's state as the proofs see it: the traversal stack and
/// the command logs of the four surfaces.
#[verifier::ext_equal]
pub ghost struct SchedState {
    pub stack: Seq<Frame>,
    pub final_ops: Seq<CanvasOp>,
    pub drawing_ops: Seq<CanvasOp>,
    pub shadow_ops: Seq<CanvasOp>,
    pub debug_ops: Seq<CanvasOp>,
}

/// The font family every renderer registers at construction, so text
/// always has a face to fall back on.
pub open spec fn spec_default_font_family() -> Seq<char> {
    "robotomono-regular"@
}

/// A node is culled when its bounds miss the camera's area or it is
/// hidden.
pub open spec fn spec_culled(shape: Shape, area: Rect) -> bool {
    !shape.bounds.spec_intersects(area) || shape.hidden
}

/// The fill draws of indices `i..` of `fills`, in reverse declared order
/// (the last fill is drawn first).
pub open spec fn fill_ops_from(fills: Seq<Fill>, i: int) -> Seq<CanvasOp>
    decreases fills.len() - i,
{
    if i < 0 || i >= fills.len() {
        Seq::empty()
    } else {
        fill_ops_from(fills, i + 1).push(CanvasOp::DrawFill { fill: fills[i] })
    }
}

/// The stroke draws of indices `i..` of `strokes`, in reverse declared
/// order.
pub open spec fn stroke_ops_from(strokes: Seq<Stroke>, i: int) -> Seq<CanvasOp>
    decreases strokes.len() - i,
{
    if i < 0 || i >= strokes.len() {
        Seq::empty()
    } else {
        stroke_ops_from(strokes, i + 1).push(CanvasOp::DrawStroke { stroke: strokes[i] })
    }
}

/// A shadow takes part in drop-shadow compositing when it is a drop
/// shadow and not hidden.
pub open spec fn spec_renders_as_drop_shadow(s: Shadow) -> bool {
    !s.hidden && s.style == ShadowStyle::Drop
}

/// The commands drop-shadow compositing of indices `i..` issues against
/// the shadow surface, in reverse declared order: each rendered shadow
/// draws the drawing surface through its filter and then clears the
/// shadow surface for the next one.
pub open spec fn shadow_surface_ops_from(shadows: Seq<Shadow>, i: int, scale_micro: u64) -> Seq<
    CanvasOp,
>
    decreases shadows.len() - i,
{
    if i < 0 || i >= shadows.len() {
        Seq::empty()
    } else {
        shadow_surface_ops_from(shadows, i + 1, scale_micro) + (
        if spec_renders_as_drop_shadow(shadows[i]) {
            seq![
                CanvasOp::DrawDrawingWithShadow { paint: shadows[i].spec_to_paint(true, scale_micro) },
                CanvasOp::Clear { color: Color::spec_transparent() },
            ]
        } else {
            Seq::empty()
        })
    }
}

/// The commands drop-shadow compositing of indices `i..` issues against
/// the final surface: one shadow-surface composite per rendered shadow.
pub open spec fn shadow_final_ops_from(shadows: Seq<Shadow>, i: int) -> Seq<CanvasOp>
    decreases shadows.len() - i,
{
    if i < 0 || i >= shadows.len() {
        Seq::empty()
    } else {
        shadow_final_ops_from(shadows, i + 1) + (if spec_renders_as_drop_shadow(shadows[i]) {
            seq![CanvasOp::DrawShadowSurface]
        } else {
            Seq::empty()
        })
    }
}

/// The frames the children of a container are enqueued as: reverse
/// declared order, so the first child ends on top of the stack and is
/// processed first.
pub open spec fn child_frames_from(children: Seq<u128>, i: int) -> Seq<Frame>
    decreases children.len() - i,
{
    if i < 0 || i >= children.len() {
        Seq::empty()
    } else {
        child_frames_from(children, i + 1).push(Frame { id: children[i], visited: false })
    }
}

/// What rendering one shape's own geometry appends to the drawing
/// surface: its transform about its bounds' centre, fills then strokes in
/// reverse declared order, the optional clip, then the flush and clear of
/// the drawing-to-final transfer.
pub open spec fn shape_drawing_ops(shape: Shape, clip: bool) -> Seq<CanvasOp> {
    seq![CanvasOp::ConcatAboutCenter { transform: shape.transform, bounds: shape.bounds }]
        + fill_ops_from(shape.fills@, 0) + stroke_ops_from(shape.strokes@, 0) + (if clip {
        seq![CanvasOp::ClipRect { rect: shape.bounds }]
    } else {
        Seq::empty()
    }) + seq![CanvasOp::Flush, CanvasOp::Clear { color: Color::spec_transparent() }]
}

/// What rendering one shape appends to the shadow surface: the per-shadow
/// compositing, then the clear of the drawing-to-final transfer.
pub open spec fn shape_shadow_ops(shape: Shape, scale_micro: u64) -> Seq<CanvasOp> {
    shadow_surface_ops_from(shape.shadows@, 0, scale_micro)
        + seq![CanvasOp::Clear { color: Color::spec_transparent() }]
}

/// What rendering one shape appends to the final surface after its layer
/// was opened: the shadow composites, then the drawing surface itself.
pub open spec fn shape_final_ops(shape: Shape) -> Seq<CanvasOp> {
    shadow_final_ops_from(shape.shadows@, 0) + seq![CanvasOp::DrawDrawingSurface]
}

/// One scheduler step: pop a frame and process it. A missing node drops
/// the frame; a visited frame closes its layer; a culled node is only
/// annotated; a visible node opens a layer, renders its geometry and
/// shadows, re-enqueues itself as visited and enqueues its children. A
/// step on an empty stack changes nothing.
pub open spec fn step_spec(s: SchedState, tree: Map<u128, Shape>, area: Rect, scale_micro: u64) -> SchedState {
    if s.stack.len() == 0 {
        s
    } else {
        let fr = s.stack.last();
        let rest = s.stack.drop_last();
        if !tree.contains_key(fr.id) {
            SchedState { stack: rest, ..s }
        } else {
            let shape = tree[fr.id];
            if fr.visited {
                SchedState { stack: rest, final_ops: s.final_ops.push(CanvasOp::Restore), ..s }
            } else if fr.id != ROOT_NODE_ID && spec_culled(shape, area) {
                SchedState {
                    stack: rest,
                    debug_ops: s.debug_ops.push(CanvasOp::Mark { id: fr.id, visible: false }),
                    ..s
                }
            } else {
                let with_children = rest.push(Frame { id: fr.id, visited: true }) + (
                if shape.recursive {
                    child_frames_from(shape.children@, 0)
                } else {
                    Seq::empty()
                });
                let debug_ops = if fr.id != ROOT_NODE_ID {
                    s.debug_ops.push(CanvasOp::Mark { id: fr.id, visible: true })
                } else {
                    s.debug_ops
                };
                let layer = CanvasOp::SaveLayer { paint: shape.spec_layer_paint(scale_micro) };
                if fr.id == ROOT_NODE_ID {
                    SchedState {
                        stack: with_children,
                        final_ops: s.final_ops.push(layer).push(CanvasOp::DrawDrawingSurface),
                        drawing_ops: s.drawing_ops.push(CanvasOp::Save).push(CanvasOp::Flush).push(
                            CanvasOp::Clear { color: Color::spec_transparent() },
                        ).push(CanvasOp::Restore),
                        shadow_ops: s.shadow_ops.push(
                            CanvasOp::Clear { color: Color::spec_transparent() },
                        ),
                        debug_ops,
                    }
                } else {
                    SchedState {
                        stack: with_children,
                        final_ops: s.final_ops.push(layer) + shape_final_ops(shape),
                        drawing_ops: s.drawing_ops.push(CanvasOp::Save) + shape_drawing_ops(
                            shape,
                            shape.clip,
                        ) + seq![CanvasOp::Restore],
                        shadow_ops: s.shadow_ops + shape_shadow_ops(shape, scale_micro),
                        debug_ops,
                    }
                }
            }
        }
    }
}

/// `n` scheduler steps from `s`.
pub open spec fn run_spec(
    s: SchedState,
    tree: Map<u128, Shape>,
    area: Rect,
    scale_micro: u64,
    n: nat,
) -> SchedState
    decreases n,
{
    if n == 0 {
        s
    } else {
        step_spec(run_spec(s, tree, area, scale_micro, (n - 1) as nat), tree, area, scale_micro)
    }
}

/// Clearing a surface to a colour and resetting its transform stack.
pub open spec fn reset_ops(ops: Seq<CanvasOp>, color: Color) -> Seq<CanvasOp> {
    ops.push(CanvasOp::Clear { color }).push(CanvasOp::ResetMatrix)
}

/// The exact replay transform of the pan-zoom cache path: scale by the
/// ratio of the current zoom to the captured zoom, then translate by the
/// captured zoom times the pan delta times the device-pixel ratio.
pub open spec fn replay_ops(cur: Viewbox, cached: Viewbox, dpr_milli: u32) -> Seq<CanvasOp> {
    seq![
        CanvasOp::Save,
        CanvasOp::Scale {
            sx_num: cur.zoom_milli as i64,
            sx_den: cached.zoom_milli as i64,
            sy_num: cur.zoom_milli as i64,
            sy_den: cached.zoom_milli as i64,
        },
        CanvasOp::Translate {
            dx: (cached.zoom_milli * (cur.pan_x - cached.pan_x) * dpr_milli) as i128,
            dy: (cached.zoom_milli * (cur.pan_y - cached.pan_y) * dpr_milli) as i128,
        },
        CanvasOp::DrawCachedImage,
        CanvasOp::Restore,
    ]
}

/// The device dimension a logical dimension maps to: the logical value
/// times the device-pixel ratio, floored.
pub open spec fn spec_device_dim(logical: u32, dpr_milli: u32) -> u64 {
    ((logical * dpr_milli) as int / 1000) as u64
}

/// The renderer: options, the four surfaces, the camera, the asset
/// stores, the cache of the last completed render, and the resumable
/// traversal stack.
#[derive(Debug)]
pub struct RenderState {
    pub options: RenderOptions,
    pub final_surface: Surface,
    pub drawing_surface: Surface,
    pub shadow_surface: Surface,
    pub debug_surface: Surface,
    pub font_families: Vec<String>,
    pub cached_surface_image: Option<CachedSurfaceImage>,
    pub viewbox: Viewbox,
    pub images: ImageStore,
    pub background_color: Color,
    pub render_time: u64,
    pub is_running: bool,
    pub stack: Vec<Frame>,
}

impl RenderState {
    /// The scheduler-visible part of the state.
    pub open spec fn sched_view(self) -> SchedState {
        SchedState {
            stack: self.stack@,
            final_ops: self.final_surface.ops@,
            drawing_ops: self.drawing_surface.ops@,
            shadow_ops: self.shadow_surface.ops@,
            debug_ops: self.debug_surface.ops@,
        }
    }

    /// The effective scale geometry is rasterized at: zoom times
    /// device-pixel ratio, in micro-units.
    pub open spec fn spec_effective_scale(self) -> u64 {
        (self.viewbox.zoom_milli * self.options.spec_dpr()) as u64
    }

    pub fn effective_scale(&self) -> (s: u64)
        ensures
            s == self.spec_effective_scale(),
    {
        proof {
            lemma_u32_product_fits(self.viewbox.zoom_milli as int, self.options.spec_dpr() as int);
        }
        self.viewbox.zoom_milli as u64 * self.options.dpr() as u64
    }

    /// The four surfaces have pairwise equal device dimensions.
    pub open spec fn same_surface_dims(self, other: RenderState) -> bool {
        &&& self.final_surface.width == other.final_surface.width
        &&& self.final_surface.height == other.final_surface.height
        &&& self.drawing_surface.width == other.drawing_surface.width
        &&& self.drawing_surface.height == other.drawing_surface.height
        &&& self.shadow_surface.width == other.shadow_surface.width
        &&& self.shadow_surface.height == other.shadow_surface.height
        &&& self.debug_surface.width == other.debug_surface.width
        &&& self.debug_surface.height == other.debug_surface.height
    }

    pub fn new(width: u32, height: u32) -> (r: RenderState)
        ensures
            r.options == (RenderOptions { dpr_milli: None, debug_flags: 0 }),
            r.final_surface.width == width as u64 && r.final_surface.height == height as u64,
            r.drawing_surface.width == width as u64 && r.drawing_surface.height == height as u64,
            r.shadow_surface.width == width as u64 && r.shadow_surface.height == height as u64,
            r.debug_surface.width == width as u64 && r.debug_surface.height == height as u64,
            r.sched_view() == (SchedState {
                stack: Seq::<Frame>::empty(),
                final_ops: Seq::<CanvasOp>::empty(),
                drawing_ops: Seq::<CanvasOp>::empty(),
                shadow_ops: Seq::<CanvasOp>::empty(),
                debug_ops: Seq::<CanvasOp>::empty(),
            }),
            r.font_families@.len() == 1,
            r.font_families@[0]@ == spec_default_font_family(),
            r.cached_surface_image is None,
            r.viewbox == (Viewbox { width, height, pan_x: 0, pan_y: 0, zoom_milli: 1000 }),
            r.viewbox.wf(),
            r.images@ == Set::<u128>::empty(),
            r.background_color == Color::spec_transparent(),
            !r.is_running,
    {
        let mut font_families: Vec<String> = Vec::new();
        font_families.push("robotomono-regular".to_string());
        let r = RenderState {
            options: RenderOptions::default(),
            final_surface: Surface::new(width as u64, height as u64),
            drawing_surface: Surface::new(width as u64, height as u64),
            shadow_surface: Surface::new(width as u64, height as u64),
            debug_surface: Surface::new(width as u64, height as u64),
            font_families,
            cached_surface_image: None,
            viewbox: Viewbox::new(width, height),
            images: ImageStore::new(),
            background_color: Color::transparent(),
            render_time: 0,
            is_running: false,
            stack: Vec::new(),
        };
        assert(r.sched_view() =~= (SchedState {
            stack: Seq::<Frame>::empty(),
            final_ops: Seq::<CanvasOp>::empty(),
            drawing_ops: Seq::<CanvasOp>::empty(),
            shadow_ops: Seq::<CanvasOp>::empty(),
            debug_ops: Seq::<CanvasOp>::empty(),
        }));
        assert(r.images@ =~= Set::<u128>::empty());
        r
    }

    /// Registers a font family. Empty bytes are the one malformation
    /// visible to the renderer; they are rejected rather than aborting.
    pub fn add_font(&mut self, family_name: String, font_data: &[u8]) -> (r: Result<
        (),
        RenderError,
    >)
        ensures
            r is Ok <==> font_data@.len() > 0,
            r is Ok ==> *final(self) == (RenderState {
                font_families: final(self).font_families,
                ..*old(self)
            }) && final(self).font_families@ == old(self).font_families@.push(family_name),
            r is Err ==> *final(self) == *old(self) && r == Err::<(), RenderError>(
                RenderError::AssetDecodeFailure,
            ),
    {
        if font_data.len() == 0 {
            Err(RenderError::AssetDecodeFailure)
        } else {
            self.font_families.push(family_name);
            Ok(())
        }
    }

    pub fn add_image(&mut self, id: u128, image_data: &[u8]) -> (r: Result<(), RenderError>)
        ensures
            r is Ok <==> image_data@.len() > 0,
            r is Ok ==> *final(self) == (RenderState { images: final(self).images, ..*old(self) })
                && final(self).images@ == old(self).images@.insert(id),
            r is Err ==> final(self).images@ == old(self).images@ && *final(self) == (RenderState {
                images: final(self).images,
                ..*old(self)
            }) && r == Err::<(), RenderError>(RenderError::AssetDecodeFailure),
    {
        self.images.add(id, image_data)
    }

    pub fn has_image(&mut self, id: u128) -> (r: bool)
        ensures
            r == old(self).images@.contains(id),
            *final(self) == *old(self),
    {
        self.images.contains(id)
    }

    pub fn set_debug_flags(&mut self, debug: u32)
        ensures
            *final(self) == (RenderState {
                options: RenderOptions { debug_flags: debug, ..old(self).options },
                ..*old(self)
            }),
    {
        self.options.debug_flags = debug;
    }

    /// Recreates all four surfaces at the device dimensions derived from
    /// the current logical size and device-pixel ratio, and updates the
    /// camera's logical size. The traversal stack, the cache and every
    /// option survive a resize.
    pub fn resize(&mut self, width: u32, height: u32)
        ensures
            *final(self) == (RenderState {
                final_surface: final(self).final_surface,
                drawing_surface: final(self).drawing_surface,
                shadow_surface: final(self).shadow_surface,
                debug_surface: final(self).debug_surface,
                viewbox: Viewbox { width, height, ..old(self).viewbox },
                ..*old(self)
            }),
            final(self).final_surface.width == spec_device_dim(width, old(self).options.spec_dpr()),
            final(self).final_surface.height == spec_device_dim(
                height,
                old(self).options.spec_dpr(),
            ),
            final(self).drawing_surface.width == final(self).final_surface.width,
            final(self).drawing_surface.height == final(self).final_surface.height,
            final(self).shadow_surface.width == final(self).final_surface.width,
            final(self).shadow_surface.height == final(self).final_surface.height,
            final(self).debug_surface.width == final(self).final_surface.width,
            final(self).debug_surface.height == final(self).final_surface.height,
            final(self).final_surface.ops@ == Seq::<CanvasOp>::empty(),
            final(self).drawing_surface.ops@ == Seq::<CanvasOp>::empty(),
            final(self).shadow_surface.ops@ == Seq::<CanvasOp>::empty(),
            final(self).debug_surface.ops@ == Seq::<CanvasOp>::empty(),
    {
        let dpr = self.options.dpr();
        proof {
            lemma_u32_product_fits(width as int, dpr as int);
            lemma_u32_product_fits(height as int, dpr as int);
        }
        let dpr_width: u64 = (width as u64 * dpr as u64) / 1000;
        let dpr_height: u64 = (height as u64 * dpr as u64) / 1000;
        self.final_surface = Surface::new(dpr_width, dpr_height);
        self.shadow_surface = Surface::new(dpr_width, dpr_height);
        self.drawing_surface = Surface::new(dpr_width, dpr_height);
        self.debug_surface = Surface::new(dpr_width, dpr_height);
        self.viewbox.set_wh(width, height);
    }

    /// Sets the device-pixel ratio. A changed value forces a full
    /// surface resize at the current logical size; an unchanged one is a
    /// no-op.
    pub fn set_dpr(&mut self, dpr_milli: u32)
        ensures
            old(self).options.dpr_milli == Some(dpr_milli) ==> *final(self) == *old(self),
            old(self).options.dpr_milli != Some(dpr_milli) ==> {
                &&& final(self).options == (RenderOptions {
                    dpr_milli: Some(dpr_milli),
                    ..old(self).options
                })
                &&& final(self).final_surface.width == spec_device_dim(
                    old(self).viewbox.width,
                    dpr_milli,
                )
                &&& final(self).final_surface.height == spec_device_dim(
                    old(self).viewbox.height,
                    dpr_milli,
                )
                &&& final(self).drawing_surface.width == final(self).final_surface.width
                &&& final(self).drawing_surface.height == final(self).final_surface.height
                &&& final(self).shadow_surface.width == final(self).final_surface.width
                &&& final(self).shadow_surface.height == final(self).final_surface.height
                &&& final(self).debug_surface.width == final(self).final_surface.width
                &&& final(self).debug_surface.height == final(self).final_surface.height
                &&& final(self).viewbox == old(self).viewbox
                &&& final(self).final_surface.ops@ == Seq::<CanvasOp>::empty()
                &&& final(self).drawing_surface.ops@ == Seq::<CanvasOp>::empty()
                &&& final(self).shadow_surface.ops@ == Seq::<CanvasOp>::empty()
                &&& final(self).debug_surface.ops@ == Seq::<CanvasOp>::empty()
                &&& final(self).stack@ == old(self).stack@
                &&& final(self).cached_surface_image == old(self).cached_surface_image
                &&& final(self).background_color == old(self).background_color
                &&& final(self).is_running == old(self).is_running
            },
    {
        let changed = match self.options.dpr_milli {
            Some(d) => d != dpr_milli,
            None => true,
        };
        if changed {
            self.options.dpr_milli = Some(dpr_milli);
            let w = self.viewbox.width;
            let h = self.viewbox.height;
            self.resize(w, h);
        }
    }

    /// Appends the submit command for the final surface's backing target.
    pub fn flush(&mut self)
        ensures
            *final(self) == (RenderState { final_surface: final(self).final_surface, ..*old(self) }),
            final(self).final_surface == (Surface {
                ops: final(self).final_surface.ops,
                ..old(self).final_surface
            }),
            final(self).final_surface.ops@ == old(self).final_surface.ops@.push(CanvasOp::Flush),
    {
        self.final_surface.ops.push(CanvasOp::Flush);
    }

    /// Translates the drawing surface's canvas by micro-unit offsets.
    pub fn translate(&mut self, dx: i64, dy: i64)
        ensures
            *final(self) == (RenderState {
                drawing_surface: final(self).drawing_surface,
                ..*old(self)
            }),
            final(self).drawing_surface == (Surface {
                ops: final(self).drawing_surface.ops,
                ..old(self).drawing_surface
            }),
            final(self).drawing_surface.ops@ == old(self).drawing_surface.ops@.push(
                CanvasOp::Translate { dx: dx as i128, dy: dy as i128 },
            ),
    {
        self.drawing_surface.ops.push(CanvasOp::Translate { dx: dx as i128, dy: dy as i128 });
    }

    /// Scales the drawing surface's canvas by milli-unit factors.
    pub fn scale(&mut self, sx_milli: i64, sy_milli: i64)
        ensures
            *final(self) == (RenderState {
                drawing_surface: final(self).drawing_surface,
                ..*old(self)
            }),
            final(self).drawing_surface == (Surface {
                ops: final(self).drawing_surface.ops,
                ..old(self).drawing_surface
            }),
            final(self).drawing_surface.ops@ == old(self).drawing_surface.ops@.push(
                CanvasOp::Scale { sx_num: sx_milli, sx_den: 1000, sy_num: sy_milli, sy_den: 1000 },
            ),
    {
        self.drawing_surface.ops.push(
            CanvasOp::Scale { sx_num: sx_milli, sx_den: 1000, sy_num: sy_milli, sy_den: 1000 },
        );
    }

    /// Clears every surface to the background colour (the debug surface
    /// to transparent) and resets their transform stacks.
    pub fn reset_canvas(&mut self)
        ensures
            *final(self) == (RenderState {
                final_surface: final(self).final_surface,
                drawing_surface: final(self).drawing_surface,
                shadow_surface: final(self).shadow_surface,
                debug_surface: final(self).debug_surface,
                ..*old(self)
            }),
            final(self).same_surface_dims(*old(self)),
            final(self).drawing_surface.ops@ == reset_ops(
                old(self).drawing_surface.ops@,
                old(self).background_color,
            ),
            final(self).shadow_surface.ops@ == reset_ops(
                old(self).shadow_surface.ops@,
                old(self).background_color,
            ),
            final(self).final_surface.ops@ == reset_ops(
                old(self).final_surface.ops@,
                old(self).background_color,
            ),
            final(self).debug_surface.ops@ == reset_ops(
                old(self).debug_surface.ops@,
                Color::spec_transparent(),
            ),
    {
        let bg = self.background_color;
        self.drawing_surface.ops.push(CanvasOp::Clear { color: bg });
        self.drawing_surface.ops.push(CanvasOp::ResetMatrix);
        self.shadow_surface.ops.push(CanvasOp::Clear { color: bg });
        self.shadow_surface.ops.push(CanvasOp::ResetMatrix);
        self.final_surface.ops.push(CanvasOp::Clear { color: bg });
        self.final_surface.ops.push(CanvasOp::ResetMatrix);
        self.debug_surface.ops.push(CanvasOp::Clear { color: Color::transparent() });
        self.debug_surface.ops.push(CanvasOp::ResetMatrix);
    }

    /// The unit of work that finishes one node: flush the drawing
    /// surface, composite it onto the final surface at the origin, and
    /// clear the shadow and drawing surfaces for the next node.
    pub fn apply_drawing_to_final_canvas(&mut self)
        ensures
            *final(self) == (RenderState {
                final_surface: final(self).final_surface,
                drawing_surface: final(self).drawing_surface,
                shadow_surface: final(self).shadow_surface,
                ..*old(self)
            }),
            final(self).same_surface_dims(*old(self)),
            final(self).final_surface.ops@ == old(self).final_surface.ops@.push(
                CanvasOp::DrawDrawingSurface,
            ),
            final(self).drawing_surface.ops@ == old(self).drawing_surface.ops@.push(
                CanvasOp::Flush,
            ).push(CanvasOp::Clear { color: Color::spec_transparent() }),
            final(self).shadow_surface.ops@ == old(self).shadow_surface.ops@.push(
                CanvasOp::Clear { color: Color::spec_transparent() },
            ),
    {
        self.drawing_surface.ops.push(CanvasOp::Flush);
        self.final_surface.ops.push(CanvasOp::DrawDrawingSurface);
        self.shadow_surface.ops.push(CanvasOp::Clear { color: Color::transparent() });
        self.drawing_surface.ops.push(CanvasOp::Clear { color: Color::transparent() });
    }

    /// Renders one shape's own geometry and shadows and transfers the
    /// result to the final surface: fills then strokes in reverse
    /// declared order under the shape's transform, the optional clip,
    /// the drop shadows, then the drawing-to-final transfer.
    pub fn render_shape(&mut self, shape: &Shape, clip: bool)
        ensures
            *final(self) == (RenderState {
                final_surface: final(self).final_surface,
                drawing_surface: final(self).drawing_surface,
                shadow_surface: final(self).shadow_surface,
                ..*old(self)
            }),
            final(self).same_surface_dims(*old(self)),
            final(self).drawing_surface.ops@ == old(self).drawing_surface.ops@
                + shape_drawing_ops(*shape, clip),
            final(self).shadow_surface.ops@ == old(self).shadow_surface.ops@ + shape_shadow_ops(
                *shape,
                old(self).spec_effective_scale(),
            ),
            final(self).final_surface.ops@ == old(self).final_surface.ops@ + shape_final_ops(
                *shape,
            ),
    {
        let scale = self.effective_scale();
        self.drawing_surface.ops.push(
            CanvasOp::ConcatAboutCenter { transform: shape.transform, bounds: shape.bounds },
        );
        let ghost dw0 = self.drawing_surface.ops@;
        let mut i: usize = shape.fills.len();
        while i > 0
            invariant
                i <= shape.fills@.len(),
                self.drawing_surface.ops@ == dw0 + fill_ops_from(shape.fills@, i as int),
                *self == (RenderState { drawing_surface: self.drawing_surface, ..*old(self) }),
                self.drawing_surface == (Surface {
                    ops: self.drawing_surface.ops,
                    ..old(self).drawing_surface
                }),
            decreases i,
        {
            i = i - 1;
            self.drawing_surface.ops.push(CanvasOp::DrawFill { fill: shape.fills[i] });
        }
        let ghost dw1 = self.drawing_surface.ops@;
        let mut i: usize = shape.strokes.len();
        while i > 0
            invariant
                i <= shape.strokes@.len(),
                self.drawing_surface.ops@ == dw1 + stroke_ops_from(shape.strokes@, i as int),
                *self == (RenderState { drawing_surface: self.drawing_surface, ..*old(self) }),
                self.drawing_surface == (Surface {
                    ops: self.drawing_surface.ops,
                    ..old(self).drawing_surface
                }),
            decreases i,
        {
            i = i - 1;
            self.drawing_surface.ops.push(CanvasOp::DrawStroke { stroke: shape.strokes[i] });
        }
        if clip {
            self.drawing_surface.ops.push(CanvasOp::ClipRect { rect: shape.bounds });
        }
        let ghost sh0 = self.shadow_surface.ops@;
        let ghost fi0 = self.final_surface.ops@;
        let mut i: usize = shape.shadows.len();
        while i > 0
            invariant
                i <= shape.shadows@.len(),
                scale == old(self).spec_effective_scale(),
                self.shadow_surface.ops@ == sh0 + shadow_surface_ops_from(
                    shape.shadows@,
                    i as int,
                    scale,
                ),
                self.final_surface.ops@ == fi0 + shadow_final_ops_from(shape.shadows@, i as int),
                *self == (RenderState {
                    drawing_surface: self.drawing_surface,
                    shadow_surface: self.shadow_surface,
                    final_surface: self.final_surface,
                    ..*old(self)
                }),
                self.drawing_surface == (Surface {
                    ops: self.drawing_surface.ops,
                    ..old(self).drawing_surface
                }),
                self.shadow_surface == (Surface {
                    ops: self.shadow_surface.ops,
                    ..old(self).shadow_surface
                }),
                self.final_surface == (Surface {
                    ops: self.final_surface.ops,
                    ..old(self).final_surface
                }),
                self.drawing_surface.ops@ == dw1 + stroke_ops_from(shape.strokes@, 0) + (if clip {
                    seq![CanvasOp::ClipRect { rect: shape.bounds }]
                } else {
                    Seq::<CanvasOp>::empty()
                }),
            decreases i,
        {
            i = i - 1;
            let sh = &shape.shadows[i];
            let is_drop = match sh.style {
                ShadowStyle::Drop => true,
                ShadowStyle::Inner => false,
            };
            if !sh.hidden && is_drop {
                render_drop_shadow(self, sh, scale);
            }
        }
        self.apply_drawing_to_final_canvas();
        proof {
            assert(self.drawing_surface.ops@ =~= old(self).drawing_surface.ops@
                + shape_drawing_ops(*shape, clip));
            assert(self.shadow_surface.ops@ =~= old(self).shadow_surface.ops@ + shape_shadow_ops(
                *shape,
                old(self).spec_effective_scale(),
            ));
            assert(self.final_surface.ops@ =~= old(self).final_surface.ops@ + shape_final_ops(
                *shape,
            ));
        }
    }

    /// Seeds the traversal: the stack holds one unvisited frame for the
    /// root and the scheduler is running. Any traversal in flight is
    /// discarded.
    pub fn start_rendering(&mut self, root_id: u128)
        ensures
            *final(self) == (RenderState {
                stack: final(self).stack,
                is_running: true,
                ..*old(self)
            }),
            final(self).stack@ == seq![Frame { id: root_id, visited: false }],
    {
        let mut stack: Vec<Frame> = Vec::new();
        stack.push(Frame { id: root_id, visited: false });
        self.stack = stack;
        self.is_running = true;
        assert(self.stack@ =~= seq![Frame { id: root_id, visited: false }]);
    }

    /// Composites the debug overlay onto the final surface.
    fn render_debug(&mut self)
        ensures
            *final(self) == (RenderState { final_surface: final(self).final_surface, ..*old(self) }),
            final(self).final_surface == (Surface {
                ops: final(self).final_surface.ops,
                ..old(self).final_surface
            }),
            final(self).final_surface.ops@ == old(self).final_surface.ops@.push(
                CanvasOp::DrawDebugSurface,
            ),
    {
        self.final_surface.ops.push(CanvasOp::DrawDebugSurface);
    }

    /// Drains the traversal stack, one frame at a time, until it empties
    /// or the tick's time budget is exceeded. The state after the call is
    /// exactly some number of scheduler steps applied to the state before
    /// it; a `true` result means the stack emptied and the scheduler
    /// stopped, `false` that the pass is suspended and resumable (or that
    /// no traversal was running). The clock is read once at entry and
    /// once per frame; a frame ceiling bounds the pass even against a
    /// clock that never advances, keeping a malformed graph with a
    /// reference cycle from hanging the tick. With a clock that can never
    /// exceed the budget between two readings, a traversal that drains
    /// within the ceiling is guaranteed to complete in this one tick.
    pub fn render_shape_tree<F: Fn() -> u64>(&mut self, tree: &ShapeTree, clock: F) -> (complete:
        bool)
        requires
            old(self).viewbox.wf(),
            call_requires(clock, ()),
        ensures
            !old(self).is_running ==> *final(self) == *old(self) && !complete,
            old(self).is_running ==> exists|n: nat|
                final(self).sched_view() == run_spec(
                    old(self).sched_view(),
                    tree@,
                    old(self).viewbox.spec_area(),
                    old(self).spec_effective_scale(),
                    n,
                ),
            old(self).is_running ==> *final(self) == (RenderState {
                final_surface: final(self).final_surface,
                drawing_surface: final(self).drawing_surface,
                shadow_surface: final(self).shadow_surface,
                debug_surface: final(self).debug_surface,
                stack: final(self).stack,
                is_running: final(self).is_running,
                render_time: final(self).render_time,
                ..*old(self)
            }),
            old(self).is_running ==> final(self).same_surface_dims(*old(self)),
            old(self).is_running && old(self).stack@.len() > 0 ==> exists|n: nat|
                n >= 1 && final(self).sched_view() == run_spec(
                    old(self).sched_view(),
                    tree@,
                    old(self).viewbox.spec_area(),
                    old(self).spec_effective_scale(),
                    n,
                ),
            old(self).is_running && old(self).stack@.len() == 0 ==> complete,
            old(self).is_running && (forall|t1: u64, t2: u64|
                call_ensures(clock, (), t1) && call_ensures(clock, (), t2) ==> !(t2 >= t1 && t2
                    - t1 > RENDER_BUDGET)) && (exists|n: nat|
                n < FRAME_CEILING && run_spec(
                    old(self).sched_view(),
                    tree@,
                    old(self).viewbox.spec_area(),
                    old(self).spec_effective_scale(),
                    n,
                ).stack.len() == 0) ==> complete,
            complete == (old(self).is_running && !final(self).is_running),
            complete ==> final(self).stack@.len() == 0,
            !complete ==> final(self).is_running == old(self).is_running,
    {
        if !self.is_running {
            return false;
        }
        let area = self.viewbox.area();
        let scale = self.effective_scale();
        self.render_time = clock();
        let ghost start = self.sched_view();
        let ghost tr = tree@;
        if self.stack.len() == 0 {
            self.is_running = false;
            proof {
                assert(self.sched_view() == run_spec(
                    old(self).sched_view(),
                    tree@,
                    old(self).viewbox.spec_area(),
                    old(self).spec_effective_scale(),
                    0,
                ));
            }
            return true;
        }
        let mut steps: u64 = 0;
        while self.stack.len() != 0
            invariant
                call_requires(clock, ()),
                old(self).is_running,
                old(self).stack@.len() > 0,
                steps < FRAME_CEILING,
                area == old(self).viewbox.spec_area(),
                scale == old(self).spec_effective_scale(),
                tr == tree@,
                self.is_running,
                self.sched_view() == run_spec(start, tr, area, scale, steps as nat),
                call_ensures(clock, (), self.render_time),
                forall|m: nat|
                    m < steps ==> #[trigger] run_spec(start, tr, area, scale, m).stack.len() > 0,
                start == old(self).sched_view(),
                *self == (RenderState {
                    final_surface: self.final_surface,
                    drawing_surface: self.drawing_surface,
                    shadow_surface: self.shadow_surface,
                    debug_surface: self.debug_surface,
                    stack: self.stack,
                    is_running: self.is_running,
                    render_time: self.render_time,
                    ..*old(self)
                }),
                self.same_surface_dims(*old(self)),
            decreases FRAME_CEILING - steps,
        {
            let ghost prev = self.sched_view();
            let frame = self.stack.pop().unwrap();
            match tree.get(frame.id) {
                None => {},
                Some(shape) => {
                    if frame.visited {
                        self.final_surface.ops.push(CanvasOp::Restore);
                    } else {
                        let shape_bounds = shape.bounds();
                        if frame.id != ROOT_NODE_ID && (!shape_bounds.intersects(&area)
                            || shape.hidden()) {
                            self.debug_surface.ops.push(
                                CanvasOp::Mark { id: frame.id, visible: false },
                            );
                        } else {
                            if frame.id != ROOT_NODE_ID {
                                self.debug_surface.ops.push(
                                    CanvasOp::Mark { id: frame.id, visible: true },
                                );
                            }
                            let paint = shape.layer_paint(scale);
                            self.final_surface.ops.push(CanvasOp::SaveLayer { paint });
                            self.drawing_surface.ops.push(CanvasOp::Save);
                            if frame.id != ROOT_NODE_ID {
                                let clip = shape.clip();
                                self.render_shape(shape, clip);
                            } else {
                                self.apply_drawing_to_final_canvas();
                            }
                            self.drawing_surface.ops.push(CanvasOp::Restore);
                            self.stack.push(Frame { id: frame.id, visited: true });
                            let ghost base = self.stack@;
                            let ghost mid = *self;
                            if shape.is_recursive() {
                                let children = shape.children_ids();
                                let mut j: usize = children.len();
                                while j > 0
                                    invariant
                                        j <= children@.len(),
                                        self.stack@ == base + child_frames_from(
                                            children@,
                                            j as int,
                                        ),
                                        *self == (RenderState { stack: self.stack, ..mid }),
                                    decreases j,
                                {
                                    j = j - 1;
                                    self.stack.push(Frame { id: children[j], visited: false });
                                }
                            }
                        }
                    }
                },
            }
            proof {
                assert(self.sched_view() =~= step_spec(prev, tr, area, scale));
                assert(run_spec(start, tr, area, scale, (steps + 1) as nat) == step_spec(
                    run_spec(start, tr, area, scale, steps as nat),
                    tr,
                    area,
                    scale,
                ));
            }
            proof {
                assert forall|m: nat| m < steps + 1 implies #[trigger] run_spec(
                    start,
                    tr,
                    area,
                    scale,
                    m,
                ).stack.len() > 0 by {
                    if m == steps {
                        assert(run_spec(start, tr, area, scale, m) == prev);
                    }
                }
            }
            steps = steps + 1;
            let now = clock();
            if steps == FRAME_CEILING {
                return false;
            }
            if now >= self.render_time && now - self.render_time > RENDER_BUDGET {
                return false;
            }
        }
        self.is_running = false;
        true
    }

    /// Runs one budgeted traversal tick and then captures the cache when
    /// asked to, or when no cache exists yet; the snapshot is taken
    /// before the debug overlay is composited. The state afterwards is
    /// exactly some number of scheduler steps applied to the state
    /// before, followed by the capture and the optional overlay.
    pub fn render_all<F: Fn() -> u64>(
        &mut self,
        tree: &ShapeTree,
        generate_cached_surface_image: bool,
        clock: F,
    )
        requires
            old(self).viewbox.wf(),
            call_requires(clock, ()),
        ensures
            *final(self) == (RenderState {
                final_surface: final(self).final_surface,
                drawing_surface: final(self).drawing_surface,
                shadow_surface: final(self).shadow_surface,
                debug_surface: final(self).debug_surface,
                stack: final(self).stack,
                is_running: final(self).is_running,
                render_time: final(self).render_time,
                cached_surface_image: final(self).cached_surface_image,
                ..*old(self)
            }),
            final(self).same_surface_dims(*old(self)),
            exists|n: nat|
                #![trigger run_spec(
                    old(self).sched_view(),
                    tree@,
                    old(self).viewbox.spec_area(),
                    old(self).spec_effective_scale(),
                    n,
                )]
                {
                    let run = run_spec(
                        old(self).sched_view(),
                        tree@,
                        old(self).viewbox.spec_area(),
                        old(self).spec_effective_scale(),
                        n,
                    );
                    let complete = old(self).is_running && !final(self).is_running;
                    &&& final(self).stack@ == run.stack
                    &&& final(self).drawing_surface.ops@ == run.drawing_ops
                    &&& final(self).shadow_surface.ops@ == run.shadow_ops
                    &&& final(self).debug_surface.ops@ == run.debug_ops
                    &&& final(self).final_surface.ops@ == (
                    if old(self).options.spec_is_debug_visible() {
                        run.final_ops.push(CanvasOp::DrawDebugSurface)
                    } else {
                        run.final_ops
                    })
                    &&& (generate_cached_surface_image || old(self).cached_surface_image is None)
                        ==> match final(self).cached_surface_image {
                        Some(c) => c.image@ == run.final_ops && c.viewbox == old(self).viewbox
                            && c.has_all_shapes == complete,
                        None => false,
                    }
                    &&& !(generate_cached_surface_image || old(self).cached_surface_image is None)
                        ==> final(self).cached_surface_image == old(self).cached_surface_image
                },
            old(self).is_running && old(self).stack@.len() > 0 ==> exists|n: nat|
                #![trigger run_spec(
                    old(self).sched_view(),
                    tree@,
                    old(self).viewbox.spec_area(),
                    old(self).spec_effective_scale(),
                    n,
                )]
                {
                    let run = run_spec(
                        old(self).sched_view(),
                        tree@,
                        old(self).viewbox.spec_area(),
                        old(self).spec_effective_scale(),
                        n,
                    );
                    &&& n >= 1
                    &&& final(self).stack@ == run.stack
                    &&& final(self).drawing_surface.ops@ == run.drawing_ops
                    &&& final(self).shadow_surface.ops@ == run.shadow_ops
                    &&& final(self).debug_surface.ops@ == run.debug_ops
                    &&& final(self).final_surface.ops@ == (
                    if old(self).options.spec_is_debug_visible() {
                        run.final_ops.push(CanvasOp::DrawDebugSurface)
                    } else {
                        run.final_ops
                    })
                },
            !old(self).is_running ==> final(self).is_running == old(self).is_running,
            old(self).is_running && (forall|t1: u64, t2: u64|
                call_ensures(clock, (), t1) && call_ensures(clock, (), t2) ==> !(t2 >= t1 && t2
                    - t1 > RENDER_BUDGET)) && (exists|n: nat|
                n < FRAME_CEILING && run_spec(
                    old(self).sched_view(),
                    tree@,
                    old(self).viewbox.spec_area(),
                    old(self).spec_effective_scale(),
                    n,
                ).stack.len() == 0) ==> !final(self).is_running,
    {
        let ghost pre = *old(self);
        let complete = self.render_shape_tree(tree, clock);
        let ghost n: nat = if pre.is_running && pre.stack@.len() > 0 {
            choose|n: nat|
                n >= 1 && self.sched_view() == run_spec(
                    pre.sched_view(),
                    tree@,
                    pre.viewbox.spec_area(),
                    pre.spec_effective_scale(),
                    n,
                )
        } else if pre.is_running {
            choose|n: nat|
                self.sched_view() == run_spec(
                    pre.sched_view(),
                    tree@,
                    pre.viewbox.spec_area(),
                    pre.spec_effective_scale(),
                    n,
                )
        } else {
            0
        };
        assert(self.sched_view() == run_spec(
            pre.sched_view(),
            tree@,
            pre.viewbox.spec_area(),
            pre.spec_effective_scale(),
            n,
        ));
        let capture = generate_cached_surface_image || self.cached_surface_image.is_none();
        if capture {
            let image = self.final_surface.snapshot();
            self.cached_surface_image = Some(
                CachedSurfaceImage { image, viewbox: self.viewbox, has_all_shapes: complete },
            );
        }
        if self.options.is_debug_visible() {
            self.render_debug();
        }
    }

    /// Replays the cached snapshot under the exact pan-zoom correction.
    /// Without a cache it fails with `Uninitialized` and leaves every
    /// surface untouched. With one, all surfaces are cleared, the final
    /// canvas is scaled by the ratio of the current zoom to the captured
    /// zoom and translated by the captured zoom times the pan delta times
    /// the device-pixel ratio, the snapshot is drawn, and the surface is
    /// flushed.
    pub fn render_all_from_cache(&mut self) -> (r: Result<(), RenderError>)
        ensures
            r is Ok <==> old(self).cached_surface_image is Some,
            *final(self) == (RenderState {
                final_surface: final(self).final_surface,
                drawing_surface: final(self).drawing_surface,
                shadow_surface: final(self).shadow_surface,
                debug_surface: final(self).debug_surface,
                ..*old(self)
            }),
            final(self).same_surface_dims(*old(self)),
            r is Err ==> *final(self) == *old(self) && r == Err::<(), RenderError>(
                RenderError::Uninitialized,
            ),
            r is Ok ==> match old(self).cached_surface_image {
                Some(c) => {
                    &&& final(self).final_surface.ops@ == reset_ops(
                        old(self).final_surface.ops@,
                        old(self).background_color,
                    ) + replay_ops(old(self).viewbox, c.viewbox, old(self).options.spec_dpr()).push(
                        CanvasOp::Flush,
                    )
                    &&& final(self).drawing_surface.ops@ == reset_ops(
                        old(self).drawing_surface.ops@,
                        old(self).background_color,
                    ).push(CanvasOp::Save).push(CanvasOp::Restore)
                    &&& final(self).shadow_surface.ops@ == reset_ops(
                        old(self).shadow_surface.ops@,
                        old(self).background_color,
                    )
                    &&& final(self).debug_surface.ops@ == reset_ops(
                        old(self).debug_surface.ops@,
                        Color::spec_transparent(),
                    )
                },
                None => false,
            },
    {
        let (czoom, cpan_x, cpan_y) = match &self.cached_surface_image {
            None => {
                return Err(RenderError::Uninitialized);
            },
            Some(c) => (c.viewbox.zoom_milli, c.viewbox.pan_x, c.viewbox.pan_y),
        };

        self.reset_canvas();

        self.final_surface.ops.push(CanvasOp::Save);
        self.drawing_surface.ops.push(CanvasOp::Save);

        let dpr = self.options.dpr();
        proof {
            lemma_replay_product_fits(
                czoom as int,
                self.viewbox.pan_x - cpan_x,
                dpr as int,
            );
            lemma_replay_product_fits(
                czoom as int,
                self.viewbox.pan_y - cpan_y,
                dpr as int,
            );
        }
        let navigate_x: i128 = czoom as i128 * (self.viewbox.pan_x as i128 - cpan_x as i128)
            * dpr as i128;
        let navigate_y: i128 = czoom as i128 * (self.viewbox.pan_y as i128 - cpan_y as i128)
            * dpr as i128;

        self.final_surface.ops.push(
            CanvasOp::Scale {
                sx_num: self.viewbox.zoom_milli as i64,
                sx_den: czoom as i64,
                sy_num: self.viewbox.zoom_milli as i64,
                sy_den: czoom as i64,
            },
        );
        self.final_surface.ops.push(CanvasOp::Translate { dx: navigate_x, dy: navigate_y });
        self.final_surface.ops.push(CanvasOp::DrawCachedImage);

        self.final_surface.ops.push(CanvasOp::Restore);
        self.drawing_surface.ops.push(CanvasOp::Restore);

        self.flush();

        proof {
            let c = old(self).cached_surface_image->Some_0;
            assert(self.final_surface.ops@ =~= reset_ops(
                old(self).final_surface.ops@,
                old(self).background_color,
            ) + replay_ops(old(self).viewbox, c.viewbox, old(self).options.spec_dpr()).push(
                CanvasOp::Flush,
            ));
        }
        Ok(())
    }

    /// Replaces the background colour, refreshes the screen — replaying
    /// the cache when one exists, else clearing to the new colour — and
    /// then captures a fresh cache wholesale, as an explicit background
    /// change forces. The new snapshot covers the same shapes the
    /// replaced cache did; before any completed render it covers none.
    pub fn set_background_color(&mut self, color: Color)
        ensures
            *final(self) == (RenderState {
                final_surface: final(self).final_surface,
                drawing_surface: final(self).drawing_surface,
                shadow_surface: final(self).shadow_surface,
                debug_surface: final(self).debug_surface,
                background_color: color,
                cached_surface_image: final(self).cached_surface_image,
                ..*old(self)
            }),
            final(self).same_surface_dims(*old(self)),
            final(self).shadow_surface.ops@ == reset_ops(old(self).shadow_surface.ops@, color),
            final(self).debug_surface.ops@ == reset_ops(
                old(self).debug_surface.ops@,
                Color::spec_transparent(),
            ),
            old(self).cached_surface_image is None ==> final(self).final_surface.ops@ == reset_ops(
                old(self).final_surface.ops@,
                color,
            ) && final(self).drawing_surface.ops@ == reset_ops(
                old(self).drawing_surface.ops@,
                color,
            ),
            old(self).cached_surface_image is Some ==> {
                let c = old(self).cached_surface_image->Some_0;
                &&& final(self).final_surface.ops@ == reset_ops(
                    old(self).final_surface.ops@,
                    color,
                ) + replay_ops(old(self).viewbox, c.viewbox, old(self).options.spec_dpr()).push(
                    CanvasOp::Flush,
                )
                &&& final(self).drawing_surface.ops@ == reset_ops(
                    old(self).drawing_surface.ops@,
                    color,
                ).push(CanvasOp::Save).push(CanvasOp::Restore)
            },
            match final(self).cached_surface_image {
                Some(c2) => c2.image@ == final(self).final_surface.ops@ && c2.viewbox == old(
                    self,
                ).viewbox && c2.has_all_shapes == match old(self).cached_surface_image {
                    Some(c) => c.has_all_shapes,
                    None => false,
                },
                None => false,
            },
    {
        self.background_color = color;
        let refreshed = self.render_all_from_cache();
        if refreshed.is_err() {
            self.reset_canvas();
        }
        let has_all = match &self.cached_surface_image {
            Some(c) => c.has_all_shapes,
            None => false,
        };
        let image = self.final_surface.snapshot();
        self.cached_surface_image = Some(
            CachedSurfaceImage { image, viewbox: self.viewbox, has_all_shapes: has_all },
        );
    }
}

/// The captured zoom times a pan delta times the device-pixel ratio
/// stays far inside the `i128` range.
proof fn lemma_replay_product_fits(z: int, dp: int, d: int)
    requires
        0 <= z < 0x100000000,
        -0x100000000 <= dp <= 0x100000000,
        0 <= d < 0x100000000,
    ensures
        -0x10000000000000000 <= z * dp <= 0x10000000000000000,
        -0x1000000000000000000000000 <= (z * dp) * d <= 0x1000000000000000000000000,
{
    assert(-0x10000000000000000 <= z * dp <= 0x10000000000000000
        && -0x1000000000000000000000000 <= (z * dp) * d
            <= 0x1000000000000000000000000) by (nonlinear_arith)
        requires
            0 <= z < 0x100000000,
            -0x100000000 <= dp <= 0x100000000,
            0 <= d < 0x100000000,
    ;
}

/// The product of two 32-bit values stays inside the 64-bit range.
proof fn lemma_u32_product_fits(a: int, b: int)
    requires
        0 <= a < 0x100000000,
        0 <= b < 0x100000000,
    ensures
        0 <= a * b <= 0xfffffffe00000001,
{
    assert(0 <= a * b <= 0xfffffffe00000001) by (nonlinear_arith)
        requires
            0 <= a < 0x100000000,
            0 <= b < 0x100000000,
    ;
}

/// Composites one drop shadow: the drawing surface is drawn through the
/// shadow's dilated filter onto the shadow surface, the shadow surface is
/// composited onto the final surface, and the shadow surface is cleared
/// for the next shadow.
pub fn render_drop_shadow(render_state: &mut RenderState, shadow: &Shadow, scale_micro: u64)
    ensures
        *final(render_state) == (RenderState {
            final_surface: final(render_state).final_surface,
            shadow_surface: final(render_state).shadow_surface,
            ..*old(render_state)
        }),
        final(render_state).same_surface_dims(*old(render_state)),
        final(render_state).shadow_surface.ops@ == old(render_state).shadow_surface.ops@.push(
            CanvasOp::DrawDrawingWithShadow { paint: shadow.spec_to_paint(true, scale_micro) },
        ).push(CanvasOp::Clear { color: Color::spec_transparent() }),
        final(render_state).final_surface.ops@ == old(render_state).final_surface.ops@.push(
            CanvasOp::DrawShadowSurface,
        ),
{
    let shadow_paint = shadow.to_paint(true, scale_micro);
    render_state.shadow_surface.ops.push(CanvasOp::DrawDrawingWithShadow { paint: shadow_paint });
    render_state.final_surface.ops.push(CanvasOp::DrawShadowSurface);
    render_state.shadow_surface.ops.push(CanvasOp::Clear { color: Color::transparent() });
}

/// Composites one inner shadow. The one compositing order this renderer
/// commits to mirrors the drop-shadow path: the drawing surface is drawn
/// through the shadow's undilated filter onto the shadow surface, the
/// shadow surface is composited onto the final surface within the node's
/// open layer, and the shadow surface is cleared.
pub fn render_inner_shadow(render_state: &mut RenderState, shadow: &Shadow, scale_micro: u64)
    ensures
        *final(render_state) == (RenderState {
            final_surface: final(render_state).final_surface,
            shadow_surface: final(render_state).shadow_surface,
            ..*old(render_state)
        }),
        final(render_state).same_surface_dims(*old(render_state)),
        final(render_state).shadow_surface.ops@ == old(render_state).shadow_surface.ops@.push(
            CanvasOp::DrawDrawingWithShadow { paint: shadow.spec_to_paint(false, scale_micro) },
        ).push(CanvasOp::Clear { color: Color::spec_transparent() }),
        final(render_state).final_surface.ops@ == old(render_state).final_surface.ops@.push(
            CanvasOp::DrawShadowSurface,
        ),
{
    let shadow_paint = shadow.to_paint(false, scale_micro);
    render_state.shadow_surface.ops.push(CanvasOp::DrawDrawingWithShadow { paint: shadow_paint });
    render_state.final_surface.ops.push(CanvasOp::DrawShadowSurface);
    render_state.shadow_surface.ops.push(CanvasOp::Clear { color: Color::transparent() });
}

} // verus!
