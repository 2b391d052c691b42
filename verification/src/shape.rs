use vstd::prelude::*;

use std::collections::HashMap;

use crate::geometry::{Matrix, Rect};
use crate::paint::{BlendMode, Fill, FilterParams, Paint, Stroke};
use crate::shadow::Shadow;

verus! {

broadcast use vstd::std_specs::hash::group_hash_axioms;

/// The identifier of the synthetic root node. It carries no geometry of
/// its own and is never culled.
pub const ROOT_NODE_ID: u128 = 0;

/// A group of shapes, optionally used as a mask for its siblings.
#[derive(Debug, Clone, Copy, PartialEq, Eq, Structural)]
pub struct Group {
    masked: bool,
}

impl Group {
    pub closed spec fn is_masked(self) -> bool {
        self.masked
    }

    pub fn new(masked: bool) -> (g: Group)
        ensures
            g.is_masked() == masked,
    {
        Group { masked }
    }
}

/// One node of the scene graph, as the renderer reads it: bounds and
/// flags for culling, a local transform, ordered paint descriptors, child
/// identifiers, and the layer paint inputs (blend mode, opacity, optional
/// image filter). The renderer treats a shape as an immutable value for
/// the duration of one traversal step.
#[derive(Debug, Clone, PartialEq, Eq)]
pub struct Shape {
    pub bounds: Rect,
    pub hidden: bool,
    pub clip: bool,
    pub transform: Matrix,
    pub fills: Vec<Fill>,
    pub strokes: Vec<Stroke>,
    pub shadows: Vec<Shadow>,
    pub children: Vec<u128>,
    pub recursive: bool,
    pub blend_mode: BlendMode,
    pub opacity: u8,
    pub has_image_filter: bool,
}

impl Shape {
    pub fn bounds(&self) -> (r: Rect)
        ensures
            r == self.bounds,
    {
        self.bounds
    }

    pub fn hidden(&self) -> (h: bool)
        ensures
            h == self.hidden,
    {
        self.hidden
    }

    pub fn clip(&self) -> (c: bool)
        ensures
            c == self.clip,
    {
        self.clip
    }

    pub fn fills(&self) -> (r: &Vec<Fill>)
        ensures
            r == &self.fills,
    {
        &self.fills
    }

    pub fn strokes(&self) -> (r: &Vec<Stroke>)
        ensures
            r == &self.strokes,
    {
        &self.strokes
    }

    /// Every shadow descriptor, in declared order; the renderer selects
    /// drop shadows and skips hidden ones itself.
    pub fn drop_shadows(&self) -> (r: &Vec<Shadow>)
        ensures
            r == &self.shadows,
    {
        &self.shadows
    }

    pub fn children_ids(&self) -> (r: &Vec<u128>)
        ensures
            r == &self.children,
    {
        &self.children
    }

    /// Whether this node is a container whose children the traversal
    /// recurses into.
    pub fn is_recursive(&self) -> (r: bool)
        ensures
            r == self.recursive,
    {
        self.recursive
    }

    pub fn blend_mode(&self) -> (m: BlendMode)
        ensures
            m == self.blend_mode,
    {
        self.blend_mode
    }

    pub fn opacity(&self) -> (a: u8)
        ensures
            a == self.opacity,
    {
        self.opacity
    }

    /// The node's composite image filter at the given effective scale,
    /// when it has one.
    pub open spec fn spec_image_filter(self, scale_micro: u64) -> Option<FilterParams> {
        if self.has_image_filter {
            Some(FilterParams { scale_micro })
        } else {
            None
        }
    }

    pub fn image_filter(&self, scale_micro: u64) -> (r: Option<FilterParams>)
        ensures
            r == self.spec_image_filter(scale_micro),
    {
        if self.has_image_filter {
            Some(FilterParams { scale_micro })
        } else {
            None
        }
    }

    /// The paint the node's layer is opened with: its blend mode, its
    /// opacity as the alpha, and its image filter at the effective scale.
    pub open spec fn spec_layer_paint(self, scale_micro: u64) -> Paint {
        Paint {
            blend_mode: self.blend_mode,
            alpha: self.opacity,
            image_filter: self.spec_image_filter(scale_micro),
        }
    }

    pub fn layer_paint(&self, scale_micro: u64) -> (p: Paint)
        ensures
            p == self.spec_layer_paint(scale_micro),
    {
        Paint {
            blend_mode: self.blend_mode,
            alpha: self.opacity,
            image_filter: self.image_filter(scale_micro),
        }
    }
}

/// A read-only snapshot of the scene graph: shapes keyed by identifier.
/// The owner must not mutate it while a traversal pass is in progress.
#[derive(Debug)]
pub struct ShapeTree {
    shapes: HashMap<u128, Shape>,
}

impl View for ShapeTree {
    type V = Map<u128, Shape>;

    closed spec fn view(&self) -> Map<u128, Shape> {
        self.shapes@
    }
}

impl ShapeTree {
    pub fn new() -> (t: ShapeTree)
        ensures
            t@ =~= Map::<u128, Shape>::empty(),
    {
        ShapeTree { shapes: HashMap::new() }
    }

    pub fn insert(&mut self, id: u128, shape: Shape)
        ensures
            final(self)@ == old(self)@.insert(id, shape),
    {
        self.shapes.insert(id, shape);
    }

    pub fn get(&self, id: u128) -> (r: Option<&Shape>)
        ensures
            match r {
                Some(shape) => self@.contains_key(id) && *shape == self@[id],
                None => !self@.contains_key(id),
            },
    {
        self.shapes.get(&id)
    }

    pub fn contains(&self, id: u128) -> (r: bool)
        ensures
            r == self@.contains_key(id),
    {
        self.shapes.contains_key(&id)
    }
}

} // verus!
