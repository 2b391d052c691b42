use vstd::prelude::*;

use crate::geometry::{Matrix, Rect};
use crate::paint::{Color, Fill, Paint, Stroke};
use crate::shadow::ShadowPaint;

verus! {

/// One drawing command recorded against a surface's canvas. A surface is
/// modelled as the sequence of commands issued to it; the raster backend
/// that executes them lives outside the renderer.
#[derive(Debug, Clone, Copy, PartialEq, Eq, Structural)]
pub enum CanvasOp {
    /// Fill the whole surface with a colour.
    Clear { color: Color },
    /// Reset the transform stack to the identity.
    ResetMatrix,
    /// Push the current transform and clip.
    Save,
    /// Open a compositing layer with the given paint; closed by the
    /// matching `Restore`.
    SaveLayer { paint: Paint },
    /// Pop the innermost `Save` or `SaveLayer`.
    Restore,
    /// Concatenate a transform applied about the centre of `bounds`.
    ConcatAboutCenter { transform: Matrix, bounds: Rect },
    /// Intersect the clip with a rectangle.
    ClipRect { rect: Rect },
    /// Draw one fill of the current shape.
    DrawFill { fill: Fill },
    /// Draw one stroke of the current shape.
    DrawStroke { stroke: Stroke },
    /// Draw the drawing surface onto this surface at the origin with
    /// linear sampling and the default paint.
    DrawDrawingSurface,
    /// Draw the drawing surface onto this surface through a shadow's
    /// filter chain.
    DrawDrawingWithShadow { paint: ShadowPaint },
    /// Draw the shadow surface onto this surface at the origin with the
    /// default paint.
    DrawShadowSurface,
    /// Draw the debug surface onto this surface at the origin.
    DrawDebugSurface,
    /// Scale by the exact ratios `sx_num / sx_den` and `sy_num / sy_den`.
    Scale { sx_num: i64, sx_den: i64, sy_num: i64, sy_den: i64 },
    /// Translate by micro-unit offsets.
    Translate { dx: i128, dy: i128 },
    /// Draw the cached snapshot at the origin with the default paint.
    DrawCachedImage,
    /// A diagnostic annotation: the node was visited and found visible,
    /// or culled.
    Mark { id: u128, visible: bool },
    /// Submit pending commands to the backing target.
    Flush,
}

/// A raster target: its device-pixel dimensions and the commands issued
/// against it, oldest first.
#[derive(Debug)]
pub struct Surface {
    pub width: u64,
    pub height: u64,
    pub ops: Vec<CanvasOp>,
}

impl Surface {
    pub fn new(width: u64, height: u64) -> (s: Surface)
        ensures
            s.width == width,
            s.height == height,
            s.ops@ =~= Seq::<CanvasOp>::empty(),
    {
        Surface { width, height, ops: Vec::new() }
    }

    /// An immutable copy of the commands issued so far.
    pub fn snapshot(&self) -> (r: Vec<CanvasOp>)
        ensures
            r@ == self.ops@,
    {
        let mut r: Vec<CanvasOp> = Vec::new();
        let mut i: usize = 0;
        while i < self.ops.len()
            invariant
                i <= self.ops@.len(),
                r@ == self.ops@.subrange(0, i as int),
            decreases self.ops@.len() - i,
        {
            r.push(self.ops[i]);
            i = i + 1;
            assert(r@ =~= self.ops@.subrange(0, i as int));
        }
        assert(r@ =~= self.ops@);
        r
    }
}

} // verus!
