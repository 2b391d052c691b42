use vstd::prelude::*;

use crate::geometry::Rect;

verus! {

/// Largest accepted zoom factor, in milli-units (a factor of 1000).
pub const MAX_ZOOM_MILLI: u32 = 1000000;

/// The camera: logical size, pan offset in world units, and zoom in
/// milli-units (1000 stands for a factor of one). It derives the
/// world-space culling rectangle in one consistent snapshot; the
/// scheduler reads that rectangle once per pass.
#[derive(Debug, Clone, Copy, PartialEq, Eq, Structural)]
pub struct Viewbox {
    pub width: u32,
    pub height: u32,
    pub pan_x: i32,
    pub pan_y: i32,
    pub zoom_milli: u32,
}

impl Viewbox {
    pub open spec fn wf(self) -> bool {
        1 <= self.zoom_milli <= MAX_ZOOM_MILLI
    }

    /// The world-space width the camera sees: the logical width divided
    /// by the zoom factor, rounded down.
    pub open spec fn spec_extent_x(self) -> int {
        (self.width * 1000) as int / self.zoom_milli as int
    }

    /// The world-space height the camera sees.
    pub open spec fn spec_extent_y(self) -> int {
        (self.height * 1000) as int / self.zoom_milli as int
    }

    /// The world-space rectangle the camera sees: origin at the pan
    /// offset, extent the logical size divided by the zoom factor.
    pub open spec fn spec_area(self) -> Rect {
        Rect {
            x1: self.pan_x as i64,
            y1: self.pan_y as i64,
            x2: (self.pan_x + self.spec_extent_x()) as i64,
            y2: (self.pan_y + self.spec_extent_y()) as i64,
        }
    }

    pub fn new(width: u32, height: u32) -> (v: Viewbox)
        ensures
            v == (Viewbox { width, height, pan_x: 0, pan_y: 0, zoom_milli: 1000 }),
            v.wf(),
    {
        Viewbox { width, height, pan_x: 0, pan_y: 0, zoom_milli: 1000 }
    }

    pub fn area(&self) -> (r: Rect)
        requires
            self.wf(),
        ensures
            r == self.spec_area(),
            r.wf(),
    {
        let zoom: u64 = self.zoom_milli as u64;
        let dx: u64 = (self.width as u64 * 1000) / zoom;
        let dy: u64 = (self.height as u64 * 1000) / zoom;
        assert(dx <= self.width as u64 * 1000);
        assert(dy <= self.height as u64 * 1000);
        Rect {
            x1: self.pan_x as i64,
            y1: self.pan_y as i64,
            x2: self.pan_x as i64 + dx as i64,
            y2: self.pan_y as i64 + dy as i64,
        }
    }

    /// Replaces the logical size; pan and zoom are untouched.
    pub fn set_wh(&mut self, width: u32, height: u32)
        ensures
            *final(self) == (Viewbox { width, height, ..*old(self) }),
    {
        self.width = width;
        self.height = height;
    }

    /// Moves the camera by a world-space delta. Both components are set
    /// together from one snapshot of the old pan.
    pub fn pan(&mut self, dx: i32, dy: i32)
        requires
            i32::MIN <= old(self).pan_x + dx <= i32::MAX,
            i32::MIN <= old(self).pan_y + dy <= i32::MAX,
        ensures
            *final(self) == (Viewbox {
                pan_x: (old(self).pan_x + dx) as i32,
                pan_y: (old(self).pan_y + dy) as i32,
                ..*old(self)
            }),
    {
        self.pan_x = self.pan_x + dx;
        self.pan_y = self.pan_y + dy;
    }

    /// Sets the zoom factor, clamped to the accepted range; the pan is
    /// untouched, so the anchor of the motion is the camera origin.
    pub fn zoom_to(&mut self, factor_milli: u32)
        ensures
            *final(self) == (Viewbox {
                zoom_milli: if factor_milli == 0 {
                    1u32
                } else if factor_milli > MAX_ZOOM_MILLI {
                    MAX_ZOOM_MILLI
                } else {
                    factor_milli
                },
                ..*old(self)
            }),
            final(self).wf(),
    {
        if factor_milli == 0 {
            self.zoom_milli = 1;
        } else if factor_milli > MAX_ZOOM_MILLI {
            self.zoom_milli = MAX_ZOOM_MILLI;
        } else {
            self.zoom_milli = factor_milli;
        }
    }

    /// Maps a world-space point to device coordinates in micro-pixels:
    /// the exact product of the pan-relative position, the zoom factor
    /// and the device-pixel ratio, with no rounding.
    pub fn to_device(&self, x: i64, y: i64, dpr_milli: u32) -> (d: (i128, i128))
        requires
            self.wf(),
        ensures
            d.0 == (x - self.pan_x as i64) as i128 * self.zoom_milli as i128
                * dpr_milli as i128,
            d.1 == (y - self.pan_y as i64) as i128 * self.zoom_milli as i128
                * dpr_milli as i128,
    {
        let rx: i128 = x as i128 - self.pan_x as i128;
        let ry: i128 = y as i128 - self.pan_y as i128;
        proof {
            lemma_device_product_fits(rx as int, self.zoom_milli as int, dpr_milli as int);
            lemma_device_product_fits(ry as int, self.zoom_milli as int, dpr_milli as int);
        }
        (
            rx * self.zoom_milli as i128 * dpr_milli as i128,
            ry * self.zoom_milli as i128 * dpr_milli as i128,
        )
    }
}

/// A pan-relative coordinate times the zoom factor and the device-pixel
/// ratio stays far inside the `i128` range.
proof fn lemma_device_product_fits(r: int, z: int, d: int)
    requires
        -0x10000000000000000 <= r <= 0x10000000000000000,
        1 <= z <= 1000000,
        0 <= d <= 0xffffffff,
    ensures
        -0x1000000000000000000000 <= r * z <= 0x1000000000000000000000,
        -0x100000000000000000000000000000 <= (r * z) * d <= 0x100000000000000000000000000000,
{
    assert(-0x1000000000000000000000 <= r * z <= 0x1000000000000000000000
        && -0x100000000000000000000000000000 <= (r * z) * d
            <= 0x100000000000000000000000000000) by (nonlinear_arith)
        requires
            -0x10000000000000000 <= r <= 0x10000000000000000,
            1 <= z <= 1000000,
            0 <= d <= 0xffffffff,
    ;
}

} // verus!
