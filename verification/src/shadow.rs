use vstd::prelude::*;

use crate::paint::Color;

verus! {

/// Where a shadow is composited: behind the shape (drop) or constrained
/// to its interior (inner).
#[derive(Debug, Clone, Copy, PartialEq, Eq, Structural)]
pub enum ShadowStyle {
    Drop,
    Inner,
}

impl From<u8> for ShadowStyle {
    fn from(value: u8) -> (s: ShadowStyle) {
        match value {
            0 => ShadowStyle::Drop,
            1 => ShadowStyle::Inner,
            _ => ShadowStyle::Drop,
        }
    }
}

impl vstd::std_specs::convert::FromSpecImpl<u8> for ShadowStyle {
    open spec fn obeys_from_spec() -> bool {
        true
    }

    open spec fn from_spec(value: u8) -> ShadowStyle {
        if value == 1 {
            ShadowStyle::Inner
        } else {
            ShadowStyle::Drop
        }
    }
}

impl Default for ShadowStyle {
    fn default() -> (s: ShadowStyle)
        ensures
            s == ShadowStyle::Drop,
    {
        ShadowStyle::Drop
    }
}

/// A shadow descriptor attached to a shape: colour, blur radius, spread,
/// offset (blur, spread and offset in world units), style and a hidden
/// flag. Hidden shadows are never rendered.
#[derive(Debug, Clone, Copy, PartialEq, Eq, Structural)]
pub struct Shadow {
    pub color: Color,
    pub blur: u32,
    pub spread: u32,
    pub offset_x: i32,
    pub offset_y: i32,
    pub style: ShadowStyle,
    pub hidden: bool,
}

/// The filter parameters a shadow resolves to at a given effective scale
/// (zoom times device-pixel ratio, in micro-units). Every spatial field
/// is the exact product of the descriptor's value and that scale.
#[derive(Debug, Clone, Copy, PartialEq, Eq, Structural)]
pub struct ShadowPaint {
    pub color: Color,
    pub style: ShadowStyle,
    pub offset_x_scaled: i128,
    pub offset_y_scaled: i128,
    pub blur_scaled: i128,
    /// The dilation radius, present only when the paint was built with
    /// dilation requested.
    pub spread_scaled: Option<i128>,
    pub anti_alias: bool,
}

impl Shadow {
    pub fn new(
        color: Color,
        blur: u32,
        spread: u32,
        offset: (i32, i32),
        style: ShadowStyle,
        hidden: bool,
    ) -> (s: Shadow)
        ensures
            s == (Shadow {
                color,
                blur,
                spread,
                offset_x: offset.0,
                offset_y: offset.1,
                style,
                hidden,
            }),
    {
        Shadow { color, blur, spread, offset_x: offset.0, offset_y: offset.1, style, hidden }
    }

    pub fn style(&self) -> (s: ShadowStyle)
        ensures
            s == self.style,
    {
        self.style
    }

    pub fn hidden(&self) -> (h: bool)
        ensures
            h == self.hidden,
    {
        self.hidden
    }

    /// The paint this shadow resolves to at `scale_micro`.
    pub open spec fn spec_to_paint(self, dilate: bool, scale_micro: u64) -> ShadowPaint {
        ShadowPaint {
            color: self.color,
            style: self.style,
            offset_x_scaled: (self.offset_x * scale_micro) as i128,
            offset_y_scaled: (self.offset_y * scale_micro) as i128,
            blur_scaled: (self.blur * scale_micro) as i128,
            spread_scaled: if dilate {
                Some((self.spread * scale_micro) as i128)
            } else {
                None
            },
            anti_alias: true,
        }
    }

    pub fn to_paint(&self, dilate: bool, scale_micro: u64) -> (p: ShadowPaint)
        ensures
            p == self.spec_to_paint(dilate, scale_micro),
    {
        let sc: i128 = scale_micro as i128;
        proof {
            lemma_scaled_value_fits(self.offset_x as int, sc as int);
            lemma_scaled_value_fits(self.offset_y as int, sc as int);
            lemma_scaled_value_fits(self.blur as int, sc as int);
            lemma_scaled_value_fits(self.spread as int, sc as int);
        }
        ShadowPaint {
            color: self.color,
            style: self.style,
            offset_x_scaled: self.offset_x as i128 * sc,
            offset_y_scaled: self.offset_y as i128 * sc,
            blur_scaled: self.blur as i128 * sc,
            spread_scaled: if dilate {
                Some(self.spread as i128 * sc)
            } else {
                None
            },
            anti_alias: true,
        }
    }
}

/// A descriptor value (an `i32` or `u32`) times a scale that fits in a
/// `u64` stays far inside the `i128` range.
proof fn lemma_scaled_value_fits(x: int, s: int)
    requires
        -0x80000000 <= x <= 0xffffffff,
        0 <= s <= 0xffffffffffffffff,
    ensures
        -0x1000000000000000000000000 <= x * s <= 0x1000000000000000000000000,
{
    assert(-0x1000000000000000000000000 <= x * s <= 0x1000000000000000000000000)
        by (nonlinear_arith)
        requires
            -0x80000000 <= x <= 0xffffffff,
            0 <= s <= 0xffffffffffffffff,
    ;
}

} // verus!
