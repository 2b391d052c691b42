use vstd::prelude::*;

verus! {

/// An axis-aligned rectangle in world coordinates, with `x1 <= x2` and
/// `y1 <= y2` expected by every consumer (see `wf`).
#[derive(Debug, Clone, Copy, PartialEq, Eq, Structural)]
pub struct Rect {
    pub x1: i64,
    pub y1: i64,
    pub x2: i64,
    pub y2: i64,
}

impl Rect {
    pub open spec fn wf(self) -> bool {
        self.x1 <= self.x2 && self.y1 <= self.y2
    }

    /// Two rectangles intersect when they share interior area; touching
    /// edges do not count as an intersection.
    pub open spec fn spec_intersects(self, other: Rect) -> bool {
        self.x1 < other.x2 && other.x1 < self.x2 && self.y1 < other.y2 && other.y1 < self.y2
    }

    pub fn new(x1: i64, y1: i64, x2: i64, y2: i64) -> (r: Rect)
        ensures
            r == (Rect { x1, y1, x2, y2 }),
    {
        Rect { x1, y1, x2, y2 }
    }

    pub fn intersects(&self, other: &Rect) -> (r: bool)
        ensures
            r == self.spec_intersects(*other),
    {
        self.x1 < other.x2 && other.x1 < self.x2 && self.y1 < other.y2 && other.y1 < self.y2
    }
}

/// A 2D affine transform, as the six coefficients of the matrix
/// `| a c e |`
/// `| b d f |`
/// stored in fixed point: a value of 1000 stands for a factor of one.
#[derive(Debug, Clone, Copy, PartialEq, Eq, Structural)]
pub struct Matrix {
    pub a: i32,
    pub b: i32,
    pub c: i32,
    pub d: i32,
    pub e: i32,
    pub f: i32,
}

/// The fixed-point value that stands for a factor of one.
pub const UNIT_MILLI: i32 = 1000;

impl Matrix {
    pub fn new(a: i32, b: i32, c: i32, d: i32, e: i32, f: i32) -> (m: Matrix)
        ensures
            m == (Matrix { a, b, c, d, e, f }),
    {
        Matrix { a, b, c, d, e, f }
    }

    pub open spec fn spec_identity() -> Matrix {
        Matrix { a: 1000, b: 0, c: 0, d: 1000, e: 0, f: 0 }
    }

    pub fn identity() -> (m: Matrix)
        ensures
            m == Matrix::spec_identity(),
    {
        Matrix { a: UNIT_MILLI, b: 0, c: 0, d: UNIT_MILLI, e: 0, f: 0 }
    }

    /// The same transform with its translation removed.
    pub fn no_translation(&self) -> (m: Matrix)
        ensures
            m == (Matrix { a: self.a, b: self.b, c: self.c, d: self.d, e: 0, f: 0 }),
    {
        let mut res = Matrix::identity();
        res.c = self.c;
        res.b = self.b;
        res.a = self.a;
        res.d = self.d;
        res
    }

    pub fn translation(&self) -> (t: (i32, i32))
        ensures
            t == (self.e, self.f),
    {
        (self.e, self.f)
    }

    pub fn scale(&self) -> (s: (i32, i32))
        ensures
            s == (self.a, self.d),
    {
        (self.a, self.d)
    }

    pub fn skew(&self) -> (s: (i32, i32))
        ensures
            s == (self.c, self.b),
    {
        (self.c, self.b)
    }

    /// The coefficients in declaration order, each as its four
    /// little-endian bytes.
    pub fn as_bytes(&self) -> (r: Vec<u8>)
        ensures
            r@ == i32_le_bytes(self.a) + i32_le_bytes(self.b) + i32_le_bytes(self.c)
                + i32_le_bytes(self.d) + i32_le_bytes(self.e) + i32_le_bytes(self.f),
    {
        let mut result: Vec<u8> = Vec::new();
        push_i32_le(&mut result, self.a);
        push_i32_le(&mut result, self.b);
        push_i32_le(&mut result, self.c);
        push_i32_le(&mut result, self.d);
        push_i32_le(&mut result, self.e);
        push_i32_le(&mut result, self.f);
        assert(result@ =~= i32_le_bytes(self.a) + i32_le_bytes(self.b) + i32_le_bytes(self.c)
            + i32_le_bytes(self.d) + i32_le_bytes(self.e) + i32_le_bytes(self.f));
        result
    }
}

/// The four little-endian bytes of a 32-bit value, least significant first.
pub open spec fn i32_le_bytes(x: i32) -> Seq<u8> {
    seq![
        (x as u32 & 0xff) as u8,
        ((x as u32 >> 8) & 0xff) as u8,
        ((x as u32 >> 16) & 0xff) as u8,
        ((x as u32 >> 24) & 0xff) as u8,
    ]
}

fn push_i32_le(out: &mut Vec<u8>, x: i32)
    ensures
        final(out)@ == old(out)@ + i32_le_bytes(x),
{
    let u: u32 = x as u32;
    out.push((u & 0xff) as u8);
    out.push(((u >> 8) & 0xff) as u8);
    out.push(((u >> 16) & 0xff) as u8);
    out.push(((u >> 24) & 0xff) as u8);
    assert(out@ =~= old(out)@ + i32_le_bytes(x));
}

} // verus!
