//! What the library decides about shape geometry: the winding order of a
//! rectangle's corners, the index lists of each shape kind and when a
//! rectangle outline is drawn at all. Vertex positions are floating point and
//! are computed by the caller from these.
use vstd::prelude::*;

verus! {

/// The number of corners of a rectangle.
pub const RECT_CORNERS: usize = 4;

/// Vertices of a line: its two end points and their two extruded copies.
pub const LINE_VERTEX_COUNT: u64 = 4;

/// Vertices of a rectangle outline: an inner and an outer vertex per corner.
pub const OUTLINE_VERTEX_COUNT: u64 = 8;

/// Vertices of a filled or textured rectangle: one per corner.
pub const FILL_VERTEX_COUNT: u64 = 4;

/// A stroke width, held as the IEEE-754 bit pattern of an `f32`.
///
/// The library never computes with the value; it only needs to know whether
/// the width is at most zero, which the bit pattern decides exactly.
#[derive(Debug, Clone, Copy, PartialEq, Eq, Structural)]
pub struct Thickness {
    pub bits: u32,
}

/// Whether the `f32` with these bits compares `<= 0.0`: either zero, or a
/// negative number (down to negative infinity). NaN compares false.
pub open spec fn f32_bits_le_zero(bits: u32) -> bool {
    let magnitude = bits & 0x7fff_ffffu32;
    magnitude == 0 || (bits >= 0x8000_0000u32 && magnitude <= 0x7f80_0000u32)
}

impl Thickness {
    pub fn from_bits(bits: u32) -> (t: Thickness)
        ensures
            t.bits == bits,
    {
        Thickness { bits }
    }

    pub fn to_bits(&self) -> (bits: u32)
        ensures
            bits == self.bits,
    {
        self.bits
    }

    /// Whether the width compares `<= 0.0`.
    pub fn is_non_positive(&self) -> (r: bool)
        ensures
            r == f32_bits_le_zero(self.bits),
    {
        let magnitude = self.bits & 0x7fff_ffffu32;
        magnitude == 0 || (self.bits >= 0x8000_0000u32 && magnitude <= 0x7f80_0000u32)
    }
}

/// Triangle-strip indices of a line quad.
pub open spec fn line_index_seq() -> Seq<u32> {
    seq![0u32, 1, 2, 3]
}

/// Triangle-list indices of a filled rectangle: two triangles over the corners.
pub open spec fn fill_index_seq() -> Seq<u32> {
    seq![0u32, 1, 3, 3, 1, 2]
}

/// Triangle-strip indices of a rectangle outline: the inner and outer vertex
/// of each corner in turn, then the first corner's pair again to close it.
pub open spec fn outline_index_seq() -> Seq<u32> {
    Seq::new(
        (2 * RECT_CORNERS + 2) as nat,
        |j: int| if j < 2 * RECT_CORNERS { j as u32 } else { (j - 2 * RECT_CORNERS) as u32 },
    )
}

/// Indices of the line quad `from`, `to`, `from + extent`, `to + extent`.
pub fn line_indices() -> (r: Vec<u32>)
    ensures
        r@ == line_index_seq(),
{
    vec![0u32, 1, 2, 3]
}

/// The corner of the rectangle spanned by `from` and `to` at a position of the
/// winding order `(from.x, from.y), (from.x, to.y), (to.x, to.y), (to.x, from.y)`.
pub open spec fn corner_spec<T>(from: (T, T), to: (T, T), i: int) -> (T, T) {
    if i == 0 {
        (from.0, from.1)
    } else if i == 1 {
        (from.0, to.1)
    } else if i == 2 {
        (to.0, to.1)
    } else {
        (to.0, from.1)
    }
}

/// An axis-aligned rectangle given by two opposite corners, in any order.
pub struct RectangleShape<T> {
    pub from: (T, T),
    pub to: (T, T),
}

impl<T: Copy> RectangleShape<T> {
    pub fn new(from: (T, T), to: (T, T)) -> (s: RectangleShape<T>)
        ensures
            s.from == from,
            s.to == to,
    {
        RectangleShape { from, to }
    }

    /// The corner at position `i` of the winding order.
    pub fn point(&self, i: usize) -> (p: (T, T))
        requires
            i < RECT_CORNERS,
        ensures
            p == corner_spec(self.from, self.to, i as int),
    {
        match i {
            0 => (self.from.0, self.from.1),
            1 => (self.from.0, self.to.1),
            2 => (self.to.0, self.to.1),
            _ => (self.to.0, self.from.1),
        }
    }

    /// The corners after and before corner `i` in the winding order.
    pub fn neighbors(i: usize) -> (r: (usize, usize))
        requires
            i < RECT_CORNERS,
        ensures
            r.0 == (i + 1) % (RECT_CORNERS as int),
            r.1 == (i + RECT_CORNERS - 1) % (RECT_CORNERS as int),
    {
        let next = (i + 1) % RECT_CORNERS;
        let prev = if i == 0 { RECT_CORNERS - 1 } else { i - 1 };
        (next, prev)
    }
}

/// Indices of the closed outline strip: `(2i, 2i + 1)` for each corner `i`,
/// then `0, 1` once more.
pub fn outline_indices() -> (r: Vec<u32>)
    ensures
        r@ == outline_index_seq(),
        r@.len() == 2 * RECT_CORNERS + 2,
{
    let mut indices: Vec<u32> = Vec::with_capacity(2 * RECT_CORNERS + 2);
    let mut i: usize = 0;
    while i < RECT_CORNERS
        invariant
            i <= RECT_CORNERS,
            indices@.len() == 2 * i,
            forall|j: int| 0 <= j < 2 * i ==> #[trigger] indices@[j] == j as u32,
        decreases RECT_CORNERS - i,
    {
        indices.push(2 * i as u32);
        indices.push(2 * i as u32 + 1);
        i += 1;
    }
    let first = indices[0];
    let second = indices[1];
    indices.push(first);
    indices.push(second);
    assert(indices@ =~= outline_index_seq());
    indices
}

/// Indices of the two triangles that fill the rectangle.
pub fn fill_indices() -> (r: Vec<u32>)
    ensures
        r@ == fill_index_seq(),
{
    vec![0u32, 1, 3, 3, 1, 2]
}

} // verus!
