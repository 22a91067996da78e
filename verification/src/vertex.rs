//! What a vertex holds, and how its fields are named to a shader.

use vstd::prelude::*;

verus! {

/// A number as a description of geometry gives it. Nothing here computes with
/// a real: it is carried to the device as it was read.
#[derive(Debug, Clone, Copy, PartialEq, Eq, Structural)]
pub enum Number {
    /// A whole number.
    Integer(i64),
    /// A real, as the bit pattern of an IEEE 754 double.
    Real(u64),
}

/// A vertex of a textured mesh: a homogeneous position and a texture
/// coordinate.
#[derive(Debug, Clone, Copy, PartialEq, Eq)]
pub struct Vertex {
    pub pos: [Number; 4],
    pub uv: [Number; 2],
}

impl Vertex {
    /// The vertex at point `p` with texture coordinate `u`. A point has the
    /// homogeneous coordinate one.
    pub open spec fn at(p: [Number; 3], u: [Number; 2]) -> Vertex {
        Vertex { pos: [p[0], p[1], p[2], Number::Integer(1)], uv: u }
    }

    /// Makes the vertex at point `p` with texture coordinate `u`.
    pub fn new(p: [Number; 3], u: [Number; 2]) -> (v: Vertex)
        ensures
            v == Vertex::at(p, u),
    {
        Vertex { pos: [p[0], p[1], p[2], Number::Integer(1)], uv: u }
    }
}

} // verus!
