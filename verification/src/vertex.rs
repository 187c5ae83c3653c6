//! Plain-value vertex data: a fixed-layout record of position, texture
//! coordinate and normal, each component an IEEE 754 bit pattern.

use vstd::prelude::*;

use crate::FloatBits;
use crate::FLOAT_ZERO_BITS;

verus! {

/// A three-component vector of single-precision bit patterns.
#[derive(Clone, Copy, Debug, PartialEq, Eq, Structural)]
pub struct Vector3 {
    pub x: FloatBits,
    pub y: FloatBits,
    pub z: FloatBits,
}

/// A two-component vector of single-precision bit patterns.
#[derive(Clone, Copy, Debug, PartialEq, Eq, Structural)]
pub struct Vector2 {
    pub x: FloatBits,
    pub y: FloatBits,
}

impl Vector3 {
    /// The zero vector.
    pub fn zero() -> (r: Vector3)
        ensures
            r == (Vector3 { x: FLOAT_ZERO_BITS, y: FLOAT_ZERO_BITS, z: FLOAT_ZERO_BITS }),
    {
        Vector3 { x: FLOAT_ZERO_BITS, y: FLOAT_ZERO_BITS, z: FLOAT_ZERO_BITS }
    }

    pub fn new3(x: FloatBits, y: FloatBits, z: FloatBits) -> (r: Vector3)
        ensures
            r == (Vector3 { x, y, z }),
    {
        Vector3 { x, y, z }
    }
}

impl Vector2 {
    /// The zero vector.
    pub fn zero() -> (r: Vector2)
        ensures
            r == (Vector2 { x: FLOAT_ZERO_BITS, y: FLOAT_ZERO_BITS }),
    {
        Vector2 { x: FLOAT_ZERO_BITS, y: FLOAT_ZERO_BITS }
    }

    pub fn new2(x: FloatBits, y: FloatBits) -> (r: Vector2)
        ensures
            r == (Vector2 { x, y }),
    {
        Vector2 { x, y }
    }
}

/// One vertex as it is laid out in a vertex buffer: 3D position, 2D texture
/// coordinate and 3D normal, all single-precision bit patterns.
#[derive(Clone, Copy, Debug, PartialEq, Eq, Structural)]
pub struct Vertex {
    pub position: Vector3,
    pub uv: Vector2,
    pub normal: Vector3,
}

/// A vertex with the given position, zero texture coordinate and zero normal.
pub fn vertpos(x: FloatBits, y: FloatBits, z: FloatBits) -> (r: Vertex)
    ensures
        r.position == (Vector3 { x, y, z }),
        r.uv == (Vector2 { x: FLOAT_ZERO_BITS, y: FLOAT_ZERO_BITS }),
        r.normal == (Vector3 { x: FLOAT_ZERO_BITS, y: FLOAT_ZERO_BITS, z: FLOAT_ZERO_BITS }),
{
    Vertex { position: Vector3::new3(x, y, z), uv: Vector2::zero(), normal: Vector3::zero() }
}

/// A vertex with the given position and texture coordinate and zero normal.
pub fn vertposuv(x: FloatBits, y: FloatBits, z: FloatBits, u: FloatBits, v: FloatBits) -> (r:
    Vertex)
    ensures
        r.position == (Vector3 { x, y, z }),
        r.uv == (Vector2 { x: u, y: v }),
        r.normal == (Vector3 { x: FLOAT_ZERO_BITS, y: FLOAT_ZERO_BITS, z: FLOAT_ZERO_BITS }),
{
    Vertex { position: Vector3::new3(x, y, z), uv: Vector2::new2(u, v), normal: Vector3::zero() }
}

/// A vertex with every attribute given.
pub fn vert(
    x: FloatBits,
    y: FloatBits,
    z: FloatBits,
    u: FloatBits,
    v: FloatBits,
    nx: FloatBits,
    ny: FloatBits,
    nz: FloatBits,
) -> (r: Vertex)
    ensures
        r.position == (Vector3 { x, y, z }),
        r.uv == (Vector2 { x: u, y: v }),
        r.normal == (Vector3 { x: nx, y: ny, z: nz }),
{
    Vertex {
        position: Vector3::new3(x, y, z),
        uv: Vector2::new2(u, v),
        normal: Vector3::new3(nx, ny, nz),
    }
}

} // verus!
