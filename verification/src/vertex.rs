use vstd::prelude::*;
use crate::math::Vector;

verus! {

pub const ATTRIBUTE_POSITION_SIZE: usize = 2;

pub const ATTRIBUTE_UV_SIZE: usize = 2;

pub const ATTRIBUTE_COLOR_SIZE: usize = 4;

pub const ATTRIBUTE_STRIDE: usize = ATTRIBUTE_POSITION_SIZE + ATTRIBUTE_UV_SIZE
    + ATTRIBUTE_COLOR_SIZE;

pub const ATTRIBUTE_OFFSET_0: usize = 0;

pub const ATTRIBUTE_OFFSET_1: usize = ATTRIBUTE_OFFSET_0 + ATTRIBUTE_POSITION_SIZE;

pub const ATTRIBUTE_OFFSET_2: usize = ATTRIBUTE_OFFSET_1 + ATTRIBUTE_UV_SIZE;

/// An RGBA color with eight bits per channel.
#[derive(Debug, Clone, Copy, PartialEq, Eq, Structural, Hash)]
pub struct Color {
    pub r: u8,
    pub g: u8,
    pub b: u8,
    pub a: u8,
}

impl Color {
    pub fn new(r: u8, g: u8, b: u8, a: u8) -> (c: Self)
        ensures
            c == (Color { r, g, b, a }),
    {
        Self { r, g, b, a }
    }

    pub open spec fn spec_white() -> Color {
        Color { r: 255, g: 255, b: 255, a: 255 }
    }

    pub fn white() -> (c: Self)
        ensures
            c == Self::spec_white(),
    {
        Self { r: 255, g: 255, b: 255, a: 255 }
    }
}

/// One vertex in the attribute layout {position(2), uv(2), rgba(4)}.
/// Positions are already transformed into the active coordinate space when
/// the vertex enters a batch; uv coordinates are texel coordinates into the
/// bound texture.
#[derive(Debug, Clone, Copy, PartialEq, Eq, Structural, Hash)]
pub struct Vertex {
    pub position: Vector,
    pub uv: Vector,
    pub color: Color,
}

impl Vertex {
    pub fn new(position: Vector, uv: Vector, color: Color) -> (v: Self)
        ensures
            v == (Vertex { position, uv, color }),
    {
        Self { position, uv, color }
    }
}

/// How a run of vertices is rasterized.
#[derive(Debug, Clone, Copy, PartialEq, Eq, Structural, Hash)]
pub enum PrimitiveType {
    Points,
    Lines,
    LineStrip,
    Triangles,
    TriangleStrip,
    TriangleFan,
}

} // verus!
