use vstd::prelude::*;

use crate::pipeline::{
    Vertex, VertexAttribute, VertexBinding, VertexInputDescription, FORMAT_R32G32B32A32_SFLOAT,
    FORMAT_R32G32_SFLOAT,
};
use crate::sample_vertex::Vec2Bits;

verus! {

/// Four floats, each kept as the bit pattern of an `f32`.
#[derive(Debug, Copy, Clone, PartialEq, Eq, Structural)]
pub struct Vec4Bits {
    pub x: u32,
    pub y: u32,
    pub z: u32,
    pub w: u32,
}

/// A vertex of the user interface: position and texture coordinates in points,
/// and a linear RGBA colour, laid out as two, two and four 4-byte floats.
#[derive(Debug, Copy, Clone, PartialEq, Eq, Structural)]
pub struct EguiVertex {
    pub position: Vec2Bits,
    pub texture_coords: Vec2Bits,
    pub color: Vec4Bits,
}

/// The size of a user interface vertex in bytes, and the offsets of its attributes.
pub const EGUI_VERTEX_SIZE: u32 = 32;

pub const EGUI_VERTEX_TEXTURE_COORDS_OFFSET: u32 = 8;

pub const EGUI_VERTEX_COLOR_OFFSET: u32 = 16;

impl Vertex for EguiVertex {
    /// One binding of whole vertices; position, texture coordinates and colour at
    /// locations 0, 1 and 2.
    fn vertex_input_description() -> (r: VertexInputDescription)
        ensures
            r.bindings@ == seq![VertexBinding { binding: 0, stride: EGUI_VERTEX_SIZE }],
            r.attributes@ == seq![
                VertexAttribute { location: 0, binding: 0, format: FORMAT_R32G32_SFLOAT, offset: 0 },
                VertexAttribute {
                    location: 1,
                    binding: 0,
                    format: FORMAT_R32G32_SFLOAT,
                    offset: EGUI_VERTEX_TEXTURE_COORDS_OFFSET,
                },
                VertexAttribute {
                    location: 2,
                    binding: 0,
                    format: FORMAT_R32G32B32A32_SFLOAT,
                    offset: EGUI_VERTEX_COLOR_OFFSET,
                },
            ],
    {
        VertexInputDescription {
            bindings: vec![VertexBinding { binding: 0, stride: EGUI_VERTEX_SIZE }],
            attributes: vec![
                VertexAttribute { location: 0, binding: 0, format: FORMAT_R32G32_SFLOAT, offset: 0 },
                VertexAttribute {
                    location: 1,
                    binding: 0,
                    format: FORMAT_R32G32_SFLOAT,
                    offset: EGUI_VERTEX_TEXTURE_COORDS_OFFSET,
                },
                VertexAttribute {
                    location: 2,
                    binding: 0,
                    format: FORMAT_R32G32B32A32_SFLOAT,
                    offset: EGUI_VERTEX_COLOR_OFFSET,
                },
            ],
        }
    }
}

/// The bytes of an image whose texels are given as RGBA quadruples: texel after
/// texel, each as its four channels in order.
pub open spec fn rgba_bytes(pixels: Seq<[u8; 4]>) -> Seq<u8> {
    Seq::new(4 * pixels.len(), |k: int| pixels[k / 4][k % 4])
}

/// Lays out the texels of a user interface image as the bytes of an RGBA texture.
pub fn flatten_rgba_pixels(pixels: &Vec<[u8; 4]>) -> (r: Vec<u8>)
    requires
        4 * pixels@.len() <= usize::MAX,
    ensures
        r@ == rgba_bytes(pixels@),
{
    let mut bytes: Vec<u8> = Vec::new();
    let mut i: usize = 0;
    while i < pixels.len()
        invariant
            i <= pixels@.len(),
            bytes@ == rgba_bytes(pixels@.take(i as int)),
        decreases pixels@.len() - i,
    {
        let p = pixels[i];
        let ghost before = bytes@;
        bytes.push(p[0]);
        bytes.push(p[1]);
        bytes.push(p[2]);
        bytes.push(p[3]);
        proof {
            let next = pixels@.take(i + 1 as int);
            assert forall|k: int| 0 <= k < 4 * next.len() implies #[trigger] bytes@[k] == next[k
                / 4][k % 4] by {
                if k < 4 * i {
                    assert(before[k] == pixels@.take(i as int)[k / 4][k % 4]);
                    assert(k / 4 < i) by (nonlinear_arith)
                        requires
                            0 <= k < 4 * i,
                    ;
                } else {
                    assert(k / 4 == i && k % 4 == k - 4 * i) by (nonlinear_arith)
                        requires
                            4 * i <= k < 4 * i + 4,
                    ;
                }
            }
            assert(bytes@ =~= rgba_bytes(next));
        }
        i = i + 1;
    }
    proof {
        assert(pixels@.take(i as int) =~= pixels@);
    }
    bytes
}

} // verus!
