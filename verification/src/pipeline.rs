use vstd::prelude::*;

use crate::descriptors::{SHADER_STAGE_COMPUTE, SHADER_STAGE_FRAGMENT, SHADER_STAGE_VERTEX};

verus! {

/// `VkFormat` values of the vertex attribute formats the engine uses.
pub const FORMAT_R32G32_SFLOAT: i32 = 103;

pub const FORMAT_R32G32B32_SFLOAT: i32 = 106;

pub const FORMAT_R32G32B32A32_SFLOAT: i32 = 109;

/// A vertex buffer binding, read once per vertex.
#[derive(Clone, Copy, Debug, PartialEq, Eq, Structural)]
pub struct VertexBinding {
    pub binding: u32,
    pub stride: u32,
}

/// Where one vertex attribute is found in a vertex.
#[derive(Clone, Copy, Debug, PartialEq, Eq, Structural)]
pub struct VertexAttribute {
    pub location: u32,
    pub binding: u32,
    pub format: i32,
    pub offset: u32,
}

/// How a pipeline reads the vertices of a vertex type.
pub struct VertexInputDescription {
    pub bindings: Vec<VertexBinding>,
    pub attributes: Vec<VertexAttribute>,
}

/// A type whose values a graphics pipeline reads as vertices.
pub trait Vertex: Sized {
    fn vertex_input_description() -> VertexInputDescription;
}

/// The depth settings of a material's graphics pipeline.
pub struct MaterialBuilder {
    pub z_test: bool,
    pub z_write: bool,
}

impl MaterialBuilder {
    /// Depth testing and depth writing both on.
    pub fn new() -> (r: Self)
        ensures
            r.z_test,
            r.z_write,
    {
        Self { z_test: true, z_write: true }
    }

    pub fn z_test(self, z_test: bool) -> (r: Self)
        ensures
            r.z_test == z_test,
            r.z_write == self.z_write,
    {
        let mut s = self;
        s.z_test = z_test;
        s
    }

    pub fn z_write(self, z_write: bool) -> (r: Self)
        ensures
            r.z_write == z_write,
            r.z_test == self.z_test,
    {
        let mut s = self;
        s.z_write = z_write;
        s
    }
}

impl Default for MaterialBuilder {
    fn default() -> (r: Self)
        ensures
            r.z_test,
            r.z_write,
    {
        Self::new()
    }
}

/// The settings of a compute shader: the name of its entry point.
pub struct ComputeShaderBuilder {
    pub entry_point: String,
}

impl ComputeShaderBuilder {
    /// The entry point is `main`.
    pub fn new() -> (r: Self)
        ensures
            r.entry_point@ == "main"@,
    {
        Self { entry_point: "main".to_owned() }
    }
}

impl Default for ComputeShaderBuilder {
    fn default() -> (r: Self)
        ensures
            r.entry_point@ == "main"@,
    {
        Self::new()
    }
}

/// A push constant range of a pipeline layout; it always starts at offset 0.
#[derive(Clone, Copy, Debug, PartialEq, Eq, Structural)]
pub struct PushConstantRange {
    pub stage_flags: u32,
    pub offset: u32,
    pub size: u32,
}

/// The push constant range of a graphics pipeline whose vertex and fragment stages
/// declare push constant blocks of the given sizes: visible to each stage that
/// declares one, sized by the fragment stage's first block when it has one and
/// by the vertex stage's otherwise. No range when neither stage declares one.
pub open spec fn spec_graphics_push_constant_range(vertex: Seq<u32>, fragment: Seq<u32>) -> Option<
    PushConstantRange,
> {
    if vertex.len() == 0 && fragment.len() == 0 {
        None
    } else {
        Some(
            PushConstantRange {
                stage_flags: (if vertex.len() > 0 {
                    SHADER_STAGE_VERTEX
                } else {
                    0u32
                }) | (if fragment.len() > 0 {
                    SHADER_STAGE_FRAGMENT
                } else {
                    0u32
                }),
                offset: 0,
                size: if fragment.len() > 0 {
                    fragment[0]
                } else {
                    vertex[0]
                },
            },
        )
    }
}

pub fn graphics_push_constant_range(vertex_block_sizes: &[u32], fragment_block_sizes: &[u32]) -> (r:
    Option<PushConstantRange>)
    ensures
        r == spec_graphics_push_constant_range(vertex_block_sizes@, fragment_block_sizes@),
{
    let mut stages: u32 = 0;
    let mut size: Option<u32> = None;
    if vertex_block_sizes.len() > 0 {
        stages = stages | SHADER_STAGE_VERTEX;
        size = Some(vertex_block_sizes[0]);
    }
    if fragment_block_sizes.len() > 0 {
        stages = stages | SHADER_STAGE_FRAGMENT;
        size = Some(fragment_block_sizes[0]);
    }
    proof {
        assert(0u32 | 0u32 == 0u32) by (bit_vector);
        assert(0u32 | 0x1u32 == 0x1u32) by (bit_vector);
        assert(0x1u32 | 0u32 == 0x1u32) by (bit_vector);
        assert(0u32 | 0x10u32 == 0x10u32) by (bit_vector);
    }
    match size {
        Some(size) => Some(PushConstantRange { stage_flags: stages, offset: 0, size }),
        None => None,
    }
}

/// The push constant range of a compute pipeline: the first declared block, seen
/// by the compute stage.
pub open spec fn spec_compute_push_constant_range(blocks: Seq<u32>) -> Option<PushConstantRange> {
    if blocks.len() == 0 {
        None
    } else {
        Some(PushConstantRange { stage_flags: SHADER_STAGE_COMPUTE, offset: 0, size: blocks[0] })
    }
}

pub fn compute_push_constant_range(block_sizes: &[u32]) -> (r: Option<PushConstantRange>)
    ensures
        r == spec_compute_push_constant_range(block_sizes@),
{
    if block_sizes.len() == 0 {
        None
    } else {
        Some(PushConstantRange { stage_flags: SHADER_STAGE_COMPUTE, offset: 0, size: block_sizes[0] })
    }
}

} // verus!
