//! Descriptions that the back end hands over together with a resource name.

use vstd::prelude::*;

verus! {

/// How large a buffer is, in bytes, and how far apart its elements lie.
#[derive(Clone, Copy, Debug, PartialEq, Eq, Hash, Structural)]
pub struct BufferInfo {
    /// Size of the buffer, in bytes.
    pub size: usize,
    /// Distance between two consecutive elements, in bytes.
    pub stride: usize,
}

/// What a linked shader program reads and writes.
#[derive(Clone, Copy, Debug, PartialEq, Eq, Hash, Structural)]
pub struct ProgramInfo {
    /// Number of vertex attributes the program reads.
    pub vertex_attributes: usize,
    /// Number of constant buffers the program reads.
    pub constant_buffers: usize,
    /// Number of textures the program samples.
    pub textures: usize,
    /// Number of samplers the program uses.
    pub samplers: usize,
    /// Number of render targets the program writes.
    pub outputs: usize,
}

/// How a pipeline state object assembles and rasterizes primitives.
#[derive(Clone, Copy, Debug, PartialEq, Eq, Hash, Structural)]
pub struct PipelineInfo {
    /// Number of vertex buffers bound to the pipeline.
    pub vertex_buffers: usize,
    /// Number of vertices that make up one primitive.
    pub primitive_vertices: u8,
    /// Whether faces are culled.
    pub cull_faces: bool,
}

/// The dimensions and sample count of a surface.
#[derive(Clone, Copy, Debug, PartialEq, Eq, Hash, Structural)]
pub struct SurfaceInfo {
    /// Width in pixels.
    pub width: u16,
    /// Height in pixels.
    pub height: u16,
    /// Number of samples per pixel.
    pub samples: u8,
}

/// The dimensions and mipmap levels of a texture.
#[derive(Clone, Copy, Debug, PartialEq, Eq, Hash, Structural)]
pub struct TextureInfo {
    /// Width in texels.
    pub width: u16,
    /// Height in texels.
    pub height: u16,
    /// Depth in texels, or number of array layers.
    pub depth: u16,
    /// Number of mipmap levels.
    pub levels: u8,
}

/// How a sampler filters and wraps texture coordinates.
#[derive(Clone, Copy, Debug, PartialEq, Eq, Hash, Structural)]
pub struct SamplerInfo {
    /// Filtering method, as the back end numbers it.
    pub filter: u8,
    /// Wrapping mode, as the back end numbers it.
    pub wrap: u8,
    /// Level-of-detail bias, in 1/256 of a level.
    pub lod_bias: i16,
}

} // verus!
