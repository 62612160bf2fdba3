//! The vertex input description: how the packed vertex bytes map onto
//! shader inputs.
//!
//! A vertex packs position (3 floats), normal (3 floats) and texture
//! coordinates (2 floats), tightly, 32 bytes per vertex. The byte
//! layout must match the shader's expectation exactly; stating it here
//! pins the stride, locations, formats and offsets down.

use vstd::prelude::*;

verus! {

/// Two 32-bit floats.
pub const FORMAT_R32G32_SFLOAT: u32 = 103;

/// Three 32-bit floats.
pub const FORMAT_R32G32B32_SFLOAT: u32 = 106;

/// The binding advances once per vertex.
pub const VERTEX_INPUT_RATE_VERTEX: u32 = 0;

/// Bytes per packed vertex: position, normal and texture coordinates.
pub const VERTEX_STRIDE: u32 = 32;

/// One vertex buffer binding: its slot, byte stride, and advance rate.
#[derive(Debug, Clone, Copy, PartialEq, Eq, Structural)]
pub struct VVertexInputBindingDescription {
    pub binding: u32,
    pub stride: u32,
    pub input_rate: u32,
}

/// One vertex attribute: its shader location, source binding, format
/// and byte offset within the vertex.
#[derive(Debug, Clone, Copy, PartialEq, Eq, Structural)]
pub struct VVertexInputAttributeDescription {
    pub location: u32,
    pub binding: u32,
    pub format: u32,
    pub offset: u32,
}

/// The full vertex input description the pipeline consumes.
#[derive(Debug, Clone, PartialEq, Eq)]
pub struct VVertexInputDescription {
    pub bindings: Vec<VVertexInputBindingDescription>,
    pub attributes: Vec<VVertexInputAttributeDescription>,
}

/// Describes the packed vertex layout: one per-vertex binding of
/// [`VERTEX_STRIDE`] bytes, with position at offset 0 (location 0),
/// normal at offset 12 (location 1) and texture coordinates at offset
/// 24 (location 2).
pub fn vertex_description() -> (r: VVertexInputDescription)
    ensures
        r.bindings@.len() == 1,
        r.bindings@[0] == (VVertexInputBindingDescription {
            binding: 0,
            stride: VERTEX_STRIDE,
            input_rate: VERTEX_INPUT_RATE_VERTEX,
        }),
        r.attributes@.len() == 3,
        r.attributes@[0] == (VVertexInputAttributeDescription {
            location: 0,
            binding: 0,
            format: FORMAT_R32G32B32_SFLOAT,
            offset: 0,
        }),
        r.attributes@[1] == (VVertexInputAttributeDescription {
            location: 1,
            binding: 0,
            format: FORMAT_R32G32B32_SFLOAT,
            offset: 12,
        }),
        r.attributes@[2] == (VVertexInputAttributeDescription {
            location: 2,
            binding: 0,
            format: FORMAT_R32G32_SFLOAT,
            offset: 24,
        }),
{
    let binding_desc = VVertexInputBindingDescription {
        binding: 0,
        stride: VERTEX_STRIDE,
        input_rate: VERTEX_INPUT_RATE_VERTEX,
    };
    let position_attribute_desc = VVertexInputAttributeDescription {
        location: 0,
        binding: 0,
        format: FORMAT_R32G32B32_SFLOAT,
        offset: 0,
    };
    let normal_attribute_desc = VVertexInputAttributeDescription {
        location: 1,
        binding: 0,
        format: FORMAT_R32G32B32_SFLOAT,
        offset: 12,
    };
    let uv_attribute_desc = VVertexInputAttributeDescription {
        location: 2,
        binding: 0,
        format: FORMAT_R32G32_SFLOAT,
        offset: 24,
    };

    let mut bindings: Vec<VVertexInputBindingDescription> = Vec::new();
    bindings.push(binding_desc);
    let mut attributes: Vec<VVertexInputAttributeDescription> = Vec::new();
    attributes.push(position_attribute_desc);
    attributes.push(normal_attribute_desc);
    attributes.push(uv_attribute_desc);
    VVertexInputDescription { bindings, attributes }
}

} // verus!
