//! The graphics-pipeline configuration: a large fixed-shape description
//! assembled incrementally with sensible defaults, and a validating
//! build step that fails when the required pieces — shader stages and
//! the pipeline layout — were never supplied.

use crate::vertex::{VVertexInputAttributeDescription, VVertexInputBindingDescription};
use vstd::prelude::*;

verus! {

/// Triangles from every three vertices.
pub const PRIMITIVE_TOPOLOGY_TRIANGLE_LIST: u32 = 3;

/// Cull back faces.
pub const CULL_MODE_BACK: u32 = 0x2;

/// Fill polygons.
pub const POLYGON_MODE_FILL: u32 = 0;

/// Why building the pipeline configuration failed.
#[derive(Debug, Clone, Copy, PartialEq, Eq, Structural)]
pub enum VPipelineError {
    /// No shader stages were supplied; a pipeline needs at least one.
    MissingShaderStages,
    /// The pipeline layout was never supplied.
    MissingPipelineLayout,
}

/// One programmable stage: which stage, and the compiled module handle.
#[derive(Debug, Clone, Copy, PartialEq, Eq, Structural)]
pub struct VShaderStage {
    pub stage_flags: u32,
    pub module: u64,
}

/// One push-constant range visible to the given stages.
#[derive(Debug, Clone, Copy, PartialEq, Eq, Structural)]
pub struct VPushConstantRange {
    pub stage_flags: u32,
    pub offset: u32,
    pub size: u32,
}

/// The validated pipeline configuration the driver-facing layer builds
/// the real pipeline from; consumed, never mutated, by the frame loop.
#[derive(Debug, Clone, PartialEq, Eq)]
pub struct VGraphicsPipelineConfig {
    pub shader_stages: Vec<VShaderStage>,
    pub vertex_bindings: Vec<VVertexInputBindingDescription>,
    pub vertex_attributes: Vec<VVertexInputAttributeDescription>,
    pub topology: u32,
    pub cull_mode: u32,
    pub polygon_mode: u32,
    pub viewport_width: u32,
    pub viewport_height: u32,
    pub descriptor_set_layouts: Vec<u64>,
    pub push_constant_ranges: Vec<VPushConstantRange>,
}

/// The incremental builder, starting from the defaults: triangle-list
/// topology, back-face culling, filled polygons, and nothing else set.
#[derive(Debug, Clone, PartialEq, Eq)]
pub struct VGraphicsPipelineBuilder {
    pub shader_stages: Vec<VShaderStage>,
    pub vertex_bindings: Vec<VVertexInputBindingDescription>,
    pub vertex_attributes: Vec<VVertexInputAttributeDescription>,
    pub topology: u32,
    pub cull_mode: u32,
    pub polygon_mode: u32,
    pub viewport_width: u32,
    pub viewport_height: u32,
    pub descriptor_set_layouts: Vec<u64>,
    pub push_constant_ranges: Vec<VPushConstantRange>,
    pub layout_supplied: bool,
}

impl VGraphicsPipelineBuilder {
    /// Starts a configuration with the defaults and no required field
    /// supplied yet.
    pub fn start() -> (r: Self)
        ensures
            r.shader_stages@.len() == 0,
            r.vertex_bindings@.len() == 0,
            r.vertex_attributes@.len() == 0,
            r.topology == PRIMITIVE_TOPOLOGY_TRIANGLE_LIST,
            r.cull_mode == CULL_MODE_BACK,
            r.polygon_mode == POLYGON_MODE_FILL,
            r.viewport_width == 0,
            r.viewport_height == 0,
            r.descriptor_set_layouts@.len() == 0,
            r.push_constant_ranges@.len() == 0,
            !r.layout_supplied,
    {
        Self {
            shader_stages: Vec::new(),
            vertex_bindings: Vec::new(),
            vertex_attributes: Vec::new(),
            topology: PRIMITIVE_TOPOLOGY_TRIANGLE_LIST,
            cull_mode: CULL_MODE_BACK,
            polygon_mode: POLYGON_MODE_FILL,
            viewport_width: 0,
            viewport_height: 0,
            descriptor_set_layouts: Vec::new(),
            push_constant_ranges: Vec::new(),
            layout_supplied: false,
        }
    }

    /// Supplies the programmable stages. Required before building.
    pub fn shader_stages(self, stages: Vec<VShaderStage>) -> (r: Self)
        ensures
            r == (Self { shader_stages: stages, ..self }),
    {
        Self { shader_stages: stages, ..self }
    }

    /// Supplies the vertex input layout.
    pub fn vertex_input(
        self,
        bindings: Vec<VVertexInputBindingDescription>,
        attributes: Vec<VVertexInputAttributeDescription>,
    ) -> (r: Self)
        ensures
            r == (Self { vertex_bindings: bindings, vertex_attributes: attributes, ..self }),
    {
        Self { vertex_bindings: bindings, vertex_attributes: attributes, ..self }
    }

    /// Overrides the primitive topology.
    pub fn input_assembly(self, topology: u32) -> (r: Self)
        ensures
            r == (Self { topology, ..self }),
    {
        Self { topology, ..self }
    }

    /// Overrides the rasterization mode.
    pub fn rasterization(self, cull_mode: u32, polygon_mode: u32) -> (r: Self)
        ensures
            r == (Self { cull_mode, polygon_mode, ..self }),
    {
        Self { cull_mode, polygon_mode, ..self }
    }

    /// Supplies the viewport (and scissor) extent.
    pub fn viewport(self, width: u32, height: u32) -> (r: Self)
        ensures
            r == (Self { viewport_width: width, viewport_height: height, ..self }),
    {
        Self { viewport_width: width, viewport_height: height, ..self }
    }

    /// Supplies the pipeline layout: the descriptor-set layouts and
    /// push-constant ranges the shaders use. Required before building.
    pub fn pipeline_layout(
        self,
        descriptor_set_layouts: Vec<u64>,
        push_constant_ranges: Vec<VPushConstantRange>,
    ) -> (r: Self)
        ensures
            r == (Self {
                descriptor_set_layouts,
                push_constant_ranges,
                layout_supplied: true,
                ..self
            }),
    {
        Self { descriptor_set_layouts, push_constant_ranges, layout_supplied: true, ..self }
    }

    /// Validates and builds the configuration: fails with
    /// [`VPipelineError::MissingShaderStages`] when no stage was
    /// supplied, and with [`VPipelineError::MissingPipelineLayout`]
    /// when the layout was never supplied; otherwise the configuration
    /// carries the builder's fields unchanged.
    pub fn build(self) -> (r: Result<VGraphicsPipelineConfig, VPipelineError>)
        ensures
            self.shader_stages@.len() == 0 ==> r == Result::<
                VGraphicsPipelineConfig,
                VPipelineError,
            >::Err(VPipelineError::MissingShaderStages),
            self.shader_stages@.len() > 0 && !self.layout_supplied ==> r == Result::<
                VGraphicsPipelineConfig,
                VPipelineError,
            >::Err(VPipelineError::MissingPipelineLayout),
            self.shader_stages@.len() > 0 && self.layout_supplied ==> r is Ok && r.unwrap() == (
            VGraphicsPipelineConfig {
                shader_stages: self.shader_stages,
                vertex_bindings: self.vertex_bindings,
                vertex_attributes: self.vertex_attributes,
                topology: self.topology,
                cull_mode: self.cull_mode,
                polygon_mode: self.polygon_mode,
                viewport_width: self.viewport_width,
                viewport_height: self.viewport_height,
                descriptor_set_layouts: self.descriptor_set_layouts,
                push_constant_ranges: self.push_constant_ranges,
            }),
    {
        if self.shader_stages.len() == 0 {
            return Err(VPipelineError::MissingShaderStages);
        }
        if !self.layout_supplied {
            return Err(VPipelineError::MissingPipelineLayout);
        }
        Ok(
            VGraphicsPipelineConfig {
                shader_stages: self.shader_stages,
                vertex_bindings: self.vertex_bindings,
                vertex_attributes: self.vertex_attributes,
                topology: self.topology,
                cull_mode: self.cull_mode,
                polygon_mode: self.polygon_mode,
                viewport_width: self.viewport_width,
                viewport_height: self.viewport_height,
                descriptor_set_layouts: self.descriptor_set_layouts,
                push_constant_ranges: self.push_constant_ranges,
            },
        )
    }
}

} // verus!
