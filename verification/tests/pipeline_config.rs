use vulkan_renderer::descriptor::{
    layout_binding, uniform_dynamic_offset, write_descriptor_set, VDescriptorError,
    VDescriptorPool, DESCRIPTOR_POOL_CAPACITY, DESCRIPTOR_TYPE_UNIFORM_BUFFER,
    DESCRIPTOR_TYPE_UNIFORM_BUFFER_DYNAMIC, SHADER_STAGE_FRAGMENT, SHADER_STAGE_VERTEX,
};
use vulkan_renderer::pipeline::{
    VGraphicsPipelineBuilder, VPipelineError, VShaderStage, CULL_MODE_BACK, POLYGON_MODE_FILL,
    PRIMITIVE_TOPOLOGY_TRIANGLE_LIST,
};
use vulkan_renderer::render_pass::{
    render_pass_description, ATTACHMENT_LOAD_OP_CLEAR, ATTACHMENT_STORE_OP_STORE,
    FORMAT_D32_SFLOAT, IMAGE_LAYOUT_DEPTH_STENCIL_ATTACHMENT_OPTIMAL, IMAGE_LAYOUT_PRESENT_SRC,
    IMAGE_LAYOUT_UNDEFINED, SUBPASS_EXTERNAL,
};
use vulkan_renderer::vertex::{
    vertex_description, FORMAT_R32G32B32_SFLOAT, FORMAT_R32G32_SFLOAT, VERTEX_STRIDE,
};

#[test]
fn builder_starts_with_documented_defaults() {
    let builder = VGraphicsPipelineBuilder::start();
    assert_eq!(builder.topology, PRIMITIVE_TOPOLOGY_TRIANGLE_LIST);
    assert_eq!(builder.cull_mode, CULL_MODE_BACK);
    assert_eq!(builder.polygon_mode, POLYGON_MODE_FILL);
    assert!(builder.shader_stages.is_empty());
    assert!(!builder.layout_supplied);
}

#[test]
fn build_fails_without_shader_stages() {
    let r = VGraphicsPipelineBuilder::start()
        .pipeline_layout(vec![1], vec![])
        .build();
    assert_eq!(r, Err(VPipelineError::MissingShaderStages));
}

#[test]
fn build_fails_without_pipeline_layout() {
    let r = VGraphicsPipelineBuilder::start()
        .shader_stages(vec![VShaderStage {
            stage_flags: SHADER_STAGE_VERTEX,
            module: 42,
        }])
        .build();
    assert_eq!(r, Err(VPipelineError::MissingPipelineLayout));
}

#[test]
fn build_keeps_every_supplied_field() {
    let description = vertex_description();
    let config = VGraphicsPipelineBuilder::start()
        .shader_stages(vec![
            VShaderStage {
                stage_flags: SHADER_STAGE_VERTEX,
                module: 42,
            },
            VShaderStage {
                stage_flags: SHADER_STAGE_FRAGMENT,
                module: 43,
            },
        ])
        .vertex_input(description.bindings.clone(), description.attributes.clone())
        .viewport(1920, 1080)
        .pipeline_layout(vec![7], vec![])
        .build()
        .unwrap();
    assert_eq!(config.shader_stages.len(), 2);
    assert_eq!(config.shader_stages[1].module, 43);
    assert_eq!(config.vertex_bindings, description.bindings);
    assert_eq!(config.vertex_attributes, description.attributes);
    assert_eq!(config.viewport_width, 1920);
    assert_eq!(config.viewport_height, 1080);
    assert_eq!(config.descriptor_set_layouts, vec![7]);
    assert_eq!(config.topology, PRIMITIVE_TOPOLOGY_TRIANGLE_LIST);
}

#[test]
fn vertex_description_matches_packed_layout() {
    let description = vertex_description();
    assert_eq!(description.bindings.len(), 1);
    assert_eq!(description.bindings[0].binding, 0);
    assert_eq!(description.bindings[0].stride, VERTEX_STRIDE);
    assert_eq!(description.attributes.len(), 3);
    let offsets: Vec<u32> = description.attributes.iter().map(|a| a.offset).collect();
    assert_eq!(offsets, vec![0, 12, 24]);
    let locations: Vec<u32> = description.attributes.iter().map(|a| a.location).collect();
    assert_eq!(locations, vec![0, 1, 2]);
    assert_eq!(description.attributes[0].format, FORMAT_R32G32B32_SFLOAT);
    assert_eq!(description.attributes[2].format, FORMAT_R32G32_SFLOAT);
}

#[test]
fn render_pass_description_states_clear_store_and_layouts() {
    let description = render_pass_description(50);
    assert_eq!(description.attachments.len(), 2);
    let color = description.attachments[0];
    assert_eq!(color.format, 50);
    assert_eq!(color.load_op, ATTACHMENT_LOAD_OP_CLEAR);
    assert_eq!(color.store_op, ATTACHMENT_STORE_OP_STORE);
    assert_eq!(color.initial_layout, IMAGE_LAYOUT_UNDEFINED);
    assert_eq!(color.final_layout, IMAGE_LAYOUT_PRESENT_SRC);
    let depth = description.attachments[1];
    assert_eq!(depth.format, FORMAT_D32_SFLOAT);
    assert_eq!(depth.load_op, ATTACHMENT_LOAD_OP_CLEAR);
    assert_eq!(
        depth.final_layout,
        IMAGE_LAYOUT_DEPTH_STENCIL_ATTACHMENT_OPTIMAL
    );
    assert_eq!(description.color_attachment_refs.len(), 1);
    assert_eq!(description.color_attachment_refs[0].attachment, 0);
    assert_eq!(description.depth_attachment_ref.attachment, 1);
    assert_eq!(description.dependencies.len(), 2);
    assert_eq!(description.dependencies[0].src_subpass, SUBPASS_EXTERNAL);
    assert_eq!(description.dependencies[0].dst_subpass, 0);
}

#[test]
fn layout_bindings_carry_their_slot_and_stages() {
    let camera = layout_binding(0, 1, DESCRIPTOR_TYPE_UNIFORM_BUFFER, SHADER_STAGE_VERTEX);
    assert_eq!(camera.binding, 0);
    assert_eq!(camera.descriptor_count, 1);
    assert_eq!(camera.descriptor_type, DESCRIPTOR_TYPE_UNIFORM_BUFFER);
    let scene = layout_binding(
        1,
        1,
        DESCRIPTOR_TYPE_UNIFORM_BUFFER_DYNAMIC,
        SHADER_STAGE_VERTEX | SHADER_STAGE_FRAGMENT,
    );
    assert_eq!(scene.binding, 1);
    assert_eq!(scene.stage_flags, SHADER_STAGE_VERTEX | SHADER_STAGE_FRAGMENT);
}

#[test]
fn descriptor_writes_point_at_buffer_ranges() {
    let write = write_descriptor_set(9, 1, DESCRIPTOR_TYPE_UNIFORM_BUFFER_DYNAMIC, 4, 0, 80);
    assert_eq!(write.dst_set, 9);
    assert_eq!(write.dst_binding, 1);
    assert_eq!(write.buffer, 4);
    assert_eq!(write.range, 80);
}

#[test]
fn descriptor_pool_exhausts_exactly_at_capacity() {
    let mut pool = VDescriptorPool::new();
    assert_eq!(pool.max_sets, DESCRIPTOR_POOL_CAPACITY);
    assert_eq!(pool.allocate_sets(6), Ok(()));
    assert_eq!(pool.allocate_sets(4), Ok(()));
    assert_eq!(pool.allocate_sets(1), Err(VDescriptorError::PoolExhausted));
    assert_eq!(pool.allocated_sets, DESCRIPTOR_POOL_CAPACITY);
}

#[test]
fn dynamic_offset_is_frame_index_times_stride() {
    assert_eq!(uniform_dynamic_offset(0, 256), 0);
    assert_eq!(uniform_dynamic_offset(1, 256), 256);
    assert_eq!(uniform_dynamic_offset(2, 256), 512);
}
