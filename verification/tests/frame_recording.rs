use vulkan_renderer::buffer::VBuffer;
use vulkan_renderer::cmd::{
    allocate_command_buffers, begin_command_buffer, cmd_begin_render_pass, cmd_bind_pipeline,
    cmd_end_render_pass, end_command_buffer, VCommand, VCommandBufferState,
};
use vulkan_renderer::scene::{Mesh, Model, Scene};

#[test]
fn one_mesh_frame_records_exactly_one_bind_and_draw_each() {
    // A device-local vertex buffer from 3 vertices (12 floats) and an
    // index buffer from the indices [0, 1, 2].
    let floats: [f32; 12] = [
        0.0, -0.5, 0.0, 1.0, 0.5, 0.5, 0.0, 1.0, -0.5, 0.5, 0.0, 1.0,
    ];
    let mut vertex_bytes: Vec<u8> = Vec::new();
    for f in floats {
        vertex_bytes.extend_from_slice(&f.to_le_bytes());
    }
    let mut index_bytes: Vec<u8> = Vec::new();
    for i in [0u32, 1, 2] {
        index_bytes.extend_from_slice(&i.to_le_bytes());
    }
    let vertex_buffer = VBuffer::new_device_local_buffer(&vertex_bytes);
    let index_buffer = VBuffer::new_device_local_buffer(&index_bytes);
    assert_eq!(vertex_buffer.read_back(), vertex_bytes);
    assert_eq!(index_buffer.read_back(), index_bytes);

    // The scene: one mesh (handles 1 and 2), one model drawing it.
    let scene = {
        let mut scene = Scene::new(vec![Mesh {
            vertex_buffer: 1,
            index_buffer: 2,
            index_count: 3,
        }]);
        scene.add_models(vec![Model {
            mesh_index: 0,
            push_constants: vec![0; 64],
        }]);
        scene
    };

    // One frame: begin, render pass, pipeline, draw the scene, end.
    let mut buffers = allocate_command_buffers(1);
    let cmd = &mut buffers[0];
    begin_command_buffer(cmd);
    cmd_begin_render_pass(cmd, 77, 88);
    cmd_bind_pipeline(cmd, 99);
    scene.draw(cmd, 55, 0);
    cmd_end_render_pass(cmd);
    end_command_buffer(cmd);
    assert_eq!(cmd.state, VCommandBufferState::Executable);

    let mut bind_vertex = 0;
    let mut bind_index = 0;
    let mut draws_indexed = 0;
    for command in &cmd.commands {
        match command {
            VCommand::BindVertexBuffer { buffer, offset } => {
                bind_vertex += 1;
                assert_eq!((*buffer, *offset), (1, 0));
            }
            VCommand::BindIndexBuffer { buffer, offset } => {
                bind_index += 1;
                assert_eq!((*buffer, *offset), (2, 0));
            }
            VCommand::DrawIndexed {
                index_count,
                instance_count,
            } => {
                draws_indexed += 1;
                assert_eq!(*index_count, 3);
                assert_eq!(*instance_count, 1);
            }
            _ => {}
        }
    }
    assert_eq!(bind_vertex, 1);
    assert_eq!(bind_index, 1);
    assert_eq!(draws_indexed, 1);
}

#[test]
fn model_with_missing_mesh_records_nothing() {
    let scene = {
        let mut scene = Scene::new(vec![]);
        scene.add_models(vec![Model {
            mesh_index: 5,
            push_constants: vec![],
        }]);
        scene
    };
    let mut buffers = allocate_command_buffers(1);
    let cmd = &mut buffers[0];
    begin_command_buffer(cmd);
    cmd_begin_render_pass(cmd, 1, 2);
    scene.draw(cmd, 3, 0);
    cmd_end_render_pass(cmd);
    end_command_buffer(cmd);
    // Only the render pass bracket was recorded.
    assert_eq!(cmd.commands.len(), 2);
}

#[test]
fn two_models_record_in_model_order_with_their_offsets() {
    let scene = {
        let mut scene = Scene::new(vec![
            Mesh {
                vertex_buffer: 10,
                index_buffer: 11,
                index_count: 6,
            },
            Mesh {
                vertex_buffer: 20,
                index_buffer: 21,
                index_count: 9,
            },
        ]);
        scene.add_models(vec![
            Model {
                mesh_index: 1,
                push_constants: vec![1],
            },
            Model {
                mesh_index: 0,
                push_constants: vec![2],
            },
        ]);
        scene
    };
    let mut buffers = allocate_command_buffers(1);
    let cmd = &mut buffers[0];
    begin_command_buffer(cmd);
    cmd_begin_render_pass(cmd, 1, 2);
    scene.draw(cmd, 7, 256);
    cmd_end_render_pass(cmd);
    end_command_buffer(cmd);

    // BeginRenderPass + 2 models x 5 commands + EndRenderPass.
    assert_eq!(cmd.commands.len(), 12);
    assert!(matches!(
        cmd.commands[1],
        VCommand::BindVertexBuffer { buffer: 20, offset: 0 }
    ));
    assert!(matches!(
        cmd.commands[3],
        VCommand::BindDescriptorSets { descriptor_set: 7, dynamic_offset: 256 }
    ));
    assert!(matches!(
        cmd.commands[5],
        VCommand::DrawIndexed { index_count: 9, instance_count: 1 }
    ));
    assert!(matches!(
        cmd.commands[6],
        VCommand::BindVertexBuffer { buffer: 10, offset: 0 }
    ));
    assert!(matches!(
        cmd.commands[10],
        VCommand::DrawIndexed { index_count: 6, instance_count: 1 }
    ));
    match &cmd.commands[4] {
        VCommand::PushConstants { constants } => assert_eq!(constants, &vec![1]),
        other => panic!("unexpected command {:?}", other),
    }
}

#[test]
fn begin_resets_previously_recorded_commands() {
    let mut buffers = allocate_command_buffers(2);
    assert_eq!(buffers.len(), 2);
    let cmd = &mut buffers[0];
    begin_command_buffer(cmd);
    cmd_begin_render_pass(cmd, 1, 2);
    cmd_end_render_pass(cmd);
    end_command_buffer(cmd);
    assert_eq!(cmd.commands.len(), 2);
    begin_command_buffer(cmd);
    assert_eq!(cmd.state, VCommandBufferState::Recording);
    assert_eq!(cmd.commands.len(), 0);
}
