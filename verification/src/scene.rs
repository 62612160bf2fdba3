//! The scene as the frame loop draws it: a table of uploaded meshes and
//! the models that reference them, and the per-frame draw recording.
//!
//! Meshes sit in a table and models name their mesh by table index;
//! buffer handles are opaque. The per-draw transform reaches the shader
//! as push-constant bytes which the caller computes.

use crate::cmd::{
    cmd_bind_descriptor_sets, cmd_bind_index_buffer, cmd_bind_vertex_buffer, cmd_draw_indexed,
    cmd_push_constants, VCommandBuffer, VCommandBufferState, VCommandModel,
};
use vstd::prelude::*;

verus! {

/// One uploaded mesh: its vertex and index buffer handles and how many
/// indices a draw of it covers.
#[derive(Debug, Clone, Copy, PartialEq, Eq, Structural)]
pub struct Mesh {
    pub vertex_buffer: u64,
    pub index_buffer: u64,
    pub index_count: u32,
}

/// One model: which mesh of the table it draws, and the push-constant
/// bytes (the per-draw transform) to hand the shader.
#[derive(Debug, Clone, PartialEq, Eq)]
pub struct Model {
    pub mesh_index: usize,
    pub push_constants: Vec<u8>,
}

/// The scene: the mesh table and the models drawn each frame.
#[derive(Debug, Clone, PartialEq, Eq)]
pub struct Scene {
    pub meshes: Vec<Mesh>,
    pub models: Vec<Model>,
}

/// What drawing one model records: bind the mesh's vertex and index
/// buffers, bind the frame's descriptor set at the frame's dynamic
/// offset, hand over the push constants, and issue one indexed draw of
/// one instance. A model naming a missing mesh records nothing and the
/// draw moves on.
pub open spec fn spec_model_commands(
    meshes: Seq<Mesh>,
    m: Model,
    descriptor_set: u64,
    dynamic_offset: u32,
) -> Seq<VCommandModel> {
    if m.mesh_index < meshes.len() {
        seq![
            VCommandModel::BindVertexBuffer {
                buffer: meshes[m.mesh_index as int].vertex_buffer,
                offset: 0,
            },
            VCommandModel::BindIndexBuffer {
                buffer: meshes[m.mesh_index as int].index_buffer,
                offset: 0,
            },
            VCommandModel::BindDescriptorSets { descriptor_set, dynamic_offset },
            VCommandModel::PushConstants { constants: m.push_constants@ },
            VCommandModel::DrawIndexed {
                index_count: meshes[m.mesh_index as int].index_count,
                instance_count: 1,
            },
        ]
    } else {
        Seq::empty()
    }
}

/// What drawing a list of models records: each model's commands, in
/// model order.
pub open spec fn spec_scene_commands(
    meshes: Seq<Mesh>,
    models: Seq<Model>,
    descriptor_set: u64,
    dynamic_offset: u32,
) -> Seq<VCommandModel>
    decreases models.len(),
{
    if models.len() == 0 {
        Seq::empty()
    } else {
        spec_scene_commands(meshes, models.drop_last(), descriptor_set, dynamic_offset)
            + spec_model_commands(meshes, models.last(), descriptor_set, dynamic_offset)
    }
}

impl Scene {
    /// A scene over the given mesh table with no models yet.
    pub fn new(meshes: Vec<Mesh>) -> (r: Self)
        ensures
            r.meshes@ == meshes@,
            r.models@.len() == 0,
    {
        Self { meshes, models: Vec::new() }
    }

    /// Appends models to the scene, keeping the ones already there and
    /// their order.
    pub fn add_models(&mut self, models: Vec<Model>)
        ensures
            final(self).meshes@ == old(self).meshes@,
            final(self).models@ == old(self).models@ + models@,
    {
        let mut models = models;
        self.models.append(&mut models);
    }

    /// Looks up the mesh a model draws: the table entry it names, or
    /// nothing when the model names a missing mesh.
    pub fn get_mesh(&self, model: &Model) -> (r: Option<Mesh>)
        ensures
            model.mesh_index < self.meshes@.len() ==> r == Some(
                self.meshes@[model.mesh_index as int],
            ),
            model.mesh_index >= self.meshes@.len() ==> r is None,
    {
        if model.mesh_index < self.meshes.len() {
            Some(self.meshes[model.mesh_index])
        } else {
            None
        }
    }

    /// Records the scene's draws into an open render pass: for each
    /// model in order, the commands of [`spec_model_commands`]; models
    /// naming a missing mesh are skipped.
    pub fn draw(&self, cmd: &mut VCommandBuffer, descriptor_set: u64, dynamic_offset: u32)
        requires
            old(cmd).state == VCommandBufferState::Recording,
            old(cmd).in_render_pass,
        ensures
            final(cmd).state == VCommandBufferState::Recording,
            final(cmd).in_render_pass,
            final(cmd).recorded() == old(cmd).recorded() + spec_scene_commands(
                self.meshes@,
                self.models@,
                descriptor_set,
                dynamic_offset,
            ),
    {
        let n = self.models.len();
        let mut i: usize = 0;
        while i < n
            invariant
                n == self.models@.len(),
                i <= n,
                cmd.state == VCommandBufferState::Recording,
                cmd.in_render_pass,
                cmd.recorded() == old(cmd).recorded() + spec_scene_commands(
                    self.meshes@,
                    self.models@.subrange(0, i as int),
                    descriptor_set,
                    dynamic_offset,
                ),
            decreases n - i,
        {
            let ghost prefix = self.models@.subrange(0, i as int);
            let ghost recorded_before = cmd.recorded();
            let model = &self.models[i];
            if model.mesh_index < self.meshes.len() {
                let mesh = self.meshes[model.mesh_index];
                cmd_bind_vertex_buffer(cmd, mesh.vertex_buffer, 0);
                cmd_bind_index_buffer(cmd, mesh.index_buffer, 0);
                cmd_bind_descriptor_sets(cmd, descriptor_set, dynamic_offset);
                cmd_push_constants(cmd, &model.push_constants);
                cmd_draw_indexed(cmd, mesh.index_count, 1);
                proof {
                    assert(cmd.recorded() =~= recorded_before + spec_model_commands(
                        self.meshes@,
                        self.models@[i as int],
                        descriptor_set,
                        dynamic_offset,
                    ));
                }
            } else {
                proof {
                    assert(spec_model_commands(
                        self.meshes@,
                        self.models@[i as int],
                        descriptor_set,
                        dynamic_offset,
                    ) =~= Seq::<VCommandModel>::empty());
                    assert(cmd.recorded() =~= recorded_before + spec_model_commands(
                        self.meshes@,
                        self.models@[i as int],
                        descriptor_set,
                        dynamic_offset,
                    ));
                }
            }
            proof {
                let next_prefix = self.models@.subrange(0, i + 1);
                assert(next_prefix.drop_last() =~= prefix);
                assert(next_prefix.last() == self.models@[i as int]);
                assert(cmd.recorded() =~= old(cmd).recorded() + spec_scene_commands(
                    self.meshes@,
                    next_prefix,
                    descriptor_set,
                    dynamic_offset,
                ));
            }
            i = i + 1;
        }
        proof {
            assert(self.models@.subrange(0, n as int) =~= self.models@);
        }
    }
}

} // verus!
