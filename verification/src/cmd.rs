//! The command-buffer recording model: what a frame records, in order.
//!
//! A command buffer moves from initial through recording to executable;
//! draws are only recorded inside a render pass. The recorded commands
//! are kept as the sequence the GPU will execute, so contracts can pin
//! down exactly what a frame submits.

use crate::buffer::copy_bytes;
use vstd::prelude::*;

verus! {

/// One recorded command. Pipelines, buffers, framebuffers, render
/// passes and descriptor sets are carried as opaque driver handles.
#[derive(Debug, Clone, PartialEq, Eq)]
pub enum VCommand {
    BeginRenderPass { render_pass: u64, framebuffer: u64 },
    BindPipeline { pipeline: u64 },
    BindVertexBuffer { buffer: u64, offset: u64 },
    BindIndexBuffer { buffer: u64, offset: u64 },
    BindDescriptorSets { descriptor_set: u64, dynamic_offset: u32 },
    PushConstants { constants: Vec<u8> },
    Draw { vertex_count: u32, instance_count: u32 },
    DrawIndexed { index_count: u32, instance_count: u32 },
    EndRenderPass,
}

/// The mathematical image of a command: byte payloads as sequences, so
/// two commands are equal exactly when the GPU would see the same
/// thing.
#[verifier::ext_equal]
pub enum VCommandModel {
    BeginRenderPass { render_pass: u64, framebuffer: u64 },
    BindPipeline { pipeline: u64 },
    BindVertexBuffer { buffer: u64, offset: u64 },
    BindIndexBuffer { buffer: u64, offset: u64 },
    BindDescriptorSets { descriptor_set: u64, dynamic_offset: u32 },
    PushConstants { constants: Seq<u8> },
    Draw { vertex_count: u32, instance_count: u32 },
    DrawIndexed { index_count: u32, instance_count: u32 },
    EndRenderPass,
}

impl View for VCommand {
    type V = VCommandModel;

    open spec fn view(&self) -> VCommandModel {
        match self {
            VCommand::BeginRenderPass { render_pass, framebuffer } => {
                VCommandModel::BeginRenderPass {
                    render_pass: *render_pass,
                    framebuffer: *framebuffer,
                }
            },
            VCommand::BindPipeline { pipeline } => {
                VCommandModel::BindPipeline { pipeline: *pipeline }
            },
            VCommand::BindVertexBuffer { buffer, offset } => {
                VCommandModel::BindVertexBuffer { buffer: *buffer, offset: *offset }
            },
            VCommand::BindIndexBuffer { buffer, offset } => {
                VCommandModel::BindIndexBuffer { buffer: *buffer, offset: *offset }
            },
            VCommand::BindDescriptorSets { descriptor_set, dynamic_offset } => {
                VCommandModel::BindDescriptorSets {
                    descriptor_set: *descriptor_set,
                    dynamic_offset: *dynamic_offset,
                }
            },
            VCommand::PushConstants { constants } => {
                VCommandModel::PushConstants { constants: constants@ }
            },
            VCommand::Draw { vertex_count, instance_count } => {
                VCommandModel::Draw {
                    vertex_count: *vertex_count,
                    instance_count: *instance_count,
                }
            },
            VCommand::DrawIndexed { index_count, instance_count } => {
                VCommandModel::DrawIndexed {
                    index_count: *index_count,
                    instance_count: *instance_count,
                }
            },
            VCommand::EndRenderPass => VCommandModel::EndRenderPass,
        }
    }
}

/// The lifecycle of a command buffer.
#[derive(Debug, Clone, Copy, PartialEq, Eq, Structural)]
pub enum VCommandBufferState {
    /// Freshly allocated, or implicitly reset: nothing recorded.
    Initial,
    /// Between begin and end: commands may be recorded.
    Recording,
    /// Ended: ready to submit, closed to further recording.
    Executable,
}

/// A command buffer: its lifecycle state, whether a render pass is open,
/// and the commands recorded so far in order.
#[derive(Debug, Clone, PartialEq, Eq)]
pub struct VCommandBuffer {
    pub state: VCommandBufferState,
    pub in_render_pass: bool,
    pub commands: Vec<VCommand>,
}

impl VCommandBuffer {
    /// The recorded commands as their mathematical images, in order.
    pub open spec fn recorded(self) -> Seq<VCommandModel> {
        self.commands@.map_values(|c: VCommand| c@)
    }
}

/// Allocates `count` fresh command buffers, each with nothing recorded.
pub fn allocate_command_buffers(count: usize) -> (r: Vec<VCommandBuffer>)
    ensures
        r@.len() == count,
        forall|i: int|
            0 <= i < count ==> r@[i].state == VCommandBufferState::Initial && !r@[i].in_render_pass
                && r@[i].recorded().len() == 0,
{
    let mut r: Vec<VCommandBuffer> = Vec::new();
    let mut i: usize = 0;
    while i < count
        invariant
            i <= count,
            r@.len() == i,
            forall|j: int|
                0 <= j < i ==> r@[j].state == VCommandBufferState::Initial
                    && !r@[j].in_render_pass && r@[j].recorded().len() == 0,
        decreases count - i,
    {
        r.push(
            VCommandBuffer {
                state: VCommandBufferState::Initial,
                in_render_pass: false,
                commands: Vec::new(),
            },
        );
        i = i + 1;
    }
    r
}

/// Begins one-time-submit recording: the buffer is implicitly reset, so
/// anything previously recorded is discarded. A buffer already being
/// recorded cannot be begun again.
pub fn begin_command_buffer(cmd: &mut VCommandBuffer)
    requires
        old(cmd).state != VCommandBufferState::Recording,
    ensures
        final(cmd).state == VCommandBufferState::Recording,
        !final(cmd).in_render_pass,
        final(cmd).recorded() == Seq::<VCommandModel>::empty(),
{
    cmd.state = VCommandBufferState::Recording;
    cmd.in_render_pass = false;
    cmd.commands = Vec::new();
    proof {
        assert(cmd.recorded() =~= Seq::<VCommandModel>::empty());
    }
}

/// Ends recording: the buffer becomes executable with exactly the
/// commands recorded so far. The render pass must have been closed.
pub fn end_command_buffer(cmd: &mut VCommandBuffer)
    requires
        old(cmd).state == VCommandBufferState::Recording,
        !old(cmd).in_render_pass,
    ensures
        final(cmd).state == VCommandBufferState::Executable,
        !final(cmd).in_render_pass,
        final(cmd).recorded() == old(cmd).recorded(),
{
    cmd.state = VCommandBufferState::Executable;
}

/// Opens the render pass against the acquired framebuffer; the clear
/// operation gives the render target its defined initial contents.
pub fn cmd_begin_render_pass(cmd: &mut VCommandBuffer, render_pass: u64, framebuffer: u64)
    requires
        old(cmd).state == VCommandBufferState::Recording,
        !old(cmd).in_render_pass,
    ensures
        final(cmd).state == VCommandBufferState::Recording,
        final(cmd).in_render_pass,
        final(cmd).recorded() == old(cmd).recorded().push(
            VCommandModel::BeginRenderPass { render_pass, framebuffer },
        ),
{
    cmd.in_render_pass = true;
    cmd.commands.push(VCommand::BeginRenderPass { render_pass, framebuffer });
    proof {
        assert(cmd.recorded() =~= old(cmd).recorded().push(
            VCommandModel::BeginRenderPass { render_pass, framebuffer },
        ));
    }
}

/// Closes the render pass.
pub fn cmd_end_render_pass(cmd: &mut VCommandBuffer)
    requires
        old(cmd).state == VCommandBufferState::Recording,
        old(cmd).in_render_pass,
    ensures
        final(cmd).state == VCommandBufferState::Recording,
        !final(cmd).in_render_pass,
        final(cmd).recorded() == old(cmd).recorded().push(VCommandModel::EndRenderPass),
{
    cmd.in_render_pass = false;
    cmd.commands.push(VCommand::EndRenderPass);
    proof {
        assert(cmd.recorded() =~= old(cmd).recorded().push(VCommandModel::EndRenderPass));
    }
}

/// Binds the graphics pipeline.
pub fn cmd_bind_pipeline(cmd: &mut VCommandBuffer, pipeline: u64)
    requires
        old(cmd).state == VCommandBufferState::Recording,
    ensures
        final(cmd).state == old(cmd).state,
        final(cmd).in_render_pass == old(cmd).in_render_pass,
        final(cmd).recorded() == old(cmd).recorded().push(VCommandModel::BindPipeline { pipeline }),
{
    cmd.commands.push(VCommand::BindPipeline { pipeline });
    proof {
        assert(cmd.recorded() =~= old(cmd).recorded().push(
            VCommandModel::BindPipeline { pipeline },
        ));
    }
}

/// Binds a vertex buffer at the given byte offset.
pub fn cmd_bind_vertex_buffer(cmd: &mut VCommandBuffer, buffer: u64, offset: u64)
    requires
        old(cmd).state == VCommandBufferState::Recording,
    ensures
        final(cmd).state == old(cmd).state,
        final(cmd).in_render_pass == old(cmd).in_render_pass,
        final(cmd).recorded() == old(cmd).recorded().push(
            VCommandModel::BindVertexBuffer { buffer, offset },
        ),
{
    cmd.commands.push(VCommand::BindVertexBuffer { buffer, offset });
    proof {
        assert(cmd.recorded() =~= old(cmd).recorded().push(
            VCommandModel::BindVertexBuffer { buffer, offset },
        ));
    }
}

/// Binds an index buffer at the given byte offset.
pub fn cmd_bind_index_buffer(cmd: &mut VCommandBuffer, buffer: u64, offset: u64)
    requires
        old(cmd).state == VCommandBufferState::Recording,
    ensures
        final(cmd).state == old(cmd).state,
        final(cmd).in_render_pass == old(cmd).in_render_pass,
        final(cmd).recorded() == old(cmd).recorded().push(
            VCommandModel::BindIndexBuffer { buffer, offset },
        ),
{
    cmd.commands.push(VCommand::BindIndexBuffer { buffer, offset });
    proof {
        assert(cmd.recorded() =~= old(cmd).recorded().push(
            VCommandModel::BindIndexBuffer { buffer, offset },
        ));
    }
}

/// Binds the frame's descriptor set, with the dynamic byte offset that
/// selects this frame's slice of the shared uniform region.
pub fn cmd_bind_descriptor_sets(cmd: &mut VCommandBuffer, descriptor_set: u64, dynamic_offset: u32)
    requires
        old(cmd).state == VCommandBufferState::Recording,
    ensures
        final(cmd).state == old(cmd).state,
        final(cmd).in_render_pass == old(cmd).in_render_pass,
        final(cmd).recorded() == old(cmd).recorded().push(
            VCommandModel::BindDescriptorSets { descriptor_set, dynamic_offset },
        ),
{
    cmd.commands.push(VCommand::BindDescriptorSets { descriptor_set, dynamic_offset });
    proof {
        assert(cmd.recorded() =~= old(cmd).recorded().push(
            VCommandModel::BindDescriptorSets { descriptor_set, dynamic_offset },
        ));
    }
}

/// Records the per-draw push-constant bytes.
pub fn cmd_push_constants(cmd: &mut VCommandBuffer, constants: &Vec<u8>)
    requires
        old(cmd).state == VCommandBufferState::Recording,
    ensures
        final(cmd).state == old(cmd).state,
        final(cmd).in_render_pass == old(cmd).in_render_pass,
        final(cmd).recorded() == old(cmd).recorded().push(
            VCommandModel::PushConstants { constants: constants@ },
        ),
{
    let copied = copy_bytes(constants);
    cmd.commands.push(VCommand::PushConstants { constants: copied });
    proof {
        assert(cmd.recorded() =~= old(cmd).recorded().push(
            VCommandModel::PushConstants { constants: constants@ },
        ));
    }
}

/// Records a non-indexed draw.
pub fn cmd_draw(cmd: &mut VCommandBuffer, vertex_count: u32, instance_count: u32)
    requires
        old(cmd).state == VCommandBufferState::Recording,
        old(cmd).in_render_pass,
    ensures
        final(cmd).state == old(cmd).state,
        final(cmd).in_render_pass == old(cmd).in_render_pass,
        final(cmd).recorded() == old(cmd).recorded().push(
            VCommandModel::Draw { vertex_count, instance_count },
        ),
{
    cmd.commands.push(VCommand::Draw { vertex_count, instance_count });
    proof {
        assert(cmd.recorded() =~= old(cmd).recorded().push(
            VCommandModel::Draw { vertex_count, instance_count },
        ));
    }
}

/// Records an indexed draw.
pub fn cmd_draw_indexed(cmd: &mut VCommandBuffer, index_count: u32, instance_count: u32)
    requires
        old(cmd).state == VCommandBufferState::Recording,
        old(cmd).in_render_pass,
    ensures
        final(cmd).state == old(cmd).state,
        final(cmd).in_render_pass == old(cmd).in_render_pass,
        final(cmd).recorded() == old(cmd).recorded().push(
            VCommandModel::DrawIndexed { index_count, instance_count },
        ),
{
    cmd.commands.push(VCommand::DrawIndexed { index_count, instance_count });
    proof {
        assert(cmd.recorded() =~= old(cmd).recorded().push(
            VCommandModel::DrawIndexed { index_count, instance_count },
        ));
    }
}

} // verus!
