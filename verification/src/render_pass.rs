//! The render pass description: the static statement of the color and
//! depth attachments, their load/store behavior and layouts, and the
//! dependencies that order outside work against the single subpass.

use vstd::prelude::*;

verus! {

/// Clear the attachment at the start of the pass: this is what gives an
/// uninitialized render target its defined initial contents.
pub const ATTACHMENT_LOAD_OP_CLEAR: u32 = 1;

/// The attachment's prior contents are irrelevant.
pub const ATTACHMENT_LOAD_OP_DONT_CARE: u32 = 2;

/// Keep the attachment's contents after the pass.
pub const ATTACHMENT_STORE_OP_STORE: u32 = 0;

/// The attachment's contents need not survive the pass.
pub const ATTACHMENT_STORE_OP_DONT_CARE: u32 = 1;

/// No defined image contents.
pub const IMAGE_LAYOUT_UNDEFINED: u32 = 0;

/// Optimal for color-attachment writes.
pub const IMAGE_LAYOUT_COLOR_ATTACHMENT_OPTIMAL: u32 = 2;

/// Optimal for depth/stencil-attachment writes.
pub const IMAGE_LAYOUT_DEPTH_STENCIL_ATTACHMENT_OPTIMAL: u32 = 3;

/// Ready to hand to the presentation engine.
pub const IMAGE_LAYOUT_PRESENT_SRC: u32 = 1000001002;

/// Single-sampled.
pub const SAMPLE_COUNT_1: u32 = 1;

/// The 32-bit float depth format used for the depth attachment.
pub const FORMAT_D32_SFLOAT: u32 = 126;

/// Work outside the render pass, on either side of it.
pub const SUBPASS_EXTERNAL: u32 = 0xffff_ffffu32;

/// The color-attachment-output pipeline stage.
pub const PIPELINE_STAGE_COLOR_ATTACHMENT_OUTPUT: u32 = 0x400;

/// The early fragment-test pipeline stage.
pub const PIPELINE_STAGE_EARLY_FRAGMENT_TESTS: u32 = 0x100;

/// The late fragment-test pipeline stage.
pub const PIPELINE_STAGE_LATE_FRAGMENT_TESTS: u32 = 0x200;

/// Color-attachment write access.
pub const ACCESS_COLOR_ATTACHMENT_WRITE: u32 = 0x100;

/// Depth/stencil-attachment write access.
pub const ACCESS_DEPTH_STENCIL_ATTACHMENT_WRITE: u32 = 0x400;

/// One attachment of the pass: format, sampling, load/store behavior
/// and the layouts it enters and leaves the pass in.
#[derive(Debug, Clone, Copy, PartialEq, Eq, Structural)]
pub struct VAttachmentDescription {
    pub format: u32,
    pub samples: u32,
    pub load_op: u32,
    pub store_op: u32,
    pub stencil_load_op: u32,
    pub stencil_store_op: u32,
    pub initial_layout: u32,
    pub final_layout: u32,
}

/// A reference from the subpass to one attachment, with the layout the
/// subpass uses it in.
#[derive(Debug, Clone, Copy, PartialEq, Eq, Structural)]
pub struct VAttachmentReference {
    pub attachment: u32,
    pub layout: u32,
}

/// One execution/memory dependency between subpasses (or outside work).
#[derive(Debug, Clone, Copy, PartialEq, Eq, Structural)]
pub struct VSubpassDependency {
    pub src_subpass: u32,
    pub dst_subpass: u32,
    pub src_stage_mask: u32,
    pub dst_stage_mask: u32,
    pub src_access_mask: u32,
    pub dst_access_mask: u32,
}

/// The whole render pass description the driver-facing layer builds
/// from: the attachment list, the subpass's color and depth references,
/// and the ordering dependencies.
#[derive(Debug, Clone, PartialEq, Eq)]
pub struct VRenderPassDescription {
    pub attachments: Vec<VAttachmentDescription>,
    pub color_attachment_refs: Vec<VAttachmentReference>,
    pub depth_attachment_ref: VAttachmentReference,
    pub dependencies: Vec<VSubpassDependency>,
}

/// Builds the pass description for one color attachment of the given
/// format plus the shared depth attachment: both cleared on load and
/// stored, the color image leaving the pass presentable and the depth
/// image staying a depth attachment; one dependency per attachment
/// orders outside work before the writes of this pass.
pub fn render_pass_description(color_format: u32) -> (r: VRenderPassDescription)
    ensures
        r.attachments@.len() == 2,
        r.attachments@[0] == (VAttachmentDescription {
            format: color_format,
            samples: SAMPLE_COUNT_1,
            load_op: ATTACHMENT_LOAD_OP_CLEAR,
            store_op: ATTACHMENT_STORE_OP_STORE,
            stencil_load_op: ATTACHMENT_LOAD_OP_DONT_CARE,
            stencil_store_op: ATTACHMENT_STORE_OP_DONT_CARE,
            initial_layout: IMAGE_LAYOUT_UNDEFINED,
            final_layout: IMAGE_LAYOUT_PRESENT_SRC,
        }),
        r.attachments@[1] == (VAttachmentDescription {
            format: FORMAT_D32_SFLOAT,
            samples: SAMPLE_COUNT_1,
            load_op: ATTACHMENT_LOAD_OP_CLEAR,
            store_op: ATTACHMENT_STORE_OP_STORE,
            stencil_load_op: ATTACHMENT_LOAD_OP_DONT_CARE,
            stencil_store_op: ATTACHMENT_STORE_OP_DONT_CARE,
            initial_layout: IMAGE_LAYOUT_UNDEFINED,
            final_layout: IMAGE_LAYOUT_DEPTH_STENCIL_ATTACHMENT_OPTIMAL,
        }),
        r.color_attachment_refs@.len() == 1,
        r.color_attachment_refs@[0] == (VAttachmentReference {
            attachment: 0,
            layout: IMAGE_LAYOUT_COLOR_ATTACHMENT_OPTIMAL,
        }),
        r.depth_attachment_ref == (VAttachmentReference {
            attachment: 1,
            layout: IMAGE_LAYOUT_DEPTH_STENCIL_ATTACHMENT_OPTIMAL,
        }),
        r.dependencies@.len() == 2,
        r.dependencies@[0] == (VSubpassDependency {
            src_subpass: SUBPASS_EXTERNAL,
            dst_subpass: 0,
            src_stage_mask: PIPELINE_STAGE_COLOR_ATTACHMENT_OUTPUT,
            dst_stage_mask: PIPELINE_STAGE_COLOR_ATTACHMENT_OUTPUT,
            src_access_mask: 0,
            dst_access_mask: ACCESS_COLOR_ATTACHMENT_WRITE,
        }),
        r.dependencies@[1] == (VSubpassDependency {
            src_subpass: SUBPASS_EXTERNAL,
            dst_subpass: 0,
            src_stage_mask: PIPELINE_STAGE_EARLY_FRAGMENT_TESTS
                | PIPELINE_STAGE_LATE_FRAGMENT_TESTS,
            dst_stage_mask: PIPELINE_STAGE_EARLY_FRAGMENT_TESTS
                | PIPELINE_STAGE_LATE_FRAGMENT_TESTS,
            src_access_mask: 0,
            dst_access_mask: ACCESS_DEPTH_STENCIL_ATTACHMENT_WRITE,
        }),
{
    let color_attachment = VAttachmentDescription {
        format: color_format,
        samples: SAMPLE_COUNT_1,
        load_op: ATTACHMENT_LOAD_OP_CLEAR,
        store_op: ATTACHMENT_STORE_OP_STORE,
        stencil_load_op: ATTACHMENT_LOAD_OP_DONT_CARE,
        stencil_store_op: ATTACHMENT_STORE_OP_DONT_CARE,
        initial_layout: IMAGE_LAYOUT_UNDEFINED,
        final_layout: IMAGE_LAYOUT_PRESENT_SRC,
    };
    let depth_attachment = VAttachmentDescription {
        format: FORMAT_D32_SFLOAT,
        samples: SAMPLE_COUNT_1,
        load_op: ATTACHMENT_LOAD_OP_CLEAR,
        store_op: ATTACHMENT_STORE_OP_STORE,
        stencil_load_op: ATTACHMENT_LOAD_OP_DONT_CARE,
        stencil_store_op: ATTACHMENT_STORE_OP_DONT_CARE,
        initial_layout: IMAGE_LAYOUT_UNDEFINED,
        final_layout: IMAGE_LAYOUT_DEPTH_STENCIL_ATTACHMENT_OPTIMAL,
    };
    let mut attachments: Vec<VAttachmentDescription> = Vec::new();
    attachments.push(color_attachment);
    attachments.push(depth_attachment);

    let mut color_attachment_refs: Vec<VAttachmentReference> = Vec::new();
    color_attachment_refs.push(
        VAttachmentReference { attachment: 0, layout: IMAGE_LAYOUT_COLOR_ATTACHMENT_OPTIMAL },
    );
    let depth_attachment_ref = VAttachmentReference {
        attachment: 1,
        layout: IMAGE_LAYOUT_DEPTH_STENCIL_ATTACHMENT_OPTIMAL,
    };

    let color_dependency = VSubpassDependency {
        src_subpass: SUBPASS_EXTERNAL,
        dst_subpass: 0,
        src_stage_mask: PIPELINE_STAGE_COLOR_ATTACHMENT_OUTPUT,
        dst_stage_mask: PIPELINE_STAGE_COLOR_ATTACHMENT_OUTPUT,
        src_access_mask: 0,
        dst_access_mask: ACCESS_COLOR_ATTACHMENT_WRITE,
    };
    let depth_dependency = VSubpassDependency {
        src_subpass: SUBPASS_EXTERNAL,
        dst_subpass: 0,
        src_stage_mask: PIPELINE_STAGE_EARLY_FRAGMENT_TESTS | PIPELINE_STAGE_LATE_FRAGMENT_TESTS,
        dst_stage_mask: PIPELINE_STAGE_EARLY_FRAGMENT_TESTS | PIPELINE_STAGE_LATE_FRAGMENT_TESTS,
        src_access_mask: 0,
        dst_access_mask: ACCESS_DEPTH_STENCIL_ATTACHMENT_WRITE,
    };
    let mut dependencies: Vec<VSubpassDependency> = Vec::new();
    dependencies.push(color_dependency);
    dependencies.push(depth_dependency);

    VRenderPassDescription { attachments, color_attachment_refs, depth_attachment_ref, dependencies }
}

} // verus!
