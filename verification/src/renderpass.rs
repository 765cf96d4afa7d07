//! The render pass: one colour attachment and one depth attachment, drawn
//! to in a single subpass.

use crate::flags::{
    ACCESS_COLOR_ATTACHMENT_READ, ACCESS_COLOR_ATTACHMENT_WRITE, ACCESS_NONE,
    STAGE_COLOR_ATTACHMENT_OUTPUT,
};
use crate::swapchain::{format_chosen, ChannelType, SurfaceFormat, Swapchain};
use crate::texture::Layout;
use vstd::prelude::*;

verus! {

/// What happens to an attachment when a pass begins.
#[derive(Clone, Copy, Debug, PartialEq, Eq, Structural)]
pub enum AttachmentLoadOp {
    Load,
    Clear,
    DontCare,
}

/// What happens to an attachment when a pass ends.
#[derive(Clone, Copy, Debug, PartialEq, Eq, Structural)]
pub enum AttachmentStoreOp {
    Store,
    DontCare,
}

/// What happens to an attachment at both ends of a pass.
#[derive(Clone, Copy, Debug, PartialEq, Eq, Structural)]
pub struct AttachmentOps {
    pub load: AttachmentLoadOp,
    pub store: AttachmentStoreOp,
}

/// The format of an attachment.
#[derive(Clone, Copy, Debug, PartialEq, Eq, Structural)]
pub enum AttachmentFormat {
    /// The format chosen for the surface.
    Surface(SurfaceFormat),
    /// The format of the swapchain's depth texture.
    Depth,
}

/// An image a pass draws to, and the layouts it enters and leaves the pass
/// in.
#[derive(Clone, Copy, Debug, PartialEq, Eq, Structural)]
pub struct Attachment {
    pub format: AttachmentFormat,
    pub samples: u8,
    pub ops: AttachmentOps,
    pub stencil_ops: AttachmentOps,
    pub initial_layout: Layout,
    pub final_layout: Layout,
}

/// One side of a dependency between subpasses.
#[derive(Clone, Copy, Debug, PartialEq, Eq, Structural)]
pub enum SubpassRef {
    /// What was submitted outside the render pass.
    External,
    /// The subpass with this index.
    Pass(usize),
}

/// What one subpass waits for in another.
#[derive(Clone, Copy, Debug, PartialEq, Eq, Structural)]
pub struct SubpassDependency {
    pub src_pass: SubpassRef,
    pub dst_pass: SubpassRef,
    pub src_stage: u32,
    pub dst_stage: u32,
    pub src_access: u32,
    pub dst_access: u32,
}

/// An attachment of a pass, by its index, and the layout a subpass uses it
/// in.
#[derive(Clone, Copy, Debug, PartialEq, Eq, Structural)]
pub struct AttachmentRef {
    pub index: usize,
    pub layout: Layout,
}

/// The attachments a subpass uses.
#[derive(Clone, Copy, Debug, PartialEq, Eq, Structural)]
pub struct SubpassDesc {
    pub color: AttachmentRef,
    pub depth_stencil: AttachmentRef,
}

/// The description a render pass is created from. The colour attachment has
/// index 0, the depth attachment index 1.
#[derive(Clone, Copy, Debug, PartialEq, Eq, Structural)]
pub struct RenderPass {
    pub color_attachment: Attachment,
    pub depth_attachment: Attachment,
    pub subpass: SubpassDesc,
    pub dependency: SubpassDependency,
}

/// The render pass that draws to a surface of the given format: colour is
/// cleared, kept and handed to presentation; depth is cleared and dropped;
/// stencil is ignored. The subpass waits for earlier colour output.
pub open spec fn render_pass(format: SurfaceFormat) -> RenderPass {
    RenderPass {
        color_attachment: Attachment {
            format: AttachmentFormat::Surface(format),
            samples: 1,
            ops: AttachmentOps { load: AttachmentLoadOp::Clear, store: AttachmentStoreOp::Store },
            stencil_ops: AttachmentOps {
                load: AttachmentLoadOp::DontCare,
                store: AttachmentStoreOp::DontCare,
            },
            initial_layout: Layout::Undefined,
            final_layout: Layout::Present,
        },
        depth_attachment: Attachment {
            format: AttachmentFormat::Depth,
            samples: 1,
            ops: AttachmentOps {
                load: AttachmentLoadOp::Clear,
                store: AttachmentStoreOp::DontCare,
            },
            stencil_ops: AttachmentOps {
                load: AttachmentLoadOp::DontCare,
                store: AttachmentStoreOp::DontCare,
            },
            initial_layout: Layout::Undefined,
            final_layout: Layout::DepthStencilAttachmentOptimal,
        },
        subpass: SubpassDesc {
            color: AttachmentRef { index: 0, layout: Layout::ColorAttachmentOptimal },
            depth_stencil: AttachmentRef { index: 1, layout: Layout::DepthStencilAttachmentOptimal },
        },
        dependency: SubpassDependency {
            src_pass: SubpassRef::External,
            dst_pass: SubpassRef::Pass(0),
            src_stage: STAGE_COLOR_ATTACHMENT_OUTPUT,
            dst_stage: STAGE_COLOR_ATTACHMENT_OUTPUT,
            src_access: ACCESS_NONE,
            dst_access: ACCESS_COLOR_ATTACHMENT_READ | ACCESS_COLOR_ATTACHMENT_WRITE,
        },
    }
}

impl RenderPass {
    /// Describes the render pass for a surface that lists formats with the
    /// channel types `formats`. Nothing is returned where the surface lists
    /// formats and none is sRGB.
    pub fn create(formats: Option<&[ChannelType]>) -> (r: Option<RenderPass>)
        ensures
            match r {
                Some(pass) => exists|format: SurfaceFormat|
                    #![auto]
                    format_chosen(formats, Some(format)) && pass == render_pass(format),
                None => format_chosen(formats, None),
            },
    {
        let format = match Swapchain::surface_format(formats) {
            Some(format) => format,
            None => {
                return None;
            },
        };
        let dont_care = AttachmentOps {
            load: AttachmentLoadOp::DontCare,
            store: AttachmentStoreOp::DontCare,
        };
        let color_attachment = Attachment {
            format: AttachmentFormat::Surface(format),
            samples: 1,
            ops: AttachmentOps { load: AttachmentLoadOp::Clear, store: AttachmentStoreOp::Store },
            stencil_ops: dont_care,
            initial_layout: Layout::Undefined,
            final_layout: Layout::Present,
        };
        let depth_attachment = Attachment {
            format: AttachmentFormat::Depth,
            samples: 1,
            ops: AttachmentOps {
                load: AttachmentLoadOp::Clear,
                store: AttachmentStoreOp::DontCare,
            },
            stencil_ops: dont_care,
            initial_layout: Layout::Undefined,
            final_layout: Layout::DepthStencilAttachmentOptimal,
        };
        let subpass = SubpassDesc {
            color: AttachmentRef { index: 0, layout: Layout::ColorAttachmentOptimal },
            depth_stencil: AttachmentRef { index: 1, layout: Layout::DepthStencilAttachmentOptimal },
        };
        let dependency = SubpassDependency {
            src_pass: SubpassRef::External,
            dst_pass: SubpassRef::Pass(0),
            src_stage: STAGE_COLOR_ATTACHMENT_OUTPUT,
            dst_stage: STAGE_COLOR_ATTACHMENT_OUTPUT,
            src_access: ACCESS_NONE,
            dst_access: ACCESS_COLOR_ATTACHMENT_READ | ACCESS_COLOR_ATTACHMENT_WRITE,
        };
        let pass = RenderPass { color_attachment, depth_attachment, subpass, dependency };
        assert(format_chosen(formats, Some(format)) && pass == render_pass(format));
        Some(pass)
    }

    /// The index of the subpass that pipelines of this pass draw in.
    pub fn make_subpass(&self) -> (index: usize)
        ensures
            index == 0,
    {
        0
    }
}

} // verus!
