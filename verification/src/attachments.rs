//! Per-frame attachment descriptors and auxiliary texture descriptions.
//!
//! These are pure constructors: each descriptor is a function of the view
//! handles alone, built fresh every frame and never retained. Texture views
//! are owned by the embedder and named by plain `u32` handles.

use vstd::prelude::*;

use crate::init::IWgpuInit;
use crate::types::{Extent3d, TextureDimension, TextureFormat};
use crate::types::TEXTURE_USAGE_RENDER_ATTACHMENT;

verus! {

/// Whether a pass's output to an attachment is kept after the pass.
#[derive(Clone, Copy, Debug, PartialEq, Eq, Structural)]
pub enum StoreOp {
    Store,
    Discard,
}

/// What a color attachment holds when a pass begins: cleared to opaque
/// black, or loaded from the attachment's previous contents.
#[derive(Clone, Copy, Debug, PartialEq, Eq, Structural)]
pub enum ColorLoadOp {
    ClearToBlack,
    Load,
}

/// What a depth attachment holds when a pass begins: cleared to the far
/// plane (the depth range's maximum), or loaded from the attachment's
/// previous contents.
#[derive(Clone, Copy, Debug, PartialEq, Eq, Structural)]
pub enum DepthLoadOp {
    ClearToFarPlane,
    Load,
}

/// What a stencil attachment holds when a pass begins.
#[derive(Clone, Copy, Debug, PartialEq, Eq, Structural)]
pub enum StencilLoadOp {
    Clear(u32),
    Load,
}

/// Load/store pair for a color attachment.
#[derive(Clone, Copy, Debug, PartialEq, Eq, Structural)]
pub struct ColorOperations {
    pub load: ColorLoadOp,
    pub store: StoreOp,
}

/// Load/store pair for the depth aspect of an attachment.
#[derive(Clone, Copy, Debug, PartialEq, Eq, Structural)]
pub struct DepthOperations {
    pub load: DepthLoadOp,
    pub store: StoreOp,
}

/// Load/store pair for the stencil aspect of an attachment.
#[derive(Clone, Copy, Debug, PartialEq, Eq, Structural)]
pub struct StencilOperations {
    pub load: StencilLoadOp,
    pub store: StoreOp,
}

/// A render pass's color attachment: the view rendered into, an optional
/// multisample resolve target, and the load/store operations.
#[derive(Clone, Copy, Debug, PartialEq, Eq, Structural)]
pub struct RenderPassColorAttachment {
    pub view: u32,
    pub resolve_target: Option<u32>,
    pub ops: ColorOperations,
}

/// A render pass's depth/stencil attachment: the view and the operations of
/// each aspect, absent where the aspect is unused.
#[derive(Clone, Copy, Debug, PartialEq, Eq, Structural)]
pub struct RenderPassDepthStencilAttachment {
    pub view: u32,
    pub depth_ops: Option<DepthOperations>,
    pub stencil_ops: Option<StencilOperations>,
}

/// Description of an auxiliary texture the embedder allocates beside the
/// surface (a multisampled color target or a depth buffer).
#[derive(Clone, Copy, Debug, PartialEq, Eq, Structural)]
pub struct TextureDescriptor {
    pub size: Extent3d,
    pub mip_level_count: u32,
    pub sample_count: u32,
    pub dimension: TextureDimension,
    pub format: TextureFormat,
    pub usage: u32,
}

/// The color attachment a plain pass uses: render into the given view, no
/// resolve target, clear to black, store.
pub open spec fn color_attachment_spec(texture_view: u32) -> RenderPassColorAttachment {
    RenderPassColorAttachment {
        view: texture_view,
        resolve_target: None,
        ops: ColorOperations { load: ColorLoadOp::ClearToBlack, store: StoreOp::Store },
    }
}

/// The color attachment a multisampled pass uses: render into the
/// multisampled view, resolve into the presentable view, clear to black,
/// store.
pub open spec fn msaa_color_attachment_spec(
    texture_view: u32,
    msaa_view: u32,
) -> RenderPassColorAttachment {
    RenderPassColorAttachment {
        view: msaa_view,
        resolve_target: Some(texture_view),
        ops: ColorOperations { load: ColorLoadOp::ClearToBlack, store: StoreOp::Store },
    }
}

/// The depth/stencil attachment a depth-tested pass uses: clear the depth
/// aspect to the far plane and store it; the stencil aspect is unused.
pub open spec fn depth_stencil_attachment_spec(
    depth_view: u32,
) -> RenderPassDepthStencilAttachment {
    RenderPassDepthStencilAttachment {
        view: depth_view,
        depth_ops: Some(DepthOperations { load: DepthLoadOp::ClearToFarPlane, store: StoreOp::Store }),
        stencil_ops: None,
    }
}

/// A clear-to-black, store-after-pass color attachment over the given view.
pub fn create_color_attachment(texture_view: u32) -> (a: RenderPassColorAttachment)
    ensures
        a == color_attachment_spec(texture_view),
{
    RenderPassColorAttachment {
        view: texture_view,
        resolve_target: None,
        ops: ColorOperations { load: ColorLoadOp::ClearToBlack, store: StoreOp::Store },
    }
}

/// A multisampled color attachment: renders into `mssa_view` and resolves
/// into `texture_view`, clearing to black and storing.
pub fn create_msaa_color_attachement(
    texture_view: u32,
    mssa_view: u32,
) -> (a: RenderPassColorAttachment)
    ensures
        a == msaa_color_attachment_spec(texture_view, mssa_view),
{
    RenderPassColorAttachment {
        view: mssa_view,
        resolve_target: Some(texture_view),
        ops: ColorOperations { load: ColorLoadOp::ClearToBlack, store: StoreOp::Store },
    }
}

/// A depth/stencil attachment over the given depth view: depth cleared to
/// the far plane and stored, stencil unused.
pub fn create_depth_stencil_attachment(depth_view: u32) -> (a: RenderPassDepthStencilAttachment)
    ensures
        a == depth_stencil_attachment_spec(depth_view),
{
    RenderPassDepthStencilAttachment {
        view: depth_view,
        depth_ops: Some(
            DepthOperations { load: DepthLoadOp::ClearToFarPlane, store: StoreOp::Store },
        ),
        stencil_ops: None,
    }
}

/// The auxiliary multisampled color texture matching a context: the
/// surface's current size and format, the context's sample count, one mip
/// level, used as a render attachment.
pub open spec fn msaa_texture_descriptor_spec(init: IWgpuInit) -> TextureDescriptor {
    TextureDescriptor {
        size: Extent3d {
            width: init.config.width,
            height: init.config.height,
            depth_or_array_layers: 1,
        },
        mip_level_count: 1,
        sample_count: init.sample_count,
        dimension: TextureDimension::D2,
        format: init.config.format,
        usage: TEXTURE_USAGE_RENDER_ATTACHMENT,
    }
}

/// The depth texture matching a context: the surface's current size, the
/// 24-bit depth format, the context's sample count, one mip level, used as
/// a render attachment.
pub open spec fn depth_texture_descriptor_spec(init: IWgpuInit) -> TextureDescriptor {
    TextureDescriptor {
        size: Extent3d {
            width: init.config.width,
            height: init.config.height,
            depth_or_array_layers: 1,
        },
        mip_level_count: 1,
        sample_count: init.sample_count,
        dimension: TextureDimension::D2,
        format: TextureFormat::Depth24Plus,
        usage: TEXTURE_USAGE_RENDER_ATTACHMENT,
    }
}

/// Describes the multisampled texture whose default view a frame renders
/// into. The embedder creates the texture and its default view from this
/// description, and must recreate both after every resize: a view kept
/// across a resize references the stale dimensions.
pub fn create_msaa_texture_view(init: &IWgpuInit) -> (d: TextureDescriptor)
    ensures
        d == msaa_texture_descriptor_spec(*init),
{
    TextureDescriptor {
        size: Extent3d {
            width: init.config.width,
            height: init.config.height,
            depth_or_array_layers: 1,
        },
        mip_level_count: 1,
        sample_count: init.sample_count,
        dimension: TextureDimension::D2,
        format: init.config.format,
        usage: TEXTURE_USAGE_RENDER_ATTACHMENT,
    }
}

/// Describes the depth texture whose default view a depth-tested pass
/// attaches. As with the multisampled texture, the embedder creates texture
/// and view from this description and recreates both after every resize.
pub fn create_depth_view(init: &IWgpuInit) -> (d: TextureDescriptor)
    ensures
        d == depth_texture_descriptor_spec(*init),
{
    TextureDescriptor {
        size: Extent3d {
            width: init.config.width,
            height: init.config.height,
            depth_or_array_layers: 1,
        },
        mip_level_count: 1,
        sample_count: init.sample_count,
        dimension: TextureDimension::D2,
        format: TextureFormat::Depth24Plus,
        usage: TEXTURE_USAGE_RENDER_ATTACHMENT,
    }
}

/// Attachment construction is pure: each descriptor is a function of the
/// view handles alone, so identical inputs always yield descriptors with
/// identical field values.
pub proof fn lemma_attachment_purity(v1: u32, v2: u32, r1: u32, r2: u32, d1: u32, d2: u32)
    requires
        v1 == v2,
        r1 == r2,
        d1 == d2,
    ensures
        color_attachment_spec(v1) == color_attachment_spec(v2),
        msaa_color_attachment_spec(v1, r1) == msaa_color_attachment_spec(v2, r2),
        depth_stencil_attachment_spec(d1) == depth_stencil_attachment_spec(d2),
{
}

} // verus!
