//! The GPU context's surface configuration and its resize discipline.
//!
//! `IWgpuInit` is the plain-data heart of the bootstrapped context: the
//! swapchain configuration, the last known window size, and the context-wide
//! sample count. The embedder owns the instance, surface, adapter, device
//! and queue beside it, feeds this type the surface's reported capabilities
//! once at startup, and reconfigures the live surface whenever `resize`
//! says so.

use vstd::prelude::*;

use crate::types::{CompositeAlphaMode, PhysicalSize, PresentMode, TextureFormat};
use crate::types::TEXTURE_USAGE_RENDER_ATTACHMENT;

verus! {

/// The swapchain configuration applied to the presentation surface.
#[derive(Clone, Debug, PartialEq, Eq)]
pub struct SurfaceConfiguration {
    /// Usage bitmask the surface's textures are created with.
    pub usage: u32,
    /// Format of the surface's textures.
    pub format: TextureFormat,
    /// Width of the surface in physical pixels.
    pub width: u32,
    /// Height of the surface in physical pixels.
    pub height: u32,
    /// Frame pacing.
    pub present_mode: PresentMode,
    /// Compositing of the surface's alpha channel.
    pub alpha_mode: CompositeAlphaMode,
    /// Additional formats views of the surface's textures may take.
    pub view_formats: Vec<TextureFormat>,
    /// How many frames may be queued for presentation ahead of the GPU.
    pub desired_maximum_frame_latency: u32,
}

/// The plain-data part of a bootstrapped GPU context.
#[derive(Clone, Debug, PartialEq, Eq)]
pub struct IWgpuInit {
    /// The surface configuration currently applied.
    pub config: SurfaceConfiguration,
    /// The last known window size.
    pub size: PhysicalSize,
    /// Context-wide multisample count, applied uniformly to every pipeline
    /// and auxiliary texture built against this context.
    pub sample_count: u32,
}

impl IWgpuInit {
    /// The context's invariant: the surface configuration's dimensions
    /// always match the last known window size.
    pub open spec fn wf(self) -> bool {
        &&& self.config.width == self.size.width
        &&& self.config.height == self.size.height
    }

    /// Builds the initial surface configuration from the window's physical
    /// size and the surface's reported capabilities: the first reported
    /// format and the first reported alpha mode are taken without further
    /// negotiation, presentation is vsynced FIFO, the surface is used as a
    /// render attachment only, and at most two frames may be in flight.
    pub fn new(
        size: PhysicalSize,
        formats: &Vec<TextureFormat>,
        alpha_modes: &Vec<CompositeAlphaMode>,
        sample_count: u32,
    ) -> (init: IWgpuInit)
        requires
            formats@.len() > 0,
            alpha_modes@.len() > 0,
        ensures
            init.wf(),
            init.size == size,
            init.sample_count == sample_count,
            init.config.usage == TEXTURE_USAGE_RENDER_ATTACHMENT,
            init.config.format == formats@[0],
            init.config.width == size.width,
            init.config.height == size.height,
            init.config.present_mode == PresentMode::Fifo,
            init.config.alpha_mode == alpha_modes@[0],
            init.config.view_formats@ == Seq::<TextureFormat>::empty(),
            init.config.desired_maximum_frame_latency == 2,
    {
        let config = SurfaceConfiguration {
            usage: TEXTURE_USAGE_RENDER_ATTACHMENT,
            format: formats[0],
            width: size.width,
            height: size.height,
            present_mode: PresentMode::Fifo,
            alpha_mode: alpha_modes[0],
            view_formats: Vec::new(),
            desired_maximum_frame_latency: 2,
        };
        IWgpuInit { config, size, sample_count }
    }

    /// Applies a window resize. A size with a zero dimension (a minimized
    /// window) leaves the context untouched and asks for nothing; a size
    /// with both dimensions non-zero is stored, the configuration's
    /// dimensions follow it, and every other configuration field keeps its
    /// value. The result says whether the embedder must reconfigure the
    /// live surface with the updated configuration.
    pub fn resize(&mut self, new_size: PhysicalSize) -> (reconfigure: bool)
        ensures
            reconfigure == (new_size.width > 0 && new_size.height > 0),
            old(self).wf() ==> final(self).wf(),
            (new_size.width > 0 && new_size.height > 0) ==> {
                &&& final(self).size == new_size
                &&& final(self).config.width == new_size.width
                &&& final(self).config.height == new_size.height
                &&& final(self).config.usage == old(self).config.usage
                &&& final(self).config.format == old(self).config.format
                &&& final(self).config.present_mode == old(self).config.present_mode
                &&& final(self).config.alpha_mode == old(self).config.alpha_mode
                &&& final(self).config.view_formats == old(self).config.view_formats
                &&& final(self).config.desired_maximum_frame_latency
                    == old(self).config.desired_maximum_frame_latency
                &&& final(self).sample_count == old(self).sample_count
            },
            !(new_size.width > 0 && new_size.height > 0) ==> *final(self) == *old(self),
    {
        if new_size.width > 0 && new_size.height > 0 {
            self.size = new_size;
            self.config.width = new_size.width;
            self.config.height = new_size.height;
            true
        } else {
            false
        }
    }
}

} // verus!
