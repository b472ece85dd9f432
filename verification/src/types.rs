//! Plain-value models of the GPU API's enumerations and small value types.
//!
//! The library computes surface configurations, pipeline descriptors and
//! attachment descriptors as plain data; the embedder translates these
//! values into the GPU binding's own types when it makes the actual calls.
//! GPU objects themselves (shader modules, pipeline layouts, texture views)
//! are owned by the embedder and named here by plain `u32` handles.

use vstd::prelude::*;

verus! {

/// A window's size in physical pixels.
#[derive(Clone, Copy, Debug, PartialEq, Eq, Structural)]
pub struct PhysicalSize {
    pub width: u32,
    pub height: u32,
}

/// The texture formats the library's policy speaks of: the common
/// presentable surface formats, the depth format used for depth testing,
/// and an escape hatch carrying any other format by its identifier.
#[derive(Clone, Copy, Debug, PartialEq, Eq, Structural)]
pub enum TextureFormat {
    Bgra8Unorm,
    Bgra8UnormSrgb,
    Rgba8Unorm,
    Rgba8UnormSrgb,
    Depth24Plus,
    Other(u32),
}

/// How presented frames are paced.
#[derive(Clone, Copy, Debug, PartialEq, Eq, Structural)]
pub enum PresentMode {
    AutoVsync,
    AutoNoVsync,
    Fifo,
    FifoRelaxed,
    Immediate,
    Mailbox,
}

/// How the surface's alpha channel is composited with the windowing system.
#[derive(Clone, Copy, Debug, PartialEq, Eq, Structural)]
pub enum CompositeAlphaMode {
    Auto,
    Opaque,
    PreMultiplied,
    PostMultiplied,
    Inherit,
}

/// How a draw call assembles vertices into primitives.
#[derive(Clone, Copy, Debug, PartialEq, Eq, Structural)]
pub enum PrimitiveTopology {
    PointList,
    LineList,
    LineStrip,
    TriangleList,
    TriangleStrip,
}

/// The width of indices read from an index buffer for strip topologies.
#[derive(Clone, Copy, Debug, PartialEq, Eq, Structural)]
pub enum IndexFormat {
    Uint16,
    Uint32,
}

/// A triangle face, for culling.
#[derive(Clone, Copy, Debug, PartialEq, Eq, Structural)]
pub enum Face {
    Front,
    Back,
}

/// The comparison applied by a depth or stencil test.
#[derive(Clone, Copy, Debug, PartialEq, Eq, Structural)]
pub enum CompareFunction {
    Never,
    Less,
    Equal,
    LessEqual,
    Greater,
    NotEqual,
    GreaterEqual,
    Always,
}

/// A texture's extent in texels and layers.
#[derive(Clone, Copy, Debug, PartialEq, Eq, Structural)]
pub struct Extent3d {
    pub width: u32,
    pub height: u32,
    pub depth_or_array_layers: u32,
}

/// A texture's dimensionality.
#[derive(Clone, Copy, Debug, PartialEq, Eq, Structural)]
pub enum TextureDimension {
    D1,
    D2,
    D3,
}

/// Texture usage bitmask allowing use as a color or depth/stencil render
/// attachment; the only usage this library's textures and surfaces ask for.
pub const TEXTURE_USAGE_RENDER_ATTACHMENT: u32 = 1u32 << 4;

} // verus!
