//! Bootstrap helpers for a GPU-rendered window: the surface configuration
//! and its resize discipline, a render-pipeline builder, per-frame
//! attachment descriptors, and the per-frame recovery decisions.
//!
//! Everything here is plain data and verified logic. The embedder owns the
//! GPU objects (instance, surface, device, queue, shader modules, texture
//! views), names them by plain handles, and translates the descriptors this
//! library computes into the GPU binding's calls.

pub mod attachments;
pub mod frame;
pub mod init;
pub mod pipeline;
pub mod types;

pub use attachments::create_color_attachment;
pub use attachments::create_depth_stencil_attachment;
pub use attachments::create_depth_view;
pub use attachments::create_msaa_color_attachement;
pub use attachments::create_msaa_texture_view;
pub use init::IWgpuInit;
pub use init::SurfaceConfiguration;
pub use pipeline::IRenderPipeline;
pub use pipeline::RenderPipelineDescriptor;
