//! The render-pipeline builder: from a `IRenderPipeline` spec and a context
//! to the full descriptor of a compiled pipeline.
//!
//! Shader modules, pipeline layouts and vertex buffer layouts are owned by
//! the embedder and named by plain `u32` handles; the builder computes every
//! field the GPU binding's pipeline-creation call takes, and the embedder
//! resolves the handles when it makes that call.

use vstd::prelude::*;

use crate::init::IWgpuInit;
use crate::types::{CompareFunction, Face, IndexFormat, PrimitiveTopology, TextureFormat};

verus! {

/// Describes how to build a render pipeline. Defaults are documented on
/// [`IRenderPipeline::default`]; either the combined `shader` or both
/// `vs_shader` and `fs_shader` must be set before building, and so must
/// `pipeline_layout`.
#[derive(Clone, Debug, PartialEq, Eq)]
pub struct IRenderPipeline {
    /// A combined shader module, a convenience default for both stages;
    /// an explicit `vs_shader` or `fs_shader` overrides it for its stage.
    pub shader: Option<u32>,
    /// The vertex-stage shader module.
    pub vs_shader: Option<u32>,
    /// The fragment-stage shader module.
    pub fs_shader: Option<u32>,
    /// The vertex buffer layouts the pipeline reads vertices through.
    pub vertex_buffer_layout: Vec<u32>,
    /// The pipeline layout (bind group layouts and push constants).
    pub pipeline_layout: Option<u32>,
    /// How draw calls assemble primitives.
    pub topology: PrimitiveTopology,
    /// Index width for strip topologies.
    pub strip_index_format: Option<IndexFormat>,
    /// Optional face culling of the built pipeline; absent means no
    /// culling.
    pub cull_mode: Option<Face>,
    /// Whether the pipeline renders against a depth/stencil attachment.
    pub is_depth_stencil: bool,
    /// Entry point of the vertex stage.
    pub vs_entry: String,
    /// Entry point of the fragment stage.
    pub fs_entry: String,
}

/// The fixed-function depth/stencil state of a built pipeline.
#[derive(Clone, Copy, Debug, PartialEq, Eq, Structural)]
pub struct DepthStencilState {
    /// Format of the depth/stencil attachment the pipeline renders against.
    pub format: TextureFormat,
    /// Whether the depth test writes the depth buffer.
    pub depth_write_enabled: bool,
    /// The depth test's comparison.
    pub depth_compare: CompareFunction,
}

/// Every value the GPU binding's pipeline-creation call takes: the embedder
/// resolves the `u32` handles to its own objects and passes the rest
/// through, with the binding's defaults for what is not named here (stencil
/// and bias state, front face, polygon mode).
#[derive(Clone, Debug, PartialEq, Eq)]
pub struct RenderPipelineDescriptor {
    /// Debug label of the pipeline.
    pub label: String,
    /// The pipeline layout handle.
    pub layout: u32,
    /// The vertex-stage module handle.
    pub vertex_module: u32,
    /// The vertex-stage entry point.
    pub vertex_entry: String,
    /// The vertex buffer layout handles.
    pub vertex_buffers: Vec<u32>,
    /// The fragment-stage module handle.
    pub fragment_module: u32,
    /// The fragment-stage entry point.
    pub fragment_entry: String,
    /// The color target's format: the surface format configured at build
    /// time. A pipeline built against one surface format becomes stale if
    /// the surface is later reconfigured to another; rebuilding then is the
    /// caller's responsibility.
    pub target_format: TextureFormat,
    /// How draw calls assemble primitives.
    pub topology: PrimitiveTopology,
    /// Index width for strip topologies.
    pub strip_index_format: Option<IndexFormat>,
    /// Face culling; absent means no culling.
    pub cull_mode: Option<Face>,
    /// The depth/stencil state, present exactly when the spec asked for a
    /// depth/stencil attachment.
    pub depth_stencil: Option<DepthStencilState>,
    /// The context-wide multisample count.
    pub sample_count: u32,
}

/// The module the vertex stage uses: the explicitly set vertex-stage
/// module when there is one, else the combined shader.
pub open spec fn resolved_vs_shader(p: IRenderPipeline) -> Option<u32> {
    if p.vs_shader is Some {
        p.vs_shader
    } else {
        p.shader
    }
}

/// The module the fragment stage uses: the explicitly set fragment-stage
/// module when there is one, else the combined shader.
pub open spec fn resolved_fs_shader(p: IRenderPipeline) -> Option<u32> {
    if p.fs_shader is Some {
        p.fs_shader
    } else {
        p.shader
    }
}

/// The depth/stencil state a build chooses: none without a depth/stencil
/// attachment; with one, the fixed 24-bit depth format, depth writes
/// enabled, and a less-or-equal depth test.
pub open spec fn depth_stencil_state_spec(is_depth_stencil: bool) -> Option<DepthStencilState> {
    if is_depth_stencil {
        Some(
            DepthStencilState {
                format: TextureFormat::Depth24Plus,
                depth_write_enabled: true,
                depth_compare: CompareFunction::LessEqual,
            },
        )
    } else {
        None
    }
}

/// Whether a built pipeline is valid against a context: its color target
/// format must be the format the surface is configured with, and its
/// multisample count the context's. Building couples the pipeline to the
/// configuration current at that moment; the builder does not re-check
/// this later, so after a format-changing reconfigure the caller must
/// rebuild.
pub open spec fn pipeline_matches_surface(d: RenderPipelineDescriptor, ctx: IWgpuInit) -> bool {
    &&& d.target_format == ctx.config.format
    &&& d.sample_count == ctx.sample_count
}

/// A resize never invalidates a built pipeline: it moves only the
/// surface's dimensions, never its format or the context's sample count,
/// so a pipeline valid before the resize is valid after it.
pub proof fn lemma_resize_keeps_pipelines_valid(
    d: RenderPipelineDescriptor,
    before: IWgpuInit,
    after: IWgpuInit,
)
    requires
        pipeline_matches_surface(d, before),
        after.config.format == before.config.format,
        after.sample_count == before.sample_count,
    ensures
        pipeline_matches_surface(d, after),
{
}

/// A spec with only a combined shader set resolves both stages to exactly
/// that shader; an explicitly set stage module overrides it for its stage.
pub proof fn lemma_combined_shader_feeds_both_stages(p: IRenderPipeline, m: u32)
    requires
        p.shader == Some(m),
    ensures
        p.vs_shader is None ==> resolved_vs_shader(p) == Some(m),
        p.fs_shader is None ==> resolved_fs_shader(p) == Some(m),
        p.vs_shader is Some ==> resolved_vs_shader(p) == p.vs_shader,
        p.fs_shader is Some ==> resolved_fs_shader(p) == p.fs_shader,
{
}

/// Without a depth/stencil attachment a build carries no depth/stencil
/// state; with one it carries exactly the fixed state: 24-bit depth,
/// writes enabled, less-or-equal comparison.
pub proof fn lemma_depth_stencil_choice(is_depth_stencil: bool)
    ensures
        !is_depth_stencil ==> depth_stencil_state_spec(is_depth_stencil) is None,
        is_depth_stencil ==> depth_stencil_state_spec(is_depth_stencil) == Some(
            DepthStencilState {
                format: TextureFormat::Depth24Plus,
                depth_write_enabled: true,
                depth_compare: CompareFunction::LessEqual,
            },
        ),
{
}

impl Default for IRenderPipeline {
    /// The defaults: no shaders or layout yet, no vertex
    /// buffers, triangle-list topology, no strip index format, no culling,
    /// a depth/stencil attachment, and the `vs_main`/`fs_main` entry
    /// points.
    fn default() -> (p: IRenderPipeline)
        ensures
            p.shader is None,
            p.vs_shader is None,
            p.fs_shader is None,
            p.vertex_buffer_layout@ == Seq::<u32>::empty(),
            p.pipeline_layout is None,
            p.topology == PrimitiveTopology::TriangleList,
            p.strip_index_format is None,
            p.cull_mode is None,
            p.is_depth_stencil == true,
            p.vs_entry@ == "vs_main"@,
            p.fs_entry@ == "fs_main"@,
    {
        IRenderPipeline {
            shader: None,
            vs_shader: None,
            fs_shader: None,
            vertex_buffer_layout: Vec::new(),
            pipeline_layout: None,
            topology: PrimitiveTopology::TriangleList,
            strip_index_format: None,
            cull_mode: None,
            is_depth_stencil: true,
            vs_entry: String::from_str("vs_main"),
            fs_entry: String::from_str("fs_main"),
        }
    }
}

impl IRenderPipeline {
    /// Builds the pipeline descriptor against a context. A combined
    /// shader, when set, is first written into each stage module the spec
    /// left unset (an explicitly set stage module overrides it); the
    /// descriptor then takes its stages, entry points, layout, vertex
    /// buffers, topology, strip index format and face culling from the
    /// spec, its color target format and multisample count from the
    /// context, and a depth/stencil state exactly when the spec asked for
    /// one. Building without a pipeline layout, or without a shader for
    /// each stage, is a programming error and is ruled out here.
    pub fn new(&mut self, init: &IWgpuInit) -> (d: RenderPipelineDescriptor)
        requires
            old(self).pipeline_layout is Some,
            old(self).shader is Some || (old(self).vs_shader is Some
                && old(self).fs_shader is Some),
        ensures
            final(self).vs_shader == resolved_vs_shader(*old(self)),
            final(self).fs_shader == resolved_fs_shader(*old(self)),
            final(self).shader == old(self).shader,
            final(self).vertex_buffer_layout == old(self).vertex_buffer_layout,
            final(self).pipeline_layout == old(self).pipeline_layout,
            final(self).topology == old(self).topology,
            final(self).strip_index_format == old(self).strip_index_format,
            final(self).cull_mode == old(self).cull_mode,
            final(self).is_depth_stencil == old(self).is_depth_stencil,
            final(self).vs_entry == old(self).vs_entry,
            final(self).fs_entry == old(self).fs_entry,
            d.label@ == "Render Pipeline"@,
            d.layout == old(self).pipeline_layout.unwrap(),
            d.vertex_module == resolved_vs_shader(*old(self)).unwrap(),
            d.vertex_entry@ == old(self).vs_entry@,
            d.vertex_buffers@ == old(self).vertex_buffer_layout@,
            d.fragment_module == resolved_fs_shader(*old(self)).unwrap(),
            d.fragment_entry@ == old(self).fs_entry@,
            d.target_format == init.config.format,
            d.topology == old(self).topology,
            d.strip_index_format == old(self).strip_index_format,
            d.cull_mode == old(self).cull_mode,
            d.depth_stencil == depth_stencil_state_spec(old(self).is_depth_stencil),
            d.sample_count == init.sample_count,
            pipeline_matches_surface(d, *init),
    {
        if self.vs_shader.is_none() {
            self.vs_shader = self.shader;
        }
        if self.fs_shader.is_none() {
            self.fs_shader = self.shader;
        }

        let depth_stencil: Option<DepthStencilState> = if self.is_depth_stencil {
            Some(
                DepthStencilState {
                    format: TextureFormat::Depth24Plus,
                    depth_write_enabled: true,
                    depth_compare: CompareFunction::LessEqual,
                },
            )
        } else {
            None
        };

        let vertex_buffers = self.vertex_buffer_layout.clone();

        RenderPipelineDescriptor {
            label: String::from_str("Render Pipeline"),
            layout: *self.pipeline_layout.as_ref().unwrap(),
            vertex_module: *self.vs_shader.as_ref().unwrap(),
            vertex_entry: self.vs_entry.clone(),
            vertex_buffers,
            fragment_module: *self.fs_shader.as_ref().unwrap(),
            fragment_entry: self.fs_entry.clone(),
            target_format: init.config.format,
            topology: self.topology,
            strip_index_format: self.strip_index_format,
            cull_mode: self.cull_mode,
            depth_stencil,
            sample_count: init.sample_count,
        }
    }
}

/// The topology a command-line argument selects: the three strip and line
/// spellings name their topology, anything else falls back to the default
/// triangle list.
pub open spec fn topology_for_arg(arg: Seq<char>) -> PrimitiveTopology {
    if arg == "triangle-strip"@ {
        PrimitiveTopology::TriangleStrip
    } else if arg == "line-list"@ {
        PrimitiveTopology::LineList
    } else if arg == "line-strip"@ {
        PrimitiveTopology::LineStrip
    } else {
        PrimitiveTopology::TriangleList
    }
}

/// Selects a primitive topology from a positional command-line argument.
pub fn topology_from_arg(arg: &String) -> (t: PrimitiveTopology)
    ensures
        t == topology_for_arg(arg@),
{
    if *arg == String::from_str("triangle-strip") {
        PrimitiveTopology::TriangleStrip
    } else if *arg == String::from_str("line-list") {
        PrimitiveTopology::LineList
    } else if *arg == String::from_str("line-strip") {
        PrimitiveTopology::LineStrip
    } else {
        PrimitiveTopology::TriangleList
    }
}

} // verus!
