use wgpu_helpers::attachments::{
    create_color_attachment, create_depth_stencil_attachment, create_depth_view,
    create_msaa_color_attachement, create_msaa_texture_view, ColorLoadOp, DepthLoadOp,
    DepthOperations, StoreOp,
};
use wgpu_helpers::frame::{
    classify_surface_error, plan_frame, FramePlan, SurfaceError, SurfaceErrorAction,
};
use wgpu_helpers::init::IWgpuInit;
use wgpu_helpers::pipeline::{topology_from_arg, IRenderPipeline};
use wgpu_helpers::types::{
    CompareFunction, CompositeAlphaMode, Face, PhysicalSize, PresentMode, PrimitiveTopology,
    TextureDimension, TextureFormat, TEXTURE_USAGE_RENDER_ATTACHMENT,
};

fn context_800_600(sample_count: u32) -> IWgpuInit {
    let formats = vec![TextureFormat::Bgra8UnormSrgb, TextureFormat::Bgra8Unorm];
    let alpha_modes = vec![CompositeAlphaMode::Opaque, CompositeAlphaMode::Auto];
    IWgpuInit::new(
        PhysicalSize { width: 800, height: 600 },
        &formats,
        &alpha_modes,
        sample_count,
    )
}

#[test]
fn new_takes_first_capabilities_and_fixed_policy() {
    let ctx = context_800_600(1);
    assert_eq!(ctx.config.format, TextureFormat::Bgra8UnormSrgb);
    assert_eq!(ctx.config.alpha_mode, CompositeAlphaMode::Opaque);
    assert_eq!(ctx.config.present_mode, PresentMode::Fifo);
    assert_eq!(ctx.config.usage, TEXTURE_USAGE_RENDER_ATTACHMENT);
    assert_eq!(ctx.config.desired_maximum_frame_latency, 2);
    assert_eq!(ctx.config.width, 800);
    assert_eq!(ctx.config.height, 600);
    assert_eq!(ctx.size, PhysicalSize { width: 800, height: 600 });
    assert_eq!(ctx.sample_count, 1);
    assert!(ctx.config.view_formats.is_empty());
}

#[test]
fn resize_nonzero_updates_size_and_config() {
    let mut ctx = context_800_600(1);
    let reconfigure = ctx.resize(PhysicalSize { width: 1024, height: 768 });
    assert!(reconfigure);
    assert_eq!(ctx.size, PhysicalSize { width: 1024, height: 768 });
    assert_eq!(ctx.config.width, 1024);
    assert_eq!(ctx.config.height, 768);
    assert_eq!(ctx.config.format, TextureFormat::Bgra8UnormSrgb);
    assert_eq!(ctx.config.present_mode, PresentMode::Fifo);
    assert_eq!(ctx.config.alpha_mode, CompositeAlphaMode::Opaque);
    assert_eq!(ctx.config.desired_maximum_frame_latency, 2);
}

#[test]
fn resize_zero_width_is_a_no_op() {
    let mut ctx = context_800_600(1);
    let before = ctx.clone();
    let reconfigure = ctx.resize(PhysicalSize { width: 0, height: 768 });
    assert!(!reconfigure);
    assert_eq!(ctx, before);
}

#[test]
fn resize_zero_height_is_a_no_op() {
    let mut ctx = context_800_600(1);
    let before = ctx.clone();
    let reconfigure = ctx.resize(PhysicalSize { width: 1024, height: 0 });
    assert!(!reconfigure);
    assert_eq!(ctx, before);
}

#[test]
fn resize_many_times_keeps_latest_nonzero_size() {
    let mut ctx = context_800_600(1);
    assert!(ctx.resize(PhysicalSize { width: 640, height: 480 }));
    assert!(!ctx.resize(PhysicalSize { width: 0, height: 0 }));
    assert!(ctx.resize(PhysicalSize { width: 1920, height: 1080 }));
    assert_eq!(ctx.config.width, 1920);
    assert_eq!(ctx.config.height, 1080);
    assert_eq!(ctx.size, PhysicalSize { width: 1920, height: 1080 });
}

#[test]
fn resize_accepts_the_largest_size() {
    let mut ctx = context_800_600(1);
    assert!(ctx.resize(PhysicalSize { width: u32::MAX, height: u32::MAX }));
    assert_eq!(ctx.config.width, u32::MAX);
    assert_eq!(ctx.config.height, u32::MAX);
    assert_eq!(ctx.size, PhysicalSize { width: u32::MAX, height: u32::MAX });
}

#[test]
fn pipeline_defaults_are_the_stated_ones() {
    let p = IRenderPipeline::default();
    assert_eq!(p.shader, None);
    assert_eq!(p.vs_shader, None);
    assert_eq!(p.fs_shader, None);
    assert!(p.vertex_buffer_layout.is_empty());
    assert_eq!(p.pipeline_layout, None);
    assert_eq!(p.topology, PrimitiveTopology::TriangleList);
    assert_eq!(p.strip_index_format, None);
    assert_eq!(p.cull_mode, None);
    assert!(p.is_depth_stencil);
    assert_eq!(p.vs_entry, "vs_main");
    assert_eq!(p.fs_entry, "fs_main");
}

#[test]
fn combined_shader_feeds_both_stages() {
    let ctx = context_800_600(1);
    let mut p = IRenderPipeline::default();
    p.shader = Some(7);
    p.pipeline_layout = Some(3);
    let d = p.new(&ctx);
    assert_eq!(p.vs_shader, Some(7));
    assert_eq!(p.fs_shader, Some(7));
    assert_eq!(d.vertex_module, 7);
    assert_eq!(d.fragment_module, 7);
}

#[test]
fn separate_stage_shaders_are_kept_without_a_combined_one() {
    let ctx = context_800_600(1);
    let mut p = IRenderPipeline::default();
    p.vs_shader = Some(1);
    p.fs_shader = Some(2);
    p.pipeline_layout = Some(3);
    let d = p.new(&ctx);
    assert_eq!(d.vertex_module, 1);
    assert_eq!(d.fragment_module, 2);
    assert_eq!(p.vs_shader, Some(1));
    assert_eq!(p.fs_shader, Some(2));
}

#[test]
fn explicit_stage_shaders_override_the_combined_one() {
    let ctx = context_800_600(1);
    let mut p = IRenderPipeline::default();
    p.shader = Some(7);
    p.vs_shader = Some(1);
    p.fs_shader = Some(2);
    p.pipeline_layout = Some(3);
    let d = p.new(&ctx);
    assert_eq!(d.vertex_module, 1);
    assert_eq!(d.fragment_module, 2);
    assert_eq!(p.vs_shader, Some(1));
    assert_eq!(p.fs_shader, Some(2));
}

#[test]
fn combined_shader_fills_only_the_unset_stage() {
    let ctx = context_800_600(1);
    let mut p = IRenderPipeline::default();
    p.shader = Some(7);
    p.vs_shader = Some(1);
    p.pipeline_layout = Some(3);
    let d = p.new(&ctx);
    assert_eq!(d.vertex_module, 1);
    assert_eq!(d.fragment_module, 7);
}

#[test]
fn cull_mode_is_passed_through_to_the_descriptor() {
    let ctx = context_800_600(1);
    let mut p = IRenderPipeline::default();
    p.shader = Some(7);
    p.pipeline_layout = Some(3);
    p.cull_mode = Some(Face::Back);
    let d = p.new(&ctx);
    assert_eq!(d.cull_mode, Some(Face::Back));
}

#[test]
fn depth_stencil_false_builds_no_depth_state() {
    let ctx = context_800_600(1);
    let mut p = IRenderPipeline::default();
    p.shader = Some(7);
    p.pipeline_layout = Some(3);
    p.is_depth_stencil = false;
    let d = p.new(&ctx);
    assert_eq!(d.depth_stencil, None);
}

#[test]
fn depth_stencil_true_builds_the_fixed_depth_state() {
    let ctx = context_800_600(1);
    let mut p = IRenderPipeline::default();
    p.shader = Some(7);
    p.pipeline_layout = Some(3);
    let d = p.new(&ctx);
    let ds = d.depth_stencil.expect("a depth/stencil state was asked for");
    assert_eq!(ds.format, TextureFormat::Depth24Plus);
    assert!(ds.depth_write_enabled);
    assert_eq!(ds.depth_compare, CompareFunction::LessEqual);
}

#[test]
fn descriptor_takes_format_and_samples_from_the_context() {
    let ctx = context_800_600(4);
    let mut p = IRenderPipeline::default();
    p.shader = Some(7);
    p.pipeline_layout = Some(3);
    p.topology = PrimitiveTopology::LineStrip;
    let d = p.new(&ctx);
    assert_eq!(d.target_format, TextureFormat::Bgra8UnormSrgb);
    assert_eq!(d.sample_count, 4);
    assert_eq!(d.topology, PrimitiveTopology::LineStrip);
    assert_eq!(d.label, "Render Pipeline");
    assert_eq!(d.layout, 3);
    assert_eq!(d.vertex_entry, "vs_main");
    assert_eq!(d.fragment_entry, "fs_main");
    assert_eq!(d.cull_mode, None);
}

#[test]
fn resize_leaves_a_built_pipeline_valid() {
    let mut ctx = context_800_600(1);
    let mut p = IRenderPipeline::default();
    p.shader = Some(7);
    p.pipeline_layout = Some(3);
    let d = p.new(&ctx);
    assert_eq!(d.target_format, ctx.config.format);
    assert_eq!(d.sample_count, ctx.sample_count);
    ctx.resize(PhysicalSize { width: 1024, height: 768 });
    assert_eq!(d.target_format, ctx.config.format);
    assert_eq!(d.sample_count, ctx.sample_count);
}

#[test]
fn color_attachment_clears_to_black_and_stores() {
    let a = create_color_attachment(5);
    assert_eq!(a.view, 5);
    assert_eq!(a.resolve_target, None);
    assert_eq!(a.ops.load, ColorLoadOp::ClearToBlack);
    assert_eq!(a.ops.store, StoreOp::Store);
}

#[test]
fn msaa_color_attachment_resolves_into_the_frame() {
    let a = create_msaa_color_attachement(5, 9);
    assert_eq!(a.view, 9);
    assert_eq!(a.resolve_target, Some(5));
    assert_eq!(a.ops.load, ColorLoadOp::ClearToBlack);
    assert_eq!(a.ops.store, StoreOp::Store);
}

#[test]
fn depth_stencil_attachment_clears_depth_and_leaves_stencil_unused() {
    let a = create_depth_stencil_attachment(11);
    assert_eq!(a.view, 11);
    assert_eq!(
        a.depth_ops,
        Some(DepthOperations { load: DepthLoadOp::ClearToFarPlane, store: StoreOp::Store })
    );
    assert_eq!(a.stencil_ops, None);
}

#[test]
fn attachment_constructors_are_pure() {
    assert_eq!(create_color_attachment(5), create_color_attachment(5));
    assert_eq!(create_msaa_color_attachement(5, 9), create_msaa_color_attachement(5, 9));
    assert_eq!(create_depth_stencil_attachment(11), create_depth_stencil_attachment(11));
}

#[test]
fn msaa_texture_matches_the_surface() {
    let ctx = context_800_600(4);
    let d = create_msaa_texture_view(&ctx);
    assert_eq!(d.size.width, 800);
    assert_eq!(d.size.height, 600);
    assert_eq!(d.size.depth_or_array_layers, 1);
    assert_eq!(d.mip_level_count, 1);
    assert_eq!(d.sample_count, 4);
    assert_eq!(d.dimension, TextureDimension::D2);
    assert_eq!(d.format, TextureFormat::Bgra8UnormSrgb);
    assert_eq!(d.usage, TEXTURE_USAGE_RENDER_ATTACHMENT);
}

#[test]
fn depth_texture_uses_the_fixed_depth_format() {
    let mut ctx = context_800_600(1);
    ctx.resize(PhysicalSize { width: 1024, height: 768 });
    let d = create_depth_view(&ctx);
    assert_eq!(d.size.width, 1024);
    assert_eq!(d.size.height, 768);
    assert_eq!(d.format, TextureFormat::Depth24Plus);
    assert_eq!(d.sample_count, 1);
    assert_eq!(d.usage, TEXTURE_USAGE_RENDER_ATTACHMENT);
}

#[test]
fn every_failure_kind_takes_its_classified_action() {
    let table = [
        (SurfaceError::Lost, SurfaceErrorAction::Reconfigure),
        (SurfaceError::Outdated, SurfaceErrorAction::Reconfigure),
        (SurfaceError::OutOfMemory, SurfaceErrorAction::Exit),
        (SurfaceError::Other, SurfaceErrorAction::Exit),
        (SurfaceError::Timeout, SurfaceErrorAction::SkipFrame),
    ];
    for (error, action) in table {
        assert_eq!(classify_surface_error(error), action);
    }
}

#[test]
fn failed_acquisition_plans_the_recovery_for_its_kind() {
    assert_eq!(plan_frame(Err(SurfaceError::Lost), None, None), FramePlan::Reconfigure);
    assert_eq!(plan_frame(Err(SurfaceError::Outdated), Some(9), Some(11)), FramePlan::Reconfigure);
    assert_eq!(plan_frame(Err(SurfaceError::OutOfMemory), None, None), FramePlan::Exit);
    assert_eq!(plan_frame(Err(SurfaceError::Other), None, Some(11)), FramePlan::Exit);
    assert_eq!(plan_frame(Err(SurfaceError::Timeout), None, None), FramePlan::SkipFrame);
}

#[test]
fn acquired_frame_plans_one_pass_with_the_given_views() {
    let plan = plan_frame(Ok(5), Some(9), Some(11));
    match plan {
        FramePlan::Render { color, depth } => {
            assert_eq!(color, create_msaa_color_attachement(5, 9));
            assert_eq!(depth, Some(create_depth_stencil_attachment(11)));
        }
        other => panic!("expected a render plan, got {:?}", other),
    }
}

#[test]
fn topology_argument_selects_the_named_variants() {
    assert_eq!(
        topology_from_arg(&String::from("triangle-strip")),
        PrimitiveTopology::TriangleStrip
    );
    assert_eq!(topology_from_arg(&String::from("line-list")), PrimitiveTopology::LineList);
    assert_eq!(topology_from_arg(&String::from("line-strip")), PrimitiveTopology::LineStrip);
    assert_eq!(topology_from_arg(&String::from("triangle")), PrimitiveTopology::TriangleList);
    assert_eq!(topology_from_arg(&String::from("")), PrimitiveTopology::TriangleList);
}
