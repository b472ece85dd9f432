//! Per-frame decisions: how each surface-acquisition failure is answered,
//! and what a redraw does with an acquired frame.
//!
//! The event loop itself (acquiring the frame, recording and submitting the
//! pass, presenting) runs outside the library; it hands the acquisition's
//! outcome in and carries the returned plan out.

use vstd::prelude::*;

use crate::attachments::{
    color_attachment_spec, create_color_attachment, create_depth_stencil_attachment,
    create_msaa_color_attachement, depth_stencil_attachment_spec, msaa_color_attachment_spec,
    RenderPassColorAttachment, RenderPassDepthStencilAttachment,
};

verus! {

/// The kinds of surface-acquisition failure the frame handler
/// distinguishes.
#[derive(Clone, Copy, Debug, PartialEq, Eq, Structural)]
pub enum SurfaceError {
    /// Acquiring the next frame timed out.
    Timeout,
    /// The surface has changed and no longer matches its configuration.
    Outdated,
    /// The swapchain was lost and must be recreated.
    Lost,
    /// No memory is left to allocate the next frame.
    OutOfMemory,
    /// Any other device error.
    Other,
}

/// What the frame handler does about an acquisition failure.
#[derive(Clone, Copy, Debug, PartialEq, Eq, Structural)]
pub enum SurfaceErrorAction {
    /// Reconfigure the surface with the last known size and carry on.
    Reconfigure,
    /// Log and end the program.
    Exit,
    /// Log a warning and skip this frame.
    SkipFrame,
}

/// The answer to each acquisition failure: a lost or outdated
/// surface is reconfigured and rendering continues; running out of memory,
/// like any other device error, is fatal; a timeout is transient, so the
/// frame is skipped after a warning.
pub open spec fn surface_error_action(e: SurfaceError) -> SurfaceErrorAction {
    match e {
        SurfaceError::Timeout => SurfaceErrorAction::SkipFrame,
        SurfaceError::Outdated => SurfaceErrorAction::Reconfigure,
        SurfaceError::Lost => SurfaceErrorAction::Reconfigure,
        SurfaceError::OutOfMemory => SurfaceErrorAction::Exit,
        SurfaceError::Other => SurfaceErrorAction::Exit,
    }
}

/// Classifies a surface-acquisition failure into the action the frame
/// handler must take.
pub fn classify_surface_error(e: SurfaceError) -> (a: SurfaceErrorAction)
    ensures
        a == surface_error_action(e),
{
    match e {
        SurfaceError::Timeout => SurfaceErrorAction::SkipFrame,
        SurfaceError::Outdated => SurfaceErrorAction::Reconfigure,
        SurfaceError::Lost => SurfaceErrorAction::Reconfigure,
        SurfaceError::OutOfMemory => SurfaceErrorAction::Exit,
        SurfaceError::Other => SurfaceErrorAction::Exit,
    }
}

/// What a redraw does, decided from the acquisition's outcome.
#[derive(Clone, Copy, Debug, PartialEq, Eq, Structural)]
pub enum FramePlan {
    /// Record one render pass with these attachments, submit the recorded
    /// commands once, and present the acquired frame once.
    Render {
        color: RenderPassColorAttachment,
        depth: Option<RenderPassDepthStencilAttachment>,
    },
    /// Reconfigure the surface with the last known size and try again on
    /// the next redraw.
    Reconfigure,
    /// Skip this frame after a warning.
    SkipFrame,
    /// Log the failure and end the program.
    Exit,
}

/// The plan a redraw follows. An acquired frame is rendered in exactly one
/// pass: into the multisampled view with a resolve into the frame's view
/// when one is given, else straight into the frame's view, and against a
/// depth attachment exactly when a depth view is given. A failed
/// acquisition takes the recovery its kind classifies to.
pub open spec fn frame_plan_spec(
    acquired: Result<u32, SurfaceError>,
    msaa_view: Option<u32>,
    depth_view: Option<u32>,
) -> FramePlan {
    match acquired {
        Ok(frame_view) => FramePlan::Render {
            color: match msaa_view {
                Some(m) => msaa_color_attachment_spec(frame_view, m),
                None => color_attachment_spec(frame_view),
            },
            depth: match depth_view {
                Some(d) => Some(depth_stencil_attachment_spec(d)),
                None => None,
            },
        },
        Err(e) => match surface_error_action(e) {
            SurfaceErrorAction::Reconfigure => FramePlan::Reconfigure,
            SurfaceErrorAction::Exit => FramePlan::Exit,
            SurfaceErrorAction::SkipFrame => FramePlan::SkipFrame,
        },
    }
}

/// Decides a redraw from the outcome of acquiring the surface's current
/// frame and from the auxiliary views the example keeps (a multisampled
/// color view when multisampling, a depth view when depth testing).
pub fn plan_frame(
    acquired: Result<u32, SurfaceError>,
    msaa_view: Option<u32>,
    depth_view: Option<u32>,
) -> (plan: FramePlan)
    ensures
        plan == frame_plan_spec(acquired, msaa_view, depth_view),
{
    match acquired {
        Ok(frame_view) => {
            let color = match msaa_view {
                Some(m) => create_msaa_color_attachement(frame_view, m),
                None => create_color_attachment(frame_view),
            };
            let depth = match depth_view {
                Some(d) => Some(create_depth_stencil_attachment(d)),
                None => None,
            };
            FramePlan::Render { color, depth }
        },
        Err(e) => match classify_surface_error(e) {
            SurfaceErrorAction::Reconfigure => FramePlan::Reconfigure,
            SurfaceErrorAction::Exit => FramePlan::Exit,
            SurfaceErrorAction::SkipFrame => FramePlan::SkipFrame,
        },
    }
}

} // verus!
