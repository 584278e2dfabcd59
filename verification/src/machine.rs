//! The redraw loop's decisions, as a state machine.
//!
//! The unverified shell owns the window, the surface and the device; this
//! module owns every decision the loop makes. The shell hands each operating
//! system event to [`App::step`] and performs the action it gets back:
//! reconfigure the surface, submit one frame, set up the GPU, or nothing.

use vstd::prelude::*;
use crate::color::Color;
use crate::gpu::SurfaceConfig;

verus! {

/// The events the loop acts on.
#[derive(Clone, Copy, Debug, PartialEq, Eq, Structural)]
pub enum LoopEvent {
    /// The window took a new size, in pixels.
    Resized {
        /// The new width.
        width: u32,
        /// The new height.
        height: u32,
    },
    /// The window wants to be drawn again.
    RedrawRequested,
    /// The window was asked to close.
    CloseRequested,
    /// The application came to the foreground.
    Resumed,
    /// Any other event.
    Other,
}

/// Whether the loop keeps waiting for events or ends.
#[derive(Clone, Copy, Debug, PartialEq, Eq, Structural)]
pub enum LoopFlow {
    /// Sleep until the next event.
    Wait,
    /// Leave the loop.
    Exit,
}

/// Everything one frame submits: a pass that clears to a fixed color, then
/// draws the triangle's three vertices once, keeping the result.
#[derive(Clone, Copy, Debug, PartialEq, Eq, Structural)]
pub struct FramePlan {
    /// The color the pass clears to.
    pub clear_color: Color,
    /// First vertex drawn.
    pub vertex_start: u32,
    /// One past the last vertex drawn.
    pub vertex_end: u32,
    /// First instance drawn.
    pub instance_start: u32,
    /// One past the last instance drawn.
    pub instance_end: u32,
    /// Whether the pass's result is kept for presentation.
    pub store: bool,
}

/// The frame every redraw submits: clear to green, draw vertices zero to
/// three of instance zero, keep the result.
pub open spec fn spec_frame_plan() -> FramePlan {
    FramePlan {
        clear_color: Color { r: 0, g: 100, b: 0, a: 100 },
        vertex_start: 0,
        vertex_end: 3,
        instance_start: 0,
        instance_end: 1,
        store: true,
    }
}

/// Builds the frame every redraw submits.
pub fn frame_plan() -> (p: FramePlan)
    ensures
        p == spec_frame_plan(),
{
    FramePlan {
        clear_color: Color::green(),
        vertex_start: 0,
        vertex_end: 3,
        instance_start: 0,
        instance_end: 1,
        store: true,
    }
}

/// What the shell is to do after a step.
#[derive(Clone, Copy, Debug, PartialEq, Eq, Structural)]
pub enum Action {
    /// Configure the surface anew with the state's configuration.
    Reconfigure,
    /// Acquire a frame and submit this plan.
    Render(FramePlan),
    /// Set up the GPU, then report the surface's configuration
    /// through [`App::gpu_ready`].
    SetUpGpu,
    /// Nothing.
    Ignore,
}

/// The loop's state: the surface configuration once the GPU is set up.
pub struct App {
    /// `Some` once the GPU is set up; the surface's current configuration.
    pub surface: Option<SurfaceConfig>,
}

impl App {
    /// A loop that starts with its GPU already set up.
    pub fn with_gpu(config: SurfaceConfig) -> (a: App)
        ensures
            a.surface == Option::Some(config),
    {
        App { surface: Option::Some(config) }
    }

    /// A loop that waits to be resumed before setting up its GPU.
    pub fn without_gpu() -> (a: App)
        ensures
            a.surface is None,
    {
        App { surface: Option::None }
    }

    /// Takes note of a finished GPU setup and the configuration its
    /// surface got.
    pub fn gpu_ready(&mut self, config: SurfaceConfig)
        ensures
            final(self).surface == Option::Some(config),
    {
        self.surface = Option::Some(config);
    }

    /// Decides one event. With the GPU set up: a resize takes the new size
    /// into the configuration and has the surface reconfigured; a redraw
    /// request submits the fixed frame; a close request ends the loop; all
    /// else passes. Without it: resuming sets the GPU up; all else passes.
    /// The loop keeps waiting except on a close request with the GPU set up.
    pub fn step(&mut self, event: LoopEvent) -> (r: (Action, LoopFlow))
        ensures
            old(self).surface matches Option::Some(c) ==> match event {
                LoopEvent::Resized { width, height } => {
                    &&& final(self).surface == Option::Some(
                        SurfaceConfig { width, height, ..c },
                    )
                    &&& r == (Action::Reconfigure, LoopFlow::Wait)
                },
                LoopEvent::RedrawRequested => {
                    &&& final(self).surface == old(self).surface
                    &&& r == (Action::Render(spec_frame_plan()), LoopFlow::Wait)
                },
                LoopEvent::CloseRequested => {
                    &&& final(self).surface == old(self).surface
                    &&& r == (Action::Ignore, LoopFlow::Exit)
                },
                _ => {
                    &&& final(self).surface == old(self).surface
                    &&& r == (Action::Ignore, LoopFlow::Wait)
                },
            },
            old(self).surface is None ==> {
                &&& final(self).surface == old(self).surface
                &&& r == if event is Resumed {
                    (Action::SetUpGpu, LoopFlow::Wait)
                } else {
                    (Action::Ignore, LoopFlow::Wait)
                }
            },
    {
        match &mut self.surface {
            Option::Some(config) => match event {
                LoopEvent::Resized { width, height } => {
                    config.width = width;
                    config.height = height;
                    (Action::Reconfigure, LoopFlow::Wait)
                },
                LoopEvent::RedrawRequested => (
                    Action::Render(frame_plan()),
                    LoopFlow::Wait,
                ),
                LoopEvent::CloseRequested => (Action::Ignore, LoopFlow::Exit),
                _ => (Action::Ignore, LoopFlow::Wait),
            },
            Option::None => {
                if let LoopEvent::Resumed = event {
                    (Action::SetUpGpu, LoopFlow::Wait)
                } else {
                    (Action::Ignore, LoopFlow::Wait)
                }
            },
        }
    }

    /// The surface configuration the shell is to configure with, once the
    /// GPU is set up.
    pub fn surface_config(&self) -> (c: Option<SurfaceConfig>)
        ensures
            c == self.surface,
    {
        self.surface
    }
}

} // verus!
