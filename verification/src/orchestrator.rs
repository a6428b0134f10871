//! The frame orchestrator: a state machine that takes the occurrences of the
//! host's event loop one by one and answers each with the calls that the
//! host is to make, in order, on the surface, the renderer and the model.
//!
//! The orchestrator itself calls nothing. The host performs the calls it is
//! handed, and reports a frame that could not be acquired through
//! [`FrameOrchestrator::frame_failed`]; the calls that were to follow the
//! acquisition are then dropped.

use vstd::prelude::*;
use crate::camera::{Camera, Viewport};
use crate::controller::{InputEvent, Key, ViewportController};
use crate::surface::{FrameError, SurfaceConfig};

verus! {

/// Whether the loop goes on. Once an exit is requested it stays requested.
#[derive(Clone, Copy, Debug, PartialEq, Eq, Structural)]
pub enum LoopState {
    Running,
    ExitRequested,
}

/// An event of the host window.
#[derive(Clone, Copy, Debug, PartialEq, Eq, Structural)]
pub enum WindowEvent {
    CloseRequested,
    Resized { width: u32, height: u32 },
    Input(InputEvent),
}

/// What the host's event loop delivers.
#[derive(Clone, Copy, Debug, PartialEq, Eq, Structural)]
pub enum Occurrence {
    Window(WindowEvent),
    /// The window is to be drawn; `now` is the reading of the host's
    /// monotonic clock, in millionths of a second.
    RedrawRequested { now: u64 },
    /// Every pending event has been delivered.
    AllEventsDrained,
}

/// A new value for a named parameter of the model.
#[derive(Clone, Copy, Debug, PartialEq, Eq)]
pub struct ParamUpdate {
    pub name: &'static str,
    pub x: i64,
    pub y: i64,
}

/// A call that the host is to make.
#[derive(Clone, Copy, Debug, PartialEq, Eq)]
pub enum Action {
    /// Configure the surface anew.
    ConfigureSurface(SurfaceConfig),
    /// Tell the renderer the size of its viewport.
    ResizeRenderer(Viewport),
    /// Ask the window for one redraw.
    RequestRedraw,
    /// Open the scope in which parameters of the model are set.
    BeginParamEdit,
    /// Set a parameter of the model.
    SetParam(ParamUpdate),
    /// Close the scope; the model brings what depends on its parameters up
    /// to date.
    EndParamEdit,
    /// Acquire the frame to draw into. Where this fails, the calls that
    /// follow it are dropped and the failure is reported to the orchestrator.
    AcquireFrame,
    /// Draw the model into the acquired frame, seen through `camera`, at the
    /// size `viewport`.
    Render { viewport: Viewport, camera: Camera },
    /// Present the acquired frame.
    Present,
    /// Report the error that ended the loop.
    ReportFatal(FrameError),
}

/// The orchestrator, with the camera and the controller that it drives.
#[derive(Clone, Copy, Debug, PartialEq, Eq, Structural)]
pub struct FrameOrchestrator {
    pub state: LoopState,
    /// The configuration that the surface was last given.
    pub config: SurfaceConfig,
    /// Whether there is a surface to draw on: not while the window has no
    /// width or no height.
    pub surface_live: bool,
    pub camera: Camera,
    pub controller: ViewportController,
}

/// The parameters of the model that a frame sets, given the time elapsed
/// and the camera. No parameter is driven yet: this is the place where
/// animation enters.
pub open spec fn frame_params(elapsed: u64, camera: Camera) -> Seq<ParamUpdate> {
    Seq::empty()
}

/// The parameters of the model that a frame sets.
pub fn derive_frame_params(elapsed: u64, camera: &Camera) -> (params: Vec<ParamUpdate>)
    ensures
        params@ == frame_params(elapsed, *camera),
{
    Vec::new()
}

/// The calls that set `params` inside one scope.
pub open spec fn param_edit(params: Seq<ParamUpdate>) -> Seq<Action> {
    seq![Action::BeginParamEdit] + Seq::new(params.len(), |i: int| Action::SetParam(params[i]))
        + seq![Action::EndParamEdit]
}

impl FrameOrchestrator {
    /// An orchestrator is well formed when its camera and its controller
    /// are, and when a live surface has a width and a height.
    pub open spec fn wf(self) -> bool {
        &&& self.camera.wf()
        &&& self.controller.wf()
        &&& self.surface_live ==> !self.config.size().degenerate()
    }

    /// The calls that acquire, draw and present one frame; none while there
    /// is no surface to draw on.
    pub open spec fn submission(self) -> Seq<Action> {
        if self.surface_live {
            seq![
                Action::AcquireFrame,
                Action::Render { viewport: self.config.size(), camera: self.camera },
                Action::Present,
            ]
        } else {
            Seq::empty()
        }
    }

    /// The orchestrator after a change of the window's size, with the calls
    /// that the change asks for. A size without width or height suspends
    /// drawing and asks for nothing; any other size is stored, handed to the
    /// surface and the renderer, and followed by one redraw.
    pub open spec fn after_resize(self, width: u32, height: u32) -> (
        FrameOrchestrator,
        Seq<Action>,
    ) {
        if width == 0 || height == 0 {
            (FrameOrchestrator { surface_live: false, ..self }, Seq::empty())
        } else {
            let config = self.config.resized(width, height);
            (
                FrameOrchestrator { config, surface_live: true, ..self },
                seq![
                    Action::ConfigureSurface(config),
                    Action::ResizeRenderer(config.size()),
                    Action::RequestRedraw,
                ],
            )
        }
    }

    /// The orchestrator after one frame at the time `now`, with the calls of
    /// the frame: the clock is advanced, the parameters are set inside their
    /// scope, and the frame is acquired, drawn and presented.
    pub open spec fn after_frame(self, now: u64) -> (FrameOrchestrator, Seq<Action>) {
        let controller = self.controller.clock_after(now);
        let next = FrameOrchestrator { controller, ..self };
        (next, param_edit(frame_params(controller.elapsed, self.camera)) + next.submission())
    }

    /// The orchestrator after one occurrence, with the calls that the host
    /// is to make in answer, in order.
    pub open spec fn after(self, occurrence: Occurrence) -> (FrameOrchestrator, Seq<Action>) {
        match self.state {
            LoopState::ExitRequested => (self, Seq::empty()),
            LoopState::Running => match occurrence {
                Occurrence::Window(WindowEvent::CloseRequested) => (
                    FrameOrchestrator { state: LoopState::ExitRequested, ..self },
                    Seq::empty(),
                ),
                Occurrence::Window(WindowEvent::Resized { width, height }) => self.after_resize(
                    width,
                    height,
                ),
                Occurrence::Window(WindowEvent::Input(event)) => {
                    if event == (InputEvent::KeyDown { key: Key::Escape }) {
                        (FrameOrchestrator { state: LoopState::ExitRequested, ..self }, Seq::empty())
                    } else {
                        let (controller, camera) = self.controller.after_event(self.camera, event);
                        (FrameOrchestrator { controller, camera, ..self }, Seq::empty())
                    }
                },
                Occurrence::RedrawRequested { now } => self.after_frame(now),
                Occurrence::AllEventsDrained => (self, seq![Action::RequestRedraw]),
            },
        }
    }

    /// The orchestrator after a sequence of occurrences, with all the calls
    /// that they were answered with, in order.
    pub open spec fn after_all(self, occurrences: Seq<Occurrence>) -> (
        FrameOrchestrator,
        Seq<Action>,
    )
        decreases occurrences.len(),
    {
        if occurrences.len() == 0 {
            (self, Seq::empty())
        } else {
            let (before, earlier) = self.after_all(occurrences.drop_last());
            let (next, actions) = before.after(occurrences.last());
            (next, earlier + actions)
        }
    }

    /// The orchestrator after the host reports that no frame could be
    /// acquired, with the calls that the host is to make. The loss of the
    /// device ends the loop and is reported; after any other error the
    /// surface is configured anew and the frame is skipped.
    pub open spec fn after_frame_failure(self, error: FrameError) -> (
        FrameOrchestrator,
        Seq<Action>,
    ) {
        match self.state {
            LoopState::ExitRequested => (self, Seq::empty()),
            LoopState::Running => {
                if error.fatal() {
                    (
                        FrameOrchestrator { state: LoopState::ExitRequested, ..self },
                        seq![Action::ReportFatal(error)],
                    )
                } else if self.surface_live {
                    (self, seq![Action::ConfigureSurface(self.config)])
                } else {
                    (self, Seq::empty())
                }
            },
        }
    }

    /// Whether the orchestrator is well formed.
    pub fn is_well_formed(&self) -> (ok: bool)
        ensures
            ok == self.wf(),
    {
        self.camera.is_well_formed() && self.controller.is_well_formed() && (!self.surface_live
            || !self.config.viewport().is_degenerate())
    }

    /// A running orchestrator for a surface that was configured with
    /// `config`. Where `config` has no width or no height there is no
    /// surface to draw on until the window is given a size.
    pub fn new(config: SurfaceConfig, camera: Camera, controller: ViewportController) -> (o:
        FrameOrchestrator)
        requires
            camera.wf(),
            controller.wf(),
        ensures
            o == (FrameOrchestrator {
                state: LoopState::Running,
                config,
                surface_live: !config.size().degenerate(),
                camera,
                controller,
            }),
            o.wf(),
    {
        let live: bool = !config.viewport().is_degenerate();
        FrameOrchestrator { state: LoopState::Running, config, surface_live: live, camera, controller }
    }

    /// Whether an exit has been requested. The host looks once after every
    /// occurrence and stops its loop when this holds.
    pub fn is_exit_requested(&self) -> (exit: bool)
        ensures
            exit == (self.state is ExitRequested),
    {
        match self.state {
            LoopState::ExitRequested => true,
            LoopState::Running => false,
        }
    }

    /// Takes a change of the window's size.
    pub fn resize(&mut self, width: u32, height: u32) -> (actions: Vec<Action>)
        requires
            old(self).wf(),
        ensures
            (*final(self), actions@) == old(self).after_resize(width, height),
            final(self).wf(),
    {
        if width == 0 || height == 0 {
            self.surface_live = false;
            Vec::new()
        } else {
            self.config.width = width;
            self.config.height = height;
            self.surface_live = true;
            let config = self.config;
            vec![
                Action::ConfigureSurface(config),
                Action::ResizeRenderer(config.viewport()),
                Action::RequestRedraw,
            ]
        }
    }

    /// Runs the pipeline of one frame at the time `now`.
    pub fn frame(&mut self, now: u64) -> (actions: Vec<Action>)
        requires
            old(self).wf(),
        ensures
            (*final(self), actions@) == old(self).after_frame(now),
            final(self).wf(),
    {
        let mut camera = self.camera;
        let elapsed: u64 = self.controller.update(&mut camera, now);
        let params = derive_frame_params(elapsed, &camera);
        let mut actions: Vec<Action> = Vec::new();
        actions.push(Action::BeginParamEdit);
        let mut i: usize = 0;
        while i < params.len()
            invariant
                i <= params.len(),
                actions@ =~= seq![Action::BeginParamEdit] + Seq::new(
                    i as nat,
                    |j: int| Action::SetParam(params@[j]),
                ),
            decreases params.len() - i,
        {
            actions.push(Action::SetParam(params[i]));
            i = i + 1;
        }
        actions.push(Action::EndParamEdit);
        if self.surface_live {
            actions.push(Action::AcquireFrame);
            actions.push(Action::Render { viewport: self.config.viewport(), camera });
            actions.push(Action::Present);
        }
        assert(actions@ =~= old(self).after_frame(now).1);
        actions
    }

    /// Takes one occurrence of the host's event loop and returns the calls
    /// that the host is to make in answer, in order.
    ///
    /// A request to close the window and a press of the escape key request
    /// the exit. A change of size is taken at once, so that no later frame
    /// is drawn at an earlier size. Every other event of the window goes to
    /// the controller. A request to redraw runs the pipeline of one frame,
    /// and the end of the pending events asks for the next redraw. Once an
    /// exit is requested nothing changes any more and no call is asked for.
    pub fn step(&mut self, occurrence: &Occurrence) -> (actions: Vec<Action>)
        requires
            old(self).wf(),
        ensures
            (*final(self), actions@) == old(self).after(*occurrence),
            final(self).wf(),
    {
        if self.is_exit_requested() {
            return Vec::new();
        }
        match *occurrence {
            Occurrence::Window(WindowEvent::CloseRequested) => {
                self.state = LoopState::ExitRequested;
                Vec::new()
            },
            Occurrence::Window(WindowEvent::Resized { width, height }) => self.resize(width, height),
            Occurrence::Window(WindowEvent::Input(event)) => {
                let escape: bool = match event {
                    InputEvent::KeyDown { key: Key::Escape } => true,
                    _ => false,
                };
                if escape {
                    self.state = LoopState::ExitRequested;
                } else {
                    let viewport = self.config.viewport();
                    let mut camera = self.camera;
                    self.controller.interact(&event, &mut camera, viewport);
                    self.camera = camera;
                }
                Vec::new()
            },
            Occurrence::RedrawRequested { now } => self.frame(now),
            Occurrence::AllEventsDrained => {
                vec![Action::RequestRedraw]
            },
        }
    }

    /// Takes the report that the frame of the running pipeline could not be
    /// acquired, and returns the calls that the host is to make.
    pub fn frame_failed(&mut self, error: FrameError) -> (actions: Vec<Action>)
        requires
            old(self).wf(),
        ensures
            (*final(self), actions@) == old(self).after_frame_failure(error),
            final(self).wf(),
    {
        if self.is_exit_requested() {
            Vec::new()
        } else if error.is_fatal() {
            self.state = LoopState::ExitRequested;
            vec![Action::ReportFatal(error)]
        } else if self.surface_live {
            vec![Action::ConfigureSurface(self.config)]
        } else {
            Vec::new()
        }
    }
}

} // verus!
