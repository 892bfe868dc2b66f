use vstd::prelude::*;

use crate::backend::{backend_name, Backend};
use crate::frame::{
    delta_between, frame_delta, pass_for, pass_target, FrameDelta, PassTarget, SurfaceConfig,
    WindowSize,
};

verus! {

/// The application instance: what the frame logic knows of the window and the GPU device.
#[derive(Clone, Copy, Debug, PartialEq, Eq)]
pub struct App {
    /// Current configuration of the presentation surface.
    pub surface: SurfaceConfig,
    /// Size at which the depth buffer and the offscreen color buffer were last made.
    pub targets: WindowSize,
    pub backend: Backend,
    /// Whether the device supports BC (DXT) texture compression.
    pub bc_compression: bool,
    /// Time of the previous redraw tick, in nanoseconds of a monotonic clock.
    pub last_frame: Option<u64>,
}

impl App {
    /// The render targets always have the surface's size.
    pub open spec fn wf(self) -> bool {
        self.targets == self.surface.extent()
    }
}

/// Where the run loop stands.
#[derive(Clone, Copy, Debug, PartialEq, Eq)]
pub enum Stage {
    /// Between ticks: platform events are handled.
    Running,
    /// A redraw tick has asked the host's idle callback and waits for its answer.
    AwaitingIdle,
    /// A redraw tick has asked for the next surface texture and waits for it.
    AwaitingFrame,
    /// Termination was requested; only the loop's shutdown is still handled.
    Terminating,
    /// The exiting callback ran and the application instance is gone.
    Released,
}

/// What the driver hands the lifecycle: a platform event, what the secondary
/// input source reported, or the outcome of an effect it was asked to perform.
#[derive(Clone, Copy, Debug, PartialEq, Eq)]
pub enum Input {
    /// The secondary input source asked to quit.
    SecondaryQuit,
    CloseRequested,
    Resized(WindowSize),
    Moved(i32, i32),
    /// All pending platform events of this iteration were delivered.
    EventsCleared,
    /// A redraw is due; the argument is the time now, in nanoseconds of a monotonic clock.
    RedrawRequested(u64),
    /// Answer of the host's idle callback: `true` to keep running.
    IdleAnswered(bool),
    /// Whether the next surface texture could be acquired.
    FrameAcquired(bool),
    /// Any other platform event (input and the like).
    Other,
    /// The platform loop is shutting down.
    LoopDestroyed,
}

/// An effect for the driver to perform, in the order given.
#[derive(Clone, Copy, Debug, PartialEq, Eq)]
pub enum Action {
    /// Host callback: the application is launched.
    NotifyLaunched,
    /// Host callback: the window has this size.
    NotifyResized(WindowSize),
    /// Host callback: the window moved to this position.
    NotifyMoved(i32, i32),
    /// Reconfigure the presentation surface.
    ConfigureSurface(SurfaceConfig),
    /// Make the depth buffer and the offscreen color buffer anew at this size.
    RecreateTargets(WindowSize),
    /// Ask the window for a redraw.
    RequestRedraw,
    /// Advance the UI overlay's clock and prepare its frame.
    PrepareUi(FrameDelta),
    /// Host callback: idle, with the frame's delta; answer with `Input::IdleAnswered`.
    CallIdle(FrameDelta),
    /// Acquire the next surface texture; answer with `Input::FrameAcquired`.
    AcquireFrame,
    /// Log that no surface texture could be had this tick.
    WarnAcquireFailed,
    /// Host callback: draw the scene.
    CallDraw,
    /// Record the frame's render pass: clear, scene, then UI overlay.
    RecordPass(PassTarget),
    /// Submit the recorded commands and present the surface texture.
    SubmitPresent,
    /// Host callback: the frame was presented.
    CallPostDraw,
    /// Hand the platform event to the UI overlay for its input bookkeeping.
    ForwardToUi,
    /// Ask the platform loop to exit.
    StopLoop,
    /// Host callback: the application is exiting.
    NotifyExiting,
    /// Drop the window, the GPU device and the other parts of the instance.
    Release,
}

/// The explicitly owned context of the run loop: its stage and the
/// application instance, present from launch until release.
#[derive(Clone, Copy, Debug, PartialEq, Eq)]
pub struct Lifecycle {
    pub stage: Stage,
    pub app: Option<App>,
}

impl Lifecycle {
    pub open spec fn wf(self) -> bool {
        &&& (self.stage == Stage::Released <==> self.app is None)
        &&& (self.app matches Some(a) ==> a.wf())
    }

    /// The live instance at another stage.
    pub open spec fn with(stage: Stage, app: App) -> Lifecycle {
        Lifecycle { stage, app: Some(app) }
    }
}

/// A resize: the surface is reconfigured, the render targets are made anew,
/// then the host is told, all at the new size; the stage stays as it was.
pub open spec fn on_resize(stage: Stage, app: App, size: WindowSize) -> (Lifecycle, Seq<Action>) {
    let surface = app.surface.at_size(size);
    (
        Lifecycle::with(stage, App { surface, targets: size, ..app }),
        seq![
            Action::ConfigureSurface(surface),
            Action::RecreateTargets(size),
            Action::NotifyResized(size),
            Action::ForwardToUi,
        ],
    )
}

/// Handling of a platform event between ticks.
pub open spec fn on_event(app: App, i: Input) -> (Lifecycle, Seq<Action>) {
    match i {
        Input::SecondaryQuit => (Lifecycle::with(Stage::Terminating, app), seq![Action::StopLoop]),
        Input::CloseRequested => (
            Lifecycle::with(Stage::Terminating, app),
            seq![Action::StopLoop, Action::ForwardToUi],
        ),
        Input::Resized(size) => on_resize(Stage::Running, app, size),
        Input::Moved(x, y) => (
            Lifecycle::with(Stage::Running, app),
            seq![Action::NotifyMoved(x, y), Action::ForwardToUi],
        ),
        Input::EventsCleared => (
            Lifecycle::with(Stage::Running, app),
            seq![Action::RequestRedraw, Action::ForwardToUi],
        ),
        Input::RedrawRequested(now) => {
            let d = delta_between(app.last_frame, now);
            (
                Lifecycle::with(Stage::AwaitingIdle, App { last_frame: Some(now), ..app }),
                seq![Action::PrepareUi(d), Action::CallIdle(d)],
            )
        },
        Input::Other => (Lifecycle::with(Stage::Running, app), seq![Action::ForwardToUi]),
        _ => (Lifecycle::with(Stage::Running, app), seq![]),
    }
}

/// The idle callback answered `go` during a redraw tick.
pub open spec fn on_idle(app: App, go: bool) -> (Lifecycle, Seq<Action>) {
    if go {
        (Lifecycle::with(Stage::AwaitingFrame, app), seq![Action::AcquireFrame])
    } else {
        (Lifecycle::with(Stage::Terminating, app), seq![Action::StopLoop, Action::ForwardToUi])
    }
}

/// The surface texture was (`ok`) or was not acquired during a redraw tick.
pub open spec fn on_acquired(app: App, ok: bool) -> (Lifecycle, Seq<Action>) {
    if ok {
        (
            Lifecycle::with(Stage::Running, app),
            seq![
                Action::CallDraw,
                Action::RecordPass(pass_for(app.surface, app.targets)),
                Action::SubmitPresent,
                Action::CallPostDraw,
                Action::ForwardToUi,
            ],
        )
    } else {
        (Lifecycle::with(Stage::Running, app), seq![Action::WarnAcquireFailed, Action::ForwardToUi])
    }
}

/// The state after input `i` and the effects it calls for.
/// Once released, nothing happens any more; the loop's shutdown releases a
/// live instance from any stage; while a redraw tick waits for an answer,
/// only that answer and resizes are taken, so that the frame is recorded at
/// the newest size; once termination was requested, nothing else is.
pub open spec fn next(s: Lifecycle, i: Input) -> (Lifecycle, Seq<Action>) {
    match s.app {
        None => (s, seq![]),
        Some(app) => {
            if i is LoopDestroyed {
                (
                    Lifecycle { stage: Stage::Released, app: None },
                    seq![Action::NotifyExiting, Action::Release],
                )
            } else {
                match (s.stage, i) {
                    (Stage::Running, _) => on_event(app, i),
                    (Stage::AwaitingIdle, Input::IdleAnswered(go)) => on_idle(app, go),
                    (Stage::AwaitingFrame, Input::FrameAcquired(ok)) => on_acquired(app, ok),
                    (Stage::AwaitingIdle, Input::Resized(size)) => on_resize(s.stage, app, size),
                    (Stage::AwaitingFrame, Input::Resized(size)) => on_resize(s.stage, app, size),
                    _ => (s, seq![]),
                }
            }
        },
    }
}

/// The state and the effects after a whole sequence of inputs.
pub open spec fn run(s: Lifecycle, ins: Seq<Input>) -> (Lifecycle, Seq<Action>)
    decreases ins.len(),
{
    if ins.len() == 0 {
        (s, seq![])
    } else {
        let (s1, first) = next(s, ins[0]);
        let (s2, rest) = run(s1, ins.drop_first());
        (s2, first + rest)
    }
}

impl Lifecycle {
    /// Takes over a freshly made window and GPU device whose surface is
    /// configured at `size`; the host is told of the launch, then of the size.
    pub fn launch(size: WindowSize, msaa_samples: u32, backend: Backend, bc_compression: bool) -> (r: (
        Lifecycle,
        Vec<Action>,
    ))
        ensures
            r.0.wf(),
            r.0.stage == Stage::Running,
            r.0.app == Some(
                App {
                    surface: SurfaceConfig { width: size.width, height: size.height, msaa_samples },
                    targets: size,
                    backend,
                    bc_compression,
                    last_frame: None,
                },
            ),
            r.1@ == seq![Action::NotifyLaunched, Action::NotifyResized(size)],
    {
        let app = App {
            surface: SurfaceConfig { width: size.width, height: size.height, msaa_samples },
            targets: size,
            backend,
            bc_compression,
            last_frame: None,
        };
        let mut acts: Vec<Action> = Vec::new();
        acts.push(Action::NotifyLaunched);
        acts.push(Action::NotifyResized(size));
        assert(acts@ =~= seq![Action::NotifyLaunched, Action::NotifyResized(size)]);
        (Lifecycle { stage: Stage::Running, app: Some(app) }, acts)
    }

    /// Takes one input and returns the effects that it calls for, in order.
    pub fn step(&mut self, input: Input) -> (r: Vec<Action>)
        requires
            old(self).wf(),
        ensures
            final(self).wf(),
            (*final(self), r@) == next(*old(self), input),
    {
        let app = match self.app {
            None => return Vec::new(),
            Some(a) => a,
        };
        let mut acts: Vec<Action> = Vec::new();
        if let Input::LoopDestroyed = input {
            self.stage = Stage::Released;
            self.app = None;
            acts.push(Action::NotifyExiting);
            acts.push(Action::Release);
            assert(acts@ =~= seq![Action::NotifyExiting, Action::Release]);
            return acts;
        }
        match (self.stage, input) {
            (Stage::Running, _) => {
                self.handle_event(app, input, &mut acts);
            },
            (Stage::AwaitingIdle, Input::IdleAnswered(go)) => {
                if go {
                    self.stage = Stage::AwaitingFrame;
                    acts.push(Action::AcquireFrame);
                    assert(acts@ =~= seq![Action::AcquireFrame]);
                } else {
                    self.stage = Stage::Terminating;
                    acts.push(Action::StopLoop);
                    acts.push(Action::ForwardToUi);
                    assert(acts@ =~= seq![Action::StopLoop, Action::ForwardToUi]);
                }
            },
            (Stage::AwaitingIdle, Input::Resized(size)) => {
                self.apply_resize(app, size, &mut acts);
            },
            (Stage::AwaitingFrame, Input::Resized(size)) => {
                self.apply_resize(app, size, &mut acts);
            },
            (Stage::AwaitingFrame, Input::FrameAcquired(ok)) => {
                self.stage = Stage::Running;
                if ok {
                    let pass = pass_target(&app.surface, app.targets);
                    acts.push(Action::CallDraw);
                    acts.push(Action::RecordPass(pass));
                    acts.push(Action::SubmitPresent);
                    acts.push(Action::CallPostDraw);
                    acts.push(Action::ForwardToUi);
                    assert(acts@ =~= on_acquired(app, ok).1);
                } else {
                    acts.push(Action::WarnAcquireFailed);
                    acts.push(Action::ForwardToUi);
                    assert(acts@ =~= on_acquired(app, ok).1);
                }
            },
            _ => {},
        }
        acts
    }

    fn apply_resize(&mut self, app: App, size: WindowSize, acts: &mut Vec<Action>)
        requires
            old(self).app == Some(app),
            old(acts)@.len() == 0,
        ensures
            (*final(self), final(acts)@) == on_resize(old(self).stage, app, size),
    {
        let surface = app.surface.resized(size);
        self.app = Some(App { surface, targets: size, ..app });
        acts.push(Action::ConfigureSurface(surface));
        acts.push(Action::RecreateTargets(size));
        acts.push(Action::NotifyResized(size));
        acts.push(Action::ForwardToUi);
        assert(acts@ =~= on_resize(old(self).stage, app, size).1);
    }

    /// A platform event between ticks.
    fn handle_event(&mut self, app: App, input: Input, acts: &mut Vec<Action>)
        requires
            old(self).stage == Stage::Running,
            old(self).app == Some(app),
            app.wf(),
            old(acts)@.len() == 0,
            !(input is LoopDestroyed),
        ensures
            (*final(self), final(acts)@) == on_event(app, input),
    {
        match input {
            Input::SecondaryQuit => {
                self.stage = Stage::Terminating;
                acts.push(Action::StopLoop);
            },
            Input::CloseRequested => {
                self.stage = Stage::Terminating;
                acts.push(Action::StopLoop);
                acts.push(Action::ForwardToUi);
            },
            Input::Resized(size) => {
                self.apply_resize(app, size, acts);
            },
            Input::Moved(x, y) => {
                acts.push(Action::NotifyMoved(x, y));
                acts.push(Action::ForwardToUi);
            },
            Input::EventsCleared => {
                acts.push(Action::RequestRedraw);
                acts.push(Action::ForwardToUi);
            },
            Input::RedrawRequested(now) => {
                let d = frame_delta(app.last_frame, now);
                self.stage = Stage::AwaitingIdle;
                self.app = Some(App { last_frame: Some(now), ..app });
                acts.push(Action::PrepareUi(d));
                acts.push(Action::CallIdle(d));
            },
            Input::Other => {
                acts.push(Action::ForwardToUi);
            },
            _ => {},
        }
        assert(acts@ =~= on_event(app, input).1);
    }

    /// Whether the application instance exists.
    pub fn is_live(&self) -> (r: bool)
        ensures
            r == self.app is Some,
    {
        self.app.is_some()
    }

    /// The window's size in pixels. Asking with no instance is a usage error.
    pub fn get_window_size(&self) -> (r: WindowSize)
        requires
            self.app is Some,
        ensures
            r == self.app->0.surface.extent(),
    {
        let a = self.app.unwrap();
        WindowSize { width: a.surface.width, height: a.surface.height }
    }

    /// The graphics backend of the device. Asking with no instance is a usage error.
    pub fn get_backend(&self) -> (r: Backend)
        requires
            self.app is Some,
        ensures
            r == self.app->0.backend,
    {
        self.app.unwrap().backend
    }

    /// The display name of the device's graphics backend. Asking with no
    /// instance is a usage error.
    pub fn get_backend_string(&self) -> (r: &'static str)
        requires
            self.app is Some,
        ensures
            r@ == backend_name(self.app->0.backend),
    {
        self.app.unwrap().backend.name()
    }

    /// Whether the device supports BC (DXT) texture compression. Asking with
    /// no instance is a usage error.
    pub fn get_dxt_compression_supported(&self) -> (r: bool)
        requires
            self.app is Some,
        ensures
            r == self.app->0.bc_compression,
    {
        self.app.unwrap().bc_compression
    }
}

} // verus!
