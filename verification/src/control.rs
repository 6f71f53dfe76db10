//! The event loop's decisions: what the program does on each window event
//! and on each render outcome. The surrounding program performs the action
//! — rendering a frame, reconfiguring the surface, exiting — and reports
//! render outcomes back.

use vstd::prelude::*;
use crate::config::SurfaceConfig;

verus! {

/// A window event, as the dispatcher delivers it. Resize events carry the
/// new physical pixel size; `EscapePressed` is the one key the program
/// reacts to; everything else is `Other`.
#[derive(Clone, Copy, PartialEq, Eq, Structural, Debug)]
pub enum WindowEvent {
    CloseRequested,
    EscapePressed,
    Resized { width: u32, height: u32 },
    ScaleFactorChanged { width: u32, height: u32 },
    RedrawRequested,
    Other,
}

/// What a render attempt came to. `SurfaceLost` is recoverable by
/// reconfiguring; `OutOfMemory` is fatal; `Transient` stands for any other
/// error, which is logged and the frame dropped.
#[derive(Clone, Copy, PartialEq, Eq, Structural, Debug)]
pub enum RenderOutcome {
    Completed,
    SurfaceLost,
    OutOfMemory,
    Transient,
}

/// What the loop asks of the surrounding program: render one frame,
/// reconfigure the surface to the given size, exit the loop, or nothing.
#[derive(Clone, Copy, PartialEq, Eq, Structural, Debug)]
pub enum Action {
    Render,
    Reconfigure { width: u32, height: u32 },
    Exit,
    Ignore,
}

/// One input to the loop: a window event, or the outcome the program
/// reports after performing a render.
#[derive(Clone, Copy, PartialEq, Eq, Structural, Debug)]
pub enum Stimulus {
    Window(WindowEvent),
    Rendered(RenderOutcome),
}

/// The loop's state: the surface configuration currently applied, and
/// whether the loop is still running. Once `running` is false nothing
/// further is asked of the program.
#[derive(Clone, Copy, PartialEq, Eq, Structural, Debug)]
pub struct Controller {
    pub config: SurfaceConfig,
    pub running: bool,
}

impl Controller {
    /// What a window event does to the loop: close request and Escape end
    /// it; a resize with both dimensions nonzero stores the size and asks
    /// for a reconfigure; a redraw request asks for a render; everything
    /// else is ignored, as is every event after the loop has ended.
    pub open spec fn on_event_spec(self, event: WindowEvent) -> (Controller, Action) {
        if !self.running {
            (self, Action::Ignore)
        } else {
            match event {
                WindowEvent::CloseRequested => (
                    Controller { running: false, ..self },
                    Action::Exit,
                ),
                WindowEvent::EscapePressed => (
                    Controller { running: false, ..self },
                    Action::Exit,
                ),
                WindowEvent::Resized { width, height } => self.resized_spec(width, height),
                WindowEvent::ScaleFactorChanged { width, height } => self.resized_spec(
                    width,
                    height,
                ),
                WindowEvent::RedrawRequested => (self, Action::Render),
                WindowEvent::Other => (self, Action::Ignore),
            }
        }
    }

    /// The resize part of `on_event_spec`: a zero dimension on either axis
    /// is a no-op; otherwise the configuration takes the new size and the
    /// surface is to be reconfigured with it.
    pub open spec fn resized_spec(self, width: u32, height: u32) -> (Controller, Action) {
        if width > 0 && height > 0 {
            (
                Controller { config: self.config.resize_spec(width, height), ..self },
                Action::Reconfigure { width, height },
            )
        } else {
            (self, Action::Ignore)
        }
    }

    /// What a render outcome does to the loop: a completed frame asks for
    /// nothing; a lost surface asks for one reconfigure with the currently
    /// stored size and the loop goes on; out of memory ends the loop; any
    /// other error is dropped and the loop goes on.
    pub open spec fn after_render_spec(self, outcome: RenderOutcome) -> (Controller, Action) {
        if !self.running {
            (self, Action::Ignore)
        } else {
            match outcome {
                RenderOutcome::Completed => (self, Action::Ignore),
                RenderOutcome::SurfaceLost => (
                    self,
                    Action::Reconfigure { width: self.config.width, height: self.config.height },
                ),
                RenderOutcome::OutOfMemory => (
                    Controller { running: false, ..self },
                    Action::Exit,
                ),
                RenderOutcome::Transient => (self, Action::Ignore),
            }
        }
    }

    /// One step of the loop on any input.
    pub open spec fn step_spec(self, stimulus: Stimulus) -> (Controller, Action) {
        match stimulus {
            Stimulus::Window(event) => self.on_event_spec(event),
            Stimulus::Rendered(outcome) => self.after_render_spec(outcome),
        }
    }

    /// A fresh loop over a just-applied configuration.
    pub fn new(config: SurfaceConfig) -> (controller: Controller)
        ensures
            controller.config == config,
            controller.running,
    {
        Controller { config, running: true }
    }

    /// Reacts to one window event.
    pub fn on_event(&mut self, event: WindowEvent) -> (action: Action)
        ensures
            (*final(self), action) == old(self).on_event_spec(event),
    {
        if !self.running {
            return Action::Ignore;
        }
        match event {
            WindowEvent::CloseRequested => {
                self.running = false;
                Action::Exit
            },
            WindowEvent::EscapePressed => {
                self.running = false;
                Action::Exit
            },
            WindowEvent::Resized { width, height } => {
                let applied = self.config.resize(width, height);
                if applied {
                    Action::Reconfigure { width, height }
                } else {
                    Action::Ignore
                }
            },
            WindowEvent::ScaleFactorChanged { width, height } => {
                let applied = self.config.resize(width, height);
                if applied {
                    Action::Reconfigure { width, height }
                } else {
                    Action::Ignore
                }
            },
            WindowEvent::RedrawRequested => Action::Render,
            WindowEvent::Other => Action::Ignore,
        }
    }

    /// Reacts to the outcome of one render.
    pub fn after_render(&mut self, outcome: RenderOutcome) -> (action: Action)
        ensures
            (*final(self), action) == old(self).after_render_spec(outcome),
    {
        if !self.running {
            return Action::Ignore;
        }
        match outcome {
            RenderOutcome::Completed => Action::Ignore,
            RenderOutcome::SurfaceLost => Action::Reconfigure {
                width: self.config.width,
                height: self.config.height,
            },
            RenderOutcome::OutOfMemory => {
                self.running = false;
                Action::Exit
            },
            RenderOutcome::Transient => Action::Ignore,
        }
    }

    /// Reacts to one input of either kind.
    pub fn step(&mut self, stimulus: Stimulus) -> (action: Action)
        ensures
            (*final(self), action) == old(self).step_spec(stimulus),
    {
        match stimulus {
            Stimulus::Window(event) => self.on_event(event),
            Stimulus::Rendered(outcome) => self.after_render(outcome),
        }
    }

    /// Runs the loop over a whole script of inputs, returning the action
    /// taken on each.
    pub fn drive(&mut self, script: &Vec<Stimulus>) -> (actions: Vec<Action>)
        ensures
            actions@ == run_spec(*old(self), script@),
            *final(self) == state_after(*old(self), script@, script@.len() as int),
    {
        let ghost start = *self;
        let mut actions: Vec<Action> = Vec::new();
        let mut i: usize = 0;
        while i < script.len()
            invariant
                0 <= i <= script@.len(),
                *self == state_after(start, script@, i as int),
                actions@.len() == i,
                forall|j: int| 0 <= j < i ==> actions@[j] == action_at(start, script@, j),
            decreases script@.len() - i,
        {
            let action = self.step(script[i]);
            actions.push(action);
            i = i + 1;
        }
        proof {
            assert(actions@ =~= run_spec(start, script@));
        }
        actions
    }
}

/// The loop's state after its first `k` inputs.
pub open spec fn state_after(controller: Controller, script: Seq<Stimulus>, k: int) -> Controller
    decreases k,
{
    if k <= 0 {
        controller
    } else {
        state_after(controller, script, k - 1).step_spec(script[k - 1]).0
    }
}

/// The action the loop takes on input number `k` of a script.
pub open spec fn action_at(controller: Controller, script: Seq<Stimulus>, k: int) -> Action {
    state_after(controller, script, k).step_spec(script[k]).1
}

/// The actions the loop takes over a whole script of inputs.
pub open spec fn run_spec(controller: Controller, script: Seq<Stimulus>) -> Seq<Action> {
    Seq::new(script.len(), |i: int| action_at(controller, script, i))
}

/// An ended loop reacts to nothing: any input leaves it as it is and the
/// action is `Ignore`.
pub proof fn lemma_stopped_ignores(controller: Controller, stimulus: Stimulus)
    requires
        !controller.running,
    ensures
        controller.step_spec(stimulus).0 == controller,
        controller.step_spec(stimulus).1 == Action::Ignore,
{
}

/// `Exit` is only ever the last word: whenever a step answers `Exit`, the
/// loop is no longer running afterwards.
pub proof fn lemma_exit_stops(controller: Controller, stimulus: Stimulus)
    requires
        controller.step_spec(stimulus).1 == Action::Exit,
    ensures
        !controller.step_spec(stimulus).0.running,
{
}

/// A loop that has stopped by input `m` is still stopped at any later
/// input `n`.
pub proof fn lemma_stays_stopped(controller: Controller, script: Seq<Stimulus>, m: int, n: int)
    requires
        0 <= m <= n,
        !state_after(controller, script, m).running,
    ensures
        !state_after(controller, script, n).running,
    decreases n - m,
{
    if n > m {
        lemma_stays_stopped(controller, script, m, n - 1);
        lemma_stopped_ignores(state_after(controller, script, n - 1), script[n - 1]);
    }
}

/// Once the loop has answered `Exit`, nothing further happens: every later
/// action — in particular, every render and every reconfigure — is
/// `Ignore`, and the state never changes again.
pub proof fn lemma_nothing_after_exit(
    controller: Controller,
    script: Seq<Stimulus>,
    i: int,
    j: int,
)
    requires
        0 <= i < j < script.len(),
        run_spec(controller, script)[i] == Action::Exit,
    ensures
        run_spec(controller, script)[j] == Action::Ignore,
        state_after(controller, script, j) == state_after(controller, script, i + 1),
{
    lemma_exit_stops(state_after(controller, script, i), script[i]);
    lemma_stays_stopped(controller, script, i + 1, j);
    lemma_stopped_ignores(state_after(controller, script, j), script[j]);
    lemma_unchanged_once_stopped(controller, script, i + 1, j);
}

/// A stopped loop's state is frozen: between any two points after the stop
/// the state is the same.
pub proof fn lemma_unchanged_once_stopped(
    controller: Controller,
    script: Seq<Stimulus>,
    m: int,
    n: int,
)
    requires
        0 <= m <= n,
        !state_after(controller, script, m).running,
    ensures
        state_after(controller, script, n) == state_after(controller, script, m),
    decreases n - m,
{
    if n > m {
        lemma_unchanged_once_stopped(controller, script, m, n - 1);
        lemma_stopped_ignores(state_after(controller, script, n - 1), script[n - 1]);
    }
}

/// One step keeps the configuration well formed: no event and no render
/// outcome ever stores a zero dimension.
pub proof fn lemma_step_keeps_well_formed(controller: Controller, stimulus: Stimulus)
    requires
        controller.config.well_formed(),
    ensures
        controller.step_spec(stimulus).0.config.well_formed(),
{
}

/// The configuration invariant: starting well formed (both dimensions
/// nonzero), the loop keeps the configuration well formed through any
/// sequence of inputs — a configuration with a zero dimension is never
/// stored, so never applied to the surface.
pub proof fn lemma_config_stays_well_formed(
    controller: Controller,
    script: Seq<Stimulus>,
    k: int,
)
    requires
        0 <= k,
        controller.config.well_formed(),
    ensures
        state_after(controller, script, k).config.well_formed(),
    decreases k,
{
    if k > 0 {
        lemma_config_stays_well_formed(controller, script, k - 1);
        lemma_step_keeps_well_formed(state_after(controller, script, k - 1), script[k - 1]);
    }
}

/// A lost surface is answered by exactly one reconfigure, with the size
/// currently stored in the configuration; the configuration itself is kept
/// as it is and the loop stays running, so normal operation resumes on the
/// following frame.
pub proof fn lemma_lost_reconfigures(controller: Controller)
    requires
        controller.running,
    ensures
        (controller.after_render_spec(RenderOutcome::SurfaceLost).1 == Action::Reconfigure {
            width: controller.config.width,
            height: controller.config.height,
        }),
        controller.after_render_spec(RenderOutcome::SurfaceLost).0 == controller,
{
}

/// Out of memory is fatal: the loop answers `Exit` and stops, and by
/// `lemma_nothing_after_exit` no render is ever asked for again.
pub proof fn lemma_out_of_memory_exits(controller: Controller)
    requires
        controller.running,
    ensures
        controller.after_render_spec(RenderOutcome::OutOfMemory).1 == Action::Exit,
        !controller.after_render_spec(RenderOutcome::OutOfMemory).0.running,
{
}

} // verus!
