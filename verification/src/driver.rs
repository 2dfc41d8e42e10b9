//! The application driver: the event-loop state machine.
//!
//! The windowing layer delivers events one at a time; the driver answers each
//! with the action the shell must perform, and moves between three states:
//!
//! - `Idle`: waiting for the next event.
//! - `RedrawPending`: a redraw has been requested from the window and the
//!   matching redraw-request event has not been handled yet.
//! - `Terminating`: the loop is to exit.  Terminal: no event leaves it.
//!
//! The surrounding loop owns the window and the GPU collaborators.  It calls
//! [`Driver::handle_event`] for each delivered event and performs the returned
//! [`Action`]; when that action is [`Action::RenderFrame`] it runs the frame
//! sequence, then reports whether the quit button was clicked through
//! [`Driver::finish_frame`].

use vstd::prelude::*;

use crate::surface::SurfaceConfig;
use crate::surface::spec_resized;

verus! {

/// Where the driver stands between two delivered events.
#[derive(Clone, Copy, Debug, PartialEq, Eq, Structural)]
pub enum DriverState {
    /// Waiting for OS events.
    Idle,
    /// A redraw has been requested and not yet performed.
    RedrawPending,
    /// The loop is to exit.  Terminal.
    Terminating,
}

/// One delivered event, as the driver sees it: the windowing layer's raw
/// event, reduced to the values the driver decides on.
#[derive(Clone, Copy, Debug, PartialEq, Eq, Structural)]
pub enum LoopEvent {
    /// The event queue has drained; the loop is about to block.
    AboutToWait,
    /// The window's size changed; `width` and `height` are the reported
    /// physical pixel dimensions (either may be 0 when minimised).
    Resized { width: u32, height: u32 },
    /// The window asks to be painted now.
    RedrawRequested,
    /// The user asked to close the window.
    CloseRequested,
    /// Any other window event; `repaint` is the GUI engine's answer to it:
    /// whether the panel must be drawn again because of this input.
    Input { repaint: bool },
}

/// What the surrounding loop must do in answer to one event.
#[derive(Clone, Copy, Debug, PartialEq, Eq, Structural)]
pub enum Action {
    /// Nothing: keep pumping events.
    Continue,
    /// Ask the window for a redraw.
    RequestRedraw,
    /// Apply the driver's surface configuration to the presentation surface,
    /// then ask the window for a redraw.
    Reconfigure,
    /// Run the per-frame sequence, then report the quit flag through
    /// [`Driver::finish_frame`].
    RenderFrame,
    /// Leave the event loop.
    Exit,
}

/// The application driver: the state of the loop together with the surface
/// configuration it keeps synchronized with the window's size.
#[derive(Clone, Copy, Debug, PartialEq, Eq, Structural)]
pub struct Driver {
    pub state: DriverState,
    pub config: SurfaceConfig,
}

/// The transition relation of the driver, one delivered event at a time.
///
/// `Terminating` is terminal: the loop has been told to exit, so every
/// further event only repeats that instruction.  In every live state a
/// resize reconfigures the surface to the clamped reported size, a
/// close request terminates, a redraw request starts the frame sequence,
/// and the about-to-wait signal (or any input the GUI engine wants repainted)
/// requests a redraw.
pub open spec fn spec_step(d: Driver, e: LoopEvent) -> (Driver, Action) {
    if d.state is Terminating {
        (d, Action::Exit)
    } else {
        match e {
            LoopEvent::AboutToWait => (
                Driver { state: DriverState::RedrawPending, ..d },
                Action::RequestRedraw,
            ),
            LoopEvent::Resized { width, height } => (
                Driver { state: DriverState::RedrawPending, config: spec_resized(width, height) },
                Action::Reconfigure,
            ),
            LoopEvent::RedrawRequested => (d, Action::RenderFrame),
            LoopEvent::CloseRequested => (
                Driver { state: DriverState::Terminating, ..d },
                Action::Exit,
            ),
            LoopEvent::Input { repaint } => {
                if repaint {
                    (Driver { state: DriverState::RedrawPending, ..d }, Action::RequestRedraw)
                } else {
                    (d, Action::Continue)
                }
            },
        }
    }
}

/// How a finished frame leaves the driver: a clicked quit button terminates
/// the loop, whatever the state was; otherwise the driver goes back to
/// waiting for events.
pub open spec fn spec_finish(d: Driver, quit_clicked: bool) -> (Driver, Action) {
    if quit_clicked || d.state is Terminating {
        (Driver { state: DriverState::Terminating, ..d }, Action::Exit)
    } else {
        (Driver { state: DriverState::Idle, ..d }, Action::Continue)
    }
}

impl Driver {
    /// The driver's invariant: its surface configuration is a configurable
    /// size (at least one pixel in each axis).
    pub open spec fn wf(self) -> bool {
        self.config.wf()
    }

    /// Start the driver from the size the window reports at startup; the
    /// initial surface configuration clamps it to a minimum of 1 per axis.
    pub fn new(width: u32, height: u32) -> (d: Driver)
        ensures
            d.state is Idle,
            d.config == spec_resized(width, height),
            d.wf(),
    {
        Driver { state: DriverState::Idle, config: SurfaceConfig::new(width, height) }
    }

    /// Handle one delivered event: move to the next state and answer with
    /// the action the loop must perform.
    pub fn handle_event(&mut self, event: LoopEvent) -> (a: Action)
        requires
            old(self).wf(),
        ensures
            (*final(self), a) == spec_step(*old(self), event),
            final(self).wf(),
    {
        match self.state {
            DriverState::Terminating => Action::Exit,
            _ => match event {
                LoopEvent::AboutToWait => {
                    self.state = DriverState::RedrawPending;
                    Action::RequestRedraw
                },
                LoopEvent::Resized { width, height } => {
                    self.config.resize(width, height);
                    self.state = DriverState::RedrawPending;
                    Action::Reconfigure
                },
                LoopEvent::RedrawRequested => Action::RenderFrame,
                LoopEvent::CloseRequested => {
                    self.state = DriverState::Terminating;
                    Action::Exit
                },
                LoopEvent::Input { repaint } => {
                    if repaint {
                        self.state = DriverState::RedrawPending;
                        Action::RequestRedraw
                    } else {
                        Action::Continue
                    }
                },
            },
        }
    }

    /// Close the frame sequence begun by [`Action::RenderFrame`]:
    /// `quit_clicked` says whether the quit button was clicked while the
    /// frame's input was processed.
    pub fn finish_frame(&mut self, quit_clicked: bool) -> (a: Action)
        requires
            old(self).wf(),
        ensures
            (*final(self), a) == spec_finish(*old(self), quit_clicked),
            final(self).wf(),
    {
        if quit_clicked {
            self.state = DriverState::Terminating;
            Action::Exit
        } else {
            match self.state {
                DriverState::Terminating => Action::Exit,
                _ => {
                    self.state = DriverState::Idle;
                    Action::Continue
                },
            }
        }
    }
}

/// A clicked quit button makes the next driver state `Terminating`,
/// regardless of the prior state.
pub proof fn lemma_quit_click_terminates(d: Driver)
    ensures
        spec_finish(d, true).0.state is Terminating,
        spec_finish(d, true).1 is Exit,
{
}

/// A close request makes the next driver state `Terminating`, regardless of
/// the prior state (and so regardless of whether the quit button was ever
/// clicked), and tells the loop to exit.
pub proof fn lemma_close_requested_terminates(d: Driver)
    ensures
        spec_step(d, LoopEvent::CloseRequested).0.state is Terminating,
        spec_step(d, LoopEvent::CloseRequested).1 is Exit,
{
}

/// In every live state, a resize reconfigures the surface to exactly the
/// reported size clamped to a minimum of 1 per axis: a dimension of at
/// least 1 is kept, a dimension of 0 becomes 1.
pub proof fn lemma_resize_configures(d: Driver, width: u32, height: u32)
    requires
        !(d.state is Terminating),
    ensures
        spec_step(d, LoopEvent::Resized { width, height }).0.config == spec_resized(
            width,
            height,
        ),
        width >= 1 ==> spec_step(d, LoopEvent::Resized { width, height }).0.config.width == width,
        height >= 1 ==> spec_step(d, LoopEvent::Resized { width, height }).0.config.height
            == height,
        width == 0 ==> spec_step(d, LoopEvent::Resized { width, height }).0.config.width == 1,
        height == 0 ==> spec_step(d, LoopEvent::Resized { width, height }).0.config.height == 1,
{
}

/// The frame cycle: in every live state a redraw request starts the frame
/// sequence, changing nothing by itself, and a finished frame whose quit
/// button was not clicked returns the driver to `Idle` with its surface
/// configuration untouched.
pub proof fn lemma_frame_cycle(d: Driver)
    requires
        !(d.state is Terminating),
    ensures
        spec_step(d, LoopEvent::RedrawRequested).0 == d,
        spec_step(d, LoopEvent::RedrawRequested).1 is RenderFrame,
        spec_finish(d, false).0.state is Idle,
        spec_finish(d, false).0.config == d.config,
        spec_finish(d, false).1 is Continue,
{
}

/// Once terminating, always terminating: no event leaves the terminal state.
pub proof fn lemma_terminating_is_terminal(d: Driver, e: LoopEvent)
    requires
        d.state is Terminating,
    ensures
        spec_step(d, e).0 == d,
        spec_step(d, e).1 is Exit,
{
}

/// Every transition preserves the driver's invariant.
pub proof fn lemma_step_preserves_wf(d: Driver, e: LoopEvent)
    requires
        d.wf(),
    ensures
        spec_step(d, e).0.wf(),
{
}

} // verus!
