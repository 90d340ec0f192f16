//! The decisions of the render loop. The loop itself runs outside this
//! crate: it performs the action that the machine asks for and reports what
//! came of it.

use crate::state::{App, AppModel};
use vstd::prelude::*;

verus! {

/// The key that ends the loop.
pub const QUIT_KEY: char = 'q';

/// How long a poll for input may wait, in milliseconds.
pub const POLL_TIMEOUT_MS: u64 = 100;

/// What a poll for input found.
#[derive(Clone, Copy, Debug, PartialEq, Eq, Structural)]
pub enum Input {
    /// Nothing arrived within the timeout.
    Timeout,
    /// The key for a character was pressed.
    Key(char),
    /// Anything else.
    Other,
}

/// What the driver of the loop reports back.
#[derive(Clone, Copy, Debug, PartialEq, Eq, Structural)]
pub enum Event {
    /// The frame was drawn.
    Drawn,
    /// The frame could not be drawn.
    DrawFailed,
    /// The poll for input ended.
    Polled(Input),
}

/// What the driver of the loop is to do next.
#[derive(Clone, Copy, Debug, PartialEq, Eq, Structural)]
pub enum Action {
    /// Draw the current frame, then report `Drawn` or `DrawFailed`.
    Draw,
    /// Poll for input for at most the timeout, then report `Polled`.
    Poll,
    /// Release the terminal and return.
    Release,
}

/// The two states of the loop.
#[derive(Clone, Copy, Debug, PartialEq, Eq, Structural)]
pub enum LoopState {
    Running,
    Terminating,
}

/// Mathematical model of a [`RenderLoop`].
pub struct LoopModel {
    pub app: AppModel,
    /// The action that the driver was last asked for.
    pub pending: Action,
    /// The number of frames that could not be drawn, as far as `u64` counts.
    pub dropped: int,
}

impl LoopModel {
    pub open spec fn state(&self) -> LoopState {
        if self.pending == Action::Release {
            LoopState::Terminating
        } else {
            LoopState::Running
        }
    }

    /// Whether `event` answers the pending action.
    pub open spec fn expects(&self, event: Event) -> bool {
        match (self.pending, event) {
            (Action::Draw, Event::Drawn) => true,
            (Action::Draw, Event::DrawFailed) => true,
            (Action::Poll, Event::Polled(_)) => true,
            _ => false,
        }
    }

    /// Whether this event makes the state tick.
    pub open spec fn ticks_on(&self, event: Event) -> bool {
        self.pending == Action::Draw && self.expects(event)
    }

    /// The loop after `event`. A frame that was drawn and one that failed
    /// are followed alike by a tick and a poll; the failed one is counted
    /// and otherwise ignored. After a poll the quit key ends the loop, and
    /// anything else leads to the next frame. An event that does not answer
    /// the pending action changes nothing, nor does any event once the loop
    /// is terminating.
    pub open spec fn step(&self, event: Event) -> LoopModel {
        match (self.pending, event) {
            (Action::Draw, Event::Drawn) => LoopModel {
                app: self.app.ticked(),
                pending: Action::Poll,
                dropped: self.dropped,
            },
            (Action::Draw, Event::DrawFailed) => LoopModel {
                app: self.app.ticked(),
                pending: Action::Poll,
                dropped: if self.dropped < u64::MAX {
                    self.dropped + 1
                } else {
                    self.dropped
                },
            },
            (Action::Poll, Event::Polled(input)) => LoopModel {
                app: self.app,
                pending: if input == Input::Key(QUIT_KEY) {
                    Action::Release
                } else {
                    Action::Draw
                },
                dropped: self.dropped,
            },
            _ => *self,
        }
    }
}

/// The loop ends on the quit key and on nothing else, and once it is
/// terminating it stays so.
pub proof fn lemma_terminates_on_quit_only(m: LoopModel, event: Event)
    ensures
        m.step(event).state() == LoopState::Terminating <==> m.state() == LoopState::Terminating
            || (m.pending == Action::Poll && event == Event::Polled(Input::Key(QUIT_KEY))),
{
}

/// The render loop's state machine, which owns the dashboard's state.
pub struct RenderLoop {
    app: App,
    pending: Action,
    dropped: u64,
}

impl View for RenderLoop {
    type V = LoopModel;

    closed spec fn view(&self) -> LoopModel {
        LoopModel { app: self.app@, pending: self.pending, dropped: self.dropped as int }
    }
}

impl RenderLoop {
    pub open spec fn wf(&self) -> bool {
        &&& self@.app.wf()
        &&& 0 <= self@.dropped <= u64::MAX
    }

    /// A running loop over `app` that asks for its first frame.
    pub fn new(app: App) -> (machine: RenderLoop)
        requires
            app.wf(),
        ensures
            machine.wf(),
            machine@ == (LoopModel { app: app@, pending: Action::Draw, dropped: 0 }),
    {
        RenderLoop { app, pending: Action::Draw, dropped: 0 }
    }

    /// The state to draw.
    pub fn app(&self) -> (app: &App)
        ensures
            app@ == self@.app,
    {
        &self.app
    }

    /// What the driver is to do next.
    pub fn pending(&self) -> (action: Action)
        ensures
            action == self@.pending,
    {
        self.pending
    }

    pub fn state(&self) -> (state: LoopState)
        ensures
            state == self@.state(),
    {
        match self.pending {
            Action::Release => LoopState::Terminating,
            _ => LoopState::Running,
        }
    }

    /// The number of frames that could not be drawn.
    pub fn dropped_frames(&self) -> (count: u64)
        ensures
            count == self@.dropped,
    {
        self.dropped
    }

    /// Decides whether the state can tick if the next event asks for it,
    /// which [`RenderLoop::handle`] asks of its caller.
    pub fn ready(&self) -> (ready: bool)
        requires
            self.wf(),
        ensures
            ready == self@.app.can_tick(),
    {
        self.app.ready()
    }

    /// Takes the driver's report and says what to do next.
    pub fn handle(&mut self, event: Event) -> (action: Action)
        requires
            old(self).wf(),
            old(self)@.ticks_on(event) ==> old(self)@.app.can_tick(),
        ensures
            final(self).wf(),
            final(self)@ == old(self)@.step(event),
            action == final(self)@.pending,
    {
        match (self.pending, event) {
            (Action::Draw, Event::Drawn) => {
                self.app.tick();
                self.pending = Action::Poll;
            },
            (Action::Draw, Event::DrawFailed) => {
                self.app.tick();
                self.pending = Action::Poll;
                if self.dropped < u64::MAX {
                    self.dropped = self.dropped + 1;
                }
            },
            (Action::Poll, Event::Polled(input)) => {
                let quit = match input {
                    Input::Key(key) => key == QUIT_KEY,
                    _ => false,
                };
                if quit {
                    self.pending = Action::Release;
                } else {
                    self.pending = Action::Draw;
                }
            },
            _ => {},
        }
        self.pending
    }
}

} // verus!
