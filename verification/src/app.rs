//! The application around one session.

use core::convert::Infallible;
use vstd::prelude::*;
use crate::event::Event;
use crate::session::Session;
use crate::state::State;

verus! {

/// The application: it owns the session state for as long as the host's
/// loop runs.
#[derive(Debug)]
pub struct App {
    state: State,
}

impl View for App {
    type V = Session;

    closed spec fn view(&self) -> Session {
        self.state@
    }
}

impl Default for App {
    fn default() -> (app: App)
        ensures
            app@ == Session::Idle,
    {
        App { state: State::Start }
    }
}

impl App {
    /// A new application, waiting for its first test.
    pub fn new() -> (app: App)
        ensures
            app@ == Session::Idle,
    {
        App { state: State::Start }
    }

    /// The session state, to be shown.
    pub fn state(&self) -> (state: &State)
        ensures
            state@ == self@,
    {
        &self.state
    }

    /// Whether the host's loop goes on: it stops once the session is over.
    pub fn is_running(&self) -> (running: bool)
        ensures
            running == !(self@ is Terminated),
    {
        !self.state.is_terminated()
    }

    /// Hands one input event to the session.
    pub fn update(&mut self, event: Event) -> (result: Result<(), Infallible>)
        ensures
            result is Ok,
            final(self)@ == old(self)@.step(event),
    {
        self.state.update(event)
    }
}

} // verus!
