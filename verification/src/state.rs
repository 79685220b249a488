//! The executable session state.

use core::convert::Infallible;
use vstd::prelude::*;
use crate::event::{Event, KeyCode, KeyEvent, KeyEventKind};
use crate::session::{Session, DONE_NOTE, REFERENCE, RESTART_PROMPT, START_KEY, START_PROMPT};
use crate::text::{chars_of, same_chars};

verus! {

/// The state of a typing session. It is created in `Start` and changed in
/// place by every event; `Exit` is never left.
#[derive(Debug, PartialEq, Eq)]
pub enum State {
    /// Waiting for the start key.
    Start,
    /// A test is running.
    Running {
        /// The sentence to reproduce.
        text: Vec<char>,
        /// What has been typed so far.
        input: Vec<char>,
    },
    /// The sentence was reproduced.
    Done,
    /// The session is over and the host should stop.
    Exit,
}

impl View for State {
    type V = Session;

    open spec fn view(&self) -> Session {
        match *self {
            State::Start => Session::Idle,
            State::Running { text, input } => Session::Active { reference: text@, typed: input@ },
            State::Done => Session::Completed,
            State::Exit => Session::Terminated,
        }
    }
}

impl Default for State {
    /// A session that waits for its first test.
    fn default() -> (state: State)
        ensures
            state@ == Session::Idle,
    {
        State::Start
    }
}

impl State {
    /// Applies one input event and then the completion check. It never
    /// fails: an event that means nothing in the current state is ignored.
    pub fn update(&mut self, event: Event) -> (result: Result<(), Infallible>)
        ensures
            result is Ok,
            final(self)@ == old(self)@.step(event),
    {
        if let Some(key) = event.pressed() {
            self.on_key_event(key);
        }
        self.check_complete();
        Ok(())
    }

    /// The lines that show this state, top to bottom.
    pub fn render_lines(&self) -> (lines: Vec<Vec<char>>)
        ensures
            lines.deep_view() == self@.lines(),
    {
        let mut lines: Vec<Vec<char>> = Vec::new();
        match self {
            State::Start => {
                lines.push(chars_of(START_PROMPT));
            },
            State::Running { text, input } => {
                lines.push(text.clone());
                lines.push(input.clone());
            },
            State::Done => {
                lines.push(chars_of(DONE_NOTE));
                lines.push(chars_of(RESTART_PROMPT));
            },
            State::Exit => {},
        }
        assert(lines.deep_view() =~~= self@.lines());
        lines
    }

    /// Whether the session is over.
    pub fn is_terminated(&self) -> (over: bool)
        ensures
            over == (self@ is Terminated),
    {
        match self {
            State::Exit => true,
            _ => false,
        }
    }

    /// Applies one key event. A key that comes up is ignored; of a key that
    /// goes down or is held, a quit key counts first, then what the key means
    /// in the current state.
    pub fn on_key_event(&mut self, key: KeyEvent)
        ensures
            final(self)@ == old(self)@.on_key(key),
    {
        if let KeyEventKind::Release = key.kind {
            return ;
        }
        if key.is_quit() {
            self.quit();
            return ;
        }
        match self {
            State::Start | State::Done => {
                if let KeyCode::Char(ch) = key.code {
                    if ch == START_KEY {
                        *self = State::Running { text: chars_of(REFERENCE), input: Vec::new() };
                    }
                }
            },
            State::Running { .. } => match key.code {
                KeyCode::Backspace => {
                    self.pop_char();
                },
                KeyCode::Char(ch) => self.append_char(ch),
                _ => {},
            },
            State::Exit => {},
        }
    }

    /// Ends the session.
    pub fn quit(&mut self)
        ensures
            final(self)@ == Session::Terminated,
    {
        *self = State::Exit;
    }

    /// Types `ch` at the end of the input of a running test.
    pub fn append_char(&mut self, ch: char)
        requires
            old(self)@ is Active,
        ensures
            final(self)@ == old(self)@.append(ch),
    {
        match self {
            State::Running { input, .. } => input.push(ch),
            _ => {},
        }
    }

    /// Removes the last typed character of a running test and returns it;
    /// with nothing typed, nothing changes and `None` is returned.
    pub fn pop_char(&mut self) -> (removed: Option<char>)
        requires
            old(self)@ is Active,
        ensures
            removed == old(self)@.last_typed(),
            final(self)@ == old(self)@.remove_last(),
    {
        match self {
            State::Running { input, .. } => input.pop(),
            _ => None,
        }
    }

    /// The completion check: a running test whose input equals its sentence
    /// becomes `Done`.
    pub fn check_complete(&mut self)
        ensures
            final(self)@ == old(self)@.settle(),
    {
        let matched = match self {
            State::Running { text, input } => same_chars(text, input),
            _ => false,
        };
        if matched {
            *self = State::Done;
        }
    }
}

} // verus!
