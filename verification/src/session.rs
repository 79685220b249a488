//! The typing session as a mathematical state machine.
//!
//! [`Session`] is what a [`State`](crate::state::State) stands for in
//! contracts: its phase, and while a test runs, the sentence to reproduce
//! and what has been typed of it. Every operation of the executable state is
//! specified as one of the functions here.

use vstd::prelude::*;
use crate::event::{Event, KeyCode, KeyEvent, KeyEventKind};

verus! {

/// The sentence a test asks for.
pub const REFERENCE: &'static str = "The quick brown fox jumped over the lazy dog.";

/// The title shown above the session.
pub const TITLE: &'static str = "Rat Race";

/// Shown while the session waits for a first test.
pub const START_PROMPT: &'static str = "Press 's' to start the test";

/// Shown when the sentence has been reproduced.
pub const DONE_NOTE: &'static str = "Done!";

/// Shown below [`DONE_NOTE`].
pub const RESTART_PROMPT: &'static str = "Press 's' to restart the test";

/// The character that starts a test.
pub const START_KEY: char = 's';

/// The phases of a session, with what each one holds.
pub enum Session {
    /// Waiting for the start key; nothing typed yet.
    Idle,
    /// A test is running.
    Active {
        /// The sentence to reproduce.
        reference: Seq<char>,
        /// What has been typed so far.
        typed: Seq<char>,
    },
    /// The sentence was reproduced.
    Completed,
    /// The session is over.
    Terminated,
}

impl Session {
    /// A test that has just begun: the fixed sentence, nothing typed.
    pub open spec fn fresh() -> Session {
        Session::Active { reference: REFERENCE@, typed: Seq::empty() }
    }

    /// The session with `ch` typed at the end. Only a running test takes
    /// characters.
    pub open spec fn append(self, ch: char) -> Session {
        match self {
            Session::Active { reference, typed } => Session::Active {
                reference,
                typed: typed.push(ch),
            },
            _ => self,
        }
    }

    /// The character that a removal takes away: the last one typed, if any.
    pub open spec fn last_typed(self) -> Option<char> {
        match self {
            Session::Active { typed, .. } if typed.len() > 0 => Some(typed.last()),
            _ => None,
        }
    }

    /// The session with the last typed character removed, unchanged if
    /// nothing is typed.
    pub open spec fn remove_last(self) -> Session {
        match self {
            Session::Active { reference, typed } if typed.len() > 0 => Session::Active {
                reference,
                typed: typed.drop_last(),
            },
            _ => self,
        }
    }

    /// Whether a test is running and the typed text equals the sentence,
    /// character for character.
    pub open spec fn matched(self) -> bool {
        self matches Session::Active { reference, typed } && typed == reference
    }

    /// The completion check: a running test whose typed text equals the
    /// sentence is completed; any other session stays as it is.
    pub open spec fn settle(self) -> Session {
        if self.matched() {
            Session::Completed
        } else {
            self
        }
    }

    /// Whether `key` has a meaning in this phase apart from quitting: the
    /// start key while no test runs, a character or backspace while one does.
    pub open spec fn handles(self, key: KeyEvent) -> bool {
        match self {
            Session::Idle | Session::Completed => key.code == KeyCode::Char(START_KEY),
            Session::Active { .. } => key.code is Char || key.code is Backspace,
            Session::Terminated => false,
        }
    }

    /// The session after a key event, before the completion check. A key that
    /// comes up changes nothing. Of a key that goes down or is held, a quit
    /// key ends the session from any phase and is looked for first.
    pub open spec fn on_key(self, key: KeyEvent) -> Session {
        if key.kind == KeyEventKind::Release {
            self
        } else if key.is_quit() {
            Session::Terminated
        } else {
            match self {
                Session::Idle | Session::Completed => if key.code == KeyCode::Char(START_KEY) {
                    Session::fresh()
                } else {
                    self
                },
                Session::Active { .. } => match key.code {
                    KeyCode::Char(ch) => self.append(ch),
                    KeyCode::Backspace => self.remove_last(),
                    _ => self,
                },
                Session::Terminated => self,
            }
        }
    }

    /// The session after one input event, before the completion check: the
    /// key is applied, if the event presses one.
    pub open spec fn on_event(self, event: Event) -> Session {
        match event.pressed() {
            Some(key) => self.on_key(key),
            None => self,
        }
    }

    /// The session after one input event and the completion check that
    /// follows every event.
    pub open spec fn step(self, event: Event) -> Session {
        self.on_event(event).settle()
    }

    /// The lines that show this session, top to bottom.
    pub open spec fn lines(self) -> Seq<Seq<char>> {
        match self {
            Session::Idle => seq![START_PROMPT@],
            Session::Active { reference, typed } => seq![reference, typed],
            Session::Completed => seq![DONE_NOTE@, RESTART_PROMPT@],
            Session::Terminated => seq![],
        }
    }
}

} // verus!
