//! Keyboard input as the session sees it.
//!
//! The host reads raw terminal events and hands them over in these types.
//! They keep what the session decides on: which key, which modifiers, and
//! whether the key went down or came up.

use vstd::prelude::*;

verus! {

/// The logical key of a key event.
#[derive(Debug, Clone, Copy, PartialEq, Eq)]
pub enum KeyCode {
    /// A printable character.
    Char(char),
    /// The key that deletes the character before the cursor.
    Backspace,
    /// The escape key.
    Esc,
    /// Any key the session has no use for.
    Other,
}

/// The modifier keys held down while a key event happened.
#[derive(Debug, Clone, Copy, PartialEq, Eq)]
pub struct KeyModifiers {
    pub shift: bool,
    pub control: bool,
    pub alt: bool,
    pub super_key: bool,
    pub hyper: bool,
    pub meta: bool,
}

impl KeyModifiers {
    /// No modifier is held.
    pub open spec fn spec_none() -> KeyModifiers {
        KeyModifiers {
            shift: false,
            control: false,
            alt: false,
            super_key: false,
            hyper: false,
            meta: false,
        }
    }

    /// Control is held and nothing else.
    pub open spec fn spec_control() -> KeyModifiers {
        KeyModifiers {
            shift: false,
            control: true,
            alt: false,
            super_key: false,
            hyper: false,
            meta: false,
        }
    }

    /// No modifier is held.
    #[verifier::when_used_as_spec(spec_none)]
    pub fn none() -> (m: KeyModifiers)
        ensures
            m == KeyModifiers::spec_none(),
    {
        KeyModifiers {
            shift: false,
            control: false,
            alt: false,
            super_key: false,
            hyper: false,
            meta: false,
        }
    }

    /// Control is held and nothing else.
    #[verifier::when_used_as_spec(spec_control)]
    pub fn control() -> (m: KeyModifiers)
        ensures
            m == KeyModifiers::spec_control(),
    {
        KeyModifiers {
            shift: false,
            control: true,
            alt: false,
            super_key: false,
            hyper: false,
            meta: false,
        }
    }

    /// Whether control is held and nothing else: a chord with shift or alt
    /// added is a different chord.
    pub open spec fn spec_is_control(&self) -> bool {
        *self == KeyModifiers::spec_control()
    }

    /// Whether control is held and nothing else.
    #[verifier::when_used_as_spec(spec_is_control)]
    pub fn is_control(&self) -> (r: bool)
        ensures
            r == self.spec_is_control(),
    {
        self.control && !self.shift && !self.alt && !self.super_key && !self.hyper && !self.meta
    }
}

/// Whether a key went down, is held down, or came up.
#[derive(Debug, Clone, Copy, PartialEq, Eq)]
pub enum KeyEventKind {
    Press,
    Repeat,
    Release,
}

/// One key event: the key, the modifiers held with it, and its kind.
#[derive(Debug, Clone, Copy, PartialEq, Eq)]
pub struct KeyEvent {
    pub code: KeyCode,
    pub modifiers: KeyModifiers,
    pub kind: KeyEventKind,
}

impl KeyEvent {
    pub open spec fn spec_new(code: KeyCode, modifiers: KeyModifiers) -> KeyEvent {
        KeyEvent { code, modifiers, kind: KeyEventKind::Press }
    }

    /// A press of `code` with `modifiers` held.
    #[verifier::when_used_as_spec(spec_new)]
    pub fn new(code: KeyCode, modifiers: KeyModifiers) -> (key: KeyEvent)
        ensures
            key == KeyEvent::spec_new(code, modifiers),
    {
        KeyEvent { code, modifiers, kind: KeyEventKind::Press }
    }

    /// Whether this is a quit key, which ends the session when pressed:
    /// escape with any modifiers, or `c` or `C` with control alone. The kind
    /// of the event plays no part here.
    pub open spec fn spec_is_quit(&self) -> bool {
        ||| self.code == KeyCode::Esc
        ||| self.modifiers.is_control() && (self.code == KeyCode::Char('c') || self.code
            == KeyCode::Char('C'))
    }

    /// Whether this is a quit key.
    #[verifier::when_used_as_spec(spec_is_quit)]
    pub fn is_quit(&self) -> (r: bool)
        ensures
            r == self.spec_is_quit(),
    {
        match self.code {
            KeyCode::Esc => true,
            KeyCode::Char(ch) => self.modifiers.is_control() && (ch == 'c' || ch == 'C'),
            _ => false,
        }
    }
}

/// One input event.
#[derive(Debug, Clone, Copy, PartialEq, Eq)]
pub enum Event {
    /// A key event.
    Key(KeyEvent),
    /// Anything else the terminal reports: mouse, resize, focus, paste.
    Other,
}

impl Event {
    /// The key this event presses, if it presses one. A key that comes up
    /// presses nothing.
    pub open spec fn spec_pressed(&self) -> Option<KeyEvent> {
        match *self {
            Event::Key(key) => if key.kind == KeyEventKind::Release {
                None
            } else {
                Some(key)
            },
            Event::Other => None,
        }
    }

    /// The key this event presses, if it presses one.
    #[verifier::when_used_as_spec(spec_pressed)]
    pub fn pressed(&self) -> (r: Option<KeyEvent>)
        ensures
            r == self.spec_pressed(),
    {
        match *self {
            Event::Key(key) => match key.kind {
                KeyEventKind::Release => None,
                _ => Some(key),
            },
            Event::Other => None,
        }
    }
}

} // verus!
