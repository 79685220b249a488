//! The session logic of a single-sentence typing test: the key events it
//! understands, the state machine they drive, and the lines it shows.

pub mod app;
pub mod event;
pub mod lemmas;
pub mod session;
pub mod state;
pub mod text;

pub use app::App;
pub use event::{Event, KeyCode, KeyEvent, KeyEventKind, KeyModifiers};
pub use session::Session;
pub use state::State;
