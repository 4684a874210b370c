//! Core of a small terminal tool that keeps an ordered list of user-entered
//! text choices, lets the user create and edit them, and repeatedly picks one
//! of them uniformly at random while tallying how often each text was picked.
//!
//! This crate holds the application's verified state machine: cursor-aware
//! text editing, index-bounded list mutation, the pick tally, and the screen
//! transition logic. Terminal rendering and the event loop live outside.

pub mod app;
pub mod choices;
pub mod errors;
pub mod key;
mod oracle;
pub mod parse;
pub mod tally;
pub mod text_buffer;

pub use app::App;
pub use app::AppView;
pub use app::CurrentEditMode;
pub use app::CurrentScreen;
pub use choices::ChoiceList;
pub use errors::UserError;
pub use key::Key;
pub use key::KeyInput;
pub use tally::PickTally;
pub use text_buffer::TextBuffer;
