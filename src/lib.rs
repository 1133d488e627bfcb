//! A todo list edited from the terminal: per-item text buffers with an
//! editing cursor, a list with a selection, and a two-mode key router.
//!
//! Everything here is pure state; drawing, keyboard capture and the todo
//! file live with the program that drives the library.

pub mod input;
pub mod laws;
pub mod screen;
pub mod todo;

pub use input::{decode_key, Action, Event, Key};
pub use screen::{Screen, ScreenView, State};
pub use todo::{Todo, TodoView, MAX_TEXT_LEN};
