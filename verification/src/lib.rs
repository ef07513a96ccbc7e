//! The core of a cursor-driven color picker: sampling the pixel under the
//! pointer, reporting each change of color, and committing the color that is
//! held when a stop button is pressed.
//!
//! The library performs no input or output. A driver polls the pointer,
//! captures the screen, writes to the terminal and fills the clipboard; it
//! hands what it obtained to [`session::Session`] and carries out the effects
//! that the session answers with.

pub mod color;
pub mod config;
pub mod laws;
pub mod pointer;
pub mod present;
pub mod sampler;
pub mod session;
pub mod style;
pub mod template;
pub mod tracker;
