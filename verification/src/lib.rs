//! The core of a console login screen: a terminal emulator that decodes the
//! byte stream of a background animation into events and keeps the screen
//! those events draw, and the state of the login form in front of it.
//!
//! The library does no input or output. The caller owns the pseudo-terminal,
//! the child process and the frame, reads and draws, and hands over plain values.
//!
//! - `style`: cells and the style that select-graphic-rendition builds up.
//! - `model`: the screen as a mathematical value and the rules of the interpreter.
//! - `screen`: the screen in memory, proved against the model.
//! - `event`, `decoder`: the events of the protocol and the `vte` parser that emits them.
//! - `animation`: decoder and screen together; draining and rendering.
//! - `app`, `command`, `utils`: the login form, the animation's command line, helpers.
//! - `laws`: what holds of every screen.

pub mod animation;
pub mod app;
pub mod command;
pub mod decoder;
pub mod event;
pub mod laws;
pub mod model;
pub mod screen;
pub mod style;
pub mod utils;
