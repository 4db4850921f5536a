//! The core of a terminal text editor, kept free of device access.
//!
//! The library decides and the host performs: the session in [`editor`] is a
//! state machine that names, one request at a time, what the host has to do
//! with the terminal device, and reads the host's answer on the next call.
//! Output is collected in the command queue of [`editor::terminal`].

pub mod editor;
