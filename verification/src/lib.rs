//! Core of a terminal record browser/editor for coffee brewing logs.
//!
//! The library holds the modal interaction state machine: a command overlay
//! that pre-empts all input, a phase machine (browsing the entry list vs.
//! editing one entry), clamped list navigation, and a per-field edit session
//! whose text buffer is validated against the decimal-number grammar on every
//! keystroke. Terminal I/O and widget rendering live outside the library and
//! only read the state exposed here.

pub mod keys;
pub mod numeric;
pub mod text;
pub mod selection;
pub mod edit_buffer;
pub mod entry;
pub mod app;
pub mod display;
pub mod laws;
