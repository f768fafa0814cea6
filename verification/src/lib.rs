//! Durable settings of the Okay You Very Pro stats viewer, and the view state
//! that is derived from them.
//!
//! The crate holds the decisions only. Reading and writing the settings file,
//! probing the selected folder, showing dialogs and drawing are left to the
//! program around it, which hands in plain values and carries out the
//! [`binder::Action`] that comes back.

pub mod binder;
pub mod config;
pub mod document;
pub mod style;
