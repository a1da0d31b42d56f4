//! Surface lifecycle for a clear-and-present window: choosing the surface
//! configuration, keeping it in step with the window's size, planning each
//! frame, and deciding what the event loop does next.
//!
//! The library decides and the caller performs: every function here maps plain
//! values to plain values, and what has to happen on the GPU or in the window
//! system is handed back as a list of [`action::Action`]s.

pub mod format;
pub mod config;
pub mod action;
pub mod frame;
pub mod dispatch;
