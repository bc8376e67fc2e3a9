//! Bootstrap orchestration for an SSH-backed remote-development session.
//!
//! The library models the interactive handshake between a non-interactive
//! transport and a human operator: a single-slot prompt/response sink, a
//! password cache consumed at most once, a decision procedure that picks the
//! remote server binary, and the controller state machine that ties an
//! attempt together. All I/O, window management and process spawning live
//! outside the library; callers drive these state machines with plain values
//! and perform the actions they return.

pub mod text;
pub mod prompt;
pub mod resolver;
pub mod delegate;
pub mod controller;
pub mod editor_settings;
