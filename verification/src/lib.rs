//! Reusable dialog components for applications that follow the
//! "model, message, update" convention of an Elm-style GUI toolkit.
//!
//! The crate holds the part of each component that decides: the model, the
//! messages it understands, how a message changes the model, and what the
//! widgets have to be told afterwards. Creating widgets, connecting signals
//! and moving messages between components is left to the application.

pub mod examples;
pub mod save_dialog;
