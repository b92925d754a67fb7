//! Small applications that show how the components are used.
//!
//! [`counter`] hosts a save dialog; [`factory`] keeps a row of buttons.
//! [`text`] holds the decimal notation that both use for what they show.

pub mod counter;
pub mod factory;
pub mod text;
