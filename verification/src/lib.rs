//! Verified decision logic of a handwriting notes application: which pen
//! overlay is drawn, how the window chrome reacts to the sidebar flap, what the
//! window remembers between runs and how the canvas view follows the user.
//!
//! The functions here take and return plain values; the toolkit code around
//! them reads widget state, hands it in, and performs what comes back.

pub mod appwindow;
pub mod pens;
mod text;
