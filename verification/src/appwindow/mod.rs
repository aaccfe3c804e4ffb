//! The application window's decisions.

pub mod canvas_view;
pub mod chrome;
pub mod color_scheme;
pub mod lifecycle;
pub mod window_size;
