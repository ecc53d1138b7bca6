//! The terminal interface's state and the texts it shows.
pub mod app;
