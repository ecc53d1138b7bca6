//! Scene types and the guidance that each adds to a prompt.
pub mod protocol;
