//! The language-model client's data and the decoding of its event stream.
pub mod client;
