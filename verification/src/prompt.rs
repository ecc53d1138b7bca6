//! Prompt assembly, the parsing of model replies, and their vetting.
pub mod builder;
pub mod loader;
pub mod vetting;
