pub mod text;
pub mod state;
pub mod memory;
pub mod game_state;
pub mod chronicle;
pub mod prompt;
pub mod scenes;
pub mod llm;
pub mod snapshot;
pub mod engine;
pub mod journal;
pub mod tui;
