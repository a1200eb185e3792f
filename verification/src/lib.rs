pub mod cli;
pub mod config;
pub mod error;
pub mod removal;
pub mod text;
pub mod tui;
pub mod utils;
pub mod workspace;
