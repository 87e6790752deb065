//! Usage statistics for coding-plan platforms (GLM, MiniMax, Kimi),
//! rendered as a line of a coding agent's status bar.

pub mod api;
pub mod cli;
pub mod config;
pub mod statusbar;
pub mod terminal;
pub mod text;
pub mod timefmt;
