pub mod text;
pub mod error;
pub mod monitor;
pub mod paths;
pub mod env_path;
pub mod config;
pub mod process;
pub mod bridge;
pub mod opencode_config;
pub mod tray;
pub mod commands;
