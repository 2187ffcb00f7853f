pub mod cli;
pub mod config;
pub mod engine;
pub mod error;
pub mod logging;
pub mod monitors;
pub mod platform;
pub mod platform_win32;
pub mod settings_gui;
pub mod sleep;
pub mod state;
pub mod text;
pub mod tray;
