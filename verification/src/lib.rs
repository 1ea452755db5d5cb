//! Verified core of the girl-agent desktop companion.

pub mod text;
pub mod types;
pub mod state;
pub mod runtime_client;
pub mod config;
pub mod settings;
pub mod app_model;
pub mod web;
pub mod presets;
pub mod wizard;
pub mod preflight;
pub mod installer;
pub mod install_config;
pub mod paths;
pub mod tray;
