//! Core logic of the Lunara launcher: configuration paths, application and
//! snippet catalogues, window-manager command plans, system-status parsing
//! and gamepad input handling.

pub mod text;
pub mod order;
pub mod models;
pub mod loader;
pub mod command;
pub mod app_manager;
pub mod snippets_manager;
pub mod collect;
pub mod config;
pub mod gamepad;
pub mod bspwm;
