//! Clipboard history, active-index navigation and display formatting for cosmic-paste.

pub mod text;
pub mod item;
pub mod error;
pub mod active_index;
pub mod history;
pub mod session;
pub mod persistence;
pub mod selection_status;
pub mod settings;
pub mod dbus;
pub mod monitor;
pub mod cli;
pub mod shortcuts;
pub mod applet;
pub mod trigger;
pub mod service;
pub mod data_control;
