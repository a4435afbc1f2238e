//! Verified core of the Kestrel desktop utility host.

pub mod capability;
pub mod text;
pub mod feature_map;
pub mod configuration;
pub mod monitor_config;
pub mod monitor_view;
pub mod registry;
pub mod quick_toggles;
pub mod toggle_service;
pub mod audio;
pub mod clipboard;
pub mod clipboard_history;
pub mod toml_document;
pub mod config_import;
pub mod view_model;
pub mod autostart;
pub mod notifications;
pub mod status_notifier;
pub mod runtime;
pub mod toggle_rules;
pub mod text_parse;
pub mod system_monitor;
pub mod monitor_service;
pub mod alerts;
pub mod battery_alerts;
pub mod sorting;
pub mod proc_monitor;
pub mod clipboard_probe;
pub mod controller;
pub mod session_rules;
