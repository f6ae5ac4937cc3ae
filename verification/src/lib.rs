//! Connection disposition engine for a host firewall companion: alert
//! normalization, preset-driven rule operator generation, and the
//! single-item review state machine.

pub mod alert;
pub mod engine;
pub mod engine_laws;
pub mod operator;
pub mod operator_util;
pub mod preset_laws;
pub mod presets;
pub mod review;
pub mod server;
pub mod text;
pub mod time;
pub mod ui;
