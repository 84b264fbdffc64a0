//! FortiTUI library: the verified core of a terminal console for FortiGate.
//!
//! Normalization of monitor-API JSON into application models, profile and
//! credential rules, event detection, throughput accounting, the keyboard
//! state machine of the interactive console, and the text formatting that the
//! screens display.

pub mod backend;
pub mod cli;
pub mod config;
pub mod fortigate;
pub mod json;
pub mod models;
pub mod numfmt;
pub mod text;
pub mod tui;
