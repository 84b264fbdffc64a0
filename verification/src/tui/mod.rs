//! The interactive console: its keyboard state machine, in-memory state,
//! event detection, and what each screen displays.

pub mod app;
pub mod detect;
pub mod screens;
pub mod state;
