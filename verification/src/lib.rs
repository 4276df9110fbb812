//! Core of a voice input tool: sessions from the press of a hotkey to the text that is pasted.

pub mod config;
pub mod course;
pub mod double;
pub mod influence;
pub mod json;
mod lists;
pub mod session;
pub mod state;
pub mod task;
pub mod telemetry;
pub mod text;
pub mod uncertain;
