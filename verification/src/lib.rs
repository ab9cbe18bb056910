//! The rules of HDRify: when HDR goes on, when it is restored, and what the user sees of it.
//!
//! Everything here is a decision on plain values. Talking to the displays, the tray, the
//! process tracing and the windows is left to the program around this library.

pub mod config;
pub mod controls;
pub mod effects;
pub mod hdr;
pub mod icon;
pub mod layout;
pub mod machine;
pub mod manager;
pub mod picker;
pub mod processes;
pub mod seqs;
pub mod session;
pub mod state;
pub mod text;
pub mod wide;
pub mod window;
pub mod wmi_monitor;
