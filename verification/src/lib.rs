//! Verified core of a screen-grabbing utility: output formats and file
//! names, keyboard shortcuts and their recording, the global hotkey
//! description, and the decision logic of the capture workflow.

pub mod format;
pub mod text;
pub mod tools;
pub mod shortcuts;
pub mod state;
pub mod recorder;
pub mod typing;
pub mod commands;
pub mod global_hotkey;
pub mod capture;
pub mod view;
pub mod draw;
pub mod layers;
pub mod resize;
