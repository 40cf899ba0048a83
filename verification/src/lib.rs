//! Scroll Lock Keeper: keeps a Windows session from going idle by tapping
//! Scroll Lock twice every few minutes, and notices new releases.
//!
//! This crate holds the decisions of the program; the windowing, the timers,
//! the keyboard injection and the network and file access live in `app/`.

pub mod settings;
pub mod version;
pub mod scroll_lock;
pub mod update;
pub mod ui;
