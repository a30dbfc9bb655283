//! Push-to-talk dictation: the decisions behind the hotkey listener, the
//! dictation worker, the tray menu and the overlay, with their contracts.

pub mod autostart;
pub mod config;
pub mod hotkey;
pub mod overlay;
pub mod recorder;
pub mod text;
pub mod transcriber;
pub mod tray;
pub mod worker;
