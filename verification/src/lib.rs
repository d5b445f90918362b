pub mod text;
pub mod hotkey;
pub mod tray;
pub mod control;
pub mod laws;
