//! Mouse profile switching: the settings model, the tray menu and the
//! decisions that the tray application takes on each hotkey or menu event.
pub mod config;
pub mod text;
pub mod hotkey;
pub mod mouse;
pub mod tray;
pub mod switcher;
pub mod icon;
