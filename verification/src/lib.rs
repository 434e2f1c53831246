//! Live battery charge/discharge wattage for a system-tray readout: the
//! decisions, text, icon geometry and settings encoding behind the tray icon.

pub mod battery;
pub mod config;
pub mod display;
pub mod icon;
pub mod menu;
pub mod monitor;
pub mod registry;
pub mod text;
