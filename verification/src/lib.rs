//! Battery monitoring logic for the SteelSeries Aerox 5 Wireless tray
//! application: settings, command-line overrides, the notification state
//! machine, the tray's texts and the reaction to device errors.

pub mod cli;
pub mod config;
pub mod fault;
pub mod monitor;
pub mod settings;
pub mod text;
pub mod tray;
