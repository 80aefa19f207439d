//! The settings of the application and the manager that keeps them.

pub mod types;
pub mod manager;

pub use manager::{SettingsError, SettingsManager};
pub use types::{Settings, TerminalTheme};
