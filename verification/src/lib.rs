//! Launch planning for a fingerprint-browser launcher: the settings model,
//! the command line built from it, and the window's layout and event rules.

pub mod text;
pub mod options;
pub mod config;
pub mod launch;
pub mod ui;
