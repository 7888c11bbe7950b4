//! Decision and text logic of the DeepSeek Harness desktop launcher.

pub mod text;
pub mod lines;
pub mod config;
pub mod install;
pub mod launch;
pub mod laws;
pub mod locate;
pub mod names;
pub mod netstat;
pub mod paths;
pub mod powershell;
pub mod service;
pub mod setup;
