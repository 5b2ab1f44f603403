//! Configuration sections and credential resolution.

pub mod config;
pub mod credentials;
pub mod settings;
