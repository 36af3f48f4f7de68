//! Verified core of a menu-bar monitor for Anthropic API rate-limit usage:
//! configuration defaults and key selection, credential extraction, header
//! parsing of usage buckets and the labels shown in the tray menu.

pub mod config;
pub mod credentials;
pub mod headers;
pub mod numbers;
pub mod text;
pub mod tray;
pub mod usage;
