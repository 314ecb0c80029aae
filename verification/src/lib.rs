//! Client logic for a remote reminder service: the requests it sends, how it
//! reads the answers, and the interactive use cases built on both.

pub mod clock;
pub mod config;
pub mod env_config;
pub mod json;
pub mod oye;
pub mod selection;
pub mod text;
pub mod url;
pub mod use_cases;
