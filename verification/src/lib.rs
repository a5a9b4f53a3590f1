//! BobiBot: a small personal-assistant agent scaffold.
//!
//! The crate holds three pieces: [`config::Config`], a plain record of
//! settings with compiled-in defaults and optional overrides; a registry of
//! named tools ([`tools::ToolRegistry`]) that the agent can invoke by name;
//! and [`agent::Agent`], which owns a configuration and a tool registry.

pub mod agent;
pub mod config;
pub mod tools;
