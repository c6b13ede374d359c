//! Settings resolution and command/descriptor construction for a
//! documentation-lookup context server.
//!
//! The library resolves an optional, untyped configuration value into a typed
//! [`settings::Settings`] record, decides whether the server package must be
//! (re)installed, builds the launch command for the server process, and fills
//! in the configuration descriptor (setup instructions, a default-settings
//! document with placeholders substituted, and a schema describing the
//! accepted settings shape). All host interaction (package queries, settings
//! lookup, process spawning) stays outside; callers hand in plain values.

pub mod command;
pub mod descriptor;
pub mod json;
pub mod provision;
pub mod schema;
pub mod settings;
pub mod text;
