//! A command-dispatch backend: a GPU manager and a plugin manager shared
//! behind reader/writer locks, and a single router that maps a command name
//! plus a loosely-typed parameter payload to one manager operation and a
//! typed response.

pub mod gpu;
pub mod params;
pub mod plugins;
pub mod router;
pub mod state;
pub mod text;
