//! Compile-time helpers for packaging a module implementation as a loadable
//! plugin: selection of the worker function's configuration parameter,
//! validation of the plugin-metadata attribute list, and the decode/dispatch
//! policy of the generated entry points.

pub mod metadata;
pub mod plugin;
pub mod wrapper;
