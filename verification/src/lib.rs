//! Decision core of a desktop text-editor shell: the pure logic behind its
//! two frontend-invocable commands and its startup sequence. The surrounding
//! process glue (windows, webviews, the event loop) lives outside this crate
//! and consults these functions for every decision it makes.

/// The startup plan: plugins, handler registration, setup, run loop.
pub mod bootstrap;
/// The command handlers exposed to the frontend.
pub mod commands;
