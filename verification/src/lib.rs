//! A cross-platform terminal-control facade.
//!
//! A single handle lets callers clear screen regions, query the terminal's
//! dimensions and scroll, without knowing which operating system they run on.
//! The handle lazily resolves one platform backend and forwards every call to
//! it; on an unrecognized platform an inert fallback backend is used, so that
//! no operation ever fails.

pub mod ansi;
pub mod backend;
pub mod base;
pub mod terminal;
