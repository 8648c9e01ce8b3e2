//! Verified backend for a small desktop utility that manages a fixed set of
//! well-known user configuration files: it lists them with live metadata,
//! serves and updates their contents, and creates timestamped backup copies.
//!
//! The library holds every decision the backend makes: the static registry and
//! category catalog, home-directory path resolution, backup naming, error
//! classification, and the uniform response envelopes. The surrounding binary
//! performs the actual filesystem reads, writes and copies, and hands their
//! outcomes back to the library as plain values.

use vstd::prelude::*;

pub mod commands;
pub mod errors;
pub mod models;
pub mod paths;
pub mod platform;
pub mod registry;
pub mod service;
pub mod system;
pub mod text;
pub mod timefmt;

