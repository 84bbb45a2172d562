//! The layer between a tool-call protocol and the `nb` note-taking tool:
//! from a named command with loosely typed arguments to the exact runs of
//! the tool that answer it, and from what the tool printed back to a uniform
//! response.
//!
//! The library decides; it starts no process and reads no file. The caller
//! performs each run that a [`session::Session`] asks for and hands the
//! outcome back.

pub mod arguments;
pub mod client;
pub mod command;
pub mod config;
pub mod dispatch;
pub mod error;
pub mod output;
pub mod paths;
pub mod resolver;
pub mod session;
pub mod signing;
pub mod text;

pub use crate::client::NbClient;
pub use crate::config::Config;
pub use crate::error::NbError;
pub use crate::paths::get_log_path;
