//! Verified core of the DSH desktop client.
pub mod text;
pub mod settings;
pub mod runtime;
pub mod server;
pub mod logbuf;
pub mod theme;
pub mod probe;
pub mod launch;
pub mod shell;
pub mod tray;
pub mod profile;
