//! Zippery: the state and rules behind a small desktop file manager.
//!
//! The library holds the file list, its ordering, the selection and
//! renaming state, the configuration, the launch arguments and the
//! window bookkeeping. Everything that touches the file system, the
//! screen or the clock is done by the caller, who hands the results back.
pub mod about;
pub mod config;
pub mod desktop;
pub mod file;
pub mod launch;
pub mod manager;
pub mod order;
pub mod paths;
pub mod placeholder;
pub mod window;
pub mod time;
