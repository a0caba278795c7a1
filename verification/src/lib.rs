//! Mirrors the files that change under a watched directory tree to one or
//! more destinations.
//!
//! The crate holds the decisions of the watcher: which notifications name a
//! new directory to watch, which name a file to transfer, how the pending
//! files are handed to the transfer tool, and in which order the driver has
//! to watch, list, wait and transfer. The driver performs those steps and
//! reports back what happened.

pub mod text;
pub mod options;
pub mod queue;
pub mod dispatch;
pub mod event;
pub mod ignore;
pub mod registry;
pub mod classify;
pub mod walk;
pub mod watch_loop;
