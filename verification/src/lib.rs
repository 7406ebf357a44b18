//! A verified core for a play-session recording daemon.
//!
//! The daemon observes a game emulator host: it records play sessions,
//! persists them locally, and forwards session records, screenshots and
//! save files to remote services.  This crate holds the verified logic:
//! the path bookkeeping, the priority-retry scheduling state machine,
//! the intake submission state machine, the database row translation,
//! and the orchestrator's session state machine.  The surrounding
//! process (HTTP surface, filesystem watchers, SQLite, LED notifier)
//! performs the I/O and drives these functions.

pub mod channel;
pub mod database;
pub mod dates;
pub mod game;
pub mod intake;
pub mod notify;
pub mod orchestrator;
pub mod paths;
pub mod saves;
pub mod screenshots;
pub mod server;
pub mod uploader;
pub mod watcher;
