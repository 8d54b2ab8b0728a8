//! Core of a page-oriented document workspace: a one-level folder indexer
//! with stable entry identities, a multi-source page assembler with a
//! duplex-safe padding rule, and a bounded-retry print job watcher.
pub mod file_utils;
pub mod hashing;
pub mod indexer;
pub mod monitor;
pub mod mutex_utils;
pub mod pdf;
pub mod state;
