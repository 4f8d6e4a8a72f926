//! A local mirror of a package-index git repository: entries are added,
//! listed and removed as `{id}@{major}` directories, and every mutation is
//! published as a single squashed commit atop the root commit.
//!
//! The store's behaviour is specified and verified over an explicit model of
//! the entry directories and the branch-history depth (`store`,
//! `orchestrator`); package metadata extraction (`archive`, `metadata`,
//! `version`) is verified against named results of the zip and JSON readers;
//! the repository mutations themselves (`git`) drive git2 through small
//! trusted wrappers.

pub mod archive;
pub mod errors;
pub mod git;
pub mod metadata;
pub mod orchestrator;
pub mod store;
pub mod version;

pub use orchestrator::{subcommand, CommandOutcome, Indexer};
