//! Wikis kept as version-controlled repositories, and their synchronisation with a remote
//! counterpart by fast-forward only.
//!
//! - `git` holds the handle on a repository, the protocol that a synchronisation follows,
//!   and the decisions that are taken from what the repository engine answers.
//! - `wiki` holds the wikis of the storage directory: finding, creating, listing and
//!   deleting them, the places of their documents, and the tree in which their files are
//!   shown.
//! - `config` holds the identity and the credentials that are kept for every repository.
//! - `text` holds what the others need of paths and names.
//!
//! What is decided here is proved to be decided as its contract says. What the repository
//! engine does on disk and over the network is not: there the contracts say what holds
//! whatever the engine answers.

pub mod config;
pub mod git;
pub mod text;
pub mod wiki;
