//! Verified lifecycle rules for managed local workspaces: identifiers, path
//! safety, the operation journal, leases, release, inspection, collection and
//! build contexts. Each request is a verified sequence of steps: the library
//! chooses every journal write and Git change and the order they come in;
//! Git, the filesystem and the RPC transport carry them out outside.
pub mod text;
pub mod error;
pub mod seqs;
pub mod ident;
pub mod path;
pub mod model;
pub mod copy;
pub mod store;
pub mod journal;
pub mod applying;
pub mod catalog;
pub mod lease;
pub mod inspect;
pub mod git;
pub mod provision;
pub mod provisioning;
pub mod register;
pub mod registering;
pub mod collect;
pub mod collecting;
pub mod verifying;
pub mod content;
pub mod cli;
pub mod laws;
