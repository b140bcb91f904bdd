//! Reconciliation of a local media library against a remote catalog.
//!
//! The crate holds the decisions of a library update run: which folders are
//! looked up, when a search result is accepted without asking, how an
//! operator's answer is read, what is written to the store, and how image
//! downloads are retried. All input and output is left to the caller, who
//! drives [`engine::Engine`] by performing the action it asks for and handing
//! back what happened.

pub mod catalog;
pub mod cli;
pub mod engine;
pub mod info;
pub mod laws;
pub mod model;
pub mod plan;
pub mod protocol;
pub mod retry;
pub mod selection;
pub mod store;
pub mod text;
