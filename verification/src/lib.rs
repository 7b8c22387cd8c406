//! Core primitives of an asynchronous terminal git client.
//!
//! A single-threaded user interface issues potentially slow repository
//! operations without blocking its render loop.  The primitives here decide
//! what work starts, what is coalesced away, and which results the interface
//! may observe:
//!
//! * a single-flight job scheduler that runs at most one job at a time and
//!   coalesces rapid resubmissions down to the latest one;
//! * a keyed fetch cache that deduplicates requests by fingerprint, guards
//!   against stale write-backs, and always keeps a renderable last value;
//! * a progress relay that folds a stream of progress events into one
//!   last-write-wins state and a terminal sentinel;
//! * the widget state (file trees, diff panel, status tab) driven by those
//!   primitives.
//!
//! Blocking repository access, terminal rendering and thread plumbing live
//! outside this crate; the functions here are pure state transitions with
//! contracts, plus a thin notified channel boundary.

pub mod cache;
pub mod channel;
pub mod commit_details;
pub mod commits;
pub mod components;
pub mod diff;
pub mod diff_view;
pub mod external_editor;
pub mod fetch_view;
pub mod filetree;
pub mod hashing;
pub mod msg;
pub mod notify;
pub mod push;
pub mod queue;
pub mod revlog;
pub mod scheduler;
pub mod status;
pub mod status_tab;
pub mod strutil;
pub mod tree;
