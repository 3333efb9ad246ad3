//! Interactive filter engine for exploring JSON documents.
//!
//! The crate models the core of a terminal tool in which a user edits a
//! `jq`-style filter while the tool evaluates it against a loaded document,
//! caches results keyed by query, offers path completions, and keeps a
//! multi-pane view current.  Terminal I/O, clocks and task scheduling live
//! outside; the decisions they carry out are verified here.

pub mod buffer;
pub mod config;
pub mod context;
pub mod debounce;
pub mod editing;
pub mod editor;
pub mod engine;
pub mod event;
pub mod render;
pub mod router;
pub mod search;
pub mod session;
pub mod strutil;
pub mod trie;
pub mod viewer;
