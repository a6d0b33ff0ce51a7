//! Polls RSS and Atom feeds, finds the entries not seen before and renders
//! chat-webhook notifications for them.
//!
//! Everything that computes lives here and is verified; fetching, storing and
//! posting are done by the caller, which hands the results back as plain values.

pub mod text;
pub mod template;
pub mod config;
pub mod database;
pub mod source;
pub mod variables;
pub mod feed;
pub mod receivers;
pub mod webhook;
pub mod poll;
