//! Chat-bot library for a visual-novel hook catalogue.
//!
//! The crate models the bot's core pipeline: the text-command grammar, the
//! reference scanner, the request builder for the remote VN service, the
//! connection/queue state machine of the remote client, the local hook store
//! and the workflows that compose them.

pub mod args;
pub mod command;
pub mod db;
pub mod models;
pub mod pending;
pub mod exec;
pub mod irc;
pub mod kouryaku;
pub mod protocol;
pub mod session;
pub mod store;
pub mod utils;
pub mod text;
pub mod web;

use vstd::prelude::*;

verus! {

} // verus!
