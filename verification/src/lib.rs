//! A conversation-state library for a relay bot that forwards chat messages
//! to a completion provider and returns the replies.
//!
//! The library owns the dialogue state machine, the mention-based activation
//! policy for shared channels, transcript accumulation, usage reporting and
//! traceable failure reporting. Transport and network plumbing live outside.

use vstd::prelude::*;

pub mod controller;
pub mod gateway;
pub mod markup;
pub mod mention;
pub mod report;
pub mod session;
pub mod text;
pub mod transcript;
pub mod usage;

verus! {

/// The token-count high-water mark: above this total, a reply carries an
/// advisory recommending a transcript reset.
pub const CONTEXT_HIGH_WATER: u32 = 6000;

} // verus!
