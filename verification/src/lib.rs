//! Core state machines of a Multi-Valued Byzantine Agreement subsystem.
//!
//! Two message-driven engines are provided: `vcbc`, a verifiable consistent
//! broadcast in which one designated proposer makes a value persistent and
//! certified by a threshold signature, and `abba`, an asynchronous binary
//! Byzantine agreement with external validity.  Shared building blocks
//! (instance tags, digests, canonical signing bytes, the outbound message
//! queue) live in the remaining modules.

pub mod abba;
pub mod broadcaster;
pub mod bundle;
pub mod codec;
pub mod crypto;
pub mod error;
pub mod hash;
pub mod sign;
pub mod tag;
pub mod text;
pub mod validity;
pub mod vcbc;

use vstd::prelude::*;

verus! {

/// Identifier of a protocol participant.
pub type NodeId = usize;

/// An opaque proposal payload supplied by the host.
pub type Proposal = Vec<u8>;

} // verus!
