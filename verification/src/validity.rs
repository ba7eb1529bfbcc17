//! Ready-made proposal-validity predicates.
//!
//! The broadcast engine asks a host-supplied predicate whether a proposer's
//! payload is acceptable.  These two cover the trivial policies.

use crate::{NodeId, Proposal};
use vstd::prelude::*;

verus! {

/// Accepts every proposal.
pub fn valid_proposal(proposer: NodeId, proposal: &Proposal) -> (r: bool)
    ensures
        r,
{
    true
}

/// Rejects every proposal.
pub fn invalid_proposal(proposer: NodeId, proposal: &Proposal) -> (r: bool)
    ensures
        !r,
{
    false
}

} // verus!
