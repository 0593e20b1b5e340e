//! Confidential, eligibility-gated voting: a constant-time comparator, the
//! encrypted tally state machine, the computation-contract registry and the
//! proposal lifecycle.

use vstd::prelude::*;

pub mod ct_eq;
pub mod error;
pub mod lifecycle;
pub mod registry;
pub mod tally;
pub mod wire;

verus! {

/// A 32-byte public key on the ledger.
pub type Pubkey = [u8; 32];

} // verus!
