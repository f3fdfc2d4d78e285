use vstd::prelude::*;

pub mod encoding;
pub mod groth16;

use crate::zk::groth16::VerifyingKey;

verus! {

/// The verifying keys of the two circuits. They are fixed when the program
/// is set up: who submits an operation has no say in them.
pub struct VerifyingKeys {
    /// The key of the circuit that admits a voter. Its one public input is
    /// the voter's nullifier.
    pub register_voter: VerifyingKey,
    /// The key of the circuit that casts a vote. Its two public inputs are
    /// the membership root and the new root of the spent nullifiers.
    pub vote: VerifyingKey,
}

} // verus!
