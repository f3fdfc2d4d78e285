use crate::error::ErrorCode;
use crate::state::{Election, ElectionView, Phase};
use crate::zk::groth16::{proof_verdict, rows, verify_proof};
use crate::zk::VerifyingKeys;
use vstd::prelude::*;

verus! {

/// Tells that a voter was admitted under `nullifier`. The election keeps no
/// list of nullifiers: whoever builds the next membership root reads these.
#[derive(Clone, Copy, Debug, PartialEq, Eq)]
pub struct NullifierAdded {
    pub nullifier: [u8; 32],
}

/// What a request to register comes to, given what the check of its proof
/// has come to: success, or the reason why the voter is not admitted.
pub open spec fn register_voter_outcome(election: ElectionView, verdict: Result<(), ErrorCode>) -> Result<
    (),
    ErrorCode,
> {
    if election.phase != Phase::Registration {
        Err(ErrorCode::NoRegistrationPhase)
    } else {
        verdict
    }
}

/// Decides on a request to register under `nullifier`, given the `verdict`
/// on its proof. The election must be in registration. It is not changed.
pub fn admit_nullifier(election: &Election, verdict: Result<(), ErrorCode>, nullifier: [u8; 32]) -> (done:
    Result<NullifierAdded, ErrorCode>)
    ensures
        match register_voter_outcome(election@, verdict) {
            Ok(()) => done == Ok::<NullifierAdded, ErrorCode>(NullifierAdded { nullifier }),
            Err(e) => done == Err::<NullifierAdded, ErrorCode>(e),
        },
{
    if election.phase() != Phase::Registration {
        return Err(ErrorCode::NoRegistrationPhase);
    }
    match verdict {
        Err(e) => Err(e),
        Ok(()) => Ok(NullifierAdded { nullifier }),
    }
}

/// Registers a voter under `nullifier`. The election must be in
/// registration, and the proof must hold for the nullifier as its one public
/// input, under the key of the registration circuit.
pub fn register_voter_handler(
    election: &Election,
    keys: &VerifyingKeys,
    nullifier: [u8; 32],
    proof_a: [u8; 64],
    proof_b: [u8; 128],
    proof_c: [u8; 64],
) -> (done: Result<NullifierAdded, ErrorCode>)
    ensures
        match register_voter_outcome(
            election@,
            proof_verdict(proof_a@, proof_b@, proof_c@, seq![nullifier@], keys.register_voter@),
        ) {
            Ok(()) => done == Ok::<NullifierAdded, ErrorCode>(NullifierAdded { nullifier }),
            Err(e) => done == Err::<NullifierAdded, ErrorCode>(e),
        },
{
    if election.phase() != Phase::Registration {
        return Err(ErrorCode::NoRegistrationPhase);
    }
    let public_inputs: [[u8; 32]; 1] = [nullifier];
    assert(rows(public_inputs@) =~= seq![nullifier@]);
    let verdict = verify_proof(proof_a, proof_b, proof_c, public_inputs, &keys.register_voter);
    admit_nullifier(election, verdict, nullifier)
}

} // verus!
