use vstd::prelude::*;

verus! {

/// The ways in which an operation on an election can be turned down.
///
/// Every check is local: the first one that fails ends the operation, and the
/// election is left exactly as it was.
#[derive(Clone, Copy, Debug, PartialEq, Eq, Structural)]
pub enum ErrorCode {
    /// The proof, its public inputs or the verifying key are not encoded as
    /// they should be.
    InvalidProofData,
    /// The proof is well encoded, but the pairing check does not hold.
    Groth16VerificationFailed,
    /// The caller is not the admin of the election.
    Unauthorised,
    /// The vote names an option that the election does not have.
    NonExistentOption,
    /// The election is not in its voting phase.
    NoVotingPhase,
    /// The election is not in its registration phase.
    NoRegistrationPhase,
}

impl ErrorCode {
    /// The message that goes with the error.
    pub fn message(&self) -> (text: &'static str)
        ensures
            text@ == self.spec_message(),
    {
        match self {
            ErrorCode::InvalidProofData => "Invalid proof data",
            ErrorCode::Groth16VerificationFailed => "Groth16 Verification failed",
            ErrorCode::Unauthorised => "Unauthorised",
            ErrorCode::NonExistentOption => "Voting for non-existent option",
            ErrorCode::NoVotingPhase => "Election is not in voting phase",
            ErrorCode::NoRegistrationPhase => "Election is not in registration phase",
        }
    }

    pub open spec fn spec_message(&self) -> Seq<char> {
        match self {
            ErrorCode::InvalidProofData => "Invalid proof data"@,
            ErrorCode::Groth16VerificationFailed => "Groth16 Verification failed"@,
            ErrorCode::Unauthorised => "Unauthorised"@,
            ErrorCode::NonExistentOption => "Voting for non-existent option"@,
            ErrorCode::NoVotingPhase => "Election is not in voting phase"@,
            ErrorCode::NoRegistrationPhase => "Election is not in registration phase"@,
        }
    }
}

} // verus!
