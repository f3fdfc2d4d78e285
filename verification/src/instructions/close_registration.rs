use crate::error::ErrorCode;
use crate::state::{Election, ElectionView, Phase};
use vstd::prelude::*;

verus! {

/// What closing the registration comes to when `signer` asks for it: the
/// election in its voting phase, or the reason why it stays as it is.
pub open spec fn close_registration_outcome(election: ElectionView, signer: Seq<u8>) -> Result<
    ElectionView,
    ErrorCode,
> {
    if signer != election.admin {
        Err(ErrorCode::Unauthorised)
    } else if election.phase != Phase::Registration {
        Err(ErrorCode::NoRegistrationPhase)
    } else {
        Ok(ElectionView { phase: Phase::Voting, ..election })
    }
}

/// Closes the registration and opens the voting. Only the admin may do so,
/// and only while the election is in registration.
pub fn close_registration_handler(election: &mut Election, signer: &[u8; 32]) -> (done: Result<
    (),
    ErrorCode,
>)
    ensures
        match close_registration_outcome(old(election)@, signer@) {
            Ok(next) => done is Ok && final(election)@ == next,
            Err(e) => done == Err::<(), ErrorCode>(e) && final(election)@ == old(election)@,
        },
        final(election)@.wf(),
{
    proof {
        use_type_invariant(&*election);
    }
    if !election.is_admin(signer) {
        return Err(ErrorCode::Unauthorised);
    }
    if election.phase() != Phase::Registration {
        return Err(ErrorCode::NoRegistrationPhase);
    }
    election.set_phase(Phase::Voting);
    Ok(())
}

} // verus!
