use crate::error::ErrorCode;
use crate::state::{Election, ElectionView, Phase};
use vstd::prelude::*;

verus! {

/// What concluding the election comes to when `signer` asks for it: the
/// election concluded, or the reason why it stays as it is.
pub open spec fn conclude_election_outcome(election: ElectionView, signer: Seq<u8>) -> Result<
    ElectionView,
    ErrorCode,
> {
    if election.phase != Phase::Voting {
        Err(ErrorCode::NoVotingPhase)
    } else if signer != election.admin {
        Err(ErrorCode::Unauthorised)
    } else {
        Ok(ElectionView { phase: Phase::Concluded, ..election })
    }
}

/// Concludes the election. Only the admin may do so, and only while the
/// election is in its voting phase. Nothing changes a concluded election.
pub fn conclude_election_handler(election: &mut Election, signer: &[u8; 32]) -> (done: Result<
    (),
    ErrorCode,
>)
    ensures
        match conclude_election_outcome(old(election)@, signer@) {
            Ok(next) => done is Ok && final(election)@ == next,
            Err(e) => done == Err::<(), ErrorCode>(e) && final(election)@ == old(election)@,
        },
        final(election)@.wf(),
{
    proof {
        use_type_invariant(&*election);
    }
    if election.phase() != Phase::Voting {
        return Err(ErrorCode::NoVotingPhase);
    }
    if !election.is_admin(signer) {
        return Err(ErrorCode::Unauthorised);
    }
    election.set_phase(Phase::Concluded);
    Ok(())
}

} // verus!
