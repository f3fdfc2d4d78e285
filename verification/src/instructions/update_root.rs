use crate::error::ErrorCode;
use crate::state::{Election, ElectionView, Phase, MAX_CID_LEN};
use vstd::prelude::*;

verus! {

/// Tells that the commitment to the admitted voters is now `root`.
#[derive(Clone, Copy, Debug, PartialEq, Eq)]
pub struct RootUpdated {
    pub root: [u8; 32],
}

/// What publishing `merkle_root` with the pointer `cid` comes to when
/// `signer` asks for it: the election with both replaced, or the reason why
/// it stays as it is.
pub open spec fn update_root_outcome(
    election: ElectionView,
    signer: Seq<u8>,
    merkle_root: Seq<u8>,
    cid: Seq<char>,
) -> Result<ElectionView, ErrorCode> {
    if election.phase != Phase::Registration {
        Err(ErrorCode::NoRegistrationPhase)
    } else if signer != election.admin {
        Err(ErrorCode::Unauthorised)
    } else {
        Ok(ElectionView { merkle_root, nullifiers_ipfs_cid: cid, ..election })
    }
}

/// Publishes a new commitment to the admitted voters, with the pointer to
/// the full set behind it. Only the admin may do so, and only while the
/// election is in registration. The pointer must fit the record.
pub fn update_root_handler(
    election: &mut Election,
    signer: &[u8; 32],
    merkle_root: [u8; 32],
    ipfs_cid_str: String,
) -> (done: Result<RootUpdated, ErrorCode>)
    requires
        ipfs_cid_str@.len() <= MAX_CID_LEN,
    ensures
        match update_root_outcome(old(election)@, signer@, merkle_root@, ipfs_cid_str@) {
            Ok(next) => done == Ok::<RootUpdated, ErrorCode>(RootUpdated { root: merkle_root })
                && final(election)@ == next,
            Err(e) => done == Err::<RootUpdated, ErrorCode>(e) && final(election)@ == old(
                election,
            )@,
        },
        final(election)@.wf(),
{
    proof {
        use_type_invariant(&*election);
    }
    if election.phase() != Phase::Registration {
        return Err(ErrorCode::NoRegistrationPhase);
    }
    if !election.is_admin(signer) {
        return Err(ErrorCode::Unauthorised);
    }
    election.set_membership(merkle_root, ipfs_cid_str);
    Ok(RootUpdated { root: merkle_root })
}

} // verus!
