use crate::error::ErrorCode;
use crate::state::{same_bytes, Election, ElectionView, Phase, MAX_CID_LEN};
use crate::zk::groth16::{proof_verdict, rows, verify_proof};
use crate::zk::VerifyingKeys;
use vstd::prelude::*;

verus! {

/// Tells that a vote for `option` was counted.
#[derive(Debug, PartialEq, Eq)]
pub struct VoteAdded {
    pub option: String,
}

/// What a vote comes to, given what the check of its proof has come to: the
/// election with the vote counted, or the reason why it stays as it is.
///
/// The checks come in this order: the phase; the membership root that the
/// proof was made for, which must be the one that the election holds, or
/// else the proof proves nothing of this election; the proof; the option.
pub open spec fn vote_outcome(
    election: ElectionView,
    verdict: Result<(), ErrorCode>,
    membership_merkle_root: Seq<u8>,
    new_spent_root: Seq<u8>,
    cid: Seq<char>,
    option: Seq<char>,
) -> Result<ElectionView, ErrorCode> {
    if election.phase != Phase::Voting {
        Err(ErrorCode::NoVotingPhase)
    } else if membership_merkle_root != election.merkle_root {
        Err(ErrorCode::Groth16VerificationFailed)
    } else if verdict is Err {
        Err(verdict->Err_0)
    } else if !election.options.contains(option) {
        Err(ErrorCode::NonExistentOption)
    } else {
        Ok(election.counted(election.options.index_of(option), new_spent_root, cid))
    }
}

/// Whether the tally of `option` can take one more vote. It always can
/// where `option` is none of the options.
pub open spec fn has_room(election: ElectionView, option: Seq<char>) -> bool {
    election.options.contains(option) ==> election.tallies[election.options.index_of(option)]
        < u64::MAX
}

/// Whether the tally of `option` can take one more vote.
pub fn has_room_for(election: &Election, option: &String) -> (yes: bool)
    ensures
        yes == has_room(election@, option@),
{
    match election.find_option(option) {
        None => true,
        Some(index) => election.tallies()[index] < u64::MAX,
    }
}

/// Decides on a vote for `option`, given the `verdict` on its proof, and
/// counts it where it is accepted: the tally of the option goes up by one,
/// and the commitment to the spent nullifiers and its pointer are replaced
/// by `new_spent_root` and `spent_nullifiers_ipfs_cid`.
///
/// The pointer must fit the record, and the tally of the option must be
/// below the largest number that it can hold: see `has_room_for`.
pub fn record_vote(
    election: &mut Election,
    verdict: Result<(), ErrorCode>,
    membership_merkle_root: [u8; 32],
    new_spent_root: [u8; 32],
    spent_nullifiers_ipfs_cid: String,
    option: String,
) -> (done: Result<VoteAdded, ErrorCode>)
    requires
        spent_nullifiers_ipfs_cid@.len() <= MAX_CID_LEN,
        has_room(old(election)@, option@),
    ensures
        match vote_outcome(
            old(election)@,
            verdict,
            membership_merkle_root@,
            new_spent_root@,
            spent_nullifiers_ipfs_cid@,
            option@,
        ) {
            Ok(next) => done matches Ok(added) && added.option == option && final(election)@
                == next,
            Err(e) => done == Err::<VoteAdded, ErrorCode>(e) && final(election)@ == old(
                election,
            )@,
        },
        final(election)@.wf(),
{
    proof {
        use_type_invariant(&*election);
    }
    if election.phase() != Phase::Voting {
        return Err(ErrorCode::NoVotingPhase);
    }
    if !same_bytes(&membership_merkle_root, election.merkle_root()) {
        return Err(ErrorCode::Groth16VerificationFailed);
    }
    match verdict {
        Err(e) => {
            return Err(e);
        },
        Ok(()) => {},
    }
    match election.find_option(&option) {
        None => Err(ErrorCode::NonExistentOption),
        Some(index) => {
            election.count_vote(index, new_spent_root, spent_nullifiers_ipfs_cid);
            Ok(VoteAdded { option })
        },
    }
}

/// Casts a vote for `option`. The election must be in its voting phase, and
/// the proof must hold for the two public inputs `membership_merkle_root`
/// and `new_spent_root`, under the key of the voting circuit; the first of
/// them must be the membership root that the election holds.
///
/// The pointer must fit the record, and the tally of the option must be
/// below the largest number that it can hold: see `has_room_for`.
pub fn vote_handler(
    election: &mut Election,
    keys: &VerifyingKeys,
    proof_a: [u8; 64],
    proof_b: [u8; 128],
    proof_c: [u8; 64],
    membership_merkle_root: [u8; 32],
    new_spent_root: [u8; 32],
    spent_nullifiers_ipfs_cid: String,
    option: String,
) -> (done: Result<VoteAdded, ErrorCode>)
    requires
        spent_nullifiers_ipfs_cid@.len() <= MAX_CID_LEN,
        has_room(old(election)@, option@),
    ensures
        match vote_outcome(
            old(election)@,
            proof_verdict(
                proof_a@,
                proof_b@,
                proof_c@,
                seq![membership_merkle_root@, new_spent_root@],
                keys.vote@,
            ),
            membership_merkle_root@,
            new_spent_root@,
            spent_nullifiers_ipfs_cid@,
            option@,
        ) {
            Ok(next) => done matches Ok(added) && added.option == option && final(election)@
                == next,
            Err(e) => done == Err::<VoteAdded, ErrorCode>(e) && final(election)@ == old(
                election,
            )@,
        },
        final(election)@.wf(),
{
    proof {
        use_type_invariant(&*election);
    }
    if election.phase() != Phase::Voting {
        return Err(ErrorCode::NoVotingPhase);
    }
    if !same_bytes(&membership_merkle_root, election.merkle_root()) {
        return Err(ErrorCode::Groth16VerificationFailed);
    }
    let public_inputs: [[u8; 32]; 2] = [membership_merkle_root, new_spent_root];
    assert(rows(public_inputs@) =~= seq![membership_merkle_root@, new_spent_root@]);
    let verdict = verify_proof(proof_a, proof_b, proof_c, public_inputs, &keys.vote);
    record_vote(
        election,
        verdict,
        membership_merkle_root,
        new_spent_root,
        spent_nullifiers_ipfs_cid,
        option,
    )
}

} // verus!
