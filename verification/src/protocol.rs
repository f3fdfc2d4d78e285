use crate::error::ErrorCode;
use crate::instructions::close_registration::close_registration_outcome;
use crate::instructions::conclude_election::conclude_election_outcome;
use crate::instructions::register_voter::register_voter_outcome;
use crate::instructions::update_root::update_root_outcome;
use crate::instructions::vote::vote_outcome;
use crate::state::{total, ElectionView, Phase, MAX_CID_LEN};
use vstd::prelude::*;

verus! {

/// One operation on an election, with what was submitted. For the two
/// operations that come with a proof, `verdict` is what the check of the
/// proof came to.
pub enum Operation {
    RegisterVoter { verdict: Result<(), ErrorCode> },
    UpdateRoot { signer: Seq<u8>, merkle_root: Seq<u8>, cid: Seq<char> },
    CloseRegistration { signer: Seq<u8> },
    Vote {
        verdict: Result<(), ErrorCode>,
        membership_merkle_root: Seq<u8>,
        new_spent_root: Seq<u8>,
        cid: Seq<char>,
        option: Seq<char>,
    },
    ConcludeElection { signer: Seq<u8> },
}

impl Operation {
    /// Whether what was submitted has the sizes that the operation takes: a
    /// root has 32 bytes, and a pointer at most `MAX_CID_LEN` characters.
    pub open spec fn in_bounds(self) -> bool {
        match self {
            Operation::UpdateRoot { merkle_root, cid, .. } => merkle_root.len() == 32 && cid.len()
                <= MAX_CID_LEN,
            Operation::Vote { new_spent_root, cid, .. } => new_spent_root.len() == 32 && cid.len()
                <= MAX_CID_LEN,
            _ => true,
        }
    }
}

/// What `operation` comes to on `election`: the election after it, or the
/// reason why it is turned down.
pub open spec fn outcome(election: ElectionView, operation: Operation) -> Result<
    ElectionView,
    ErrorCode,
> {
    match operation {
        Operation::RegisterVoter { verdict } => match register_voter_outcome(election, verdict) {
            Ok(()) => Ok(election),
            Err(e) => Err(e),
        },
        Operation::UpdateRoot { signer, merkle_root, cid } => update_root_outcome(
            election,
            signer,
            merkle_root,
            cid,
        ),
        Operation::CloseRegistration { signer } => close_registration_outcome(election, signer),
        Operation::Vote { verdict, membership_merkle_root, new_spent_root, cid, option } => vote_outcome(
            election,
            verdict,
            membership_merkle_root,
            new_spent_root,
            cid,
            option,
        ),
        Operation::ConcludeElection { signer } => conclude_election_outcome(election, signer),
    }
}

/// The election after `operation`: one that is turned down changes nothing.
pub open spec fn step(election: ElectionView, operation: Operation) -> ElectionView {
    match outcome(election, operation) {
        Ok(next) => next,
        Err(_) => election,
    }
}

/// The election after `operations`, one after the other.
pub open spec fn run(election: ElectionView, operations: Seq<Operation>) -> ElectionView
    decreases operations.len(),
{
    if operations.len() == 0 {
        election
    } else {
        step(run(election, operations.drop_last()), operations.last())
    }
}

/// How many of `operations` are votes that were accepted.
pub open spec fn accepted_votes(election: ElectionView, operations: Seq<Operation>) -> nat
    decreases operations.len(),
{
    if operations.len() == 0 {
        0
    } else {
        let before = operations.drop_last();
        let last = operations.last();
        let one: nat = if last is Vote && outcome(run(election, before), last) is Ok {
            1
        } else {
            0
        };
        accepted_votes(election, before) + one
    }
}

/// Whether each of `operations` is in bounds.
pub open spec fn all_in_bounds(operations: Seq<Operation>) -> bool {
    forall|i: int| 0 <= i < operations.len() ==> (#[trigger] operations[i]).in_bounds()
}

/// No operation changes the number of options or the number of tallies.
pub proof fn law_step_keeps_lengths(election: ElectionView, operation: Operation)
    requires
        election.tallies.len() == election.options.len(),
    ensures
        step(election, operation).options.len() == election.options.len(),
        step(election, operation).tallies.len() == election.tallies.len(),
{
}

/// Whatever is done to an election that has as many tallies as options, in
/// whatever order, it has as many tallies as options afterwards.
pub proof fn law_tallies_match_options(election: ElectionView, operations: Seq<Operation>)
    requires
        election.tallies.len() == election.options.len(),
    ensures
        run(election, operations).tallies.len() == run(election, operations).options.len(),
        run(election, operations).options.len() == election.options.len(),
    decreases operations.len(),
{
    if operations.len() > 0 {
        law_tallies_match_options(election, operations.drop_last());
        law_step_keeps_lengths(run(election, operations.drop_last()), operations.last());
    }
}

/// An operation that is in bounds leaves a well-formed election well formed.
pub proof fn law_step_keeps_well_formed(election: ElectionView, operation: Operation)
    requires
        election.wf(),
        operation.in_bounds(),
    ensures
        step(election, operation).wf(),
{
}

/// Whatever is done to a well-formed election, in whatever order, it stays
/// well formed, as long as each operation is in bounds.
pub proof fn law_run_keeps_well_formed(election: ElectionView, operations: Seq<Operation>)
    requires
        election.wf(),
        all_in_bounds(operations),
    ensures
        run(election, operations).wf(),
    decreases operations.len(),
{
    if operations.len() > 0 {
        law_run_keeps_well_formed(election, operations.drop_last());
        law_step_keeps_well_formed(run(election, operations.drop_last()), operations.last());
    }
}

/// Counters that are all zero add up to zero.
pub proof fn lemma_total_of_zeros(tallies: Seq<nat>)
    requires
        forall|i: int| 0 <= i < tallies.len() ==> tallies[i] == 0,
    ensures
        total(tallies) == 0,
    decreases tallies.len(),
{
    if tallies.len() > 0 {
        lemma_total_of_zeros(tallies.drop_last());
    }
}

/// One more at one place is one more in the sum.
pub proof fn lemma_total_after_increment(tallies: Seq<nat>, index: int)
    requires
        0 <= index < tallies.len(),
    ensures
        total(tallies.update(index, tallies[index] + 1)) == total(tallies) + 1,
    decreases tallies.len(),
{
    let after = tallies.update(index, tallies[index] + 1);
    if index == tallies.len() - 1 {
        assert(after.drop_last() =~= tallies.drop_last());
    } else {
        assert(after.drop_last() =~= tallies.drop_last().update(
            index,
            tallies.drop_last()[index] + 1,
        ));
        lemma_total_after_increment(tallies.drop_last(), index);
    }
}

/// An accepted vote adds exactly one to the sum of the tallies, and no other
/// operation changes a tally.
pub proof fn law_step_counts_votes(election: ElectionView, operation: Operation)
    requires
        election.tallies.len() == election.options.len(),
    ensures
        step(election, operation).votes() == election.votes() + (if operation is Vote && outcome(
            election,
            operation,
        ) is Ok {
            1nat
        } else {
            0nat
        }),
{
    if operation is Vote && outcome(election, operation) is Ok {
        let index = election.options.index_of(operation->option);
        lemma_total_after_increment(election.tallies, index);
    }
}

/// After any operations on an election that has as many tallies as options,
/// the tallies have gone up by the number of votes that were accepted among
/// them.
pub proof fn law_votes_add_up(election: ElectionView, operations: Seq<Operation>)
    requires
        election.tallies.len() == election.options.len(),
    ensures
        run(election, operations).votes() == election.votes() + accepted_votes(
            election,
            operations,
        ),
    decreases operations.len(),
{
    if operations.len() > 0 {
        let before = operations.drop_last();
        law_votes_add_up(election, before);
        law_tallies_match_options(election, before);
        law_step_counts_votes(run(election, before), operations.last());
    }
}

/// From its creation on, whatever is done to an election, the tallies add
/// up to the number of votes that were accepted.
pub proof fn law_tallies_sum_to_accepted_votes(
    admin: Seq<u8>,
    name: Seq<char>,
    options: Seq<Seq<char>>,
    operations: Seq<Operation>,
)
    ensures
        run(ElectionView::created(admin, name, options), operations).votes() == accepted_votes(
            ElectionView::created(admin, name, options),
            operations,
        ),
{
    let created = ElectionView::created(admin, name, options);
    lemma_total_of_zeros(created.tallies);
    law_votes_add_up(created, operations);
}

/// A vote for an option that the election does not have is turned down and
/// changes nothing, neither a tally nor the commitment to the spent
/// nullifiers. Where the election is in its voting phase and the proof holds
/// for the membership root of the election, the reason given is
/// `NonExistentOption`.
pub proof fn law_unknown_option_is_turned_down(
    election: ElectionView,
    verdict: Result<(), ErrorCode>,
    membership_merkle_root: Seq<u8>,
    new_spent_root: Seq<u8>,
    cid: Seq<char>,
    option: Seq<char>,
)
    requires
        !election.options.contains(option),
    ensures
        ({
            let vote = Operation::Vote { verdict, membership_merkle_root, new_spent_root, cid, option };
            &&& outcome(election, vote) is Err
            &&& step(election, vote) == election
            &&& (election.phase == Phase::Voting && membership_merkle_root == election.merkle_root
                && verdict is Ok) ==> outcome(election, vote) == Err::<ElectionView, ErrorCode>(
                ErrorCode::NonExistentOption,
            )
        }),
{
}

/// Outside the registration phase, publishing a root is turned down with
/// `NoRegistrationPhase`, whoever asks, and the membership root stays.
pub proof fn law_root_is_fixed_after_registration(
    election: ElectionView,
    signer: Seq<u8>,
    merkle_root: Seq<u8>,
    cid: Seq<char>,
)
    requires
        election.phase != Phase::Registration,
    ensures
        ({
            let update = Operation::UpdateRoot { signer, merkle_root, cid };
            &&& outcome(election, update) == Err::<ElectionView, ErrorCode>(
                ErrorCode::NoRegistrationPhase,
            )
            &&& step(election, update).merkle_root == election.merkle_root
        }),
{
}

/// Who is not the admin cannot close the registration, in whatever phase,
/// cannot publish a root during registration, and cannot conclude the
/// election during voting: each is turned down with `Unauthorised`.
pub proof fn law_only_the_admin(
    election: ElectionView,
    signer: Seq<u8>,
    merkle_root: Seq<u8>,
    cid: Seq<char>,
)
    requires
        signer != election.admin,
    ensures
        outcome(election, Operation::CloseRegistration { signer }) == Err::<
            ElectionView,
            ErrorCode,
        >(ErrorCode::Unauthorised),
        election.phase == Phase::Registration ==> outcome(
            election,
            Operation::UpdateRoot { signer, merkle_root, cid },
        ) == Err::<ElectionView, ErrorCode>(ErrorCode::Unauthorised),
        election.phase == Phase::Voting ==> outcome(
            election,
            Operation::ConcludeElection { signer },
        ) == Err::<ElectionView, ErrorCode>(ErrorCode::Unauthorised),
{
}

/// No operation moves an election back to an earlier phase, and none skips
/// a phase.
pub proof fn law_phase_moves_forward(election: ElectionView, operation: Operation)
    ensures
        election.phase.rank() <= step(election, operation).phase.rank() <= election.phase.rank() + 1,
{
}

/// Whatever is done to an election, it never gets back to an earlier phase.
pub proof fn law_phase_never_goes_back(election: ElectionView, operations: Seq<Operation>)
    ensures
        election.phase.rank() <= run(election, operations).phase.rank(),
    decreases operations.len(),
{
    if operations.len() > 0 {
        law_phase_never_goes_back(election, operations.drop_last());
        law_phase_moves_forward(run(election, operations.drop_last()), operations.last());
    }
}

/// Once an election is concluded, every operation is turned down, and the
/// election stays as it is.
pub proof fn law_concluded_is_final(election: ElectionView, operation: Operation)
    requires
        election.phase == Phase::Concluded,
    ensures
        outcome(election, operation) is Err,
        step(election, operation) == election,
{
}

/// No operation changes the admin, the name or the options.
pub proof fn law_setup_is_fixed(election: ElectionView, operation: Operation)
    ensures
        step(election, operation).admin == election.admin,
        step(election, operation).name == election.name,
        step(election, operation).options == election.options,
{
}

/// No operation lowers a tally.
pub proof fn law_tallies_never_go_down(election: ElectionView, operation: Operation, index: int)
    requires
        election.tallies.len() == election.options.len(),
        0 <= index < election.tallies.len(),
    ensures
        step(election, operation).tallies.len() == election.tallies.len(),
        step(election, operation).tallies[index] >= election.tallies[index],
{
}

/// The commitment to the admitted voters and its pointer change during
/// registration only; the commitment to the spent nullifiers and its
/// pointer change during voting only.
pub proof fn law_commitments_change_in_their_phase(election: ElectionView, operation: Operation)
    ensures
        election.phase != Phase::Registration ==> step(election, operation).merkle_root
            == election.merkle_root && step(election, operation).nullifiers_ipfs_cid
            == election.nullifiers_ipfs_cid,
        election.phase != Phase::Voting ==> step(election, operation).spent_tree
            == election.spent_tree && step(election, operation).spent_nullifiers_ipfs_cid
            == election.spent_nullifiers_ipfs_cid,
{
}

} // verus!
