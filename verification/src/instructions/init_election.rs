use crate::state::{labels, valid_setup, setup_is_valid, Election, ElectionView};
use vstd::prelude::*;

verus! {

/// Creates the election that `signer` sets up under `name` with `options`.
/// `signer` becomes its admin. The election starts in registration, with
/// empty commitments and every tally at zero.
///
/// Nothing is created where the name or a label is too long, where there is
/// no option or there are more than the record can hold, or where a label
/// occurs twice.
pub fn init_election_handler(signer: [u8; 32], name: String, options: Vec<String>) -> (election:
    Option<Election>)
    ensures
        election is Some <==> valid_setup(name@, labels(options@)),
        election matches Some(e) ==> e@ == ElectionView::created(signer@, name@, labels(options@))
            && e@.wf(),
{
    if !setup_is_valid(&name, &options) {
        return None;
    }
    Some(Election::create(signer, name, options))
}

} // verus!
