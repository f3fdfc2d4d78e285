use vstd::prelude::*;

verus! {

/// The longest name of an election, in characters.
pub const MAX_NAME_LEN: usize = 32;

/// The longest pointer to an off-ledger set, in characters.
pub const MAX_CID_LEN: usize = 59;

/// The largest number of options of one election.
pub const MAX_OPTIONS: usize = 20;

/// The longest label of an option, in characters.
pub const MAX_OPTION_LEN: usize = 20;

/// Where an election stands. It only ever moves forward:
/// `Registration`, then `Voting`, then `Concluded`.
#[derive(Clone, Copy, Debug, PartialEq, Eq, Structural)]
pub enum Phase {
    Registration,
    Voting,
    Concluded,
}

impl Phase {
    /// The place of the phase in the life of an election.
    pub open spec fn rank(self) -> nat {
        match self {
            Phase::Registration => 0,
            Phase::Voting => 1,
            Phase::Concluded => 2,
        }
    }

    /// The three flags under which a phase is stored, in this order:
    /// registration is open, voting is open, voting is concluded.
    pub open spec fn spec_flags(self) -> (bool, bool, bool) {
        match self {
            Phase::Registration => (true, false, false),
            Phase::Voting => (false, true, false),
            Phase::Concluded => (false, true, true),
        }
    }

    /// The three flags under which the phase is stored.
    pub fn flags(self) -> (flags: (bool, bool, bool))
        ensures
            flags == self.spec_flags(),
    {
        match self {
            Phase::Registration => (true, false, false),
            Phase::Voting => (false, true, false),
            Phase::Concluded => (false, true, true),
        }
    }

    /// The phase that three stored flags stand for. Of the eight ways to set
    /// them, three stand for a phase; the others mean nothing.
    pub fn from_flags(
        is_registration_open: bool,
        is_voting_open: bool,
        is_voting_concluded: bool,
    ) -> (phase: Option<Phase>)
        ensures
            phase matches Some(p) ==> p.spec_flags() == (
                is_registration_open,
                is_voting_open,
                is_voting_concluded,
            ),
            phase is None ==> forall|p: Phase|
                p.spec_flags() != (is_registration_open, is_voting_open, is_voting_concluded),
    {
        if is_registration_open && !is_voting_open && !is_voting_concluded {
            Some(Phase::Registration)
        } else if !is_registration_open && is_voting_open && !is_voting_concluded {
            Some(Phase::Voting)
        } else if !is_registration_open && is_voting_open && is_voting_concluded {
            Some(Phase::Concluded)
        } else {
            None
        }
    }
}

/// An election as a mathematical value: what the contracts speak of.
pub struct ElectionView {
    pub admin: Seq<u8>,
    pub name: Seq<char>,
    pub phase: Phase,
    pub merkle_root: Seq<u8>,
    pub nullifiers_ipfs_cid: Seq<char>,
    pub spent_tree: Seq<u8>,
    pub spent_nullifiers_ipfs_cid: Seq<char>,
    pub options: Seq<Seq<char>>,
    pub tallies: Seq<nat>,
}

/// The root of a set to which nothing has been added yet: 32 zero bytes.
pub open spec fn empty_root() -> Seq<u8> {
    Seq::new(32, |i: int| 0u8)
}

/// Whether an election may be created under `name` with `options`: the name
/// and every label fit their bounds, there is at least one option and at
/// most `MAX_OPTIONS`, and no label occurs twice.
pub open spec fn valid_setup(name: Seq<char>, options: Seq<Seq<char>>) -> bool {
    &&& name.len() <= MAX_NAME_LEN
    &&& 1 <= options.len() <= MAX_OPTIONS
    &&& forall|i: int| 0 <= i < options.len() ==> (#[trigger] options[i]).len() <= MAX_OPTION_LEN
    &&& options.no_duplicates()
}

/// The sum of the counters.
pub open spec fn total(tallies: Seq<nat>) -> nat
    decreases tallies.len(),
{
    if tallies.len() == 0 {
        0
    } else {
        total(tallies.drop_last()) + tallies.last()
    }
}

impl ElectionView {
    /// What holds of every election, whatever has been done to it.
    pub open spec fn wf(self) -> bool {
        &&& self.admin.len() == 32
        &&& self.merkle_root.len() == 32
        &&& self.spent_tree.len() == 32
        &&& self.nullifiers_ipfs_cid.len() <= MAX_CID_LEN
        &&& self.spent_nullifiers_ipfs_cid.len() <= MAX_CID_LEN
        &&& valid_setup(self.name, self.options)
        &&& self.tallies.len() == self.options.len()
    }

    /// The election that `admin` creates under `name` with `options`.
    pub open spec fn created(admin: Seq<u8>, name: Seq<char>, options: Seq<Seq<char>>) -> Self {
        ElectionView {
            admin,
            name,
            phase: Phase::Registration,
            merkle_root: empty_root(),
            nullifiers_ipfs_cid: Seq::empty(),
            spent_tree: empty_root(),
            spent_nullifiers_ipfs_cid: Seq::empty(),
            options,
            tallies: Seq::new(options.len(), |i: int| 0nat),
        }
    }

    /// The votes counted so far, over all options.
    pub open spec fn votes(self) -> nat {
        total(self.tallies)
    }

    /// The election after one more vote for the option at `index`, with the
    /// commitment to the spent nullifiers and its pointer replaced.
    pub open spec fn counted(self, index: int, spent_tree: Seq<u8>, cid: Seq<char>) -> Self {
        ElectionView {
            tallies: self.tallies.update(index, self.tallies[index] + 1),
            spent_tree,
            spent_nullifiers_ipfs_cid: cid,
            ..self
        }
    }
}

/// The election that the given parts make.
pub open spec fn assembled(
    admin: Seq<u8>,
    name: Seq<char>,
    phase: Phase,
    merkle_root: Seq<u8>,
    nullifiers_ipfs_cid: Seq<char>,
    spent_tree: Seq<u8>,
    spent_nullifiers_ipfs_cid: Seq<char>,
    options: Seq<Seq<char>>,
    tallies: Seq<nat>,
) -> ElectionView {
    ElectionView {
        admin,
        name,
        phase,
        merkle_root,
        nullifiers_ipfs_cid,
        spent_tree,
        spent_nullifiers_ipfs_cid,
        options,
        tallies,
    }
}

/// The counters as natural numbers.
pub open spec fn counts(tallies: Seq<u64>) -> Seq<nat> {
    Seq::new(tallies.len(), |i: int| tallies[i] as nat)
}

/// The labels as sequences of characters.
pub open spec fn labels(options: Seq<String>) -> Seq<Seq<char>> {
    Seq::new(options.len(), |i: int| options[i]@)
}

/// One election: its configuration, its phase, the two commitments and the
/// tallies. Its fields change through the operations of this library only,
/// so `self@.wf()` holds of every value of this type.
pub struct Election {
    admin: [u8; 32],
    name: String,
    phase: Phase,
    merkle_root: [u8; 32],
    nullifiers_ipfs_cid: String,
    spent_tree: [u8; 32],
    spent_nullifiers_ipfs_cid: String,
    options: Vec<String>,
    tallies: Vec<u64>,
}

impl View for Election {
    type V = ElectionView;

    closed spec fn view(&self) -> ElectionView {
        ElectionView {
            admin: self.admin@,
            name: self.name@,
            phase: self.phase,
            merkle_root: self.merkle_root@,
            nullifiers_ipfs_cid: self.nullifiers_ipfs_cid@,
            spent_tree: self.spent_tree@,
            spent_nullifiers_ipfs_cid: self.spent_nullifiers_ipfs_cid@,
            options: labels(self.options@),
            tallies: counts(self.tallies@),
        }
    }
}

impl Election {
    /// What holds of every election at all times: it is well formed.
    #[verifier::type_invariant]
    pub open spec fn inv(&self) -> bool {
        self@.wf()
    }

    /// The election that `admin` creates under `name` with `options`: in
    /// registration, with empty commitments and every tally at zero.
    pub(crate) fn create(admin: [u8; 32], name: String, options: Vec<String>) -> (election: Election)
        requires
            valid_setup(name@, labels(options@)),
        ensures
            election@ == ElectionView::created(admin@, name@, labels(options@)),
    {
        let tallies: Vec<u64> = vec![0u64; options.len()];
        let election = Election {
            admin,
            name,
            phase: Phase::Registration,
            merkle_root: [0u8; 32],
            nullifiers_ipfs_cid: String::new(),
            spent_tree: [0u8; 32],
            spent_nullifiers_ipfs_cid: String::new(),
            options,
            tallies,
        };
        assert(election@.merkle_root =~= empty_root());
        assert(election@.spent_tree =~= empty_root());
        assert(election@.tallies =~= Seq::new(election@.options.len(), |i: int| 0nat));
        election
    }

    /// Puts an election together from its stored parts, if they make one.
    pub fn from_parts(
        admin: [u8; 32],
        name: String,
        phase: Phase,
        merkle_root: [u8; 32],
        nullifiers_ipfs_cid: String,
        spent_tree: [u8; 32],
        spent_nullifiers_ipfs_cid: String,
        options: Vec<String>,
        tallies: Vec<u64>,
    ) -> (election: Option<Election>)
        ensures
            election is Some <==> assembled(
                admin@,
                name@,
                phase,
                merkle_root@,
                nullifiers_ipfs_cid@,
                spent_tree@,
                spent_nullifiers_ipfs_cid@,
                labels(options@),
                counts(tallies@),
            ).wf(),
            election matches Some(e) ==> e@ == assembled(
                admin@,
                name@,
                phase,
                merkle_root@,
                nullifiers_ipfs_cid@,
                spent_tree@,
                spent_nullifiers_ipfs_cid@,
                labels(options@),
                counts(tallies@),
            ),
    {
        if !fits(&nullifiers_ipfs_cid, MAX_CID_LEN) || !fits(&spent_nullifiers_ipfs_cid, MAX_CID_LEN)
            || !setup_is_valid(&name, &options) || tallies.len() != options.len() {
            return None;
        }
        Some(
            Election {
                admin,
                name,
                phase,
                merkle_root,
                nullifiers_ipfs_cid,
                spent_tree,
                spent_nullifiers_ipfs_cid,
                options,
                tallies,
            },
        )
    }

    /// The identity that created the election. It never changes.
    pub fn admin(&self) -> (admin: &[u8; 32])
        ensures
            admin@ == self@.admin,
    {
        &self.admin
    }

    /// The name of the election.
    pub fn name(&self) -> (name: &String)
        ensures
            name@ == self@.name,
            name@.len() <= MAX_NAME_LEN,
    {
        proof {
            use_type_invariant(self);
        }
        &self.name
    }

    /// The phase of the election.
    pub fn phase(&self) -> (phase: Phase)
        ensures
            phase == self@.phase,
    {
        self.phase
    }

    /// The commitment to the set of admitted voters.
    pub fn merkle_root(&self) -> (root: &[u8; 32])
        ensures
            root@ == self@.merkle_root,
    {
        &self.merkle_root
    }

    /// The pointer to the full set of admitted voters.
    pub fn nullifiers_ipfs_cid(&self) -> (cid: &String)
        ensures
            cid@ == self@.nullifiers_ipfs_cid,
            cid@.len() <= MAX_CID_LEN,
    {
        proof {
            use_type_invariant(self);
        }
        &self.nullifiers_ipfs_cid
    }

    /// The commitment to the set of nullifiers that have voted.
    pub fn spent_tree(&self) -> (root: &[u8; 32])
        ensures
            root@ == self@.spent_tree,
    {
        &self.spent_tree
    }

    /// The pointer to the full set of nullifiers that have voted.
    pub fn spent_nullifiers_ipfs_cid(&self) -> (cid: &String)
        ensures
            cid@ == self@.spent_nullifiers_ipfs_cid,
            cid@.len() <= MAX_CID_LEN,
    {
        proof {
            use_type_invariant(self);
        }
        &self.spent_nullifiers_ipfs_cid
    }

    /// The options, in the order in which they were given.
    pub fn options(&self) -> (options: &Vec<String>)
        ensures
            labels(options@) == self@.options,
            self@.wf(),
    {
        proof {
            use_type_invariant(self);
        }
        &self.options
    }

    /// The tallies: one counter for each option, in the order of the options.
    pub fn tallies(&self) -> (tallies: &Vec<u64>)
        ensures
            counts(tallies@) == self@.tallies,
            tallies@.len() == self@.options.len(),
            self@.wf(),
    {
        proof {
            use_type_invariant(self);
        }
        &self.tallies
    }

    /// Whether `signer` is the admin of the election.
    pub fn is_admin(&self, signer: &[u8; 32]) -> (yes: bool)
        ensures
            yes == (signer@ == self@.admin),
    {
        same_bytes(signer, &self.admin)
    }

    /// The place of `option` among the options, if it is one of them.
    pub fn find_option(&self, option: &String) -> (found: Option<usize>)
        ensures
            found is Some <==> self@.options.contains(option@),
            found matches Some(i) ==> i == self@.options.index_of(option@) && i < self@.options.len(),
    {
        proof {
            use_type_invariant(self);
        }
        let n: usize = self.options.len();
        let mut i: usize = 0;
        while i < n
            invariant
                i <= n,
                n == self.options@.len(),
                self@.options == labels(self.options@),
                self@.options.no_duplicates(),
                forall|j: int| 0 <= j < i ==> self@.options[j] != option@,
            decreases n - i,
        {
            if self.options[i] == *option {
                assert(self@.options[i as int] == option@);
                return Some(i);
            }
            i += 1;
        }
        None
    }

    /// Moves the election to `phase`.
    pub(crate) fn set_phase(&mut self, phase: Phase)
        ensures
            final(self)@ == (ElectionView { phase, ..old(self)@ }),
    {
        proof {
            use_type_invariant(&*self);
        }
        self.phase = phase;
    }

    /// Replaces the commitment to the admitted voters and its pointer.
    pub(crate) fn set_membership(&mut self, merkle_root: [u8; 32], cid: String)
        requires
            cid@.len() <= MAX_CID_LEN,
        ensures
            final(self)@ == (ElectionView {
                merkle_root: merkle_root@,
                nullifiers_ipfs_cid: cid@,
                ..old(self)@
            }),
    {
        proof {
            use_type_invariant(&*self);
        }
        self.merkle_root = merkle_root;
        self.nullifiers_ipfs_cid = cid;
    }

    /// Counts one vote for the option at `index`, and replaces the
    /// commitment to the spent nullifiers and its pointer.
    pub(crate) fn count_vote(&mut self, index: usize, spent_tree: [u8; 32], cid: String)
        requires
            index < old(self)@.options.len(),
            old(self)@.tallies[index as int] < u64::MAX,
            cid@.len() <= MAX_CID_LEN,
        ensures
            final(self)@ == old(self)@.counted(index as int, spent_tree@, cid@),
    {
        proof {
            use_type_invariant(&*self);
        }
        let tally: u64 = self.tallies[index];
        self.tallies[index] = tally + 1;
        self.spent_tree = spent_tree;
        self.spent_nullifiers_ipfs_cid = cid;
        assert(counts(self.tallies@) =~= counts(old(self).tallies@).update(
            index as int,
            counts(old(self).tallies@)[index as int] + 1,
        ));
    }
}

/// Whether two identities or roots are the same.
pub fn same_bytes(a: &[u8; 32], b: &[u8; 32]) -> (same: bool)
    ensures
        same == (a@ == b@),
{
    let mut i: usize = 0;
    while i < 32
        invariant
            i <= 32,
            forall|j: int| 0 <= j < i ==> a@[j] == b@[j],
        decreases 32 - i,
    {
        if a[i] != b[i] {
            return false;
        }
        i += 1;
    }
    assert(a@ =~= b@);
    true
}

/// Whether `text` has at most `limit` characters.
pub fn fits(text: &String, limit: usize) -> (yes: bool)
    ensures
        yes == (text@.len() <= limit),
{
    text.as_str().unicode_len() <= limit
}

/// Whether an election may be created under `name` with `options`.
pub fn setup_is_valid(name: &String, options: &Vec<String>) -> (valid: bool)
    ensures
        valid == valid_setup(name@, labels(options@)),
{
    let n: usize = options.len();
    if !fits(name, MAX_NAME_LEN) || n < 1 || n > MAX_OPTIONS {
        return false;
    }
    let ghost all = labels(options@);
    let mut i: usize = 0;
    while i < n
        invariant
            i <= n,
            n == options@.len(),
            all == labels(options@),
            forall|a: int| 0 <= a < i ==> (#[trigger] all[a]).len() <= MAX_OPTION_LEN,
            forall|a: int, b: int| 0 <= a < i && a < b < n ==> all[a] != all[b],
        decreases n - i,
    {
        if !fits(&options[i], MAX_OPTION_LEN) {
            assert(!(all[i as int].len() <= MAX_OPTION_LEN));
            return false;
        }
        let mut j: usize = i + 1;
        while j < n
            invariant
                i < j <= n,
                n == options@.len(),
                all == labels(options@),
                forall|b: int| i < b < j ==> all[i as int] != all[b],
            decreases n - j,
        {
            if options[i] == options[j] {
                assert(all[i as int] == all[j as int]);
                return false;
            }
            j += 1;
        }
        i += 1;
    }
    true
}

} // verus!
