//! Proposals: what is put to the vote, when, and what has been counted.

use vstd::prelude::*;
use crate::pubkey::Pubkey;

verus! {

/// The largest number of votes that one option can hold.
pub open spec fn max_votes() -> nat {
    u64::MAX as nat
}

/// The number of options that a vote can name: a vote names its option by
/// an index of one byte.
pub const MAX_VOTABLE: usize = 256;

/// The counters as natural numbers.
pub open spec fn as_nats(counters: Seq<u64>) -> Seq<nat> {
    Seq::new(counters.len(), |i: int| counters[i] as nat)
}

/// The labels as sequences of characters.
pub open spec fn labels(options: Seq<String>) -> Seq<Seq<char>> {
    Seq::new(options.len(), |i: int| options[i]@)
}

/// The identities as sequences of bytes.
pub open spec fn identities(keys: Seq<Pubkey>) -> Seq<Seq<u8>> {
    Seq::new(keys.len(), |i: int| keys[i]@)
}

/// The mathematical content of a [`Proposal`].
pub ghost struct ProposalView {
    /// Who created the proposal.
    pub creator: Seq<u8>,
    /// What the proposal is called.
    pub title: Seq<char>,
    /// What the proposal is about.
    pub description: Seq<char>,
    /// The labels of the options, in order.
    pub options: Seq<Seq<char>>,
    /// The first instant at which votes are taken.
    pub start_time: int,
    /// The last instant at which votes are taken.
    pub end_time: int,
    /// The weight counted for each option, in the order of the options.
    pub votes: Seq<nat>,
    /// Who has voted, in the order of the votes.
    pub voters: Seq<Seq<u8>>,
    /// The option that the last tally found to lead, if any.
    pub winner_index: Option<nat>,
}

impl ProposalView {
    /// What holds of every proposal: each option has one counter, and no
    /// counter is beyond what it can hold; nobody is recorded twice as a
    /// voter; a winner is one of the options; and the options that no vote can
    /// name have no votes.
    pub open spec fn well_formed(self) -> bool {
        &&& self.votes.len() == self.options.len()
        &&& forall|i: int| 0 <= i < self.votes.len() ==> self.votes[i] <= max_votes()
        &&& forall|i: int| MAX_VOTABLE <= i < self.votes.len() ==> self.votes[i] == 0
        &&& self.voters.no_duplicates()
        &&& (self.winner_index matches Some(w) ==> w < self.options.len())
    }

    /// Whether `who` has voted.
    pub open spec fn has_voted(self, who: Seq<u8>) -> bool {
        self.voters.contains(who)
    }
}

/// A proposal with its schedule, its counters and its outcome.
///
/// Every proposal is well formed, in the sense of
/// [`ProposalView::well_formed`]: a proposal is made by
/// [`create_proposal`](crate::create_proposal) or by
/// [`Proposal::from_parts`], and changed by [`vote`](crate::vote) and
/// [`tally_votes`](crate::tally_votes) only, and each of them says in its
/// contract that the proposal it took and the proposal it leaves are well
/// formed.
#[derive(Debug)]
pub struct Proposal {
    pub(crate) creator: Pubkey,
    pub(crate) title: String,
    pub(crate) description: String,
    pub(crate) options: Vec<String>,
    pub(crate) start_time: i64,
    pub(crate) end_time: i64,
    pub(crate) votes: Vec<u64>,
    pub(crate) voters: Vec<Pubkey>,
    pub(crate) winner_index: Option<u8>,
}

impl View for Proposal {
    type V = ProposalView;

    closed spec fn view(&self) -> ProposalView {
        self.model()
    }
}

impl Proposal {
    /// The room in bytes that a stored proposal is given: for the creator, the
    /// title and the description, the two ends of the window, ten options
    /// with their counters, a hundred voters and the winner.
    pub const LEN: usize = 32 + 256 + 256 + 8 + 8 + (4 + 8) * 10 + (32 * 100) + 1;

    /// The view of a proposal, field by field.
    pub(crate) open spec fn model(&self) -> ProposalView {
        ProposalView {
            creator: self.creator@,
            title: self.title@,
            description: self.description@,
            options: labels(self.options@),
            start_time: self.start_time as int,
            end_time: self.end_time as int,
            votes: as_nats(self.votes@),
            voters: identities(self.voters@),
            winner_index: match self.winner_index {
                Some(w) => Some(w as nat),
                None => None,
            },
        }
    }

    /// Well-formedness, said of the fields.
    #[verifier::type_invariant]
    pub(crate) open spec fn inv(&self) -> bool {
        &&& self.votes@.len() == self.options@.len()
        &&& forall|i: int| MAX_VOTABLE <= i < self.votes@.len() ==> self.votes@[i] == 0
        &&& forall|i: int, j: int|
            0 <= i < j < self.voters@.len() ==> self.voters@[i]@ != self.voters@[j]@
        &&& (self.winner_index matches Some(w) ==> w < self.options@.len())
    }

    /// The view is the model, and a proposal that keeps its invariant is well
    /// formed.
    pub(crate) proof fn view_is_model(&self)
        ensures
            self@ == self.model(),
            self.inv() ==> self@.well_formed(),
    {
    }

    /// Whether `who` has voted on the proposal.
    pub fn has_voted(&self, who: &Pubkey) -> (r: bool)
        ensures
            r == self@.has_voted(who@),
    {
        let mut i: usize = 0;
        while i < self.voters.len()
            invariant
                i <= self.voters@.len(),
                forall|j: int| 0 <= j < i ==> self.voters@[j]@ != who@,
            decreases self.voters@.len() - i,
        {
            if self.voters[i].same(who) {
                assert(self@.voters[i as int] == who@);
                return true;
            }
            i += 1;
        }
        false
    }

    /// Puts a proposal together from its parts, as they were kept.
    ///
    /// The parts are refused where they do not make a well-formed proposal:
    /// where the counters are not as many as the options, an option that no
    /// vote can name has votes, a voter is recorded twice, or the winner is
    /// none of the options.
    pub fn from_parts(
        creator: Pubkey,
        title: String,
        description: String,
        options: Vec<String>,
        start_time: i64,
        end_time: i64,
        votes: Vec<u64>,
        voters: Vec<Pubkey>,
        winner_index: Option<u8>,
    ) -> (r: Option<Proposal>)
        ensures
            ({
                let parts = ProposalView {
                    creator: creator@,
                    title: title@,
                    description: description@,
                    options: labels(options@),
                    start_time: start_time as int,
                    end_time: end_time as int,
                    votes: as_nats(votes@),
                    voters: identities(voters@),
                    winner_index: match winner_index {
                        Some(w) => Some(w as nat),
                        None => None,
                    },
                };
                match r {
                    Some(proposal) => parts.well_formed() && proposal@ == parts,
                    None => !parts.well_formed(),
                }
            }),
    {
        if votes.len() != options.len() {
            return None;
        }
        let ghost parts = ProposalView {
            creator: creator@,
            title: title@,
            description: description@,
            options: labels(options@),
            start_time: start_time as int,
            end_time: end_time as int,
            votes: as_nats(votes@),
            voters: identities(voters@),
            winner_index: match winner_index {
                Some(w) => Some(w as nat),
                None => None,
            },
        };
        if !silent_from(&votes, MAX_VOTABLE) {
            proof {
                let i = choose|i: int| MAX_VOTABLE <= i < votes@.len() && votes@[i] != 0;
                assert(parts.votes[i] != 0);
            }
            return None;
        }
        if !all_distinct(&voters) {
            proof {
                let (i, j) = choose|i: int, j: int|
                    0 <= i < j < voters@.len() && voters@[i]@ == voters@[j]@;
                assert(parts.voters[i] == parts.voters[j]);
            }
            return None;
        }
        match winner_index {
            Some(w) => {
                if w as usize >= options.len() {
                    return None;
                }
            },
            None => {},
        }
        Some(
            Proposal {
                creator,
                title,
                description,
                options,
                start_time,
                end_time,
                votes,
                voters,
                winner_index,
            },
        )
    }

    /// Who created the proposal.
    pub fn creator(&self) -> (creator: Pubkey)
        ensures
            creator@ == self@.creator,
    {
        self.creator
    }

    /// The title.
    pub fn title(&self) -> (title: &String)
        ensures
            title@ == self@.title,
    {
        &self.title
    }

    /// The description.
    pub fn description(&self) -> (description: &String)
        ensures
            description@ == self@.description,
    {
        &self.description
    }

    /// The labels of the options, in order.
    pub fn options(&self) -> (options: &Vec<String>)
        ensures
            labels(options@) == self@.options,
            self@.well_formed(),
    {
        proof {
            use_type_invariant(self);
        }
        &self.options
    }

    /// The first instant at which votes are taken.
    pub fn start_time(&self) -> (start_time: i64)
        ensures
            start_time == self@.start_time,
    {
        self.start_time
    }

    /// The last instant at which votes are taken.
    pub fn end_time(&self) -> (end_time: i64)
        ensures
            end_time == self@.end_time,
    {
        self.end_time
    }

    /// The weight counted for each option, in the order of the options.
    pub fn votes(&self) -> (votes: &Vec<u64>)
        ensures
            as_nats(votes@) == self@.votes,
            self@.well_formed(),
    {
        proof {
            use_type_invariant(self);
        }
        &self.votes
    }

    /// Who has voted, in the order of the votes.
    pub fn voters(&self) -> (voters: &Vec<Pubkey>)
        ensures
            identities(voters@) == self@.voters,
            self@.well_formed(),
    {
        proof {
            use_type_invariant(self);
        }
        &self.voters
    }

    /// The option that the last tally found to lead, if any.
    pub fn winner_index(&self) -> (winner_index: Option<u8>)
        ensures
            match winner_index {
                Some(w) => self@.winner_index == Some(w as nat),
                None => self@.winner_index is None,
            },
            self@.well_formed(),
    {
        proof {
            use_type_invariant(self);
        }
        self.winner_index
    }
}

/// Whether every counter from the place `from` on is zero.
fn silent_from(votes: &Vec<u64>, from: usize) -> (r: bool)
    ensures
        r == forall|i: int| from <= i < votes@.len() ==> votes@[i] == 0,
{
    let mut i: usize = from;
    while i < votes.len()
        invariant
            from <= i,
            forall|j: int| from <= j < i && j < votes@.len() ==> votes@[j] == 0,
        decreases votes@.len() - i,
    {
        if votes[i] != 0 {
            return false;
        }
        i += 1;
    }
    true
}

/// Whether no identity occurs twice.
fn all_distinct(keys: &Vec<Pubkey>) -> (r: bool)
    ensures
        r == forall|i: int, j: int| 0 <= i < j < keys@.len() ==> keys@[i]@ != keys@[j]@,
{
    let mut j: usize = 0;
    while j < keys.len()
        invariant
            j <= keys@.len(),
            forall|a: int, b: int| 0 <= a < b < j ==> keys@[a]@ != keys@[b]@,
        decreases keys@.len() - j,
    {
        let mut i: usize = 0;
        while i < j
            invariant
                i <= j < keys@.len(),
                forall|a: int| 0 <= a < i ==> keys@[a]@ != keys@[j as int]@,
            decreases j - i,
        {
            if keys[i].same(&keys[j]) {
                return false;
            }
            i += 1;
        }
        j += 1;
    }
    true
}

} // verus!
