//! Tallying: which option leads once the window has closed.

use vstd::prelude::*;
use crate::error::CustomError;
use crate::proposal::{as_nats, Proposal, ProposalView};

verus! {

/// The option at `i` leads among the first `upto` options: it has votes, more
/// than every option before it, and no option after it has more.
pub open spec fn leads_among(votes: Seq<nat>, i: int, upto: int) -> bool {
    &&& 0 <= i < upto <= votes.len()
    &&& votes[i] > 0
    &&& forall|j: int| 0 <= j < i ==> votes[j] < votes[i]
    &&& forall|j: int| i < j < upto ==> votes[j] <= votes[i]
}

/// The option at `i` leads: it has the most votes, at least one, and is the
/// first of the options that have as many.
pub open spec fn leads(votes: Seq<nat>, i: int) -> bool {
    leads_among(votes, i, votes.len() as int)
}

/// No option has a vote.
pub open spec fn no_votes(votes: Seq<nat>) -> bool {
    forall|j: int| 0 <= j < votes.len() ==> votes[j] == 0
}

/// The winner: the option that leads, or none where no option has a vote.
pub open spec fn winner_of(votes: Seq<nat>) -> Option<nat> {
    if exists|i: int| leads(votes, i) {
        Some((choose|i: int| leads(votes, i)) as nat)
    } else {
        None
    }
}

/// At most one option leads.
pub proof fn lemma_leader_is_unique(votes: Seq<nat>, i: int, j: int)
    requires
        leads(votes, i),
        leads(votes, j),
    ensures
        i == j,
{
}

/// The winner is the option that leads.
pub proof fn lemma_leader_wins(votes: Seq<nat>, i: int)
    requires
        leads(votes, i),
    ensures
        winner_of(votes) == Some(i as nat),
{
    lemma_leader_is_unique(votes, i, choose|k: int| leads(votes, k));
}

/// There is no winner exactly where no option has a vote.
pub proof fn lemma_no_winner_without_votes(votes: Seq<nat>)
    ensures
        winner_of(votes) is None <==> no_votes(votes),
{
    if !no_votes(votes) {
        let k = lemma_some_option_leads(votes, votes.len() as int);
        lemma_leader_wins(votes, k);
    }
}

/// Where one of the first `upto` options has a vote, one of them leads among
/// them.
proof fn lemma_some_option_leads(votes: Seq<nat>, upto: int) -> (k: int)
    requires
        0 <= upto <= votes.len(),
        exists|j: int| 0 <= j < upto && votes[j] > 0,
    ensures
        leads_among(votes, k, upto),
    decreases upto,
{
    let last = upto - 1;
    if exists|j: int| 0 <= j < last && votes[j] > 0 {
        let before = lemma_some_option_leads(votes, last);
        if votes[last] > votes[before] {
            last
        } else {
            before
        }
    } else {
        last
    }
}

/// Finds the option that leads: the first of those with the most votes, or
/// none where no option has a vote.
pub fn find_winner(votes: &Vec<u64>) -> (winner: Option<usize>)
    ensures
        match winner {
            Some(i) => leads(as_nats(votes@), i as int),
            None => no_votes(as_nats(votes@)),
        },
        winner is Some <==> winner_of(as_nats(votes@)) is Some,
        winner matches Some(i) ==> winner_of(as_nats(votes@)) == Some(i as nat),
{
    let ghost counted = as_nats(votes@);
    let mut max_votes: u64 = 0;
    let mut winner: Option<usize> = None;
    let mut i: usize = 0;
    while i < votes.len()
        invariant
            i <= votes@.len(),
            counted == as_nats(votes@),
            match winner {
                Some(w) => leads_among(counted, w as int, i as int) && counted[w as int]
                    == max_votes,
                None => max_votes == 0 && forall|j: int| 0 <= j < i ==> counted[j] == 0,
            },
        decreases votes@.len() - i,
    {
        if votes[i] > max_votes {
            max_votes = votes[i];
            winner = Some(i);
        }
        i += 1;
    }
    proof {
        match winner {
            Some(w) => {
                lemma_leader_wins(counted, w as int);
            },
            None => {
                lemma_no_winner_without_votes(counted);
            },
        }
    }
    winner
}

/// The proposal with the winner that its votes give.
pub open spec fn tallied(p: ProposalView) -> ProposalView {
    ProposalView { winner_index: winner_of(p.votes), ..p }
}

/// Tallies the votes at the instant `current_time`.
///
/// While the window is open, up to and including its last instant, the tally
/// is refused and the proposal left as it was. After that the winner is set to
/// the option that leads, or to none where no option has a vote; nothing else
/// changes.
pub fn tally_votes(proposal: &mut Proposal, current_time: i64) -> (r: Result<(), CustomError>)
    ensures
        current_time <= old(proposal)@.end_time ==> r == Err::<(), CustomError>(
            CustomError::VotingNotEnded,
        ) && final(proposal)@ == old(proposal)@,
        current_time > old(proposal)@.end_time ==> r == Ok::<(), CustomError>(())
            && final(proposal)@ == tallied(old(proposal)@),
        r is Ok ==> match final(proposal)@.winner_index {
            Some(w) => leads(old(proposal)@.votes, w as int),
            None => no_votes(old(proposal)@.votes),
        },
        old(proposal)@.well_formed(),
        final(proposal)@.well_formed(),
{
    proof {
        use_type_invariant(&*proposal);
        proposal.view_is_model();
    }
    if current_time <= proposal.end_time {
        return Err(CustomError::VotingNotEnded);
    }
    let winner_index: Option<u8> = match find_winner(&proposal.votes) {
        Some(i) => Some(i as u8),
        None => None,
    };
    proposal.winner_index = winner_index;
    proof {
        proposal.view_is_model();
    }
    Ok(())
}

} // verus!
