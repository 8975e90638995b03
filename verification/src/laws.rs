//! What holds of a proposal over every course of votes and tallies.

use vstd::prelude::*;
use crate::creation::{creation_rejection, new_proposal};
use crate::error::CustomError;
use crate::proposal::{max_votes, ProposalView};
use crate::tally::{
    leads, lemma_leader_wins, lemma_no_winner_without_votes, no_votes, tallied, winner_of,
};
use crate::token::TokenEvidenceView;
use crate::voting::{counted, vote_rejection, with_vote};

verus! {

/// One attempt to vote: who votes, for which option, and with what evidence.
pub ghost struct Ballot {
    pub voter: Seq<u8>,
    pub option_index: u8,
    pub evidence: TokenEvidenceView,
}

/// One step in the life of a proposal: an attempt to vote or an attempt to
/// tally, each at its instant.
pub ghost enum Step {
    Cast { ballot: Ballot, time: int },
    Tally { time: int },
}

impl Step {
    /// The instant of the step.
    pub open spec fn time(self) -> int {
        match self {
            Step::Cast { time, .. } => time,
            Step::Tally { time } => time,
        }
    }
}

/// Whether the step is a ballot that the proposal accepts.
pub open spec fn accepts(p: ProposalView, governance_token: Seq<u8>, step: Step) -> bool {
    step matches Step::Cast { ballot, time } && vote_rejection(
        p,
        governance_token,
        ballot.voter,
        ballot.option_index as int,
        time,
        ballot.evidence,
    ) is None
}

/// The weight that the step adds: that of its ballot where the proposal
/// accepts it, and nothing otherwise.
pub open spec fn weight_of(p: ProposalView, governance_token: Seq<u8>, step: Step) -> nat {
    match step {
        Step::Cast { ballot, .. } => if accepts(p, governance_token, step) {
            ballot.evidence.amount
        } else {
            0
        },
        Step::Tally { .. } => 0,
    }
}

/// The proposal after the step: with the vote where the ballot is accepted,
/// with the winner where the tally is made, and as it was where the step is
/// refused.
pub open spec fn after_step(
    p: ProposalView,
    governance_token: Seq<u8>,
    step: Step,
) -> ProposalView {
    match step {
        Step::Cast { ballot, .. } => if accepts(p, governance_token, step) {
            with_vote(p, ballot.voter, ballot.option_index as int, ballot.evidence.amount)
        } else {
            p
        },
        Step::Tally { time } => if time > p.end_time {
            tallied(p)
        } else {
            p
        },
    }
}

/// The proposal after the steps, one after the other.
pub open spec fn after_steps(
    p: ProposalView,
    governance_token: Seq<u8>,
    steps: Seq<Step>,
) -> ProposalView
    decreases steps.len(),
{
    if steps.len() == 0 {
        p
    } else {
        after_step(
            after_steps(p, governance_token, steps.drop_last()),
            governance_token,
            steps.last(),
        )
    }
}

/// Whether the step at `k` is a ballot that is accepted when the steps come
/// one after the other.
pub open spec fn accepted_at(
    p: ProposalView,
    governance_token: Seq<u8>,
    steps: Seq<Step>,
    k: int,
) -> bool {
    accepts(after_steps(p, governance_token, steps.take(k)), governance_token, steps[k])
}

/// The weight of the ballots that are accepted when the steps come one after
/// the other.
pub open spec fn accepted_weight(
    p: ProposalView,
    governance_token: Seq<u8>,
    steps: Seq<Step>,
) -> nat
    decreases steps.len(),
{
    if steps.len() == 0 {
        0
    } else {
        accepted_weight(p, governance_token, steps.drop_last()) + weight_of(
            after_steps(p, governance_token, steps.drop_last()),
            governance_token,
            steps.last(),
        )
    }
}

/// The votes of all options together.
pub open spec fn total(votes: Seq<nat>) -> nat
    decreases votes.len(),
{
    if votes.len() == 0 {
        0
    } else {
        total(votes.drop_last()) + votes.last()
    }
}

/// A counter is no more than the total, and a change of one counter changes
/// the total by as much.
pub proof fn lemma_total_after_update(votes: Seq<nat>, i: int, value: nat)
    requires
        0 <= i < votes.len(),
    ensures
        votes[i] <= total(votes),
        total(votes.update(i, value)) == total(votes) - votes[i] + value,
    decreases votes.len(),
{
    if i == votes.len() - 1 {
        assert(votes.update(i, value).drop_last() =~= votes.drop_last());
    } else {
        assert(votes.update(i, value).drop_last() =~= votes.drop_last().update(i, value));
        lemma_total_after_update(votes.drop_last(), i, value);
    }
}

/// Where no option has a vote, all options together have none.
pub proof fn lemma_total_of_no_votes(votes: Seq<nat>)
    requires
        no_votes(votes),
    ensures
        total(votes) == 0,
    decreases votes.len(),
{
    if votes.len() > 0 {
        lemma_total_of_no_votes(votes.drop_last());
    }
}

/// A new proposal is well formed, has no votes and no winner, and a tally of
/// it finds none, whatever the proposal is made of.
pub proof fn law_new_proposal_is_blank(
    creator: Seq<u8>,
    title: Seq<char>,
    description: Seq<char>,
    options: Seq<Seq<char>>,
    start_time: int,
    end_time: int,
)
    ensures
        new_proposal(creator, title, description, options, start_time, end_time).well_formed(),
        total(new_proposal(creator, title, description, options, start_time, end_time).votes)
            == 0,
        new_proposal(creator, title, description, options, start_time, end_time).winner_index
            is None,
        winner_of(new_proposal(creator, title, description, options, start_time, end_time).votes)
            is None,
{
    let p = new_proposal(creator, title, description, options, start_time, end_time);
    lemma_total_of_no_votes(p.votes);
    lemma_no_winner_without_votes(p.votes);
}

/// A step leaves a well-formed proposal well formed. It never changes the
/// options or the window, and it never takes a voter off the record.
pub proof fn law_step_keeps_well_formed(p: ProposalView, governance_token: Seq<u8>, step: Step)
    requires
        p.well_formed(),
    ensures
        after_step(p, governance_token, step).well_formed(),
        after_step(p, governance_token, step).options == p.options,
        after_step(p, governance_token, step).start_time == p.start_time,
        after_step(p, governance_token, step).end_time == p.end_time,
        forall|who: Seq<u8>|
            p.has_voted(who) ==> #[trigger] after_step(p, governance_token, step).has_voted(who),
{
    let q = after_step(p, governance_token, step);
    if accepts(p, governance_token, step) {
        assert forall|i: int, j: int| 0 <= i < j < q.voters.len() implies q.voters[i]
            != q.voters[j] by {
            if j == p.voters.len() {
                assert(p.voters.contains(p.voters[i]));
            }
        }
    }
    assert forall|who: Seq<u8>| p.has_voted(who) implies #[trigger] q.has_voted(who) by {
        let i = choose|i: int| 0 <= i < p.voters.len() && p.voters[i] == who;
        assert(q.voters[i] == who);
    }
}

/// Every course of steps leaves a well-formed proposal well formed, with its
/// options and its window, and with everyone on the record who was on it.
pub proof fn law_steps_keep_well_formed(
    p: ProposalView,
    governance_token: Seq<u8>,
    steps: Seq<Step>,
)
    requires
        p.well_formed(),
    ensures
        after_steps(p, governance_token, steps).well_formed(),
        after_steps(p, governance_token, steps).options == p.options,
        after_steps(p, governance_token, steps).start_time == p.start_time,
        after_steps(p, governance_token, steps).end_time == p.end_time,
        forall|who: Seq<u8>|
            p.has_voted(who) ==> #[trigger] after_steps(p, governance_token, steps).has_voted(
                who,
            ),
    decreases steps.len(),
{
    if steps.len() > 0 {
        let before = after_steps(p, governance_token, steps.drop_last());
        law_steps_keep_well_formed(p, governance_token, steps.drop_last());
        law_step_keeps_well_formed(before, governance_token, steps.last());
        let after = after_steps(p, governance_token, steps);
        assert forall|who: Seq<u8>| p.has_voted(who) implies #[trigger] after.has_voted(who) by {
            assert(before.has_voted(who));
        }
    }
}

/// The steps from the place `k` on take the proposal from where the first `k`
/// steps left it to where all of them leave it.
pub proof fn lemma_steps_in_two_parts(
    p: ProposalView,
    governance_token: Seq<u8>,
    steps: Seq<Step>,
    k: int,
)
    requires
        0 <= k <= steps.len(),
    ensures
        after_steps(p, governance_token, steps) == after_steps(
            after_steps(p, governance_token, steps.take(k)),
            governance_token,
            steps.skip(k),
        ),
    decreases steps.len() - k,
{
    let rest = steps.skip(k);
    if k == steps.len() {
        assert(steps.take(k) =~= steps);
    } else {
        assert(steps.drop_last().take(k) =~= steps.take(k));
        assert(steps.drop_last().skip(k) =~= rest.drop_last());
        lemma_steps_in_two_parts(p, governance_token, steps.drop_last(), k);
    }
}

/// No double counting, first part: of the ballots of one identity at most one
/// is accepted. Once a ballot of an identity has been accepted, each later
/// ballot of that identity is refused, whatever it names, whatever evidence
/// it brings and whatever came between; and where it comes within the window
/// and names an option of the proposal, the reason is that the identity has
/// voted.
pub proof fn law_one_vote_per_identity(
    p: ProposalView,
    governance_token: Seq<u8>,
    steps: Seq<Step>,
    first: int,
    later: int,
)
    requires
        p.well_formed(),
        0 <= first < later < steps.len(),
        steps[first] is Cast,
        steps[later] is Cast,
        steps[first]->ballot.voter == steps[later]->ballot.voter,
        accepted_at(p, governance_token, steps, first),
    ensures
        !accepted_at(p, governance_token, steps, later),
        ({
            let state = after_steps(p, governance_token, steps.take(later));
            let ballot = steps[later]->ballot;
            let now = steps[later].time();
            state.start_time <= now <= state.end_time && ballot.option_index
                < state.options.len() ==> vote_rejection(
                state,
                governance_token,
                ballot.voter,
                ballot.option_index as int,
                now,
                ballot.evidence,
            ) == Some(CustomError::AlreadyVoted)
        }),
{
    let who = steps[first]->ballot.voter;
    let upto = steps.take(first + 1);
    assert(upto.drop_last() =~= steps.take(first));
    let before = after_steps(p, governance_token, steps.take(first));
    let after = after_steps(p, governance_token, upto);
    assert(after.voters[before.voters.len() as int] == who);
    let between = steps.take(later).skip(first + 1);
    assert(steps.take(later).take(first + 1) =~= upto);
    lemma_steps_in_two_parts(p, governance_token, steps.take(later), first + 1);
    law_steps_keep_well_formed(p, governance_token, upto);
    law_steps_keep_well_formed(after, governance_token, between);
}

/// No double counting, second part: as long as the counters can hold them,
/// the votes of all options together grow by the weight of the accepted
/// ballots, and by nothing else.
pub proof fn law_total_is_accepted_weight(
    p: ProposalView,
    governance_token: Seq<u8>,
    steps: Seq<Step>,
)
    requires
        p.well_formed(),
        total(p.votes) + accepted_weight(p, governance_token, steps) <= max_votes(),
    ensures
        total(after_steps(p, governance_token, steps).votes) == total(p.votes) + accepted_weight(
            p,
            governance_token,
            steps,
        ),
    decreases steps.len(),
{
    if steps.len() > 0 {
        let earlier = steps.drop_last();
        let step = steps.last();
        let before = after_steps(p, governance_token, earlier);
        law_total_is_accepted_weight(p, governance_token, earlier);
        law_steps_keep_well_formed(p, governance_token, earlier);
        if accepts(before, governance_token, step) {
            let ballot = step->ballot;
            let i = ballot.option_index as int;
            lemma_total_after_update(
                before.votes,
                i,
                counted(before.votes[i], ballot.evidence.amount),
            );
        }
    }
}

/// The window: a vote before the window opens is refused because voting has
/// not started; a vote after the window has closed, and not before it opens,
/// is refused because voting has ended; a vote within the window is accepted
/// where the option exists, the voter has not voted and the evidence is of the
/// governance token.
pub proof fn law_window(
    p: ProposalView,
    governance_token: Seq<u8>,
    voter: Seq<u8>,
    option_index: int,
    now: int,
    evidence: TokenEvidenceView,
)
    ensures
        now < p.start_time ==> vote_rejection(
            p,
            governance_token,
            voter,
            option_index,
            now,
            evidence,
        ) == Some(CustomError::VotingNotStarted),
        p.start_time <= now && now > p.end_time ==> vote_rejection(
            p,
            governance_token,
            voter,
            option_index,
            now,
            evidence,
        ) == Some(CustomError::VotingEnded),
        p.start_time <= now <= p.end_time && option_index < p.options.len() && !p.has_voted(voter)
            && evidence.mint == governance_token ==> vote_rejection(
            p,
            governance_token,
            voter,
            option_index,
            now,
            evidence,
        ) is None,
{
}

/// The tally is steady: a second tally of a proposal finds the winner that the
/// first found, and changes nothing.
pub proof fn law_tally_is_idempotent(p: ProposalView)
    ensures
        tallied(tallied(p)) == tallied(p),
        tallied(tallied(p)).winner_index == tallied(p).winner_index,
{
}

/// What a tally finds: the winner is the option that leads, and there is no
/// winner exactly where no option has a vote.
pub proof fn law_tally_finds_the_leader(p: ProposalView)
    ensures
        tallied(p).winner_index matches Some(w) ==> leads(p.votes, w as int),
        tallied(p).winner_index is None <==> no_votes(p.votes),
        forall|i: int| leads(p.votes, i) ==> tallied(p).winner_index == Some(i as nat),
{
    lemma_no_winner_without_votes(p.votes);
    assert forall|i: int| leads(p.votes, i) implies tallied(p).winner_index == Some(
        i as nat,
    ) by {
        lemma_leader_wins(p.votes, i);
    }
}

/// Closed for good: once a proposal has been tallied, steps that come after
/// the window has closed change nothing. No vote is taken any more, and each
/// further tally finds the same winner.
pub proof fn law_closed_for_good(p: ProposalView, governance_token: Seq<u8>, steps: Seq<Step>)
    requires
        forall|k: int| 0 <= k < steps.len() ==> (#[trigger] steps[k]).time() > p.end_time,
    ensures
        after_steps(tallied(p), governance_token, steps) == tallied(p),
    decreases steps.len(),
{
    if steps.len() > 0 {
        law_closed_for_good(p, governance_token, steps.drop_last());
    }
}

/// The token decides, not the amount: evidence of another token than the
/// governance token is refused, for the creation of a proposal and for a
/// vote, whoever owns it and whatever amount it shows.
pub proof fn law_token_gates(
    p: ProposalView,
    governance_token: Seq<u8>,
    who: Seq<u8>,
    option_index: int,
    now: int,
    owner: Seq<u8>,
    mint: Seq<u8>,
    amount: nat,
)
    requires
        mint != governance_token,
    ensures
        creation_rejection(governance_token, who, TokenEvidenceView { owner, mint, amount })
            is Some,
        vote_rejection(
            p,
            governance_token,
            who,
            option_index,
            now,
            TokenEvidenceView { owner, mint, amount },
        ) is Some,
{
}

} // verus!
