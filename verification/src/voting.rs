//! Casting a vote.

use vstd::prelude::*;
use crate::config::DaoConfig;
use crate::error::{CustomError, Failure};
use crate::proposal::{max_votes, Proposal, ProposalView};
use crate::pubkey::Pubkey;
use crate::token::{
    evidence_in, is_token_account, read_token_account, TokenEvidence, TokenEvidenceView,
};

verus! {

/// Why a ballot is refused before any evidence is looked at, if it is: the
/// rules are tried in this order, and the first that fails gives the reason.
pub open spec fn ballot_rejection(
    p: ProposalView,
    voter: Seq<u8>,
    option_index: int,
    now: int,
) -> Option<CustomError> {
    if now < p.start_time {
        Some(CustomError::VotingNotStarted)
    } else if now > p.end_time {
        Some(CustomError::VotingEnded)
    } else if option_index >= p.options.len() {
        Some(CustomError::InvalidOption)
    } else if p.has_voted(voter) {
        Some(CustomError::AlreadyVoted)
    } else {
        None
    }
}

/// Why a vote is refused, if it is: the ballot is judged first, then the
/// evidence, which must be of the governance token.
pub open spec fn vote_rejection(
    p: ProposalView,
    governance_token: Seq<u8>,
    voter: Seq<u8>,
    option_index: int,
    now: int,
    evidence: TokenEvidenceView,
) -> Option<CustomError> {
    match ballot_rejection(p, voter, option_index, now) {
        Some(reason) => Some(reason),
        None => if evidence.mint != governance_token {
            Some(CustomError::InvalidTokenMint)
        } else {
            None
        },
    }
}

/// What an option holds after `weight` more votes: the sum, or the most that
/// a counter can hold where the sum is beyond it.
pub open spec fn counted(before: nat, weight: nat) -> nat {
    if before + weight > max_votes() {
        max_votes()
    } else {
        before + weight
    }
}

/// The proposal after `voter` has given `weight` votes to the option at
/// `option_index`.
pub open spec fn with_vote(
    p: ProposalView,
    voter: Seq<u8>,
    option_index: int,
    weight: nat,
) -> ProposalView {
    ProposalView {
        votes: p.votes.update(option_index, counted(p.votes[option_index], weight)),
        voters: p.voters.push(voter),
        ..p
    }
}

/// Judges a ballot by the window, the option and the record of voters.
fn check_ballot(proposal: &Proposal, voter: &Pubkey, option_index: u8, current_time: i64) -> (r:
    Result<(), CustomError>)
    ensures
        match ballot_rejection(proposal@, voter@, option_index as int, current_time as int) {
            Some(reason) => r == Err::<(), CustomError>(reason),
            None => r == Ok::<(), CustomError>(()),
        },
{
    proof {
        proposal.view_is_model();
    }
    if current_time < proposal.start_time {
        return Err(CustomError::VotingNotStarted);
    }
    if current_time > proposal.end_time {
        return Err(CustomError::VotingEnded);
    }
    if option_index as usize >= proposal.options.len() {
        return Err(CustomError::InvalidOption);
    }
    if proposal.has_voted(voter) {
        return Err(CustomError::AlreadyVoted);
    }
    Ok(())
}

/// Adds `weight` to the counter of the option and records the voter.
fn record_vote(proposal: &mut Proposal, voter: Pubkey, option_index: u8, weight: u64)
    requires
        option_index < old(proposal)@.options.len(),
        !old(proposal)@.has_voted(voter@),
    ensures
        final(proposal)@ == with_vote(old(proposal)@, voter@, option_index as int, weight as nat),
        final(proposal)@.well_formed(),
{
    proof {
        use_type_invariant(&*proposal);
        proposal.view_is_model();
        assert forall|i: int| 0 <= i < proposal.voters@.len() implies proposal.voters@[i]@
            != voter@ by {
            assert(proposal@.voters[i] == proposal.voters@[i]@);
        }
    }
    let index: usize = option_index as usize;
    let total: u64 = proposal.votes[index].saturating_add(weight);
    proposal.votes[index] = total;
    let mut voters: Vec<Pubkey> = Vec::new();
    core::mem::swap(&mut proposal.voters, &mut voters);
    voters.push(voter);
    proposal.voters = voters;
    proof {
        proposal.view_is_model();
        let expected = with_vote(old(proposal)@, voter@, option_index as int, weight as nat);
        assert(proposal@.votes =~= expected.votes);
        assert(proposal@.voters =~= expected.voters);
    }
}

/// Casts the vote of `voter` for the option at `option_index`, at the instant
/// `current_time`, with the weight that `evidence` shows.
///
/// The vote is refused, and the proposal left as it was, for the first of these
/// that holds: the window has not opened, the window has closed, there is no
/// such option, the voter has voted before, the evidence is of another token
/// than the governance token. Otherwise the amount in the evidence is added to
/// the option's counter, which stops at the largest value it can hold, and
/// the voter is recorded. Who owns the evidence is not asked.
pub fn vote(
    proposal: &mut Proposal,
    config: &DaoConfig,
    voter: Pubkey,
    option_index: u8,
    current_time: i64,
    evidence: &TokenEvidence,
) -> (r: Result<(), CustomError>)
    ensures
        match vote_rejection(
            old(proposal)@,
            config.dao_token_mint@,
            voter@,
            option_index as int,
            current_time as int,
            evidence@,
        ) {
            Some(reason) => r == Err::<(), CustomError>(reason) && final(proposal)@ == old(
                proposal,
            )@,
            None => r == Ok::<(), CustomError>(()) && final(proposal)@ == with_vote(
                old(proposal)@,
                voter@,
                option_index as int,
                evidence@.amount,
            ),
        },
        current_time < old(proposal)@.start_time ==> r == Err::<(), CustomError>(
            CustomError::VotingNotStarted,
        ),
        old(proposal)@.start_time <= current_time && current_time > old(proposal)@.end_time ==> r
            == Err::<(), CustomError>(CustomError::VotingEnded),
        old(proposal)@.start_time <= current_time <= old(proposal)@.end_time && option_index < old(
            proposal,
        )@.options.len() && !old(proposal)@.has_voted(voter@) && evidence@.mint
            == config.dao_token_mint@ ==> r is Ok,
        evidence@.mint != config.dao_token_mint@ ==> r is Err,
        old(proposal)@.well_formed(),
        final(proposal)@.well_formed(),
{
    proof {
        use_type_invariant(&*proposal);
        proposal.view_is_model();
    }
    match check_ballot(proposal, &voter, option_index, current_time) {
        Err(reason) => {
            return Err(reason);
        },
        Ok(()) => {},
    }
    if !evidence.mint.same(&config.dao_token_mint) {
        return Err(CustomError::InvalidTokenMint);
    }
    record_vote(proposal, voter, option_index, evidence.amount);
    Ok(())
}

/// Casts a vote as [`vote`] does, with the evidence read from the data of the
/// voter's token account.
///
/// The ballot is judged first. Then the account data is read: data that is not
/// that of a token account in use is refused with the decoder's error. Then the
/// token is checked and the vote counted. Whatever is refused leaves the
/// proposal as it was.
pub fn vote_with_account(
    proposal: &mut Proposal,
    config: &DaoConfig,
    voter: Pubkey,
    option_index: u8,
    current_time: i64,
    token_account: &[u8],
) -> (r: Result<(), Failure>)
    ensures
        match ballot_rejection(old(proposal)@, voter@, option_index as int, current_time as int) {
            Some(reason) => r matches Err(Failure::Rejected(e)) && e == reason,
            None => if !is_token_account(token_account@) {
                r matches Err(Failure::TokenAccount(_))
            } else if evidence_in(token_account@).mint != config.dao_token_mint@ {
                r matches Err(Failure::Rejected(e)) && e == CustomError::InvalidTokenMint
            } else {
                r is Ok
            },
        },
        r is Err ==> final(proposal)@ == old(proposal)@,
        r is Ok ==> final(proposal)@ == with_vote(
            old(proposal)@,
            voter@,
            option_index as int,
            evidence_in(token_account@).amount,
        ),
        old(proposal)@.well_formed(),
        final(proposal)@.well_formed(),
{
    proof {
        use_type_invariant(&*proposal);
        proposal.view_is_model();
    }
    match check_ballot(proposal, &voter, option_index, current_time) {
        Err(reason) => {
            return Err(Failure::Rejected(reason));
        },
        Ok(()) => {},
    }
    let evidence = match read_token_account(token_account) {
        Err(failure) => {
            return Err(failure);
        },
        Ok(evidence) => evidence,
    };
    if !evidence.mint.same(&config.dao_token_mint) {
        return Err(Failure::Rejected(CustomError::InvalidTokenMint));
    }
    record_vote(proposal, voter, option_index, evidence.amount);
    Ok(())
}

} // verus!
