//! Creating a proposal.

use vstd::prelude::*;
use crate::config::DaoConfig;
use crate::error::{CustomError, Failure};
use crate::proposal::{labels, Proposal, ProposalView};
use crate::pubkey::Pubkey;
use crate::token::{
    evidence_in, is_token_account, read_token_account, TokenEvidence, TokenEvidenceView,
};

verus! {

/// Why the creation of a proposal is refused, if it is: the evidence must
/// belong to the creator, and it must be of the governance token. How much it
/// holds is not asked.
pub open spec fn creation_rejection(
    governance_token: Seq<u8>,
    creator: Seq<u8>,
    evidence: TokenEvidenceView,
) -> Option<CustomError> {
    if evidence.owner != creator {
        Some(CustomError::UnauthorizedTokenAccount)
    } else if evidence.mint != governance_token {
        Some(CustomError::InvalidTokenMint)
    } else {
        None
    }
}

/// A proposal as it is created: one counter at zero for each option, no
/// voters and no winner.
pub open spec fn new_proposal(
    creator: Seq<u8>,
    title: Seq<char>,
    description: Seq<char>,
    options: Seq<Seq<char>>,
    start_time: int,
    end_time: int,
) -> ProposalView {
    ProposalView {
        creator,
        title,
        description,
        options,
        start_time,
        end_time,
        votes: Seq::new(options.len(), |i: int| 0nat),
        voters: Seq::empty(),
        winner_index: None,
    }
}

/// Puts the proposal together once the evidence has been accepted.
fn open_proposal(
    creator: Pubkey,
    title: String,
    description: String,
    options: Vec<String>,
    start_time: i64,
    end_time: i64,
) -> (proposal: Proposal)
    ensures
        proposal@ == new_proposal(
            creator@,
            title@,
            description@,
            labels(options@),
            start_time as int,
            end_time as int,
        ),
        proposal@.well_formed(),
{
    let votes: Vec<u64> = vec![0u64; options.len()];
    let proposal = Proposal {
        creator,
        title,
        description,
        options,
        start_time,
        end_time,
        votes,
        voters: Vec::new(),
        winner_index: None,
    };
    proof {
        proposal.view_is_model();
        let expected = new_proposal(
            creator@,
            title@,
            description@,
            labels(options@),
            start_time as int,
            end_time as int,
        );
        assert(proposal@.votes =~= expected.votes);
        assert(proposal@.voters =~= expected.voters);
    }
    proposal
}

/// Creates a proposal of `creator` under `config`.
///
/// The proposal is refused where the evidence belongs to someone else than
/// the creator, and else where it is of another token than the governance
/// token. Otherwise the proposal is made of what was given, with a counter at
/// zero for each option, no voters and no winner. The window is taken as it
/// is given, whatever its two ends are.
pub fn create_proposal(
    config: &DaoConfig,
    creator: Pubkey,
    title: String,
    description: String,
    options: Vec<String>,
    start_time: i64,
    end_time: i64,
    evidence: &TokenEvidence,
) -> (r: Result<Proposal, CustomError>)
    ensures
        match creation_rejection(config.dao_token_mint@, creator@, evidence@) {
            Some(reason) => r matches Err(e) && e == reason,
            None => r matches Ok(proposal) && proposal@ == new_proposal(
                creator@,
                title@,
                description@,
                labels(options@),
                start_time as int,
                end_time as int,
            ),
        },
        evidence@.mint != config.dao_token_mint@ ==> r is Err,
        r matches Ok(proposal) ==> proposal@.well_formed(),
{
    if !evidence.owner.same(&creator) {
        return Err(CustomError::UnauthorizedTokenAccount);
    }
    if !evidence.mint.same(&config.dao_token_mint) {
        return Err(CustomError::InvalidTokenMint);
    }
    Ok(open_proposal(creator, title, description, options, start_time, end_time))
}

/// Creates a proposal as [`create_proposal`] does, with the evidence read
/// from the data of the creator's token account.
///
/// Data that is not that of a token account in use is refused with the
/// decoder's error, before anything else is looked at.
pub fn create_proposal_with_account(
    config: &DaoConfig,
    creator: Pubkey,
    title: String,
    description: String,
    options: Vec<String>,
    start_time: i64,
    end_time: i64,
    token_account: &[u8],
) -> (r: Result<Proposal, Failure>)
    ensures
        !is_token_account(token_account@) ==> r matches Err(Failure::TokenAccount(_)),
        is_token_account(token_account@) ==> match creation_rejection(
            config.dao_token_mint@,
            creator@,
            evidence_in(token_account@),
        ) {
            Some(reason) => r matches Err(Failure::Rejected(e)) && e == reason,
            None => r matches Ok(proposal) && proposal@ == new_proposal(
                creator@,
                title@,
                description@,
                labels(options@),
                start_time as int,
                end_time as int,
            ),
        },
        r matches Ok(proposal) ==> proposal@.well_formed(),
{
    let evidence = match read_token_account(token_account) {
        Err(failure) => {
            return Err(failure);
        },
        Ok(evidence) => evidence,
    };
    if !evidence.owner.same(&creator) {
        return Err(Failure::Rejected(CustomError::UnauthorizedTokenAccount));
    }
    if !evidence.mint.same(&config.dao_token_mint) {
        return Err(Failure::Rejected(CustomError::InvalidTokenMint));
    }
    Ok(open_proposal(creator, title, description, options, start_time, end_time))
}

} // verus!
