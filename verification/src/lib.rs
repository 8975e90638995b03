//! Token-weighted governance voting.
//!
//! A configuration names the one token whose holders may vote. Proposals are
//! created against it, holders cast votes weighted by their balance while the
//! proposal's window is open, and a tally picks the winning option once the
//! window has closed.

mod config;
mod creation;
mod error;
mod laws;
mod proposal;
mod pubkey;
mod tally;
mod token;
mod voting;

pub use config::{initialize, DaoConfig};
pub use creation::{
    create_proposal, create_proposal_with_account, creation_rejection, new_proposal,
};
pub use error::{CustomError, Failure};
pub use laws::{
    accepted_at, accepted_weight, accepts, after_step, after_steps, law_closed_for_good,
    law_new_proposal_is_blank, law_one_vote_per_identity, law_step_keeps_well_formed,
    law_steps_keep_well_formed, law_tally_finds_the_leader, law_tally_is_idempotent,
    law_token_gates, law_total_is_accepted_weight, law_window, lemma_steps_in_two_parts,
    lemma_total_after_update, lemma_total_of_no_votes, total, weight_of, Ballot, Step,
};
pub use proposal::{
    as_nats, identities, labels, max_votes, Proposal, ProposalView, MAX_VOTABLE,
};
pub use pubkey::Pubkey;
pub use tally::{
    find_winner, leads, leads_among, lemma_leader_is_unique, lemma_leader_wins,
    lemma_no_winner_without_votes, no_votes, tallied, tally_votes, winner_of,
};
pub use token::{
    evidence_in, is_token_account, le_u64, option_tag_at, read_token_account, TokenEvidence,
    TokenEvidenceView, TOKEN_ACCOUNT_LEN,
};
pub use voting::{ballot_rejection, counted, vote, vote_rejection, vote_with_account, with_vote};
