//! The reasons for which an operation is refused.

use vstd::prelude::*;

verus! {

/// Why an operation on a proposal was refused.
#[derive(Clone, Copy, Debug, PartialEq, Eq, Structural)]
pub enum CustomError {
    /// The token account holds another token than the governance token.
    InvalidTokenMint,
    /// The token account belongs to someone else than the caller.
    UnauthorizedTokenAccount,
    /// The voting window has not opened yet.
    VotingNotStarted,
    /// The voting window has closed.
    VotingEnded,
    /// The proposal has no option with the given index.
    InvalidOption,
    /// The voting window is still open, so no tally can be made.
    VotingNotEnded,
    /// The voter has already voted on the proposal.
    AlreadyVoted,
}

impl CustomError {
    /// The text that [`CustomError::message`] gives for each reason.
    pub open spec fn message_text(self) -> Seq<char> {
        match self {
            CustomError::InvalidTokenMint => "Invalid DAO token mint."@,
            CustomError::UnauthorizedTokenAccount => "Unauthorized token account."@,
            CustomError::VotingNotStarted => "Voting has not started."@,
            CustomError::VotingEnded => "Voting has already ended."@,
            CustomError::InvalidOption => "Invalid voting option."@,
            CustomError::VotingNotEnded => "Voting period has not ended."@,
            CustomError::AlreadyVoted => "You have already voted."@,
        }
    }

    /// The reason in words.
    pub fn message(&self) -> (text: &'static str)
        ensures
            text@ == self.message_text(),
    {
        match self {
            CustomError::InvalidTokenMint => "Invalid DAO token mint.",
            CustomError::UnauthorizedTokenAccount => "Unauthorized token account.",
            CustomError::VotingNotStarted => "Voting has not started.",
            CustomError::VotingEnded => "Voting has already ended.",
            CustomError::InvalidOption => "Invalid voting option.",
            CustomError::VotingNotEnded => "Voting period has not ended.",
            CustomError::AlreadyVoted => "You have already voted.",
        }
    }
}

/// Why an operation that reads a token account from account data failed.
#[derive(Debug)]
pub enum Failure {
    /// A rule of the governance refused the operation.
    Rejected(CustomError),
    /// The account data is not that of a token account in use; the decoder's
    /// error is kept as it came.
    TokenAccount(anchor_lang::error::Error),
}

} // verus!
