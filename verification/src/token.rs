//! Token accounts as evidence of what an identity holds.

use vstd::prelude::*;
use anchor_lang::AccountDeserialize;
use anchor_spl::token::TokenAccount;
use crate::error::Failure;
use crate::pubkey::Pubkey;

verus! {

/// `anchor_lang::error::Error`, the error with which the token account
/// decoder refuses account data. Nothing is known of a value of it; it is
/// handed on to the caller as it is.
#[verifier::external_type_specification]
#[verifier::external_body]
pub struct ExAccountError(anchor_lang::error::Error);

/// What a token account says: who owns it, which token it holds, and how much.
#[derive(Clone, Copy, Debug, PartialEq, Eq)]
pub struct TokenEvidence {
    pub owner: Pubkey,
    pub mint: Pubkey,
    pub amount: u64,
}

/// The mathematical content of a [`TokenEvidence`].
pub ghost struct TokenEvidenceView {
    pub owner: Seq<u8>,
    pub mint: Seq<u8>,
    pub amount: nat,
}

impl View for TokenEvidence {
    type V = TokenEvidenceView;

    open spec fn view(&self) -> TokenEvidenceView {
        TokenEvidenceView { owner: self.owner@, mint: self.mint@, amount: self.amount as nat }
    }
}

/// The length of the data of a token account.
pub const TOKEN_ACCOUNT_LEN: usize = 165;

/// The four bytes at `at` mark an optional field as absent or as present.
pub open spec fn option_tag_at(data: Seq<u8>, at: int) -> bool {
    &&& data[at] == 0 || data[at] == 1
    &&& data[at + 1] == 0
    &&& data[at + 2] == 0
    &&& data[at + 3] == 0
}

/// `data` is the data of a token account in use: it has the right length,
/// the tags of its three optional fields (the delegate, the native reserve
/// and the close authority) are valid, and its state is initialized or
/// frozen.
pub open spec fn is_token_account(data: Seq<u8>) -> bool {
    &&& data.len() == TOKEN_ACCOUNT_LEN
    &&& option_tag_at(data, 72)
    &&& (data[108] == 1 || data[108] == 2)
    &&& option_tag_at(data, 109)
    &&& option_tag_at(data, 129)
}

/// The number that eight bytes spell, lowest byte first.
pub open spec fn le_u64(bytes: Seq<u8>) -> nat {
    (bytes[0] as nat)
        + (bytes[1] as nat) * 0x100
        + (bytes[2] as nat) * 0x1_0000
        + (bytes[3] as nat) * 0x100_0000
        + (bytes[4] as nat) * 0x1_0000_0000
        + (bytes[5] as nat) * 0x100_0000_0000
        + (bytes[6] as nat) * 0x1_0000_0000_0000
        + (bytes[7] as nat) * 0x100_0000_0000_0000
}

/// What the data of a token account says: the token in its first thirty-two
/// bytes, the owner in the next thirty-two, the amount in the eight after.
pub open spec fn evidence_in(data: Seq<u8>) -> TokenEvidenceView {
    TokenEvidenceView {
        owner: data.subrange(32, 64),
        mint: data.subrange(0, 32),
        amount: le_u64(data.subrange(64, 72)),
    }
}

/// Calls `TokenAccount::try_deserialize` of anchor_spl on the account data and
/// keeps the owner, the token and the amount of the account it returns.
/// The contract claims that the call accepts exactly the data that
/// [`is_token_account`] describes, and that the three fields are read from the
/// places that [`evidence_in`] names.
#[verifier::external_body]
fn try_deserialize_token_account(data: &[u8]) -> (r: Result<
    TokenEvidence,
    anchor_lang::error::Error,
>)
    ensures
        r is Ok <==> is_token_account(data@),
        r matches Ok(evidence) ==> evidence@ == evidence_in(data@),
{
    let mut buf: &[u8] = data;
    let account = TokenAccount::try_deserialize(&mut buf)?;
    Ok(
        TokenEvidence {
            owner: Pubkey::new_from_array(account.owner.to_bytes()),
            mint: Pubkey::new_from_array(account.mint.to_bytes()),
            amount: account.amount,
        },
    )
}

/// Reads a token account from account data.
///
/// Succeeds exactly on the data of a token account in use, with what the data
/// says; any other data is refused, and the failure carries the decoder's
/// error.
pub fn read_token_account(data: &[u8]) -> (r: Result<TokenEvidence, Failure>)
    ensures
        match r {
            Ok(evidence) => is_token_account(data@) && evidence@ == evidence_in(data@),
            Err(failure) => !is_token_account(data@) && failure is TokenAccount,
        },
{
    match try_deserialize_token_account(data) {
        Ok(evidence) => Ok(evidence),
        Err(error) => Err(Failure::TokenAccount(error)),
    }
}

} // verus!
