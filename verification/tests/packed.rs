use anchor_lang::solana_program::program_option::COption;
use anchor_lang::solana_program::program_pack::Pack;
use anchor_lang::solana_program::pubkey::Pubkey;
use anchor_spl::token::spl_token::state::{Account, AccountState};

fn packed(account: Account) -> Vec<u8> {
    let mut data = vec![0u8; Account::LEN];
    Account::pack(account, &mut data).unwrap();
    data
}

fn plain_account(state: AccountState) -> Account {
    Account {
        mint: Pubkey::new_from_array([3; 32]),
        owner: Pubkey::new_from_array([4; 32]),
        amount: 77,
        delegate: COption::None,
        state,
        is_native: COption::None,
        delegated_amount: 0,
        close_authority: COption::None,
    }
}

#[test]
fn read_token_account_reads_what_the_token_program_packs() {
    let mut mint = [0u8; 32];
    let mut owner = [0u8; 32];
    for i in 0..32 {
        mint[i] = 200 - i as u8;
        owner[i] = 3 * i as u8;
    }
    let account = Account {
        mint: Pubkey::new_from_array(mint),
        owner: Pubkey::new_from_array(owner),
        amount: 0xfedc_ba98_7654_3210,
        delegate: COption::Some(Pubkey::new_from_array([5; 32])),
        state: AccountState::Frozen,
        is_native: COption::Some(12345),
        delegated_amount: 99,
        close_authority: COption::Some(Pubkey::new_from_array([6; 32])),
    };
    let data = packed(account);
    assert_eq!(data.len(), dao::TOKEN_ACCOUNT_LEN);
    let evidence = dao::read_token_account(&data).unwrap();
    assert_eq!(evidence.mint.to_bytes(), mint);
    assert_eq!(evidence.owner.to_bytes(), owner);
    assert_eq!(evidence.amount, 0xfedc_ba98_7654_3210);
}

#[test]
fn read_token_account_goes_by_the_state_that_the_token_program_packs() {
    assert!(dao::read_token_account(&packed(plain_account(AccountState::Initialized))).is_ok());
    assert!(dao::read_token_account(&packed(plain_account(AccountState::Frozen))).is_ok());
    assert!(dao::read_token_account(&packed(plain_account(AccountState::Uninitialized))).is_err());
    let data = packed(plain_account(AccountState::Initialized));
    assert_eq!(data[108], 1);
    assert_eq!(&data[72..76], &[0u8, 0, 0, 0]);
    assert_eq!(&data[109..113], &[0u8, 0, 0, 0]);
    assert_eq!(&data[129..133], &[0u8, 0, 0, 0]);
}

#[test]
fn vote_with_account_counts_what_the_token_program_packs() {
    let config = dao::initialize(dao::Pubkey::new_from_array([3; 32]));
    let creator = dao::Pubkey::new_from_array([4; 32]);
    let data = packed(plain_account(AccountState::Initialized));
    let mut proposal = dao::create_proposal_with_account(
        &config,
        creator,
        String::new(),
        String::new(),
        vec!["A".to_string(), "B".to_string()],
        0,
        10,
        &data,
    )
    .unwrap();
    assert!(dao::vote_with_account(&mut proposal, &config, creator, 1, 5, &data).is_ok());
    assert_eq!(proposal.votes(), &vec![0u64, 77]);
    assert_eq!(dao::tally_votes(&mut proposal, 11), Ok(()));
    assert_eq!(proposal.winner_index(), Some(1));
}
