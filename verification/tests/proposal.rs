use dao::{
    create_proposal, initialize, CustomError, DaoConfig, Proposal, Pubkey, TokenEvidence,
    MAX_VOTABLE,
};

fn key(n: u8) -> Pubkey {
    Pubkey::new_from_array([n; 32])
}

fn labels(names: &[&str]) -> Vec<String> {
    names.iter().map(|s| s.to_string()).collect()
}

fn untitled(
    config: &DaoConfig,
    creator: Pubkey,
    options: Vec<String>,
    window: (i64, i64),
    evidence: &TokenEvidence,
) -> Result<Proposal, CustomError> {
    let (start, end) = window;
    create_proposal(config, creator, String::new(), String::new(), options, start, end, evidence)
}

fn kept(
    options: Vec<String>,
    votes: Vec<u64>,
    voters: Vec<Pubkey>,
    winner: Option<u8>,
) -> Option<Proposal> {
    Proposal::from_parts(key(1), String::new(), String::new(), options, 0, 1, votes, voters, winner)
}

#[test]
fn initialize_keeps_the_governance_token() {
    let config = initialize(key(9));
    assert_eq!(config.dao_token_mint, key(9));
    assert_ne!(config.dao_token_mint, key(8));
}

#[test]
fn create_proposal_starts_blank() {
    let config = initialize(key(9));
    let evidence = TokenEvidence { owner: key(1), mint: key(9), amount: 0 };
    let proposal = create_proposal(
        &config,
        key(1),
        "Budget".to_string(),
        "How to spend it".to_string(),
        labels(&["A", "B", "C"]),
        100,
        200,
        &evidence,
    )
    .unwrap();
    assert_eq!(proposal.creator(), key(1));
    assert_eq!(proposal.title(), "Budget");
    assert_eq!(proposal.description(), "How to spend it");
    assert_eq!(proposal.options(), &labels(&["A", "B", "C"]));
    assert_eq!(proposal.start_time(), 100);
    assert_eq!(proposal.end_time(), 200);
    assert_eq!(proposal.votes(), &vec![0u64, 0, 0]);
    assert!(proposal.voters().is_empty());
    assert_eq!(proposal.winner_index(), None);
    assert!(!proposal.has_voted(&key(1)));
}

#[test]
fn create_proposal_asks_for_no_balance() {
    let config = initialize(key(9));
    let evidence = TokenEvidence { owner: key(1), mint: key(9), amount: 0 };
    let r = untitled(&config, key(1), labels(&["A"]), (0, 1), &evidence);
    assert!(r.is_ok());
}

#[test]
fn create_proposal_refuses_evidence_of_another_owner() {
    let config = initialize(key(9));
    let evidence = TokenEvidence { owner: key(2), mint: key(9), amount: 50 };
    let r = untitled(&config, key(1), labels(&["A"]), (0, 1), &evidence);
    assert_eq!(r.err(), Some(CustomError::UnauthorizedTokenAccount));
}

#[test]
fn create_proposal_refuses_evidence_of_another_token() {
    let config = initialize(key(9));
    for amount in [0u64, 1, 1_000_000, u64::MAX] {
        let evidence = TokenEvidence { owner: key(1), mint: key(8), amount };
        let r = untitled(&config, key(1), labels(&["A"]), (0, 1), &evidence);
        assert_eq!(r.err(), Some(CustomError::InvalidTokenMint));
    }
}

#[test]
fn create_proposal_asks_for_the_owner_before_the_token() {
    let config = initialize(key(9));
    let evidence = TokenEvidence { owner: key(2), mint: key(8), amount: 50 };
    let r = untitled(&config, key(1), labels(&["A"]), (0, 1), &evidence);
    assert_eq!(r.err(), Some(CustomError::UnauthorizedTokenAccount));
}

#[test]
fn create_proposal_takes_the_window_as_given() {
    let config = initialize(key(9));
    let evidence = TokenEvidence { owner: key(1), mint: key(9), amount: 1 };
    let proposal = untitled(&config, key(1), labels(&["A"]), (200, 100), &evidence).unwrap();
    assert_eq!(proposal.start_time(), 200);
    assert_eq!(proposal.end_time(), 100);
}

#[test]
fn create_proposal_takes_no_options() {
    let config = initialize(key(9));
    let evidence = TokenEvidence { owner: key(1), mint: key(9), amount: 1 };
    let proposal = untitled(&config, key(1), Vec::new(), (0, 1), &evidence).unwrap();
    assert!(proposal.options().is_empty());
    assert!(proposal.votes().is_empty());
}

#[test]
fn from_parts_keeps_the_parts() {
    let proposal = Proposal::from_parts(
        key(1),
        "T".to_string(),
        "D".to_string(),
        labels(&["A", "B"]),
        -5,
        5,
        vec![3, 4],
        vec![key(2), key(3)],
        Some(1),
    )
    .unwrap();
    assert_eq!(proposal.creator(), key(1));
    assert_eq!(proposal.title(), "T");
    assert_eq!(proposal.description(), "D");
    assert_eq!(proposal.options(), &labels(&["A", "B"]));
    assert_eq!(proposal.start_time(), -5);
    assert_eq!(proposal.end_time(), 5);
    assert_eq!(proposal.votes(), &vec![3u64, 4]);
    assert_eq!(proposal.voters(), &vec![key(2), key(3)]);
    assert_eq!(proposal.winner_index(), Some(1));
    assert!(proposal.has_voted(&key(2)));
    assert!(proposal.has_voted(&key(3)));
    assert!(!proposal.has_voted(&key(1)));
}

#[test]
fn from_parts_refuses_counters_that_do_not_match_the_options() {
    let parts = |votes: Vec<u64>| kept(labels(&["A", "B"]), votes, vec![], None);
    assert!(parts(vec![0]).is_none());
    assert!(parts(vec![0, 0, 0]).is_none());
    assert!(parts(vec![]).is_none());
    assert!(parts(vec![0, 0]).is_some());
}

#[test]
fn from_parts_refuses_a_voter_recorded_twice() {
    let parts = |voters: Vec<Pubkey>| kept(labels(&["A"]), vec![0], voters, None);
    assert!(parts(vec![key(2), key(2)]).is_none());
    assert!(parts(vec![key(2), key(3), key(2)]).is_none());
    assert!(parts(vec![key(3), key(2), key(2)]).is_none());
    assert!(parts(vec![key(2), key(3), key(4)]).is_some());
}

#[test]
fn from_parts_refuses_a_winner_that_is_no_option() {
    let parts = |winner: Option<u8>| kept(labels(&["A", "B"]), vec![0, 0], vec![], winner);
    assert!(parts(Some(2)).is_none());
    assert!(parts(Some(255)).is_none());
    assert!(parts(Some(1)).is_some());
    assert!(parts(Some(0)).is_some());
    assert!(parts(None).is_some());
}

#[test]
fn from_parts_refuses_votes_for_options_that_no_vote_can_name() {
    assert_eq!(MAX_VOTABLE, 256);
    let options: Vec<String> = (0..300).map(|i| i.to_string()).collect();
    let parts = |at: usize| {
        let mut votes = vec![0u64; 300];
        votes[at] = 1;
        kept(options.clone(), votes, vec![], None)
    };
    assert!(parts(256).is_none());
    assert!(parts(299).is_none());
    assert!(parts(255).is_some());
    assert!(parts(0).is_some());
}

#[test]
fn proposal_len_is_the_room_of_a_stored_proposal() {
    assert_eq!(Proposal::LEN, 3881);
}
