use dao::{
    create_proposal, find_winner, initialize, tally_votes, vote, CustomError, Proposal, Pubkey,
    TokenEvidence,
};

fn id(n: u8) -> Pubkey {
    Pubkey::new_from_array([n; 32])
}

fn counted(votes: Vec<u64>, end_time: i64) -> Proposal {
    let options: Vec<String> = (0..votes.len()).map(|i| format!("option {}", i)).collect();
    let (title, description) = (String::new(), String::new());
    Proposal::from_parts(id(1), title, description, options, 0, end_time, votes, vec![], None)
        .unwrap()
}

#[test]
fn find_winner_takes_the_first_of_the_largest() {
    assert_eq!(find_winner(&vec![5, 5, 3]), Some(0));
    assert_eq!(find_winner(&vec![3, 5, 5]), Some(1));
    assert_eq!(find_winner(&vec![1, 2, 3]), Some(2));
    assert_eq!(find_winner(&vec![0, 0, 1]), Some(2));
    assert_eq!(find_winner(&vec![7]), Some(0));
    assert_eq!(find_winner(&vec![u64::MAX, u64::MAX]), Some(0));
    assert_eq!(find_winner(&vec![2, 9, 4, 9, 1]), Some(1));
}

#[test]
fn find_winner_finds_none_without_votes() {
    assert_eq!(find_winner(&vec![0, 0, 0]), None);
    assert_eq!(find_winner(&vec![0]), None);
    assert_eq!(find_winner(&vec![]), None);
}

#[test]
fn tally_breaks_a_tie_for_the_first() {
    let mut p = counted(vec![5, 5, 3], 200);
    assert_eq!(tally_votes(&mut p, 201), Ok(()));
    assert_eq!(p.winner_index(), Some(0));
}

#[test]
fn tally_of_no_votes_has_no_winner() {
    let mut p = counted(vec![0, 0, 0], 200);
    assert_eq!(tally_votes(&mut p, 201), Ok(()));
    assert_eq!(p.winner_index(), None);
}

#[test]
fn tally_of_no_votes_clears_an_earlier_winner() {
    let mut p = Proposal::from_parts(
        id(1),
        String::new(),
        String::new(),
        vec!["A".to_string(), "B".to_string()],
        0,
        200,
        vec![0, 0],
        vec![],
        Some(1),
    )
    .unwrap();
    assert_eq!(tally_votes(&mut p, 201), Ok(()));
    assert_eq!(p.winner_index(), None);
}

#[test]
fn tally_is_refused_while_the_window_is_open() {
    let mut p = counted(vec![1, 2], 200);
    for now in [i64::MIN, -1, 0, 199, 200] {
        assert_eq!(tally_votes(&mut p, now), Err(CustomError::VotingNotEnded));
        assert_eq!(p.winner_index(), None);
    }
    assert_eq!(tally_votes(&mut p, 201), Ok(()));
    assert_eq!(p.winner_index(), Some(1));
}

#[test]
fn tally_twice_finds_the_same_winner() {
    let mut p = counted(vec![4, 9, 9, 2], 200);
    assert_eq!(tally_votes(&mut p, 201), Ok(()));
    let first = p.winner_index();
    assert_eq!(first, Some(1));
    assert_eq!(tally_votes(&mut p, 5000), Ok(()));
    assert_eq!(p.winner_index(), first);
    assert_eq!(p.votes(), &vec![4u64, 9, 9, 2]);
}

#[test]
fn tally_changes_nothing_but_the_winner() {
    let config = initialize(id(9));
    let evidence = TokenEvidence { owner: id(1), mint: id(9), amount: 3 };
    let mut p = create_proposal(
        &config,
        id(1),
        "T".to_string(),
        "D".to_string(),
        vec!["A".to_string(), "B".to_string()],
        10,
        20,
        &evidence,
    )
    .unwrap();
    assert_eq!(vote(&mut p, &config, id(1), 1, 15, &evidence), Ok(()));
    assert_eq!(tally_votes(&mut p, 21), Ok(()));
    assert_eq!(p.creator(), id(1));
    assert_eq!(p.title(), "T");
    assert_eq!(p.description(), "D");
    assert_eq!(p.options(), &vec!["A".to_string(), "B".to_string()]);
    assert_eq!(p.start_time(), 10);
    assert_eq!(p.end_time(), 20);
    assert_eq!(p.votes(), &vec![0u64, 3]);
    assert_eq!(p.voters(), &vec![id(1)]);
    assert_eq!(p.winner_index(), Some(1));
}

#[test]
fn tally_names_the_last_option_that_a_vote_can_name() {
    let mut votes = vec![0u64; 300];
    votes[255] = 1;
    let mut p = counted(votes, 0);
    assert_eq!(tally_votes(&mut p, 1), Ok(()));
    assert_eq!(p.winner_index(), Some(255));
}

#[test]
fn tally_of_a_proposal_without_options_has_no_winner() {
    let mut p = counted(vec![], 0);
    assert_eq!(tally_votes(&mut p, 1), Ok(()));
    assert_eq!(p.winner_index(), None);
}
