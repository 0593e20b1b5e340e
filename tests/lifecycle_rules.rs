use confidential_vote::error::ErrorCode;
use confidential_vote::tally::{apply_vote, reveal_tally, TallyState, VoteInput};
use confidential_vote::lifecycle::{
    cast_vote, check_eligibility, create_proposal, finalize_tally, init_tally, is_whitelisted,
    ProposalAccounts, TokenAccount, MODE_TOKEN_GATED, MODE_WHITELIST,
};

const CREATOR: [u8; 32] = [1; 32];
const MINT: [u8; 32] = [2; 32];
const START: i64 = 100;
const END: i64 = 200;

fn label(s: &str) -> [u8; 128] {
    let mut b = [0u8; 128];
    b[..s.len()].copy_from_slice(s.as_bytes());
    b
}

fn voter(n: u8) -> [u8; 32] {
    [n; 32]
}

fn proposal(mode: u8, whitelist: Vec<[u8; 32]>) -> ProposalAccounts {
    let mut a = create_proposal(
        [9; 32],
        CREATOR,
        label("Lunch"),
        vec![label("A"), label("B")],
        START,
        END,
        mode,
        whitelist,
        MINT,
        254,
    )
    .unwrap();
    init_tally(&mut a, 253).unwrap();
    a
}

fn open_proposal() -> ProposalAccounts {
    proposal(0, vec![])
}

fn vote(a: &mut ProposalAccounts, v: u8, now: i64, index: u8) -> Result<(), ErrorCode> {
    cast_vote(a, voter(v), now, [v; 32], index, None)
}

#[test]
fn new_proposal_has_zero_counters() {
    let a = create_proposal(
        [9; 32], CREATOR, label("T"), vec![label("A"), label("B"), label("C")], START, END, 1,
        vec![voter(5)], MINT, 7,
    )
    .unwrap();
    assert_eq!(a.proposal.results, vec![0, 0, 0]);
    assert_eq!(a.proposal.vote_count, 0);
    assert!(!a.proposal.tally_initialized);
    assert!(!a.proposal.finalized);
    assert!(a.encrypted_tally.is_none());
    assert_eq!(a.proposal.creator, CREATOR);
    assert_eq!(a.proposal.whitelist, vec![voter(5)]);
    assert_eq!(a.proposal.bump, 7);
}

#[test]
fn too_many_options_are_refused() {
    let options = vec![label("x"); 9];
    let r = create_proposal([9; 32], CREATOR, label("T"), options, START, END, 0, vec![], MINT, 0);
    assert_eq!(r.err(), Some(ErrorCode::TooManyOptions));
}

#[test]
fn eight_options_are_accepted() {
    let options = vec![label("x"); 8];
    let r = create_proposal([9; 32], CREATOR, label("T"), options, START, END, 0, vec![], MINT, 0);
    assert_eq!(r.unwrap().proposal.results.len(), 8);
}

#[test]
fn too_long_whitelist_is_refused() {
    let wl = vec![voter(3); 65];
    let r = create_proposal([9; 32], CREATOR, label("T"), vec![], START, END, 1, wl, MINT, 0);
    assert_eq!(r.err(), Some(ErrorCode::WhitelistTooLarge));
}

#[test]
fn tally_initializes_once() {
    let mut a = open_proposal();
    let t = a.encrypted_tally.unwrap();
    assert_eq!(t.proposal, [9; 32]);
    assert_eq!(t.bump, 253);
    assert_eq!(t.last_encrypted_vote, [0; 32]);
    assert_eq!(init_tally(&mut a, 1), Err(ErrorCode::AlreadyInitialized));
    assert_eq!(a.encrypted_tally.unwrap().bump, 253);
}

#[test]
fn vote_before_tally_is_refused() {
    let mut a = create_proposal(
        [9; 32], CREATOR, label("T"), vec![label("A")], START, END, 0, vec![], MINT, 0,
    )
    .unwrap();
    assert_eq!(vote(&mut a, 4, 150, 0), Err(ErrorCode::TallyNotInitialized));
    assert_eq!(a.proposal.vote_count, 0);
}

#[test]
fn accepted_votes_update_counters_and_ciphertext() {
    let mut a = open_proposal();
    assert_eq!(vote(&mut a, 4, 150, 0), Ok(()));
    assert_eq!(vote(&mut a, 5, 150, 1), Ok(()));
    assert_eq!(vote(&mut a, 6, 150, 0), Ok(()));
    assert_eq!(a.proposal.results, vec![2, 1]);
    assert_eq!(a.proposal.vote_count, 3);
    assert_eq!(a.voter_records.len(), 3);
    assert_eq!(a.encrypted_tally.unwrap().last_encrypted_vote, [6; 32]);
}

#[test]
fn out_of_range_index_counts_only_in_total() {
    let mut a = open_proposal();
    assert_eq!(vote(&mut a, 4, 150, 2), Ok(()));
    assert_eq!(a.proposal.results, vec![0, 0]);
    assert_eq!(a.proposal.vote_count, 1);
    assert_eq!(vote(&mut a, 4, 150, 0), Err(ErrorCode::DuplicateVoterRecord));
}

#[test]
fn second_vote_by_same_voter_is_refused_unchanged() {
    let mut a = open_proposal();
    assert_eq!(vote(&mut a, 4, 150, 0), Ok(()));
    let r = cast_vote(&mut a, voter(4), 150, [77; 32], 1, None);
    assert_eq!(r, Err(ErrorCode::DuplicateVoterRecord));
    assert_eq!(a.proposal.results, vec![1, 0]);
    assert_eq!(a.proposal.vote_count, 1);
    assert_eq!(a.voter_records.len(), 1);
    assert_eq!(a.encrypted_tally.unwrap().last_encrypted_vote, [4; 32]);
    assert!(a.voted(&voter(4)));
    assert!(!a.voted(&voter(5)));
}

#[test]
fn vote_before_start_is_refused() {
    let mut a = open_proposal();
    assert_eq!(vote(&mut a, 4, START - 1, 0), Err(ErrorCode::VotingNotStarted));
    assert_eq!(vote(&mut a, 4, START, 0), Ok(()));
}

#[test]
fn vote_at_end_time_is_accepted() {
    let mut a = open_proposal();
    assert_eq!(vote(&mut a, 4, END, 0), Ok(()));
}

#[test]
fn vote_after_end_time_is_refused() {
    let mut a = open_proposal();
    assert_eq!(vote(&mut a, 4, END + 1, 0), Err(ErrorCode::VotingEnded));
    assert_eq!(a.proposal.vote_count, 0);
}

#[test]
fn finalize_at_end_time_is_refused() {
    let mut a = open_proposal();
    assert_eq!(finalize_tally(&mut a, CREATOR, END), Err(ErrorCode::VotingNotEnded));
    assert!(!a.proposal.finalized);
}

#[test]
fn finalize_after_end_time_succeeds_once() {
    let mut a = open_proposal();
    assert_eq!(finalize_tally(&mut a, CREATOR, END + 1), Ok(()));
    assert!(a.proposal.finalized);
    assert_eq!(finalize_tally(&mut a, CREATOR, END + 2), Err(ErrorCode::AlreadyFinalized));
}

#[test]
fn finalize_by_other_key_is_refused() {
    let mut a = open_proposal();
    assert_eq!(finalize_tally(&mut a, voter(4), END + 1), Err(ErrorCode::NotProposalCreator));
    assert!(!a.proposal.finalized);
}

#[test]
fn vote_on_finalized_proposal_is_refused() {
    // A window that has passed is reported before finalization is looked at.
    let mut a = open_proposal();
    finalize_tally(&mut a, CREATOR, END + 1).unwrap();
    assert_eq!(vote(&mut a, 4, END + 1, 0), Err(ErrorCode::VotingEnded));
}

#[test]
fn whitelist_admits_only_listed_keys() {
    let mut a = proposal(MODE_WHITELIST, vec![voter(4), voter(5)]);
    assert_eq!(vote(&mut a, 6, 150, 0), Err(ErrorCode::NotWhitelisted));
    assert_eq!(vote(&mut a, 5, 150, 0), Ok(()));
    assert_eq!(a.proposal.vote_count, 1);
}

#[test]
fn whitelist_lookup() {
    let wl = vec![voter(1), voter(2)];
    assert!(is_whitelisted(&wl, &voter(2)));
    assert!(!is_whitelisted(&wl, &voter(3)));
    assert!(!is_whitelisted(&vec![], &voter(3)));
}

fn token(mint: [u8; 32], owner: [u8; 32], amount: u64) -> Option<TokenAccount> {
    Some(TokenAccount { mint, owner, amount })
}

#[test]
fn token_gate_requires_an_account() {
    let mut a = proposal(MODE_TOKEN_GATED, vec![]);
    assert_eq!(vote(&mut a, 4, 150, 0), Err(ErrorCode::TokenAccountRequired));
}

#[test]
fn token_gate_rejects_wrong_mint() {
    let mut a = proposal(MODE_TOKEN_GATED, vec![]);
    let r = cast_vote(&mut a, voter(4), 150, [0; 32], 0, token([3; 32], voter(4), 10));
    assert_eq!(r, Err(ErrorCode::InvalidMint));
}

#[test]
fn token_gate_rejects_wrong_owner() {
    let mut a = proposal(MODE_TOKEN_GATED, vec![]);
    let r = cast_vote(&mut a, voter(4), 150, [0; 32], 0, token(MINT, voter(5), 10));
    assert_eq!(r, Err(ErrorCode::InvalidTokenOwner));
}

#[test]
fn token_gate_rejects_empty_balance() {
    let mut a = proposal(MODE_TOKEN_GATED, vec![]);
    let r = cast_vote(&mut a, voter(4), 150, [0; 32], 0, token(MINT, voter(4), 0));
    assert_eq!(r, Err(ErrorCode::InsufficientTokens));
    assert_eq!(a.proposal.vote_count, 0);
}

#[test]
fn token_gate_admits_holder() {
    let mut a = proposal(MODE_TOKEN_GATED, vec![]);
    let r = cast_vote(&mut a, voter(4), 150, [0; 32], 1, token(MINT, voter(4), 1));
    assert_eq!(r, Ok(()));
    assert_eq!(a.proposal.results, vec![0, 1]);
}

#[test]
fn open_mode_ignores_whitelist_and_tokens() {
    let a = open_proposal();
    assert_eq!(check_eligibility(&a.proposal, &voter(8), &None), Ok(()));
    assert_eq!(check_eligibility(&a.proposal, &voter(8), &token([0; 32], [0; 32], 0)), Ok(()));
}

#[test]
fn public_counts_match_confidential_reveal() {
    let mut a = open_proposal();
    let mut t = TallyState::zero();
    for (v, idx) in [(10u8, 0u8), (11, 1), (12, 0), (13, 0), (14, 1)] {
        vote(&mut a, v, 150, idx).unwrap();
        t = apply_vote(VoteInput { option: idx }, t);
    }
    let revealed = reveal_tally(t);
    assert_eq!(a.proposal.results, revealed[..2].to_vec());
    assert_eq!(revealed, [3, 2, 0, 0, 0, 0, 0, 0]);
    assert_eq!(a.proposal.vote_count as usize, a.voter_records.len());
}
