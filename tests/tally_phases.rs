use confidential_vote::tally::{apply_vote, init_tally, reveal_tally, TallyState, VoteInput};

fn run(votes: &[u8]) -> [u64; 8] {
    let mut t = init_tally(TallyState::zero());
    for &v in votes {
        t = apply_vote(VoteInput { option: v }, t);
    }
    reveal_tally(t)
}

#[test]
fn reveal_after_three_and_two_votes() {
    assert_eq!(run(&[0, 0, 0, 1, 1]), [3, 2, 0, 0, 0, 0, 0, 0]);
}

#[test]
fn reveal_after_repeated_votes_for_one_slot() {
    assert_eq!(run(&[5, 5, 5, 5]), [0, 0, 0, 0, 0, 4, 0, 0]);
}

#[test]
fn reveal_of_zero_tally_is_zero() {
    assert_eq!(run(&[]), [0; 8]);
}

#[test]
fn out_of_range_selector_changes_nothing() {
    assert_eq!(run(&[8, 200, 255, 7]), [0, 0, 0, 0, 0, 0, 0, 1]);
}

#[test]
fn initialize_keeps_supplied_counters() {
    let t = init_tally(TallyState { counts: [1, 2, 3, 4, 5, 6, 7, 8] });
    assert_eq!(reveal_tally(t), [1, 2, 3, 4, 5, 6, 7, 8]);
}

#[test]
fn apply_wraps_a_full_counter() {
    let t = TallyState { counts: [u64::MAX, 9, 0, 0, 0, 0, 0, 0] };
    let t = apply_vote(VoteInput { option: 0 }, t);
    assert_eq!(reveal_tally(t), [0, 9, 0, 0, 0, 0, 0, 0]);
}

#[test]
fn each_slot_is_reachable() {
    for k in 0u8..8 {
        let r = run(&[k, k]);
        for j in 0..8 {
            assert_eq!(r[j], if j == k as usize { 2 } else { 0 });
        }
    }
}
