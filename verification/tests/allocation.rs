use anonvote_backend::routes::allocation::allocate_stroops;

#[test]
fn splits_sum_exactly_to_the_pool_even_with_rounding() {
    let shares = allocate_stroops(1_000, &[1, 1, 1], 3);
    let total: u64 = shares.iter().map(|(a, _)| a).sum();
    assert_eq!(total, 1_000);
    // largest-remainder distributes the 1-stroop rounding leftovers,
    // so amounts differ by at most 1 stroop from each other.
    let min = shares.iter().map(|(a, _)| *a).min().unwrap();
    let max = shares.iter().map(|(a, _)| *a).max().unwrap();
    assert!(max - min <= 1);
}

#[test]
fn zero_votes_gets_zero_payout() {
    let shares = allocate_stroops(1_000, &[5, 0, 5], 10);
    assert_eq!(shares[1].0, 0);
    assert_eq!(shares[1].1, 0);
    assert_eq!(shares[0].0 + shares[2].0, 1_000);
}

#[test]
fn no_votes_at_all_pays_out_nothing() {
    let shares = allocate_stroops(1_000, &[0, 0], 0);
    assert_eq!(shares, vec![(0, 0), (0, 0)]);
}

#[test]
fn proportional_to_vote_share() {
    let shares = allocate_stroops(10_000, &[75, 25], 100);
    assert_eq!(shares[0], (7_500, 7_500));
    assert_eq!(shares[1], (2_500, 2_500));
}

#[test]
fn leftover_goes_to_the_first_of_equal_remainders() {
    let shares = allocate_stroops(1_000, &[1, 1, 1], 3);
    assert_eq!(shares, vec![(334, 3_333), (333, 3_333), (333, 3_333)]);
}

#[test]
fn leftover_goes_to_the_largest_remainder() {
    // 10 * 1 / 7 = 1 rest 3, 10 * 2 / 7 = 2 rest 6, 10 * 4 / 7 = 5 rest 5
    let shares = allocate_stroops(10, &[1, 2, 4], 7);
    assert_eq!(shares, vec![(1, 1_428), (3, 2_857), (6, 5_714)]);
}

#[test]
fn several_leftovers_go_one_each() {
    // 5 * 2 / 11 = 0 rest 10, 5 * 3 / 11 = 1 rest 4, 5 * 6 / 11 = 2 rest 8
    let shares = allocate_stroops(5, &[2, 3, 6], 11);
    assert_eq!(shares, vec![(1, 1_818), (1, 2_727), (3, 5_454)]);
}

#[test]
fn huge_pools_and_votes_do_not_overflow() {
    let shares = allocate_stroops(u64::MAX, &[u64::MAX - 1, 1], u64::MAX);
    assert_eq!(shares[0].0, u64::MAX - 1);
    assert_eq!(shares[1].0, 1);
    assert_eq!(shares[0].1, 9_999);
    assert_eq!(shares[1].1, 0);
}

#[test]
fn more_votes_get_no_smaller_amount() {
    let votes = [17, 3, 99, 3, 40, 0];
    let total: u64 = votes.iter().sum();
    let shares = allocate_stroops(1_001, &votes, total);
    for i in 0..votes.len() {
        for j in 0..votes.len() {
            if votes[j] < votes[i] {
                assert!(shares[j].0 <= shares[i].0);
            }
            if votes[j] == votes[i] {
                assert!(shares[j].0 <= shares[i].0 + 1);
            }
        }
        // less than one stroop away from the exact share
        let exact = 1_001u128 * votes[i] as u128;
        let got = shares[i].0 as u128 * total as u128;
        assert!(got < exact + total as u128 && exact < got + total as u128);
    }
    assert_eq!(shares.iter().map(|s| s.0).sum::<u64>(), 1_001);
    assert!(shares.iter().map(|s| s.1).sum::<i32>() <= 10_000);
}

#[test]
fn no_entries_no_shares() {
    assert_eq!(allocate_stroops(1_000, &[], 0), vec![]);
}
