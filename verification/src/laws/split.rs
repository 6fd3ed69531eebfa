//! The split of a payout pool.
use crate::laws::{total, total_is_sum};
use crate::routes::allocation::{
    allocate_stroops, entry_within_sum, leftover, leftover_is_served, rank, remainder, remainders,
    served_before_is_ranked_before, share, share_bps, shares, split_sums_to_pool, splittable,
    whole_share, whole_shares,
};
use vstd::arithmetic::div_mod::{lemma_fundamental_div_mod, lemma_mod_bound};
use vstd::prelude::*;

verus! {

/// The amounts of a split.
pub open spec fn amounts(r: Seq<(u64, i32)>) -> Seq<u64> {
    Seq::new(r.len(), |i: int| r[i].0)
}

/// The stroops of `v` votes out of `all`, rounded down.
pub open spec fn rounded_down(pool: u64, v: u64, all: u64) -> int {
    (pool * v) / (all as int)
}

/// What rounding takes off the stroops of `v` votes out of `all`.
pub open spec fn rounded_off(pool: u64, v: u64, all: u64) -> int {
    (pool * v) % (all as int)
}

/// Whether an entry got a stroop more than its share rounded down.
pub open spec fn rounded_up(pool: u64, v: u64, all: u64, amount: u64) -> bool {
    amount == rounded_down(pool, v, all) + 1
}

/// Wherever anyone has voted the amounts sum to exactly the pool; where nobody has, nobody gets
/// anything.
pub proof fn pool_is_paid_out_in_full(
    pool: u64,
    votes: &[u64],
    all: u64,
    r: Vec<(u64, i32)>,
)
    requires
        all == total(votes@),
        call_ensures(allocate_stroops, (pool, votes, all), r),
    ensures
        r@.len() == votes@.len(),
        all > 0 ==> total(amounts(r@)) == pool,
        all == 0 ==> forall|i: int| 0 <= i < r@.len() ==> (#[trigger] r@[i]) == (0u64, 0i32),
{
    total_is_sum(votes@);
    if all > 0 {
        split_sums_to_pool(pool, votes@, all);
        assert(amounts(r@) =~= shares(pool, votes@, all));
        total_is_sum(amounts(r@));
    }
}

/// Every entry gets its proportional share, rounded down or up, and its votes in basis points,
/// rounded down.
pub proof fn everyone_gets_their_share(
    pool: u64,
    votes: &[u64],
    all: u64,
    r: Vec<(u64, i32)>,
    i: int,
)
    requires
        splittable(pool, votes@, all),
        call_ensures(allocate_stroops, (pool, votes, all), r),
        0 <= i < votes@.len(),
        all > 0,
    ensures
        rounded_down(pool, votes@[i], all) <= u64::MAX ==> r@[i].0 == rounded_down(
            pool,
            votes@[i],
            all,
        ) || rounded_up(pool, votes@[i], all, r@[i].0),
        (votes@[i] * 10_000) / (all as int) <= i32::MAX ==> r@[i].1 * all <= votes@[i] * 10_000 < (
        r@[i].1 + 1) * all,
{
    let v = votes@[i];
    quotient(pool, v, all);
    let whole = whole_shares(pool, votes@, all);
    assert(whole[i] == whole_share(pool, v, all));
    entry_within_sum(whole, i);
    assert(r@[i] == (share(pool, votes@, all, i), share_bps(v, all)));
    if (v * 10_000) / (all as int) <= i32::MAX {
        basis_points(v, all);
    }
}

/// The whole stroops of a share are the share rounded down, where they fit in 64 bits.
proof fn quotient(pool: u64, v: u64, all: u64)
    requires
        all > 0,
    ensures
        rounded_down(pool, v, all) >= 0,
        rounded_down(pool, v, all) <= u64::MAX ==> whole_share(pool, v, all) == rounded_down(
            pool,
            v,
            all,
        ),
        remainder(pool, v, all) == rounded_off(pool, v, all),
{
    let x = pool as int * v as int;
    let t = all as int;
    assert(0 <= x) by (nonlinear_arith)
        requires
            x == pool as int * v as int,
            0 <= pool,
            0 <= v,
    ;
    lemma_fundamental_div_mod(x, t);
    lemma_mod_bound(x, t);
    let q = x / t;
    assert(0 <= q) by (nonlinear_arith)
        requires
            x == t * q + x % t,
            0 <= x % t < t,
            0 <= x,
            t > 0,
    ;
}

/// Basis points are rounded down, where they fit in 32 bits.
pub proof fn basis_points(v: u64, all: u64)
    requires
        all > 0,
        (v * 10_000) / (all as int) <= i32::MAX,
    ensures
        share_bps(v, all) * all <= v * 10_000 < (share_bps(v, all) + 1) * all,
{
    let x = v as int * 10_000;
    let t = all as int;
    lemma_fundamental_div_mod(x, t);
    lemma_mod_bound(x, t);
    let q = x / t;
    assert(0 <= q) by (nonlinear_arith)
        requires
            x == t * q + x % t,
            0 <= x % t < t,
            0 <= x,
            t > 0,
    ;
    assert(share_bps(v, all) == q);
    assert(q * t <= x < (q + 1) * t) by (nonlinear_arith)
        requires
            x == t * q + x % t,
            0 <= x % t < t,
    ;
}

/// The stroops that rounding down leaves over go to those who lost most by it, and first come first
/// where they lost as much: nobody is rounded up before them.
pub proof fn largest_remainders_are_rounded_up(
    pool: u64,
    votes: &[u64],
    all: u64,
    r: Vec<(u64, i32)>,
    j: int,
    i: int,
)
    requires
        splittable(pool, votes@, all),
        call_ensures(allocate_stroops, (pool, votes, all), r),
        0 <= i < votes@.len(),
        0 <= j < votes@.len(),
        rounded_down(pool, votes@[i], all) <= u64::MAX,
        rounded_down(pool, votes@[j], all) <= u64::MAX,
        all > 0,
        rounded_off(pool, votes@[j], all) > rounded_off(pool, votes@[i], all) || (rounded_off(
            pool,
            votes@[j],
            all,
        ) == rounded_off(pool, votes@[i], all) && j < i),
        rounded_up(pool, votes@[i], all, r@[i].0),
    ensures
        rounded_up(pool, votes@[j], all, r@[j].0),
{
    let rem = remainders(pool, votes@, all);
    let whole = whole_shares(pool, votes@, all);
    quotient(pool, votes@[i], all);
    quotient(pool, votes@[j], all);
    entry_within_sum(whole, i);
    entry_within_sum(whole, j);
    assert(whole[i] == whole_share(pool, votes@[i], all));
    assert(whole[j] == whole_share(pool, votes@[j], all));
    assert(r@[i].0 == share(pool, votes@, all, i));
    assert(r@[j].0 == share(pool, votes@, all, j));
    served_before_is_ranked_before(rem, j, i);
}

/// No stroop is held back: the amounts sum to the pool, or everyone was rounded up, whatever the
/// total that the shares are taken of.
pub proof fn nothing_is_held_back(
    pool: u64,
    votes: &[u64],
    all: u64,
    r: Vec<(u64, i32)>,
    i: int,
)
    requires
        splittable(pool, votes@, all),
        call_ensures(allocate_stroops, (pool, votes, all), r),
        0 <= i < votes@.len(),
        rounded_down(pool, votes@[i], all) <= u64::MAX,
        all > 0,
    ensures
        total(amounts(r@)) <= pool,
        total(amounts(r@)) == pool || rounded_up(pool, votes@[i], all, r@[i].0),
{
    leftover_is_served(pool, votes@, all);
    assert(amounts(r@) =~= shares(pool, votes@, all));
    total_is_sum(amounts(r@));
    quotient(pool, votes@[i], all);
    let whole = whole_shares(pool, votes@, all);
    entry_within_sum(whole, i);
    assert(whole[i] == whole_share(pool, votes@[i], all));
    assert(r@[i].0 == share(pool, votes@, all, i));
    if total(amounts(r@)) != pool {
        assert(rank(remainders(pool, votes@, all), i) < leftover(pool, votes@, all));
    }
}

} // verus!
