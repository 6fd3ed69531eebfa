//! The split of a payout pool by vote share, rounded by the largest-remainder method.
use vstd::arithmetic::div_mod::{lemma_fundamental_div_mod, lemma_mod_bound};
use vstd::prelude::*;

verus! {

// ---------------------------------------------------------------------
// What the split is
// ---------------------------------------------------------------------
/// The sum of a sequence of numbers.
pub open spec fn sum(s: Seq<u64>) -> nat
    decreases s.len(),
{
    if s.len() == 0 {
        0
    } else {
        sum(s.drop_last()) + s.last() as nat
    }
}

/// The whole stroops of `v` votes' share of the pool, in 64 bits.
pub open spec fn whole_share(pool: u64, v: u64, total: u64) -> u64 {
    ((pool as nat * v as nat) / (total as nat)) as u64
}

/// What is left of `v` votes' share beyond its whole stroops, in units of one stroop by `total`.
pub open spec fn remainder(pool: u64, v: u64, total: u64) -> nat {
    (pool as nat * v as nat) % (total as nat)
}

/// The whole stroops of every entry's share.
pub open spec fn whole_shares(pool: u64, votes: Seq<u64>, total: u64) -> Seq<u64> {
    votes.map_values(|v: u64| whole_share(pool, v, total))
}

/// What is left of every entry's share.
pub open spec fn remainders(pool: u64, votes: Seq<u64>, total: u64) -> Seq<nat> {
    votes.map_values(|v: u64| remainder(pool, v, total))
}

/// Whether entry `j` is served a leftover stroop before entry `i`: it has the larger remainder,
/// or as large a one and comes first.
pub open spec fn precedes(rem: Seq<nat>, j: int, i: int) -> bool {
    rem[j] > rem[i] || (rem[j] == rem[i] && j < i)
}

/// How many of the numbers below `n` satisfy `p`.
pub open spec fn count(p: spec_fn(int) -> bool, n: nat) -> nat
    decreases n,
{
    if n == 0 {
        0
    } else {
        count(p, (n - 1) as nat) + (if p(n - 1) {
            1nat
        } else {
            0
        })
    }
}

/// How many of the first `n` entries are served before entry `i`.
pub open spec fn rank_among(rem: Seq<nat>, n: nat, i: int) -> nat {
    count(|j: int| precedes(rem, j, i), n)
}

/// How many entries are served before entry `i`.
pub open spec fn rank(rem: Seq<nat>, i: int) -> nat {
    rank_among(rem, rem.len(), i)
}

/// The stroops that the whole shares leave over.
pub open spec fn leftover(pool: u64, votes: Seq<u64>, total: u64) -> int {
    pool - sum(whole_shares(pool, votes, total))
}

/// The stroops of entry `i`: its whole share, and one more where it is among the first
/// `leftover` to be served. Nobody gets anything where there are no votes.
pub open spec fn share(pool: u64, votes: Seq<u64>, total: u64, i: int) -> u64 {
    if total == 0 {
        0
    } else if rank(remainders(pool, votes, total), i) < leftover(pool, votes, total) {
        (whole_share(pool, votes[i], total) + 1) as u64
    } else {
        whole_share(pool, votes[i], total)
    }
}

/// A vote share in basis points, rounded down, in 32 bits.
pub open spec fn share_bps(v: u64, total: u64) -> i32 {
    if total == 0 {
        0
    } else {
        ((v as nat * 10_000) / (total as nat)) as i32
    }
}

/// Whether the whole shares can be paid out of the pool.
pub open spec fn splittable(pool: u64, votes: Seq<u64>, total: u64) -> bool {
    total == 0 || sum(whole_shares(pool, votes, total)) <= pool
}

// ---------------------------------------------------------------------
// The split
// ---------------------------------------------------------------------
/// `a * b` in 128 bits.
fn product(a: u64, b: u64) -> (r: u128)
    ensures
        r == a as nat * b as nat,
{
    assert(0 <= a as int * b as int <= 0xffff_ffff_ffff_ffff * 0xffff_ffff_ffff_ffff)
        by (nonlinear_arith)
        requires
            0 <= a <= 0xffff_ffff_ffff_ffff,
            0 <= b <= 0xffff_ffff_ffff_ffff,
    ;
    (a as u128) * (b as u128)
}

/// Splits `pool` stroops across `votes` in proportion to each entry's share of `total_votes`, by
/// the largest-remainder method: an entry gets the whole stroops of its share, and the stroops
/// that are then left over go, one each, to the entries with the largest remainders. Returns
/// `(amount_stroops, vote_share_bps)` per entry, in the order of `votes`.
pub fn allocate_stroops(pool: u64, votes: &[u64], total_votes: u64) -> (r: Vec<(u64, i32)>)
    requires
        splittable(pool, votes@, total_votes),
    ensures
        r@.len() == votes@.len(),
        forall|i: int|
            0 <= i < votes@.len() ==> (#[trigger] r@[i]) == (
                share(pool, votes@, total_votes, i),
                share_bps(votes@[i], total_votes),
            ),
{
    let n: usize = votes.len();
    let mut out: Vec<(u64, i32)> = Vec::new();
    if total_votes == 0 {
        let mut k: usize = 0;
        while k < n
            invariant
                k <= n == votes@.len(),
                out@.len() == k,
                forall|i: int| 0 <= i < k ==> (#[trigger] out@[i]) == (0u64, 0i32),
            decreases n - k,
        {
            out.push((0, 0));
            k = k + 1;
        }
        return out;
    }
    let ghost whole = whole_shares(pool, votes@, total_votes);
    let ghost rem = remainders(pool, votes@, total_votes);
    let mut amounts: Vec<u64> = Vec::new();
    let mut rests: Vec<u128> = Vec::new();
    let mut allocated: u64 = 0;
    let mut k: usize = 0;
    assert(whole.take(0) =~= Seq::empty());
    while k < n
        invariant
            k <= n == votes@.len(),
            total_votes > 0,
            whole == whole_shares(pool, votes@, total_votes),
            rem == remainders(pool, votes@, total_votes),
            sum(whole) <= pool,
            amounts@ == whole.take(k as int),
            rests@.len() == k,
            forall|i: int| 0 <= i < k ==> (#[trigger] rests@[i]) as nat == rem[i],
            allocated == sum(whole.take(k as int)),
        decreases n - k,
    {
        let v = votes[k];
        let numerator = product(pool, v);
        let amount: u64 = #[verifier::truncate] ((numerator / total_votes as u128) as u64);
        rests.push(numerator % total_votes as u128);
        proof {
            assert(amount == whole[k as int]);
            assert(whole.take(k + 1).drop_last() =~= whole.take(k as int));
            assert(whole.take(k + 1).last() == amount);
            sum_of_prefix(whole, k + 1);
        }
        amounts.push(amount);
        assert(amounts@ =~= whole.take(k + 1));
        allocated = allocated + amount;
        k = k + 1;
    }
    assert(whole.take(n as int) =~= whole);
    let left: u64 = pool - allocated;
    let mut i: usize = 0;
    while i < n
        invariant
            i <= n == votes@.len(),
            total_votes > 0,
            whole == whole_shares(pool, votes@, total_votes),
            rem == remainders(pool, votes@, total_votes),
            amounts@ == whole,
            rests@.len() == n,
            forall|j: int| 0 <= j < n ==> (#[trigger] rests@[j]) as nat == rem[j],
            left == leftover(pool, votes@, total_votes),
            left == pool - sum(whole),
            out@.len() == i,
            forall|j: int|
                0 <= j < i ==> (#[trigger] out@[j]) == (
                    share(pool, votes@, total_votes, j),
                    share_bps(votes@[j], total_votes),
                ),
        decreases n - i,
    {
        let mut before: usize = 0;
        let mut j: usize = 0;
        let ghost p = |j: int| precedes(rem, j, i as int);
        while j < n
            invariant
                i < n,
                j <= n,
                rests@.len() == n,
                n == rem.len(),
                forall|j: int| 0 <= j < n ==> (#[trigger] rests@[j]) as nat == rem[j],
                p == (|j: int| precedes(rem, j, i as int)),
                before <= j,
                before == count(p, j as nat),
            decreases n - j,
        {
            if rests[j] > rests[i] || (rests[j] == rests[i] && j < i) {
                assert(p(j as int));
                before = before + 1;
            } else {
                assert(!p(j as int));
            }
            j = j + 1;
        }
        assert(before == rank(rem, i as int));
        let mut amount: u64 = amounts[i];
        if (before as u64) < left {
            proof {
                entry_within_sum(whole, i as int);
            }
            amount = amount + 1;
        }
        let v = votes[i];
        let scaled: u128 = (v as u128) * 10_000;
        let bps: i32 = #[verifier::truncate] ((scaled / total_votes as u128) as i32);
        out.push((amount, bps));
        i = i + 1;
    }
    out
}

// ---------------------------------------------------------------------
// Sums and counts
// ---------------------------------------------------------------------
/// The first entries of a sequence sum to no more than all of them.
pub proof fn sum_of_prefix(s: Seq<u64>, n: int)
    requires
        0 <= n <= s.len(),
    ensures
        sum(s.take(n)) <= sum(s),
    decreases s.len() - n,
{
    if n < s.len() {
        sum_of_prefix(s, n + 1);
        assert(s.take(n + 1).drop_last() =~= s.take(n));
    } else {
        assert(s.take(n) =~= s);
    }
}

/// No entry is larger than the sum.
pub proof fn entry_within_sum(s: Seq<u64>, i: int)
    requires
        0 <= i < s.len(),
    ensures
        s[i] <= sum(s),
{
    sum_of_prefix(s, i + 1);
    assert(s.take(i + 1).last() == s[i]);
}

/// A count is no larger where fewer numbers qualify, and smaller where one of the others is `x`.
proof fn count_monotone(p: spec_fn(int) -> bool, q: spec_fn(int) -> bool, n: nat, x: int)
    requires
        forall|j: int| 0 <= j < n && #[trigger] p(j) ==> q(j),
    ensures
        count(p, n) <= count(q, n),
        0 <= x < n && q(x) && !p(x) ==> count(p, n) < count(q, n),
    decreases n,
{
    if n > 0 {
        count_monotone(p, q, (n - 1) as nat, x);
    }
}

/// A count is no larger than the number of candidates.
proof fn count_bound(p: spec_fn(int) -> bool, n: nat)
    ensures
        count(p, n) <= n,
    decreases n,
{
    if n > 0 {
        count_bound(p, (n - 1) as nat);
    }
}

/// Exactly `min(k, n)` of the first `n` entries have fewer than `k` of them served before.
proof fn ranks_fill_up(rem: Seq<nat>, n: nat, k: nat)
    requires
        n <= rem.len(),
    ensures
        count(|i: int| rank_among(rem, n, i) < k, n) == (if k < n {
            k
        } else {
            n
        }),
    decreases n,
{
    if n > 0 {
        let m = (n - 1) as nat;
        let last = m as int;
        let ahead = |j: int| precedes(rem, j, last);
        let r = count(ahead, m);
        let k1: nat = if k > r {
            (k - 1) as nat
        } else {
            k
        };
        count_bound(ahead, m);
        ranks_fill_up(rem, m, k1);
        let old_below = |i: int| rank_among(rem, m, i) < k1;
        let new_below = |i: int| rank_among(rem, n, i) < k;
        assert forall|i: int| 0 <= i < m implies #[trigger] old_below(i) == new_below(i) by {
            let pi = |j: int| precedes(rem, j, i);
            assert(rank_among(rem, n, i) == count(pi, n));
            assert(rank_among(rem, m, i) == count(pi, m));
            assert(pi(last) == precedes(rem, last, i));
            if precedes(rem, i, last) {
                assert(ahead(i) && !pi(i));
                count_monotone(pi, ahead, m, i);
            } else {
                count_monotone(ahead, pi, m, 0);
            }
        }
        same_counts(old_below, new_below, m);
        assert(rank_among(rem, n, last) == r) by {
            assert(!ahead(last));
        }
        assert(new_below(last) == (r < k));
    }
}

/// Predicates that agree on the candidates count alike.
proof fn same_counts(p: spec_fn(int) -> bool, q: spec_fn(int) -> bool, n: nat)
    requires
        forall|j: int| 0 <= j < n ==> #[trigger] p(j) == q(j),
    ensures
        count(p, n) == count(q, n),
    decreases n,
{
    if n > 0 {
        same_counts(p, q, (n - 1) as nat);
        assert(p(n - 1) == q(n - 1));
    }
}

/// The sum of a sequence of natural numbers.
pub open spec fn nat_sum(s: Seq<nat>) -> nat
    decreases s.len(),
{
    if s.len() == 0 {
        0
    } else {
        nat_sum(s.drop_last()) + s.last()
    }
}

/// Whole shares and remainders make up the pool times the votes.
proof fn shares_and_remainders(pool: u64, votes: Seq<u64>, total: u64)
    requires
        total > 0,
        sum(votes) <= total,
    ensures
        sum(whole_shares(pool, votes, total)) * total + nat_sum(remainders(pool, votes, total))
            == pool * sum(votes),
    decreases votes.len(),
{
    let whole = whole_shares(pool, votes, total);
    let rem = remainders(pool, votes, total);
    if votes.len() == 0 {
        assert(pool * 0 == 0) by (nonlinear_arith);
        assert(0 * total == 0) by (nonlinear_arith);
    } else {
        let init = votes.drop_last();
        let v = votes.last();
        shares_and_remainders(pool, init, total);
        assert(whole.drop_last() =~= whole_shares(pool, init, total));
        assert(rem.drop_last() =~= remainders(pool, init, total));
        quotient_and_remainder(pool, v, total);
        let a = sum(whole.drop_last()) as int;
        let w = whole.last() as int;
        let t = total as int;
        assert((a + w) * t == a * t + w * t) by (nonlinear_arith);
        let b = sum(init) as int;
        assert(pool as int * (b + v as int) == pool as int * b + pool as int * v as int)
            by (nonlinear_arith);
    }
}

/// The whole share of no more votes than there are fits in 64 bits and is the quotient.
pub proof fn quotient_and_remainder(pool: u64, v: u64, total: u64)
    requires
        0 < total,
        v <= total,
    ensures
        whole_share(pool, v, total) == (pool as nat * v as nat) / (total as nat),
        whole_share(pool, v, total) <= pool,
        whole_share(pool, v, total) * total + remainder(pool, v, total) == pool * v,
        remainder(pool, v, total) < total,
{
    let x = pool as int * v as int;
    let t = total as int;
    assert(0 <= x <= pool as int * t) by (nonlinear_arith)
        requires
            x == pool as int * v as int,
            0 <= v <= t,
            0 <= pool,
    ;
    lemma_fundamental_div_mod(x, t);
    lemma_mod_bound(x, t);
    assert(x == t * (x / t) + x % t);
    assert(0 <= x / t <= pool) by (nonlinear_arith)
        requires
            0 <= x <= pool as int * t,
            x == t * (x / t) + x % t,
            0 <= x % t < t,
    ;
    assert((x / t) * t == t * (x / t)) by (nonlinear_arith);
}

/// Entries that each are less than `t` sum to less than `t` times the number of those that are
/// not zero, unless all are zero.
proof fn remainder_sum_bound(rem: Seq<nat>, t: nat)
    requires
        forall|i: int| 0 <= i < rem.len() ==> #[trigger] rem[i] < t,
    ensures
        nat_sum(rem) + count(|i: int| rem[i] > 0, rem.len()) <= t * count(
            |i: int| rem[i] > 0,
            rem.len(),
        ),
    decreases rem.len(),
{
    let p = |i: int| rem[i] > 0;
    if rem.len() == 0 {
        assert(t * 0 == 0) by (nonlinear_arith);
    } else {
        let init = rem.drop_last();
        let q = |i: int| init[i] > 0;
        remainder_sum_bound(init, t);
        same_counts(p, q, init.len());
        let c = count(q, init.len());
        assert(t * (c + 1) == t * c + t) by (nonlinear_arith);
        assert(rem[rem.len() - 1] < t);
        assert(p(rem.len() - 1) == (rem.last() > 0));
    }
}

/// Where the votes are all the votes there are, the leftover stroops are fewer than the entries
/// with a remainder, unless there are none of either.
proof fn leftover_bound(pool: u64, votes: Seq<u64>, total: u64)
    requires
        total > 0,
        sum(votes) == total,
    ensures
        0 <= leftover(pool, votes, total),
        leftover(pool, votes, total) <= count(
            |i: int| remainders(pool, votes, total)[i] > 0,
            votes.len(),
        ),
        leftover(pool, votes, total) <= votes.len(),
{
    let rem = remainders(pool, votes, total);
    let whole = whole_shares(pool, votes, total);
    let p = |i: int| rem[i] > 0;
    shares_and_remainders(pool, votes, total);
    assert forall|i: int| 0 <= i < rem.len() implies #[trigger] rem[i] < total as nat by {
        entry_within_sum(votes, i);
        quotient_and_remainder(pool, votes[i], total);
    }
    remainder_sum_bound(rem, total as nat);
    let l = leftover(pool, votes, total);
    let t = total as int;
    let s = nat_sum(rem) as int;
    let w = sum(whole) as int;
    let c = count(p, votes.len()) as int;
    assert(l * t == s) by (nonlinear_arith)
        requires
            w * t + s == pool as int * t,
            l == pool as int - w,
    ;
    assert(0 <= l <= c) by (nonlinear_arith)
        requires
            l * t == s,
            0 <= s,
            0 <= c,
            s + c <= t * c,
            t > 0,
    ;
    count_bound(p, votes.len());
}

// ---------------------------------------------------------------------
// Laws of the split
// ---------------------------------------------------------------------
/// The stroops of every entry.
pub open spec fn shares(pool: u64, votes: Seq<u64>, total: u64) -> Seq<u64> {
    Seq::new(votes.len(), |i: int| share(pool, votes, total, i))
}

/// A pool can be split over any votes whose total is given or less.
pub proof fn true_total_is_splittable(pool: u64, votes: Seq<u64>, total: u64)
    requires
        sum(votes) <= total,
    ensures
        splittable(pool, votes, total),
{
    if total > 0 {
        shares_and_remainders(pool, votes, total);
        let w = sum(whole_shares(pool, votes, total)) as int;
        let s = nat_sum(remainders(pool, votes, total)) as int;
        let v = sum(votes) as int;
        let t = total as int;
        assert(w <= pool as int) by (nonlinear_arith)
            requires
                w * t + s == pool as int * v,
                0 <= s,
                0 <= v <= t,
                t > 0,
                0 <= pool,
        ;
    }
}

/// One more stroop to each entry that qualifies adds as many stroops as there are such entries.
proof fn sum_with_bonus(a: Seq<u64>, b: Seq<u64>, p: spec_fn(int) -> bool)
    requires
        a.len() == b.len(),
        forall|i: int|
            0 <= i < a.len() ==> (#[trigger] b[i]) as nat == a[i] as nat + (if p(i) {
                1nat
            } else {
                0
            }),
    ensures
        sum(b) == sum(a) + count(p, a.len()),
    decreases a.len(),
{
    if a.len() > 0 {
        let n = a.len() - 1;
        assert forall|i: int| 0 <= i < n implies (#[trigger] b.drop_last()[i]) as nat
            == a.drop_last()[i] as nat + (if p(i) {
            1nat
        } else {
            0
        }) by {
            assert(b.drop_last()[i] == b[i]);
        }
        sum_with_bonus(a.drop_last(), b.drop_last(), p);
        assert(b[n] as nat == a[n] as nat + (if p(n) {
            1nat
        } else {
            0
        }));
    }
}

/// The amounts sum to exactly the pool, whatever was rounded, wherever anyone has voted.
pub proof fn split_sums_to_pool(pool: u64, votes: Seq<u64>, total: u64)
    requires
        total > 0,
        sum(votes) == total,
    ensures
        sum(shares(pool, votes, total)) == pool,
{
    let rem = remainders(pool, votes, total);
    let whole = whole_shares(pool, votes, total);
    let l = leftover(pool, votes, total);
    leftover_bound(pool, votes, total);
    let p = |i: int| rank_among(rem, rem.len(), i) < l as nat;
    ranks_fill_up(rem, rem.len(), l as nat);
    assert(count(p, rem.len()) == l as nat);
    let out = shares(pool, votes, total);
    assert forall|i: int| 0 <= i < whole.len() implies (#[trigger] out[i]) as nat == whole[i] as nat
        + (if p(i) {
        1nat
    } else {
        0
    }) by {
        assert(p(i) == (rank(rem, i) < l));
        entry_within_sum(whole, i);
        assert(out[i] == share(pool, votes, total, i));
    }
    sum_with_bonus(whole, out, p);
}

/// Whatever the total, the amounts sum to exactly the pool, unless every entry is served a leftover
/// stroop and some are left even so.
pub proof fn leftover_is_served(pool: u64, votes: Seq<u64>, total: u64)
    requires
        total > 0,
        splittable(pool, votes, total),
    ensures
        sum(shares(pool, votes, total)) == pool || forall|i: int|
            0 <= i < votes.len() ==> #[trigger] rank(remainders(pool, votes, total), i) < leftover(
                pool,
                votes,
                total,
            ),
        sum(shares(pool, votes, total)) <= pool,
{
    let rem = remainders(pool, votes, total);
    let whole = whole_shares(pool, votes, total);
    let l = leftover(pool, votes, total);
    let p = |i: int| rank_among(rem, rem.len(), i) < l as nat;
    ranks_fill_up(rem, rem.len(), l as nat);
    let out = shares(pool, votes, total);
    assert forall|i: int| 0 <= i < whole.len() implies (#[trigger] out[i]) as nat == whole[i] as nat
        + (if p(i) {
        1nat
    } else {
        0
    }) by {
        assert(p(i) == (rank(rem, i) < l));
        entry_within_sum(whole, i);
        assert(out[i] == share(pool, votes, total, i));
    }
    sum_with_bonus(whole, out, p);
    assert(count(p, rem.len()) == (if (l as nat) < rem.len() {
        l as nat
    } else {
        rem.len()
    }));
    if l > rem.len() {
        assert forall|i: int| 0 <= i < votes.len() implies #[trigger] rank(rem, i) < l by {
            count_bound(|j: int| precedes(rem, j, i), rem.len());
        }
    }
}

/// An entry that is served before another has the lower rank.
pub proof fn served_before_is_ranked_before(rem: Seq<nat>, j: int, i: int)
    requires
        0 <= j < rem.len(),
        0 <= i < rem.len(),
        precedes(rem, j, i),
    ensures
        rank(rem, j) < rank(rem, i),
{
    let before_j = |k: int| precedes(rem, k, j);
    let before_i = |k: int| precedes(rem, k, i);
    assert forall|k: int| 0 <= k < rem.len() && #[trigger] before_j(k) implies before_i(k) by {
        assert(precedes(rem, k, j));
    }
    assert(before_i(j) && !before_j(j));
    count_monotone(before_j, before_i, rem.len(), j);
}

/// Every amount is the exact proportional share rounded down or up: it differs from the share by
/// less than one stroop.
pub proof fn split_is_proportional(pool: u64, votes: Seq<u64>, total: u64, i: int)
    requires
        total > 0,
        sum(votes) == total,
        0 <= i < votes.len(),
    ensures
        pool * votes[i] - total < share(pool, votes, total, i) * total < pool * votes[i] + total,
{
    let whole = whole_shares(pool, votes, total);
    leftover_bound(pool, votes, total);
    entry_within_sum(votes, i);
    entry_within_sum(whole, i);
    quotient_and_remainder(pool, votes[i], total);
    exact_share_is_paid_exactly(pool, votes, total, i);
    let w = whole_share(pool, votes[i], total) as int;
    let t = total as int;
    assert((w + 1) * t == w * t + t) by (nonlinear_arith);
}

/// An entry whose proportional share is a whole number of stroops gets just that.
pub proof fn exact_share_is_paid_exactly(pool: u64, votes: Seq<u64>, total: u64, i: int)
    requires
        total > 0,
        sum(votes) == total,
        0 <= i < votes.len(),
    ensures
        remainder(pool, votes[i], total) == 0 ==> share(pool, votes, total, i) * total == pool
            * votes[i],
{
    let rem = remainders(pool, votes, total);
    leftover_bound(pool, votes, total);
    entry_within_sum(votes, i);
    quotient_and_remainder(pool, votes[i], total);
    if remainder(pool, votes[i], total) == 0 {
        let p = |j: int| rem[j] > 0;
        let q = |j: int| precedes(rem, j, i);
        assert(rem[i] == 0);
        count_monotone(p, q, rem.len(), 0);
    }
}

/// An entry without votes gets nothing.
pub proof fn no_votes_no_payout(pool: u64, votes: Seq<u64>, total: u64, i: int)
    requires
        sum(votes) == total,
        0 <= i < votes.len(),
        votes[i] == 0,
    ensures
        share(pool, votes, total, i) == 0,
        share_bps(votes[i], total) == 0,
{
    if total > 0 {
        exact_share_is_paid_exactly(pool, votes, total, i);
        assert(pool as int * 0 == 0) by (nonlinear_arith);
        let s = share(pool, votes, total, i) as int;
        assert(s == 0) by (nonlinear_arith)
            requires
                s * (total as int) == 0,
                total > 0,
        ;
    }
}

/// More votes never get a smaller amount, and as many votes get amounts at most one stroop apart.
pub proof fn more_votes_no_smaller_payout(pool: u64, votes: Seq<u64>, total: u64, i: int, j: int)
    requires
        sum(votes) == total,
        0 <= i < votes.len(),
        0 <= j < votes.len(),
        votes[j] <= votes[i],
    ensures
        votes[j] < votes[i] ==> share(pool, votes, total, j) <= share(pool, votes, total, i),
        share(pool, votes, total, j) <= share(pool, votes, total, i) + 1,
{
    if total > 0 {
        let rem = remainders(pool, votes, total);
        let whole = whole_shares(pool, votes, total);
        leftover_bound(pool, votes, total);
        entry_within_sum(votes, i);
        entry_within_sum(votes, j);
        entry_within_sum(whole, i);
        entry_within_sum(whole, j);
        quotient_and_remainder(pool, votes[i], total);
        quotient_and_remainder(pool, votes[j], total);
        let t = total as int;
        let (wi, wj) = (whole[i] as int, whole[j] as int);
        let (ri, rj) = (rem[i] as int, rem[j] as int);
        let (vi, vj) = (votes[i] as int, votes[j] as int);
        assert(pool as int * vj <= pool as int * vi) by (nonlinear_arith)
            requires
                vj <= vi,
                0 <= pool,
        ;
        assert(wj <= wi) by (nonlinear_arith)
            requires
                wj * t + rj <= wi * t + ri,
                0 <= rj,
                ri < t,
                t > 0,
        ;
        if wj == wi && vj < vi {
            if pool == 0 {
                assert(pool as int * vi == 0) by (nonlinear_arith)
                    requires
                        pool == 0,
                ;
                assert(pool as int * vj == 0) by (nonlinear_arith)
                    requires
                        pool == 0,
                ;
                exact_share_is_paid_exactly(pool, votes, total, j);
                let s = share(pool, votes, total, j) as int;
                assert(s == 0) by (nonlinear_arith)
                    requires
                        s * t == 0,
                        t > 0,
                ;
            } else {
                assert(pool as int * vj < pool as int * vi) by (nonlinear_arith)
                    requires
                        vj < vi,
                        0 < pool,
                ;
                assert(rj < ri);
                let pi = |k: int| precedes(rem, k, i);
                let pj = |k: int| precedes(rem, k, j);
                count_monotone(pi, pj, rem.len(), 0);
            }
        }
    }
}

/// The vote shares in basis points.
pub open spec fn bps_sum(votes: Seq<u64>, total: u64) -> int
    decreases votes.len(),
{
    if votes.len() == 0 {
        0
    } else {
        bps_sum(votes.drop_last(), total) + share_bps(votes.last(), total)
    }
}

/// No vote share is negative, and together they are no more than the whole.
pub proof fn bps_within_whole(votes: Seq<u64>, total: u64)
    requires
        sum(votes) <= total,
    ensures
        forall|i: int|
            0 <= i < votes.len() ==> 0 <= share_bps(#[trigger] votes[i], total) <= 10_000,
        bps_sum(votes, total) * total <= 10_000 * sum(votes),
        0 <= bps_sum(votes, total) <= 10_000,
    decreases votes.len(),
{
    if votes.len() > 0 {
        let init = votes.drop_last();
        let v = votes.last();
        bps_within_whole(init, total);
        let t = total as int;
        let b = share_bps(v, total) as int;
        if total > 0 {
            let x = v as int * 10_000;
            lemma_fundamental_div_mod(x, t);
            lemma_mod_bound(x, t);
            assert(0 <= x / t <= 10_000) by (nonlinear_arith)
                requires
                    x == v as int * 10_000,
                    x == t * (x / t) + x % t,
                    0 <= x % t < t,
                    0 <= v <= t,
            ;
            assert(b * t <= 10_000 * v) by (nonlinear_arith)
                requires
                    b == x / t,
                    x == v as int * 10_000,
                    x == t * (x / t) + x % t,
                    0 <= x % t < t,
            ;
        } else {
            assert(v == 0);
        }
        let a = bps_sum(init, total);
        assert((a + b) * t == a * t + b * t) by (nonlinear_arith);
        assert forall|i: int| 0 <= i < votes.len() implies 0 <= share_bps(
            #[trigger] votes[i],
            total,
        ) <= 10_000 by {
            if i < init.len() {
                assert(votes[i] == init[i]);
            }
        }
        if total > 0 {
            let s = sum(votes) as int;
            assert(0 <= a + b <= 10_000) by (nonlinear_arith)
                requires
                    (a + b) * t <= 10_000 * s,
                    0 <= a,
                    0 <= b,
                    s <= t,
                    t > 0,
            ;
        } else {
            zero_bps(init);
        }
    }
}

/// Without votes every vote share is zero.
proof fn zero_bps(votes: Seq<u64>)
    ensures
        bps_sum(votes, 0) == 0,
    decreases votes.len(),
{
    if votes.len() > 0 {
        zero_bps(votes.drop_last());
    }
}

} // verus!
