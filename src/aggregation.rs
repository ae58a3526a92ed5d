//! The aggregation engine: the weighted-majority winner of a set of reveals
//! with its confidence score, and the reward and slash amounts.
//!
//! A reveal weighs its voting power times its confidence. Confidence is a
//! percentage, so every weight here is 100 times the weight
//! `power * confidence / 100`; the scale cancels out of every comparison and
//! of the confidence ratio, which keeps the arithmetic exact.
use vstd::prelude::*;

use crate::types::{Amount, VoteReveal, ONE_TOKEN};
use vstd::arithmetic::div_mod::{lemma_fundamental_div_mod, lemma_fundamental_div_mod_converse};

verus! {

/// Largest weight of a single reveal.
pub const MAX_REVEAL_WEIGHT: u128 = 0xff * 0xffff_ffff_ffff_ffff;

/// Tokens shared among the voters who chose the winning outcome.
pub const REWARD_POOL_TOKENS: u128 = 1000;

/// Weight of one reveal: voting power times confidence.
pub open spec fn weight(r: VoteReveal) -> int {
    r.voting_power * r.confidence
}

/// Summed weight of the reveals for outcome `o`.
pub open spec fn outcome_weight(rs: Seq<VoteReveal>, o: usize) -> int
    decreases rs.len(),
{
    if rs.len() == 0 {
        0
    } else {
        outcome_weight(rs.drop_last(), o) + if rs.last().outcome_index == o {
            weight(rs.last())
        } else {
            0
        }
    }
}

/// Summed weight of all reveals.
pub open spec fn total_weight(rs: Seq<VoteReveal>) -> int
    decreases rs.len(),
{
    if rs.len() == 0 {
        0
    } else {
        total_weight(rs.drop_last()) + weight(rs.last())
    }
}

/// Reveal `k` is the first reveal whose outcome has the greatest summed
/// weight. Ties between outcomes go to the outcome that was revealed first.
pub open spec fn is_first_heaviest(rs: Seq<VoteReveal>, k: int) -> bool {
    &&& 0 <= k < rs.len()
    &&& forall|j: int|
        0 <= j < rs.len() ==> outcome_weight(rs, #[trigger] rs[j].outcome_index) <= outcome_weight(
            rs,
            rs[k].outcome_index,
        )
    &&& forall|j: int|
        0 <= j < k ==> outcome_weight(rs, #[trigger] rs[j].outcome_index) < outcome_weight(
            rs,
            rs[k].outcome_index,
        )
}

/// The winning outcome: that of the first heaviest reveal, or 0 when there
/// are no reveals.
pub open spec fn winner(rs: Seq<VoteReveal>) -> usize {
    if rs.len() == 0 {
        0
    } else {
        rs[choose|k: int| is_first_heaviest(rs, k)].outcome_index
    }
}

/// `100 * w / t` rounded half up and clamped to 100; 0 when `t` is 0.
pub open spec fn confidence_spec(w: int, t: int) -> u8 {
    if t <= 0 {
        0
    } else if (200 * w + t) / (2 * t) > 100 {
        100
    } else {
        ((200 * w + t) / (2 * t)) as u8
    }
}

proof fn lemma_weight_bounds(rs: Seq<VoteReveal>, o: usize)
    ensures
        0 <= outcome_weight(rs, o) <= total_weight(rs),
        total_weight(rs) <= rs.len() * MAX_REVEAL_WEIGHT,
    decreases rs.len(),
{
    if rs.len() > 0 {
        lemma_weight_bounds(rs.drop_last(), o);
        let r = rs.last();
        let p = r.voting_power as int;
        let c = r.confidence as int;
        assert(0 <= p * c <= 0xff * 0xffff_ffff_ffff_ffff) by (nonlinear_arith)
            requires
                0 <= p <= 0xffff_ffff_ffff_ffff,
                0 <= c <= 0xff,
        ;
    }
}

proof fn lemma_first_heaviest_unique(rs: Seq<VoteReveal>, k1: int, k2: int)
    requires
        is_first_heaviest(rs, k1),
        is_first_heaviest(rs, k2),
    ensures
        k1 == k2,
{
    if k1 < k2 {
        assert(outcome_weight(rs, rs[k1].outcome_index) < outcome_weight(rs, rs[k2].outcome_index));
    } else if k2 < k1 {
        assert(outcome_weight(rs, rs[k2].outcome_index) < outcome_weight(rs, rs[k1].outcome_index));
    }
}

/// Sums the weight of the reveals for `o`, or of all reveals when `o` is
/// `None`.
fn weight_sum(reveals: &Vec<VoteReveal>, o: Option<usize>) -> (r: u128)
    requires
        reveals@.len() <= u32::MAX,
    ensures
        r == match o {
            Some(o) => outcome_weight(reveals@, o),
            None => total_weight(reveals@),
        },
{
    let ghost rs = reveals@;
    let mut acc: u128 = 0;
    let mut j: usize = 0;
    while j < reveals.len()
        invariant
            rs == reveals@,
            rs.len() <= u32::MAX,
            j <= rs.len(),
            acc == match o {
                Some(o) => outcome_weight(rs.take(j as int), o),
                None => total_weight(rs.take(j as int)),
            },
        decreases rs.len() - j,
    {
        let r = reveals[j];
        proof {
            assert(rs.take(j + 1).drop_last() =~= rs.take(j as int));
            lemma_weight_bounds(rs.take(j + 1), if let Some(o) = o { o } else { 0 });
            let n = j + 1;
            assert(n * MAX_REVEAL_WEIGHT <= 0x1_0000_0000 * MAX_REVEAL_WEIGHT) by (nonlinear_arith)
                requires
                    n <= 0x1_0000_0000,
            ;
            let p = r.voting_power as int;
            let c = r.confidence as int;
            assert(0 <= p * c <= 0xff * 0xffff_ffff_ffff_ffff) by (nonlinear_arith)
                requires
                    0 <= p <= 0xffff_ffff_ffff_ffff,
                    0 <= c <= 0xff,
            ;
        }
        let w = (r.voting_power as u128) * (r.confidence as u128);
        let counts = match o {
            Some(o) => r.outcome_index == o,
            None => true,
        };
        if counts {
            acc = acc + w;
        }
        j = j + 1;
    }
    assert(rs.take(rs.len() as int) =~= rs);
    acc
}

/// The weighted-majority winner of `reveals` and its confidence score: the
/// winner's share of the total weight, as a rounded percentage.
pub fn aggregate_weighted_majority(reveals: &Vec<VoteReveal>) -> (r: (usize, u8))
    requires
        reveals@.len() <= u32::MAX,
    ensures
        r.0 == winner(reveals@),
        r.1 == confidence_spec(outcome_weight(reveals@, r.0), total_weight(reveals@)),
        reveals@.len() > 0 ==> exists|k: int|
            0 <= k < reveals@.len() && reveals@[k].outcome_index == r.0,
{
    let ghost rs = reveals@;
    let n = reveals.len();
    if n == 0 {
        return (0, 0);
    }
    let mut best_k: usize = 0;
    let mut best_w: u128 = weight_sum(reveals, Some(reveals[0].outcome_index));
    let mut i: usize = 1;
    while i < n
        invariant
            rs == reveals@,
            n == rs.len(),
            rs.len() <= u32::MAX,
            1 <= i <= n,
            best_k < i,
            best_w == outcome_weight(rs, rs[best_k as int].outcome_index),
            forall|j: int|
                0 <= j < i ==> outcome_weight(rs, #[trigger] rs[j].outcome_index) <= best_w,
            forall|j: int|
                0 <= j < best_k ==> outcome_weight(rs, #[trigger] rs[j].outcome_index) < best_w,
        decreases n - i,
    {
        let w = weight_sum(reveals, Some(reveals[i].outcome_index));
        if w > best_w {
            best_k = i;
            best_w = w;
        }
        i = i + 1;
    }
    let total = weight_sum(reveals, None);
    proof {
        assert(is_first_heaviest(rs, best_k as int));
        let k = choose|k: int| is_first_heaviest(rs, k);
        lemma_first_heaviest_unique(rs, k, best_k as int);
        lemma_weight_bounds(rs, rs[best_k as int].outcome_index);
        let len = rs.len();
        assert(len * MAX_REVEAL_WEIGHT <= 0x1_0000_0000 * MAX_REVEAL_WEIGHT) by (nonlinear_arith)
            requires
                len <= 0x1_0000_0000,
        ;
    }
    let winner = reveals[best_k].outcome_index;
    let confidence: u8 = if total == 0 {
        0
    } else {
        let c = (200 * best_w + total) / (2 * total);
        if c > 100 {
            100
        } else {
            c as u8
        }
    };
    (winner, confidence)
}

/// The reward pool shared among the winning voters, in attos.
pub const REWARD_POOL: u128 = REWARD_POOL_TOKENS * ONE_TOKEN;

/// Bound on the factor `a` of `mul_div`.
pub const MUL_DIV_MAX_A: u128 = 0x100_0000_0000_0000_0000;

/// Bound on the divisor of `mul_div`.
pub const MUL_DIV_MAX_C: u128 = 0x100_0000_0000_0000_0000_0000_0000;

/// Reward for a winning voter with `power`, out of the summed power `total`
/// of all winning voters: their share of the pool, in attos rounded down;
/// nothing when the summed power is 0.
pub open spec fn reward_spec(power: u64, total: u128) -> u128 {
    if total == 0 {
        0
    } else {
        ((REWARD_POOL as int) * (power as int) / (total as int)) as u128
    }
}

/// One long-division step: from `a * p == q * c + rem`, the quotient and
/// remainder for the prefix `p * 65536 + l`.
fn mul_div_step(a: u128, c: u128, q: u128, rem: u128, l: u128, Ghost(p): Ghost<int>) -> (res: (
    u128,
    u128,
))
    requires
        0 < c < MUL_DIV_MAX_C,
        a < MUL_DIV_MAX_A,
        rem < c,
        l < 65536,
        0 <= p,
        a * p == q * c + rem,
        p * 65536 + l <= c,
    ensures
        a * (p * 65536 + l) == res.0 * c + res.1,
        res.1 < c,
        res.0 <= a,
{
    proof {
        let (ai, ci, ri, li) = (a as int, c as int, rem as int, l as int);
        assert(ri * 65536 + li * ai < 0x1_0000_0000_0000_0000_0000_0000_0000_0000) by (nonlinear_arith)
            requires
                0 <= ri < ci < MUL_DIV_MAX_C,
                0 <= ai < MUL_DIV_MAX_A,
                0 <= li < 65536,
        ;
    }
    let t = rem * 65536 + l * a;
    proof {
        let (ai, ci, qi, ri, li, ti) = (a as int, c as int, q as int, rem as int, l as int, t as int);
        lemma_fundamental_div_mod(ti, ci);
        let q2 = qi * 65536 + ti / ci;
        assert(ai * (p * 65536 + li) == q2 * ci + ti % ci) by (nonlinear_arith)
            requires
                ai * p == qi * ci + ri,
                ti == ri * 65536 + li * ai,
                ti == ci * (ti / ci) + ti % ci,
                q2 == qi * 65536 + ti / ci,
        ;
        assert(0 <= ti % ci < ci) by (nonlinear_arith)
            requires
                ci > 0,
        ;
        assert(q2 <= ai) by (nonlinear_arith)
            requires
                ai * (p * 65536 + li) == q2 * ci + ti % ci,
                0 <= ti % ci,
                p * 65536 + li <= ci,
                ci > 0,
                ai >= 0,
                p >= 0,
                li >= 0,
        ;
        assert(0 <= ti / ci) by (nonlinear_arith)
            requires
                ci > 0,
                ti >= 0,
        ;
    }
    (q * 65536 + t / c, t % c)
}

/// `a * b / c`, rounded down, without overflow.
pub fn mul_div(a: u128, b: u64, c: u128) -> (r: u128)
    requires
        0 < c < MUL_DIV_MAX_C,
        a < MUL_DIV_MAX_A,
        b <= c,
    ensures
        r == (a as int) * (b as int) / (c as int),
{
    let p1 = (b / 0x1_0000_0000_0000) as u128;
    let p2 = (b / 0x1_0000_0000) as u128;
    let p3 = (b / 0x1_0000) as u128;
    let bb = b as u128;
    proof {
        let bi = b as int;
        assert(p2 == p1 * 65536 + p2 % 65536 && p3 == p2 * 65536 + p3 % 65536 && bi == p3 * 65536
            + bi % 65536 && p1 < 65536 && p1 <= p2 && p2 <= p3 && p3 <= bi);
    }
    let (q1, r1) = mul_div_step(a, c, 0, 0, p1, Ghost(0));
    let (q2, r2) = mul_div_step(a, c, q1, r1, p2 % 65536, Ghost(p1 as int));
    let (q3, r3) = mul_div_step(a, c, q2, r2, p3 % 65536, Ghost(p2 as int));
    let (q4, r4) = mul_div_step(a, c, q3, r3, bb % 65536, Ghost(p3 as int));
    proof {
        lemma_fundamental_div_mod_converse((a as int) * (b as int), c as int, q4 as int, r4 as int);
    }
    q4
}

/// Computes a winning voter's reward.
pub fn reward_amount(power: u64, total: u128) -> (r: Amount)
    requires
        power <= total,
        total < MUL_DIV_MAX_C,
    ensures
        r == reward_spec(power, total),
{
    if total == 0 {
        0
    } else {
        mul_div(REWARD_POOL, power, total)
    }
}

/// `percentage`% of `stake`, rounded down.
pub open spec fn slash_spec(stake: u128, percentage: u8) -> u128 {
    (stake * percentage / 100) as u128
}

/// Computes the stake slashed from an incorrect voter.
pub fn slash_amount(stake: Amount, percentage: u8) -> (r: Amount)
    requires
        percentage <= 100,
    ensures
        r == slash_spec(stake, percentage),
{
    let q = stake / 100;
    let m = stake % 100;
    proof {
        let s = stake as int;
        let p = percentage as int;
        assert(s * p / 100 == (s / 100) * p + (s % 100) * p / 100 && (s / 100) * p <= s && (s
            % 100) * p < 10000 && s * p / 100 <= s) by (nonlinear_arith)
            requires
                0 <= s,
                0 <= p <= 100,
        ;
    }
    q * (percentage as u128) + m * (percentage as u128) / 100
}

} // verus!
