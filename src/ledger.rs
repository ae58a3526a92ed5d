//! Changes to a voter's ledger entry: locking, unlocking and slashing stake,
//! and adjusting reputation after a correct or an incorrect vote.
use vstd::prelude::*;

use crate::types::{Amount, ChainId, VoterInfo};

verus! {

/// One change to a voter's ledger entry.
#[derive(Clone, Copy, Debug, PartialEq, Eq, Structural)]
pub enum LedgerChange {
    /// Lock more stake, never past the stake held.
    Lock(Amount),
    /// Release locked stake.
    Unlock(Amount),
    /// Remove stake, from both the held and the locked stake.
    Slash(Amount),
    /// The voter voted with the winning outcome.
    Correct,
    /// The voter voted against the winning outcome.
    Incorrect,
}

/// `a - b`, or 0 where `b` is larger.
pub open spec fn sat_sub(a: u128, b: u128) -> u128 {
    if a >= b {
        (a - b) as u128
    } else {
        0
    }
}

/// `x + 1`, at most `u32::MAX`.
pub open spec fn sat_inc(x: u32) -> u32 {
    if x < u32::MAX {
        (x + 1) as u32
    } else {
        x
    }
}

/// Reputation bonus for a correct vote that brings the streak to `streak`.
pub open spec fn streak_bonus(streak: u32) -> int {
    10 + 2 * streak
}

/// The entry `v` after `c`.
pub open spec fn changed(v: VoterInfo, c: LedgerChange) -> VoterInfo {
    match c {
        LedgerChange::Lock(a) => VoterInfo {
            locked_stake: if v.locked_stake + a > v.total_stake {
                v.total_stake
            } else {
                (v.locked_stake + a) as u128
            },
            ..v
        },
        LedgerChange::Unlock(a) => VoterInfo { locked_stake: sat_sub(v.locked_stake, a), ..v },
        LedgerChange::Slash(a) => VoterInfo {
            total_stake: sat_sub(v.total_stake, a),
            locked_stake: sat_sub(v.locked_stake, a),
            ..v
        },
        LedgerChange::Correct => {
            let streak = sat_inc(v.correct_streak);
            VoterInfo {
                total_votes: sat_inc(v.total_votes),
                total_correct: sat_inc(v.total_correct),
                correct_streak: streak,
                reputation_score: if v.reputation_score + streak_bonus(streak) > u64::MAX {
                    u64::MAX
                } else {
                    (v.reputation_score + streak_bonus(streak)) as u64
                },
                ..v
            }
        },
        LedgerChange::Incorrect => VoterInfo {
            total_votes: sat_inc(v.total_votes),
            total_incorrect: sat_inc(v.total_incorrect),
            correct_streak: 0,
            reputation_score: if v.reputation_score >= 5 {
                (v.reputation_score - 5) as u64
            } else {
                0
            },
            ..v
        },
    }
}

/// The entry `v` after each change of `cs`, first to last.
pub open spec fn changed_all(v: VoterInfo, cs: Seq<LedgerChange>) -> VoterInfo
    decreases cs.len(),
{
    if cs.len() == 0 {
        v
    } else {
        changed(changed_all(v, cs.drop_last()), cs.last())
    }
}

/// `voters` with `c` applied to the entry of `id`.
pub open spec fn changed_voter(voters: Seq<VoterInfo>, id: ChainId, c: LedgerChange) -> Seq<
    VoterInfo,
> {
    voters.map_values(
        |v: VoterInfo|
            if v.chain_id == id {
                changed(v, c)
            } else {
                v
            },
    )
}

/// Computes the entry `v` after `c`.
pub fn apply_change(v: &VoterInfo, c: &LedgerChange) -> (r: VoterInfo)
    ensures
        r == changed(*v, *c),
{
    match c {
        LedgerChange::Lock(a) => {
            let room = v.total_stake - if v.locked_stake <= v.total_stake {
                v.locked_stake
            } else {
                v.total_stake
            };
            let locked = if *a >= room {
                v.total_stake
            } else {
                v.locked_stake + *a
            };
            VoterInfo { locked_stake: locked, ..*v }
        },
        LedgerChange::Unlock(a) => VoterInfo { locked_stake: v.locked_stake.saturating_sub(*a), ..*v },
        LedgerChange::Slash(a) => VoterInfo {
            total_stake: v.total_stake.saturating_sub(*a),
            locked_stake: v.locked_stake.saturating_sub(*a),
            ..*v
        },
        LedgerChange::Correct => {
            let streak = v.correct_streak.saturating_add(1);
            let bonus = 10 + 2 * (streak as u64);
            VoterInfo {
                total_votes: v.total_votes.saturating_add(1),
                total_correct: v.total_correct.saturating_add(1),
                correct_streak: streak,
                reputation_score: v.reputation_score.saturating_add(bonus),
                ..*v
            }
        },
        LedgerChange::Incorrect => VoterInfo {
            total_votes: v.total_votes.saturating_add(1),
            total_incorrect: v.total_incorrect.saturating_add(1),
            correct_streak: 0,
            reputation_score: v.reputation_score.saturating_sub(5),
            ..*v
        },
    }
}

/// Locked stake never exceeds the stake held: if it holds before, it holds
/// after any sequence of ledger changes.
pub proof fn lemma_stake_invariant(v: VoterInfo, cs: Seq<LedgerChange>)
    requires
        v.locked_stake <= v.total_stake,
    ensures
        changed_all(v, cs).locked_stake <= changed_all(v, cs).total_stake,
    decreases cs.len(),
{
    if cs.len() > 0 {
        lemma_stake_invariant(v, cs.drop_last());
    }
}

/// A correct vote strictly raises reputation and the streak; an incorrect
/// vote resets the streak and lowers reputation by 5, never below 0.
pub proof fn lemma_reputation_monotone(v: VoterInfo)
    requires
        v.reputation_score < u64::MAX,
        v.correct_streak < u32::MAX,
    ensures
        changed(v, LedgerChange::Correct).reputation_score > v.reputation_score,
        changed(v, LedgerChange::Correct).correct_streak > v.correct_streak,
        changed(v, LedgerChange::Incorrect).correct_streak == 0,
        changed(v, LedgerChange::Incorrect).reputation_score <= v.reputation_score,
        v.reputation_score > 0 ==> changed(v, LedgerChange::Incorrect).reputation_score
            < v.reputation_score,
        changed(v, LedgerChange::Incorrect).reputation_score == if v.reputation_score >= 5 {
            v.reputation_score - 5
        } else {
            0
        },
{
}

} // verus!
