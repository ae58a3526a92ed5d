//! What a voter agent keeps about itself and exchanges with its operator and
//! the coordinator: its reputation, commitments, votes and messages.
use vstd::prelude::*;

use crate::types::{AccountOwner, Amount, ChainId, Timestamp};

verus! {

/// Settings of a voter chain.
#[derive(Clone, Copy, Debug, PartialEq, Eq, Structural)]
pub struct Parameters {
    /// Least stake needed to vote.
    pub min_stake: Amount,
}

/// What a voter chain starts from.
#[derive(Clone, Copy, Debug)]
pub struct InitialState {
    /// The coordinator's chain, if known.
    pub oracle_chain: Option<ChainId>,
    /// The stake brought at start.
    pub initial_stake: Amount,
}

/// A voter's own record of its voting, with a bonus for streaks of correct
/// votes.
#[derive(Clone, Copy, Debug, PartialEq, Eq, Structural)]
pub struct Reputation {
    pub score: u64,
    pub total_votes: u64,
    pub correct_votes: u64,
    /// Consecutive correct votes.
    pub streak: u64,
    pub average_confidence: u8,
}

/// `avg` averaged over `n - 1` votes, with one more vote of `confidence`.
pub open spec fn next_average(avg: u8, n: u64, confidence: u8) -> u8 {
    ((avg * (n - 1) + confidence) / (n as int)) as u8
}

/// Whether a correct vote can be recorded without leaving the range of the
/// counters.
pub open spec fn can_record_correct(r: Reputation) -> bool {
    &&& r.total_votes < u64::MAX
    &&& r.correct_votes < u64::MAX
    &&& r.streak < u64::MAX
    &&& r.score + 10 + 2 * (r.streak + 1) <= u64::MAX
}

/// Starting score of a voter.
pub const STARTING_SCORE: u64 = 100;

/// A fresh record: the starting score and no votes.
pub open spec fn fresh_reputation() -> Reputation {
    Reputation {
        score: STARTING_SCORE,
        total_votes: 0,
        correct_votes: 0,
        streak: 0,
        average_confidence: 0,
    }
}

/// Computes the running average after one more vote.
fn average_after(avg: u8, n: u64, confidence: u8) -> (r: u8)
    requires
        n >= 1,
    ensures
        r == next_average(avg, n, confidence),
{
    proof {
        let a = avg as int;
        let m = n as int;
        let c = confidence as int;
        assert(0 <= a * (m - 1) <= 255 * (m - 1)) by (nonlinear_arith)
            requires
                0 <= a <= 255,
                m >= 1,
        ;
        assert((a * (m - 1) + c) / m <= 255) by (nonlinear_arith)
            requires
                0 <= a * (m - 1) <= 255 * (m - 1),
                0 <= c <= 255,
                m >= 1,
        ;
        assert(a * (m - 1) <= 255 * 0xffff_ffff_ffff_ffff) by (nonlinear_arith)
            requires
                0 <= a * (m - 1) <= 255 * (m - 1),
                m - 1 <= 0xffff_ffff_ffff_ffff,
        ;
    }
    let total = (avg as u128) * ((n - 1) as u128) + (confidence as u128);
    (total / (n as u128)) as u8
}

impl Reputation {
    /// A fresh record: score 100, no votes.
    pub fn new() -> (r: Self)
        ensures
            r == fresh_reputation(),
    {
        Reputation {
            score: STARTING_SCORE,
            total_votes: 0,
            correct_votes: 0,
            streak: 0,
            average_confidence: 0,
        }
    }

    /// Records a correct vote made with `confidence`: the streak grows and
    /// the score gains `10 + 2 * streak`.
    pub fn update_for_correct(&mut self, confidence: u8)
        requires
            can_record_correct(*old(self)),
        ensures
            final(self).correct_votes == old(self).correct_votes + 1,
            final(self).total_votes == old(self).total_votes + 1,
            final(self).streak == old(self).streak + 1,
            final(self).score == old(self).score + 10 + 2 * final(self).streak,
            final(self).average_confidence == next_average(
                old(self).average_confidence,
                final(self).total_votes,
                confidence,
            ),
    {
        self.correct_votes = self.correct_votes + 1;
        self.total_votes = self.total_votes + 1;
        self.streak = self.streak + 1;
        self.score = self.score + 10 + self.streak * 2;
        self.average_confidence = average_after(
            self.average_confidence,
            self.total_votes,
            confidence,
        );
    }

    /// Records an incorrect vote made with `confidence`: the streak resets
    /// and the score loses 5, never going below 0.
    pub fn update_for_incorrect(&mut self, confidence: u8)
        requires
            old(self).total_votes < u64::MAX,
        ensures
            final(self).correct_votes == old(self).correct_votes,
            final(self).total_votes == old(self).total_votes + 1,
            final(self).streak == 0,
            final(self).score == if old(self).score >= 5 {
                old(self).score - 5
            } else {
                0
            },
            final(self).average_confidence == next_average(
                old(self).average_confidence,
                final(self).total_votes,
                confidence,
            ),
    {
        self.total_votes = self.total_votes + 1;
        self.streak = 0;
        self.score = self.score.saturating_sub(5);
        self.average_confidence = average_after(
            self.average_confidence,
            self.total_votes,
            confidence,
        );
    }
}

impl Default for Reputation {
    fn default() -> (r: Self)
        ensures
            r == fresh_reputation(),
    {
        Reputation::new()
    }
}

/// What a voter chain reports about itself.
#[derive(Clone, Copy, Debug)]
pub struct VoterInfo {
    pub owner: AccountOwner,
    pub oracle_chain: Option<ChainId>,
    pub total_stake: Amount,
    pub reputation: Reputation,
}

/// A commitment as the voter keeps it: with the outcome and salt that open
/// it.
#[derive(Clone, Copy, Debug)]
pub struct VoteCommitment {
    pub market_id: u64,
    pub commitment_hash: [u8; 32],
    pub outcome_index: usize,
    pub salt: [u8; 32],
    pub committed_at: Timestamp,
}

/// A revealed vote.
#[derive(Clone, Copy, Debug)]
pub struct RevealedVote {
    pub market_id: u64,
    pub outcome_index: usize,
    pub salt: [u8; 32],
    pub confidence: u8,
    pub revealed_at: Timestamp,
}

/// A vote in the voter's history, as reported.
#[derive(Clone, Copy, Debug, PartialEq, Eq, Structural)]
pub struct VoteRecord {
    pub market_id: u64,
    pub outcome_index: usize,
    pub confidence: u8,
    pub timestamp: Timestamp,
    pub was_correct: Option<bool>,
}

/// A pending commitment, as reported.
#[derive(Clone, Copy, Debug)]
pub struct CommitmentInfo {
    pub market_id: u64,
    pub commitment_hash: [u8; 32],
    pub committed_at: Timestamp,
    pub can_reveal: bool,
}

/// Operations of a voter's operator.
#[derive(Clone, Copy, Debug)]
pub enum VoterOperation {
    Initialize { oracle_chain: ChainId, stake: Amount },
    CommitVote { market_id: u64, outcome_index: usize },
    RevealVote { market_id: u64 },
    SubmitVote { market_id: u64, outcome_index: usize },
    AddStake { amount: Amount },
    GetVoterInfo,
    GetVoteHistory,
    GetPendingCommitments,
}

/// A voter chain's answers.
#[derive(Clone, Debug)]
pub enum VoterResponse {
    Initialized,
    CommitmentSubmitted { market_id: u64, commitment_hash: [u8; 32] },
    VoteRevealed { market_id: u64, outcome_index: usize, verified: bool },
    VoteSubmitted { market_id: u64, outcome_index: usize },
    StakeAdded { new_total: Amount },
    VoterInfo(VoterInfo),
    VoteHistory(Vec<VoteRecord>),
    PendingCommitments(Vec<CommitmentInfo>),
    Acknowledged,
}

/// Messages a voter chain sends and receives.
#[derive(Clone, Debug)]
pub enum Message {
    /// From the coordinator: please vote.
    VotingRequest { market_id: u64, question: String, outcomes: Vec<String>, deadline: Timestamp },
    /// From the coordinator: reputation changed.
    ReputationUpdate { increase: bool, amount: u64 },
    /// From the coordinator: a reward.
    RewardPayment { amount: Amount, market_id: u64 },
    /// To the coordinator: a sealed vote.
    VoteCommitmentToOracle { commitment_hash: [u8; 32], voting_power: u64, stake_amount: Amount },
    /// To the coordinator: the opening of a sealed vote.
    VoteRevealToOracle { outcome_index: usize, salt: [u8; 32], confidence: u8 },
    /// To the coordinator: an open vote.
    DirectVote {
        voter_chain: ChainId,
        market_id: u64,
        outcome_index: usize,
        confidence: u8,
        voting_power: u64,
    },
}

/// A voter message to send, with its destination.
#[derive(Clone, Debug)]
pub struct VoterOutgoing {
    pub destination: ChainId,
    pub message: Message,
}

} // verus!
