//! Data shared by the coordinator and its voters: identities, markets, voter
//! records, commitments, reveals, parameters, operations and messages.
use vstd::prelude::*;

use crate::hash::{opens, verify_commitment};

verus! {

/// An amount of tokens, counted in attos (10^-18 of a token).
pub type Amount = u128;

/// A point in time, in microseconds.
pub type Timestamp = u64;

/// Number of attos in one token.
pub const ONE_TOKEN: u128 = 1_000_000_000_000_000_000;

/// `tokens` whole tokens, in attos, saturating at the largest amount.
pub open spec fn tokens_spec(tokens: u128) -> u128 {
    if tokens * ONE_TOKEN > u128::MAX {
        u128::MAX
    } else {
        (tokens * ONE_TOKEN) as u128
    }
}

/// The amount of `tokens` whole tokens.
pub fn from_tokens(tokens: u128) -> (r: Amount)
    ensures
        r == tokens_spec(tokens),
{
    tokens.checked_mul(ONE_TOKEN).unwrap_or(u128::MAX)
}

/// Identity of a chain: its 32-byte id, as two 128-bit halves.
#[derive(Clone, Copy, Debug, PartialEq, Eq, Structural, Hash)]
pub struct ChainId {
    pub hi: u128,
    pub lo: u128,
}

/// Identity of an account that signs operations, as two 128-bit halves.
#[derive(Clone, Copy, Debug, PartialEq, Eq, Structural, Hash)]
pub struct AccountOwner {
    pub hi: u128,
    pub lo: u128,
}

/// Marker for the coordinator's interface: operations in, responses out.
pub struct OracleCoordinatorAbi;

/// Marker for a voter agent's interface.
pub struct VoterChainAbi;

/// Where a market stands in its life.
#[derive(Clone, Copy, Debug, PartialEq, Eq, Structural)]
pub enum MarketStatus {
    /// Trading period.
    Active,
    /// Voting announced to the voters.
    VotingStarted,
    /// Commitments being collected.
    CommitPhase,
    /// Reveals being collected.
    RevealPhase,
    /// Result being computed.
    Aggregating,
    /// Outcome determined.
    Resolved,
    /// Under dispute.
    Disputed,
}

/// Position of a status in the forward order of a market's life.
pub open spec fn status_rank(s: MarketStatus) -> int {
    match s {
        MarketStatus::Active => 0,
        MarketStatus::VotingStarted => 1,
        MarketStatus::CommitPhase => 2,
        MarketStatus::RevealPhase => 3,
        MarketStatus::Aggregating => 4,
        MarketStatus::Resolved => 5,
        MarketStatus::Disputed => 6,
    }
}

/// Whether `s` is one of the voting phases.
pub open spec fn in_voting_phase(s: MarketStatus) -> bool {
    s == MarketStatus::VotingStarted || s == MarketStatus::CommitPhase || s
        == MarketStatus::RevealPhase
}

/// One resolvable question.
#[derive(Clone, Debug)]
pub struct Market {
    pub id: u64,
    pub question: String,
    pub outcomes: Vec<String>,
    pub creator: Option<AccountOwner>,
    pub created_at: Timestamp,
    pub trading_deadline: Timestamp,
    pub voting_deadline: Timestamp,
    pub min_voters: u32,
    pub category: String,
    pub status: MarketStatus,
    pub winning_outcome: Option<usize>,
    pub confidence_score: Option<u8>,
    pub total_commitments: u32,
    pub total_reveals: u32,
}

impl Market {
    /// Whether votes are being taken: voting started, commit or reveal phase.
    pub fn is_voting_phase(&self) -> (r: bool)
        ensures
            r == in_voting_phase(self.status),
    {
        match self.status {
            MarketStatus::VotingStarted | MarketStatus::CommitPhase | MarketStatus::RevealPhase => {
                true
            },
            _ => false,
        }
    }

    /// Whether the market has been resolved.
    pub fn is_resolved(&self) -> (r: bool)
        ensures
            r == (self.status == MarketStatus::Resolved),
    {
        self.status == MarketStatus::Resolved
    }

    /// Whether commitments are being taken: voting started or commit phase.
    pub fn is_commit_phase(&self) -> (r: bool)
        ensures
            r == (self.status == MarketStatus::VotingStarted || self.status
                == MarketStatus::CommitPhase),
    {
        match self.status {
            MarketStatus::VotingStarted | MarketStatus::CommitPhase => true,
            _ => false,
        }
    }

    /// Whether reveals are being taken.
    pub fn is_reveal_phase(&self) -> (r: bool)
        ensures
            r == (self.status == MarketStatus::RevealPhase),
    {
        self.status == MarketStatus::RevealPhase
    }
}

/// One registered voting agent.
#[derive(Clone, Copy, Debug, PartialEq, Eq, Structural)]
pub struct VoterInfo {
    pub chain_id: ChainId,
    pub reputation_score: u64,
    pub total_votes: u32,
    pub total_correct: u32,
    pub total_incorrect: u32,
    pub correct_streak: u32,
    pub total_stake: Amount,
    pub locked_stake: Amount,
    pub registered_at: Timestamp,
    pub last_active: Timestamp,
}

/// Thirty days, in microseconds.
pub const ACTIVE_WINDOW: u64 = 2_592_000_000_000;

/// Voting power of a voter with `reputation`, `correct` correct votes out of
/// `total`: the reputation times 1.5 when accuracy is over 90%, times 1.2
/// when over 80%, else unchanged; rounded down, at most `u64::MAX`.
pub open spec fn voting_power_spec(reputation: u64, correct: u32, total: u32) -> u64 {
    let scaled: int = if total > 0 && 100 * correct > 90 * total {
        reputation * 15
    } else if total > 0 && 100 * correct > 80 * total {
        reputation * 12
    } else {
        reputation * 10
    };
    if scaled / 10 > u64::MAX {
        u64::MAX
    } else {
        (scaled / 10) as u64
    }
}

impl VoterInfo {
    /// Reputation-based voting power, with a bonus for high accuracy.
    pub fn voting_power(&self) -> (r: u64)
        ensures
            r == voting_power_spec(self.reputation_score, self.total_correct, self.total_votes),
    {
        let correct = self.total_correct as u64;
        let total = self.total_votes as u64;
        let factor: u128 = if total > 0 && 100 * correct > 90 * total {
            15
        } else if total > 0 && 100 * correct > 80 * total {
            12
        } else {
            10
        };
        let scaled = (self.reputation_score as u128) * factor / 10;
        if scaled > u64::MAX as u128 {
            u64::MAX
        } else {
            scaled as u64
        }
    }

    /// Whether the voter was active within the thirty days before `now`.
    pub fn is_active(&self, now: Timestamp) -> (r: bool)
        ensures
            r == (now < self.last_active || now - self.last_active < ACTIVE_WINDOW),
    {
        now.saturating_sub(self.last_active) < ACTIVE_WINDOW
    }
}

/// A voter's sealed vote on one market.
#[derive(Clone, Copy, Debug)]
pub struct VoteCommitment {
    pub voter_chain: ChainId,
    pub market_id: u64,
    pub commitment_hash: [u8; 32],
    pub voting_power: u64,
    pub stake_amount: Amount,
    pub committed_at: Timestamp,
}

/// An opened vote.
#[derive(Clone, Copy, Debug)]
pub struct VoteReveal {
    pub voter_chain: ChainId,
    pub market_id: u64,
    pub outcome_index: usize,
    pub salt: [u8; 32],
    pub confidence: u8,
    pub voting_power: u64,
    pub revealed_at: Timestamp,
}

impl VoteCommitment {
    /// Whether `reveal` opens this commitment: same market, same voter, and
    /// its outcome and salt hash to the committed digest.
    pub fn verify_reveal(&self, reveal: &VoteReveal) -> (r: bool)
        ensures
            r == (reveal.market_id == self.market_id && reveal.voter_chain == self.voter_chain
                && opens(self.commitment_hash@, reveal.outcome_index as u64, reveal.salt@)),
    {
        if reveal.market_id != self.market_id {
            return false;
        }
        if reveal.voter_chain != self.voter_chain {
            return false;
        }
        verify_commitment(&self.commitment_hash, reveal.outcome_index, &reveal.salt)
    }
}

/// A vote in a voter's history.
#[derive(Clone, Debug)]
pub struct VoteRecord {
    pub market_id: u64,
    pub question: String,
    pub outcome_index: usize,
    pub confidence: u8,
    pub timestamp: Timestamp,
    pub was_correct: Option<bool>,
}

/// A pending commitment, for display.
#[derive(Clone, Copy, Debug)]
pub struct CommitmentInfo {
    pub market_id: u64,
    pub commitment_hash: [u8; 32],
    pub committed_at: Timestamp,
    pub can_reveal: bool,
}

/// Participation figures of one market.
#[derive(Clone, Copy, Debug, PartialEq, Eq, Structural)]
pub struct MarketStats {
    pub market_id: u64,
    pub total_commitments: u32,
    pub total_reveals: u32,
    pub participation_rate: u8,
    pub confidence_score: u8,
    pub status: MarketStatus,
}

/// A vote as a voter keeps it after revealing.
#[derive(Clone, Copy, Debug)]
pub struct RevealedVote {
    pub market_id: u64,
    pub outcome_index: usize,
    pub salt: [u8; 32],
    pub confidence: u8,
    pub revealed_at: Timestamp,
}

/// Deployment-wide settings of the coordinator.
#[derive(Clone, Copy, Debug, PartialEq, Eq, Structural)]
pub struct Parameters {
    /// Least stake a voter must bring to register.
    pub min_stake: Amount,
    /// Share of an incorrect voter's committed stake that is slashed (0-100).
    pub slash_percentage: u8,
    /// Least consensus share for a resolution (0-100).
    pub min_consensus: u8,
    /// Share of fees that goes to the voters (0-100).
    pub reward_pool_percentage: u8,
}

impl Default for Parameters {
    fn default() -> (r: Self)
        ensures
            r == (Parameters {
                min_stake: tokens_spec(100),
                slash_percentage: 10,
                min_consensus: 66,
                reward_pool_percentage: 80,
            }),
    {
        Parameters {
            min_stake: from_tokens(100),
            slash_percentage: 10,
            min_consensus: 66,
            reward_pool_percentage: 80,
        }
    }
}

/// What a voter agent starts from.
#[derive(Clone, Copy, Debug)]
pub struct InitialState {
    pub oracle_chain: Option<ChainId>,
    pub initial_stake: Amount,
}

/// How reveals are combined into a result.
#[derive(Clone, Copy, Debug, PartialEq, Eq, Structural)]
pub enum AggregationMethod {
    /// Most votes wins.
    SimpleMajority,
    /// Weighted by reputation and stake.
    WeightedMajority { weight_by_reputation: bool, weight_by_stake: bool, min_consensus: u8 },
    /// Average of confidence scores.
    ConfidenceWeighted,
    /// Quadratic voting.
    QuadraticVoting,
}

impl Default for AggregationMethod {
    fn default() -> (r: Self)
        ensures
            r == (AggregationMethod::WeightedMajority {
                weight_by_reputation: true,
                weight_by_stake: true,
                min_consensus: 66,
            }),
    {
        AggregationMethod::WeightedMajority {
            weight_by_reputation: true,
            weight_by_stake: true,
            min_consensus: 66,
        }
    }
}

/// Error code: unknown failure.
pub const ERR_UNKNOWN: u32 = 0;
/// Error code: a market needs 2 to 10 outcomes.
pub const ERR_INVALID_OUTCOME_COUNT: u32 = 1;
/// Error code: trading must end before voting does.
pub const ERR_INVALID_DEADLINE_ORDER: u32 = 2;
/// Error code: a market needs at least 3 voters.
pub const ERR_MIN_VOTERS_TOO_LOW: u32 = 3;
/// Error code: the stake is below the minimum.
pub const ERR_INSUFFICIENT_STAKE: u32 = 4;
/// Error code: the voter is already registered.
pub const ERR_DUPLICATE_VOTER: u32 = 5;
/// Error code: no market has this id.
pub const ERR_MARKET_NOT_FOUND: u32 = 6;
/// Error code: the market is not active.
pub const ERR_MARKET_NOT_ACTIVE: u32 = 7;
/// Error code: the trading deadline has not passed.
pub const ERR_TRADING_DEADLINE_NOT_REACHED: u32 = 8;
/// Error code: the market is not ready to be aggregated.
pub const ERR_NOT_IN_REVEAL_PHASE: u32 = 9;
/// Error code: fewer reveals than the market's minimum.
pub const ERR_INSUFFICIENT_REVEALS: u32 = 10;
/// Error code: the voting deadline has not passed.
pub const ERR_VOTING_DEADLINE_NOT_REACHED: u32 = 11;
/// Error code: no voter has this identity.
pub const ERR_VOTER_NOT_FOUND: u32 = 12;

/// What the host tells a handler about the call it serves.
#[derive(Clone, Copy, Debug)]
pub struct Context {
    /// The time of the call.
    pub now: Timestamp,
    /// The chain that runs the handler.
    pub chain_id: ChainId,
    /// The authenticated signer of the operation, if any.
    pub signer: Option<AccountOwner>,
}

/// Privileged operations on the coordinator.
#[derive(Clone, Debug)]
pub enum CoordinatorOperation {
    CreateMarket {
        question: String,
        outcomes: Vec<String>,
        trading_deadline: Timestamp,
        voting_deadline: Timestamp,
        min_voters: u32,
        category: String,
    },
    RegisterVoter { voter_chain: ChainId, initial_stake: Amount },
    StartVoting { market_id: u64 },
    AggregateVotes { market_id: u64 },
    GetMarket { market_id: u64 },
    GetActiveMarkets,
    GetVoterInfo { voter_chain: ChainId },
    GetMarketStats { market_id: u64 },
}

/// The coordinator's answers to operations.
#[derive(Clone, Debug)]
pub enum CoordinatorResponse {
    MarketCreated { market_id: u64, question_length: u32 },
    VoterRegistered { voter_chain: ChainId, initial_reputation: u64 },
    VotingStarted { market_id: u64, total_voters_notified: u32 },
    MarketResolved { market_id: u64, winning_outcome: usize, confidence: u8, total_voters: u32 },
    Market(Market),
    ActiveMarkets(Vec<Market>),
    VoterInfo(VoterInfo),
    MarketStats(MarketStats),
    Error { error_code: u32 },
}

/// Read-only queries on the coordinator.
#[derive(Clone, Copy, Debug)]
pub enum CoordinatorQuery {
    GetMarket { market_id: u64 },
    GetActiveMarkets,
    GetVoterInfo { voter_chain: ChainId },
    GetMarketStats { market_id: u64 },
}

/// Operations a voter's operator issues on the voter's own chain.
#[derive(Clone, Copy, Debug)]
pub enum VoterOperation {
    Initialize { oracle_chain: ChainId, stake: Amount },
    CommitVote { market_id: u64, outcome_index: usize },
    RevealVote { market_id: u64 },
    SubmitVote { market_id: u64, outcome_index: usize },
    AddStake { amount: Amount },
    GetVoterInfo,
    GetVoteHistory,
    GetPendingCommitments,
}

/// A voter chain's answers to operations.
#[derive(Clone, Debug)]
pub enum VoterResponse {
    Initialized,
    CommitmentSubmitted { market_id: u64, commitment_hash: [u8; 32] },
    VoteRevealed { market_id: u64, outcome_index: usize, verified: bool },
    VoteSubmitted { market_id: u64, outcome_index: usize },
    StakeAdded { new_total: Amount },
    VoterInfo(VoterInfo),
    VoteHistory(Vec<VoteRecord>),
    PendingCommitments(Vec<CommitmentInfo>),
}

/// Read-only queries on a voter chain.
#[derive(Clone, Copy, Debug, PartialEq, Eq, Structural)]
pub enum VoterQuery {
    GetVoterInfo,
    GetVoteHistory,
    GetPendingCommitments,
}

/// Messages between chains.
#[derive(Clone, Debug)]
pub enum Message {
    /// Coordinator to voter: please vote on this market.
    VotingRequest { market_id: u64, question: String, outcomes: Vec<String>, deadline: Timestamp },
    /// Voter to coordinator: a sealed vote.
    VoteCommitment {
        voter_chain: ChainId,
        market_id: u64,
        commitment_hash: [u8; 32],
        voting_power: u64,
        stake_amount: Amount,
    },
    /// Voter to coordinator: the opening of a sealed vote.
    VoteReveal {
        voter_chain: ChainId,
        market_id: u64,
        outcome_index: usize,
        salt: [u8; 32],
        confidence: u8,
    },
    /// Voter to coordinator: an open vote, without commitment.
    DirectVote {
        voter_chain: ChainId,
        market_id: u64,
        outcome_index: usize,
        confidence: u8,
        voting_power: u64,
    },
    /// Coordinator to voter: reputation changed.
    ReputationUpdate { increase: bool, amount: u64 },
    /// Coordinator to voter: a reward.
    RewardPayment { amount: Amount, market_id: u64 },
    /// Coordinator to a market: its outcome.
    MarketResolved { market_id: u64, outcome: usize, confidence: u8, timestamp: Timestamp },
    /// Market to coordinator: asks for the outcome of a market.
    MarketResolutionRequest { market_id: u64, requester: ChainId },
    /// Market to coordinator: asks for a market to be resolved.
    ResolutionRequest { market_id: u64, question: String, outcomes: Vec<String> },
}

/// A message to send, with its destination.
#[derive(Clone, Debug)]
pub struct Outgoing {
    pub destination: ChainId,
    pub message: Message,
}

} // verus!
