//! The coordinator's handlers: the market life cycle, the commit-reveal
//! protocol, aggregation and the distribution of rewards and slashes.
//!
//! Each handler takes the state, the call's context and its input, changes
//! the state in place and returns its response and the messages to send.
use vstd::prelude::*;

use crate::aggregation::{
    aggregate_weighted_majority, confidence_spec, outcome_weight, reward_amount, reward_spec,
    slash_amount, slash_spec, total_weight, winner,
};
use crate::hash::{opens, verify_commitment};
use crate::ledger::{changed_voter, LedgerChange};
use crate::state::{
    commitment_map, copy_market, has_revealed, is_forfeited, is_registered, reveals_of, same_market,
    OracleCoordinatorState,
};
use crate::types::{
    Amount, ChainId, Context, CoordinatorOperation, CoordinatorResponse, MarketStats,
    ERR_VOTER_NOT_FOUND, Market, MarketStatus, Message, Outgoing,
    Timestamp, VoteCommitment, VoteReveal, VoterInfo, ERR_DUPLICATE_VOTER,
    ERR_INSUFFICIENT_STAKE, ERR_INVALID_DEADLINE_ORDER, ERR_INVALID_OUTCOME_COUNT,
    ERR_MARKET_NOT_ACTIVE, ERR_MARKET_NOT_FOUND, ERR_MIN_VOTERS_TOO_LOW,
    ERR_INSUFFICIENT_REVEALS, ERR_NOT_IN_REVEAL_PHASE, ERR_TRADING_DEADLINE_NOT_REACHED,
    ERR_UNKNOWN, ERR_VOTING_DEADLINE_NOT_REACHED,
};

verus! {

/// Reputation of a newly registered voter.
pub const INITIAL_REPUTATION: u64 = 100;

/// `x + 1`, at most `u64::MAX`.
pub open spec fn sat_inc64(x: u64) -> u64 {
    if x < u64::MAX {
        (x + 1) as u64
    } else {
        x
    }
}

/// `x + 1`, at most `u32::MAX`.
pub open spec fn sat_inc32(x: u32) -> u32 {
    if x < u32::MAX {
        (x + 1) as u32
    } else {
        x
    }
}

/// `n`, at most `u32::MAX`.
pub open spec fn capped_u32(n: nat) -> u32 {
    if n > u32::MAX {
        u32::MAX
    } else {
        n as u32
    }
}

/// Number of bytes of the UTF-8 encoding of `s`.
pub open spec fn byte_len(s: String) -> nat {
    (vstd::utf8::encode_utf8(s@).len() as usize) as nat
}

/// Why a market cannot be created with these terms, if it cannot.
pub open spec fn create_error(
    outcome_count: nat,
    trading_deadline: Timestamp,
    voting_deadline: Timestamp,
    min_voters: u32,
) -> Option<u32> {
    if outcome_count < 2 || outcome_count > 10 {
        Some(ERR_INVALID_OUTCOME_COUNT)
    } else if trading_deadline >= voting_deadline {
        Some(ERR_INVALID_DEADLINE_ORDER)
    } else if min_voters < 3 {
        Some(ERR_MIN_VOTERS_TOO_LOW)
    } else {
        None
    }
}

/// The ledger entry of a newly registered voter.
pub open spec fn new_voter(voter_chain: ChainId, stake: Amount, now: Timestamp) -> VoterInfo {
    VoterInfo {
        chain_id: voter_chain,
        reputation_score: INITIAL_REPUTATION,
        total_votes: 0,
        total_correct: 0,
        total_incorrect: 0,
        correct_streak: 0,
        total_stake: stake,
        locked_stake: 0,
        registered_at: now,
        last_active: now,
    }
}

/// Whether `o` is the voting request for market `m` sent to `destination`.
pub open spec fn is_voting_request(o: Outgoing, destination: ChainId, m: Market) -> bool {
    &&& o.destination == destination
    &&& o.message matches Message::VotingRequest { market_id, question, outcomes, deadline }
    &&& market_id == m.id
    &&& question == m.question
    &&& outcomes@ == m.outcomes@
    &&& deadline == m.voting_deadline
}

/// Market statuses only move forward, markets are never removed, and a
/// resolved market keeps its result.
pub open spec fn markets_advance(before: Seq<Market>, after: Seq<Market>) -> bool {
    &&& before.len() <= after.len()
    &&& forall|i: int|
        0 <= i < before.len() ==> {
            &&& (#[trigger] after[i]).id == before[i].id
            &&& crate::types::status_rank(before[i].status) <= crate::types::status_rank(
                after[i].status,
            )
            &&& before[i].status == MarketStatus::Resolved ==> after[i] == before[i]
        }
}

impl OracleCoordinatorState {
    /// Creates a market with the next id, in status `Active`.
    pub fn create_market(
        &mut self,
        ctx: &Context,
        question: String,
        outcomes: Vec<String>,
        trading_deadline: Timestamp,
        voting_deadline: Timestamp,
        min_voters: u32,
        category: String,
    ) -> (r: CoordinatorResponse)
        requires
            old(self).wf(),
        ensures
            final(self).wf(),
            markets_advance(old(self).markets@, final(self).markets@),
            create_market_post(
                *old(self),
                *final(self),
                *ctx,
                question,
                outcomes,
                trading_deadline,
                voting_deadline,
                min_voters,
                category,
                r,
            ),
    {
        if outcomes.len() < 2 || outcomes.len() > 10 {
            return CoordinatorResponse::Error { error_code: ERR_INVALID_OUTCOME_COUNT };
        }
        if trading_deadline >= voting_deadline {
            return CoordinatorResponse::Error { error_code: ERR_INVALID_DEADLINE_ORDER };
        }
        if min_voters < 3 {
            return CoordinatorResponse::Error { error_code: ERR_MIN_VOTERS_TOO_LOW };
        }
        if self.next_market_id == u64::MAX {
            return CoordinatorResponse::Error { error_code: ERR_UNKNOWN };
        }
        let market_id = self.next_market_id;
        let len = question.as_str().len();
        let question_length: u32 = if len > u32::MAX as usize {
            u32::MAX
        } else {
            len as u32
        };
        let market = Market {
            id: market_id,
            question,
            outcomes,
            creator: ctx.signer,
            created_at: ctx.now,
            trading_deadline,
            voting_deadline,
            min_voters,
            category,
            status: MarketStatus::Active,
            winning_outcome: None,
            confidence_score: None,
            total_commitments: 0,
            total_reveals: 0,
        };
        self.markets.push(market);
        self.next_market_id = market_id + 1;
        self.total_markets_created = self.total_markets_created.saturating_add(1);
        proof {
            assert forall|i: int| 0 <= i < self.reveals@.len() implies (#[trigger] self.reveals@[i]).market_id
                < self.markets@.len() && self.reveals@[i].outcome_index
                < self.markets@[self.reveals@[i].market_id as int].outcomes@.len() by {
                assert(self.markets@[self.reveals@[i].market_id as int] == old(self).markets@[self.reveals@[i].market_id as int]);
            }
        }
        CoordinatorResponse::MarketCreated { market_id, question_length }
    }

    /// Registers `voter_chain` with `initial_stake`.
    pub fn register(&mut self, ctx: &Context, voter_chain: ChainId, initial_stake: Amount) -> (r:
        CoordinatorResponse)
        requires
            old(self).wf(),
        ensures
            final(self).wf(),
            register_post(*old(self), *final(self), *ctx, voter_chain, initial_stake, r),
    {
        if initial_stake < self.params.min_stake {
            return CoordinatorResponse::Error { error_code: ERR_INSUFFICIENT_STAKE };
        }
        if self.is_voter_registered(&voter_chain) {
            return CoordinatorResponse::Error { error_code: ERR_DUPLICATE_VOTER };
        }
        let info = VoterInfo {
            chain_id: voter_chain,
            reputation_score: INITIAL_REPUTATION,
            total_votes: 0,
            total_correct: 0,
            total_incorrect: 0,
            correct_streak: 0,
            total_stake: initial_stake,
            locked_stake: 0,
            registered_at: ctx.now,
            last_active: ctx.now,
        };
        self.register_voter(info);
        CoordinatorResponse::VoterRegistered { voter_chain, initial_reputation: INITIAL_REPUTATION }
    }

    /// Opens voting on an active market whose trading deadline has passed,
    /// and asks every registered voter to vote.
    pub fn start_voting(&mut self, ctx: &Context, market_id: u64) -> (r: (
        CoordinatorResponse,
        Vec<Outgoing>,
    ))
        requires
            old(self).wf(),
        ensures
            final(self).wf(),
            markets_advance(old(self).markets@, final(self).markets@),
            start_voting_post(*old(self), *final(self), *ctx, market_id, r),
    {
        let mut msgs: Vec<Outgoing> = Vec::new();
        if market_id >= self.markets.len() as u64 {
            return (CoordinatorResponse::Error { error_code: ERR_MARKET_NOT_FOUND }, msgs);
        }
        let id = market_id as usize;
        if self.markets[id].status != MarketStatus::Active {
            return (CoordinatorResponse::Error { error_code: ERR_MARKET_NOT_ACTIVE }, msgs);
        }
        if ctx.now < self.markets[id].trading_deadline {
            return (
                CoordinatorResponse::Error { error_code: ERR_TRADING_DEADLINE_NOT_REACHED },
                msgs,
            );
        }
        self.markets[id].status = MarketStatus::VotingStarted;
        proof {
            assert forall|i: int| 0 <= i < self.reveals@.len() implies (#[trigger] self.reveals@[i]).market_id
                < self.markets@.len() && self.reveals@[i].outcome_index
                < self.markets@[self.reveals@[i].market_id as int].outcomes@.len() by {
                assert(self.markets@[self.reveals@[i].market_id as int].outcomes == old(self).markets@[self.reveals@[i].market_id as int].outcomes);
            }
        }
        let ghost m = old(self).markets@[market_id as int];
        let mut i: usize = 0;
        while i < self.voters.len()
            invariant
                i <= self.voters@.len(),
                self.voters == old(self).voters,
                id == market_id,
                m.id == market_id,
                id < self.markets@.len(),
                same_market(self.markets@[id as int], Market { status: MarketStatus::VotingStarted, ..m }),
                msgs@.len() == i,
                forall|k: int|
                    0 <= k < i ==> is_voting_request(#[trigger] msgs@[k], self.voters@[k].chain_id, m),
            decreases self.voters@.len() - i,
        {
            let question = self.markets[id].question.clone();
            let market = &self.markets[id];
            let outcomes = copy_market(market).outcomes;
            msgs.push(
                Outgoing {
                    destination: self.voters[i].chain_id,
                    message: Message::VotingRequest {
                        market_id,
                        question,
                        outcomes,
                        deadline: self.markets[id].voting_deadline,
                    },
                },
            );
            i = i + 1;
        }
        let n = self.voters.len();
        let notified: u32 = if n > u32::MAX as usize {
            u32::MAX
        } else {
            n as u32
        };
        (CoordinatorResponse::VotingStarted { market_id, total_voters_notified: notified }, msgs)
    }
}

/// Whether `r` is the record of a direct vote: no salt, all fields as given.
pub open spec fn is_direct_reveal(
    r: VoteReveal,
    voter_chain: ChainId,
    market_id: u64,
    outcome_index: usize,
    confidence: u8,
    voting_power: u64,
    now: Timestamp,
) -> bool {
    &&& r.voter_chain == voter_chain
    &&& r.market_id == market_id
    &&& r.outcome_index == outcome_index
    &&& r.salt@ == Seq::new(32, |i: int| 0u8)
    &&& r.confidence == confidence
    &&& r.voting_power == voting_power
    &&& r.revealed_at == now
}

impl OracleCoordinatorState {
    /// Proves the reveal invariant of the state after market `id` changed in
    /// anything but its outcomes.
    proof fn lemma_reveals_still_fit(&self, before: &OracleCoordinatorState, id: int)
        requires
            before.wf(),
            self.reveals == before.reveals,
            self.markets@.len() == before.markets@.len(),
            0 <= id < self.markets@.len(),
            self.markets@[id].outcomes == before.markets@[id].outcomes,
            forall|i: int| 0 <= i < self.markets@.len() && i != id ==> self.markets@[i] == before.markets@[i],
        ensures
            forall|i: int|
                0 <= i < self.reveals@.len() ==> (#[trigger] self.reveals@[i]).market_id
                    < self.markets@.len() && self.reveals@[i].outcome_index
                    < self.markets@[self.reveals@[i].market_id as int].outcomes@.len(),
    {
        assert forall|i: int| 0 <= i < self.reveals@.len() implies (#[trigger] self.reveals@[i]).market_id
            < self.markets@.len() && self.reveals@[i].outcome_index
            < self.markets@[self.reveals@[i].market_id as int].outcomes@.len() by {
            assert(before.reveals@[i] == self.reveals@[i]);
        }
    }

    /// Takes a sealed vote: ignored unless the voter is registered, the
    /// market takes commitments and the voter has no commitment there yet,
    /// so a repeated message changes nothing. The first commitment moves the
    /// market to the commit phase; the voter's stake is locked.
    pub fn handle_commitment(
        &mut self,
        ctx: &Context,
        voter_chain: ChainId,
        market_id: u64,
        commitment_hash: [u8; 32],
        voting_power: u64,
        stake_amount: Amount,
    )
        requires
            old(self).wf(),
        ensures
            final(self).wf(),
            markets_advance(old(self).markets@, final(self).markets@),
            handle_commitment_post(
                *old(self),
                *final(self),
                *ctx,
                voter_chain,
                market_id,
                commitment_hash,
                voting_power,
                stake_amount,
            ),
    {
        if !self.is_voter_registered(&voter_chain) {
            return ;
        }
        if market_id >= self.markets.len() as u64 {
            return ;
        }
        if self.get_commitment(market_id, voter_chain).is_some() {
            return ;
        }
        let id = market_id as usize;
        let status = self.markets[id].status;
        if status != MarketStatus::VotingStarted && status != MarketStatus::CommitPhase {
            return ;
        }
        let commitment = VoteCommitment {
            voter_chain,
            market_id,
            commitment_hash,
            voting_power,
            stake_amount,
            committed_at: ctx.now,
        };
        self.add_commitment(commitment);
        let ghost mid = *self;
        if status == MarketStatus::VotingStarted {
            self.markets[id].status = MarketStatus::CommitPhase;
            self.markets[id].total_commitments = 1;
        } else {
            let count = self.markets[id].total_commitments;
            self.markets[id].total_commitments = count.saturating_add(1);
        }
        proof {
            self.lemma_reveals_still_fit(&mid, id as int);
            let m = old(self).markets@[market_id as int];
            assert(self.markets@ =~= old(self).markets@.update(
                market_id as int,
                Market {
                    status: MarketStatus::CommitPhase,
                    total_commitments: if m.status == MarketStatus::VotingStarted {
                        1
                    } else {
                        sat_inc32(m.total_commitments)
                    },
                    ..m
                },
            ));
        }
        self.lock_voter_stake(voter_chain, stake_amount);
    }

    /// Opens a sealed vote. Ignored when the voter has no commitment on the
    /// market, has already revealed there, or has forfeited the commitment.
    /// A reveal that does not hash to the commitment costs the voter the
    /// whole committed stake, forfeits the commitment and is discarded. A
    /// matching reveal is kept if the market is still voting and the outcome
    /// is one of its outcomes; the first one moves the market from the
    /// commit phase to the reveal phase.
    pub fn handle_reveal(
        &mut self,
        ctx: &Context,
        voter_chain: ChainId,
        market_id: u64,
        outcome_index: usize,
        salt: [u8; 32],
        confidence: u8,
    )
        requires
            old(self).wf(),
        ensures
            final(self).wf(),
            markets_advance(old(self).markets@, final(self).markets@),
            handle_reveal_post(
                *old(self),
                *final(self),
                *ctx,
                voter_chain,
                market_id,
                outcome_index,
                salt,
                confidence,
            ),
    {
        let commitment = match self.get_commitment(market_id, voter_chain) {
            Some(c) => c,
            None => {
                return ;
            },
        };
        if self.has_reveal(market_id, voter_chain) || self.has_forfeited(market_id, voter_chain) {
            return ;
        }
        if !verify_commitment(&commitment.commitment_hash, outcome_index, &salt) {
            self.slash_voter(voter_chain, commitment.stake_amount);
            self.forfeit(market_id, voter_chain);
            return ;
        }
        if market_id >= self.markets.len() as u64 {
            return ;
        }
        let id = market_id as usize;
        if !self.markets[id].is_voting_phase() || outcome_index >= self.markets[id].outcomes.len() {
            return ;
        }
        let reveal = VoteReveal {
            voter_chain,
            market_id,
            outcome_index,
            salt,
            confidence,
            voting_power: commitment.voting_power,
            revealed_at: ctx.now,
        };
        self.add_reveal(reveal);
        let ghost mid = *self;
        if self.markets[id].status == MarketStatus::CommitPhase {
            self.markets[id].status = MarketStatus::RevealPhase;
        }
        let count = self.markets[id].total_reveals;
        self.markets[id].total_reveals = count.saturating_add(1);
        proof {
            self.lemma_reveals_still_fit(&mid, id as int);
            let m = old(self).markets@[market_id as int];
            assert(self.markets@ =~= old(self).markets@.update(
                market_id as int,
                Market {
                    status: if m.status == MarketStatus::CommitPhase {
                        MarketStatus::RevealPhase
                    } else {
                        m.status
                    },
                    total_reveals: sat_inc32(m.total_reveals),
                    ..m
                },
            ));
        }
    }

    /// Takes an open vote without commitment, recorded as a reveal with no
    /// salt. Ignored unless the voter is registered, the market is voting,
    /// the outcome is one of its outcomes and the voter has not voted there.
    pub fn handle_direct_vote(
        &mut self,
        ctx: &Context,
        voter_chain: ChainId,
        market_id: u64,
        outcome_index: usize,
        confidence: u8,
        voting_power: u64,
    )
        requires
            old(self).wf(),
        ensures
            final(self).wf(),
            markets_advance(old(self).markets@, final(self).markets@),
            handle_direct_vote_post(
                *old(self),
                *final(self),
                *ctx,
                voter_chain,
                market_id,
                outcome_index,
                confidence,
                voting_power,
            ),
    {
        if !self.is_voter_registered(&voter_chain) {
            return ;
        }
        if market_id >= self.markets.len() as u64 {
            return ;
        }
        let id = market_id as usize;
        if !self.markets[id].is_voting_phase() || outcome_index >= self.markets[id].outcomes.len() {
            return ;
        }
        if self.has_reveal(market_id, voter_chain) {
            return ;
        }
        let reveal = VoteReveal {
            voter_chain,
            market_id,
            outcome_index,
            salt: [0u8; 32],
            confidence,
            voting_power,
            revealed_at: ctx.now,
        };
        assert(reveal.salt@ =~= Seq::new(32, |i: int| 0u8));
        self.add_reveal(reveal);
        assert(self.reveals@.drop_last() =~= old(self).reveals@);
        let ghost mid = *self;
        let count = self.markets[id].total_reveals;
        self.markets[id].total_reveals = count.saturating_add(1);
        proof {
            self.lemma_reveals_still_fit(&mid, id as int);
        }
    }
}

/// The reputation change a reveal earns once `w` has won.
pub open spec fn verdict(r: VoteReveal, w: usize) -> LedgerChange {
    if r.outcome_index == w {
        LedgerChange::Correct
    } else {
        LedgerChange::Incorrect
    }
}

/// `voters` after the reputation change of each reveal, in order.
pub open spec fn reputation_pass(voters: Seq<VoterInfo>, rs: Seq<VoteReveal>, w: usize) -> Seq<
    VoterInfo,
>
    decreases rs.len(),
{
    if rs.len() == 0 {
        voters
    } else {
        changed_voter(
            reputation_pass(voters, rs.drop_last(), w),
            rs.last().voter_chain,
            verdict(rs.last(), w),
        )
    }
}

/// `voters` after settling the stake of each committed reveal, in order:
/// with `winners`, the reveals for `w` get their committed stake unlocked;
/// without, the other reveals lose `percentage`% of it.
pub open spec fn settle_pass(
    voters: Seq<VoterInfo>,
    rs: Seq<VoteReveal>,
    w: usize,
    cm: Map<(u64, ChainId), VoteCommitment>,
    market_id: u64,
    percentage: u8,
    winners: bool,
) -> Seq<VoterInfo>
    decreases rs.len(),
{
    if rs.len() == 0 {
        voters
    } else {
        let prev = settle_pass(voters, rs.drop_last(), w, cm, market_id, percentage, winners);
        let r = rs.last();
        let key = (market_id, r.voter_chain);
        if (r.outcome_index == w) == winners && cm.contains_key(key) {
            changed_voter(
                prev,
                r.voter_chain,
                if winners {
                    LedgerChange::Unlock(cm[key].stake_amount)
                } else {
                    LedgerChange::Slash(slash_spec(cm[key].stake_amount, percentage))
                },
            )
        } else {
            prev
        }
    }
}

/// Summed voting power of the reveals for `w`.
pub open spec fn winners_power(rs: Seq<VoteReveal>, w: usize) -> int
    decreases rs.len(),
{
    if rs.len() == 0 {
        0
    } else {
        winners_power(rs.drop_last(), w) + if rs.last().outcome_index == w {
            rs.last().voting_power as int
        } else {
            0
        }
    }
}

/// The reward payments to the voters who chose `w`, in reveal order.
pub open spec fn reward_messages(rs: Seq<VoteReveal>, w: usize, total: u128, market_id: u64) -> Seq<
    Outgoing,
>
    decreases rs.len(),
{
    if rs.len() == 0 {
        Seq::empty()
    } else {
        let prev = reward_messages(rs.drop_last(), w, total, market_id);
        let r = rs.last();
        if r.outcome_index == w {
            prev.push(
                Outgoing {
                    destination: r.voter_chain,
                    message: Message::RewardPayment {
                        amount: reward_spec(r.voting_power, total),
                        market_id,
                    },
                },
            )
        } else {
            prev
        }
    }
}

proof fn lemma_winner_power(rs: Seq<VoteReveal>, w: usize, i: int)
    requires
        0 <= i < rs.len(),
        rs[i].outcome_index == w,
    ensures
        rs[i].voting_power <= winners_power(rs, w),
    decreases rs.len(),
{
    lemma_winners_power_bound(rs.drop_last(), w);
    if i < rs.len() - 1 {
        lemma_winner_power(rs.drop_last(), w, i);
    }
}

proof fn lemma_winners_power_bound(rs: Seq<VoteReveal>, w: usize)
    ensures
        0 <= winners_power(rs, w) <= rs.len() * 0xffff_ffff_ffff_ffff,
    decreases rs.len(),
{
    if rs.len() > 0 {
        lemma_winners_power_bound(rs.drop_last(), w);
    }
}

impl OracleCoordinatorState {
    /// Pays the voters who chose `winning_outcome` their share of the reward
    /// pool and unlocks their committed stake; slashes `slash_percentage`%
    /// of the committed stake of the others.
    pub fn distribute_rewards(
        &mut self,
        market_id: u64,
        winning_outcome: usize,
        reveals: &Vec<VoteReveal>,
    ) -> (r: Vec<Outgoing>)
        requires
            old(self).wf(),
            reveals@.len() <= u32::MAX,
        ensures
            final(self).wf(),
            final(self).voters@ == settle_pass(
                settle_pass(
                    old(self).voters@,
                    reveals@,
                    winning_outcome,
                    commitment_map(old(self).commitments@),
                    market_id,
                    old(self).params.slash_percentage,
                    true,
                ),
                reveals@,
                winning_outcome,
                commitment_map(old(self).commitments@),
                market_id,
                old(self).params.slash_percentage,
                false,
            ),
            *final(self) == (OracleCoordinatorState { voters: final(self).voters, ..*old(self) }),
            r@ == reward_messages(
                reveals@,
                winning_outcome,
                winners_power(reveals@, winning_outcome) as u128,
                market_id,
            ),
    {
        let ghost rs = reveals@;
        let ghost cm = commitment_map(self.commitments@);
        let ghost pct = self.params.slash_percentage;
        let ghost w = winning_outcome;
        let n = reveals.len();
        let mut total: u128 = 0;
        let mut i: usize = 0;
        while i < n
            invariant
                rs == reveals@,
                n == rs.len(),
                n <= u32::MAX,
                i <= n,
                w == winning_outcome,
                total == winners_power(rs.take(i as int), w),
            decreases n - i,
        {
            proof {
                assert(rs.take(i + 1).drop_last() =~= rs.take(i as int));
                lemma_winners_power_bound(rs.take(i + 1), w);
                let k = i + 1;
                assert(k * 0xffff_ffff_ffff_ffff <= 0x1_0000_0000 * 0xffff_ffff_ffff_ffff)
                    by (nonlinear_arith)
                    requires
                        k <= 0x1_0000_0000,
                ;
            }
            if reveals[i].outcome_index == winning_outcome {
                total = total + reveals[i].voting_power as u128;
            }
            i = i + 1;
        }
        assert(rs.take(n as int) =~= rs);
        let mut msgs: Vec<Outgoing> = Vec::new();
        let ghost start = self.voters@;
        let mut i: usize = 0;
        while i < n
            invariant
                rs == reveals@,
                n == rs.len(),
                i <= n,
                self.wf(),
                cm == commitment_map(self.commitments@),
                pct == self.params.slash_percentage,
                w == winning_outcome,
                total == winners_power(rs, w),
                n <= u32::MAX,
                *self == (OracleCoordinatorState { voters: self.voters, ..*old(self) }),
                start == old(self).voters@,
                self.voters@ == settle_pass(start, rs.take(i as int), w, cm, market_id, pct, true),
                msgs@ == reward_messages(rs.take(i as int), w, total, market_id),
            decreases n - i,
        {
            proof {
                assert(rs.take(i + 1).drop_last() =~= rs.take(i as int));
            }
            let r = reveals[i];
            if r.outcome_index == winning_outcome {
                proof {
                    lemma_winner_power(rs, w, i as int);
                    lemma_winners_power_bound(rs, w);
                    let len = rs.len();
                    assert(len * 0xffff_ffff_ffff_ffff <= 0x1_0000_0000 * 0xffff_ffff_ffff_ffff)
                        by (nonlinear_arith)
                        requires
                            len <= 0x1_0000_0000,
                    ;
                }
                let amount = reward_amount(r.voting_power, total);
                msgs.push(
                    Outgoing {
                        destination: r.voter_chain,
                        message: Message::RewardPayment { amount, market_id },
                    },
                );
                if let Some(c) = self.get_commitment(market_id, r.voter_chain) {
                    self.unlock_voter_stake(r.voter_chain, c.stake_amount);
                }
            }
            i = i + 1;
        }
        assert(rs.take(n as int) =~= rs);
        let ghost mid = self.voters@;
        let mut i: usize = 0;
        while i < n
            invariant
                rs == reveals@,
                n == rs.len(),
                i <= n,
                self.wf(),
                cm == commitment_map(self.commitments@),
                pct == self.params.slash_percentage,
                pct <= 100,
                w == winning_outcome,
                *self == (OracleCoordinatorState { voters: self.voters, ..*old(self) }),
                self.voters@ == settle_pass(mid, rs.take(i as int), w, cm, market_id, pct, false),
            decreases n - i,
        {
            proof {
                assert(rs.take(i + 1).drop_last() =~= rs.take(i as int));
            }
            let r = reveals[i];
            if r.outcome_index != winning_outcome {
                if let Some(c) = self.get_commitment(market_id, r.voter_chain) {
                    let amount = slash_amount(c.stake_amount, self.params.slash_percentage);
                    self.slash_voter(r.voter_chain, amount);
                }
            }
            i = i + 1;
        }
        assert(rs.take(n as int) =~= rs);
        msgs
    }

    /// Resolves a market from its reveals once voting is over.
    ///
    /// Fails when the market does not exist; when it is already resolved or
    /// disputed, or neither in the reveal phase nor holding any reveal; when
    /// it has fewer reveals than its minimum; and before its voting
    /// deadline. Otherwise the weighted-majority winner and its confidence
    /// are recorded, every revealer's reputation is updated, the winners are
    /// paid and unlocked, the others slashed, and the resolution is sent to
    /// this chain. A resolved market is never resolved again.
    pub fn aggregate_votes(&mut self, ctx: &Context, market_id: u64) -> (r: (
        CoordinatorResponse,
        Vec<Outgoing>,
    ))
        requires
            old(self).wf(),
        ensures
            final(self).wf(),
            markets_advance(old(self).markets@, final(self).markets@),
            aggregate_votes_post(*old(self), *final(self), *ctx, market_id, r),
    {
        let mut none: Vec<Outgoing> = Vec::new();
        if market_id >= self.markets.len() as u64 {
            return (CoordinatorResponse::Error { error_code: ERR_MARKET_NOT_FOUND }, none);
        }
        let id = market_id as usize;
        let status = self.markets[id].status;
        if status == MarketStatus::Resolved || status == MarketStatus::Disputed || (status
            != MarketStatus::RevealPhase && self.markets[id].total_reveals == 0) {
            return (CoordinatorResponse::Error { error_code: ERR_NOT_IN_REVEAL_PHASE }, none);
        }
        if self.markets[id].total_reveals < self.markets[id].min_voters {
            return (CoordinatorResponse::Error { error_code: ERR_INSUFFICIENT_REVEALS }, none);
        }
        if ctx.now < self.markets[id].voting_deadline {
            return (
                CoordinatorResponse::Error { error_code: ERR_VOTING_DEADLINE_NOT_REACHED },
                none,
            );
        }
        let reveals = self.get_all_reveals(market_id);
        if reveals.len() > u32::MAX as usize {
            return (CoordinatorResponse::Error { error_code: ERR_UNKNOWN }, none);
        }
        let ghost rs = reveals@;
        let (w, confidence) = aggregate_weighted_majority(&reveals);
        proof {
            if rs.len() > 0 {
                let k = choose|k: int| 0 <= k < rs.len() && rs[k].outcome_index == w;
                let pred = |r: VoteReveal| r.market_id == market_id;
                old(self).reveals@.lemma_filter_pred(pred, k);
                assert(rs.contains(rs[k]));
                old(self).reveals@.lemma_filter_contains_rev(pred, rs[k]);
                let j = choose|j: int| 0 <= j < old(self).reveals@.len() && old(self).reveals@[j] == rs[k];
                assert(old(self).reveals@[j].outcome_index < old(self).markets@[market_id as int].outcomes@.len());
            }
        }
        let ghost before = *self;
        self.markets[id].status = MarketStatus::Resolved;
        self.markets[id].winning_outcome = Some(w);
        self.markets[id].confidence_score = Some(confidence);
        self.total_markets_resolved = self.total_markets_resolved.saturating_add(1);
        proof {
            self.lemma_reveals_still_fit(&before, id as int);
            assert(self.markets@ =~= old(self).markets@.update(
                market_id as int,
                Market {
                    status: MarketStatus::Resolved,
                    winning_outcome: Some(w),
                    confidence_score: Some(confidence),
                    ..old(self).markets@[market_id as int]
                },
            ));
        }
        let ghost after_market = *self;
        let n = reveals.len();
        let mut i: usize = 0;
        while i < n
            invariant
                rs == reveals@,
                n == rs.len(),
                i <= n,
                self.wf(),
                *self == (OracleCoordinatorState { voters: self.voters, ..after_market }),
                self.voters@ == reputation_pass(after_market.voters@, rs.take(i as int), w),
            decreases n - i,
        {
            proof {
                assert(rs.take(i + 1).drop_last() =~= rs.take(i as int));
            }
            let v = reveals[i].voter_chain;
            if reveals[i].outcome_index == w {
                self.update_voter_reputation_correct(v);
            } else {
                self.update_voter_reputation_incorrect(v);
            }
            i = i + 1;
        }
        assert(rs.take(n as int) =~= rs);
        let mut msgs = self.distribute_rewards(market_id, w, &reveals);
        msgs.push(
            Outgoing {
                destination: ctx.chain_id,
                message: Message::MarketResolved {
                    market_id,
                    outcome: w,
                    confidence,
                    timestamp: ctx.now,
                },
            },
        );
        (
            CoordinatorResponse::MarketResolved {
                market_id,
                winning_outcome: w,
                confidence,
                total_voters: n as u32,
            },
            msgs,
        )
    }
}

/// Reveals per hundred commitments, rounded down and capped at 255; 0
/// without commitments.
pub open spec fn participation_spec(reveals: u32, commitments: u32) -> u8 {
    if commitments == 0 {
        0
    } else if reveals * 100 / (commitments as int) > 255 {
        255
    } else {
        (reveals * 100 / (commitments as int)) as u8
    }
}

/// The participation figures of `m`.
pub open spec fn stats_of(m: Market) -> MarketStats {
    MarketStats {
        market_id: m.id,
        total_commitments: m.total_commitments,
        total_reveals: m.total_reveals,
        participation_rate: participation_spec(m.total_reveals, m.total_commitments),
        confidence_score: match m.confidence_score {
            Some(c) => c,
            None => 0,
        },
        status: m.status,
    }
}

/// Far-off voting deadline given to markets opened on request.
pub const FAR_FUTURE: u64 = 0x7fff_ffff_ffff_ffff;

impl OracleCoordinatorState {
    /// Answers a market query.
    pub fn market_response(&self, market_id: u64) -> (r: CoordinatorResponse)
        requires
            self.wf(),
        ensures
            market_response_post(*self, market_id, r),
    {
        match self.get_market(market_id) {
            Some(m) => CoordinatorResponse::Market(m),
            None => CoordinatorResponse::Error { error_code: ERR_MARKET_NOT_FOUND },
        }
    }

    /// Answers a voter query.
    pub fn voter_response(&self, voter_chain: ChainId) -> (r: CoordinatorResponse)
        requires
            self.wf(),
        ensures
            voter_response_post(*self, voter_chain, r),
    {
        match self.get_voter_info(voter_chain) {
            Some(v) => CoordinatorResponse::VoterInfo(v),
            None => CoordinatorResponse::Error { error_code: ERR_VOTER_NOT_FOUND },
        }
    }

    /// Participation figures of a market.
    pub fn get_market_stats(&self, market_id: u64) -> (r: CoordinatorResponse)
        requires
            self.wf(),
        ensures
            get_market_stats_post(*self, market_id, r),
    {
        if market_id >= self.markets.len() as u64 {
            return CoordinatorResponse::Error { error_code: ERR_MARKET_NOT_FOUND };
        }
        let m = &self.markets[market_id as usize];
        let rate: u8 = if m.total_commitments == 0 {
            0
        } else {
            let pct = (m.total_reveals as u64) * 100 / (m.total_commitments as u64);
            if pct > 255 {
                255
            } else {
                pct as u8
            }
        };
        let confidence_score = match m.confidence_score {
            Some(c) => c,
            None => 0,
        };
        CoordinatorResponse::MarketStats(
            MarketStats {
                market_id,
                total_commitments: m.total_commitments,
                total_reveals: m.total_reveals,
                participation_rate: rate,
                confidence_score,
                status: m.status,
            },
        )
    }

    /// Answers a market's request for the outcome of `market_id`: the
    /// resolution is sent back once the market is resolved, nothing before.
    pub fn handle_resolution_request(&self, ctx: &Context, market_id: u64, requester: ChainId) -> (r:
        Vec<Outgoing>)
        requires
            self.wf(),
        ensures
            handle_resolution_request_post(*self, *ctx, market_id, requester, r),
    {
        let mut msgs: Vec<Outgoing> = Vec::new();
        if market_id >= self.markets.len() as u64 {
            return msgs;
        }
        let m = &self.markets[market_id as usize];
        if m.status == MarketStatus::Resolved {
            if let Some(outcome) = m.winning_outcome {
                let confidence = match m.confidence_score {
                    Some(c) => c,
                    None => 0,
                };
                msgs.push(
                    Outgoing {
                        destination: requester,
                        message: Message::MarketResolved {
                            market_id,
                            outcome,
                            confidence,
                            timestamp: ctx.now,
                        },
                    },
                );
            }
        }
        assert(msgs@ =~= seq![] || msgs@.len() == 1);
        msgs
    }

    /// Handles a market's request to resolve a question: a market that
    /// already exists is left alone; otherwise a market is opened with
    /// trading over, a far-off voting deadline and a minimum of one voter,
    /// and voting is started on `market_id`. Markets need at least three
    /// voters, so the opening is refused and nothing changes.
    pub fn handle_market_resolution_request(
        &mut self,
        ctx: &Context,
        market_id: u64,
        question: String,
        outcomes: Vec<String>,
    ) -> (r: Vec<Outgoing>)
        requires
            old(self).wf(),
        ensures
            final(self).wf(),
            handle_market_resolution_request_post(
                *old(self),
                *final(self),
                *ctx,
                market_id,
                question,
                outcomes,
                r,
            ),
    {
        if market_id < self.markets.len() as u64 {
            return Vec::new();
        }
        let _ = self.create_market(
            ctx,
            question,
            outcomes,
            ctx.now,
            FAR_FUTURE,
            1,
            "oracle".to_owned(),
        );
        let (_, msgs) = self.start_voting(ctx, market_id);
        msgs
    }
}

/// The coordinator: its state, kept well formed, and the entry points for
/// operations and messages.
pub struct OracleCoordinatorContract {
    state: OracleCoordinatorState,
}

impl OracleCoordinatorContract {
    /// The coordinator's state.
    pub closed spec fn spec_state(&self) -> OracleCoordinatorState {
        self.state
    }

    /// A coordinator with no markets and no voters.
    pub fn new(params: crate::types::Parameters) -> (r: Self)
        requires
            params.slash_percentage <= 100,
        ensures
            r.spec_state().wf(),
            r.spec_state().params == params,
            r.spec_state().markets@.len() == 0,
            r.spec_state().voters@.len() == 0,
    {
        OracleCoordinatorContract { state: OracleCoordinatorState::new(params) }
    }

    /// Read access to the state.
    pub fn state(&self) -> (r: &OracleCoordinatorState)
        ensures
            *r == self.spec_state(),
    {
        &self.state
    }

    /// Runs a privileged operation.
    pub fn execute_operation(&mut self, ctx: &Context, operation: CoordinatorOperation) -> (r: (
        CoordinatorResponse,
        Vec<Outgoing>,
    ))
        requires
            old(self).spec_state().wf(),
        ensures
            final(self).spec_state().wf(),
            markets_advance(old(self).spec_state().markets@, final(self).spec_state().markets@),
            operation_post(old(self).spec_state(), final(self).spec_state(), *ctx, operation, r),
    {
        match operation {
            CoordinatorOperation::CreateMarket {
                question,
                outcomes,
                trading_deadline,
                voting_deadline,
                min_voters,
                category,
            } => {
                let r = self.state.create_market(
                    ctx,
                    question,
                    outcomes,
                    trading_deadline,
                    voting_deadline,
                    min_voters,
                    category,
                );
                (r, Vec::new())
            },
            CoordinatorOperation::RegisterVoter { voter_chain, initial_stake } => {
                let r = self.state.register(ctx, voter_chain, initial_stake);
                (r, Vec::new())
            },
            CoordinatorOperation::StartVoting { market_id } => self.state.start_voting(ctx, market_id),
            CoordinatorOperation::AggregateVotes { market_id } => self.state.aggregate_votes(
                ctx,
                market_id,
            ),
            CoordinatorOperation::GetMarket { market_id } => (
                self.state.market_response(market_id),
                Vec::new(),
            ),
            CoordinatorOperation::GetActiveMarkets => (
                CoordinatorResponse::ActiveMarkets(self.state.get_active_markets()),
                Vec::new(),
            ),
            CoordinatorOperation::GetVoterInfo { voter_chain } => (
                self.state.voter_response(voter_chain),
                Vec::new(),
            ),
            CoordinatorOperation::GetMarketStats { market_id } => (
                self.state.get_market_stats(market_id),
                Vec::new(),
            ),
        }
    }

    /// Handles a message from another chain; messages meant for other
    /// chains are ignored.
    pub fn execute_message(&mut self, ctx: &Context, message: Message) -> (r: Vec<Outgoing>)
        requires
            old(self).spec_state().wf(),
        ensures
            final(self).spec_state().wf(),
            markets_advance(old(self).spec_state().markets@, final(self).spec_state().markets@),
            message_post(old(self).spec_state(), final(self).spec_state(), *ctx, message, r),
    {
        match message {
            Message::VoteCommitment {
                voter_chain,
                market_id,
                commitment_hash,
                voting_power,
                stake_amount,
            } => {
                self.state.handle_commitment(
                    ctx,
                    voter_chain,
                    market_id,
                    commitment_hash,
                    voting_power,
                    stake_amount,
                );
                Vec::new()
            },
            Message::VoteReveal { voter_chain, market_id, outcome_index, salt, confidence } => {
                self.state.handle_reveal(ctx, voter_chain, market_id, outcome_index, salt, confidence);
                Vec::new()
            },
            Message::MarketResolutionRequest { market_id, requester } => {
                self.state.handle_resolution_request(ctx, market_id, requester)
            },
            Message::ResolutionRequest { market_id, question, outcomes } => {
                self.state.handle_market_resolution_request(ctx, market_id, question, outcomes)
            },
            Message::DirectVote { voter_chain, market_id, outcome_index, confidence, voting_power } => {
                self.state.handle_direct_vote(
                    ctx,
                    voter_chain,
                    market_id,
                    outcome_index,
                    confidence,
                    voting_power,
                );
                Vec::new()
            },
            _ => Vec::new(),
        }
    }
}

/// What `create_market` does: the state before and after, and its result.
pub open spec fn create_market_post(
    before: OracleCoordinatorState,
    after: OracleCoordinatorState,
    ctx: Context,
    question: String,
    outcomes: Vec<String>,
    trading_deadline: Timestamp,
    voting_deadline: Timestamp,
    min_voters: u32,
    category: String,
    r: CoordinatorResponse,
) -> bool {
    &&& (match create_error(outcomes@.len(), trading_deadline, voting_deadline, min_voters) {
        Some(code) => r == CoordinatorResponse::Error { error_code: code } && after
            == before,
        None => if before.next_market_id == u64::MAX {
            r == CoordinatorResponse::Error { error_code: ERR_UNKNOWN } && after
                == before
        } else {
            &&& r == CoordinatorResponse::MarketCreated {
                market_id: before.next_market_id,
                question_length: capped_u32(byte_len(question)),
            }
            &&& after.markets@ == before.markets@.push(
                Market {
                    id: before.next_market_id,
                    question,
                    outcomes,
                    creator: ctx.signer,
                    created_at: ctx.now,
                    trading_deadline,
                    voting_deadline,
                    min_voters,
                    category,
                    status: MarketStatus::Active,
                    winning_outcome: None,
                    confidence_score: None,
                    total_commitments: 0,
                    total_reveals: 0,
                },
            )
            &&& after == (OracleCoordinatorState {
                markets: after.markets,
                next_market_id: (before.next_market_id + 1) as u64,
                total_markets_created: sat_inc64(before.total_markets_created),
                ..before
            })
        },
    })
}

/// What `register` does: the state before and after, and its result.
pub open spec fn register_post(
    before: OracleCoordinatorState,
    after: OracleCoordinatorState,
    ctx: Context,
    voter_chain: ChainId,
    initial_stake: Amount,
    r: CoordinatorResponse,
) -> bool {
    &&& (if initial_stake < before.params.min_stake {
        r == CoordinatorResponse::Error { error_code: ERR_INSUFFICIENT_STAKE } && after == before
    } else if is_registered(before.voters@, voter_chain) {
        r == CoordinatorResponse::Error { error_code: ERR_DUPLICATE_VOTER } && after
            == before
    } else {
        &&& r == CoordinatorResponse::VoterRegistered {
            voter_chain,
            initial_reputation: INITIAL_REPUTATION,
        }
        &&& after.voters@ == before.voters@.push(
            new_voter(voter_chain, initial_stake, ctx.now),
        )
        &&& after == (OracleCoordinatorState {
            voters: after.voters,
            ..before
        })
    })
}

/// What `start_voting` does: the state before and after, and its result.
pub open spec fn start_voting_post(
    before: OracleCoordinatorState,
    after: OracleCoordinatorState,
    ctx: Context,
    market_id: u64,
    r: (CoordinatorResponse, Vec<Outgoing>),
) -> bool {
    &&& (if market_id >= before.markets@.len() {
        r.0 == CoordinatorResponse::Error { error_code: ERR_MARKET_NOT_FOUND } && after == before && r.1@.len() == 0
    } else if before.markets@[market_id as int].status != MarketStatus::Active {
        r.0 == CoordinatorResponse::Error { error_code: ERR_MARKET_NOT_ACTIVE } && after == before && r.1@.len() == 0
    } else if ctx.now < before.markets@[market_id as int].trading_deadline {
        r.0 == CoordinatorResponse::Error { error_code: ERR_TRADING_DEADLINE_NOT_REACHED }
            && after == before && r.1@.len() == 0
    } else {
        &&& r.0 == CoordinatorResponse::VotingStarted {
            market_id,
            total_voters_notified: capped_u32(before.voters@.len()),
        }
        &&& after.markets@ == before.markets@.update(
            market_id as int,
            Market {
                status: MarketStatus::VotingStarted,
                ..before.markets@[market_id as int]
            },
        )
        &&& after == (OracleCoordinatorState {
            markets: after.markets,
            ..before
        })
        &&& r.1@.len() == before.voters@.len()
        &&& forall|i: int|
            0 <= i < r.1@.len() ==> is_voting_request(
                #[trigger] r.1@[i],
                before.voters@[i].chain_id,
                before.markets@[market_id as int],
            )
    })
}

/// What `handle_commitment` does: the state before and after, and its result.
pub open spec fn handle_commitment_post(
    before: OracleCoordinatorState,
    after: OracleCoordinatorState,
    ctx: Context,
    voter_chain: ChainId,
    market_id: u64,
    commitment_hash: [u8; 32],
    voting_power: u64,
    stake_amount: Amount,
) -> bool {
    &&& (if !is_registered(before.voters@, voter_chain) || market_id >= before.markets@.len()
        || !(before.markets@[market_id as int].status == MarketStatus::VotingStarted
        || before.markets@[market_id as int].status == MarketStatus::CommitPhase)
        || commitment_map(before.commitments@).contains_key((market_id, voter_chain)) {
        after == before
    } else {
        let m = before.markets@[market_id as int];
        &&& after.markets@ == before.markets@.update(
            market_id as int,
            Market {
                status: MarketStatus::CommitPhase,
                total_commitments: if m.status == MarketStatus::VotingStarted {
                    1
                } else {
                    sat_inc32(m.total_commitments)
                },
                ..m
            },
        )
        &&& after.commitments@ == before.commitments@.push(
            VoteCommitment {
                voter_chain,
                market_id,
                commitment_hash,
                voting_power,
                stake_amount,
                committed_at: ctx.now,
            },
        )
        &&& after.voters@ == changed_voter(
            before.voters@,
            voter_chain,
            LedgerChange::Lock(stake_amount),
        )
        &&& after == (OracleCoordinatorState {
            markets: after.markets,
            commitments: after.commitments,
            voters: after.voters,
            ..before
        })
    })
}

/// What `handle_reveal` does: the state before and after, and its result.
pub open spec fn handle_reveal_post(
    before: OracleCoordinatorState,
    after: OracleCoordinatorState,
    ctx: Context,
    voter_chain: ChainId,
    market_id: u64,
    outcome_index: usize,
    salt: [u8; 32],
    confidence: u8,
) -> bool {
    &&& (({
        let cm = commitment_map(before.commitments@);
        let key = (market_id, voter_chain);
        if !cm.contains_key(key) || has_revealed(before.reveals@, market_id, voter_chain)
            || is_forfeited(before.forfeited@, market_id, voter_chain) {
            after == before
        } else if !opens(cm[key].commitment_hash@, outcome_index as u64, salt@) {
            &&& after.voters@ == changed_voter(
                before.voters@,
                voter_chain,
                LedgerChange::Slash(cm[key].stake_amount),
            )
            &&& after.forfeited@ == before.forfeited@.push(key)
            &&& after == (OracleCoordinatorState {
                voters: after.voters,
                forfeited: after.forfeited,
                ..before
            })
        } else if market_id >= before.markets@.len() || !crate::types::in_voting_phase(
            before.markets@[market_id as int].status,
        ) || outcome_index >= before.markets@[market_id as int].outcomes@.len() {
            after == before
        } else {
            let m = before.markets@[market_id as int];
            &&& after.reveals@ == before.reveals@.push(
                VoteReveal {
                    voter_chain,
                    market_id,
                    outcome_index,
                    salt,
                    confidence,
                    voting_power: cm[key].voting_power,
                    revealed_at: ctx.now,
                },
            )
            &&& after.markets@ == before.markets@.update(
                market_id as int,
                Market {
                    status: if m.status == MarketStatus::CommitPhase {
                        MarketStatus::RevealPhase
                    } else {
                        m.status
                    },
                    total_reveals: sat_inc32(m.total_reveals),
                    ..m
                },
            )
            &&& after == (OracleCoordinatorState {
                reveals: after.reveals,
                markets: after.markets,
                ..before
            })
        }
    }))
}

/// What `handle_direct_vote` does: the state before and after, and its result.
pub open spec fn handle_direct_vote_post(
    before: OracleCoordinatorState,
    after: OracleCoordinatorState,
    ctx: Context,
    voter_chain: ChainId,
    market_id: u64,
    outcome_index: usize,
    confidence: u8,
    voting_power: u64,
) -> bool {
    &&& (if !is_registered(before.voters@, voter_chain) || market_id >= before.markets@.len()
        || !crate::types::in_voting_phase(before.markets@[market_id as int].status)
        || outcome_index >= before.markets@[market_id as int].outcomes@.len()
        || has_revealed(before.reveals@, market_id, voter_chain) {
        after == before
    } else {
        let m = before.markets@[market_id as int];
        &&& after.reveals@.drop_last() == before.reveals@
        &&& after.reveals@.len() == before.reveals@.len() + 1
        &&& is_direct_reveal(
            after.reveals@.last(),
            voter_chain,
            market_id,
            outcome_index,
            confidence,
            voting_power,
            ctx.now,
        )
        &&& after.markets@ == before.markets@.update(
            market_id as int,
            Market { total_reveals: sat_inc32(m.total_reveals), ..m },
        )
        &&& after == (OracleCoordinatorState {
            reveals: after.reveals,
            markets: after.markets,
            ..before
        })
    })
}

/// What `aggregate_votes` does: the state before and after, and its result.
pub open spec fn aggregate_votes_post(
    before: OracleCoordinatorState,
    after: OracleCoordinatorState,
    ctx: Context,
    market_id: u64,
    r: (CoordinatorResponse, Vec<Outgoing>),
) -> bool {
    &&& (({
        let m = before.markets@[market_id as int];
        let rs = reveals_of(before.reveals@, market_id);
        let w = winner(rs);
        let conf = confidence_spec(outcome_weight(rs, w), total_weight(rs));
        let cm = commitment_map(before.commitments@);
        let pct = before.params.slash_percentage;
        if market_id >= before.markets@.len() {
            r.0 == CoordinatorResponse::Error { error_code: ERR_MARKET_NOT_FOUND } && after
                == before && r.1@.len() == 0
        } else if m.status == MarketStatus::Resolved || m.status == MarketStatus::Disputed || (
        m.status != MarketStatus::RevealPhase && m.total_reveals == 0) {
            r.0 == CoordinatorResponse::Error { error_code: ERR_NOT_IN_REVEAL_PHASE }
                && after == before && r.1@.len() == 0
        } else if m.total_reveals < m.min_voters {
            r.0 == CoordinatorResponse::Error { error_code: ERR_INSUFFICIENT_REVEALS }
                && after == before && r.1@.len() == 0
        } else if ctx.now < m.voting_deadline {
            r.0 == CoordinatorResponse::Error { error_code: ERR_VOTING_DEADLINE_NOT_REACHED }
                && after == before && r.1@.len() == 0
        } else if rs.len() > u32::MAX {
            r.0 == CoordinatorResponse::Error { error_code: ERR_UNKNOWN } && after
                == before && r.1@.len() == 0
        } else {
            &&& r.0 == CoordinatorResponse::MarketResolved {
                market_id,
                winning_outcome: w,
                confidence: conf,
                total_voters: rs.len() as u32,
            }
            &&& after.markets@ == before.markets@.update(
                market_id as int,
                Market {
                    status: MarketStatus::Resolved,
                    winning_outcome: Some(w),
                    confidence_score: Some(conf),
                    ..m
                },
            )
            &&& after.voters@ == settle_pass(
                settle_pass(
                    reputation_pass(before.voters@, rs, w),
                    rs,
                    w,
                    cm,
                    market_id,
                    pct,
                    true,
                ),
                rs,
                w,
                cm,
                market_id,
                pct,
                false,
            )
            &&& after == (OracleCoordinatorState {
                markets: after.markets,
                voters: after.voters,
                total_markets_resolved: sat_inc64(before.total_markets_resolved),
                ..before
            })
            &&& r.1@ == reward_messages(rs, w, winners_power(rs, w) as u128, market_id).push(
                Outgoing {
                    destination: ctx.chain_id,
                    message: Message::MarketResolved {
                        market_id,
                        outcome: w,
                        confidence: conf,
                        timestamp: ctx.now,
                    },
                },
            )
        }
    }))
}

/// What `market_response` does: the state before and after, and its result.
pub open spec fn market_response_post(
    s: OracleCoordinatorState,
    market_id: u64,
    r: CoordinatorResponse,
) -> bool {
    &&& (market_id >= s.markets@.len() ==> (r == CoordinatorResponse::Error {
        error_code: ERR_MARKET_NOT_FOUND,
    }))
    &&& (market_id < s.markets@.len() ==> (r matches CoordinatorResponse::Market(m)
        && same_market(m, s.markets@[market_id as int])))
}

/// What `voter_response` does: the state before and after, and its result.
pub open spec fn voter_response_post(
    s: OracleCoordinatorState,
    voter_chain: ChainId,
    r: CoordinatorResponse,
) -> bool {
    &&& (!is_registered(s.voters@, voter_chain) ==> (r == CoordinatorResponse::Error {
        error_code: ERR_VOTER_NOT_FOUND,
    }))
    &&& (is_registered(s.voters@, voter_chain) ==> (r matches CoordinatorResponse::VoterInfo(v)
        && v.chain_id == voter_chain && s.voters@.contains(v)))
}

/// What `get_market_stats` does: the state before and after, and its result.
pub open spec fn get_market_stats_post(
    s: OracleCoordinatorState,
    market_id: u64,
    r: CoordinatorResponse,
) -> bool {
    &&& (market_id >= s.markets@.len() ==> (r == CoordinatorResponse::Error {
        error_code: ERR_MARKET_NOT_FOUND,
    }))
    &&& (market_id < s.markets@.len() ==> (r == CoordinatorResponse::MarketStats(
        stats_of(s.markets@[market_id as int]),
    )))
}

/// What `handle_resolution_request` does: the state before and after, and its result.
pub open spec fn handle_resolution_request_post(
    s: OracleCoordinatorState,
    ctx: Context,
    market_id: u64,
    requester: ChainId,
    r: Vec<Outgoing>,
) -> bool {
    &&& (if market_id < s.markets@.len() && s.markets@[market_id as int].status
        == MarketStatus::Resolved {
        let m = s.markets@[market_id as int];
        r@ == seq![
            Outgoing {
                destination: requester,
                message: Message::MarketResolved {
                    market_id,
                    outcome: m.winning_outcome->Some_0,
                    confidence: m.confidence_score->Some_0,
                    timestamp: ctx.now,
                },
            },
        ]
    } else {
        r@.len() == 0
    })
}

/// What `handle_market_resolution_request` does: the state before and after, and its result.
pub open spec fn handle_market_resolution_request_post(
    before: OracleCoordinatorState,
    after: OracleCoordinatorState,
    ctx: Context,
    market_id: u64,
    question: String,
    outcomes: Vec<String>,
    r: Vec<Outgoing>,
) -> bool {
    &&& (after == before)
    &&& (r@.len() == 0)
}


/// The answer to a query for the active markets: copies of the markets that
/// are neither resolved nor disputed, in id order.
pub open spec fn active_markets_post(s: OracleCoordinatorState, r: CoordinatorResponse) -> bool {
    match r {
        CoordinatorResponse::ActiveMarkets(v) => {
            let active = s.markets@.filter(|m: Market| crate::state::is_active_market(m));
            &&& v@.len() == active.len()
            &&& forall|i: int| 0 <= i < v@.len() ==> same_market(#[trigger] v@[i], active[i])
        },
        _ => false,
    }
}

/// What an operation does: that of its handler; queries change nothing and
/// no operation but starting and aggregating sends messages.
pub open spec fn operation_post(
    before: OracleCoordinatorState,
    after: OracleCoordinatorState,
    ctx: Context,
    operation: CoordinatorOperation,
    r: (CoordinatorResponse, Vec<Outgoing>),
) -> bool {
    match operation {
        CoordinatorOperation::CreateMarket {
            question,
            outcomes,
            trading_deadline,
            voting_deadline,
            min_voters,
            category,
        } => create_market_post(
            before,
            after,
            ctx,
            question,
            outcomes,
            trading_deadline,
            voting_deadline,
            min_voters,
            category,
            r.0,
        ) && r.1@.len() == 0,
        CoordinatorOperation::RegisterVoter { voter_chain, initial_stake } => register_post(
            before,
            after,
            ctx,
            voter_chain,
            initial_stake,
            r.0,
        ) && r.1@.len() == 0,
        CoordinatorOperation::StartVoting { market_id } => start_voting_post(
            before,
            after,
            ctx,
            market_id,
            r,
        ),
        CoordinatorOperation::AggregateVotes { market_id } => aggregate_votes_post(
            before,
            after,
            ctx,
            market_id,
            r,
        ),
        CoordinatorOperation::GetMarket { market_id } => after == before && market_response_post(
            before,
            market_id,
            r.0,
        ) && r.1@.len() == 0,
        CoordinatorOperation::GetActiveMarkets => after == before && active_markets_post(
            before,
            r.0,
        ) && r.1@.len() == 0,
        CoordinatorOperation::GetVoterInfo { voter_chain } => after == before
            && voter_response_post(before, voter_chain, r.0) && r.1@.len() == 0,
        CoordinatorOperation::GetMarketStats { market_id } => after == before
            && get_market_stats_post(before, market_id, r.0) && r.1@.len() == 0,
    }
}

/// What a message does: that of its handler; messages meant for other
/// chains change nothing and send nothing.
pub open spec fn message_post(
    before: OracleCoordinatorState,
    after: OracleCoordinatorState,
    ctx: Context,
    message: Message,
    r: Vec<Outgoing>,
) -> bool {
    match message {
        Message::VoteCommitment {
            voter_chain,
            market_id,
            commitment_hash,
            voting_power,
            stake_amount,
        } => handle_commitment_post(
            before,
            after,
            ctx,
            voter_chain,
            market_id,
            commitment_hash,
            voting_power,
            stake_amount,
        ) && r@.len() == 0,
        Message::VoteReveal { voter_chain, market_id, outcome_index, salt, confidence } =>
            handle_reveal_post(
            before,
            after,
            ctx,
            voter_chain,
            market_id,
            outcome_index,
            salt,
            confidence,
        ) && r@.len() == 0,
        Message::MarketResolutionRequest { market_id, requester } => after == before
            && handle_resolution_request_post(before, ctx, market_id, requester, r),
        Message::ResolutionRequest { market_id, question, outcomes } =>
            handle_market_resolution_request_post(
            before,
            after,
            ctx,
            market_id,
            question,
            outcomes,
            r,
        ),
        Message::DirectVote { voter_chain, market_id, outcome_index, confidence, voting_power } =>
            handle_direct_vote_post(
            before,
            after,
            ctx,
            voter_chain,
            market_id,
            outcome_index,
            confidence,
            voting_power,
        ) && r@.len() == 0,
        _ => after == before && r@.len() == 0,
    }
}

/// A vote delivered twice counts once: after a commitment, a reveal or a
/// direct vote has been handled, handling the same message again, at any
/// time, changes nothing and sends nothing.
pub proof fn lemma_duplicate_message(
    s0: OracleCoordinatorState,
    s1: OracleCoordinatorState,
    s2: OracleCoordinatorState,
    ctx1: Context,
    ctx2: Context,
    message: Message,
    r1: Vec<Outgoing>,
    r2: Vec<Outgoing>,
)
    requires
        s0.wf(),
        message is VoteCommitment || message is VoteReveal || message is DirectVote,
        message_post(s0, s1, ctx1, message, r1),
        message_post(s1, s2, ctx2, message, r2),
    ensures
        s2 == s1,
        r2@.len() == 0,
{
    match message {
        Message::VoteCommitment { voter_chain, market_id, .. } => {
            if s1 != s0 {
                assert(s1.commitments@.drop_last() =~= s0.commitments@);
                assert(commitment_map(s1.commitments@).contains_key((market_id, voter_chain)));
            }
        },
        Message::VoteReveal { voter_chain, market_id, .. } => {
            if s1 != s0 {
                if s1.forfeited != s0.forfeited {
                    assert(s1.forfeited@.last() == (market_id, voter_chain));
                    assert(is_forfeited(s1.forfeited@, market_id, voter_chain));
                } else {
                    let k = s1.reveals@.len() - 1;
                    assert(s1.reveals@[k].market_id == market_id && s1.reveals@[k].voter_chain
                        == voter_chain);
                    assert(has_revealed(s1.reveals@, market_id, voter_chain));
                }
            }
        },
        Message::DirectVote { voter_chain, market_id, .. } => {
            if s1 != s0 {
                let k = s1.reveals@.len() - 1;
                assert(has_revealed(s1.reveals@, market_id, voter_chain));
            }
        },
        _ => {},
    }
}

} // verus!
