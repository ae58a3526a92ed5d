//! A voter agent's handlers: sealing, opening and submitting votes, its
//! stake, and the coordinator's requests, reputation updates and rewards.
use vstd::prelude::*;

use crate::hash::{digest, le_byte, opens, preimage};
use crate::types::{AccountOwner, Amount, ChainId, Context, Timestamp};
use crate::voter::{
    CommitmentInfo, InitialState, Message, VoteCommitment, VoterOperation, VoterOutgoing,
    VoterResponse, VoteRecord as ReportedVote,
};
use crate::voter_state::{
    find_key, keyed_map, reputation_after_correct, reputation_after_incorrect, VoteRecord,
    VoterState, VotingRequest,
};

verus! {

/// Confidence a voter attaches to its own votes.
pub const OWN_CONFIDENCE: u8 = 95;

/// Voting power a voter declares with a commitment.
pub const DECLARED_POWER: u64 = 100;

/// Market id answered for a vote on an outcome other than 0 or 1.
pub const REJECTED_MARKET: u64 = 999;

/// The salt for `market_id`: the market id as eight little-endian bytes,
/// then up to 16 bytes of the voter's identity, then zeros.
pub open spec fn salt_spec(market_id: u64, id_bytes: Seq<u8>) -> Seq<u8> {
    Seq::new(
        32,
        |i: int|
            if i < 8 {
                le_byte(market_id, i)
            } else if i < 8 + id_bytes.len() && i < 24 {
                id_bytes[i - 8]
            } else {
                0u8
            },
    )
}

/// Voting power a voter declares with an open vote: its stake when that
/// fits in 64 bits, else 100.
pub open spec fn direct_power(stake: Amount) -> u64 {
    if stake <= u64::MAX {
        stake as u64
    } else {
        DECLARED_POWER
    }
}

/// The messages sent to the coordinator, if the voter knows its chain.
pub open spec fn to_oracle(oracle_chain: Option<ChainId>, message: Message) -> Seq<VoterOutgoing> {
    match oracle_chain {
        Some(c) => seq![VoterOutgoing { destination: c, message }],
        None => Seq::empty(),
    }
}

/// A voter agent: its state, the owner it falls back on when an operation
/// has no signer, and the bytes of its identity that salts are made from.
pub struct VoterChainContract {
    pub state: VoterState,
    pub app_owner: AccountOwner,
    pub app_id_bytes: Vec<u8>,
}

impl VoterChainContract {
    /// A fresh agent.
    pub fn new(app_owner: AccountOwner, app_id_bytes: Vec<u8>) -> (r: Self)
        ensures
            r.state.wf(),
            r.state.owner is None,
            r.app_owner == app_owner,
            r.app_id_bytes@ == app_id_bytes@,
    {
        VoterChainContract { state: VoterState::new(), app_owner, app_id_bytes }
    }

    /// The digest of `data`.
    pub fn simple_hash(data: &[u8]) -> (r: [u8; 32])
        ensures
            r@ == digest(data@),
    {
        crate::hash::simple_hash(data)
    }

    /// Whether `commitment_hash` opens to `outcome_index` under `salt`.
    pub fn verify_commitment(commitment_hash: &[u8; 32], outcome_index: usize, salt: &[u8; 32]) -> (r:
        bool)
        ensures
            r == opens(commitment_hash@, outcome_index as u64, salt@),
    {
        crate::hash::verify_commitment(commitment_hash, outcome_index, salt)
    }

    /// The salt this voter uses on `market_id`.
    pub fn generate_salt_for_market(&self, market_id: u64) -> (r: [u8; 32])
        ensures
            r@ == salt_spec(market_id, self.app_id_bytes@),
    {
        let mut salt = [0u8; 32];
        let mut k: usize = 0;
        while k < 8
            invariant
                k <= 8,
                salt@.len() == 32,
                forall|j: int| 0 <= j < k ==> #[trigger] salt@[j] == le_byte(market_id, j),
                forall|j: int| 8 <= j < 32 ==> #[trigger] salt@[j] == 0u8,
            decreases 8 - k,
        {
            let sh = (8 * k) as u64;
            proof {
                assert((market_id >> sh) & 0xff <= 0xff) by (bit_vector);
            }
            salt[k] = ((market_id >> sh) & 0xff) as u8;
            k = k + 1;
        }
        let n = self.app_id_bytes.len();
        let mix: usize = if n < 16 {
            n
        } else {
            16
        };
        let mut i: usize = 0;
        while i < mix
            invariant
                mix <= 16,
                mix <= self.app_id_bytes@.len(),
                mix == n || mix == 16,
                n == self.app_id_bytes@.len(),
                i <= mix,
                salt@.len() == 32,
                forall|j: int| 0 <= j < 8 ==> #[trigger] salt@[j] == le_byte(market_id, j),
                forall|j: int| 8 <= j < 8 + i ==> #[trigger] salt@[j] == self.app_id_bytes@[j - 8],
                forall|j: int| 8 + i <= j < 32 ==> #[trigger] salt@[j] == 0u8,
            decreases mix - i,
        {
            salt[8 + i] = self.app_id_bytes[i];
            i = i + 1;
        }
        assert(salt@ =~= salt_spec(market_id, self.app_id_bytes@));
        salt
    }

    /// The owner of new state: the signer, or else the agent's own owner.
    fn owner_for(&self, ctx: &Context) -> (r: AccountOwner)
        ensures
            r == match ctx.signer {
                Some(o) => o,
                None => self.app_owner,
            },
    {
        match ctx.signer {
            Some(o) => o,
            None => self.app_owner,
        }
    }

    /// Sets the agent up from its initial state.
    pub fn instantiate(&mut self, ctx: &Context, initial_state: InitialState)
        requires
            old(self).state.wf(),
        ensures
            final(self).state.wf(),
            final(self).app_owner == old(self).app_owner,
            final(self).app_id_bytes == old(self).app_id_bytes,
            final(self).state == (VoterState {
                owner: Some(
                    match ctx.signer {
                        Some(o) => o,
                        None => old(self).app_owner,
                    },
                ),
                oracle_chain: initial_state.oracle_chain,
                total_stake: initial_state.initial_stake,
                reputation: crate::voter::fresh_reputation(),
                ..old(self).state
            }),
    {
        let owner = self.owner_for(ctx);
        self.state.initialize(owner, initial_state.oracle_chain, initial_state.initial_stake);
    }

    /// Joins the coordinator on `oracle_chain` with `stake`.
    pub fn initialize_voter(&mut self, ctx: &Context, oracle_chain: ChainId, stake: Amount) -> (r:
        VoterResponse)
        requires
            old(self).state.wf(),
        ensures
            final(self).state.wf(),
            initialize_voter_post(*old(self), *final(self), *ctx, oracle_chain, stake, r),
    {
        let owner = self.owner_for(ctx);
        self.state.initialize(owner, Some(oracle_chain), stake);
        VoterResponse::Initialized
    }

    /// Seals a vote for outcome 0 or 1 on `market_id`: the commitment is kept
    /// with its outcome and salt, and only its digest goes to the
    /// coordinator, with a declared power of 100 and the voter's stake. Any
    /// other outcome is refused with market id 999 and an all-zero digest.
    pub fn commit_vote(&mut self, ctx: &Context, market_id: u64, outcome_index: usize) -> (r: (
        VoterResponse,
        Vec<VoterOutgoing>,
    ))
        requires
            old(self).state.wf(),
        ensures
            final(self).state.wf(),
            commit_vote_post(*old(self), *final(self), *ctx, market_id, outcome_index, r),
    {
        let mut msgs: Vec<VoterOutgoing> = Vec::new();
        if outcome_index > 1 {
            let zero = [0u8; 32];
            assert(zero@ =~= Seq::new(32, |i: int| 0u8));
            return (
                VoterResponse::CommitmentSubmitted { market_id: REJECTED_MARKET, commitment_hash: zero },
                msgs,
            );
        }
        let salt = self.generate_salt_for_market(market_id);
        let commitment_hash = crate::hash::commitment_hash(outcome_index, &salt);
        let commitment = VoteCommitment {
            market_id,
            commitment_hash,
            outcome_index,
            salt,
            committed_at: ctx.now,
        };
        self.state.add_commitment(commitment);
        if let Some(oracle_chain) = self.state.oracle_chain {
            msgs.push(
                VoterOutgoing {
                    destination: oracle_chain,
                    message: Message::VoteCommitmentToOracle {
                        commitment_hash,
                        voting_power: DECLARED_POWER,
                        stake_amount: self.state.total_stake,
                    },
                },
            );
        }
        assert(msgs@ =~= to_oracle(
            old(self).state.oracle_chain,
            Message::VoteCommitmentToOracle {
                commitment_hash,
                voting_power: DECLARED_POWER,
                stake_amount: old(self).state.total_stake,
            },
        ));
        (VoterResponse::CommitmentSubmitted { market_id, commitment_hash }, msgs)
    }

    /// Opens the sealed vote on `market_id`: the vote is recorded with
    /// confidence 95, the market's request and commitment are dropped, and
    /// the outcome and salt go to the coordinator. Without a commitment the
    /// answer is outcome 0, not verified, and nothing changes.
    pub fn reveal_vote(&mut self, ctx: &Context, market_id: u64) -> (r: (
        VoterResponse,
        Vec<VoterOutgoing>,
    ))
        requires
            old(self).state.wf(),
        ensures
            final(self).state.wf(),
            reveal_vote_post(*old(self), *final(self), *ctx, market_id, r),
    {
        let mut msgs: Vec<VoterOutgoing> = Vec::new();
        let i = match find_key(&self.state.pending_commitments, market_id) {
            Some(i) => i,
            None => {
                return (
                    VoterResponse::VoteRevealed { market_id, outcome_index: 0, verified: false },
                    msgs,
                );
            },
        };
        let commitment = self.state.pending_commitments[i];
        proof {
            crate::voter_state::lemma_index_of(self.state.pending_commitments@, i as int);
        }
        let verified = crate::hash::verify_commitment(
            &commitment.commitment_hash,
            commitment.outcome_index,
            &commitment.salt,
        );
        if !verified {
            return (
                VoterResponse::VoteRevealed {
                    market_id,
                    outcome_index: commitment.outcome_index,
                    verified: false,
                },
                msgs,
            );
        }
        let record = VoteRecord {
            market_id,
            outcome_index: commitment.outcome_index,
            confidence: OWN_CONFIDENCE,
            timestamp: ctx.now,
            was_correct: None,
            reward_received: 0,
        };
        self.state.record_vote(market_id, record);
        if let Some(oracle_chain) = self.state.oracle_chain {
            msgs.push(
                VoterOutgoing {
                    destination: oracle_chain,
                    message: Message::VoteRevealToOracle {
                        outcome_index: commitment.outcome_index,
                        salt: commitment.salt,
                        confidence: OWN_CONFIDENCE,
                    },
                },
            );
        }
        assert(msgs@ =~= to_oracle(
            old(self).state.oracle_chain,
            Message::VoteRevealToOracle {
                outcome_index: commitment.outcome_index,
                salt: commitment.salt,
                confidence: OWN_CONFIDENCE,
            },
        ));
        (
            VoterResponse::VoteRevealed {
                market_id,
                outcome_index: commitment.outcome_index,
                verified,
            },
            msgs,
        )
    }

    /// Votes openly for outcome 0 or 1 on `market_id`: the vote is recorded
    /// with confidence 95 and counted in the reputation, and sent to the
    /// coordinator with the stake as voting power. Any other outcome is
    /// refused with market id 999 and outcome 0.
    pub fn submit_vote(&mut self, ctx: &Context, market_id: u64, outcome_index: usize) -> (r: (
        VoterResponse,
        Vec<VoterOutgoing>,
    ))
        requires
            old(self).state.wf(),
        ensures
            final(self).state.wf(),
            submit_vote_post(*old(self), *final(self), *ctx, market_id, outcome_index, r),
    {
        let mut msgs: Vec<VoterOutgoing> = Vec::new();
        if outcome_index > 1 {
            return (VoterResponse::VoteSubmitted { market_id: REJECTED_MARKET, outcome_index: 0 }, msgs);
        }
        let record = VoteRecord {
            market_id,
            outcome_index,
            confidence: OWN_CONFIDENCE,
            timestamp: ctx.now,
            was_correct: None,
            reward_received: 0,
        };
        self.state.record_vote(market_id, record);
        self.state.update_reputation_correct(OWN_CONFIDENCE);
        if let Some(oracle_chain) = self.state.oracle_chain {
            let stake = self.state.total_stake;
            let voting_power: u64 = if stake <= u64::MAX as u128 {
                stake as u64
            } else {
                DECLARED_POWER
            };
            msgs.push(
                VoterOutgoing {
                    destination: oracle_chain,
                    message: Message::DirectVote {
                        voter_chain: ctx.chain_id,
                        market_id,
                        outcome_index,
                        confidence: OWN_CONFIDENCE,
                        voting_power,
                    },
                },
            );
        }
        assert(msgs@ =~= to_oracle(
            old(self).state.oracle_chain,
            Message::DirectVote {
                voter_chain: ctx.chain_id,
                market_id,
                outcome_index,
                confidence: OWN_CONFIDENCE,
                voting_power: direct_power(old(self).state.total_stake),
            },
        ));
        (VoterResponse::VoteSubmitted { market_id, outcome_index }, msgs)
    }

    /// Adds `amount` to the stake and reports the new total.
    pub fn add_stake(&mut self, amount: Amount) -> (r: VoterResponse)
        requires
            old(self).state.wf(),
        ensures
            final(self).state.wf(),
            add_stake_post(*old(self), *final(self), amount, r),
    {
        self.state.add_stake(amount);
        VoterResponse::StakeAdded { new_total: self.state.total_stake }
    }

    /// Reports the voter's information, or `Initialized` before it has an
    /// owner.
    pub fn get_voter_info(&self) -> (r: VoterResponse)
        ensures
            get_voter_info_post(*self, r),
    {
        match self.state.get_voter_info_sync() {
            Some(info) => VoterResponse::VoterInfo(info),
            None => VoterResponse::Initialized,
        }
    }

    /// Reports the voting history, in recording order.
    pub fn get_vote_history(&self) -> (r: Vec<ReportedVote>)
        ensures
            get_vote_history_post(*self, r),
    {
        let mut out: Vec<ReportedVote> = Vec::new();
        let mut i: usize = 0;
        while i < self.state.vote_history.len()
            invariant
                i <= self.state.vote_history@.len(),
                out@.len() == i,
                forall|k: int|
                    0 <= k < i ==> #[trigger] out@[k] == (ReportedVote {
                        market_id: self.state.vote_history@[k].market_id,
                        outcome_index: self.state.vote_history@[k].outcome_index,
                        confidence: self.state.vote_history@[k].confidence,
                        timestamp: self.state.vote_history@[k].timestamp,
                        was_correct: self.state.vote_history@[k].was_correct,
                    }),
            decreases self.state.vote_history@.len() - i,
        {
            let rec = self.state.vote_history[i];
            out.push(
                ReportedVote {
                    market_id: rec.market_id,
                    outcome_index: rec.outcome_index,
                    confidence: rec.confidence,
                    timestamp: rec.timestamp,
                    was_correct: rec.was_correct,
                },
            );
            i = i + 1;
        }
        out
    }

    /// Reports the pending commitments, in the order they are kept.
    pub fn get_pending_commitments(&self) -> (r: Vec<CommitmentInfo>)
        ensures
            get_pending_commitments_post(*self, r),
    {
        let mut out: Vec<CommitmentInfo> = Vec::new();
        let mut i: usize = 0;
        while i < self.state.pending_commitments.len()
            invariant
                i <= self.state.pending_commitments@.len(),
                out@.len() == i,
                forall|k: int|
                    0 <= k < i ==> {
                        &&& (#[trigger] out@[k]).market_id
                            == self.state.pending_commitments@[k].market_id
                        &&& out@[k].commitment_hash
                            == self.state.pending_commitments@[k].commitment_hash
                        &&& out@[k].committed_at == self.state.pending_commitments@[k].committed_at
                        &&& out@[k].can_reveal
                    },
            decreases self.state.pending_commitments@.len() - i,
        {
            let c = self.state.pending_commitments[i];
            out.push(
                CommitmentInfo {
                    market_id: c.market_id,
                    commitment_hash: c.commitment_hash,
                    committed_at: c.committed_at,
                    can_reveal: true,
                },
            );
            i = i + 1;
        }
        out
    }

    /// Keeps the coordinator's request to vote on `market_id`.
    pub fn handle_voting_request(
        &mut self,
        ctx: &Context,
        market_id: u64,
        question: String,
        outcomes: Vec<String>,
        deadline: Timestamp,
    )
        requires
            old(self).state.wf(),
        ensures
            final(self).state.wf(),
            handle_voting_request_post(
                *old(self),
                *final(self),
                *ctx,
                market_id,
                question,
                outcomes,
                deadline,
            ),
    {
        let request = VotingRequest { market_id, question, outcomes, deadline, received_at: ctx.now };
        self.state.add_voting_request(request);
    }

    /// Applies a reputation update from the coordinator; the low byte of
    /// `amount` is taken as the vote's confidence.
    pub fn handle_reputation_update(&mut self, increase: bool, amount: u64)
        requires
            old(self).state.wf(),
        ensures
            final(self).state.wf(),
            handle_reputation_update_post(*old(self), *final(self), increase, amount),
    {
        let confidence = (amount % 256) as u8;
        if increase {
            self.state.update_reputation_correct(confidence);
        } else {
            self.state.update_reputation_incorrect(confidence);
        }
    }

    /// Takes a reward: it joins the stake, and is noted on the vote of
    /// `market_id` if there is one.
    pub fn handle_reward_payment(&mut self, amount: Amount, market_id: u64)
        requires
            old(self).state.wf(),
        ensures
            final(self).state.wf(),
            handle_reward_payment_post(*old(self), *final(self), amount, market_id),
    {
        self.state.add_stake(amount);
        if let Some(i) = find_key(&self.state.vote_history, market_id) {
            proof {
                crate::voter_state::lemma_index_of(self.state.vote_history@, i as int);
            }
            let rec = self.state.vote_history[i];
            let updated = VoteRecord {
                reward_received: rec.reward_received.saturating_add(amount),
                ..rec
            };
            crate::voter_state::upsert(&mut self.state.vote_history, updated);
        }
    }

    /// Runs an operation of the voter's operator.
    pub fn execute_operation(&mut self, ctx: &Context, operation: VoterOperation) -> (r: (
        VoterResponse,
        Vec<VoterOutgoing>,
    ))
        requires
            old(self).state.wf(),
        ensures
            final(self).state.wf(),
            voter_operation_post(*old(self), *final(self), *ctx, operation, r),
    {
        match operation {
            VoterOperation::Initialize { oracle_chain, stake } => (
                self.initialize_voter(ctx, oracle_chain, stake),
                Vec::new(),
            ),
            VoterOperation::CommitVote { market_id, outcome_index } => self.commit_vote(
                ctx,
                market_id,
                outcome_index,
            ),
            VoterOperation::RevealVote { market_id } => self.reveal_vote(ctx, market_id),
            VoterOperation::SubmitVote { market_id, outcome_index } => self.submit_vote(
                ctx,
                market_id,
                outcome_index,
            ),
            VoterOperation::AddStake { amount } => (self.add_stake(amount), Vec::new()),
            VoterOperation::GetVoterInfo => (self.get_voter_info(), Vec::new()),
            VoterOperation::GetVoteHistory => (
                VoterResponse::VoteHistory(self.get_vote_history()),
                Vec::new(),
            ),
            VoterOperation::GetPendingCommitments => (
                VoterResponse::PendingCommitments(self.get_pending_commitments()),
                Vec::new(),
            ),
        }
    }

    /// Handles a message from the coordinator; messages meant for the
    /// coordinator are ignored.
    pub fn execute_message(&mut self, ctx: &Context, message: Message)
        requires
            old(self).state.wf(),
        ensures
            final(self).state.wf(),
            voter_message_post(*old(self), *final(self), *ctx, message),
    {
        match message {
            Message::VotingRequest { market_id, question, outcomes, deadline } => {
                self.handle_voting_request(ctx, market_id, question, outcomes, deadline);
            },
            Message::ReputationUpdate { increase, amount } => {
                self.handle_reputation_update(increase, amount);
            },
            Message::RewardPayment { amount, market_id } => {
                self.handle_reward_payment(amount, market_id);
            },
            _ => {},
        }
    }
}

/// What `initialize_voter` does: the state before and after, and its result.
pub open spec fn initialize_voter_post(
    before: VoterChainContract,
    after: VoterChainContract,
    ctx: Context,
    oracle_chain: ChainId,
    stake: Amount,
    r: VoterResponse,
) -> bool {
    &&& (r == VoterResponse::Initialized)
    &&& (after.app_owner == before.app_owner)
    &&& (after.app_id_bytes == before.app_id_bytes)
    &&& (after.state == (VoterState {
        owner: Some(
            match ctx.signer {
                Some(o) => o,
                None => before.app_owner,
            },
        ),
        oracle_chain: Some(oracle_chain),
        total_stake: stake,
        reputation: crate::voter::fresh_reputation(),
        ..before.state
    }))
}

/// What `commit_vote` does: the state before and after, and its result.
pub open spec fn commit_vote_post(
    before: VoterChainContract,
    after: VoterChainContract,
    ctx: Context,
    market_id: u64,
    outcome_index: usize,
    r: (VoterResponse, Vec<VoterOutgoing>),
) -> bool {
    &&& (after.app_owner == before.app_owner)
    &&& (after.app_id_bytes == before.app_id_bytes)
    &&& (outcome_index > 1 ==> {
        &&& r.0 matches VoterResponse::CommitmentSubmitted { market_id: m, commitment_hash: h }
        &&& m == REJECTED_MARKET
        &&& h@ == Seq::new(32, |i: int| 0u8)
        &&& after.state == before.state
        &&& r.1@.len() == 0
    })
    &&& (outcome_index <= 1 ==> {
        let salt = salt_spec(market_id, before.app_id_bytes@);
        let h = digest(preimage(outcome_index as u64, salt));
        let cs = keyed_map(after.state.pending_commitments@);
        &&& r.0 matches VoterResponse::CommitmentSubmitted { market_id: m, commitment_hash: rh }
        &&& m == market_id
        &&& rh@ == h
        &&& cs == keyed_map(before.state.pending_commitments@).insert(market_id, cs[market_id])
        &&& cs[market_id].market_id == market_id
        &&& cs[market_id].commitment_hash@ == h
        &&& cs[market_id].outcome_index == outcome_index
        &&& cs[market_id].salt@ == salt
        &&& cs[market_id].committed_at == ctx.now
        &&& after.state == (VoterState {
            pending_commitments: after.state.pending_commitments,
            ..before.state
        })
        &&& r.1@ == to_oracle(
            before.state.oracle_chain,
            Message::VoteCommitmentToOracle {
                commitment_hash: rh,
                voting_power: DECLARED_POWER,
                stake_amount: before.state.total_stake,
            },
        )
    })
}

/// What `reveal_vote` does: the state before and after, and its result.
pub open spec fn reveal_vote_post(
    before: VoterChainContract,
    after: VoterChainContract,
    ctx: Context,
    market_id: u64,
    r: (VoterResponse, Vec<VoterOutgoing>),
) -> bool {
    &&& (after.app_owner == before.app_owner)
    &&& (after.app_id_bytes == before.app_id_bytes)
    &&& (!keyed_map(before.state.pending_commitments@).contains_key(market_id) ==> {
        &&& r.0 == VoterResponse::VoteRevealed { market_id, outcome_index: 0, verified: false }
        &&& after.state == before.state
        &&& r.1@.len() == 0
    })
    &&& (keyed_map(before.state.pending_commitments@).contains_key(market_id) ==> {
        let c = keyed_map(before.state.pending_commitments@)[market_id];
        &&& r.0 == VoterResponse::VoteRevealed {
            market_id,
            outcome_index: c.outcome_index,
            verified: true,
        }
        &&& keyed_map(after.state.vote_history@) == keyed_map(
            before.state.vote_history@,
        ).insert(
            market_id,
            VoteRecord {
                market_id,
                outcome_index: c.outcome_index,
                confidence: OWN_CONFIDENCE,
                timestamp: ctx.now,
                was_correct: None,
                reward_received: 0,
            },
        )
        &&& keyed_map(after.state.pending_requests@) == keyed_map(
            before.state.pending_requests@,
        ).remove(market_id)
        &&& keyed_map(after.state.pending_commitments@) == keyed_map(
            before.state.pending_commitments@,
        ).remove(market_id)
        &&& after.state == (VoterState {
            vote_history: after.state.vote_history,
            pending_requests: after.state.pending_requests,
            pending_commitments: after.state.pending_commitments,
            ..before.state
        })
        &&& r.1@ == to_oracle(
            before.state.oracle_chain,
            Message::VoteRevealToOracle {
                outcome_index: c.outcome_index,
                salt: c.salt,
                confidence: OWN_CONFIDENCE,
            },
        )
    })
}

/// What `submit_vote` does: the state before and after, and its result.
pub open spec fn submit_vote_post(
    before: VoterChainContract,
    after: VoterChainContract,
    ctx: Context,
    market_id: u64,
    outcome_index: usize,
    r: (VoterResponse, Vec<VoterOutgoing>),
) -> bool {
    &&& (after.app_owner == before.app_owner)
    &&& (after.app_id_bytes == before.app_id_bytes)
    &&& (outcome_index > 1 ==> {
        &&& r.0 == VoterResponse::VoteSubmitted {
            market_id: REJECTED_MARKET,
            outcome_index: 0,
        }
        &&& after.state == before.state
        &&& r.1@.len() == 0
    })
    &&& (outcome_index <= 1 ==> {
        &&& r.0 == VoterResponse::VoteSubmitted { market_id, outcome_index }
        &&& keyed_map(after.state.vote_history@) == keyed_map(
            before.state.vote_history@,
        ).insert(
            market_id,
            VoteRecord {
                market_id,
                outcome_index,
                confidence: OWN_CONFIDENCE,
                timestamp: ctx.now,
                was_correct: None,
                reward_received: 0,
            },
        )
        &&& keyed_map(after.state.pending_requests@) == keyed_map(
            before.state.pending_requests@,
        ).remove(market_id)
        &&& keyed_map(after.state.pending_commitments@) == keyed_map(
            before.state.pending_commitments@,
        ).remove(market_id)
        &&& after.state == (VoterState {
            vote_history: after.state.vote_history,
            pending_requests: after.state.pending_requests,
            pending_commitments: after.state.pending_commitments,
            reputation: reputation_after_correct(before.state.reputation, OWN_CONFIDENCE),
            ..before.state
        })
        &&& r.1@ == to_oracle(
            before.state.oracle_chain,
            Message::DirectVote {
                voter_chain: ctx.chain_id,
                market_id,
                outcome_index,
                confidence: OWN_CONFIDENCE,
                voting_power: direct_power(before.state.total_stake),
            },
        )
    })
}

/// What `add_stake` does: the state before and after, and its result.
pub open spec fn add_stake_post(
    before: VoterChainContract,
    after: VoterChainContract,
    amount: Amount,
    r: VoterResponse,
) -> bool {
    &&& (after.app_owner == before.app_owner)
    &&& (after.app_id_bytes == before.app_id_bytes)
    &&& (after.state == (VoterState {
        total_stake: if before.state.total_stake + amount > u128::MAX {
            u128::MAX
        } else {
            (before.state.total_stake + amount) as u128
        },
        ..before.state
    }))
    &&& (r == (VoterResponse::StakeAdded { new_total: after.state.total_stake }))
}

/// What `get_voter_info` does: the state before and after, and its result.
pub open spec fn get_voter_info_post(s: VoterChainContract, r: VoterResponse) -> bool {
    &&& (r == (match s.state.get_voter_info_sync_spec() {
        Some(info) => VoterResponse::VoterInfo(info),
        None => VoterResponse::Initialized,
    }))
}

/// What `get_vote_history` does: the state before and after, and its result.
pub open spec fn get_vote_history_post(s: VoterChainContract, r: Vec<ReportedVote>) -> bool {
    &&& (r@.len() == s.state.vote_history@.len())
    &&& (forall|i: int|
        0 <= i < r@.len() ==> #[trigger] r@[i] == (ReportedVote {
            market_id: s.state.vote_history@[i].market_id,
            outcome_index: s.state.vote_history@[i].outcome_index,
            confidence: s.state.vote_history@[i].confidence,
            timestamp: s.state.vote_history@[i].timestamp,
            was_correct: s.state.vote_history@[i].was_correct,
        }))
}

/// What `get_pending_commitments` does: the state before and after, and its result.
pub open spec fn get_pending_commitments_post(
    s: VoterChainContract,
    r: Vec<CommitmentInfo>,
) -> bool {
    &&& (r@.len() == s.state.pending_commitments@.len())
    &&& (forall|i: int|
        0 <= i < r@.len() ==> {
            &&& (#[trigger] r@[i]).market_id == s.state.pending_commitments@[i].market_id
            &&& r@[i].commitment_hash == s.state.pending_commitments@[i].commitment_hash
            &&& r@[i].committed_at == s.state.pending_commitments@[i].committed_at
            &&& r@[i].can_reveal
        })
}

/// What `handle_voting_request` does: the state before and after, and its result.
pub open spec fn handle_voting_request_post(
    before: VoterChainContract,
    after: VoterChainContract,
    ctx: Context,
    market_id: u64,
    question: String,
    outcomes: Vec<String>,
    deadline: Timestamp,
) -> bool {
    &&& (after.app_owner == before.app_owner)
    &&& (after.app_id_bytes == before.app_id_bytes)
    &&& (keyed_map(after.state.pending_requests@) == keyed_map(
        before.state.pending_requests@,
    ).insert(
        market_id,
        VotingRequest { market_id, question, outcomes, deadline, received_at: ctx.now },
    ))
    &&& (after.state == (VoterState {
        pending_requests: after.state.pending_requests,
        ..before.state
    }))
}

/// What `handle_reputation_update` does: the state before and after, and its result.
pub open spec fn handle_reputation_update_post(
    before: VoterChainContract,
    after: VoterChainContract,
    increase: bool,
    amount: u64,
) -> bool {
    &&& (after.app_owner == before.app_owner)
    &&& (after.app_id_bytes == before.app_id_bytes)
    &&& (after.state == (VoterState {
        reputation: if increase {
            reputation_after_correct(before.state.reputation, (amount % 256) as u8)
        } else {
            reputation_after_incorrect(before.state.reputation, (amount % 256) as u8)
        },
        ..before.state
    }))
}

/// What `handle_reward_payment` does: the state before and after, and its result.
pub open spec fn handle_reward_payment_post(
    before: VoterChainContract,
    after: VoterChainContract,
    amount: Amount,
    market_id: u64,
) -> bool {
    &&& (after.app_owner == before.app_owner)
    &&& (after.app_id_bytes == before.app_id_bytes)
    &&& (after.state.total_stake == if before.state.total_stake + amount > u128::MAX {
        u128::MAX
    } else {
        (before.state.total_stake + amount) as u128
    })
    &&& (keyed_map(before.state.vote_history@).contains_key(market_id) ==> {
        let rec = keyed_map(before.state.vote_history@)[market_id];
        keyed_map(after.state.vote_history@) == keyed_map(
            before.state.vote_history@,
        ).insert(
            market_id,
            VoteRecord {
                reward_received: if rec.reward_received + amount > u128::MAX {
                    u128::MAX
                } else {
                    (rec.reward_received + amount) as u128
                },
                ..rec
            },
        )
    })
    &&& (!keyed_map(before.state.vote_history@).contains_key(market_id) ==> after.state.vote_history == before.state.vote_history)
    &&& (after.state == (VoterState {
        total_stake: after.state.total_stake,
        vote_history: after.state.vote_history,
        ..before.state
    }))
}


/// What an operation of the voter's operator does: that of its handler;
/// queries change nothing and send nothing.
pub open spec fn voter_operation_post(
    before: VoterChainContract,
    after: VoterChainContract,
    ctx: Context,
    operation: VoterOperation,
    r: (VoterResponse, Vec<VoterOutgoing>),
) -> bool {
    match operation {
        VoterOperation::Initialize { oracle_chain, stake } => initialize_voter_post(
            before,
            after,
            ctx,
            oracle_chain,
            stake,
            r.0,
        ) && r.1@.len() == 0,
        VoterOperation::CommitVote { market_id, outcome_index } => commit_vote_post(
            before,
            after,
            ctx,
            market_id,
            outcome_index,
            r,
        ),
        VoterOperation::RevealVote { market_id } => reveal_vote_post(before, after, ctx, market_id, r),
        VoterOperation::SubmitVote { market_id, outcome_index } => submit_vote_post(
            before,
            after,
            ctx,
            market_id,
            outcome_index,
            r,
        ),
        VoterOperation::AddStake { amount } => add_stake_post(before, after, amount, r.0) && r.1@.len()
            == 0,
        VoterOperation::GetVoterInfo => after == before && get_voter_info_post(before, r.0) && r.1@.len()
            == 0,
        VoterOperation::GetVoteHistory => after == before && r.1@.len() == 0 && match r.0 {
            VoterResponse::VoteHistory(v) => get_vote_history_post(before, v),
            _ => false,
        },
        VoterOperation::GetPendingCommitments => after == before && r.1@.len() == 0 && match r.0 {
            VoterResponse::PendingCommitments(v) => get_pending_commitments_post(before, v),
            _ => false,
        },
    }
}

/// What a message from the coordinator does: that of its handler; messages
/// meant for the coordinator change nothing.
pub open spec fn voter_message_post(
    before: VoterChainContract,
    after: VoterChainContract,
    ctx: Context,
    message: Message,
) -> bool {
    match message {
        Message::VotingRequest { market_id, question, outcomes, deadline } =>
            handle_voting_request_post(before, after, ctx, market_id, question, outcomes, deadline),
        Message::ReputationUpdate { increase, amount } => handle_reputation_update_post(
            before,
            after,
            increase,
            amount,
        ),
        Message::RewardPayment { amount, market_id } => handle_reward_payment_post(
            before,
            after,
            amount,
            market_id,
        ),
        _ => after == before,
    }
}

} // verus!
