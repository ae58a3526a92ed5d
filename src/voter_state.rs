//! The state a voter chain keeps: its identity, stake and reputation, and
//! the requests, commitments and votes it holds per market.
use vstd::prelude::*;

use crate::hash::{digest, preimage};
use crate::types::{AccountOwner, Amount, ChainId, Timestamp};
use crate::voter::{can_record_correct, fresh_reputation, Reputation, VoteCommitment, VoterInfo};

verus! {

/// An entry stored under the id of the market it is about.
pub trait Keyed {
    /// The market the entry is about.
    spec fn key(&self) -> u64;

    /// Returns the market the entry is about.
    fn market_key(&self) -> (r: u64)
        ensures
            r == self.key(),
    ;
}

/// Whether no two entries of `s` share a market.
pub open spec fn keys_unique<T: Keyed>(s: Seq<T>) -> bool {
    forall|i: int, j: int| 0 <= i < j < s.len() ==> (#[trigger] s[i].key()) != (#[trigger] s[j].key())
}

/// Index of an entry of `s` about market `k`.
pub open spec fn index_of<T: Keyed>(s: Seq<T>, k: u64) -> int {
    choose|i: int| 0 <= i < s.len() && (#[trigger] s[i].key()) == k
}

/// The entries of `s` by market.
pub open spec fn keyed_map<T: Keyed>(s: Seq<T>) -> Map<u64, T> {
    Map::new(
        |k: u64| exists|i: int| 0 <= i < s.len() && (#[trigger] s[i].key()) == k,
        |k: u64| s[index_of(s, k)],
    )
}

pub(crate) proof fn lemma_index_of<T: Keyed>(s: Seq<T>, i: int)
    requires
        keys_unique(s),
        0 <= i < s.len(),
    ensures
        index_of(s, s[i].key()) == i,
        keyed_map(s).contains_key(s[i].key()),
        keyed_map(s)[s[i].key()] == s[i],
{
    let k = s[i].key();
    assert(exists|j: int| 0 <= j < s.len() && (#[trigger] s[j].key()) == k);
    let j = index_of(s, k);
    if j != i {
        if j < i {
            assert(s[j].key() != s[i].key());
        } else {
            assert(s[i].key() != s[j].key());
        }
    }
}

/// Index of the entry of `s` about market `k`, if any.
pub fn find_key<T: Keyed>(s: &Vec<T>, k: u64) -> (r: Option<usize>)
    ensures
        r is None <==> !keyed_map(s@).contains_key(k),
        r matches Some(i) ==> i < s@.len() && s@[i as int].key() == k,
{
    let mut i: usize = 0;
    while i < s.len()
        invariant
            i <= s@.len(),
            forall|j: int| 0 <= j < i ==> (#[trigger] s@[j].key()) != k,
        decreases s@.len() - i,
    {
        if s[i].market_key() == k {
            return Some(i);
        }
        i = i + 1;
    }
    None
}

/// Stores `v` under its market, replacing any entry there.
pub fn upsert<T: Keyed>(s: &mut Vec<T>, v: T)
    requires
        keys_unique(old(s)@),
    ensures
        keys_unique(final(s)@),
        keyed_map(final(s)@) == keyed_map(old(s)@).insert(v.key(), v),
{
    let k = v.market_key();
    let ghost before = s@;
    match find_key(s, k) {
        Some(j) => {
            s.set(j, v);
            proof {
                let after = s@;
                assert(keys_unique(after)) by {
                    assert forall|a: int, b: int| 0 <= a < b < after.len() implies (#[trigger] after[a].key())
                        != (#[trigger] after[b].key()) by {
                        assert(after[a].key() == before[a].key());
                        assert(after[b].key() == before[b].key());
                    }
                }
                lemma_index_of(after, j as int);
                assert forall|k2: u64| k2 != k implies (#[trigger] keyed_map(after).dom().contains(k2)
                    == keyed_map(before).dom().contains(k2) && (keyed_map(after).dom().contains(k2)
                    ==> keyed_map(after)[k2] == keyed_map(before)[k2])) by {
                    if keyed_map(after).contains_key(k2) {
                        let i = index_of(after, k2);
                        assert(before[i].key() == k2);
                        lemma_index_of(before, i);
                        lemma_index_of(after, i);
                    }
                    if keyed_map(before).contains_key(k2) {
                        let i = index_of(before, k2);
                        assert(after[i].key() == k2);
                    }
                }
                assert(keyed_map(after).contains_key(k) && keyed_map(after)[k] == v);
                assert(keyed_map(after).dom() =~= keyed_map(before).insert(k, v).dom());
                assert(keyed_map(after) =~= keyed_map(before).insert(k, v));
            }
        },
        None => {
            s.push(v);
            proof {
                let after = s@;
                assert(keys_unique(after)) by {
                    assert forall|a: int, b: int| 0 <= a < b < after.len() implies (#[trigger] after[a].key())
                        != (#[trigger] after[b].key()) by {
                        if b == before.len() {
                            assert(after[a] == before[a]);
                            assert(!(0 <= a < before.len() && before[a].key() == k));
                        }
                    }
                }
                lemma_index_of(after, before.len() as int);
                assert forall|k2: u64| k2 != k implies (#[trigger] keyed_map(after).dom().contains(k2)
                    == keyed_map(before).dom().contains(k2) && (keyed_map(after).dom().contains(k2)
                    ==> keyed_map(after)[k2] == keyed_map(before)[k2])) by {
                    if keyed_map(after).contains_key(k2) {
                        let i = index_of(after, k2);
                        assert(i < before.len());
                        assert(before[i] == after[i]);
                        lemma_index_of(before, i);
                        lemma_index_of(after, i);
                    }
                    if keyed_map(before).contains_key(k2) {
                        let i = index_of(before, k2);
                        assert(after[i] == before[i]);
                    }
                }
                assert(keyed_map(after).contains_key(k) && keyed_map(after)[k] == v);
                assert(keyed_map(after).dom() =~= keyed_map(before).insert(k, v).dom());
                assert(keyed_map(after) =~= keyed_map(before).insert(k, v));
            }
        },
    }
}

/// Removes the entry about market `k`, if any.
pub fn remove_key<T: Keyed>(s: &mut Vec<T>, k: u64)
    requires
        keys_unique(old(s)@),
    ensures
        keys_unique(final(s)@),
        keyed_map(final(s)@) == keyed_map(old(s)@).remove(k),
{
    let ghost before = s@;
    match find_key(s, k) {
        Some(j) => {
            let _ = s.remove(j);
            proof {
                let after = s@;
                assert(after =~= before.remove(j as int));
                assert(keys_unique(after)) by {
                    assert forall|a: int, b: int| 0 <= a < b < after.len() implies (#[trigger] after[a].key())
                        != (#[trigger] after[b].key()) by {
                        let a2 = if a < j {
                            a
                        } else {
                            a + 1
                        };
                        let b2 = if b < j {
                            b
                        } else {
                            b + 1
                        };
                        assert(after[a] == before[a2]);
                        assert(after[b] == before[b2]);
                        assert(before[a2].key() != before[b2].key());
                    }
                }
                assert forall|k2: u64| k2 != k implies (#[trigger] keyed_map(after).dom().contains(k2)
                    == keyed_map(before).dom().contains(k2) && (keyed_map(after).dom().contains(k2)
                    ==> keyed_map(after)[k2] == keyed_map(before)[k2])) by {
                    if keyed_map(after).contains_key(k2) {
                        let i = index_of(after, k2);
                        let i2 = if i < j {
                            i
                        } else {
                            i + 1
                        };
                        assert(after[i] == before[i2]);
                        lemma_index_of(before, i2);
                        lemma_index_of(after, i);
                    }
                    if keyed_map(before).contains_key(k2) {
                        let i = index_of(before, k2);
                        assert(i != j);
                        let i2 = if i < j {
                            i
                        } else {
                            i - 1
                        };
                        assert(after[i2] == before[i]);
                    }
                }
                assert forall|i: int| 0 <= i < after.len() implies (#[trigger] after[i].key()) != k by {
                    let i2 = if i < j {
                        i
                    } else {
                        i + 1
                    };
                    assert(after[i] == before[i2]);
                    assert(before[i2].key() != before[j as int].key());
                }
                assert(!keyed_map(after).contains_key(k));
                assert(keyed_map(after).dom() =~= keyed_map(before).remove(k).dom());
                assert(keyed_map(after) =~= keyed_map(before).remove(k));
            }
        },
        None => {
            assert(keyed_map(s@) =~= keyed_map(before).remove(k));
        },
    }
}

/// A request to vote, as received from the coordinator.
#[derive(Clone, Debug)]
pub struct VotingRequest {
    pub market_id: u64,
    pub question: String,
    pub outcomes: Vec<String>,
    pub deadline: Timestamp,
    pub received_at: Timestamp,
}

/// A vote in the voter's history, with the reward it earned.
#[derive(Clone, Copy, Debug, PartialEq, Eq, Structural)]
pub struct VoteRecord {
    pub market_id: u64,
    pub outcome_index: usize,
    pub confidence: u8,
    pub timestamp: Timestamp,
    pub was_correct: Option<bool>,
    pub reward_received: Amount,
}

impl Keyed for VotingRequest {
    open spec fn key(&self) -> u64 {
        self.market_id
    }

    fn market_key(&self) -> (r: u64) {
        self.market_id
    }
}

impl Keyed for VoteCommitment {
    open spec fn key(&self) -> u64 {
        self.market_id
    }

    fn market_key(&self) -> (r: u64) {
        self.market_id
    }
}

impl Keyed for VoteRecord {
    open spec fn key(&self) -> u64 {
        self.market_id
    }

    fn market_key(&self) -> (r: u64) {
        self.market_id
    }
}

/// Whether commitment `c` opens to its own outcome and salt.
pub open spec fn commitment_consistent(c: VoteCommitment) -> bool {
    c.commitment_hash@ == digest(preimage(c.outcome_index as u64, c.salt@))
}

/// `r` after a correct vote of `confidence`, unless its counters are full.
pub open spec fn reputation_after_correct(r: Reputation, confidence: u8) -> Reputation {
    if can_record_correct(r) {
        Reputation {
            correct_votes: (r.correct_votes + 1) as u64,
            total_votes: (r.total_votes + 1) as u64,
            streak: (r.streak + 1) as u64,
            score: (r.score + 10 + 2 * (r.streak + 1)) as u64,
            average_confidence: crate::voter::next_average(
                r.average_confidence,
                (r.total_votes + 1) as u64,
                confidence,
            ),
        }
    } else {
        r
    }
}

/// `r` after an incorrect vote of `confidence`, unless its counters are full.
pub open spec fn reputation_after_incorrect(r: Reputation, confidence: u8) -> Reputation {
    if r.total_votes < u64::MAX {
        Reputation {
            total_votes: (r.total_votes + 1) as u64,
            streak: 0,
            score: if r.score >= 5 {
                (r.score - 5) as u64
            } else {
                0
            },
            average_confidence: crate::voter::next_average(
                r.average_confidence,
                (r.total_votes + 1) as u64,
                confidence,
            ),
            ..r
        }
    } else {
        r
    }
}

/// A voter chain's state.
pub struct VoterState {
    pub owner: Option<AccountOwner>,
    pub oracle_chain: Option<ChainId>,
    pub total_stake: Amount,
    pub reputation: Reputation,
    pub pending_requests: Vec<VotingRequest>,
    pub pending_commitments: Vec<VoteCommitment>,
    pub vote_history: Vec<VoteRecord>,
}

impl VoterState {
    /// The state's invariants: one entry per market in each store, and each
    /// pending commitment opens to its own outcome and salt.
    pub open spec fn wf(&self) -> bool {
        &&& keys_unique(self.pending_requests@)
        &&& keys_unique(self.pending_commitments@)
        &&& keys_unique(self.vote_history@)
        &&& forall|i: int|
            0 <= i < self.pending_commitments@.len() ==> commitment_consistent(
                #[trigger] self.pending_commitments@[i],
            )
    }

    /// A state with no owner, no stake and a fresh reputation.
    pub fn new() -> (r: Self)
        ensures
            r.wf(),
            r.owner is None,
            r.oracle_chain is None,
            r.total_stake == 0,
            r.reputation == fresh_reputation(),
            r.pending_requests@.len() == 0,
            r.pending_commitments@.len() == 0,
            r.vote_history@.len() == 0,
    {
        VoterState {
            owner: None,
            oracle_chain: None,
            total_stake: 0,
            reputation: Reputation::new(),
            pending_requests: Vec::new(),
            pending_commitments: Vec::new(),
            vote_history: Vec::new(),
        }
    }

    /// Sets the owner, the coordinator's chain and the stake, and starts a
    /// fresh reputation.
    pub fn initialize(&mut self, owner: AccountOwner, oracle_chain: Option<ChainId>, stake: Amount)
        requires
            old(self).wf(),
        ensures
            final(self).wf(),
            *final(self) == (VoterState {
                owner: Some(owner),
                oracle_chain,
                total_stake: stake,
                reputation: fresh_reputation(),
                ..*old(self)
            }),
    {
        self.owner = Some(owner);
        self.oracle_chain = oracle_chain;
        self.total_stake = stake;
        self.reputation = Reputation::new();
    }

    /// The voter's own information, once it has an owner.
    pub open spec fn get_voter_info_sync_spec(&self) -> Option<VoterInfo> {
        match self.owner {
            Some(owner) => Some(
                VoterInfo {
                    owner,
                    oracle_chain: self.oracle_chain,
                    total_stake: self.total_stake,
                    reputation: self.reputation,
                },
            ),
            None => None,
        }
    }

    /// The voter's own information, once it has an owner.
    pub fn get_voter_info_sync(&self) -> (r: Option<VoterInfo>)
        ensures
            r == self.get_voter_info_sync_spec(),
    {
        match self.owner {
            Some(owner) => Some(
                VoterInfo {
                    owner,
                    oracle_chain: self.oracle_chain,
                    total_stake: self.total_stake,
                    reputation: self.reputation,
                },
            ),
            None => None,
        }
    }

    /// Keeps `request`, replacing any earlier one for its market.
    pub fn add_voting_request(&mut self, request: VotingRequest)
        requires
            old(self).wf(),
        ensures
            final(self).wf(),
            keyed_map(final(self).pending_requests@) == keyed_map(
                old(self).pending_requests@,
            ).insert(request.market_id, request),
            *final(self) == (VoterState {
                pending_requests: final(self).pending_requests,
                ..*old(self)
            }),
    {
        upsert(&mut self.pending_requests, request);
    }

    /// Keeps `commitment` as the pending commitment of its market.
    pub fn add_commitment(&mut self, commitment: VoteCommitment)
        requires
            old(self).wf(),
            commitment_consistent(commitment),
        ensures
            final(self).wf(),
            keyed_map(final(self).pending_commitments@) == keyed_map(
                old(self).pending_commitments@,
            ).insert(commitment.market_id, commitment),
            *final(self) == (VoterState {
                pending_commitments: final(self).pending_commitments,
                ..*old(self)
            }),
    {
        let ghost before = self.pending_commitments@;
        upsert(&mut self.pending_commitments, commitment);
        proof {
            let after = self.pending_commitments@;
            assert forall|i: int| 0 <= i < after.len() implies commitment_consistent(
                #[trigger] after[i],
            ) by {
                lemma_index_of(after, i);
                let k = after[i].key();
                if k != commitment.market_id {
                    let j = index_of(before, k);
                    assert(keyed_map(before).contains_key(k));
                    assert(before[j] == after[i]);
                }
            }
        }
    }

    /// Records the vote on `market_id`; the market's pending request and
    /// commitment are dropped.
    pub fn record_vote(&mut self, market_id: u64, record: VoteRecord)
        requires
            old(self).wf(),
            record.market_id == market_id,
        ensures
            final(self).wf(),
            keyed_map(final(self).vote_history@) == keyed_map(old(self).vote_history@).insert(
                market_id,
                record,
            ),
            keyed_map(final(self).pending_requests@) == keyed_map(
                old(self).pending_requests@,
            ).remove(market_id),
            keyed_map(final(self).pending_commitments@) == keyed_map(
                old(self).pending_commitments@,
            ).remove(market_id),
            *final(self) == (VoterState {
                vote_history: final(self).vote_history,
                pending_requests: final(self).pending_requests,
                pending_commitments: final(self).pending_commitments,
                ..*old(self)
            }),
    {
        upsert(&mut self.vote_history, record);
        remove_key(&mut self.pending_requests, market_id);
        let ghost before = self.pending_commitments@;
        remove_key(&mut self.pending_commitments, market_id);
        proof {
            let after = self.pending_commitments@;
            assert forall|i: int| 0 <= i < after.len() implies commitment_consistent(
                #[trigger] after[i],
            ) by {
                lemma_index_of(after, i);
                let k = after[i].key();
                let j = index_of(before, k);
                assert(keyed_map(before).contains_key(k));
                assert(before[j] == after[i]);
            }
        }
    }

    /// Counts a correct vote of `confidence`; a reputation whose counters
    /// are full is left as it is.
    pub fn update_reputation_correct(&mut self, confidence: u8)
        ensures
            *final(self) == (VoterState {
                reputation: reputation_after_correct(old(self).reputation, confidence),
                ..*old(self)
            }),
    {
        let r = self.reputation;
        if r.total_votes < u64::MAX && r.correct_votes < u64::MAX && r.streak < u64::MAX
            && r.streak <= (u64::MAX - 12) / 2 && r.score <= u64::MAX - 12 - 2 * r.streak {
            self.reputation.update_for_correct(confidence);
        }
    }

    /// Counts an incorrect vote of `confidence`; a reputation whose vote
    /// counter is full is left as it is.
    pub fn update_reputation_incorrect(&mut self, confidence: u8)
        ensures
            *final(self) == (VoterState {
                reputation: reputation_after_incorrect(old(self).reputation, confidence),
                ..*old(self)
            }),
    {
        if self.reputation.total_votes < u64::MAX {
            self.reputation.update_for_incorrect(confidence);
        }
    }

    /// Adds `amount` to the stake, saturating.
    pub fn add_stake(&mut self, amount: Amount)
        ensures
            *final(self) == (VoterState {
                total_stake: if old(self).total_stake + amount > u128::MAX {
                    u128::MAX
                } else {
                    (old(self).total_stake + amount) as u128
                },
                ..*old(self)
            }),
    {
        self.total_stake = self.total_stake.saturating_add(amount);
    }

    /// Marks the vote on `market_id` as correct and counts it, if there is
    /// one.
    pub fn mark_vote_correct(&mut self, market_id: u64, confidence: u8)
        requires
            old(self).wf(),
        ensures
            final(self).wf(),
            keyed_map(old(self).vote_history@).contains_key(market_id) ==> {
                &&& keyed_map(final(self).vote_history@) == keyed_map(
                    old(self).vote_history@,
                ).insert(
                    market_id,
                    VoteRecord {
                        was_correct: Some(true),
                        ..keyed_map(old(self).vote_history@)[market_id]
                    },
                )
                &&& *final(self) == (VoterState {
                    vote_history: final(self).vote_history,
                    reputation: reputation_after_correct(old(self).reputation, confidence),
                    ..*old(self)
                })
            },
            !keyed_map(old(self).vote_history@).contains_key(market_id) ==> *final(self) == *old(
                self,
            ),
    {
        if let Some(i) = find_key(&self.vote_history, market_id) {
            proof {
                lemma_index_of(self.vote_history@, i as int);
            }
            let record = VoteRecord { was_correct: Some(true), ..self.vote_history[i] };
            upsert(&mut self.vote_history, record);
            self.update_reputation_correct(confidence);
        }
    }

    /// Marks the vote on `market_id` as incorrect and counts it, if there
    /// is one.
    pub fn mark_vote_incorrect(&mut self, market_id: u64, confidence: u8)
        requires
            old(self).wf(),
        ensures
            final(self).wf(),
            keyed_map(old(self).vote_history@).contains_key(market_id) ==> {
                &&& keyed_map(final(self).vote_history@) == keyed_map(
                    old(self).vote_history@,
                ).insert(
                    market_id,
                    VoteRecord {
                        was_correct: Some(false),
                        ..keyed_map(old(self).vote_history@)[market_id]
                    },
                )
                &&& *final(self) == (VoterState {
                    vote_history: final(self).vote_history,
                    reputation: reputation_after_incorrect(old(self).reputation, confidence),
                    ..*old(self)
                })
            },
            !keyed_map(old(self).vote_history@).contains_key(market_id) ==> *final(self) == *old(
                self,
            ),
    {
        if let Some(i) = find_key(&self.vote_history, market_id) {
            proof {
                lemma_index_of(self.vote_history@, i as int);
            }
            let record = VoteRecord { was_correct: Some(false), ..self.vote_history[i] };
            upsert(&mut self.vote_history, record);
            self.update_reputation_incorrect(confidence);
        }
    }
}

} // verus!
