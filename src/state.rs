//! The coordinator's state: markets, the voter ledger, commitments and
//! reveals, with the operations that read and change them.
use vstd::prelude::*;

use crate::ledger::{apply_change, changed, changed_voter, LedgerChange};
use crate::types::{
    Amount, ChainId, Market, MarketStatus, Parameters, VoteCommitment, VoteReveal, VoterInfo,
};

verus! {

/// The coordinator's state.
///
/// Market `i` sits at index `i` of `markets`; `next_market_id` is the number
/// of markets. Commitments are kept in arrival order and a later commitment
/// for the same market and voter replaces an earlier one. A voter has at most
/// one reveal per market. A commitment forfeited by a mismatching reveal
/// cannot be opened any more.
pub struct OracleCoordinatorState {
    pub params: Parameters,
    pub next_market_id: u64,
    pub total_markets_created: u64,
    pub total_markets_resolved: u64,
    pub voters: Vec<VoterInfo>,
    pub markets: Vec<Market>,
    pub commitments: Vec<VoteCommitment>,
    pub reveals: Vec<VoteReveal>,
    /// The (market, voter) pairs whose commitment was forfeited by a reveal
    /// that did not match it.
    pub forfeited: Vec<(u64, ChainId)>,
}

/// The invariants of one market: 2 to 10 outcomes, trading ends before
/// voting, and the winning outcome and confidence are set exactly when the
/// market is resolved, the winner being an index into the outcomes.
pub open spec fn market_ok(m: Market) -> bool {
    &&& 2 <= m.outcomes@.len() <= 10
    &&& m.trading_deadline < m.voting_deadline
    &&& (m.status == MarketStatus::Resolved) == (m.winning_outcome is Some)
    &&& (m.status == MarketStatus::Resolved) == (m.confidence_score is Some)
    &&& (m.winning_outcome matches Some(w) ==> w < m.outcomes@.len())
}

/// Whether two markets hold the same values.
pub open spec fn same_market(a: Market, b: Market) -> bool {
    &&& a.id == b.id
    &&& a.question == b.question
    &&& a.outcomes@ == b.outcomes@
    &&& a.creator == b.creator
    &&& a.created_at == b.created_at
    &&& a.trading_deadline == b.trading_deadline
    &&& a.voting_deadline == b.voting_deadline
    &&& a.min_voters == b.min_voters
    &&& a.category == b.category
    &&& a.status == b.status
    &&& a.winning_outcome == b.winning_outcome
    &&& a.confidence_score == b.confidence_score
    &&& a.total_commitments == b.total_commitments
    &&& a.total_reveals == b.total_reveals
}

/// Whether `id` has an entry in `voters`.
pub open spec fn is_registered(voters: Seq<VoterInfo>, id: ChainId) -> bool {
    exists|i: int| 0 <= i < voters.len() && voters[i].chain_id == id
}

/// The live commitment of each (market, voter) pair: the latest one.
pub open spec fn commitment_map(cs: Seq<VoteCommitment>) -> Map<(u64, ChainId), VoteCommitment>
    decreases cs.len(),
{
    if cs.len() == 0 {
        Map::empty()
    } else {
        commitment_map(cs.drop_last()).insert(
            (cs.last().market_id, cs.last().voter_chain),
            cs.last(),
        )
    }
}

/// The reveals of market `m`, in arrival order.
pub open spec fn reveals_of(rs: Seq<VoteReveal>, m: u64) -> Seq<VoteReveal> {
    rs.filter(|r: VoteReveal| r.market_id == m)
}

/// Whether `voter` has revealed on market `m`.
pub open spec fn has_revealed(rs: Seq<VoteReveal>, m: u64, voter: ChainId) -> bool {
    exists|i: int| 0 <= i < rs.len() && rs[i].market_id == m && rs[i].voter_chain == voter
}

/// Whether the commitment of `voter` on market `m` was forfeited.
pub open spec fn is_forfeited(fs: Seq<(u64, ChainId)>, m: u64, voter: ChainId) -> bool {
    fs.contains((m, voter))
}

/// Whether a market counts as active: not resolved and not disputed.
pub open spec fn is_active_market(m: Market) -> bool {
    m.status != MarketStatus::Resolved && m.status != MarketStatus::Disputed
}

/// Makes a copy of `m`.
pub fn copy_market(m: &Market) -> (r: Market)
    ensures
        same_market(r, *m),
{
    let mut outcomes: Vec<String> = Vec::new();
    let mut i: usize = 0;
    while i < m.outcomes.len()
        invariant
            i <= m.outcomes@.len(),
            outcomes@ == m.outcomes@.take(i as int),
        decreases m.outcomes@.len() - i,
    {
        outcomes.push(m.outcomes[i].clone());
        proof {
            assert(m.outcomes@.take(i + 1) =~= m.outcomes@.take(i as int).push(
                m.outcomes@[i as int],
            ));
        }
        i = i + 1;
    }
    assert(m.outcomes@.take(m.outcomes@.len() as int) =~= m.outcomes@);
    Market {
        id: m.id,
        question: m.question.clone(),
        outcomes,
        creator: m.creator,
        created_at: m.created_at,
        trading_deadline: m.trading_deadline,
        voting_deadline: m.voting_deadline,
        min_voters: m.min_voters,
        category: m.category.clone(),
        status: m.status,
        winning_outcome: m.winning_outcome,
        confidence_score: m.confidence_score,
        total_commitments: m.total_commitments,
        total_reveals: m.total_reveals,
    }
}

impl OracleCoordinatorState {
    /// The state's invariants.
    pub open spec fn wf(&self) -> bool {
        &&& self.params.slash_percentage <= 100
        &&& self.markets@.len() == self.next_market_id
        &&& forall|i: int|
            0 <= i < self.markets@.len() ==> (#[trigger] self.markets@[i]).id == i && market_ok(
                self.markets@[i],
            )
        &&& forall|i: int, j: int|
            0 <= i < j < self.voters@.len() ==> (#[trigger] self.voters@[i]).chain_id
                != (#[trigger] self.voters@[j]).chain_id
        &&& forall|i: int|
            0 <= i < self.voters@.len() ==> (#[trigger] self.voters@[i]).locked_stake
                <= self.voters@[i].total_stake
        &&& forall|i: int, j: int|
            0 <= i < j < self.reveals@.len() ==> !((#[trigger] self.reveals@[i]).market_id
                == (#[trigger] self.reveals@[j]).market_id && self.reveals@[i].voter_chain
                == self.reveals@[j].voter_chain)
        &&& forall|i: int|
            0 <= i < self.reveals@.len() ==> (#[trigger] self.reveals@[i]).market_id
                < self.markets@.len() && self.reveals@[i].outcome_index
                < self.markets@[self.reveals@[i].market_id as int].outcomes@.len()
    }

    /// An empty state under `params`.
    pub fn new(params: Parameters) -> (r: Self)
        requires
            params.slash_percentage <= 100,
        ensures
            r.wf(),
            r.params == params,
            r.next_market_id == 0,
            r.total_markets_created == 0,
            r.total_markets_resolved == 0,
            r.voters@.len() == 0,
            r.markets@.len() == 0,
            r.commitments@.len() == 0,
            r.reveals@.len() == 0,
    {
        OracleCoordinatorState {
            params,
            next_market_id: 0,
            total_markets_created: 0,
            total_markets_resolved: 0,
            voters: Vec::new(),
            markets: Vec::new(),
            commitments: Vec::new(),
            reveals: Vec::new(),
            forfeited: Vec::new(),
        }
    }

    /// Resets the state to empty, keeping the parameters.
    pub fn initialize(&mut self)
        requires
            old(self).params.slash_percentage <= 100,
        ensures
            final(self).wf(),
            final(self).params == old(self).params,
            final(self).next_market_id == 0,
            final(self).total_markets_created == 0,
            final(self).total_markets_resolved == 0,
            final(self).voters@.len() == 0,
            final(self).markets@.len() == 0,
            final(self).commitments@.len() == 0,
            final(self).reveals@.len() == 0,
    {
        *self = OracleCoordinatorState::new(self.params);
    }

    /// A copy of market `market_id`, if there is one.
    pub fn get_market(&self, market_id: u64) -> (r: Option<Market>)
        requires
            self.wf(),
        ensures
            market_id < self.markets@.len() <==> r is Some,
            r matches Some(m) ==> same_market(m, self.markets@[market_id as int]),
    {
        if market_id < self.markets.len() as u64 {
            Some(copy_market(&self.markets[market_id as usize]))
        } else {
            None
        }
    }

    /// Copies of the markets that are neither resolved nor disputed, in id
    /// order.
    pub fn get_active_markets(&self) -> (r: Vec<Market>)
        ensures
            r@.len() == self.markets@.filter(|m: Market| is_active_market(m)).len(),
            forall|i: int|
                0 <= i < r@.len() ==> same_market(
                    #[trigger] r@[i],
                    self.markets@.filter(|m: Market| is_active_market(m))[i],
                ),
    {
        let ghost ms = self.markets@;
        let ghost pred = |m: Market| is_active_market(m);
        let mut out: Vec<Market> = Vec::new();
        let mut i: usize = 0;
        while i < self.markets.len()
            invariant
                ms == self.markets@,
                pred == (|m: Market| is_active_market(m)),
                i <= ms.len(),
                out@.len() == ms.take(i as int).filter(pred).len(),
                forall|k: int|
                    0 <= k < out@.len() ==> same_market(
                        #[trigger] out@[k],
                        ms.take(i as int).filter(pred)[k],
                    ),
            decreases ms.len() - i,
        {
            proof {
                assert(ms.take(i + 1).drop_last() =~= ms.take(i as int));
                reveal(Seq::filter);
            }
            let m = &self.markets[i];
            if m.status != MarketStatus::Resolved && m.status != MarketStatus::Disputed {
                out.push(copy_market(m));
            }
            i = i + 1;
        }
        assert(ms.take(ms.len() as int) =~= ms);
        out
    }

    /// Index of `voter`'s entry.
    pub fn find_voter(&self, voter: &ChainId) -> (r: Option<usize>)
        ensures
            r is None <==> !is_registered(self.voters@, *voter),
            r matches Some(i) ==> i < self.voters@.len() && self.voters@[i as int].chain_id
                == *voter,
    {
        let mut i: usize = 0;
        while i < self.voters.len()
            invariant
                i <= self.voters@.len(),
                forall|j: int| 0 <= j < i ==> self.voters@[j].chain_id != *voter,
            decreases self.voters@.len() - i,
        {
            if self.voters[i].chain_id == *voter {
                return Some(i);
            }
            i = i + 1;
        }
        None
    }

    /// Whether `voter` is registered.
    pub fn is_voter_registered(&self, voter: &ChainId) -> (r: bool)
        ensures
            r == is_registered(self.voters@, *voter),
    {
        self.find_voter(voter).is_some()
    }

    /// `voter`'s ledger entry, if registered.
    pub fn get_voter_info(&self, voter: ChainId) -> (r: Option<VoterInfo>)
        requires
            self.wf(),
        ensures
            r is None <==> !is_registered(self.voters@, voter),
            r matches Some(v) ==> v.chain_id == voter && self.voters@.contains(v),
    {
        match self.find_voter(&voter) {
            Some(i) => Some(self.voters[i]),
            None => None,
        }
    }

    /// The identities of all registered voters, in registration order.
    pub fn get_all_voters(&self) -> (r: Vec<ChainId>)
        ensures
            r@ == self.voters@.map_values(|v: VoterInfo| v.chain_id),
    {
        let mut out: Vec<ChainId> = Vec::new();
        let mut i: usize = 0;
        while i < self.voters.len()
            invariant
                i <= self.voters@.len(),
                out@ == self.voters@.take(i as int).map_values(|v: VoterInfo| v.chain_id),
            decreases self.voters@.len() - i,
        {
            out.push(self.voters[i].chain_id);
            proof {
                assert(self.voters@.take(i + 1).map_values(|v: VoterInfo| v.chain_id)
                    =~= self.voters@.take(i as int).map_values(|v: VoterInfo| v.chain_id).push(
                    self.voters@[i as int].chain_id,
                ));
            }
            i = i + 1;
        }
        assert(self.voters@.take(self.voters@.len() as int) =~= self.voters@);
        out
    }

    /// Adds `info` to the ledger.
    pub fn register_voter(&mut self, info: VoterInfo)
        requires
            old(self).wf(),
            !is_registered(old(self).voters@, info.chain_id),
            info.locked_stake <= info.total_stake,
        ensures
            final(self).wf(),
            final(self).voters@ == old(self).voters@.push(info),
            *final(self) == (OracleCoordinatorState { voters: final(self).voters, ..*old(self) }),
    {
        self.voters.push(info);
        proof {
            assert forall|i: int, j: int|
                0 <= i < j < self.voters@.len() implies (#[trigger] self.voters@[i]).chain_id
                != (#[trigger] self.voters@[j]).chain_id by {
                if j == self.voters@.len() - 1 {
                    assert(old(self).voters@[i] == self.voters@[i]);
                }
            }
        }
    }

    /// Applies `change` to `voter`'s entry; no change if unregistered.
    pub fn change_voter(&mut self, voter: ChainId, change: LedgerChange)
        requires
            old(self).wf(),
        ensures
            final(self).wf(),
            final(self).voters@ == changed_voter(old(self).voters@, voter, change),
            *final(self) == (OracleCoordinatorState { voters: final(self).voters, ..*old(self) }),
    {
        let ghost old_voters = self.voters@;
        let mut i: usize = 0;
        while i < self.voters.len()
            invariant
                self.voters@.len() == old_voters.len(),
                i <= old_voters.len(),
                forall|j: int|
                    0 <= j < i ==> #[trigger] self.voters@[j] == if old_voters[j].chain_id
                        == voter {
                        changed(old_voters[j], change)
                    } else {
                        old_voters[j]
                    },
                forall|j: int|
                    i <= j < old_voters.len() ==> #[trigger] self.voters@[j] == old_voters[j],
                self.params == old(self).params,
                self.next_market_id == old(self).next_market_id,
                self.total_markets_created == old(self).total_markets_created,
                self.total_markets_resolved == old(self).total_markets_resolved,
                self.markets == old(self).markets,
                self.commitments == old(self).commitments,
                self.reveals == old(self).reveals,
                self.forfeited == old(self).forfeited,
                old_voters == old(self).voters@,
                old(self).wf(),
            decreases old_voters.len() - i,
        {
            if self.voters[i].chain_id == voter {
                let updated = apply_change(&self.voters[i], &change);
                self.voters[i] = updated;
            }
            i = i + 1;
        }
        assert(self.voters@ =~= changed_voter(old_voters, voter, change));
    }

    /// Locks `amount` more of `voter`'s stake, never past the stake held.
    pub fn lock_voter_stake(&mut self, voter: ChainId, amount: Amount)
        requires
            old(self).wf(),
        ensures
            final(self).wf(),
            final(self).voters@ == changed_voter(
                old(self).voters@,
                voter,
                LedgerChange::Lock(amount),
            ),
            *final(self) == (OracleCoordinatorState { voters: final(self).voters, ..*old(self) }),
    {
        self.change_voter(voter, LedgerChange::Lock(amount));
    }

    /// Releases `amount` of `voter`'s locked stake.
    pub fn unlock_voter_stake(&mut self, voter: ChainId, amount: Amount)
        requires
            old(self).wf(),
        ensures
            final(self).wf(),
            final(self).voters@ == changed_voter(
                old(self).voters@,
                voter,
                LedgerChange::Unlock(amount),
            ),
            *final(self) == (OracleCoordinatorState { voters: final(self).voters, ..*old(self) }),
    {
        self.change_voter(voter, LedgerChange::Unlock(amount));
    }

    /// Removes `amount` from `voter`'s held and locked stake.
    pub fn slash_voter(&mut self, voter: ChainId, amount: Amount)
        requires
            old(self).wf(),
        ensures
            final(self).wf(),
            final(self).voters@ == changed_voter(
                old(self).voters@,
                voter,
                LedgerChange::Slash(amount),
            ),
            *final(self) == (OracleCoordinatorState { voters: final(self).voters, ..*old(self) }),
    {
        self.change_voter(voter, LedgerChange::Slash(amount));
    }

    /// Records a correct vote by `voter`.
    pub fn update_voter_reputation_correct(&mut self, voter: ChainId)
        requires
            old(self).wf(),
        ensures
            final(self).wf(),
            final(self).voters@ == changed_voter(old(self).voters@, voter, LedgerChange::Correct),
            *final(self) == (OracleCoordinatorState { voters: final(self).voters, ..*old(self) }),
    {
        self.change_voter(voter, LedgerChange::Correct);
    }

    /// Records an incorrect vote by `voter`.
    pub fn update_voter_reputation_incorrect(&mut self, voter: ChainId)
        requires
            old(self).wf(),
        ensures
            final(self).wf(),
            final(self).voters@ == changed_voter(
                old(self).voters@,
                voter,
                LedgerChange::Incorrect,
            ),
            *final(self) == (OracleCoordinatorState { voters: final(self).voters, ..*old(self) }),
    {
        self.change_voter(voter, LedgerChange::Incorrect);
    }
}

proof fn lemma_commitment_map_tail(cs: Seq<VoteCommitment>, n: int, k: (u64, ChainId))
    requires
        0 <= n <= cs.len(),
        forall|j: int| n <= j < cs.len() ==> (#[trigger] cs[j].market_id, cs[j].voter_chain) != k,
    ensures
        commitment_map(cs).contains_key(k) == commitment_map(cs.take(n)).contains_key(k),
        commitment_map(cs).contains_key(k) ==> commitment_map(cs)[k] == commitment_map(
            cs.take(n),
        )[k],
    decreases cs.len(),
{
    if cs.len() > n {
        let d = cs.drop_last();
        assert(d.take(n) =~= cs.take(n));
        assert(forall|j: int| n <= j < d.len() ==> d[j] == cs[j]);
        lemma_commitment_map_tail(d, n, k);
    } else {
        assert(cs.take(n) =~= cs);
    }
}

impl OracleCoordinatorState {
    /// Stores `commitment`, replacing any earlier one of the same voter on the
    /// same market.
    pub fn add_commitment(&mut self, commitment: VoteCommitment)
        requires
            old(self).wf(),
        ensures
            final(self).wf(),
            final(self).commitments@ == old(self).commitments@.push(commitment),
            commitment_map(final(self).commitments@) == commitment_map(
                old(self).commitments@,
            ).insert((commitment.market_id, commitment.voter_chain), commitment),
            *final(self) == (OracleCoordinatorState {
                commitments: final(self).commitments,
                ..*old(self)
            }),
    {
        self.commitments.push(commitment);
        assert(self.commitments@.drop_last() =~= old(self).commitments@);
    }

    /// The live commitment of `voter` on market `market_id`, if any.
    pub fn get_commitment(&self, market_id: u64, voter: ChainId) -> (r: Option<VoteCommitment>)
        ensures
            r == (if commitment_map(self.commitments@).contains_key((market_id, voter)) {
                Some(commitment_map(self.commitments@)[(market_id, voter)])
            } else {
                None
            }),
    {
        let ghost cs = self.commitments@;
        let ghost k = (market_id, voter);
        let mut i: usize = self.commitments.len();
        while i > 0
            invariant
                cs == self.commitments@,
                k == (market_id, voter),
                i <= cs.len(),
                forall|j: int| i <= j < cs.len() ==> (#[trigger] cs[j].market_id, cs[j].voter_chain) != k,
            decreases i,
        {
            let c = self.commitments[i - 1];
            if c.market_id == market_id && c.voter_chain == voter {
                proof {
                    lemma_commitment_map_tail(cs, i as int, k);
                    assert(cs.take(i as int).drop_last() =~= cs.take(i - 1));
                }
                return Some(c);
            }
            i = i - 1;
        }
        proof {
            lemma_commitment_map_tail(cs, 0, k);
        }
        None
    }

    /// Whether `voter` has revealed on market `market_id`.
    pub fn has_reveal(&self, market_id: u64, voter: ChainId) -> (r: bool)
        ensures
            r == has_revealed(self.reveals@, market_id, voter),
    {
        let mut i: usize = 0;
        while i < self.reveals.len()
            invariant
                i <= self.reveals@.len(),
                forall|j: int|
                    0 <= j < i ==> !(self.reveals@[j].market_id == market_id
                        && self.reveals@[j].voter_chain == voter),
            decreases self.reveals@.len() - i,
        {
            if self.reveals[i].market_id == market_id && self.reveals[i].voter_chain == voter {
                return true;
            }
            i = i + 1;
        }
        false
    }

    /// Stores `reveal`, the first of its voter on its market.
    pub fn add_reveal(&mut self, reveal: VoteReveal)
        requires
            old(self).wf(),
            !has_revealed(old(self).reveals@, reveal.market_id, reveal.voter_chain),
            reveal.market_id < old(self).markets@.len(),
            reveal.outcome_index < old(self).markets@[reveal.market_id as int].outcomes@.len(),
        ensures
            final(self).wf(),
            final(self).reveals@ == old(self).reveals@.push(reveal),
            *final(self) == (OracleCoordinatorState { reveals: final(self).reveals, ..*old(self) }),
    {
        self.reveals.push(reveal);
        proof {
            assert forall|i: int, j: int|
                0 <= i < j < self.reveals@.len() implies !((#[trigger] self.reveals@[i]).market_id
                == (#[trigger] self.reveals@[j]).market_id && self.reveals@[i].voter_chain
                == self.reveals@[j].voter_chain) by {
                if j == self.reveals@.len() - 1 {
                    assert(old(self).reveals@[i] == self.reveals@[i]);
                }
            }
        }
    }

    /// The reveals of market `market_id`, in arrival order.
    pub fn get_all_reveals(&self, market_id: u64) -> (r: Vec<VoteReveal>)
        ensures
            r@ == reveals_of(self.reveals@, market_id),
    {
        let ghost rs = self.reveals@;
        let mut out: Vec<VoteReveal> = Vec::new();
        let mut i: usize = 0;
        while i < self.reveals.len()
            invariant
                rs == self.reveals@,
                i <= rs.len(),
                out@ == reveals_of(rs.take(i as int), market_id),
            decreases rs.len() - i,
        {
            proof {
                assert(rs.take(i + 1).drop_last() =~= rs.take(i as int));
                reveal(Seq::filter);
            }
            let r = self.reveals[i];
            if r.market_id == market_id {
                out.push(r);
            }
            i = i + 1;
        }
        assert(rs.take(rs.len() as int) =~= rs);
        out
    }
}

impl OracleCoordinatorState {
    /// Whether the commitment of `voter` on market `market_id` was forfeited.
    pub fn has_forfeited(&self, market_id: u64, voter: ChainId) -> (r: bool)
        ensures
            r == is_forfeited(self.forfeited@, market_id, voter),
    {
        let mut i: usize = 0;
        while i < self.forfeited.len()
            invariant
                i <= self.forfeited@.len(),
                forall|j: int| 0 <= j < i ==> self.forfeited@[j] != (market_id, voter),
            decreases self.forfeited@.len() - i,
        {
            let (m, v) = self.forfeited[i];
            if m == market_id && v == voter {
                assert(self.forfeited@[i as int] == (market_id, voter));
                return true;
            }
            i = i + 1;
        }
        false
    }

    /// Marks the commitment of `voter` on market `market_id` as forfeited.
    pub fn forfeit(&mut self, market_id: u64, voter: ChainId)
        requires
            old(self).wf(),
        ensures
            final(self).wf(),
            final(self).forfeited@ == old(self).forfeited@.push((market_id, voter)),
            *final(self) == (OracleCoordinatorState { forfeited: final(self).forfeited, ..*old(self) }),
    {
        self.forfeited.push((market_id, voter));
    }
}

} // verus!
