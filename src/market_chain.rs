//! The prediction market that asks the coordinator for resolutions: markets
//! with a liquidity pool per outcome, share purchases at a flat rate of one
//! share per atto, resolution requests and winnings.
use vstd::prelude::*;

use crate::types::{from_tokens, tokens_spec, AccountOwner, Amount, ChainId, Context, Timestamp};

verus! {

/// Marker for the market chain's interface.
pub struct MarketChainAbi;

/// Settings of a market chain.
#[derive(Clone, Copy, Debug)]
pub struct Parameters {
    /// The coordinator that resolves markets, if any.
    pub oracle_chain_id: Option<ChainId>,
}

/// Terms of a market opened at start.
#[derive(Clone, Debug)]
pub struct MarketConfig {
    pub question: String,
    pub outcomes: Vec<String>,
    pub resolution_deadline: Timestamp,
}

/// What a market chain starts from.
#[derive(Clone, Debug)]
pub struct InitialState {
    pub markets: Vec<MarketConfig>,
}

/// Where a market stands.
#[derive(Clone, Copy, Debug, PartialEq, Eq, Structural)]
pub enum MarketStatus {
    Open,
    Closed,
    WaitingResolution,
    Resolved,
}

/// A market and its pools.
#[derive(Clone, Debug)]
pub struct Market {
    pub id: u64,
    pub question: String,
    pub outcomes: Vec<String>,
    pub creator: Option<AccountOwner>,
    pub total_liquidity: Amount,
    pub outcome_pools: Vec<Amount>,
    pub resolution_deadline: Timestamp,
    pub status: MarketStatus,
    pub final_outcome: Option<usize>,
}

/// A holder's shares in one market.
#[derive(Clone, Copy, Debug, PartialEq, Eq, Structural)]
pub struct Position {
    pub market_id: u64,
    pub owner: AccountOwner,
    pub outcome_index: usize,
    pub shares: u64,
    pub average_price: Amount,
}

/// A market, as reported.
#[derive(Clone, Debug)]
pub struct MarketDetails {
    pub id: u64,
    pub question: String,
    pub outcomes: Vec<String>,
    pub creator: Option<AccountOwner>,
    pub total_liquidity: Amount,
    pub outcome_pools: Vec<Amount>,
    pub resolution_deadline: Timestamp,
    pub status: MarketStatus,
    pub final_outcome: Option<usize>,
}

/// A position, as reported.
#[derive(Clone, Copy, Debug, PartialEq, Eq, Structural)]
pub struct PositionDetails {
    pub market_id: u64,
    pub owner: AccountOwner,
    pub outcome_index: usize,
    pub shares: u64,
    pub average_price: Amount,
}

/// Operations on a market chain.
#[derive(Clone, Debug)]
pub enum MarketOperation {
    CreateMarket {
        question: String,
        outcomes: Vec<String>,
        resolution_deadline: Timestamp,
        initial_liquidity: Amount,
    },
    BuyShares { market_id: u64, outcome_index: usize, amount: Amount },
    RequestResolution { market_id: u64 },
    ClaimWinnings { market_id: u64 },
    GetMarket { market_id: u64 },
    GetPosition { market_id: u64, owner: AccountOwner },
    SetOracleChain { oracle_chain_id: Option<ChainId> },
}

/// A market chain's answers.
#[derive(Clone, Debug)]
pub enum MarketResponse {
    MarketCreated(u64),
    SharesPurchased { shares: u64 },
    ResolutionRequested,
    WinningsClaimed { amount: Amount },
    Market(MarketDetails),
    Position(PositionDetails),
    Acknowledged,
}

/// Messages between a market chain and the coordinator.
#[derive(Clone, Debug)]
pub enum Message {
    /// From the coordinator: the outcome of a market.
    ResolutionResult { market_id: u64, outcome_index: usize },
    /// To the coordinator: please resolve this market.
    ResolutionRequest { market_id: u64, question: String, outcomes: Vec<String> },
}

/// A market message to send, with its destination.
#[derive(Clone, Debug)]
pub struct MarketOutgoing {
    pub destination: ChainId,
    pub message: Message,
}

/// `a + b`, at most `u128::MAX`.
pub open spec fn sat_add(a: u128, b: u128) -> u128 {
    if a + b > u128::MAX {
        u128::MAX
    } else {
        (a + b) as u128
    }
}

/// Shares bought with `amount`: one per atto, in 64 bits.
pub open spec fn shares_spec(amount: Amount) -> u64 {
    (amount % 0x1_0000_0000_0000_0000) as u64
}

/// Whether `p` is `owner`'s position in market `market_id`.
pub open spec fn is_position_of(p: Position, market_id: u64, owner: AccountOwner) -> bool {
    p.market_id == market_id && p.owner == owner
}

/// Whether `owner` holds a position in market `market_id`.
pub open spec fn has_position(ps: Seq<Position>, market_id: u64, owner: AccountOwner) -> bool {
    exists|i: int| 0 <= i < ps.len() && is_position_of(#[trigger] ps[i], market_id, owner)
}

/// Index of `owner`'s position in market `market_id`.
pub open spec fn position_index(ps: Seq<Position>, market_id: u64, owner: AccountOwner) -> int {
    choose|i: int| 0 <= i < ps.len() && is_position_of(#[trigger] ps[i], market_id, owner)
}

/// Whether two markets hold the same values.
pub open spec fn same_market(a: Market, b: Market) -> bool {
    &&& a.id == b.id
    &&& a.question == b.question
    &&& a.outcomes@ == b.outcomes@
    &&& a.creator == b.creator
    &&& a.total_liquidity == b.total_liquidity
    &&& a.outcome_pools@ == b.outcome_pools@
    &&& a.resolution_deadline == b.resolution_deadline
    &&& a.status == b.status
    &&& a.final_outcome == b.final_outcome
}

/// Makes a copy of a list of strings.
fn copy_strings(v: &Vec<String>) -> (r: Vec<String>)
    ensures
        r@ == v@,
{
    let mut out: Vec<String> = Vec::new();
    let mut i: usize = 0;
    while i < v.len()
        invariant
            i <= v@.len(),
            out@ == v@.take(i as int),
        decreases v@.len() - i,
    {
        out.push(v[i].clone());
        proof {
            assert(v@.take(i + 1) =~= v@.take(i as int).push(v@[i as int]));
        }
        i = i + 1;
    }
    assert(v@.take(v@.len() as int) =~= v@);
    out
}

/// Makes a copy of a list of amounts.
fn copy_amounts(v: &Vec<Amount>) -> (r: Vec<Amount>)
    ensures
        r@ == v@,
{
    let mut out: Vec<Amount> = Vec::new();
    let mut i: usize = 0;
    while i < v.len()
        invariant
            i <= v@.len(),
            out@ == v@.take(i as int),
        decreases v@.len() - i,
    {
        out.push(v[i]);
        proof {
            assert(v@.take(i + 1) =~= v@.take(i as int).push(v@[i as int]));
        }
        i = i + 1;
    }
    assert(v@.take(v@.len() as int) =~= v@);
    out
}

/// `n` copies of `a`.
fn repeat_amount(a: Amount, n: usize) -> (r: Vec<Amount>)
    ensures
        r@ == Seq::new(n as nat, |i: int| a),
{
    let mut out: Vec<Amount> = Vec::new();
    let mut i: usize = 0;
    while i < n
        invariant
            i <= n,
            out@ == Seq::new(i as nat, |j: int| a),
        decreases n - i,
    {
        out.push(a);
        proof {
            assert(out@ =~= Seq::new((i + 1) as nat, |j: int| a));
        }
        i = i + 1;
    }
    out
}

/// Shares bought with `amount` in `market`: one per atto, in 64 bits.
pub fn calculate_shares(market: &Market, outcome_index: usize, amount: Amount) -> (r: u64)
    ensures
        r == shares_spec(amount),
{
    (amount % 0x1_0000_0000_0000_0000) as u64
}

/// The market chain's state: market `i` sits at index `i`, and each holder
/// has at most one position per market.
pub struct MarketState {
    pub next_market_id: u64,
    pub markets: Vec<Market>,
    pub positions: Vec<Position>,
    pub oracle_chain: Option<ChainId>,
}

impl MarketState {
    /// The state's invariants.
    pub open spec fn wf(&self) -> bool {
        &&& self.markets@.len() == self.next_market_id
        &&& forall|i: int|
            0 <= i < self.markets@.len() ==> (#[trigger] self.markets@[i]).id == i
                && self.markets@[i].outcome_pools@.len() == self.markets@[i].outcomes@.len()
        &&& forall|i: int, j: int|
            0 <= i < j < self.positions@.len() ==> !is_position_of(
                #[trigger] self.positions@[i],
                (#[trigger] self.positions@[j]).market_id,
                self.positions@[j].owner,
            )
    }

    /// An empty state.
    pub fn new(oracle_chain: Option<ChainId>) -> (r: Self)
        ensures
            r.wf(),
            r.next_market_id == 0,
            r.positions@.len() == 0,
            r.oracle_chain == oracle_chain,
    {
        MarketState { next_market_id: 0, markets: Vec::new(), positions: Vec::new(), oracle_chain }
    }

    /// Index of `owner`'s position in market `market_id`, if any.
    pub fn find_position(&self, market_id: u64, owner: &AccountOwner) -> (r: Option<usize>)
        requires
            self.wf(),
        ensures
            r is None <==> !has_position(self.positions@, market_id, *owner),
            r matches Some(i) ==> i == position_index(self.positions@, market_id, *owner) && i
                < self.positions@.len(),
    {
        let mut i: usize = 0;
        while i < self.positions.len()
            invariant
                self.wf(),
                i <= self.positions@.len(),
                forall|j: int|
                    0 <= j < i ==> !is_position_of(#[trigger] self.positions@[j], market_id, *owner),
            decreases self.positions@.len() - i,
        {
            if self.positions[i].market_id == market_id && self.positions[i].owner == *owner {
                proof {
                    assert(is_position_of(self.positions@[i as int], market_id, *owner));
                    assert(has_position(self.positions@, market_id, *owner));
                    let k = position_index(self.positions@, market_id, *owner);
                    assert(0 <= k < self.positions@.len() && is_position_of(self.positions@[k], market_id, *owner));
                    if k > i {
                        assert(!is_position_of(
                            self.positions@[i as int],
                            self.positions@[k].market_id,
                            self.positions@[k].owner,
                        ));
                    }
                    if k != i {
                        if k < i {
                            assert(!is_position_of(self.positions@[k], market_id, *owner));
                        } else {
                            assert(!is_position_of(
                                self.positions@[i as int],
                                self.positions@[k].market_id,
                                self.positions@[k].owner,
                            ));
                        }
                    }
                }
                return Some(i);
            }
            i = i + 1;
        }
        None
    }

    /// `owner`'s position in market `market_id`, if any.
    pub fn get_position(&self, market_id: u64, owner: &AccountOwner) -> (r: Option<Position>)
        requires
            self.wf(),
        ensures
            r == (if has_position(self.positions@, market_id, *owner) {
                Some(self.positions@[position_index(self.positions@, market_id, *owner)])
            } else {
                None
            }),
    {
        match self.find_position(market_id, owner) {
            Some(i) => Some(self.positions[i]),
            None => None,
        }
    }

    /// A copy of market `market_id`, if there is one.
    pub fn get_market(&self, market_id: u64) -> (r: Option<Market>)
        requires
            self.wf(),
        ensures
            r is Some <==> market_id < self.markets@.len(),
            r matches Some(m) ==> same_market(m, self.markets@[market_id as int]),
    {
        if market_id >= self.markets.len() as u64 {
            return None;
        }
        let m = &self.markets[market_id as usize];
        Some(
            Market {
                id: m.id,
                question: m.question.clone(),
                outcomes: copy_strings(&m.outcomes),
                creator: m.creator,
                total_liquidity: m.total_liquidity,
                outcome_pools: copy_amounts(&m.outcome_pools),
                resolution_deadline: m.resolution_deadline,
                status: m.status,
                final_outcome: m.final_outcome,
            },
        )
    }

    /// Sets the status of market `market_id`.
    pub fn set_status(&mut self, market_id: u64, status: MarketStatus)
        requires
            old(self).wf(),
            market_id < old(self).markets@.len(),
        ensures
            final(self).wf(),
            final(self).markets@ == old(self).markets@.update(
                market_id as int,
                Market { status, ..old(self).markets@[market_id as int] },
            ),
            final(self).positions == old(self).positions,
            final(self).next_market_id == old(self).next_market_id,
            final(self).oracle_chain == old(self).oracle_chain,
    {
        proof {
            assert(self.markets@.len() == self.markets.len());
        }
        self.markets[market_id as usize].status = status;
    }

    /// Opens a market, with empty pools, for each configuration in turn.
    pub fn initialize_markets(&mut self, markets: Vec<MarketConfig>)
        requires
            old(self).wf(),
            old(self).next_market_id + markets@.len() <= u64::MAX,
        ensures
            final(self).wf(),
            final(self).markets@.len() == old(self).markets@.len() + markets@.len(),
            forall|i: int|
                0 <= i < old(self).markets@.len() ==> #[trigger] final(self).markets@[i]
                    == old(self).markets@[i],
            forall|i: int|
                0 <= i < markets@.len() ==> {
                    let m = #[trigger] final(self).markets@[old(self).markets@.len() + i];
                    &&& m.question == markets@[i].question
                    &&& m.outcomes@ == markets@[i].outcomes@
                    &&& m.creator is None
                    &&& m.total_liquidity == 0
                    &&& m.outcome_pools@ == Seq::new(markets@[i].outcomes@.len(), |j: int| 0u128)
                    &&& m.resolution_deadline == markets@[i].resolution_deadline
                    &&& m.status == MarketStatus::Open
                    &&& m.final_outcome is None
                },
            final(self).positions == old(self).positions,
            final(self).oracle_chain == old(self).oracle_chain,
    {
        let ghost configs = markets@;
        let ghost start = self.markets@.len();
        let mut rest = markets;
        let n = rest.len();
        let mut i: usize = 0;
        while i < n
            invariant
                self.wf(),
                n == configs.len(),
                start == old(self).markets@.len(),
                start == old(self).next_market_id,
                old(self).next_market_id + configs.len() <= u64::MAX,
                self.markets@.len() == start + i,
                i <= n,
                rest@ == configs.subrange(i as int, n as int),
                forall|k: int|
                    0 <= k < start ==> #[trigger] self.markets@[k] == old(self).markets@[k],
                forall|k: int|
                    0 <= k < i ==> {
                        let m = #[trigger] self.markets@[start + k];
                        &&& m.question == configs[k].question
                        &&& m.outcomes@ == configs[k].outcomes@
                        &&& m.creator is None
                        &&& m.total_liquidity == 0
                        &&& m.outcome_pools@ == Seq::new(configs[k].outcomes@.len(), |j: int| 0u128)
                        &&& m.resolution_deadline == configs[k].resolution_deadline
                        &&& m.status == MarketStatus::Open
                        &&& m.final_outcome is None
                    },
                self.positions == old(self).positions,
                self.oracle_chain == old(self).oracle_chain,
            decreases n - i,
        {
            let config = rest.remove(0);
            assert(config == configs[i as int]);
            assert(rest@ =~= configs.subrange(i + 1, n as int));
            let market_id = self.next_market_id;
            let pools = repeat_amount(0, config.outcomes.len());
            let market = Market {
                id: market_id,
                question: config.question,
                outcomes: config.outcomes,
                creator: None,
                total_liquidity: 0,
                outcome_pools: pools,
                resolution_deadline: config.resolution_deadline,
                status: MarketStatus::Open,
                final_outcome: None,
            };
            self.markets.push(market);
            self.next_market_id = market_id + 1;
            i = i + 1;
        }
    }
}

/// The market chain: its state and handlers.
pub struct MarketChainContract {
    pub state: MarketState,
}

impl MarketChainContract {
    /// A market chain with the markets of `initial_state`.
    pub fn instantiate(params: Parameters, initial_state: InitialState) -> (r: Self)
        requires
            initial_state.markets@.len() <= u64::MAX,
        ensures
            r.state.wf(),
            r.state.markets@.len() == initial_state.markets@.len(),
            r.state.oracle_chain == params.oracle_chain_id,
    {
        let mut state = MarketState::new(params.oracle_chain_id);
        state.initialize_markets(initial_state.markets);
        MarketChainContract { state }
    }

    /// Opens a market for the signer, its initial liquidity split evenly
    /// over the outcomes (rounded down).
    pub fn create_market(
        &mut self,
        ctx: &Context,
        question: String,
        outcomes: Vec<String>,
        resolution_deadline: Timestamp,
        initial_liquidity: Amount,
    ) -> (r: MarketResponse)
        requires
            old(self).state.wf(),
            ctx.signer is Some,
            outcomes@.len() > 0,
            old(self).state.next_market_id < u64::MAX,
        ensures
            final(self).state.wf(),
            r == MarketResponse::MarketCreated(old(self).state.next_market_id),
            final(self).state.markets@ == old(self).state.markets@.push(final(self).state.markets@.last()),
            ({
                let m = final(self).state.markets@.last();
                &&& m.id == old(self).state.next_market_id
                &&& m.question == question
                &&& m.outcomes@ == outcomes@
                &&& m.creator == ctx.signer
                &&& m.total_liquidity == initial_liquidity
                &&& m.outcome_pools@ == Seq::new(
                    outcomes@.len(),
                    |i: int| (initial_liquidity / (outcomes@.len() as u128)) as u128,
                )
                &&& m.resolution_deadline == resolution_deadline
                &&& m.status == MarketStatus::Open
                &&& m.final_outcome is None
            }),
            final(self).state.next_market_id == old(self).state.next_market_id + 1,
            final(self).state.positions == old(self).state.positions,
            final(self).state.oracle_chain == old(self).state.oracle_chain,
    {
        let market_id = self.state.next_market_id;
        let creator = ctx.signer;
        let n = outcomes.len();
        let per_outcome = initial_liquidity / (n as u128);
        let pools = repeat_amount(per_outcome, n);
        let market = Market {
            id: market_id,
            question,
            outcomes,
            creator,
            total_liquidity: initial_liquidity,
            outcome_pools: pools,
            resolution_deadline,
            status: MarketStatus::Open,
            final_outcome: None,
        };
        self.state.markets.push(market);
        self.state.next_market_id = market_id + 1;
        MarketResponse::MarketCreated(market_id)
    }

    /// Buys shares of an outcome of an open market for the signer: the
    /// amount joins the outcome's pool and the market's liquidity, and the
    /// signer's position in the market gains one share per atto.
    pub fn buy_shares(&mut self, ctx: &Context, market_id: u64, outcome_index: usize, amount: Amount) -> (r:
        MarketResponse)
        requires
            old(self).state.wf(),
            ctx.signer is Some,
            market_id < old(self).state.markets@.len(),
            old(self).state.markets@[market_id as int].status == MarketStatus::Open,
            outcome_index < old(self).state.markets@[market_id as int].outcomes@.len(),
            has_position(old(self).state.positions@, market_id, ctx.signer->Some_0) ==> old(self).state.positions@[position_index(
                old(self).state.positions@,
                market_id,
                ctx.signer->Some_0,
            )].shares + shares_spec(amount) <= u64::MAX,
        ensures
            final(self).state.wf(),
            r == (MarketResponse::SharesPurchased { shares: shares_spec(amount) }),
            ({
                let m = old(self).state.markets@[market_id as int];
                final(self).state.markets@ == old(self).state.markets@.update(
                    market_id as int,
                    final(self).state.markets@[market_id as int],
                ) && final(self).state.markets@[market_id as int].outcome_pools@
                    == m.outcome_pools@.update(
                    outcome_index as int,
                    sat_add(m.outcome_pools@[outcome_index as int], amount),
                ) && final(self).state.markets@[market_id as int].total_liquidity == sat_add(
                    m.total_liquidity,
                    amount,
                ) && final(self).state.markets@[market_id as int].outcomes == m.outcomes
                    && final(self).state.markets@[market_id as int].status == m.status
            }),
            ({
                let owner = ctx.signer->Some_0;
                let ps = old(self).state.positions@;
                if has_position(ps, market_id, owner) {
                    let i = position_index(ps, market_id, owner);
                    final(self).state.positions@ == ps.update(
                        i,
                        Position {
                            shares: (ps[i].shares + shares_spec(amount)) as u64,
                            average_price: amount,
                            ..ps[i]
                        },
                    )
                } else {
                    final(self).state.positions@ == ps.push(
                        Position {
                            market_id,
                            owner,
                            outcome_index,
                            shares: shares_spec(amount),
                            average_price: amount,
                        },
                    )
                }
            }),
            final(self).state.next_market_id == old(self).state.next_market_id,
            final(self).state.oracle_chain == old(self).state.oracle_chain,
    {
        proof {
            assert(self.state.markets@.len() == self.state.markets.len());
        }
        let id = market_id as usize;
        assert(self.state.markets@[id as int].outcome_pools@.len()
            == self.state.markets@[id as int].outcomes@.len());
        let shares = calculate_shares(&self.state.markets[id], outcome_index, amount);
        let mut pools = copy_amounts(&self.state.markets[id].outcome_pools);
        assert(pools@.len() == self.state.markets@[id as int].outcomes@.len());
        let pool = pools[outcome_index];
        pools.set(outcome_index, pool.saturating_add(amount));
        self.state.markets[id].outcome_pools = pools;
        let liquidity = self.state.markets[id].total_liquidity;
        self.state.markets[id].total_liquidity = liquidity.saturating_add(amount);
        let owner = match ctx.signer {
            Some(o) => o,
            None => {
                return MarketResponse::SharesPurchased { shares };
            },
        };
        let ghost ps = self.state.positions@;
        match self.state.find_position(market_id, &owner) {
            Some(i) => {
                let p = self.state.positions[i];
                self.state.positions.set(
                    i,
                    Position { shares: p.shares + shares, average_price: amount, ..p },
                );
                proof {
                    assert forall|a: int, b: int|
                        0 <= a < b < self.state.positions@.len() implies !is_position_of(
                        #[trigger] self.state.positions@[a],
                        (#[trigger] self.state.positions@[b]).market_id,
                        self.state.positions@[b].owner,
                    ) by {
                        assert(self.state.positions@[a].market_id == ps[a].market_id);
                        assert(self.state.positions@[a].owner == ps[a].owner);
                        assert(self.state.positions@[b].market_id == ps[b].market_id);
                        assert(self.state.positions@[b].owner == ps[b].owner);
                    }
                }
            },
            None => {
                self.state.positions.push(
                    Position {
                        market_id,
                        owner,
                        outcome_index,
                        shares,
                        average_price: amount,
                    },
                );
                proof {
                    assert forall|a: int, b: int|
                        0 <= a < b < self.state.positions@.len() implies !is_position_of(
                        #[trigger] self.state.positions@[a],
                        (#[trigger] self.state.positions@[b]).market_id,
                        self.state.positions@[b].owner,
                    ) by {
                        if b == ps.len() {
                            assert(self.state.positions@[a] == ps[a]);
                        }
                    }
                }
            },
        }
        MarketResponse::SharesPurchased { shares }
    }

    /// Marks a market whose deadline has passed as waiting for resolution
    /// and asks the coordinator, if one is set, to resolve it.
    pub fn request_resolution(&mut self, ctx: &Context, market_id: u64) -> (r: (
        MarketResponse,
        Vec<MarketOutgoing>,
    ))
        requires
            old(self).state.wf(),
            market_id < old(self).state.markets@.len(),
            ctx.now >= old(self).state.markets@[market_id as int].resolution_deadline,
        ensures
            final(self).state.wf(),
            r.0 == MarketResponse::ResolutionRequested,
            final(self).state.markets@ == old(self).state.markets@.update(
                market_id as int,
                Market {
                    status: MarketStatus::WaitingResolution,
                    ..old(self).state.markets@[market_id as int]
                },
            ),
            final(self).state.positions == old(self).state.positions,
            final(self).state.next_market_id == old(self).state.next_market_id,
            final(self).state.oracle_chain == old(self).state.oracle_chain,
            old(self).state.oracle_chain is None ==> r.1@.len() == 0,
            old(self).state.oracle_chain is Some ==> (r.1@.len() == 1 && r.1@[0].destination
                == old(self).state.oracle_chain->Some_0 && (r.1@[0].message matches Message::ResolutionRequest {
                market_id: m,
                question,
                outcomes,
            } && m == market_id && question == old(self).state.markets@[market_id as int].question
                && outcomes@ == old(self).state.markets@[market_id as int].outcomes@)),
    {
        proof {
            assert(self.state.markets@.len() == self.state.markets.len());
        }
        let id = market_id as usize;
        let question = self.state.markets[id].question.clone();
        let outcomes = copy_strings(&self.state.markets[id].outcomes);
        self.state.set_status(market_id, MarketStatus::WaitingResolution);
        let mut msgs: Vec<MarketOutgoing> = Vec::new();
        if let Some(oracle_chain) = self.state.oracle_chain {
            msgs.push(
                MarketOutgoing {
                    destination: oracle_chain,
                    message: Message::ResolutionRequest { market_id, question, outcomes },
                },
            );
        }
        (MarketResponse::ResolutionRequested, msgs)
    }

    /// Records the coordinator's outcome for a market.
    pub fn handle_resolution(&mut self, market_id: u64, outcome_index: usize)
        requires
            old(self).state.wf(),
            market_id < old(self).state.markets@.len(),
        ensures
            final(self).state.wf(),
            final(self).state.markets@ == old(self).state.markets@.update(
                market_id as int,
                Market {
                    status: MarketStatus::Resolved,
                    final_outcome: Some(outcome_index),
                    ..old(self).state.markets@[market_id as int]
                },
            ),
            final(self).state.positions == old(self).state.positions,
            final(self).state.next_market_id == old(self).state.next_market_id,
            final(self).state.oracle_chain == old(self).state.oracle_chain,
    {
        proof {
            assert(self.state.markets@.len() == self.state.markets.len());
        }
        self.state.set_status(market_id, MarketStatus::Resolved);
        self.state.markets[market_id as usize].final_outcome = Some(outcome_index);
    }

    /// Pays out the signer's position in a resolved market: one token per
    /// share on the winning outcome, nothing otherwise.
    pub fn claim_winnings(&self, ctx: &Context, market_id: u64) -> (r: MarketResponse)
        requires
            self.state.wf(),
            ctx.signer is Some,
            market_id < self.state.markets@.len(),
            self.state.markets@[market_id as int].status == MarketStatus::Resolved,
            self.state.markets@[market_id as int].final_outcome is Some,
            has_position(self.state.positions@, market_id, ctx.signer->Some_0),
        ensures
            ({
                let p = self.state.positions@[position_index(
                    self.state.positions@,
                    market_id,
                    ctx.signer->Some_0,
                )];
                r == MarketResponse::WinningsClaimed {
                    amount: if p.outcome_index
                        == self.state.markets@[market_id as int].final_outcome->Some_0 {
                        tokens_spec(p.shares as u128)
                    } else {
                        0
                    },
                }
            }),
    {
        proof {
            assert(self.state.markets@.len() == self.state.markets.len());
        }
        let m = &self.state.markets[market_id as usize];
        let owner = match ctx.signer {
            Some(o) => o,
            None => {
                return MarketResponse::WinningsClaimed { amount: 0 };
            },
        };
        let position = match self.state.get_position(market_id, &owner) {
            Some(p) => p,
            None => {
                return MarketResponse::WinningsClaimed { amount: 0 };
            },
        };
        let final_outcome = match m.final_outcome {
            Some(o) => o,
            None => {
                return MarketResponse::WinningsClaimed { amount: 0 };
            },
        };
        if position.outcome_index == final_outcome {
            MarketResponse::WinningsClaimed { amount: from_tokens(position.shares as u128) }
        } else {
            MarketResponse::WinningsClaimed { amount: 0 }
        }
    }

    /// Reports a market.
    pub fn get_market(&self, market_id: u64) -> (r: MarketResponse)
        requires
            self.state.wf(),
            market_id < self.state.markets@.len(),
        ensures
            r matches MarketResponse::Market(d) && ({
                let m = self.state.markets@[market_id as int];
                &&& d.id == m.id
                &&& d.question == m.question
                &&& d.outcomes@ == m.outcomes@
                &&& d.creator == m.creator
                &&& d.total_liquidity == m.total_liquidity
                &&& d.outcome_pools@ == m.outcome_pools@
                &&& d.resolution_deadline == m.resolution_deadline
                &&& d.status == m.status
                &&& d.final_outcome == m.final_outcome
            }),
    {
        let m = match self.state.get_market(market_id) {
            Some(m) => m,
            None => {
                return MarketResponse::Acknowledged;
            },
        };
        MarketResponse::Market(
            MarketDetails {
                id: m.id,
                question: m.question,
                outcomes: m.outcomes,
                creator: m.creator,
                total_liquidity: m.total_liquidity,
                outcome_pools: m.outcome_pools,
                resolution_deadline: m.resolution_deadline,
                status: m.status,
                final_outcome: m.final_outcome,
            },
        )
    }

    /// Reports `owner`'s position in a market; an empty one if none.
    pub fn get_position(&self, market_id: u64, owner: AccountOwner) -> (r: MarketResponse)
        requires
            self.state.wf(),
        ensures
            has_position(self.state.positions@, market_id, owner) ==> ({
                let p = self.state.positions@[position_index(self.state.positions@, market_id, owner)];
                r == MarketResponse::Position(
                    PositionDetails {
                        market_id: p.market_id,
                        owner: p.owner,
                        outcome_index: p.outcome_index,
                        shares: p.shares,
                        average_price: p.average_price,
                    },
                )
            }),
            !has_position(self.state.positions@, market_id, owner) ==> r == (MarketResponse::Position(
                PositionDetails { market_id, owner, outcome_index: 0, shares: 0, average_price: 0 },
            )),
    {
        let position = match self.state.get_position(market_id, &owner) {
            Some(p) => p,
            None => Position { market_id, owner, outcome_index: 0, shares: 0, average_price: 0 },
        };
        MarketResponse::Position(
            PositionDetails {
                market_id: position.market_id,
                owner: position.owner,
                outcome_index: position.outcome_index,
                shares: position.shares,
                average_price: position.average_price,
            },
        )
    }

    /// Sets the coordinator that resolves markets.
    pub fn set_oracle_chain(&mut self, oracle_chain_id: Option<ChainId>) -> (r: MarketResponse)
        requires
            old(self).state.wf(),
        ensures
            final(self).state.wf(),
            r == MarketResponse::Acknowledged,
            final(self).state == (MarketState { oracle_chain: oracle_chain_id, ..old(self).state }),
    {
        self.state.oracle_chain = oracle_chain_id;
        MarketResponse::Acknowledged
    }
}

impl MarketChainContract {
    /// Whether `operation` can run in this state: the conditions under which
    /// each handler is defined.
    pub open spec fn operation_allowed(&self, ctx: &Context, operation: MarketOperation) -> bool {
        let st = self.state;
        match operation {
            MarketOperation::CreateMarket { outcomes, .. } => ctx.signer is Some && outcomes@.len()
                > 0 && st.next_market_id < u64::MAX,
            MarketOperation::BuyShares { market_id, outcome_index, amount } => {
                &&& ctx.signer is Some
                &&& market_id < st.markets@.len()
                &&& st.markets@[market_id as int].status == MarketStatus::Open
                &&& outcome_index < st.markets@[market_id as int].outcomes@.len()
                &&& has_position(st.positions@, market_id, ctx.signer->Some_0) ==> st.positions@[position_index(
                    st.positions@,
                    market_id,
                    ctx.signer->Some_0,
                )].shares + shares_spec(amount) <= u64::MAX
            },
            MarketOperation::RequestResolution { market_id } => market_id < st.markets@.len()
                && ctx.now >= st.markets@[market_id as int].resolution_deadline,
            MarketOperation::ClaimWinnings { market_id } => {
                &&& ctx.signer is Some
                &&& market_id < st.markets@.len()
                &&& st.markets@[market_id as int].status == MarketStatus::Resolved
                &&& st.markets@[market_id as int].final_outcome is Some
                &&& has_position(st.positions@, market_id, ctx.signer->Some_0)
            },
            MarketOperation::GetMarket { market_id } => market_id < st.markets@.len(),
            MarketOperation::GetPosition { .. } => true,
            MarketOperation::SetOracleChain { .. } => true,
        }
    }

    /// Runs an operation.
    pub fn execute_operation(&mut self, ctx: &Context, operation: MarketOperation) -> (r: (
        MarketResponse,
        Vec<MarketOutgoing>,
    ))
        requires
            old(self).state.wf(),
            old(self).operation_allowed(ctx, operation),
        ensures
            final(self).state.wf(),
    {
        match operation {
            MarketOperation::CreateMarket {
                question,
                outcomes,
                resolution_deadline,
                initial_liquidity,
            } => (
                self.create_market(ctx, question, outcomes, resolution_deadline, initial_liquidity),
                Vec::new(),
            ),
            MarketOperation::BuyShares { market_id, outcome_index, amount } => (
                self.buy_shares(ctx, market_id, outcome_index, amount),
                Vec::new(),
            ),
            MarketOperation::RequestResolution { market_id } => self.request_resolution(
                ctx,
                market_id,
            ),
            MarketOperation::ClaimWinnings { market_id } => (
                self.claim_winnings(ctx, market_id),
                Vec::new(),
            ),
            MarketOperation::GetMarket { market_id } => (self.get_market(market_id), Vec::new()),
            MarketOperation::GetPosition { market_id, owner } => (
                self.get_position(market_id, owner),
                Vec::new(),
            ),
            MarketOperation::SetOracleChain { oracle_chain_id } => (
                self.set_oracle_chain(oracle_chain_id),
                Vec::new(),
            ),
        }
    }

    /// Handles a message: a resolution from the coordinator is recorded; a
    /// request meant for the coordinator is ignored.
    pub fn execute_message(&mut self, message: Message)
        requires
            old(self).state.wf(),
            message matches Message::ResolutionResult { market_id, .. } ==> market_id < old(self).state.markets@.len(),
        ensures
            final(self).state.wf(),
    {
        match message {
            Message::ResolutionResult { market_id, outcome_index } => {
                self.handle_resolution(market_id, outcome_index);
            },
            Message::ResolutionRequest { .. } => {},
        }
    }
}

} // verus!
