use alethea_oracle::market_chain::{
    InitialState, MarketChainContract, MarketConfig, MarketOperation, MarketResponse,
    MarketStatus, Message, Parameters,
};
use alethea_oracle::types::{from_tokens, AccountOwner, ChainId, Context};

fn signer() -> AccountOwner {
    AccountOwner { hi: 4, lo: 4 }
}

fn ctx(now: u64) -> Context {
    Context { now, chain_id: ChainId { hi: 0, lo: 1 }, signer: Some(signer()) }
}

fn create_test_contract() -> MarketChainContract {
    MarketChainContract::instantiate(Parameters { oracle_chain_id: None }, InitialState { markets: vec![] })
}

#[test]
fn test_create_market() {
    let mut contract = create_test_contract();
    let operation = MarketOperation::CreateMarket {
        question: "Will BTC hit 100k?".to_string(),
        outcomes: vec!["Yes".to_string(), "No".to_string()],
        resolution_deadline: 1000000,
        initial_liquidity: from_tokens(1000),
    };
    let (response, _) = contract.execute_operation(&ctx(0), operation);
    match response {
        MarketResponse::MarketCreated(id) => {
            assert_eq!(id, 0);
        }
        _ => panic!("Expected MarketCreated"),
    }
    assert_eq!(contract.state.markets[0].outcome_pools, vec![from_tokens(500), from_tokens(500)]);
}

#[test]
fn initial_markets() {
    let configs = vec![
        MarketConfig { question: "A?".to_string(), outcomes: vec!["x".to_string(), "y".to_string(), "z".to_string()], resolution_deadline: 5 },
        MarketConfig { question: "B?".to_string(), outcomes: vec!["x".to_string()], resolution_deadline: 6 },
    ];
    let c = MarketChainContract::instantiate(Parameters { oracle_chain_id: None }, InitialState { markets: configs });
    assert_eq!(c.state.next_market_id, 2);
    assert_eq!(c.state.markets[1].id, 1);
    assert_eq!(c.state.markets[0].outcome_pools, vec![0, 0, 0]);
    assert_eq!(c.state.markets[1].status, MarketStatus::Open);
}

#[test]
fn trade_resolve_claim() {
    let oracle = ChainId { hi: 8, lo: 8 };
    let mut c = MarketChainContract::instantiate(Parameters { oracle_chain_id: Some(oracle) }, InitialState { markets: vec![] });
    c.create_market(&ctx(0), "Q?".to_string(), vec!["Yes".to_string(), "No".to_string()], 100, 10);
    assert!(matches!(c.buy_shares(&ctx(1), 0, 1, 40), MarketResponse::SharesPurchased { shares: 40 }));
    assert!(matches!(c.buy_shares(&ctx(2), 0, 1, 2), MarketResponse::SharesPurchased { shares: 2 }));
    assert_eq!(c.state.markets[0].outcome_pools, vec![5, 47]);
    assert_eq!(c.state.markets[0].total_liquidity, 52);
    assert_eq!(c.state.positions.len(), 1);
    assert_eq!(c.state.positions[0].shares, 42);
    assert_eq!(c.state.positions[0].average_price, 2);
    let (r, msgs) = c.request_resolution(&ctx(100), 0);
    assert!(matches!(r, MarketResponse::ResolutionRequested));
    assert_eq!(msgs.len(), 1);
    assert_eq!(msgs[0].destination, oracle);
    assert_eq!(c.state.markets[0].status, MarketStatus::WaitingResolution);
    c.execute_message(Message::ResolutionResult { market_id: 0, outcome_index: 1 });
    assert_eq!(c.state.markets[0].final_outcome, Some(1));
    match c.claim_winnings(&ctx(200), 0) {
        MarketResponse::WinningsClaimed { amount } => assert_eq!(amount, from_tokens(42)),
        _ => panic!("no winnings"),
    }
    c.handle_resolution(0, 0);
    match c.claim_winnings(&ctx(200), 0) {
        MarketResponse::WinningsClaimed { amount } => assert_eq!(amount, 0),
        _ => panic!("no winnings"),
    }
    match c.get_position(0, AccountOwner { hi: 1, lo: 1 }) {
        MarketResponse::Position(p) => assert_eq!(p.shares, 0),
        _ => panic!("no position"),
    }
    match c.get_market(0) {
        MarketResponse::Market(d) => assert_eq!(d.outcomes.len(), 2),
        _ => panic!("no market"),
    }
    assert!(matches!(c.set_oracle_chain(None), MarketResponse::Acknowledged));
    let (_, msgs) = c.request_resolution(&ctx(300), 0);
    assert!(msgs.is_empty());
}

#[test]
fn shares_are_counted_in_64_bits() {
    let mut c = create_test_contract();
    c.create_market(&ctx(0), "Q?".to_string(), vec!["Yes".to_string()], 100, 0);
    let amount = (1u128 << 64) + 3;
    assert!(matches!(c.buy_shares(&ctx(1), 0, 0, amount), MarketResponse::SharesPurchased { shares: 3 }));
}
