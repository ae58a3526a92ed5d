use alethea_oracle::aggregation::{aggregate_weighted_majority, reward_amount, slash_amount};
use alethea_oracle::coordinator::OracleCoordinatorContract;
use alethea_oracle::hash::commitment_hash;
use alethea_oracle::ledger::{apply_change, LedgerChange};
use alethea_oracle::types::{
    from_tokens, ChainId, Context, CoordinatorOperation, CoordinatorResponse, MarketStatus,
    Message, Parameters, VoteReveal, VoterInfo,
};

fn chain(n: u128) -> ChainId {
    ChainId { hi: 7, lo: n }
}

fn ctx(now: u64) -> Context {
    Context { now, chain_id: chain(999), signer: None }
}

fn reveal_of(voter: u128, outcome: usize, power: u64, confidence: u8) -> VoteReveal {
    VoteReveal {
        voter_chain: chain(voter),
        market_id: 1,
        outcome_index: outcome,
        salt: [voter as u8; 32],
        confidence,
        voting_power: power,
        revealed_at: 0,
    }
}

fn entry(locked: u128, total: u128) -> VoterInfo {
    VoterInfo {
        chain_id: chain(1),
        reputation_score: 100,
        total_votes: 0,
        total_correct: 0,
        total_incorrect: 0,
        correct_streak: 0,
        total_stake: total,
        locked_stake: locked,
        registered_at: 0,
        last_active: 0,
    }
}

fn op(c: &mut OracleCoordinatorContract, now: u64, o: CoordinatorOperation) -> CoordinatorResponse {
    c.execute_operation(&ctx(now), o).0
}

fn error_code(r: &CoordinatorResponse) -> Option<u32> {
    match r {
        CoordinatorResponse::Error { error_code } => Some(*error_code),
        _ => None,
    }
}

fn create(c: &mut OracleCoordinatorContract, outcomes: &[&str], t: u64, v: u64, min: u32) -> CoordinatorResponse {
    op(
        c,
        0,
        CoordinatorOperation::CreateMarket {
            question: "Will it rain?".to_string(),
            outcomes: outcomes.iter().map(|s| s.to_string()).collect(),
            trading_deadline: t,
            voting_deadline: v,
            min_voters: min,
            category: "weather".to_string(),
        },
    )
}

#[test]
fn test_aggregate_weighted_majority() {
    let reveals = vec![reveal_of(0, 0, 150, 95), reveal_of(1, 0, 120, 90), reveal_of(2, 1, 100, 80)];
    let (winner, confidence) = aggregate_weighted_majority(&reveals);
    assert_eq!(winner, 0, "outcome 0 wins");
    assert!(confidence > 60, "confidence above 60%");
}

#[test]
fn weighted_majority_exact_confidence() {
    let reveals = vec![reveal_of(0, 0, 150, 95), reveal_of(1, 0, 120, 90), reveal_of(2, 1, 100, 80)];
    // 25050 of 33050, 75.79%, rounds to 76.
    assert_eq!(aggregate_weighted_majority(&reveals), (0, 76));
}

#[test]
fn weighted_majority_edge_cases() {
    assert_eq!(aggregate_weighted_majority(&vec![]), (0, 0));
    let zero = vec![reveal_of(0, 1, 100, 0), reveal_of(1, 0, 100, 0)];
    assert_eq!(aggregate_weighted_majority(&zero), (1, 0));
    let tie = vec![reveal_of(0, 1, 100, 50), reveal_of(1, 0, 50, 100)];
    assert_eq!(aggregate_weighted_majority(&tie), (1, 50));
    let tie_other_order = vec![reveal_of(1, 0, 50, 100), reveal_of(0, 1, 100, 50)];
    assert_eq!(aggregate_weighted_majority(&tie_other_order), (0, 50));
    let unanimous = vec![reveal_of(0, 3, 10, 100), reveal_of(1, 3, 20, 10)];
    assert_eq!(aggregate_weighted_majority(&unanimous), (3, 100));
    let thirds = vec![reveal_of(0, 0, 2, 100), reveal_of(1, 1, 1, 100)];
    assert_eq!(aggregate_weighted_majority(&thirds), (0, 67));
}

#[test]
fn weighted_majority_largest_values() {
    let big = vec![reveal_of(0, 0, u64::MAX, 255), reveal_of(1, 1, u64::MAX, 254)];
    assert_eq!(aggregate_weighted_majority(&big), (0, 50));
}

#[test]
fn reward_and_slash_amounts() {
    assert_eq!(reward_amount(100, 200), from_tokens(500));
    assert_eq!(reward_amount(1, 3), 333_333_333_333_333_333_333);
    assert_eq!(reward_amount(0, 0), 0);
    assert_eq!(reward_amount(u64::MAX, u64::MAX as u128), from_tokens(1000));
    assert_eq!(reward_amount(u64::MAX, 3 * u64::MAX as u128), 333_333_333_333_333_333_333);
    assert_eq!(reward_amount(7, 1u128 << 100), 0);
    assert_eq!(slash_amount(1000, 10), 100);
    assert_eq!(slash_amount(999, 10), 99);
    assert_eq!(slash_amount(u128::MAX, 100), u128::MAX);
    assert_eq!(slash_amount(u128::MAX, 0), 0);
}

#[test]
fn reputation_changes() {
    let v = entry(0, 0);
    let c1 = apply_change(&v, &LedgerChange::Correct);
    assert_eq!(c1.reputation_score, 112);
    assert_eq!(c1.correct_streak, 1);
    let c2 = apply_change(&c1, &LedgerChange::Correct);
    assert_eq!(c2.reputation_score, 126);
    assert_eq!(c2.correct_streak, 2);
    assert_eq!(c2.total_votes, 2);
    assert_eq!(c2.total_correct, 2);
    let i = apply_change(&c2, &LedgerChange::Incorrect);
    assert_eq!(i.reputation_score, 121);
    assert_eq!(i.correct_streak, 0);
    assert_eq!(i.total_incorrect, 1);
    let low = VoterInfo { reputation_score: 3, ..v };
    assert_eq!(apply_change(&low, &LedgerChange::Incorrect).reputation_score, 0);
    let top = VoterInfo { reputation_score: u64::MAX, ..v };
    assert_eq!(apply_change(&top, &LedgerChange::Correct).reputation_score, u64::MAX);
}

#[test]
fn stake_stays_within_holdings() {
    let mut v = entry(0, 100);
    let steps = [
        LedgerChange::Lock(60),
        LedgerChange::Lock(60),
        LedgerChange::Unlock(30),
        LedgerChange::Slash(80),
        LedgerChange::Lock(u128::MAX),
        LedgerChange::Slash(500),
    ];
    let expected = [(60, 100), (100, 100), (70, 100), (0, 20), (20, 20), (0, 0)];
    for (s, (locked, total)) in steps.iter().zip(expected.iter()) {
        v = apply_change(&v, s);
        assert!(v.locked_stake <= v.total_stake);
        assert_eq!((v.locked_stake, v.total_stake), (*locked, *total));
    }
}

#[test]
fn create_market_errors() {
    let mut c = OracleCoordinatorContract::new(Parameters::default());
    assert_eq!(error_code(&create(&mut c, &["Yes"], 10, 20, 3)), Some(1));
    let eleven = ["a"; 11];
    assert_eq!(error_code(&create(&mut c, &eleven, 10, 20, 3)), Some(1));
    assert_eq!(error_code(&create(&mut c, &["Yes", "No"], 20, 20, 3)), Some(2));
    assert_eq!(error_code(&create(&mut c, &["Yes", "No"], 10, 20, 2)), Some(3));
    assert_eq!(c.state().markets.len(), 0);
    match create(&mut c, &["Yes", "No"], 10, 20, 3) {
        CoordinatorResponse::MarketCreated { market_id, question_length } => {
            assert_eq!(market_id, 0);
            assert_eq!(question_length, 13);
        }
        _ => panic!("market not created"),
    }
    let ten = ["a"; 10];
    match create(&mut c, &ten, 10, 20, 3) {
        CoordinatorResponse::MarketCreated { market_id, .. } => assert_eq!(market_id, 1),
        _ => panic!("market not created"),
    }
    assert_eq!(c.state().next_market_id, 2);
    assert_eq!(c.state().markets[0].status, MarketStatus::Active);
}

#[test]
fn register_voter_errors() {
    let mut c = OracleCoordinatorContract::new(Parameters::default());
    let low = from_tokens(99);
    let r = op(&mut c, 5, CoordinatorOperation::RegisterVoter { voter_chain: chain(1), initial_stake: low });
    assert_eq!(error_code(&r), Some(4));
    let r = op(&mut c, 5, CoordinatorOperation::RegisterVoter { voter_chain: chain(1), initial_stake: from_tokens(100) });
    match r {
        CoordinatorResponse::VoterRegistered { voter_chain, initial_reputation } => {
            assert_eq!(voter_chain, chain(1));
            assert_eq!(initial_reputation, 100);
        }
        _ => panic!("voter not registered"),
    }
    let r = op(&mut c, 5, CoordinatorOperation::RegisterVoter { voter_chain: chain(1), initial_stake: from_tokens(500) });
    assert_eq!(error_code(&r), Some(5));
    let v = c.state().voters[0];
    assert_eq!(v.total_stake, from_tokens(100));
    assert_eq!(v.locked_stake, 0);
    assert_eq!(v.registered_at, 5);
    assert_eq!(error_code(&op(&mut c, 5, CoordinatorOperation::GetVoterInfo { voter_chain: chain(2) })), Some(12));
    match op(&mut c, 5, CoordinatorOperation::GetVoterInfo { voter_chain: chain(1) }) {
        CoordinatorResponse::VoterInfo(info) => assert_eq!(info.reputation_score, 100),
        _ => panic!("voter not found"),
    }
}

#[test]
fn start_voting_errors() {
    let mut c = OracleCoordinatorContract::new(Parameters::default());
    assert_eq!(error_code(&op(&mut c, 0, CoordinatorOperation::StartVoting { market_id: 0 })), Some(6));
    create(&mut c, &["Yes", "No"], 100, 200, 3);
    assert_eq!(error_code(&op(&mut c, 99, CoordinatorOperation::StartVoting { market_id: 0 })), Some(8));
    match op(&mut c, 100, CoordinatorOperation::StartVoting { market_id: 0 }) {
        CoordinatorResponse::VotingStarted { market_id, total_voters_notified } => {
            assert_eq!(market_id, 0);
            assert_eq!(total_voters_notified, 0);
        }
        _ => panic!("voting not started"),
    }
    assert_eq!(error_code(&op(&mut c, 100, CoordinatorOperation::StartVoting { market_id: 0 })), Some(7));
}

struct Run {
    c: OracleCoordinatorContract,
}

impl Run {
    fn message(&mut self, now: u64, m: Message) -> Vec<alethea_oracle::types::Outgoing> {
        self.c.execute_message(&ctx(now), m)
    }

    fn commit(&mut self, voter: u128, outcome: usize, power: u64, stake: u128) {
        let salt = [voter as u8 + 1; 32];
        let hash = commitment_hash(outcome, &salt);
        self.message(
            1500,
            Message::VoteCommitment {
                voter_chain: chain(voter),
                market_id: 0,
                commitment_hash: hash,
                voting_power: power,
                stake_amount: stake,
            },
        );
    }

    fn open_vote(&mut self, voter: u128, outcome: usize, confidence: u8) {
        let salt = [voter as u8 + 1; 32];
        self.message(
            1600,
            Message::VoteReveal {
                voter_chain: chain(voter),
                market_id: 0,
                outcome_index: outcome,
                salt,
                confidence,
            },
        );
    }

    fn voter(&self, n: u128) -> VoterInfo {
        *self.c.state().voters.iter().find(|v| v.chain_id == chain(n)).unwrap()
    }

    fn status(&self) -> MarketStatus {
        self.c.state().markets[0].status
    }
}

fn setup() -> Run {
    let mut c = OracleCoordinatorContract::new(Parameters::default());
    create(&mut c, &["Yes", "No"], 1000, 2000, 3);
    for n in 1..=3 {
        op(&mut c, 10, CoordinatorOperation::RegisterVoter { voter_chain: chain(n), initial_stake: from_tokens(200) });
    }
    Run { c }
}

#[test]
fn end_to_end_resolution() {
    let mut run = setup();
    assert_eq!(run.status(), MarketStatus::Active);
    let (r, msgs) = run.c.execute_operation(&ctx(1000), CoordinatorOperation::StartVoting { market_id: 0 });
    assert!(matches!(r, CoordinatorResponse::VotingStarted { market_id: 0, total_voters_notified: 3 }));
    assert_eq!(msgs.len(), 3);
    for (i, m) in msgs.iter().enumerate() {
        assert_eq!(m.destination, chain(i as u128 + 1));
        match &m.message {
            Message::VotingRequest { market_id, outcomes, deadline, .. } => {
                assert_eq!(*market_id, 0);
                assert_eq!(outcomes, &vec!["Yes".to_string(), "No".to_string()]);
                assert_eq!(*deadline, 2000);
            }
            _ => panic!("not a voting request"),
        }
    }
    assert_eq!(run.status(), MarketStatus::VotingStarted);
    run.commit(1, 0, 100, from_tokens(100));
    assert_eq!(run.status(), MarketStatus::CommitPhase);
    run.commit(2, 0, 100, from_tokens(100));
    run.commit(3, 1, 50, from_tokens(100));
    assert_eq!(run.c.state().markets[0].total_commitments, 3);
    assert_eq!(run.voter(1).locked_stake, from_tokens(100));
    run.open_vote(1, 0, 90);
    assert_eq!(run.status(), MarketStatus::RevealPhase);
    run.open_vote(2, 0, 85);
    run.open_vote(3, 1, 70);
    assert_eq!(run.c.state().markets[0].total_reveals, 3);
    let early = op(&mut run.c, 1999, CoordinatorOperation::AggregateVotes { market_id: 0 });
    assert_eq!(error_code(&early), Some(11));
    let (r, msgs) = run.c.execute_operation(&ctx(2000), CoordinatorOperation::AggregateVotes { market_id: 0 });
    match r {
        CoordinatorResponse::MarketResolved { market_id, winning_outcome, confidence, total_voters } => {
            assert_eq!(market_id, 0);
            assert_eq!(winning_outcome, 0);
            assert_eq!(confidence, 83);
            assert_eq!(total_voters, 3);
        }
        _ => panic!("market not resolved"),
    }
    let m = &run.c.state().markets[0];
    assert_eq!(m.status, MarketStatus::Resolved);
    assert_eq!(m.outcomes[m.winning_outcome.unwrap()], "Yes");
    assert_eq!(m.confidence_score, Some(83));
    assert_eq!(msgs.len(), 3);
    for (i, m) in msgs.iter().take(2).enumerate() {
        assert_eq!(m.destination, chain(i as u128 + 1));
        assert!(matches!(m.message, Message::RewardPayment { market_id: 0, .. }));
        if let Message::RewardPayment { amount, .. } = m.message {
            assert_eq!(amount, from_tokens(500));
        }
    }
    assert_eq!(msgs[2].destination, chain(999));
    assert!(matches!(msgs[2].message, Message::MarketResolved { market_id: 0, outcome: 0, confidence: 83, timestamp: 2000 }));
    let winner = run.voter(1);
    assert_eq!(winner.reputation_score, 112);
    assert_eq!(winner.locked_stake, 0);
    assert_eq!(winner.total_stake, from_tokens(200));
    let loser = run.voter(3);
    assert_eq!(loser.reputation_score, 95);
    assert_eq!(loser.total_stake, from_tokens(190));
    assert_eq!(loser.locked_stake, from_tokens(90));
    assert_eq!(run.c.state().total_markets_resolved, 1);

    // A second aggregation is refused and changes nothing.
    let (again, msgs) = run.c.execute_operation(&ctx(3000), CoordinatorOperation::AggregateVotes { market_id: 0 });
    assert_eq!(error_code(&again), Some(9));
    assert!(msgs.is_empty());
    assert_eq!(run.voter(3).total_stake, from_tokens(190));
    assert_eq!(run.voter(1).reputation_score, 112);
    match op(&mut run.c, 3000, CoordinatorOperation::GetMarketStats { market_id: 0 }) {
        CoordinatorResponse::MarketStats(s) => {
            assert_eq!(s.participation_rate, 100);
            assert_eq!(s.confidence_score, 83);
            assert_eq!(s.status, MarketStatus::Resolved);
        }
        _ => panic!("no stats"),
    }
    let out = run.message(3100, Message::MarketResolutionRequest { market_id: 0, requester: chain(50) });
    assert_eq!(out.len(), 1);
    assert!(matches!(out[0].message, Message::MarketResolved { market_id: 0, outcome: 0, confidence: 83, timestamp: 3100 }));
}

#[test]
fn cheating_reveal_is_slashed() {
    let mut run = setup();
    op(&mut run.c, 1000, CoordinatorOperation::StartVoting { market_id: 0 });
    run.commit(1, 0, 100, from_tokens(100));
    run.open_vote(1, 1, 90);
    let v = run.voter(1);
    assert_eq!(v.total_stake, from_tokens(100));
    assert_eq!(v.locked_stake, 0);
    assert_eq!(run.c.state().markets[0].total_reveals, 0);
    assert_eq!(run.status(), MarketStatus::CommitPhase);
    run.open_vote(2, 0, 90);
    assert_eq!(run.c.state().markets[0].total_reveals, 0);
}

#[test]
fn ignored_messages() {
    let mut run = setup();
    run.commit(1, 0, 100, from_tokens(100));
    assert_eq!(run.status(), MarketStatus::Active);
    assert_eq!(run.c.state().commitments.len(), 0);
    op(&mut run.c, 1000, CoordinatorOperation::StartVoting { market_id: 0 });
    run.commit(9, 0, 100, from_tokens(100));
    assert_eq!(run.status(), MarketStatus::VotingStarted);
    let dv = Message::DirectVote { voter_chain: chain(1), market_id: 0, outcome_index: 5, confidence: 90, voting_power: 10 };
    run.message(1100, dv);
    assert_eq!(run.c.state().markets[0].total_reveals, 0);
    let dv = Message::DirectVote { voter_chain: chain(1), market_id: 0, outcome_index: 1, confidence: 90, voting_power: 10 };
    run.message(1100, dv.clone());
    run.message(1100, dv);
    assert_eq!(run.c.state().markets[0].total_reveals, 1);
    assert_eq!(run.status(), MarketStatus::VotingStarted);
    assert_eq!(run.c.state().reveals[0].salt, [0u8; 32]);
}

#[test]
fn aggregate_errors() {
    let mut run = setup();
    assert_eq!(error_code(&op(&mut run.c, 5000, CoordinatorOperation::AggregateVotes { market_id: 4 })), Some(6));
    assert_eq!(error_code(&op(&mut run.c, 5000, CoordinatorOperation::AggregateVotes { market_id: 0 })), Some(9));
    op(&mut run.c, 1000, CoordinatorOperation::StartVoting { market_id: 0 });
    for n in 1..=2 {
        let dv = Message::DirectVote { voter_chain: chain(n), market_id: 0, outcome_index: 1, confidence: 90, voting_power: 10 };
        run.message(1100, dv);
    }
    assert_eq!(error_code(&op(&mut run.c, 5000, CoordinatorOperation::AggregateVotes { market_id: 0 })), Some(10));
    let dv = Message::DirectVote { voter_chain: chain(3), market_id: 0, outcome_index: 0, confidence: 90, voting_power: 10 };
    run.message(1100, dv);
    match op(&mut run.c, 5000, CoordinatorOperation::AggregateVotes { market_id: 0 }) {
        CoordinatorResponse::MarketResolved { winning_outcome, confidence, total_voters, .. } => {
            assert_eq!(winning_outcome, 1);
            assert_eq!(confidence, 67);
            assert_eq!(total_voters, 3);
        }
        _ => panic!("market not resolved"),
    }
    assert_eq!(run.voter(3).total_stake, from_tokens(200));
}

#[test]
fn queries() {
    let mut run = setup();
    create(&mut run.c, &["A", "B", "C"], 10, 20, 3);
    match op(&mut run.c, 0, CoordinatorOperation::GetMarket { market_id: 1 }) {
        CoordinatorResponse::Market(m) => {
            assert_eq!(m.id, 1);
            assert_eq!(m.outcomes.len(), 3);
        }
        _ => panic!("no market"),
    }
    assert_eq!(error_code(&op(&mut run.c, 0, CoordinatorOperation::GetMarket { market_id: 2 })), Some(6));
    assert_eq!(error_code(&op(&mut run.c, 0, CoordinatorOperation::GetMarketStats { market_id: 2 })), Some(6));
    match op(&mut run.c, 0, CoordinatorOperation::GetActiveMarkets) {
        CoordinatorResponse::ActiveMarkets(ms) => assert_eq!(ms.len(), 2),
        _ => panic!("no markets"),
    }
    let before = run.c.state().markets.len();
    let out = run.message(0, Message::ResolutionRequest { market_id: 7, question: "Q".to_string(), outcomes: vec!["x".to_string(), "y".to_string()] });
    assert!(out.is_empty());
    assert_eq!(run.c.state().markets.len(), before);
    let out = run.message(0, Message::MarketResolutionRequest { market_id: 0, requester: chain(50) });
    assert!(out.is_empty());
}

#[test]
fn repeated_commitment_counts_once() {
    let mut run = setup();
    op(&mut run.c, 1000, CoordinatorOperation::StartVoting { market_id: 0 });
    run.commit(1, 0, 100, from_tokens(100));
    run.commit(1, 0, 100, from_tokens(100));
    assert_eq!(run.c.state().markets[0].total_commitments, 1);
    assert_eq!(run.voter(1).locked_stake, from_tokens(100));
    assert_eq!(run.c.state().commitments.len(), 1);
    run.open_vote(1, 0, 90);
    run.open_vote(1, 0, 90);
    assert_eq!(run.c.state().markets[0].total_reveals, 1);
}

#[test]
fn repeated_bad_reveal_is_slashed_once() {
    let mut run = setup();
    op(&mut run.c, 1000, CoordinatorOperation::StartVoting { market_id: 0 });
    run.commit(1, 0, 100, from_tokens(50));
    run.open_vote(1, 1, 90);
    run.open_vote(1, 1, 90);
    assert_eq!(run.voter(1).total_stake, from_tokens(150));
    run.open_vote(1, 0, 90);
    assert_eq!(run.c.state().markets[0].total_reveals, 0);
}

#[test]
fn rewards_split_the_pool_in_attos() {
    let mut run = setup();
    op(&mut run.c, 1000, CoordinatorOperation::StartVoting { market_id: 0 });
    for n in 1..=3 {
        run.commit(n, 0, 100, from_tokens(10));
    }
    for n in 1..=3 {
        run.open_vote(n, 0, 90);
    }
    let (_, msgs) = run.c.execute_operation(&ctx(2000), CoordinatorOperation::AggregateVotes { market_id: 0 });
    assert_eq!(msgs.len(), 4);
    let mut paid = 0u128;
    for m in msgs.iter().take(3) {
        if let Message::RewardPayment { amount, .. } = m.message {
            assert_eq!(amount, 333_333_333_333_333_333_333);
            paid += amount;
        } else {
            panic!("not a reward");
        }
    }
    assert_eq!(from_tokens(1000) - paid, 1);
}
