use alethea_oracle::hash::commitment_hash;
use alethea_oracle::types::{
    from_tokens, AccountOwner, AggregationMethod, ChainId, Market, MarketStatus, Parameters,
    VoteCommitment, VoteReveal, VoterInfo,
};

fn chain(n: u128) -> ChainId {
    ChainId { hi: 0, lo: n }
}

fn voter(reputation: u64, total: u32, correct: u32) -> VoterInfo {
    VoterInfo {
        chain_id: chain(0),
        reputation_score: reputation,
        total_stake: 0,
        locked_stake: 0,
        total_votes: total,
        total_correct: correct,
        total_incorrect: total - correct,
        correct_streak: 3,
        registered_at: 0,
        last_active: 0,
    }
}

#[test]
fn test_commitment_verify() {
    let voter_chain = chain(0);
    let market_id = 1;
    let outcome = 0;
    let salt = [42u8; 32];
    let hash = commitment_hash(outcome, &salt);
    let commitment = VoteCommitment {
        voter_chain,
        market_id,
        commitment_hash: hash,
        voting_power: 100,
        stake_amount: 0,
        committed_at: 0,
    };
    let reveal = VoteReveal {
        voter_chain,
        market_id,
        outcome_index: outcome,
        salt,
        confidence: 95,
        voting_power: 100,
        revealed_at: 1000,
    };
    assert!(commitment.verify_reveal(&reveal));
    let other_market = VoteReveal { market_id: 2, ..reveal };
    assert!(!commitment.verify_reveal(&other_market));
    let other_voter = VoteReveal { voter_chain: chain(1), ..reveal };
    assert!(!commitment.verify_reveal(&other_voter));
    let other_outcome = VoteReveal { outcome_index: 1, ..reveal };
    assert!(!commitment.verify_reveal(&other_outcome));
}

#[test]
fn test_voter_accuracy_rate() {
    let v = voter(100, 10, 8);
    let accuracy = v.total_correct as f64 / v.total_votes as f64 * 100.0;
    assert_eq!(accuracy, 80.0);
    // 80% is not above 80%: no bonus.
    assert_eq!(v.voting_power(), 100);
}

#[test]
fn voting_power_bonuses() {
    assert_eq!(voter(100, 10, 9).voting_power(), 120);
    assert_eq!(voter(100, 100, 91).voting_power(), 150);
    assert_eq!(voter(100, 10, 10).voting_power(), 150);
    assert_eq!(voter(101, 10, 10).voting_power(), 151);
    assert_eq!(voter(100, 0, 0).voting_power(), 100);
    assert_eq!(voter(u64::MAX, 10, 10).voting_power(), u64::MAX);
}

#[test]
fn voter_activity_window() {
    let mut v = voter(100, 0, 0);
    v.last_active = 1_000;
    assert!(v.is_active(1_000));
    assert!(v.is_active(1_000 + 2_592_000_000_000 - 1));
    assert!(!v.is_active(1_000 + 2_592_000_000_000));
    assert!(v.is_active(0));
}

#[test]
fn test_market_status_checks() {
    let mut market = Market {
        id: 1,
        question: "Test?".to_string(),
        outcomes: vec!["Yes".to_string(), "No".to_string()],
        creator: Some(AccountOwner { hi: 0, lo: 0 }),
        created_at: 0,
        trading_deadline: 1000,
        voting_deadline: 2000,
        min_voters: 3,
        category: "test".to_string(),
        status: MarketStatus::CommitPhase,
        winning_outcome: None,
        confidence_score: None,
        total_commitments: 0,
        total_reveals: 0,
    };
    assert!(market.is_voting_phase());
    assert!(market.is_commit_phase());
    assert!(!market.is_reveal_phase());
    assert!(!market.is_resolved());
    market.status = MarketStatus::Resolved;
    assert!(market.is_resolved());
    assert!(!market.is_voting_phase());
}

#[test]
fn default_parameters() {
    let p = Parameters::default();
    assert_eq!(p.min_stake, 100 * 1_000_000_000_000_000_000u128);
    assert_eq!(p.slash_percentage, 10);
    assert_eq!(p.min_consensus, 66);
    assert_eq!(p.reward_pool_percentage, 80);
    assert_eq!(
        AggregationMethod::default(),
        AggregationMethod::WeightedMajority {
            weight_by_reputation: true,
            weight_by_stake: true,
            min_consensus: 66
        }
    );
}

#[test]
fn token_amounts() {
    assert_eq!(from_tokens(3), 3_000_000_000_000_000_000);
    assert_eq!(from_tokens(u128::MAX / 10), u128::MAX);
}
