use alethea_oracle::hash::commitment_hash;
use alethea_oracle::types::{AccountOwner, ChainId, Context};
use alethea_oracle::voter::{InitialState, Message, Reputation, VoterOperation, VoterResponse};
use alethea_oracle::voter_contract::VoterChainContract;

fn chain(n: u128) -> ChainId {
    ChainId { hi: 3, lo: n }
}

fn ctx(now: u64) -> Context {
    Context { now, chain_id: chain(42), signer: Some(AccountOwner { hi: 1, lo: 2 }) }
}

fn agent() -> VoterChainContract {
    let mut a = VoterChainContract::new(AccountOwner { hi: 9, lo: 9 }, (1u8..=20).collect());
    a.instantiate(&ctx(0), InitialState { oracle_chain: Some(chain(1)), initial_stake: 500 });
    a
}

#[test]
fn reputation_new_and_updates() {
    let mut r = Reputation::new();
    assert_eq!(r.score, 100);
    r.update_for_correct(90);
    assert_eq!((r.score, r.streak, r.total_votes, r.correct_votes, r.average_confidence), (112, 1, 1, 1, 90));
    r.update_for_correct(80);
    assert_eq!((r.score, r.streak, r.average_confidence), (126, 2, 85));
    r.update_for_incorrect(70);
    assert_eq!((r.score, r.streak, r.total_votes, r.correct_votes, r.average_confidence), (121, 0, 3, 2, 80));
    let mut low = Reputation { score: 5, ..Reputation::new() };
    low.update_for_incorrect(0);
    assert_eq!(low.score, 0);
    let mut lower = Reputation { score: 3, ..Reputation::new() };
    lower.update_for_incorrect(0);
    assert_eq!(lower.score, 0);
    assert_eq!(lower.streak, 0);
    assert_eq!(Reputation::default(), Reputation::new());
}

#[test]
fn salt_layout() {
    let a = agent();
    let salt = a.generate_salt_for_market(0x0201);
    assert_eq!(&salt[..8], &0x0201u64.to_le_bytes());
    let id: Vec<u8> = (1u8..=16).collect();
    assert_eq!(&salt[8..24], &id[..]);
    assert_eq!(&salt[24..], &[0u8; 8]);
    let short = VoterChainContract::new(AccountOwner { hi: 0, lo: 0 }, vec![7, 7]);
    let s = short.generate_salt_for_market(1);
    assert_eq!(&s[8..10], &[7, 7]);
    assert_eq!(&s[10..], &[0u8; 22]);
}

#[test]
fn commit_then_reveal() {
    let mut a = agent();
    let (r, msgs) = a.commit_vote(&ctx(10), 4, 1);
    let salt = a.generate_salt_for_market(4);
    let expected = commitment_hash(1, &salt);
    match r {
        VoterResponse::CommitmentSubmitted { market_id, commitment_hash } => {
            assert_eq!(market_id, 4);
            assert_eq!(commitment_hash, expected);
        }
        _ => panic!("not committed"),
    }
    assert_eq!(msgs.len(), 1);
    assert_eq!(msgs[0].destination, chain(1));
    assert!(matches!(msgs[0].message, Message::VoteCommitmentToOracle { voting_power: 100, stake_amount: 500, .. }));
    match a.execute_operation(&ctx(11), VoterOperation::GetPendingCommitments).0 {
        VoterResponse::PendingCommitments(p) => {
            assert_eq!(p.len(), 1);
            assert_eq!(p[0].commitment_hash, expected);
            assert!(p[0].can_reveal);
        }
        _ => panic!("no commitments"),
    }
    let (r, msgs) = a.reveal_vote(&ctx(20), 4);
    assert!(matches!(r, VoterResponse::VoteRevealed { market_id: 4, outcome_index: 1, verified: true }));
    assert_eq!(msgs.len(), 1);
    match &msgs[0].message {
        Message::VoteRevealToOracle { outcome_index, salt: s, confidence } => {
            assert_eq!(*outcome_index, 1);
            assert_eq!(*s, salt);
            assert_eq!(*confidence, 95);
        }
        _ => panic!("no reveal sent"),
    }
    assert!(a.state.pending_commitments.is_empty());
    let history = a.get_vote_history();
    assert_eq!(history.len(), 1);
    assert_eq!(history[0].outcome_index, 1);
    assert_eq!(history[0].timestamp, 20);
    assert_eq!(history[0].was_correct, None);
    let (r, msgs) = a.reveal_vote(&ctx(21), 4);
    assert!(matches!(r, VoterResponse::VoteRevealed { market_id: 4, outcome_index: 0, verified: false }));
    assert!(msgs.is_empty());
}

#[test]
fn non_binary_outcomes_are_refused() {
    let mut a = agent();
    let (r, msgs) = a.commit_vote(&ctx(10), 4, 2);
    match r {
        VoterResponse::CommitmentSubmitted { market_id, commitment_hash } => {
            assert_eq!(market_id, 999);
            assert_eq!(commitment_hash, [0u8; 32]);
        }
        _ => panic!("not answered"),
    }
    assert!(msgs.is_empty());
    let (r, _) = a.submit_vote(&ctx(10), 4, 7);
    assert!(matches!(r, VoterResponse::VoteSubmitted { market_id: 999, outcome_index: 0 }));
    assert!(a.state.vote_history.is_empty());
}

#[test]
fn submit_vote_direct() {
    let mut a = agent();
    let (r, msgs) = a.submit_vote(&ctx(30), 8, 0);
    assert!(matches!(r, VoterResponse::VoteSubmitted { market_id: 8, outcome_index: 0 }));
    assert_eq!(msgs.len(), 1);
    assert!(matches!(msgs[0].message, Message::DirectVote { market_id: 8, outcome_index: 0, confidence: 95, voting_power: 500, .. }));
    assert_eq!(a.state.reputation.total_votes, 1);
    assert_eq!(a.state.reputation.score, 112);
    let mut rich = agent();
    rich.add_stake(u128::MAX);
    let (_, msgs) = rich.submit_vote(&ctx(30), 8, 1);
    assert!(matches!(msgs[0].message, Message::DirectVote { voting_power: 100, .. }));
}

#[test]
fn no_messages_without_coordinator() {
    let mut a = VoterChainContract::new(AccountOwner { hi: 0, lo: 0 }, vec![1]);
    let (_, msgs) = a.commit_vote(&ctx(1), 1, 0);
    assert!(msgs.is_empty());
    match a.get_voter_info() {
        VoterResponse::Initialized => {}
        _ => panic!("owner before initialization"),
    }
}

#[test]
fn stake_rewards_and_requests() {
    let mut a = agent();
    assert!(matches!(a.add_stake(25), VoterResponse::StakeAdded { new_total: 525 }));
    a.execute_message(&ctx(1), Message::VotingRequest { market_id: 2, question: "Q".to_string(), outcomes: vec![], deadline: 9 });
    assert_eq!(a.state.pending_requests.len(), 1);
    a.submit_vote(&ctx(2), 2, 1);
    assert!(a.state.pending_requests.is_empty());
    a.execute_message(&ctx(3), Message::RewardPayment { amount: 75, market_id: 2 });
    assert_eq!(a.state.total_stake, 600);
    assert_eq!(a.state.vote_history[0].reward_received, 75);
    a.execute_message(&ctx(4), Message::ReputationUpdate { increase: false, amount: 256 + 40 });
    assert_eq!(a.state.reputation.streak, 0);
    assert_eq!(a.state.reputation.score, 107);
    match a.get_voter_info() {
        VoterResponse::VoterInfo(info) => {
            assert_eq!(info.owner, AccountOwner { hi: 1, lo: 2 });
            assert_eq!(info.oracle_chain, Some(chain(1)));
            assert_eq!(info.total_stake, 600);
        }
        _ => panic!("no info"),
    }
}

#[test]
fn initialize_without_signer_uses_own_owner() {
    let mut a = agent();
    let c = Context { now: 0, chain_id: chain(42), signer: None };
    assert!(matches!(a.initialize_voter(&c, chain(5), 7), VoterResponse::Initialized));
    assert_eq!(a.state.owner, Some(AccountOwner { hi: 9, lo: 9 }));
    assert_eq!(a.state.oracle_chain, Some(chain(5)));
    assert_eq!(a.state.total_stake, 7);
}

#[test]
fn marking_votes() {
    let mut a = agent();
    a.submit_vote(&ctx(2), 3, 1);
    a.state.mark_vote_incorrect(3, 60);
    assert_eq!(a.state.vote_history[0].was_correct, Some(false));
    a.state.mark_vote_correct(3, 60);
    assert_eq!(a.state.vote_history[0].was_correct, Some(true));
    let before = a.state.reputation;
    a.state.mark_vote_correct(99, 60);
    assert_eq!(a.state.reputation, before);
}
