//! A commit-reveal oracle that resolves prediction markets through a panel of
//! reputation-weighted voters.
//!
//! - `hash`: the commitment digest and the preimage that binds an outcome to
//!   a salt.
//! - `types`: identities, markets, ledger entries, operations and messages.
//! - `ledger`: changes to a voter's stake and reputation.
//! - `aggregation`: the weighted-majority winner, its confidence, rewards
//!   and slashes.
//! - `state` and `coordinator`: the coordinator's state and its handlers.
//! - `voter`, `voter_state` and `voter_contract`: what a voter agent keeps
//!   and does.
//! - `market_chain`: the prediction market that asks for resolutions.
//!
//! Storage and message transport are left to the host: every handler takes
//! the current state, the call's context and an input, changes the state in
//! place and returns the messages it wants sent.
pub mod aggregation;
pub mod coordinator;
pub mod hash;
pub mod ledger;
pub mod market_chain;
pub mod state;
pub mod types;
pub mod voter;
pub mod voter_contract;
pub mod voter_state;
