//! Reputation scores for social-network accounts.
//!
//! The crate holds a subjective-logic opinion algebra in fixed-point
//! arithmetic, a job ledger with claim-once semantics, the text heuristics
//! and the evidence pipeline that turn a feed of posts into a score
//! document, and the store that keeps the latest document per identity.

pub mod classifier;
pub mod error;
pub mod feed;
pub mod identity;
pub mod ledger;
pub mod opinion;
pub mod pipeline;
pub mod scores;
pub mod shared_map;
pub mod store;
pub mod text;
pub mod worker;
