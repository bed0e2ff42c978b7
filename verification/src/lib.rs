//! Verified ledger contracts: a token-weighted governance engine and the token
//! contracts around it. Every module keeps its durable records in a storage type of its
//! own and states what each call does as a step on the mathematical value of that
//! storage.

pub mod asset_vault;
pub mod model_governance;
pub mod principal;
mod record_map;
pub mod sensory_evaluation;
pub mod tokenized_incentive;
