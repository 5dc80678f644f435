//! Product catalog service core: the purchase orchestration and the
//! read-through cache policy, as verified decision logic.
//!
//! The stores (the relational ledger, the document store of usage
//! statistics, the key/value cache) and the sibling services are reached by
//! the caller. This crate decides what to ask of them, in which order, and
//! what to answer, and proves the rules that the answers obey.
pub mod account;
pub mod cache;
pub mod context;
pub mod decimal;
pub mod error;
pub mod flow;
pub mod ledger;
pub mod params;
pub mod product;
pub mod settings;
pub mod stats;
