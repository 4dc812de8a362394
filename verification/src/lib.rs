//! Coordination core of a polling service: several unreliable sources are
//! fetched on fixed intervals by redundant replicas, of which one per interval
//! does the work for a given source.
//!
//! The crate holds the decisions: when to retry, who may fetch, what is
//! written where and in which order. Whoever embeds it performs the network
//! calls, the store accesses and the sleeps, and reports back what happened.
//! The stores and the lock facility are here too, as values in memory, to run
//! the decisions against.

pub mod cache;
pub mod catalog;
pub mod clients;
pub mod config;
pub mod dates;
pub mod domain;
pub mod errors;
pub mod handlers;
pub mod json;
pub mod lock;
pub mod memory;
pub mod osdr;
pub mod rate_limit;
pub mod retry;
pub mod scheduler;
pub mod services;
pub mod store;
pub mod sync_task;

pub use config::Config;
pub use errors::ApiError;
pub use services::{IssService, NasaService};
