//! Gateway core for a URL classification service: a cache-aside orchestrator
//! over a result cache and a classification backend, a composite health
//! aggregator, and a per-subscriber live event stream publisher.

pub mod cache;
pub mod classifier;
pub mod digest;
pub mod health;
pub mod model;
pub mod orchestrator;
pub mod records;
pub mod stream;
pub mod text;
