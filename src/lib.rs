//! Authorization and state-transition core of a gated, tiered collectible
//! minting program: configuration, allowlists, per-user counters, the
//! eligibility resolver and the mint orchestrator.
pub mod config;
pub mod error;
pub mod instructions;
pub mod key;
pub mod laws;
pub mod mint;
pub mod registry;
pub mod resolver;
pub mod uri;
