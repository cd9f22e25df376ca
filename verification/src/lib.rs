//! A ledger service core: API-key fingerprints and slow hashes, a fixed-window
//! rate limiter, request authentication, the balance engine and the webhook
//! delivery policy, each with a machine-checked contract.

pub mod models;
pub mod embedded_assets;
pub mod digest;
pub mod auth;
pub mod rate_limit;
pub mod ledger;
pub mod store;
pub mod atomic_unit;
pub mod webhook;
pub mod middleware;
