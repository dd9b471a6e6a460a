//! Live score fan-out: a score store, a broadcast hub with bounded
//! per-subscriber queues, the per-connection session rules, update ingress
//! and room access tokens.

pub mod config;
pub mod decimal;
pub mod hub;
pub mod hub_state;
pub mod ingress;
pub mod session;
pub mod snapshot;
pub mod state;
pub mod store;
pub mod token;
