//! Access-control core for a CRUD backend: a totally ordered authority
//! scale, a stateless signed-token codec, a single access-decision
//! predicate, a closed error taxonomy, and the one chokepoint that turns
//! operation outcomes into uniform response envelopes.

pub mod access;
pub mod authority;
pub mod config;
pub mod envelope;
pub mod error;
pub mod pipeline;
pub mod problem;
pub mod record;
pub mod token;
pub mod user;
