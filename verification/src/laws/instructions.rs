//! What each instruction asks for and does: when it succeeds, and every effect that it then has.
pub mod adapter;
pub mod coin;
pub mod exits;
pub mod handover;
pub mod market;
pub mod pool;
pub mod refusals;
pub mod routes;
pub mod vote;
