//! Orchestration core of a cross-chain swap router: swap initiation,
//! reply continuations, a multi-swap queue, and price-impact trade sizing.
pub mod types;
pub mod store;
pub mod memo;
pub mod codec;
pub mod commands;
pub mod sizing;
