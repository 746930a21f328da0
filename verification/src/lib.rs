//! Caller-side preparation of a liquidity-pool initialization call to an
//! external automated-market-maker program.
//!
//! The crate derives the deterministic (program-derived) addresses that the
//! external program expects, validates a caller-supplied account set against
//! them, assembles the exact binary instruction the external program accepts,
//! and models the all-or-nothing dispatch of that instruction.

pub mod accounts;
pub mod builder;
pub mod ids;
pub mod pda;
pub mod pipeline;
pub mod validate;
