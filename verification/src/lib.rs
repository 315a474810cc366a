//! Transaction-building logic for a concentrated-liquidity pool client.
//!
//! The crate holds the parts of the client that decide and compute: tick
//! alignment, the seeds of program-derived addresses, transfer-fee
//! arithmetic and the plan for removing liquidity. Reading configuration,
//! signing and talking to a node are left to the program built around it.

pub mod address;
pub mod command;
pub mod create_mint;
pub mod create_pool;
pub mod create_token_account;
pub mod decrease_liquidity;
pub mod encoding;
pub mod error;
pub mod fee;
pub mod mint_to;
pub mod path;
pub mod pda;
pub mod position;
pub mod programs;
pub mod range;
pub mod removal;
pub mod tick;
