//! A verified core for a small on-ledger lottery.
//!
//! The library holds the three components whose correctness the program
//! depends on: the instruction decoder, the fixed-layout state codec, and
//! the state-machine processor. All of them are pure functions over plain
//! values; the surrounding runtime adapter performs the actual ledger calls
//! and applies the effects the processor returns.

pub mod error;
pub mod instruction;
pub mod processor;
pub mod state;
