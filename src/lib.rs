//! Bonding-curve key sale: integer pricing, fee splitting, the curve
//! lifecycle state machine with its settlement rules, and Merkle-proof
//! claims over a frozen snapshot; plus the escrow pool ledger.

pub mod errors;
pub mod math;
pub mod math_v6;
pub mod merkle;
pub mod state;
pub mod events;
pub mod instructions;
pub mod escrow;
