//! Client-side core of a bonding-curve token sale: deterministic
//! program-derived addresses, fixed-format account codecs, integer curve
//! pricing, and slippage-protection bounds.
//!
//! The on-chain exchange program itself is an external, immutable
//! collaborator: this crate computes everything a caller must get bit-exact
//! before submitting an instruction (derived addresses, decoded reserve
//! state, quoted amounts, worst-case bounds, ordered account lists and
//! instruction data), and leaves transport and signing to the caller.

pub mod accounts;
pub mod constants;
pub mod error;
pub mod instructions;
pub mod pda;
pub mod utils;
