//! A trust-minimized bet settlement engine.
//!
//! Given a bet previously recorded in a keyed store and a signature supplied
//! by the designated oracle, the engine checks an attacker-supplied
//! signature-verification envelope against the bet's canonical encoding,
//! derives a pseudo-random outcome from the signature, computes an
//! overflow-checked payout, and settles the bet at most once by removing its
//! record atomically.

pub mod bet;
pub mod envelope;
pub mod errors;
pub mod ledger;
pub mod outcome;
pub mod settle;
