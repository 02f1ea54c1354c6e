//! Two-sided ranged combat: parameter derivation and a time-stepped engagement.

pub mod dice;
pub mod engagement;
pub mod error;
pub mod fraction;
pub mod laws;
pub mod setup;
pub mod simulate;
pub mod units;
