//! Custody of a collateral asset against a receipt asset issued one for one.
//!
//! A deposit issues receipt tokens under a derived authority and then moves
//! the collateral into a vault at a derived address; a withdrawal burns the
//! receipt tokens and then releases the collateral under the vault's own
//! derived authority. Every derived address is recomputed before it is used.
pub mod accounting;
pub mod address;
pub mod error;
pub mod staking;
pub mod token;
