//! A verified core for fractional asset tokenization: asset registration,
//! supply-capped minting, marketplace listings, and the atomic two-leg
//! settlement of a purchase.
//!
//! Durable storage, signature verification, and the wire protocol are the
//! host runtime's concern; this crate owns the state-transition rules and
//! proves them: the supply cap is never exceeded, a depleted listing closes
//! and stays closed, and a failed operation leaves every record and balance
//! exactly as it found them.

pub mod asset;
pub mod errors;
pub mod ledger;
pub mod listing;
pub mod settlement;
