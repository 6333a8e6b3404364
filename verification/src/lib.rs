//! An escrowed token-swap and vault-custody protocol core.
//!
//! All funds are held by program-controlled accounts whose addresses are
//! derived deterministically from a namespace tag and key material.  The
//! modules below model the account state that each transition reads and
//! writes, validate every supplied account against the derivation and
//! relationship rules, and perform the value movements as verified
//! arithmetic on those models.

pub mod bytes;
pub mod error;
pub mod keys;
pub mod pda;
pub mod escrow;
pub mod vault;
