//! An on-chain instruction processor for a small counter program.
//!
//! The host runtime hands the processor its own identity, an ordered list of
//! account handles and a raw instruction payload.  The processor decodes the
//! payload into a typed instruction, validates account ownership and signer
//! authority, and then either bumps a persisted call counter or closes the
//! data account, transferring its balance to a recipient.  Every mutation is
//! all-or-nothing: a failure anywhere returns an error code and leaves every
//! account exactly as the host supplied it.

pub mod account;
pub mod errors;
pub mod instructions;
pub mod processor;
pub mod state;
