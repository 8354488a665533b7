//! On-chain minting controller for a token-gated NFT sale.
//!
//! The library governs who may mint, at what price, during which sale
//! phase, and how the proceeds are split among payees.  All decision
//! logic is verified; the host runtime (storage, message transport)
//! lives outside and hands this crate plain values.

pub mod errors;
pub mod text;
pub mod shares;
pub mod state;
pub mod policy;
pub mod sale;
pub mod outbound;
pub mod laws;
