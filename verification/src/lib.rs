//! Wallet-signature authentication and identity records anchored in a
//! verifiable ledger: canonical-message signature verification, the
//! access/refresh token lifecycle, provider-tagged identity records with
//! deduplication, and the two-phase account transaction protocol.

pub mod codec;
pub mod message;
pub mod signature;
pub mod text;
pub mod json;
pub mod clock;
pub mod token;
pub mod session;
pub mod identity;
pub mod transaction;
pub mod ledger;
pub mod account;
pub mod repository;
pub mod dto;
pub mod api;
pub mod status;
