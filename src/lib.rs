//! A minimal proof-of-work chain: blocks of transactions, each linked to its
//! predecessor by a SHA-256 digest of the predecessor's JSON form, and mined by
//! a linear search over the nonce until the digest starts with a prefix.

pub mod block;
pub mod json;
mod outside;
pub mod pow;

pub use block::{Block, Transaction, GENESIS_DETAILS, PREFIX};
