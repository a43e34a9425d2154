//! A mock block builder for the proposer/builder-separation protocol: it caches
//! payload attributes announced by a consensus node, issues signed bids over
//! placeholder execution payloads, and reveals each committed payload exactly
//! once when the matching commitment is redeemed.

pub mod attributes;
pub mod bid;
pub mod block;
pub mod blobs;
pub mod bls;
pub mod builder;
pub mod chain_spec;
pub mod config;
pub mod error;
pub mod hex;
pub mod lru_store;
pub mod merkle;
pub mod payload;
pub mod payload_cache;
pub mod preset;
pub mod primitives;
pub mod protocol;
pub mod recency;
pub mod server;
pub mod sse;
pub mod ssz;
pub mod uint256;
