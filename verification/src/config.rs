//! What the operator can set.

use vstd::prelude::*;
use crate::lru_store::MAX_CACHE_SIZE;
use crate::preset::MAX_BYTES_PER_TRANSACTION;
use crate::primitives::Uint256;
use crate::ssz::zeros;

verus! {

/// The options of the builder.
#[derive(Clone, Debug, PartialEq, Eq)]
pub struct Config {
    /// Beacon node to stream payload attributes from.
    pub beacon_node: String,
    /// Address to listen on.
    pub listen_address: String,
    /// Port to listen on.
    pub port: u16,
    /// Number of payload attributes to cache in memory.
    pub payload_attributes_cache: usize,
    /// Number of zero bytes used to pad the transactions field of the payload.
    pub payload_body_bytes: usize,
    /// Value of the payload in WEI.
    pub payload_value: Uint256,
    /// The network to use.
    pub network: String,
    /// The custom network config to use, in place of `network`.
    pub custom_network: Option<String>,
}

impl Config {
    /// Whether a builder can run with this configuration: the cache holds at
    /// least one entry and not too many, and the padding fits in one
    /// transaction.
    pub open spec fn wf(&self) -> bool {
        &&& 0 < self.payload_attributes_cache <= MAX_CACHE_SIZE
        &&& self.payload_body_bytes <= MAX_BYTES_PER_TRANSACTION
    }

    /// Says whether a builder can run with this configuration.
    pub fn is_valid(&self) -> (valid: bool)
        ensures
            valid == self.wf(),
    {
        0 < self.payload_attributes_cache && self.payload_attributes_cache <= MAX_CACHE_SIZE
            && self.payload_body_bytes <= MAX_BYTES_PER_TRANSACTION
    }
}

impl Default for Config {
    /// The configuration of a builder that is given no options.
    fn default() -> (config: Config)
        ensures
            config.wf(),
            config.beacon_node@ == "http://localhost:5052"@,
            config.listen_address@ == "127.0.0.1"@,
            config.port == 18550,
            config.payload_attributes_cache == 16,
            config.payload_body_bytes == 0,
            config.payload_value.le_bytes@ == zeros(32),
            config.network@ == "mainnet"@,
            config.custom_network is None,
    {
        let payload_value = Uint256 { le_bytes: [0u8; 32] };
        assert(payload_value.le_bytes@ =~= zeros(32));
        Config {
            beacon_node: "http://localhost:5052".to_owned(),
            listen_address: "127.0.0.1".to_owned(),
            port: 18550,
            payload_attributes_cache: 16,
            payload_body_bytes: 0,
            payload_value,
            network: "mainnet".to_owned(),
            custom_network: None,
        }
    }
}

} // verus!
