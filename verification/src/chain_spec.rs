//! The parameters of the chain that signatures are bound to.

use vstd::prelude::*;
use vstd::bytes::{spec_u32_to_le_bytes, u32_to_le_bytes};
use crate::merkle::{merkle_root, merkle_root_of};
use crate::preset::EthSpecId;
use crate::primitives::Hash256;
use crate::ssz::{write_bytes, write_zeros, zeros};

verus! {

/// The domain type of messages that builders sign.
pub const APPLICATION_DOMAIN_BUILDER: u32 = 16777216;

/// The chain parameters that the builder needs.
#[derive(Clone, Copy, Debug, PartialEq, Eq)]
pub struct ChainSpec {
    pub preset: EthSpecId,
    pub genesis_fork_version: [u8; 4],
}

/// The root of the fork data made of `version` and the zero validators root.
pub open spec fn genesis_fork_data_root(version: Seq<u8>) -> Seq<u8> {
    merkle_root_of(version + zeros(28) + zeros(32), 2)
}

/// The domain under which builders sign on a chain whose genesis fork
/// version is `version`: the domain type, then the first 28 bytes of the
/// fork data root.
pub open spec fn builder_domain(version: Seq<u8>) -> Seq<u8> {
    spec_u32_to_le_bytes(APPLICATION_DOMAIN_BUILDER) + genesis_fork_data_root(version).subrange(
        0,
        28,
    )
}

/// The root that is signed for an object with root `object_root` under
/// `domain`.
pub open spec fn signing_root_of(object_root: Seq<u8>, domain: Seq<u8>) -> Seq<u8> {
    merkle_root_of(object_root + domain, 2)
}

/// Computes the root that is signed for an object under a domain.
pub fn compute_signing_root(object_root: &Hash256, domain: &Hash256) -> (root: Hash256)
    ensures
        root.bytes@ == signing_root_of(object_root.bytes@, domain.bytes@),
{
    let mut buf: Vec<u8> = Vec::new();
    write_bytes(&mut buf, object_root.bytes.as_slice());
    write_bytes(&mut buf, domain.bytes.as_slice());
    assert(buf@ =~= object_root.bytes@ + domain.bytes@);
    Hash256 { bytes: merkle_root(buf.as_slice(), 2) }
}

impl ChainSpec {
    /// The domain under which builders sign on this chain.
    pub fn get_builder_domain(&self) -> (domain: Hash256)
        ensures
            domain.bytes@ == builder_domain(self.genesis_fork_version@),
    {
        let mut fork_data: Vec<u8> = Vec::new();
        write_bytes(&mut fork_data, self.genesis_fork_version.as_slice());
        write_zeros(&mut fork_data, 28);
        write_zeros(&mut fork_data, 32);
        assert(fork_data@ =~= self.genesis_fork_version@ + zeros(28) + zeros(32));
        let root = merkle_root(fork_data.as_slice(), 2);
        let kind = u32_to_le_bytes(APPLICATION_DOMAIN_BUILDER);
        proof {
            vstd::bytes::lemma_auto_spec_u32_to_from_le_bytes();
        }
        let mut bytes: [u8; 32] = [0u8; 32];
        let mut i: usize = 0;
        while i < 32
            invariant
                i <= 32,
                kind@.len() == 4,
                forall|j: int|
                    0 <= j < i ==> bytes@[j] == (if j < 4 {
                        kind@[j]
                    } else {
                        root@[j - 4]
                    }),
            decreases 32 - i,
        {
            if i < 4 {
                bytes[i] = kind[i];
            } else {
                bytes[i] = root[i - 4];
            }
            i += 1;
        }
        assert(bytes@ =~= builder_domain(self.genesis_fork_version@));
        Hash256 { bytes }
    }
}

} // verus!
