//! The builder's signing key. The curve arithmetic is done by the `blst`
//! crate; what this library relies on of it without proof is stated here.

use vstd::prelude::*;
use vstd::string::StringSliceAdditionalSpecFns;
use crate::primitives::{PublicKeyBytes, SignatureBytes};

verus! {

/// Whether `bytes` are the big-endian form of a secret key that
/// `blst::min_pk::SecretKey::from_bytes` accepts.
pub uninterp spec fn secret_key_valid(bytes: Seq<u8>) -> bool;

/// The compressed public key that belongs to the secret key `secret`.
pub uninterp spec fn public_key_of(secret: Seq<u8>) -> Seq<u8>;

/// The compressed signature of `message` under the secret key `secret`, with
/// the domain separation tag `dst`.
pub uninterp spec fn signature_of(secret: Seq<u8>, message: Seq<u8>, dst: Seq<u8>) -> Seq<u8>;

/// Calls `blst::min_pk::SecretKey::from_bytes` and says whether it accepted
/// the bytes.
#[verifier::external_body]
fn secret_key_accepted(bytes: &[u8; 32]) -> (accepted: bool)
    ensures
        accepted == secret_key_valid(bytes@),
{
    blst::min_pk::SecretKey::from_bytes(bytes).is_ok()
}

/// Calls `blst::min_pk::SecretKey::sk_to_pk` on a key that `from_bytes`
/// accepts: the result is a function of the key alone.
#[verifier::external_body]
fn derive_public_key(secret: &[u8; 32]) -> (public: [u8; 48])
    requires
        secret_key_valid(secret@),
    ensures
        public@ == public_key_of(secret@),
{
    blst::min_pk::SecretKey::from_bytes(secret).unwrap().sk_to_pk().to_bytes()
}

/// Calls `blst::min_pk::SecretKey::sign`, with no augmentation, on a key that
/// `from_bytes` accepts: the result is a function of the key, the message and
/// the tag.
#[verifier::external_body]
fn sign_bytes(secret: &[u8; 32], message: &[u8], dst: &[u8]) -> (signature: [u8; 96])
    requires
        secret_key_valid(secret@),
    ensures
        signature@ == signature_of(secret@, message@, dst@),
{
    blst::min_pk::SecretKey::from_bytes(secret).unwrap().sign(message, dst, &[]).to_bytes()
}

/// The domain separation tag of the signature scheme.
pub open spec fn signature_dst() -> Seq<u8> {
    "BLS_SIG_BLS12381G2_XMD:SHA-256_SSWU_RO_POP_".spec_bytes()
}

/// A secret key that the signature scheme accepts.
pub struct SecretKey {
    bytes: [u8; 32],
}

impl SecretKey {
    #[verifier::type_invariant]
    spec fn inv(self) -> bool {
        secret_key_valid(self.bytes@)
    }

    /// The 32 big-endian bytes of the key.
    pub closed spec fn view(&self) -> Seq<u8> {
        self.bytes@
    }

    /// The key with the given big-endian bytes, if the scheme accepts them.
    pub fn from_bytes(bytes: [u8; 32]) -> (key: Option<SecretKey>)
        ensures
            key is Some <==> secret_key_valid(bytes@),
            key matches Some(k) ==> k@ == bytes@,
    {
        if secret_key_accepted(&bytes) {
            Some(SecretKey { bytes })
        } else {
            None
        }
    }

    /// The public key that belongs to this key.
    pub fn public_key(&self) -> (public: PublicKeyBytes)
        ensures
            public.bytes@ == public_key_of(self@),
    {
        proof {
            use_type_invariant(self);
        }
        PublicKeyBytes { bytes: derive_public_key(&self.bytes) }
    }

    /// Signs the 32 bytes of `message`.
    pub fn sign(&self, message: &[u8; 32]) -> (signature: SignatureBytes)
        ensures
            signature.bytes@ == signature_of(self@, message@, signature_dst()),
    {
        proof {
            use_type_invariant(self);
        }
        let dst = "BLS_SIG_BLS12381G2_XMD:SHA-256_SSWU_RO_POP_".as_bytes();
        SignatureBytes { bytes: sign_bytes(&self.bytes, message.as_slice(), dst) }
    }
}

} // verus!
