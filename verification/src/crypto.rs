use vstd::prelude::*;

verus! {

/// An Ed25519 private (signing) key, held as its 32 canonical bytes.
///
/// Key generation is out of scope for this layer: callers hand keys in and
/// the layer only stores, exports and signs with them.
#[derive(Clone, Copy, Debug, PartialEq, Eq)]
pub struct PrivateKey {
    pub bytes: [u8; 32],
}

impl View for PrivateKey {
    type V = Seq<u8>;

    open spec fn view(&self) -> Seq<u8> {
        self.bytes@
    }
}

/// An Ed25519 public key. A key version stored under a logical key name is
/// identified by its public key.
#[derive(Clone, Copy, Debug, PartialEq, Eq)]
pub struct PublicKey {
    pub bytes: [u8; 32],
}

impl View for PublicKey {
    type V = Seq<u8>;

    open spec fn view(&self) -> Seq<u8> {
        self.bytes@
    }
}

/// An Ed25519 signature over a message.
#[derive(Clone, Copy, Debug, PartialEq, Eq)]
pub struct Signature {
    pub bytes: [u8; 64],
}

impl View for Signature {
    type V = Seq<u8>;

    open spec fn view(&self) -> Seq<u8> {
        self.bytes@
    }
}

/// The Ed25519 public key derived from the given secret key bytes.
pub uninterp spec fn public_key_of(secret: Seq<u8>) -> Seq<u8>;

/// The Ed25519 signature produced over `message` by the key with the given
/// secret bytes. Ed25519 signing is deterministic, so the signature is a
/// function of the key and the message alone.
pub uninterp spec fn signature_of(secret: Seq<u8>, message: Seq<u8>) -> Seq<u8>;

/// Relies on `ed25519_dalek::SigningKey::verifying_key`: the public key is
/// derived from the secret key bytes alone (RFC 8032 key derivation).
#[verifier::external_body]
pub(crate) fn derive_public_key(secret: &PrivateKey) -> (r: PublicKey)
    ensures
        r@ == public_key_of(secret@),
{
    let signing = ed25519_dalek::SigningKey::from_bytes(&secret.bytes);
    PublicKey { bytes: signing.verifying_key().to_bytes() }
}

/// Relies on `ed25519_dalek::Signer::sign` for `SigningKey`: Ed25519 signing
/// is deterministic (RFC 8032), so the result depends on the secret key bytes
/// and the message alone.
#[verifier::external_body]
pub(crate) fn sign_message(secret: &PrivateKey, message: &[u8]) -> (r: Signature)
    ensures
        r@ == signature_of(secret@, message@),
{
    let signing = ed25519_dalek::SigningKey::from_bytes(&secret.bytes);
    let signature = ed25519_dalek::Signer::sign(&signing, message);
    Signature { bytes: signature.to_bytes() }
}

/// Byte-for-byte comparison of two 32-byte values.
pub(crate) fn bytes32_eq(a: &[u8; 32], b: &[u8; 32]) -> (r: bool)
    ensures
        r == (a@ == b@),
{
    let mut i: usize = 0;
    while i < 32
        invariant
            0 <= i <= 32,
            forall|j: int| 0 <= j < i ==> a@[j] == b@[j],
        decreases 32 - i,
    {
        if a[i] != b[i] {
            proof {
                assert(a@[i as int] != b@[i as int]);
            }
            return false;
        }
        i = i + 1;
    }
    proof {
        assert(a@ =~= b@);
    }
    true
}

} // verus!
