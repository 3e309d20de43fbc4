//! The cryptographic primitives of `ring` that the encryption of clipboard
//! entries is built from: SHA-256, AES-256-GCM sealing and the system's
//! random number generator. Every item here is trusted: its contract states
//! what `ring` documents or what its source shows.

use ring::aead::{Aad, LessSafeKey, Nonce, UnboundKey, AES_256_GCM};
use ring::error::Unspecified;
use ring::rand::{SecureRandom, SystemRandom};
use vstd::prelude::*;

verus! {

/// Largest input, in bytes, that `ring`'s AES-GCM seals: a 32-bit block
/// counter minus the two blocks that the tag computation uses, in blocks of 16.
pub const AES_GCM_MAX_INPUT_LEN: u64 = 68_719_476_704;

/// Largest input, in bytes, that SHA-256 digests: its length field counts
/// at most 2^64 - 1 bits.
pub const SHA256_MAX_INPUT_LEN: u64 = 0x1fff_ffff_ffff_ffff;

/// `ring::error::Unspecified`, the error of every fallible `ring` call used here.
#[verifier::external_type_specification]
#[verifier::external_body]
pub struct ExUnspecified(Unspecified);

/// `ring::aead::LessSafeKey`, an AES-256-GCM key ready to seal.
#[verifier::external_type_specification]
#[verifier::external_body]
pub struct ExLessSafeKey(LessSafeKey);

/// `ring::rand::SystemRandom`, the operating system's random number generator.
#[verifier::external_type_specification]
#[verifier::external_body]
pub struct ExSystemRandom(SystemRandom);

/// The SHA-256 digest of `data`, as `ring::digest::digest` computes it.
pub uninterp spec fn sha256_digest(data: Seq<u8>) -> Seq<u8>;

/// The ciphertext followed by the 16-byte tag that AES-256-GCM produces for
/// `plaintext` under `key` and `nonce`, with no additional authenticated data.
pub uninterp spec fn aes256_gcm_seal(key: Seq<u8>, nonce: Seq<u8>, plaintext: Seq<u8>) -> Seq<u8>;

/// Calls `ring::digest::digest` with `SHA256` and copies the 32-byte digest out.
/// The contract claims that the result is the SHA-256 digest of `data`;
/// `digest` panics only on an input longer than SHA-256 accepts, which
/// `requires` leaves out.
#[verifier::external_body]
pub(crate) fn sha256(data: &[u8]) -> (res: [u8; 32])
    requires
        data@.len() <= SHA256_MAX_INPUT_LEN,
    ensures
        res@ == sha256_digest(data@),
{
    let digest = ring::digest::digest(&ring::digest::SHA256, data);
    let mut out = [0u8; 32];
    out.copy_from_slice(digest.as_ref());
    out
}

/// An AES-256-GCM sealing key together with the 32 key bytes it was made
/// from. Only `SealingKey::new` builds one, so the two always agree.
pub(crate) struct SealingKey {
    bytes: [u8; 32],
    key: LessSafeKey,
}

impl SealingKey {
    /// The key bytes this key was made from.
    pub(crate) closed spec fn key_bytes(&self) -> Seq<u8> {
        self.bytes@
    }

    /// Calls `ring::aead::UnboundKey::new` with `AES_256_GCM` and turns the
    /// result into a `LessSafeKey` with `LessSafeKey::new`. The contract claims
    /// that it succeeds, as `ring` documents for a key of the algorithm's
    /// length (32 bytes), and that the key was made from `bytes`.
    #[verifier::external_body]
    pub(crate) fn new(bytes: &[u8; 32]) -> (res: Result<SealingKey, Unspecified>)
        ensures
            res is Ok,
            res matches Ok(k) ==> k.key_bytes() == bytes@,
    {
        let unbound = UnboundKey::new(&AES_256_GCM, bytes)?;
        Ok(SealingKey { bytes: *bytes, key: LessSafeKey::new(unbound) })
    }

    /// Calls `LessSafeKey::seal_in_place_append_tag` with the given nonce and
    /// empty additional data. The contract claims: the call succeeds exactly
    /// when the input is no longer than AES-GCM accepts (the GCM context
    /// refuses longer inputs before anything is written), and on success `in_out`
    /// holds the AES-256-GCM ciphertext and tag of its old content, 16 bytes
    /// longer than before.
    #[verifier::external_body]
    pub(crate) fn seal_in_place_append_tag(&self, nonce: [u8; 12], in_out: &mut Vec<u8>) -> (res: Result<
        (),
        Unspecified,
    >)
        ensures
            res is Ok <==> old(in_out)@.len() <= AES_GCM_MAX_INPUT_LEN,
            res is Ok ==> final(in_out)@ == aes256_gcm_seal(
                self.key_bytes(),
                nonce@,
                old(in_out)@,
            ),
            res is Ok ==> final(in_out)@.len() == old(in_out)@.len() + 16,
    {
        self.key.seal_in_place_append_tag(Nonce::assume_unique_for_key(nonce), Aad::empty(), in_out)
    }
}

/// Calls `ring::rand::SystemRandom::new`, which only builds a handle.
#[verifier::external_body]
pub(crate) fn system_random() -> SystemRandom {
    SystemRandom::new()
}

/// Calls `SecureRandom::fill` on the system generator. What it writes is
/// random, and whether the operating system delivers is not known in
/// advance, so the contract states nothing.
#[verifier::external_body]
pub(crate) fn fill_random(rng: &SystemRandom, dest: &mut [u8; 12]) -> (res: Result<(), Unspecified>) {
    rng.fill(dest)
}

} // verus!
