//! Encryption of stored clipboard entries with a key derived from the
//! user's password: AES-256-GCM with a fresh random nonce stored in front of
//! the ciphertext.

use crate::crypto::{
    aes256_gcm_seal, fill_random, sha256, sha256_digest, system_random, SealingKey,
    AES_GCM_MAX_INPUT_LEN, SHA256_MAX_INPUT_LEN,
};
use vstd::prelude::*;
use vstd::slice::slice_to_vec;
use vstd::utf8::{decode_utf8, encode_utf8, valid_utf8};

verus! {

/// Length in bytes of the AES-GCM nonce stored in front of every ciphertext.
pub const NONCE_LEN: usize = 12;

/// Length in bytes of the AES-GCM authentication tag appended to every ciphertext.
pub const TAG_LEN: usize = 16;

/// Block size of AES in bytes.
pub const AES_BLOCK_LEN: usize = 16;

/// Whether a byte string has the shape of a stored ciphertext: room for at
/// least the nonce and the tag, and a body (everything after the nonce) that
/// is a whole number of AES blocks.
pub open spec fn has_ciphertext_shape(data: Seq<u8>) -> bool {
    &&& data.len() >= NONCE_LEN + TAG_LEN
    &&& (data.len() - NONCE_LEN) % (AES_BLOCK_LEN as int) == 0
}

/// Checks if data appears to be encrypted based on its structure.
pub fn looks_like_encrypted_data(data: &[u8]) -> (r: bool)
    ensures
        r == has_ciphertext_shape(data@),
{
    if data.len() < NONCE_LEN + TAG_LEN {
        return false;
    }
    if (data.len() - NONCE_LEN) % AES_BLOCK_LEN != 0 {
        return false;
    }
    true
}

/// Why an encryption did not happen.
#[derive(Debug, Clone, PartialEq, Eq)]
pub enum EncryptionError {
    /// No encryption key has been set.
    NoKey,
    /// A cryptographic step failed; the text says which.
    EncryptionFailed(String),
}

/// The text of a failure to draw a random nonce.
pub open spec fn nonce_failure_text() -> Seq<char> {
    "Failed to generate nonce"@
}

/// The text of a failure of the sealing itself.
pub open spec fn seal_failure_text() -> Seq<char> {
    "Encryption failed"@
}

/// The texts that `EncryptionFailed` carries when an encryption step fails:
/// the random nonce could not be drawn, or the sealing itself failed.
pub open spec fn is_failure_text(text: Seq<char>) -> bool {
    text == nonce_failure_text() || text == seal_failure_text()
}

fn failure(text: &str) -> (e: EncryptionError)
    ensures
        e matches EncryptionError::EncryptionFailed(s) && s@ == text@,
{
    EncryptionError::EncryptionFailed(text.to_owned())
}

/// `out` is a stored ciphertext of `plaintext` under `key`: a nonce, then the
/// AES-256-GCM ciphertext and tag of `plaintext` under that nonce.
pub open spec fn is_sealed_for(key: Seq<u8>, plaintext: Seq<u8>, out: Seq<u8>) -> bool {
    &&& out.len() == NONCE_LEN + plaintext.len() + TAG_LEN
    &&& out.skip(NONCE_LEN as int) == aes256_gcm_seal(key, out.take(NONCE_LEN as int), plaintext)
}

/// Whether a store with this content holds a key.
pub open spec fn key_is_set(key: Option<Seq<u8>>) -> bool {
    key is Some
}

/// Holds the encryption key, if one has been set.
pub struct KeyStore {
    key: Option<[u8; 32]>,
}

impl View for KeyStore {
    type V = Option<Seq<u8>>;

    closed spec fn view(&self) -> Option<Seq<u8>> {
        match self.key {
            Some(k) => Some(k@),
            None => None,
        }
    }
}

impl KeyStore {
    /// A store with no key set.
    pub fn new() -> (store: KeyStore)
        ensures
            store@ is None,
    {
        KeyStore { key: None }
    }

    /// Sets the encryption key derived from a password: the SHA-256 digest
    /// of the password's UTF-8 bytes.
    pub fn set_encryption_key(&mut self, password: &str)
        requires
            encode_utf8(password@).len() <= SHA256_MAX_INPUT_LEN,
        ensures
            final(self)@ == Some(sha256_digest(encode_utf8(password@))),
            final(self)@->0.len() == 32,
    {
        let key = sha256(password.as_bytes());
        self.key = Some(key);
    }

    /// Checks if encryption key is set.
    pub fn is_key_set(&self) -> (r: bool)
        ensures
            r == key_is_set(self@),
    {
        self.key.is_some()
    }

    /// Encrypts data using AES-256-GCM: the result is a fresh random nonce
    /// followed by the ciphertext and the tag.
    pub fn encrypt_data(&self, data: &[u8]) -> (r: Result<Vec<u8>, EncryptionError>)
        ensures
            self@ is None ==> r == Err::<Vec<u8>, EncryptionError>(EncryptionError::NoKey),
            r matches Ok(out) ==> self@ is Some && is_sealed_for(self@->0, data@, out@),
            r matches Err(EncryptionError::EncryptionFailed(text)) ==> self@ is Some
                && is_failure_text(text@),
            r matches Err(EncryptionError::NoKey) ==> self@ is None,
            r matches Err(EncryptionError::EncryptionFailed(text)) && text@ == seal_failure_text()
                ==> data@.len() > AES_GCM_MAX_INPUT_LEN,
    {
        proof {
            reveal_strlit("Failed to generate nonce");
            reveal_strlit("Encryption failed");
            assert(nonce_failure_text()[0] != seal_failure_text()[0]);
        }
        let key = match &self.key {
            Some(k) => k,
            None => return Err(EncryptionError::NoKey),
        };
        let rng = system_random();
        let mut nonce = [0u8; 12];
        if fill_random(&rng, &mut nonce).is_err() {
            return Err(failure("Failed to generate nonce"));
        }
        let r = seal_with_nonce(key, nonce, data);
        proof {
            if let Ok(out) = &r {
                assert(out@.take(NONCE_LEN as int) =~= nonce@);
                assert(out@.skip(NONCE_LEN as int) =~= aes256_gcm_seal(key@, nonce@, data@));
            }
        }
        r
    }
}

/// Seals `data` under `key` and the given nonce: the nonce followed by the
/// AES-256-GCM ciphertext and tag. Only inputs longer than AES-GCM accepts
/// are refused.
pub fn seal_with_nonce(key: &[u8; 32], nonce: [u8; 12], data: &[u8]) -> (r: Result<
    Vec<u8>,
    EncryptionError,
>)
    ensures
        r is Ok <==> data@.len() <= AES_GCM_MAX_INPUT_LEN,
        r matches Ok(out) ==> out@ == nonce@ + aes256_gcm_seal(key@, nonce@, data@)
            && out@.len() == NONCE_LEN + data@.len() + TAG_LEN,
        r matches Err(e) ==> e matches EncryptionError::EncryptionFailed(text) && text@
            == seal_failure_text(),
{
    let sealing_key = match SealingKey::new(key) {
        Ok(k) => k,
        Err(_) => return Err(failure("Failed to create key")),
    };
    let mut sealed = slice_to_vec(data);
    if sealing_key.seal_in_place_append_tag(nonce, &mut sealed).is_err() {
        return Err(failure("Encryption failed"));
    }
    let mut out = slice_to_vec(nonce.as_slice());
    out.append(&mut sealed);
    Ok(out)
}

/// Calls `String::from_utf8`: the bytes as a string when they are valid
/// UTF-8. The contract claims what std documents: `Some` exactly for valid
/// UTF-8, holding the characters that the bytes encode.
#[verifier::external_body]
fn utf8_string(bytes: Vec<u8>) -> (r: Option<String>)
    ensures
        r is Some <==> valid_utf8(bytes@),
        r matches Some(s) ==> s@ == decode_utf8(bytes@),
{
    String::from_utf8(bytes).ok()
}

/// The text that a text field holds once its encrypted bytes are read back
/// as UTF-8: the decoded text, or the empty text when they are not UTF-8.
pub open spec fn text_of_bytes(bytes: Seq<u8>) -> Seq<char> {
    if valid_utf8(bytes) {
        decode_utf8(bytes)
    } else {
        Seq::empty()
    }
}

/// `new_text` is what encrypting the text `old_text` under `key` stores.
pub open spec fn is_encrypted_text(key: Seq<u8>, old_text: Seq<char>, new_text: Seq<char>) -> bool {
    exists|out: Seq<u8>| #[trigger]
        is_sealed_for(key, encode_utf8(old_text), out) && new_text == text_of_bytes(out)
}

/// Encrypts the bytes of one clipboard field unless they already look
/// encrypted: `None` when they do, else the stored ciphertext.
pub fn encrypt_bytes_field(store: &KeyStore, data: &[u8]) -> (r: Result<
    Option<Vec<u8>>,
    EncryptionError,
>)
    ensures
        has_ciphertext_shape(data@) ==> r == Ok::<Option<Vec<u8>>, EncryptionError>(None),
        !has_ciphertext_shape(data@) && store@ is None ==> r == Err::<
            Option<Vec<u8>>,
            EncryptionError,
        >(EncryptionError::NoKey),
        r matches Ok(Some(out)) ==> !has_ciphertext_shape(data@) && store@ is Some
            && is_sealed_for(store@->0, data@, out@),
        r matches Ok(None) ==> has_ciphertext_shape(data@),
        r matches Err(EncryptionError::EncryptionFailed(text)) ==> store@ is Some
            && is_failure_text(text@),
        r matches Err(EncryptionError::NoKey) ==> store@ is None,
        r matches Err(EncryptionError::EncryptionFailed(text)) && text@ == seal_failure_text()
            ==> data@.len() > AES_GCM_MAX_INPUT_LEN,
        r is Err ==> !has_ciphertext_shape(data@),
{
    if looks_like_encrypted_data(data) {
        return Ok(None);
    }
    match store.encrypt_data(data) {
        Ok(out) => Ok(Some(out)),
        Err(e) => Err(e),
    }
}

/// Encrypts one text field unless its UTF-8 bytes already look encrypted:
/// `None` when they do, else the encrypted bytes read back as UTF-8 (empty
/// when they are not valid UTF-8).
pub fn encrypt_text_field(store: &KeyStore, text: &str) -> (r: Result<
    Option<String>,
    EncryptionError,
>)
    ensures
        has_ciphertext_shape(encode_utf8(text@)) ==> r == Ok::<Option<String>, EncryptionError>(
            None,
        ),
        !has_ciphertext_shape(encode_utf8(text@)) && store@ is None ==> r == Err::<
            Option<String>,
            EncryptionError,
        >(EncryptionError::NoKey),
        r matches Ok(Some(s)) ==> !has_ciphertext_shape(encode_utf8(text@)) && store@ is Some
            && is_encrypted_text(store@->0, text@, s@),
        r matches Ok(None) ==> has_ciphertext_shape(encode_utf8(text@)),
        r matches Err(EncryptionError::EncryptionFailed(m)) ==> store@ is Some
            && is_failure_text(m@),
        r matches Err(EncryptionError::NoKey) ==> store@ is None,
        r matches Err(EncryptionError::EncryptionFailed(m)) && m@ == seal_failure_text()
            ==> encode_utf8(text@).len() > AES_GCM_MAX_INPUT_LEN,
        r is Err ==> !has_ciphertext_shape(encode_utf8(text@)),
{
    match encrypt_bytes_field(store, text.as_bytes()) {
        Ok(None) => Ok(None),
        Ok(Some(out)) => {
            let ghost bytes = out@;
            let s = match utf8_string(out) {
                Some(s) => s,
                None => String::new(),
            };
            assert(is_sealed_for(store@->0, encode_utf8(text@), bytes));
            Ok(Some(s))
        },
        Err(e) => Err(e),
    }
}

/// The stored content of one clipboard entry, as the encryption sees it.
#[derive(Debug, Clone, PartialEq, Eq)]
pub struct ClipboardContent {
    pub text: Option<String>,
    pub html: Option<String>,
    pub rtf: Option<String>,
    pub image: Option<Vec<u8>>,
}

/// The fields of a clipboard entry, in the order in which they are encrypted.
#[derive(Debug, Clone, Copy, PartialEq, Eq)]
pub enum ClipboardField {
    Text,
    Html,
    Rtf,
    Image,
}

/// A new value for one field of a clipboard entry, to be written back.
#[derive(Debug, Clone, PartialEq, Eq)]
pub enum FieldUpdate {
    Text(String),
    Html(String),
    Rtf(String),
    Image(Vec<u8>),
}

/// What encrypting one clipboard entry produced: the field updates to write
/// back, in order, and whether the pass ran to the end or stopped on an error
/// (after the updates listed).
pub struct EncryptionPass {
    pub updates: Vec<FieldUpdate>,
    pub outcome: Result<(), EncryptionError>,
}

/// A text field is encrypted when it is present and its bytes do not yet
/// look encrypted.
pub open spec fn text_needs_encryption(field: Option<String>) -> bool {
    field matches Some(t) && !has_ciphertext_shape(encode_utf8(t@))
}

/// An image field is encrypted when it is present and its bytes do not yet
/// look encrypted.
pub open spec fn image_needs_encryption(field: Option<Vec<u8>>) -> bool {
    field matches Some(d) && !has_ciphertext_shape(d@)
}

/// The single-field sequence when `present`, else the empty one.
pub open spec fn field_if(present: bool, field: ClipboardField) -> Seq<ClipboardField> {
    if present {
        seq![field]
    } else {
        Seq::empty()
    }
}

/// The fields of an entry that an encryption pass encrypts, in order.
pub open spec fn pending_fields(c: ClipboardContent) -> Seq<ClipboardField> {
    field_if(text_needs_encryption(c.text), ClipboardField::Text) + field_if(
        text_needs_encryption(c.html),
        ClipboardField::Html,
    ) + field_if(text_needs_encryption(c.rtf), ClipboardField::Rtf) + field_if(
        image_needs_encryption(c.image),
        ClipboardField::Image,
    )
}

/// The stored bytes of a field of `c` (empty when the field is absent).
pub open spec fn field_bytes(c: ClipboardContent, f: ClipboardField) -> Seq<u8> {
    match f {
        ClipboardField::Text => match c.text {
            Some(t) => encode_utf8(t@),
            None => Seq::empty(),
        },
        ClipboardField::Html => match c.html {
            Some(t) => encode_utf8(t@),
            None => Seq::empty(),
        },
        ClipboardField::Rtf => match c.rtf {
            Some(t) => encode_utf8(t@),
            None => Seq::empty(),
        },
        ClipboardField::Image => match c.image {
            Some(d) => d@,
            None => Seq::empty(),
        },
    }
}

/// The field that an update writes.
pub open spec fn field_of(u: FieldUpdate) -> ClipboardField {
    match u {
        FieldUpdate::Text(_) => ClipboardField::Text,
        FieldUpdate::Html(_) => ClipboardField::Html,
        FieldUpdate::Rtf(_) => ClipboardField::Rtf,
        FieldUpdate::Image(_) => ClipboardField::Image,
    }
}

/// `u` holds the encryption under `key` of the field of `c` that it writes.
pub open spec fn is_field_encryption(key: Seq<u8>, c: ClipboardContent, u: FieldUpdate) -> bool {
    match u {
        FieldUpdate::Text(s) => c.text matches Some(t) && is_encrypted_text(key, t@, s@),
        FieldUpdate::Html(s) => c.html matches Some(t) && is_encrypted_text(key, t@, s@),
        FieldUpdate::Rtf(s) => c.rtf matches Some(t) && is_encrypted_text(key, t@, s@),
        FieldUpdate::Image(v) => c.image matches Some(d) && is_sealed_for(key, d@, v@),
    }
}

/// What an encryption pass over `c` with the key `key` may return: the
/// updates encrypt, in order, a prefix of the pending fields; the pass is
/// `Ok` exactly when that prefix is all of them; without a key nothing is
/// encrypted and the pass fails with `NoKey` when anything was pending.
pub open spec fn is_encryption_pass(
    key: Option<Seq<u8>>,
    c: ClipboardContent,
    updates: Seq<FieldUpdate>,
    outcome: Result<(), EncryptionError>,
) -> bool {
    let pending = pending_fields(c);
    &&& updates.len() <= pending.len()
    &&& forall|i: int|
        0 <= i < updates.len() ==> field_of(#[trigger] updates[i]) == pending[i] && key is Some
            && is_field_encryption(key->0, c, updates[i])
    &&& (outcome is Ok <==> updates.len() == pending.len())
    &&& key is None ==> updates.len() == 0
    &&& (key is None && pending.len() > 0) ==> outcome == Err::<(), EncryptionError>(
        EncryptionError::NoKey,
    )
    &&& outcome == Err::<(), EncryptionError>(EncryptionError::NoKey) ==> key is None
    &&& outcome matches Err(EncryptionError::EncryptionFailed(m)) ==> key is Some
        && is_failure_text(m@)
    &&& (outcome matches Err(EncryptionError::EncryptionFailed(m)) && m@ == seal_failure_text()
        ==> field_bytes(c, pending[updates.len() as int]).len() > AES_GCM_MAX_INPUT_LEN)
}

/// Encrypts the text, HTML, RTF and image of a clipboard entry, in that
/// order, skipping fields that are absent or already look encrypted, and
/// stopping at the first error.
pub fn encrypt_clipboard(store: &KeyStore, clipboard: &ClipboardContent) -> (pass: EncryptionPass)
    ensures
        is_encryption_pass(store@, *clipboard, pass.updates@, pass.outcome),
{
    let ghost c = *clipboard;
    let ghost p1 = field_if(text_needs_encryption(c.text), ClipboardField::Text);
    let ghost p2 = p1 + field_if(text_needs_encryption(c.html), ClipboardField::Html);
    let ghost p3 = p2 + field_if(text_needs_encryption(c.rtf), ClipboardField::Rtf);
    let ghost p4 = p3 + field_if(image_needs_encryption(c.image), ClipboardField::Image);
    assert(p4 == pending_fields(c));
    let mut updates: Vec<FieldUpdate> = Vec::new();
    if let Some(t) = &clipboard.text {
        match encrypt_text_field(store, t.as_str()) {
            Ok(Some(s)) => updates.push(FieldUpdate::Text(s)),
            Ok(None) => {},
            Err(e) => {
                return EncryptionPass { updates, outcome: Err(e) };
            },
        }
    }
    assert(updates@.len() == p1.len());
    assert(forall|i: int|
        0 <= i < updates@.len() ==> field_of(#[trigger] updates@[i]) == p1[i] && store@ is Some
            && is_field_encryption(store@->0, c, updates@[i]));
    if let Some(t) = &clipboard.html {
        match encrypt_text_field(store, t.as_str()) {
            Ok(Some(s)) => updates.push(FieldUpdate::Html(s)),
            Ok(None) => {},
            Err(e) => {
                return EncryptionPass { updates, outcome: Err(e) };
            },
        }
    }
    assert(updates@.len() == p2.len());
    assert(forall|i: int|
        0 <= i < updates@.len() ==> field_of(#[trigger] updates@[i]) == p2[i] && store@ is Some
            && is_field_encryption(store@->0, c, updates@[i]));
    if let Some(t) = &clipboard.rtf {
        match encrypt_text_field(store, t.as_str()) {
            Ok(Some(s)) => updates.push(FieldUpdate::Rtf(s)),
            Ok(None) => {},
            Err(e) => {
                return EncryptionPass { updates, outcome: Err(e) };
            },
        }
    }
    assert(updates@.len() == p3.len());
    assert(forall|i: int|
        0 <= i < updates@.len() ==> field_of(#[trigger] updates@[i]) == p3[i] && store@ is Some
            && is_field_encryption(store@->0, c, updates@[i]));
    if let Some(d) = &clipboard.image {
        match encrypt_bytes_field(store, d.as_slice()) {
            Ok(Some(v)) => updates.push(FieldUpdate::Image(v)),
            Ok(None) => {},
            Err(e) => {
                return EncryptionPass { updates, outcome: Err(e) };
            },
        }
    }
    EncryptionPass { updates, outcome: Ok(()) }
}

/// A stored ciphertext is recognised as encrypted exactly when the plaintext
/// length is a whole number of AES blocks: GCM keeps the plaintext length,
/// so the block-alignment test does not hold of every ciphertext.
pub proof fn lemma_sealed_output_shape(key: Seq<u8>, plaintext: Seq<u8>, out: Seq<u8>)
    requires
        is_sealed_for(key, plaintext, out),
    ensures
        has_ciphertext_shape(out) <==> plaintext.len() % (AES_BLOCK_LEN as nat) == 0,
{
    assert((plaintext.len() + 16) % 16 == plaintext.len() % 16) by (nonlinear_arith);
}

/// An entry whose present fields all already look encrypted is left alone:
/// every encryption pass over it, with or without a key, writes nothing and
/// succeeds.
pub proof fn lemma_encrypted_entry_untouched(
    key: Option<Seq<u8>>,
    c: ClipboardContent,
    updates: Seq<FieldUpdate>,
    outcome: Result<(), EncryptionError>,
)
    requires
        c.text matches Some(t) ==> has_ciphertext_shape(encode_utf8(t@)),
        c.html matches Some(t) ==> has_ciphertext_shape(encode_utf8(t@)),
        c.rtf matches Some(t) ==> has_ciphertext_shape(encode_utf8(t@)),
        c.image matches Some(d) ==> has_ciphertext_shape(d@),
        is_encryption_pass(key, c, updates, outcome),
    ensures
        updates.len() == 0,
        outcome is Ok,
{
    assert(pending_fields(c) =~= Seq::<ClipboardField>::empty());
}

/// Setting a key from a password (of a length SHA-256 accepts) leaves a
/// 32-byte key set, so `is_key_set` answers `true` right after it; a fresh
/// store has none, so it answers `false` until a key is set.
pub proof fn lemma_key_set_after_setting(fresh: Option<Seq<u8>>, after: Option<Seq<u8>>, password: Seq<char>)
    requires
        fresh is None,
        encode_utf8(password).len() <= SHA256_MAX_INPUT_LEN,
        after == Some(sha256_digest(encode_utf8(password))),
        after->0.len() == 32,
    ensures
        !key_is_set(fresh),
        key_is_set(after),
{
}

/// Data too short to hold a 12-byte nonce and a 16-byte tag never looks
/// encrypted, and longer data looks encrypted exactly when what follows the
/// nonce is a whole number of 16-byte AES blocks.
pub proof fn lemma_ciphertext_shape_by_length(data: Seq<u8>)
    ensures
        data.len() < 28 ==> !has_ciphertext_shape(data),
        data.len() >= 28 ==> (has_ciphertext_shape(data) <==> (data.len() - 12) % 16 == 0),
{
}

/// Whether stored bytes look encrypted depends only on their length: two
/// byte strings of the same length are both skipped or both encrypted.
pub proof fn lemma_ciphertext_shape_depends_on_length(a: Seq<u8>, b: Seq<u8>)
    requires
        a.len() == b.len(),
    ensures
        has_ciphertext_shape(a) == has_ciphertext_shape(b),
{
}

/// With a key set, a pass that runs to the end encrypts every present field
/// whose stored bytes are too short for a nonce and a tag or not block
/// aligned after the nonce (text, HTML, RTF and image alike), and encrypts
/// nothing else.
pub proof fn lemma_complete_pass_encrypts_plain_fields(
    key: Seq<u8>,
    c: ClipboardContent,
    updates: Seq<FieldUpdate>,
)
    requires
        is_encryption_pass(Some(key), c, updates, Ok(())),
    ensures
        (match c.text {
            Some(t) => (encode_utf8(t@).len() < 28 || (encode_utf8(t@).len() - 12) % 16 != 0) ==> exists|i: int|
                0 <= i < updates.len() && (#[trigger] updates[i] matches FieldUpdate::Text(x)
                    && is_encrypted_text(key, t@, x@)),
            None => true,
        }),
        (match c.html {
            Some(t) => (encode_utf8(t@).len() < 28 || (encode_utf8(t@).len() - 12) % 16 != 0) ==> exists|i: int|
                0 <= i < updates.len() && (#[trigger] updates[i] matches FieldUpdate::Html(x)
                    && is_encrypted_text(key, t@, x@)),
            None => true,
        }),
        (match c.rtf {
            Some(t) => (encode_utf8(t@).len() < 28 || (encode_utf8(t@).len() - 12) % 16 != 0) ==> exists|i: int|
                0 <= i < updates.len() && (#[trigger] updates[i] matches FieldUpdate::Rtf(x)
                    && is_encrypted_text(key, t@, x@)),
            None => true,
        }),
        (match c.image {
            Some(d) => (d@.len() < 28 || (d@.len() - 12) % 16 != 0) ==> exists|i: int|
                0 <= i < updates.len() && (#[trigger] updates[i] matches FieldUpdate::Image(x)
                    && is_sealed_for(key, d@, x@)),
            None => true,
        }),
        forall|i: int|
            0 <= i < updates.len() ==> match #[trigger] updates[i] {
                FieldUpdate::Text(_) => c.text matches Some(t) && (encode_utf8(t@).len() < 28 || (
                encode_utf8(t@).len() - 12) % 16 != 0),
                FieldUpdate::Html(_) => c.html matches Some(t) && (encode_utf8(t@).len() < 28 || (
                encode_utf8(t@).len() - 12) % 16 != 0),
                FieldUpdate::Rtf(_) => c.rtf matches Some(t) && (encode_utf8(t@).len() < 28 || (
                encode_utf8(t@).len() - 12) % 16 != 0),
                FieldUpdate::Image(_) => c.image matches Some(d) && (d@.len() < 28 || (d@.len() - 12)
                    % 16 != 0),
            },
{
    let p1 = field_if(text_needs_encryption(c.text), ClipboardField::Text);
    let p2 = field_if(text_needs_encryption(c.html), ClipboardField::Html);
    let p3 = field_if(text_needs_encryption(c.rtf), ClipboardField::Rtf);
    let p4 = field_if(image_needs_encryption(c.image), ClipboardField::Image);
    let pending = pending_fields(c);
    assert(pending == p1 + p2 + p3 + p4);
    if text_needs_encryption(c.text) {
        assert(pending[0] == ClipboardField::Text);
        assert(field_of(updates[0]) == ClipboardField::Text);
    }
    if text_needs_encryption(c.html) {
        let k = p1.len() as int;
        assert(pending[k] == ClipboardField::Html);
        assert(field_of(updates[k]) == ClipboardField::Html);
    }
    if text_needs_encryption(c.rtf) {
        let k = (p1.len() + p2.len()) as int;
        assert(pending[k] == ClipboardField::Rtf);
        assert(field_of(updates[k]) == ClipboardField::Rtf);
    }
    if image_needs_encryption(c.image) {
        let k = (p1.len() + p2.len() + p3.len()) as int;
        assert(pending[k] == ClipboardField::Image);
        assert(field_of(updates[k]) == ClipboardField::Image);
    }
    assert forall|i: int| 0 <= i < updates.len() implies match #[trigger] updates[i] {
        FieldUpdate::Text(_) => c.text matches Some(t) && (encode_utf8(t@).len() < 28 || (
        encode_utf8(t@).len() - 12) % 16 != 0),
        FieldUpdate::Html(_) => c.html matches Some(t) && (encode_utf8(t@).len() < 28 || (
        encode_utf8(t@).len() - 12) % 16 != 0),
        FieldUpdate::Rtf(_) => c.rtf matches Some(t) && (encode_utf8(t@).len() < 28 || (
        encode_utf8(t@).len() - 12) % 16 != 0),
        FieldUpdate::Image(_) => c.image matches Some(d) && (d@.len() < 28 || (d@.len() - 12) % 16
            != 0),
    } by {
        assert(field_of(updates[i]) == pending[i]);
    }
}

} // verus!
