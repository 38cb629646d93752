//! End-to-end encryption of relay payloads with AES-256-GCM.
//!
//! Wire format: `[iv (12 bytes) | tag (16 bytes) | ciphertext]`. The AEAD
//! itself works on `ciphertext | tag`; `encrypt` moves the tag to the front
//! and `decrypt` moves it back.
use aes_gcm::aead::{Aead, KeyInit};
use aes_gcm::{Aes256Gcm, Nonce};
use rand::RngCore;
use vstd::prelude::*;
use vstd::slice::{slice_subrange, slice_to_vec};

verus! {

/// Length of the random nonce that starts every sealed message.
pub const IV_LEN: usize = 12;

/// Length of the authentication tag that the AEAD appends.
pub const TAG_LEN: usize = 16;

/// Length of an AES-256 key.
pub const KEY_LEN: usize = 32;

/// Longest plaintext that AES-GCM accepts (2^36 bytes).
pub const MAX_PLAINTEXT_LEN: u64 = 0x10_0000_0000;

/// The ciphertext (tag appended) that AES-256-GCM produces for `plaintext`
/// under `key` and `nonce`, with no associated data.
pub uninterp spec fn aes256gcm_seal(key: Seq<u8>, nonce: Seq<u8>, plaintext: Seq<u8>) -> Seq<u8>;

/// What AES-256-GCM decryption of `ciphertext` under `key` and `nonce`, with
/// no associated data, gives: the plaintext, or nothing when the tag does not
/// verify or the input is malformed.
pub uninterp spec fn aes256gcm_open(key: Seq<u8>, nonce: Seq<u8>, ciphertext: Seq<u8>) -> Option<
    Seq<u8>,
>;

/// Why the AEAD refused.
#[derive(Clone, Copy, Debug, PartialEq, Eq)]
pub enum AeadFailure {
    /// The key is not 32 bytes long.
    InvalidKey,
    /// The AEAD refused the input (too long, or the tag did not verify).
    Rejected,
}

/// Errors of `encrypt` and `decrypt`.
#[derive(Clone, Copy, Debug, PartialEq, Eq)]
pub enum CryptoError {
    /// The key is not 32 bytes long.
    InvalidKey,
    /// The plaintext is longer than AES-GCM allows.
    EncryptionFailed,
    /// The input is shorter than a nonce.
    DataTooShort,
    /// The tag did not verify (wrong key, or the data was altered).
    DecryptionFailed,
}

/// `Aes256Gcm::new_from_slice(key)` followed by `Aead::encrypt` with the
/// 12-byte `nonce` and no associated data. The crate refuses a key that is
/// not 32 bytes and a plaintext longer than 2^36 bytes; otherwise it returns
/// the plaintext's length plus a 16-byte tag, which decryption with the same
/// key and nonce turns back into the plaintext.
#[verifier::external_body]
fn aes256gcm_encrypt(key: &[u8], nonce: &[u8], plaintext: &[u8]) -> (r: Result<
    Vec<u8>,
    AeadFailure,
>)
    requires
        nonce@.len() == IV_LEN,
    ensures
        (r == Err::<Vec<u8>, AeadFailure>(AeadFailure::InvalidKey)) <==> key@.len() != KEY_LEN,
        (r == Err::<Vec<u8>, AeadFailure>(AeadFailure::Rejected)) <==> (key@.len() == KEY_LEN
            && plaintext@.len() > MAX_PLAINTEXT_LEN),
        r matches Ok(ct) ==> {
            &&& ct@ == aes256gcm_seal(key@, nonce@, plaintext@)
            &&& ct@.len() == plaintext@.len() + TAG_LEN
            &&& aes256gcm_open(key@, nonce@, ct@) == Some(plaintext@)
        },
{
    let cipher = match Aes256Gcm::new_from_slice(key) {
        Ok(c) => c,
        Err(_) => return Err(AeadFailure::InvalidKey),
    };
    cipher.encrypt(Nonce::from_slice(nonce), plaintext).map_err(|_| AeadFailure::Rejected)
}

/// `Aes256Gcm::new_from_slice(key)` followed by `Aead::decrypt` with the
/// 12-byte `nonce` and no associated data: refuses a key that is not 32
/// bytes, and otherwise returns the plaintext exactly when decryption
/// succeeds.
#[verifier::external_body]
fn aes256gcm_decrypt(key: &[u8], nonce: &[u8], ciphertext: &[u8]) -> (r: Result<
    Vec<u8>,
    AeadFailure,
>)
    requires
        nonce@.len() == IV_LEN,
    ensures
        (r == Err::<Vec<u8>, AeadFailure>(AeadFailure::InvalidKey)) <==> key@.len() != KEY_LEN,
        key@.len() == KEY_LEN ==> match r {
            Ok(p) => aes256gcm_open(key@, nonce@, ciphertext@) == Some(p@),
            Err(_) => aes256gcm_open(key@, nonce@, ciphertext@) is None,
        },
{
    let cipher = match Aes256Gcm::new_from_slice(key) {
        Ok(c) => c,
        Err(_) => return Err(AeadFailure::InvalidKey),
    };
    cipher.decrypt(Nonce::from_slice(nonce), ciphertext).map_err(|_| AeadFailure::Rejected)
}

/// `n` bytes from the thread-local random generator (`RngCore::fill_bytes`).
/// Nothing is promised of their values.
#[verifier::external_body]
pub(crate) fn random_bytes(n: usize) -> (b: Vec<u8>)
    ensures
        b@.len() == n,
{
    let mut b = vec![0u8; n];
    rand::thread_rng().fill_bytes(&mut b);
    b
}

/// The AEAD input (`ciphertext | tag`) carried by a message laid out as
/// `iv | tag | ciphertext`; what follows the nonce when the message is too
/// short to hold a tag.
pub open spec fn aead_input(msg: Seq<u8>) -> Seq<u8> {
    if msg.len() >= IV_LEN + TAG_LEN {
        msg.skip((IV_LEN + TAG_LEN) as int) + msg.subrange(IV_LEN as int, (IV_LEN + TAG_LEN) as int)
    } else {
        msg.skip(IV_LEN as int)
    }
}

/// `out` is `data` sealed under `key`: a nonce, the tag, then the
/// ciphertext, where ciphertext and tag are the AES-256-GCM sealing of
/// `data` under that nonce, which opens back to `data`.
pub open spec fn is_sealed(out: Seq<u8>, key: Seq<u8>, data: Seq<u8>) -> bool {
    &&& out.len() == IV_LEN + data.len() + TAG_LEN
    &&& aead_input(out) == aes256gcm_seal(key, out.take(IV_LEN as int), data)
    &&& aes256gcm_open(key, out.take(IV_LEN as int), aead_input(out)) == Some(data)
}

/// What `decrypt` returns: the nonce is the first 12 bytes, the tag the
/// next 16, and ciphertext and tag are opened with the key.
pub open spec fn decrypt_result(data: Seq<u8>, key: Seq<u8>) -> Result<Seq<u8>, CryptoError> {
    if data.len() < IV_LEN {
        Err(CryptoError::DataTooShort)
    } else if key.len() != KEY_LEN {
        Err(CryptoError::InvalidKey)
    } else {
        match aes256gcm_open(key, data.take(IV_LEN as int), aead_input(data)) {
            Some(p) => Ok(p),
            None => Err(CryptoError::DecryptionFailed),
        }
    }
}

/// Encrypts `data` with AES-256-GCM under a fresh random nonce and returns
/// `nonce | tag | ciphertext`. Fails when the key is not 32 bytes, or the
/// data is longer than AES-GCM accepts.
pub fn encrypt(data: &[u8], key: &[u8]) -> (r: Result<Vec<u8>, CryptoError>)
    ensures
        key@.len() != KEY_LEN ==> r == Err::<Vec<u8>, CryptoError>(CryptoError::InvalidKey),
        key@.len() == KEY_LEN && data@.len() > MAX_PLAINTEXT_LEN ==> r == Err::<
            Vec<u8>,
            CryptoError,
        >(CryptoError::EncryptionFailed),
        key@.len() == KEY_LEN && data@.len() <= MAX_PLAINTEXT_LEN ==> (r matches Ok(out)
            && is_sealed(out@, key@, data@)),
{
    let iv = random_bytes(IV_LEN);
    let ivs = iv.as_slice();
    match aes256gcm_encrypt(key, ivs, data) {
        Err(AeadFailure::InvalidKey) => Err(CryptoError::InvalidKey),
        Err(AeadFailure::Rejected) => Err(CryptoError::EncryptionFailed),
        Ok(sealed) => {
            let n = sealed.len();
            let body_len = n - TAG_LEN;
            let sealed_s = sealed.as_slice();
            let tag = slice_subrange(sealed_s, body_len, n);
            let body = slice_subrange(sealed_s, 0, body_len);
            let mut result = slice_to_vec(ivs);
            let mut t = slice_to_vec(tag);
            let mut b = slice_to_vec(body);
            result.append(&mut t);
            result.append(&mut b);
            proof {
                assert(result@.take(IV_LEN as int) =~= ivs@);
                assert(aead_input(result@) =~= sealed@);
            }
            Ok(result)
        },
    }
}

/// Decrypts `nonce | tag | ciphertext` as `encrypt` produces it. Fails when
/// the data is shorter than a nonce, the key is not 32 bytes, or the tag
/// does not verify.
pub fn decrypt(data: &[u8], key: &[u8]) -> (r: Result<Vec<u8>, CryptoError>)
    ensures
        match decrypt_result(data@, key@) {
            Ok(p) => r matches Ok(v) && v@ == p,
            Err(e) => r == Err::<Vec<u8>, CryptoError>(e),
        },
{
    if data.len() < IV_LEN {
        return Err(CryptoError::DataTooShort);
    }
    let n = data.len();
    let iv = slice_subrange(data, 0, IV_LEN);
    let sealed = if n >= IV_LEN + TAG_LEN {
        let mut body = slice_to_vec(slice_subrange(data, IV_LEN + TAG_LEN, n));
        let mut tag = slice_to_vec(slice_subrange(data, IV_LEN, IV_LEN + TAG_LEN));
        body.append(&mut tag);
        body
    } else {
        slice_to_vec(slice_subrange(data, IV_LEN, n))
    };
    assert(iv@ =~= data@.take(IV_LEN as int));
    assert(sealed@ =~= aead_input(data@));
    match aes256gcm_decrypt(key, iv, sealed.as_slice()) {
        Ok(p) => Ok(p),
        Err(AeadFailure::InvalidKey) => Err(CryptoError::InvalidKey),
        Err(AeadFailure::Rejected) => Err(CryptoError::DecryptionFailed),
    }
}

/// Decryption undoes encryption: whatever nonce `encrypt` drew, what it
/// returns decrypts under the same key to the original data.
pub proof fn lemma_decrypt_inverts_encrypt(out: Seq<u8>, key: Seq<u8>, data: Seq<u8>)
    requires
        key.len() == KEY_LEN,
        is_sealed(out, key, data),
    ensures
        decrypt_result(out, key) == Ok::<Seq<u8>, CryptoError>(data),
{
}

/// A sealed message is longer than its plaintext by exactly a nonce and a
/// tag.
pub proof fn lemma_sealed_length(out: Seq<u8>, key: Seq<u8>, data: Seq<u8>)
    requires
        is_sealed(out, key, data),
    ensures
        out.len() == data.len() + IV_LEN + TAG_LEN,
        out.len() > data.len(),
{
}

} // verus!
