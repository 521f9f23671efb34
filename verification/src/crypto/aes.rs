//! AES-256-GCM authenticated encryption.

use crate::aes_params;
use crate::crypto::random::random_bytes;
use crate::error::{ErrorKind, ResqryptError};
use aes_gcm::aead::{Aead, KeyInit};
use aes_gcm::Aes256Gcm;
use vstd::prelude::*;

verus! {

/// `aes_gcm::Error`, carried through as an opaque value.
#[verifier::external_type_specification]
#[verifier::external_body]
pub struct ExAeadError(aes_gcm::Error);

/// The ciphertext, with the 16-byte tag behind it, that AES-256-GCM gives for
/// a plaintext under a 32-byte key and a 12-byte nonce, without associated
/// data: the output of `Aead::encrypt` of `aes_gcm::Aes256Gcm`.
pub uninterp spec fn aes256gcm_seal(key: Seq<u8>, nonce: Seq<u8>, plaintext: Seq<u8>) -> Seq<u8>;

/// The plaintext that AES-256-GCM recovers from a ciphertext with its tag, or
/// `None` where the tag does not authenticate it: the output of
/// `Aead::decrypt` of `aes_gcm::Aes256Gcm`.
pub uninterp spec fn aes256gcm_open(key: Seq<u8>, nonce: Seq<u8>, ciphertext: Seq<u8>) -> Option<
    Seq<u8>,
>;

/// The longest plaintext, in bytes, that the cipher takes: 2^36.
pub const MAX_PLAINTEXT_LEN: u64 = 0x10_0000_0000;

/// Whether a plaintext of `len` bytes can be encrypted: the cipher takes it
/// and the ciphertext, 16 bytes longer, has a length this machine can hold.
pub open spec fn sealable(len: nat) -> bool {
    len <= MAX_PLAINTEXT_LEN && len + aes_params::TAG_LEN <= usize::MAX
}

/// What encrypting `plaintext` yields.
pub open spec fn spec_encrypt_data(key: Seq<u8>, nonce: Seq<u8>, plaintext: Seq<u8>) -> Result<
    Seq<u8>,
    ErrorKind,
> {
    if sealable(plaintext.len()) {
        Ok(aes256gcm_seal(key, nonce, plaintext))
    } else {
        Err(ErrorKind::CryptoError)
    }
}

/// What decrypting `ciphertext` yields: input too short to hold a tag is a
/// crypto error, input that the tag does not authenticate a password error.
pub open spec fn spec_decrypt_data(key: Seq<u8>, nonce: Seq<u8>, ciphertext: Seq<u8>) -> Result<
    Seq<u8>,
    ErrorKind,
> {
    if ciphertext.len() < aes_params::TAG_LEN {
        Err(ErrorKind::CryptoError)
    } else {
        match aes256gcm_open(key, nonce, ciphertext) {
            Some(plaintext) => Ok(plaintext),
            None => Err(ErrorKind::PasswordError),
        }
    }
}

/// The one text of every password error of the cipher, whatever made the
/// authentication fail.
pub open spec fn authentication_failure_text() -> Seq<char> {
    "Decryption failed: wrong password or corrupted data"@
}

/// The text of the crypto error for input too short to hold a tag.
pub open spec fn short_ciphertext_text() -> Seq<char> {
    "Ciphertext too short"@
}

/// A ciphertext long enough to hold a tag is never a crypto error: the
/// cipher alone decides, and where it does not authenticate the bytes the
/// result is a password error and no plaintext.
pub proof fn lemma_long_enough_is_decided_by_the_cipher(
    key: Seq<u8>,
    nonce: Seq<u8>,
    ciphertext: Seq<u8>,
)
    requires
        ciphertext.len() >= aes_params::TAG_LEN,
    ensures
        spec_decrypt_data(key, nonce, ciphertext) != Err::<Seq<u8>, ErrorKind>(
            ErrorKind::CryptoError,
        ),
        aes256gcm_open(key, nonce, ciphertext) is None ==> spec_decrypt_data(
            key,
            nonce,
            ciphertext,
        ) == Err::<Seq<u8>, ErrorKind>(ErrorKind::PasswordError),
        aes256gcm_open(key, nonce, ciphertext) matches Some(plaintext) ==> spec_decrypt_data(
            key,
            nonce,
            ciphertext,
        ) == Ok::<Seq<u8>, ErrorKind>(plaintext),
{
}

/// Calls `Aead::encrypt` on the `Aes256Gcm` that `KeyInit::new` makes of the
/// key.
///
/// The call builds the ciphertext in a vector of `plaintext.len() + 16` bytes,
/// so that sum is required to fit. The source shows that it fails exactly on
/// a plaintext of more than 2^36 bytes, that the result is the encrypted
/// plaintext followed by the 16-byte tag, and that it depends on the three
/// arguments alone. That decrypting under the same key and nonce gives the
/// plaintext back is what the cipher is for: `Aead::decrypt` recomputes the
/// tag over the same bytes and applies the same key stream.
#[verifier::external_body]
fn aes256gcm_encrypt(key: &[u8; 32], nonce: &[u8; 12], plaintext: &[u8]) -> (res: Result<
    Vec<u8>,
    aes_gcm::Error,
>)
    requires
        plaintext.len() + aes_params::TAG_LEN <= usize::MAX,
    ensures
        (res is Ok) == (plaintext.len() <= MAX_PLAINTEXT_LEN),
        res matches Ok(sealed) ==> sealed@ == aes256gcm_seal(key@, nonce@, plaintext@),
        res matches Ok(sealed) ==> sealed@.len() == plaintext@.len() + aes_params::TAG_LEN,
        res matches Ok(sealed) ==> aes256gcm_open(key@, nonce@, sealed@) == Some(plaintext@),
{
    Aes256Gcm::new(key.into()).encrypt(nonce.into(), plaintext)
}

/// Calls `Aead::decrypt` on the `Aes256Gcm` that `KeyInit::new` makes of the
/// key.
///
/// The source shows that the result depends on the three arguments alone,
/// that input shorter than the tag is refused, and that the plaintext is 16
/// bytes shorter than the input.
#[verifier::external_body]
fn aes256gcm_decrypt(key: &[u8; 32], nonce: &[u8; 12], ciphertext: &[u8]) -> (res: Result<
    Vec<u8>,
    aes_gcm::Error,
>)
    ensures
        res matches Ok(plaintext) ==> aes256gcm_open(key@, nonce@, ciphertext@) == Some(
            plaintext@,
        ),
        res matches Ok(plaintext) ==> plaintext@.len() + aes_params::TAG_LEN == ciphertext@.len(),
        res is Err ==> aes256gcm_open(key@, nonce@, ciphertext@) is None,
{
    Aes256Gcm::new(key.into()).decrypt(nonce.into(), ciphertext)
}

/// The text of an `aes_gcm::Error`, as its `Display` gives it, behind
/// `prefix`.
#[verifier::external_body]
fn aead_error_text(prefix: &str, error: &aes_gcm::Error) -> String {
    format!("{}{}", prefix, error)
}

/// A fresh random nonce.
pub fn generate_nonce() -> [u8; 12] {
    random_bytes::<12>()
}

/// Encrypts `plaintext` under `key` and `nonce`.
///
/// The result is the ciphertext followed by the 16-byte tag, and decrypts
/// under the same key and nonce to `plaintext`. Fails with a crypto error
/// exactly where the plaintext is too long for the cipher or the machine.
pub fn encrypt_data(key: &[u8; 32], nonce: &[u8; 12], plaintext: &[u8]) -> (res: Result<
    Vec<u8>,
    ResqryptError,
>)
    ensures
        match res {
            Ok(sealed) => spec_encrypt_data(key@, nonce@, plaintext@) == Ok::<Seq<u8>, ErrorKind>(
                sealed@,
            ),
            Err(error) => spec_encrypt_data(key@, nonce@, plaintext@) == Err::<
                Seq<u8>,
                ErrorKind,
            >(error.kind()),
        },
        res matches Ok(sealed) ==> sealed@.len() == plaintext@.len() + aes_params::TAG_LEN,
        res matches Ok(sealed) ==> spec_decrypt_data(key@, nonce@, sealed@) == Ok::<
            Seq<u8>,
            ErrorKind,
        >(plaintext@),
{
    if plaintext.len() > usize::MAX - aes_params::TAG_LEN {
        return Err(ResqryptError::CryptoError("Encryption failed: plaintext too long".to_string()));
    }
    match aes256gcm_encrypt(key, nonce, plaintext) {
        Ok(sealed) => Ok(sealed),
        Err(error) => Err(ResqryptError::CryptoError(aead_error_text("Encryption failed: ", &error))),
    }
}

/// Decrypts `ciphertext`, which ends in its 16-byte tag, under `key` and
/// `nonce`.
///
/// Input shorter than a tag fails with a crypto error before the cipher is
/// asked. Input that the tag does not authenticate fails with a password
/// error: a wrong key and altered data are not told apart, and the error
/// carries the same text for both.
pub fn decrypt_data(key: &[u8; 32], nonce: &[u8; 12], ciphertext: &[u8]) -> (res: Result<
    Vec<u8>,
    ResqryptError,
>)
    ensures
        match res {
            Ok(plaintext) => spec_decrypt_data(key@, nonce@, ciphertext@) == Ok::<
                Seq<u8>,
                ErrorKind,
            >(plaintext@),
            Err(error) => spec_decrypt_data(key@, nonce@, ciphertext@) == Err::<
                Seq<u8>,
                ErrorKind,
            >(error.kind()),
        },
        res matches Ok(plaintext) ==> plaintext@.len() + aes_params::TAG_LEN == ciphertext@.len(),
        res matches Err(ResqryptError::PasswordError(text)) ==> text@
            == authentication_failure_text(),
        res matches Err(ResqryptError::CryptoError(text)) ==> text@ == short_ciphertext_text(),
{
    if ciphertext.len() < aes_params::TAG_LEN {
        return Err(ResqryptError::CryptoError("Ciphertext too short".to_string()));
    }
    match aes256gcm_decrypt(key, nonce, ciphertext) {
        Ok(plaintext) => Ok(plaintext),
        Err(_) => Err(
            ResqryptError::PasswordError(
                "Decryption failed: wrong password or corrupted data".to_string(),
            ),
        ),
    }
}

} // verus!
