//! The decrypt command: header, key, cipher, decompression.

use crate::aes_params;
use crate::cli::DecryptArgs;
use crate::commands::validate::{check_paths, spec_check_paths};
use crate::compression::zstd::{decompress, spec_decompress};
use crate::crypto::aes::{
    aes256gcm_open, authentication_failure_text, decrypt_data, spec_decrypt_data,
};
use crate::crypto::format::{decode_header, read_header, FileHeader, FileHeaderView};
use crate::crypto::kdf::{derive_key, spec_derive_key, MAX_PASSWORD_LEN};
use crate::error::{ErrorKind, ResqryptError};
use crate::{FORMAT_VERSION, MAGIC_BYTES};
use vstd::prelude::*;
use vstd::slice::slice_subrange;

verus! {

/// A decrypted payload and what it is.
#[derive(Debug)]
pub struct Decrypted {
    /// The payload: the bytes of a file, or an archive of a directory tree.
    pub data: Vec<u8>,
    /// Whether the payload is an archived directory tree.
    pub is_directory: bool,
}

/// A decrypted payload as a mathematical value.
pub struct DecryptedView {
    pub data: Seq<u8>,
    pub is_directory: bool,
}

impl View for Decrypted {
    type V = DecryptedView;

    open spec fn view(&self) -> DecryptedView {
        DecryptedView { data: self.data@, is_directory: self.is_directory }
    }
}

/// The ciphertext of a container: all that follows the 66 bytes of the header.
pub open spec fn ciphertext_of(container: Seq<u8>) -> Seq<u8> {
    container.subrange(FileHeader::SIZE as int, container.len() as int)
}

/// The payload that decrypted bytes stand for under `header`: the bytes
/// themselves where the payload was stored as it came, else what they
/// decompress to.
pub open spec fn spec_restore(header: FileHeaderView, decrypted: Seq<u8>) -> Result<
    Seq<u8>,
    ErrorKind,
> {
    if header.is_already_zstd() {
        Ok(decrypted)
    } else {
        spec_decompress(decrypted)
    }
}

/// What decrypting `container` with `password` yields. The stages run in
/// order and the first that fails decides the error: the header is read, the
/// key is derived from the password with the salt and the costs of the
/// header, the ciphertext is decrypted with the nonce of the header, and the
/// payload is restored.
pub open spec fn spec_decrypt(container: Seq<u8>, password: Seq<u8>) -> Result<
    DecryptedView,
    ErrorKind,
> {
    match decode_header(container) {
        Err(kind) => Err(kind),
        Ok(header) => match spec_derive_key(password, header.salt, header.kdf_params) {
            Err(kind) => Err(kind),
            Ok(key) => match spec_decrypt_data(key, header.nonce, ciphertext_of(container)) {
                Err(kind) => Err(kind),
                Ok(decrypted) => match spec_restore(header, decrypted) {
                    Err(kind) => Err(kind),
                    Ok(data) => Ok(DecryptedView { data, is_directory: header.is_directory() }),
                },
            },
        },
    }
}

/// Where the cipher does not authenticate the ciphertext of a container
/// under the key of the password, decryption is a password error: this is
/// the one answer to a wrong password and to altered data alike.
pub proof fn lemma_unauthenticated_is_password_error(
    container: Seq<u8>,
    password: Seq<u8>,
    header: FileHeaderView,
    key: Seq<u8>,
)
    requires
        decode_header(container) == Ok::<FileHeaderView, ErrorKind>(header),
        spec_derive_key(password, header.salt, header.kdf_params) == Ok::<Seq<u8>, ErrorKind>(
            key,
        ),
        ciphertext_of(container).len() >= aes_params::TAG_LEN,
        aes256gcm_open(key, header.nonce, ciphertext_of(container)) is None,
    ensures
        spec_decrypt(container, password) == Err::<DecryptedView, ErrorKind>(
            ErrorKind::PasswordError,
        ),
{
}

/// A payload is returned only for a container that was read in full and
/// authenticated: its header is valid, a key could be derived, and the
/// cipher accepted the ciphertext under that key. The payload is what the
/// authenticated plaintext stands for under the flags of the header.
pub proof fn lemma_payload_was_authenticated(container: Seq<u8>, password: Seq<u8>)
    requires
        spec_decrypt(container, password) is Ok,
    ensures
        decode_header(container) matches Ok(header) && spec_derive_key(
            password,
            header.salt,
            header.kdf_params,
        ) matches Ok(key) && aes256gcm_open(key, header.nonce, ciphertext_of(container))
            matches Some(plaintext) && spec_restore(header, plaintext) == Ok::<
            Seq<u8>,
            ErrorKind,
        >(spec_decrypt(container, password)->Ok_0.data),
{
}

/// A password error comes from the cipher alone: the header was valid, a key
/// could be derived, and the ciphertext was long enough to hold a tag.
pub proof fn lemma_password_error_comes_from_the_cipher(container: Seq<u8>, password: Seq<u8>)
    requires
        spec_decrypt(container, password) == Err::<DecryptedView, ErrorKind>(
            ErrorKind::PasswordError,
        ),
    ensures
        decode_header(container) matches Ok(header) && spec_derive_key(
            password,
            header.salt,
            header.kdf_params,
        ) matches Ok(key) && ciphertext_of(container).len() >= aes_params::TAG_LEN
            && aes256gcm_open(key, header.nonce, ciphertext_of(container)) is None,
{
}

/// What reading a header yields is decided by the first 66 bytes alone, where
/// there are that many.
pub proof fn lemma_header_is_read_from_the_front(first: Seq<u8>, second: Seq<u8>)
    requires
        first.len() >= FileHeader::SIZE,
        second.len() >= FileHeader::SIZE,
        first.subrange(0, 66) == second.subrange(0, 66),
    ensures
        decode_header(first) == decode_header(second),
{
    assert forall|i: int| 0 <= i < 66 implies first[i] == second[i] by {
        assert(first[i] == first.subrange(0, 66)[i]);
        assert(second[i] == second.subrange(0, 66)[i]);
    }
    assert(first.subrange(0, 8) =~= second.subrange(0, 8));
    assert(first.subrange(10, 14) =~= second.subrange(10, 14));
    assert(first.subrange(14, 18) =~= second.subrange(14, 18));
    assert(first.subrange(18, 22) =~= second.subrange(18, 22));
    assert(first.subrange(22, 54) =~= second.subrange(22, 54));
    assert(first.subrange(54, 66) =~= second.subrange(54, 66));
}

/// Bytes altered behind the header of a container that decrypts, its length
/// kept: header and key stay what they were, so the cipher alone decides.
/// Where it does not authenticate the altered bytes, the result is a
/// password error. Whether it ever authenticates altered bytes is the
/// cipher's to answer, and is not stated here.
pub proof fn lemma_altered_ciphertext_is_decided_by_the_cipher(
    container: Seq<u8>,
    altered: Seq<u8>,
    password: Seq<u8>,
)
    requires
        spec_decrypt(container, password) is Ok,
        altered.len() == container.len(),
        altered.subrange(0, 66) == container.subrange(0, 66),
    ensures
        decode_header(altered) == decode_header(container),
        decode_header(altered) matches Ok(header) && spec_derive_key(
            password,
            header.salt,
            header.kdf_params,
        ) matches Ok(key) && (aes256gcm_open(key, header.nonce, ciphertext_of(altered)) is None
            ==> spec_decrypt(altered, password) == Err::<DecryptedView, ErrorKind>(
            ErrorKind::PasswordError,
        )),
        spec_decrypt(altered, password) matches Err(kind) ==> kind == ErrorKind::PasswordError
            || kind == ErrorKind::CompressionError,
{
    lemma_header_is_read_from_the_front(container, altered);
}

/// Another password on a container that decrypts: the header stays what it
/// was, a password too long for the key derivation is a crypto error, and
/// for any other the cipher alone decides under the key of that password.
/// Where it does not authenticate the ciphertext under that key, the result
/// is a password error. Whether two passwords ever give keys that both
/// authenticate is the key derivation's and the cipher's to answer, and is
/// not stated here.
pub proof fn lemma_other_password_is_decided_by_the_cipher(
    container: Seq<u8>,
    password: Seq<u8>,
    other: Seq<u8>,
)
    requires
        spec_decrypt(container, password) is Ok,
    ensures
        other.len() > MAX_PASSWORD_LEN ==> spec_decrypt(container, other) == Err::<
            DecryptedView,
            ErrorKind,
        >(ErrorKind::CryptoError),
        other.len() <= MAX_PASSWORD_LEN ==> (decode_header(container) matches Ok(header)
            && spec_derive_key(other, header.salt, header.kdf_params) matches Ok(key) && (
        aes256gcm_open(key, header.nonce, ciphertext_of(container)) is None ==> spec_decrypt(
            container,
            other,
        ) == Err::<DecryptedView, ErrorKind>(ErrorKind::PasswordError))),
{
}

/// A container that does not open with the magic, or that opens with it and
/// names another version, is an invalid format whatever the password, and
/// neither the key derivation nor the cipher decides anything.
pub proof fn lemma_invalid_header_is_invalid_format(container: Seq<u8>, password: Seq<u8>)
    requires
        container.len() >= 9,
        container.subrange(0, 8) != MAGIC_BYTES@ || container[8] != FORMAT_VERSION,
    ensures
        spec_decrypt(container, password) == Err::<DecryptedView, ErrorKind>(
            ErrorKind::InvalidFormat,
        ),
{
}

/// Splits a container into its header and its ciphertext.
pub fn read_encrypted_file<'a>(container: &'a [u8]) -> (res: Result<
    (FileHeader, &'a [u8]),
    ResqryptError,
>)
    ensures
        match res {
            Ok((header, ciphertext)) => decode_header(container@) == Ok::<
                FileHeaderView,
                ErrorKind,
            >(header@) && ciphertext@ == ciphertext_of(container@),
            Err(error) => decode_header(container@) == Err::<FileHeaderView, ErrorKind>(
                error.kind(),
            ),
        },
{
    let header = read_header(container)?;
    let ciphertext = slice_subrange(container, FileHeader::SIZE, container.len());
    Ok((header, ciphertext))
}

/// What the decrypt command yields: the paths are checked, and then the
/// container is decrypted. The first stage that fails decides the error.
pub open spec fn spec_execute(
    input_exists: bool,
    output_exists: bool,
    password: Seq<u8>,
    container: Seq<u8>,
) -> Result<DecryptedView, ErrorKind> {
    match spec_check_paths(input_exists, output_exists) {
        Err(kind) => Err(kind),
        Ok(_) => spec_decrypt(container, password),
    }
}

/// The decrypt command: checks the paths, then decrypts the container with
/// the password.
///
/// `input_exists` and `output_exists` tell what the file system says of the
/// two paths of `args`. A missing input is `NotFound`, an output that exists
/// `AlreadyExists`, and then the container is not looked at.
///
/// Else the key is derived with the costs and the salt that the header
/// holds, never with values of the caller. A ciphertext that the cipher does
/// not authenticate under that key fails with a password error, whether the
/// password is wrong or the container was altered, and no payload is
/// returned.
pub fn execute(
    args: &DecryptArgs,
    input_exists: bool,
    output_exists: bool,
    password: &[u8],
    container: &[u8],
) -> (res: Result<Decrypted, ResqryptError>)
    ensures
        !input_exists ==> res == Err::<Decrypted, ResqryptError>(
            ResqryptError::NotFound(args.input),
        ),
        input_exists && output_exists ==> res == Err::<Decrypted, ResqryptError>(
            ResqryptError::AlreadyExists(args.output),
        ),
        match res {
            Ok(decrypted) => spec_execute(input_exists, output_exists, password@, container@)
                == Ok::<DecryptedView, ErrorKind>(decrypted@),
            Err(error) => spec_execute(input_exists, output_exists, password@, container@)
                == Err::<DecryptedView, ErrorKind>(error.kind()),
        },
        input_exists && !output_exists ==> match res {
            Ok(decrypted) => spec_decrypt(container@, password@) == Ok::<
                DecryptedView,
                ErrorKind,
            >(decrypted@),
            Err(error) => spec_decrypt(container@, password@) == Err::<
                DecryptedView,
                ErrorKind,
            >(error.kind()),
        },
        res matches Err(ResqryptError::PasswordError(text)) ==> text@
            == authentication_failure_text(),
{
    match check_paths(&args.input, input_exists, &args.output, output_exists) {
        Err(error) => {
            return Err(error);
        },
        Ok(_) => {},
    }
    let (header, ciphertext) = read_encrypted_file(container)?;
    let key = derive_key(password, &header.salt, &header.kdf_params)?;
    let decrypted = decrypt_data(&key, &header.nonce, ciphertext)?;
    let data = if header.is_already_zstd() {
        decrypted
    } else {
        decompress(decrypted.as_slice())?
    };
    Ok(Decrypted { data, is_directory: header.is_directory() })
}

} // verus!
