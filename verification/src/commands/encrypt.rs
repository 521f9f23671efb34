//! The encrypt command: compression, key, cipher, container.

use crate::aes_params;
use crate::cli::EncryptArgs;
use crate::commands::decrypt::{ciphertext_of, spec_decrypt, spec_restore, DecryptedView};
use crate::commands::validate::{check_paths, spec_check_paths};
use crate::compression::detect::{is_zstd_compressed, is_zstd_format};
use crate::compression::zstd::{compress, spec_compress, spec_decompress};
use crate::crypto::aes::{
    aes256gcm_seal, encrypt_data, generate_nonce, sealable, spec_encrypt_data,
};
use crate::crypto::format::{
    decode_header, lemma_encoding_len, lemma_header_roundtrip, write_header, FileHeader,
    FileHeaderView,
};
use crate::crypto::kdf::{derivable, derive_key, generate_salt, spec_derive_key, KdfParams};
use crate::error::{ErrorKind, ResqryptError};
use crate::flags;
use crate::FORMAT_VERSION;
use vstd::prelude::*;

verus! {

/// The header of the current version with the given contents.
pub open spec fn spec_header(
    flags: u8,
    kdf_params: KdfParams,
    salt: Seq<u8>,
    nonce: Seq<u8>,
) -> FileHeaderView {
    FileHeaderView { version: FORMAT_VERSION, flags, kdf_params, salt, nonce }
}

/// What sealing `body` into a container yields: the header followed by the
/// ciphertext of `body` under the key derived from `password`, or the error
/// of the first stage that fails.
pub open spec fn spec_seal(
    body: Seq<u8>,
    flags: u8,
    password: Seq<u8>,
    kdf_params: KdfParams,
    salt: Seq<u8>,
    nonce: Seq<u8>,
) -> Result<Seq<u8>, ErrorKind> {
    match spec_derive_key(password, salt, kdf_params) {
        Err(kind) => Err(kind),
        Ok(key) => match spec_encrypt_data(key, nonce, body) {
            Err(kind) => Err(kind),
            Ok(ciphertext) => Ok(spec_header(flags, kdf_params, salt, nonce).encoding() + ciphertext),
        },
    }
}

/// The form in which a payload is stored, and whether that is the payload as
/// it came: a zstd stream is stored as it came, anything else compressed.
pub open spec fn spec_prepare(data: Seq<u8>) -> Result<(Seq<u8>, bool), ErrorKind> {
    if is_zstd_format(data) {
        Ok((data, true))
    } else {
        match spec_compress(data) {
            Ok(body) => Ok((body, false)),
            Err(kind) => Err(kind),
        }
    }
}

/// What the encrypt command yields, once salt and nonce are drawn: the paths
/// are checked, the payload is brought into its stored form, the costs are
/// taken from the arguments, and the stored form is sealed under the flags of
/// the payload. The first stage that fails decides the error.
pub open spec fn spec_encrypt(
    args: EncryptArgs,
    input_exists: bool,
    output_exists: bool,
    password: Seq<u8>,
    data: Seq<u8>,
    is_directory: bool,
    salt: Seq<u8>,
    nonce: Seq<u8>,
) -> Result<Seq<u8>, ErrorKind> {
    match spec_check_paths(input_exists, output_exists) {
        Err(kind) => Err(kind),
        Ok(_) => match spec_prepare(data) {
            Err(kind) => Err(kind),
            Ok((body, already_zstd)) => if !args.memory_fits() {
                Err(ErrorKind::CryptoError)
            } else {
                spec_seal(
                    body,
                    flags::spec_for_payload(is_directory, already_zstd),
                    password,
                    args.spec_kdf_params(),
                    salt,
                    nonce,
                )
            },
        },
    }
}

/// A payload that already is a zstd stream is sealed as it came: with paths
/// that pass, costs that fit and a payload the cipher takes, the command
/// succeeds, the body behind the header is the ciphertext of the payload
/// itself, and the header says so in its flags.
pub proof fn lemma_zstd_payload_is_sealed_as_it_came(
    args: EncryptArgs,
    password: Seq<u8>,
    data: Seq<u8>,
    is_directory: bool,
    salt: Seq<u8>,
    nonce: Seq<u8>,
)
    requires
        is_zstd_format(data),
        salt.len() == 32,
        nonce.len() == 12,
        args.memory_fits(),
        derivable(password, args.spec_kdf_params()),
        sealable(data.len()),
    ensures
        spec_encrypt(args, true, false, password, data, is_directory, salt, nonce) matches Ok(
            container,
        ) && decode_header(container) matches Ok(header) && spec_derive_key(
            password,
            salt,
            args.spec_kdf_params(),
        ) matches Ok(key) && {
            &&& header.is_already_zstd()
            &&& header.is_directory() == is_directory
            &&& header.flags == (if is_directory { 3u8 } else { 1u8 })
            &&& header.kdf_params == args.spec_kdf_params()
            &&& container == header.encoding() + aes256gcm_seal(key, nonce, data)
        },
{
    let flags = flags::spec_for_payload(is_directory, true);
    let header = spec_header(flags, args.spec_kdf_params(), salt, nonce);
    let key = spec_derive_key(password, salt, args.spec_kdf_params())->Ok_0;
    lemma_header_roundtrip(header, aes256gcm_seal(key, nonce, data));
    assert(flags::is_set(1u8, flags::ALREADY_ZSTD) && flags::is_set(3u8, flags::ALREADY_ZSTD)
        && !flags::is_set(1u8, flags::IS_DIRECTORY) && flags::is_set(3u8, flags::IS_DIRECTORY))
        by {
        assert(1u8 & 1u8 != 0 && 3u8 & 1u8 != 0 && 1u8 & 2u8 == 0 && 3u8 & 2u8 != 0)
            by (bit_vector);
    }
}

/// Brings a payload into the form in which it is stored: as it came where it
/// already is a zstd stream, else compressed. The flag tells which.
///
/// A payload that is a zstd stream is never compressed again and never
/// fails; the other fails, with a compression error, exactly where zstd
/// gives no stream.
pub fn prepare_payload(data: Vec<u8>) -> (res: Result<(Vec<u8>, bool), ResqryptError>)
    ensures
        match res {
            Ok((body, already_zstd)) => spec_prepare(data@) == Ok::<(Seq<u8>, bool), ErrorKind>(
                (body@, already_zstd),
            ),
            Err(error) => spec_prepare(data@) == Err::<(Seq<u8>, bool), ErrorKind>(error.kind()),
        },
        res matches Ok((body, already_zstd)) ==> {
            &&& already_zstd == is_zstd_format(data@)
            &&& already_zstd ==> body@ == data@
            &&& !already_zstd ==> spec_decompress(body@) == Ok::<Seq<u8>, ErrorKind>(data@)
        },
        res matches Err(error) ==> error.kind() == ErrorKind::CompressionError,
        is_zstd_format(data@) ==> res is Ok,
{
    if is_zstd_compressed(data.as_slice()) {
        Ok((data, true))
    } else {
        let compressed = compress(data.as_slice())?;
        Ok((compressed, false))
    }
}

/// The container that holds `ciphertext` behind a header of the current
/// version with the given contents.
pub fn assemble_container(
    flags: u8,
    kdf_params: &KdfParams,
    salt: &[u8; 32],
    nonce: &[u8; 12],
    ciphertext: &[u8],
) -> (container: Vec<u8>)
    ensures
        container@ == spec_header(flags, *kdf_params, salt@, nonce@).encoding() + ciphertext@,
        container@.len() == FileHeader::SIZE + ciphertext@.len(),
        decode_header(container@) == Ok::<FileHeaderView, ErrorKind>(
            spec_header(flags, *kdf_params, salt@, nonce@),
        ),
        ciphertext_of(container@) == ciphertext@,
{
    let header = FileHeader::new(flags, *kdf_params, *salt, *nonce);
    let mut container: Vec<u8> = Vec::new();
    let _ = write_header(&mut container, &header);
    let mut i: usize = 0;
    while i < ciphertext.len()
        invariant
            i <= ciphertext.len(),
            container@ == header@.encoding() + ciphertext@.subrange(0, i as int),
        decreases ciphertext.len() - i,
    {
        container.push(ciphertext[i]);
        i += 1;
    }
    proof {
        assert(ciphertext@.subrange(0, i as int) == ciphertext@);
        lemma_encoding_len(header@);
        lemma_header_roundtrip(header@, ciphertext@);
        assert(ciphertext_of(container@) == ciphertext@);
    }
    container
}

/// Seals a stored payload into a container: derives the key from `password`
/// with `salt` at the costs of `kdf_params`, encrypts `body` under it with
/// `nonce`, and puts the header in front.
///
/// Given the salt and the nonce the result is fixed. Decrypting the container
/// with the same password gives back what `body` stands for under `flags`.
pub fn seal_body(
    body: &[u8],
    flags: u8,
    password: &[u8],
    kdf_params: &KdfParams,
    salt: &[u8; 32],
    nonce: &[u8; 12],
) -> (res: Result<Vec<u8>, ResqryptError>)
    ensures
        match res {
            Ok(container) => spec_seal(body@, flags, password@, *kdf_params, salt@, nonce@) == Ok::<
                Seq<u8>,
                ErrorKind,
            >(container@),
            Err(error) => spec_seal(body@, flags, password@, *kdf_params, salt@, nonce@) == Err::<
                Seq<u8>,
                ErrorKind,
            >(error.kind()),
        },
        res matches Ok(container) ==> container@.len() == FileHeader::SIZE + body@.len()
            + aes_params::TAG_LEN,
        res matches Ok(container) ==> decode_header(container@) == Ok::<FileHeaderView, ErrorKind>(
            spec_header(flags, *kdf_params, salt@, nonce@),
        ),
        res matches Ok(container) ==> spec_decrypt(container@, password@) == match spec_restore(
            spec_header(flags, *kdf_params, salt@, nonce@),
            body@,
        ) {
            Ok(data) => Ok::<DecryptedView, ErrorKind>(
                DecryptedView {
                    data,
                    is_directory: spec_header(flags, *kdf_params, salt@, nonce@).is_directory(),
                },
            ),
            Err(kind) => Err::<DecryptedView, ErrorKind>(kind),
        },
{
    let key = derive_key(password, salt, kdf_params)?;
    let ciphertext = encrypt_data(&key, nonce, body)?;
    Ok(assemble_container(flags, kdf_params, salt, nonce, ciphertext.as_slice()))
}

/// The encrypt command: checks the paths, then encrypts the payload with the
/// password into a container.
///
/// `input_exists` and `output_exists` tell what the file system says of the
/// two paths of `args`. A missing input is `NotFound`, an output that exists
/// `AlreadyExists`, and then no other work is done: nothing is compressed,
/// drawn or derived.
///
/// Else the payload is compressed unless it already is a zstd stream, a
/// fresh salt and a fresh nonce are drawn, and the container is sealed with
/// the costs that `args` ask for. The container decrypts with the same
/// password to the same payload, byte for byte, and its header records the
/// costs and whether the payload is a directory and whether it was stored as
/// it came.
pub fn execute(
    args: &EncryptArgs,
    input_exists: bool,
    output_exists: bool,
    password: &[u8],
    data: Vec<u8>,
    is_directory: bool,
) -> (res: Result<Vec<u8>, ResqryptError>)
    ensures
        !input_exists ==> res == Err::<Vec<u8>, ResqryptError>(
            ResqryptError::NotFound(args.input),
        ),
        input_exists && output_exists ==> res == Err::<Vec<u8>, ResqryptError>(
            ResqryptError::AlreadyExists(args.output),
        ),
        res matches Ok(container) ==> spec_decrypt(container@, password@) == Ok::<
            DecryptedView,
            ErrorKind,
        >(DecryptedView { data: data@, is_directory }),
        res matches Ok(container) ==> decode_header(container@) matches Ok(header) && {
            &&& header.version == FORMAT_VERSION
            &&& header.flags == flags::spec_for_payload(is_directory, is_zstd_format(data@))
            &&& header.is_already_zstd() == is_zstd_format(data@)
            &&& header.is_directory() == is_directory
            &&& header.kdf_params == args.spec_kdf_params()
        },
        res matches Ok(container) ==> is_zstd_format(data@) ==> container@.len() == FileHeader::SIZE
            + data@.len() + aes_params::TAG_LEN,
        !is_zstd_format(data@) ==> (res matches Ok(container) ==> spec_compress(data@)
            matches Ok(body) && container@.len() == FileHeader::SIZE + body.len()
            + aes_params::TAG_LEN),
        res is Ok ==> input_exists && !output_exists && args.memory_fits() && derivable(
            password@,
            args.spec_kdf_params(),
        ),
        input_exists && !output_exists ==> (res matches Err(error) ==> error.kind()
            == ErrorKind::CryptoError || (error.kind() == ErrorKind::CompressionError
            && !is_zstd_format(data@))),
        input_exists && !output_exists && is_zstd_format(data@) ==> (res is Ok
            <==> args.memory_fits() && derivable(password@, args.spec_kdf_params()) && sealable(
            data@.len(),
        )),
        input_exists && !output_exists && !is_zstd_format(data@) ==> match spec_compress(data@) {
            Err(kind) => res is Err && res->Err_0.kind() == kind,
            Ok(body) => (res is Ok <==> args.memory_fits() && derivable(
                password@,
                args.spec_kdf_params(),
            ) && sealable(body.len())),
        },
        exists|salt: Seq<u8>, nonce: Seq<u8>|
            salt.len() == 32 && nonce.len() == 12 && match res {
                Ok(container) => #[trigger] spec_encrypt(
                    *args,
                    input_exists,
                    output_exists,
                    password@,
                    data@,
                    is_directory,
                    salt,
                    nonce,
                ) == Ok::<Seq<u8>, ErrorKind>(container@),
                Err(error) => spec_encrypt(
                    *args,
                    input_exists,
                    output_exists,
                    password@,
                    data@,
                    is_directory,
                    salt,
                    nonce,
                ) == Err::<Seq<u8>, ErrorKind>(error.kind()),
            },
{
    let ghost payload = data@;
    // Where a stage before the draws fails, the error is the same whatever
    // salt and nonce would have been drawn.
    let ghost any_salt = Seq::new(32, |i: int| 0u8);
    let ghost any_nonce = Seq::new(12, |i: int| 0u8);
    let ghost early = spec_encrypt(
        *args,
        input_exists,
        output_exists,
        password@,
        payload,
        is_directory,
        any_salt,
        any_nonce,
    );
    match check_paths(&args.input, input_exists, &args.output, output_exists) {
        Err(error) => {
            assert(early == Err::<Seq<u8>, ErrorKind>(error.kind()));
            return Err(error);
        },
        Ok(_) => {},
    }
    match prepare_payload(data) {
        Err(error) => {
            assert(early == Err::<Seq<u8>, ErrorKind>(error.kind()));
            Err(error)
        },
        Ok((body, already_zstd)) => match args.kdf_params() {
            Err(error) => {
                assert(early == Err::<Seq<u8>, ErrorKind>(error.kind()));
                Err(error)
            },
            Ok(kdf_params) => {
                let salt = generate_salt();
                let nonce = generate_nonce();
                let file_flags = flags::for_payload(is_directory, already_zstd);
                let res = seal_body(
                    body.as_slice(),
                    file_flags,
                    password,
                    &kdf_params,
                    &salt,
                    &nonce,
                );
                proof {
                    let sealed = spec_encrypt(
                        *args,
                        input_exists,
                        output_exists,
                        password@,
                        payload,
                        is_directory,
                        salt@,
                        nonce@,
                    );
                    assert(match res {
                        Ok(container) => sealed == Ok::<Seq<u8>, ErrorKind>(container@),
                        Err(error) => sealed == Err::<Seq<u8>, ErrorKind>(error.kind()),
                    });
                }
                res
            },
        },
    }
}

} // verus!
