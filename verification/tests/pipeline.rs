use resqrypt::cli::{DecryptArgs, EncryptArgs};
use resqrypt::commands::decrypt::{read_encrypted_file, Decrypted};
use resqrypt::commands::encrypt::{assemble_container, prepare_payload, seal_body};
use resqrypt::commands::{decrypt as decrypt_command, encrypt as encrypt_command};
use resqrypt::compression::{compress, decompress, is_zstd_compressed};
use resqrypt::crypto::aes::{decrypt_data, encrypt_data};
use resqrypt::crypto::format::{read_header, FileHeader};
use resqrypt::crypto::kdf::{derive_key, KdfParams};
use resqrypt::{ErrorKind, ResqryptError};
use std::path::PathBuf;

/// Arguments with costs low enough for a test.
fn args(memory_mb: u32, iterations: u32, parallelism: u32) -> EncryptArgs {
    EncryptArgs {
        input: PathBuf::from("input"),
        output: PathBuf::from("output.resqrypt"),
        password: None,
        argon2_memory: memory_mb,
        argon2_iterations: iterations,
        argon2_parallelism: parallelism,
        verbose: false,
    }
}

/// The encrypt command on an input that exists and an output that does not.
fn encrypt(
    args: &EncryptArgs,
    password: &[u8],
    data: Vec<u8>,
    is_directory: bool,
) -> Result<Vec<u8>, ResqryptError> {
    encrypt_command(args, true, false, password, data, is_directory)
}

fn decrypt_args() -> DecryptArgs {
    DecryptArgs {
        input: PathBuf::from("input.resqrypt"),
        output: PathBuf::from("output"),
        password: None,
        verbose: false,
    }
}

/// The decrypt command on an input that exists and an output that does not.
fn decrypt(password: &[u8], container: &[u8]) -> Result<Decrypted, ResqryptError> {
    decrypt_command(&decrypt_args(), true, false, password, container)
}

fn roundtrip(payload: Vec<u8>, password: &[u8], is_directory: bool) -> Decrypted {
    let container = encrypt(&args(1, 1, 1), password, payload, is_directory).unwrap();
    decrypt(password, &container).unwrap()
}

#[test]
fn roundtrip_of_a_small_file() {
    let back = roundtrip(b"Hello, World!".to_vec(), b"correct-horse", false);
    assert_eq!(back.data, b"Hello, World!".to_vec());
    assert!(!back.is_directory);
}

#[test]
fn roundtrip_of_an_empty_file() {
    let back = roundtrip(Vec::new(), b"pw", false);
    assert_eq!(back.data, Vec::<u8>::new());
    assert!(!back.is_directory);
}

#[test]
fn roundtrip_of_several_megabytes() {
    let mut payload = Vec::with_capacity(3 * 1024 * 1024);
    let mut state: u32 = 12345;
    for _ in 0..3 * 1024 * 1024 {
        state = state.wrapping_mul(1103515245).wrapping_add(12345);
        payload.push((state >> 16) as u8);
    }
    let back = roundtrip(payload.clone(), b"a longer password with spaces", false);
    assert_eq!(back.data, payload);
}

#[test]
fn roundtrip_keeps_the_directory_flag() {
    let back = roundtrip(b"archive bytes".to_vec(), b"pw", true);
    assert_eq!(back.data, b"archive bytes".to_vec());
    assert!(back.is_directory);
}

#[test]
fn roundtrip_with_an_empty_password() {
    let back = roundtrip(b"data".to_vec(), b"", false);
    assert_eq!(back.data, b"data".to_vec());
}

#[test]
fn container_of_a_plain_payload_holds_it_compressed() {
    let payload = vec![b'A'; 10000];
    let container = encrypt(&args(1, 1, 1), b"pw", payload.clone(), false).unwrap();
    let header = read_header(&container).unwrap();
    assert_eq!(header.version, 1);
    assert_eq!(header.flags, 0);
    assert!(!header.is_already_zstd());
    assert!(!header.is_directory());
    assert_eq!(container.len(), 66 + compress(&payload).unwrap().len() + 16);
    assert!(container.len() < payload.len());
}

#[test]
fn container_records_the_costs_asked_for() {
    let container = encrypt(&args(2, 3, 1), b"pw", b"x".to_vec(), false).unwrap();
    let header = read_header(&container).unwrap();
    assert_eq!(header.kdf_params.memory_cost, 2048);
    assert_eq!(header.kdf_params.time_cost, 3);
    assert_eq!(header.kdf_params.parallelism, 1);
    assert_eq!(&container[10..14], &[0x00, 0x08, 0x00, 0x00]);
}

#[test]
fn zstd_payload_is_stored_as_it_came() {
    let original = compress(b"already compressed once").unwrap();
    assert!(is_zstd_compressed(&original));
    let container = encrypt(&args(1, 1, 1), b"pw", original.clone(), false).unwrap();
    let header = read_header(&container).unwrap();
    assert!(header.is_already_zstd());
    assert!(!header.is_directory());
    assert_eq!(header.flags, 1);
    // Header, the payload itself, and the tag: nothing was compressed again.
    assert_eq!(container.len(), 66 + original.len() + 16);
    let back = decrypt(b"pw", &container).unwrap();
    assert_eq!(back.data, original);
}

#[test]
fn zstd_directory_payload_sets_both_flags() {
    let original = compress(b"an archive that is a zstd stream").unwrap();
    let container = encrypt(&args(1, 1, 1), b"pw", original.clone(), true).unwrap();
    let header = read_header(&container).unwrap();
    assert_eq!(header.flags, 3);
    let back = decrypt(b"pw", &container).unwrap();
    assert!(back.is_directory);
    assert_eq!(back.data, original);
}

#[test]
fn payload_that_only_opens_like_zstd_comes_back_unchanged() {
    // The magic and then bytes that are no valid stream: stored as it came,
    // and never handed to the decompressor.
    let payload = vec![0x28, 0xB5, 0x2F, 0xFD, 0xFF, 0xFF, 0xFF, 0xFF];
    let back = roundtrip(payload.clone(), b"pw", false);
    assert_eq!(back.data, payload);
}

#[test]
fn wrong_password_is_a_password_error() {
    let container = encrypt(&args(1, 1, 1), b"correct-horse", b"secret".to_vec(), false).unwrap();
    let error = decrypt(b"wrong-password", &container).unwrap_err();
    assert!(matches!(error, ResqryptError::PasswordError(_)));
}

#[test]
fn flipped_ciphertext_bits_are_password_errors() {
    let container = encrypt(&args(1, 1, 1), b"pw", b"secret".to_vec(), false).unwrap();
    for byte in 66..container.len() {
        let mut altered = container.clone();
        altered[byte] ^= 0x01;
        let error = decrypt(b"pw", &altered).unwrap_err();
        assert_eq!(error.kind(), ErrorKind::PasswordError, "byte {}", byte);
    }
}

#[test]
fn altered_salt_or_nonce_is_a_password_error() {
    let container = encrypt(&args(1, 1, 1), b"pw", b"secret".to_vec(), false).unwrap();
    for byte in [22usize, 53, 54, 65] {
        let mut altered = container.clone();
        altered[byte] ^= 0x80;
        let error = decrypt(b"pw", &altered).unwrap_err();
        assert_eq!(error.kind(), ErrorKind::PasswordError, "byte {}", byte);
    }
}

#[test]
fn two_containers_of_one_payload_differ() {
    let first = encrypt(&args(1, 1, 1), b"pw", b"same".to_vec(), false).unwrap();
    let second = encrypt(&args(1, 1, 1), b"pw", b"same".to_vec(), false).unwrap();
    // A fresh salt and a fresh nonce each time.
    assert_ne!(&first[22..54], &second[22..54]);
    assert_ne!(&first[54..66], &second[54..66]);
    assert_ne!(first, second);
}

#[test]
fn costs_that_argon2_refuses_fail_the_encryption() {
    // 1 MiB for 200 lanes is less than 8 KiB each.
    let error = encrypt(&args(1, 1, 200), b"pw", b"x".to_vec(), false).unwrap_err();
    assert!(matches!(error, ResqryptError::CryptoError(_)));
    let error = encrypt(&args(1, 0, 1), b"pw", b"x".to_vec(), false).unwrap_err();
    assert!(matches!(error, ResqryptError::CryptoError(_)));
    let error = encrypt(&args(1, 1, 0), b"pw", b"x".to_vec(), false).unwrap_err();
    assert!(matches!(error, ResqryptError::CryptoError(_)));
}

#[test]
fn memory_cost_beyond_32_bits_fails_the_encryption() {
    let error = encrypt(&args(4194304, 1, 1), b"pw", b"x".to_vec(), false).unwrap_err();
    assert!(matches!(error, ResqryptError::CryptoError(_)));
    let error = encrypt(&args(u32::MAX, 1, 1), b"pw", b"x".to_vec(), false).unwrap_err();
    assert_eq!(error.kind(), ErrorKind::CryptoError);
}

#[test]
fn kdf_params_of_the_arguments() {
    let params = args(32, 2, 2).kdf_params().unwrap();
    assert_eq!(params.memory_cost, 32768);
    assert_eq!(params.time_cost, 2);
    assert_eq!(params.parallelism, 2);
    assert!(args(4194303, 1, 1).kdf_params().is_ok());
    assert!(args(4194304, 1, 1).kdf_params().is_err());
}

#[test]
fn decrypt_rejects_what_is_no_container() {
    let error = decrypt(b"pw", b"").unwrap_err();
    assert_eq!(error.kind(), ErrorKind::Io);
    let error = decrypt(b"pw", &[0u8; 100]).unwrap_err();
    assert_eq!(error.kind(), ErrorKind::InvalidFormat);
    let mut wrong_version = b"RESQRYPT".to_vec();
    wrong_version.push(9);
    wrong_version.extend_from_slice(&[0u8; 100]);
    let error = decrypt(b"pw", &wrong_version).unwrap_err();
    assert_eq!(error.kind(), ErrorKind::InvalidFormat);
}

#[test]
fn decrypt_uses_the_costs_of_the_header() {
    // A header whose costs Argon2id refuses: no key, whatever the password.
    let bad = KdfParams { memory_cost: 0, time_cost: 0, parallelism: 0 };
    let container = assemble_container(0, &bad, &[0u8; 32], &[0u8; 12], &[0u8; 32]);
    let error = decrypt(b"pw", &container).unwrap_err();
    assert_eq!(error.kind(), ErrorKind::CryptoError);
    // A header that asks for more lanes than 32 bits can count eightfold.
    let huge = KdfParams { memory_cost: 8, time_cost: 1, parallelism: u32::MAX };
    let container = assemble_container(0, &huge, &[0u8; 32], &[0u8; 12], &[0u8; 32]);
    let error = decrypt(b"pw", &container).unwrap_err();
    assert_eq!(error.kind(), ErrorKind::CryptoError);
}

#[test]
fn decrypt_of_a_header_alone_is_a_crypto_error() {
    let params = KdfParams { memory_cost: 8, time_cost: 1, parallelism: 1 };
    for tail in 0..16 {
        let container = assemble_container(0, &params, &[0u8; 32], &[0u8; 12], &vec![0u8; tail]);
        let error = decrypt(b"pw", &container).unwrap_err();
        assert_eq!(error.kind(), ErrorKind::CryptoError, "{} bytes behind the header", tail);
    }
}

#[test]
fn decrypt_of_what_is_no_zstd_stream_is_a_compression_error() {
    // A container whose flags promise a compressed payload, around bytes that
    // are none.
    let params = KdfParams { memory_cost: 8, time_cost: 1, parallelism: 1 };
    let container =
        seal_body(b"not a zstd stream", 0, b"pw", &params, &[1u8; 32], &[2u8; 12]).unwrap();
    let error = decrypt(b"pw", &container).unwrap_err();
    assert!(matches!(error, ResqryptError::CompressionError(_)));
}

#[test]
fn seal_body_known_answer() {
    let params = KdfParams { memory_cost: 8, time_cost: 1, parallelism: 1 };
    let container = seal_body(b"abc", 1, b"password", &params, &[0u8; 32], &[0u8; 12]).unwrap();
    let mut expected = b"RESQRYPT".to_vec();
    expected.extend_from_slice(&[1, 1]);
    expected.extend_from_slice(&[8, 0, 0, 0, 1, 0, 0, 0, 1, 0, 0, 0]);
    expected.extend_from_slice(&[0u8; 32]);
    expected.extend_from_slice(&[0u8; 12]);
    expected.extend_from_slice(&[
        0x5c, 0x80, 0x07, 0xa0, 0xdb, 0x0e, 0x23, 0x77, 0x64, 0x10, 0x0b, 0x7f, 0xe5, 0x85, 0x4d,
        0x00, 0x62, 0x82, 0xa0,
    ]);
    assert_eq!(container, expected);
    // Flag 1: the body is the payload.
    let back = decrypt(b"password", &container).unwrap();
    assert_eq!(back.data, b"abc".to_vec());
    assert!(!back.is_directory);
}

#[test]
fn seal_body_is_fixed_by_its_arguments() {
    let params = KdfParams { memory_cost: 16, time_cost: 2, parallelism: 2 };
    let first = seal_body(b"body", 2, b"pw", &params, &[5u8; 32], &[6u8; 12]).unwrap();
    let second = seal_body(b"body", 2, b"pw", &params, &[5u8; 32], &[6u8; 12]).unwrap();
    assert_eq!(first, second);
    assert_eq!(first.len(), 66 + 4 + 16);
}

#[test]
fn prepare_payload_compresses_what_is_plain() {
    let (body, already_zstd) = prepare_payload(b"plain text, plain text".to_vec()).unwrap();
    assert!(!already_zstd);
    assert_eq!(decompress(&body).unwrap(), b"plain text, plain text".to_vec());
    assert!(is_zstd_compressed(&body));
}

#[test]
fn prepare_payload_keeps_what_is_zstd() {
    let original = compress(b"once").unwrap();
    let (body, already_zstd) = prepare_payload(original.clone()).unwrap();
    assert!(already_zstd);
    assert_eq!(body, original);
}

#[test]
fn read_encrypted_file_splits_header_and_ciphertext() {
    let params = KdfParams::new(32, 2, 2).unwrap();
    let container = assemble_container(2, &params, &[1u8; 32], &[2u8; 12], b"0123456789abcdefXYZ");
    assert_eq!(container.len(), FileHeader::SIZE + 19);
    let (header, ciphertext) = read_encrypted_file(&container).unwrap();
    assert_eq!(header.flags, 2);
    assert_eq!(header.kdf_params.memory_cost, 32768);
    assert_eq!(header.salt, [1u8; 32]);
    assert_eq!(header.nonce, [2u8; 12]);
    assert_eq!(ciphertext, b"0123456789abcdefXYZ");
    // A header and nothing behind it: an empty ciphertext.
    let (_, nothing) = read_encrypted_file(&container[..66]).unwrap();
    assert!(nothing.is_empty());
    assert!(read_encrypted_file(&container[..65]).is_err());
}

#[test]
fn hello_world_scenario() {
    // The thirteen bytes, sealed as they are behind a header under the key of
    // the password: 66 + 13 + 16 bytes.
    let params = KdfParams::default();
    let salt = [0x11u8; 32];
    let nonce = [0x22u8; 12];
    let key = derive_key(b"correct-horse", &salt, &params).unwrap();
    let ciphertext = encrypt_data(&key, &nonce, b"Hello, World!").unwrap();
    let container = assemble_container(0, &params, &salt, &nonce, &ciphertext);
    assert_eq!(container.len(), 95);

    let (header, stored) = read_encrypted_file(&container).unwrap();
    let key = derive_key(b"correct-horse", &header.salt, &header.kdf_params).unwrap();
    assert_eq!(decrypt_data(&key, &header.nonce, stored).unwrap(), b"Hello, World!".to_vec());

    let wrong = derive_key(b"wrong-password", &header.salt, &header.kdf_params).unwrap();
    let error = decrypt_data(&wrong, &header.nonce, stored).unwrap_err();
    assert!(matches!(error, ResqryptError::PasswordError(_)));

    let mut altered = stored.to_vec();
    let last = altered.len() - 1;
    altered[last] ^= 0x01;
    let error = decrypt_data(&key, &header.nonce, &altered).unwrap_err();
    assert!(matches!(error, ResqryptError::PasswordError(_)));
}

#[test]
fn hello_world_through_the_commands() {
    let container =
        encrypt(&args(64, 3, 4), b"correct-horse", b"Hello, World!".to_vec(), false).unwrap();
    let header = read_header(&container).unwrap();
    assert_eq!(header.kdf_params.memory_cost, 65536);
    assert_eq!(header.kdf_params.time_cost, 3);
    assert_eq!(header.kdf_params.parallelism, 4);
    assert_eq!(container.len(), 66 + compress(b"Hello, World!").unwrap().len() + 16);

    let back = decrypt(b"correct-horse", &container).unwrap();
    assert_eq!(back.data, b"Hello, World!".to_vec());

    let error = decrypt(b"wrong-password", &container).unwrap_err();
    assert!(matches!(error, ResqryptError::PasswordError(_)));

    let mut altered = container.clone();
    let last = altered.len() - 1;
    altered[last] ^= 0x01;
    let error = decrypt(b"correct-horse", &altered).unwrap_err();
    assert!(matches!(error, ResqryptError::PasswordError(_)));
}

#[test]
fn wrong_password_and_altered_container_give_the_same_error() {
    let container = encrypt(&args(1, 1, 1), b"correct-horse", b"secret".to_vec(), false).unwrap();
    let mut altered = container.clone();
    altered[70] ^= 0x04;
    let text = |result: Result<Decrypted, ResqryptError>| match result {
        Err(ResqryptError::PasswordError(text)) => text,
        _ => panic!("expected a password error"),
    };
    let wrong = text(decrypt(b"wrong-password", &container));
    let tampered = text(decrypt(b"correct-horse", &altered));
    assert_eq!(wrong, "Decryption failed: wrong password or corrupted data");
    assert_eq!(tampered, wrong);
}

#[test]
fn plain_payload_is_sealed_as_zstd_gives_it() {
    // The stored form of a plain payload is its zstd stream at level 3.
    let payload = b"plain, plain, plain, plain, plain".to_vec();
    let (body, already_zstd) = prepare_payload(payload.clone()).unwrap();
    assert!(!already_zstd);
    assert_eq!(body, zstd::encode_all(&payload[..], 3).unwrap());
    let container = encrypt(&args(1, 1, 1), b"pw", payload, false).unwrap();
    assert_eq!(container.len(), 66 + body.len() + 16);
}

#[test]
fn encrypt_of_a_missing_input_is_not_found() {
    let arguments = args(1, 1, 1);
    for output_exists in [false, true] {
        match encrypt_command(&arguments, false, output_exists, b"pw", b"x".to_vec(), false) {
            Err(ResqryptError::NotFound(path)) => assert_eq!(path, PathBuf::from("input")),
            _ => panic!("expected NotFound"),
        }
    }
}

#[test]
fn encrypt_onto_an_existing_output_is_already_exists() {
    let arguments = args(1, 1, 1);
    match encrypt_command(&arguments, true, true, b"pw", b"x".to_vec(), false) {
        Err(ResqryptError::AlreadyExists(path)) => {
            assert_eq!(path, PathBuf::from("output.resqrypt"))
        }
        _ => panic!("expected AlreadyExists"),
    }
}

#[test]
fn encrypt_checks_the_paths_before_the_costs() {
    // Costs that would be refused: the paths are reported all the same.
    let error = encrypt_command(&args(1, 0, 0), false, false, b"pw", b"x".to_vec(), false)
        .unwrap_err();
    assert_eq!(error.kind(), ErrorKind::NotFound);
    let error =
        encrypt_command(&args(1, 0, 0), true, true, b"pw", b"x".to_vec(), false).unwrap_err();
    assert_eq!(error.kind(), ErrorKind::AlreadyExists);
}

#[test]
fn decrypt_of_a_missing_input_is_not_found() {
    let container = encrypt(&args(1, 1, 1), b"pw", b"x".to_vec(), false).unwrap();
    match decrypt_command(&decrypt_args(), false, false, b"pw", &container) {
        Err(ResqryptError::NotFound(path)) => assert_eq!(path, PathBuf::from("input.resqrypt")),
        _ => panic!("expected NotFound"),
    }
}

#[test]
fn decrypt_onto_an_existing_output_is_already_exists() {
    let container = encrypt(&args(1, 1, 1), b"pw", b"x".to_vec(), false).unwrap();
    match decrypt_command(&decrypt_args(), true, true, b"pw", &container) {
        Err(ResqryptError::AlreadyExists(path)) => assert_eq!(path, PathBuf::from("output")),
        _ => panic!("expected AlreadyExists"),
    }
    // Even what is no container is not looked at before the paths.
    let error = decrypt_command(&decrypt_args(), true, true, b"pw", b"junk").unwrap_err();
    assert_eq!(error.kind(), ErrorKind::AlreadyExists);
}

#[test]
fn refused_costs_of_the_arguments() {
    assert!(args(1, 1, 1).kdf_params().is_ok());
    for refused in [args(1, 0, 1), args(1, 1, 0), args(1, 1, 200), args(0, 1, 1)] {
        let error = refused.kdf_params().unwrap_err();
        assert_eq!(error.kind(), ErrorKind::CryptoError);
    }
}
