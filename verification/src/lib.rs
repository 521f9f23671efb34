//! Password-based file and directory encryption: the container format and
//! the transform pipeline around it.
//!
//! A payload is archived (when it is a directory), compressed with zstd
//! unless it already is a zstd stream, encrypted with AES-256-GCM under a key
//! that Argon2id derives from the password, and stored behind a fixed 66-byte
//! header that records everything decryption needs but the password.

pub mod aes_params;
pub mod archive;
pub mod cli;
pub mod commands;
pub mod compression;
pub mod crypto;
pub mod error;
pub mod flags;
pub mod kdf_defaults;

pub use error::{ErrorKind, ResqryptError};

use vstd::prelude::*;

verus! {

/// Marker that opens every container: the ASCII text `RESQRYPT`.
pub const MAGIC_BYTES: [u8; 8] = [0x52, 0x45, 0x53, 0x51, 0x52, 0x59, 0x50, 0x54];

/// The one format version this codec reads and writes.
pub const FORMAT_VERSION: u8 = 0x01;

/// The four bytes that open every zstd frame.
pub const ZSTD_MAGIC: [u8; 4] = [0x28, 0xB5, 0x2F, 0xFD];

} // verus!
