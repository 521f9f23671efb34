//! Key derivation, authenticated encryption and the container header.

pub mod aes;
pub mod format;
pub mod kdf;
mod random;

pub use aes::{decrypt_data, encrypt_data, generate_nonce};
pub use format::{read_header, write_header, FileHeader};
pub use kdf::{derive_key, generate_salt, KdfParams};
