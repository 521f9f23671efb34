//! zstd compression and the detection of data that already is a zstd stream.

pub mod detect;
pub mod zstd;

pub use detect::is_zstd_compressed;
pub use zstd::{compress, decompress};
