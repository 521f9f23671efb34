//! zstd compression and decompression.

use crate::compression::detect::is_zstd_format;
use crate::error::{io_error_text, ErrorKind, ResqryptError};
use vstd::prelude::*;

verus! {

/// Compression level: a balance of speed and ratio.
pub const DEFAULT_LEVEL: i32 = 3;

/// The bytes that a sequence of zstd frames decompresses to, or `None` where
/// the input is not such a sequence: the output of `zstd::decode_all`.
pub uninterp spec fn zstd_decoded(data: Seq<u8>) -> Option<Seq<u8>>;

/// The zstd stream that compressing `data` at `level` gives, or `None` where
/// the compressor fails: the output of `zstd::encode_all`. The bytes belong to
/// the version of zstd that is linked; another version may give others.
pub uninterp spec fn zstd_encoded(data: Seq<u8>, level: i32) -> Option<Seq<u8>>;

/// What compressing `data` yields: the stream that zstd gives at
/// [`DEFAULT_LEVEL`], or a compression error where it gives none.
pub open spec fn spec_compress(data: Seq<u8>) -> Result<Seq<u8>, ErrorKind> {
    match zstd_encoded(data, DEFAULT_LEVEL) {
        Some(compressed) => Ok(compressed),
        None => Err(ErrorKind::CompressionError),
    }
}

/// What decompressing `data` yields.
pub open spec fn spec_decompress(data: Seq<u8>) -> Result<Seq<u8>, ErrorKind> {
    match zstd_decoded(data) {
        Some(original) => Ok(original),
        None => Err(ErrorKind::CompressionError),
    }
}

/// Calls `zstd::encode_all`.
///
/// The source reads the input from memory and writes into a vector, so the
/// result, and whether there is one, depends on the input and the level
/// alone. Its documentation says that the result is in the zstd frame format,
/// which opens with the magic number; that the result decompresses to the
/// input is what a compressor is for. A compressor that cannot get the
/// memory it needs reports an error too; that case is not modelled.
#[verifier::external_body]
fn zstd_encode_all(data: &[u8], level: i32) -> (res: Result<Vec<u8>, std::io::Error>)
    ensures
        res matches Ok(compressed) ==> zstd_encoded(data@, level) == Some(compressed@),
        res is Err ==> zstd_encoded(data@, level) is None,
        res matches Ok(compressed) ==> zstd_decoded(compressed@) == Some(data@),
        res matches Ok(compressed) ==> is_zstd_format(compressed@),
{
    zstd::encode_all(data, level)
}

/// Calls `zstd::decode_all`.
///
/// Whether a byte sequence is a valid sequence of zstd frames, and what it
/// decompresses to, is fixed by the format, so the result is taken as a
/// function of the input alone. A decoder that cannot get the memory it
/// needs reports an error too; that case is not modelled.
#[verifier::external_body]
fn zstd_decode_all(data: &[u8]) -> (res: Result<Vec<u8>, std::io::Error>)
    ensures
        res matches Ok(original) ==> zstd_decoded(data@) == Some(original@),
        res is Err ==> zstd_decoded(data@) is None,
{
    zstd::decode_all(data)
}

/// Compresses `data` with zstd at [`DEFAULT_LEVEL`].
///
/// The result is the stream that zstd gives at that level. It opens with the
/// magic number and decompresses to `data`; this holds of empty input too.
/// Where zstd gives no stream the result is a compression error.
pub fn compress(data: &[u8]) -> (res: Result<Vec<u8>, ResqryptError>)
    ensures
        match res {
            Ok(compressed) => spec_compress(data@) == Ok::<Seq<u8>, ErrorKind>(compressed@),
            Err(error) => spec_compress(data@) == Err::<Seq<u8>, ErrorKind>(error.kind()),
        },
        res matches Ok(compressed) ==> spec_decompress(compressed@) == Ok::<Seq<u8>, ErrorKind>(
            data@,
        ),
        res matches Ok(compressed) ==> is_zstd_format(compressed@),
        res matches Err(error) ==> error.kind() == ErrorKind::CompressionError,
{
    match zstd_encode_all(data, DEFAULT_LEVEL) {
        Ok(compressed) => Ok(compressed),
        Err(error) => Err(
            ResqryptError::CompressionError(io_error_text("Compression failed: ", &error)),
        ),
    }
}

/// Decompresses a zstd stream.
///
/// Fails with a compression error exactly where `data` is not a valid stream.
pub fn decompress(data: &[u8]) -> (res: Result<Vec<u8>, ResqryptError>)
    ensures
        match res {
            Ok(original) => spec_decompress(data@) == Ok::<Seq<u8>, ErrorKind>(original@),
            Err(error) => spec_decompress(data@) == Err::<Seq<u8>, ErrorKind>(error.kind()),
        },
{
    match zstd_decode_all(data) {
        Ok(original) => Ok(original),
        Err(error) => Err(
            ResqryptError::CompressionError(io_error_text("Decompression failed: ", &error)),
        ),
    }
}

} // verus!
