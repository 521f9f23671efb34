//! The container header.
//!
//! Layout, with multi-byte integers little-endian:
//!
//! | field           | bytes |
//! |-----------------|-------|
//! | magic           | 8     |
//! | version         | 1     |
//! | flags           | 1     |
//! | KDF memory cost | 4     |
//! | KDF time cost   | 4     |
//! | KDF parallelism | 4     |
//! | salt            | 32    |
//! | nonce           | 12    |
//!
//! The ciphertext follows the header directly and runs to the end of the
//! container.

use crate::crypto::kdf::KdfParams;
use crate::error::{unexpected_eof, ErrorKind, ResqryptError};
use crate::{aes_params, flags, kdf_defaults, FORMAT_VERSION, MAGIC_BYTES};
use vstd::prelude::*;
use vstd::string::StringExecFns;

verus! {

/// The header of a container.
#[derive(Debug, Clone, Copy)]
pub struct FileHeader {
    /// Format version.
    pub version: u8,
    /// Flags: see [`crate::flags`].
    pub flags: u8,
    /// The parameters the key was derived with.
    pub kdf_params: KdfParams,
    /// Salt of the key derivation.
    pub salt: [u8; 32],
    /// Nonce of the cipher.
    pub nonce: [u8; 12],
}

/// A header as a mathematical value: salt and nonce as sequences.
pub struct FileHeaderView {
    pub version: u8,
    pub flags: u8,
    pub kdf_params: KdfParams,
    pub salt: Seq<u8>,
    pub nonce: Seq<u8>,
}

impl View for FileHeader {
    type V = FileHeaderView;

    open spec fn view(&self) -> FileHeaderView {
        FileHeaderView {
            version: self.version,
            flags: self.flags,
            kdf_params: self.kdf_params,
            salt: self.salt@,
            nonce: self.nonce@,
        }
    }
}

/// The four bytes of `x`, least significant first.
pub open spec fn le_bytes(x: u32) -> Seq<u8> {
    seq![
        (x % 256) as u8,
        ((x / 256) % 256) as u8,
        ((x / 65536) % 256) as u8,
        (x / 16777216) as u8,
    ]
}

/// The number whose four bytes, least significant first, open `bytes`.
pub open spec fn le_value(bytes: Seq<u8>) -> u32 {
    (bytes[0] + 256 * bytes[1] + 65536 * bytes[2] + 16777216 * bytes[3]) as u32
}

impl FileHeaderView {
    /// Whether salt and nonce have the lengths the layout gives them.
    pub open spec fn wf(self) -> bool {
        self.salt.len() == 32 && self.nonce.len() == 12
    }

    /// The 66 bytes that stand for this header in a container.
    pub open spec fn encoding(self) -> Seq<u8> {
        MAGIC_BYTES@ + seq![self.version, self.flags] + le_bytes(self.kdf_params.memory_cost)
            + le_bytes(self.kdf_params.time_cost) + le_bytes(self.kdf_params.parallelism)
            + self.salt + self.nonce
    }

    /// Whether the payload was stored as it came because it was a zstd stream.
    pub open spec fn is_already_zstd(self) -> bool {
        flags::is_set(self.flags, flags::ALREADY_ZSTD)
    }

    /// Whether the payload is an archived directory tree.
    pub open spec fn is_directory(self) -> bool {
        flags::is_set(self.flags, flags::IS_DIRECTORY)
    }
}

/// What reading a header from the front of `data` yields.
///
/// The fields are examined in the order of the layout, and the first fault
/// decides: input that ends inside a field is an I/O fault, a wrong magic or
/// an unknown version makes the format invalid.
pub open spec fn decode_header(data: Seq<u8>) -> Result<FileHeaderView, ErrorKind> {
    if data.len() < 8 {
        Err(ErrorKind::Io)
    } else if data.subrange(0, 8) != MAGIC_BYTES@ {
        Err(ErrorKind::InvalidFormat)
    } else if data.len() < 9 {
        Err(ErrorKind::Io)
    } else if data[8] != FORMAT_VERSION {
        Err(ErrorKind::InvalidFormat)
    } else if data.len() < FileHeader::SIZE {
        Err(ErrorKind::Io)
    } else {
        Ok(
            FileHeaderView {
                version: data[8],
                flags: data[9],
                kdf_params: KdfParams {
                    memory_cost: le_value(data.subrange(10, 14)),
                    time_cost: le_value(data.subrange(14, 18)),
                    parallelism: le_value(data.subrange(18, 22)),
                },
                salt: data.subrange(22, 54),
                nonce: data.subrange(54, 66),
            },
        )
    }
}

impl FileHeader {
    /// Size of the encoded header in bytes.
    pub const SIZE: usize = 8 + 1 + 1 + 12 + kdf_defaults::SALT_LEN + aes_params::NONCE_LEN;

    /// A header of the current version.
    pub fn new(flags: u8, kdf_params: KdfParams, salt: [u8; 32], nonce: [u8; 12]) -> (header: Self)
        ensures
            header.version == FORMAT_VERSION,
            header.flags == flags,
            header.kdf_params == kdf_params,
            header.salt == salt,
            header.nonce == nonce,
    {
        FileHeader { version: FORMAT_VERSION, flags, kdf_params, salt, nonce }
    }

    /// Whether the payload was stored as it came because it was a zstd stream.
    pub fn is_already_zstd(&self) -> (set: bool)
        ensures
            set == self@.is_already_zstd(),
    {
        self.flags & flags::ALREADY_ZSTD != 0
    }

    /// Whether the payload is an archived directory tree.
    pub fn is_directory(&self) -> (set: bool)
        ensures
            set == self@.is_directory(),
    {
        self.flags & flags::IS_DIRECTORY != 0
    }
}

/// Four bytes written least significant first read back as the same number.
pub proof fn lemma_le_value_of_bytes(x: u32)
    ensures
        le_bytes(x).len() == 4,
        le_value(le_bytes(x)) == x,
{
}

/// A byte below a multiple of 256 is the remainder, and the multiple the
/// quotient.
proof fn lemma_low_byte(low: int, high: int)
    by (nonlinear_arith)
    requires
        0 <= low < 256,
        0 <= high,
    ensures
        (low + 256 * high) % 256 == low,
        (low + 256 * high) / 256 == high,
{
}

/// A number read from four bytes is written as those four bytes.
pub proof fn lemma_le_bytes_of_value(bytes: Seq<u8>)
    requires
        bytes.len() == 4,
    ensures
        le_bytes(le_value(bytes)) == bytes,
{
    let b0 = bytes[0] as int;
    let b1 = bytes[1] as int;
    let b2 = bytes[2] as int;
    let b3 = bytes[3] as int;
    let x = le_value(bytes) as int;
    assert(x == b0 + 256 * (b1 + 256 * (b2 + 256 * b3)));
    lemma_low_byte(b0, b1 + 256 * (b2 + 256 * b3));
    lemma_low_byte(b1, b2 + 256 * b3);
    lemma_low_byte(b2, b3);
    assert(x / 256 == b1 + 256 * (b2 + 256 * b3));
    assert(x / 65536 == (x / 256) / 256);
    assert(x / 16777216 == (x / 65536) / 256);
    assert(le_bytes(le_value(bytes)) =~= bytes);
}

/// The encoding of a header is 66 bytes long.
pub proof fn lemma_encoding_len(header: FileHeaderView)
    requires
        header.wf(),
    ensures
        header.encoding().len() == FileHeader::SIZE == 66,
{
}

/// A header of the current version that was written is read back unchanged,
/// field for field, whatever follows it: no cost parameter is truncated by
/// its four bytes.
pub proof fn lemma_header_roundtrip(header: FileHeaderView, rest: Seq<u8>)
    requires
        header.wf(),
        header.version == FORMAT_VERSION,
    ensures
        decode_header(header.encoding() + rest) == Ok::<FileHeaderView, ErrorKind>(header),
{
    let data = header.encoding() + rest;
    lemma_le_value_of_bytes(header.kdf_params.memory_cost);
    lemma_le_value_of_bytes(header.kdf_params.time_cost);
    lemma_le_value_of_bytes(header.kdf_params.parallelism);
    assert(data.subrange(0, 8) =~= MAGIC_BYTES@);
    assert(data.subrange(10, 14) =~= le_bytes(header.kdf_params.memory_cost));
    assert(data.subrange(14, 18) =~= le_bytes(header.kdf_params.time_cost));
    assert(data.subrange(18, 22) =~= le_bytes(header.kdf_params.parallelism));
    assert(data.subrange(22, 54) =~= header.salt);
    assert(data.subrange(54, 66) =~= header.nonce);
}

/// Where a header is read, the input opens with exactly the encoding of that
/// header: two inputs that differ in their first 66 bytes never give the same
/// header.
pub proof fn lemma_decoded_header_is_prefix(data: Seq<u8>, header: FileHeaderView)
    requires
        decode_header(data) == Ok::<FileHeaderView, ErrorKind>(header),
    ensures
        header.wf(),
        header.version == FORMAT_VERSION,
        data.len() >= 66,
        data.subrange(0, 66) == header.encoding(),
{
    lemma_le_bytes_of_value(data.subrange(10, 14));
    lemma_le_bytes_of_value(data.subrange(14, 18));
    lemma_le_bytes_of_value(data.subrange(18, 22));
    assert(data.subrange(0, 66) =~= data.subrange(0, 8) + seq![data[8], data[9]] + data.subrange(
        10,
        14,
    ) + data.subrange(14, 18) + data.subrange(18, 22) + data.subrange(22, 54) + data.subrange(
        54,
        66,
    ));
}

/// Appends `bytes` to `buffer`.
fn append(buffer: &mut Vec<u8>, bytes: &[u8])
    ensures
        final(buffer)@ == old(buffer)@ + bytes@,
{
    let mut i: usize = 0;
    while i < bytes.len()
        invariant
            i <= bytes.len(),
            buffer@ == old(buffer)@ + bytes@.subrange(0, i as int),
        decreases bytes.len() - i,
    {
        buffer.push(bytes[i]);
        i += 1;
    }
}

/// Appends the four bytes of `x`, least significant first, to `buffer`.
fn append_le(buffer: &mut Vec<u8>, x: u32)
    ensures
        final(buffer)@ == old(buffer)@ + le_bytes(x),
{
    buffer.push((x % 256) as u8);
    buffer.push(((x / 256) % 256) as u8);
    buffer.push(((x / 65536) % 256) as u8);
    buffer.push((x / 16777216) as u8);
}

/// Reads the number whose four bytes, least significant first, stand at
/// `data[at..at + 4]`.
fn read_le(data: &[u8], at: usize) -> (x: u32)
    requires
        at + 4 <= data.len(),
    ensures
        x == le_value(data@.subrange(at as int, at + 4)),
{
    let b0: u32 = data[at] as u32;
    let b1: u32 = data[at + 1] as u32;
    let b2: u32 = data[at + 2] as u32;
    let b3: u32 = data[at + 3] as u32;
    b0 + 256 * b1 + 65536 * b2 + 16777216 * b3
}

/// Appends the encoding of `header` to `writer`. Never fails.
pub fn write_header(writer: &mut Vec<u8>, header: &FileHeader) -> (res: Result<(), ResqryptError>)
    ensures
        res is Ok,
        final(writer)@ == old(writer)@ + header@.encoding(),
        header@.encoding().len() == FileHeader::SIZE,
{
    append(writer, MAGIC_BYTES.as_slice());
    writer.push(header.version);
    writer.push(header.flags);
    append_le(writer, header.kdf_params.memory_cost);
    append_le(writer, header.kdf_params.time_cost);
    append_le(writer, header.kdf_params.parallelism);
    append(writer, header.salt.as_slice());
    append(writer, header.nonce.as_slice());
    Ok(())
}

/// Reads the header that opens `data`.
///
/// Succeeds exactly on input of at least 66 bytes that opens with the magic
/// and the current version; what follows the header is not examined.
pub fn read_header(data: &[u8]) -> (res: Result<FileHeader, ResqryptError>)
    ensures
        match res {
            Ok(header) => decode_header(data@) == Ok::<FileHeaderView, ErrorKind>(header@),
            Err(error) => decode_header(data@) == Err::<FileHeaderView, ErrorKind>(error.kind()),
        },
        data.len() >= 8 && data@.subrange(0, 8) != MAGIC_BYTES@ ==> res is Err
            && res->Err_0.kind() == ErrorKind::InvalidFormat,
        data.len() >= 9 && data@.subrange(0, 8) == MAGIC_BYTES@ && data[8] != FORMAT_VERSION
            ==> res is Err && res->Err_0.kind() == ErrorKind::InvalidFormat,
{
    if data.len() < 8 {
        return Err(ResqryptError::Io(unexpected_eof("failed to fill whole buffer")));
    }
    let mut i: usize = 0;
    while i < 8
        invariant
            i <= 8,
            data.len() >= 8,
            forall|j: int| 0 <= j < i ==> data[j] == MAGIC_BYTES[j],
        decreases 8 - i,
    {
        if data[i] != MAGIC_BYTES[i] {
            return Err(
                ResqryptError::InvalidFormat(
                    "Not a valid resqrypt file (invalid magic bytes)".to_string(),
                ),
            );
        }
        i += 1;
    }
    assert(data@.subrange(0, 8) =~= MAGIC_BYTES@);
    if data.len() < 9 {
        return Err(ResqryptError::Io(unexpected_eof("failed to fill whole buffer")));
    }
    let version = data[8];
    if version != FORMAT_VERSION {
        let text = String::from_str("Unsupported file format version: ").concat(
            version.to_string().as_str(),
        ).concat(" (expected ").concat(FORMAT_VERSION.to_string().as_str()).concat(")");
        return Err(ResqryptError::InvalidFormat(text));
    }
    if data.len() < FileHeader::SIZE {
        return Err(ResqryptError::Io(unexpected_eof("failed to fill whole buffer")));
    }
    let flags = data[9];
    let kdf_params = KdfParams {
        memory_cost: read_le(data, 10),
        time_cost: read_le(data, 14),
        parallelism: read_le(data, 18),
    };
    let mut salt = [0u8; 32];
    let mut k: usize = 0;
    while k < 32
        invariant
            k <= 32,
            data.len() >= 66,
            forall|j: int| 0 <= j < k ==> salt[j] == data[22 + j],
        decreases 32 - k,
    {
        salt[k] = data[22 + k];
        k += 1;
    }
    let mut nonce = [0u8; 12];
    let mut k: usize = 0;
    while k < 12
        invariant
            k <= 12,
            data.len() >= 66,
            forall|j: int| 0 <= j < k ==> nonce[j] == data[54 + j],
        decreases 12 - k,
    {
        nonce[k] = data[54 + k];
        k += 1;
    }
    assert(salt@ =~= data@.subrange(22, 54));
    assert(nonce@ =~= data@.subrange(54, 66));
    Ok(FileHeader { version, flags, kdf_params, salt, nonce })
}

} // verus!
