//! Lossless compression of the payload, at one fixed level.

use vstd::prelude::*;
use crate::error::{LoadError, WriteError};

verus! {

/// The compression level of every container that this library writes.
pub const LEVEL: i32 = 3;

/// The opaque error of `std::io`.
#[verifier::external_type_specification]
#[verifier::external_body]
pub struct ExIoError(std::io::Error);

/// The zstd frame that `zstd::stream::encode_all` writes for `data` at `level`.
pub uninterp spec fn zstd_frame(data: Seq<u8>, level: i32) -> Seq<u8>;

/// The data that `zstd::stream::decode_all` reads from `blob`; `None` where it
/// reports an error.
pub uninterp spec fn zstd_content(blob: Seq<u8>) -> Option<Seq<u8>>;

/// Calls `zstd::stream::encode_all`.
///
/// Trusted: the call succeeds (the encoder writes into a vector, and zstd
/// clamps the level rather than refusing it); the output is the frame named
/// by [`zstd_frame`]; it is not empty, since every frame opens with a header;
/// and `zstd::stream::decode_all` reads `data` back from it, the compression
/// being lossless.
#[verifier::external_body]
fn zstd_encode_all(data: &[u8], level: i32) -> (r: Result<Vec<u8>, std::io::Error>)
    ensures
        r is Ok,
        r matches Ok(b) ==> b@ == zstd_frame(data@, level),
        r matches Ok(b) ==> b@.len() > 0,
        r matches Ok(b) ==> zstd_content(b@) == Some(data@),
{
    zstd::stream::encode_all(data, level)
}

/// Calls `zstd::stream::decode_all`.
///
/// Trusted: the outcome is the one named by [`zstd_content`].
#[verifier::external_body]
fn zstd_decode_all(blob: &[u8]) -> (r: Result<Vec<u8>, std::io::Error>)
    ensures
        match zstd_content(blob@) {
            Some(data) => r matches Ok(v) && v@ == data,
            None => r is Err,
        },
{
    zstd::stream::decode_all(blob)
}

/// Compresses `payload` at [`LEVEL`].
///
/// Succeeds on every payload, the empty one included: the blob is the frame
/// of the payload, is not empty, and decompresses to the payload again.
/// `Compress` stands for the compressor's own error, which does not come.
pub fn compress(payload: &[u8]) -> (r: Result<Vec<u8>, WriteError>)
    ensures
        r is Ok,
        r matches Ok(b) ==> {
            &&& b@ == zstd_frame(payload@, LEVEL)
            &&& b@.len() > 0
            &&& zstd_content(b@) == Some(payload@)
        },
{
    match zstd_encode_all(payload, LEVEL) {
        Ok(b) => Ok(b),
        Err(_) => Err(WriteError::Compress),
    }
}

/// Decompresses `blob` in full: `Ok` with the data that the blob holds,
/// `Decompress` where it is invalid or incomplete.
pub fn decompress(blob: &[u8]) -> (r: Result<Vec<u8>, LoadError>)
    ensures
        match zstd_content(blob@) {
            Some(data) => r matches Ok(v) && v@ == data,
            None => r matches Err(e) && e == LoadError::Decompress,
        },
{
    match zstd_decode_all(blob) {
        Ok(v) => Ok(v),
        Err(_) => Err(LoadError::Decompress),
    }
}

} // verus!
