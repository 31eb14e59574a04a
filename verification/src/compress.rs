//! Stream compression: the complete container buffer is turned into one
//! gzip stream, via the `flate2` crate behind the trusted item below. The
//! contract is the round trip: the compressed bytes decompress to exactly
//! the input buffer.

use vstd::prelude::*;

use crate::archive::ArchiveError;

verus! {

/// The bytes a gzip stream decompresses to, or `None` where the bytes are
/// not a complete gzip stream.
pub uninterp spec fn gunzip(bytes: Seq<u8>) -> Option<Seq<u8>>;

/// Relies on `flate2::write::GzEncoder` at the default compression level:
/// the stream it finishes decompresses to exactly the bytes written into
/// it. Every write goes to the in-memory `Vec<u8>`, which never fails, so
/// the call returns `Ok`.
#[verifier::external_body]
fn gzip_bytes(data: &Vec<u8>) -> (r: Result<Vec<u8>, std::io::Error>)
    ensures
        r is Ok,
        gunzip(r.unwrap()@) == Some(data@),
{
    let mut encoder = flate2::write::GzEncoder::new(Vec::new(), flate2::Compression::default());
    std::io::Write::write_all(&mut encoder, data.as_slice())?;
    encoder.finish()
}

/// Compresses the complete container buffer into a single gzip stream.
/// If this returns, the result is a complete, independently decompressible
/// stream whose decompressed bytes equal the input exactly; with the
/// in-memory destination no write can fail, so the result is always `Ok`.
pub fn compress(container: &Vec<u8>) -> (r: Result<Vec<u8>, ArchiveError>)
    ensures
        r is Ok,
        gunzip(r.unwrap()@) == Some(container@),
{
    match gzip_bytes(container) {
        Ok(stream) => Ok(stream),
        Err(_) => Err(ArchiveError::Io),
    }
}

} // verus!
