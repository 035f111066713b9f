//! The full decode path: decompress the zstd frame, then parse the
//! snapshot buffer.

use vstd::prelude::*;
use crate::snapshot::{
    parse_adsb, spec_format_error, spec_header_ok, spec_snapshot_matches, FormatError, Snapshot,
};

verus! {

/// Why a compressed snapshot was rejected.
#[derive(Debug, Clone, Copy, PartialEq, Eq, Structural)]
pub enum DecodeError {
    /// The compressed stream is truncated or corrupt.
    Decompress,
    /// The decompressed buffer failed the header checks.
    Format(FormatError),
}

/// What decompressing the zstd frame yields: the decompressed bytes, or
/// nothing when the stream is truncated or corrupt. Decompression is a
/// function of the input bytes alone.
pub uninterp spec fn zstd_decoded(s: Seq<u8>) -> Option<Seq<u8>>;

/// Relies on `zstd::decode_all`: decompresses a whole zstd frame from a
/// byte slice, failing on truncated or corrupt input.
#[verifier::external_body]
fn decompress(data: &[u8]) -> (r: Option<Vec<u8>>)
    ensures
        r is Some <==> zstd_decoded(data@) is Some,
        r matches Some(v) ==> Some(v@) == zstd_decoded(data@),
{
    zstd::decode_all(data).ok()
}

/// Decodes one compressed snapshot: decompresses the stream, then parses
/// the header and every full record.
pub fn decode_snapshot(compressed: &[u8]) -> (r: Result<Snapshot, DecodeError>)
    ensures
        zstd_decoded(compressed@) is None <==> r == Err::<Snapshot, DecodeError>(
            DecodeError::Decompress,
        ),
        zstd_decoded(compressed@) matches Some(b) ==> {
            &&& r is Ok <==> spec_header_ok(b)
            &&& (r matches Ok(s) ==> spec_snapshot_matches(s, b))
            &&& (!spec_header_ok(b) ==> r == Err::<Snapshot, DecodeError>(
                DecodeError::Format(spec_format_error(b)),
            ))
        },
{
    match decompress(compressed) {
        None => Err(DecodeError::Decompress),
        Some(buf) => match parse_adsb(buf.as_slice()) {
            Ok(s) => Ok(s),
            Err(e) => Err(DecodeError::Format(e)),
        },
    }
}

} // verus!
