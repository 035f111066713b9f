//! The snapshot level: header parsing, splitting the remainder of the
//! buffer into fixed-stride records, and assembling the decoded list.

use vstd::prelude::*;
use vstd::arithmetic::div_mod::lemma_fundamental_div_mod_converse;
use crate::aircraft::{build_aircraft, spec_build_aircraft, Aircraft, MIN_RECORD_BYTES};
use crate::bytes::{read_i16, read_i32, read_u32, spec_le_i16, spec_le_i32, spec_le_u32};

verus! {

/// Why a buffer was rejected before any record was decoded.
#[derive(Debug, Clone, Copy, PartialEq, Eq, Structural)]
pub enum FormatError {
    /// The buffer is shorter than the span the header and the receiver
    /// fields need.
    TooShort,
    /// The stride is zero, not a multiple of four, or too small to cover
    /// every referenced record offset.
    BadStride,
}

/// One decoded snapshot: the header fields and the aircraft list, in
/// input record order.
pub struct Snapshot {
    /// Capture time: milliseconds within the current rollover period.
    pub time_low_ms: u32,
    /// Capture time: rollover counter (one unit per 2^32 milliseconds).
    pub time_high: u32,
    /// Record width in bytes.
    pub stride: u32,
    /// Aircraft with a position, as counted by the producer.
    pub global_ac_count_withpos: u32,
    /// Globe-partition index of this snapshot.
    pub globe_index: u32,
    /// Bounding box, south edge, scaled.
    pub south: i16,
    /// Bounding box, west edge, scaled.
    pub west: i16,
    /// Bounding box, north edge, scaled.
    pub north: i16,
    /// Bounding box, east edge, scaled.
    pub east: i16,
    /// Total message count.
    pub messages: u32,
    /// Receiver latitude in millionths of a degree.
    pub receiver_lat: i32,
    /// Receiver longitude in millionths of a degree.
    pub receiver_lon: i32,
    /// Format/schema version of the snapshot.
    pub format_version: u32,
    /// Decoded aircraft, in input record order.
    pub aircraft: Vec<Aircraft>,
}

/// The record width the header announces.
pub open spec fn spec_stride(b: Seq<u8>) -> u32
    recommends
        b.len() >= 12,
{
    spec_le_u32(b, 8)
}

/// Whether the buffer passes the header checks: long enough for the
/// fixed fields, a positive stride that is a multiple of four and covers
/// every record offset, and long enough for the header's own stride-wide
/// region.
pub open spec fn spec_header_ok(b: Seq<u8>) -> bool {
    &&& b.len() >= 44
    &&& spec_stride(b) != 0
    &&& spec_stride(b) % 4 == 0
    &&& spec_stride(b) >= MIN_RECORD_BYTES
    &&& b.len() >= 32 + spec_stride(b)
}

/// The error a rejected buffer reports: a too-short buffer before the
/// stride is readable, a bad stride next, a buffer too short for the
/// header region last.
pub open spec fn spec_format_error(b: Seq<u8>) -> FormatError {
    if b.len() < 44 {
        FormatError::TooShort
    } else if spec_stride(b) == 0 || spec_stride(b) % 4 != 0 || spec_stride(b)
        < MIN_RECORD_BYTES {
        FormatError::BadStride
    } else {
        FormatError::TooShort
    }
}

/// Whether records carry a message rate instead of a message count:
/// selected by a nonzero globe index together with a recent format
/// version.
pub open spec fn spec_use_message_rate(b: Seq<u8>) -> bool
    recommends
        b.len() >= 76,
{
    spec_le_u32(b, 16) != 0 && spec_le_u32(b, 72) >= 20220916
}

/// How many full records follow the header region: the bytes from
/// `stride` to the end, divided into `stride`-wide chunks; a trailing
/// partial chunk is dropped.
pub open spec fn spec_record_count(b: Seq<u8>) -> int
    recommends
        spec_header_ok(b),
{
    (b.len() - spec_stride(b)) / (spec_stride(b) as int)
}

/// The bytes of record `k`, counted from zero.
pub open spec fn spec_record(b: Seq<u8>, k: int) -> Seq<u8>
    recommends
        spec_header_ok(b),
        0 <= k < spec_record_count(b),
{
    b.subrange(spec_stride(b) * (k + 1), spec_stride(b) * (k + 2))
}

/// Whether `s` holds exactly what decoding buffer `b` yields.
pub open spec fn spec_snapshot_matches(s: Snapshot, b: Seq<u8>) -> bool {
    &&& s.time_low_ms == spec_le_u32(b, 0)
    &&& s.time_high == spec_le_u32(b, 4)
    &&& s.stride == spec_stride(b)
    &&& s.global_ac_count_withpos == spec_le_u32(b, 12)
    &&& s.globe_index == spec_le_u32(b, 16)
    &&& s.south == spec_le_i16(b, 20)
    &&& s.west == spec_le_i16(b, 22)
    &&& s.north == spec_le_i16(b, 24)
    &&& s.east == spec_le_i16(b, 26)
    &&& s.messages == spec_le_u32(b, 28)
    &&& s.receiver_lat == spec_le_i32(b, 64)
    &&& s.receiver_lon == spec_le_i32(b, 68)
    &&& s.format_version == spec_le_u32(b, 72)
    &&& s.aircraft@.len() == spec_record_count(b)
    &&& forall|k: int|
        0 <= k < spec_record_count(b) ==> s.aircraft@[k]@ == spec_build_aircraft(
            spec_record(b, k),
            spec_use_message_rate(b),
        )
}

impl Snapshot {
    /// The capture time in whole milliseconds: the low counter plus one
    /// full 32-bit rollover period per unit of the high counter. The
    /// capture time in seconds is this value divided by 1000, which is
    /// the producer's `low/1000 + high*4294967.296`.
    pub fn now_millis(&self) -> (r: u64)
        ensures
            r == self.time_low_ms + self.time_high * 0x1_0000_0000,
    {
        self.time_low_ms as u64 + self.time_high as u64 * 0x1_0000_0000
    }
}

/// Parses a decompressed snapshot buffer: the header, then every full
/// `stride`-wide record; a trailing partial record is dropped without
/// an error.
pub fn parse_adsb(data: &[u8]) -> (r: Result<Snapshot, FormatError>)
    ensures
        r is Ok <==> spec_header_ok(data@),
        r matches Ok(s) ==> spec_snapshot_matches(s, data@),
        r matches Err(e) ==> e == spec_format_error(data@),
{
    if data.len() < 44 {
        return Err(FormatError::TooShort);
    }
    let stride: u32 = read_u32(data, 8);
    if stride == 0 || stride % 4 != 0 || stride < MIN_RECORD_BYTES {
        return Err(FormatError::BadStride);
    }
    let stride_us: usize = stride as usize;
    if data.len() < 32 || data.len() - 32 < stride_us {
        return Err(FormatError::TooShort);
    }
    let globe_index: u32 = read_u32(data, 16);
    let format_version: u32 = read_u32(data, 72);
    let use_message_rate: bool = globe_index != 0 && format_version >= 20220916;
    let ghost b = data@;
    let mut aircraft: Vec<Aircraft> = Vec::new();
    let mut off: usize = stride_us;
    proof {
        assert(stride_us * (aircraft@.len() + 1) == stride_us) by (nonlinear_arith)
            requires
                aircraft@.len() == 0,
        ;
    }
    while off <= data.len() - stride_us
        invariant
            spec_header_ok(b),
            b == data@,
            stride == spec_stride(b),
            stride_us == stride,
            stride_us >= MIN_RECORD_BYTES,
            stride_us <= b.len(),
            use_message_rate == spec_use_message_rate(b),
            off == stride_us * (aircraft@.len() + 1),
            off <= b.len(),
            forall|k: int|
                0 <= k < aircraft@.len() ==> aircraft@[k]@ == spec_build_aircraft(
                    spec_record(b, k),
                    spec_use_message_rate(b),
                ),
        decreases b.len() - off,
    {
        let ghost count = aircraft@.len() as int;
        proof {
            assert(stride_us * (count + 1) + stride_us == stride_us * (count + 2))
                by (nonlinear_arith);
        }
        let rec = &data[off..off + stride_us];
        let a = build_aircraft(rec, use_message_rate);
        aircraft.push(a);
        proof {
            assert(rec@ == spec_record(b, count));
            assert(forall|k: int|
                0 <= k < aircraft@.len() ==> aircraft@[k]@ == spec_build_aircraft(
                    spec_record(b, k),
                    spec_use_message_rate(b),
                ));
        }
        off = off + stride_us;
    }
    proof {
        let count = aircraft@.len() as int;
        let s = stride_us as int;
        assert(off == s * (count + 1));
        assert(off + s > b.len());
        assert(s * (count + 1) == s * count + s && s * count == count * s) by (nonlinear_arith);
        lemma_fundamental_div_mod_converse(
            b.len() - s,
            s,
            count,
            b.len() - s - s * count,
        );
        assert(count == spec_record_count(b));
    }
    Ok(
        Snapshot {
            time_low_ms: read_u32(data, 0),
            time_high: read_u32(data, 4),
            stride,
            global_ac_count_withpos: read_u32(data, 12),
            globe_index,
            south: read_i16(data, 20),
            west: read_i16(data, 22),
            north: read_i16(data, 24),
            east: read_i16(data, 26),
            messages: read_u32(data, 28),
            receiver_lat: read_i32(data, 64),
            receiver_lon: read_i32(data, 68),
            format_version,
            aircraft,
        },
    )
}

} // verus!
