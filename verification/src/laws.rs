//! The decoder's general guarantees, stated and proved over the
//! specification functions that the decode contracts use: which validity
//! bit owns which field, what the no-GPS sentinel correction forces, and
//! that decoding is a pure function of the buffer.

use vstd::prelude::*;
use crate::aircraft::{
    lane_i16, lane_i32, lane_u16, spec_altitudes, spec_build_aircraft, spec_integrity,
    spec_kinematics, spec_mask73, spec_sentinel, spec_status, Aircraft, MIN_RECORD_BYTES,
    NO_FIX_SENTINEL,
};
use crate::signal::{spec_nav_modes, spec_nav_modes_empty};
use crate::snapshot::{spec_record, spec_snapshot_matches, spec_use_message_rate, Snapshot};

verus! {

/// Each kinematic field is present exactly when the validity bit that
/// owns it is on, whatever the data lanes hold, and when present it is
/// exactly the scaled value of its lane. The position group (latitude,
/// longitude, seconds since position) hangs on one shared bit, wind on
/// another, temperature on a third.
pub proof fn lemma_kinematics_validity(rec: Seq<u8>)
    requires
        rec.len() >= MIN_RECORD_BYTES,
    ensures
        spec_kinematics(rec).lat is Some <==> spec_mask73(rec) & 64 != 0,
        spec_kinematics(rec).lon is Some <==> spec_mask73(rec) & 64 != 0,
        spec_kinematics(rec).seen_pos is Some <==> spec_mask73(rec) & 64 != 0,
        spec_mask73(rec) & 64 != 0 ==> spec_kinematics(rec).lat == Some(lane_i32(rec, 3))
            && spec_kinematics(rec).lon == Some(lane_i32(rec, 2)) && spec_kinematics(rec).seen_pos
            == Some(lane_u16(rec, 2)),
        spec_kinematics(rec).seen == Some(lane_u16(rec, 3)),
        spec_kinematics(rec).gs == (if spec_mask73(rec) & 128 != 0 {
            Some(lane_i16(rec, 17))
        } else {
            None
        }),
        spec_kinematics(rec).ias == (if rec[74] & 1 != 0 {
            Some(lane_u16(rec, 29))
        } else {
            None
        }),
        spec_kinematics(rec).tas == (if rec[74] & 2 != 0 {
            Some(lane_u16(rec, 28))
        } else {
            None
        }),
        spec_kinematics(rec).mach == (if rec[74] & 4 != 0 {
            Some(lane_i16(rec, 18))
        } else {
            None
        }),
        spec_kinematics(rec).track == (if rec[74] & 8 != 0 {
            Some(lane_i16(rec, 20))
        } else {
            None
        }),
        spec_kinematics(rec).track_rate == (if rec[74] & 16 != 0 {
            Some(lane_i16(rec, 21))
        } else {
            None
        }),
        spec_kinematics(rec).roll == (if rec[74] & 32 != 0 {
            Some(lane_i16(rec, 19))
        } else {
            None
        }),
        spec_kinematics(rec).mag_heading == (if rec[74] & 64 != 0 {
            Some(lane_i16(rec, 22))
        } else {
            None
        }),
        spec_kinematics(rec).true_heading == (if rec[74] & 128 != 0 {
            Some(lane_i16(rec, 23))
        } else {
            None
        }),
        spec_kinematics(rec).baro_rate == (if rec[75] & 1 != 0 {
            Some((8 * lane_i16(rec, 8)) as i32)
        } else {
            None
        }),
        spec_kinematics(rec).geom_rate == (if rec[75] & 2 != 0 {
            Some((8 * lane_i16(rec, 9)) as i32)
        } else {
            None
        }),
        spec_kinematics(rec).wd is Some <==> rec[77] & 16 != 0,
        spec_kinematics(rec).ws is Some <==> rec[77] & 16 != 0,
        rec[77] & 16 != 0 ==> spec_kinematics(rec).wd == Some(lane_i16(rec, 24))
            && spec_kinematics(rec).ws == Some(lane_i16(rec, 25)),
        spec_kinematics(rec).oat is Some <==> rec[77] & 32 != 0,
        spec_kinematics(rec).tat is Some <==> rec[77] & 32 != 0,
        rec[77] & 32 != 0 ==> spec_kinematics(rec).oat == Some(lane_i16(rec, 26))
            && spec_kinematics(rec).tat == Some(lane_i16(rec, 27)),
{
}

/// Each altitude and navigation-target field is present exactly when its
/// validity bit is on, and then holds exactly the scaled value of its
/// lane; the navigation-mode set is empty unless its bit is on.
pub proof fn lemma_altitudes_validity(rec: Seq<u8>)
    requires
        rec.len() >= MIN_RECORD_BYTES,
    ensures
        spec_altitudes(rec).alt_baro == (if spec_mask73(rec) & 16 != 0 {
            Some((25 * lane_i16(rec, 10)) as i32)
        } else {
            None
        }),
        spec_altitudes(rec).alt_geom == (if spec_mask73(rec) & 32 != 0 {
            Some((25 * lane_i16(rec, 11)) as i32)
        } else {
            None
        }),
        spec_altitudes(rec).nav_qnh == (if rec[76] & 32 != 0 {
            Some(lane_i16(rec, 14))
        } else {
            None
        }),
        spec_altitudes(rec).nav_altitude_mcp == (if rec[76] & 64 != 0 {
            Some((4 * lane_u16(rec, 12)) as u32)
        } else {
            None
        }),
        spec_altitudes(rec).nav_altitude_fms == (if rec[76] & 128 != 0 {
            Some((4 * lane_u16(rec, 13)) as u32)
        } else {
            None
        }),
        spec_altitudes(rec).nav_altitude_src == (if rec[77] & 1 != 0 {
            Some((rec[68] & 240) >> 4)
        } else {
            None
        }),
        spec_altitudes(rec).nav_heading == (if rec[77] & 2 != 0 {
            Some(lane_i16(rec, 15))
        } else {
            None
        }),
        rec[77] & 4 == 0 ==> spec_altitudes(rec).nav_modes == spec_nav_modes_empty(),
        rec[77] & 4 != 0 ==> spec_altitudes(rec).nav_modes == spec_nav_modes(rec[66]),
{
}

/// Each integrity code and each status flag is present exactly when its
/// validity bit is on, and then holds exactly the bits of its byte; the
/// rate selector decides which of the two message fields carries lane 31.
pub proof fn lemma_codes_validity(rec: Seq<u8>, use_message_rate: bool)
    requires
        rec.len() >= MIN_RECORD_BYTES,
    ensures
        spec_integrity(rec).nic_a == (if rec[75] & 4 != 0 {
            Some((rec[72] & 64) >> 6)
        } else {
            None
        }),
        spec_integrity(rec).nic_c == (if rec[75] & 8 != 0 {
            Some((rec[72] & 128) >> 7)
        } else {
            None
        }),
        spec_integrity(rec).nic_baro == (if rec[75] & 16 != 0 {
            Some(spec_mask73(rec) & 1)
        } else {
            None
        }),
        spec_integrity(rec).nac_p == (if rec[75] & 32 != 0 {
            Some(rec[71] & 15)
        } else {
            None
        }),
        spec_integrity(rec).nac_v == (if rec[75] & 64 != 0 {
            Some((rec[71] & 240) >> 4)
        } else {
            None
        }),
        spec_integrity(rec).sil == (if rec[75] & 128 != 0 {
            Some(rec[72] & 3)
        } else {
            None
        }),
        spec_integrity(rec).gva == (if rec[76] & 1 != 0 {
            Some((rec[72] & 12) >> 2)
        } else {
            None
        }),
        spec_integrity(rec).sda == (if rec[76] & 2 != 0 {
            Some((rec[72] & 48) >> 4)
        } else {
            None
        }),
        spec_status(rec, use_message_rate).emergency == (if rec[76] & 8 != 0 {
            Some(rec[67] & 15)
        } else {
            None
        }),
        spec_status(rec, use_message_rate).spi == (if rec[76] & 16 != 0 {
            Some(spec_mask73(rec) & 4)
        } else {
            None
        }),
        spec_status(rec, use_message_rate).alert1 == (if rec[77] & 8 != 0 {
            Some(spec_mask73(rec) & 2)
        } else {
            None
        }),
        spec_status(rec, use_message_rate).messages == (if use_message_rate {
            0u16
        } else {
            lane_u16(rec, 31)
        }),
        spec_status(rec, use_message_rate).message_rate == (if use_message_rate {
            lane_u16(rec, 31) / 10
        } else {
            0u16
        }),
{
}

/// The string fields hang on their own bits: the squawk on its validity
/// bit, the flight identification on its bit of the corrected first
/// validity byte, the category on its byte being nonzero; and the
/// altitude carries the "ground" label exactly when the airground code
/// is one, whatever else the record holds.
pub proof fn lemma_strings_validity(rec: Seq<u8>, use_message_rate: bool)
    requires
        rec.len() >= MIN_RECORD_BYTES,
    ensures
        spec_build_aircraft(rec, use_message_rate).squawk is Some <==> rec[76] & 4 != 0,
        spec_build_aircraft(rec, use_message_rate).flight is Some <==> spec_mask73(rec) & 8 != 0,
        spec_build_aircraft(rec, use_message_rate).category is Some <==> rec[64] != 0,
        spec_build_aircraft(rec, use_message_rate).alt_baro_label == (if rec[68] & 15 == 1 {
            Some("ground"@)
        } else {
            None
        }),
{
}

/// When the no-GPS flag is on and the raw latitude lane holds the
/// "no fix" sentinel, the position group and the barometric altitude are
/// present even if the producer's own validity bits had them off, and
/// the latitude surfaces the sentinel value itself.
pub proof fn lemma_nogps_sentinel(rec: Seq<u8>)
    requires
        rec.len() >= MIN_RECORD_BYTES,
        rec[106] & 1 != 0,
        lane_i32(rec, 3) == NO_FIX_SENTINEL,
    ensures
        spec_kinematics(rec).lat == Some(NO_FIX_SENTINEL),
        spec_kinematics(rec).lon == Some(lane_i32(rec, 2)),
        spec_kinematics(rec).seen_pos == Some(lane_u16(rec, 2)),
        spec_altitudes(rec).alt_baro == Some((25 * lane_i16(rec, 10)) as i32),
{
    assert(spec_sentinel(rec));
    let b = rec[73];
    assert((b | 0x50) & 64 != 0 && (b | 0x50) & 16 != 0) by (bit_vector);
}

/// Decoding a record is pure: two decodes of the same record bytes with
/// the same rate selector agree field for field.
pub proof fn lemma_record_decode_pure(a1: Aircraft, a2: Aircraft, rec: Seq<u8>, rate: bool)
    requires
        a1@ == spec_build_aircraft(rec, rate),
        a2@ == spec_build_aircraft(rec, rate),
    ensures
        a1@ == a2@,
{
}

/// Decoding a snapshot is pure: two snapshots decoded from the same
/// buffer agree on every header field and field for field on every
/// aircraft.
pub proof fn lemma_snapshot_decode_pure(s1: Snapshot, s2: Snapshot, b: Seq<u8>)
    requires
        spec_snapshot_matches(s1, b),
        spec_snapshot_matches(s2, b),
    ensures
        s1.time_low_ms == s2.time_low_ms,
        s1.time_high == s2.time_high,
        s1.stride == s2.stride,
        s1.global_ac_count_withpos == s2.global_ac_count_withpos,
        s1.globe_index == s2.globe_index,
        s1.south == s2.south,
        s1.west == s2.west,
        s1.north == s2.north,
        s1.east == s2.east,
        s1.messages == s2.messages,
        s1.receiver_lat == s2.receiver_lat,
        s1.receiver_lon == s2.receiver_lon,
        s1.format_version == s2.format_version,
        s1.aircraft@.len() == s2.aircraft@.len(),
        forall|k: int|
            0 <= k < s1.aircraft@.len() ==> s1.aircraft@[k]@ == s2.aircraft@[k]@,
{
    assert forall|k: int| 0 <= k < s1.aircraft@.len() implies s1.aircraft@[k]@
        == s2.aircraft@[k]@ by {
        assert(s1.aircraft@[k]@ == spec_build_aircraft(spec_record(b, k), spec_use_message_rate(b)));
    }
}

} // verus!
