//! The per-record decoder: one fixed-stride record in, one `Aircraft`
//! value out.
//!
//! A record is read through two parallel little-endian lane views (32-bit
//! and 16-bit, signed and unsigned) plus raw bytes. Each optional field is
//! decoded from its fixed lane, then nulled out when the validity bit the
//! producer owns is off. The order is load-bearing: raw values are decoded
//! first, the no-GPS sentinel correction then rewrites two validity bits,
//! and only afterwards does the mask decide which fields stay.

use vstd::prelude::*;
use crate::bytes::{
    read_i16, read_i32, read_u16, read_u32, spec_le_i16, spec_le_i32, spec_le_u16, spec_le_u32,
    spec_trim_zeros, trimmed_range,
};
use crate::signal::{spec_nav_modes, spec_nav_modes_empty, spec_signal_type, NavModes, SignalType};
use crate::text::{
    hex2_upper_string, ident_string, spec_hex2_upper, spec_hex4, spec_ident, squawk_string,
    utf8_lossy, utf8_lossy_of,
};

verus! {

/// A record must cover every referenced lane and byte offset; the highest
/// is the extra-flags byte at offset 106.
pub const MIN_RECORD_BYTES: u32 = 107;

/// The unsigned 16-bit lane `i` of a record.
pub open spec fn lane_u16(rec: Seq<u8>, i: int) -> u16
    recommends
        0 <= i,
        2 * i + 2 <= rec.len(),
{
    spec_le_u16(rec, 2 * i)
}

/// The signed 16-bit lane `i` of a record.
pub open spec fn lane_i16(rec: Seq<u8>, i: int) -> i16
    recommends
        0 <= i,
        2 * i + 2 <= rec.len(),
{
    spec_le_i16(rec, 2 * i)
}

/// The unsigned 32-bit lane `i` of a record.
pub open spec fn lane_u32(rec: Seq<u8>, i: int) -> u32
    recommends
        0 <= i,
        4 * i + 4 <= rec.len(),
{
    spec_le_u32(rec, 4 * i)
}

/// The signed 32-bit lane `i` of a record.
pub open spec fn lane_i32(rec: Seq<u8>, i: int) -> i32
    recommends
        0 <= i,
        4 * i + 4 <= rec.len(),
{
    spec_le_i32(rec, 4 * i)
}

/// The raw latitude lane value that the producer writes when a receiver
/// has no position fix.
pub const NO_FIX_SENTINEL: i32 = 2147483647;

/// Whether the no-GPS sentinel correction applies: the no-GPS flag is on
/// and the raw latitude lane holds the "no fix" sentinel.
pub open spec fn spec_sentinel(rec: Seq<u8>) -> bool
    recommends
        rec.len() >= MIN_RECORD_BYTES,
{
    rec[106] & 1 != 0 && lane_i32(rec, 3) == NO_FIX_SENTINEL
}

/// The first validity byte after the sentinel correction: when the
/// correction applies, bits 4 and 6 (barometric altitude and position)
/// are forced on so the sentinel is not reported as "field absent".
pub open spec fn spec_mask73(rec: Seq<u8>) -> u8
    recommends
        rec.len() >= MIN_RECORD_BYTES,
{
    if spec_sentinel(rec) {
        rec[73] | 0x50
    } else {
        rec[73]
    }
}

/// Computes the first validity byte after the sentinel correction.
pub fn mask73(rec: &[u8]) -> (r: u8)
    requires
        rec@.len() >= MIN_RECORD_BYTES,
    ensures
        r == spec_mask73(rec@),
{
    let lat_raw: i32 = read_i32(rec, 12);
    if rec[106] & 1 != 0 && lat_raw == NO_FIX_SENTINEL {
        rec[73] | 0x50
    } else {
        rec[73]
    }
}

/// Position, velocity, attitude, wind and temperature fields. Scaled
/// fields keep the raw integer of their lane; the divisor each one
/// carries is noted on the field.
#[derive(Debug, Clone, Copy, PartialEq, Eq, Structural)]
pub struct Kinematics {
    /// Seconds since the last position, in tenths.
    pub seen_pos: Option<u16>,
    /// Seconds since the last message, in tenths.
    pub seen: Option<u16>,
    /// Longitude in millionths of a degree.
    pub lon: Option<i32>,
    /// Latitude in millionths of a degree.
    pub lat: Option<i32>,
    /// Ground speed in tenths of a knot.
    pub gs: Option<i16>,
    /// Mach number in thousandths.
    pub mach: Option<i16>,
    /// Roll angle in hundredths of a degree.
    pub roll: Option<i16>,
    /// Track in 1/90 degree units.
    pub track: Option<i16>,
    /// Track rate in hundredths of a degree per second.
    pub track_rate: Option<i16>,
    /// Magnetic heading in 1/90 degree units.
    pub mag_heading: Option<i16>,
    /// True heading in 1/90 degree units.
    pub true_heading: Option<i16>,
    /// Barometric rate in feet per minute.
    pub baro_rate: Option<i32>,
    /// Geometric rate in feet per minute.
    pub geom_rate: Option<i32>,
    /// Wind direction in degrees.
    pub wd: Option<i16>,
    /// Wind speed in knots.
    pub ws: Option<i16>,
    /// Outside air temperature in degrees Celsius.
    pub oat: Option<i16>,
    /// Total air temperature in degrees Celsius.
    pub tat: Option<i16>,
    /// True airspeed in knots.
    pub tas: Option<u16>,
    /// Indicated airspeed in knots.
    pub ias: Option<u16>,
}

/// The kinematic fields a record decodes to.
pub open spec fn spec_kinematics(rec: Seq<u8>) -> Kinematics
    recommends
        rec.len() >= MIN_RECORD_BYTES,
{
    let m73 = spec_mask73(rec);
    Kinematics {
        seen_pos: if m73 & 64 != 0 {
            Some(lane_u16(rec, 2))
        } else {
            None
        },
        seen: Some(lane_u16(rec, 3)),
        lon: if m73 & 64 != 0 {
            Some(lane_i32(rec, 2))
        } else {
            None
        },
        lat: if m73 & 64 != 0 {
            Some(lane_i32(rec, 3))
        } else {
            None
        },
        gs: if m73 & 128 != 0 {
            Some(lane_i16(rec, 17))
        } else {
            None
        },
        mach: if rec[74] & 4 != 0 {
            Some(lane_i16(rec, 18))
        } else {
            None
        },
        roll: if rec[74] & 32 != 0 {
            Some(lane_i16(rec, 19))
        } else {
            None
        },
        track: if rec[74] & 8 != 0 {
            Some(lane_i16(rec, 20))
        } else {
            None
        },
        track_rate: if rec[74] & 16 != 0 {
            Some(lane_i16(rec, 21))
        } else {
            None
        },
        mag_heading: if rec[74] & 64 != 0 {
            Some(lane_i16(rec, 22))
        } else {
            None
        },
        true_heading: if rec[74] & 128 != 0 {
            Some(lane_i16(rec, 23))
        } else {
            None
        },
        baro_rate: if rec[75] & 1 != 0 {
            Some((8 * lane_i16(rec, 8)) as i32)
        } else {
            None
        },
        geom_rate: if rec[75] & 2 != 0 {
            Some((8 * lane_i16(rec, 9)) as i32)
        } else {
            None
        },
        wd: if rec[77] & 16 != 0 {
            Some(lane_i16(rec, 24))
        } else {
            None
        },
        ws: if rec[77] & 16 != 0 {
            Some(lane_i16(rec, 25))
        } else {
            None
        },
        oat: if rec[77] & 32 != 0 {
            Some(lane_i16(rec, 26))
        } else {
            None
        },
        tat: if rec[77] & 32 != 0 {
            Some(lane_i16(rec, 27))
        } else {
            None
        },
        tas: if rec[74] & 2 != 0 {
            Some(lane_u16(rec, 28))
        } else {
            None
        },
        ias: if rec[74] & 1 != 0 {
            Some(lane_u16(rec, 29))
        } else {
            None
        },
    }
}

/// Decodes the kinematic fields of one record.
pub fn decode_kinematics(rec: &[u8], m73: u8) -> (r: Kinematics)
    requires
        rec@.len() >= MIN_RECORD_BYTES,
        m73 == spec_mask73(rec@),
    ensures
        r == spec_kinematics(rec@),
{
    Kinematics {
        seen_pos: if m73 & 64 != 0 {
            Some(read_u16(rec, 4))
        } else {
            None
        },
        seen: Some(read_u16(rec, 6)),
        lon: if m73 & 64 != 0 {
            Some(read_i32(rec, 8))
        } else {
            None
        },
        lat: if m73 & 64 != 0 {
            Some(read_i32(rec, 12))
        } else {
            None
        },
        gs: if m73 & 128 != 0 {
            Some(read_i16(rec, 34))
        } else {
            None
        },
        mach: if rec[74] & 4 != 0 {
            Some(read_i16(rec, 36))
        } else {
            None
        },
        roll: if rec[74] & 32 != 0 {
            Some(read_i16(rec, 38))
        } else {
            None
        },
        track: if rec[74] & 8 != 0 {
            Some(read_i16(rec, 40))
        } else {
            None
        },
        track_rate: if rec[74] & 16 != 0 {
            Some(read_i16(rec, 42))
        } else {
            None
        },
        mag_heading: if rec[74] & 64 != 0 {
            Some(read_i16(rec, 44))
        } else {
            None
        },
        true_heading: if rec[74] & 128 != 0 {
            Some(read_i16(rec, 46))
        } else {
            None
        },
        baro_rate: if rec[75] & 1 != 0 {
            Some(8 * (read_i16(rec, 16) as i32))
        } else {
            None
        },
        geom_rate: if rec[75] & 2 != 0 {
            Some(8 * (read_i16(rec, 18) as i32))
        } else {
            None
        },
        wd: if rec[77] & 16 != 0 {
            Some(read_i16(rec, 48))
        } else {
            None
        },
        ws: if rec[77] & 16 != 0 {
            Some(read_i16(rec, 50))
        } else {
            None
        },
        oat: if rec[77] & 32 != 0 {
            Some(read_i16(rec, 52))
        } else {
            None
        },
        tat: if rec[77] & 32 != 0 {
            Some(read_i16(rec, 54))
        } else {
            None
        },
        tas: if rec[74] & 2 != 0 {
            Some(read_u16(rec, 56))
        } else {
            None
        },
        ias: if rec[74] & 1 != 0 {
            Some(read_u16(rec, 58))
        } else {
            None
        },
    }
}

/// Altitude fields and navigation targets.
#[derive(Debug, Clone, Copy, PartialEq, Eq, Structural)]
pub struct Altitudes {
    /// Barometric altitude in feet.
    pub alt_baro: Option<i32>,
    /// Geometric altitude in feet.
    pub alt_geom: Option<i32>,
    /// Selected altitude (MCP) in feet.
    pub nav_altitude_mcp: Option<u32>,
    /// Selected altitude (FMS) in feet.
    pub nav_altitude_fms: Option<u32>,
    /// Altimeter setting in tenths of a hectopascal.
    pub nav_qnh: Option<i16>,
    /// Selected heading in 1/90 degree units.
    pub nav_heading: Option<i16>,
    /// Source of the selected altitude.
    pub nav_altitude_src: Option<u8>,
    /// Announced navigation modes; empty unless its validity bit is on.
    pub nav_modes: NavModes,
}

/// The altitude and navigation-target fields a record decodes to.
pub open spec fn spec_altitudes(rec: Seq<u8>) -> Altitudes
    recommends
        rec.len() >= MIN_RECORD_BYTES,
{
    let m73 = spec_mask73(rec);
    Altitudes {
        alt_baro: if m73 & 16 != 0 {
            Some((25 * lane_i16(rec, 10)) as i32)
        } else {
            None
        },
        alt_geom: if m73 & 32 != 0 {
            Some((25 * lane_i16(rec, 11)) as i32)
        } else {
            None
        },
        nav_altitude_mcp: if rec[76] & 64 != 0 {
            Some((4 * lane_u16(rec, 12)) as u32)
        } else {
            None
        },
        nav_altitude_fms: if rec[76] & 128 != 0 {
            Some((4 * lane_u16(rec, 13)) as u32)
        } else {
            None
        },
        nav_qnh: if rec[76] & 32 != 0 {
            Some(lane_i16(rec, 14))
        } else {
            None
        },
        nav_heading: if rec[77] & 2 != 0 {
            Some(lane_i16(rec, 15))
        } else {
            None
        },
        nav_altitude_src: if rec[77] & 1 != 0 {
            Some((rec[68] & 240) >> 4)
        } else {
            None
        },
        nav_modes: if rec[77] & 4 != 0 {
            spec_nav_modes(rec[66])
        } else {
            spec_nav_modes_empty()
        },
    }
}

/// Decodes the altitude and navigation-target fields of one record.
pub fn decode_altitudes(rec: &[u8], m73: u8) -> (r: Altitudes)
    requires
        rec@.len() >= MIN_RECORD_BYTES,
        m73 == spec_mask73(rec@),
    ensures
        r == spec_altitudes(rec@),
{
    Altitudes {
        alt_baro: if m73 & 16 != 0 {
            Some(25 * (read_i16(rec, 20) as i32))
        } else {
            None
        },
        alt_geom: if m73 & 32 != 0 {
            Some(25 * (read_i16(rec, 22) as i32))
        } else {
            None
        },
        nav_altitude_mcp: if rec[76] & 64 != 0 {
            Some(4 * (read_u16(rec, 24) as u32))
        } else {
            None
        },
        nav_altitude_fms: if rec[76] & 128 != 0 {
            Some(4 * (read_u16(rec, 26) as u32))
        } else {
            None
        },
        nav_qnh: if rec[76] & 32 != 0 {
            Some(read_i16(rec, 28))
        } else {
            None
        },
        nav_heading: if rec[77] & 2 != 0 {
            Some(read_i16(rec, 30))
        } else {
            None
        },
        nav_altitude_src: if rec[77] & 1 != 0 {
            Some((rec[68] & 240) >> 4)
        } else {
            None
        },
        nav_modes: if rec[77] & 4 != 0 {
            NavModes::from_raw(rec[66])
        } else {
            NavModes::empty()
        },
    }
}

/// Integrity and accuracy classification codes.
#[derive(Debug, Clone, Copy, PartialEq, Eq, Structural)]
pub struct Integrity {
    /// Navigation integrity category.
    pub nic: u8,
    /// NIC supplement A.
    pub nic_a: Option<u8>,
    /// NIC supplement C.
    pub nic_c: Option<u8>,
    /// Barometric-altitude cross-check flag (bit 0 of the first validity
    /// byte, after the sentinel correction).
    pub nic_baro: Option<u8>,
    /// Navigation accuracy category, position.
    pub nac_p: Option<u8>,
    /// Navigation accuracy category, velocity.
    pub nac_v: Option<u8>,
    /// Source integrity level.
    pub sil: Option<u8>,
    /// Source integrity level type.
    pub sil_type: u8,
    /// Geometric vertical accuracy.
    pub gva: Option<u8>,
    /// System design assurance.
    pub sda: Option<u8>,
    /// ADS-B protocol version.
    pub adsb_version: u8,
    /// ADS-R protocol version.
    pub adsr_version: u8,
    /// TIS-B protocol version.
    pub tisb_version: u8,
}

/// The integrity and accuracy codes a record decodes to.
pub open spec fn spec_integrity(rec: Seq<u8>) -> Integrity
    recommends
        rec.len() >= MIN_RECORD_BYTES,
{
    let m73 = spec_mask73(rec);
    Integrity {
        nic: rec[65],
        nic_a: if rec[75] & 4 != 0 {
            Some((rec[72] & 64) >> 6)
        } else {
            None
        },
        nic_c: if rec[75] & 8 != 0 {
            Some((rec[72] & 128) >> 7)
        } else {
            None
        },
        nic_baro: if rec[75] & 16 != 0 {
            Some(m73 & 1)
        } else {
            None
        },
        nac_p: if rec[75] & 32 != 0 {
            Some(rec[71] & 15)
        } else {
            None
        },
        nac_v: if rec[75] & 64 != 0 {
            Some((rec[71] & 240) >> 4)
        } else {
            None
        },
        sil: if rec[75] & 128 != 0 {
            Some(rec[72] & 3)
        } else {
            None
        },
        sil_type: rec[69] & 15,
        gva: if rec[76] & 1 != 0 {
            Some((rec[72] & 12) >> 2)
        } else {
            None
        },
        sda: if rec[76] & 2 != 0 {
            Some((rec[72] & 48) >> 4)
        } else {
            None
        },
        adsb_version: (rec[69] & 240) >> 4,
        adsr_version: rec[70] & 15,
        tisb_version: (rec[70] & 240) >> 4,
    }
}

/// Decodes the integrity and accuracy codes of one record.
pub fn decode_integrity(rec: &[u8], m73: u8) -> (r: Integrity)
    requires
        rec@.len() >= MIN_RECORD_BYTES,
        m73 == spec_mask73(rec@),
    ensures
        r == spec_integrity(rec@),
{
    Integrity {
        nic: rec[65],
        nic_a: if rec[75] & 4 != 0 {
            Some((rec[72] & 64) >> 6)
        } else {
            None
        },
        nic_c: if rec[75] & 8 != 0 {
            Some((rec[72] & 128) >> 7)
        } else {
            None
        },
        nic_baro: if rec[75] & 16 != 0 {
            Some(m73 & 1)
        } else {
            None
        },
        nac_p: if rec[75] & 32 != 0 {
            Some(rec[71] & 15)
        } else {
            None
        },
        nac_v: if rec[75] & 64 != 0 {
            Some((rec[71] & 240) >> 4)
        } else {
            None
        },
        sil: if rec[75] & 128 != 0 {
            Some(rec[72] & 3)
        } else {
            None
        },
        sil_type: rec[69] & 15,
        gva: if rec[76] & 1 != 0 {
            Some((rec[72] & 12) >> 2)
        } else {
            None
        },
        sda: if rec[76] & 2 != 0 {
            Some((rec[72] & 48) >> 4)
        } else {
            None
        },
        adsb_version: (rec[69] & 240) >> 4,
        adsr_version: rec[70] & 15,
        tisb_version: (rec[70] & 240) >> 4,
    }
}

/// Status codes and receiver-side metadata.
#[derive(Debug, Clone, Copy, PartialEq, Eq, Structural)]
pub struct Status {
    /// Emergency code.
    pub emergency: Option<u8>,
    /// Special position identification flag (bit 2 of the first validity
    /// byte, kept in place).
    pub spi: Option<u8>,
    /// Alert flag (bit 1 of the first validity byte, kept in place).
    pub alert1: Option<u8>,
    /// Air/ground state code.
    pub airground: u8,
    /// How the producer derived this record.
    pub signal_type: SignalType,
    /// No-GPS flag (bit 0 of the extra flags).
    pub nogps: u8,
    /// Extra flag bits.
    pub extra_flags: u8,
    /// Receivers that saw this aircraft.
    pub receiver_count: u8,
    /// Raw signal-strength byte; the decibel value is a logarithmic
    /// function of it that the caller derives.
    pub rssi_raw: u8,
    /// Radius of containment in meters.
    pub rc: u16,
    /// Message count, when the snapshot carries counts.
    pub messages: u16,
    /// Message rate, when the snapshot carries rates (lane in tenths).
    pub message_rate: u16,
    /// Database flags.
    pub db_flags: u16,
}

/// The status and receiver-metadata fields a record decodes to.
/// `use_message_rate` selects whether 16-bit lane 31 carries a message
/// rate in tenths or a raw message count.
pub open spec fn spec_status(rec: Seq<u8>, use_message_rate: bool) -> Status
    recommends
        rec.len() >= MIN_RECORD_BYTES,
{
    let m73 = spec_mask73(rec);
    Status {
        emergency: if rec[76] & 8 != 0 {
            Some(rec[67] & 15)
        } else {
            None
        },
        spi: if rec[76] & 16 != 0 {
            Some(m73 & 4)
        } else {
            None
        },
        alert1: if rec[77] & 8 != 0 {
            Some(m73 & 2)
        } else {
            None
        },
        airground: rec[68] & 15,
        signal_type: spec_signal_type((rec[67] & 240) >> 4),
        nogps: rec[106] & 1,
        extra_flags: rec[106],
        receiver_count: rec[104],
        rssi_raw: rec[105],
        rc: lane_u16(rec, 30),
        messages: if use_message_rate {
            0
        } else {
            lane_u16(rec, 31)
        },
        message_rate: if use_message_rate {
            lane_u16(rec, 31) / 10
        } else {
            0
        },
        db_flags: lane_u16(rec, 43),
    }
}

/// Decodes the status and receiver-metadata fields of one record.
pub fn decode_status(rec: &[u8], m73: u8, use_message_rate: bool) -> (r: Status)
    requires
        rec@.len() >= MIN_RECORD_BYTES,
        m73 == spec_mask73(rec@),
    ensures
        r == spec_status(rec@, use_message_rate),
{
    Status {
        emergency: if rec[76] & 8 != 0 {
            Some(rec[67] & 15)
        } else {
            None
        },
        spi: if rec[76] & 16 != 0 {
            Some(m73 & 4)
        } else {
            None
        },
        alert1: if rec[77] & 8 != 0 {
            Some(m73 & 2)
        } else {
            None
        },
        airground: rec[68] & 15,
        signal_type: SignalType::from_code((rec[67] & 240) >> 4),
        nogps: rec[106] & 1,
        extra_flags: rec[106],
        receiver_count: rec[104],
        rssi_raw: rec[105],
        rc: read_u16(rec, 60),
        messages: if use_message_rate {
            0
        } else {
            read_u16(rec, 62)
        },
        message_rate: if use_message_rate {
            read_u16(rec, 62) / 10
        } else {
            0
        },
        db_flags: read_u16(rec, 86),
    }
}

/// The decoded form of one record: every string as its character
/// sequence, the grouped fields as the values their decoders yield.
#[verifier::ext_equal]
pub ghost struct AircraftView {
    pub hex: Seq<char>,
    pub squawk: Option<Seq<char>>,
    pub category: Option<Seq<char>>,
    pub flight: Option<Seq<char>>,
    pub tail: Seq<char>,
    pub registration: Seq<char>,
    pub alt_baro_label: Option<Seq<char>>,
    pub kinematics: Kinematics,
    pub altitudes: Altitudes,
    pub integrity: Integrity,
    pub status: Status,
}

/// What decoding one record yields.
pub open spec fn spec_build_aircraft(rec: Seq<u8>, use_message_rate: bool) -> AircraftView
    recommends
        rec.len() >= MIN_RECORD_BYTES,
{
    let m73 = spec_mask73(rec);
    AircraftView {
        hex: spec_ident(lane_u32(rec, 0)),
        squawk: if rec[76] & 4 != 0 {
            Some(spec_hex4(lane_u16(rec, 16)))
        } else {
            None
        },
        category: if rec[64] != 0 {
            Some(spec_hex2_upper(rec[64]))
        } else {
            None
        },
        flight: if m73 & 8 != 0 {
            Some(utf8_lossy_of(spec_trim_zeros(rec.subrange(78, 86))))
        } else {
            None
        },
        tail: utf8_lossy_of(spec_trim_zeros(rec.subrange(88, 92))),
        registration: utf8_lossy_of(spec_trim_zeros(rec.subrange(92, 104))),
        alt_baro_label: if rec[68] & 15 == 1 {
            Some("ground"@)
        } else {
            None
        },
        kinematics: spec_kinematics(rec),
        altitudes: spec_altitudes(rec),
        integrity: spec_integrity(rec),
        status: spec_status(rec, use_message_rate),
    }
}

/// One decoded aircraft record.
pub struct Aircraft {
    /// Identity: six lowercase hex digits of the 24-bit address, with a
    /// `~` prefix when the address is not transponder-derived.
    pub hex: String,
    /// Four-digit transponder code.
    pub squawk: Option<String>,
    /// Emitter category as two uppercase hex digits, absent when zero.
    pub category: Option<String>,
    /// Flight identification.
    pub flight: Option<String>,
    /// Tail number.
    pub tail: String,
    /// Registration.
    pub registration: String,
    /// Display label attached to the altitude when the airground code
    /// says the aircraft is on the ground.
    pub alt_baro_label: Option<String>,
    /// Position, velocity, attitude, wind and temperature fields.
    pub kinematics: Kinematics,
    /// Altitude fields and navigation targets.
    pub altitudes: Altitudes,
    /// Integrity and accuracy classification codes.
    pub integrity: Integrity,
    /// Status codes and receiver-side metadata.
    pub status: Status,
}

impl View for Aircraft {
    type V = AircraftView;

    open spec fn view(&self) -> AircraftView {
        AircraftView {
            hex: self.hex@,
            squawk: match self.squawk {
                Some(s) => Some(s@),
                None => None,
            },
            category: match self.category {
                Some(s) => Some(s@),
                None => None,
            },
            flight: match self.flight {
                Some(s) => Some(s@),
                None => None,
            },
            tail: self.tail@,
            registration: self.registration@,
            alt_baro_label: match self.alt_baro_label {
                Some(s) => Some(s@),
                None => None,
            },
            kinematics: self.kinematics,
            altitudes: self.altitudes,
            integrity: self.integrity,
            status: self.status,
        }
    }
}

/// Decodes one fixed-stride record. The record must cover every
/// referenced offset; the splitter guarantees that.
pub fn build_aircraft(rec: &[u8], use_message_rate: bool) -> (r: Aircraft)
    requires
        rec@.len() >= MIN_RECORD_BYTES,
    ensures
        r@ == spec_build_aircraft(rec@, use_message_rate),
{
    let m73: u8 = mask73(rec);
    let flight_bytes = trimmed_range(rec, 78, 86);
    let tail_bytes = trimmed_range(rec, 88, 92);
    let reg_bytes = trimmed_range(rec, 92, 104);
    let r = Aircraft {
        hex: ident_string(read_u32(rec, 0)),
        squawk: if rec[76] & 4 != 0 {
            Some(squawk_string(read_u16(rec, 32)))
        } else {
            None
        },
        category: if rec[64] != 0 {
            Some(hex2_upper_string(rec[64]))
        } else {
            None
        },
        flight: if m73 & 8 != 0 {
            Some(utf8_lossy(flight_bytes.as_slice()))
        } else {
            None
        },
        tail: utf8_lossy(tail_bytes.as_slice()),
        registration: utf8_lossy(reg_bytes.as_slice()),
        alt_baro_label: if rec[68] & 15 == 1 {
            Some("ground".to_owned())
        } else {
            None
        },
        kinematics: decode_kinematics(rec, m73),
        altitudes: decode_altitudes(rec, m73),
        integrity: decode_integrity(rec, m73),
        status: decode_status(rec, m73, use_message_rate),
    };
    proof {
        assert(r@ =~= spec_build_aircraft(rec@, use_message_rate));
    }
    r
}

} // verus!
