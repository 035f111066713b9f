use bincraft::aircraft::build_aircraft;
use bincraft::decode::{decode_snapshot, DecodeError};
use bincraft::signal::SignalType;
use bincraft::snapshot::{parse_adsb, FormatError};

const STRIDE: usize = 108;

fn put_u16(buf: &mut [u8], off: usize, v: u16) {
    buf[off] = (v & 0xff) as u8;
    buf[off + 1] = (v >> 8) as u8;
}

fn put_i16(buf: &mut [u8], off: usize, v: i16) {
    put_u16(buf, off, v as u16);
}

fn put_u32(buf: &mut [u8], off: usize, v: u32) {
    buf[off] = (v & 0xff) as u8;
    buf[off + 1] = ((v >> 8) & 0xff) as u8;
    buf[off + 2] = ((v >> 16) & 0xff) as u8;
    buf[off + 3] = ((v >> 24) & 0xff) as u8;
}

fn put_i32(buf: &mut [u8], off: usize, v: i32) {
    put_u32(buf, off, v as u32);
}

/// A header region of `STRIDE` bytes with the given time pair and with
/// sensible defaults everywhere else.
fn header(low_ms: u32, high: u32, globe_index: u32, format_version: u32) -> Vec<u8> {
    let mut h = vec![0u8; STRIDE];
    put_u32(&mut h, 0, low_ms);
    put_u32(&mut h, 4, high);
    put_u32(&mut h, 8, STRIDE as u32);
    put_u32(&mut h, 12, 42);
    put_u32(&mut h, 16, globe_index);
    put_i16(&mut h, 20, -900);
    put_i16(&mut h, 22, -1800);
    put_i16(&mut h, 24, 900);
    put_i16(&mut h, 26, 1800);
    put_u32(&mut h, 28, 123456);
    put_i32(&mut h, 64, 48123456);
    put_i32(&mut h, 68, -11234567);
    put_u32(&mut h, 72, format_version);
    h
}

/// A record with every validity bit on and zeros in the data lanes.
fn record_all_valid() -> Vec<u8> {
    let mut r = vec![0u8; STRIDE];
    r[73] = 0xff;
    r[74] = 0xff;
    r[75] = 0xff;
    r[76] = 0xff;
    r[77] = 0xff;
    r
}

fn buffer_with(records: &[Vec<u8>]) -> Vec<u8> {
    let mut b = header(500, 1, 0, 0);
    for r in records {
        b.extend_from_slice(r);
    }
    // The header needs a stride-wide span from offset 32; pad so that a
    // record-free buffer is still long enough. The pad is shorter than a
    // record, so it never adds one.
    b.extend_from_slice(&[0u8; 32]);
    b
}

#[test]
fn now_millis_reconstruction() {
    let b = buffer_with(&[]);
    let s = parse_adsb(&b).unwrap();
    assert_eq!(s.time_low_ms, 500);
    assert_eq!(s.time_high, 1);
    // 500 ms plus one full 32-bit rollover period.
    assert_eq!(s.now_millis(), 4294967796);
    let now_seconds = s.now_millis() as f64 / 1000.0;
    assert!((now_seconds - 4294967.796).abs() < 1e-9);
}

#[test]
fn header_fields() {
    let b = buffer_with(&[]);
    let s = parse_adsb(&b).unwrap();
    assert_eq!(s.stride, STRIDE as u32);
    assert_eq!(s.global_ac_count_withpos, 42);
    assert_eq!(s.globe_index, 0);
    assert_eq!(s.south, -900);
    assert_eq!(s.west, -1800);
    assert_eq!(s.north, 900);
    assert_eq!(s.east, 1800);
    assert_eq!(s.messages, 123456);
    assert_eq!(s.receiver_lat, 48123456);
    assert_eq!(s.receiver_lon, -11234567);
    assert_eq!(s.format_version, 0);
    assert_eq!(s.aircraft.len(), 0);
}

#[test]
fn header_too_short() {
    assert!(matches!(parse_adsb(&[0u8; 43]), Err(FormatError::TooShort)));
    // Long enough for the fixed fields but not for the header region.
    let mut b = header(0, 0, 0, 0);
    b.truncate(100);
    assert!(matches!(parse_adsb(&b), Err(FormatError::TooShort)));
}

#[test]
fn header_bad_stride() {
    let mut b = buffer_with(&[]);
    put_u32(&mut b, 8, 0);
    assert!(matches!(parse_adsb(&b), Err(FormatError::BadStride)));
    put_u32(&mut b, 8, 110); // not a multiple of four
    assert!(matches!(parse_adsb(&b), Err(FormatError::BadStride)));
    put_u32(&mut b, 8, 104); // multiple of four but too small for a record
    assert!(matches!(parse_adsb(&b), Err(FormatError::BadStride)));
}

#[test]
fn identity_plain() {
    let mut r = record_all_valid();
    put_u32(&mut r, 0, 0x00abcdef);
    let a = build_aircraft(&r, false);
    assert_eq!(a.hex, "abcdef");
}

#[test]
fn identity_non_icao_prefix() {
    let mut r = record_all_valid();
    put_u32(&mut r, 0, 0x01abcdef);
    let a = build_aircraft(&r, false);
    assert_eq!(a.hex, "~abcdef");
}

#[test]
fn identity_ignores_bits_above_the_flag() {
    let mut r = record_all_valid();
    // Bits 25-31 are neither address nor flag; only the low 24 bits and
    // bit 24 matter.
    put_u32(&mut r, 0, 0xfeabcdef);
    let a = build_aircraft(&r, false);
    assert_eq!(a.hex, "abcdef");
}

#[test]
fn all_zero_record() {
    let r = vec![0u8; STRIDE];
    let a = build_aircraft(&r, false);
    assert_eq!(a.hex, "000000");
    assert_eq!(a.kinematics.seen, Some(0));
    assert_eq!(a.kinematics.seen_pos, None);
    assert_eq!(a.kinematics.lat, None);
    assert_eq!(a.kinematics.gs, None);
    assert_eq!(a.altitudes.alt_baro, None);
    assert_eq!(a.squawk, None);
    assert_eq!(a.category, None);
    assert_eq!(a.flight, None);
    assert_eq!(a.tail, "");
    assert_eq!(a.registration, "");
    assert_eq!(a.alt_baro_label, None);
    assert!(matches!(a.status.signal_type, SignalType::AdsbIcao));
    assert!(!a.altitudes.nav_modes.autopilot);
    assert_eq!(a.status.messages, 0);
    assert_eq!(a.integrity.nic, 0);
}

#[test]
fn squawk_decimal_first_digit() {
    let mut r = record_all_valid();
    put_u16(&mut r, 32, 0x1032);
    let a = build_aircraft(&r, false);
    assert_eq!(a.squawk, Some("1032".to_string()));
}

#[test]
fn squawk_hex_first_digit() {
    let mut r = record_all_valid();
    put_u16(&mut r, 32, 0xa123);
    let a = build_aircraft(&r, false);
    assert_eq!(a.squawk, Some("a123".to_string()));
}

#[test]
fn squawk_absent_when_bit_off() {
    let mut r = record_all_valid();
    put_u16(&mut r, 32, 0x1032);
    r[76] &= !4;
    let a = build_aircraft(&r, false);
    assert_eq!(a.squawk, None);
}

#[test]
fn validity_bit_toggles_ground_speed() {
    let mut r = record_all_valid();
    put_i16(&mut r, 34, 1234);
    let a = build_aircraft(&r, false);
    assert_eq!(a.kinematics.gs, Some(1234));
    // Same data lanes, owning bit off: the field is absent, not zero.
    r[73] &= !128;
    let a = build_aircraft(&r, false);
    assert_eq!(a.kinematics.gs, None);
}

#[test]
fn validity_bit_toggles_position_group() {
    let mut r = record_all_valid();
    put_i32(&mut r, 8, 11234567);
    put_i32(&mut r, 12, -48123456);
    put_u16(&mut r, 4, 15);
    let a = build_aircraft(&r, false);
    assert_eq!(a.kinematics.lon, Some(11234567));
    assert_eq!(a.kinematics.lat, Some(-48123456));
    assert_eq!(a.kinematics.seen_pos, Some(15));
    r[73] &= !64;
    let a = build_aircraft(&r, false);
    assert_eq!(a.kinematics.lon, None);
    assert_eq!(a.kinematics.lat, None);
    assert_eq!(a.kinematics.seen_pos, None);
}

#[test]
fn scaled_lanes_exact_values() {
    let mut r = record_all_valid();
    put_u16(&mut r, 6, 7); // seen, tenths of a second
    put_i16(&mut r, 16, -100); // baro rate lane, x8
    put_i16(&mut r, 20, 1000); // baro altitude lane, x25
    put_i16(&mut r, 22, -40); // geom altitude lane, x25
    put_u16(&mut r, 24, 2500); // mcp lane, x4
    put_i16(&mut r, 28, 10132); // qnh, tenths
    put_u16(&mut r, 60, 186); // rc
    put_u16(&mut r, 86, 3); // db flags
    let a = build_aircraft(&r, false);
    assert_eq!(a.kinematics.seen, Some(7));
    assert_eq!(a.kinematics.baro_rate, Some(-800));
    assert_eq!(a.altitudes.alt_baro, Some(25000));
    assert_eq!(a.altitudes.alt_geom, Some(-1000));
    assert_eq!(a.altitudes.nav_altitude_mcp, Some(10000));
    assert_eq!(a.altitudes.nav_qnh, Some(10132));
    assert_eq!(a.status.rc, 186);
    assert_eq!(a.status.db_flags, 3);
}

#[test]
fn nogps_sentinel_forces_position_present() {
    let mut r = record_all_valid();
    r[73] = 0; // producer flags: everything in this byte off
    r[106] = 1; // no-GPS flag
    put_i32(&mut r, 12, i32::MAX); // "no fix" sentinel in the latitude lane
    put_i16(&mut r, 20, 80);
    let a = build_aircraft(&r, false);
    assert_eq!(a.kinematics.lat, Some(i32::MAX));
    assert!(a.kinematics.lon.is_some());
    assert!(a.kinematics.seen_pos.is_some());
    // Bit 4 is forced on too: the barometric altitude stays.
    assert_eq!(a.altitudes.alt_baro, Some(2000));
    // Fields of other bits of the byte stay absent.
    assert_eq!(a.flight, None);
    assert_eq!(a.kinematics.gs, None);
}

#[test]
fn no_sentinel_without_nogps_flag() {
    let mut r = record_all_valid();
    r[73] = 0;
    r[106] = 0;
    put_i32(&mut r, 12, i32::MAX);
    let a = build_aircraft(&r, false);
    assert_eq!(a.kinematics.lat, None);
    assert_eq!(a.altitudes.alt_baro, None);
}

#[test]
fn ground_label_from_airground_code() {
    let mut r = record_all_valid();
    r[68] = 1;
    let a = build_aircraft(&r, false);
    assert_eq!(a.status.airground, 1);
    assert_eq!(a.alt_baro_label, Some("ground".to_string()));
    r[68] = 2;
    let a = build_aircraft(&r, false);
    assert_eq!(a.alt_baro_label, None);
}

#[test]
fn signal_type_codes() {
    let mut r = record_all_valid();
    r[67] = 5 << 4;
    let a = build_aircraft(&r, false);
    assert!(matches!(a.status.signal_type, SignalType::Mlat));
    r[67] = 15 << 4;
    let a = build_aircraft(&r, false);
    assert!(matches!(a.status.signal_type, SignalType::Unknown));
}

#[test]
fn signal_type_families() {
    assert!(SignalType::from_code(0).is_adsb());
    assert!(SignalType::from_code(1).is_adsb());
    assert!(SignalType::from_code(8).is_adsb());
    assert!(!SignalType::from_code(2).is_adsb());
    assert!(SignalType::from_code(2).is_adsr());
    assert!(SignalType::from_code(9).is_adsr());
    assert!(!SignalType::from_code(3).is_adsr());
    assert!(SignalType::from_code(3).is_tisb());
    assert!(SignalType::from_code(10).is_tisb());
    assert!(SignalType::from_code(11).is_tisb());
    assert!(!SignalType::from_code(5).is_tisb());
}

#[test]
fn nav_modes_decoded_when_bit_on() {
    let mut r = record_all_valid();
    r[66] = 1 | 2 | 8 | 32;
    let a = build_aircraft(&r, false);
    assert!(a.altitudes.nav_modes.autopilot);
    assert!(a.altitudes.nav_modes.vnav);
    assert!(!a.altitudes.nav_modes.alt_hold);
    assert!(a.altitudes.nav_modes.approach);
    assert!(!a.altitudes.nav_modes.lnav);
    assert!(a.altitudes.nav_modes.tcas);
    // Owning bit off: the whole set is empty whatever the raw byte holds.
    r[77] &= !4;
    let a = build_aircraft(&r, false);
    assert!(!a.altitudes.nav_modes.autopilot);
    assert!(!a.altitudes.nav_modes.vnav);
    assert!(!a.altitudes.nav_modes.approach);
    assert!(!a.altitudes.nav_modes.tcas);
}

#[test]
fn packed_codes() {
    let mut r = record_all_valid();
    r[64] = 0xa3;
    r[65] = 8;
    r[67] = 0x34; // signal code 3, emergency 4
    r[68] = 0x25; // nav altitude source 2, airground 5
    r[69] = 0x21; // adsb version 2, sil type 1
    r[70] = 0x31; // tisb version 3, adsr version 1
    r[71] = 0x9a; // nac_v 9, nac_p 10
    r[72] = 0b1101_1110; // nic_c 1, nic_a 1, sda 1, gva 3, sil 2
    let a = build_aircraft(&r, false);
    assert_eq!(a.category, Some("A3".to_string()));
    assert_eq!(a.integrity.nic, 8);
    assert_eq!(a.status.emergency, Some(4));
    assert!(matches!(a.status.signal_type, SignalType::TisbIcao));
    assert_eq!(a.altitudes.nav_altitude_src, Some(2));
    assert_eq!(a.status.airground, 5);
    assert_eq!(a.integrity.adsb_version, 2);
    assert_eq!(a.integrity.sil_type, 1);
    assert_eq!(a.integrity.tisb_version, 3);
    assert_eq!(a.integrity.adsr_version, 1);
    assert_eq!(a.integrity.nac_p, Some(10));
    assert_eq!(a.integrity.nac_v, Some(9));
    assert_eq!(a.integrity.sil, Some(2));
    assert_eq!(a.integrity.gva, Some(3));
    assert_eq!(a.integrity.sda, Some(1));
    assert_eq!(a.integrity.nic_a, Some(1));
    assert_eq!(a.integrity.nic_c, Some(1));
}

#[test]
fn category_absent_when_zero() {
    let r = record_all_valid();
    let a = build_aircraft(&r, false);
    assert_eq!(a.category, None);
}

#[test]
fn text_fields_trimmed_and_repaired() {
    let mut r = record_all_valid();
    r[78..86].copy_from_slice(b"ABC1234\0");
    r[88..92].copy_from_slice(b"N123");
    r[92..97].copy_from_slice(b"D-\xffAB");
    let a = build_aircraft(&r, false);
    assert_eq!(a.flight, Some("ABC1234".to_string()));
    assert_eq!(a.tail, "N123");
    // The invalid byte is repaired, not rejected; trailing zeros are gone.
    assert_eq!(a.registration, "D-\u{fffd}AB");
}

#[test]
fn flight_absent_when_bit_off() {
    let mut r = record_all_valid();
    r[78..86].copy_from_slice(b"ABC1234\0");
    r[73] &= !8;
    let a = build_aircraft(&r, false);
    assert_eq!(a.flight, None);
}

#[test]
fn message_count_and_rate_modes() {
    let mut r = record_all_valid();
    put_u16(&mut r, 62, 1234);
    let a = build_aircraft(&r, false);
    assert_eq!(a.status.messages, 1234);
    assert_eq!(a.status.message_rate, 0);
    let a = build_aircraft(&r, true);
    assert_eq!(a.status.messages, 0);
    assert_eq!(a.status.message_rate, 123);
}

#[test]
fn rate_mode_selected_by_header() {
    let mut r = record_all_valid();
    put_u16(&mut r, 62, 1234);
    // Nonzero globe index and a recent format version: rate mode.
    let mut b = header(0, 0, 7, 20220916);
    b.extend_from_slice(&r);
    let s = parse_adsb(&b).unwrap();
    assert_eq!(s.aircraft[0].status.message_rate, 123);
    assert_eq!(s.aircraft[0].status.messages, 0);
    // An older version keeps the raw count.
    let mut b = header(0, 0, 7, 20220915);
    b.extend_from_slice(&r);
    let s = parse_adsb(&b).unwrap();
    assert_eq!(s.aircraft[0].status.messages, 1234);
}

#[test]
fn receiver_metadata() {
    let mut r = record_all_valid();
    r[104] = 9;
    r[105] = 200;
    r[106] = 3;
    let a = build_aircraft(&r, false);
    assert_eq!(a.status.receiver_count, 9);
    assert_eq!(a.status.rssi_raw, 200);
    assert_eq!(a.status.extra_flags, 3);
    assert_eq!(a.status.nogps, 1);
}

#[test]
fn partial_trailing_record_dropped() {
    let mut r = record_all_valid();
    put_u32(&mut r, 0, 0x00abcdef);
    let mut b = buffer_with(&[r]);
    b.extend_from_slice(&[0u8; 10]);
    let s = parse_adsb(&b).unwrap();
    assert_eq!(s.aircraft.len(), 1);
    assert_eq!(s.aircraft[0].hex, "abcdef");
}

#[test]
fn records_keep_input_order() {
    let mut r1 = record_all_valid();
    put_u32(&mut r1, 0, 0x000001);
    let mut r2 = record_all_valid();
    put_u32(&mut r2, 0, 0x000002);
    let b = buffer_with(&[r1, r2]);
    let s = parse_adsb(&b).unwrap();
    assert_eq!(s.aircraft.len(), 2);
    assert_eq!(s.aircraft[0].hex, "000001");
    assert_eq!(s.aircraft[1].hex, "000002");
}

#[test]
fn decode_is_pure() {
    let mut r = record_all_valid();
    put_u32(&mut r, 0, 0x01abcdef);
    put_i16(&mut r, 34, -77);
    put_u16(&mut r, 32, 0x7700);
    r[78..82].copy_from_slice(b"XYZ9");
    let b = buffer_with(&[r]);
    let s1 = parse_adsb(&b).unwrap();
    let s2 = parse_adsb(&b).unwrap();
    assert_eq!(s1.now_millis(), s2.now_millis());
    assert_eq!(s1.stride, s2.stride);
    assert_eq!(s1.aircraft.len(), s2.aircraft.len());
    let a1 = &s1.aircraft[0];
    let a2 = &s2.aircraft[0];
    assert_eq!(a1.hex, a2.hex);
    assert_eq!(a1.squawk, a2.squawk);
    assert_eq!(a1.flight, a2.flight);
    assert_eq!(a1.tail, a2.tail);
    assert_eq!(a1.registration, a2.registration);
    assert_eq!(a1.category, a2.category);
    assert_eq!(a1.alt_baro_label, a2.alt_baro_label);
    assert_eq!(a1.kinematics, a2.kinematics);
    assert_eq!(a1.altitudes, a2.altitudes);
    assert_eq!(a1.integrity, a2.integrity);
    assert_eq!(a1.status, a2.status);
}

#[test]
fn compressed_roundtrip() {
    let mut r = record_all_valid();
    put_u32(&mut r, 0, 0x00c0ffee);
    let b = buffer_with(&[r]);
    let compressed = zstd::encode_all(b.as_slice(), 0).unwrap();
    // The compressed frame differs from the raw buffer, so a decoder
    // that handed its input through unchanged would fail here.
    assert_ne!(compressed, b);
    let s = decode_snapshot(&compressed).unwrap();
    assert_eq!(s.aircraft.len(), 1);
    assert_eq!(s.aircraft[0].hex, "c0ffee");
    let direct = parse_adsb(&b).unwrap();
    assert_eq!(s.now_millis(), direct.now_millis());
    assert_eq!(s.aircraft[0].kinematics, direct.aircraft[0].kinematics);
}

#[test]
fn corrupt_stream_rejected() {
    let garbage = [0x13u8, 0x37, 0x00, 0x01, 0x02];
    assert!(matches!(
        decode_snapshot(&garbage),
        Err(DecodeError::Decompress)
    ));
}

#[test]
fn compressed_bad_header_reported() {
    let mut b = buffer_with(&[]);
    put_u32(&mut b, 8, 110);
    let compressed = zstd::encode_all(b.as_slice(), 0).unwrap();
    assert!(matches!(
        decode_snapshot(&compressed),
        Err(DecodeError::Format(FormatError::BadStride))
    ));
}
