//! Text pieces of a record: lowercase/uppercase hex rendering for the
//! identity, squawk and category fields, and lossy text decoding for the
//! fixed-width string fields.

use vstd::prelude::*;
use vstd::string::StringExecFns;

verus! {

/// The lowercase hex digit for a nibble value.
pub open spec fn spec_hex_digit(n: int) -> char {
    if n == 0 {
        '0'
    } else if n == 1 {
        '1'
    } else if n == 2 {
        '2'
    } else if n == 3 {
        '3'
    } else if n == 4 {
        '4'
    } else if n == 5 {
        '5'
    } else if n == 6 {
        '6'
    } else if n == 7 {
        '7'
    } else if n == 8 {
        '8'
    } else if n == 9 {
        '9'
    } else if n == 10 {
        'a'
    } else if n == 11 {
        'b'
    } else if n == 12 {
        'c'
    } else if n == 13 {
        'd'
    } else if n == 14 {
        'e'
    } else {
        'f'
    }
}

/// The uppercase hex digit for a nibble value.
pub open spec fn spec_hex_digit_upper(n: int) -> char {
    if n == 10 {
        'A'
    } else if n == 11 {
        'B'
    } else if n == 12 {
        'C'
    } else if n == 13 {
        'D'
    } else if n == 14 {
        'E'
    } else if n == 15 {
        'F'
    } else {
        spec_hex_digit(n)
    }
}

/// The nibble of `v` at bit offset `sh`.
pub open spec fn spec_nibble(v: u32, sh: u32) -> u32 {
    (v >> sh) & 0xf
}

/// Extracts the nibble of `v` at bit offset `sh`.
fn nibble(v: u32, sh: u32) -> (r: u8)
    requires
        sh < 32,
    ensures
        r == spec_nibble(v, sh),
        r < 16,
{
    proof {
        assert((v >> sh) & 0xf < 16) by (bit_vector);
    }
    ((v >> sh) & 0xf) as u8
}

/// The six lowercase hex digits of the low 24 bits of `v`.
pub open spec fn spec_hex6(v: u32) -> Seq<char> {
    seq![
        spec_hex_digit(spec_nibble(v, 20) as int),
        spec_hex_digit(spec_nibble(v, 16) as int),
        spec_hex_digit(spec_nibble(v, 12) as int),
        spec_hex_digit(spec_nibble(v, 8) as int),
        spec_hex_digit(spec_nibble(v, 4) as int),
        spec_hex_digit(spec_nibble(v, 0) as int),
    ]
}

/// The four lowercase hex digits of `v`.
pub open spec fn spec_hex4(v: u16) -> Seq<char> {
    seq![
        spec_hex_digit(spec_nibble(v as u32, 12) as int),
        spec_hex_digit(spec_nibble(v as u32, 8) as int),
        spec_hex_digit(spec_nibble(v as u32, 4) as int),
        spec_hex_digit(spec_nibble(v as u32, 0) as int),
    ]
}

/// The two uppercase hex digits of `v`.
pub open spec fn spec_hex2_upper(v: u8) -> Seq<char> {
    seq![
        spec_hex_digit_upper(spec_nibble(v as u32, 4) as int),
        spec_hex_digit_upper(spec_nibble(v as u32, 0) as int),
    ]
}

/// A one-character string holding the lowercase hex digit for `n`.
fn hex_digit_str(n: u8) -> (r: &'static str)
    requires
        n < 16,
    ensures
        r@ == seq![spec_hex_digit(n as int)],
{
    proof {
        reveal_strlit("0");
        reveal_strlit("1");
        reveal_strlit("2");
        reveal_strlit("3");
        reveal_strlit("4");
        reveal_strlit("5");
        reveal_strlit("6");
        reveal_strlit("7");
        reveal_strlit("8");
        reveal_strlit("9");
        reveal_strlit("a");
        reveal_strlit("b");
        reveal_strlit("c");
        reveal_strlit("d");
        reveal_strlit("e");
        reveal_strlit("f");
    }
    let r: &'static str = match n {
        0 => "0",
        1 => "1",
        2 => "2",
        3 => "3",
        4 => "4",
        5 => "5",
        6 => "6",
        7 => "7",
        8 => "8",
        9 => "9",
        10 => "a",
        11 => "b",
        12 => "c",
        13 => "d",
        14 => "e",
        _ => "f",
    };
    proof {
        assert(r@ =~= seq![spec_hex_digit(n as int)]);
    }
    r
}

/// A one-character string holding the uppercase hex digit for `n`.
fn hex_digit_upper_str(n: u8) -> (r: &'static str)
    requires
        n < 16,
    ensures
        r@ == seq![spec_hex_digit_upper(n as int)],
{
    if n < 10 {
        let r = hex_digit_str(n);
        proof {
            assert(r@ =~= seq![spec_hex_digit_upper(n as int)]);
        }
        r
    } else {
        proof {
            reveal_strlit("A");
            reveal_strlit("B");
            reveal_strlit("C");
            reveal_strlit("D");
            reveal_strlit("E");
            reveal_strlit("F");
        }
        let r: &'static str = match n {
            10 => "A",
            11 => "B",
            12 => "C",
            13 => "D",
            14 => "E",
            _ => "F",
        };
        proof {
            assert(r@ =~= seq![spec_hex_digit_upper(n as int)]);
        }
        r
    }
}

/// Appends the six lowercase hex digits of the low 24 bits of `v`.
fn append_hex6(s: &mut String, v: u32)
    ensures
        final(s)@ == old(s)@ + spec_hex6(v),
{
    s.append(hex_digit_str(nibble(v, 20)));
    s.append(hex_digit_str(nibble(v, 16)));
    s.append(hex_digit_str(nibble(v, 12)));
    s.append(hex_digit_str(nibble(v, 8)));
    s.append(hex_digit_str(nibble(v, 4)));
    s.append(hex_digit_str(nibble(v, 0)));
    proof {
        assert(s@ =~= old(s)@ + spec_hex6(v));
    }
}

/// The identity string of a record's first 32-bit lane: six lowercase hex
/// digits of the 24-bit address, prefixed with `~` when bit 24 marks the
/// address as not transponder-derived.
pub open spec fn spec_ident(lane: u32) -> Seq<char> {
    if lane & 0x1000000 != 0 {
        seq!['~'] + spec_hex6(lane & 0xffffff)
    } else {
        spec_hex6(lane & 0xffffff)
    }
}

/// Renders the identity string for a record's first 32-bit lane.
pub fn ident_string(lane: u32) -> (r: String)
    ensures
        r@ == spec_ident(lane),
{
    let mut s = String::new();
    if lane & 0x1000000 != 0 {
        proof {
            reveal_strlit("~");
        }
        s.append("~");
        proof {
            assert(s@ =~= seq!['~']);
        }
    }
    append_hex6(&mut s, lane & 0xffffff);
    proof {
        assert(s@ =~= spec_ident(lane));
    }
    s
}

/// The squawk string: the four lowercase hex digits of the encoded code.
/// A leading digit `a`-`f` stays as it is; reinterpreting it as hex and
/// splicing the remaining three digits back reproduces the same four
/// characters, so both branches of the producer's repair agree.
pub fn squawk_string(v: u16) -> (r: String)
    ensures
        r@ == spec_hex4(v),
{
    let mut s = String::new();
    s.append(hex_digit_str(nibble(v as u32, 12)));
    s.append(hex_digit_str(nibble(v as u32, 8)));
    s.append(hex_digit_str(nibble(v as u32, 4)));
    s.append(hex_digit_str(nibble(v as u32, 0)));
    proof {
        assert(s@ =~= spec_hex4(v));
    }
    s
}

/// Renders a byte as two uppercase hex digits (the category field).
pub fn hex2_upper_string(v: u8) -> (r: String)
    ensures
        r@ == spec_hex2_upper(v),
{
    let mut s = String::new();
    s.append(hex_digit_upper_str(nibble(v as u32, 4)));
    s.append(hex_digit_upper_str(nibble(v as u32, 0)));
    proof {
        assert(s@ =~= spec_hex2_upper(v));
    }
    s
}

/// What `String::from_utf8_lossy` decodes the bytes to.
pub uninterp spec fn utf8_lossy_of(b: Seq<u8>) -> Seq<char>;

/// Relies on `String::from_utf8_lossy`: the decoding is a function of the
/// input bytes alone; invalid sequences are replaced, never rejected.
#[verifier::external_body]
pub(crate) fn utf8_lossy(b: &[u8]) -> (r: String)
    ensures
        r@ == utf8_lossy_of(b@),
{
    String::from_utf8_lossy(b).into_owned()
}

} // verus!
