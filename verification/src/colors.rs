//! Colour parsing.  A colour is written one of three ways: `#rrggbb` as six
//! hexadecimal digits, `r;g;b` or `r;g;b;a` as decimal components 0–255, or
//! a colour name from the dictionary, matched regardless of case.  The
//! result is packed with red in the low byte and alpha in the high byte;
//! an omitted alpha is 255.

use hex::FromHex;
use vstd::prelude::*;

use crate::color_table::{lookup_named_color, named_color_spec};
use crate::text::{
    dec_val, lower_spec, lower_str, split_once, split_once_spec, trim, trim_spec, valid_u32_str,
};

verus! {

pub open spec fn is_hex_digit(c: char) -> bool {
    ('0' <= c && c <= '9') || ('a' <= c && c <= 'f') || ('A' <= c && c <= 'F')
}

pub open spec fn hex_digit_val(c: char) -> u32 {
    if '0' <= c && c <= '9' {
        (c as u32 - 48) as u32
    } else if 'a' <= c && c <= 'f' {
        (c as u32 - 87) as u32
    } else if 'A' <= c && c <= 'F' {
        (c as u32 - 55) as u32
    } else {
        0
    }
}

/// The byte two hexadecimal digits denote, high digit first.
pub open spec fn hex_byte(hi: char, lo: char) -> u32 {
    (hex_digit_val(hi) * 16 + hex_digit_val(lo)) as u32
}

/// Red in the low byte, then green, blue, alpha.
pub open spec fn pack_rgba(r: u32, g: u32, b: u32, a: u32) -> u32
    recommends
        r <= 255,
        g <= 255,
        b <= 255,
        a <= 255,
{
    (r + g * 0x100 + b * 0x1_0000 + a * 0x100_0000) as u32
}

/// Relies on `hex::FromHex` for `[u8; 3]` (through `hex::decode_to_slice`):
/// it succeeds exactly when the input is six hexadecimal digits, either
/// case, and then yields the three byte values, high digit first.
#[verifier::external_body]
fn hex_rgb(s: &str) -> (r: Option<(u8, u8, u8)>)
    ensures
        (r matches Some(t)) == (s@.len() == 6 && forall|i: int|
            0 <= i < 6 ==> is_hex_digit(#[trigger] s@[i])),
        r matches Some(t) ==> t.0 == hex_byte(s@[0], s@[1]) && t.1 == hex_byte(s@[2], s@[3])
            && t.2 == hex_byte(s@[4], s@[5]),
{
    match <[u8; 3]>::from_hex(s) {
        Ok(b) => Some((b[0], b[1], b[2])),
        Err(_) => None,
    }
}

/// Which of the three written forms a colour value takes: `#` first (after
/// trimming) means a hex triplet, two `;` mean decimal components, anything
/// else is tried as a name.
#[derive(Clone, Copy, PartialEq, Eq, Structural, Debug)]
pub enum ConversionType {
    FromHexTriplet,
    FromRgbDecimal,
    FromName,
}

pub open spec fn has_two_semis(t: Seq<char>) -> bool {
    match split_once_spec(t, ";"@) {
        Some(p) => split_once_spec(p.1, ";"@) is Some,
        None => false,
    }
}

pub open spec fn conversion_type_spec(s: Seq<char>) -> ConversionType {
    let t = trim_spec(s);
    if t.len() > 0 && t[0] == '#' {
        ConversionType::FromHexTriplet
    } else if has_two_semis(t) {
        ConversionType::FromRgbDecimal
    } else {
        ConversionType::FromName
    }
}

/// Decides which written form a colour value takes.
pub fn determine_conversion_type(s: &String) -> (r: ConversionType)
    ensures
        r == conversion_type_spec(s@),
{
    proof {
        reveal_strlit(";");
    }
    let t = trim(s.as_str());
    if t.unicode_len() > 0 && t.get_char(0) == '#' {
        return ConversionType::FromHexTriplet;
    }
    match split_once(t, ";") {
        Some((_first, rest)) => match split_once(rest, ";") {
            Some(_) => ConversionType::FromRgbDecimal,
            None => ConversionType::FromName,
        },
        None => ConversionType::FromName,
    }
}

/// A hex-triplet colour: a leading marker character, then six hexadecimal
/// digits.
pub open spec fn hex_triplet_valid(s: Seq<char>) -> bool {
    s.len() == 7 && forall|i: int| 1 <= i < 7 ==> is_hex_digit(#[trigger] s[i])
}

/// The packed value of a hex-triplet colour, alpha 255.
pub open spec fn hex_triplet_value(s: Seq<char>) -> u32 {
    pack_rgba(hex_byte(s[1], s[2]), hex_byte(s[3], s[4]), hex_byte(s[5], s[6]), 255)
}

/// Reads a `#rrggbb` colour: the first character is dropped, the six
/// remaining digits become red, green and blue, and alpha is 255.
pub fn from_hex_triplet(s: &String) -> (r: u32)
    requires
        hex_triplet_valid(s@),
    ensures
        r == hex_triplet_value(s@),
{
    let digits = s.as_str().substring_char(1, 7);
    match hex_rgb(digits) {
        Some((rb, gb, bb)) => {
            let r32 = rb as u32;
            let g32 = gb as u32;
            let b32 = bb as u32;
            r32 + g32 * 0x100 + b32 * 0x1_0000 + 255 * 0x100_0000
        },
        None => {
            proof {
                assert(digits@[0] == s@[1]);
                assert(false);
            }
            unreached()
        },
    }
}

/// A decimal component list `r;g;b` or `r;g;b;a` and its packed value:
/// every part, trimmed, must be a plain decimal number at most 255.
pub open spec fn rgb_decimal_spec(t: Seq<char>) -> Option<u32> {
    match split_once_spec(t, ";"@) {
        None => None,
        Some(p1) => match split_once_spec(p1.1, ";"@) {
            None => None,
            Some(p2) => match split_once_spec(p2.1, ";"@) {
                None => pack_parts(p1.0, p2.0, p2.1, None),
                Some(p3) => match split_once_spec(p3.1, ";"@) {
                    None => pack_parts(p1.0, p2.0, p3.0, Some(p3.1)),
                    Some(_) => None,
                },
            },
        },
    }
}

pub open spec fn component_ok(part: Seq<char>) -> bool {
    valid_u32_str(trim_spec(part)) && dec_val(trim_spec(part)) <= 255
}

pub open spec fn component_val(part: Seq<char>) -> u32 {
    dec_val(trim_spec(part)) as u32
}

pub open spec fn pack_parts(
    rp: Seq<char>,
    gp: Seq<char>,
    bp: Seq<char>,
    ap: Option<Seq<char>>,
) -> Option<u32> {
    if component_ok(rp) && component_ok(gp) && component_ok(bp) && (match ap {
        Some(p) => component_ok(p),
        None => true,
    }) {
        Some(
            pack_rgba(
                component_val(rp),
                component_val(gp),
                component_val(bp),
                match ap {
                    Some(p) => component_val(p),
                    None => 255,
                },
            ),
        )
    } else {
        None
    }
}

fn parse_component(part: &str) -> (r: Option<u32>)
    ensures
        match r {
            Some(v) => component_ok(part@) && v == component_val(part@) && v <= 255,
            None => !component_ok(part@),
        },
{
    match crate::text::parse_u32_str(trim(part)) {
        Some(v) => {
            if v <= 255 {
                Some(v)
            } else {
                None
            }
        },
        None => None,
    }
}

/// Reads an `r;g;b` or `r;g;b;a` colour after trimming; an omitted alpha
/// is 255.
pub fn from_rgb_decimal(s: &String) -> (r: u32)
    requires
        rgb_decimal_spec(trim_spec(s@)) is Some,
    ensures
        Some(r) == rgb_decimal_spec(trim_spec(s@)),
{
    match try_rgb_decimal(s) {
        Some(v) => v,
        None => {
            proof {
                assert(false);
            }
            unreached()
        },
    }
}

fn try_rgb_decimal(s: &String) -> (r: Option<u32>)
    ensures
        r == rgb_decimal_spec(trim_spec(s@)),
{
    proof {
        reveal_strlit(";");
    }
    let t = trim(s.as_str());
    let (rp, rest1) = match split_once(t, ";") {
        Some(p) => p,
        None => {
            return None;
        },
    };
    let (gp, rest2) = match split_once(rest1, ";") {
        Some(p) => p,
        None => {
            return None;
        },
    };
    match split_once(rest2, ";") {
        None => pack_parts_exec(rp, gp, rest2, None),
        Some((bp, rest3)) => match split_once(rest3, ";") {
            None => pack_parts_exec(rp, gp, bp, Some(rest3)),
            Some(_) => None,
        },
    }
}

fn pack_parts_exec(rp: &str, gp: &str, bp: &str, ap: Option<&str>) -> (r: Option<u32>)
    ensures
        r == pack_parts(
            rp@,
            gp@,
            bp@,
            match ap {
                Some(p) => Some(p@),
                None => None,
            },
        ),
{
    let rv = match parse_component(rp) {
        Some(v) => v,
        None => {
            return None;
        },
    };
    let gv = match parse_component(gp) {
        Some(v) => v,
        None => {
            return None;
        },
    };
    let bv = match parse_component(bp) {
        Some(v) => v,
        None => {
            return None;
        },
    };
    let av: u32 = match ap {
        Some(p) => match parse_component(p) {
            Some(v) => v,
            None => {
                return None;
            },
        },
        None => 255,
    };
    Some(rv + gv * 0x100 + bv * 0x1_0000 + av * 0x100_0000)
}

/// Reads a named colour, matched regardless of case.
pub fn from_name(s: &String) -> (r: u32)
    requires
        named_color_spec(lower_spec(s@)) is Some,
    ensures
        Some(r) == named_color_spec(lower_spec(s@)),
{
    let low = lower_str(s.as_str());
    match lookup_named_color(low.as_str()) {
        Some(v) => v,
        None => {
            proof {
                assert(false);
            }
            unreached()
        },
    }
}

/// A colour value this library can read, in any of the three forms, and
/// what it reads to.
pub open spec fn valid_color_spec(s: Seq<char>) -> bool {
    match conversion_type_spec(s) {
        ConversionType::FromHexTriplet => hex_triplet_valid(s),
        ConversionType::FromRgbDecimal => rgb_decimal_spec(trim_spec(s)) is Some,
        ConversionType::FromName => named_color_spec(lower_spec(s)) is Some,
    }
}

pub open spec fn color_value_spec(s: Seq<char>) -> u32 {
    match conversion_type_spec(s) {
        ConversionType::FromHexTriplet => hex_triplet_value(s),
        ConversionType::FromRgbDecimal => rgb_decimal_spec(trim_spec(s)).unwrap(),
        ConversionType::FromName => named_color_spec(lower_spec(s)).unwrap(),
    }
}

/// Reads a colour in any of the three written forms; total form.
pub fn try_parse_color(s: &String) -> (r: Option<u32>)
    ensures
        match r {
            Some(v) => valid_color_spec(s@) && v == color_value_spec(s@),
            None => !valid_color_spec(s@),
        },
{
    match determine_conversion_type(s) {
        ConversionType::FromHexTriplet => {
            let len = s.as_str().unicode_len();
            if len != 7 {
                return None;
            }
            let digits = s.as_str().substring_char(1, 7);
            match hex_rgb(digits) {
                Some(_) => {
                    proof {
                        assert(forall|i: int| 1 <= i < 7 ==> is_hex_digit(#[trigger] s@[i])) by {
                            assert(forall|i: int|
                                0 <= i < 6 ==> is_hex_digit(#[trigger] digits@[i]));
                            assert(forall|i: int| 1 <= i < 7 ==> s@[i] == digits@[i - 1]);
                        }
                    }
                    Some(from_hex_triplet(s))
                },
                None => {
                    proof {
                        if hex_triplet_valid(s@) {
                            assert(forall|i: int|
                                0 <= i < 6 ==> is_hex_digit(#[trigger] digits@[i])) by {
                                assert(forall|i: int| 0 <= i < 6 ==> digits@[i] == s@[i + 1]);
                            }
                        }
                    }
                    None
                },
            }
        },
        ConversionType::FromRgbDecimal => try_rgb_decimal(s),
        ConversionType::FromName => {
            let low = lower_str(s.as_str());
            lookup_named_color(low.as_str())
        },
    }
}

/// Reads a colour in any of the three written forms: `#rrggbb`, decimal
/// components, or a known name.
pub fn parse_color(s: &String) -> (r: u32)
    requires
        valid_color_spec(s@),
    ensures
        r == color_value_spec(s@),
{
    match try_parse_color(s) {
        Some(v) => v,
        None => {
            proof {
                assert(false);
            }
            unreached()
        },
    }
}

} // verus!
