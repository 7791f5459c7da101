//! Colors for Slides batch updates.

use vstd::prelude::*;
use vstd::string::*;
use vstd::utf8::{encode_utf8, is_char_boundary};
use crate::client::request::concat3;
use crate::utils::text::{chars_of, string_of};

verus! {

/// `s` without its leading `#` characters (`trim_start_matches('#')`).
pub open spec fn strip_hashes(s: Seq<char>) -> Seq<char>
    decreases s.len(),
{
    if s.len() > 0 && s[0] == '#' {
        strip_hashes(s.drop_first())
    } else {
        s
    }
}

/// Value of a hexadecimal digit byte (either case).
pub open spec fn hex_value(b: u8) -> Option<nat> {
    if 48 <= b <= 57 {
        Some((b - 48) as nat)
    } else if 97 <= b <= 102 {
        Some((b - 87) as nat)
    } else if 65 <= b <= 70 {
        Some((b - 55) as nat)
    } else {
        None
    }
}

/// One colour component: the byte written by two hex digits, or `None`
/// where either byte is not a hex digit.
pub open spec fn parse_hex_pair(b0: u8, b1: u8) -> Option<u8> {
    match (hex_value(b0), hex_value(b1)) {
        (Some(h), Some(l)) => Some((h * 16 + l) as u8),
        _ => None,
    }
}

/// The message of `ParseIntError` for an invalid digit.
pub open spec fn invalid_digit_message() -> Seq<char> {
    "invalid digit found in string"@
}

/// What `parse_hex_color` computes, before scaling: the red, green and blue
/// bytes of `#RRGGBB`, or the error message.
pub open spec fn hex_color(s: Seq<char>) -> Result<(u8, u8, u8), Seq<char>> {
    let t = strip_hashes(s);
    let bs = encode_utf8(t);
    if bs.len() != 6 {
        Err("Invalid hex color '"@ + t + "': expected 6 hex digits"@)
    } else {
        match (parse_hex_pair(bs[0], bs[1]), parse_hex_pair(bs[2], bs[3]), parse_hex_pair(bs[4], bs[5])) {
            (Some(r), Some(g), Some(b)) => Ok((r, g, b)),
            _ => Err(invalid_digit_message()),
        }
    }
}

/// The color string splits into three two-byte parts where it has six bytes;
/// the components are read from those byte ranges.
pub open spec fn splits_in_pairs(s: Seq<char>) -> bool {
    let bs = encode_utf8(strip_hashes(s));
    bs.len() == 6 ==> is_char_boundary(bs, 2) && is_char_boundary(bs, 4)
}

fn hex_value_exec(b: u8) -> (r: Option<u8>)
    ensures
        match hex_value(b) {
            Some(v) => r == Some(v as u8),
            None => r is None,
        },
{
    if 48 <= b && b <= 57 {
        Some(b - 48)
    } else if 97 <= b && b <= 102 {
        Some(b - 87)
    } else if 65 <= b && b <= 70 {
        Some(b - 55)
    } else {
        None
    }
}

fn parse_hex_pair_exec(b0: u8, b1: u8) -> (r: Option<u8>)
    ensures
        r == parse_hex_pair(b0, b1),
{
    match (hex_value_exec(b0), hex_value_exec(b1)) {
        (Some(h), Some(l)) => Some(h * 16 + l),
        _ => None,
    }
}

/// Parses `#RRGGBB` (any number of leading `#`) into its red, green and blue bytes.
pub fn parse_hex_rgb(hex: &str) -> (r: Result<(u8, u8, u8), String>)
    requires
        splits_in_pairs(hex@),
    ensures
        match hex_color(hex@) {
            Ok(c) => r == Ok::<(u8, u8, u8), String>(c),
            Err(m) => r matches Err(e) && e@ == m,
        },
{
    let v = chars_of(hex);
    let mut k: usize = 0;
    assert(v@.skip(0) =~= v@);
    while k < v.len() && v[k] == '#'
        invariant
            k <= v@.len(),
            strip_hashes(v@.skip(k as int)) == strip_hashes(v@),
        decreases v@.len() - k,
    {
        assert(v@.skip(k as int).drop_first() =~= v@.skip(k + 1));
        k = k + 1;
    }
    assert(strip_hashes(v@.skip(k as int)) == v@.skip(k as int));
    let mut rest: Vec<char> = Vec::new();
    let mut j = k;
    while j < v.len()
        invariant
            k <= j <= v@.len(),
            rest@ == v@.subrange(k as int, j as int),
        decreases v@.len() - j,
    {
        rest.push(v[j]);
        j = j + 1;
        assert(rest@ =~= v@.subrange(k as int, j as int));
    }
    assert(rest@ =~= v@.skip(k as int));
    let t = string_of(&rest);
    let ghost tv = strip_hashes(hex@);
    assert(t@ == tv);
    let bytes = t.as_str().as_bytes();
    if bytes.len() != 6 {
        return Err(concat3("Invalid hex color '", t.as_str(), "': expected 6 hex digits"));
    }
    let red = parse_hex_pair_exec(bytes[0], bytes[1]);
    let green = parse_hex_pair_exec(bytes[2], bytes[3]);
    let blue = parse_hex_pair_exec(bytes[4], bytes[5]);
    match (red, green, blue) {
        (Some(r), Some(g), Some(b)) => Ok((r, g, b)),
        _ => Err(String::from_str("invalid digit found in string")),
    }
}

} // verus!
