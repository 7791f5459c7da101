//! Percent-encoding of path segments and query strings.

use vstd::prelude::*;
use vstd::utf8::encode_utf8;

verus! {

/// Upper-case hexadecimal digit of `d` (below 16).
pub open spec fn hex_digit(d: nat) -> char {
    if d == 0 { '0' } else if d == 1 { '1' } else if d == 2 { '2' } else if d == 3 { '3' }
    else if d == 4 { '4' } else if d == 5 { '5' } else if d == 6 { '6' } else if d == 7 { '7' }
    else if d == 8 { '8' } else if d == 9 { '9' } else if d == 10 { 'A' } else if d == 11 { 'B' }
    else if d == 12 { 'C' } else if d == 13 { 'D' } else if d == 14 { 'E' } else { 'F' }
}

/// `%XX` for a byte.
pub open spec fn percent_byte(b: u8) -> Seq<char> {
    seq!['%', hex_digit((b / 16) as nat), hex_digit((b % 16) as nat)]
}

pub open spec fn is_alphanumeric_byte(b: u8) -> bool {
    (48 <= b <= 57) || (65 <= b <= 90) || (97 <= b <= 122)
}

/// Bytes that `urlencoding::encode` leaves as they are: ASCII letters and
/// digits, `-`, `.`, `_` and `~`.
pub open spec fn url_unreserved(b: u8) -> bool {
    is_alphanumeric_byte(b) || b == 45 || b == 46 || b == 95 || b == 126
}

pub open spec fn url_encode_bytes(bs: Seq<u8>) -> Seq<char>
    decreases bs.len(),
{
    if bs.len() == 0 {
        Seq::empty()
    } else {
        let b = bs[0];
        (if url_unreserved(b) { seq![b as char] } else { percent_byte(b) }) + url_encode_bytes(bs.drop_first())
    }
}

/// `urlencoding::encode`: each UTF-8 byte of `s` that is not unreserved becomes `%XX`.
pub open spec fn url_encoded(s: Seq<char>) -> Seq<char> {
    url_encode_bytes(encode_utf8(s))
}

/// Percent-encodes a path segment (`urlencoding::encode`). Its documentation
/// and source: every byte of the UTF-8 encoding except ASCII alphanumerics and
/// `-`, `_`, `.`, `~` is written as `%` and two upper-case hex digits.
#[verifier::external_body]
pub(crate) fn url_encode(s: &str) -> (r: String)
    ensures
        r@ == url_encoded(s@),
{
    urlencoding::encode(s).into_owned()
}

/// Bytes that `application/x-www-form-urlencoded` serialization leaves as they
/// are: ASCII letters and digits, `*`, `-`, `.` and `_`.
pub open spec fn form_unchanged(b: u8) -> bool {
    is_alphanumeric_byte(b) || b == 42 || b == 45 || b == 46 || b == 95
}

pub open spec fn form_encode_bytes(bs: Seq<u8>) -> Seq<char>
    decreases bs.len(),
{
    if bs.len() == 0 {
        Seq::empty()
    } else {
        let b = bs[0];
        (if form_unchanged(b) {
            seq![b as char]
        } else if b == 32 {
            seq!['+']
        } else {
            percent_byte(b)
        }) + form_encode_bytes(bs.drop_first())
    }
}

/// One name or value of a form-encoded query.
pub open spec fn form_encoded(s: Seq<char>) -> Seq<char> {
    form_encode_bytes(encode_utf8(s))
}

pub open spec fn form_pair(p: (Seq<char>, Seq<char>)) -> Seq<char> {
    form_encoded(p.0).push('=') + form_encoded(p.1)
}

/// The form-encoded query string of a list of name/value pairs: `name=value`
/// for each pair, joined by `&`.
pub open spec fn form_query(pairs: Seq<(Seq<char>, Seq<char>)>) -> Seq<char>
    decreases pairs.len(),
{
    if pairs.len() == 0 {
        Seq::empty()
    } else if pairs.len() == 1 {
        form_pair(pairs[0])
    } else {
        form_query(pairs.drop_last()).push('&') + form_pair(pairs.last())
    }
}

/// The view of a list of string pairs.
pub open spec fn pairs_view(v: Seq<(String, String)>) -> Seq<(Seq<char>, Seq<char>)> {
    v.map_values(|p: (String, String)| (p.0@, p.1@))
}

/// Serializes name/value pairs as a query string (`serde_urlencoded::to_string`).
/// Its source serializes a sequence of string pairs through `form_urlencoded`'s
/// `append_pair` (`&` between pairs, `name=value`, bytes other than ASCII
/// alphanumerics and `*-._` as `+` for a space and `%XX` otherwise), and fails
/// only on unsupported types, which string pairs are not.
#[verifier::external_body]
pub(crate) fn form_urlencode(pairs: &Vec<(String, String)>) -> (r: Option<String>)
    ensures
        r == Some(r->0),
        r->0@ == form_query(pairs_view(pairs@)),
{
    serde_urlencoded::to_string(pairs).ok()
}

} // verus!
