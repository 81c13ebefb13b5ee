//! The request URL.
//!
//! One GET against `<base>/<encoded api key>/<lat>,<lng>`: the API key
//! is percent-encoded, the coordinates are interpolated in their exact
//! decimal form (digits, sign, dot and comma need no encoding).

use crate::dec::digit_char;
use crate::dec::Dec;
use crate::strutil::append_str;
use crate::strutil::chars_to_string;
use vstd::prelude::*;

verus! {

/// A character that percent-encoding leaves as it is.
pub open spec fn is_unreserved(c: char) -> bool {
    ('A' <= c && c <= 'Z') || ('a' <= c && c <= 'z') || ('0' <= c && c <= '9') || c == '-' || c
        == '_' || c == '.' || c == '~'
}

/// An upper-case hexadecimal digit.
pub open spec fn hex_char(n: nat) -> char {
    if n < 10 {
        digit_char(n)
    } else if n == 10 {
        'A'
    } else if n == 11 {
        'B'
    } else if n == 12 {
        'C'
    } else if n == 13 {
        'D'
    } else if n == 14 {
        'E'
    } else {
        'F'
    }
}

/// How one ASCII character is percent-encoded.
pub open spec fn pct_char(c: char) -> Seq<char> {
    if is_unreserved(c) {
        seq![c]
    } else {
        seq!['%', hex_char(((c as u32) / 16) as nat), hex_char(((c as u32) % 16) as nat)]
    }
}

/// The percent-encoding of an ASCII string.
pub open spec fn pct_encode(s: Seq<char>) -> Seq<char>
    decreases s.len(),
{
    if s.len() == 0 {
        Seq::empty()
    } else {
        pct_encode(s.drop_last()) + pct_char(s.last())
    }
}

pub open spec fn is_ascii_seq(s: Seq<char>) -> bool {
    forall|i: int| 0 <= i < s.len() ==> (s[i] as u32) < 128
}

/// The percent-encoding of any string, named; on ASCII input it equals
/// [`pct_encode`], on other input it goes through the UTF-8 bytes.
pub uninterp spec fn enc_of(s: Seq<char>) -> Seq<char>;

/// Relies on `urlencoding::encode`: percent-encodes every byte of the
/// UTF-8 form except ASCII alphanumerics and `-`, `_`, `.`, `~`, with
/// upper-case hexadecimal digits; depends on the input alone.
#[verifier::external_body]
fn encode_component(s: &str) -> (r: String)
    ensures
        r@ == enc_of(s@),
        is_ascii_seq(s@) ==> r@ == pct_encode(s@),
{
    urlencoding::encode(s).into_owned()
}

/// The forecast endpoint for one coordinate query.
pub open spec fn request_url_chars(key: Seq<char>, lat: Dec, lng: Dec) -> Seq<char> {
    "https://api.darksky.net/forecast/"@ + enc_of(key) + seq!['/'] + lat.chars() + seq![',']
        + lng.chars()
}

pub fn build_request_url(api_key: &str, lat: Dec, lng: Dec) -> (r: String)
    ensures
        r@ == request_url_chars(api_key@, lat, lng),
        is_ascii_seq(api_key@) ==> r@ == "https://api.darksky.net/forecast/"@ + pct_encode(
            api_key@,
        ) + seq!['/'] + lat.chars() + seq![','] + lng.chars(),
{
    let mut out: Vec<char> = Vec::new();
    append_str(&mut out, "https://api.darksky.net/forecast/");
    let enc = encode_component(api_key);
    append_str(&mut out, enc.as_str());
    out.push('/');
    let mut lc = lat.to_chars();
    out.append(&mut lc);
    out.push(',');
    let mut gc = lng.to_chars();
    out.append(&mut gc);
    proof {
        assert(out@ =~= request_url_chars(api_key@, lat, lng));
    }
    chars_to_string(&out)
}

} // verus!
