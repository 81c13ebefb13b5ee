//! The wire text of a JSON document.
//!
//! A deterministic grammar connects character sequences and [`JsonV`]
//! trees: `sp_json` is the specification-level parser and `ser_json` the
//! specification-level serializer; the executable parser and serializer
//! are proved equal to them.
//!
//! The grammar is the JSON subset the provider uses: objects, arrays,
//! strings, decimal numbers, `true`, `false` and `null`, with spaces,
//! tabs and line breaks between tokens.  Numbers have no exponent part,
//! and a mantissa must fit in 64 bits.  Strings know the escapes `\"`,
//! `\\`, `\/`, `\n`, `\t`, `\r`, `\b` and `\f`; other characters stand
//! for themselves, and the serializer emits the same escapes.

use crate::dec::Dec;
use crate::json::Json;
use crate::json::JsonV;
use crate::strutil::chars_to_string;
use vstd::prelude::*;

verus! {

pub open spec fn is_ws(c: char) -> bool {
    c == ' ' || c == '\t' || c == '\n' || c == '\r'
}

pub open spec fn is_digit(c: char) -> bool {
    '0' <= c && c <= '9'
}

pub open spec fn digit_val(c: char) -> nat {
    ((c as u32) - ('0' as u32)) as nat
}

/// The first index at or after `i` that holds no blank.
pub open spec fn sp_ws(s: Seq<char>, i: int) -> int
    decreases s.len() - i,
{
    if 0 <= i < s.len() && is_ws(s[i]) {
        sp_ws(s, i + 1)
    } else {
        i
    }
}

/// The digits of an unsigned mantissa, folded left into `acc`; stops at
/// the first non-digit.  A mantissa beyond 64 bits is refused.
pub open spec fn sp_digits(s: Seq<char>, i: int, acc: nat) -> Option<(nat, int)>
    decreases s.len() - i,
{
    if i < 0 || i >= s.len() || !is_digit(s[i]) {
        Some((acc, i))
    } else if acc * 10 + digit_val(s[i]) > u64::MAX as nat {
        None
    } else {
        sp_digits(s, i + 1, acc * 10 + digit_val(s[i]))
    }
}

/// A number: optional minus, an integer part without a superfluous
/// leading zero, and an optional fraction part.
pub open spec fn sp_number(s: Seq<char>, i: int) -> Option<(JsonV, int)> {
    if i < 0 || i >= s.len() {
        None
    } else {
        let neg = s[i] == '-';
        let i1 = if neg {
            i + 1
        } else {
            i
        };
        if i1 >= s.len() || !is_digit(s[i1]) {
            None
        } else {
            let ip = if s[i1] == '0' {
                Some(((0 as nat), i1 + 1))
            } else {
                sp_digits(s, i1, 0)
            };
            match ip {
                None => None,
                Some((mant0, j)) => if j < s.len() && s[j] == '.' {
                    if j + 1 >= s.len() || !is_digit(s[j + 1]) {
                        None
                    } else {
                        match sp_digits(s, j + 1, mant0) {
                            None => None,
                            Some((mant, k)) => if k - (j + 1) > u32::MAX {
                                None
                            } else {
                                Some(
                                    (
                                        JsonV::Num(
                                            Dec {
                                                neg,
                                                mant: mant as u64,
                                                scale: (k - (j + 1)) as u32,
                                            },
                                        ),
                                        k,
                                    ),
                                )
                            },
                        }
                    }
                } else {
                    Some((JsonV::Num(Dec { neg, mant: mant0 as u64, scale: 0 }), j))
                },
            }
        }
    }
}

/// The body of a string after the opening quote, with `acc` the
/// characters already read.
pub open spec fn sp_string(s: Seq<char>, i: int, acc: Seq<char>) -> Option<(Seq<char>, int)>
    decreases s.len() - i,
{
    if i < 0 || i >= s.len() {
        None
    } else if s[i] == '"' {
        Some((acc, i + 1))
    } else if s[i] == '\\' {
        if i + 1 >= s.len() {
            None
        } else {
            let e = s[i + 1];
            if e == '"' {
                sp_string(s, i + 2, acc.push('"'))
            } else if e == '\\' {
                sp_string(s, i + 2, acc.push('\\'))
            } else if e == '/' {
                sp_string(s, i + 2, acc.push('/'))
            } else if e == 'n' {
                sp_string(s, i + 2, acc.push('\n'))
            } else if e == 't' {
                sp_string(s, i + 2, acc.push('\t'))
            } else if e == 'r' {
                sp_string(s, i + 2, acc.push('\r'))
            } else if e == 'b' {
                sp_string(s, i + 2, acc.push('\u{8}'))
            } else if e == 'f' {
                sp_string(s, i + 2, acc.push('\u{c}'))
            } else {
                None
            }
        }
    } else if (s[i] as u32) < 32 {
        None
    } else {
        sp_string(s, i + 1, acc.push(s[i]))
    }
}

/// A value starting exactly at `i`.
pub open spec fn sp_value(s: Seq<char>, i: int) -> Option<(JsonV, int)>
    decreases s.len() - i, 2int,
{
    if i < 0 || i >= s.len() {
        None
    } else if s[i] == 'n' {
        if i + 4 <= s.len() && s[i + 1] == 'u' && s[i + 2] == 'l' && s[i + 3] == 'l' {
            Some((JsonV::Null, i + 4))
        } else {
            None
        }
    } else if s[i] == 't' {
        if i + 4 <= s.len() && s[i + 1] == 'r' && s[i + 2] == 'u' && s[i + 3] == 'e' {
            Some((JsonV::Bool(true), i + 4))
        } else {
            None
        }
    } else if s[i] == 'f' {
        if i + 5 <= s.len() && s[i + 1] == 'a' && s[i + 2] == 'l' && s[i + 3] == 's' && s[i + 4]
            == 'e' {
            Some((JsonV::Bool(false), i + 5))
        } else {
            None
        }
    } else if s[i] == '"' {
        match sp_string(s, i + 1, Seq::empty()) {
            Some((cs, j)) => Some((JsonV::Str(cs), j)),
            None => None,
        }
    } else if s[i] == '[' {
        let k = sp_ws(s, i + 1);
        if k < i + 1 || k > s.len() {
            None
        } else if k < s.len() && s[k] == ']' {
            Some((JsonV::Arr(Seq::empty()), k + 1))
        } else {
            match sp_elems(s, i + 1) {
                Some((vs, j)) => Some((JsonV::Arr(vs), j)),
                None => None,
            }
        }
    } else if s[i] == '{' {
        let k = sp_ws(s, i + 1);
        if k < i + 1 || k > s.len() {
            None
        } else if k < s.len() && s[k] == '}' {
            Some((JsonV::Obj(Seq::empty()), k + 1))
        } else {
            match sp_members(s, i + 1) {
                Some((fs, j)) => Some((JsonV::Obj(fs), j)),
                None => None,
            }
        }
    } else if s[i] == '-' || is_digit(s[i]) {
        sp_number(s, i)
    } else {
        None
    }
}

/// The elements of a non-empty array, from just after `[` or `,` through
/// the closing `]`.
pub open spec fn sp_elems(s: Seq<char>, i: int) -> Option<(Seq<JsonV>, int)>
    decreases s.len() - i, 3int,
{
    if i < 0 || i > s.len() {
        None
    } else {
        let i0 = sp_ws(s, i);
        if i0 < i || i0 > s.len() {
            None
        } else {
            match sp_value(s, i0) {
                None => None,
                Some((v, j)) => if j < i0 || j > s.len() {
                    None
                } else {
                    let k = sp_ws(s, j);
                    if k < j || k >= s.len() {
                        None
                    } else if s[k] == ']' {
                        Some((seq![v], k + 1))
                    } else if s[k] == ',' {
                        if k + 1 <= i {
                            None
                        } else {
                            match sp_elems(s, k + 1) {
                                None => None,
                                Some((rest, end)) => Some((seq![v] + rest, end)),
                            }
                        }
                    } else {
                        None
                    }
                },
            }
        }
    }
}

/// The members of a non-empty object, from just after `{` or `,` through
/// the closing `}`.
pub open spec fn sp_members(s: Seq<char>, i: int) -> Option<(Seq<(Seq<char>, JsonV)>, int)>
    decreases s.len() - i, 3int,
{
    if i < 0 || i > s.len() {
        None
    } else {
        let i0 = sp_ws(s, i);
        if i0 < i || i0 >= s.len() || s[i0] != '"' {
            None
        } else {
            match sp_string(s, i0 + 1, Seq::empty()) {
                None => None,
                Some((key, j)) => if j < i0 || j > s.len() {
                    None
                } else {
                    let k = sp_ws(s, j);
                    if k < j || k >= s.len() || s[k] != ':' {
                        None
                    } else {
                        let m = sp_ws(s, k + 1);
                        if m < k + 1 || m > s.len() {
                            None
                        } else {
                            match sp_value(s, m) {
                                None => None,
                                Some((v, n)) => if n < m || n > s.len() {
                                    None
                                } else {
                                    let p = sp_ws(s, n);
                                    if p < n || p >= s.len() {
                                        None
                                    } else if s[p] == '}' {
                                        Some((seq![(key, v)], p + 1))
                                    } else if s[p] == ',' {
                                        if p + 1 <= i {
                                            None
                                        } else {
                                            match sp_members(s, p + 1) {
                                                None => None,
                                                Some((rest, end)) => Some(
                                                    (seq![(key, v)] + rest, end),
                                                ),
                                            }
                                        }
                                    } else {
                                        None
                                    }
                                },
                            }
                        }
                    }
                },
            }
        }
    }
}

/// A whole document: one value, surrounded by blanks only.
pub open spec fn sp_json(s: Seq<char>) -> Option<JsonV> {
    let i = sp_ws(s, 0);
    if i < 0 || i > s.len() {
        None
    } else {
        match sp_value(s, i) {
            None => None,
            Some((v, j)) => if j < 0 || j > s.len() {
                None
            } else if sp_ws(s, j) == s.len() {
                Some(v)
            } else {
                None
            },
        }
    }
}

// ---------------------------------------------------------------------
// The serializer.
// ---------------------------------------------------------------------

/// How one character appears inside a serialized string literal.
pub open spec fn esc_char(c: char) -> Seq<char> {
    if c == '"' {
        seq!['\\', '"']
    } else if c == '\\' {
        seq!['\\', '\\']
    } else if c == '\n' {
        seq!['\\', 'n']
    } else if c == '\t' {
        seq!['\\', 't']
    } else if c == '\r' {
        seq!['\\', 'r']
    } else if c == '\u{8}' {
        seq!['\\', 'b']
    } else if c == '\u{c}' {
        seq!['\\', 'f']
    } else {
        seq![c]
    }
}

pub open spec fn ser_str_body(s: Seq<char>) -> Seq<char>
    decreases s.len(),
{
    if s.len() == 0 {
        Seq::empty()
    } else {
        ser_str_body(s.drop_last()) + esc_char(s.last())
    }
}

pub open spec fn join_comma(parts: Seq<Seq<char>>) -> Seq<char>
    decreases parts.len(),
{
    if parts.len() == 0 {
        Seq::empty()
    } else if parts.len() == 1 {
        parts[0]
    } else {
        join_comma(parts.drop_last()) + seq![','] + parts.last()
    }
}

/// The serialized text of a value: no blanks, object fields in order.
pub open spec fn ser_json(j: JsonV) -> Seq<char>
    decreases j via ser_json_dec
{
    match j {
        JsonV::Null => "null"@,
        JsonV::Bool(b) => if b {
            "true"@
        } else {
            "false"@
        },
        JsonV::Num(d) => d.chars(),
        JsonV::Str(s) => seq!['"'] + ser_str_body(s) + seq!['"'],
        JsonV::Arr(elems) => seq!['['] + join_comma(ser_elems_parts(elems)) + seq![']'],
        JsonV::Obj(fields) => seq!['{'] + join_comma(ser_fields_parts(fields)) + seq!['}'],
    }
}

/// The serialized text of each array element.
pub open spec fn ser_elems_parts(elems: Seq<JsonV>) -> Seq<Seq<char>>
    decreases elems via ser_elems_parts_dec
{
    Seq::new(
        elems.len(),
        |i: int|
            if 0 <= i < elems.len() {
                ser_json(elems[i])
            } else {
                Seq::empty()
            },
    )
}

/// The serialized text of each object binding, key and value.
pub open spec fn ser_fields_parts(fields: Seq<(Seq<char>, JsonV)>) -> Seq<Seq<char>>
    decreases fields via ser_fields_parts_dec
{
    Seq::new(
        fields.len(),
        |i: int|
            if 0 <= i < fields.len() {
                seq!['"'] + ser_str_body(fields[i].0) + seq!['"', ':'] + ser_json(fields[i].1)
            } else {
                Seq::empty()
            },
    )
}

#[via_fn]
proof fn ser_json_dec(j: JsonV) {
    match j {
        JsonV::Arr(elems) => {
            assert(decreases_to!(j => elems));
        },
        JsonV::Obj(fields) => {
            assert(decreases_to!(j => fields));
        },
        _ => {},
    }
}

#[via_fn]
proof fn ser_elems_parts_dec(elems: Seq<JsonV>) {
    assert forall|i: int| 0 <= i < elems.len() implies decreases_to!(elems => elems[i]) by {
        assert(decreases_to!(elems => elems[i]));
    }
}

#[via_fn]
proof fn ser_fields_parts_dec(fields: Seq<(Seq<char>, JsonV)>) {
    assert forall|i: int| 0 <= i < fields.len() implies decreases_to!(
        fields => fields[i].1,
    ) by {
        assert(decreases_to!(fields => fields[i]));
        assert(decreases_to!(fields[i] => fields[i].1));
    }
}

pub fn write_str_body(s: &str, out: &mut Vec<char>)
    ensures
        final(out)@ == old(out)@ + ser_str_body(s@),
{
    let n = s.unicode_len();
    let mut i: usize = 0;
    while i < n
        invariant
            n == s@.len(),
            i <= n,
            out@ == old(out)@ + ser_str_body(s@.take(i as int)),
        decreases n - i,
    {
        let c = s.get_char(i);
        if c == '"' {
            out.push('\\');
            out.push('"');
        } else if c == '\\' {
            out.push('\\');
            out.push('\\');
        } else if c == '\n' {
            out.push('\\');
            out.push('n');
        } else if c == '\t' {
            out.push('\\');
            out.push('t');
        } else if c == '\r' {
            out.push('\\');
            out.push('r');
        } else if c == '\u{8}' {
            out.push('\\');
            out.push('b');
        } else if c == '\u{c}' {
            out.push('\\');
            out.push('f');
        } else {
            out.push(c);
        }
        i = i + 1;
        proof {
            assert(s@.take(i as int).drop_last() =~= s@.take(i - 1));
            assert(s@.take(i as int).last() == s@[i - 1]);
            assert(out@ =~= old(out)@ + ser_str_body(s@.take(i as int)));
        }
    }
    proof {
        assert(s@.take(n as int) =~= s@);
    }
}

pub fn write_json(j: &Json, out: &mut Vec<char>)
    ensures
        final(out)@ == old(out)@ + ser_json(j@),
    decreases j,
{
    match j {
        Json::Null => {
            crate::strutil::append_str(out, "null");
        },
        Json::Bool(b) => {
            if *b {
                crate::strutil::append_str(out, "true");
            } else {
                crate::strutil::append_str(out, "false");
            }
        },
        Json::Num(d) => {
            let mut cs = d.to_chars();
            out.append(&mut cs);
        },
        Json::Str(s) => {
            out.push('"');
            write_str_body(s.as_str(), out);
            out.push('"');
            proof {
                assert(out@ =~= old(out)@ + ser_json(j@));
            }
        },
        Json::Arr(v) => {
            let ghost base = out@;
            let ghost elems = j@->Arr_0;
            let ghost parts = ser_elems_parts(elems);
            out.push('[');
            let mut i: usize = 0;
            while i < v.len()
                invariant
                    elems == j@->Arr_0,
                    j == Json::Arr(*v),
                    elems.len() == v@.len(),
                    forall|k: int| 0 <= k < v@.len() ==> elems[k] == v@[k]@,
                    parts == ser_elems_parts(elems),
                    i <= v.len(),
                    out@ == base + seq!['['] + join_comma(parts.take(i as int)),
                decreases v.len() - i,
            {
                if i > 0 {
                    out.push(',');
                }
                write_json(&v[i], out);
                i = i + 1;
                proof {
                    assert(parts.take(i as int).drop_last() =~= parts.take(i - 1));
                    assert(parts.take(i as int).last() == parts[i - 1]);
                    assert(out@ =~= base + seq!['['] + join_comma(parts.take(i as int)));
                }
            }
            out.push(']');
            proof {
                assert(parts.take(v@.len() as int) =~= parts);
                assert(out@ =~= old(out)@ + ser_json(j@));
            }
        },
        Json::Obj(v) => {
            let ghost base = out@;
            let ghost fields = j@->Obj_0;
            let ghost parts = ser_fields_parts(fields);
            out.push('{');
            let mut i: usize = 0;
            while i < v.len()
                invariant
                    fields == j@->Obj_0,
                    j == Json::Obj(*v),
                    fields.len() == v@.len(),
                    forall|k: int| 0 <= k < v@.len() ==> fields[k] == (v@[k].0@, v@[k].1@),
                    parts == ser_fields_parts(fields),
                    i <= v.len(),
                    out@ == base + seq!['{'] + join_comma(parts.take(i as int)),
                decreases v.len() - i,
            {
                if i > 0 {
                    out.push(',');
                }
                out.push('"');
                write_str_body(v[i].0.as_str(), out);
                out.push('"');
                out.push(':');
                write_json(&v[i].1, out);
                i = i + 1;
                proof {
                    assert(parts.take(i as int).drop_last() =~= parts.take(i - 1));
                    assert(parts.take(i as int).last() == parts[i - 1]);
                    assert(out@ =~= base + seq!['{'] + join_comma(parts.take(i as int)));
                }
            }
            out.push('}');
            proof {
                assert(parts.take(v@.len() as int) =~= parts);
                assert(out@ =~= old(out)@ + ser_json(j@));
            }
        },
    }
}

/// Renders a document: the serialized text of its tree.
pub fn json_to_text(j: &Json) -> (r: String)
    ensures
        r@ == ser_json(j@),
{
    let mut out: Vec<char> = Vec::new();
    write_json(j, &mut out);
    chars_to_string(&out)
}

// ---------------------------------------------------------------------
// The parser.
// ---------------------------------------------------------------------

fn ws_from(s: &Vec<char>, i: usize) -> (r: usize)
    requires
        i <= s.len(),
    ensures
        r as int == sp_ws(s@, i as int),
        i <= r <= s.len(),
    decreases s.len() - i,
{
    if i < s.len() && (s[i] == ' ' || s[i] == '\t' || s[i] == '\n' || s[i] == '\r') {
        ws_from(s, i + 1)
    } else {
        i
    }
}

fn p_digits(s: &Vec<char>, i: usize, acc: u64) -> (r: Option<(u64, usize)>)
    requires
        i <= s.len(),
    ensures
        match r {
            Some((m, j)) => sp_digits(s@, i as int, acc as nat) == Some((m as nat, j as int)) && i
                <= j <= s.len(),
            None => sp_digits(s@, i as int, acc as nat) is None,
        },
        r is Some && i < s.len() && is_digit(s@[i as int]) ==> (i as int) < r->Some_0.1,
    decreases s.len() - i,
{
    if i < s.len() && '0' <= s[i] && s[i] <= '9' {
        let d: u64 = ((s[i] as u32) - ('0' as u32)) as u64;
        let t: u128 = (acc as u128) * 10 + (d as u128);
        if t > u64::MAX as u128 {
            None
        } else {
            p_digits(s, i + 1, t as u64)
        }
    } else {
        Some((acc, i))
    }
}

fn p_number(s: &Vec<char>, i: usize) -> (r: Option<(Json, usize)>)
    requires
        i <= s.len(),
    ensures
        match r {
            Some((v, j)) => sp_number(s@, i as int) == Some((v@, j as int)) && i < j <= s.len(),
            None => sp_number(s@, i as int) is None,
        },
{
    if i >= s.len() {
        return None;
    }
    let neg = s[i] == '-';
    let i1 = if neg {
        i + 1
    } else {
        i
    };
    if i1 >= s.len() {
        return None;
    }
    let c = s[i1];
    if !('0' <= c && c <= '9') {
        return None;
    }
    let ip = if c == '0' {
        Some((0u64, i1 + 1))
    } else {
        p_digits(s, i1, 0)
    };
    match ip {
        None => None,
        Some((mant0, j)) => {
            if j < s.len() && s[j] == '.' {
                if j + 1 >= s.len() {
                    return None;
                }
                let c2 = s[j + 1];
                if !('0' <= c2 && c2 <= '9') {
                    return None;
                }
                match p_digits(s, j + 1, mant0) {
                    None => None,
                    Some((mant, k)) => {
                        let sc = k - (j + 1);
                        if sc > u32::MAX as usize {
                            None
                        } else {
                            Some((Json::Num(Dec { neg, mant, scale: sc as u32 }), k))
                        }
                    },
                }
            } else {
                Some((Json::Num(Dec { neg, mant: mant0, scale: 0 }), j))
            }
        },
    }
}

fn p_string(s: &Vec<char>, i: usize, acc: Vec<char>) -> (r: Option<(Vec<char>, usize)>)
    requires
        i <= s.len(),
    ensures
        match r {
            Some((cs, j)) => sp_string(s@, i as int, acc@) == Some((cs@, j as int)) && i < j
                <= s.len(),
            None => sp_string(s@, i as int, acc@) is None,
        },
    decreases s.len() - i,
{
    if i >= s.len() {
        return None;
    }
    let c = s[i];
    if c == '"' {
        Some((acc, i + 1))
    } else if c == '\\' {
        if i + 1 >= s.len() {
            return None;
        }
        let e = s[i + 1];
        let mut acc2 = acc;
        if e == '"' {
            acc2.push('"');
            p_string(s, i + 2, acc2)
        } else if e == '\\' {
            acc2.push('\\');
            p_string(s, i + 2, acc2)
        } else if e == '/' {
            acc2.push('/');
            p_string(s, i + 2, acc2)
        } else if e == 'n' {
            acc2.push('\n');
            p_string(s, i + 2, acc2)
        } else if e == 't' {
            acc2.push('\t');
            p_string(s, i + 2, acc2)
        } else if e == 'r' {
            acc2.push('\r');
            p_string(s, i + 2, acc2)
        } else if e == 'b' {
            acc2.push('\u{8}');
            p_string(s, i + 2, acc2)
        } else if e == 'f' {
            acc2.push('\u{c}');
            p_string(s, i + 2, acc2)
        } else {
            None
        }
    } else if (c as u32) < 32 {
        None
    } else {
        let mut acc2 = acc;
        acc2.push(c);
        p_string(s, i + 1, acc2)
    }
}

fn p_value(s: &Vec<char>, i: usize) -> (r: Option<(Json, usize)>)
    requires
        i <= s.len(),
    ensures
        match r {
            Some((v, j)) => sp_value(s@, i as int) == Some((v@, j as int)) && i < j <= s.len(),
            None => sp_value(s@, i as int) is None,
        },
    decreases s.len() - i, 2int,
{
    if i >= s.len() {
        return None;
    }
    let c = s[i];
    if c == 'n' {
        if s.len() - i >= 4 && s[i + 1] == 'u' && s[i + 2] == 'l' && s[i + 3] == 'l' {
            Some((Json::Null, i + 4))
        } else {
            None
        }
    } else if c == 't' {
        if s.len() - i >= 4 && s[i + 1] == 'r' && s[i + 2] == 'u' && s[i + 3] == 'e' {
            Some((Json::Bool(true), i + 4))
        } else {
            None
        }
    } else if c == 'f' {
        if s.len() - i >= 5 && s[i + 1] == 'a' && s[i + 2] == 'l' && s[i + 3] == 's' && s[i + 4]
            == 'e' {
            Some((Json::Bool(false), i + 5))
        } else {
            None
        }
    } else if c == '"' {
        match p_string(s, i + 1, Vec::new()) {
            Some((cs, j)) => {
                let st = chars_to_string(&cs);
                Some((Json::Str(st), j))
            },
            None => None,
        }
    } else if c == '[' {
        let k = ws_from(s, i + 1);
        if k < s.len() && s[k] == ']' {
            let v: Vec<Json> = Vec::new();
            proof {
                crate::json::lemma_arr_view(v);
                assert(crate::json::arr_view(v@) =~= Seq::<JsonV>::empty());
            }
            Some((Json::Arr(v), k + 1))
        } else {
            match p_elems(s, i + 1) {
                Some((vs, j)) => {
                    proof {
                        crate::json::lemma_arr_view(vs);
                    }
                    Some((Json::Arr(vs), j))
                },
                None => None,
            }
        }
    } else if c == '{' {
        let k = ws_from(s, i + 1);
        if k < s.len() && s[k] == '}' {
            let v: Vec<(String, Json)> = Vec::new();
            proof {
                crate::json::lemma_obj_view(v);
                assert(crate::json::fields_view(v@) =~= Seq::<(Seq<char>, JsonV)>::empty());
            }
            Some((Json::Obj(v), k + 1))
        } else {
            match p_members(s, i + 1) {
                Some((fs, j)) => {
                    proof {
                        crate::json::lemma_obj_view(fs);
                    }
                    Some((Json::Obj(fs), j))
                },
                None => None,
            }
        }
    } else if c == '-' || ('0' <= c && c <= '9') {
        p_number(s, i)
    } else {
        None
    }
}

fn p_elems(s: &Vec<char>, i: usize) -> (r: Option<(Vec<Json>, usize)>)
    requires
        i <= s.len(),
    ensures
        match r {
            Some((vs, j)) => sp_elems(s@, i as int) == Some(
                (crate::json::arr_view(vs@), j as int),
            ) && i < j <= s.len(),
            None => sp_elems(s@, i as int) is None,
        },
    decreases s.len() - i, 3int,
{
    let i0 = ws_from(s, i);
    match p_value(s, i0) {
        None => None,
        Some((v, j)) => {
            let k = ws_from(s, j);
            if k >= s.len() {
                None
            } else if s[k] == ']' {
                let mut out: Vec<Json> = Vec::new();
                out.push(v);
                proof {
                    assert(crate::json::arr_view(out@) =~= seq![out@[0]@]);
                }
                Some((out, k + 1))
            } else if s[k] == ',' {
                match p_elems(s, k + 1) {
                    None => None,
                    Some((rest, end)) => {
                        let ghost restv = crate::json::arr_view(rest@);
                        let mut out: Vec<Json> = Vec::new();
                        out.push(v);
                        let mut r2 = rest;
                        out.append(&mut r2);
                        proof {
                            assert(crate::json::arr_view(out@) =~= seq![out@[0]@] + restv);
                        }
                        Some((out, end))
                    },
                }
            } else {
                None
            }
        },
    }
}

fn p_members(s: &Vec<char>, i: usize) -> (r: Option<(Vec<(String, Json)>, usize)>)
    requires
        i <= s.len(),
    ensures
        match r {
            Some((fs, j)) => sp_members(s@, i as int) == Some(
                (crate::json::fields_view(fs@), j as int),
            ) && i < j <= s.len(),
            None => sp_members(s@, i as int) is None,
        },
    decreases s.len() - i, 3int,
{
    let i0 = ws_from(s, i);
    if i0 >= s.len() || s[i0] != '"' {
        return None;
    }
    match p_string(s, i0 + 1, Vec::new()) {
        None => None,
        Some((keycs, j)) => {
            let key = chars_to_string(&keycs);
            let k = ws_from(s, j);
            if k >= s.len() {
                return None;
            }
            if s[k] != ':' {
                return None;
            }
            let m = ws_from(s, k + 1);
            match p_value(s, m) {
                None => None,
                Some((v, n)) => {
                    let p = ws_from(s, n);
                    if p >= s.len() {
                        None
                    } else if s[p] == '}' {
                        let mut out: Vec<(String, Json)> = Vec::new();
                        out.push((key, v));
                        proof {
                            assert(crate::json::fields_view(out@) =~= seq![
                                (out@[0].0@, out@[0].1@),
                            ]);
                        }
                        Some((out, p + 1))
                    } else if s[p] == ',' {
                        match p_members(s, p + 1) {
                            None => None,
                            Some((rest, end)) => {
                                let ghost restv = crate::json::fields_view(rest@);
                                let mut out: Vec<(String, Json)> = Vec::new();
                                out.push((key, v));
                                let mut r2 = rest;
                                out.append(&mut r2);
                                proof {
                                    assert(crate::json::fields_view(out@) =~= seq![
                                        (out@[0].0@, out@[0].1@),
                                    ] + restv);
                                }
                                Some((out, end))
                            },
                        }
                    } else {
                        None
                    }
                },
            }
        },
    }
}

/// Parses a whole document, when the text is one value surrounded by
/// blanks only.
pub fn parse_json_text(s: &str) -> (r: Option<Json>)
    ensures
        match r {
            Some(j) => sp_json(s@) == Some(j@),
            None => sp_json(s@) is None,
        },
{
    let cs = crate::strutil::str_chars(s);
    let i = ws_from(&cs, 0);
    match p_value(&cs, i) {
        None => None,
        Some((v, j)) => {
            let k = ws_from(&cs, j);
            if k == cs.len() {
                Some(v)
            } else {
                None
            }
        },
    }
}

} // verus!
