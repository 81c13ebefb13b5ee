//! Exact decimal numbers.
//!
//! Coordinates and weather readings arrive as decimal literals on the
//! wire.  To echo them back without any loss of precision (a binary
//! float would reformat `-122.4233`), the library keeps each number in
//! its exact decimal form: a sign, an integer mantissa and a power-of-ten
//! scale, so the value is `(-1 if neg else 1) * mant / 10^scale`.

use vstd::arithmetic::div_mod::lemma_basic_div_specific_divisor;
use vstd::arithmetic::div_mod::lemma_small_mod;
use vstd::prelude::*;

verus! {

/// An exact decimal number, value `(-1 if neg else 1) * mant / 10^scale`.
///
/// The digits of the wire literal are preserved: `61.20` is kept as
/// `mant = 6120, scale = 2`, distinct from `61.2` (`mant = 612, scale = 1`).
#[derive(Clone, Copy, Debug, PartialEq, Eq, Structural)]
pub struct Dec {
    pub neg: bool,
    pub mant: u64,
    pub scale: u32,
}

pub open spec fn pow10(k: nat) -> nat
    decreases k,
{
    if k == 0 {
        1
    } else {
        10 * pow10((k - 1) as nat)
    }
}

pub proof fn lemma_pow10_pos(k: nat)
    ensures
        pow10(k) >= 1,
    decreases k,
{
    if k > 0 {
        lemma_pow10_pos((k - 1) as nat);
    }
}

pub proof fn lemma_pow10_mono(a: nat, b: nat)
    requires
        a <= b,
    ensures
        pow10(a) <= pow10(b),
    decreases b,
{
    if a < b {
        lemma_pow10_mono(a, (b - 1) as nat);
    }
}

pub proof fn lemma_pow10_vals()
    ensures
        pow10(18) == 1000000000000000000,
        pow10(19) == 10000000000000000000,
        pow10(20) == 100000000000000000000,
{
    reveal_with_fuel(pow10, 21);
}

/// The character for one decimal digit.
pub open spec fn digit_char(d: nat) -> char {
    if d == 0 {
        '0'
    } else if d == 1 {
        '1'
    } else if d == 2 {
        '2'
    } else if d == 3 {
        '3'
    } else if d == 4 {
        '4'
    } else if d == 5 {
        '5'
    } else if d == 6 {
        '6'
    } else if d == 7 {
        '7'
    } else if d == 8 {
        '8'
    } else {
        '9'
    }
}

/// The usual base-ten rendering of `n`, most significant digit first,
/// with no leading zero except for `n == 0` itself.
pub open spec fn digits_of(n: nat) -> Seq<char>
    decreases n,
{
    if n < 10 {
        seq![digit_char(n)]
    } else {
        digits_of(n / 10).push(digit_char(n % 10))
    }
}

/// The lowest `k` decimal digits of `n`, zero padded to width `k`.
pub open spec fn frac_digits(n: nat, k: nat) -> Seq<char>
    decreases k,
{
    if k == 0 {
        Seq::empty()
    } else {
        frac_digits(n / 10, (k - 1) as nat).push(digit_char(n % 10))
    }
}

fn digit_to_char(d: u64) -> (c: char)
    requires
        d < 10,
    ensures
        c == digit_char(d as nat),
{
    if d == 0 {
        '0'
    } else if d == 1 {
        '1'
    } else if d == 2 {
        '2'
    } else if d == 3 {
        '3'
    } else if d == 4 {
        '4'
    } else if d == 5 {
        '5'
    } else if d == 6 {
        '6'
    } else if d == 7 {
        '7'
    } else if d == 8 {
        '8'
    } else {
        '9'
    }
}

pub fn digits_chars(n: u128) -> (v: Vec<char>)
    ensures
        v@ == digits_of(n as nat),
    decreases n,
{
    if n < 10 {
        let mut v: Vec<char> = Vec::new();
        v.push(digit_to_char(n as u64));
        proof {
            assert(v@ =~= digits_of(n as nat));
        }
        v
    } else {
        let mut v = digits_chars(n / 10);
        v.push(digit_to_char((n % 10) as u64));
        proof {
            assert(v@ =~= digits_of(n as nat));
        }
        v
    }
}

pub fn frac_chars(n: u64, k: u32) -> (v: Vec<char>)
    ensures
        v@ == frac_digits(n as nat, k as nat),
    decreases k,
{
    if k == 0 {
        let v: Vec<char> = Vec::new();
        proof {
            assert(v@ =~= frac_digits(n as nat, 0));
        }
        v
    } else {
        let mut v = frac_chars(n / 10, k - 1);
        v.push(digit_to_char(n % 10));
        proof {
            assert(v@ =~= frac_digits(n as nat, k as nat));
        }
        v
    }
}

pub fn pow10_u64(k: u32) -> (r: u64)
    requires
        k <= 19,
    ensures
        r as nat == pow10(k as nat),
    decreases k,
{
    if k == 0 {
        1
    } else {
        let p = pow10_u64(k - 1);
        proof {
            lemma_pow10_mono((k - 1) as nat, 18);
            lemma_pow10_vals();
        }
        10 * p
    }
}

impl Dec {
    /// The exact rendering of the number: optional `-`, the integer
    /// digits, and when `scale > 0` a `.` followed by exactly `scale`
    /// fraction digits.
    pub open spec fn chars(self) -> Seq<char> {
        let sign: Seq<char> = if self.neg {
            seq!['-']
        } else {
            Seq::empty()
        };
        if self.scale == 0 {
            sign + digits_of(self.mant as nat)
        } else {
            sign + digits_of((self.mant as nat) / pow10(self.scale as nat)) + seq!['.']
                + frac_digits(self.mant as nat, self.scale as nat)
        }
    }

    pub fn to_chars(&self) -> (v: Vec<char>)
        ensures
            v@ == self.chars(),
    {
        let mut v: Vec<char> = Vec::new();
        if self.neg {
            v.push('-');
        }
        if self.scale == 0 {
            let mut d = digits_chars(self.mant as u128);
            v.append(&mut d);
            proof {
                assert(v@ =~= self.chars());
            }
        } else {
            let ip: u64 = if self.scale <= 19 {
                let p = pow10_u64(self.scale);
                proof {
                    lemma_pow10_pos(self.scale as nat);
                }
                self.mant / p
            } else {
                proof {
                    lemma_pow10_vals();
                    lemma_pow10_mono(20, self.scale as nat);
                    lemma_pow10_pos(self.scale as nat);
                    lemma_basic_div_specific_divisor(pow10(self.scale as nat) as int);
                }
                0
            };
            assert(ip as nat == (self.mant as nat) / pow10(self.scale as nat));
            let mut d = digits_chars(ip as u128);
            v.append(&mut d);
            v.push('.');
            let mut f = frac_chars(self.mant, self.scale);
            v.append(&mut f);
            proof {
                assert(v@ =~= self.chars());
            }
        }
        v
    }

    /// The number as an unsigned integer: defined only for scale zero
    /// (the wire literal had no fraction part) and no minus sign on a
    /// nonzero value.
    pub open spec fn spec_as_u64(self) -> Option<u64> {
        if self.scale == 0 && (!self.neg || self.mant == 0) {
            Some(self.mant)
        } else {
            None
        }
    }

    pub fn as_u64(&self) -> (r: Option<u64>)
        ensures
            r == self.spec_as_u64(),
    {
        if self.scale == 0 && (!self.neg || self.mant == 0) {
            Some(self.mant)
        } else {
            None
        }
    }

    /// The number as a `u16`, when it is a whole unsigned value in range.
    pub open spec fn spec_as_u16(self) -> Option<u16> {
        match self.spec_as_u64() {
            Some(n) => if n <= u16::MAX {
                Some(n as u16)
            } else {
                None
            },
            None => None,
        }
    }

    pub fn as_u16(&self) -> (r: Option<u16>)
        ensures
            r == self.spec_as_u16(),
    {
        match self.as_u64() {
            Some(n) => if n <= 65535 {
                Some(n as u16)
            } else {
                None
            },
            None => None,
        }
    }

    /// The number as a `u8`, when it is a whole unsigned value in range.
    pub open spec fn spec_as_u8(self) -> Option<u8> {
        match self.spec_as_u64() {
            Some(n) => if n <= u8::MAX {
                Some(n as u8)
            } else {
                None
            },
            None => None,
        }
    }

    pub fn as_u8(&self) -> (r: Option<u8>)
        ensures
            r == self.spec_as_u8(),
    {
        match self.as_u64() {
            Some(n) => if n <= 255 {
                Some(n as u8)
            } else {
                None
            },
            None => None,
        }
    }

    /// The number as an `i8`, when it is a whole value in range.
    pub open spec fn spec_as_i8(self) -> Option<i8> {
        if self.scale == 0 && !self.neg && self.mant <= 127 {
            Some(self.mant as i8)
        } else if self.scale == 0 && self.neg && self.mant <= 128 {
            Some((-(self.mant as int)) as i8)
        } else {
            None
        }
    }

    pub fn as_i8(&self) -> (r: Option<i8>)
        ensures
            r == self.spec_as_i8(),
    {
        if self.scale == 0 && !self.neg && self.mant <= 127 {
            Some(self.mant as i8)
        } else if self.scale == 0 && self.neg && self.mant <= 128 {
            let m = self.mant as i64;
            Some((-m) as i8)
        } else {
            None
        }
    }

    /// `|value| * 10`, rounded to an integer, half away from zero.
    pub open spec fn tenths_round(self) -> nat {
        if self.scale == 0 {
            (self.mant as nat) * 10
        } else if self.scale == 1 {
            self.mant as nat
        } else {
            let p = pow10((self.scale - 1) as nat);
            let q = (self.mant as nat) / p;
            if 2 * ((self.mant as nat) % p) >= p {
                q + 1
            } else {
                q
            }
        }
    }

    /// The rendering of the number to exactly one fraction digit,
    /// rounded half away from zero; the minus sign is kept whenever the
    /// wire literal carried one.
    pub open spec fn fixed1(self) -> Seq<char> {
        let sign: Seq<char> = if self.neg {
            seq!['-']
        } else {
            Seq::empty()
        };
        sign + digits_of(self.tenths_round() / 10) + seq!['.', digit_char(
            self.tenths_round() % 10,
        )]
    }

    pub fn to_fixed1_chars(&self) -> (v: Vec<char>)
        ensures
            v@ == self.fixed1(),
    {
        let scaled: u128 = if self.scale == 0 {
            (self.mant as u128) * 10
        } else if self.scale == 1 {
            self.mant as u128
        } else if self.scale <= 20 {
            let p: u128 = pow10_u64(self.scale - 1) as u128;
            proof {
                lemma_pow10_pos((self.scale - 1) as nat);
            }
            let q: u128 = (self.mant as u128) / p;
            let r: u128 = (self.mant as u128) % p;
            if 2 * r >= p {
                q + 1
            } else {
                q
            }
        } else {
            proof {
                lemma_pow10_vals();
                lemma_pow10_mono(20, (self.scale - 1) as nat);
                lemma_pow10_pos((self.scale - 1) as nat);
                lemma_basic_div_specific_divisor(pow10((self.scale - 1) as nat) as int);
                lemma_small_mod(self.mant as nat, pow10((self.scale - 1) as nat));
            }
            0
        };
        assert(scaled as nat == self.tenths_round());
        let mut v: Vec<char> = Vec::new();
        if self.neg {
            v.push('-');
        }
        let mut d = digits_chars(scaled / 10);
        v.append(&mut d);
        v.push('.');
        v.push(digit_to_char((scaled % 10) as u64));
        proof {
            assert(v@ =~= self.fixed1());
        }
        v
    }
}

} // verus!
