//! Confidence scores.
//!
//! A provider scores a sense with a single-precision binary number. The
//! library keeps the 32 bits of that number (IEEE 754 binary32: one sign bit,
//! eight exponent bits, 23 fraction bits) and works on them with integers
//! only: it orders scores and writes them with three decimal places.

use vstd::prelude::*;
use vstd::string::*;
use vstd::arithmetic::power2::*;
use vstd::arithmetic::div_mod::*;
use vstd::arithmetic::mul::*;

verus! {

/// `n / d`, rounded to the nearest integer; a tie goes to the even one.
pub open spec fn round_half_even(n: nat, d: nat) -> nat
    recommends
        d > 0,
{
    let q = n / d;
    let r = n % d;
    if 2 * r > d || (2 * r == d && q % 2 == 1) {
        q + 1
    } else {
        q
    }
}

/// The character of one decimal digit.
pub open spec fn digit_char(d: nat) -> char
    recommends
        d < 10,
{
    if d == 0 {
        '0'
    } else if d == 1 {
        '1'
    } else if d == 2 {
        '2'
    } else if d == 3 {
        '3'
    } else if d == 4 {
        '4'
    } else if d == 5 {
        '5'
    } else if d == 6 {
        '6'
    } else if d == 7 {
        '7'
    } else if d == 8 {
        '8'
    } else {
        '9'
    }
}

/// The decimal numeral of `n`, without leading zeros.
pub open spec fn decimal(n: nat) -> Seq<char>
    decreases n,
{
    if n < 10 {
        seq![digit_char(n)]
    } else {
        decimal(n / 10).push(digit_char(n % 10))
    }
}

/// The three decimal digits of `n % 1000`, leading zeros kept.
pub open spec fn three_digits(n: nat) -> Seq<char> {
    seq![digit_char((n / 100) % 10), digit_char((n / 10) % 10), digit_char(n % 10)]
}

/// A score, as the bits of a single-precision binary number.
#[derive(Copy, Clone, Debug, PartialEq, Eq, Structural)]
pub struct Confidence {
    pub bits: u32,
}

impl Confidence {
    /// Whether the sign bit is set.
    pub open spec fn negative(self) -> bool {
        self.bits >= 0x8000_0000
    }

    /// The eight exponent bits.
    pub open spec fn exponent(self) -> nat {
        ((self.bits as nat) / 0x80_0000) % 256
    }

    /// The 23 fraction bits.
    pub open spec fn fraction(self) -> nat {
        (self.bits as nat) % 0x80_0000
    }

    /// Whether the bits stand for a number (not an infinity, not a NaN).
    pub open spec fn finite(self) -> bool {
        self.exponent() != 255
    }

    /// The significand: the magnitude is `mantissa() * 2^(-scale())`.
    pub open spec fn mantissa(self) -> nat {
        if self.exponent() == 0 {
            self.fraction()
        } else {
            self.fraction() + 0x80_0000
        }
    }

    /// The power of two that the significand is divided by.
    pub open spec fn scale(self) -> int {
        if self.exponent() == 0 {
            149
        } else {
            150 - self.exponent()
        }
    }

    /// A thousand times the magnitude, rounded to the nearest integer, a tie
    /// to the even one.
    pub open spec fn thousandths(self) -> nat {
        if self.scale() <= 0 {
            self.mantissa() * pow2((-self.scale()) as nat) * 1000
        } else {
            round_half_even(self.mantissa() * 1000, pow2(self.scale() as nat))
        }
    }

    /// The place of the score in the total order of single-precision
    /// numbers: negative numbers below positive ones, `-0` below `+0`,
    /// greater magnitudes further from zero, NaNs at the two ends.
    pub open spec fn rank(self) -> int {
        if self.negative() {
            0x7fff_ffff - self.bits
        } else {
            self.bits as int
        }
    }

    /// The score written with three decimal places: an optional `-`, the
    /// whole part, a point and three digits; `inf`, `-inf` and `NaN` for the
    /// bits that stand for no number.
    pub open spec fn text(self) -> Seq<char> {
        if !self.finite() {
            if self.fraction() != 0 {
                "NaN"@
            } else if self.negative() {
                "-inf"@
            } else {
                "inf"@
            }
        } else {
            let sign = if self.negative() { "-"@ } else { Seq::<char>::empty() };
            sign + decimal(self.thousandths() / 1000) + "."@ + three_digits(self.thousandths())
        }
    }

    /// The score with the given bits.
    pub fn from_bits(bits: u32) -> (score: Confidence)
        ensures
            score.bits == bits,
    {
        Confidence { bits }
    }

    /// The bits of the score.
    pub fn to_bits(&self) -> (bits: u32)
        ensures
            bits == self.bits,
    {
        self.bits
    }

    /// The score's place in the total order; see [`Confidence::rank`].
    pub fn order_key(&self) -> (key: i64)
        ensures
            key == self.rank(),
    {
        if self.bits >= 0x8000_0000 {
            0x7fff_ffff - (self.bits as i64)
        } else {
            self.bits as i64
        }
    }

    /// The whole part and the three decimals of the rounded magnitude.
    fn rounded(&self) -> (parts: (u128, u16))
        requires
            self.finite(),
        ensures
            parts.0 == self.thousandths() / 1000,
            parts.1 == self.thousandths() % 1000,
    {
        let exponent: u32 = (self.bits / 0x80_0000) % 256;
        let fraction: u32 = self.bits % 0x80_0000;
        if exponent >= 150 {
            let mantissa: u128 = (fraction + 0x80_0000) as u128;
            let shift: u32 = exponent - 150;
            let power = power_of_two(shift);
            proof {
                lemma_pow2_bounds();
                if shift < 104 {
                    lemma_pow2_strictly_increases(shift as nat, 104);
                }
                lemma_mul_inequality(power as int, pow2(104) as int, mantissa as int);
                lemma_mul_is_commutative(power as int, mantissa as int);
                lemma_mul_is_commutative(pow2(104) as int, mantissa as int);
                lemma_mul_inequality(mantissa as int, 0x100_0000, pow2(104) as int);
            }
            (mantissa * power, 0)
        } else {
            let mantissa: u64 = if exponent == 0 {
                fraction as u64
            } else {
                (fraction + 0x80_0000) as u64
            };
            let shift: u32 = if exponent == 0 {
                149
            } else {
                150 - exponent
            };
            let scaled: u64 = mantissa * 1000;
            let rounded: u64 = if shift >= 36 {
                proof {
                    lemma_pow2_bounds();
                    if shift > 36 {
                        lemma_pow2_strictly_increases(36, shift as nat);
                    }
                    lemma_basic_div(scaled as int, pow2(shift as nat) as int);
                    lemma_small_mod(scaled as nat, pow2(shift as nat));
                }
                0
            } else {
                let wide = power_of_two(shift);
                proof {
                    lemma_pow2_bounds();
                    lemma_pow2_strictly_increases(shift as nat, 36);
                    lemma_pow2_pos(shift as nat);
                }
                let power = wide as u64;
                let quotient = scaled / power;
                let remainder = scaled % power;
                if 2 * remainder > power || (2 * remainder == power && quotient % 2 == 1) {
                    proof {
                        lemma_fundamental_div_mod(scaled as int, power as int);
                        lemma_mul_inequality(1, power as int, quotient as int);
                    }
                    quotient + 1
                } else {
                    quotient
                }
            };
            ((rounded / 1000) as u128, (rounded % 1000) as u16)
        }
    }

    /// Write the score with three decimal places.
    pub fn to_text(&self) -> (text: String)
        ensures
            text@ == self.text(),
    {
        let exponent: u32 = (self.bits / 0x80_0000) % 256;
        let fraction: u32 = self.bits % 0x80_0000;
        let negative = self.bits >= 0x8000_0000;
        if exponent == 255 {
            if fraction != 0 {
                String::from_str("NaN")
            } else if negative {
                String::from_str("-inf")
            } else {
                String::from_str("inf")
            }
        } else {
            let (whole, rest) = self.rounded();
            let mut text = if negative {
                String::from_str("-")
            } else {
                String::new()
            };
            let whole_text = decimal_text(whole);
            text.append(whole_text.as_str());
            text.append(".");
            text.append(digit_text(((rest / 100) % 10) as u8));
            text.append(digit_text(((rest / 10) % 10) as u8));
            text.append(digit_text((rest % 10) as u8));
            proof {
                let t = self.thousandths();
                assert((t % 1000) / 100 % 10 == (t / 100) % 10);
                assert((t % 1000) / 10 % 10 == (t / 10) % 10);
                assert((t % 1000) % 10 == t % 10);
                assert(text@ =~= self.text());
            }
            text
        }
    }
}

/// The score that a sense without one is ordered by: zero.
pub open spec fn rank_or_zero(score: Option<Confidence>) -> int {
    match score {
        Some(c) => c.rank(),
        None => 0,
    }
}

/// The place in the total order of a score that may be missing; see
/// [`rank_or_zero`].
pub fn order_key_or_zero(score: &Option<Confidence>) -> (key: i64)
    ensures
        key == rank_or_zero(*score),
{
    match score {
        Some(confidence) => confidence.order_key(),
        None => 0,
    }
}

/// The values of the powers of two that bound the arithmetic on scores.
proof fn lemma_pow2_bounds()
    ensures
        pow2(36) == 0x10_0000_0000,
        pow2(104) == 0x100_0000_0000_0000_0000_0000_0000,
        pow2(104) * 0x100_0000 == 0x1_0000_0000_0000_0000_0000_0000_0000_0000,
{
    lemma2_to64();
    lemma_pow2_adds(32, 4);
    lemma_pow2_adds(32, 8);
    lemma_pow2_adds(64, 40);
}

/// Two to the power `e`.
fn power_of_two(e: u32) -> (p: u128)
    requires
        e <= 104,
    ensures
        p == pow2(e as nat),
{
    let mut p: u128 = 1;
    let mut i: u32 = 0;
    proof {
        lemma2_to64();
    }
    while i < e
        invariant
            i <= e,
            e <= 104,
            p == pow2(i as nat),
        decreases e - i,
    {
        proof {
            lemma_pow2_bounds();
            lemma_pow2_strictly_increases(i as nat, 104);
            lemma_pow2_unfold((i + 1) as nat);
        }
        p = p * 2;
        i = i + 1;
    }
    p
}

/// One decimal digit as text.
fn digit_text(d: u8) -> (text: &'static str)
    requires
        d < 10,
    ensures
        text@ == seq![digit_char(d as nat)],
{
    proof {
        reveal_strlit("0");
        reveal_strlit("1");
        reveal_strlit("2");
        reveal_strlit("3");
        reveal_strlit("4");
        reveal_strlit("5");
        reveal_strlit("6");
        reveal_strlit("7");
        reveal_strlit("8");
        reveal_strlit("9");
    }
    let text = if d == 0 {
        "0"
    } else if d == 1 {
        "1"
    } else if d == 2 {
        "2"
    } else if d == 3 {
        "3"
    } else if d == 4 {
        "4"
    } else if d == 5 {
        "5"
    } else if d == 6 {
        "6"
    } else if d == 7 {
        "7"
    } else if d == 8 {
        "8"
    } else {
        "9"
    };
    assert(text@ =~= seq![digit_char(d as nat)]);
    text
}

/// The decimal numeral of `n`.
fn decimal_text(n: u128) -> (text: String)
    ensures
        text@ == decimal(n as nat),
    decreases n,
{
    if n < 10 {
        String::from_str(digit_text(n as u8))
    } else {
        let mut text = decimal_text(n / 10);
        text.append(digit_text((n % 10) as u8));
        assert(text@ =~= decimal(n as nat));
        text
    }
}

} // verus!
