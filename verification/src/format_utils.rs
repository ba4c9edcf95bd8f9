//! Fixed-point decimal formatter: renders a fixed-point value into a
//! fixed-capacity string of decimal digits — integer part with leading zeros
//! suppressed (but always at least the ones digit), a decimal point, and
//! exactly the requested number of fractional digits, zero-padded on the
//! right. Digits are extracted with pure integer arithmetic; nothing here
//! allocates beyond the output buffer or touches floating point.

use vstd::prelude::*;
use vstd::arithmetic::div_mod::{
    lemma_div_by_multiple, lemma_div_denominator, lemma_div_is_ordered,
    lemma_fundamental_div_mod, lemma_multiply_divide_lt, lemma_small_div_converse,
    lemma_small_mod,
};
use vstd::arithmetic::mul::lemma_mul_inequality;
use crate::fixpoint::Fix;
use crate::hstring::{str7_bytes, str7_new, str7_push};

verus! {

/// The byte of the decimal point.
pub const DOT: u8 = 0x2E;

/// The byte of the digit zero.
pub const ZERO_DIGIT: u8 = 0x30;

/// Ten to the power `k`.
pub open spec fn pow10(k: nat) -> nat
    decreases k,
{
    if k == 0 {
        1
    } else {
        10 * pow10((k - 1) as nat)
    }
}

/// Every power of ten is positive.
pub proof fn lemma_pow10_pos(k: nat)
    ensures
        pow10(k) >= 1,
    decreases k,
{
    if k > 0 {
        lemma_pow10_pos((k - 1) as nat);
    }
}

/// Powers of ten grow with the exponent.
pub proof fn lemma_pow10_monotone(a: nat, b: nat)
    requires
        a <= b,
    ensures
        pow10(a) <= pow10(b),
    decreases b,
{
    if a < b {
        lemma_pow10_monotone(a, (b - 1) as nat);
        lemma_pow10_pos((b - 1) as nat);
    }
}

/// The largest power of ten a 64-bit word holds.
proof fn lemma_pow10_19()
    ensures
        pow10(19) == 10_000_000_000_000_000_000,
{
    reveal_with_fuel(pow10, 21);
}

/// Ten to the power `k`, computed.
pub fn pow10_u64(k: usize) -> (r: u64)
    requires
        k <= 19,
    ensures
        r == pow10(k as nat),
{
    let mut r: u64 = 1;
    let mut i: usize = 0;
    while i < k
        invariant
            i <= k <= 19,
            r == pow10(i as nat),
        decreases k - i,
    {
        proof {
            lemma_pow10_monotone((i + 1) as nat, 19);
            lemma_pow10_19();
            assert(pow10((i + 1) as nat) == 10 * pow10(i as nat));
        }
        r = r * 10;
        i = i + 1;
    }
    r
}

/// The decimal digit string of a non-negative number: most significant digit
/// first, no leading zeros, at least one digit.
pub open spec fn spec_dec(n: int) -> Seq<u8>
    decreases n when n >= 0
{
    if n < 10 {
        seq![(ZERO_DIGIT + n) as u8]
    } else {
        spec_dec(n / 10).push((ZERO_DIGIT + n % 10) as u8)
    }
}

/// The integer part a format call shows: the value's whole units, reduced to
/// the window of the requested number of integer digits.
pub open spec fn spec_int_shown(b: int, int_digits: nat) -> int {
    (b / 256) % (pow10(int_digits) as int)
}

/// The `k`-th fractional decimal digit (`k >= 1`) of the fixed-point value
/// with raw bits `b`.
pub open spec fn spec_frac_digit(b: int, k: nat) -> int {
    (b * pow10(k) / 256) % 10
}

/// The digit bytes of the first `frac_digits` fractional digits.
pub open spec fn spec_frac_seq(b: int, frac_digits: nat) -> Seq<u8> {
    Seq::new(frac_digits, |j: int| (ZERO_DIGIT + spec_frac_digit(b, (j + 1) as nat)) as u8)
}

/// The full formatted text of the fixed-point value with raw bits `b`:
/// integer part without leading zeros, decimal point, and exactly
/// `frac_digits` fractional digits.
pub open spec fn spec_format(b: int, int_digits: nat, frac_digits: nat) -> Seq<u8> {
    spec_dec(spec_int_shown(b, int_digits)) + seq![DOT] + spec_frac_seq(b, frac_digits)
}

/// A decimal digit string is made of digit bytes and never starts with a
/// zero unless it is the single digit 0.
proof fn lemma_spec_dec_shape(n: int)
    requires
        0 <= n,
    ensures
        spec_dec(n).len() >= 1,
        forall|i: int|
            0 <= i < spec_dec(n).len() ==> ZERO_DIGIT <= #[trigger] spec_dec(n)[i] <= 0x39,
        spec_dec(n).len() > 1 ==> spec_dec(n)[0] != ZERO_DIGIT,
        n >= 10 ==> spec_dec(n).len() > 1,
    decreases n,
{
    if n < 10 {
    } else {
        lemma_spec_dec_shape(n / 10);
        if spec_dec(n / 10).len() == 1 {
            assert(n / 10 >= 1) by {
                lemma_div_is_ordered(10, n, 10);
            }
        }
    }
}

/// Formatter correctness, the general shape: the integer part never shows a
/// leading zero beyond the ones digit. A formatted value starts with the
/// digit 0 only when its whole shown integer part is the single digit 0.
pub proof fn lemma_no_leading_zero(b: int, int_digits: nat, frac_digits: nat)
    requires
        0 <= b,
    ensures
        spec_format(b, int_digits, frac_digits).len() > frac_digits + 2 ==> spec_format(
            b,
            int_digits,
            frac_digits,
        )[0] != ZERO_DIGIT,
{
    lemma_pow10_pos(int_digits);
    let iv = spec_int_shown(b, int_digits);
    lemma_spec_dec_shape(iv);
    assert(spec_format(b, int_digits, frac_digits)[0] == spec_dec(iv)[0]);
}

/// The character for one decimal digit.
pub open spec fn spec_digit_char(digit: int) -> char {
    if digit == 0 {
        '0'
    } else if digit == 1 {
        '1'
    } else if digit == 2 {
        '2'
    } else if digit == 3 {
        '3'
    } else if digit == 4 {
        '4'
    } else if digit == 5 {
        '5'
    } else if digit == 6 {
        '6'
    } else if digit == 7 {
        '7'
    } else if digit == 8 {
        '8'
    } else {
        '9'
    }
}

/// The character for a single decimal digit; anything above 9 has none.
pub fn digit_to_char(digit: usize) -> (r: Option<char>)
    ensures
        r is Some <==> digit <= 9,
        digit <= 9 ==> r == Some(spec_digit_char(digit as int)),
{
    match digit {
        0 => Some('0'),
        1 => Some('1'),
        2 => Some('2'),
        3 => Some('3'),
        4 => Some('4'),
        5 => Some('5'),
        6 => Some('6'),
        7 => Some('7'),
        8 => Some('8'),
        9 => Some('9'),
        _ => None,
    }
}

/// Render a fixed-point value as decimal digit bytes: up to `int_digits`
/// integer digits with leading zeros suppressed (the ones digit always
/// shown), the decimal point, and exactly `frac_digits` fractional digits.
pub fn format_fixed(v: Fix, int_digits: usize, frac_digits: usize) -> (out: Vec<u8>)
    requires
        1 <= int_digits <= 19,
        frac_digits <= 19,
        v@ * pow10(frac_digits as nat) <= u64::MAX,
    ensures
        out@ == spec_format(v@, int_digits as nat, frac_digits as nat),
        forall|i: int| 0 <= i < out@.len() ==> #[trigger] out@[i] < 128,
{
    let ghost b = v@;
    let bits = v.bits();
    let q = bits / 256;
    proof {
        lemma_pow10_pos(int_digits as nat);
        lemma_pow10_monotone(int_digits as nat, 19);
        lemma_pow10_19();
    }
    let p_int = pow10_u64(int_digits);
    let w = q % p_int;
    let mut out: Vec<u8> = Vec::new();
    let mut leading_zero = true;
    let mut k: usize = int_digits;
    while k > 0
        invariant
            k <= int_digits <= 19,
            w == spec_int_shown(b, int_digits as nat),
            leading_zero ==> out@.len() == 0 && (w as int) < pow10(k as nat) && k >= 1,
            !leading_zero ==> out@ == spec_dec((w as int) / (pow10(k as nat) as int)) && (k > 0
                ==> w >= pow10(k as nat)),
            forall|i: int| 0 <= i < out@.len() ==> #[trigger] out@[i] < 128,
        decreases k,
    {
        let ghost k_old = k as nat;
        k = k - 1;
        proof {
            lemma_pow10_pos(k as nat);
            lemma_pow10_monotone(k as nat, 19);
            lemma_pow10_19();
            assert(pow10(k_old) == 10 * pow10(k as nat));
        }
        let pk = pow10_u64(k);
        let digit = (w / pk) % 10;
        if leading_zero && digit == 0 && k > 0 {
            proof {
                lemma_multiply_divide_lt(w as int, pk as int, 10);
                lemma_small_mod(((w as int) / (pk as int)) as nat, 10);
                lemma_small_div_converse(w as int, pk as int);
                assert((w as int) < pow10(k as nat));
            }
        } else {
            out.push(ZERO_DIGIT + digit as u8);
            proof {
                let u = (w as int) / (pk as int);
                if leading_zero {
                    lemma_multiply_divide_lt(w as int, pk as int, 10);
                    lemma_small_mod(u as nat, 10);
                    assert(digit == u);
                    if digit != 0 {
                        lemma_fundamental_div_mod(w as int, pk as int);
                        lemma_mul_inequality(1, u, pk as int);
                    }
                    assert(out@ =~= spec_dec(u));
                } else {
                    assert(w >= 10 * pow10(k as nat));
                    lemma_div_is_ordered(10 * (pk as int), w as int, pk as int);
                    lemma_div_by_multiple(10, pk as int);
                    assert(u >= 10);
                    lemma_div_denominator(w as int, pk as int, 10);
                    assert(u / 10 == (w as int) / (pow10(k_old) as int));
                    assert(spec_dec(u) == spec_dec(u / 10).push((ZERO_DIGIT + u % 10) as u8));
                    assert(out@ =~= spec_dec(u));
                }
            }
            leading_zero = false;
        }
    }
    proof {
        assert(pow10(0) == 1);
        assert((w as int) / 1int == w as int);
        assert(out@ == spec_dec(w as int));
    }
    out.push(DOT);
    let ghost head = spec_dec(spec_int_shown(b, int_digits as nat)) + seq![DOT];
    proof {
        assert(out@ =~= head);
    }
    let mut j: usize = 0;
    let mut p: u64 = 1;
    while j < frac_digits
        invariant
            j <= frac_digits <= 19,
            p == pow10(j as nat),
            bits == b,
            b * pow10(frac_digits as nat) <= u64::MAX,
            head == spec_dec(spec_int_shown(b, int_digits as nat)) + seq![DOT],
            out@ == head + spec_frac_seq(b, j as nat),
            forall|i: int| 0 <= i < out@.len() ==> #[trigger] out@[i] < 128,
        decreases frac_digits - j,
    {
        proof {
            lemma_pow10_pos(frac_digits as nat);
            lemma_pow10_monotone((j + 1) as nat, frac_digits as nat);
            lemma_pow10_monotone((j + 1) as nat, 19);
            lemma_pow10_19();
            assert(pow10((j + 1) as nat) == 10 * pow10(j as nat));
            lemma_mul_inequality(
                pow10((j + 1) as nat) as int,
                pow10(frac_digits as nat) as int,
                b,
            );
        }
        let p_next = p * 10;
        let num = bits * p_next;
        let digit = (num / 256) % 10;
        out.push(ZERO_DIGIT + digit as u8);
        proof {
            assert(digit == spec_frac_digit(b, (j + 1) as nat));
            assert(out@ =~= head + spec_frac_seq(b, (j + 1) as nat));
        }
        p = p_next;
        j = j + 1;
    }
    proof {
        assert(out@ == spec_format(b, int_digits as nat, frac_digits as nat));
    }
    out
}

/// Why a formatted value could not be delivered.
#[derive(Clone, Copy, PartialEq, Eq, Structural, Debug)]
pub enum FormatError {
    /// The formatted text would not fit the destination buffer.
    Capacity,
}

/// Render a frequency value for the display: up to 4 integer digits and
/// exactly 3 fractional digits, in a 7-byte buffer. A value whose shown
/// integer part needs more than 3 digits does not fit and is reported as a
/// capacity error rather than truncated.
pub fn format_freq(freq: Fix) -> (r: Result<heapless::String<7>, FormatError>)
    requires
        freq@ * 1000 <= u64::MAX,
    ensures
        r is Ok <==> spec_format(freq@, 4, 3).len() <= 7,
        r is Ok ==> str7_bytes(r->Ok_0) == spec_format(freq@, 4, 3),
        r is Ok ==> forall|i: int|
            0 <= i < str7_bytes(r->Ok_0).len() ==> #[trigger] str7_bytes(r->Ok_0)[i] < 128,
{
    proof {
        assert(pow10(3) == 1000) by {
            reveal_with_fuel(pow10, 4);
        }
    }
    let digits = format_fixed(freq, 4, 3);
    if digits.len() > 7 {
        Err(FormatError::Capacity)
    } else {
        let mut s = str7_new();
        let mut i: usize = 0;
        while i < digits.len()
            invariant
                i <= digits.len() <= 7,
                digits@ == spec_format(freq@, 4, 3),
                str7_bytes(s) == digits@.take(i as int),
                forall|n: int| 0 <= n < digits@.len() ==> #[trigger] digits@[n] < 128,
            decreases digits.len() - i,
        {
            match str7_push(&mut s, digits[i]) {
                Ok(_) => {},
                Err(_) => {
                    proof {
                        assert(false);
                    }
                },
            }
            proof {
                assert(str7_bytes(s) =~= digits@.take(i + 1));
            }
            i = i + 1;
        }
        proof {
            assert(str7_bytes(s) =~= digits@);
        }
        Ok(s)
    }
}

} // verus!
