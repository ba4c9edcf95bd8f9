//! Frequency estimator: turns a tick delta and the time it was measured
//! over into a display-ready frequency — an empirical correction for the
//! counting circuit's systematic bias, unit auto-scaling so the shown value
//! lands in [0, 1000) of its unit, and composition of the final display
//! line.

use vstd::prelude::*;
use vstd::arithmetic::div_mod::{
    lemma_div_by_multiple, lemma_div_is_ordered, lemma_div_is_ordered_by_denominator,
    lemma_multiply_divide_lt,
};
use vstd::arithmetic::mul::{lemma_mul_inequality, lemma_mul_is_commutative};
use crate::fixpoint::Fix;
use crate::format_utils::{spec_format, FormatError, format_freq};
use crate::hstring::{str32_bytes, str32_new, str32_push, str7_as_bytes, str7_bytes};

verus! {

/// The blank byte lines are padded with.
pub const SPACE: u8 = 0x20;

/// The width of one display row the composed line fills.
pub const LINE_WIDTH: usize = 16;

/// The unit a frequency estimate is expressed in.
#[derive(Clone, Copy, PartialEq, Eq, Structural, Debug)]
pub enum FreqUnit {
    MegaHertz,
    KiloHertz,
    Hertz,
}

impl FreqUnit {
    /// The unit's display label.
    pub open spec fn spec_label(self) -> Seq<u8> {
        match self {
            FreqUnit::MegaHertz => seq![0x4Du8, 0x48u8, 0x7Au8],
            FreqUnit::KiloHertz => seq![0x6Bu8, 0x48u8, 0x7Au8],
            FreqUnit::Hertz => seq![0x48u8, 0x7Au8],
        }
    }

    /// The unit's display label, as bytes: "MHz", "kHz" or "Hz".
    pub fn label_bytes(&self) -> (r: Vec<u8>)
        ensures
            r@ == self.spec_label(),
            r@.len() <= 3,
            forall|i: int| 0 <= i < r@.len() ==> #[trigger] r@[i] < 128,
    {
        let mut r: Vec<u8> = Vec::new();
        match *self {
            FreqUnit::MegaHertz => {
                r.push(0x4D);
                r.push(0x48);
                r.push(0x7A);
            },
            FreqUnit::KiloHertz => {
                r.push(0x6B);
                r.push(0x48);
                r.push(0x7A);
            },
            FreqUnit::Hertz => {
                r.push(0x48);
                r.push(0x7A);
            },
        }
        proof {
            assert(r@ =~= self.spec_label());
        }
        r
    }
}

/// How many factor-of-1000 steps the raw ticks-per-microsecond ratio is
/// scaled up by before dividing: none if the numerator already reaches the
/// denominator, and at most two (MHz down to Hz).
pub open spec fn spec_scale_steps(counts: int, interval: int) -> int {
    if counts >= interval {
        0
    } else if counts * 1000 >= interval {
        1
    } else {
        2
    }
}

/// The unit after a number of scale steps: each step divides the unit by
/// 1000, from MHz through kHz to Hz.
pub open spec fn spec_unit_for_steps(steps: int) -> FreqUnit {
    if steps == 0 {
        FreqUnit::MegaHertz
    } else if steps == 1 {
        FreqUnit::KiloHertz
    } else {
        FreqUnit::Hertz
    }
}

/// 1000 to the power of the scale step count.
pub open spec fn spec_scale_factor(steps: int) -> int {
    if steps == 0 {
        1
    } else if steps == 1 {
        1000
    } else {
        1000000
    }
}

/// The numerator after scaling.
pub open spec fn spec_scaled(counts: int, interval: int) -> int {
    counts * spec_scale_factor(spec_scale_steps(counts, interval))
}

/// Reduce a raw pulse count by the counting circuit's systematic overcount,
/// expressed as a percentage of the count. The percentage is a property of
/// the specific circuit, so it is a parameter here.
pub fn correct_counts(counts: u32, percent: u32) -> (r: u32)
    requires
        percent <= 100,
    ensures
        r == counts - counts * percent / 100,
{
    let c = counts as u64;
    proof {
        lemma_mul_inequality(percent as int, 100, c as int);
        lemma_mul_is_commutative(c as int, percent as int);
        assert((c as int) * (percent as int) <= 100 * (c as int));
    }
    let cut = c * (percent as u64) / 100;
    proof {
        lemma_div_is_ordered((c * percent) as int, (c * 100) as int, 100);
        lemma_div_by_multiple(c as int, 100);
        assert(cut <= c);
    }
    (c - cut) as u32
}

/// The correction the reference counting circuit needs: a 4 percent
/// reduction of the raw count.
pub const DEFAULT_CORRECTION_PERCENT: u32 = 4;

/// Reduce a raw pulse count by the default systematic-bias correction.
pub fn correct_frequency_counts(counts: u32) -> (r: u32)
    ensures
        r == counts - counts * 4 / 100,
{
    correct_counts(counts, DEFAULT_CORRECTION_PERCENT)
}

/// Estimate a frequency from a tick delta and the elapsed time it was
/// counted over. The numerator is scaled by 1000 (at most twice, stepping
/// the unit from MHz towards Hz) until it reaches the denominator, then the
/// division truncates: callers needing rounding add a half-step bias before
/// formatting. The two upper bounds keep every intermediate product inside a
/// 64-bit word.
pub fn get_frequency(counts: Fix, interval_micros: Fix) -> (r: (Fix, FreqUnit))
    requires
        interval_micros@ >= 1,
        counts@ * 256 <= u64::MAX,
        interval_micros@ * 256000 <= u64::MAX,
    ensures
        r.1 == spec_unit_for_steps(spec_scale_steps(counts@, interval_micros@)),
        r.0@ == spec_scaled(counts@, interval_micros@) * 256 / interval_micros@,
{
    let mut scaled = counts;
    let unit: FreqUnit;
    if !scaled.lt(&interval_micros) {
        unit = FreqUnit::MegaHertz;
    } else {
        scaled = scaled.mul_int(1000);
        if !scaled.lt(&interval_micros) {
            unit = FreqUnit::KiloHertz;
        } else {
            scaled = scaled.mul_int(1000);
            unit = FreqUnit::Hertz;
        }
    }
    let value = scaled.div(&interval_micros);
    (value, unit)
}

/// A sequence padded with blanks up to the given width; one already at or
/// beyond the width is left alone.
pub open spec fn spec_padded(s: Seq<u8>, width: nat) -> Seq<u8> {
    if s.len() >= width {
        s
    } else {
        s + Seq::new((width - s.len()) as nat, |i: int| SPACE)
    }
}

/// The display row a frequency reading composes to: a blank, the formatted
/// value, a blank, the unit label, padded with blanks to the full row width
/// so stale characters are overwritten.
pub open spec fn spec_line(text: Seq<u8>, unit: FreqUnit) -> Seq<u8> {
    spec_padded(seq![SPACE] + text + seq![SPACE] + unit.spec_label(), LINE_WIDTH as nat)
}

/// Compose the display row for a formatted frequency and its unit. The text
/// must be ASCII, which everything the formatter produces is.
pub fn compose_second_line(text: &heapless::String<7>, unit: FreqUnit) -> (line: heapless::String<
    32,
>)
    requires
        forall|m: int|
            0 <= m < str7_bytes(*text).len() ==> #[trigger] str7_bytes(*text)[m] < 128,
    ensures
        str32_bytes(line) == spec_line(str7_bytes(*text), unit),
{
    let ghost target = spec_line(str7_bytes(*text), unit);
    let text_bytes = str7_as_bytes(text);
    let label = unit.label_bytes();
    let mut line = str32_new();
    match str32_push(&mut line, SPACE) {
        Ok(_) => {},
        Err(_) => {
            proof {
                assert(false);
            }
        },
    }
    let mut n: usize = 1;
    let ghost base = seq![SPACE] + str7_bytes(*text) + seq![SPACE] + unit.spec_label();
    let mut i: usize = 0;
    while i < text_bytes.len()
        invariant
            i <= text_bytes.len() <= 7,
            text_bytes@ == str7_bytes(*text),
            n == 1 + i,
            str32_bytes(line) == seq![SPACE] + text_bytes@.take(i as int),
            forall|m: int| 0 <= m < text_bytes@.len() ==> #[trigger] text_bytes@[m] < 128,
        decreases text_bytes.len() - i,
    {
        match str32_push(&mut line, text_bytes[i]) {
            Ok(_) => {},
            Err(_) => {
                proof {
                    assert(false);
                }
            },
        }
        proof {
            assert(str32_bytes(line) =~= seq![SPACE] + text_bytes@.take(i + 1));
        }
        i = i + 1;
        n = n + 1;
    }
    match str32_push(&mut line, SPACE) {
        Ok(_) => {},
        Err(_) => {
            proof {
                assert(false);
            }
        },
    }
    n = n + 1;
    let mut j: usize = 0;
    while j < label.len()
        invariant
            j <= label.len() <= 3,
            label@ == unit.spec_label(),
            text_bytes@ == str7_bytes(*text),
            text_bytes@.len() <= 7,
            n == 2 + text_bytes@.len() + j,
            str32_bytes(line) == seq![SPACE] + text_bytes@ + seq![SPACE] + label@.take(j as int),
            forall|m: int| 0 <= m < label@.len() ==> #[trigger] label@[m] < 128,
        decreases label.len() - j,
    {
        match str32_push(&mut line, label[j]) {
            Ok(_) => {},
            Err(_) => {
                proof {
                    assert(false);
                }
            },
        }
        proof {
            assert(str32_bytes(line) =~= seq![SPACE] + text_bytes@ + seq![SPACE] + label@.take(
                j + 1,
            ));
        }
        j = j + 1;
        n = n + 1;
    }
    proof {
        assert(str32_bytes(line) =~= base);
        assert(n == base.len());
        assert(str32_bytes(line) =~= base + Seq::new((n - base.len()) as nat, |m: int| SPACE));
    }
    while n < LINE_WIDTH
        invariant
            n <= 16,
            base == seq![SPACE] + str7_bytes(*text) + seq![SPACE] + unit.spec_label(),
            base.len() <= n,
            str32_bytes(line) == base + Seq::new((n - base.len()) as nat, |m: int| SPACE),
        decreases LINE_WIDTH - n,
    {
        match str32_push(&mut line, SPACE) {
            Ok(_) => {},
            Err(_) => {
                proof {
                    assert(false);
                }
            },
        }
        proof {
            assert(str32_bytes(line) =~= base + Seq::new((n + 1 - base.len()) as nat, |m: int| SPACE));
        }
        n = n + 1;
    }
    proof {
        assert(str32_bytes(line) =~= target);
    }
    line
}

/// One control-loop iteration's computation: estimate the frequency from a
/// corrected tick delta and the elapsed time, format it, and compose the
/// display row to show. Fails only when the formatted value does not fit the
/// 7-byte value buffer.
pub fn measurement_line(delta_ticks: u32, interval_micros: u32) -> (r: Result<
    heapless::String<32>,
    FormatError,
>)
    requires
        interval_micros >= 1,
    ensures
        ({
            let c = delta_ticks * 256;
            let iv = interval_micros * 256;
            let fv = spec_scaled(c, iv) * 256 / iv;
            &&& (r is Ok <==> spec_format(fv, 4, 3).len() <= 7)
            &&& (r is Ok ==> str32_bytes(r->Ok_0) == spec_line(
                spec_format(fv, 4, 3),
                spec_unit_for_steps(spec_scale_steps(c, iv)),
            ))
        }),
{
    let counts = Fix::from_int(delta_ticks);
    let interval = Fix::from_int(interval_micros);
    let (freq, unit) = get_frequency(counts, interval);
    proof {
        let c = counts@;
        let iv = interval@;
        let s = spec_scaled(c, iv);
        if spec_scale_steps(c, iv) == 0 {
            lemma_div_is_ordered_by_denominator(c * 256, 256, iv);
            lemma_div_by_multiple(c, 256);
            assert(freq@ <= c);
        } else {
            assert(s * 256 < iv * 256000);
            lemma_multiply_divide_lt(s * 256, iv, 256000);
            assert(freq@ < 256000);
        }
    }
    match format_freq(freq) {
        Ok(text) => Ok(compose_second_line(&text, unit)),
        Err(e) => Err(e),
    }
}

} // verus!
