//! Fixed-point rendering of percentages.
//!
//! A percentage is carried as a whole number of hundredths of a percent and
//! printed with exactly two decimals followed by `" %"` (`1235` prints as
//! `"12.35 %"`). A ratio is rounded to hundredths half-up: a value exactly
//! halfway between two hundredths goes to the larger one.

use vstd::prelude::*;

verus! {

/// The character of a decimal digit.
pub open spec fn digit_char(d: nat) -> char {
    if d == 0 {
        '0'
    } else if d == 1 {
        '1'
    } else if d == 2 {
        '2'
    } else if d == 3 {
        '3'
    } else if d == 4 {
        '4'
    } else if d == 5 {
        '5'
    } else if d == 6 {
        '6'
    } else if d == 7 {
        '7'
    } else if d == 8 {
        '8'
    } else {
        '9'
    }
}

/// The decimal notation of `n`, without leading zeros (`0` is `"0"`).
pub open spec fn decimal(n: nat) -> Seq<char>
    decreases n,
{
    if n < 10 {
        seq![digit_char(n)]
    } else {
        decimal(n / 10).push(digit_char(n % 10))
    }
}

/// `h` hundredths of a percent, written with two decimals and a unit.
pub open spec fn percent_chars(h: nat) -> Seq<char> {
    decimal(h / 100) + seq!['.', digit_char((h / 10) % 10), digit_char(h % 10), ' ', '%']
}

/// `num / den` rounded to the nearest whole number, halves upwards.
pub open spec fn rounded_ratio(num: nat, den: nat) -> nat
    recommends
        den > 0,
{
    (2 * num + den) / (2 * den)
}

/// The text of the ratio `num / den`, already scaled so that one unit of the
/// ratio is one hundredth of a percent. A zero denominator gives what
/// floating-point division prints: `"NaN %"` for `0 / 0`, `"inf %"` otherwise.
pub open spec fn ratio_chars(num: nat, den: nat) -> Seq<char> {
    if den == 0 {
        if num == 0 {
            "NaN %"@
        } else {
            "inf %"@
        }
    } else {
        percent_chars(rounded_ratio(num, den))
    }
}

/// The text of `memory` bytes as a share of `total` bytes.
pub open spec fn memory_chars(memory: nat, total: nat) -> Seq<char> {
    ratio_chars(memory * 10000, total)
}

/// The text of a CPU usage of `usage_ppm` millionths of one core, spread over
/// `cpu_count` cores.
pub open spec fn cpu_chars(usage_ppm: nat, cpu_count: nat) -> Seq<char> {
    ratio_chars(usage_ppm, 100 * cpu_count)
}

fn digit_str(d: u128) -> (r: &'static str)
    requires
        d < 10,
    ensures
        r@ == seq![digit_char(d as nat)],
{
    proof {
        reveal_strlit("0");
        reveal_strlit("1");
        reveal_strlit("2");
        reveal_strlit("3");
        reveal_strlit("4");
        reveal_strlit("5");
        reveal_strlit("6");
        reveal_strlit("7");
        reveal_strlit("8");
        reveal_strlit("9");
    }
    let r = if d == 0 {
        "0"
    } else if d == 1 {
        "1"
    } else if d == 2 {
        "2"
    } else if d == 3 {
        "3"
    } else if d == 4 {
        "4"
    } else if d == 5 {
        "5"
    } else if d == 6 {
        "6"
    } else if d == 7 {
        "7"
    } else if d == 8 {
        "8"
    } else {
        "9"
    };
    assert(r@ =~= seq![digit_char(d as nat)]);
    r
}

fn push_decimal(out: &mut String, n: u128)
    ensures
        final(out)@ == old(out)@ + decimal(n as nat),
    decreases n,
{
    if n >= 10 {
        push_decimal(out, n / 10);
    }
    out.append(digit_str(n % 10));
    assert(final(out)@ =~= old(out)@ + decimal(n as nat));
}

/// Writes `hundredths` hundredths of a percent with two decimals and a unit.
pub fn percent_text(hundredths: u128) -> (r: String)
    ensures
        r@ == percent_chars(hundredths as nat),
{
    let mut out = String::new();
    push_decimal(&mut out, hundredths / 100);
    proof {
        reveal_strlit(".");
        reveal_strlit(" %");
    }
    out.append(".");
    out.append(digit_str((hundredths / 10) % 10));
    out.append(digit_str(hundredths % 10));
    out.append(" %");
    assert(out@ =~= percent_chars(hundredths as nat));
    out
}

/// Writes the ratio `num / den`, scaled so that one unit is one hundredth of
/// a percent, rounded half-up.
pub fn ratio_text(num: u128, den: u128) -> (r: String)
    requires
        num <= 0x1_0000_0000_0000_0000_0000_0000,
        den <= 0x1_0000_0000_0000_0000_0000_0000,
    ensures
        r@ == ratio_chars(num as nat, den as nat),
{
    if den == 0 {
        if num == 0 {
            String::from_str("NaN %")
        } else {
            String::from_str("inf %")
        }
    } else {
        percent_text((2 * num + den) / (2 * den))
    }
}

/// Writes `memory` bytes as a percentage of `total` bytes.
pub fn memory_text(memory: u64, total: u64) -> (r: String)
    ensures
        r@ == memory_chars(memory as nat, total as nat),
{
    ratio_text(memory as u128 * 10000, total as u128)
}

/// Writes a CPU usage of `usage_ppm` millionths of one core as a percentage
/// of the capacity of `cpu_count` cores.
pub fn cpu_text(usage_ppm: u64, cpu_count: usize) -> (r: String)
    ensures
        r@ == cpu_chars(usage_ppm as nat, cpu_count as nat),
{
    ratio_text(usage_ppm as u128, 100 * cpu_count as u128)
}

/// A process never holds more memory than the system has: its share is then
/// a non-negative number of hundredths of at most one hundred percent.
pub proof fn lemma_memory_share_at_most_whole(memory: u64, total: u64)
    requires
        memory <= total,
        total > 0,
    ensures
        memory_chars(memory as nat, total as nat) == percent_chars(
            rounded_ratio(memory as nat * 10000, total as nat),
        ),
        rounded_ratio(memory as nat * 10000, total as nat) <= 10000,
{
    let m = memory as nat;
    let t = total as nat;
    assert(2 * (m * 10000) + t <= 20001 * t) by (nonlinear_arith)
        requires
            m <= t,
    ;
    assert((2 * (m * 10000) + t) / (2 * t) <= 10000) by (nonlinear_arith)
        requires
            2 * (m * 10000) + t <= 20001 * t,
            t > 0,
    ;
}

} // verus!
