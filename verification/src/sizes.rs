//! Byte-size formatting: renders a byte count as a human-readable string,
//! scaling by powers of 1000 (decimal units) or 1024 (binary units).
//!
//! Counts below one threshold render as `"<n> bytes"`. Larger counts are
//! divided by the threshold until the magnitude falls below it (or the unit
//! table is exhausted at `"PB"`, where scaling saturates) and render with
//! exactly two digits after the decimal point, rounded to nearest with ties
//! rounded up, followed by the unit label.
//!
//! All arithmetic is exact integer arithmetic on hundredths of a unit; the
//! full output string is pinned down by `spec_format_size`.

use vstd::prelude::*;

verus! {

use vstd::arithmetic::power::pow;

/// The character for a single decimal digit.
pub open spec fn spec_digit_char(d: nat) -> char {
    if d == 0 {
        '0'
    } else if d == 1 {
        '1'
    } else if d == 2 {
        '2'
    } else if d == 3 {
        '3'
    } else if d == 4 {
        '4'
    } else if d == 5 {
        '5'
    } else if d == 6 {
        '6'
    } else if d == 7 {
        '7'
    } else if d == 8 {
        '8'
    } else {
        '9'
    }
}

/// The decimal representation of `n`, most significant digit first, with no
/// leading zeros (`0` is rendered as `"0"`).
pub open spec fn spec_digits(n: nat) -> Seq<char>
    decreases n,
{
    if n < 10 {
        seq![spec_digit_char(n)]
    } else {
        spec_digits(n / 10) + seq![spec_digit_char(n % 10)]
    }
}

/// The suffix used for counts below one threshold.
pub open spec fn spec_bytes_suffix() -> Seq<char> {
    seq![' ', 'b', 'y', 't', 'e', 's']
}

/// The unit label at scale exponent `i` of the unit table
/// `bytes, KB, MB, GB, TB, PB` (only indices 1 to 5 are rendered; index 0
/// uses `spec_bytes_suffix`).
pub open spec fn spec_unit_label(i: nat) -> Seq<char> {
    if i == 1 {
        seq!['K', 'B']
    } else if i == 2 {
        seq!['M', 'B']
    } else if i == 3 {
        seq!['G', 'B']
    } else if i == 4 {
        seq!['T', 'B']
    } else {
        seq!['P', 'B']
    }
}

/// The scale exponent chosen for `bytes` under threshold `t`: the largest
/// `i` with `t^i <= bytes`, saturating at 5 (the last unit of the table).
pub open spec fn spec_unit_index(bytes: nat, t: nat) -> nat {
    if bytes < t {
        0
    } else if (bytes as int) < pow(t as int, 2) {
        1
    } else if (bytes as int) < pow(t as int, 3) {
        2
    } else if (bytes as int) < pow(t as int, 4) {
        3
    } else if (bytes as int) < pow(t as int, 5) {
        4
    } else {
        5
    }
}

/// The divisor `t^i` that scales `bytes` to its chosen unit.
pub open spec fn spec_divisor(bytes: nat, t: nat) -> nat {
    pow(t as int, spec_unit_index(bytes, t)) as nat
}

/// The scaled magnitude in hundredths of the chosen unit, rounded to
/// nearest with ties rounded up.
pub open spec fn spec_hundredths(bytes: nat, t: nat) -> nat {
    let d = spec_divisor(bytes, t);
    (100 * bytes + d / 2) / d
}

/// A magnitude of `h` hundredths rendered with exactly two digits after the
/// decimal point.
pub open spec fn spec_two_decimals(h: nat) -> Seq<char> {
    spec_digits(h / 100) + seq!['.', spec_digit_char((h / 10) % 10), spec_digit_char(h % 10)]
}

/// The full output string for `bytes` under threshold `t`.
pub open spec fn spec_format_size(bytes: nat, t: nat) -> Seq<char> {
    if bytes < t {
        spec_digits(bytes) + spec_bytes_suffix()
    } else {
        spec_two_decimals(spec_hundredths(bytes, t)) + seq![' ']
            + spec_unit_label(spec_unit_index(bytes, t))
    }
}

/// The string for a single decimal digit.
fn digit_str(d: u64) -> (r: &'static str)
    requires
        d < 10,
    ensures
        r@ =~= seq![spec_digit_char(d as nat)],
{
    proof {
        reveal_strlit("0");
        reveal_strlit("1");
        reveal_strlit("2");
        reveal_strlit("3");
        reveal_strlit("4");
        reveal_strlit("5");
        reveal_strlit("6");
        reveal_strlit("7");
        reveal_strlit("8");
        reveal_strlit("9");
    }
    match d {
        0 => "0",
        1 => "1",
        2 => "2",
        3 => "3",
        4 => "4",
        5 => "5",
        6 => "6",
        7 => "7",
        8 => "8",
        _ => "9",
    }
}

/// Appends the decimal representation of `n` to `s`.
fn push_digits(s: &mut String, n: u64)
    ensures
        final(s)@ == old(s)@ + spec_digits(n as nat),
    decreases n,
{
    if n < 10 {
        let d = digit_str(n);
        s.append(d);
        proof {
            assert(s@ =~= old(s)@ + spec_digits(n as nat));
        }
    } else {
        push_digits(s, n / 10);
        let d = digit_str(n % 10);
        s.append(d);
        proof {
            assert(s@ =~= old(s)@ + spec_digits(n as nat));
        }
    }
}

/// The `" bytes"` suffix.
fn bytes_suffix_str() -> (r: &'static str)
    ensures
        r@ =~= spec_bytes_suffix(),
{
    proof {
        reveal_strlit(" bytes");
    }
    " bytes"
}

/// The unit label at scale exponent `i`.
fn unit_label_str(i: u64) -> (r: &'static str)
    requires
        1 <= i <= 5,
    ensures
        r@ =~= spec_unit_label(i as nat),
{
    proof {
        reveal_strlit("KB");
        reveal_strlit("MB");
        reveal_strlit("GB");
        reveal_strlit("TB");
        reveal_strlit("PB");
    }
    match i {
        1 => "KB",
        2 => "MB",
        3 => "GB",
        4 => "TB",
        _ => "PB",
    }
}

/// The chosen exponent is exactly `spec_unit_index` once its interval is
/// known: `t^i <= bytes`, and `bytes < t^(i+1)` unless `i` saturates at 5.
proof fn lemma_unit_index_from_bounds(bytes: nat, t: nat, i: nat)
    requires
        2 <= t,
        1 <= i <= 5,
        pow(t as int, i) <= bytes as int,
        i < 5 ==> (bytes as int) < pow(t as int, (i + 1) as nat),
    ensures
        spec_unit_index(bytes, t) == i,
{
    vstd::arithmetic::power::lemma_pow1(t as int);
    assert forall|e1: nat, e2: nat| e1 < e2 <= 6 implies pow(t as int, e1) < pow(
        t as int,
        e2,
    ) by {
        vstd::arithmetic::power::lemma_pow_strictly_increases(t, e1, e2);
    }
}

/// Renders `bytes` under threshold `t` (1000 for decimal units, 1024 for
/// binary units).
fn format_with_threshold(bytes: u64, t: u64) -> (s: String)
    requires
        t == 1000 || t == 1024,
    ensures
        s@ == spec_format_size(bytes as nat, t as nat),
{
    let mut s = String::new();
    if bytes < t {
        push_digits(&mut s, bytes);
        let suffix = bytes_suffix_str();
        s.append(suffix);
        proof {
            assert(s@ =~= spec_format_size(bytes as nat, t as nat));
        }
        return s;
    }
    // Select the unit: the largest exponent i <= 5 with t^i <= bytes.
    let mut div: u64 = t;
    let mut i: u64 = 1;
    proof {
        vstd::arithmetic::power::lemma_pow1(t as int);
    }
    while bytes / div >= t && i < 5
        invariant
            t == 1000 || t == 1024,
            bytes >= t,
            1 <= i <= 5,
            div as int == pow(t as int, i as nat),
            t <= div <= bytes,
        decreases 5 - i,
    {
        proof {
            vstd::arithmetic::div_mod::lemma_fundamental_div_mod(bytes as int, div as int);
            // t <= bytes / div, so div * t <= div * (bytes / div) <= bytes.
            vstd::arithmetic::mul::lemma_mul_inequality(
                t as int,
                (bytes / div) as int,
                div as int,
            );
            vstd::arithmetic::div_mod::lemma_mod_division_less_than_divisor(
                bytes as int,
                div as int,
            );
            assert(div * t <= bytes);
            vstd::arithmetic::power::lemma_pow_adds(t as int, i as nat, 1);
            vstd::arithmetic::power::lemma_pow1(t as int);
        }
        div = div * t;
        i = i + 1;
    }
    proof {
        if bytes / div >= t {
            // Saturated: i == 5 and t^5 <= bytes.
            lemma_unit_index_from_bounds(bytes as nat, t as nat, i as nat);
        } else {
            // bytes / div < t, so bytes < div * t == t^(i+1).
            vstd::arithmetic::div_mod::lemma_fundamental_div_mod(bytes as int, div as int);
            vstd::arithmetic::div_mod::lemma_mod_division_less_than_divisor(
                bytes as int,
                div as int,
            );
            assert(bytes < div * t) by (nonlinear_arith)
                requires
                    bytes as int == div as int * ((bytes as int) / (div as int)) + (bytes as int)
                        % (div as int),
                    (bytes as int) % (div as int) < div as int,
                    (bytes as int) / (div as int) < t as int,
                    div >= 1,
            ;
            vstd::arithmetic::power::lemma_pow_adds(t as int, i as nat, 1);
            vstd::arithmetic::power::lemma_pow1(t as int);
            lemma_unit_index_from_bounds(bytes as nat, t as nat, i as nat);
        }
        assert(div as nat == spec_divisor(bytes as nat, t as nat));
    }
    // Magnitude in hundredths of the chosen unit, rounded half up.
    let num: u128 = (bytes as u128) * 100 + ((div / 2) as u128);
    let h128: u128 = num / (div as u128);
    proof {
        // num <= 100 * u64::MAX + div < 1000 * 0x2000_0000_0000_0000 <= div * 0x2000_0000_0000_0000,
        // so the quotient fits comfortably in u64.
        vstd::arithmetic::mul::lemma_mul_inequality(
            1000,
            div as int,
            0x2000_0000_0000_0000,
        );
        vstd::arithmetic::div_mod::lemma_multiply_divide_lt(
            num as int,
            div as int,
            0x2000_0000_0000_0000,
        );
        assert(h128 as nat == spec_hundredths(bytes as nat, t as nat));
    }
    let h: u64 = h128 as u64;
    push_digits(&mut s, h / 100);
    let dot = dot_str();
    s.append(dot);
    let d1 = digit_str((h / 10) % 10);
    s.append(d1);
    let d2 = digit_str(h % 10);
    s.append(d2);
    let sp = space_str();
    s.append(sp);
    let label = unit_label_str(i);
    s.append(label);
    proof {
        assert(s@ =~= spec_format_size(bytes as nat, t as nat));
    }
    s
}

/// The magnitude shown in the output, in hundredths of the chosen unit: the
/// plain byte count below one threshold, the rounded scaled magnitude
/// otherwise.
pub open spec fn spec_displayed_hundredths(bytes: nat, t: nat) -> nat {
    if bytes < t {
        100 * bytes
    } else {
        spec_hundredths(bytes, t)
    }
}

/// Law: for a fixed base, among byte counts that select the same unit, the
/// displayed magnitude is monotone: if `x1 < x2` and both map to one unit
/// index, the magnitude shown for `x1` is at most the one shown for `x2`.
pub proof fn lemma_magnitude_monotone(x1: nat, x2: nat, t: nat)
    requires
        t == 1000 || t == 1024,
        x1 < x2,
        spec_unit_index(x1, t) == spec_unit_index(x2, t),
    ensures
        spec_displayed_hundredths(x1, t) <= spec_displayed_hundredths(x2, t),
{
    let i = spec_unit_index(x1, t);
    if i != 0 {
        let d = spec_divisor(x1, t);
        vstd::arithmetic::power::lemma_pow_positive(t as int, i);
        vstd::arithmetic::div_mod::lemma_div_is_ordered(
            (100 * x1 + d / 2) as int,
            (100 * x2 + d / 2) as int,
            d as int,
        );
    }
}

/// Law: for `t <= bytes`, the chosen unit index is the unique exponent `j`
/// of the table with `bytes / t^j` in `[1, t)`; once `bytes` reaches `t^6`
/// no exponent of the table satisfies that, and the index saturates at the
/// top unit, 5.
pub proof fn lemma_unit_index_unique(bytes: nat, t: nat)
    requires
        t == 1000 || t == 1024,
        t <= bytes,
    ensures
        1 <= spec_unit_index(bytes, t) <= 5,
        1 <= bytes / spec_divisor(bytes, t),
        forall|j: nat|
            1 <= j <= 5 ==> ((1 <= bytes / ((#[trigger] pow(t as int, j)) as nat) && bytes / (pow(
                t as int,
                j,
            ) as nat) < t) <==> (j == spec_unit_index(bytes, t) && (bytes as int) < pow(
                t as int,
                6,
            ))),
{
    let i = spec_unit_index(bytes, t);
    vstd::arithmetic::power::lemma_pow1(t as int);
    assert forall|e1: nat, e2: nat| e1 < e2 <= 6 implies pow(t as int, e1) < pow(
        t as int,
        e2,
    ) by {
        vstd::arithmetic::power::lemma_pow_strictly_increases(t, e1, e2);
    }
    let d = spec_divisor(bytes, t);
    vstd::arithmetic::power::lemma_pow_positive(t as int, i);
    vstd::arithmetic::div_mod::lemma_div_is_ordered(d as int, bytes as int, d as int);
    vstd::arithmetic::div_mod::lemma_div_by_self(d as int);
    assert forall|j: nat| 1 <= j <= 5 implies ((1 <= bytes / ((#[trigger] pow(t as int, j)) as nat)
        && bytes / (pow(t as int, j) as nat) < t) <==> (j == i && (bytes as int) < pow(
        t as int,
        6,
    ))) by {
        vstd::arithmetic::power::lemma_pow_positive(t as int, j);
        let dj = pow(t as int, j) as nat;
        vstd::arithmetic::power::lemma_pow_adds(t as int, j, 1);
        assert(dj * t == pow(t as int, (j + 1) as nat));
        // bytes / t^j >= 1 exactly when t^j <= bytes.
        if dj <= bytes {
            vstd::arithmetic::div_mod::lemma_div_is_ordered(dj as int, bytes as int, dj as int);
            vstd::arithmetic::div_mod::lemma_div_by_self(dj as int);
        } else {
            vstd::arithmetic::div_mod::lemma_basic_div(bytes as int, dj as int);
        }
        // bytes / t^j < t exactly when bytes < t^(j+1).
        if (bytes as int) < dj * t {
            vstd::arithmetic::div_mod::lemma_multiply_divide_lt(bytes as int, dj as int, t as int);
        } else {
            vstd::arithmetic::div_mod::lemma_div_is_ordered(
                dj as int * t as int,
                bytes as int,
                dj as int,
            );
            vstd::arithmetic::div_mod::lemma_div_multiples_vanish(t as int, dj as int);
        }
    }
}

/// The unit base a size is formatted in.
#[derive(Copy, Clone, Debug, PartialEq, Eq, Structural)]
pub enum SizeBase {
    /// SI-style scaling by powers of 1000.
    Decimal,
    /// OS-style scaling by powers of 1024.
    Binary,
}

/// The scaling threshold of a unit base.
pub open spec fn spec_threshold(base: SizeBase) -> nat {
    match base {
        SizeBase::Decimal => 1000,
        SizeBase::Binary => 1024,
    }
}

/// Formats `bytes` in the given unit base.
pub fn format_size_in(bytes: u64, base: SizeBase) -> (s: String)
    ensures
        s@ == spec_format_size(bytes as nat, spec_threshold(base)),
{
    match base {
        SizeBase::Decimal => format_with_threshold(bytes, 1000),
        SizeBase::Binary => format_with_threshold(bytes, 1024),
    }
}

/// Formats `bytes` in decimal (base-1000) units.
pub fn format_size_decimal(bytes: u64) -> (s: String)
    ensures
        s@ == spec_format_size(bytes as nat, 1000),
{
    format_with_threshold(bytes, 1000)
}

/// Formats `bytes` in binary (base-1024) units.
pub fn format_size_binary(bytes: u64) -> (s: String)
    ensures
        s@ == spec_format_size(bytes as nat, 1024),
{
    format_with_threshold(bytes, 1024)
}

/// Formats `size` in decimal (base-1000) units: unit selection by fixed
/// numeric ranges on the decimal scale is a special case of
/// `format_size_decimal`, so the two agree on every input.
pub fn format_size(size: u64) -> (s: String)
    ensures
        s@ == spec_format_size(size as nat, 1000),
{
    format_with_threshold(size, 1000)
}

/// The decimal separator.
fn dot_str() -> (r: &'static str)
    ensures
        r@ =~= seq!['.'],
{
    proof {
        reveal_strlit(".");
    }
    "."
}

/// The separator between magnitude and unit label.
fn space_str() -> (r: &'static str)
    ensures
        r@ =~= seq![' '],
{
    proof {
        reveal_strlit(" ");
    }
    " "
}

} // verus!

