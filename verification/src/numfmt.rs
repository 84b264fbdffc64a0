//! Exact decimal rendering of the numeric values that the screens show.
//!
//! The console prints counters and rates the way Rust prints an `f64` with a
//! fixed number of decimals: the integer is first rounded to double precision,
//! divided, and the exact result is rounded half-to-even to the requested
//! number of decimals. Everything here computes that result with integer
//! arithmetic only: a double is represented by an integer significand over a
//! power of two.

use vstd::prelude::*;
use crate::text::{decimal, push_decimal, push_str};

verus! {

/// `2^k`.
pub open spec fn two_pow(k: nat) -> nat
    decreases k,
{
    if k == 0 {
        1
    } else {
        2 * two_pow((k - 1) as nat)
    }
}

/// `2^53`: the first integer at which doubles stop being exact.
pub open spec fn two_53() -> nat {
    9007199254740992
}

/// `2^52`: the smallest normalized 53-bit significand.
pub open spec fn two_52() -> nat {
    4503599627370496
}

/// `a / b` rounded to the nearest integer, ties to even.
pub open spec fn round_half_even(a: nat, b: nat) -> nat {
    let q = a / b;
    let r = a % b;
    if 2 * r > b {
        q + 1
    } else if 2 * r < b {
        q
    } else if q % 2 == 0 {
        q
    } else {
        q + 1
    }
}

/// `a / b` rounded to the nearest integer, ties away from zero.
pub open spec fn round_half_away(a: nat, b: nat) -> nat {
    let q = a / b;
    let r = a % b;
    if 2 * r >= b {
        q + 1
    } else {
        q
    }
}

/// The power of two by which `n` must be divided to fit a 53-bit significand.
pub open spec fn f64_scale(n: nat) -> nat
    decreases n,
{
    if n < two_53() {
        1
    } else {
        2 * f64_scale(n / 2)
    }
}

/// The value of the non-negative integer `n` once converted to a double
/// (round to nearest, ties to even), as an exact integer.
pub open spec fn f64_value(n: nat) -> nat {
    round_half_even(n, f64_scale(n)) * f64_scale(n)
}

/// The exponent `k` that brings the quotient `a / b` into `[2^52, 2^53)` when
/// scaled by `2^k`, searching upward from `k` (for `a > 0`; `k` itself when `a` is 0).
pub open spec fn quot_exponent(a: nat, b: nat, k: nat) -> nat
    decreases (two_52() * b) / (a * two_pow(k)),
{
    if a == 0 || a * two_pow(k) >= two_52() * b {
        k
    } else {
        proof {
            lemma_two_pow_pos(k);
            assert(a * two_pow(k) >= 1) by (nonlinear_arith)
                requires
                    a >= 1,
                    two_pow(k) >= 1,
            ;
            assert(a * two_pow(k + 1) == 2 * (a * two_pow(k))) by (nonlinear_arith)
                requires
                    two_pow(k + 1) == 2 * two_pow(k),
            ;
            let x = two_52() * b;
            let y = a * two_pow(k);
            vstd::arithmetic::div_mod::lemma_div_denominator(x as int, y as int, 2);
            assert(x / y >= 1) by (nonlinear_arith)
                requires
                    y <= x,
                    y >= 1,
            ;
            assert(x / (y * 2) < x / y) by (nonlinear_arith)
                requires
                    x / y >= 1,
                    x / (y * 2) == (x / y) / 2,
            ;
        }
        quot_exponent(a, b, k + 1)
    }
}

/// The double nearest to `a / b` (for `0 < a / b < 2^53`) is
/// `quot_significand(a, b) / 2^quot_exponent(a, b, 0)`.
pub open spec fn quot_significand(a: nat, b: nat) -> nat {
    round_half_even(a * two_pow(quot_exponent(a, b, 0)), b)
}

/// Decimal text of `num / den` with `decimals` (0 or 1) digits after the
/// point, rounded half-to-even.
pub open spec fn fixed_text(num: nat, den: nat, decimals: nat) -> Seq<char> {
    if decimals == 0 {
        decimal(round_half_even(num, den))
    } else {
        let q = round_half_even(10 * num, den);
        decimal(q / 10).push('.') + decimal(q % 10)
    }
}

pub proof fn lemma_two_pow_pos(k: nat)
    ensures
        two_pow(k) >= 1,
    decreases k,
{
    if k > 0 {
        lemma_two_pow_pos((k - 1) as nat);
    }
}

pub proof fn lemma_two_pow_mono(j: nat, k: nat)
    requires
        j <= k,
    ensures
        two_pow(j) <= two_pow(k),
    decreases k,
{
    if j < k {
        lemma_two_pow_mono(j, (k - 1) as nat);
        lemma_two_pow_pos((k - 1) as nat);
    }
}

/// A positive integer stays positive once converted to a double.
pub proof fn lemma_f64_value_pos(n: nat)
    requires
        n > 0,
    ensures
        f64_value(n) > 0,
{
    lemma_f64_scale_bound(n);
    let p = f64_scale(n);
    let q = round_half_even(n, p);
    assert(n / p >= 1) by (nonlinear_arith)
        requires
            p <= n,
            p >= 1,
    ;
    assert(q >= 1);
    assert(q * p >= 1) by (nonlinear_arith)
        requires
            q >= 1,
            p >= 1,
    ;
}

/// The scale of a positive integer lies between 1 and the integer itself.
pub proof fn lemma_f64_scale_bound(n: nat)
    requires
        n > 0,
    ensures
        1 <= f64_scale(n) <= n,
    decreases n,
{
    if n >= two_53() {
        lemma_f64_scale_bound(n / 2);
    }
}

/// `a / b` rounded half-to-even.
pub fn round_half_even_u128(a: u128, b: u128) -> (q: u128)
    requires
        b > 0,
        b <= 0x8000_0000_0000_0000_0000_0000_0000_0000,
    ensures
        q == round_half_even(a as nat, b as nat),
{
    let q = a / b;
    let r = a % b;
    assert(q <= a) by (nonlinear_arith)
        requires
            q == a / b,
            b > 0,
    ;
    if q == u128::MAX {
        assert(b == 1) by (nonlinear_arith)
            requires
                q == a / b,
                b > 0,
                q == u128::MAX,
                a <= u128::MAX,
        ;
        return q;
    }
    if 2 * r > b {
        q + 1
    } else if 2 * r < b {
        q
    } else if q % 2 == 0 {
        q
    } else {
        q + 1
    }
}

/// `a / b` rounded half away from zero.
pub fn round_half_away_u128(a: u128, b: u128) -> (q: u128)
    requires
        b > 0,
        b <= 0x8000_0000_0000_0000_0000_0000_0000_0000,
    ensures
        q == round_half_away(a as nat, b as nat),
{
    let q = a / b;
    let r = a % b;
    if b == 1 {
        return q;
    }
    assert(q < u128::MAX) by (nonlinear_arith)
        requires
            q == a / b,
            b > 1,
            a <= u128::MAX,
    ;
    if 2 * r >= b {
        q + 1
    } else {
        q
    }
}

/// The value of `n as f64`, as an exact integer.
pub fn f64_value_of(n: u64) -> (r: u128)
    ensures
        r == f64_value(n as nat),
        r <= 18446744073709555712,
{
    let mut m: u128 = n as u128;
    let mut p: u128 = 1;
    while m >= 9007199254740992
        invariant
            1 <= p <= 4096,
            m == (n as nat) / (p as nat),
            p * m <= n,
            f64_scale(n as nat) == p * f64_scale(m as nat),
        decreases m,
    {
        proof {
            vstd::arithmetic::div_mod::lemma_div_denominator(n as int, p as int, 2);
            assert(p * 9007199254740992 <= p * m) by (nonlinear_arith)
                requires
                    m >= 9007199254740992,
            ;
            assert(p < 2048);
            assert(f64_scale(m as nat) == 2 * f64_scale((m / 2) as nat));
            assert(p * f64_scale(m as nat) == (2 * p) * f64_scale((m / 2) as nat)) by (nonlinear_arith)
                requires
                    f64_scale(m as nat) == 2 * f64_scale((m / 2) as nat),
            ;
            assert(((p * 2) as nat) * ((m / 2) as nat) <= n) by (nonlinear_arith)
                requires
                    p * m <= n,
            ;
        }
        m = m / 2;
        p = p * 2;
    }
    assert(f64_scale(m as nat) == 1);
    let q = round_half_even_u128(n as u128, p);
    proof {
        let nn: int = n as int;
        let pp: int = p as int;
        let qq: int = q as int;
        assert(f64_scale(n as nat) == p * f64_scale(m as nat));
        assert(p * f64_scale(m as nat) == p) by (nonlinear_arith)
            requires
                f64_scale(m as nat) == 1,
        ;
        assert(qq <= nn / pp + 1);
        assert(qq * pp <= nn + pp) by (nonlinear_arith)
            requires
                qq <= nn / pp + 1,
                pp > 0,
                nn >= 0,
        ;
    }
    q * p
}

/// The double nearest to `a / b`, as a significand over a power of two:
/// returns `(quot_significand(a, b), 2^quot_exponent(a, b, 0))`.
pub fn f64_quotient(a: u128, b: u128) -> (res: (u128, u128))
    requires
        0 < a <= 0x2_0000_0000_0000_0000,
        0 < b <= 0x2_0000_0000_0000_0000,
    ensures
        res.0 == quot_significand(a as nat, b as nat),
        res.1 == two_pow(quot_exponent(a as nat, b as nat, 0)),
        res.0 <= 0x4_0000_0000_0000_0000,
        0 < res.1 <= 0x40_0000_0000_0000_0000_0000_0000_0000,
{
    let ghost mut k: nat = 0;
    let mut p: u128 = 1;
    let mut ap: u128 = a;
    let limit: u128 = 4503599627370496 * b;
    while ap < limit
        invariant
            limit == two_52() * b,
            0 < b <= 0x2_0000_0000_0000_0000,
            0 < a <= 0x2_0000_0000_0000_0000,
            p == two_pow(k),
            1 <= p <= ap,
            ap == a * p,
            ap <= 0x40_0000_0000_0000_0000_0000_0000_0000,
            quot_exponent(a as nat, b as nat, 0) == quot_exponent(a as nat, b as nat, k),
            p > 1 ==> ap < 2 * limit,
        decreases 0x80_0000_0000_0000_0000_0000_0000_0000 - p,
    {
        proof {
            assert(quot_exponent(a as nat, b as nat, k) == quot_exponent(a as nat, b as nat, k + 1));
            assert(two_pow(k + 1) == 2 * two_pow(k));
            assert(a * (2 * p) == 2 * (a * p)) by (nonlinear_arith);
        }
        ap = ap * 2;
        p = p * 2;
        proof {
            k = k + 1;
        }
    }
    assert(quot_exponent(a as nat, b as nat, k) == k);
    let m = round_half_even_u128(ap, b);
    proof {
        let q = (ap as nat) / (b as nat);
        assert(ap <= 0x2_0000_0000_0000_0000 * b) by (nonlinear_arith)
            requires
                ap < 2 * limit || ap == a,
                p > 1 ==> ap < 2 * limit,
                limit == 4503599627370496 * b,
                a <= 0x2_0000_0000_0000_0000,
                b >= 1,
        ;
        assert(q <= 0x2_0000_0000_0000_0000) by (nonlinear_arith)
            requires
                q == (ap as nat) / (b as nat),
                ap <= 0x2_0000_0000_0000_0000 * b,
                b >= 1,
        ;
    }
    (m, p)
}

/// Appends `fixed_text(num, den, decimals)`.
pub fn push_fixed(out: &mut Vec<char>, num: u128, den: u128, decimals: u8)
    requires
        0 < den <= 0x100_0000_0000_0000_0000_0000_0000_0000,
        num <= 0x100_0000_0000_0000_0000_0000_0000_0000,
        decimals <= 1,
    ensures
        final(out)@ == old(out)@ + fixed_text(num as nat, den as nat, decimals as nat),
{
    if decimals == 0 {
        let q = round_half_even_u128(num, den);
        push_decimal(out, q);
    } else {
        let q = round_half_even_u128(10 * num, den);
        push_decimal(out, q / 10);
        out.push('.');
        push_decimal(out, q % 10);
        assert(out@ == old(out)@ + (decimal((q / 10) as nat).push('.') + decimal((q % 10) as nat)));
    }
}

/// A byte count `r` (already a double's value) in binary units: `T` (when
/// `tera`), `G` and `M` with one decimal, `K` with `k_decimals` decimals, and
/// plain bytes with none.
pub open spec fn binary_units_text(r: nat, tera: bool, k_decimals: nat) -> Seq<char> {
    if tera && r >= 1099511627776 {
        fixed_text(r, 1099511627776, 1) + "T"@
    } else if r >= 1073741824 {
        fixed_text(r, 1073741824, 1) + "G"@
    } else if r >= 1048576 {
        fixed_text(r, 1048576, 1) + "M"@
    } else if r >= 1024 {
        fixed_text(r, 1024, k_decimals) + "K"@
    } else {
        fixed_text(r, 1, 0)
    }
}

/// Appends `binary_units_text(r, tera, k_decimals)`.
pub fn push_binary_units(out: &mut Vec<char>, r: u128, tera: bool, k_decimals: u8)
    requires
        r <= 0x2_0000_0000_0000_0000,
        k_decimals <= 1,
    ensures
        final(out)@ == old(out)@ + binary_units_text(r as nat, tera, k_decimals as nat),
{
    if tera && r >= 1099511627776 {
        push_fixed(out, r, 1099511627776, 1);
        push_str(out, "T");
    } else if r >= 1073741824 {
        push_fixed(out, r, 1073741824, 1);
        push_str(out, "G");
    } else if r >= 1048576 {
        push_fixed(out, r, 1048576, 1);
        push_str(out, "M");
    } else if r >= 1024 {
        push_fixed(out, r, 1024, k_decimals);
        push_str(out, "K");
    } else {
        push_fixed(out, r, 1, 0);
    }
}

/// Two-digit, zero-padded decimal text of `n < 100`.
pub open spec fn two_digits(n: nat) -> Seq<char> {
    if n < 10 {
        seq!['0'] + decimal(n)
    } else {
        decimal(n)
    }
}

/// Appends `two_digits(n)`.
pub fn push_two_digits(out: &mut Vec<char>, n: u64)
    requires
        n < 100,
    ensures
        final(out)@ == old(out)@ + two_digits(n as nat),
{
    if n < 10 {
        out.push('0');
    }
    push_decimal(out, n as u128);
    assert(out@ == old(out)@ + two_digits(n as nat));
}

} // verus!
