//! Human-readable sizes for the benchmark report: bytes below 1 KiB, KiB with
//! two decimals below 1 MiB, MiB with two decimals above.
//!
//! The report divides the size, converted to a 64-bit float, by 1024 or by
//! 1024 * 1024 and prints it with two decimals. Both divisions are exact
//! powers of two, so the printed digits are those of the exact quotient of
//! the converted size, rounded to two decimals with ties to even; this
//! module computes them with integers.

use vstd::prelude::*;
use vstd::arithmetic::div_mod::{lemma_div_denominator, lemma_fundamental_div_mod};
use crate::text::{decimal, digit_char, to_decimal};

verus! {

/// The largest integer below which every integer is a 64-bit float.
pub open spec fn float_exact_limit() -> nat {
    9007199254740992
}

/// The power of two that a 64-bit float with the magnitude of `b` is a
/// multiple of (1 when `b` is below `2^53`).
pub open spec fn float_step(b: nat) -> nat
    decreases b,
{
    if b < float_exact_limit() {
        1
    } else {
        2 * float_step(b / 2)
    }
}

/// Whether `num / den` rounds up at its last kept digit: above the half, or
/// exactly at it with an odd quotient.
pub open spec fn rounds_up(num: nat, den: nat) -> bool {
    let q = num / den;
    let r = num % den;
    2 * r > den || (2 * r == den && q % 2 == 1)
}

/// `num / den` rounded to the nearest integer, ties to even.
pub open spec fn round_half_even(num: nat, den: nat) -> nat {
    if rounds_up(num, den) {
        num / den + 1
    } else {
        num / den
    }
}

/// The value of `b` converted to a 64-bit float (nearest, ties to even).
pub open spec fn float_value(b: nat) -> nat {
    let p = float_step(b);
    round_half_even(b, p) * p
}

/// Two decimal digits of `n`, for `n < 100`.
pub open spec fn two_digits(n: nat) -> Seq<char> {
    seq![digit_char(n / 10), digit_char(n % 10)]
}

/// `num / den` printed with two decimals.
pub open spec fn fixed2(num: nat, den: nat) -> Seq<char> {
    let h = round_half_even(num * 100, den);
    decimal(h / 100) + "."@ + two_digits(h % 100)
}

/// The printed size.
pub open spec fn size_text(bytes: nat) -> Seq<char> {
    if bytes < 1024 {
        decimal(bytes) + " B"@
    } else if bytes < 1048576 {
        fixed2(bytes, 1024) + " KB"@
    } else {
        fixed2(float_value(bytes), 1048576) + " MB"@
    }
}

/// The powers of two a float step of a 64-bit integer can be.
spec fn small_power(p: nat) -> bool {
    p == 1 || p == 2 || p == 4 || p == 8 || p == 16 || p == 32 || p == 64 || p == 128 || p == 256
        || p == 512 || p == 1024 || p == 2048
}

/// The value of `b` as a 64-bit float.
fn to_float_value(b: u64) -> (r: u128)
    ensures
        r == float_value(b as nat),
        r <= 18446744073709551616,
{
    let mut q: u64 = b;
    let mut p: u64 = 1;
    while q >= 9007199254740992
        invariant
            p >= 1,
            small_power(p as nat),
            q == b as nat / p as nat,
            q as nat * p as nat <= b,
            float_step(b as nat) == p * float_step(q as nat),
        decreases q,
    {
        assert(p < 2048) by (nonlinear_arith)
            requires
                q >= 9007199254740992,
                q as nat * p as nat <= b,
                b < 18446744073709551616nat,
        ;
        proof {
            lemma_div_denominator(b as int, p as int, 2);
            assert(float_step(q as nat) == 2 * float_step(q as nat / 2));
            assert(p * float_step(q as nat) == (2 * p) * float_step(q as nat / 2)) by (nonlinear_arith)
                requires
                    float_step(q as nat) == 2 * float_step(q as nat / 2),
            ;
            assert((q as nat / 2) * (2 * p as nat) <= q as nat * p as nat) by (nonlinear_arith);
        }
        q = q / 2;
        p = p * 2;
    }
    proof {
        lemma_fundamental_div_mod(b as int, p as int);
        assert(float_step(q as nat) == 1);
        let fq = float_step(q as nat);
        assert(p * fq == p) by (nonlinear_arith)
            requires
                fq == 1,
        ;
        assert(float_step(b as nat) == p as nat);
    }
    let rem: u64 = b % p;
    let up = 2 * (rem as u128) > p as u128 || (2 * (rem as u128) == p as u128 && q % 2 == 1);
    assert(up == rounds_up(b as nat, p as nat));
    let rounded: u128 = if up {
        q as u128 + 1
    } else {
        q as u128
    };
    assert(rounded == round_half_even(b as nat, p as nat));
    assert(rounded * p <= 18446744073709551616) by (nonlinear_arith)
        requires
            rounded <= q + 1,
            q < 9007199254740992,
            p <= 2048,
    ;
    assert(rounded * p == float_value(b as nat));
    rounded * (p as u128)
}

/// `num / den` printed with two decimals.
fn fixed2_text(num: u128, den: u128) -> (r: String)
    requires
        den == 1024 || den == 1048576,
        num <= 18446744073709551616,
    ensures
        r@ == fixed2(num as nat, den as nat),
{
    let scaled: u128 = num * 100;
    let q: u128 = scaled / den;
    let rem: u128 = scaled % den;
    let up = 2 * rem > den || (2 * rem == den && q % 2 == 1);
    let h: u128 = if up {
        q + 1
    } else {
        q
    };
    assert(h / 100 < 18446744073709551615) by (nonlinear_arith)
        requires
            h <= q + 1,
            q == scaled / den,
            scaled == num * 100,
            num <= 18446744073709551616,
            den >= 1024,
    ;
    let whole = to_decimal(h / 100);
    let cents: u128 = h % 100;
    let mut out = whole;
    proof {
        reveal_strlit(".");
    }
    out.append(".");
    let tens = to_decimal(cents / 10);
    let units = to_decimal(cents % 10);
    assert(tens@ == seq![digit_char((cents / 10) as nat)]);
    assert(units@ == seq![digit_char((cents % 10) as nat)]);
    out.append(tens.as_str());
    out.append(units.as_str());
    assert(out@ =~= fixed2(num as nat, den as nat));
    out
}

/// Formats a byte count for the benchmark report: `"<n> B"` below 1024,
/// `"<x.xx> KB"` below 1024 * 1024, `"<x.xx> MB"` above.
pub fn format_size(bytes: u64) -> (r: String)
    ensures
        r@ == size_text(bytes as nat),
{
    if bytes < 1024 {
        let out = to_decimal(bytes as u128);
        out.concat(" B")
    } else if bytes < 1048576 {
        let out = fixed2_text(bytes as u128, 1024);
        out.concat(" KB")
    } else {
        let v = to_float_value(bytes);
        let out = fixed2_text(v, 1048576);
        out.concat(" MB")
    }
}

} // verus!
