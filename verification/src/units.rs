//! Byte counts in human-readable form. Sizes are printed the way Rust prints
//! an `f64` with a fixed number of decimals: the count is first rounded to
//! the nearest `f64` (53 significant bits, ties to even), divided by a power
//! of two (which is exact), and the quotient rounded to the nearest decimal
//! of the given precision, ties to even.

use vstd::prelude::*;
use crate::text::{decimal, decimal_u128, push_char, push_str};

verus! {

/// `2^e`.
pub open spec fn two_pow(e: nat) -> nat
    decreases e,
{
    if e == 0 {
        1
    } else {
        2 * two_pow((e - 1) as nat)
    }
}

/// `10^e`.
pub open spec fn ten_pow(e: nat) -> nat
    decreases e,
{
    if e == 0 {
        1
    } else {
        10 * ten_pow((e - 1) as nat)
    }
}

/// The number of binary digits of `n` (zero for zero).
pub open spec fn bit_length(n: nat) -> nat
    decreases n,
{
    if n == 0 {
        0
    } else {
        1 + bit_length(n / 2)
    }
}

/// `n / d` rounded to the nearest integer, ties to the even one.
pub open spec fn round_div_even(n: nat, d: nat) -> nat {
    let q = n / d;
    let r = n % d;
    if 2 * r > d || (2 * r == d && q % 2 == 1) {
        q + 1
    } else {
        q
    }
}

/// The value of `n as f64`: `n` rounded to 53 significant bits, ties to even.
pub open spec fn f64_value(n: nat) -> nat {
    if bit_length(n) <= 53 {
        n
    } else {
        let unit = two_pow((bit_length(n) - 53) as nat);
        round_div_even(n, unit) * unit
    }
}

/// `r` written with exactly `p` digits, zeros first.
pub open spec fn zero_padded(r: nat, p: nat) -> Seq<char> {
    if decimal(r).len() >= p {
        decimal(r)
    } else {
        Seq::new((p - decimal(r).len()) as nat, |_i: int| '0') + decimal(r)
    }
}

/// `format!("{:.p$}", n as f64 / 2^k as f64)` for `p > 0`: the whole part,
/// a point and `p` decimals of the rounded quotient.
pub open spec fn fixed_text(n: nat, k: nat, p: nat) -> Seq<char> {
    let q = round_div_even(f64_value(n) * ten_pow(p), two_pow(k));
    decimal(q / ten_pow(p)) + seq!['.'] + zero_padded(q % ten_pow(p), p)
}

proof fn lemma_two_pow_pos(a: nat)
    ensures
        1 <= two_pow(a),
    decreases a,
{
    if a > 0 {
        lemma_two_pow_pos((a - 1) as nat);
    }
}

proof fn lemma_two_pow_mono(a: nat, b: nat)
    requires
        a <= b,
    ensures
        1 <= two_pow(a) <= two_pow(b),
    decreases b,
{
    lemma_two_pow_pos(a);
    if b > a {
        lemma_two_pow_mono(a, (b - 1) as nat);
    }
}

proof fn lemma_ten_pow_small()
    ensures
        ten_pow(0) == 1,
        ten_pow(1) == 10,
        ten_pow(2) == 100,
        ten_pow(3) == 1000,
{
    reveal_with_fuel(ten_pow, 4);
}

proof fn lemma_two_pow_64()
    ensures
        two_pow(64) == 0x1_0000_0000_0000_0000,
{
    reveal_with_fuel(two_pow, 65);
}

proof fn lemma_bit_length_bound(n: nat, b: nat)
    requires
        n < two_pow(b),
    ensures
        bit_length(n) <= b,
    decreases b,
{
    if n > 0 && b > 0 {
        lemma_bit_length_bound(n / 2, (b - 1) as nat);
    }
}

/// `2^e` as a `u128`, for `e <= 64`.
fn two_pow_u128(e: u32) -> (r: u128)
    requires
        e <= 64,
    ensures
        r == two_pow(e as nat),
        r <= 0x1_0000_0000_0000_0000,
{
    let mut r: u128 = 1;
    let mut i: u32 = 0;
    while i < e
        invariant
            i <= e <= 64,
            r == two_pow(i as nat),
        decreases e - i,
    {
        proof {
            lemma_two_pow_mono(i as nat, 64);
            lemma_two_pow_64();
        }
        r = r * 2;
        i = i + 1;
    }
    proof {
        lemma_two_pow_mono(e as nat, 64);
        lemma_two_pow_64();
    }
    r
}

/// `10^e` as a `u128`, for `e <= 3`.
fn ten_pow_u128(e: u32) -> (r: u128)
    requires
        e <= 3,
    ensures
        r == ten_pow(e as nat),
        1 <= r <= 1000,
{
    let mut r: u128 = 1;
    let mut i: u32 = 0;
    while i < e
        invariant
            i <= e <= 3,
            r == ten_pow(i as nat),
        decreases e - i,
    {
        proof {
            lemma_ten_pow_small();
        }
        r = r * 10;
        i = i + 1;
    }
    proof {
        lemma_ten_pow_small();
    }
    r
}

/// The number of binary digits of `n`.
fn bit_length_u64(n: u64) -> (r: u32)
    ensures
        r == bit_length(n as nat),
        r <= 64,
{
    let mut m: u64 = n;
    let mut c: u32 = 0;
    proof {
        lemma_two_pow_64();
        lemma_bit_length_bound(n as nat, 64);
    }
    while m > 0
        invariant
            bit_length(n as nat) == c + bit_length(m as nat),
            bit_length(n as nat) <= 64,
        decreases m,
    {
        m = m / 2;
        c = c + 1;
    }
    c
}

/// `n / d` rounded to the nearest integer, ties to even.
fn round_div_even_u128(n: u128, d: u128) -> (r: u128)
    requires
        0 < d < 0x8000_0000_0000_0000_0000_0000_0000_0000,
        n < 0xffff_ffff_ffff_ffff_ffff_ffff_ffff_fff0,
    ensures
        r == round_div_even(n as nat, d as nat),
        r <= n / d + 1,
{
    let q = n / d;
    let r = n % d;
    if 2 * r > d || (2 * r == d && q % 2 == 1) {
        proof {
            assert(q <= n) by (nonlinear_arith)
                requires
                    q == n / d,
                    d > 0,
            ;
        }
        q + 1
    } else {
        q
    }
}

/// The value of `n as f64`, as an integer.
fn f64_value_u64(n: u64) -> (r: u128)
    ensures
        r == f64_value(n as nat),
        r <= 0x1_0000_0000_0000_0800,
{
    let bl = bit_length_u64(n);
    if bl <= 53 {
        n as u128
    } else {
        let unit = two_pow_u128(bl - 53);
        proof {
            lemma_two_pow_mono((bl - 53) as nat, 11);
            reveal_with_fuel(two_pow, 12);
        }
        let q = round_div_even_u128(n as u128, unit);
        proof {
            let nn = n as int;
            let uu = unit as int;
            vstd::arithmetic::div_mod::lemma_fundamental_div_mod(nn, uu);
            assert(q * uu <= nn + uu) by (nonlinear_arith)
                requires
                    q <= nn / uu + 1,
                    nn == uu * (nn / uu) + nn % uu,
                    nn % uu >= 0,
                    uu > 0,
            ;
        }
        q * unit
    }
}

/// The value of `n as f64`, as an integer.
pub fn f64_value_of(n: u64) -> (r: u128)
    ensures
        r == f64_value(n as nat),
        r <= 0x1_0000_0000_0000_0800,
{
    f64_value_u64(n)
}

/// `format!("{:.p$}", n as f64 / 2^k as f64)`, for `1 <= p <= 3` and
/// `k <= 64`.
pub fn format_fixed_pow2(n: u64, k: u32, p: u32) -> (r: String)
    requires
        k <= 64,
        1 <= p <= 3,
    ensures
        r@ == fixed_text(n as nat, k as nat, p as nat),
{
    let m = f64_value_u64(n);
    let scale = ten_pow_u128(p);
    let d = two_pow_u128(k);
    proof {
        lemma_two_pow_mono(k as nat, 64);
        assert(m * scale <= 0x1_0000_0000_0000_0800 * 1000) by (nonlinear_arith)
            requires
                m <= 0x1_0000_0000_0000_0800,
                scale <= 1000,
        ;
    }
    let q = round_div_even_u128(m * scale, d);
    let whole = decimal_u128(q / scale);
    let frac = q % scale;
    let digits = decimal_u128(frac);
    let mut out = whole;
    push_char(&mut out, '.');
    let mut pad: usize = 0;
    let width: usize = p as usize;
    let dlen: usize = digits.as_str().unicode_len();
    let mut zeros = String::new();
    if dlen < width {
        let mut i: usize = 0;
        while i < width - dlen
            invariant
                i <= width - dlen,
                zeros@ == Seq::new(i as nat, |_j: int| '0'),
            decreases width - dlen - i,
        {
            push_char(&mut zeros, '0');
            proof {
                assert(zeros@ =~= Seq::new((i + 1) as nat, |_j: int| '0'));
            }
            i = i + 1;
        }
    }
    push_str(&mut out, zeros.as_str());
    push_str(&mut out, digits.as_str());
    proof {
        assert(zeros@ + digits@ =~= zero_padded(frac as nat, p as nat));
        assert(out@ =~= fixed_text(n as nat, k as nat, p as nat));
    }
    out
}

/// A byte count in the largest binary unit it reaches, with two decimals
/// (`B` below one KiB, where the count is printed as it is).
pub open spec fn size_text(bytes: nat) -> Seq<char> {
    if bytes >= two_pow(40) {
        fixed_text(bytes, 40, 2) + " TB"@
    } else if bytes >= two_pow(30) {
        fixed_text(bytes, 30, 2) + " GB"@
    } else if bytes >= two_pow(20) {
        fixed_text(bytes, 20, 2) + " MB"@
    } else if bytes >= two_pow(10) {
        fixed_text(bytes, 10, 2) + " KB"@
    } else {
        decimal(bytes) + " B"@
    }
}

/// Human-readable size of a byte count.
pub fn format_size(bytes: u64) -> (r: String)
    ensures
        r@ == size_text(bytes as nat),
{
    let tb = two_pow_u128(40);
    let gb = two_pow_u128(30);
    let mb = two_pow_u128(20);
    let kb = two_pow_u128(10);
    let b = bytes as u128;
    if b >= tb {
        let mut r = format_fixed_pow2(bytes, 40, 2);
        push_str(&mut r, " TB");
        r
    } else if b >= gb {
        let mut r = format_fixed_pow2(bytes, 30, 2);
        push_str(&mut r, " GB");
        r
    } else if b >= mb {
        let mut r = format_fixed_pow2(bytes, 20, 2);
        push_str(&mut r, " MB");
        r
    } else if b >= kb {
        let mut r = format_fixed_pow2(bytes, 10, 2);
        push_str(&mut r, " KB");
        r
    } else {
        let mut r = decimal_u128(b);
        push_str(&mut r, " B");
        r
    }
}

} // verus!
