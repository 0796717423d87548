//! Human-readable byte counts ("500 B", "1.5 KB", "2.0 GB"), rendered with
//! one decimal the way `format!("{:.1}", x as f64 / unit as f64)` does.

use vstd::prelude::*;

use crate::text::{decimal, digit_char, push_char, push_decimal, push_str};

verus! {

/// One kibibyte.
pub const KB: u64 = 1024;
/// One mebibyte.
pub const MB: u64 = 1048576;
/// One gibibyte.
pub const GB: u64 = 1073741824;
/// 2^53: below this every integer is exactly an `f64`.
pub const F64_EXACT_LIMIT: u128 = 9007199254740992;

/// `n / d` rounded to the nearest integer, ties to the even neighbour.
pub open spec fn div_round_half_even(n: nat, d: nat) -> nat
    recommends
        d > 0,
{
    let q = n / d;
    let r = n % d;
    if 2 * r > d {
        q + 1
    } else if 2 * r < d {
        q
    } else if q % 2 == 1 {
        q + 1
    } else {
        q
    }
}

/// The smallest power of two, starting the search at `p`, by which `b`
/// divides to below 2^53: the spacing of the `f64` values around `b`.
pub open spec fn f64_spacing_from(b: nat, p: nat) -> nat
    recommends
        p > 0,
    decreases if p > b { 0 } else { b + 1 - p },
    when p > 0
{
    if b / p < F64_EXACT_LIMIT || p > b {
        p
    } else {
        f64_spacing_from(b, 2 * p)
    }
}

/// One step of the spacing search.
proof fn lemma_spacing_step(b: nat, p: nat)
    requires
        p > 0,
        p <= b,
        b / p >= F64_EXACT_LIMIT,
    ensures
        f64_spacing_from(b, p) == f64_spacing_from(b, 2 * p),
{
    reveal_with_fuel(f64_spacing_from, 2);
}

/// The spacing of the `f64` values around `b`.
pub open spec fn f64_spacing(b: nat) -> nat {
    f64_spacing_from(b, 1)
}

/// The value of `b as f64`: `b` rounded to the nearest multiple of the
/// spacing, ties to an even multiple.
pub open spec fn as_f64_value(b: nat) -> nat {
    div_round_half_even(b, f64_spacing(b)) * f64_spacing(b)
}

/// `n / unit` with one decimal, rounded half to even.
pub open spec fn one_decimal(n: nat, unit: nat) -> Seq<char> {
    let t = div_round_half_even(10 * n, unit);
    decimal(t / 10) + seq!['.', digit_char(t % 10)]
}

/// The rendering of a byte count: GB, MB or KB with one decimal from the
/// largest unit it reaches, else whole bytes.
pub open spec fn format_bytes_spec(bytes: u64) -> Seq<char> {
    if bytes >= GB {
        one_decimal(as_f64_value(bytes as nat), GB as nat) + " GB"@
    } else if bytes >= MB {
        one_decimal(bytes as nat, MB as nat) + " MB"@
    } else if bytes >= KB {
        one_decimal(bytes as nat, KB as nat) + " KB"@
    } else {
        decimal(bytes as nat) + " B"@
    }
}

/// `n / d` rounded half to even.
fn round_half_even(n: u128, d: u128) -> (q: u128)
    requires
        d > 0,
        n / d < u128::MAX,
    ensures
        q == div_round_half_even(n as nat, d as nat),
{
    let q = n / d;
    let r = n % d;
    if r > d - r {
        q + 1
    } else if r < d - r {
        q
    } else if q % 2 == 1 {
        q + 1
    } else {
        q
    }
}

/// The value of `b as f64`, as an integer.
fn f64_value(b: u64) -> (v: u128)
    ensures
        v == as_f64_value(b as nat),
        v <= 18446744073709551616u128,
{
    let big = b as u128;
    let mut p: u128 = 1;
    let mut k: u32 = 0;
    proof {
        vstd::arithmetic::power2::lemma2_to64();
    }
    while k < 11 && big / p >= F64_EXACT_LIMIT
        invariant
            big == b as u128,
            k <= 11,
            p == vstd::arithmetic::power2::pow2(k as nat),
            p > 0,
            p <= 2048,
            p <= big + 1,
            f64_spacing_from(b as nat, p as nat) == f64_spacing(b as nat),
        decreases 11 - k,
    {
        proof {
            vstd::arithmetic::power2::lemma_pow2_unfold((k + 1) as nat);
            vstd::arithmetic::power2::lemma2_to64();
            vstd::arithmetic::power2::lemma_pow2_strictly_increases(k as nat, 11);
            assert(p * 2 <= big) by (nonlinear_arith)
                requires big / p >= F64_EXACT_LIMIT, p > 0;
            assert(p <= big);
            assert(big as nat == b as nat);
            assert((b as nat) / (p as nat) == (big / p) as nat);
            lemma_spacing_step(b as nat, p as nat);
        }
        p = p * 2;
        k = k + 1;
    }
    proof {
        vstd::arithmetic::power2::lemma2_to64();
        if k == 11 {
            assert(big / 2048 < F64_EXACT_LIMIT);
        }
        assert(big / p < F64_EXACT_LIMIT);
        assert(f64_spacing_from(b as nat, p as nat) == p);
        assert(big / p <= big) by (nonlinear_arith)
            requires p > 0;
    }
    let q = round_half_even(big, p);
    proof {
        assert(q <= F64_EXACT_LIMIT);
        assert(q * p <= 18446744073709551616u128) by (nonlinear_arith)
            requires q <= 9007199254740992u128, p <= 2048;
    }
    q * p
}

/// Appends `n / unit` with one decimal, rounded half to even.
fn push_one_decimal(s: &mut String, n: u128, unit: u128)
    requires
        unit >= 1024,
        n <= 18446744073709551616u128,
    ensures
        final(s)@ == old(s)@ + one_decimal(n as nat, unit as nat),
{
    let t = round_half_even(10 * n, unit);
    proof {
        let ten_n: int = 10 * n;
        assert(ten_n / (unit as int) <= ten_n / 1024) by (nonlinear_arith)
            requires unit >= 1024, ten_n >= 0;
        assert(t <= ten_n / (unit as int) + 1);
        assert(t / 10 <= u64::MAX);
    }
    let whole = (t / 10) as u64;
    let tenth = (t % 10) as u64;
    push_decimal(s, whole);
    push_char(s, '.');
    push_char(s, crate::text::digit_char_of(tenth));
    proof {
        assert(final(s)@ =~= old(s)@ + one_decimal(n as nat, unit as nat));
    }
}

/// Format bytes into a human-readable string (KB, MB, GB).
pub fn format_bytes(bytes: u64) -> (res: String)
    ensures
        res@ == format_bytes_spec(bytes),
{
    let mut out = String::new();
    if bytes >= GB {
        let v = f64_value(bytes);
        push_one_decimal(&mut out, v, GB as u128);
        push_str(&mut out, " GB");
    } else if bytes >= MB {
        push_one_decimal(&mut out, bytes as u128, MB as u128);
        push_str(&mut out, " MB");
    } else if bytes >= KB {
        push_one_decimal(&mut out, bytes as u128, KB as u128);
        push_str(&mut out, " KB");
    } else {
        push_decimal(&mut out, bytes);
        push_str(&mut out, " B");
    }
    proof {
        assert(out@ =~= format_bytes_spec(bytes));
    }
    out
}


/// Byte counts below one kibibyte are shown whole with `B`; from one
/// kibibyte, one mebibyte and one gibibyte on they are shown in `KB`, `MB`
/// and `GB`; a whole number `n` of kibibytes (below a mebibyte) reads
/// `n.0 KB`.
pub proof fn lemma_byte_units(bytes: u64, n: nat)
    ensures
        bytes < KB ==> format_bytes_spec(bytes) == decimal(bytes as nat) + " B"@,
        KB <= bytes < MB ==> exists|v: Seq<char>| format_bytes_spec(bytes) == v + " KB"@,
        MB <= bytes < GB ==> exists|v: Seq<char>| format_bytes_spec(bytes) == v + " MB"@,
        GB <= bytes ==> exists|v: Seq<char>| format_bytes_spec(bytes) == v + " GB"@,
        1 <= n < 1024 && bytes == n * 1024 ==> format_bytes_spec(bytes) == decimal(n) + seq!['.', '0'] + " KB"@,
{
    if KB <= bytes < MB {
        assert(format_bytes_spec(bytes) == one_decimal(bytes as nat, KB as nat) + " KB"@);
    }
    if MB <= bytes < GB {
        assert(format_bytes_spec(bytes) == one_decimal(bytes as nat, MB as nat) + " MB"@);
    }
    if GB <= bytes {
        assert(format_bytes_spec(bytes) == one_decimal(as_f64_value(bytes as nat), GB as nat) + " GB"@);
    }
    if 1 <= n < 1024 && bytes == n * 1024 {
        assert((10 * (n * 1024)) / 1024 == 10 * n && (10 * (n * 1024)) % 1024 == 0) by (nonlinear_arith);
        assert(div_round_half_even(10 * (bytes as nat), 1024) == 10 * n);
        assert((10 * n) / 10 == n && (10 * n) % 10 == 0) by (nonlinear_arith);
    }
}

} // verus!
