//! Rendering of metric values for display.
//!
//! Byte counts are scaled to the nearest binary unit with one decimal
//! place, rounding half to even; absent values render as `N/A`.

use vstd::prelude::*;
use vstd::string::*;

use crate::strutil::{spec_dec, spec_dec_digit, u128_to_dec, u64_to_dec};

verus! {

/// `b * 10 / d` rounded to the nearest integer, half to even.
pub open spec fn spec_rounded_tenths(b: int, d: int) -> int {
    let q = b * 10 / d;
    let r = b * 10 % d;
    if 2 * r > d {
        q + 1
    } else if 2 * r < d {
        q
    } else if q % 2 == 1 {
        q + 1
    } else {
        q
    }
}

/// The value scaled by `d`, with one decimal place.
pub open spec fn spec_one_decimal(b: int, d: int) -> Seq<char> {
    let t = spec_rounded_tenths(b, d);
    spec_dec((t / 10) as nat) + "."@ + seq![spec_dec_digit(t % 10)]
}

/// How a byte count renders: as bytes below one KiB, otherwise scaled to
/// the largest binary unit below it, with one decimal place.
pub open spec fn spec_format_bytes(v: Option<u64>) -> Seq<char> {
    match v {
        None => "N/A"@,
        Some(b) => if b < 1024 {
            spec_dec(b as nat) + " B"@
        } else if b < 0x100000 {
            spec_one_decimal(b as int, 1024) + " KiB"@
        } else if b < 0x40000000 {
            spec_one_decimal(b as int, 0x100000) + " MiB"@
        } else {
            spec_one_decimal(b as int, 0x40000000) + " GiB"@
        },
    }
}

/// Tenths of `b / d`, rounded half to even.
fn rounded_tenths(b: u64, d: u64) -> (t: u64)
    requires
        1024 <= d,
    ensures
        t == spec_rounded_tenths(b as int, d as int),
{
    let wide: u128 = (b as u128) * 10;
    let q: u128 = wide / (d as u128);
    let r: u128 = wide % (d as u128);
    proof {
        assert(q * (d as u128) + r == wide) by (nonlinear_arith)
            requires
                q == wide / (d as u128),
                r == wide % (d as u128),
                d >= 1024,
        ;
        assert(q <= wide / 1024) by (nonlinear_arith)
            requires
                q * (d as u128) + r == wide,
                0 <= r,
                d >= 1024,
                q >= 0,
        ;
    }
    let qq: u64 = q as u64;
    let rr2: u128 = 2 * r;
    if rr2 > d as u128 {
        qq + 1
    } else if rr2 < d as u128 {
        qq
    } else if qq % 2 == 1 {
        qq + 1
    } else {
        qq
    }
}

/// Render a scaled value with one decimal place.
fn one_decimal(b: u64, d: u64) -> (r: String)
    requires
        1024 <= d,
    ensures
        r@ == spec_one_decimal(b as int, d as int),
{
    let t = rounded_tenths(b, d);
    let whole = u64_to_dec(t / 10);
    let r = whole.concat(".").concat(u64_to_dec(t % 10).as_str());
    proof {
        assert(seq![spec_dec_digit((t % 10) as int)] =~= spec_dec((t % 10) as nat));
        assert(r@ =~= spec_one_decimal(b as int, d as int));
    }
    r
}

/// Render an optional byte count ("1.0 KiB", "3.4 GiB", "N/A").
pub fn format_bytes(value: Option<u64>) -> (r: String)
    ensures
        r@ == spec_format_bytes(value),
{
    match value {
        None => String::from_str("N/A"),
        Some(bytes) => {
            if bytes < 1024 {
                u64_to_dec(bytes).concat(" B")
            } else if bytes < 0x100000 {
                one_decimal(bytes, 1024).concat(" KiB")
            } else if bytes < 0x40000000 {
                one_decimal(bytes, 0x100000).concat(" MiB")
            } else {
                one_decimal(bytes, 0x40000000).concat(" GiB")
            }
        },
    }
}

/// How an optional duration in milliseconds renders.
pub open spec fn spec_format_duration_ms(v: Option<u128>) -> Seq<char> {
    match v {
        None => "N/A"@,
        Some(ms) => spec_dec(ms as nat) + " ms"@,
    }
}

/// Render an optional duration in milliseconds ("450 ms", "N/A").
pub fn format_duration_ms(value: Option<u128>) -> (r: String)
    ensures
        r@ == spec_format_duration_ms(value),
{
    match value {
        None => String::from_str("N/A"),
        Some(ms) => u128_to_dec(ms).concat(" ms"),
    }
}

/// How an optional counter renders.
pub open spec fn spec_format_optional_u64(v: Option<u64>) -> Seq<char> {
    match v {
        None => "N/A"@,
        Some(n) => spec_dec(n as nat),
    }
}

/// Render an optional counter ("42", "N/A").
pub fn format_optional_u64(value: Option<u64>) -> (r: String)
    ensures
        r@ == spec_format_optional_u64(value),
{
    match value {
        None => String::from_str("N/A"),
        Some(n) => u64_to_dec(n),
    }
}

} // verus!
