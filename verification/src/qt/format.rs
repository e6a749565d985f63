//! Byte counts for display, as `format_bytes` prints them.

use vstd::prelude::*;
use vstd::string::*;
use crate::text::{decimal, decimal_string, digit_literal, digit_text};

verus! {

/// `n / d` rounded to the nearest integer, ties to the even neighbour.
pub open spec fn round_half_even(n: nat, d: nat) -> nat
    recommends
        d > 0,
{
    let q = n / d;
    let r = n % d;
    if 2 * r > d || (2 * r == d && q % 2 == 1) {
        q + 1
    } else {
        q
    }
}

/// The power of two that a `u64` is rounded to a multiple of when it is
/// converted to `f64`, whose significand has 53 bits.
pub open spec fn f64_spacing(b: u64) -> nat {
    if b < 0x20_0000_0000_0000 {
        1
    } else if b < 0x40_0000_0000_0000 {
        2
    } else if b < 0x80_0000_0000_0000 {
        4
    } else if b < 0x100_0000_0000_0000 {
        8
    } else if b < 0x200_0000_0000_0000 {
        16
    } else if b < 0x400_0000_0000_0000 {
        32
    } else if b < 0x800_0000_0000_0000 {
        64
    } else if b < 0x1000_0000_0000_0000 {
        128
    } else if b < 0x2000_0000_0000_0000 {
        256
    } else if b < 0x4000_0000_0000_0000 {
        512
    } else if b < 0x8000_0000_0000_0000 {
        1024
    } else {
        2048
    }
}

/// The value of `b as f64`: `b` rounded to the nearest multiple of the
/// spacing, ties to even.
pub open spec fn f64_value(b: u64) -> nat {
    round_half_even(b as nat, f64_spacing(b)) * f64_spacing(b)
}

/// The unit index that `format_bytes` divides down to: B, KiB, MiB or GiB.
pub open spec fn byte_unit(b: u64) -> nat {
    if b >= 0x4000_0000 {
        3
    } else if b >= 0x10_0000 {
        2
    } else if b >= 0x400 {
        1
    } else {
        0
    }
}

/// 1024 to the power of a unit index.
pub open spec fn unit_divisor(unit: nat) -> nat {
    if unit == 0 {
        1
    } else if unit == 1 {
        0x400
    } else if unit == 2 {
        0x10_0000
    } else {
        0x4000_0000
    }
}

/// The name of a unit index.
pub open spec fn unit_name(unit: nat) -> Seq<char> {
    if unit == 0 {
        "B"@
    } else if unit == 1 {
        "KiB"@
    } else if unit == 2 {
        "MiB"@
    } else {
        "GiB"@
    }
}

/// The size in tenths of the unit, rounded as `{:.1}` rounds: ties to even.
pub open spec fn size_tenths(b: u64) -> nat {
    round_half_even(f64_value(b) * 10, unit_divisor(byte_unit(b)))
}

/// A byte count for display: whole bytes below 1 KiB, otherwise the size in
/// the largest of KiB, MiB and GiB that it reaches, with one decimal.
pub open spec fn formatted_bytes(b: u64) -> Seq<char> {
    if byte_unit(b) == 0 {
        decimal(b as nat) + " "@ + "B"@
    } else {
        decimal(size_tenths(b) / 10) + "."@ + digit_text(size_tenths(b) % 10) + " "@ + unit_name(
            byte_unit(b),
        )
    }
}

/// `n / d` rounded to the nearest integer, ties to even.
fn divide_half_even(n: u128, d: u128) -> (r: u128)
    requires
        0 < d <= 0x1_0000_0000,
        n <= 0x1_0000_0000_0000_0000_0000,
    ensures
        r == round_half_even(n as nat, d as nat),
        r <= n / d + 1,
{
    let q = n / d;
    let rem = n % d;
    assert(rem < d);
    if 2 * rem > d || (2 * rem == d && q % 2 == 1) {
        assert(q <= n) by (nonlinear_arith)
            requires
                q == n / d,
                d > 0,
        ;
        q + 1
    } else {
        q
    }
}

/// Renders a byte count as the cache view shows it.
pub fn format_bytes(bytes: u64) -> (r: String)
    ensures
        r@ == formatted_bytes(bytes),
{
    if bytes < 1024 {
        let mut s = decimal_string(bytes as u128);
        s.append(" ");
        s.append("B");
        return s;
    }
    let spacing: u128 = if bytes < 0x20_0000_0000_0000 {
        1
    } else if bytes < 0x40_0000_0000_0000 {
        2
    } else if bytes < 0x80_0000_0000_0000 {
        4
    } else if bytes < 0x100_0000_0000_0000 {
        8
    } else if bytes < 0x200_0000_0000_0000 {
        16
    } else if bytes < 0x400_0000_0000_0000 {
        32
    } else if bytes < 0x800_0000_0000_0000 {
        64
    } else if bytes < 0x1000_0000_0000_0000 {
        128
    } else if bytes < 0x2000_0000_0000_0000 {
        256
    } else if bytes < 0x4000_0000_0000_0000 {
        512
    } else if bytes < 0x8000_0000_0000_0000 {
        1024
    } else {
        2048
    };
    let b = bytes as u128;
    let rounded = divide_half_even(b, spacing);
    assert((b / spacing + 1) * spacing <= b + spacing) by (nonlinear_arith)
        requires
            spacing > 0,
    ;
    assert(rounded * spacing <= (b / spacing + 1) * spacing) by (nonlinear_arith)
        requires
            rounded <= b / spacing + 1,
            spacing > 0,
    ;
    let value = rounded * spacing;
    let (unit, divisor, name): (u8, u128, &str) = if bytes >= 0x4000_0000 {
        (3, 0x4000_0000, "GiB")
    } else if bytes >= 0x10_0000 {
        (2, 0x10_0000, "MiB")
    } else {
        (1, 0x400, "KiB")
    };
    let tenths = divide_half_even(value * 10, divisor);
    assert(unit as nat == byte_unit(bytes));
    assert(value * 10 == f64_value(bytes) * 10);
    let mut s = decimal_string(tenths / 10);
    s.append(".");
    s.append(digit_literal(tenths % 10));
    s.append(" ");
    s.append(name);
    s
}

} // verus!
