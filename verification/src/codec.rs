//! Fixed-point register encoding primitives: 16-bit two's-complement
//! reinterpretation, 32-bit values split into low/high words, rounding
//! division for unit scaling, and saturation to the representable ranges.

use vstd::prelude::*;

verus! {

/// The value of a 16-bit register pattern read as a signed 16-bit integer.
pub open spec fn as_signed16(v: u16) -> int {
    if v < 0x8000 {
        v as int
    } else {
        v - 0x10000
    }
}

/// The 16-bit register pattern of a signed 16-bit integer.
pub open spec fn as_word16(x: i16) -> int {
    if x >= 0 {
        x as int
    } else {
        x + 0x10000
    }
}

/// The value of a 32-bit pattern read as a signed 32-bit integer.
pub open spec fn as_signed32(v: u32) -> int {
    if v < 0x8000_0000 {
        v as int
    } else {
        v - 0x1_0000_0000
    }
}

/// The 32-bit pattern of a signed 32-bit integer.
pub open spec fn as_word32(x: i32) -> int {
    if x >= 0 {
        x as int
    } else {
        x + 0x1_0000_0000
    }
}

/// Low 16-bit word of a 32-bit value.
pub open spec fn low_word(v: u32) -> int {
    (v as int) % 0x10000
}

/// High 16-bit word of a 32-bit value.
pub open spec fn high_word(v: u32) -> int {
    (v as int) / 0x10000
}

/// `(high << 16) | low` as arithmetic.
pub open spec fn join_words(low: u16, high: u16) -> int {
    high * 0x10000 + low
}

/// Reads a register pattern as a signed 16-bit integer.
pub fn u16_to_i16(v: u16) -> (r: i16)
    ensures
        r as int == as_signed16(v),
{
    if v < 0x8000 {
        v as i16
    } else {
        ((v as i32) - 0x10000) as i16
    }
}

/// Writes a signed 16-bit integer as its register pattern.
pub fn i16_to_u16(x: i16) -> (r: u16)
    ensures
        r as int == as_word16(x),
        as_signed16(r) == x as int,
{
    if x >= 0 {
        x as u16
    } else {
        ((x as i32) + 0x10000) as u16
    }
}

/// Reads a 32-bit pattern as a signed 32-bit integer.
pub fn u32_to_i32(v: u32) -> (r: i32)
    ensures
        r as int == as_signed32(v),
{
    if v < 0x8000_0000 {
        v as i32
    } else {
        ((v as i64) - 0x1_0000_0000) as i32
    }
}

/// Writes a signed 32-bit integer as its 32-bit pattern.
pub fn i32_to_u32(x: i32) -> (r: u32)
    ensures
        r as int == as_word32(x),
        as_signed32(r) == x as int,
{
    if x >= 0 {
        x as u32
    } else {
        ((x as i64) + 0x1_0000_0000) as u32
    }
}

/// Low 16-bit word of a 32-bit value.
pub fn split_low(v: u32) -> (r: u16)
    ensures
        r as int == low_word(v),
{
    proof {
        assert((v & 0xFFFF) < 0x10000 && (v & 0xFFFF) == v % 0x10000) by (bit_vector);
    }
    (v & 0xFFFF) as u16
}

/// High 16-bit word of a 32-bit value.
pub fn split_high(v: u32) -> (r: u16)
    ensures
        r as int == high_word(v),
{
    proof {
        assert((v >> 16) < 0x10000 && (v >> 16) == v / 0x10000) by (bit_vector);
    }
    (v >> 16) as u16
}

/// Recombines low/high words into the 32-bit value `(high << 16) | low`.
pub fn join_u32(low: u16, high: u16) -> (r: u32)
    ensures
        r as int == join_words(low, high),
{
    let h: u32 = high as u32;
    let l: u32 = low as u32;
    proof {
        assert(((h << 16) | l) == h * 0x10000 + l) by (bit_vector)
            requires
                h < 0x10000 && l < 0x10000,
        ;
    }
    (h << 16) | l
}

/// Any 32-bit value split as low/high 16-bit words round-trips via
/// `(high << 16) | low`.
pub proof fn lemma_u32_word_round_trip(v: u32)
    ensures
        join_words((low_word(v) as u16), (high_word(v) as u16)) == v,
{
    assert(v / 0x10000 * 0x10000 + v % 0x10000 == v) by (nonlinear_arith);
}

/// The signed interpretation of a 32-bit register pair round-trips across the
/// full signed 32-bit range: splitting the pattern of `x` into words and
/// recombining them yields a pattern whose signed reading is `x` again.
pub proof fn lemma_i32_word_round_trip(x: i32)
    ensures
        forall|p: u32|
            p as int == as_word32(x) ==> as_signed32(
                (join_words((low_word(p) as u16), (high_word(p) as u16)) as u32),
            ) == x as int,
{
    assert forall|p: u32| p as int == as_word32(x) implies as_signed32(
        (join_words((low_word(p) as u16), (high_word(p) as u16)) as u32),
    ) == x as int by {
        lemma_u32_word_round_trip(p);
    }
}

/// Rounding division, half away from zero, for a positive divisor.
pub open spec fn round_div(n: int, d: int) -> int
    recommends
        d > 0,
{
    if n >= 0 {
        (n + d / 2) / d
    } else {
        -(((-n) + d / 2) / d)
    }
}

/// Divides with rounding half away from zero.
pub fn round_div_i64(n: i64, d: i64) -> (r: i64)
    requires
        0 < d <= 0x1000_0000_0000,
        -0x4000_0000_0000_0000 <= n <= 0x4000_0000_0000_0000,
    ensures
        r == round_div(n as int, d as int),
{
    if n >= 0 {
        (n + d / 2) / d
    } else {
        let m = -n;
        -((m + d / 2) / d)
    }
}

/// Divides a non-negative quantity with rounding half away from zero.
pub fn round_div_u64(n: u64, d: u64) -> (r: u64)
    requires
        0 < d <= 0x1000_0000_0000,
        n <= 0x8000_0000_0000_0000,
    ensures
        r == round_div(n as int, d as int),
{
    (n + d / 2) / d
}

/// Saturates to the signed 16-bit range and returns the register pattern,
/// as a register write of a signed quantity does.
pub fn saturate_i16_word(v: i64) -> (r: u16)
    ensures
        as_signed16(r) == if v < -0x8000 {
            -0x8000int
        } else if v > 0x7FFF {
            0x7FFF as int
        } else {
            v as int
        },
{
    if v < -0x8000 {
        i16_to_u16(-0x8000)
    } else if v > 0x7FFF {
        i16_to_u16(0x7FFF)
    } else {
        i16_to_u16(v as i16)
    }
}

/// Saturates to the signed 32-bit range and returns the 32-bit pattern.
pub fn saturate_i32_word(v: i64) -> (r: u32)
    ensures
        as_signed32(r) == if v < -0x8000_0000 {
            -0x8000_0000int
        } else if v > 0x7FFF_FFFF {
            0x7FFF_FFFF as int
        } else {
            v as int
        },
{
    if v < -0x8000_0000 {
        i32_to_u32(-0x8000_0000)
    } else if v > 0x7FFF_FFFF {
        i32_to_u32(0x7FFF_FFFF)
    } else {
        i32_to_u32(v as i32)
    }
}

/// Saturates a non-negative quantity to the unsigned 16-bit range.
pub fn saturate_u16(v: u64) -> (r: u16)
    ensures
        r == if v > 0xFFFF {
            0xFFFF as u64
        } else {
            v
        },
{
    if v > 0xFFFF {
        0xFFFF
    } else {
        v as u16
    }
}

/// Saturates a non-negative quantity to the unsigned 32-bit range.
pub fn saturate_u32(v: u64) -> (r: u32)
    ensures
        r == if v > 0xFFFF_FFFF {
            0xFFFF_FFFF as u64
        } else {
            v
        },
{
    if v > 0xFFFF_FFFF {
        0xFFFF_FFFF
    } else {
        v as u32
    }
}

/// Clamps a signed quantity to `[0, hi]`.
pub fn clamp_i64_nonneg(v: i64, hi: u64) -> (r: u64)
    requires
        hi <= 0x7FFF_FFFF_FFFF_FFFF,
    ensures
        r == if v < 0 {
            0int
        } else if v > hi {
            hi as int
        } else {
            v as int
        },
{
    if v < 0 {
        0
    } else if (v as u64) > hi {
        hi
    } else {
        v as u64
    }
}

} // verus!
