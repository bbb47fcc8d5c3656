//! Value-level semantics of the checked operations.
//!
//! Each supported (operation, type) entry of the dispatch table has a
//! function here that computes, the way the selected strategy computes it,
//! the result pair `(wrapped value, overflow flag)`. Every contract states
//! the canonical two's-complement definition of checked arithmetic: the
//! value wraps modulo 2^width, and the flag is set exactly when the true
//! mathematical result falls outside the representable range.

use vstd::prelude::*;
use vstd::arithmetic::div_mod::{lemma_small_mod, lemma_mod_multiples_vanish};

verus! {

/// `t` reduced modulo `range` into `[0, range)`: the value an unsigned type
/// of that range stores after wrapping.
pub open spec fn wrap_unsigned(t: int, range: int) -> int {
    t % range
}

/// `t` reduced modulo `2 * half` into `[-half, half)`: the value a signed
/// type with magnitude bound `half` (2^(width-1)) stores after wrapping.
pub open spec fn wrap_signed(t: int, half: int) -> int {
    if t % (2 * half) >= half {
        t % (2 * half) - 2 * half
    } else {
        t % (2 * half)
    }
}

pub proof fn lemma_wrap_unsigned_in_range(t: int, range: int)
    requires
        range > 0,
        0 <= t < range,
    ensures
        wrap_unsigned(t, range) == t,
{
    lemma_small_mod(t as nat, range as nat);
}

pub proof fn lemma_wrap_unsigned_shift(t: int, range: int)
    requires
        range > 0,
    ensures
        wrap_unsigned(t + range, range) == wrap_unsigned(t, range),
        wrap_unsigned(t - range, range) == wrap_unsigned(t, range),
{
    lemma_mod_multiples_vanish(1, t, range);
    lemma_mod_multiples_vanish(-1, t, range);
}

pub proof fn lemma_wrap_signed_in_range(t: int, half: int)
    requires
        half > 0,
        -half <= t < half,
    ensures
        wrap_signed(t, half) == t,
{
    if t >= 0 {
        lemma_small_mod(t as nat, (2 * half) as nat);
    } else {
        lemma_mod_multiples_vanish(1, t, 2 * half);
        lemma_small_mod((t + 2 * half) as nat, (2 * half) as nat);
    }
}

pub proof fn lemma_wrap_signed_shift(t: int, half: int)
    requires
        half > 0,
    ensures
        wrap_signed(t + 2 * half, half) == wrap_signed(t, half),
        wrap_signed(t - 2 * half, half) == wrap_signed(t, half),
{
    lemma_mod_multiples_vanish(1, t, 2 * half);
    lemma_mod_multiples_vanish(-1, t, 2 * half);
}

/// Carry identity of the unsigned mask strategy, 8-bit: the wrapped sum is
/// smaller than `a | b` exactly when the true sum exceeds the type's
/// maximum.
pub proof fn lemma_carry_identity_u8(a: u8, b: u8)
    ensures
        (wrap_unsigned(a + b, 0x100) < (a | b)) <==> (a + b > u8::MAX),
{
    assert(((a + b) % 0x100 < (a | b)) <==> (a + b > 0xff)) by (bit_vector);
}

/// Carry identity of the unsigned mask strategy, 16-bit.
pub proof fn lemma_carry_identity_u16(a: u16, b: u16)
    ensures
        (wrap_unsigned(a + b, 0x1_0000) < (a | b)) <==> (a + b > u16::MAX),
{
    assert(((a + b) % 0x1_0000 < (a | b)) <==> (a + b > 0xffff)) by (bit_vector);
}

/// Carry identity of the unsigned mask strategy, 32-bit.
pub proof fn lemma_carry_identity_u32(a: u32, b: u32)
    ensures
        (wrap_unsigned(a + b, 0x1_0000_0000) < (a | b)) <==> (a + b > u32::MAX),
{
    assert(((a + b) % 0x1_0000_0000 < (a | b)) <==> (a + b > 0xffff_ffff)) by (bit_vector);
}

/// Carry identity of the unsigned mask strategy, 64-bit.
pub proof fn lemma_carry_identity_u64(a: u64, b: u64)
    ensures
        (wrap_unsigned(a + b, 0x1_0000_0000_0000_0000) < (a | b)) <==> (a + b > u64::MAX),
{
    assert(((a + b) % 0x1_0000_0000_0000_0000 < (a | b)) <==> (a + b > 0xffff_ffff_ffff_ffff))
        by (bit_vector);
}

/// Sign rule of the signed mask strategy, 8-bit: the sum overflows exactly
/// when both operands carry the same sign bit and the wrapped sum's sign bit
/// differs from it.
pub proof fn lemma_sign_rule_i8(a: i8, b: i8)
    ensures
        ({
            let s = vstd::wrapping::i8_specs::wrapping_add(a, b);
            ((a & (-128i8)) == (b & (-128i8)) && (s & (-128i8)) != (a & (-128i8))) <==> !(
            i8::MIN <= a + b <= i8::MAX)
        }),
{
    assert(({
        let s = vstd::wrapping::i8_specs::wrapping_add(a, b);
        ((a & (-128i8)) == (b & (-128i8)) && (s & (-128i8)) != (a & (-128i8))) <==> !(-128 <= a + b
            <= 127)
    })) by (bit_vector);
}

/// Checked unsigned 8-bit addition as the mask strategy computes it: the
/// wrapped sum, with overflow read off the comparison `sum < (a | b)`.
pub fn checked_add_u8(a: u8, b: u8) -> (r: (u8, bool))
    ensures
        r.0 == wrap_unsigned(a + b, 0x100),
        r.1 <==> a + b > u8::MAX,
{
    let sum = a.wrapping_add(b);
    proof {
        if a + b > 0xff {
            lemma_wrap_unsigned_shift(a + b - 0x100, 0x100);
            lemma_wrap_unsigned_in_range(a + b - 0x100, 0x100);
        } else {
            lemma_wrap_unsigned_in_range(a + b, 0x100);
        }
        lemma_carry_identity_u8(a, b);
    }
    (sum, sum < (a | b))
}

/// Checked unsigned 16-bit addition by the mask strategy.
pub fn checked_add_u16(a: u16, b: u16) -> (r: (u16, bool))
    ensures
        r.0 == wrap_unsigned(a + b, 0x1_0000),
        r.1 <==> a + b > u16::MAX,
{
    let sum = a.wrapping_add(b);
    proof {
        if a + b > 0xffff {
            lemma_wrap_unsigned_shift(a + b - 0x1_0000, 0x1_0000);
            lemma_wrap_unsigned_in_range(a + b - 0x1_0000, 0x1_0000);
        } else {
            lemma_wrap_unsigned_in_range(a + b, 0x1_0000);
        }
        lemma_carry_identity_u16(a, b);
    }
    (sum, sum < (a | b))
}

/// Checked unsigned 32-bit addition by the mask strategy.
pub fn checked_add_u32(a: u32, b: u32) -> (r: (u32, bool))
    ensures
        r.0 == wrap_unsigned(a + b, 0x1_0000_0000),
        r.1 <==> a + b > u32::MAX,
{
    let sum = a.wrapping_add(b);
    proof {
        if a + b > 0xffff_ffff {
            lemma_wrap_unsigned_shift(a + b - 0x1_0000_0000, 0x1_0000_0000);
            lemma_wrap_unsigned_in_range(a + b - 0x1_0000_0000, 0x1_0000_0000);
        } else {
            lemma_wrap_unsigned_in_range(a + b, 0x1_0000_0000);
        }
        lemma_carry_identity_u32(a, b);
    }
    (sum, sum < (a | b))
}

/// Checked unsigned 64-bit addition by the mask strategy.
pub fn checked_add_u64(a: u64, b: u64) -> (r: (u64, bool))
    ensures
        r.0 == wrap_unsigned(a + b, 0x1_0000_0000_0000_0000),
        r.1 <==> a + b > u64::MAX,
{
    let sum = a.wrapping_add(b);
    proof {
        if a + b > 0xffff_ffff_ffff_ffff {
            lemma_wrap_unsigned_shift(a + b - 0x1_0000_0000_0000_0000, 0x1_0000_0000_0000_0000);
            lemma_wrap_unsigned_in_range(a + b - 0x1_0000_0000_0000_0000, 0x1_0000_0000_0000_0000);
        } else {
            lemma_wrap_unsigned_in_range(a + b, 0x1_0000_0000_0000_0000);
        }
        lemma_carry_identity_u64(a, b);
    }
    (sum, sum < (a | b))
}

/// Checked signed 8-bit addition as the promotion strategy computes it:
/// widen to 16 bits, add exactly, compare against the 8-bit range, truncate.
pub fn checked_add_i8(a: i8, b: i8) -> (r: (i8, bool))
    ensures
        r.0 == wrap_signed(a + b, 0x80),
        r.1 <==> !(i8::MIN <= a + b <= i8::MAX),
{
    let w: i16 = a as i16 + b as i16;
    let ov = w > i8::MAX as i16 || w < i8::MIN as i16;
    let v: i8 = if w > 127 {
        proof {
            lemma_wrap_signed_shift(a + b - 0x100, 0x80);
            lemma_wrap_signed_in_range(a + b - 0x100, 0x80);
        }
        (w - 256) as i8
    } else if w < -128 {
        proof {
            lemma_wrap_signed_shift(a + b, 0x80);
            lemma_wrap_signed_in_range(a + b + 0x100, 0x80);
        }
        (w + 256) as i8
    } else {
        proof {
            lemma_wrap_signed_in_range(a + b, 0x80);
        }
        w as i8
    };
    (v, ov)
}

/// Checked signed 16-bit addition by the promotion strategy, via 32 bits.
pub fn checked_add_i16(a: i16, b: i16) -> (r: (i16, bool))
    ensures
        r.0 == wrap_signed(a + b, 0x8000),
        r.1 <==> !(i16::MIN <= a + b <= i16::MAX),
{
    let w: i32 = a as i32 + b as i32;
    let ov = w > i16::MAX as i32 || w < i16::MIN as i32;
    let v: i16 = if w > 32767 {
        proof {
            lemma_wrap_signed_shift(a + b - 0x1_0000, 0x8000);
            lemma_wrap_signed_in_range(a + b - 0x1_0000, 0x8000);
        }
        (w - 65536) as i16
    } else if w < -32768 {
        proof {
            lemma_wrap_signed_shift(a + b, 0x8000);
            lemma_wrap_signed_in_range(a + b + 0x1_0000, 0x8000);
        }
        (w + 65536) as i16
    } else {
        proof {
            lemma_wrap_signed_in_range(a + b, 0x8000);
        }
        w as i16
    };
    (v, ov)
}

/// Checked signed 32-bit addition by the promotion strategy, via 64 bits.
pub fn checked_add_i32(a: i32, b: i32) -> (r: (i32, bool))
    ensures
        r.0 == wrap_signed(a + b, 0x8000_0000),
        r.1 <==> !(i32::MIN <= a + b <= i32::MAX),
{
    let w: i64 = a as i64 + b as i64;
    let ov = w > i32::MAX as i64 || w < i32::MIN as i64;
    let v: i32 = if w > 0x7fff_ffff {
        proof {
            lemma_wrap_signed_shift(a + b - 0x1_0000_0000, 0x8000_0000);
            lemma_wrap_signed_in_range(a + b - 0x1_0000_0000, 0x8000_0000);
        }
        (w - 0x1_0000_0000) as i32
    } else if w < -0x8000_0000 {
        proof {
            lemma_wrap_signed_shift(a + b, 0x8000_0000);
            lemma_wrap_signed_in_range(a + b + 0x1_0000_0000, 0x8000_0000);
        }
        (w + 0x1_0000_0000) as i32
    } else {
        proof {
            lemma_wrap_signed_in_range(a + b, 0x8000_0000);
        }
        w as i32
    };
    (v, ov)
}

/// Checked signed 64-bit addition by the wide-integer escape path: widen to
/// the runtime-supplied 128-bit type, add exactly, compare against the
/// 64-bit range, narrow.
pub fn checked_add_i64(a: i64, b: i64) -> (r: (i64, bool))
    ensures
        r.0 == wrap_signed(a + b, 0x8000_0000_0000_0000),
        r.1 <==> !(i64::MIN <= a + b <= i64::MAX),
{
    let w: i128 = a as i128 + b as i128;
    let ov = w > i64::MAX as i128 || w < i64::MIN as i128;
    let v: i64 = if w > 0x7fff_ffff_ffff_ffff {
        proof {
            lemma_wrap_signed_shift(a + b - 0x1_0000_0000_0000_0000, 0x8000_0000_0000_0000);
            lemma_wrap_signed_in_range(a + b - 0x1_0000_0000_0000_0000, 0x8000_0000_0000_0000);
        }
        (w - 0x1_0000_0000_0000_0000) as i64
    } else if w < -0x8000_0000_0000_0000 {
        proof {
            lemma_wrap_signed_shift(a + b, 0x8000_0000_0000_0000);
            lemma_wrap_signed_in_range(a + b + 0x1_0000_0000_0000_0000, 0x8000_0000_0000_0000);
        }
        (w + 0x1_0000_0000_0000_0000) as i64
    } else {
        proof {
            lemma_wrap_signed_in_range(a + b, 0x8000_0000_0000_0000);
        }
        w as i64
    };
    (v, ov)
}

/// Checked signed 8-bit subtraction by the promotion strategy, via 16 bits.
pub fn checked_sub_i8(a: i8, b: i8) -> (r: (i8, bool))
    ensures
        r.0 == wrap_signed(a - b, 0x80),
        r.1 <==> !(i8::MIN <= a - b <= i8::MAX),
{
    let w: i16 = a as i16 - b as i16;
    let ov = w > i8::MAX as i16 || w < i8::MIN as i16;
    let v: i8 = if w > 127 {
        proof {
            lemma_wrap_signed_shift(a - b - 0x100, 0x80);
            lemma_wrap_signed_in_range(a - b - 0x100, 0x80);
        }
        (w - 256) as i8
    } else if w < -128 {
        proof {
            lemma_wrap_signed_shift(a - b, 0x80);
            lemma_wrap_signed_in_range(a - b + 0x100, 0x80);
        }
        (w + 256) as i8
    } else {
        proof {
            lemma_wrap_signed_in_range(a - b, 0x80);
        }
        w as i8
    };
    (v, ov)
}

/// Checked signed 16-bit subtraction by the promotion strategy, via 32 bits.
pub fn checked_sub_i16(a: i16, b: i16) -> (r: (i16, bool))
    ensures
        r.0 == wrap_signed(a - b, 0x8000),
        r.1 <==> !(i16::MIN <= a - b <= i16::MAX),
{
    let w: i32 = a as i32 - b as i32;
    let ov = w > i16::MAX as i32 || w < i16::MIN as i32;
    let v: i16 = if w > 32767 {
        proof {
            lemma_wrap_signed_shift(a - b - 0x1_0000, 0x8000);
            lemma_wrap_signed_in_range(a - b - 0x1_0000, 0x8000);
        }
        (w - 65536) as i16
    } else if w < -32768 {
        proof {
            lemma_wrap_signed_shift(a - b, 0x8000);
            lemma_wrap_signed_in_range(a - b + 0x1_0000, 0x8000);
        }
        (w + 65536) as i16
    } else {
        proof {
            lemma_wrap_signed_in_range(a - b, 0x8000);
        }
        w as i16
    };
    (v, ov)
}

/// Checked signed 32-bit subtraction by the promotion strategy, via 64 bits.
pub fn checked_sub_i32(a: i32, b: i32) -> (r: (i32, bool))
    ensures
        r.0 == wrap_signed(a - b, 0x8000_0000),
        r.1 <==> !(i32::MIN <= a - b <= i32::MAX),
{
    let w: i64 = a as i64 - b as i64;
    let ov = w > i32::MAX as i64 || w < i32::MIN as i64;
    let v: i32 = if w > 0x7fff_ffff {
        proof {
            lemma_wrap_signed_shift(a - b - 0x1_0000_0000, 0x8000_0000);
            lemma_wrap_signed_in_range(a - b - 0x1_0000_0000, 0x8000_0000);
        }
        (w - 0x1_0000_0000) as i32
    } else if w < -0x8000_0000 {
        proof {
            lemma_wrap_signed_shift(a - b, 0x8000_0000);
            lemma_wrap_signed_in_range(a - b + 0x1_0000_0000, 0x8000_0000);
        }
        (w + 0x1_0000_0000) as i32
    } else {
        proof {
            lemma_wrap_signed_in_range(a - b, 0x8000_0000);
        }
        w as i32
    };
    (v, ov)
}

/// Checked signed 64-bit subtraction by the wide-integer escape path.
pub fn checked_sub_i64(a: i64, b: i64) -> (r: (i64, bool))
    ensures
        r.0 == wrap_signed(a - b, 0x8000_0000_0000_0000),
        r.1 <==> !(i64::MIN <= a - b <= i64::MAX),
{
    let w: i128 = a as i128 - b as i128;
    let ov = w > i64::MAX as i128 || w < i64::MIN as i128;
    let v: i64 = if w > 0x7fff_ffff_ffff_ffff {
        proof {
            lemma_wrap_signed_shift(a - b - 0x1_0000_0000_0000_0000, 0x8000_0000_0000_0000);
            lemma_wrap_signed_in_range(a - b - 0x1_0000_0000_0000_0000, 0x8000_0000_0000_0000);
        }
        (w - 0x1_0000_0000_0000_0000) as i64
    } else if w < -0x8000_0000_0000_0000 {
        proof {
            lemma_wrap_signed_shift(a - b, 0x8000_0000_0000_0000);
            lemma_wrap_signed_in_range(a - b + 0x1_0000_0000_0000_0000, 0x8000_0000_0000_0000);
        }
        (w + 0x1_0000_0000_0000_0000) as i64
    } else {
        proof {
            lemma_wrap_signed_in_range(a - b, 0x8000_0000_0000_0000);
        }
        w as i64
    };
    (v, ov)
}

/// Checked unsigned 8-bit subtraction by the promotion strategy: the
/// difference wraps in the 16-bit promoted type, and any borrow leaves a
/// promoted value above the 8-bit maximum.
pub fn checked_sub_u8(a: u8, b: u8) -> (r: (u8, bool))
    ensures
        r.0 == wrap_unsigned(a - b, 0x100),
        r.1 <==> a < b,
{
    let w: u16 = (a as u16).wrapping_sub(b as u16);
    let ov = w > u8::MAX as u16;
    let v: u8 = if a >= b {
        proof {
            lemma_wrap_unsigned_in_range(a - b, 0x100);
        }
        (w) as u8
    } else {
        proof {
            lemma_wrap_unsigned_shift(a - b, 0x100);
            lemma_wrap_unsigned_in_range(a - b + 0x100, 0x100);
        }
        (w - 0xff00) as u8
    };
    (v, ov)
}

/// Checked unsigned 16-bit subtraction by the promotion strategy, via 32
/// bits.
pub fn checked_sub_u16(a: u16, b: u16) -> (r: (u16, bool))
    ensures
        r.0 == wrap_unsigned(a - b, 0x1_0000),
        r.1 <==> a < b,
{
    let w: u32 = (a as u32).wrapping_sub(b as u32);
    let ov = w > u16::MAX as u32;
    let v: u16 = if a >= b {
        proof {
            lemma_wrap_unsigned_in_range(a - b, 0x1_0000);
        }
        (w) as u16
    } else {
        proof {
            lemma_wrap_unsigned_shift(a - b, 0x1_0000);
            lemma_wrap_unsigned_in_range(a - b + 0x1_0000, 0x1_0000);
        }
        (w - 0xffff_0000) as u16
    };
    (v, ov)
}

/// Checked unsigned 32-bit subtraction by the promotion strategy, via 64
/// bits.
pub fn checked_sub_u32(a: u32, b: u32) -> (r: (u32, bool))
    ensures
        r.0 == wrap_unsigned(a - b, 0x1_0000_0000),
        r.1 <==> a < b,
{
    let w: u64 = (a as u64).wrapping_sub(b as u64);
    let ov = w > u32::MAX as u64;
    let v: u32 = if a >= b {
        proof {
            lemma_wrap_unsigned_in_range(a - b, 0x1_0000_0000);
        }
        (w) as u32
    } else {
        proof {
            lemma_wrap_unsigned_shift(a - b, 0x1_0000_0000);
            lemma_wrap_unsigned_in_range(a - b + 0x1_0000_0000, 0x1_0000_0000);
        }
        (w - 0xffff_ffff_0000_0000) as u32
    };
    (v, ov)
}

/// Checked unsigned 64-bit subtraction by the wide-integer escape path: the
/// difference wraps in the runtime-supplied 128-bit type.
pub fn checked_sub_u64(a: u64, b: u64) -> (r: (u64, bool))
    ensures
        r.0 == wrap_unsigned(a - b, 0x1_0000_0000_0000_0000),
        r.1 <==> a < b,
{
    let w: u128 = (a as u128).wrapping_sub(b as u128);
    let ov = w > u64::MAX as u128;
    let v: u64 = if a >= b {
        proof {
            lemma_wrap_unsigned_in_range(a - b, 0x1_0000_0000_0000_0000);
        }
        (w) as u64
    } else {
        proof {
            lemma_wrap_unsigned_shift(a - b, 0x1_0000_0000_0000_0000);
            lemma_wrap_unsigned_in_range(a - b + 0x1_0000_0000_0000_0000, 0x1_0000_0000_0000_0000);
        }
        (w - 0xffff_ffff_ffff_ffff_0000_0000_0000_0000) as u64
    };
    (v, ov)
}

/// Checked unsigned 8-bit multiplication by the promotion strategy: the
/// 16-bit promoted type holds the exact product of any two 8-bit values.
pub fn checked_mul_u8(a: u8, b: u8) -> (r: (u8, bool))
    ensures
        r.0 == wrap_unsigned(a * b, 0x100),
        r.1 <==> a * b > u8::MAX,
{
    proof {
        assert(a * b <= 0xff * 0xff) by (nonlinear_arith)
            requires
                a <= 0xff,
                b <= 0xff,
        ;
    }
    let w: u16 = a as u16 * b as u16;
    let ov = w > u8::MAX as u16;
    let low: u16 = w % 0x100;
    (low as u8, ov)
}

/// Checked signed 8-bit multiplication by the promotion strategy, via 16
/// bits.
pub fn checked_mul_i8(a: i8, b: i8) -> (r: (i8, bool))
    ensures
        r.0 == wrap_signed(a * b, 0x80),
        r.1 <==> !(i8::MIN <= a * b <= i8::MAX),
{
    proof {
        assert(-0x4000 <= a * b <= 0x4000) by (nonlinear_arith)
            requires
                -0x80 <= a <= 0x7f,
                -0x80 <= b <= 0x7f,
        ;
    }
    let w: i16 = a as i16 * b as i16;
    let ov = w > i8::MAX as i16 || w < i8::MIN as i16;
    let low: i16 = w & 0xff;
    proof {
        assert(w & 0xff == w % 0x100 && 0 <= (w & 0xff) < 0x100) by (bit_vector);
    }
    let v: i8 = if low >= 128 {
        (low - 256) as i8
    } else {
        low as i8
    };
    (v, ov)
}

} // verus!
