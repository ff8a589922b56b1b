//! Integer models of the fixed-width operations that the compensation
//! formulas use, and the facts that tie the machine operations to them.
//!
//! An arithmetic right shift of a signed value is a division rounded
//! towards minus infinity; Verus's `/` on `int` is Euclidean, which for a
//! positive divisor is exactly that.  A left shift never panics on the bits
//! it moves out: it wraps.
use vstd::prelude::*;

verus! {

/// `x` is representable as an `i32`.
pub open spec fn fits_i32(x: int) -> bool {
    i32::MIN <= x <= i32::MAX
}

/// `x` is representable as an `i64`.
pub open spec fn fits_i64(x: int) -> bool {
    i64::MIN <= x <= i64::MAX
}

/// The value of a 32-bit word read as two's complement (what `as i32` gives).
pub open spec fn as_signed32(x: u32) -> int {
    if x < 0x8000_0000 {
        x as int
    } else {
        x - 0x1_0000_0000
    }
}

/// `x` reduced into the two's complement range of 64 bits.
pub open spec fn wrap64(x: int) -> int {
    let m = x % 0x1_0000_0000_0000_0000;
    if m < 0x8000_0000_0000_0000 {
        m
    } else {
        m - 0x1_0000_0000_0000_0000
    }
}

/// Integer division rounded towards zero, as Rust's `/` on signed integers.
pub open spec fn trunc_div(a: int, b: int) -> int {
    let q = (if a < 0 { -a } else { a }) / (if b < 0 { -b } else { b });
    if (a < 0) == (b < 0) {
        q
    } else {
        -q
    }
}

pub proof fn lemma_u32_as_i32(x: u32)
    ensures
        (x as i32) as int == as_signed32(x),
{
    assert((x as i32) as int == if x < 0x8000_0000u32 { x as int } else { x - 0x1_0000_0000 })
        by (bit_vector);
}

/// Arithmetic right shifts of an `i32` by the amounts the temperature formula uses.
pub proof fn lemma_i32_shr(x: i32)
    ensures
        (x >> 3) as int == x / 8,
        (x >> 4) as int == x / 16,
        (x >> 8) as int == x / 256,
        (x >> 11) as int == x / 2048,
        (x >> 12) as int == x / 4096,
        (x >> 14) as int == x / 16384,
{
    assert((x >> 3) as int == x / 8) by (bit_vector);
    assert((x >> 4) as int == x / 16) by (bit_vector);
    assert((x >> 8) as int == x / 256) by (bit_vector);
    assert((x >> 11) as int == x / 2048) by (bit_vector);
    assert((x >> 12) as int == x / 4096) by (bit_vector);
    assert((x >> 14) as int == x / 16384) by (bit_vector);
}

/// Arithmetic right shifts of an `i64` by the amounts the pressure formula uses.
pub proof fn lemma_i64_shr(x: i64)
    ensures
        (x >> 8) as int == x / 256,
        (x >> 13) as int == x / 8192,
        (x >> 19) as int == x / 524288,
        (x >> 25) as int == x / 33554432,
        (x >> 33) as int == x / 8589934592,
{
    assert((x >> 8) as int == x / 256) by (bit_vector);
    assert((x >> 13) as int == x / 8192) by (bit_vector);
    assert((x >> 19) as int == x / 524288) by (bit_vector);
    assert((x >> 25) as int == x / 33554432) by (bit_vector);
    assert((x >> 33) as int == x / 8589934592) by (bit_vector);
}

/// Left shifts of an `i64` whose result may leave the 64-bit range.
pub proof fn lemma_i64_shl_wrapping(x: i64)
    ensures
        (x << 12) as int == wrap64(x * 4096),
        (x << 17) as int == wrap64(x * 131072),
        (x << 31) as int == wrap64(x * 2147483648),
{
    assert((x << 12) as int == wrap64(x * 4096)) by (bit_vector);
    assert((x << 17) as int == wrap64(x * 131072)) by (bit_vector);
    assert((x << 31) as int == wrap64(x * 2147483648)) by (bit_vector);
}

/// Left shifts of a 16-bit quantity held in an `i64`: no bit is lost.
pub proof fn lemma_i64_shl_small(x: i64)
    requires
        -32768 <= x <= 32767,
    ensures
        (x << 4) as int == x * 16,
        (x << 35) as int == x * 34359738368,
{
    assert((x << 4) as int == x * 16) by (bit_vector)
        requires
            -32768 <= x <= 32767,
    ;
    assert((x << 35) as int == x * 34359738368) by (bit_vector)
        requires
            -32768 <= x <= 32767,
    ;
}

/// Wrapping leaves a value that already fits in 64 bits unchanged.
pub proof fn lemma_wrap64_fits(x: int)
    requires
        fits_i64(x),
    ensures
        wrap64(x) == x,
{
    if x >= 0 {
        vstd::arithmetic::div_mod::lemma_small_mod(x as nat, 0x1_0000_0000_0000_0000nat);
    } else {
        vstd::arithmetic::div_mod::lemma_small_mod(
            (x + 0x1_0000_0000_0000_0000) as nat,
            0x1_0000_0000_0000_0000nat,
        );
        vstd::arithmetic::div_mod::lemma_mod_add_multiples_vanish(x, 0x1_0000_0000_0000_0000);
    }
}

} // verus!
