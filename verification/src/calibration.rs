//! Factory calibration of the BMP280.
//!
//! Each sensor stores its own coefficients in OTP memory (registers
//! 0x88..0x9F).  Compensation with them is required to turn the raw ADC
//! readings into physical values.  The formulas are Bosch's integer ones:
//! a temperature in hundredths of a degree and a pressure in Pa × 256.
use vstd::prelude::*;
use crate::arith::{
    as_signed32, fits_i32, fits_i64, lemma_i32_shr, lemma_i64_shl_small, lemma_i64_shl_wrapping,
    lemma_i64_shr, lemma_u32_as_i32, lemma_wrap64_fits, trunc_div, wrap64,
};

verus! {

/// Little-endian unsigned 16-bit value of a byte pair.
pub open spec fn le_u16(lo: u8, hi: u8) -> int {
    lo + 256 * hi
}

/// Little-endian two's complement 16-bit value of a byte pair.
pub open spec fn le_i16(lo: u8, hi: u8) -> int {
    if hi < 128 {
        le_u16(lo, hi)
    } else {
        le_u16(lo, hi) - 65536
    }
}

fn u16_from_le(lo: u8, hi: u8) -> (r: u16)
    ensures
        r == le_u16(lo, hi),
{
    let r: u16 = (lo as u16) | ((hi as u16) << 8u16);
    assert(r == lo + 256 * hi) by (bit_vector)
        requires
            r == (lo as u16) | ((hi as u16) << 8u16),
    ;
    r
}

fn i16_from_le(lo: u8, hi: u8) -> (r: i16)
    ensures
        r == le_i16(lo, hi),
{
    let u: u16 = u16_from_le(lo, hi);
    let r: i16 = u as i16;
    assert(r == (if hi < 128 { lo + 256 * hi } else { lo + 256 * hi - 65536 })) by (bit_vector)
        requires
            u == lo + 256 * hi,
            r == u as i16,
    ;
    r
}

/// Temperature and pressure calibration coefficients.
#[derive(Debug, Clone, Copy, Default)]
pub struct CalibrationData {
    pub dig_t1: u16,
    pub dig_t2: i16,
    pub dig_t3: i16,
    pub dig_p1: u16,
    pub dig_p2: i16,
    pub dig_p3: i16,
    pub dig_p4: i16,
    pub dig_p5: i16,
    pub dig_p6: i16,
    pub dig_p7: i16,
    pub dig_p8: i16,
    pub dig_p9: i16,
}

/// Hundredths of a degree Celsius for a given `t_fine`.
pub open spec fn centidegrees(t_fine: int) -> int {
    (t_fine * 5 + 128) / 256
}

impl CalibrationData {
    /// The coefficients that the 24 bytes of registers 0x88..0x9F encode:
    /// twelve little-endian 16-bit words, `dig_T1` and `dig_P1` unsigned,
    /// the others two's complement.
    pub open spec fn decoded(raw: [u8; 24]) -> CalibrationData {
        CalibrationData {
            dig_t1: le_u16(raw[0], raw[1]) as u16,
            dig_t2: le_i16(raw[2], raw[3]) as i16,
            dig_t3: le_i16(raw[4], raw[5]) as i16,
            dig_p1: le_u16(raw[6], raw[7]) as u16,
            dig_p2: le_i16(raw[8], raw[9]) as i16,
            dig_p3: le_i16(raw[10], raw[11]) as i16,
            dig_p4: le_i16(raw[12], raw[13]) as i16,
            dig_p5: le_i16(raw[14], raw[15]) as i16,
            dig_p6: le_i16(raw[16], raw[17]) as i16,
            dig_p7: le_i16(raw[18], raw[19]) as i16,
            dig_p8: le_i16(raw[20], raw[21]) as i16,
            dig_p9: le_i16(raw[22], raw[23]) as i16,
        }
    }

    /// Parses the 24 raw bytes read from registers 0x88..0x9F.
    pub fn from_raw(raw: &[u8; 24]) -> (r: Self)
        ensures
            r == Self::decoded(*raw),
    {
        Self {
            dig_t1: u16_from_le(raw[0], raw[1]),
            dig_t2: i16_from_le(raw[2], raw[3]),
            dig_t3: i16_from_le(raw[4], raw[5]),
            dig_p1: u16_from_le(raw[6], raw[7]),
            dig_p2: i16_from_le(raw[8], raw[9]),
            dig_p3: i16_from_le(raw[10], raw[11]),
            dig_p4: i16_from_le(raw[12], raw[13]),
            dig_p5: i16_from_le(raw[14], raw[15]),
            dig_p6: i16_from_le(raw[16], raw[17]),
            dig_p7: i16_from_le(raw[18], raw[19]),
            dig_p8: i16_from_le(raw[20], raw[21]),
            dig_p9: i16_from_le(raw[22], raw[23]),
        }
    }

    /// `(adc >> 3) - (dig_T1 << 1)`, with `adc` the raw word read as an `i32`.
    pub open spec fn temp_coarse_delta(self, raw_t: u32) -> int {
        as_signed32(raw_t) / 8 - 2 * self.dig_t1
    }

    /// `(adc >> 4) - dig_T1`.
    pub open spec fn temp_fine_delta(self, raw_t: u32) -> int {
        as_signed32(raw_t) / 16 - self.dig_t1
    }

    /// First term of `t_fine`: `(coarse * dig_T2) >> 11`.
    pub open spec fn temp_var1(self, raw_t: u32) -> int {
        self.temp_coarse_delta(raw_t) * self.dig_t2 / 2048
    }

    /// Second term of `t_fine`: `(((fine * fine) >> 12) * dig_T3) >> 14`.
    pub open spec fn temp_var2(self, raw_t: u32) -> int {
        let d = self.temp_fine_delta(raw_t);
        d * d / 4096 * self.dig_t3 / 16384
    }

    /// The fine temperature that the pressure formula takes as input.
    pub open spec fn t_fine(self, raw_t: u32) -> int {
        self.temp_var1(raw_t) + self.temp_var2(raw_t)
    }

    /// Every product and sum of the temperature formula stays within `i32`:
    /// exactly the inputs on which its 32-bit arithmetic does not overflow.
    pub open spec fn temperature_computable(self, raw_t: u32) -> bool {
        let c = self.temp_coarse_delta(raw_t);
        let d = self.temp_fine_delta(raw_t);
        let tf = self.t_fine(raw_t);
        &&& fits_i32(c * self.dig_t2)
        &&& fits_i32(d * d)
        &&& fits_i32(d * d / 4096 * self.dig_t3)
        &&& fits_i32(tf)
        &&& fits_i32(tf * 5)
        &&& fits_i32(tf * 5 + 128)
    }

    /// Temperature compensation (Bosch's integer algorithm).
    ///
    /// Returns `(temperature in °C × 100, t_fine)`; `t_fine` feeds the
    /// pressure compensation.
    pub fn compensate_temperature(&self, raw_t: u32) -> (r: (i32, i32))
        requires
            self.temperature_computable(raw_t),
        ensures
            r.1 == self.t_fine(raw_t),
            r.0 == centidegrees(r.1 as int),
    {
        let t1: i32 = self.dig_t1 as i32;
        let t2: i32 = self.dig_t2 as i32;
        let t3: i32 = self.dig_t3 as i32;
        let adc: i32 = raw_t as i32;
        proof {
            lemma_u32_as_i32(raw_t);
            lemma_i32_shr(adc);
        }
        assert((t1 << 1) == 2 * t1) by (bit_vector)
            requires
                0 <= t1 <= 65535,
        ;
        let coarse: i32 = (adc >> 3) - (t1 << 1);
        let prod1: i32 = coarse * t2;
        proof {
            lemma_i32_shr(prod1);
        }
        let var1: i32 = prod1 >> 11;
        let tmp: i32 = (adc >> 4) - t1;
        let sq: i32 = tmp * tmp;
        proof {
            lemma_i32_shr(sq);
        }
        let prod2: i32 = (sq >> 12) * t3;
        proof {
            lemma_i32_shr(prod2);
        }
        let var2: i32 = prod2 >> 14;
        let t_fine: i32 = var1 + var2;
        let scaled: i32 = t_fine * 5 + 128;
        proof {
            lemma_i32_shr(scaled);
        }
        let temp: i32 = scaled >> 8;
        (temp, t_fine)
    }

    /// Whether `compensate_temperature` can run on `raw_t` without overflow.
    pub fn can_compensate_temperature(&self, raw_t: u32) -> (r: bool)
        ensures
            r == self.temperature_computable(raw_t),
    {
        let t1: i32 = self.dig_t1 as i32;
        let t2: i32 = self.dig_t2 as i32;
        let t3: i32 = self.dig_t3 as i32;
        let adc: i32 = raw_t as i32;
        proof {
            lemma_u32_as_i32(raw_t);
            lemma_i32_shr(adc);
        }
        let coarse: i32 = (adc >> 3) - 2 * t1;
        let prod1: i32 = match coarse.checked_mul(t2) {
            Some(x) => x,
            None => return false,
        };
        let tmp: i32 = (adc >> 4) - t1;
        let sq: i32 = match tmp.checked_mul(tmp) {
            Some(x) => x,
            None => return false,
        };
        proof {
            lemma_i32_shr(sq);
            lemma_i32_shr(prod1);
        }
        let prod2: i32 = match (sq >> 12).checked_mul(t3) {
            Some(x) => x,
            None => return false,
        };
        proof {
            lemma_i32_shr(prod2);
        }
        let t_fine: i32 = match (prod1 >> 11).checked_add(prod2 >> 14) {
            Some(x) => x,
            None => return false,
        };
        let t5: i32 = match t_fine.checked_mul(5) {
            Some(x) => x,
            None => return false,
        };
        t5.checked_add(128).is_some()
    }

    /// Whether `compensate_pressure` can run on `(raw_p, t_fine)` without overflow.
    pub fn can_compensate_pressure(&self, raw_p: u32, t_fine: i32) -> (r: bool)
        ensures
            r == self.pressure_computable(raw_p, t_fine as int),
    {
        let adc: i64 = raw_p as i64;
        let p1: i64 = self.dig_p1 as i64;
        let p2: i64 = self.dig_p2 as i64;
        let p3: i64 = self.dig_p3 as i64;
        let p4: i64 = self.dig_p4 as i64;
        let p5: i64 = self.dig_p5 as i64;
        let p6: i64 = self.dig_p6 as i64;
        let p8: i64 = self.dig_p8 as i64;
        let p9: i64 = self.dig_p9 as i64;
        let v: i64 = (t_fine as i64) - 128_000;
        let vv: i64 = match v.checked_mul(v) {
            Some(x) => x,
            None => return false,
        };
        let vvp6: i64 = match vv.checked_mul(p6) {
            Some(x) => x,
            None => return false,
        };
        let vp5: i64 = match v.checked_mul(p5) {
            Some(x) => x,
            None => return false,
        };
        proof {
            lemma_i64_shl_wrapping(vp5);
            lemma_i64_shl_small(p4);
        }
        let a: i64 = match vvp6.checked_add(vp5 << 17) {
            Some(x) => x,
            None => return false,
        };
        let var2: i64 = match a.checked_add(p4 << 35) {
            Some(x) => x,
            None => return false,
        };
        let vvp3: i64 = match vv.checked_mul(p3) {
            Some(x) => x,
            None => return false,
        };
        let vp2: i64 = match v.checked_mul(p2) {
            Some(x) => x,
            None => return false,
        };
        proof {
            lemma_i64_shl_wrapping(vp2);
            lemma_i64_shr(vvp3);
        }
        let var1: i64 = match (vvp3 >> 8).checked_add(vp2 << 12) {
            Some(x) => x,
            None => return false,
        };
        let offset: i64 = match var1.checked_add(140_737_488_355_328) {
            Some(x) => x,
            None => return false,
        };
        let scaled: i64 = match offset.checked_mul(p1) {
            Some(x) => x,
            None => return false,
        };
        proof {
            lemma_i64_shr(scaled);
        }
        let divisor: i64 = scaled >> 33;
        if divisor == 0 {
            return true;
        }
        let p0: i64 = 1_048_576i64 - adc;
        proof {
            lemma_i64_shl_wrapping(p0);
        }
        let h: i64 = match (p0 << 31).checked_sub(var2) {
            Some(x) => x,
            None => return false,
        };
        let numerator: i64 = match h.checked_mul(3125) {
            Some(x) => x,
            None => return false,
        };
        proof {
            lemma_no_min_multiple_of_3125(numerator as int);
        }
        let p: i64 = match numerator.checked_div(divisor) {
            Some(x) => x,
            None => {
                proof {
                    assert(false);
                }
                return false;
            },
        };
        proof {
            lemma_i64_shr(p);
        }
        let q: i64 = p >> 13;
        let t9a: i64 = match p9.checked_mul(q) {
            Some(x) => x,
            None => return false,
        };
        let t9: i64 = match t9a.checked_mul(q) {
            Some(x) => x,
            None => return false,
        };
        let t8: i64 = match p8.checked_mul(p) {
            Some(x) => x,
            None => return false,
        };
        proof {
            lemma_i64_shr(t9);
            lemma_i64_shr(t8);
        }
        let s1: i64 = match p.checked_add(t9 >> 25) {
            Some(x) => x,
            None => return false,
        };
        s1.checked_add(t8 >> 19).is_some()
    }

    /// `var2` before the division: `v*v*dig_P6 + ((v*dig_P5) << 17) + (dig_P4 << 35)`
    /// with `v = t_fine - 128000`; the shift by 17 wraps on the bits it moves out.
    pub open spec fn press_var2(self, t_fine: int) -> int {
        let v = t_fine - 128000;
        v * v * self.dig_p6 + wrap64(v * self.dig_p5 * 131072) + self.dig_p4 * 34359738368
    }

    /// `var1` before scaling: `((v*v*dig_P3) >> 8) + ((v*dig_P2) << 12)`.
    pub open spec fn press_var1(self, t_fine: int) -> int {
        let v = t_fine - 128000;
        v * v * self.dig_p3 / 256 + wrap64(v * self.dig_p2 * 4096)
    }

    /// The divisor of the pressure formula: `(((1 << 47) + var1) * dig_P1) >> 33`.
    pub open spec fn press_divisor(self, t_fine: int) -> int {
        (140737488355328 + self.press_var1(t_fine)) * self.dig_p1 / 8589934592
    }

    /// The numerator `(((1048576 - adc) << 31) - var2) * 3125`.
    pub open spec fn press_numerator(self, raw_p: u32, t_fine: int) -> int {
        (wrap64((1048576 - raw_p) * 2147483648) - self.press_var2(t_fine)) * 3125
    }

    /// `p` after the division, which rounds towards zero.
    pub open spec fn press_quotient(self, raw_p: u32, t_fine: int) -> int {
        trunc_div(self.press_numerator(raw_p, t_fine), self.press_divisor(t_fine))
    }

    /// The final 64-bit value:
    /// `((p + ((dig_P9*(p>>13)*(p>>13)) >> 25) + ((dig_P8*p) >> 19)) >> 8) + (dig_P7 << 4)`.
    pub open spec fn press_value(self, raw_p: u32, t_fine: int) -> int {
        let p = self.press_quotient(raw_p, t_fine);
        let q = p / 8192;
        (p + self.dig_p9 * q * q / 33554432 + self.dig_p8 * p / 524288) / 256 + self.dig_p7 * 16
    }

    /// What the pressure compensation returns: `None` when the divisor is
    /// zero, else the 64-bit value truncated to its low 32 bits.
    pub open spec fn compensated_pressure(self, raw_p: u32, t_fine: int) -> Option<u32> {
        if self.press_divisor(t_fine) == 0 {
            None
        } else {
            Some(#[verifier::truncate] (self.press_value(raw_p, t_fine) as u32))
        }
    }

    /// Every product and sum of the pressure formula that is evaluated stays
    /// within `i64`: exactly the inputs on which its arithmetic does not
    /// overflow.  (Left shifts wrap and never overflow.)
    pub open spec fn pressure_computable(self, raw_p: u32, t_fine: int) -> bool {
        let v = t_fine - 128000;
        let a = v * v * self.dig_p6 + wrap64(v * self.dig_p5 * 131072);
        let var1 = self.press_var1(t_fine);
        &&& fits_i64(v * v)
        &&& fits_i64(v * v * self.dig_p6)
        &&& fits_i64(v * self.dig_p5)
        &&& fits_i64(a)
        &&& fits_i64(self.press_var2(t_fine))
        &&& fits_i64(v * v * self.dig_p3)
        &&& fits_i64(v * self.dig_p2)
        &&& fits_i64(var1)
        &&& fits_i64(140737488355328 + var1)
        &&& fits_i64((140737488355328 + var1) * self.dig_p1)
        &&& (self.press_divisor(t_fine) != 0 ==> {
            let h = wrap64((1048576 - raw_p) * 2147483648) - self.press_var2(t_fine);
            let p = self.press_quotient(raw_p, t_fine);
            let q = p / 8192;
            &&& fits_i64(h)
            &&& fits_i64(h * 3125)
            &&& fits_i64(self.dig_p9 * q)
            &&& fits_i64(self.dig_p9 * q * q)
            &&& fits_i64(self.dig_p8 * p)
            &&& fits_i64(p + self.dig_p9 * q * q / 33554432)
            &&& fits_i64(p + self.dig_p9 * q * q / 33554432 + self.dig_p8 * p / 524288)
        })
    }

    /// Pressure compensation (Bosch's 64-bit integer algorithm).
    ///
    /// Returns the pressure in Pa × 256 (Q24.8), or `None` when the divisor
    /// of the formula is zero.
    pub fn compensate_pressure(&self, raw_p: u32, t_fine: i32) -> (r: Option<u32>)
        requires
            self.pressure_computable(raw_p, t_fine as int),
        ensures
            r == self.compensated_pressure(raw_p, t_fine as int),
    {
        let adc: i64 = raw_p as i64;
        let p1: i64 = self.dig_p1 as i64;
        let p2: i64 = self.dig_p2 as i64;
        let p3: i64 = self.dig_p3 as i64;
        let p4: i64 = self.dig_p4 as i64;
        let p5: i64 = self.dig_p5 as i64;
        let p6: i64 = self.dig_p6 as i64;
        let p7: i64 = self.dig_p7 as i64;
        let p8: i64 = self.dig_p8 as i64;
        let p9: i64 = self.dig_p9 as i64;

        let v: i64 = (t_fine as i64) - 128_000;
        let vv: i64 = v * v;
        let vp5: i64 = v * p5;
        let vp2: i64 = v * p2;
        proof {
            lemma_i64_shl_wrapping(vp5);
            lemma_i64_shl_wrapping(vp2);
            lemma_i64_shl_small(p4);
            lemma_i64_shl_small(p7);
        }
        let mut var2: i64 = vv * p6;
        var2 += vp5 << 17;
        var2 += p4 << 35;
        let vvp3: i64 = vv * p3;
        proof {
            lemma_i64_shr(vvp3);
        }
        let mut var1: i64 = (vvp3 >> 8) + (vp2 << 12);
        assert((1i64 << 47) == 140737488355328i64) by (bit_vector);
        let scaled: i64 = ((1i64 << 47) + var1) * p1;
        proof {
            lemma_i64_shr(scaled);
        }
        var1 = scaled >> 33;

        if var1 == 0 {
            return None;
        }

        let mut p: i64 = 1_048_576i64 - adc;
        proof {
            lemma_i64_shl_wrapping(p);
        }
        let numerator: i64 = ((p << 31) - var2) * 3125;
        proof {
            lemma_no_min_multiple_of_3125(numerator as int);
        }
        p = match numerator.checked_div(var1) {
            Some(q) => q,
            None => {
                proof {
                    assert(false);
                }
                0
            },
        };
        proof {
            lemma_i64_shr(p);
        }
        let q: i64 = p >> 13;
        let t9: i64 = p9 * q * q;
        proof {
            lemma_i64_shr(t9);
        }
        var1 = t9 >> 25;
        let t8: i64 = p8 * p;
        proof {
            lemma_i64_shr(t8);
        }
        var2 = t8 >> 19;
        let sum: i64 = p + var1 + var2;
        proof {
            lemma_i64_shr(sum);
        }
        p = (sum >> 8) + (p7 << 4);
        Some(p as u32)
    }
}

/// Bosch's 64-bit pressure formula, written out in the signed offset
/// `v = t_fine - 128000` from 25 °C (`t_fine` = 128000):
/// `A = v²·P6 + v·P5·2¹⁷ + P4·2³⁵`,
/// `B = ⌊(2⁴⁷ + ⌊v²·P3/2⁸⌋ + v·P2·2¹²)·P1/2³³⌋`,
/// `p = trunc(((2²⁰ − raw_p)·2³¹ − A)·3125 / B)`,
/// result `⌊(p + ⌊P9·⌊p/2¹³⌋²/2²⁵⌋ + ⌊P8·p/2¹⁹⌋)/2⁸⌋ + P7·16`, with the
/// two shifts that can lose bits (by 17 and 12, and by 31) wrapping.
/// No result when `B` is 0.
pub proof fn lemma_pressure_formula(c: CalibrationData, raw_p: u32, t_fine: int)
    ensures
        ({
            let v = t_fine - 128000;
            let a = v * v * (c.dig_p6 as int) + wrap64(v * (c.dig_p5 as int) * 0x2_0000)
                + (c.dig_p4 as int) * 0x8_0000_0000;
            let b = (0x8000_0000_0000 + v * v * (c.dig_p3 as int) / 0x100 + wrap64(
                v * (c.dig_p2 as int) * 0x1000,
            )) * (c.dig_p1 as int) / 0x2_0000_0000;
            let p = trunc_div(
                (wrap64((0x10_0000 - raw_p) * 0x8000_0000) - a) * 3125,
                b,
            );
            let q = p / 0x2000;
            let r = (p + (c.dig_p9 as int) * q * q / 0x200_0000 + (c.dig_p8 as int) * p / 0x8_0000)
                / 0x100 + (c.dig_p7 as int) * 16;
            &&& (b == 0 ==> c.compensated_pressure(raw_p, t_fine) is None)
            &&& (b != 0 ==> c.compensated_pressure(raw_p, t_fine) == Some(
                #[verifier::truncate] (r as u32),
            ))
        }),
{
}

/// The terms of the pressure formula that are linear in the offset from
/// 25 °C (`dig_P2` and `dig_P5`) change sign with it: moving `t_fine` the
/// same distance below 128000 as above changes `var1` and `var2` by twice
/// those terms (when they do not wrap), while the square terms stay equal.
pub proof fn lemma_pressure_offset_is_signed(c: CalibrationData, d: int)
    requires
        fits_i64(d * (c.dig_p2 as int) * 0x1000),
        fits_i64(-d * (c.dig_p2 as int) * 0x1000),
        fits_i64(d * (c.dig_p5 as int) * 0x2_0000),
        fits_i64(-d * (c.dig_p5 as int) * 0x2_0000),
    ensures
        c.press_var1(128000 + d) - c.press_var1(128000 - d) == 2 * (d * (c.dig_p2 as int) * 0x1000),
        c.press_var2(128000 + d) - c.press_var2(128000 - d) == 2 * (d * (c.dig_p5 as int) * 0x2_0000),
{
    lemma_wrap64_fits(d * (c.dig_p2 as int) * 0x1000);
    lemma_wrap64_fits(-d * (c.dig_p2 as int) * 0x1000);
    lemma_wrap64_fits(d * (c.dig_p5 as int) * 0x2_0000);
    lemma_wrap64_fits(-d * (c.dig_p5 as int) * 0x2_0000);
    assert((-d) * (-d) == d * d) by (nonlinear_arith);
    assert((-d) * (c.dig_p2 as int) * 0x1000 == -(d * (c.dig_p2 as int) * 0x1000)) by (nonlinear_arith);
    assert((-d) * (c.dig_p5 as int) * 0x2_0000 == -(d * (c.dig_p5 as int) * 0x2_0000)) by (nonlinear_arith);
    assert(-d * (c.dig_p2 as int) * 0x1000 == -(d * (c.dig_p2 as int) * 0x1000)) by (nonlinear_arith);
    assert(-d * (c.dig_p5 as int) * 0x2_0000 == -(d * (c.dig_p5 as int) * 0x2_0000)) by (nonlinear_arith);
}

/// The calibration of the worked example in the BMP280 datasheet, a real
/// sensor's coefficients.
pub open spec fn datasheet_calibration() -> CalibrationData {
    CalibrationData {
        dig_t1: 27504,
        dig_t2: 26435,
        dig_t3: -1000i16,
        dig_p1: 36477,
        dig_p2: -10685i16,
        dig_p3: 3024,
        dig_p4: 2855,
        dig_p5: 140,
        dig_p6: -7i16,
        dig_p7: 15500,
        dig_p8: -14600i16,
        dig_p9: 6000,
    }
}

/// With a real calibration, every 20-bit raw temperature word is
/// compensated without overflow, and its `t_fine` lies in [-750000, 1000000].
pub proof fn lemma_datasheet_temperature_in_range(raw_t: u32)
    requires
        raw_t < 0x10_0000,
    ensures
        datasheet_calibration().temperature_computable(raw_t),
        -750000 <= datasheet_calibration().t_fine(raw_t) <= 1000000,
{
    let c = datasheet_calibration();
    let fine = c.temp_fine_delta(raw_t);
    assert(-27504 <= fine <= 38031);
    assert(0 <= fine * fine <= 38031 * 38031) by (nonlinear_arith)
        requires
            -27504 <= fine <= 38031,
    ;
}

/// With a real calibration, the pressure of every 20-bit raw pressure word
/// is compensated without overflow at any `t_fine` in [-750000, 1000000]
/// (about -146 °C to 195 °C): what the 64-bit formula refuses lies far
/// outside what a sensor reports.
pub proof fn lemma_datasheet_pressure_in_range(raw_p: u32, t_fine: int)
    requires
        raw_p < 0x10_0000,
        -750000 <= t_fine <= 1000000,
    ensures
        datasheet_calibration().pressure_computable(raw_p, t_fine),
        datasheet_calibration().press_divisor(t_fine) > 0,
{
    let c = datasheet_calibration();
    let v = t_fine - 128000;
    assert(0 <= v * v <= 878000 * 878000) by (nonlinear_arith)
        requires
            -878000 <= v <= 872000,
    ;
    lemma_wrap64_fits(v * (c.dig_p5 as int) * 131072);
    lemma_wrap64_fits(v * (c.dig_p2 as int) * 4096);
    let var1 = c.press_var1(t_fine);
    let var2 = c.press_var2(t_fine);
    assert(-38200000000000 <= var1 <= 47600000000000);
    assert(76000000000000 <= var2 <= 115000000000000);
    let divisor = c.press_divisor(t_fine);
    assert(divisor >= 430000000);
    lemma_wrap64_fits((1048576 - raw_p) * 2147483648);
    let h = wrap64((1048576 - raw_p) * 2147483648) - var2;
    assert(-115000000000000 <= h <= 2176000000000000);
    let num = h * 3125;
    let p = c.press_quotient(raw_p, t_fine);
    let bound: int = 6800000000000000000;
    assert(-bound <= num <= bound);
    let mag = if num < 0 { -num } else { num };
    vstd::arithmetic::div_mod::lemma_div_is_ordered(mag, bound, divisor);
    vstd::arithmetic::div_mod::lemma_div_is_ordered_by_denominator(bound, 430000000, divisor);
    assert(bound / 430000000 <= 15813953489);
    assert(-15813953489 <= p <= 15813953489);
    let q = p / 8192;
    assert(-1930415 <= q <= 1930415);
    assert(0 <= q * q <= 1930415 * 1930415) by (nonlinear_arith)
        requires
            -1930415 <= q <= 1930415,
    ;
    assert((c.dig_p9 as int) * q * q == 6000 * (q * q)) by (nonlinear_arith)
        requires
            c.dig_p9 == 6000,
    ;
}

/// No multiple of 3125 is `i64::MIN`, so dividing one never overflows.
proof fn lemma_no_min_multiple_of_3125(n: int)
    requires
        n % 3125 == 0,
    ensures
        n != i64::MIN,
{
    assert(i64::MIN % 3125 != 0);
}

} // verus!
