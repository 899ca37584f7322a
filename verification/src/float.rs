//! Single-precision numbers of the wire format, held as their IEEE 754 bit patterns.
//!
//! The engine sends costs, ranges and coordinates as binary32 values. This crate never
//! computes with them: it carries the 32 bits through unchanged, and where a record
//! wants a whole number it converts by truncating toward zero and saturating at the
//! bounds of the target type, with "not a number" becoming zero.

use vstd::arithmetic::power2::{
    lemma2_to64, lemma_pow2_adds, lemma_pow2_pos, lemma_pow2_strictly_increases, lemma_pow2_unfold,
    pow2,
};
use vstd::bits::{lemma_u32_shl_is_mul, lemma_u32_shr_is_div};
use vstd::prelude::*;

verus! {

/// The position of the highest set bit of a positive number, counted from 0.
pub open spec fn top_bit(value: nat) -> nat
    decreases value,
{
    if value <= 1 {
        0
    } else {
        1 + top_bit(value / 2)
    }
}

/// `value / unit` rounded to the nearest whole number, a tie going to the even one.
pub open spec fn round_half_even(value: nat, unit: nat) -> nat {
    let quotient = value / unit;
    let rest = value % unit;
    if 2 * rest > unit || (2 * rest == unit && quotient % 2 == 1) {
        quotient + 1
    } else {
        quotient
    }
}

/// A number between two neighbouring powers of two has its highest bit at the lower one.
pub proof fn top_bit_between(value: nat, top: nat)
    requires
        pow2(top) <= value < pow2(top + 1),
    ensures
        top_bit(value) == top,
    decreases top,
{
    lemma2_to64();
    if top == 0 {
        assert(value == 1);
    } else {
        lemma_pow2_unfold(top);
        lemma_pow2_unfold(top + 1);
        lemma_pow2_pos((top - 1) as nat);
        assert(value >= 2);
        top_bit_between(value / 2, (top - 1) as nat);
    }
}

/// A whole number up to 2^24 survives the way into single precision and back: the
/// conversion from `u32` is exact there, and the conversion to `u32` returns it.
/// The next whole number, 2^24 + 1, is the first that single precision does not hold.
pub proof fn small_whole_numbers_are_exact(value: u32)
    requires
        value <= 0x100_0000,
    ensures
        Float::spec_from_u32(value).spec_to_u32() == value,
        Float::spec_from_u32(value).spec_to_i32() == value,
        !Float::spec_from_u32(value).sign(),
{
    lemma2_to64();
    if value == 0x100_0000 {
        top_bit_between(value as nat, 24);
        let number = Float::spec_from_u32(value);
        assert(round_half_even(value as nat, pow2(1)) == 0x80_0000);
        assert(number.bits == 151 * 0x80_0000);
        assert(number.exponent() == 151 && number.fraction() == 0);
        assert(number.scale() == 1);
        assert(number.whole_magnitude() == 0x80_0000 * pow2(1));
        assert(number.truncated() == value);
    } else if value > 0 {
        let top = top_bit(value as nat);
        top_bit_bounds(value as nat);
        assert(top <= 23) by {
            if top >= 24 {
                if top > 24 {
                    lemma_pow2_strictly_increases(24, top);
                }
            }
        }
        let shift = (23 - top) as nat;
        let unit = pow2(shift);
        lemma_pow2_adds(top, shift);
        lemma_pow2_adds(top + 1, shift);
        lemma_pow2_pos(shift);
        let significand = value as nat * unit;
        assert(pow2(23) <= significand < pow2(24)) by (nonlinear_arith)
            requires
                pow2(top) <= value < pow2(top + 1),
                pow2(top) * unit == pow2(23),
                pow2(top + 1) * unit == pow2(24),
                unit > 0,
                significand == value as nat * unit,
        ;
        let number = Float::spec_from_u32(value);
        let fraction = (significand - 0x80_0000) as nat;
        assert(number.bits == (127 + top) * 0x80_0000 + fraction);
        assert(number.exponent() == 127 + top && number.fraction() == fraction) by {
            let bits = number.bits;
            let exponent = (127 + top) as int;
            assert(bits / 0x80_0000 == exponent && bits % 0x80_0000 == fraction) by (nonlinear_arith)
                requires
                    bits == exponent * 0x80_0000 + fraction,
                    0 <= fraction < 0x80_0000,
            ;
        }
        assert(number.significand() == significand);
        assert(!number.sign());
        if top == 23 {
            assert(unit == 1);
            assert(number.scale() == 0);
            assert(significand * pow2(0) == value) by (nonlinear_arith)
                requires
                    significand == value as nat * unit,
                    unit == 1,
                    pow2(0) == 1,
            ;
            assert(number.whole_magnitude() == value);
        } else {
            assert(number.scale() == top - 23);
            assert((-number.scale()) as nat == shift);
            assert(significand / unit == value) by (nonlinear_arith)
                requires
                    significand == value as nat * unit,
                    unit > 0,
            ;
            assert(number.whole_magnitude() == value);
        }
        assert(number.truncated() == value);
    } else {
        let number = Float::spec_from_u32(value);
        assert(number.bits == 0);
        assert(number.exponent() == 0 && number.fraction() == 0);
        lemma_pow2_pos(149);
        assert(0nat / pow2(149) == 0) by (nonlinear_arith)
            requires
                pow2(149) > 0,
        ;
        assert(number.whole_magnitude() == 0);
        assert(number.truncated() == 0);
    }
}

/// A positive number lies between the power of two at its highest bit and the next.
pub proof fn top_bit_bounds(value: nat)
    requires
        value > 0,
    ensures
        pow2(top_bit(value)) <= value < pow2(top_bit(value) + 1),
    decreases value,
{
    lemma2_to64();
    if value > 1 {
        top_bit_bounds(value / 2);
        lemma_pow2_unfold(top_bit(value));
        lemma_pow2_unfold(top_bit(value) + 1);
    }
}

/// A binary32 number, identified by its bits: one sign bit, eight exponent bits and
/// twenty-three fraction bits, from the most significant bit down.
#[derive(Clone, Copy, Debug, PartialEq, Eq, Hash, Structural)]
pub struct Float {
    pub bits: u32,
}

impl Float {
    /// The sign bit is set (true of negative numbers and of negative zero).
    pub open spec fn sign(self) -> bool {
        self.bits >= 0x8000_0000
    }

    /// The biased exponent, from 0 to 255.
    pub open spec fn exponent(self) -> nat {
        ((self.bits / 0x80_0000) % 0x100) as nat
    }

    /// The fraction field, below 2^23.
    pub open spec fn fraction(self) -> nat {
        (self.bits % 0x80_0000) as nat
    }

    /// The pattern stands for no number at all.
    pub open spec fn is_nan(self) -> bool {
        self.exponent() == 255 && self.fraction() != 0
    }

    /// The pattern stands for plus or minus infinity.
    pub open spec fn is_infinite(self) -> bool {
        self.exponent() == 255 && self.fraction() == 0
    }

    /// The integer whose product with `2^scale()` is the magnitude of a finite number:
    /// the fraction, with the implicit leading bit unless the number is subnormal.
    pub open spec fn significand(self) -> nat {
        if self.exponent() == 0 {
            self.fraction()
        } else {
            self.fraction() + 0x80_0000
        }
    }

    /// The power of two by which the significand is scaled.
    pub open spec fn scale(self) -> int {
        if self.exponent() == 0 {
            -149
        } else {
            self.exponent() - 150
        }
    }

    /// The magnitude of a finite number, rounded down to a whole number.
    pub open spec fn whole_magnitude(self) -> nat {
        if self.scale() >= 0 {
            self.significand() * pow2(self.scale() as nat)
        } else {
            self.significand() / pow2((-self.scale()) as nat)
        }
    }

    /// A finite number rounded toward zero.
    pub open spec fn truncated(self) -> int {
        if self.sign() {
            -(self.whole_magnitude() as int)
        } else {
            self.whole_magnitude() as int
        }
    }

    /// The number as an unsigned 32-bit integer: truncated toward zero, saturating
    /// at 0 and at `u32::MAX`, zero for "not a number".
    pub open spec fn spec_to_u32(self) -> u32 {
        if self.is_nan() {
            0
        } else if self.is_infinite() {
            if self.sign() {
                0
            } else {
                u32::MAX
            }
        } else if self.truncated() < 0 {
            0
        } else if self.truncated() > u32::MAX {
            u32::MAX
        } else {
            self.truncated() as u32
        }
    }

    /// The number as a signed 32-bit integer: truncated toward zero, saturating at
    /// `i32::MIN` and `i32::MAX`, zero for "not a number".
    pub open spec fn spec_to_i32(self) -> i32 {
        if self.is_nan() {
            0
        } else if self.is_infinite() {
            if self.sign() {
                i32::MIN
            } else {
                i32::MAX
            }
        } else if self.truncated() < i32::MIN {
            i32::MIN
        } else if self.truncated() > i32::MAX {
            i32::MAX
        } else {
            self.truncated() as i32
        }
    }

    /// The number nearest to a whole number, a tie going to the even significand:
    /// zero is positive zero, and a positive number with its highest bit at `top`
    /// gets the biased exponent `127 + top` and, as significand, its 24 leading bits,
    /// rounded where the number has more. A significand rounded up to 2^24 carries
    /// into the exponent.
    pub open spec fn spec_from_u32(value: u32) -> Float {
        if value == 0 {
            Float { bits: 0 }
        } else {
            let top = top_bit(value as nat);
            let significand: nat = if top <= 23 {
                value as nat * pow2((23 - top) as nat)
            } else {
                round_half_even(value as nat, pow2((top - 23) as nat))
            };
            Float { bits: ((127 + top) * 0x80_0000 + significand - 0x80_0000) as u32 }
        }
    }

    /// The number nearest to a whole number of either sign: that of its magnitude,
    /// with the sign bit set where the number is negative.
    pub open spec fn spec_from_i32(value: i32) -> Float {
        if value >= 0 {
            Float::spec_from_u32(value as u32)
        } else {
            Float { bits: (Float::spec_from_u32((-value) as u32).bits + 0x8000_0000) as u32 }
        }
    }

    /// The number with the given bit pattern.
    pub fn from_bits(bits: u32) -> (number: Float)
        ensures
            number.bits == bits,
    {
        Float { bits }
    }

    /// The bit pattern of the number.
    pub fn to_bits(self) -> (bits: u32)
        ensures
            bits == self.bits,
    {
        self.bits
    }

    /// Positive zero, the value of a field that the engine left out.
    pub fn zero() -> (number: Float)
        ensures
            number.bits == 0,
    {
        Float { bits: 0 }
    }

    /// Splits the pattern into sign, biased exponent and fraction.
    fn fields(self) -> (parts: (bool, u32, u32))
        ensures
            parts.0 == self.sign(),
            parts.1 == self.exponent(),
            parts.2 == self.fraction(),
    {
        let bits: u32 = self.bits;
        let negative = (bits >> 31) == 1;
        let exponent: u32 = (bits >> 23) & 0xff;
        let fraction: u32 = bits & 0x7f_ffff;
        assert(((bits >> 31) == 1) == (bits >= 0x8000_0000)) by (bit_vector);
        assert((bits >> 23) & 0xff == (bits / 0x80_0000) % 0x100) by (bit_vector);
        assert(bits & 0x7f_ffff == bits % 0x80_0000) by (bit_vector);
        (negative, exponent, fraction)
    }

    /// The whole magnitude where it fits in 32 bits, and `None` where it is 2^32 or more.
    fn magnitude(self) -> (whole: Option<u32>)
        requires
            self.exponent() != 255,
        ensures
            whole is Some ==> whole->0 == self.whole_magnitude(),
            whole is None ==> self.whole_magnitude() > u32::MAX,
    {
        let (_, exponent, fraction) = self.fields();
        proof {
            lemma2_to64();
        }
        if exponent == 0 {
            proof {
                assert(pow2(149) >= pow2(24)) by {
                    lemma_pow2_strictly_increases(24, 149);
                }
                assert(self.significand() / pow2(149) == 0) by (nonlinear_arith)
                    requires
                        self.significand() < 0x100_0000,
                        pow2(149) >= 0x100_0000,
                ;
            }
            return Some(0);
        }
        let significand: u32 = fraction + 0x80_0000;
        if exponent >= 159 {
            proof {
                let shift = (exponent - 150) as nat;
                assert(pow2(shift) >= pow2(9)) by {
                    if shift > 9 {
                        lemma_pow2_strictly_increases(9, shift);
                    }
                }
                assert(significand * pow2(shift) >= 0x80_0000 * 0x200) by (nonlinear_arith)
                    requires
                        significand >= 0x80_0000,
                        pow2(shift) >= 0x200,
                ;
            }
            None
        } else if exponent >= 150 {
            let shift: u32 = exponent - 150;
            proof {
                assert(pow2(shift as nat) <= pow2(8)) by {
                    if shift < 8 {
                        lemma_pow2_strictly_increases(shift as nat, 8);
                    }
                }
                assert(significand * pow2(shift as nat) <= 0xff_ffff * 0x100) by (nonlinear_arith)
                    requires
                        significand <= 0xff_ffff,
                        pow2(shift as nat) <= 0x100,
                ;
                lemma_u32_shl_is_mul(significand, shift);
            }
            Some(significand << shift)
        } else if exponent >= 126 {
            let shift: u32 = 150 - exponent;
            proof {
                lemma_u32_shr_is_div(significand, shift);
            }
            Some(significand >> shift)
        } else {
            proof {
                let shift = (150 - exponent) as nat;
                assert(pow2(shift) >= pow2(24)) by {
                    if shift > 24 {
                        lemma_pow2_strictly_increases(24, shift);
                    }
                }
                assert(significand as nat / pow2(shift) == 0) by (nonlinear_arith)
                    requires
                        significand < 0x100_0000,
                        pow2(shift) >= 0x100_0000,
                ;
            }
            Some(0)
        }
    }

    /// Converts from `u32`, rounding to the nearest number that single precision holds.
    pub fn from_u32(value: u32) -> (number: Float)
        ensures
            number == Float::spec_from_u32(value),
            !number.sign(),
    {
        if value == 0 {
            return Float { bits: 0 };
        }
        let mut top: u32 = 31;
        proof {
            lemma2_to64();
        }
        while (value >> top) == 0
            invariant
                value > 0,
                top <= 31,
                value < pow2((top + 1) as nat),
            decreases top,
        {
            proof {
                lemma2_to64();
                lemma_u32_shr_is_div(value, top);
                lemma_pow2_pos(top as nat);
                assert(value < pow2(top as nat)) by (nonlinear_arith)
                    requires
                        value as nat / pow2(top as nat) == 0,
                        pow2(top as nat) > 0,
                ;
                if top == 0 {
                    assert(pow2(0) == 1);
                }
            }
            top = top - 1;
        }
        proof {
            lemma_u32_shr_is_div(value, top);
            lemma_pow2_pos(top as nat);
            assert(value >= pow2(top as nat)) by (nonlinear_arith)
                requires
                    value as nat / pow2(top as nat) != 0,
                    pow2(top as nat) > 0,
            ;
            top_bit_between(value as nat, top as nat);
        }
        let significand: u32 = if top <= 23 {
            let shift: u32 = 23 - top;
            proof {
                lemma_pow2_adds(top as nat, shift as nat);
                lemma_pow2_adds((top + 1) as nat, shift as nat);
                lemma_pow2_pos(shift as nat);
                assert(pow2(23) <= value * pow2(shift as nat) < pow2(24)) by (nonlinear_arith)
                    requires
                        pow2(top as nat) <= value < pow2((top + 1) as nat),
                        pow2(top as nat) * pow2(shift as nat) == pow2(23),
                        pow2((top + 1) as nat) * pow2(shift as nat) == pow2(24),
                        pow2(shift as nat) > 0,
                ;
                lemma_u32_shl_is_mul(value, shift);
            }
            value << shift
        } else {
            let shift: u32 = top - 23;
            proof {
                lemma_pow2_adds(23, shift as nat);
                lemma_pow2_adds(24, shift as nat);
                lemma_pow2_pos(shift as nat);
                assert(pow2(shift as nat) <= pow2(8)) by {
                    if shift < 8 {
                        lemma_pow2_strictly_increases(shift as nat, 8);
                    }
                }
                lemma_u32_shl_is_mul(1, shift);
            }
            let unit: u32 = 1u32 << shift;
            let quotient: u32 = value / unit;
            let rest: u32 = value % unit;
            proof {
                assert(pow2(23) <= value as nat / pow2(shift as nat) < pow2(24)) by (nonlinear_arith)
                    requires
                        pow2(23) * pow2(shift as nat) <= value < pow2(24) * pow2(shift as nat),
                        pow2(shift as nat) > 0,
                ;
            }
            if 2 * rest > unit || (2 * rest == unit && quotient % 2 == 1) {
                quotient + 1
            } else {
                quotient
            }
        };
        Float { bits: (127 + top) * 0x80_0000 + significand - 0x80_0000 }
    }

    /// Converts from `i32`, rounding to the nearest number that single precision holds.
    pub fn from_i32(value: i32) -> (number: Float)
        ensures
            number == Float::spec_from_i32(value),
    {
        if value >= 0 {
            Float::from_u32(value as u32)
        } else {
            let magnitude: u32 = (0 - (value as i64)) as u32;
            Float { bits: Float::from_u32(magnitude).bits + 0x8000_0000 }
        }
    }

    /// Converts to `u32` as a saturating, truncating cast does.
    pub fn to_u32(self) -> (whole: u32)
        ensures
            whole == self.spec_to_u32(),
    {
        let (negative, exponent, fraction) = self.fields();
        if exponent == 255 {
            if fraction != 0 || negative {
                0
            } else {
                u32::MAX
            }
        } else {
            match self.magnitude() {
                Some(magnitude) => if negative {
                    0
                } else {
                    magnitude
                },
                None => if negative {
                    0
                } else {
                    u32::MAX
                },
            }
        }
    }

    /// Converts to `i32` as a saturating, truncating cast does.
    pub fn to_i32(self) -> (whole: i32)
        ensures
            whole == self.spec_to_i32(),
    {
        let (negative, exponent, fraction) = self.fields();
        if exponent == 255 {
            if fraction != 0 {
                0
            } else if negative {
                i32::MIN
            } else {
                i32::MAX
            }
        } else {
            match self.magnitude() {
                Some(magnitude) => if magnitude >= 0x8000_0000 {
                    if negative {
                        i32::MIN
                    } else {
                        i32::MAX
                    }
                } else if negative {
                    0 - (magnitude as i32)
                } else {
                    magnitude as i32
                },
                None => if negative {
                    i32::MIN
                } else {
                    i32::MAX
                },
            }
        }
    }
}

} // verus!
