//! Scalars as IEEE-754 binary64 encodings.
//!
//! Every scalar that crosses the boundary of this crate is carried as the
//! 64-bit pattern of a double-precision number: one sign bit, eleven exponent
//! bits, fifty-two fraction bits. Nothing here rounds: the operations are
//! the ones whose result is an exact function of the encodings (ordering,
//! classification, negation, absolute value, clamping), and each is proved
//! against the number that the pattern encodes.
//!
//! The encoded number is modelled by [`Num::units`], an integer count of the
//! smallest positive subnormal, `2^-1074`. Every finite binary64 value is such
//! a multiple, so the model is exact; the two infinities continue the same
//! formula and land beyond every finite value.
use vstd::arithmetic::mul::lemma_mul_inequality;
use vstd::arithmetic::mul::lemma_mul_strict_inequality;
use vstd::arithmetic::power2::lemma2_to64_rest;
use vstd::arithmetic::power2::lemma_pow2_adds;
use vstd::arithmetic::power2::lemma_pow2_pos;
use vstd::arithmetic::power2::lemma_pow2_strictly_increases;
use vstd::arithmetic::power2::pow2;
use vstd::prelude::*;

verus! {

/// The sign bit of an encoding.
pub const SIGN_BIT: u64 = 0x8000_0000_0000_0000;

/// The encoding of positive infinity; its low 63 bits bound the finite magnitudes.
pub const INFINITY_BITS: u64 = 0x7ff0_0000_0000_0000;

/// The weight of the lowest exponent bit, `2^52`.
pub const HIDDEN_BIT: u64 = 0x0010_0000_0000_0000;

/// The encoding of `1`.
pub const ONE_BITS: u64 = 0x3ff0_0000_0000_0000;

/// The encoding of the machine epsilon, `2^-52`.
pub const EPSILON_BITS: u64 = 0x3cb0_0000_0000_0000;

/// A scalar, held as its binary64 encoding.
#[derive(Clone, Copy, Debug, PartialEq, Eq, Structural)]
pub struct Num {
    pub bits: u64,
}

impl Num {
    /// Whether the sign bit is set (true of `-0`, and of some NaNs).
    pub open spec fn sign(self) -> bool {
        self.bits >= SIGN_BIT
    }

    /// The encoding without its sign bit.
    pub open spec fn magnitude_bits(self) -> int {
        if self.bits >= SIGN_BIT {
            self.bits - SIGN_BIT
        } else {
            self.bits as int
        }
    }

    /// The biased exponent field, `0..=2047`.
    pub open spec fn exponent(self) -> int {
        self.magnitude_bits() / (HIDDEN_BIT as int)
    }

    /// The fraction field, `0..2^52`.
    pub open spec fn fraction(self) -> int {
        self.magnitude_bits() % (HIDDEN_BIT as int)
    }

    /// The encoding is a NaN: all exponent bits set, and some fraction bit.
    pub open spec fn is_nan_spec(self) -> bool {
        self.magnitude_bits() > INFINITY_BITS
    }

    /// The encoding is an infinity: all exponent bits set, no fraction bit.
    pub open spec fn is_infinite_spec(self) -> bool {
        self.magnitude_bits() == INFINITY_BITS
    }

    /// The encoding is a number: a zero, a subnormal or a normal.
    pub open spec fn is_finite_spec(self) -> bool {
        self.magnitude_bits() < INFINITY_BITS
    }

    /// The absolute value of the encoded number, in units of `2^-1074`.
    ///
    /// Subnormals (exponent field 0) count their fraction; normals add the
    /// hidden bit and scale by the exponent. An infinity gets `2^2098`, above
    /// every finite magnitude. The value given to a NaN is not meaningful.
    pub open spec fn magnitude(self) -> int {
        if self.exponent() == 0 {
            self.fraction()
        } else {
            (HIDDEN_BIT + self.fraction()) * pow2((self.exponent() - 1) as nat)
        }
    }

    /// The encoded number in units of `2^-1074`: the real value is
    /// `units() / 2^1074`, with `+/-2^2098` standing for the infinities.
    pub open spec fn units(self) -> int {
        if self.sign() {
            -self.magnitude()
        } else {
            self.magnitude()
        }
    }

    /// `self < rhs` as IEEE-754 orders them: false if either is a NaN,
    /// otherwise the order of the encoded numbers (so `-0 < +0` is false).
    pub open spec fn less_than(self, rhs: Num) -> bool {
        !self.is_nan_spec() && !rhs.is_nan_spec() && self.units() < rhs.units()
    }

    /// `self <= rhs` as IEEE-754 orders them.
    pub open spec fn at_most(self, rhs: Num) -> bool {
        !self.is_nan_spec() && !rhs.is_nan_spec() && self.units() <= rhs.units()
    }

    /// `self == rhs` as IEEE-754 compares them: a NaN equals nothing, and
    /// the two zeros are equal.
    pub open spec fn same_value(self, rhs: Num) -> bool {
        !self.is_nan_spec() && !rhs.is_nan_spec() && self.units() == rhs.units()
    }

    /// Positive zero.
    pub open spec fn zero_spec() -> Num {
        Num { bits: 0 }
    }

    /// The number one.
    pub open spec fn one_spec() -> Num {
        Num { bits: ONE_BITS }
    }

    /// The machine epsilon, `2^-52`.
    pub open spec fn epsilon_spec() -> Num {
        Num { bits: EPSILON_BITS }
    }

    /// The encoding with its sign bit flipped.
    pub open spec fn neg_spec(self) -> Num {
        Num {
            bits: if self.bits >= SIGN_BIT {
                (self.bits - SIGN_BIT) as u64
            } else {
                (self.bits + SIGN_BIT) as u64
            },
        }
    }

    /// The encoding with its sign bit cleared.
    pub open spec fn abs_spec(self) -> Num {
        Num { bits: self.magnitude_bits() as u64 }
    }

    /// `|self| < 2^-52`: the test by which a quantity counts as vanishing.
    /// False of a NaN.
    pub open spec fn is_near_zero_spec(self) -> bool {
        self.abs_spec().less_than(Num::epsilon_spec())
    }

    /// `self < 0`. False of both zeros and of a NaN.
    pub open spec fn is_negative_spec(self) -> bool {
        self.less_than(Num::zero_spec())
    }

    /// The nearest number in `[-1, 1]`; a NaN stays as it is.
    pub open spec fn clamp_unit_spec(self) -> Num {
        if self.less_than(Num::one_spec().neg_spec()) {
            Num::one_spec().neg_spec()
        } else if Num::one_spec().less_than(self) {
            Num::one_spec()
        } else {
            self
        }
    }

    /// Wraps an encoding.
    pub fn from_bits(bits: u64) -> (r: Num)
        ensures
            r.bits == bits,
    {
        Num { bits }
    }

    /// The encoding.
    pub fn to_bits(self) -> (r: u64)
        ensures
            r == self.bits,
    {
        self.bits
    }

    /// Positive zero.
    #[verifier::when_used_as_spec(zero_spec)]
    pub fn zero() -> (r: Num)
        ensures
            r == Num::zero_spec(),
    {
        Num { bits: 0 }
    }

    /// The number one.
    #[verifier::when_used_as_spec(one_spec)]
    pub fn one() -> (r: Num)
        ensures
            r == Num::one_spec(),
    {
        Num { bits: ONE_BITS }
    }

    /// The machine epsilon of binary64, `2^-52`.
    #[verifier::when_used_as_spec(epsilon_spec)]
    pub fn epsilon() -> (r: Num)
        ensures
            r == Num::epsilon_spec(),
    {
        Num { bits: EPSILON_BITS }
    }

    fn magnitude_word(self) -> (r: u64)
        ensures
            r == self.magnitude_bits(),
            r < SIGN_BIT,
    {
        let bits: u64 = self.bits;
        assert(bits & 0x7fff_ffff_ffff_ffff == (if bits >= 0x8000_0000_0000_0000u64 {
            (bits - 0x8000_0000_0000_0000u64) as u64
        } else {
            bits
        })) by (bit_vector);
        bits & 0x7fff_ffff_ffff_ffff
    }

    /// Whether the encoding is a NaN.
    #[verifier::when_used_as_spec(is_nan_spec)]
    pub fn is_nan(self) -> (r: bool)
        ensures
            r == self.is_nan_spec(),
    {
        self.magnitude_word() > INFINITY_BITS
    }

    /// Whether the encoding is one of the two infinities.
    #[verifier::when_used_as_spec(is_infinite_spec)]
    pub fn is_infinite(self) -> (r: bool)
        ensures
            r == self.is_infinite_spec(),
    {
        self.magnitude_word() == INFINITY_BITS
    }

    /// Whether the encoding is neither an infinity nor a NaN.
    #[verifier::when_used_as_spec(is_finite_spec)]
    pub fn is_finite(self) -> (r: bool)
        ensures
            r == self.is_finite_spec(),
    {
        self.magnitude_word() < INFINITY_BITS
    }

    /// Whether the sign bit is set.
    pub fn is_sign_negative(self) -> (r: bool)
        ensures
            r == self.sign(),
    {
        self.bits >= SIGN_BIT
    }

    /// IEEE-754 `<`.
    pub fn lt(self, rhs: Num) -> (r: bool)
        ensures
            r == self.less_than(rhs),
    {
        let a: u64 = self.magnitude_word();
        let b: u64 = rhs.magnitude_word();
        proof {
            lemma_magnitude_order(self, rhs);
        }
        if a > INFINITY_BITS || b > INFINITY_BITS {
            false
        } else if self.bits >= SIGN_BIT {
            if rhs.bits >= SIGN_BIT {
                b < a
            } else {
                a != 0 || b != 0
            }
        } else {
            if rhs.bits >= SIGN_BIT {
                false
            } else {
                a < b
            }
        }
    }

    /// IEEE-754 `<=`.
    pub fn le(self, rhs: Num) -> (r: bool)
        ensures
            r == self.at_most(rhs),
    {
        let a: u64 = self.magnitude_word();
        let b: u64 = rhs.magnitude_word();
        proof {
            lemma_magnitude_order(self, rhs);
        }
        if a > INFINITY_BITS || b > INFINITY_BITS {
            false
        } else if self.bits >= SIGN_BIT {
            if rhs.bits >= SIGN_BIT {
                b <= a
            } else {
                true
            }
        } else {
            if rhs.bits >= SIGN_BIT {
                a == 0 && b == 0
            } else {
                a <= b
            }
        }
    }

    /// IEEE-754 `>`.
    pub fn gt(self, rhs: Num) -> (r: bool)
        ensures
            r == rhs.less_than(self),
    {
        rhs.lt(self)
    }

    /// IEEE-754 `>=`.
    pub fn ge(self, rhs: Num) -> (r: bool)
        ensures
            r == rhs.at_most(self),
    {
        rhs.le(self)
    }

    /// IEEE-754 `==`.
    pub fn eq_value(self, rhs: Num) -> (r: bool)
        ensures
            r == self.same_value(rhs),
    {
        let a: u64 = self.magnitude_word();
        let b: u64 = rhs.magnitude_word();
        proof {
            lemma_magnitude_order(self, rhs);
        }
        if a > INFINITY_BITS || b > INFINITY_BITS {
            false
        } else if a == 0 && b == 0 {
            true
        } else {
            self.bits == rhs.bits
        }
    }

    /// The negation: the same magnitude with the sign bit flipped. Exact for
    /// every encoding, NaNs included.
    #[verifier::when_used_as_spec(neg_spec)]
    pub fn neg(self) -> (r: Num)
        ensures
            r == self.neg_spec(),
            r.magnitude_bits() == self.magnitude_bits(),
            r.sign() != self.sign(),
            r.units() == -self.units(),
    {
        if self.bits >= SIGN_BIT {
            Num { bits: self.bits - SIGN_BIT }
        } else {
            Num { bits: self.bits + SIGN_BIT }
        }
    }

    /// The absolute value: the same magnitude with the sign bit cleared.
    #[verifier::when_used_as_spec(abs_spec)]
    pub fn abs(self) -> (r: Num)
        ensures
            r == self.abs_spec(),
            r.magnitude_bits() == self.magnitude_bits(),
            !r.sign(),
            r.units() == self.magnitude(),
    {
        Num { bits: self.magnitude_word() }
    }

    /// Whether the number vanishes to within the machine epsilon.
    #[verifier::when_used_as_spec(is_near_zero_spec)]
    pub fn is_near_zero(self) -> (r: bool)
        ensures
            r == self.is_near_zero_spec(),
    {
        self.abs().lt(Num::epsilon())
    }

    /// Whether the number is below zero.
    #[verifier::when_used_as_spec(is_negative_spec)]
    pub fn is_negative(self) -> (r: bool)
        ensures
            r == self.is_negative_spec(),
    {
        self.lt(Num::zero())
    }

    /// Clamps to `[-1, 1]`, the domain of the inverse cosine: a ratio that
    /// rounding pushed marginally outside comes back to the nearest bound.
    #[verifier::when_used_as_spec(clamp_unit_spec)]
    pub fn clamp_unit(self) -> (r: Num)
        ensures
            r == self.clamp_unit_spec(),
    {
        let minus_one: Num = Num::one().neg();
        if self.lt(minus_one) {
            minus_one
        } else if Num::one().lt(self) {
            Num::one()
        } else {
            self
        }
    }
}

/// The magnitude of the encoded number grows strictly with the low 63 bits
/// of the encoding: comparing magnitudes is comparing those bits.
pub proof fn lemma_magnitude_order(a: Num, b: Num)
    ensures
        a.magnitude_bits() < b.magnitude_bits() <==> a.magnitude() < b.magnitude(),
        a.magnitude_bits() == b.magnitude_bits() <==> a.magnitude() == b.magnitude(),
        0 <= a.magnitude(),
        a.magnitude_bits() == 0 <==> a.magnitude() == 0,
{
    lemma_magnitude_increases(a, b);
    lemma_magnitude_increases(b, a);
    lemma_magnitude_increases(Num { bits: 0 }, a);
    assert(Num { bits: 0 }.magnitude() == 0);
}

proof fn lemma_magnitude_increases(a: Num, b: Num)
    ensures
        a.magnitude_bits() < b.magnitude_bits() ==> a.magnitude() < b.magnitude(),
{
    if a.magnitude_bits() < b.magnitude_bits() {
        let h: int = HIDDEN_BIT as int;
        let ea: int = a.exponent();
        let eb: int = b.exponent();
        let fa: int = a.fraction();
        let fb: int = b.fraction();
        assert(a.magnitude_bits() == ea * h + fa && 0 <= fa < h) by {
            vstd::arithmetic::div_mod::lemma_fundamental_div_mod(a.magnitude_bits(), h);
        }
        assert(b.magnitude_bits() == eb * h + fb && 0 <= fb < h) by {
            vstd::arithmetic::div_mod::lemma_fundamental_div_mod(b.magnitude_bits(), h);
        }
        assert(0 <= ea <= eb) by (nonlinear_arith)
            requires
                0 <= a.magnitude_bits() == ea * h + fa < b.magnitude_bits() == eb * h + fb,
                0 <= fa < h,
                0 <= fb < h,
                h > 0,
        ;
        if ea == eb {
            assert(fa < fb);
            if ea != 0 {
                let p: int = pow2((ea - 1) as nat) as int;
                lemma_pow2_pos((ea - 1) as nat);
                lemma_mul_strict_inequality(h + fa, h + fb, p);
            }
        } else {
            let pb: int = pow2((eb - 1) as nat) as int;
            lemma_pow2_pos((eb - 1) as nat);
            // b is at least the smallest magnitude of its binade
            lemma_mul_inequality(h, h + fb, pb);
            assert(h * pb <= b.magnitude());
            if ea == 0 {
                // a is subnormal: below the hidden bit
                lemma_mul_inequality(1, pb, h);
                assert(fa < h * pb);
            } else {
                let pa: int = pow2((ea - 1) as nat) as int;
                lemma_pow2_pos((ea - 1) as nat);
                // a is below the top of its binade, 2^53 * 2^(ea-1) = 2^52 * 2^ea
                lemma_mul_strict_inequality(h + fa, 2 * h, pa);
                assert(pow2(ea as nat) == 2 * pa) by {
                    vstd::arithmetic::power2::lemma_pow2_unfold(ea as nat);
                }
                assert((2 * h) * pa == h * (2 * pa)) by (nonlinear_arith);
                if ea < eb - 1 {
                    lemma_pow2_strictly_increases(ea as nat, (eb - 1) as nat);
                }
                assert(2 * pa <= pb);
                lemma_mul_inequality(2 * pa, pb, h);
                assert(h * (2 * pa) == (2 * pa) * h) by (nonlinear_arith);
                assert(h * pb == pb * h) by (nonlinear_arith);
            }
        }
    }
}

/// The order read off the encodings: two numbers of which neither is a NaN
/// compare as their low 63 bits do if both signs are clear, the other way
/// round if both are set, and a number with its sign set is below one
/// without, unless both are zeros.
pub proof fn lemma_order_of_encodings(a: Num, b: Num)
    requires
        !a.is_nan_spec(),
        !b.is_nan_spec(),
    ensures
        !a.sign() && !b.sign() ==> (a.less_than(b) <==> a.bits < b.bits),
        a.sign() && b.sign() ==> (a.less_than(b) <==> b.bits < a.bits),
        a.sign() && !b.sign() ==> (a.less_than(b) <==> a.magnitude_bits() != 0 || b.bits != 0),
        !a.sign() && b.sign() ==> !a.less_than(b),
{
    lemma_magnitude_order(a, b);
    lemma_magnitude_order(b, a);
}

/// What the named constants encode: zero, one (`2^1074` units) and the
/// machine epsilon (`2^1022` units, that is `2^-52`).
pub proof fn lemma_constants()
    ensures
        Num::zero_spec().units() == 0,
        Num::one_spec().units() == pow2(1074),
        Num::epsilon_spec().units() == pow2(1022),
        Num::one_spec().neg_spec().units() == -pow2(1074),
        Num::zero_spec().is_finite_spec(),
        Num::one_spec().is_finite_spec(),
        Num::epsilon_spec().is_finite_spec(),
{
    lemma2_to64_rest();
    let one = Num::one_spec();
    assert(one.magnitude_bits() == 0x3ff0_0000_0000_0000);
    assert(one.exponent() == 1023 && one.fraction() == 0);
    lemma_pow2_adds(52, 1022);
    let eps = Num::epsilon_spec();
    assert(eps.magnitude_bits() == 0x3cb0_0000_0000_0000);
    assert(eps.exponent() == 971 && eps.fraction() == 0);
    lemma_pow2_adds(52, 970);
    let minus_one = one.neg_spec();
    assert(minus_one.bits == 0xbff0_0000_0000_0000);
    assert(minus_one.magnitude_bits() == 0x3ff0_0000_0000_0000);
}

/// The order of IEEE-754 is a strict order on the numbers, total up to equal
/// value: it is irreflexive, asymmetric and transitive, and two numbers are
/// ordered one way or the other or have the same value. A NaN is ordered
/// with nothing and equals nothing.
pub proof fn lemma_order(a: Num, b: Num, c: Num)
    ensures
        !a.less_than(a),
        a.less_than(b) && b.less_than(c) ==> a.less_than(c),
        a.less_than(b) ==> !b.less_than(a),
        !a.is_nan_spec() && !b.is_nan_spec() ==> a.less_than(b) || b.less_than(a) || a.same_value(
            b,
        ),
        a.at_most(b) <==> a.less_than(b) || a.same_value(b),
        a.is_nan_spec() ==> !a.less_than(b) && !b.less_than(a) && !a.same_value(b) && !a.at_most(
            b,
        ),
{
}

/// Two numbers have the same value exactly when their encodings are equal
/// or both are zeros.
pub proof fn lemma_same_value(a: Num, b: Num)
    requires
        !a.is_nan_spec(),
        !b.is_nan_spec(),
    ensures
        a.same_value(b) <==> a.bits == b.bits || (a.magnitude_bits() == 0 && b.magnitude_bits()
            == 0),
{
    lemma_magnitude_order(a, b);
    lemma_magnitude_order(b, a);
}

/// Clamping keeps a NaN and nothing else outside `[-1, 1]`, changes no
/// number that is already inside, and is idempotent.
pub proof fn lemma_clamp_unit(a: Num)
    ensures
        a.clamp_unit_spec().is_nan_spec() == a.is_nan_spec(),
        !a.is_nan_spec() ==> -pow2(1074) <= a.clamp_unit_spec().units() <= pow2(1074),
        -pow2(1074) <= a.units() <= pow2(1074) && !a.is_nan_spec() ==> a.clamp_unit_spec() == a,
        a.clamp_unit_spec().clamp_unit_spec() == a.clamp_unit_spec(),
{
    lemma_constants();
    let one = Num::one_spec();
    let minus_one = one.neg_spec();
    assert(minus_one.magnitude_bits() == 0x3ff0_0000_0000_0000);
    assert(one.magnitude_bits() == 0x3ff0_0000_0000_0000);
}

} // verus!
