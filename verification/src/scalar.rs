//! Real numbers in IEEE 754 single precision, held by their bit pattern.
//!
//! A pattern is a sign bit, eight exponent bits and twenty-three fraction
//! bits. Every pattern that is not a NaN stands for a multiple of 2^-149 (or
//! for an infinity), so its value times 2^149 is an integer: `scaled`. The
//! order of the reals is the order of those integers.

use vstd::prelude::*;
use vstd::arithmetic::power2::{pow2, lemma_pow2_pos, lemma_pow2_unfold, lemma_pow2_strictly_increases};

verus! {

/// The pattern's top bit: set for negative numbers.
pub const SIGN_BIT: u32 = 0x8000_0000;

/// Two to the twenty-third: the weight of the bit that a normal number's
/// fraction leaves out.
pub const HIDDEN_BIT: u32 = 0x0080_0000;

/// The patterns above this one, sign aside, are the NaNs; it is infinity.
pub const INFINITY_BITS: u32 = 0x7f80_0000;

/// The pattern of zero.
pub const ZERO_BITS: u32 = 0;

/// The pattern of one: exponent 127, fraction 0.
pub const ONE_BITS: u32 = 0x3f80_0000;

/// A single-precision number, by its bits.
#[derive(Clone, Copy, Debug)]
pub struct Scalar {
    pub bits: u32,
}

impl Scalar {
    /// Whether the sign bit is set.
    pub open spec fn negative(self) -> bool {
        self.bits >= SIGN_BIT
    }

    /// The eight exponent bits.
    pub open spec fn exponent(self) -> nat {
        ((self.bits as nat) / (HIDDEN_BIT as nat)) % 256
    }

    /// The twenty-three fraction bits.
    pub open spec fn fraction(self) -> nat {
        (self.bits as nat) % (HIDDEN_BIT as nat)
    }

    /// Whether the pattern is a NaN: it stands for no number and compares
    /// with nothing.
    pub open spec fn nan(self) -> bool {
        self.exponent() == 255 && self.fraction() != 0
    }

    /// The absolute value times 2^149. An infinity gets 2^277, which is
    /// above every finite magnitude.
    pub open spec fn magnitude(self) -> nat {
        if self.exponent() == 0 {
            self.fraction()
        } else {
            (HIDDEN_BIT as nat + self.fraction()) * pow2((self.exponent() - 1) as nat)
        }
    }

    /// The value times 2^149. Both zeros give 0.
    pub open spec fn scaled(self) -> int {
        if self.negative() {
            -(self.magnitude() as int)
        } else {
            self.magnitude() as int
        }
    }

    /// `self < other` as numbers; false as soon as one of them is a NaN.
    pub open spec fn below(self, other: Scalar) -> bool {
        !self.nan() && !other.nan() && self.scaled() < other.scaled()
    }

    /// `lo < self < hi`: strictly inside the open interval.
    pub open spec fn between(self, lo: Scalar, hi: Scalar) -> bool {
        self.below(hi) && lo.below(self)
    }

    /// Zero, with the sign bit clear.
    pub open spec fn zero() -> Scalar {
        Scalar { bits: ZERO_BITS }
    }

    /// One.
    pub open spec fn one() -> Scalar {
        Scalar { bits: ONE_BITS }
    }

    /// The same number with the opposite sign.
    pub open spec fn negated(self) -> Scalar {
        Scalar {
            bits: if self.bits >= SIGN_BIT {
                (self.bits - SIGN_BIT) as u32
            } else {
                (self.bits + SIGN_BIT) as u32
            },
        }
    }

    /// The pattern without its sign bit.
    pub open spec fn body(self) -> nat {
        (self.bits as nat) % (SIGN_BIT as nat)
    }

    /// The pattern read as a signed integer: the body, with the sign that the
    /// top bit gives. It grows with the number.
    pub open spec fn rank(self) -> int {
        if self.negative() {
            -(self.body() as int)
        } else {
            self.body() as int
        }
    }

    /// A larger body is a larger magnitude.
    proof fn lemma_magnitude_increases(self, other: Scalar)
        requires
            self.body() < other.body(),
        ensures
            self.magnitude() < other.magnitude(),
    {
        let ea = self.exponent();
        let eb = other.exponent();
        let fa = self.fraction();
        let fb = other.fraction();
        let h = HIDDEN_BIT as nat;
        assert(self.body() == ea * h + fa);
        assert(other.body() == eb * h + fb);
        assert(ea <= eb);
        if ea == eb {
            if ea > 0 {
                let p = pow2((ea - 1) as nat);
                lemma_pow2_pos((ea - 1) as nat);
                assert((h + fa) * p < (h + fb) * p) by (nonlinear_arith)
                    requires
                        fa < fb,
                        p > 0,
                ;
            }
        } else {
            let q = pow2((eb - 1) as nat);
            lemma_pow2_pos((eb - 1) as nat);
            assert(h * q <= (h + fb) * q) by (nonlinear_arith)
                requires
                    q > 0,
            ;
            if ea == 0 {
                assert(h * 1 <= h * q) by (nonlinear_arith)
                    requires
                        q >= 1,
                ;
            } else {
                let p = pow2((ea - 1) as nat);
                lemma_pow2_pos((ea - 1) as nat);
                lemma_pow2_unfold(ea);
                if ea < eb - 1 {
                    lemma_pow2_strictly_increases(ea, (eb - 1) as nat);
                }
                assert(pow2(ea) <= q);
                assert((h + fa) * p < h * (2 * p)) by (nonlinear_arith)
                    requires
                        fa < h,
                        p > 0,
                ;
                assert(h * (2 * p) <= h * q) by (nonlinear_arith)
                    requires
                        2 * p <= q,
                ;
            }
        }
    }

    /// The order of the bodies is the order of the magnitudes.
    proof fn lemma_magnitude_order(self, other: Scalar)
        ensures
            self.body() < other.body() <==> self.magnitude() < other.magnitude(),
            self.body() == other.body() <==> self.magnitude() == other.magnitude(),
            self.body() == 0 <==> self.magnitude() == 0,
    {
        if self.body() < other.body() {
            self.lemma_magnitude_increases(other);
        }
        if other.body() < self.body() {
            other.lemma_magnitude_increases(self);
        }
        if self.body() == other.body() {
            assert(self.exponent() == other.exponent());
            assert(self.fraction() == other.fraction());
        }
        let zero = Scalar { bits: 0 };
        assert(zero.magnitude() == 0);
        if self.body() > 0 {
            zero.lemma_magnitude_increases(self);
        } else {
            assert(self.exponent() == 0 && self.fraction() == 0);
        }
    }

    /// Numbers are ordered as their ranks are: two patterns stand in the
    /// order of their ranks, and for the same number (the two zeros too)
    /// exactly when their ranks are equal.
    pub proof fn lemma_order_is_rank_order(self, other: Scalar)
        ensures
            self.scaled() < other.scaled() <==> self.rank() < other.rank(),
            self.scaled() == other.scaled() <==> self.rank() == other.rank(),
    {
        self.lemma_magnitude_order(other);
        other.lemma_magnitude_order(self);
    }

    /// The number with the given bit pattern.
    pub fn from_bits(bits: u32) -> (r: Scalar)
        ensures
            r.bits == bits,
    {
        Scalar { bits }
    }

    /// The bit pattern.
    pub fn to_bits(self) -> (r: u32)
        ensures
            r == self.bits,
    {
        self.bits
    }

    /// Whether the pattern is a NaN.
    pub fn is_nan(self) -> (r: bool)
        ensures
            r == self.nan(),
    {
        self.bits % SIGN_BIT > INFINITY_BITS
    }

    /// The rank, computed.
    fn signed_body(self) -> (r: i64)
        ensures
            r == self.rank(),
    {
        let body: i64 = (self.bits % SIGN_BIT) as i64;
        if self.bits >= SIGN_BIT {
            -body
        } else {
            body
        }
    }

    /// `self < other`.
    pub fn lt(self, other: Scalar) -> (r: bool)
        ensures
            r == self.below(other),
    {
        proof {
            self.lemma_order_is_rank_order(other);
        }
        !self.is_nan() && !other.is_nan() && self.signed_body() < other.signed_body()
    }

    /// `self > other`.
    pub fn gt(self, other: Scalar) -> (r: bool)
        ensures
            r == other.below(self),
    {
        other.lt(self)
    }

    /// Whether `self` lies strictly between `lo` and `hi`.
    pub fn is_between(self, lo: Scalar, hi: Scalar) -> (r: bool)
        ensures
            r == self.between(lo, hi),
    {
        self.lt(hi) && self.gt(lo)
    }

    /// The same number with the opposite sign; a NaN stays a NaN.
    pub fn neg(self) -> (r: Scalar)
        ensures
            r == self.negated(),
            r.nan() == self.nan(),
            r.scaled() == -self.scaled(),
    {
        if self.bits >= SIGN_BIT {
            Scalar { bits: self.bits - SIGN_BIT }
        } else {
            Scalar { bits: self.bits + SIGN_BIT }
        }
    }
}

} // verus!
