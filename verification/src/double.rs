//! Prices, sizes and amounts: IEEE-754 doubles, held as their 64 bits.
//!
//! The library carries such numbers and compares them. Arithmetic on them is left to the caller,
//! which has the hardware for it.
use vstd::prelude::*;
use vstd::arithmetic::power2::*;
use vstd::arithmetic::mul::*;

verus! {

/// A double, by its bit pattern.
#[derive(Clone, Copy, Debug, PartialEq, Eq, Structural)]
pub struct Double {
    pub bits: u64,
}

/// The weight of the sign bit.
pub const SIGN_BIT: u64 = 0x8000_0000_0000_0000;

/// The bit pattern of positive infinity.
pub const INFINITY_BITS: u64 = 0x7ff0_0000_0000_0000;

/// The weight of the lowest exponent bit.
pub const EXPONENT_UNIT: u64 = 0x10_0000_0000_0000;

/// 0.01
pub const CENT_BITS: u64 = 0x3f84_7ae1_47ae_147b;

/// 0.95
pub const NINETY_FIVE_CENT_BITS: u64 = 0x3fee_6666_6666_6666;

/// 0.98
pub const NINETY_EIGHT_CENT_BITS: u64 = 0x3fef_5c28_f5c2_8f5c;

/// 0.99
pub const NINETY_NINE_CENT_BITS: u64 = 0x3fef_ae14_7ae1_47ae;

/// 1.0
pub const ONE_BITS: u64 = 0x3ff0_0000_0000_0000;

impl Double {
    /// The bits without the sign.
    pub open spec fn magnitude(self) -> int {
        self.bits as int % SIGN_BIT as int
    }

    pub open spec fn negative(self) -> bool {
        self.bits >= SIGN_BIT
    }

    pub open spec fn nan(self) -> bool {
        self.magnitude() > INFINITY_BITS
    }

    pub open spec fn finite(self) -> bool {
        self.magnitude() < INFINITY_BITS
    }

    /// An integer that orders the doubles that are numbers.
    pub open spec fn key(self) -> int {
        if self.negative() {
            -self.magnitude()
        } else {
            self.magnitude()
        }
    }

    /// `self < other`, which is false where either is not a number.
    pub open spec fn below(self, other: Double) -> bool {
        !self.nan() && !other.nan() && self.key() < other.key()
    }

    /// `self <= other`, which is false where either is not a number.
    pub open spec fn at_most(self, other: Double) -> bool {
        !self.nan() && !other.nan() && self.key() <= other.key()
    }

    /// `self > 0`.
    pub open spec fn positive(self) -> bool {
        !self.nan() && self.key() > 0
    }

    /// The value of a finite double, in units of the smallest positive double.
    pub open spec fn units(self) -> int {
        let exponent = self.magnitude() / EXPONENT_UNIT as int;
        let fraction = self.magnitude() % EXPONENT_UNIT as int;
        let size = if exponent == 0 {
            fraction
        } else {
            (fraction + EXPONENT_UNIT) * pow2((exponent - 1) as nat) as int
        };
        if self.negative() {
            -size
        } else {
            size
        }
    }

    pub fn zero() -> (r: Double)
        ensures
            r == (Double { bits: 0 }),
    {
        Double { bits: 0 }
    }

    pub fn is_negative(self) -> (r: bool)
        ensures
            r == self.negative(),
    {
        self.bits >= SIGN_BIT
    }

    fn unsigned_bits(self) -> (r: u64)
        ensures
            r == self.magnitude(),
    {
        if self.bits >= SIGN_BIT {
            self.bits - SIGN_BIT
        } else {
            self.bits
        }
    }

    fn order_key(self) -> (r: i128)
        ensures
            r == self.key(),
    {
        let m: i128 = self.unsigned_bits() as i128;
        if self.is_negative() {
            -m
        } else {
            m
        }
    }

    pub fn is_nan(self) -> (r: bool)
        ensures
            r == self.nan(),
    {
        self.unsigned_bits() > INFINITY_BITS
    }

    pub fn is_finite(self) -> (r: bool)
        ensures
            r == self.finite(),
    {
        self.unsigned_bits() < INFINITY_BITS
    }

    pub fn lt(self, other: Double) -> (r: bool)
        ensures
            r == self.below(other),
    {
        !self.is_nan() && !other.is_nan() && self.order_key() < other.order_key()
    }

    pub fn le(self, other: Double) -> (r: bool)
        ensures
            r == self.at_most(other),
    {
        !self.is_nan() && !other.is_nan() && self.order_key() <= other.order_key()
    }

    pub fn is_positive(self) -> (r: bool)
        ensures
            r == self.positive(),
    {
        !self.is_nan() && self.order_key() > 0
    }

    /// `f64::max`: the larger of two numbers, or the one of them that is a number.
    pub open spec fn larger(self, other: Double) -> Double {
        if self.nan() || self.below(other) {
            other
        } else {
            self
        }
    }

    pub fn max(self, other: Double) -> (r: Double)
        ensures
            r == self.larger(other),
    {
        if self.is_nan() || self.lt(other) {
            other
        } else {
            self
        }
    }

    /// `f64::min`: the smaller of two numbers, or the one of them that is a number.
    pub open spec fn smaller(self, other: Double) -> Double {
        if self.nan() || other.below(self) {
            other
        } else {
            self
        }
    }

    pub fn min(self, other: Double) -> (r: Double)
        ensures
            r == self.smaller(other),
    {
        if self.is_nan() || other.lt(self) {
            other
        } else {
            self
        }
    }

    /// The value where it is positive, and zero otherwise.
    pub open spec fn or_zero(self) -> Double {
        if self.positive() {
            self
        } else {
            Double { bits: 0 }
        }
    }

    pub fn at_least_zero(self) -> (r: Double)
        ensures
            r == self.or_zero(),
    {
        if self.is_positive() {
            self
        } else {
            Double::zero()
        }
    }

    /// The value with the other sign.
    pub open spec fn opposite(self) -> Double {
        if self.negative() {
            Double { bits: (self.bits - SIGN_BIT) as u64 }
        } else {
            Double { bits: (self.bits + SIGN_BIT) as u64 }
        }
    }

    pub fn negated(self) -> (r: Double)
        ensures
            r == self.opposite(),
    {
        if self.bits >= SIGN_BIT {
            Double { bits: self.bits - SIGN_BIT }
        } else {
            Double { bits: self.bits + SIGN_BIT }
        }
    }
}

proof fn lemma_magnitude_order(a: int, b: int)
    requires
        0 <= a < b < INFINITY_BITS,
    ensures
        (Double { bits: a as u64 }).units() < (Double { bits: b as u64 }).units(),
{
    let u = EXPONENT_UNIT as int;
    let ea = a / u;
    let eb = b / u;
    let fa = a % u;
    let fb = b % u;
    assert(a == ea * u + fa && b == eb * u + fb && ea <= eb) by (nonlinear_arith)
        requires
            0 <= a < b,
            ea == a / u,
            eb == b / u,
            fa == a % u,
            fb == b % u,
            u == 0x10_0000_0000_0000,
    ;
    if ea == eb {
        if ea > 0 {
            let p = pow2((ea - 1) as nat) as int;
            lemma_pow2_pos((ea - 1) as nat);
            lemma_mul_strict_inequality(fa + u, fb + u, p);
        }
    } else {
        lemma_pow2_pos((eb - 1) as nat);
        let pb = pow2((eb - 1) as nat) as int;
        assert((fb + u) * pb >= u * pb) by (nonlinear_arith)
            requires
                fb >= 0,
                pb > 0,
        ;
        if ea == 0 {
            assert(u * pb >= u) by (nonlinear_arith)
                requires
                    pb >= 1,
                    u > 0,
            ;
        } else {
            let pa = pow2((ea - 1) as nat) as int;
            lemma_pow2_pos((ea - 1) as nat);
            lemma_pow2_unfold(ea as nat);
            assert(pow2(ea as nat) == 2 * pa);
            if ea < eb - 1 {
                lemma_pow2_strictly_increases(ea as nat, (eb - 1) as nat);
            }
            assert((fa + u) * pa < u * pb) by (nonlinear_arith)
                requires
                    fa < u,
                    pa > 0,
                    pb >= 2 * pa,
                    u > 0,
            ;
        }
    }
}

/// Two finite doubles compare as the numbers that they stand for.
pub proof fn order_is_numeric(a: Double, b: Double)
    requires
        a.finite(),
        b.finite(),
    ensures
        a.below(b) <==> a.units() < b.units(),
        a.at_most(b) <==> a.units() <= b.units(),
{
    let ma = a.magnitude();
    let mb = b.magnitude();
    let pa = Double { bits: ma as u64 };
    let pb = Double { bits: mb as u64 };
    let zero = Double { bits: 0 };
    assert(pa.magnitude() == ma && pb.magnitude() == mb);
    assert(a.units() == (if a.negative() {
        -pa.units()
    } else {
        pa.units()
    }));
    assert(b.units() == (if b.negative() {
        -pb.units()
    } else {
        pb.units()
    }));
    assert(zero.units() == 0);
    if ma > 0 {
        lemma_magnitude_order(0, ma);
    }
    if mb > 0 {
        lemma_magnitude_order(0, mb);
    }
    if ma < mb {
        lemma_magnitude_order(ma, mb);
    }
    if mb < ma {
        lemma_magnitude_order(mb, ma);
    }
}

/// Changing the sign twice changes nothing.
pub proof fn negation_is_an_involution(a: Double)
    ensures
        a.opposite().opposite() == a,
        a.opposite().key() == -a.key(),
{
}

/// The larger and the smaller of two numbers are each one of the two, and lie on their side of
/// both.
pub proof fn extremes_bound_both(a: Double, b: Double)
    requires
        !a.nan(),
        !b.nan(),
    ensures
        a.larger(b) == a || a.larger(b) == b,
        a.smaller(b) == a || a.smaller(b) == b,
        a.larger(b).key() >= a.key() && a.larger(b).key() >= b.key(),
        a.smaller(b).key() <= a.key() && a.smaller(b).key() <= b.key(),
{
}

/// A finite double is positive exactly where it stands for a number above zero, and changing its
/// sign changes that of the number.
pub proof fn sign_is_numeric(a: Double)
    requires
        a.finite(),
    ensures
        a.positive() <==> a.units() > 0,
        a.opposite().finite(),
        a.opposite().units() == -a.units(),
        a.units() > 0 ==> a.or_zero() == a,
        a.units() <= 0 ==> a.or_zero().units() == 0,
{
    let zero = Double { bits: 0 };
    assert(zero.units() == 0);
    order_is_numeric(zero, a);
    assert(a.opposite().magnitude() == a.magnitude());
    if a.magnitude() == 0 {
        assert(a.units() == 0);
    } else {
        let m = Double { bits: a.magnitude() as u64 };
        lemma_magnitude_order(0, a.magnitude());
        assert(m.magnitude() == a.magnitude());
        assert(m.units() > 0);
    }
}

/// The bounds have the bits of the doubles that are nearest to them, and lie in their order.
pub proof fn bounds_are_what_they_are_called()
    ensures
        CENT_BITS == 0x3f84_7ae1_47ae_147b,
        NINETY_FIVE_CENT_BITS == 0x3fee_6666_6666_6666,
        NINETY_EIGHT_CENT_BITS == 0x3fef_5c28_f5c2_8f5c,
        NINETY_NINE_CENT_BITS == 0x3fef_ae14_7ae1_47ae,
        ONE_BITS == 0x3ff0_0000_0000_0000,
        0 < CENT_BITS < NINETY_FIVE_CENT_BITS < NINETY_EIGHT_CENT_BITS < NINETY_NINE_CENT_BITS
            < ONE_BITS,
{
}

} // verus!
