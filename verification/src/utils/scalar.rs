use vstd::arithmetic::mul::*;
use vstd::arithmetic::power2::*;
use vstd::prelude::*;

verus! {

/// The sign bit of a binary64 pattern.
pub const SIGN_BIT: u64 = 0x8000_0000_0000_0000;

/// Two to the fifty-second: the width of the fraction field, and the hidden
/// leading bit of a normal significand.
pub const HIDDEN_BIT: u64 = 0x0010_0000_0000_0000;

/// The magnitude of an infinity; every larger magnitude is a NaN.
pub const INFINITY_BITS: u64 = 0x7ff0_0000_0000_0000;

/// The magnitude of one.
pub const ONE_BITS: u64 = 0x3ff0_0000_0000_0000;

/// An IEEE-754 binary64 value, held as its bit pattern.
///
/// Every pattern is a value, so the type has no invariant. Two scalars are
/// `==` in a contract when their patterns are equal, which is finer than
/// numeric equality: it tells the two zeros apart and one NaN from another.
#[derive(Clone, Copy, Debug)]
pub struct Scalar {
    pub bits: u64,
}

/// What a magnitude (a pattern without its sign bit) is worth, in units of
/// two to the minus 1074, the smallest positive binary64 value.
///
/// A subnormal is worth its fraction; a normal value with biased exponent `e`
/// is worth its significand times two to the `e - 1`. The same formula places
/// infinity above every finite value.
pub open spec fn weight_of(magnitude: int) -> int {
    let exponent = magnitude / (HIDDEN_BIT as int);
    let fraction = magnitude % (HIDDEN_BIT as int);
    if exponent == 0 {
        fraction
    } else {
        (HIDDEN_BIT + fraction) * pow2((exponent - 1) as nat)
    }
}

/// A larger magnitude is worth more.
pub proof fn lemma_weight_increases(a: int, b: int)
    requires
        0 <= a < b,
    ensures
        0 <= weight_of(a) < weight_of(b),
{
    let h = HIDDEN_BIT as int;
    let (ea, fa) = (a / h, a % h);
    let (eb, fb) = (b / h, b % h);
    assert(ea <= eb);
    if eb == 0 {
    } else {
        let pb = pow2((eb - 1) as nat) as int;
        lemma_pow2_pos((eb - 1) as nat);
        lemma_mul_inequality(1, pb, h + fb);
        assert(h + fb <= weight_of(b)) by {
            lemma_mul_is_commutative(pb, h + fb);
        }
        if ea == 0 {
        } else {
            let pa = pow2((ea - 1) as nat) as int;
            lemma_pow2_pos((ea - 1) as nat);
            lemma_mul_strictly_positive(h + fa, pa);
            if ea == eb {
                lemma_mul_strict_inequality(h + fa, h + fb, pa);
            } else {
                // weight(a) < 2h * pa == h * pow2(ea) <= h * pb <= weight(b)
                lemma_mul_strict_inequality(h + fa, 2 * h, pa);
                lemma_pow2_unfold(ea as nat);
                if ea < eb - 1 {
                    lemma_pow2_strictly_increases(ea as nat, (eb - 1) as nat);
                }
                assert(2 * h * pa == h * (2 * pa)) by (nonlinear_arith);
                lemma_mul_inequality(2 * pa, pb, h);
                lemma_mul_is_commutative(h, 2 * pa);
                lemma_mul_is_commutative(h, pb);
                lemma_mul_inequality(h, h + fb, pb);
            }
        }
    }
}

impl Scalar {
    /// Whether the sign bit is set (true of minus zero and of half the NaNs).
    pub open spec fn negative(self) -> bool {
        self.bits >= SIGN_BIT
    }

    /// The pattern without its sign bit.
    pub open spec fn magnitude(self) -> int {
        if self.bits >= SIGN_BIT {
            self.bits - SIGN_BIT
        } else {
            self.bits as int
        }
    }

    /// Whether the pattern is a NaN.
    pub open spec fn spec_is_nan(self) -> bool {
        self.magnitude() > INFINITY_BITS
    }

    /// The absolute value, in units of two to the minus 1074.
    pub open spec fn weight(self) -> int {
        weight_of(self.magnitude())
    }

    /// The value, in units of two to the minus 1074: the number that a
    /// pattern other than a NaN stands for is `numerator() / 2^1074`, with the
    /// infinities placed beyond every finite value.
    pub open spec fn numerator(self) -> int {
        if self.negative() {
            -self.weight()
        } else {
            self.weight()
        }
    }

    /// `self < other` as IEEE-754 orders them: false when either is a NaN.
    pub open spec fn spec_lt(self, other: Scalar) -> bool {
        !self.spec_is_nan() && !other.spec_is_nan() && self.numerator() < other.numerator()
    }

    /// `self > other` as IEEE-754 orders them: false when either is a NaN.
    pub open spec fn spec_gt(self, other: Scalar) -> bool {
        other.spec_lt(self)
    }

    /// The pattern with its sign bit flipped.
    pub open spec fn spec_neg(self) -> Scalar {
        if self.bits >= SIGN_BIT {
            Scalar { bits: (self.bits - SIGN_BIT) as u64 }
        } else {
            Scalar { bits: (self.bits + SIGN_BIT) as u64 }
        }
    }

    /// The pattern with its sign bit cleared.
    pub open spec fn spec_abs(self) -> Scalar {
        Scalar { bits: self.magnitude() as u64 }
    }

    /// Whether the scalar is what [`Scalar::unit_fraction`] makes of some
    /// word: a multiple of two to the minus 53 in `[0, 1)`.
    pub open spec fn is_unit_draw(self) -> bool {
        &&& self.bits < ONE_BITS
        &&& exists|count: int|
            0 <= count < 0x20_0000_0000_0000 && self.numerator() == #[trigger] (count * pow2(1021))
    }

    /// The scalar with the given pattern.
    pub fn from_bits(bits: u64) -> (r: Scalar)
        ensures
            r.bits == bits,
    {
        Scalar { bits }
    }

    /// The pattern of the scalar.
    pub fn to_bits(self) -> (r: u64)
        ensures
            r == self.bits,
    {
        self.bits
    }

    /// Plus zero.
    pub fn zero() -> (r: Scalar)
        ensures
            r.bits == 0,
            r.numerator() == 0,
    {
        Scalar { bits: 0 }
    }

    /// One.
    pub fn one() -> (r: Scalar)
        ensures
            r.bits == ONE_BITS,
            r.numerator() == pow2(1074),
    {
        proof {
            lemma_one_weight();
        }
        Scalar { bits: ONE_BITS }
    }

    /// Plus infinity.
    pub fn infinity() -> (r: Scalar)
        ensures
            r.bits == INFINITY_BITS,
            !r.spec_is_nan(),
            forall|x: Scalar| !x.spec_is_nan() ==> !r.spec_lt(x),
    {
        let r = Scalar { bits: INFINITY_BITS };
        proof {
            assert forall|x: Scalar| !x.spec_is_nan() implies !r.spec_lt(x) by {
                if x.magnitude() < INFINITY_BITS {
                    lemma_weight_increases(x.magnitude(), INFINITY_BITS as int);
                }
                lemma_weight_increases(0, INFINITY_BITS as int);
            }
        }
        r
    }

    /// Whether the scalar is a NaN.
    #[verifier::when_used_as_spec(spec_is_nan)]
    pub fn is_nan(self) -> (r: bool)
        ensures
            r == self.spec_is_nan(),
    {
        let magnitude = if self.bits >= SIGN_BIT {
            self.bits - SIGN_BIT
        } else {
            self.bits
        };
        magnitude > INFINITY_BITS
    }

    /// `self < other`, false when either is a NaN, the two zeros equal.
    #[verifier::when_used_as_spec(spec_lt)]
    pub fn lt(self, other: Scalar) -> (r: bool)
        ensures
            r == self.spec_lt(other),
    {
        if self.is_nan() || other.is_nan() {
            return false;
        }
        let a_negative = self.bits >= SIGN_BIT;
        let b_negative = other.bits >= SIGN_BIT;
        let a: u64 = if a_negative { self.bits - SIGN_BIT } else { self.bits };
        let b: u64 = if b_negative { other.bits - SIGN_BIT } else { other.bits };
        proof {
            if a < b {
                lemma_weight_increases(a as int, b as int);
            }
            if b < a {
                lemma_weight_increases(b as int, a as int);
            }
            if 0 < a {
                lemma_weight_increases(0, a as int);
            }
            if 0 < b {
                lemma_weight_increases(0, b as int);
            }
        }
        if a_negative {
            if b_negative {
                b < a
            } else {
                a != 0 || b != 0
            }
        } else {
            if b_negative {
                false
            } else {
                a < b
            }
        }
    }

    /// `self > other`, false when either is a NaN, the two zeros equal.
    #[verifier::when_used_as_spec(spec_gt)]
    pub fn gt(self, other: Scalar) -> (r: bool)
        ensures
            r == self.spec_gt(other),
    {
        other.lt(self)
    }

    /// The scalar with its sign flipped; a NaN stays a NaN. This is what
    /// the unary minus computes.
    pub fn negated(self) -> (r: Scalar)
        ensures
            r == self.spec_neg(),
            r.numerator() == -self.numerator(),
            r.spec_is_nan() == self.spec_is_nan(),
    {
        if self.bits >= SIGN_BIT {
            Scalar { bits: self.bits - SIGN_BIT }
        } else {
            Scalar { bits: self.bits + SIGN_BIT }
        }
    }

    /// The absolute value: the pattern with its sign bit cleared.
    #[verifier::when_used_as_spec(spec_abs)]
    pub fn abs(self) -> (r: Scalar)
        ensures
            r == self.spec_abs(),
    {
        if self.bits >= SIGN_BIT {
            Scalar { bits: self.bits - SIGN_BIT }
        } else {
            self
        }
    }

    /// The value `(word / 2^11) / 2^53`: the upper 53 bits of `word`, read as
    /// a multiple of two to the minus 53. It is exact, and the way a uniform
    /// 64-bit word becomes a uniform draw from `[0, 1)`.
    pub fn unit_fraction(word: u64) -> (r: Scalar)
        ensures
            r.is_unit_draw(),
            r.numerator() == (word / 2048) * pow2(1021),
    {
        let count: u64 = word / 2048;
        if count == 0 {
            assert(0 * pow2(1021) == 0);
            return Scalar { bits: 0 };
        }
        let mut significand: u64 = count;
        let mut exponent: u64 = 1022;
        proof {
            lemma2_to64();
            assert(count * pow2(0) == count);
        }
        while significand < HIDDEN_BIT
            invariant
                970 <= exponent <= 1022,
                1 <= count,
                1 <= significand < 2 * HIDDEN_BIT,
                significand == count * pow2((1022 - exponent) as nat),
            decreases exponent,
        {
            proof {
                let k = (1022 - exponent) as nat;
                if exponent == 970 {
                    lemma2_to64_rest();
                    lemma_mul_inequality(1, count as int, pow2(52) as int);
                }
                lemma_pow2_unfold(k + 1);
                assert(2 * (count * pow2(k)) == count * (2 * pow2(k))) by (nonlinear_arith);
            }
            significand = significand * 2;
            exponent = exponent - 1;
        }
        let bits: u64 = exponent * HIDDEN_BIT + (significand - HIDDEN_BIT);
        let r = Scalar { bits };
        proof {
            let k = (1022 - exponent) as nat;
            let e = (exponent - 1) as nat;
            assert(bits as int / (HIDDEN_BIT as int) == exponent);
            assert(bits as int % (HIDDEN_BIT as int) == significand - HIDDEN_BIT);
            assert(r.weight() == significand * pow2(e));
            lemma_pow2_adds(k, e);
            assert(count * pow2(k) * pow2(e) == count * (pow2(k) * pow2(e))) by (nonlinear_arith);
            assert(count < 0x20_0000_0000_0000);
        }
        r
    }

    /// A uniform draw from `[0, 1)`: one word of the thread-local generator,
    /// turned into a multiple of two to the minus 53 by [`Scalar::unit_fraction`].
    pub fn random() -> (r: Scalar)
        ensures
            r.is_unit_draw(),
            !r.spec_is_nan(),
            !r.spec_lt(Scalar { bits: 0 }),
            r.spec_lt(Scalar { bits: ONE_BITS }),
    {
        let r = Scalar::unit_fraction(random_word());
        proof {
            lemma_unit_draw_bounds(r);
        }
        r
    }
}

/// Calls `rand::random::<u64>()`, which hands out the next word of the
/// thread-local generator. The word depends on chance, so nothing is claimed
/// of it. The generator is seeded from the operating system on a thread's
/// first draw, and that seeding panics where the system yields no entropy.
#[verifier::external_body]
fn random_word() -> u64 {
    rand::random::<u64>()
}

impl vstd::std_specs::ops::NegSpecImpl for Scalar {
    open spec fn obeys_neg_spec() -> bool {
        true
    }

    open spec fn neg_req(self) -> bool {
        true
    }

    open spec fn neg_spec(self) -> Scalar {
        self.spec_neg()
    }
}

impl core::ops::Neg for Scalar {
    type Output = Scalar;

    /// The scalar with its sign flipped; a NaN stays a NaN.
    fn neg(self) -> (r: Scalar) {
        self.negated()
    }
}

/// A draw from the unit interval is a number, is not below zero and is below
/// one.
pub proof fn lemma_unit_draw_bounds(x: Scalar)
    requires
        x.is_unit_draw(),
    ensures
        !x.spec_is_nan(),
        0 <= x.numerator() < pow2(1074),
        !x.spec_lt(Scalar { bits: 0 }),
        x.spec_lt(Scalar { bits: ONE_BITS }),
{
    lemma_one_weight();
    lemma_weight_increases(x.magnitude(), ONE_BITS as int);
    if 0 < x.magnitude() {
        lemma_weight_increases(0, x.magnitude());
    }
}

/// One is worth two to the 1074.
pub proof fn lemma_one_weight()
    ensures
        weight_of(ONE_BITS as int) == pow2(1074),
{
    lemma2_to64_rest();
    lemma_pow2_adds(52, 1022);
}

} // verus!
