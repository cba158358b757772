//! Lengths of time as IEEE 754 double-precision numbers, held by their bit pattern.
use vstd::arithmetic::power2::pow2;
use vstd::prelude::*;

verus! {

/// The sign bit.
pub const SIGN_BIT: u64 = 0x8000_0000_0000_0000;

/// The bit pattern of positive infinity: all exponent bits, no fraction.
pub const INFINITY_BITS: u64 = 0x7ff0_0000_0000_0000;

/// One more than the largest fraction: the weight of the implicit leading bit.
pub const FRACTION_LIMIT: u64 = 0x0010_0000_0000_0000;

/// A number of seconds, as the bit pattern of a binary64 number.
///
/// Exact for every value that the format has. The callers that do floating-point arithmetic
/// convert with `to_bits` and `from_bits`.
#[derive(Clone, Copy, Debug)]
pub struct Seconds {
    pub bits: u64,
}

/// The magnitude that a pattern without its sign bit stands for, in units of the smallest
/// positive number of the format. Infinity counts as a number above every finite one.
pub open spec fn magnitude(pattern: nat) -> nat {
    let exponent = pattern / FRACTION_LIMIT as nat;
    let fraction = pattern % FRACTION_LIMIT as nat;
    if exponent == 0 {
        fraction
    } else {
        (fraction + FRACTION_LIMIT) as nat * pow2((exponent - 1) as nat)
    }
}

impl Seconds {
    /// The pattern without its sign bit.
    pub open spec fn unsigned_pattern(self) -> nat {
        if self.bits >= SIGN_BIT {
            (self.bits - SIGN_BIT) as nat
        } else {
            self.bits as nat
        }
    }

    /// Neither infinite nor not-a-number.
    pub open spec fn finite(self) -> bool {
        self.unsigned_pattern() < INFINITY_BITS
    }

    /// Not a number.
    pub open spec fn nan(self) -> bool {
        self.unsigned_pattern() > INFINITY_BITS
    }

    /// The value in units of the smallest positive number of the format.
    pub open spec fn units(self) -> int {
        if self.bits >= SIGN_BIT {
            -(magnitude(self.unsigned_pattern()) as int)
        } else {
            magnitude(self.unsigned_pattern()) as int
        }
    }

    /// The IEEE 754 order: by value, and false where either side is not a number.
    pub open spec fn below(self, other: Seconds) -> bool {
        !self.nan() && !other.nan() && self.units() < other.units()
    }

    /// Finite and not below zero; negative zero counts as zero.
    pub open spec fn is_length(self) -> bool {
        self.finite() && self.units() >= 0
    }

    /// The pattern without its sign bit.
    fn pattern(self) -> (pattern: u64)
        ensures
            pattern == self.unsigned_pattern(),
            pattern < SIGN_BIT,
    {
        if self.bits >= SIGN_BIT {
            self.bits - SIGN_BIT
        } else {
            self.bits
        }
    }

    /// The pattern as a signed number, which orders as the values do.
    fn signed_pattern(self) -> (key: i64)
        ensures
            self.bits >= SIGN_BIT ==> key == -(self.unsigned_pattern() as int),
            self.bits < SIGN_BIT ==> key == self.unsigned_pattern(),
    {
        if self.bits >= SIGN_BIT {
            -(self.pattern() as i64)
        } else {
            self.pattern() as i64
        }
    }

    /// Whether the number is neither infinite nor not-a-number.
    pub fn is_finite(self) -> (finite: bool)
        ensures
            finite == self.finite(),
    {
        self.pattern() < INFINITY_BITS
    }

    /// Whether this number is less than the other in the IEEE 754 order.
    pub fn less_than(self, other: Seconds) -> (less: bool)
        ensures
            less == self.below(other),
    {
        proof {
            lemma_units_order(self, other);
        }
        let comparable: bool = self.pattern() <= INFINITY_BITS && other.pattern()
            <= INFINITY_BITS;
        comparable && self.signed_pattern() < other.signed_pattern()
    }

    /// Whether the number can be a capture interval: finite and not negative.
    pub fn is_valid_length(self) -> (valid: bool)
        ensures
            valid == self.is_length(),
    {
        let zero: Seconds = Seconds { bits: 0 };
        proof {
            lemma_zero();
        }
        self.is_finite() && !self.less_than(zero)
    }
}

/// The zero pattern has the value zero.
proof fn lemma_zero()
    ensures
        magnitude(0) == 0,
{
    assert(0nat / (FRACTION_LIMIT as nat) == 0 && 0nat % (FRACTION_LIMIT as nat) == 0)
        by (nonlinear_arith);
}

/// A larger pattern stands for a larger magnitude.
proof fn lemma_magnitude_order(a: nat, b: nat)
    requires
        a < b,
    ensures
        magnitude(a) < magnitude(b),
{
    let limit: int = FRACTION_LIMIT as int;
    let ea: int = a as int / limit;
    let fa: int = a as int % limit;
    let eb: int = b as int / limit;
    let fb: int = b as int % limit;
    vstd::arithmetic::div_mod::lemma_fundamental_div_mod(a as int, limit);
    vstd::arithmetic::div_mod::lemma_fundamental_div_mod(b as int, limit);
    vstd::arithmetic::div_mod::lemma_div_is_ordered(a as int, b as int, limit);
    if ea == eb {
        assert(fa < fb);
        if ea > 0 {
            let weight = pow2((ea - 1) as nat);
            vstd::arithmetic::power2::lemma_pow2_pos((ea - 1) as nat);
            assert((fa + limit) * weight < (fb + limit) * weight) by (nonlinear_arith)
                requires
                    fa < fb,
                    weight > 0,
            ;
        }
    } else {
        let high = pow2((eb - 1) as nat);
        vstd::arithmetic::power2::lemma_pow2_pos((eb - 1) as nat);
        assert(limit * high <= (fb + limit) * high) by (nonlinear_arith)
            requires
                fb >= 0,
                high > 0,
        ;
        if ea == 0 {
            assert(limit <= limit * high) by (nonlinear_arith)
                requires
                    high >= 1,
                    limit > 0,
            ;
        } else {
            let low = pow2((ea - 1) as nat);
            vstd::arithmetic::power2::lemma_pow2_pos((ea - 1) as nat);
            vstd::arithmetic::power2::lemma_pow2_unfold(ea as nat);
            if ea < eb - 1 {
                vstd::arithmetic::power2::lemma_pow2_strictly_increases(ea as nat, (eb - 1) as nat);
            }
            assert(2 * low <= high);
            assert((fa + limit) * low < limit * high) by (nonlinear_arith)
                requires
                    fa < limit,
                    low > 0,
                    limit > 0,
                    2 * low <= high,
            ;
        }
    }
}

/// Values order as their patterns do, read as sign and magnitude.
proof fn lemma_units_order(a: Seconds, b: Seconds)
    ensures
        a.units() < b.units() <==> (if a.bits >= SIGN_BIT {
            -(a.unsigned_pattern() as int)
        } else {
            a.unsigned_pattern() as int
        }) < (if b.bits >= SIGN_BIT {
            -(b.unsigned_pattern() as int)
        } else {
            b.unsigned_pattern() as int
        }),
{
    let pa = a.unsigned_pattern();
    let pb = b.unsigned_pattern();
    lemma_zero();
    if pa > 0 {
        lemma_magnitude_order(0, pa);
    }
    if pb > 0 {
        lemma_magnitude_order(0, pb);
    }
    if pa < pb {
        lemma_magnitude_order(pa, pb);
    } else if pb < pa {
        lemma_magnitude_order(pb, pa);
    }
}

/// Law: numbers order by their bit patterns. Neither side may be a pattern above infinity;
/// patterns with the sign bit count downwards from zero, so that both zeros are equal.
pub proof fn law_numbers_order_by_their_patterns(a: Seconds, b: Seconds)
    ensures
        a.below(b) <==> {
            let infinity: int = 0x7ff0_0000_0000_0000;
            let sign: int = 0x8000_0000_0000_0000;
            let key_a: int = if a.bits < sign {
                a.bits as int
            } else {
                sign - a.bits
            };
            let key_b: int = if b.bits < sign {
                b.bits as int
            } else {
                sign - b.bits
            };
            &&& -infinity <= key_a <= infinity
            &&& -infinity <= key_b <= infinity
            &&& key_a < key_b
        },
{
    lemma_units_order(a, b);
}

/// Law: a length is zero, negative zero, or any pattern without the sign bit below infinity.
pub proof fn law_lengths_are_the_patterns_below_infinity(a: Seconds)
    ensures
        a.is_length() <==> a.bits < 0x7ff0_0000_0000_0000 || a.bits == 0x8000_0000_0000_0000,
        a.finite() <==> a.bits < 0x7ff0_0000_0000_0000 || 0x8000_0000_0000_0000 <= a.bits
            < 0xfff0_0000_0000_0000,
        a.units() == 0 <==> a.bits == 0 || a.bits == 0x8000_0000_0000_0000,
{
    let zero = Seconds { bits: 0 };
    lemma_zero();
    lemma_units_order(a, zero);
    lemma_units_order(zero, a);
}

/// Law: small patterns are worth themselves, and one step of the exponent doubles the worth.
pub proof fn law_exponent_doubles(pattern: nat)
    ensures
        pattern < 0x0020_0000_0000_0000 ==> magnitude(pattern) == pattern,
        pattern >= 0x0010_0000_0000_0000 ==> magnitude(pattern + 0x0010_0000_0000_0000) == 2
            * magnitude(pattern),
{
    let limit: int = FRACTION_LIMIT as int;
    let exponent: int = pattern as int / limit;
    let fraction: int = pattern as int % limit;
    vstd::arithmetic::div_mod::lemma_fundamental_div_mod(pattern as int, limit);
    vstd::arithmetic::power2::lemma2_to64();
    let one = pow2(0);
    assert((fraction + limit) * one == fraction + limit) by (nonlinear_arith)
        requires
            one == 1,
    ;
    if pattern >= 0x0010_0000_0000_0000 {
        assert(exponent >= 1);
        vstd::arithmetic::div_mod::lemma_fundamental_div_mod_converse(
            pattern as int + limit,
            limit,
            exponent + 1,
            fraction,
        );
        vstd::arithmetic::power2::lemma_pow2_unfold(exponent as nat);
        let weight = pow2((exponent - 1) as nat);
        assert((fraction + limit) * (2 * weight) == 2 * ((fraction + limit) * weight))
            by (nonlinear_arith);
    }
}

} // verus!
