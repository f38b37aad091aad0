//! Rates: decimal fractions such as a margin requirement or a fee.

use crate::decimal::{magnitude_of, pow10};
use vstd::prelude::*;

verus! {

/// Largest number of decimal places of a rate.
pub const MAX_SCALE: u8 = 28;

/// Largest magnitude of a rate's mantissa: 96 bits.
pub const MAX_MANTISSA: i128 = 79_228_162_514_264_337_593_543_950_335;

proof fn lemma_pow10_sum(a: nat, b: nat)
    ensures
        pow10(a + b) == pow10(a) * pow10(b),
        pow10(a) > 0,
    decreases a,
{
    if a > 0 {
        lemma_pow10_sum((a - 1) as nat, b);
        assert(pow10(a + b) == 10 * pow10((a - 1 + b) as nat));
        assert(10 * (pow10((a - 1) as nat) * pow10(b)) == (10 * pow10((a - 1) as nat)) * pow10(b))
            by (nonlinear_arith);
    } else {
        assert(pow10(0) * pow10(b) == pow10(b)) by (nonlinear_arith)
            requires
                pow10(0) == 1,
        ;
    }
}

/// Of two fractions of the same value, the one with the larger scale has a
/// mantissa that ends in zero, unless the scales are equal.
proof fn lemma_lowest_terms(m: int, s: nat, n: int, t: nat)
    requires
        s <= t,
        m * pow10(t) == n * pow10(s),
        t == 0 || magnitude_of(n) % 10 != 0,
    ensures
        s == t,
        m == n,
{
    let d = (t - s) as nat;
    lemma_pow10_sum(s, d);
    lemma_pow10_sum(d, 0);
    let p = pow10(s) as int;
    let q = pow10(d) as int;
    assert((m * q) * p == n * p) by (nonlinear_arith)
        requires
            m * (p * q) == n * p,
    ;
    assert(m * q == n) by (nonlinear_arith)
        requires
            (m * q) * p == n * p,
            p > 0,
    ;
    if d > 0 {
        let r = pow10((d - 1) as nat) as int;
        assert(q == 10 * r);
        assert(n == 10 * (m * r)) by (nonlinear_arith)
            requires
                m * q == n,
                q == 10 * r,
        ;
        assert(magnitude_of(n) % 10 == 0);
    } else {
        assert(m * q == m) by (nonlinear_arith)
            requires
                q == 1,
        ;
    }
}

/// A decimal fraction `mantissa / 10^scale`, kept in lowest terms: the
/// mantissa does not end in zero unless the scale is zero. Two rates are
/// therefore the same number exactly when they are the same value.
#[derive(Clone, Copy, Debug, PartialEq, Eq, Structural)]
pub struct Rate {
    mantissa: i128,
    scale: u8,
}

impl Rate {
    /// The mantissa: the rate times `10^scale`.
    pub closed spec fn spec_mantissa(&self) -> i128 {
        self.mantissa
    }

    /// The number of decimal places.
    pub closed spec fn spec_scale(&self) -> u8 {
        self.scale
    }

    /// A rate is in range and in lowest terms.
    #[verifier::type_invariant]
    pub open spec fn wf(self) -> bool {
        &&& self.scale() <= MAX_SCALE
        &&& -MAX_MANTISSA <= self.mantissa() <= MAX_MANTISSA
        &&& self.scale() == 0 || magnitude_of(self.mantissa() as int) % 10 != 0
    }

    /// Two rates that stand for the same number are the same rate: lowest
    /// terms are unique.
    pub proof fn lemma_value_unique(self, other: Rate)
        requires
            self.wf(),
            other.wf(),
            self.mantissa() * pow10(other.scale() as nat) == other.mantissa() * pow10(
                self.scale() as nat,
            ),
        ensures
            self == other,
    {
        if self.scale() <= other.scale() {
            lemma_lowest_terms(
                self.mantissa() as int,
                self.scale() as nat,
                other.mantissa() as int,
                other.scale() as nat,
            );
        } else {
            lemma_lowest_terms(
                other.mantissa() as int,
                other.scale() as nat,
                self.mantissa() as int,
                self.scale() as nat,
            );
        }
    }

    /// The rate `mantissa / 10^scale`, brought to lowest terms. There is
    /// none where the scale is above 28 or the mantissa needs more than 96
    /// bits.
    pub fn new(mantissa: i128, scale: u32) -> (r: Option<Rate>)
        ensures
            match r {
                Some(x) => {
                    &&& x.wf()
                    &&& x.scale() <= scale
                    &&& x.mantissa() * pow10((scale - x.scale()) as nat) == mantissa
                },
                None => scale > MAX_SCALE || mantissa < -MAX_MANTISSA || mantissa > MAX_MANTISSA,
            },
    {
        if scale > 28 || mantissa > MAX_MANTISSA || mantissa < -MAX_MANTISSA {
            return None;
        }
        let negative = mantissa < 0;
        let mut magnitude: u128 = if negative {
            (-mantissa) as u128
        } else {
            mantissa as u128
        };
        let mut places: u8 = scale as u8;
        assert(magnitude * pow10(0) == magnitude) by (nonlinear_arith)
            requires
                pow10(0) == 1,
        ;
        while places > 0 && magnitude % 10 == 0
            invariant
                places <= scale <= 28,
                magnitude <= MAX_MANTISSA,
                magnitude * pow10((scale - places) as nat) == magnitude_of(mantissa as int),
            decreases places,
        {
            proof {
                let k = (scale - places) as nat;
                assert(pow10(k + 1) == 10 * pow10(k));
                assert((magnitude / 10) * pow10(k + 1) == magnitude * pow10(k))
                    by (nonlinear_arith)
                    requires
                        pow10(k + 1) == 10 * pow10(k),
                        magnitude == 10 * (magnitude / 10),
                ;
            }
            magnitude = magnitude / 10;
            places = places - 1;
        }
        let reduced: i128 = if negative {
            -(magnitude as i128)
        } else {
            magnitude as i128
        };
        proof {
            let p = pow10((scale - places) as nat);
            assert((-(magnitude as int)) * p == -(magnitude * p)) by (nonlinear_arith);
        }
        Some(Rate { mantissa: reduced, scale: places })
    }

    /// The mantissa: the rate times `10^scale`.
    #[verifier::when_used_as_spec(spec_mantissa)]
    pub fn mantissa(&self) -> (r: i128)
        ensures
            r == self.mantissa(),
            -MAX_MANTISSA <= r <= MAX_MANTISSA,
    {
        proof {
            use_type_invariant(self);
        }
        self.mantissa
    }

    /// The number of decimal places.
    #[verifier::when_used_as_spec(spec_scale)]
    pub fn scale(&self) -> (r: u8)
        ensures
            r == self.scale(),
            r <= MAX_SCALE,
    {
        proof {
            use_type_invariant(self);
        }
        self.scale
    }

    /// Whether the rate is below zero.
    pub fn is_negative(&self) -> (r: bool)
        ensures
            r == (self.mantissa() < 0),
    {
        self.mantissa < 0
    }
}

} // verus!
