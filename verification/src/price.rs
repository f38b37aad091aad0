//! Prices and quantities: fixed-point decimal values that carry the number
//! of decimal places they are quoted with.

use crate::decimal::{fixed_text, lemma_text_injective, magnitude_of, pow10, pow10_u64};
use vstd::prelude::*;

verus! {

fn magnitude(raw: i64) -> (m: u64)
    ensures
        m == magnitude_of(raw as int),
{
    if raw >= 0 {
        raw as u64
    } else if raw == i64::MIN {
        9_223_372_036_854_775_808
    } else {
        (-raw) as u64
    }
}

/// A price: a signed number of billionths, quoted with up to nine decimal
/// places.
#[derive(Clone, Copy, Debug)]
pub struct Price {
    raw: i64,
    precision: u8,
}

impl Price {
    /// The value in billionths.
    pub closed spec fn spec_raw(&self) -> i64 {
        self.raw
    }

    /// The number of decimal places the price is quoted with.
    pub closed spec fn spec_precision(&self) -> u8 {
        self.precision
    }

    /// A price has at most nine places and no digit beyond them.
    #[verifier::type_invariant]
    pub open spec fn wf(self) -> bool {
        &&& self.precision() <= 9
        &&& magnitude_of(self.raw() as int) % pow10((9 - self.precision()) as nat) == 0
    }

    /// The decimal text of the price, with exactly `precision` places.
    pub open spec fn text(self) -> Seq<char> {
        fixed_text(self.raw() < 0, magnitude_of(self.raw() as int), self.precision() as nat)
    }

    /// Two prices with the same text are the same price.
    pub proof fn lemma_text_unique(self, other: Price)
        requires
            self.wf(),
            other.wf(),
            self.text() == other.text(),
        ensures
            self == other,
    {
        lemma_text_injective(
            self.raw() < 0,
            magnitude_of(self.raw() as int),
            self.precision() as nat,
            other.raw() < 0,
            magnitude_of(other.raw() as int),
            other.precision() as nat,
        );
    }

    /// The price of `raw` billionths quoted with `precision` places, if
    /// `raw` has no digit beyond them.
    pub fn from_raw(raw: i64, precision: u8) -> (r: Option<Price>)
        ensures
            match r {
                Some(p) => p.raw() == raw && p.precision() == precision && p.wf(),
                None => !(precision <= 9 && magnitude_of(raw as int) % pow10(
                    (9 - precision) as nat,
                ) == 0),
            },
    {
        if precision > 9 {
            return None;
        }
        if magnitude(raw) % pow10_u64(9 - precision) != 0 {
            return None;
        }
        Some(Price { raw, precision })
    }

    /// The value in billionths.
    #[verifier::when_used_as_spec(spec_raw)]
    pub fn raw(&self) -> (r: i64)
        ensures
            r == self.raw(),
    {
        self.raw
    }

    /// The number of decimal places the price is quoted with.
    #[verifier::when_used_as_spec(spec_precision)]
    pub fn precision(&self) -> (r: u8)
        ensures
            r == self.precision(),
            r <= 9,
    {
        proof {
            use_type_invariant(self);
        }
        self.precision
    }

    /// Whether the price is above zero.
    pub fn is_positive(&self) -> (r: bool)
        ensures
            r == (self.raw() > 0),
    {
        self.raw > 0
    }

    /// Writes the price as decimal text.
    pub fn to_string(&self) -> (r: String)
        ensures
            r@ == self.text(),
    {
        proof {
            use_type_invariant(self);
        }
        crate::decimal::render(self.raw < 0, magnitude(self.raw), self.precision)
    }

    /// Reads a price from its decimal text. The number of digits after the
    /// point becomes the precision.
    pub fn parse(s: &str) -> (r: Option<Price>)
        ensures
            match r {
                Some(p) => p.wf() && p.text() == s@,
                None => forall|q: Price| q.wf() ==> #[trigger] q.text() != s@,
            },
    {
        match crate::decimal::parse(s) {
            None => None,
            Some((negative, magnitude, precision)) => {
                let limit: u64 = if negative {
                    9_223_372_036_854_775_808
                } else {
                    9_223_372_036_854_775_807
                };
                if magnitude > limit {
                    proof {
                        assert forall|q: Price| q.wf() implies #[trigger] q.text() != s@ by {
                            if q.text() == s@ {
                                lemma_text_injective(
                                    negative,
                                    magnitude as nat,
                                    precision as nat,
                                    q.raw() < 0,
                                    magnitude_of(q.raw() as int),
                                    q.precision() as nat,
                                );
                            }
                        }
                    }
                    return None;
                }
                let raw: i64 = if !negative {
                    magnitude as i64
                } else if magnitude == 9_223_372_036_854_775_808 {
                    i64::MIN
                } else {
                    -(magnitude as i64)
                };
                Some(Price { raw, precision })
            },
        }
    }
}

impl PartialEq for Price {
    /// Prices are compared by value: the number of places a price is quoted
    /// with plays no part.
    fn eq(&self, other: &Price) -> (r: bool) {
        self.raw == other.raw
    }
}

impl Eq for Price {

}

impl vstd::std_specs::cmp::PartialEqSpecImpl for Price {
    open spec fn obeys_eq_spec() -> bool {
        true
    }

    open spec fn eq_spec(&self, other: &Price) -> bool {
        self.raw() == other.raw()
    }
}

/// A quantity: an unsigned number of billionths, quoted with up to nine
/// decimal places.
#[derive(Clone, Copy, Debug)]
pub struct Quantity {
    raw: u64,
    precision: u8,
}

impl Quantity {
    /// The value in billionths.
    pub closed spec fn spec_raw(&self) -> u64 {
        self.raw
    }

    /// The number of decimal places the quantity is quoted with.
    pub closed spec fn spec_precision(&self) -> u8 {
        self.precision
    }

    /// A quantity has at most nine places and no digit beyond them.
    #[verifier::type_invariant]
    pub open spec fn wf(self) -> bool {
        &&& self.precision() <= 9
        &&& (self.raw() as nat) % pow10((9 - self.precision()) as nat) == 0
    }

    /// The decimal text of the quantity, with exactly `precision` places.
    pub open spec fn text(self) -> Seq<char> {
        fixed_text(false, self.raw() as nat, self.precision() as nat)
    }

    /// Two quantities with the same text are the same quantity.
    pub proof fn lemma_text_unique(self, other: Quantity)
        requires
            self.wf(),
            other.wf(),
            self.text() == other.text(),
        ensures
            self == other,
    {
        lemma_text_injective(
            false,
            self.raw() as nat,
            self.precision() as nat,
            false,
            other.raw() as nat,
            other.precision() as nat,
        );
    }

    /// The quantity of `raw` billionths quoted with `precision` places, if
    /// `raw` has no digit beyond them.
    pub fn from_raw(raw: u64, precision: u8) -> (r: Option<Quantity>)
        ensures
            match r {
                Some(q) => q.raw() == raw && q.precision() == precision && q.wf(),
                None => !(precision <= 9 && (raw as nat) % pow10((9 - precision) as nat) == 0),
            },
    {
        if precision > 9 {
            return None;
        }
        if raw % pow10_u64(9 - precision) != 0 {
            return None;
        }
        Some(Quantity { raw, precision })
    }

    /// The value in billionths.
    #[verifier::when_used_as_spec(spec_raw)]
    pub fn raw(&self) -> (r: u64)
        ensures
            r == self.raw(),
    {
        self.raw
    }

    /// The number of decimal places the quantity is quoted with.
    #[verifier::when_used_as_spec(spec_precision)]
    pub fn precision(&self) -> (r: u8)
        ensures
            r == self.precision(),
            r <= 9,
    {
        proof {
            use_type_invariant(self);
        }
        self.precision
    }

    /// Whether the quantity is above zero.
    pub fn is_positive(&self) -> (r: bool)
        ensures
            r == (self.raw() > 0),
    {
        self.raw > 0
    }

    /// Writes the quantity as decimal text.
    pub fn to_string(&self) -> (r: String)
        ensures
            r@ == self.text(),
    {
        proof {
            use_type_invariant(self);
        }
        crate::decimal::render(false, self.raw, self.precision)
    }

    /// Reads a quantity from its decimal text. The number of digits after
    /// the point becomes the precision.
    pub fn parse(s: &str) -> (r: Option<Quantity>)
        ensures
            match r {
                Some(q) => q.wf() && q.text() == s@,
                None => forall|q: Quantity| q.wf() ==> #[trigger] q.text() != s@,
            },
    {
        match crate::decimal::parse(s) {
            None => None,
            Some((negative, magnitude, precision)) => {
                if negative {
                    proof {
                        assert forall|q: Quantity| q.wf() implies #[trigger] q.text() != s@ by {
                            if q.text() == s@ {
                                lemma_text_injective(
                                    negative,
                                    magnitude as nat,
                                    precision as nat,
                                    false,
                                    q.raw() as nat,
                                    q.precision() as nat,
                                );
                            }
                        }
                    }
                    return None;
                }
                Some(Quantity { raw: magnitude, precision })
            },
        }
    }
}

impl PartialEq for Quantity {
    /// Quantities are compared by value: the number of places a quantity is
    /// quoted with plays no part.
    fn eq(&self, other: &Quantity) -> (r: bool) {
        self.raw == other.raw
    }
}

impl Eq for Quantity {

}

impl vstd::std_specs::cmp::PartialEqSpecImpl for Quantity {
    open spec fn obeys_eq_spec() -> bool {
        true
    }

    open spec fn eq_spec(&self, other: &Quantity) -> bool {
        self.raw() == other.raw()
    }
}

} // verus!
