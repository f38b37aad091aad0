//! The futures contract: a field set that has passed every rule, and cannot
//! change afterwards.

use crate::error::ValidationError;
use crate::fields::{ContractFields, FieldsView};
use crate::identity::{hash, hash_words, identity_words, same_value};
use vstd::prelude::*;

verus! {

/// A futures contract. It is built once, from a field set that breaks no
/// rule, and offers no way to change a field.
#[derive(Debug)]
pub struct FuturesContract {
    fields: ContractFields,
}

impl View for FuturesContract {
    type V = FieldsView;

    closed spec fn view(&self) -> FieldsView {
        self.fields@
    }
}

impl Clone for FuturesContract {
    fn clone(&self) -> (r: Self)
        ensures
            r@ == self@,
    {
        proof {
            use_type_invariant(self);
        }
        FuturesContract { fields: self.fields.clone() }
    }
}

impl PartialEq for FuturesContract {
    /// Contracts are equal when every field is, prices, quantities and rates
    /// compared by value.
    fn eq(&self, other: &FuturesContract) -> (r: bool) {
        let a = &self.fields;
        let b = &other.fields;
        a.id == b.id && a.raw_symbol == b.raw_symbol && a.asset_class == b.asset_class
            && a.underlying == b.underlying && a.activation_ns == b.activation_ns
            && a.expiration_ns == b.expiration_ns && a.currency == b.currency
            && a.price_precision == b.price_precision && a.price_increment == b.price_increment
            && a.margin_init == b.margin_init && a.margin_maint == b.margin_maint && a.maker_fee
            == b.maker_fee && a.taker_fee == b.taker_fee && a.multiplier == b.multiplier
            && a.lot_size == b.lot_size && a.max_quantity == b.max_quantity && a.min_quantity
            == b.min_quantity && a.max_price == b.max_price && a.min_price == b.min_price
    }
}

impl Eq for FuturesContract {

}

impl vstd::std_specs::cmp::PartialEqSpecImpl for FuturesContract {
    open spec fn obeys_eq_spec() -> bool {
        true
    }

    open spec fn eq_spec(&self, other: &FuturesContract) -> bool {
        same_value(self@, other@)
    }
}

impl FuturesContract {
    /// A contract holds a valid field set.
    #[verifier::type_invariant]
    pub open spec fn wf(self) -> bool {
        self@.valid()
    }

    /// Builds a contract from its fields. The rules are checked in this
    /// order, and the first one that the fields break is reported: the
    /// contract expires after it is activated; the price increment has as
    /// many decimal places as the price precision says; price increment,
    /// multiplier and lot size are above zero; no lower bound is above its
    /// upper bound; raw symbol and underlying are not empty; the margin
    /// rates are not below zero.
    pub fn new(fields: ContractFields) -> (r: Result<FuturesContract, ValidationError>)
        ensures
            match r {
                Ok(c) => c@ == fields@ && fields@.valid(),
                Err(e) => fields@.first_violation() == Some(e),
            },
    {
        if fields.activation_ns >= fields.expiration_ns {
            return Err(ValidationError::ExpirationNotAfterActivation);
        }
        if fields.price_increment.precision() != fields.price_precision {
            return Err(ValidationError::PrecisionMismatch);
        }
        if !fields.price_increment.is_positive() {
            return Err(ValidationError::PriceIncrementNotPositive);
        }
        if !fields.multiplier.is_positive() {
            return Err(ValidationError::MultiplierNotPositive);
        }
        match fields.lot_size {
            Some(q) => {
                if !q.is_positive() {
                    return Err(ValidationError::LotSizeNotPositive);
                }
            },
            None => {},
        }
        match (fields.min_quantity, fields.max_quantity) {
            (Some(low), Some(high)) => {
                if low.raw() > high.raw() {
                    return Err(ValidationError::QuantityBoundsInverted);
                }
            },
            _ => {},
        }
        match (fields.min_price, fields.max_price) {
            (Some(low), Some(high)) => {
                if low.raw() > high.raw() {
                    return Err(ValidationError::PriceBoundsInverted);
                }
            },
            _ => {},
        }
        if fields.raw_symbol.as_str().is_empty() {
            return Err(ValidationError::EmptyRawSymbol);
        }
        if fields.underlying.as_str().is_empty() {
            return Err(ValidationError::EmptyUnderlying);
        }
        if fields.margin_init.is_negative() {
            return Err(ValidationError::NegativeMarginInit);
        }
        if fields.margin_maint.is_negative() {
            return Err(ValidationError::NegativeMarginMaint);
        }
        fields.recall_parts();
        Ok(FuturesContract { fields })
    }

    /// The hash of the contract, computed from its identity: contracts that
    /// are equal have the same hash.
    pub fn identity_hash(&self) -> (r: u64)
        ensures
            r == hash_words(identity_words(self@)),
    {
        let words = self.fields.identity();
        hash(&words)
    }

    /// The fields of the contract.
    pub fn fields(&self) -> (r: &ContractFields)
        ensures
            r@ == self@,
            self@.valid(),
    {
        proof {
            use_type_invariant(self);
        }
        &self.fields
    }

    /// Gives up the contract for its fields.
    pub fn into_fields(self) -> (r: ContractFields)
        ensures
            r@ == self@,
            self@.valid(),
    {
        proof {
            use_type_invariant(&self);
        }
        self.fields
    }
}

} // verus!
