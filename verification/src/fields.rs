//! The field set of a futures contract and the rules it is held to.

use crate::error::ValidationError;
use crate::identifiers::{is_instrument_id, InstrumentId};
use crate::instrument::{is_currency_code, AssetClass, Currency};
use crate::price::{Price, Quantity};
use crate::rate::Rate;
use vstd::prelude::*;

verus! {

/// The fields of a futures contract, as handed to its constructor. Nothing
/// is required of how they relate to each other.
#[derive(Debug)]
pub struct ContractFields {
    /// Identifier of the instrument.
    pub id: InstrumentId,
    /// Symbol of the contract on its exchange.
    pub raw_symbol: String,
    /// Kind of asset the contract refers to.
    pub asset_class: AssetClass,
    /// Description of the asset the contract refers to.
    pub underlying: String,
    /// When the contract becomes tradable, in nanoseconds since the epoch.
    pub activation_ns: u64,
    /// When the contract expires, in nanoseconds since the epoch.
    pub expiration_ns: u64,
    /// Currency the contract is quoted in.
    pub currency: Currency,
    /// Number of decimal places of a price.
    pub price_precision: u8,
    /// Smallest move of the price.
    pub price_increment: Price,
    /// Initial margin rate.
    pub margin_init: Rate,
    /// Maintenance margin rate.
    pub margin_maint: Rate,
    /// Fee rate for orders that add liquidity; negative for a rebate.
    pub maker_fee: Rate,
    /// Fee rate for orders that take liquidity; negative for a rebate.
    pub taker_fee: Rate,
    /// Size of one contract.
    pub multiplier: Quantity,
    /// Smallest tradable step of quantity.
    pub lot_size: Option<Quantity>,
    /// Largest tradable quantity.
    pub max_quantity: Option<Quantity>,
    /// Smallest tradable quantity.
    pub min_quantity: Option<Quantity>,
    /// Highest price.
    pub max_price: Option<Price>,
    /// Lowest price.
    pub min_price: Option<Price>,
}

/// What a field set holds: its texts as sequences of characters, the rest
/// as it is.
pub struct FieldsView {
    pub id: Seq<char>,
    pub raw_symbol: Seq<char>,
    pub asset_class: AssetClass,
    pub underlying: Seq<char>,
    pub activation_ns: u64,
    pub expiration_ns: u64,
    pub currency: Seq<char>,
    pub price_precision: u8,
    pub price_increment: Price,
    pub margin_init: Rate,
    pub margin_maint: Rate,
    pub maker_fee: Rate,
    pub taker_fee: Rate,
    pub multiplier: Quantity,
    pub lot_size: Option<Quantity>,
    pub max_quantity: Option<Quantity>,
    pub min_quantity: Option<Quantity>,
    pub max_price: Option<Price>,
    pub min_price: Option<Price>,
}

impl View for ContractFields {
    type V = FieldsView;

    open spec fn view(&self) -> FieldsView {
        FieldsView {
            id: self.id@,
            raw_symbol: self.raw_symbol@,
            asset_class: self.asset_class,
            underlying: self.underlying@,
            activation_ns: self.activation_ns,
            expiration_ns: self.expiration_ns,
            currency: self.currency@,
            price_precision: self.price_precision,
            price_increment: self.price_increment,
            margin_init: self.margin_init,
            margin_maint: self.margin_maint,
            maker_fee: self.maker_fee,
            taker_fee: self.taker_fee,
            multiplier: self.multiplier,
            lot_size: self.lot_size,
            max_quantity: self.max_quantity,
            min_quantity: self.min_quantity,
            max_price: self.max_price,
            min_price: self.min_price,
        }
    }
}

impl Clone for ContractFields {
    fn clone(&self) -> (r: Self)
        ensures
            r@ == self@,
    {
        ContractFields {
            id: self.id.clone(),
            raw_symbol: self.raw_symbol.clone(),
            asset_class: self.asset_class,
            underlying: self.underlying.clone(),
            activation_ns: self.activation_ns,
            expiration_ns: self.expiration_ns,
            currency: self.currency.clone(),
            price_precision: self.price_precision,
            price_increment: self.price_increment,
            margin_init: self.margin_init,
            margin_maint: self.margin_maint,
            maker_fee: self.maker_fee,
            taker_fee: self.taker_fee,
            multiplier: self.multiplier,
            lot_size: self.lot_size,
            max_quantity: self.max_quantity,
            min_quantity: self.min_quantity,
            max_price: self.max_price,
            min_price: self.min_price,
        }
    }
}

impl ContractFields {
    /// Recalls what the types of the fields guarantee: a field set that
    /// exists holds well-formed values.
    pub(crate) fn recall_parts(&self)
        ensures
            self@.parts_wf(),
    {
        proof {
            use_type_invariant(&self.id);
            use_type_invariant(&self.currency);
            use_type_invariant(&self.price_increment);
            use_type_invariant(&self.margin_init);
            use_type_invariant(&self.margin_maint);
            use_type_invariant(&self.maker_fee);
            use_type_invariant(&self.taker_fee);
            use_type_invariant(&self.multiplier);
        }
        match &self.lot_size {
            Some(q) => {
                proof {
                    use_type_invariant(q);
                }
            },
            None => {},
        }
        match &self.max_quantity {
            Some(q) => {
                proof {
                    use_type_invariant(q);
                }
            },
            None => {},
        }
        match &self.min_quantity {
            Some(q) => {
                proof {
                    use_type_invariant(q);
                }
            },
            None => {},
        }
        match &self.max_price {
            Some(p) => {
                proof {
                    use_type_invariant(p);
                }
            },
            None => {},
        }
        match &self.min_price {
            Some(p) => {
                proof {
                    use_type_invariant(p);
                }
            },
            None => {},
        }
    }
}

/// Whether an optional quantity, where present, is well formed.
pub open spec fn quantity_wf(q: Option<Quantity>) -> bool {
    q matches Some(x) ==> x.wf()
}

/// Whether an optional price, where present, is well formed.
pub open spec fn price_wf(p: Option<Price>) -> bool {
    p matches Some(x) ==> x.wf()
}

impl FieldsView {
    /// Each field is a value of its type: the identifier and the currency
    /// code are well formed, and so is every price, quantity and rate.
    pub open spec fn parts_wf(self) -> bool {
        &&& is_instrument_id(self.id)
        &&& is_currency_code(self.currency)
        &&& self.price_increment.wf()
        &&& self.margin_init.wf()
        &&& self.margin_maint.wf()
        &&& self.maker_fee.wf()
        &&& self.taker_fee.wf()
        &&& self.multiplier.wf()
        &&& quantity_wf(self.lot_size)
        &&& quantity_wf(self.max_quantity)
        &&& quantity_wf(self.min_quantity)
        &&& price_wf(self.max_price)
        &&& price_wf(self.min_price)
    }

    /// Whether the fields break the rule that `e` stands for.
    pub open spec fn violates(self, e: ValidationError) -> bool {
        match e {
            ValidationError::ExpirationNotAfterActivation => self.activation_ns
                >= self.expiration_ns,
            ValidationError::PrecisionMismatch => self.price_increment.precision()
                != self.price_precision,
            ValidationError::PriceIncrementNotPositive => self.price_increment.raw() <= 0,
            ValidationError::MultiplierNotPositive => self.multiplier.raw() == 0,
            ValidationError::LotSizeNotPositive => self.lot_size matches Some(q) && q.raw() == 0,
            ValidationError::QuantityBoundsInverted => {
                &&& self.min_quantity matches Some(low)
                &&& self.max_quantity matches Some(high)
                &&& low.raw() > high.raw()
            },
            ValidationError::PriceBoundsInverted => {
                &&& self.min_price matches Some(low)
                &&& self.max_price matches Some(high)
                &&& low.raw() > high.raw()
            },
            ValidationError::EmptyRawSymbol => self.raw_symbol.len() == 0,
            ValidationError::EmptyUnderlying => self.underlying.len() == 0,
            ValidationError::NegativeMarginInit => self.margin_init.mantissa() < 0,
            ValidationError::NegativeMarginMaint => self.margin_maint.mantissa() < 0,
        }
    }

    /// The first rule, in the order of checking, that the fields break.
    pub open spec fn first_violation(self) -> Option<ValidationError> {
        if self.violates(ValidationError::ExpirationNotAfterActivation) {
            Some(ValidationError::ExpirationNotAfterActivation)
        } else if self.violates(ValidationError::PrecisionMismatch) {
            Some(ValidationError::PrecisionMismatch)
        } else if self.violates(ValidationError::PriceIncrementNotPositive) {
            Some(ValidationError::PriceIncrementNotPositive)
        } else if self.violates(ValidationError::MultiplierNotPositive) {
            Some(ValidationError::MultiplierNotPositive)
        } else if self.violates(ValidationError::LotSizeNotPositive) {
            Some(ValidationError::LotSizeNotPositive)
        } else if self.violates(ValidationError::QuantityBoundsInverted) {
            Some(ValidationError::QuantityBoundsInverted)
        } else if self.violates(ValidationError::PriceBoundsInverted) {
            Some(ValidationError::PriceBoundsInverted)
        } else if self.violates(ValidationError::EmptyRawSymbol) {
            Some(ValidationError::EmptyRawSymbol)
        } else if self.violates(ValidationError::EmptyUnderlying) {
            Some(ValidationError::EmptyUnderlying)
        } else if self.violates(ValidationError::NegativeMarginInit) {
            Some(ValidationError::NegativeMarginInit)
        } else if self.violates(ValidationError::NegativeMarginMaint) {
            Some(ValidationError::NegativeMarginMaint)
        } else {
            None
        }
    }

    /// The fields are those of a contract: each is a value of its type, and
    /// together they break no rule.
    pub open spec fn valid(self) -> bool {
        &&& self.parts_wf()
        &&& forall|e: ValidationError| !self.violates(e)
    }
}

} // verus!
