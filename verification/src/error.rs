//! The fields of a futures contract and the ways in which building or
//! importing one can fail.

use vstd::prelude::*;

verus! {

/// An entry of the canonical mapping: the type tag and the fields of the
/// contract, in their canonical order.
#[derive(Clone, Copy, Debug, PartialEq, Eq, Structural)]
pub enum Field {
    Type,
    Id,
    RawSymbol,
    AssetClass,
    Underlying,
    ActivationNs,
    ExpirationNs,
    Currency,
    PricePrecision,
    PriceIncrement,
    MarginInit,
    MarginMaint,
    MakerFee,
    TakerFee,
    Multiplier,
    LotSize,
    MaxQuantity,
    MinQuantity,
    MaxPrice,
    MinPrice,
}

impl Field {
    /// The key under which the field stands in the canonical mapping.
    pub open spec fn key_text(self) -> Seq<char> {
        match self {
            Field::Type => "type"@,
            Field::Id => "id"@,
            Field::RawSymbol => "raw_symbol"@,
            Field::AssetClass => "asset_class"@,
            Field::Underlying => "underlying"@,
            Field::ActivationNs => "activation_ns"@,
            Field::ExpirationNs => "expiration_ns"@,
            Field::Currency => "currency"@,
            Field::PricePrecision => "price_precision"@,
            Field::PriceIncrement => "price_increment"@,
            Field::MarginInit => "margin_init"@,
            Field::MarginMaint => "margin_maint"@,
            Field::MakerFee => "maker_fee"@,
            Field::TakerFee => "taker_fee"@,
            Field::Multiplier => "multiplier"@,
            Field::LotSize => "lot_size"@,
            Field::MaxQuantity => "max_quantity"@,
            Field::MinQuantity => "min_quantity"@,
            Field::MaxPrice => "max_price"@,
            Field::MinPrice => "min_price"@,
        }
    }

    /// Position of the field in the canonical order.
    pub open spec fn index(self) -> nat {
        match self {
            Field::Type => 0,
            Field::Id => 1,
            Field::RawSymbol => 2,
            Field::AssetClass => 3,
            Field::Underlying => 4,
            Field::ActivationNs => 5,
            Field::ExpirationNs => 6,
            Field::Currency => 7,
            Field::PricePrecision => 8,
            Field::PriceIncrement => 9,
            Field::MarginInit => 10,
            Field::MarginMaint => 11,
            Field::MakerFee => 12,
            Field::TakerFee => 13,
            Field::Multiplier => 14,
            Field::LotSize => 15,
            Field::MaxQuantity => 16,
            Field::MinQuantity => 17,
            Field::MaxPrice => 18,
            Field::MinPrice => 19,
        }
    }

    /// The key under which the field stands in the canonical mapping.
    pub fn key(&self) -> (r: &'static str)
        ensures
            r@ == self.key_text(),
    {
        match self {
            Field::Type => "type",
            Field::Id => "id",
            Field::RawSymbol => "raw_symbol",
            Field::AssetClass => "asset_class",
            Field::Underlying => "underlying",
            Field::ActivationNs => "activation_ns",
            Field::ExpirationNs => "expiration_ns",
            Field::Currency => "currency",
            Field::PricePrecision => "price_precision",
            Field::PriceIncrement => "price_increment",
            Field::MarginInit => "margin_init",
            Field::MarginMaint => "margin_maint",
            Field::MakerFee => "maker_fee",
            Field::TakerFee => "taker_fee",
            Field::Multiplier => "multiplier",
            Field::LotSize => "lot_size",
            Field::MaxQuantity => "max_quantity",
            Field::MinQuantity => "min_quantity",
            Field::MaxPrice => "max_price",
            Field::MinPrice => "min_price",
        }
    }

    /// No two fields share a key.
    pub proof fn lemma_key_unique(self, other: Field)
        requires
            self.key_text() == other.key_text(),
        ensures
            self == other,
    {
        reveal_strlit("type");
        reveal_strlit("id");
        reveal_strlit("raw_symbol");
        reveal_strlit("asset_class");
        reveal_strlit("underlying");
        reveal_strlit("activation_ns");
        reveal_strlit("expiration_ns");
        reveal_strlit("currency");
        reveal_strlit("price_precision");
        reveal_strlit("price_increment");
        reveal_strlit("margin_init");
        reveal_strlit("margin_maint");
        reveal_strlit("maker_fee");
        reveal_strlit("taker_fee");
        reveal_strlit("multiplier");
        reveal_strlit("lot_size");
        reveal_strlit("max_quantity");
        reveal_strlit("min_quantity");
        reveal_strlit("max_price");
        reveal_strlit("min_price");
        let a = self.key_text();
        let b = other.key_text();
        assert(a.len() == b.len());
        assert(a[0] == b[0]);
        assert(a[1] == b[1]);
        if a.len() > 6 {
            assert(a[2] == b[2]);
            assert(a[3] == b[3]);
            assert(a[6] == b[6]);
        }
        if a.len() > 11 {
            assert(a[11] == b[11]);
        }
    }
}

/// The rules that the fields of a contract are held to.
#[derive(Clone, Copy, Debug, PartialEq, Eq, Structural)]
pub enum Rule {
    /// The contract is activated before it expires.
    TemporalOrdering,
    /// The price increment has as many decimal places as the price precision says.
    PrecisionConsistency,
    /// Price increment, multiplier and lot size are above zero.
    Positivity,
    /// A lower bound is not above its upper bound.
    BoundConsistency,
    /// Raw symbol and underlying are not empty.
    NonEmpty,
    /// Margin rates are not below zero.
    NonNegative,
}

/// A rule that a set of fields breaks, with the field that breaks it.
#[derive(Clone, Copy, Debug, PartialEq, Eq, Structural)]
pub enum ValidationError {
    ExpirationNotAfterActivation,
    PrecisionMismatch,
    PriceIncrementNotPositive,
    MultiplierNotPositive,
    LotSizeNotPositive,
    QuantityBoundsInverted,
    PriceBoundsInverted,
    EmptyRawSymbol,
    EmptyUnderlying,
    NegativeMarginInit,
    NegativeMarginMaint,
}

impl ValidationError {
    /// The rule that was broken.
    pub open spec fn spec_rule(&self) -> Rule {
        match self {
            ValidationError::ExpirationNotAfterActivation => Rule::TemporalOrdering,
            ValidationError::PrecisionMismatch => Rule::PrecisionConsistency,
            ValidationError::PriceIncrementNotPositive => Rule::Positivity,
            ValidationError::MultiplierNotPositive => Rule::Positivity,
            ValidationError::LotSizeNotPositive => Rule::Positivity,
            ValidationError::QuantityBoundsInverted => Rule::BoundConsistency,
            ValidationError::PriceBoundsInverted => Rule::BoundConsistency,
            ValidationError::EmptyRawSymbol => Rule::NonEmpty,
            ValidationError::EmptyUnderlying => Rule::NonEmpty,
            ValidationError::NegativeMarginInit => Rule::NonNegative,
            ValidationError::NegativeMarginMaint => Rule::NonNegative,
        }
    }

    /// The field that broke the rule.
    pub open spec fn spec_field(&self) -> Field {
        match self {
            ValidationError::ExpirationNotAfterActivation => Field::ExpirationNs,
            ValidationError::PrecisionMismatch => Field::PriceIncrement,
            ValidationError::PriceIncrementNotPositive => Field::PriceIncrement,
            ValidationError::MultiplierNotPositive => Field::Multiplier,
            ValidationError::LotSizeNotPositive => Field::LotSize,
            ValidationError::QuantityBoundsInverted => Field::MinQuantity,
            ValidationError::PriceBoundsInverted => Field::MinPrice,
            ValidationError::EmptyRawSymbol => Field::RawSymbol,
            ValidationError::EmptyUnderlying => Field::Underlying,
            ValidationError::NegativeMarginInit => Field::MarginInit,
            ValidationError::NegativeMarginMaint => Field::MarginMaint,
        }
    }

    /// Position of the rule in the order in which the rules are checked.
    pub open spec fn order(self) -> nat {
        match self {
            ValidationError::ExpirationNotAfterActivation => 0,
            ValidationError::PrecisionMismatch => 1,
            ValidationError::PriceIncrementNotPositive => 2,
            ValidationError::MultiplierNotPositive => 3,
            ValidationError::LotSizeNotPositive => 4,
            ValidationError::QuantityBoundsInverted => 5,
            ValidationError::PriceBoundsInverted => 6,
            ValidationError::EmptyRawSymbol => 7,
            ValidationError::EmptyUnderlying => 8,
            ValidationError::NegativeMarginInit => 9,
            ValidationError::NegativeMarginMaint => 10,
        }
    }

    /// The rule that was broken.
    #[verifier::when_used_as_spec(spec_rule)]
    pub fn rule(&self) -> (r: Rule)
        ensures
            r == self.rule(),
    {
        match self {
            ValidationError::ExpirationNotAfterActivation => Rule::TemporalOrdering,
            ValidationError::PrecisionMismatch => Rule::PrecisionConsistency,
            ValidationError::PriceIncrementNotPositive => Rule::Positivity,
            ValidationError::MultiplierNotPositive => Rule::Positivity,
            ValidationError::LotSizeNotPositive => Rule::Positivity,
            ValidationError::QuantityBoundsInverted => Rule::BoundConsistency,
            ValidationError::PriceBoundsInverted => Rule::BoundConsistency,
            ValidationError::EmptyRawSymbol => Rule::NonEmpty,
            ValidationError::EmptyUnderlying => Rule::NonEmpty,
            ValidationError::NegativeMarginInit => Rule::NonNegative,
            ValidationError::NegativeMarginMaint => Rule::NonNegative,
        }
    }

    /// The field that broke the rule.
    #[verifier::when_used_as_spec(spec_field)]
    pub fn field(&self) -> (r: Field)
        ensures
            r == self.field(),
    {
        match self {
            ValidationError::ExpirationNotAfterActivation => Field::ExpirationNs,
            ValidationError::PrecisionMismatch => Field::PriceIncrement,
            ValidationError::PriceIncrementNotPositive => Field::PriceIncrement,
            ValidationError::MultiplierNotPositive => Field::Multiplier,
            ValidationError::LotSizeNotPositive => Field::LotSize,
            ValidationError::QuantityBoundsInverted => Field::MinQuantity,
            ValidationError::PriceBoundsInverted => Field::MinPrice,
            ValidationError::EmptyRawSymbol => Field::RawSymbol,
            ValidationError::EmptyUnderlying => Field::Underlying,
            ValidationError::NegativeMarginInit => Field::MarginInit,
            ValidationError::NegativeMarginMaint => Field::MarginMaint,
        }
    }
}

/// A mapping that does not have the shape of an exported contract.
#[derive(Clone, Copy, Debug, PartialEq, Eq, Structural)]
pub enum SchemaError {
    /// The mapping has no entry under the field's key.
    MissingKey(Field),
    /// The entry under the field's key is of the wrong kind or cannot be read.
    Malformed(Field),
}

impl SchemaError {
    /// The field whose entry is missing or malformed.
    pub open spec fn spec_field(&self) -> Field {
        match self {
            SchemaError::MissingKey(f) => *f,
            SchemaError::Malformed(f) => *f,
        }
    }

    /// The field whose entry is missing or malformed.
    #[verifier::when_used_as_spec(spec_field)]
    pub fn field(&self) -> (r: Field)
        ensures
            r == self.field(),
    {
        match self {
            SchemaError::MissingKey(f) => *f,
            SchemaError::Malformed(f) => *f,
        }
    }
}

/// Why a mapping could not be imported.
#[derive(Clone, Copy, Debug, PartialEq, Eq, Structural)]
pub enum ImportError {
    /// The mapping does not have the shape of an exported contract.
    Schema(SchemaError),
    /// The mapping has the shape, but its values break a rule.
    Validation(ValidationError),
}

} // verus!
