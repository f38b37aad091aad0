use futures_contract::{
    AssetClass, ContractFields, Currency, Field, FuturesContract, InstrumentId, Price, Quantity,
    Rate, Rule, ValidationError,
};

fn sample() -> ContractFields {
    ContractFields {
        id: InstrumentId::new("ESZ21", "XCME").unwrap(),
        raw_symbol: "ESZ21".to_string(),
        asset_class: AssetClass::Index,
        underlying: "ES".to_string(),
        activation_ns: 1_622_842_200_000_000_000,
        expiration_ns: 1_639_751_400_000_000_000,
        currency: Currency::new("USD").unwrap(),
        price_precision: 2,
        price_increment: Price::parse("0.01").unwrap(),
        margin_init: Rate::new(5, 2).unwrap(),
        margin_maint: Rate::new(3, 2).unwrap(),
        maker_fee: Rate::new(1, 3).unwrap(),
        taker_fee: Rate::new(2, 3).unwrap(),
        multiplier: Quantity::parse("50").unwrap(),
        lot_size: Some(Quantity::parse("1").unwrap()),
        max_quantity: Some(Quantity::parse("1000").unwrap()),
        min_quantity: Some(Quantity::parse("1").unwrap()),
        max_price: Some(Price::parse("10000.00").unwrap()),
        min_price: Some(Price::parse("0.01").unwrap()),
    }
}

fn refused(fields: ContractFields) -> ValidationError {
    FuturesContract::new(fields).unwrap_err()
}

#[test]
fn valid_fields_are_kept_as_given() {
    let c = FuturesContract::new(sample()).unwrap();
    let f = c.fields();
    assert_eq!(f.id.to_string(), "ESZ21.XCME");
    assert_eq!(f.raw_symbol, "ESZ21");
    assert_eq!(f.asset_class, AssetClass::Index);
    assert_eq!(f.underlying, "ES");
    assert_eq!(f.activation_ns, 1_622_842_200_000_000_000);
    assert_eq!(f.expiration_ns, 1_639_751_400_000_000_000);
    assert_eq!(f.currency.code(), "USD");
    assert_eq!(f.price_precision, 2);
    assert_eq!(f.price_increment.raw(), 10_000_000);
    assert_eq!(f.price_increment.precision(), 2);
    assert_eq!(f.margin_init, Rate::new(5, 2).unwrap());
    assert_eq!(f.margin_maint, Rate::new(3, 2).unwrap());
    assert_eq!(f.maker_fee, Rate::new(1, 3).unwrap());
    assert_eq!(f.taker_fee, Rate::new(2, 3).unwrap());
    assert_eq!(f.multiplier.raw(), 50_000_000_000);
    assert_eq!(f.lot_size.unwrap().raw(), 1_000_000_000);
    assert_eq!(f.max_quantity.unwrap().raw(), 1_000_000_000_000);
    assert_eq!(f.min_quantity.unwrap().raw(), 1_000_000_000);
    assert_eq!(f.max_price.unwrap().raw(), 10_000_000_000_000);
    assert_eq!(f.max_price.unwrap().precision(), 2);
    assert_eq!(f.min_price.unwrap().raw(), 10_000_000);
}

#[test]
fn valid_fields_without_optional_ones() {
    let mut fields = sample();
    fields.lot_size = None;
    fields.max_quantity = None;
    fields.min_quantity = None;
    fields.max_price = None;
    fields.min_price = None;
    let c = FuturesContract::new(fields).unwrap();
    assert!(c.fields().lot_size.is_none());
    assert!(c.fields().max_quantity.is_none());
    assert!(c.fields().min_quantity.is_none());
    assert!(c.fields().max_price.is_none());
    assert!(c.fields().min_price.is_none());
    let back = c.into_fields();
    assert_eq!(back.raw_symbol, "ESZ21");
}

#[test]
fn equal_activation_and_expiration_are_refused() {
    let mut fields = sample();
    fields.activation_ns = 1_700_000_000_000_000_000;
    fields.expiration_ns = 1_700_000_000_000_000_000;
    let e = refused(fields);
    assert_eq!(e, ValidationError::ExpirationNotAfterActivation);
    assert_eq!(e.rule(), Rule::TemporalOrdering);
    assert_eq!(e.field(), Field::ExpirationNs);
}

#[test]
fn expiration_before_activation_is_refused() {
    let mut fields = sample();
    fields.activation_ns = 2;
    fields.expiration_ns = 1;
    assert_eq!(refused(fields), ValidationError::ExpirationNotAfterActivation);
}

#[test]
fn expiration_one_nanosecond_after_activation_is_accepted() {
    let mut fields = sample();
    fields.activation_ns = 0;
    fields.expiration_ns = 1;
    assert!(FuturesContract::new(fields).is_ok());
    let mut late = sample();
    late.activation_ns = u64::MAX - 1;
    late.expiration_ns = u64::MAX;
    assert!(FuturesContract::new(late).is_ok());
}

#[test]
fn increment_with_more_places_than_the_precision_is_refused() {
    let mut fields = sample();
    fields.price_precision = 2;
    fields.price_increment = Price::parse("0.001").unwrap();
    let e = refused(fields);
    assert_eq!(e, ValidationError::PrecisionMismatch);
    assert_eq!(e.rule(), Rule::PrecisionConsistency);
    assert_eq!(e.field(), Field::PriceIncrement);
}

#[test]
fn increment_with_fewer_places_than_the_precision_is_refused() {
    let mut fields = sample();
    fields.price_precision = 2;
    fields.price_increment = Price::parse("0.1").unwrap();
    assert_eq!(refused(fields), ValidationError::PrecisionMismatch);
    let mut wide = sample();
    wide.price_precision = 10;
    wide.price_increment = Price::parse("0.000000001").unwrap();
    assert_eq!(refused(wide), ValidationError::PrecisionMismatch);
}

#[test]
fn increment_of_zero_or_below_is_refused() {
    let mut fields = sample();
    fields.price_increment = Price::parse("0.00").unwrap();
    let e = refused(fields);
    assert_eq!(e, ValidationError::PriceIncrementNotPositive);
    assert_eq!(e.rule(), Rule::Positivity);
    assert_eq!(e.field(), Field::PriceIncrement);
    let mut below = sample();
    below.price_increment = Price::parse("-0.01").unwrap();
    assert_eq!(refused(below), ValidationError::PriceIncrementNotPositive);
}

#[test]
fn multiplier_of_zero_is_refused() {
    let mut fields = sample();
    fields.multiplier = Quantity::parse("0").unwrap();
    let e = refused(fields);
    assert_eq!(e, ValidationError::MultiplierNotPositive);
    assert_eq!(e.rule(), Rule::Positivity);
    assert_eq!(e.field(), Field::Multiplier);
}

#[test]
fn lot_size_of_zero_is_refused() {
    let mut fields = sample();
    fields.lot_size = Some(Quantity::parse("0.0").unwrap());
    let e = refused(fields);
    assert_eq!(e, ValidationError::LotSizeNotPositive);
    assert_eq!(e.rule(), Rule::Positivity);
    assert_eq!(e.field(), Field::LotSize);
}

#[test]
fn inverted_quantity_bounds_are_refused() {
    let mut fields = sample();
    fields.min_quantity = Some(Quantity::parse("10").unwrap());
    fields.max_quantity = Some(Quantity::parse("5").unwrap());
    let e = refused(fields);
    assert_eq!(e, ValidationError::QuantityBoundsInverted);
    assert_eq!(e.rule(), Rule::BoundConsistency);
    assert_eq!(e.field(), Field::MinQuantity);
}

#[test]
fn equal_bounds_are_accepted() {
    let mut fields = sample();
    fields.min_quantity = Some(Quantity::parse("5").unwrap());
    fields.max_quantity = Some(Quantity::parse("5.0").unwrap());
    fields.min_price = Some(Price::parse("1.00").unwrap());
    fields.max_price = Some(Price::parse("1").unwrap());
    assert!(FuturesContract::new(fields).is_ok());
}

#[test]
fn a_single_bound_is_accepted() {
    let mut fields = sample();
    fields.min_quantity = Some(Quantity::parse("10").unwrap());
    fields.max_quantity = None;
    fields.min_price = None;
    fields.max_price = Some(Price::parse("-5").unwrap());
    assert!(FuturesContract::new(fields).is_ok());
}

#[test]
fn inverted_price_bounds_are_refused() {
    let mut fields = sample();
    fields.min_price = Some(Price::parse("2.00").unwrap());
    fields.max_price = Some(Price::parse("1.99").unwrap());
    let e = refused(fields);
    assert_eq!(e, ValidationError::PriceBoundsInverted);
    assert_eq!(e.rule(), Rule::BoundConsistency);
    assert_eq!(e.field(), Field::MinPrice);
    let mut negative = sample();
    negative.min_price = Some(Price::parse("-1").unwrap());
    negative.max_price = Some(Price::parse("-2").unwrap());
    assert_eq!(refused(negative), ValidationError::PriceBoundsInverted);
}

#[test]
fn empty_raw_symbol_is_refused() {
    let mut fields = sample();
    fields.raw_symbol = String::new();
    let e = refused(fields);
    assert_eq!(e, ValidationError::EmptyRawSymbol);
    assert_eq!(e.rule(), Rule::NonEmpty);
    assert_eq!(e.field(), Field::RawSymbol);
}

#[test]
fn empty_underlying_is_refused() {
    let mut fields = sample();
    fields.underlying = String::new();
    let e = refused(fields);
    assert_eq!(e, ValidationError::EmptyUnderlying);
    assert_eq!(e.rule(), Rule::NonEmpty);
    assert_eq!(e.field(), Field::Underlying);
}

#[test]
fn negative_margins_are_refused() {
    let mut fields = sample();
    fields.margin_init = Rate::new(-1, 2).unwrap();
    let e = refused(fields);
    assert_eq!(e, ValidationError::NegativeMarginInit);
    assert_eq!(e.rule(), Rule::NonNegative);
    assert_eq!(e.field(), Field::MarginInit);
    let mut maint = sample();
    maint.margin_maint = Rate::new(-1, 2).unwrap();
    let e = refused(maint);
    assert_eq!(e, ValidationError::NegativeMarginMaint);
    assert_eq!(e.rule(), Rule::NonNegative);
    assert_eq!(e.field(), Field::MarginMaint);
}

#[test]
fn margins_are_independent_and_may_be_zero() {
    let mut fields = sample();
    fields.margin_init = Rate::new(0, 0).unwrap();
    fields.margin_maint = Rate::new(9, 1).unwrap();
    assert!(FuturesContract::new(fields).is_ok());
}

#[test]
fn fees_may_be_negative() {
    let mut fields = sample();
    fields.maker_fee = Rate::new(-2, 4).unwrap();
    fields.taker_fee = Rate::new(-1, 4).unwrap();
    let c = FuturesContract::new(fields).unwrap();
    assert!(c.fields().maker_fee.is_negative());
}

#[test]
fn the_first_broken_rule_is_reported() {
    let mut fields = sample();
    fields.margin_maint = Rate::new(-1, 2).unwrap();
    fields.margin_init = Rate::new(-1, 2).unwrap();
    assert_eq!(refused(fields.clone()), ValidationError::NegativeMarginInit);
    fields.underlying = String::new();
    assert_eq!(refused(fields.clone()), ValidationError::EmptyUnderlying);
    fields.raw_symbol = String::new();
    assert_eq!(refused(fields.clone()), ValidationError::EmptyRawSymbol);
    fields.min_price = Some(Price::parse("2").unwrap());
    fields.max_price = Some(Price::parse("1").unwrap());
    assert_eq!(refused(fields.clone()), ValidationError::PriceBoundsInverted);
    fields.min_quantity = Some(Quantity::parse("2").unwrap());
    fields.max_quantity = Some(Quantity::parse("1").unwrap());
    assert_eq!(refused(fields.clone()), ValidationError::QuantityBoundsInverted);
    fields.lot_size = Some(Quantity::parse("0").unwrap());
    assert_eq!(refused(fields.clone()), ValidationError::LotSizeNotPositive);
    fields.multiplier = Quantity::parse("0").unwrap();
    assert_eq!(refused(fields.clone()), ValidationError::MultiplierNotPositive);
    fields.price_increment = Price::parse("0.00").unwrap();
    assert_eq!(refused(fields.clone()), ValidationError::PriceIncrementNotPositive);
    fields.price_precision = 3;
    assert_eq!(refused(fields.clone()), ValidationError::PrecisionMismatch);
    fields.expiration_ns = fields.activation_ns;
    assert_eq!(refused(fields), ValidationError::ExpirationNotAfterActivation);
}

#[test]
fn construction_is_repeatable() {
    let mut fields = sample();
    fields.multiplier = Quantity::parse("0").unwrap();
    assert_eq!(refused(fields.clone()), refused(fields));
    assert_eq!(FuturesContract::new(sample()).unwrap(), FuturesContract::new(sample()).unwrap());
}
