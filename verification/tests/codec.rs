use futures_contract::{
    AssetClass, ContractFields, Currency, Field, FuturesContract, ImportError, InstrumentId,
    Mapping, Price, Quantity, Rate, SchemaError, ValidationError, Value,
};

fn sample() -> ContractFields {
    ContractFields {
        id: InstrumentId::new("ESZ21", "XCME").unwrap(),
        raw_symbol: "ESZ21".to_string(),
        asset_class: AssetClass::Index,
        underlying: "ES".to_string(),
        activation_ns: 1_622_842_200_000_000_000,
        expiration_ns: 1_639_751_400_000_000_000,
        currency: Currency::new("USD").unwrap(),
        price_precision: 2,
        price_increment: Price::parse("0.01").unwrap(),
        margin_init: Rate::new(5, 2).unwrap(),
        margin_maint: Rate::new(3, 2).unwrap(),
        maker_fee: Rate::new(1, 3).unwrap(),
        taker_fee: Rate::new(-2, 3).unwrap(),
        multiplier: Quantity::parse("50").unwrap(),
        lot_size: Some(Quantity::parse("1").unwrap()),
        max_quantity: Some(Quantity::parse("1000.0").unwrap()),
        min_quantity: Some(Quantity::parse("0.5").unwrap()),
        max_price: Some(Price::parse("10000.00").unwrap()),
        min_price: Some(Price::parse("-0.25").unwrap()),
    }
}

fn minimal() -> ContractFields {
    let mut fields = sample();
    fields.lot_size = None;
    fields.max_quantity = None;
    fields.min_quantity = None;
    fields.max_price = None;
    fields.min_price = None;
    fields
}

fn text(s: &str) -> Value {
    Value::Text(s.to_string())
}

fn exported() -> Mapping {
    FuturesContract::new(sample()).unwrap().to_mapping()
}

fn schema_error(m: &Mapping) -> SchemaError {
    match FuturesContract::from_mapping(m) {
        Err(ImportError::Schema(e)) => e,
        other => panic!("expected a schema error, got {:?}", other),
    }
}

const FIELDS: [Field; 20] = [
    Field::Type,
    Field::Id,
    Field::RawSymbol,
    Field::AssetClass,
    Field::Underlying,
    Field::ActivationNs,
    Field::ExpirationNs,
    Field::Currency,
    Field::PricePrecision,
    Field::PriceIncrement,
    Field::MarginInit,
    Field::MarginMaint,
    Field::MakerFee,
    Field::TakerFee,
    Field::Multiplier,
    Field::LotSize,
    Field::MaxQuantity,
    Field::MinQuantity,
    Field::MaxPrice,
    Field::MinPrice,
];

fn without(m: &Mapping, field: Field) -> Mapping {
    let mut out = Mapping::new();
    for f in FIELDS {
        if f != field {
            if let Some(value) = m.get(f.key()) {
                out.insert(f.key(), value.clone());
            }
        }
    }
    out
}

fn with(m: &Mapping, field: Field, value: Value) -> Mapping {
    let mut out = without(m, field);
    out.insert(field.key(), value);
    out
}

#[test]
fn export_writes_every_field_under_its_key() {
    let m = exported();
    assert_eq!(m.get("type"), Some(&text("FuturesContract")));
    assert_eq!(m.get("id"), Some(&text("ESZ21.XCME")));
    assert_eq!(m.get("raw_symbol"), Some(&text("ESZ21")));
    assert_eq!(m.get("asset_class"), Some(&text("INDEX")));
    assert_eq!(m.get("underlying"), Some(&text("ES")));
    assert_eq!(m.get("activation_ns"), Some(&Value::Integer(1_622_842_200_000_000_000)));
    assert_eq!(m.get("expiration_ns"), Some(&Value::Integer(1_639_751_400_000_000_000)));
    assert_eq!(m.get("currency"), Some(&text("USD")));
    assert_eq!(m.get("price_precision"), Some(&Value::Integer(2)));
    assert_eq!(m.get("price_increment"), Some(&text("0.01")));
    assert_eq!(m.get("margin_init"), Some(&Value::Rate(Rate::new(5, 2).unwrap())));
    assert_eq!(m.get("margin_maint"), Some(&Value::Rate(Rate::new(3, 2).unwrap())));
    assert_eq!(m.get("maker_fee"), Some(&Value::Rate(Rate::new(1, 3).unwrap())));
    assert_eq!(m.get("taker_fee"), Some(&Value::Rate(Rate::new(-2, 3).unwrap())));
    assert_eq!(m.get("multiplier"), Some(&text("50")));
    assert_eq!(m.get("lot_size"), Some(&text("1")));
    assert_eq!(m.get("max_quantity"), Some(&text("1000.0")));
    assert_eq!(m.get("min_quantity"), Some(&text("0.5")));
    assert_eq!(m.get("max_price"), Some(&text("10000.00")));
    assert_eq!(m.get("min_price"), Some(&text("-0.25")));
}

#[test]
fn export_has_exactly_the_keys_of_the_fields() {
    let m = exported();
    assert_eq!(m.len(), 20);
    let mut keys = m.keys();
    keys.sort();
    let mut expected: Vec<String> = FIELDS.iter().map(|f| f.key().to_string()).collect();
    expected.sort();
    assert_eq!(keys, expected);
    let n = FuturesContract::new(minimal()).unwrap().to_mapping();
    let mut keys = n.keys();
    keys.sort();
    assert_eq!(keys, expected);
}

#[test]
fn absent_fields_are_exported_as_null() {
    let m = FuturesContract::new(minimal()).unwrap().to_mapping();
    assert_eq!(m.get("lot_size"), Some(&Value::Null));
    assert_eq!(m.get("max_quantity"), Some(&Value::Null));
    assert_eq!(m.get("min_quantity"), Some(&Value::Null));
    assert_eq!(m.get("max_price"), Some(&Value::Null));
    assert_eq!(m.get("min_price"), Some(&Value::Null));
}

#[test]
fn absent_lot_size_round_trip() {
    let mut fields = sample();
    fields.lot_size = None;
    let c = FuturesContract::new(fields).unwrap();
    let m = c.to_mapping();
    assert_eq!(m.get("lot_size"), Some(&Value::Null));
    let back = FuturesContract::from_mapping(&m).unwrap();
    assert!(back.fields().lot_size.is_none());
    assert_eq!(back, c);
}

#[test]
fn round_trip_with_every_field_present() {
    let c = FuturesContract::new(sample()).unwrap();
    let back = FuturesContract::from_mapping(&c.to_mapping()).unwrap();
    assert_eq!(back, c);
    let f = back.fields();
    assert_eq!(f.id.to_string(), "ESZ21.XCME");
    assert_eq!(f.price_increment.precision(), 2);
    assert_eq!(f.max_quantity.unwrap().precision(), 1);
    assert_eq!(f.max_quantity.unwrap().raw(), 1_000_000_000_000);
    assert_eq!(f.min_quantity.unwrap().raw(), 500_000_000);
    assert_eq!(f.max_price.unwrap().precision(), 2);
    assert_eq!(f.min_price.unwrap().raw(), -250_000_000);
    assert_eq!(f.taker_fee, Rate::new(-2, 3).unwrap());
    assert_eq!(back.identity_hash(), c.identity_hash());
}

#[test]
fn round_trip_with_every_optional_field_absent() {
    let c = FuturesContract::new(minimal()).unwrap();
    let m = c.to_mapping();
    for key in ["lot_size", "max_quantity", "min_quantity", "max_price", "min_price"] {
        assert_eq!(m.get(key), Some(&Value::Null));
    }
    let back = FuturesContract::from_mapping(&m).unwrap();
    assert_eq!(back, c);
    assert!(back.fields().lot_size.is_none());
    assert!(back.fields().max_quantity.is_none());
    assert!(back.fields().min_quantity.is_none());
    assert!(back.fields().max_price.is_none());
    assert!(back.fields().min_price.is_none());
}

#[test]
fn export_of_an_import_is_the_mapping() {
    let m = exported();
    let again = FuturesContract::from_mapping(&m).unwrap().to_mapping();
    for f in FIELDS {
        assert_eq!(again.get(f.key()), m.get(f.key()));
    }
}

#[test]
fn fields_round_trip_without_the_rules() {
    let mut fields = sample();
    fields.multiplier = Quantity::parse("0").unwrap();
    let m = fields.to_mapping();
    let back = ContractFields::from_mapping(&m).unwrap();
    assert_eq!(back.multiplier.raw(), 0);
    assert_eq!(back.raw_symbol, "ESZ21");
    assert_eq!(
        FuturesContract::from_mapping(&m).unwrap_err(),
        ImportError::Validation(ValidationError::MultiplierNotPositive)
    );
}

#[test]
fn unknown_keys_are_passed_over() {
    let mut m = exported();
    m.insert("venue_note", text("night session"));
    m.insert("ts_init", Value::Integer(0));
    let c = FuturesContract::from_mapping(&m).unwrap();
    assert_eq!(c, FuturesContract::new(sample()).unwrap());
}

#[test]
fn the_order_of_entries_plays_no_part() {
    let m = exported();
    let mut reversed = Mapping::new();
    for f in FIELDS.iter().rev() {
        reversed.insert(f.key(), m.get(f.key()).unwrap().clone());
    }
    assert_eq!(
        FuturesContract::from_mapping(&reversed).unwrap(),
        FuturesContract::new(sample()).unwrap()
    );
}

#[test]
fn every_key_is_required() {
    let m = exported();
    for f in FIELDS {
        assert_eq!(schema_error(&without(&m, f)), SchemaError::MissingKey(f));
    }
    assert_eq!(schema_error(&Mapping::new()), SchemaError::MissingKey(Field::Type));
}

#[test]
fn the_first_field_in_canonical_order_is_reported() {
    let m = exported();
    let broken = with(&without(&m, Field::MinPrice), Field::Currency, text("usd"));
    assert_eq!(schema_error(&broken), SchemaError::Malformed(Field::Currency));
    let broken = with(&without(&m, Field::Id), Field::Currency, text("usd"));
    assert_eq!(schema_error(&broken), SchemaError::MissingKey(Field::Id));
    assert_eq!(schema_error(&broken).field(), Field::Id);
}

#[test]
fn the_type_tag_is_checked() {
    let m = exported();
    assert_eq!(
        schema_error(&with(&m, Field::Type, text("OptionsContract"))),
        SchemaError::Malformed(Field::Type)
    );
    assert_eq!(
        schema_error(&with(&m, Field::Type, text("futurescontract"))),
        SchemaError::Malformed(Field::Type)
    );
    assert_eq!(
        schema_error(&with(&m, Field::Type, Value::Null)),
        SchemaError::Malformed(Field::Type)
    );
}

#[test]
fn entries_of_the_wrong_kind_are_malformed() {
    let m = exported();
    let rate = Value::Rate(Rate::new(1, 0).unwrap());
    let wrong: [(Field, Value); 20] = [
        (Field::Type, Value::Integer(1)),
        (Field::Id, Value::Integer(1)),
        (Field::RawSymbol, Value::Null),
        (Field::AssetClass, Value::Integer(6)),
        (Field::Underlying, Value::Integer(0)),
        (Field::ActivationNs, text("1622842200000000000")),
        (Field::ExpirationNs, Value::Null),
        (Field::Currency, Value::Null),
        (Field::PricePrecision, text("2")),
        (Field::PriceIncrement, rate.clone()),
        (Field::MarginInit, text("0.05")),
        (Field::MarginMaint, Value::Integer(0)),
        (Field::MakerFee, Value::Null),
        (Field::TakerFee, text("-0.002")),
        (Field::Multiplier, Value::Integer(50)),
        (Field::LotSize, Value::Integer(1)),
        (Field::MaxQuantity, rate.clone()),
        (Field::MinQuantity, Value::Integer(1)),
        (Field::MaxPrice, rate.clone()),
        (Field::MinPrice, Value::Integer(0)),
    ];
    for (field, value) in wrong {
        assert_eq!(schema_error(&with(&m, field, value)), SchemaError::Malformed(field));
    }
}

#[test]
fn texts_that_cannot_be_read_are_malformed() {
    let m = exported();
    let wrong: [(Field, &str); 12] = [
        (Field::Id, "ESZ21"),
        (Field::Id, "ESZ21."),
        (Field::AssetClass, "Index"),
        (Field::Currency, "US"),
        (Field::PriceIncrement, "0.01 "),
        (Field::PriceIncrement, "1e-2"),
        (Field::Multiplier, "-50"),
        (Field::LotSize, ""),
        (Field::MaxQuantity, "1,000"),
        (Field::MinQuantity, "01"),
        (Field::MaxPrice, "10000.0000000000"),
        (Field::MinPrice, "-0"),
    ];
    for (field, value) in wrong {
        assert_eq!(schema_error(&with(&m, field, text(value))), SchemaError::Malformed(field));
    }
}

#[test]
fn a_precision_beyond_a_byte_is_malformed() {
    let m = exported();
    assert_eq!(
        schema_error(&with(&m, Field::PricePrecision, Value::Integer(256))),
        SchemaError::Malformed(Field::PricePrecision)
    );
    assert_eq!(
        FuturesContract::from_mapping(&with(&m, Field::PricePrecision, Value::Integer(255)))
            .unwrap_err(),
        ImportError::Validation(ValidationError::PrecisionMismatch)
    );
}

#[test]
fn empty_texts_pass_the_schema_and_fail_the_rules() {
    let m = exported();
    assert_eq!(
        FuturesContract::from_mapping(&with(&m, Field::RawSymbol, text(""))).unwrap_err(),
        ImportError::Validation(ValidationError::EmptyRawSymbol)
    );
    assert_eq!(
        FuturesContract::from_mapping(&with(&m, Field::Underlying, text(""))).unwrap_err(),
        ImportError::Validation(ValidationError::EmptyUnderlying)
    );
}

#[test]
fn imported_values_are_held_to_the_rules() {
    let m = exported();
    let cases: [(Field, Value, ValidationError); 7] = [
        (
            Field::ExpirationNs,
            Value::Integer(1_622_842_200_000_000_000),
            ValidationError::ExpirationNotAfterActivation,
        ),
        (Field::PriceIncrement, text("0.001"), ValidationError::PrecisionMismatch),
        (Field::PriceIncrement, text("0.00"), ValidationError::PriceIncrementNotPositive),
        (Field::LotSize, text("0"), ValidationError::LotSizeNotPositive),
        (Field::MinQuantity, text("1000.1"), ValidationError::QuantityBoundsInverted),
        (Field::MaxPrice, text("-0.26"), ValidationError::PriceBoundsInverted),
        (
            Field::MarginInit,
            Value::Rate(Rate::new(-5, 2).unwrap()),
            ValidationError::NegativeMarginInit,
        ),
    ];
    for (field, value, error) in cases {
        assert_eq!(
            FuturesContract::from_mapping(&with(&m, field, value)).unwrap_err(),
            ImportError::Validation(error)
        );
    }
}

#[test]
fn a_schema_error_comes_before_a_broken_rule() {
    let m = exported();
    let broken = with(
        &with(&m, Field::ExpirationNs, Value::Integer(0)),
        Field::MinPrice,
        text("x"),
    );
    assert_eq!(schema_error(&broken), SchemaError::Malformed(Field::MinPrice));
}

#[test]
fn import_is_repeatable() {
    let m = with(&exported(), Field::Multiplier, text("0"));
    assert_eq!(
        FuturesContract::from_mapping(&m).unwrap_err(),
        FuturesContract::from_mapping(&m).unwrap_err()
    );
}
