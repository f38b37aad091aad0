use futures_contract::identity::hash;
use futures_contract::{
    AssetClass, ContractFields, Currency, FuturesContract, InstrumentId, Price, Quantity, Rate,
};

fn sample() -> ContractFields {
    ContractFields {
        id: InstrumentId::new("ESZ21", "XCME").unwrap(),
        raw_symbol: "ESZ21".to_string(),
        asset_class: AssetClass::Index,
        underlying: "ES".to_string(),
        activation_ns: 1,
        expiration_ns: 2,
        currency: Currency::new("USD").unwrap(),
        price_precision: 2,
        price_increment: Price::parse("0.01").unwrap(),
        margin_init: Rate::new(5, 2).unwrap(),
        margin_maint: Rate::new(3, 2).unwrap(),
        maker_fee: Rate::new(1, 3).unwrap(),
        taker_fee: Rate::new(-2, 3).unwrap(),
        multiplier: Quantity::parse("50").unwrap(),
        lot_size: Some(Quantity::parse("1").unwrap()),
        max_quantity: None,
        min_quantity: None,
        max_price: Some(Price::parse("-1.5").unwrap()),
        min_price: None,
    }
}

fn contract(fields: ContractFields) -> FuturesContract {
    FuturesContract::new(fields).unwrap()
}

#[test]
fn identity_holds_every_field_by_value() {
    let words = sample().identity();
    let mut expected: Vec<u64> = Vec::new();
    expected.push(10);
    expected.extend("ESZ21.XCME".bytes().map(u64::from));
    expected.push(5);
    expected.extend("ESZ21".bytes().map(u64::from));
    expected.push(6);
    expected.push(2);
    expected.extend("ES".bytes().map(u64::from));
    expected.push(1);
    expected.push(2);
    expected.push(3);
    expected.extend("USD".bytes().map(u64::from));
    expected.push(2);
    expected.extend([0, 10_000_000, 0]);
    expected.extend([2, 0, 5, 0]);
    expected.extend([2, 0, 3, 0]);
    expected.extend([3, 0, 1, 0]);
    expected.extend([3, 1, 2, 0]);
    expected.push(50_000_000_000);
    expected.extend([1, 1_000_000_000]);
    expected.push(0);
    expected.push(0);
    expected.extend([1, 1, 1_500_000_000, 0]);
    expected.push(0);
    assert_eq!(words, expected);
    assert_eq!(contract(sample()).identity_hash(), hash(&expected));
}

#[test]
fn identity_of_a_text_counts_bytes() {
    let mut fields = sample();
    fields.underlying = "Öl".to_string();
    let words = fields.identity();
    let at = 1 + 10 + 1 + 5 + 1;
    assert_eq!(&words[at..at + 4], &[3, 0xc3, 0x96, 0x6c]);
}

#[test]
fn identity_of_a_wide_mantissa_has_two_halves() {
    let mut fields = sample();
    fields.maker_fee = Rate::new((1i128 << 64) + 7, 1).unwrap();
    let words = fields.identity();
    let at = 1 + 10 + 1 + 5 + 1 + 1 + 2 + 2 + 1 + 3 + 1 + 3 + 4 + 4;
    assert_eq!(&words[at..at + 4], &[1, 0, 7, 1]);
}

#[test]
fn equal_contracts_have_equal_hashes() {
    let a = contract(sample());
    let b = contract(sample());
    assert_eq!(a, b);
    assert_eq!(a.identity_hash(), b.identity_hash());
    let c = a.clone();
    assert_eq!(a, c);
    assert_eq!(a.identity_hash(), c.identity_hash());
}

#[test]
fn decimal_fields_are_compared_by_value() {
    let a = contract(sample());
    let mut fields = sample();
    fields.multiplier = Quantity::parse("50.00").unwrap();
    fields.lot_size = Some(Quantity::parse("1.0").unwrap());
    fields.max_price = Some(Price::parse("-1.500").unwrap());
    fields.margin_init = Rate::new(50, 3).unwrap();
    let b = contract(fields);
    assert_eq!(a, b);
    assert_eq!(a.identity_hash(), b.identity_hash());
    assert_eq!(a.fields().identity(), b.fields().identity());
}

#[test]
fn a_difference_in_any_field_makes_contracts_unequal() {
    let a = contract(sample());
    let mut changed: Vec<ContractFields> = Vec::new();
    let mut f = sample();
    f.id = InstrumentId::new("ESZ21", "GLBX").unwrap();
    changed.push(f);
    let mut f = sample();
    f.raw_symbol = "ESZ1".to_string();
    changed.push(f);
    let mut f = sample();
    f.asset_class = AssetClass::Equity;
    changed.push(f);
    let mut f = sample();
    f.underlying = "NQ".to_string();
    changed.push(f);
    let mut f = sample();
    f.activation_ns = 0;
    changed.push(f);
    let mut f = sample();
    f.expiration_ns = 3;
    changed.push(f);
    let mut f = sample();
    f.currency = Currency::new("EUR").unwrap();
    changed.push(f);
    let mut f = sample();
    f.price_precision = 1;
    f.price_increment = Price::parse("0.1").unwrap();
    changed.push(f);
    let mut f = sample();
    f.price_increment = Price::parse("0.05").unwrap();
    changed.push(f);
    let mut f = sample();
    f.margin_init = Rate::new(6, 2).unwrap();
    changed.push(f);
    let mut f = sample();
    f.margin_maint = Rate::new(4, 2).unwrap();
    changed.push(f);
    let mut f = sample();
    f.maker_fee = Rate::new(-1, 3).unwrap();
    changed.push(f);
    let mut f = sample();
    f.taker_fee = Rate::new(2, 3).unwrap();
    changed.push(f);
    let mut f = sample();
    f.multiplier = Quantity::parse("5").unwrap();
    changed.push(f);
    let mut f = sample();
    f.lot_size = None;
    changed.push(f);
    let mut f = sample();
    f.max_quantity = Some(Quantity::parse("9").unwrap());
    changed.push(f);
    let mut f = sample();
    f.min_quantity = Some(Quantity::parse("0").unwrap());
    changed.push(f);
    let mut f = sample();
    f.max_price = Some(Price::parse("1.5").unwrap());
    changed.push(f);
    let mut f = sample();
    f.min_price = Some(Price::parse("-1.5").unwrap());
    changed.push(f);
    assert_eq!(changed.len(), 19);
    for fields in changed {
        let b = contract(fields);
        assert_ne!(a, b);
        assert_ne!(a.fields().identity(), b.fields().identity());
    }
}

#[test]
fn absent_and_zero_are_told_apart() {
    let mut present = sample();
    present.min_quantity = Some(Quantity::parse("0").unwrap());
    let mut absent = sample();
    absent.min_quantity = None;
    assert_ne!(contract(present.clone()), contract(absent.clone()));
    assert_ne!(present.identity(), absent.identity());
}
