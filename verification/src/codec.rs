//! The canonical mapping of a futures contract: one entry for the type tag
//! and one for each field, under fixed keys.
//!
//! Texts, identifiers, asset classes and currencies are written as strings,
//! timestamps and the price precision as integers, prices and quantities as
//! their exact decimal text, rates as decimal rates, and an absent optional
//! field as an explicit null. Nothing is lost on the way: a rate loses
//! digits only where a host goes on to show it as a float.

use crate::contract::FuturesContract;
use crate::error::{Field, ImportError, SchemaError};
use crate::fields::{price_wf, quantity_wf, ContractFields, FieldsView};
use crate::identifiers::{is_instrument_id, InstrumentId};
use crate::instrument::{is_currency_code, AssetClass, Currency};
use crate::mapping::{Mapping, Value, ValueView};
use crate::price::{Price, Quantity};
use crate::rate::Rate;
use crate::text::same_text;
use vstd::prelude::*;

verus! {

/// The tag that marks a mapping as that of a futures contract.
pub open spec fn type_tag() -> Seq<char> {
    "FuturesContract"@
}

/// The entry of an optional quantity: its text, or null.
pub open spec fn quantity_entry(q: Option<Quantity>) -> ValueView {
    match q {
        Some(x) => ValueView::Text(x.text()),
        None => ValueView::Null,
    }
}

/// The entry of an optional price: its text, or null.
pub open spec fn price_entry(p: Option<Price>) -> ValueView {
    match p {
        Some(x) => ValueView::Text(x.text()),
        None => ValueView::Null,
    }
}

/// The entry that stands under the key of `f` in the mapping of `v`.
pub open spec fn entry(v: FieldsView, f: Field) -> ValueView {
    match f {
        Field::Type => ValueView::Text(type_tag()),
        Field::Id => ValueView::Text(v.id),
        Field::RawSymbol => ValueView::Text(v.raw_symbol),
        Field::AssetClass => ValueView::Text(v.asset_class.name_text()),
        Field::Underlying => ValueView::Text(v.underlying),
        Field::ActivationNs => ValueView::Integer(v.activation_ns),
        Field::ExpirationNs => ValueView::Integer(v.expiration_ns),
        Field::Currency => ValueView::Text(v.currency),
        Field::PricePrecision => ValueView::Integer(v.price_precision as u64),
        Field::PriceIncrement => ValueView::Text(v.price_increment.text()),
        Field::MarginInit => ValueView::Rate(v.margin_init),
        Field::MarginMaint => ValueView::Rate(v.margin_maint),
        Field::MakerFee => ValueView::Rate(v.maker_fee),
        Field::TakerFee => ValueView::Rate(v.taker_fee),
        Field::Multiplier => ValueView::Text(v.multiplier.text()),
        Field::LotSize => quantity_entry(v.lot_size),
        Field::MaxQuantity => quantity_entry(v.max_quantity),
        Field::MinQuantity => quantity_entry(v.min_quantity),
        Field::MaxPrice => price_entry(v.max_price),
        Field::MinPrice => price_entry(v.min_price),
    }
}

/// The mapping of a field set: the entry of every field under its key, and
/// nothing else.
pub open spec fn export(v: FieldsView) -> Map<Seq<char>, ValueView> {
    Map::empty().insert(Field::Type.key_text(), entry(v, Field::Type)).insert(
        Field::Id.key_text(),
        entry(v, Field::Id),
    ).insert(Field::RawSymbol.key_text(), entry(v, Field::RawSymbol)).insert(
        Field::AssetClass.key_text(),
        entry(v, Field::AssetClass),
    ).insert(Field::Underlying.key_text(), entry(v, Field::Underlying)).insert(
        Field::ActivationNs.key_text(),
        entry(v, Field::ActivationNs),
    ).insert(Field::ExpirationNs.key_text(), entry(v, Field::ExpirationNs)).insert(
        Field::Currency.key_text(),
        entry(v, Field::Currency),
    ).insert(Field::PricePrecision.key_text(), entry(v, Field::PricePrecision)).insert(
        Field::PriceIncrement.key_text(),
        entry(v, Field::PriceIncrement),
    ).insert(Field::MarginInit.key_text(), entry(v, Field::MarginInit)).insert(
        Field::MarginMaint.key_text(),
        entry(v, Field::MarginMaint),
    ).insert(Field::MakerFee.key_text(), entry(v, Field::MakerFee)).insert(
        Field::TakerFee.key_text(),
        entry(v, Field::TakerFee),
    ).insert(Field::Multiplier.key_text(), entry(v, Field::Multiplier)).insert(
        Field::LotSize.key_text(),
        entry(v, Field::LotSize),
    ).insert(Field::MaxQuantity.key_text(), entry(v, Field::MaxQuantity)).insert(
        Field::MinQuantity.key_text(),
        entry(v, Field::MinQuantity),
    ).insert(Field::MaxPrice.key_text(), entry(v, Field::MaxPrice)).insert(
        Field::MinPrice.key_text(),
        entry(v, Field::MinPrice),
    )
}

/// Whether `t` is the text of a price.
pub open spec fn is_price_text(t: Seq<char>) -> bool {
    exists|p: Price| p.wf() && #[trigger] p.text() == t
}

/// Whether `t` is the text of a quantity.
pub open spec fn is_quantity_text(t: Seq<char>) -> bool {
    exists|q: Quantity| q.wf() && #[trigger] q.text() == t
}

/// Whether `t` is the name of an asset class.
pub open spec fn is_asset_class_name(t: Seq<char>) -> bool {
    exists|a: AssetClass| #[trigger] a.name_text() == t
}

/// Whether `value` can stand under the key of `f`: it is of the kind that
/// the field is written as, and can be read as a value of the field's type.
pub open spec fn accepts(f: Field, value: ValueView) -> bool {
    match f {
        Field::Type => value == ValueView::Text(type_tag()),
        Field::Id => value matches ValueView::Text(t) && is_instrument_id(t),
        Field::RawSymbol | Field::Underlying => value is Text,
        Field::AssetClass => value matches ValueView::Text(t) && is_asset_class_name(t),
        Field::ActivationNs | Field::ExpirationNs => value is Integer,
        Field::Currency => value matches ValueView::Text(t) && is_currency_code(t),
        Field::PricePrecision => value matches ValueView::Integer(n) && n <= 255,
        Field::PriceIncrement => value matches ValueView::Text(t) && is_price_text(t),
        Field::MarginInit | Field::MarginMaint | Field::MakerFee | Field::TakerFee => value matches ValueView::Rate(
            r,
        ) && r.wf(),
        Field::Multiplier => value matches ValueView::Text(t) && is_quantity_text(t),
        Field::LotSize | Field::MaxQuantity | Field::MinQuantity => value is Null || (
        value matches ValueView::Text(t) && is_quantity_text(t)),
        Field::MaxPrice | Field::MinPrice => value is Null || (value matches ValueView::Text(t)
            && is_price_text(t)),
    }
}

/// What is wrong with the entry of `f` in `m`, if anything: it is missing,
/// or it is not accepted.
pub open spec fn field_error(m: Map<Seq<char>, ValueView>, f: Field) -> Option<SchemaError> {
    if !m.contains_key(f.key_text()) {
        Some(SchemaError::MissingKey(f))
    } else if !accepts(f, m[f.key_text()]) {
        Some(SchemaError::Malformed(f))
    } else {
        None
    }
}

/// Whether `m` holds, under the key of every field, the entry that the
/// field has in the mapping of `v`. Other keys of `m` play no part.
pub open spec fn agrees(m: Map<Seq<char>, ValueView>, v: FieldsView) -> bool {
    forall|f: Field|
        #![trigger f.key_text()]
        m.contains_key(f.key_text()) && m[f.key_text()] == entry(v, f)
}

/// Whether `e` is the schema error of `m`: the error of the first field, in
/// the canonical order, whose entry is missing or not accepted.
pub open spec fn first_schema_error(m: Map<Seq<char>, ValueView>, e: SchemaError) -> bool {
    &&& field_error(m, e.field()) == Some(e)
    &&& forall|g: Field| g.index() < e.field().index() ==> (#[trigger] field_error(m, g)) is None
}

/// Whether every field has an accepted entry in `m`.
pub open spec fn well_shaped(m: Map<Seq<char>, ValueView>) -> bool {
    forall|f: Field| (#[trigger] field_error(m, f)) is None
}

/// What importing `m` may result in.
///
/// A mapping in which some field has no accepted entry gives the schema
/// error of the first such field. Otherwise the mapping is that of exactly
/// one field set; where that breaks a rule, the first rule it breaks is the
/// error, and where it breaks none, the result is the contract of it.
pub open spec fn imported(
    m: Map<Seq<char>, ValueView>,
    r: Result<FuturesContract, ImportError>,
) -> bool {
    match r {
        Ok(c) => well_shaped(m) && agrees(m, c@) && c@.valid(),
        Err(ImportError::Schema(e)) => first_schema_error(m, e),
        Err(ImportError::Validation(e)) => {
            &&& well_shaped(m)
            &&& exists|v: FieldsView|
                v.parts_wf() && #[trigger] agrees(m, v) && v.first_violation() == Some(e)
        },
    }
}

fn quantity_value(q: &Option<Quantity>) -> (r: Value)
    ensures
        r@ == quantity_entry(*q),
{
    match q {
        Some(x) => Value::Text(x.to_string()),
        None => Value::Null,
    }
}

fn price_value(p: &Option<Price>) -> (r: Value)
    ensures
        r@ == price_entry(*p),
{
    match p {
        Some(x) => Value::Text(x.to_string()),
        None => Value::Null,
    }
}

fn lookup<'a>(m: &'a Mapping, f: Field) -> (r: Option<&'a Value>)
    ensures
        match r {
            Some(v) => m@.contains_key(f.key_text()) && m@[f.key_text()] == v@,
            None => !m@.contains_key(f.key_text()),
        },
{
    m.get(f.key())
}

/// Whether reading the text under the key of `f` failed with `e` for the
/// reason that `e` gives.
spec fn no_text(m: Map<Seq<char>, ValueView>, f: Field, e: SchemaError) -> bool {
    if m.contains_key(f.key_text()) {
        e == SchemaError::Malformed(f) && !(m[f.key_text()] is Text)
    } else {
        e == SchemaError::MissingKey(f)
    }
}

fn read_text<'a>(m: &'a Mapping, f: Field) -> (r: Result<&'a String, SchemaError>)
    ensures
        match r {
            Ok(s) => m@.contains_key(f.key_text()) && m@[f.key_text()] == ValueView::Text(s@),
            Err(e) => no_text(m@, f, e),
        },
{
    match lookup(m, f) {
        None => Err(SchemaError::MissingKey(f)),
        Some(Value::Text(s)) => Ok(s),
        Some(_) => Err(SchemaError::Malformed(f)),
    }
}

fn read_type(m: &Mapping) -> (r: Result<(), SchemaError>)
    ensures
        match r {
            Ok(_) => field_error(m@, Field::Type) is None,
            Err(e) => field_error(m@, Field::Type) == Some(e),
        },
{
    match read_text(m, Field::Type) {
        Err(e) => Err(e),
        Ok(s) => {
            if same_text(s.as_str(), "FuturesContract") {
                Ok(())
            } else {
                Err(SchemaError::Malformed(Field::Type))
            }
        },
    }
}

fn read_id(m: &Mapping) -> (r: Result<InstrumentId, SchemaError>)
    ensures
        match r {
            Ok(id) => field_error(m@, Field::Id) is None && m@[Field::Id.key_text()]
                == ValueView::Text(id@),
            Err(e) => field_error(m@, Field::Id) == Some(e),
        },
{
    match read_text(m, Field::Id) {
        Err(e) => Err(e),
        Ok(s) => match InstrumentId::parse(s.as_str()) {
            Some(id) => Ok(id),
            None => Err(SchemaError::Malformed(Field::Id)),
        },
    }
}

fn read_plain(m: &Mapping, f: Field) -> (r: Result<String, SchemaError>)
    requires
        f == Field::RawSymbol || f == Field::Underlying,
    ensures
        match r {
            Ok(s) => field_error(m@, f) is None && m@[f.key_text()] == ValueView::Text(s@),
            Err(e) => field_error(m@, f) == Some(e),
        },
{
    match read_text(m, f) {
        Err(e) => Err(e),
        Ok(s) => Ok(s.clone()),
    }
}

fn read_asset_class(m: &Mapping) -> (r: Result<AssetClass, SchemaError>)
    ensures
        match r {
            Ok(a) => field_error(m@, Field::AssetClass) is None && m@[Field::AssetClass.key_text()]
                == ValueView::Text(a.name_text()),
            Err(e) => field_error(m@, Field::AssetClass) == Some(e),
        },
{
    match read_text(m, Field::AssetClass) {
        Err(e) => Err(e),
        Ok(s) => match AssetClass::from_name(s.as_str()) {
            Some(a) => Ok(a),
            None => Err(SchemaError::Malformed(Field::AssetClass)),
        },
    }
}

fn read_currency(m: &Mapping) -> (r: Result<Currency, SchemaError>)
    ensures
        match r {
            Ok(c) => field_error(m@, Field::Currency) is None && m@[Field::Currency.key_text()]
                == ValueView::Text(c@),
            Err(e) => field_error(m@, Field::Currency) == Some(e),
        },
{
    match read_text(m, Field::Currency) {
        Err(e) => Err(e),
        Ok(s) => match Currency::new(s.as_str()) {
            Some(c) => Ok(c),
            None => Err(SchemaError::Malformed(Field::Currency)),
        },
    }
}

fn read_integer(m: &Mapping, f: Field) -> (r: Result<u64, SchemaError>)
    requires
        f == Field::ActivationNs || f == Field::ExpirationNs || f == Field::PricePrecision,
    ensures
        match r {
            Ok(n) => m@.contains_key(f.key_text()) && m@[f.key_text()] == ValueView::Integer(n)
                && (f != Field::PricePrecision ==> field_error(m@, f) is None),
            Err(e) => field_error(m@, f) == Some(e),
        },
{
    match lookup(m, f) {
        None => Err(SchemaError::MissingKey(f)),
        Some(Value::Integer(n)) => Ok(*n),
        Some(_) => Err(SchemaError::Malformed(f)),
    }
}

fn read_precision(m: &Mapping) -> (r: Result<u8, SchemaError>)
    ensures
        match r {
            Ok(n) => field_error(m@, Field::PricePrecision) is None
                && m@[Field::PricePrecision.key_text()] == ValueView::Integer(n as u64),
            Err(e) => field_error(m@, Field::PricePrecision) == Some(e),
        },
{
    match read_integer(m, Field::PricePrecision) {
        Err(e) => Err(e),
        Ok(n) => {
            if n <= 255 {
                Ok(n as u8)
            } else {
                Err(SchemaError::Malformed(Field::PricePrecision))
            }
        },
    }
}

fn read_rate(m: &Mapping, f: Field) -> (r: Result<Rate, SchemaError>)
    requires
        f == Field::MarginInit || f == Field::MarginMaint || f == Field::MakerFee || f
            == Field::TakerFee,
    ensures
        match r {
            Ok(x) => field_error(m@, f) is None && m@[f.key_text()] == ValueView::Rate(x),
            Err(e) => field_error(m@, f) == Some(e),
        },
{
    match lookup(m, f) {
        None => Err(SchemaError::MissingKey(f)),
        Some(Value::Rate(x)) => {
            proof {
                use_type_invariant(x);
            }
            Ok(*x)
        },
        Some(_) => Err(SchemaError::Malformed(f)),
    }
}

fn read_price(m: &Mapping) -> (r: Result<Price, SchemaError>)
    ensures
        match r {
            Ok(p) => field_error(m@, Field::PriceIncrement) is None
                && m@[Field::PriceIncrement.key_text()] == ValueView::Text(p.text()) && p.wf(),
            Err(e) => field_error(m@, Field::PriceIncrement) == Some(e),
        },
{
    match read_text(m, Field::PriceIncrement) {
        Err(e) => Err(e),
        Ok(s) => match Price::parse(s.as_str()) {
            Some(p) => Ok(p),
            None => Err(SchemaError::Malformed(Field::PriceIncrement)),
        },
    }
}

fn read_quantity(m: &Mapping) -> (r: Result<Quantity, SchemaError>)
    ensures
        match r {
            Ok(q) => field_error(m@, Field::Multiplier) is None && m@[Field::Multiplier.key_text()]
                == ValueView::Text(q.text()) && q.wf(),
            Err(e) => field_error(m@, Field::Multiplier) == Some(e),
        },
{
    match read_text(m, Field::Multiplier) {
        Err(e) => Err(e),
        Ok(s) => match Quantity::parse(s.as_str()) {
            Some(q) => Ok(q),
            None => Err(SchemaError::Malformed(Field::Multiplier)),
        },
    }
}

fn read_optional_quantity(m: &Mapping, f: Field) -> (r: Result<Option<Quantity>, SchemaError>)
    requires
        f == Field::LotSize || f == Field::MaxQuantity || f == Field::MinQuantity,
    ensures
        match r {
            Ok(q) => field_error(m@, f) is None && m@[f.key_text()] == quantity_entry(q)
                && quantity_wf(q),
            Err(e) => field_error(m@, f) == Some(e),
        },
{
    match lookup(m, f) {
        None => Err(SchemaError::MissingKey(f)),
        Some(Value::Null) => Ok(None),
        Some(Value::Text(s)) => match Quantity::parse(s.as_str()) {
            Some(q) => Ok(Some(q)),
            None => Err(SchemaError::Malformed(f)),
        },
        Some(_) => Err(SchemaError::Malformed(f)),
    }
}

fn read_optional_price(m: &Mapping, f: Field) -> (r: Result<Option<Price>, SchemaError>)
    requires
        f == Field::MaxPrice || f == Field::MinPrice,
    ensures
        match r {
            Ok(p) => field_error(m@, f) is None && m@[f.key_text()] == price_entry(p) && price_wf(
                p,
            ),
            Err(e) => field_error(m@, f) == Some(e),
        },
{
    match lookup(m, f) {
        None => Err(SchemaError::MissingKey(f)),
        Some(Value::Null) => Ok(None),
        Some(Value::Text(s)) => match Price::parse(s.as_str()) {
            Some(p) => Ok(Some(p)),
            None => Err(SchemaError::Malformed(f)),
        },
        Some(_) => Err(SchemaError::Malformed(f)),
    }
}

impl ContractFields {
    /// Reads a field set from a mapping. Every field must have an accepted
    /// entry under its key; the fields are read in the canonical order, and
    /// the first one without such an entry is reported. Keys that are not
    /// those of a field are passed over.
    pub fn from_mapping(m: &Mapping) -> (r: Result<ContractFields, SchemaError>)
        ensures
            match r {
                Ok(fields) => well_shaped(m@) && agrees(m@, fields@) && fields@.parts_wf(),
                Err(e) => first_schema_error(m@, e),
            },
    {
        match read_type(m) {
            Err(e) => {
                return Err(e);
            },
            Ok(_) => {},
        }
        let id = match read_id(m) {
            Err(e) => {
                return Err(e);
            },
            Ok(x) => x,
        };
        let raw_symbol = match read_plain(m, Field::RawSymbol) {
            Err(e) => {
                return Err(e);
            },
            Ok(x) => x,
        };
        let asset_class = match read_asset_class(m) {
            Err(e) => {
                return Err(e);
            },
            Ok(x) => x,
        };
        let underlying = match read_plain(m, Field::Underlying) {
            Err(e) => {
                return Err(e);
            },
            Ok(x) => x,
        };
        let activation_ns = match read_integer(m, Field::ActivationNs) {
            Err(e) => {
                return Err(e);
            },
            Ok(x) => x,
        };
        let expiration_ns = match read_integer(m, Field::ExpirationNs) {
            Err(e) => {
                return Err(e);
            },
            Ok(x) => x,
        };
        let currency = match read_currency(m) {
            Err(e) => {
                return Err(e);
            },
            Ok(x) => x,
        };
        let price_precision = match read_precision(m) {
            Err(e) => {
                return Err(e);
            },
            Ok(x) => x,
        };
        let price_increment = match read_price(m) {
            Err(e) => {
                return Err(e);
            },
            Ok(x) => x,
        };
        let margin_init = match read_rate(m, Field::MarginInit) {
            Err(e) => {
                return Err(e);
            },
            Ok(x) => x,
        };
        let margin_maint = match read_rate(m, Field::MarginMaint) {
            Err(e) => {
                return Err(e);
            },
            Ok(x) => x,
        };
        let maker_fee = match read_rate(m, Field::MakerFee) {
            Err(e) => {
                return Err(e);
            },
            Ok(x) => x,
        };
        let taker_fee = match read_rate(m, Field::TakerFee) {
            Err(e) => {
                return Err(e);
            },
            Ok(x) => x,
        };
        let multiplier = match read_quantity(m) {
            Err(e) => {
                return Err(e);
            },
            Ok(x) => x,
        };
        let lot_size = match read_optional_quantity(m, Field::LotSize) {
            Err(e) => {
                return Err(e);
            },
            Ok(x) => x,
        };
        let max_quantity = match read_optional_quantity(m, Field::MaxQuantity) {
            Err(e) => {
                return Err(e);
            },
            Ok(x) => x,
        };
        let min_quantity = match read_optional_quantity(m, Field::MinQuantity) {
            Err(e) => {
                return Err(e);
            },
            Ok(x) => x,
        };
        let max_price = match read_optional_price(m, Field::MaxPrice) {
            Err(e) => {
                return Err(e);
            },
            Ok(x) => x,
        };
        let min_price = match read_optional_price(m, Field::MinPrice) {
            Err(e) => {
                return Err(e);
            },
            Ok(x) => x,
        };
        let fields = ContractFields {
            id,
            raw_symbol,
            asset_class,
            underlying,
            activation_ns,
            expiration_ns,
            currency,
            price_precision,
            price_increment,
            margin_init,
            margin_maint,
            maker_fee,
            taker_fee,
            multiplier,
            lot_size,
            max_quantity,
            min_quantity,
            max_price,
            min_price,
        };
        fields.recall_parts();
        Ok(fields)
    }

    /// Writes the field set as a mapping: the type tag and every field
    /// under its key, an absent optional field as an explicit null.
    pub fn to_mapping(&self) -> (m: Mapping)
        ensures
            m@ == export(self@),
    {
        let mut m = Mapping::new();
        m.insert(Field::Type.key(), Value::Text("FuturesContract".to_owned()));
        m.insert(Field::Id.key(), Value::Text(self.id.to_string()));
        m.insert(Field::RawSymbol.key(), Value::Text(self.raw_symbol.clone()));
        m.insert(Field::AssetClass.key(), Value::Text(self.asset_class.name().to_owned()));
        m.insert(Field::Underlying.key(), Value::Text(self.underlying.clone()));
        m.insert(Field::ActivationNs.key(), Value::Integer(self.activation_ns));
        m.insert(Field::ExpirationNs.key(), Value::Integer(self.expiration_ns));
        m.insert(Field::Currency.key(), Value::Text(self.currency.code()));
        m.insert(Field::PricePrecision.key(), Value::Integer(self.price_precision as u64));
        m.insert(Field::PriceIncrement.key(), Value::Text(self.price_increment.to_string()));
        m.insert(Field::MarginInit.key(), Value::Rate(self.margin_init));
        m.insert(Field::MarginMaint.key(), Value::Rate(self.margin_maint));
        m.insert(Field::MakerFee.key(), Value::Rate(self.maker_fee));
        m.insert(Field::TakerFee.key(), Value::Rate(self.taker_fee));
        m.insert(Field::Multiplier.key(), Value::Text(self.multiplier.to_string()));
        m.insert(Field::LotSize.key(), quantity_value(&self.lot_size));
        m.insert(Field::MaxQuantity.key(), quantity_value(&self.max_quantity));
        m.insert(Field::MinQuantity.key(), quantity_value(&self.min_quantity));
        m.insert(Field::MaxPrice.key(), price_value(&self.max_price));
        m.insert(Field::MinPrice.key(), price_value(&self.min_price));
        m
    }
}

impl FuturesContract {
    /// Exports the contract to its canonical mapping.
    pub fn to_mapping(&self) -> (m: Mapping)
        ensures
            m@ == export(self@),
    {
        self.fields().to_mapping()
    }

    /// Imports a contract from a mapping: the fields are read from their
    /// entries and then held to the rules, as by [`FuturesContract::new`].
    pub fn from_mapping(m: &Mapping) -> (r: Result<FuturesContract, ImportError>)
        ensures
            imported(m@, r),
    {
        match ContractFields::from_mapping(m) {
            Err(e) => Err(ImportError::Schema(e)),
            Ok(fields) => {
                let ghost v = fields@;
                match FuturesContract::new(fields) {
                    Ok(c) => Ok(c),
                    Err(e) => {
                        assert(v.parts_wf() && agrees(m@, v) && v.first_violation() == Some(e));
                        Err(ImportError::Validation(e))
                    },
                }
            },
        }
    }
}

} // verus!
