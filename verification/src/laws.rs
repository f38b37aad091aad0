//! What holds of every contract: laws of the rules, of the mapping and of
//! equality, proved once and for all.

use crate::codec::{accepts, agrees, entry, export, field_error, imported};
use crate::contract::FuturesContract;
use crate::error::{Field, ImportError, ValidationError};
use crate::fields::FieldsView;
use crate::identity::{hash_words, identity_words, same_value};
use crate::mapping::ValueView;
use vstd::prelude::*;
use vstd::std_specs::cmp::PartialEqSpec;

verus! {

/// The error that the constructor reports is a rule that the fields break,
/// and no rule that is checked before it is broken. Where it reports none,
/// no rule is broken.
pub proof fn lemma_first_violation(v: FieldsView)
    ensures
        match v.first_violation() {
            Some(e) => v.violates(e) && forall|earlier: ValidationError|
                earlier.order() < e.order() ==> !v.violates(earlier),
            None => forall|e: ValidationError| !v.violates(e),
        },
{
}

/// A field set that breaks no rule is accepted: the constructor has no
/// error to report for it.
pub proof fn lemma_valid_accepted(v: FieldsView)
    requires
        forall|e: ValidationError| !v.violates(e),
    ensures
        v.first_violation() is None,
{
}

/// A field set that breaks exactly one rule is refused with that rule, and
/// so with the field that the rule names.
pub proof fn lemma_single_violation(v: FieldsView, e: ValidationError)
    requires
        v.violates(e),
        forall|other: ValidationError| other != e ==> !v.violates(other),
    ensures
        v.first_violation() == Some(e),
{
}

/// The mapping of a field set holds the entry of every field under its
/// key, and no key but those of the fields.
pub proof fn lemma_export_entries(v: FieldsView)
    ensures
        agrees(export(v), v),
        forall|key: Seq<char>| #[trigger]
            export(v).contains_key(key) ==> exists|f: Field| f.key_text() == key,
{
    assert forall|a: Field, b: Field| a.key_text() == b.key_text() implies a == b by {
        a.lemma_key_unique(b);
    }
    assert forall|key: Seq<char>| #[trigger] export(v).contains_key(key) implies exists|f: Field|
        f.key_text() == key by {
        if key == Field::Type.key_text() {
        } else if key == Field::Id.key_text() {
        } else if key == Field::RawSymbol.key_text() {
        } else if key == Field::AssetClass.key_text() {
        } else if key == Field::Underlying.key_text() {
        } else if key == Field::ActivationNs.key_text() {
        } else if key == Field::ExpirationNs.key_text() {
        } else if key == Field::Currency.key_text() {
        } else if key == Field::PricePrecision.key_text() {
        } else if key == Field::PriceIncrement.key_text() {
        } else if key == Field::MarginInit.key_text() {
        } else if key == Field::MarginMaint.key_text() {
        } else if key == Field::MakerFee.key_text() {
        } else if key == Field::TakerFee.key_text() {
        } else if key == Field::Multiplier.key_text() {
        } else if key == Field::LotSize.key_text() {
        } else if key == Field::MaxQuantity.key_text() {
        } else if key == Field::MinQuantity.key_text() {
        } else if key == Field::MaxPrice.key_text() {
        } else if key == Field::MinPrice.key_text() {
        } else {
        }
    }
}

/// The entry of every field of a well-formed field set is accepted on
/// import.
pub proof fn lemma_entries_accepted(v: FieldsView, f: Field)
    requires
        v.parts_wf(),
    ensures
        accepts(f, entry(v, f)),
{
    match f {
        Field::AssetClass => {
            assert(v.asset_class.name_text() == v.asset_class.name_text());
        },
        Field::PriceIncrement => {
            assert(v.price_increment.text() == v.price_increment.text());
        },
        Field::Multiplier => {
            assert(v.multiplier.text() == v.multiplier.text());
        },
        Field::LotSize => {
            if let Some(q) = v.lot_size {
                assert(q.text() == q.text());
            }
        },
        Field::MaxQuantity => {
            if let Some(q) = v.max_quantity {
                assert(q.text() == q.text());
            }
        },
        Field::MinQuantity => {
            if let Some(q) = v.min_quantity {
                assert(q.text() == q.text());
            }
        },
        Field::MaxPrice => {
            if let Some(p) = v.max_price {
                assert(p.text() == p.text());
            }
        },
        Field::MinPrice => {
            if let Some(p) = v.min_price {
                assert(p.text() == p.text());
            }
        },
        _ => {},
    }
}

proof fn lemma_agrees_at(m: Map<Seq<char>, ValueView>, v: FieldsView, f: Field)
    requires
        agrees(m, v),
    ensures
        m.contains_key(f.key_text()),
        m[f.key_text()] == entry(v, f),
{
}

proof fn lemma_same_entry(m: Map<Seq<char>, ValueView>, a: FieldsView, b: FieldsView, f: Field)
    requires
        agrees(m, a),
        agrees(m, b),
    ensures
        entry(a, f) == entry(b, f),
{
    lemma_agrees_at(m, a, f);
    lemma_agrees_at(m, b, f);
}

/// A mapping is the mapping of at most one well-formed field set: reading
/// is the inverse of writing.
pub proof fn lemma_agrees_unique(m: Map<Seq<char>, ValueView>, a: FieldsView, b: FieldsView)
    requires
        a.parts_wf(),
        b.parts_wf(),
        agrees(m, a),
        agrees(m, b),
    ensures
        a == b,
{
    lemma_same_entry(m, a, b, Field::Id);
    lemma_same_entry(m, a, b, Field::RawSymbol);
    lemma_same_entry(m, a, b, Field::AssetClass);
    lemma_same_entry(m, a, b, Field::Underlying);
    lemma_same_entry(m, a, b, Field::ActivationNs);
    lemma_same_entry(m, a, b, Field::ExpirationNs);
    lemma_same_entry(m, a, b, Field::Currency);
    lemma_same_entry(m, a, b, Field::PricePrecision);
    lemma_same_entry(m, a, b, Field::PriceIncrement);
    lemma_same_entry(m, a, b, Field::MarginInit);
    lemma_same_entry(m, a, b, Field::MarginMaint);
    lemma_same_entry(m, a, b, Field::MakerFee);
    lemma_same_entry(m, a, b, Field::TakerFee);
    lemma_same_entry(m, a, b, Field::Multiplier);
    lemma_same_entry(m, a, b, Field::LotSize);
    lemma_same_entry(m, a, b, Field::MaxQuantity);
    lemma_same_entry(m, a, b, Field::MinQuantity);
    lemma_same_entry(m, a, b, Field::MaxPrice);
    lemma_same_entry(m, a, b, Field::MinPrice);
    a.asset_class.lemma_name_unique(b.asset_class);
    a.price_increment.lemma_text_unique(b.price_increment);
    a.multiplier.lemma_text_unique(b.multiplier);
    if let (Some(x), Some(y)) = (a.lot_size, b.lot_size) {
        x.lemma_text_unique(y);
    }
    if let (Some(x), Some(y)) = (a.max_quantity, b.max_quantity) {
        x.lemma_text_unique(y);
    }
    if let (Some(x), Some(y)) = (a.min_quantity, b.min_quantity) {
        x.lemma_text_unique(y);
    }
    if let (Some(x), Some(y)) = (a.max_price, b.max_price) {
        x.lemma_text_unique(y);
    }
    if let (Some(x), Some(y)) = (a.min_price, b.min_price) {
        x.lemma_text_unique(y);
    }
}

/// Round trip: importing the mapping of a valid field set succeeds, and
/// gives a contract with exactly those fields.
pub proof fn lemma_round_trip(v: FieldsView, r: Result<FuturesContract, ImportError>)
    requires
        v.valid(),
        imported(export(v), r),
    ensures
        r matches Ok(c) && c@ == v,
{
    let m = export(v);
    lemma_export_entries(v);
    assert forall|f: Field| (#[trigger] field_error(m, f)) is None by {
        lemma_entries_accepted(v, f);
        lemma_agrees_at(m, v, f);
    }
    match r {
        Ok(c) => {
            lemma_agrees_unique(m, c@, v);
        },
        Err(ImportError::Schema(e)) => {
            assert(field_error(m, e.field()) is None);
        },
        Err(ImportError::Validation(e)) => {
            let w = choose|w: FieldsView|
                w.parts_wf() && #[trigger] agrees(m, w) && w.first_violation() == Some(e);
            lemma_agrees_unique(m, w, v);
        },
    }
}

/// Importing decides: a mapping has one outcome. Two imports of the same
/// mapping give the same error, or contracts with the same fields.
pub proof fn lemma_import_decides(
    m: Map<Seq<char>, ValueView>,
    r: Result<FuturesContract, ImportError>,
    s: Result<FuturesContract, ImportError>,
)
    requires
        imported(m, r),
        imported(m, s),
    ensures
        match (r, s) {
            (Ok(c), Ok(d)) => c@ == d@,
            (Err(e), Err(f)) => e == f,
            _ => false,
        },
{
    match (r, s) {
        (Ok(c), Ok(d)) => {
            lemma_agrees_unique(m, c@, d@);
        },
        (Err(ImportError::Schema(e)), Err(ImportError::Schema(f))) => {
            assert(field_error(m, e.field()) is Some);
            assert(field_error(m, f.field()) is Some);
            assert(e.field().index() == f.field().index());
        },
        (Err(ImportError::Schema(e)), _) => {
            assert(field_error(m, e.field()) is Some);
        },
        (_, Err(ImportError::Schema(f))) => {
            assert(field_error(m, f.field()) is Some);
        },
        (Err(ImportError::Validation(e)), Err(ImportError::Validation(f))) => {
            let v = choose|v: FieldsView|
                v.parts_wf() && #[trigger] agrees(m, v) && v.first_violation() == Some(e);
            let w = choose|w: FieldsView|
                w.parts_wf() && #[trigger] agrees(m, w) && w.first_violation() == Some(f);
            lemma_agrees_unique(m, v, w);
        },
        (Err(ImportError::Validation(e)), Ok(d)) => {
            let v = choose|v: FieldsView|
                v.parts_wf() && #[trigger] agrees(m, v) && v.first_violation() == Some(e);
            lemma_agrees_unique(m, v, d@);
        },
        (Ok(c), Err(ImportError::Validation(f))) => {
            let w = choose|w: FieldsView|
                w.parts_wf() && #[trigger] agrees(m, w) && w.first_violation() == Some(f);
            lemma_agrees_unique(m, w, c@);
        },
    }
}

/// An absent optional field is exported as an explicit null under its key,
/// and importing the mapping gives the field back absent.
pub proof fn lemma_absent_round_trip(v: FieldsView, r: Result<FuturesContract, ImportError>)
    requires
        v.valid(),
        imported(export(v), r),
    ensures
        v.lot_size is None ==> export(v)[Field::LotSize.key_text()] == ValueView::Null,
        v.max_quantity is None ==> export(v)[Field::MaxQuantity.key_text()] == ValueView::Null,
        v.min_quantity is None ==> export(v)[Field::MinQuantity.key_text()] == ValueView::Null,
        v.max_price is None ==> export(v)[Field::MaxPrice.key_text()] == ValueView::Null,
        v.min_price is None ==> export(v)[Field::MinPrice.key_text()] == ValueView::Null,
        export(v).contains_key(Field::LotSize.key_text()),
        export(v).contains_key(Field::MaxQuantity.key_text()),
        export(v).contains_key(Field::MinQuantity.key_text()),
        export(v).contains_key(Field::MaxPrice.key_text()),
        export(v).contains_key(Field::MinPrice.key_text()),
        r matches Ok(c) && c@.lot_size == v.lot_size && c@.max_quantity == v.max_quantity
            && c@.min_quantity == v.min_quantity && c@.max_price == v.max_price && c@.min_price
            == v.min_price,
{
    lemma_round_trip(v, r);
    lemma_export_entries(v);
    lemma_agrees_at(export(v), v, Field::LotSize);
    lemma_agrees_at(export(v), v, Field::MaxQuantity);
    lemma_agrees_at(export(v), v, Field::MinQuantity);
    lemma_agrees_at(export(v), v, Field::MaxPrice);
    lemma_agrees_at(export(v), v, Field::MinPrice);
}

/// An imported contract exports to what the mapping held under the keys of
/// the fields.
pub proof fn lemma_import_export(m: Map<Seq<char>, ValueView>, c: FuturesContract, f: Field)
    requires
        imported(m, Ok(c)),
    ensures
        m.contains_key(f.key_text()),
        export(c@)[f.key_text()] == m[f.key_text()],
{
    lemma_export_entries(c@);
    lemma_agrees_at(export(c@), c@, f);
    lemma_agrees_at(m, c@, f);
}

/// Equal contracts have equal hashes.
pub proof fn lemma_equal_hash(a: FuturesContract, b: FuturesContract)
    requires
        a.eq_spec(&b),
    ensures
        hash_words(identity_words(a@)) == hash_words(identity_words(b@)),
{
    crate::identity::lemma_same_value_same_identity(a@, b@);
}

/// Equality of contracts is an equivalence.
pub proof fn lemma_equality(a: FieldsView, b: FieldsView, c: FieldsView)
    ensures
        same_value(a, a),
        same_value(a, b) ==> same_value(b, a),
        same_value(a, b) && same_value(b, c) ==> same_value(a, c),
{
}

} // verus!
