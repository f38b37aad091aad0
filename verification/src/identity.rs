//! What makes two contracts the same contract, and the hash that goes with
//! it.
//!
//! Contracts are compared by value: a price of `1.0` and a price of `1.00`
//! are the same price. The identity of a contract is a list of words that
//! holds every field by its value; the hash of a contract is computed from
//! that list, so equal contracts have equal hashes.

use crate::fields::{ContractFields, FieldsView};
use crate::price::{Price, Quantity};
use crate::rate::Rate;
use vstd::prelude::*;

verus! {

/// Whether two optional quantities are both absent or of the same value.
pub open spec fn same_quantity(a: Option<Quantity>, b: Option<Quantity>) -> bool {
    match (a, b) {
        (Some(x), Some(y)) => x.raw() == y.raw(),
        (None, None) => true,
        _ => false,
    }
}

/// Whether two optional prices are both absent or of the same value.
pub open spec fn same_price(a: Option<Price>, b: Option<Price>) -> bool {
    match (a, b) {
        (Some(x), Some(y)) => x.raw() == y.raw(),
        (None, None) => true,
        _ => false,
    }
}

/// Whether two field sets are equal, field by field and by value.
pub open spec fn same_value(a: FieldsView, b: FieldsView) -> bool {
    &&& a.id == b.id
    &&& a.raw_symbol == b.raw_symbol
    &&& a.asset_class == b.asset_class
    &&& a.underlying == b.underlying
    &&& a.activation_ns == b.activation_ns
    &&& a.expiration_ns == b.expiration_ns
    &&& a.currency == b.currency
    &&& a.price_precision == b.price_precision
    &&& a.price_increment.raw() == b.price_increment.raw()
    &&& a.margin_init == b.margin_init
    &&& a.margin_maint == b.margin_maint
    &&& a.maker_fee == b.maker_fee
    &&& a.taker_fee == b.taker_fee
    &&& a.multiplier.raw() == b.multiplier.raw()
    &&& same_quantity(a.lot_size, b.lot_size)
    &&& same_quantity(a.max_quantity, b.max_quantity)
    &&& same_quantity(a.min_quantity, b.min_quantity)
    &&& same_price(a.max_price, b.max_price)
    &&& same_price(a.min_price, b.min_price)
}

/// Seed of the hash.
pub const HASH_SEED: u64 = 0xcbf2_9ce4_8422_2325;

/// Multiplier of the hash.
pub const HASH_PRIME: u64 = 0x0000_0100_0000_01b3;

/// The hash of a list of words: each word in turn is mixed into the state
/// and the state multiplied by a prime, wrapping at 64 bits.
pub open spec fn hash_words(words: Seq<u64>) -> u64
    decreases words.len(),
{
    if words.len() == 0 {
        HASH_SEED
    } else {
        (hash_words(words.drop_last()) ^ words.last()).wrapping_mul(HASH_PRIME)
    }
}

/// The words of a text: the length of its UTF-8 encoding, then its bytes.
pub open spec fn text_words(t: Seq<char>) -> Seq<u64> {
    let bytes = vstd::utf8::encode_utf8(t);
    seq![bytes.len() as u64] + Seq::new(bytes.len(), |i: int| bytes[i] as u64)
}

/// The words of a signed value: whether it is negative, then its magnitude
/// in two halves.
pub open spec fn signed_words(value: int) -> Seq<u64> {
    let magnitude = crate::decimal::magnitude_of(value);
    seq![
        if value < 0 {
            1u64
        } else {
            0u64
        },
        (magnitude % 0x1_0000_0000_0000_0000) as u64,
        (magnitude / 0x1_0000_0000_0000_0000) as u64,
    ]
}

/// The words of a rate: its scale, then its mantissa.
pub open spec fn rate_words(r: Rate) -> Seq<u64> {
    seq![r.scale() as u64] + signed_words(r.mantissa() as int)
}

/// The words of an optional quantity: whether it is present, then its value.
pub open spec fn quantity_words(q: Option<Quantity>) -> Seq<u64> {
    match q {
        Some(x) => seq![1u64, x.raw()],
        None => seq![0u64],
    }
}

/// The words of an optional price: whether it is present, then its value.
pub open spec fn price_words(p: Option<Price>) -> Seq<u64> {
    match p {
        Some(x) => seq![1u64] + signed_words(x.raw() as int),
        None => seq![0u64],
    }
}

/// The identity of a field set: every field by its value, one after the
/// other.
pub open spec fn identity_words(v: FieldsView) -> Seq<u64> {
    text_words(v.id) + text_words(v.raw_symbol) + seq![v.asset_class.index() as u64] + text_words(
        v.underlying,
    ) + seq![v.activation_ns] + seq![v.expiration_ns] + text_words(v.currency) + seq![
        v.price_precision as u64,
    ] + signed_words(v.price_increment.raw() as int) + rate_words(v.margin_init) + rate_words(
        v.margin_maint,
    ) + rate_words(v.maker_fee) + rate_words(v.taker_fee) + seq![v.multiplier.raw()]
        + quantity_words(v.lot_size) + quantity_words(v.max_quantity) + quantity_words(
        v.min_quantity,
    ) + price_words(v.max_price) + price_words(v.min_price)
}

/// Computes the hash of a list of words.
pub fn hash(words: &Vec<u64>) -> (r: u64)
    ensures
        r == hash_words(words@),
{
    let mut state: u64 = HASH_SEED;
    let mut i: usize = 0;
    while i < words.len()
        invariant
            i <= words@.len(),
            state == hash_words(words@.subrange(0, i as int)),
        decreases words@.len() - i,
    {
        proof {
            assert(words@.subrange(0, i + 1).drop_last() =~= words@.subrange(0, i as int));
        }
        state = (state ^ words[i]).wrapping_mul(HASH_PRIME);
        i = i + 1;
    }
    proof {
        assert(words@.subrange(0, i as int) =~= words@);
    }
    state
}

fn push_word(out: &mut Vec<u64>, word: u64)
    ensures
        final(out)@ == old(out)@ + seq![word],
{
    out.push(word);
    assert(out@ =~= old(out)@ + seq![word]);
}

fn push_text(out: &mut Vec<u64>, s: &str)
    ensures
        final(out)@ == old(out)@ + text_words(s@),
{
    let bytes = s.as_bytes();
    let n: usize = bytes.len();
    out.push(n as u64);
    let mut i: usize = 0;
    while i < n
        invariant
            i <= n == bytes@.len(),
            bytes@ == vstd::utf8::encode_utf8(s@),
            out@ == old(out)@ + seq![n as u64] + Seq::new(i as nat, |j: int| bytes@[j] as u64),
        decreases n - i,
    {
        out.push(bytes[i] as u64);
        i = i + 1;
        assert(out@ =~= old(out)@ + seq![n as u64] + Seq::new(i as nat, |j: int| bytes@[j] as u64));
    }
    assert(out@ =~= old(out)@ + text_words(s@));
}

fn push_signed(out: &mut Vec<u64>, value: i128)
    ensures
        final(out)@ == old(out)@ + signed_words(value as int),
{
    let magnitude: u128 = if value >= 0 {
        value as u128
    } else if value == i128::MIN {
        0x8000_0000_0000_0000_0000_0000_0000_0000
    } else {
        (-value) as u128
    };
    out.push(
        if value < 0 {
            1
        } else {
            0
        },
    );
    out.push((magnitude % 0x1_0000_0000_0000_0000) as u64);
    out.push((magnitude / 0x1_0000_0000_0000_0000) as u64);
    assert(out@ =~= old(out)@ + signed_words(value as int));
}

fn push_rate(out: &mut Vec<u64>, r: &Rate)
    ensures
        final(out)@ == old(out)@ + rate_words(*r),
{
    out.push(r.scale() as u64);
    push_signed(out, r.mantissa());
    assert(out@ =~= old(out)@ + rate_words(*r));
}

fn push_quantity(out: &mut Vec<u64>, q: &Option<Quantity>)
    ensures
        final(out)@ == old(out)@ + quantity_words(*q),
{
    match q {
        Some(x) => {
            out.push(1);
            out.push(x.raw());
        },
        None => {
            out.push(0);
        },
    }
    assert(out@ =~= old(out)@ + quantity_words(*q));
}

fn push_price(out: &mut Vec<u64>, p: &Option<Price>)
    ensures
        final(out)@ == old(out)@ + price_words(*p),
{
    match p {
        Some(x) => {
            out.push(1);
            push_signed(out, x.raw() as i128);
        },
        None => {
            out.push(0);
        },
    }
    assert(out@ =~= old(out)@ + price_words(*p));
}

impl ContractFields {
    /// The identity of the field set: every field by its value.
    pub fn identity(&self) -> (r: Vec<u64>)
        ensures
            r@ == identity_words(self@),
    {
        let mut out: Vec<u64> = Vec::new();
        let id = self.id.to_string();
        push_text(&mut out, id.as_str());
        assert(out@ =~= text_words(self@.id));
        push_text(&mut out, self.raw_symbol.as_str());
        push_word(&mut out, self.asset_class.index() as u64);
        push_text(&mut out, self.underlying.as_str());
        push_word(&mut out, self.activation_ns);
        push_word(&mut out, self.expiration_ns);
        let code = self.currency.code();
        push_text(&mut out, code.as_str());
        push_word(&mut out, self.price_precision as u64);
        push_signed(&mut out, self.price_increment.raw() as i128);
        push_rate(&mut out, &self.margin_init);
        push_rate(&mut out, &self.margin_maint);
        push_rate(&mut out, &self.maker_fee);
        push_rate(&mut out, &self.taker_fee);
        push_word(&mut out, self.multiplier.raw());
        push_quantity(&mut out, &self.lot_size);
        push_quantity(&mut out, &self.max_quantity);
        push_quantity(&mut out, &self.min_quantity);
        push_price(&mut out, &self.max_price);
        push_price(&mut out, &self.min_price);
        out
    }
}

/// Field sets that are equal by value have the same identity.
pub proof fn lemma_same_value_same_identity(a: FieldsView, b: FieldsView)
    requires
        same_value(a, b),
    ensures
        identity_words(a) == identity_words(b),
{
}

} // verus!
