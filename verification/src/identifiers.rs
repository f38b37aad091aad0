//! Instrument identifiers: a symbol and the venue it trades on, written
//! `SYMBOL.VENUE`.

use crate::text::contains_char;
use vstd::prelude::*;
use vstd::string::*;

verus! {

/// Whether `symbol` and `venue` can form an identifier: neither is empty
/// and the venue holds no dot.
pub open spec fn valid_parts(symbol: Seq<char>, venue: Seq<char>) -> bool {
    &&& symbol.len() > 0
    &&& venue.len() > 0
    &&& !venue.contains('.')
}

/// The text of the identifier of `symbol` on `venue`.
pub open spec fn id_text(symbol: Seq<char>, venue: Seq<char>) -> Seq<char> {
    symbol + seq!['.'] + venue
}

/// Whether `t` is the text of an identifier.
pub open spec fn is_instrument_id(t: Seq<char>) -> bool {
    exists|symbol: Seq<char>, venue: Seq<char>|
        valid_parts(symbol, venue) && #[trigger] id_text(symbol, venue) == t
}

/// Position of the last dot among the first `upto` characters of `t`, or
/// -1 where there is none.
pub open spec fn last_dot(t: Seq<char>, upto: int) -> int
    decreases upto,
{
    if upto <= 0 {
        -1
    } else if t[upto - 1] == '.' {
        upto - 1
    } else {
        last_dot(t, upto - 1)
    }
}

proof fn lemma_last_dot(t: Seq<char>, upto: int)
    requires
        0 <= upto <= t.len(),
    ensures
        -1 <= last_dot(t, upto) < upto,
        last_dot(t, upto) >= 0 ==> t[last_dot(t, upto)] == '.',
        forall|i: int| last_dot(t, upto) < i < upto ==> t[i] != '.',
    decreases upto,
{
    if upto > 0 && t[upto - 1] != '.' {
        lemma_last_dot(t, upto - 1);
    }
}

/// The text of an identifier splits at its last dot into its parts.
pub proof fn lemma_split(symbol: Seq<char>, venue: Seq<char>)
    requires
        valid_parts(symbol, venue),
    ensures
        last_dot(id_text(symbol, venue), id_text(symbol, venue).len() as int) == symbol.len(),
        id_text(symbol, venue).subrange(0, symbol.len() as int) == symbol,
        id_text(symbol, venue).subrange(
            symbol.len() as int + 1,
            id_text(symbol, venue).len() as int,
        ) == venue,
{
    let t = id_text(symbol, venue);
    lemma_last_dot(t, t.len() as int);
    let k = last_dot(t, t.len() as int);
    assert(t[symbol.len() as int] == '.');
    if k > symbol.len() {
        assert(t[k] == venue[k - symbol.len() - 1]);
        assert(venue.contains('.'));
    }
    assert(t.subrange(0, symbol.len() as int) =~= symbol);
    assert(t.subrange(symbol.len() as int + 1, t.len() as int) =~= venue);
}

/// A text with a dot that is neither its first nor its last character is an
/// identifier: it splits at its last dot.
proof fn lemma_is_id(t: Seq<char>)
    requires
        0 < last_dot(t, t.len() as int) < t.len() - 1,
    ensures
        is_instrument_id(t),
        valid_parts(
            t.subrange(0, last_dot(t, t.len() as int)),
            t.subrange(last_dot(t, t.len() as int) + 1, t.len() as int),
        ),
{
    lemma_last_dot(t, t.len() as int);
    let k = last_dot(t, t.len() as int);
    let symbol = t.subrange(0, k);
    let venue = t.subrange(k + 1, t.len() as int);
    if venue.contains('.') {
        let i = choose|i: int| 0 <= i < venue.len() && venue[i] == '.';
        assert(t[k + 1 + i] == '.');
    }
    assert(id_text(symbol, venue) =~= t);
}

/// The identifier of an instrument.
#[derive(Debug)]
pub struct InstrumentId {
    value: String,
}

impl View for InstrumentId {
    type V = Seq<char>;

    closed spec fn view(&self) -> Seq<char> {
        self.value@
    }
}

impl Clone for InstrumentId {
    fn clone(&self) -> (r: Self)
        ensures
            r == *self,
    {
        proof {
            use_type_invariant(self);
        }
        InstrumentId { value: self.value.clone() }
    }
}

impl PartialEq for InstrumentId {
    fn eq(&self, other: &InstrumentId) -> (r: bool) {
        self.value == other.value
    }
}

impl Eq for InstrumentId {

}

impl vstd::std_specs::cmp::PartialEqSpecImpl for InstrumentId {
    open spec fn obeys_eq_spec() -> bool {
        true
    }

    open spec fn eq_spec(&self, other: &InstrumentId) -> bool {
        self@ == other@
    }
}

impl InstrumentId {
    /// An identifier holds the text of one.
    #[verifier::type_invariant]
    pub open spec fn wf(self) -> bool {
        is_instrument_id(self@)
    }

    /// The symbol: what stands before the last dot.
    pub open spec fn symbol_text(self) -> Seq<char> {
        self@.subrange(0, last_dot(self@, self@.len() as int))
    }

    /// The venue: what stands after the last dot.
    pub open spec fn venue_text(self) -> Seq<char> {
        self@.subrange(last_dot(self@, self@.len() as int) + 1, self@.len() as int)
    }

    fn dot_position(s: &str) -> (r: Option<usize>)
        ensures
            match r {
                Some(k) => k == last_dot(s@, s@.len() as int) && k < s@.len(),
                None => last_dot(s@, s@.len() as int) == -1,
            },
    {
        let n: usize = s.unicode_len();
        let mut i: usize = n;
        while i > 0
            invariant
                i <= n == s@.len(),
                last_dot(s@, n as int) == last_dot(s@, i as int),
            decreases i,
        {
            if s.get_char(i - 1) == '.' {
                return Some(i - 1);
            }
            i = i - 1;
        }
        None
    }

    /// The identifier of `symbol` on `venue`, if the two can form one.
    pub fn new(symbol: &str, venue: &str) -> (r: Option<InstrumentId>)
        ensures
            match r {
                Some(id) => {
                    &&& valid_parts(symbol@, venue@)
                    &&& id@ == id_text(symbol@, venue@)
                    &&& is_instrument_id(id@)
                },
                None => !valid_parts(symbol@, venue@),
            },
    {
        if symbol.is_empty() || venue.is_empty() || contains_char(venue, '.') {
            return None;
        }
        proof {
            reveal_strlit(".");
        }
        let mut value = symbol.to_owned();
        value.append(".");
        value.append(venue);
        assert(value@ =~= id_text(symbol@, venue@));
        Some(InstrumentId { value })
    }

    /// Reads an identifier from its text.
    pub fn parse(s: &str) -> (r: Option<InstrumentId>)
        ensures
            match r {
                Some(id) => id@ == s@ && is_instrument_id(s@),
                None => !is_instrument_id(s@),
            },
    {
        let n: usize = s.unicode_len();
        match Self::dot_position(s) {
            Some(k) => {
                if 0 < k && k + 1 < n {
                    proof {
                        lemma_is_id(s@);
                    }
                    return Some(InstrumentId { value: s.to_owned() });
                }
            },
            None => {},
        }
        proof {
            if is_instrument_id(s@) {
                let (symbol, venue) = choose|symbol: Seq<char>, venue: Seq<char>|
                    valid_parts(symbol, venue) && #[trigger] id_text(symbol, venue) == s@;
                lemma_split(symbol, venue);
            }
        }
        None
    }

    /// Writes the identifier as text.
    pub fn to_string(&self) -> (r: String)
        ensures
            r@ == self@,
    {
        self.value.clone()
    }

    /// The symbol: what stands before the last dot.
    pub fn symbol(&self) -> (r: String)
        ensures
            r@ == self.symbol_text(),
            valid_parts(self.symbol_text(), self.venue_text()),
            id_text(self.symbol_text(), self.venue_text()) == self@,
    {
        proof {
            use_type_invariant(self);
            self.lemma_parts();
        }
        let s = self.value.as_str();
        match Self::dot_position(s) {
            Some(k) => s.substring_char(0, k).to_owned(),
            None => String::new(),
        }
    }

    /// The venue: what stands after the last dot.
    pub fn venue(&self) -> (r: String)
        ensures
            r@ == self.venue_text(),
            valid_parts(self.symbol_text(), self.venue_text()),
            id_text(self.symbol_text(), self.venue_text()) == self@,
    {
        proof {
            use_type_invariant(self);
            self.lemma_parts();
        }
        let s = self.value.as_str();
        let n: usize = s.unicode_len();
        match Self::dot_position(s) {
            Some(k) => s.substring_char(k + 1, n).to_owned(),
            None => String::new(),
        }
    }

    /// An identifier is made of its symbol, a dot and its venue.
    pub proof fn lemma_parts(self)
        requires
            is_instrument_id(self@),
        ensures
            valid_parts(self.symbol_text(), self.venue_text()),
            id_text(self.symbol_text(), self.venue_text()) == self@,
            0 < last_dot(self@, self@.len() as int) < self@.len() - 1,
    {
        let (symbol, venue) = choose|symbol: Seq<char>, venue: Seq<char>|
            valid_parts(symbol, venue) && #[trigger] id_text(symbol, venue) == self@;
        lemma_split(symbol, venue);
    }
}

} // verus!
