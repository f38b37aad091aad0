//! Asset classes and currencies.

use crate::text::same_text;
use vstd::prelude::*;
use vstd::string::*;

verus! {

/// The kind of asset that an instrument refers to.
#[derive(Clone, Copy, Debug, PartialEq, Eq, Structural)]
pub enum AssetClass {
    FX,
    Equity,
    Commodity,
    Metal,
    Energy,
    Bond,
    Index,
    Cryptocurrency,
    SportsBetting,
}

impl AssetClass {
    /// The canonical name of the asset class.
    pub open spec fn name_text(self) -> Seq<char> {
        match self {
            AssetClass::FX => "FX"@,
            AssetClass::Equity => "EQUITY"@,
            AssetClass::Commodity => "COMMODITY"@,
            AssetClass::Metal => "METAL"@,
            AssetClass::Energy => "ENERGY"@,
            AssetClass::Bond => "BOND"@,
            AssetClass::Index => "INDEX"@,
            AssetClass::Cryptocurrency => "CRYPTOCURRENCY"@,
            AssetClass::SportsBetting => "SPORTS_BETTING"@,
        }
    }

    /// Position of the asset class in the order of declaration.
    pub open spec fn spec_index(&self) -> u8 {
        match self {
            AssetClass::FX => 0,
            AssetClass::Equity => 1,
            AssetClass::Commodity => 2,
            AssetClass::Metal => 3,
            AssetClass::Energy => 4,
            AssetClass::Bond => 5,
            AssetClass::Index => 6,
            AssetClass::Cryptocurrency => 7,
            AssetClass::SportsBetting => 8,
        }
    }

    /// Position of the asset class in the order of declaration.
    #[verifier::when_used_as_spec(spec_index)]
    pub fn index(&self) -> (r: u8)
        ensures
            r == self.index(),
    {
        match self {
            AssetClass::FX => 0,
            AssetClass::Equity => 1,
            AssetClass::Commodity => 2,
            AssetClass::Metal => 3,
            AssetClass::Energy => 4,
            AssetClass::Bond => 5,
            AssetClass::Index => 6,
            AssetClass::Cryptocurrency => 7,
            AssetClass::SportsBetting => 8,
        }
    }

    /// The canonical name of the asset class.
    pub fn name(&self) -> (r: &'static str)
        ensures
            r@ == self.name_text(),
    {
        match self {
            AssetClass::FX => "FX",
            AssetClass::Equity => "EQUITY",
            AssetClass::Commodity => "COMMODITY",
            AssetClass::Metal => "METAL",
            AssetClass::Energy => "ENERGY",
            AssetClass::Bond => "BOND",
            AssetClass::Index => "INDEX",
            AssetClass::Cryptocurrency => "CRYPTOCURRENCY",
            AssetClass::SportsBetting => "SPORTS_BETTING",
        }
    }

    /// The asset class with the given canonical name.
    pub fn from_name(s: &str) -> (r: Option<AssetClass>)
        ensures
            match r {
                Some(a) => a.name_text() == s@,
                None => forall|a: AssetClass| #[trigger] a.name_text() != s@,
            },
    {
        if same_text(s, "FX") {
            Some(AssetClass::FX)
        } else if same_text(s, "EQUITY") {
            Some(AssetClass::Equity)
        } else if same_text(s, "COMMODITY") {
            Some(AssetClass::Commodity)
        } else if same_text(s, "METAL") {
            Some(AssetClass::Metal)
        } else if same_text(s, "ENERGY") {
            Some(AssetClass::Energy)
        } else if same_text(s, "BOND") {
            Some(AssetClass::Bond)
        } else if same_text(s, "INDEX") {
            Some(AssetClass::Index)
        } else if same_text(s, "CRYPTOCURRENCY") {
            Some(AssetClass::Cryptocurrency)
        } else if same_text(s, "SPORTS_BETTING") {
            Some(AssetClass::SportsBetting)
        } else {
            None
        }
    }

    /// No two asset classes share a name.
    pub proof fn lemma_name_unique(self, other: AssetClass)
        requires
            self.name_text() == other.name_text(),
        ensures
            self == other,
    {
        reveal_strlit("FX");
        reveal_strlit("EQUITY");
        reveal_strlit("COMMODITY");
        reveal_strlit("METAL");
        reveal_strlit("ENERGY");
        reveal_strlit("BOND");
        reveal_strlit("INDEX");
        reveal_strlit("CRYPTOCURRENCY");
        reveal_strlit("SPORTS_BETTING");
        let a = self.name_text();
        let b = other.name_text();
        assert(a.len() == b.len());
        assert(a[0] == b[0]);
        assert(a[1] == b[1]);
    }
}

/// Whether `t` is a currency code: three capital letters.
pub open spec fn is_currency_code(t: Seq<char>) -> bool {
    &&& t.len() == 3
    &&& forall|i: int| 0 <= i < 3 ==> 'A' <= #[trigger] t[i] <= 'Z'
}

/// A currency, known by its code.
#[derive(Debug)]
pub struct Currency {
    code: String,
}

impl View for Currency {
    type V = Seq<char>;

    closed spec fn view(&self) -> Seq<char> {
        self.code@
    }
}

impl Clone for Currency {
    fn clone(&self) -> (r: Self)
        ensures
            r == *self,
    {
        proof {
            use_type_invariant(self);
        }
        Currency { code: self.code.clone() }
    }
}

impl PartialEq for Currency {
    fn eq(&self, other: &Currency) -> (r: bool) {
        self.code == other.code
    }
}

impl Eq for Currency {

}

impl vstd::std_specs::cmp::PartialEqSpecImpl for Currency {
    open spec fn obeys_eq_spec() -> bool {
        true
    }

    open spec fn eq_spec(&self, other: &Currency) -> bool {
        self@ == other@
    }
}

impl Currency {
    /// A currency holds a currency code.
    #[verifier::type_invariant]
    pub open spec fn wf(self) -> bool {
        is_currency_code(self@)
    }

    /// The currency with the given code.
    pub fn new(code: &str) -> (r: Option<Currency>)
        ensures
            match r {
                Some(c) => c@ == code@ && is_currency_code(code@),
                None => !is_currency_code(code@),
            },
    {
        if code.unicode_len() != 3 {
            return None;
        }
        let mut i: usize = 0;
        while i < 3
            invariant
                code@.len() == 3,
                i <= 3,
                forall|j: int| 0 <= j < i ==> 'A' <= #[trigger] code@[j] <= 'Z',
            decreases 3 - i,
        {
            let c = code.get_char(i);
            if c < 'A' || c > 'Z' {
                return None;
            }
            i = i + 1;
        }
        Some(Currency { code: code.to_owned() })
    }

    /// The code of the currency.
    pub fn code(&self) -> (r: String)
        ensures
            r@ == self@,
            is_currency_code(r@),
    {
        proof {
            use_type_invariant(self);
        }
        self.code.clone()
    }
}

} // verus!
