//! The flat key/value mapping that a contract is exported to and imported
//! from.

use crate::rate::Rate;
use vstd::prelude::*;
use vstd::string::*;

verus! {

/// A value of the mapping.
#[derive(Debug)]
pub enum Value {
    /// The marker of an absent optional field.
    Null,
    /// A string.
    Text(String),
    /// An unsigned integer.
    Integer(u64),
    /// A decimal rate.
    Rate(Rate),
}

/// What a [`Value`] holds.
pub enum ValueView {
    Null,
    Text(Seq<char>),
    Integer(u64),
    Rate(Rate),
}

impl View for Value {
    type V = ValueView;

    open spec fn view(&self) -> ValueView {
        match self {
            Value::Null => ValueView::Null,
            Value::Text(s) => ValueView::Text(s@),
            Value::Integer(n) => ValueView::Integer(*n),
            Value::Rate(r) => ValueView::Rate(*r),
        }
    }
}

impl Clone for Value {
    fn clone(&self) -> (r: Self)
        ensures
            r == *self,
    {
        match self {
            Value::Null => Value::Null,
            Value::Text(s) => Value::Text(s.clone()),
            Value::Integer(n) => Value::Integer(*n),
            Value::Rate(r) => Value::Rate(*r),
        }
    }
}

impl PartialEq for Value {
    fn eq(&self, other: &Value) -> (r: bool) {
        match (self, other) {
            (Value::Null, Value::Null) => true,
            (Value::Text(a), Value::Text(b)) => *a == *b,
            (Value::Integer(a), Value::Integer(b)) => *a == *b,
            (Value::Rate(a), Value::Rate(b)) => *a == *b,
            _ => false,
        }
    }
}

impl Eq for Value {

}

impl vstd::std_specs::cmp::PartialEqSpecImpl for Value {
    open spec fn obeys_eq_spec() -> bool {
        true
    }

    open spec fn eq_spec(&self, other: &Value) -> bool {
        self@ == other@
    }
}

#[derive(Debug)]
struct Entry {
    key: String,
    value: Value,
}

/// The mapping that a list of entries stands for.
spec fn entries_map(entries: Seq<Entry>) -> Map<Seq<char>, ValueView>
    decreases entries.len(),
{
    if entries.len() == 0 {
        Map::empty()
    } else {
        entries_map(entries.drop_last()).insert(entries.last().key@, entries.last().value@)
    }
}

/// Whether no two entries share a key.
spec fn distinct(entries: Seq<Entry>) -> bool {
    forall|i: int, j: int|
        #![trigger entries[i], entries[j]]
        0 <= i < j < entries.len() ==> entries[i].key@ != entries[j].key@
}

proof fn lemma_dom(entries: Seq<Entry>, key: Seq<char>)
    ensures
        entries_map(entries).contains_key(key) <==> exists|j: int|
            0 <= j < entries.len() && #[trigger] entries[j].key@ == key,
    decreases entries.len(),
{
    if entries.len() > 0 {
        let front = entries.drop_last();
        lemma_dom(front, key);
        if entries_map(entries).contains_key(key) {
            if entries.last().key@ == key {
                assert(entries[entries.len() - 1].key@ == key);
            } else {
                let j = choose|j: int| 0 <= j < front.len() && #[trigger] front[j].key@ == key;
                assert(entries[j].key@ == key);
            }
        } else {
            assert forall|j: int| 0 <= j < entries.len() implies #[trigger] entries[j].key@
                != key by {
                if j < front.len() {
                    assert(front[j].key@ == entries[j].key@);
                }
            }
        }
    }
}

proof fn lemma_value(entries: Seq<Entry>, at: int)
    requires
        0 <= at < entries.len(),
        distinct(entries),
    ensures
        entries_map(entries).contains_key(entries[at].key@),
        entries_map(entries)[entries[at].key@] == entries[at].value@,
    decreases entries.len(),
{
    if at < entries.len() - 1 {
        let front = entries.drop_last();
        assert(front[at] == entries[at]);
        assert(distinct(front)) by {
            assert forall|i: int, j: int| 0 <= i < j < front.len() implies front[i].key@
                != front[j].key@ by {
                assert(front[i] == entries[i] && front[j] == entries[j]);
            }
        }
        lemma_value(front, at);
        assert(entries[at].key@ != entries[entries.len() - 1].key@);
    }
}

proof fn lemma_replace(entries: Seq<Entry>, at: int, e: Entry)
    requires
        0 <= at < entries.len(),
        distinct(entries),
        e.key@ == entries[at].key@,
    ensures
        distinct(entries.update(at, e)),
        entries_map(entries.update(at, e)) == entries_map(entries).insert(e.key@, e.value@),
    decreases entries.len(),
{
    let changed = entries.update(at, e);
    let front = entries.drop_last();
    assert(distinct(changed)) by {
        assert forall|i: int, j: int| 0 <= i < j < changed.len() implies changed[i].key@
            != changed[j].key@ by {
            assert(changed[i].key@ == entries[i].key@ && changed[j].key@ == entries[j].key@);
        }
    }
    if at == entries.len() - 1 {
        assert(changed.drop_last() =~= front);
        assert(entries_map(changed) =~= entries_map(entries).insert(e.key@, e.value@));
    } else {
        assert(distinct(front)) by {
            assert forall|i: int, j: int| 0 <= i < j < front.len() implies front[i].key@
                != front[j].key@ by {
                assert(front[i] == entries[i] && front[j] == entries[j]);
            }
        }
        assert(front[at] == entries[at]);
        lemma_replace(front, at, e);
        assert(changed.drop_last() =~= front.update(at, e));
        assert(changed.last() == entries.last());
        assert(entries[at].key@ != entries[entries.len() - 1].key@);
        assert(entries_map(changed) =~= entries_map(entries).insert(e.key@, e.value@));
    }
}

fn position(entries: &Vec<Entry>, key: &str) -> (r: Option<usize>)
    ensures
        match r {
            Some(i) => i < entries@.len() && entries@[i as int].key@ == key@,
            None => forall|j: int| 0 <= j < entries@.len() ==> #[trigger] entries@[j].key@ != key@,
        },
{
    let wanted = key.to_owned();
    let mut i: usize = 0;
    while i < entries.len()
        invariant
            i <= entries@.len(),
            wanted@ == key@,
            forall|j: int| 0 <= j < i ==> #[trigger] entries@[j].key@ != key@,
        decreases entries@.len() - i,
    {
        if entries[i].key == wanted {
            return Some(i);
        }
        i = i + 1;
    }
    None
}

/// A mapping from keys to values.
#[derive(Debug)]
pub struct Mapping {
    entries: Vec<Entry>,
}

impl View for Mapping {
    type V = Map<Seq<char>, ValueView>;

    closed spec fn view(&self) -> Map<Seq<char>, ValueView> {
        entries_map(self.entries@)
    }
}

impl Mapping {
    #[verifier::type_invariant]
    spec fn inv(self) -> bool {
        distinct(self.entries@)
    }

    /// The empty mapping.
    pub fn new() -> (m: Mapping)
        ensures
            m@ == Map::<Seq<char>, ValueView>::empty(),
    {
        Mapping { entries: Vec::new() }
    }

    /// Puts `value` under `key`, in place of what stood there.
    pub fn insert(&mut self, key: &str, value: Value)
        ensures
            final(self)@ == old(self)@.insert(key@, value@),
    {
        proof {
            use_type_invariant(&*self);
        }
        let mut entries: Vec<Entry> = Vec::new();
        std::mem::swap(&mut entries, &mut self.entries);
        let entry = Entry { key: key.to_owned(), value };
        match position(&entries, key) {
            Some(i) => {
                proof {
                    lemma_replace(entries@, i as int, entry);
                }
                entries.set(i, entry);
            },
            None => {
                entries.push(entry);
                proof {
                    assert(entries@.drop_last() =~= old(self).entries@);
                    assert forall|i: int, j: int| 0 <= i < j < entries@.len() implies entries@[i].key@
                        != entries@[j].key@ by {
                        assert(entries@[i] == old(self).entries@[i]);
                        if j < entries@.len() - 1 {
                            assert(entries@[j] == old(self).entries@[j]);
                        }
                    }
                }
            },
        }
        self.entries = entries;
    }

    /// The value under `key`, if there is one.
    pub fn get(&self, key: &str) -> (r: Option<&Value>)
        ensures
            match r {
                Some(v) => self@.contains_key(key@) && self@[key@] == v@,
                None => !self@.contains_key(key@),
            },
    {
        proof {
            use_type_invariant(self);
            lemma_dom(self.entries@, key@);
        }
        match position(&self.entries, key) {
            Some(i) => {
                proof {
                    lemma_value(self.entries@, i as int);
                }
                Some(&self.entries[i].value)
            },
            None => None,
        }
    }

    /// The keys of the mapping, each once.
    pub fn keys(&self) -> (r: Vec<String>)
        ensures
            forall|key: Seq<char>|
                self@.contains_key(key) <==> exists|j: int|
                    0 <= j < r@.len() && #[trigger] r@[j]@ == key,
            forall|i: int, j: int| 0 <= i < j < r@.len() ==> #[trigger] r@[i]@ != #[trigger] r@[j]@,
    {
        proof {
            use_type_invariant(self);
        }
        let mut keys: Vec<String> = Vec::new();
        let mut i: usize = 0;
        while i < self.entries.len()
            invariant
                i <= self.entries@.len(),
                keys@.len() == i,
                forall|j: int| 0 <= j < i ==> #[trigger] keys@[j]@ == self.entries@[j].key@,
            decreases self.entries@.len() - i,
        {
            keys.push(self.entries[i].key.clone());
            i = i + 1;
        }
        proof {
            assert forall|key: Seq<char>|
                self@.contains_key(key) <==> exists|j: int|
                    0 <= j < keys@.len() && #[trigger] keys@[j]@ == key by {
                lemma_dom(self.entries@, key);
                if self@.contains_key(key) {
                    let j = choose|j: int|
                        0 <= j < self.entries@.len() && #[trigger] self.entries@[j].key@ == key;
                    assert(keys@[j]@ == key);
                }
                if exists|j: int| 0 <= j < keys@.len() && #[trigger] keys@[j]@ == key {
                    let j = choose|j: int| 0 <= j < keys@.len() && #[trigger] keys@[j]@ == key;
                    assert(self.entries@[j].key@ == key);
                }
            }
            assert forall|i: int, j: int| 0 <= i < j < keys@.len() implies #[trigger] keys@[i]@
                != #[trigger] keys@[j]@ by {
                assert(keys@[i]@ == self.entries@[i].key@);
                assert(keys@[j]@ == self.entries@[j].key@);
            }
        }
        keys
    }

    /// The number of keys of the mapping.
    pub fn len(&self) -> (r: usize)
        ensures
            r == self@.dom().len(),
            self@.dom().finite(),
    {
        proof {
            use_type_invariant(self);
            lemma_len(self.entries@);
        }
        self.entries.len()
    }
}

proof fn lemma_len(entries: Seq<Entry>)
    requires
        distinct(entries),
    ensures
        entries_map(entries).dom().finite(),
        entries_map(entries).dom().len() == entries.len(),
    decreases entries.len(),
{
    if entries.len() > 0 {
        let front = entries.drop_last();
        assert(distinct(front)) by {
            assert forall|i: int, j: int| 0 <= i < j < front.len() implies front[i].key@
                != front[j].key@ by {
                assert(front[i] == entries[i] && front[j] == entries[j]);
            }
        }
        lemma_len(front);
        lemma_dom(front, entries.last().key@);
        assert(!entries_map(front).contains_key(entries.last().key@)) by {
            if entries_map(front).contains_key(entries.last().key@) {
                let j = choose|j: int|
                    0 <= j < front.len() && #[trigger] front[j].key@ == entries.last().key@;
                assert(front[j] == entries[j]);
                assert(entries[j].key@ != entries[entries.len() - 1].key@);
            }
        }
        assert(entries_map(entries).dom() =~= entries_map(front).dom().insert(
            entries.last().key@,
        ));
    } else {
        assert(entries_map(entries).dom() =~= Set::<Seq<char>>::empty());
    }
}

} // verus!
