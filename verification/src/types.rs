//! Identifiers, property values and property maps.

use vstd::prelude::*;

verus! {

/// The id of a node.
#[derive(Clone, Copy, Debug, PartialEq, Eq, PartialOrd, Ord, Hash, Structural)]
pub struct NodeId(pub u64);

/// The id of an edge.
#[derive(Clone, Copy, Debug, PartialEq, Eq, PartialOrd, Ord, Hash, Structural)]
pub struct EdgeId(pub u64);

/// A point in the history of a store.
#[derive(Clone, Copy, Debug, PartialEq, Eq, PartialOrd, Ord, Hash, Structural)]
pub struct EpochId(pub u64);

/// The id of a transaction.
#[derive(Clone, Copy, Debug, PartialEq, Eq, PartialOrd, Ord, Hash, Structural)]
pub struct TransactionId(pub u64);

/// A double-precision number, by its IEEE 754 bit pattern. The pattern zero is
/// the number zero.
#[derive(Clone, Copy, Debug, PartialEq, Eq, Hash, Structural)]
pub struct FloatBits(pub u64);

/// A property value.
#[derive(Debug, PartialEq, Eq)]
pub enum Value {
    /// No value.
    Null,
    /// A truth value.
    Bool(bool),
    /// An integer.
    Int64(i64),
    /// A floating-point number.
    Float64(FloatBits),
    /// A string.
    String(String),
    /// A value of any other kind (a vector, a list, a date), by a number that
    /// the store that it came from resolves.
    Other(u64),
}

/// The model of a [`Value`].
pub enum ValueView {
    Null,
    Bool(bool),
    Int64(i64),
    Float64(FloatBits),
    String(Seq<char>),
    Other(u64),
}

impl View for Value {
    type V = ValueView;

    open spec fn view(&self) -> ValueView {
        match self {
            Value::Null => ValueView::Null,
            Value::Bool(b) => ValueView::Bool(*b),
            Value::Int64(n) => ValueView::Int64(*n),
            Value::Float64(x) => ValueView::Float64(*x),
            Value::String(s) => ValueView::String(s@),
            Value::Other(h) => ValueView::Other(*h),
        }
    }
}

impl Clone for Value {
    fn clone(&self) -> (r: Self)
        ensures
            r == *self,
    {
        match self {
            Value::Null => Value::Null,
            Value::Bool(b) => Value::Bool(*b),
            Value::Int64(n) => Value::Int64(*n),
            Value::Float64(x) => Value::Float64(*x),
            Value::String(s) => Value::String(s.clone()),
            Value::Other(h) => Value::Other(*h),
        }
    }
}

/// The name of a property.
#[derive(Debug, PartialEq, Eq)]
pub struct PropertyKey {
    /// The name.
    pub name: String,
}

impl View for PropertyKey {
    type V = Seq<char>;

    open spec fn view(&self) -> Seq<char> {
        self.name@
    }
}

impl PropertyKey {
    /// The key with this name.
    pub fn new(name: &str) -> (r: Self)
        ensures
            r@ == name@,
    {
        PropertyKey { name: name.to_owned() }
    }
}

/// The properties of one node or edge: at most one value for each key.
#[derive(Debug)]
pub struct PropertyMap {
    entries: Vec<(PropertyKey, Value)>,
}

/// The place of an entry with a given key in a list of properties.
spec fn find_entry(s: Seq<(PropertyKey, Value)>, key: Seq<char>) -> Option<int> {
    if exists|i: int| 0 <= i < s.len() && (#[trigger] s[i]).0@ == key {
        Some(choose|i: int| 0 <= i < s.len() && (#[trigger] s[i]).0@ == key)
    } else {
        None
    }
}

impl PropertyMap {
    #[verifier::type_invariant]
    spec fn wf(self) -> bool {
        forall|i: int, j: int|
            0 <= i < j < self.entries@.len() ==> (#[trigger] self.entries@[i]).0@ != (
            #[trigger] self.entries@[j]).0@
    }
}

impl View for PropertyMap {
    type V = Map<Seq<char>, ValueView>;

    closed spec fn view(&self) -> Map<Seq<char>, ValueView> {
        Map::new(
            |k: Seq<char>| find_entry(self.entries@, k) is Some,
            |k: Seq<char>| self.entries@[find_entry(self.entries@, k)->0].1@,
        )
    }
}

impl PropertyMap {
    /// The map without properties.
    pub fn new() -> (r: Self)
        ensures
            r@ == Map::<Seq<char>, ValueView>::empty(),
    {
        let entries: Vec<(PropertyKey, Value)> = Vec::new();
        let r = PropertyMap { entries };
        assert(r@ =~= Map::<Seq<char>, ValueView>::empty());
        r
    }

    /// Whether there is no property.
    pub fn is_empty(&self) -> (r: bool)
        ensures
            r == (self@ =~= Map::<Seq<char>, ValueView>::empty()),
    {
        let r = self.entries.len() == 0;
        proof {
            if self.entries@.len() > 0 {
                assert(self@.dom().contains(self.entries@[0].0@));
            } else {
                assert(self@ =~= Map::<Seq<char>, ValueView>::empty());
            }
        }
        r
    }

    fn position(&self, key: &PropertyKey) -> (r: Option<usize>)
        ensures
            match r {
                Some(i) => i < self.entries@.len() && self.entries@[i as int].0@ == key@
                    && find_entry(self.entries@, key@) == Some(i as int),
                None => find_entry(self.entries@, key@) is None,
            },
    {
        proof {
            use_type_invariant(self);
        }
        let mut i: usize = 0;
        while i < self.entries.len()
            invariant
                i <= self.entries@.len(),
                self.wf(),
                forall|j: int| 0 <= j < i ==> (#[trigger] self.entries@[j]).0@ != key@,
            decreases self.entries@.len() - i,
        {
            if self.entries[i].0.name == key.name {
                assert(self.entries@[i as int].0@ == key@);
                return Some(i);
            }
            i += 1;
        }
        None
    }

    /// Whether there is a value for a key.
    pub fn contains_key(&self, key: &PropertyKey) -> (r: bool)
        ensures
            r == self@.contains_key(key@),
    {
        self.position(key).is_some()
    }

    /// The value for a key.
    pub fn get(&self, key: &PropertyKey) -> (r: Option<&Value>)
        ensures
            match r {
                Some(v) => self@.contains_key(key@) && self@[key@] == v@,
                None => !self@.contains_key(key@),
            },
    {
        match self.position(key) {
            Some(i) => Some(&self.entries[i].1),
            None => None,
        }
    }

    /// Sets the value for a key; a former value for it is replaced.
    pub fn insert(&mut self, key: PropertyKey, value: Value)
        ensures
            final(self)@ == old(self)@.insert(key@, value@),
    {
        let ghost before = self.entries@;
        let ghost gkey = key@;
        let ghost gval = value@;
        proof {
            use_type_invariant(&*self);
        }
        let found = self.position(&key);
        let mut entries: Vec<(PropertyKey, Value)> = Vec::new();
        std::mem::swap(&mut entries, &mut self.entries);
        match found {
            Some(i) => {
                entries.set(i, (key, value));
            },
            None => {
                entries.push((key, value));
            },
        }
        proof {
            lemma_find_unique(before);
            lemma_find_unique(entries@);
        }
        let ghost after = entries@;
        let ghost at: int = match found {
            Some(i) => i as int,
            None => before.len() as int,
        };
        self.entries = entries;
        proof {
            assert(after[at].0@ == gkey && after[at].1@ == gval);
            assert forall|k: Seq<char>| k != gkey implies find_entry(after, k) == find_entry(
                before,
                k,
            ) by {
                if find_entry(before, k) is Some {
                    let j = find_entry(before, k)->0;
                    assert(after[j] == before[j]);
                }
                if find_entry(after, k) is Some {
                    let j = find_entry(after, k)->0;
                    assert(after[j] == before[j]);
                }
            }
            assert(self@ =~= old(self)@.insert(gkey, gval));
        }
    }
}

/// In a list without repeated keys, an entry is found under its own key.
proof fn lemma_find_unique(s: Seq<(PropertyKey, Value)>)
    requires
        forall|i: int, j: int|
            0 <= i < j < s.len() ==> (#[trigger] s[i]).0@ != (#[trigger] s[j]).0@,
    ensures
        forall|i: int| 0 <= i < s.len() ==> find_entry(s, (#[trigger] s[i]).0@) == Some(i),
{
}

} // verus!
