//! Text: shared strings and sets of names.

use arcstr::ArcStr;
use vstd::prelude::*;

verus! {

/// `arcstr::ArcStr`, an immutable string whose copies share one allocation.
#[verifier::external_type_specification]
#[verifier::external_body]
pub struct ExArcStr(ArcStr);

/// The characters that a shared string holds.
pub uninterp spec fn arc_text(s: ArcStr) -> Seq<char>;

/// Calls `arcstr::ArcStr::as_str`, which lends the string's contents as a
/// slice: the slice holds exactly the characters of `s`.
#[verifier::external_body]
pub(crate) fn arc_as_str(s: &ArcStr) -> (r: &str)
    ensures
        r@ == arc_text(*s),
{
    s.as_str()
}

/// The views of the items of a sequence.
pub open spec fn seq_view<T: View>(s: Seq<T>) -> Seq<T::V> {
    s.map_values(|x: T| x@)
}

/// The view of what an option holds.
pub open spec fn opt_view<T: View>(o: Option<T>) -> Option<T::V> {
    match o {
        Some(x) => Some(x@),
        None => None,
    }
}

/// A finite set of names. Nothing occurs in it twice.
#[derive(Debug)]
pub struct NameSet {
    names: Vec<String>,
}

impl NameSet {
    #[verifier::type_invariant]
    spec fn wf(self) -> bool {
        seq_view(self.names@).no_duplicates()
    }

    /// The names in the set.
    pub closed spec fn view(self) -> Set<Seq<char>> {
        seq_view(self.names@).to_set()
    }

    /// The empty set.
    pub fn new() -> (r: Self)
        ensures
            r@ == Set::<Seq<char>>::empty(),
    {
        let names: Vec<String> = Vec::new();
        let r = NameSet { names };
        assert(r@ =~= Set::<Seq<char>>::empty());
        r
    }

    /// The set of the names in a list; a name that is listed twice counts once.
    pub fn from_names(list: &[&str]) -> (r: Self)
        ensures
            r@ == seq_view(list@).to_set(),
    {
        let mut names: Vec<String> = Vec::new();
        let mut i: usize = 0;
        while i < list.len()
            invariant
                i <= list@.len(),
                seq_view(names@).no_duplicates(),
                seq_view(names@).to_set() =~= seq_view(list@.take(i as int)).to_set(),
            decreases list@.len() - i,
        {
            let ghost before = names@;
            let name: &str = list[i];
            let ghost next = list@.take(i + 1);
            assert(seq_view(next) =~= seq_view(list@.take(i as int)).push(name@));
            proof {
                lemma_push_to_set(seq_view(list@.take(i as int)), name@);
            }
            if !contains_name(&names, name) {
                names.push(name.to_owned());
                assert(seq_view(names@) =~= seq_view(before).push(name@));
                proof {
                    lemma_push_to_set(seq_view(before), name@);
                    assert(!seq_view(before).contains(name@));
                }
            } else {
                assert(seq_view(before).to_set().contains(name@));
                assert(seq_view(next).to_set() =~= seq_view(before).to_set());
            }
            i += 1;
        }
        assert(list@.take(i as int) =~= list@);
        NameSet { names }
    }

    /// Whether the set holds no name.
    pub fn is_empty(&self) -> (r: bool)
        ensures
            r == (self@ =~= Set::<Seq<char>>::empty()),
    {
        let r = self.names.len() == 0;
        proof {
            if self.names@.len() > 0 {
                assert(seq_view(self.names@).contains(seq_view(self.names@)[0]));
                assert(self@.contains(self.names@[0]@));
            }
        }
        r
    }

    /// Whether a name is in the set.
    pub fn contains(&self, name: &str) -> (r: bool)
        ensures
            r == self@.contains(name@),
    {
        contains_name(&self.names, name)
    }

    /// The names in the set, each once. Their order is left open.
    pub fn to_names(&self) -> (r: Vec<String>)
        ensures
            seq_view(r@).no_duplicates(),
            seq_view(r@).to_set() == self@,
    {
        proof {
            use_type_invariant(self);
        }
        let r = self.names.clone();
        assert(r@ =~= self.names@);
        r
    }
}

impl Clone for NameSet {
    fn clone(&self) -> (r: Self)
        ensures
            r@ == self@,
    {
        NameSet { names: self.to_names() }
    }
}

fn contains_name(names: &Vec<String>, name: &str) -> (r: bool)
    ensures
        r == seq_view(names@).contains(name@),
{
    let wanted: String = name.to_owned();
    let mut i: usize = 0;
    while i < names.len()
        invariant
            i <= names@.len(),
            wanted@ == name@,
            forall|j: int| 0 <= j < i ==> (#[trigger] names@[j])@ != name@,
        decreases names@.len() - i,
    {
        if names[i] == wanted {
            assert(seq_view(names@)[i as int] == name@);
            return true;
        }
        i += 1;
    }
    proof {
        if seq_view(names@).contains(name@) {
            let k = choose|k: int| 0 <= k < names@.len() && seq_view(names@)[k] == name@;
            assert(names@[k]@ == name@);
        }
    }
    false
}

proof fn lemma_push_to_set<A>(s: Seq<A>, a: A)
    ensures
        s.push(a).to_set() =~= s.to_set().insert(a),
{
    assert forall|x: A| s.push(a).to_set().contains(x) == s.to_set().insert(a).contains(x) by {
        if s.contains(x) {
            let k = choose|k: int| 0 <= k < s.len() && s[k] == x;
            assert(s.push(a)[k] == x);
        }
        assert(s.push(a)[s.len() as int] == a);
    }
}

} // verus!
