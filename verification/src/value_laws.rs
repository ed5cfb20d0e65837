//! What sets of names and maps of properties hold.

use vstd::prelude::*;

use crate::text::{seq_view, NameSet};
use crate::types::{PropertyKey, PropertyMap, Value};

verus! {

/// A set made of a list holds just the names in the list; a copy holds the same. Its
/// names can be listed, each once, and it is empty just when it holds none.
pub proof fn law_name_sets_hold_the_names_they_are_made_of(
    list: &[&str],
    set: NameSet,
    copy: NameSet,
    name: &str,
    held: bool,
    held_in_copy: bool,
    empty: bool,
    names: Vec<String>,
)
    requires
        call_ensures(NameSet::from_names, (list,), set),
        call_ensures(NameSet::clone, (&set,), copy),
        call_ensures(NameSet::contains, (&set, name), held),
        call_ensures(NameSet::contains, (&copy, name), held_in_copy),
        call_ensures(NameSet::is_empty, (&set,), empty),
        call_ensures(NameSet::to_names, (&set,), names),
    ensures
        held <==> exists|i: int| 0 <= i < list@.len() && (#[trigger] list@[i])@ == name@,
        held_in_copy == held,
        empty <==> list@.len() == 0,
        held <==> exists|i: int| 0 <= i < names@.len() && (#[trigger] names@[i])@ == name@,
        forall|i: int, j: int|
            0 <= i < j < names@.len() ==> (#[trigger] names@[i])@ != (#[trigger] names@[j])@,
{
    let asked = seq_view(list@);
    let listed = seq_view(names@);
    assert(asked.to_set().contains(name@) == asked.contains(name@));
    assert(listed.to_set().contains(name@) == listed.contains(name@));
    if exists|i: int| 0 <= i < list@.len() && (#[trigger] list@[i])@ == name@ {
        let i = choose|i: int| 0 <= i < list@.len() && (#[trigger] list@[i])@ == name@;
        assert(asked[i] == name@);
    }
    if asked.contains(name@) {
        let i = choose|i: int| 0 <= i < asked.len() && asked[i] == name@;
        assert(list@[i]@ == name@);
    }
    if exists|i: int| 0 <= i < names@.len() && (#[trigger] names@[i])@ == name@ {
        let i = choose|i: int| 0 <= i < names@.len() && (#[trigger] names@[i])@ == name@;
        assert(listed[i] == name@);
    }
    if listed.contains(name@) {
        let i = choose|i: int| 0 <= i < listed.len() && listed[i] == name@;
        assert(names@[i]@ == name@);
    }
    if list@.len() > 0 {
        assert(asked.to_set().contains(asked[0]));
    } else {
        assert(asked.to_set() =~= Set::<Seq<char>>::empty());
    }
    assert forall|i: int, j: int| 0 <= i < j < names@.len() implies (#[trigger] names@[i])@ != (
    #[trigger] names@[j])@ by {
        assert(listed[i] != listed[j]);
    }
}

/// A new map has no value for any key. In every map there is a value for a key just
/// when the key is in it, and a map without keys is empty.
pub proof fn law_property_maps_answer_alike(
    fresh: PropertyMap,
    map: PropertyMap,
    name: &str,
    key: PropertyKey,
    in_fresh: bool,
    known: bool,
    value: Option<&Value>,
    empty: bool,
)
    requires
        call_ensures(PropertyMap::new, (), fresh),
        call_ensures(PropertyKey::new, (name,), key),
        call_ensures(PropertyMap::contains_key, (&fresh, &key), in_fresh),
        call_ensures(PropertyMap::contains_key, (&map, &key), known),
        call_ensures(PropertyMap::get, (&map, &key), value),
        call_ensures(PropertyMap::is_empty, (&map,), empty),
    ensures
        key@ == name@,
        !in_fresh,
        known <==> value is Some,
        known <==> map@.contains_key(name@),
        value matches Some(v) ==> v@ == map@[name@],
        empty ==> !known,
{
}

} // verus!
