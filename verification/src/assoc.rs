//! Lists of named entries read as maps: an entry further back in the list
//! replaces an earlier one of the same name.

use vstd::prelude::*;
use vstd::string::*;
use crate::text::str_eq;

verus! {

/// The map that a list of named entries stands for.
pub open spec fn assoc_map<V: View>(entries: Seq<(String, V)>) -> Map<Seq<char>, V::V>
    decreases entries.len(),
{
    if entries.len() == 0 {
        Map::empty()
    } else {
        assoc_map(entries.drop_last()).insert(entries.last().0@, entries.last().1@)
    }
}

/// Whether the entry at `i` is the last one of its name.
pub open spec fn is_last_of_its_name<V>(entries: Seq<(String, V)>, i: int) -> bool {
    &&& 0 <= i < entries.len()
    &&& forall|j: int| i < j < entries.len() ==> (#[trigger] entries[j]).0@ != entries[i].0@
}

/// The last entry of a name is what the map holds for that name.
pub proof fn lemma_assoc_map_last<V: View>(entries: Seq<(String, V)>, i: int)
    requires
        is_last_of_its_name(entries, i),
    ensures
        assoc_map(entries).contains_key(entries[i].0@),
        assoc_map(entries)[entries[i].0@] == entries[i].1@,
    decreases entries.len(),
{
    if i < entries.len() - 1 {
        let shorter = entries.drop_last();
        assert(entries.last() == entries[entries.len() - 1]);
        assert forall|j: int| i < j < shorter.len() implies (#[trigger] shorter[j]).0@
            != shorter[i].0@ by {
            assert(shorter[j] == entries[j]);
        }
        lemma_assoc_map_last(shorter, i);
    }
}

/// A name that no entry carries is not in the map.
pub proof fn lemma_assoc_map_absent<V: View>(entries: Seq<(String, V)>, key: Seq<char>)
    requires
        forall|j: int| 0 <= j < entries.len() ==> (#[trigger] entries[j]).0@ != key,
    ensures
        !assoc_map(entries).contains_key(key),
    decreases entries.len(),
{
    if entries.len() > 0 {
        let shorter = entries.drop_last();
        assert forall|j: int| 0 <= j < shorter.len() implies (#[trigger] shorter[j]).0@ != key by {
            assert(shorter[j] == entries[j]);
        }
        lemma_assoc_map_absent(shorter, key);
        assert(entries.last() == entries[entries.len() - 1]);
    }
}

/// Replacing the value of the last entry of a name replaces what the map
/// holds for that name, and nothing else.
pub proof fn lemma_assoc_map_update<V: View>(entries: Seq<(String, V)>, i: int, value: V)
    requires
        is_last_of_its_name(entries, i),
    ensures
        assoc_map(entries.update(i, (entries[i].0, value))) == assoc_map(entries).insert(
            entries[i].0@,
            value@,
        ),
    decreases entries.len(),
{
    let updated = entries.update(i, (entries[i].0, value));
    let key = entries[i].0@;
    if i == entries.len() - 1 {
        assert(updated.drop_last() == entries.drop_last());
        assert(assoc_map(updated) =~= assoc_map(entries).insert(key, value@));
    } else {
        let shorter = entries.drop_last();
        assert forall|j: int| i < j < shorter.len() implies (#[trigger] shorter[j]).0@
            != shorter[i].0@ by {
            assert(shorter[j] == entries[j]);
        }
        lemma_assoc_map_update(shorter, i, value);
        assert(updated.drop_last() == shorter.update(i, (shorter[i].0, value)));
        assert(updated.last() == entries.last());
        assert(entries.last() == entries[entries.len() - 1]);
        assert(entries.last().0@ != key);
        assert(assoc_map(updated) =~= assoc_map(entries).insert(key, value@));
    }
}

/// Finds the last entry of a name.
pub fn find_last<V>(entries: &Vec<(String, V)>, key: &str) -> (r: Option<usize>)
    ensures
        match r {
            Some(i) => is_last_of_its_name(entries@, i as int) && entries@[i as int].0@ == key@,
            None => forall|j: int| 0 <= j < entries@.len() ==> (#[trigger] entries@[j]).0@ != key@,
        },
{
    let mut i: usize = entries.len();
    while i > 0
        invariant
            i <= entries.len(),
            forall|j: int| i <= j < entries@.len() ==> (#[trigger] entries@[j]).0@ != key@,
        decreases i,
    {
        i = i - 1;
        if str_eq(entries[i].0.as_str(), key) {
            return Some(i);
        }
    }
    None
}

} // verus!
