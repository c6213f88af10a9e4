//! Keyed tables: records in a fixed order, each under the key it came with.
//! A key is looked up from the front, so the first row under a key is the one
//! that counts.

use vstd::prelude::*;
use vstd::string::*;

verus! {

/// The keys of `table`, in order.
pub open spec fn keys<T>(table: Seq<(String, T)>) -> Seq<Seq<char>> {
    table.map_values(|row: (String, T)| row.0@)
}

/// The rows of `table` with each key and record taken by its view.
pub open spec fn rows<T: View>(table: Seq<(String, T)>) -> Seq<(Seq<char>, T::V)> {
    table.map_values(|row: (String, T)| (row.0@, row.1@))
}

/// The keys of rows that are taken by their views, in order.
pub open spec fn row_keys<V>(rows: Seq<(Seq<char>, V)>) -> Seq<Seq<char>> {
    rows.map_values(|row: (Seq<char>, V)| row.0)
}

/// The keys of a table are the keys of its rows.
pub proof fn lemma_row_keys<T: View>(table: Seq<(String, T)>)
    ensures
        row_keys(rows(table)) == keys(table),
{
    assert(row_keys(rows(table)) =~= keys(table));
}

/// The first position of `key` in `keys`, if it occurs.
pub open spec fn index_of(keys: Seq<Seq<char>>, key: Seq<char>) -> Option<int> {
    if exists|i: int| 0 <= i < keys.len() && keys[i] == key {
        Some(first_index(keys, key, 0))
    } else {
        None
    }
}

/// The first position at or after `from` at which `key` stands in `keys`, or
/// the length of `keys`.
pub open spec fn first_index(keys: Seq<Seq<char>>, key: Seq<char>, from: int) -> int
    decreases keys.len() - from,
{
    if from < 0 || from >= keys.len() {
        keys.len() as int
    } else if keys[from] == key {
        from
    } else {
        first_index(keys, key, from + 1)
    }
}

/// `first_index` gives a position at or after `from` before which, from
/// `from` on, the key does not stand.
pub proof fn lemma_first_index(keys: Seq<Seq<char>>, key: Seq<char>, from: int)
    requires
        0 <= from <= keys.len(),
    ensures
        from <= first_index(keys, key, from) <= keys.len(),
        first_index(keys, key, from) < keys.len() ==> keys[first_index(keys, key, from)] == key,
        forall|j: int| from <= j < first_index(keys, key, from) ==> keys[j] != key,
    decreases keys.len() - from,
{
    if from < keys.len() && keys[from] != key {
        lemma_first_index(keys, key, from + 1);
    }
}

/// A position before which the key does not stand, and at which it stands
/// unless the position is the end, is what `index_of` gives.
pub proof fn lemma_index_of_is(keys: Seq<Seq<char>>, key: Seq<char>, i: int)
    requires
        0 <= i <= keys.len(),
        forall|j: int| 0 <= j < i ==> keys[j] != key,
        i < keys.len() ==> keys[i] == key,
    ensures
        index_of(keys, key) == if i < keys.len() {
            Some(i)
        } else {
            None
        },
{
    lemma_first_index(keys, key, 0);
}

/// What `index_of` gives is a position of the key, the first one.
pub proof fn lemma_index_of(keys: Seq<Seq<char>>, key: Seq<char>)
    ensures
        match index_of(keys, key) {
            Some(i) => 0 <= i < keys.len() && keys[i] == key && forall|j: int|
                0 <= j < i ==> keys[j] != key,
            None => forall|j: int| 0 <= j < keys.len() ==> keys[j] != key,
        },
{
    lemma_first_index(keys, key, 0);
}

/// Finds the first row of `table` under `key`.
pub fn find_row<T>(table: &Vec<(String, T)>, key: &str) -> (found: Option<usize>)
    ensures
        match found {
            Some(i) => index_of(keys(table@), key@) == Some(i as int) && i < table.len(),
            None => index_of(keys(table@), key@) is None,
        },
{
    let wanted = String::from_str(key);
    let mut i: usize = 0;
    while i < table.len()
        invariant
            i <= table.len(),
            wanted@ == key@,
            forall|j: int| 0 <= j < i ==> keys(table@)[j] != key@,
        decreases table.len() - i,
    {
        if table[i].0 == wanted {
            proof {
                lemma_index_of_is(keys(table@), key@, i as int);
            }
            return Some(i);
        }
        i = i + 1;
    }
    proof {
        lemma_index_of_is(keys(table@), key@, i as int);
    }
    None
}

} // verus!
