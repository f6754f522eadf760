//! Finding an entry by its string key in a list that keeps insertion order.

use vstd::prelude::*;

verus! {

/// The place of the first key equal to `key`, or the length of `keys` where
/// there is none.
pub open spec fn index_of(keys: Seq<Seq<char>>, key: Seq<char>) -> int
    decreases keys.len(),
{
    if keys.len() == 0 {
        0
    } else if keys[0] == key {
        0
    } else {
        1 + index_of(keys.drop_first(), key)
    }
}

/// Whether some key of `keys` equals `key`.
pub open spec fn has_key(keys: Seq<Seq<char>>, key: Seq<char>) -> bool {
    index_of(keys, key) < keys.len()
}

/// `index_of` is within the list, points at the key where it is below the
/// length, and passes no equal key on the way.
pub proof fn lemma_index_of_bounds(keys: Seq<Seq<char>>, key: Seq<char>)
    ensures
        0 <= index_of(keys, key) <= keys.len(),
        index_of(keys, key) < keys.len() ==> keys[index_of(keys, key)] == key,
        forall|j: int| 0 <= j < index_of(keys, key) ==> keys[j] != key,
    decreases keys.len(),
{
    if keys.len() != 0 && keys[0] != key {
        let rest = keys.drop_first();
        lemma_index_of_bounds(rest, key);
        assert forall|j: int| 0 <= j < index_of(keys, key) implies keys[j] != key by {
            if j > 0 {
                assert(keys[j] == rest[j - 1]);
            }
        }
    }
}

/// A place that no equal key precedes, and that holds the key or is the end
/// of the list, is the place that `index_of` names.
pub proof fn lemma_index_of_is(keys: Seq<Seq<char>>, key: Seq<char>, i: int)
    requires
        0 <= i <= keys.len(),
        forall|j: int| 0 <= j < i ==> keys[j] != key,
        i < keys.len() ==> keys[i] == key,
    ensures
        index_of(keys, key) == i,
{
    lemma_index_of_bounds(keys, key);
    let k = index_of(keys, key);
    if k < i {
        assert(keys[k] == key);
    } else if k > i {
        assert(keys[i] != key);
    }
}

/// Whether no key occurs twice.
pub open spec fn distinct(keys: Seq<Seq<char>>) -> bool {
    forall|i: int, j: int| 0 <= i < j < keys.len() ==> keys[i] != keys[j]
}

/// The keys after an entry was put under `key`: as they were where the key
/// is among them, with the key at the end where it is not.
pub open spec fn with_key(keys: Seq<Seq<char>>, key: Seq<char>) -> Seq<Seq<char>> {
    if has_key(keys, key) {
        keys
    } else {
        keys.push(key)
    }
}

/// Putting an entry under a key leaves distinct keys distinct.
pub proof fn lemma_with_key_distinct(keys: Seq<Seq<char>>, key: Seq<char>)
    requires
        distinct(keys),
    ensures
        distinct(with_key(keys, key)),
{
    lemma_index_of_bounds(keys, key);
    if !has_key(keys, key) {
        let after = keys.push(key);
        assert forall|i: int, j: int| 0 <= i < j < after.len() implies after[i] != after[j] by {
            if j == keys.len() {
                assert(keys[i] != key);
            }
        }
    }
}

/// The strings of a list as sequences of characters.
pub open spec fn key_views(list: Seq<String>) -> Seq<Seq<char>> {
    list.map_values(|s: String| s@)
}

/// The place of the first string equal to `key`, or the length of the list
/// where there is none.
pub fn find_key(list: &Vec<String>, key: &String) -> (place: usize)
    ensures
        place == index_of(key_views(list@), key@),
        place <= list.len(),
        (place < list.len()) == key_views(list@).contains(key@),
{
    let ghost keys = key_views(list@);
    let mut i: usize = 0;
    while i < list.len()
        invariant
            i <= list.len(),
            keys == key_views(list@),
            forall|j: int| 0 <= j < i ==> keys[j] != key@,
        decreases list.len() - i,
    {
        if list[i] == *key {
            proof {
                lemma_index_of_is(keys, key@, i as int);
                assert(keys[i as int] == key@);
            }
            return i;
        }
        i += 1;
    }
    proof {
        lemma_index_of_is(keys, key@, i as int);
    }
    i
}

} // verus!
