//! Small name-keyed tables: vectors of `(name, value)` entries looked up by name.
//!
//! A lookup finds the first entry carrying the name; tables built with
//! [`table_insert`] never hold a name twice.

use vstd::prelude::*;

use crate::text::str_eq;

verus! {

/// `i` is the position of the first entry named `k`.
pub open spec fn is_first_key<V>(s: Seq<(String, V)>, k: Seq<char>, i: int) -> bool {
    &&& 0 <= i < s.len()
    &&& s[i].0@ == k
    &&& forall|j: int| 0 <= j < i ==> (#[trigger] s[j]).0@ != k
}

/// Position of the first entry named `k`, if any.
pub open spec fn first_key<V>(s: Seq<(String, V)>, k: Seq<char>) -> Option<int> {
    if exists|i: int| is_first_key(s, k, i) {
        Some(choose|i: int| is_first_key(s, k, i))
    } else {
        None
    }
}

/// Some entry is named `k`.
pub open spec fn has_key<V>(s: Seq<(String, V)>, k: Seq<char>) -> bool {
    exists|i: int| 0 <= i < s.len() && (#[trigger] s[i]).0@ == k
}

/// No name occurs twice.
pub open spec fn keys_distinct<V>(s: Seq<(String, V)>) -> bool {
    forall|i: int, j: int| 0 <= i < j < s.len() ==> (#[trigger] s[i]).0@ != (#[trigger] s[j]).0@
}

/// The names of a sequence of strings.
pub open spec fn strings_view(s: Seq<String>) -> Seq<Seq<char>> {
    s.map_values(|x: String| x@)
}

/// There is at most one first entry of a name.
pub proof fn lemma_first_key_unique<V>(s: Seq<(String, V)>, k: Seq<char>, i: int, j: int)
    requires
        is_first_key(s, k, i),
        is_first_key(s, k, j),
    ensures
        i == j,
{
    if i < j {
        assert(s[i].0@ != k);
    } else if j < i {
        assert(s[j].0@ != k);
    }
}

/// A name that occurs has a first occurrence.
pub proof fn lemma_first_key_exists<V>(s: Seq<(String, V)>, k: Seq<char>, i: int)
    requires
        0 <= i < s.len(),
        s[i].0@ == k,
    ensures
        first_key(s, k) is Some,
    decreases i,
{
    if forall|j: int| 0 <= j < i ==> (#[trigger] s[j]).0@ != k {
        assert(is_first_key(s, k, i));
    } else {
        let j = choose|j: int| 0 <= j < i && (#[trigger] s[j]).0@ == k;
        lemma_first_key_exists(s, k, j);
    }
}

/// A name is found exactly when some entry carries it.
pub proof fn lemma_first_key_iff_has_key<V>(s: Seq<(String, V)>, k: Seq<char>)
    ensures
        first_key(s, k) is Some <==> has_key(s, k),
        first_key(s, k) matches Some(i) ==> is_first_key(s, k, i),
{
    if has_key(s, k) {
        let i = choose|i: int| 0 <= i < s.len() && (#[trigger] s[i]).0@ == k;
        lemma_first_key_exists(s, k, i);
    }
}

/// Finds the position of the first entry named `key`.
pub fn find_key<V>(entries: &Vec<(String, V)>, key: &str) -> (r: Option<usize>)
    ensures
        match r {
            Some(i) => first_key(entries@, key@) == Some(i as int),
            None => first_key(entries@, key@) is None && !has_key(entries@, key@),
        },
{
    let mut i: usize = 0;
    while i < entries.len()
        invariant
            i <= entries@.len(),
            forall|j: int| 0 <= j < i ==> (#[trigger] entries@[j]).0@ != key@,
        decreases entries@.len() - i,
    {
        if str_eq(entries[i].0.as_str(), key) {
            proof {
                assert(is_first_key(entries@, key@, i as int));
                let c = choose|c: int| is_first_key(entries@, key@, c);
                lemma_first_key_unique(entries@, key@, i as int, c);
            }
            return Some(i);
        }
        i = i + 1;
    }
    proof {
        lemma_first_key_iff_has_key(entries@, key@);
    }
    None
}

/// Sets the value under `key`: replaces the first entry of that name, or
/// appends a new entry when there is none.
pub fn table_insert<V>(entries: &mut Vec<(String, V)>, key: String, value: V)
    ensures
        match first_key(old(entries)@, key@) {
            Some(i) => final(entries)@ == old(entries)@.update(i, (key, value)),
            None => final(entries)@ == old(entries)@.push((key, value)),
        },
        keys_distinct(old(entries)@) ==> keys_distinct(final(entries)@),
        first_key(final(entries)@, key@) matches Some(i) && final(entries)@[i] == (key, value),
{
    let found = find_key(entries, key.as_str());
    let ghost k = key@;
    match found {
        Some(i) => {
            proof {
                lemma_first_key_iff_has_key(old(entries)@, k);
            }
            entries.set(i, (key, value));
            proof {
                let s = final(entries)@;
                assert(is_first_key(s, k, i as int));
                let c = choose|c: int| is_first_key(s, k, c);
                lemma_first_key_unique(s, k, i as int, c);
            }
        },
        None => {
            entries.push((key, value));
            proof {
                let s = final(entries)@;
                let n = old(entries)@.len() as int;
                assert(s[n].0@ == k);
                assert forall|j: int| 0 <= j < n implies (#[trigger] s[j]).0@ != k by {
                    assert(s[j] == old(entries)@[j]);
                }
                assert(is_first_key(s, k, n));
                let c = choose|c: int| is_first_key(s, k, c);
                lemma_first_key_unique(s, k, n, c);
            }
        },
    }
}

/// Whether a list of names holds `name`.
pub fn contains_str(items: &Vec<String>, name: &str) -> (r: bool)
    ensures
        r == strings_view(items@).contains(name@),
{
    let mut i: usize = 0;
    while i < items.len()
        invariant
            i <= items@.len(),
            forall|j: int| 0 <= j < i ==> (#[trigger] items@[j])@ != name@,
        decreases items@.len() - i,
    {
        if str_eq(items[i].as_str(), name) {
            assert(strings_view(items@)[i as int] == name@);
            return true;
        }
        i = i + 1;
    }
    proof {
        if strings_view(items@).contains(name@) {
            let j = choose|j: int| 0 <= j < strings_view(items@).len() && strings_view(items@)[j] == name@;
            assert(items@[j]@ == name@);
        }
    }
    false
}

/// Adds a name to a list of names unless it is already there.
pub fn insert_str(items: &mut Vec<String>, name: String)
    ensures
        strings_view(old(items)@).contains(name@) ==> final(items)@ == old(items)@,
        !strings_view(old(items)@).contains(name@) ==> final(items)@ == old(items)@.push(name),
{
    if !contains_str(items, name.as_str()) {
        items.push(name);
    }
}

/// Setting one name of a table leaves the lookups of the other names as they were.
pub proof fn lemma_other_key_kept<V>(
    before: Seq<(String, V)>,
    after: Seq<(String, V)>,
    x: (String, V),
    n: Seq<char>,
)
    requires
        n != x.0@,
        match first_key(before, x.0@) {
            Some(i) => after == before.update(i, x),
            None => after == before.push(x),
        },
    ensures
        first_key(after, n) == first_key(before, n),
        first_key(before, n) matches Some(j) ==> after[j] == before[j],
{
    let k = x.0@;
    lemma_first_key_iff_has_key(before, n);
    lemma_first_key_iff_has_key(after, n);
    lemma_first_key_iff_has_key(before, k);
    if first_key(before, k) is None {
        assert(after.drop_last() =~= before);
    }
    match first_key(before, n) {
        Some(j) => {
            match first_key(before, k) {
                Some(i) => {
                    assert(i != j);
                    assert(after[j] == before[j]);
                    assert forall|m: int| 0 <= m < j implies (#[trigger] after[m]).0@ != n by {
                        if m == i {
                        } else {
                            assert(after[m] == before[m]);
                        }
                    }
                },
                None => {
                    assert(after[j] == before[j]) by {
                        assert(after.drop_last()[j] == before[j]);
                    }
                    assert forall|m: int| 0 <= m < j implies (#[trigger] after[m]).0@ != n by {
                        assert(after.drop_last()[m] == before[m]);
                    }
                },
            }
            assert(is_first_key(after, n, j));
            let c = choose|c: int| is_first_key(after, n, c);
            lemma_first_key_unique(after, n, j, c);
        },
        None => {
            if has_key(after, n) {
                let m = choose|m: int| 0 <= m < after.len() && (#[trigger] after[m]).0@ == n;
                match first_key(before, k) {
                    Some(i) => {
                        assert(m != i);
                        assert(before[m].0@ == n);
                    },
                    None => {
                        assert(m != after.len() - 1);
                        assert(after.drop_last()[m] == before[m]);
                        assert(before[m].0@ == n);
                    },
                }
            }
        },
    }
}


/// The map a table of string pairs stands for: each name to the value of its
/// first entry.
pub open spec fn table_map(s: Seq<(String, String)>) -> Map<Seq<char>, Seq<char>> {
    Map::new(|k: Seq<char>| has_key(s, k), |k: Seq<char>| s[first_key(s, k)->Some_0].1@)
}

/// Setting a name in a table sets it in the map the table stands for.
pub proof fn lemma_table_insert_map(before: Seq<(String, String)>, after: Seq<(String, String)>, x: (String, String))
    requires
        match first_key(before, x.0@) {
            Some(i) => after == before.update(i, x),
            None => after == before.push(x),
        },
        first_key(after, x.0@) matches Some(i) && after[i] == x,
    ensures
        table_map(after) == table_map(before).insert(x.0@, x.1@),
{
    let k = x.0@;
    assert forall|n: Seq<char>| #[trigger] has_key(after, n) == (has_key(before, n) || n == k) by {
        lemma_first_key_iff_has_key(after, n);
        lemma_first_key_iff_has_key(before, n);
        if n != k {
            lemma_other_key_kept(before, after, x, n);
        }
    }
    assert forall|n: Seq<char>| has_key(after, n) implies #[trigger] after[first_key(after, n)->Some_0].1@ == table_map(before).insert(k, x.1@)[n] by {
        lemma_first_key_iff_has_key(after, n);
        lemma_first_key_iff_has_key(before, n);
        if n != k {
            lemma_other_key_kept(before, after, x, n);
        }
    }
    assert(table_map(after) =~= table_map(before).insert(k, x.1@));
}

} // verus!
