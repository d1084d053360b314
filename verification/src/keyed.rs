//! Name-keyed tables kept as vectors of `(name, value)` entries.
//!
//! A table stands for the map obtained by inserting its entries in order, so
//! a later entry for a name replaces an earlier one, as `HashMap::insert` and
//! `HashMap::extend` do. Tables built with `upsert` hold each name once.
use vstd::prelude::*;

verus! {

/// The map a table stands for: entries inserted first to last.
pub open spec fn table_map<V>(s: Seq<(String, V)>) -> Map<Seq<char>, V>
    decreases s.len(),
{
    if s.len() == 0 {
        Map::empty()
    } else {
        table_map(s.drop_last()).insert(s.last().0@, s.last().1)
    }
}

/// The map of a table of texts, values taken by their characters.
pub open spec fn text_map(s: Seq<(String, String)>) -> Map<Seq<char>, Seq<char>> {
    table_map(s).map_values(|v: String| v@)
}

/// No two entries share a name.
pub open spec fn names_unique<V>(s: Seq<(String, V)>) -> bool {
    forall|i: int, j: int| 0 <= i < j < s.len() ==> s[i].0@ != s[j].0@
}

/// A name is in the map exactly when some entry carries it.
pub proof fn lemma_table_dom<V>(s: Seq<(String, V)>, k: Seq<char>)
    ensures
        table_map(s).contains_key(k) <==> exists|i: int| 0 <= i < s.len() && s[i].0@ == k,
    decreases s.len(),
{
    if s.len() > 0 {
        let t = s.drop_last();
        lemma_table_dom(t, k);
        if exists|i: int| 0 <= i < t.len() && t[i].0@ == k {
            let i = choose|i: int| 0 <= i < t.len() && t[i].0@ == k;
            assert(s[i].0@ == k);
        }
        if exists|i: int| 0 <= i < s.len() && s[i].0@ == k {
            let i = choose|i: int| 0 <= i < s.len() && s[i].0@ == k;
            if i < s.len() - 1 {
                assert(t[i].0@ == k);
            }
        }
    }
}

/// The value of a name is that of its last entry.
pub proof fn lemma_table_value<V>(s: Seq<(String, V)>, i: int)
    requires
        0 <= i < s.len(),
        forall|j: int| i < j < s.len() ==> s[j].0@ != s[i].0@,
    ensures
        table_map(s).contains_key(s[i].0@),
        table_map(s)[s[i].0@] == s[i].1,
    decreases s.len(),
{
    if i < s.len() - 1 {
        let t = s.drop_last();
        assert(t[i] == s[i]);
        lemma_table_value(t, i);
    }
}

/// In a table whose names are unique, each entry gives the value of its name.
pub proof fn lemma_table_at<V>(s: Seq<(String, V)>, i: int)
    requires
        0 <= i < s.len(),
        names_unique(s),
    ensures
        table_map(s).contains_key(s[i].0@),
        table_map(s)[s[i].0@] == s[i].1,
{
    lemma_table_value(s, i);
}

/// A name in the map is carried by some entry.
pub proof fn lemma_table_index<V>(s: Seq<(String, V)>, k: Seq<char>) -> (i: int)
    requires
        table_map(s).contains_key(k),
    ensures
        0 <= i < s.len(),
        s[i].0@ == k,
{
    lemma_table_dom(s, k);
    choose|i: int| 0 <= i < s.len() && s[i].0@ == k
}

/// Replacing the value of an entry whose name occurs once updates the map.
pub proof fn lemma_table_update<V>(s: Seq<(String, V)>, i: int, v: V)
    requires
        0 <= i < s.len(),
        names_unique(s),
    ensures
        table_map(s.update(i, (s[i].0, v))) == table_map(s).insert(s[i].0@, v),
        names_unique(s.update(i, (s[i].0, v))),
    decreases s.len(),
{
    let u = s.update(i, (s[i].0, v));
    if i < s.len() - 1 {
        let t = s.drop_last();
        assert(u.drop_last() =~= t.update(i, (t[i].0, v)));
        lemma_table_update(t, i, v);
        assert(table_map(u) =~= table_map(s).insert(s[i].0@, v));
    } else {
        assert(u.drop_last() =~= s.drop_last());
        assert(table_map(u) =~= table_map(s).insert(s[i].0@, v));
    }
}

/// Appending an entry with a fresh name keeps names unique.
pub proof fn lemma_table_push_unique<V>(s: Seq<(String, V)>, e: (String, V))
    requires
        names_unique(s),
        forall|j: int| 0 <= j < s.len() ==> s[j].0@ != e.0@,
    ensures
        names_unique(s.push(e)),
        table_map(s.push(e)) == table_map(s).insert(e.0@, e.1),
{
    assert(s.push(e).drop_last() =~= s);
}

/// Finds the last entry carrying `key`.
pub fn find_entry<V>(s: &Vec<(String, V)>, key: &String) -> (r: Option<usize>)
    ensures
        r matches Some(i) ==> i < s@.len() && s@[i as int].0@ == key@ && forall|j: int|
            i < j < s@.len() ==> s@[j].0@ != key@,
        r is None ==> forall|j: int| 0 <= j < s@.len() ==> s@[j].0@ != key@,
{
    let mut i = s.len();
    while i > 0
        invariant
            i <= s@.len(),
            forall|j: int| i <= j < s@.len() ==> s@[j].0@ != key@,
        decreases i,
    {
        if s[i - 1].0 == *key {
            return Some(i - 1);
        }
        i = i - 1;
    }
    None
}

/// Looks a name up in a table.
pub fn table_get<'a, V>(s: &'a Vec<(String, V)>, key: &String) -> (r: Option<&'a V>)
    ensures
        r matches Some(v) ==> table_map(s@).contains_key(key@) && table_map(s@)[key@] == *v,
        r is None ==> !table_map(s@).contains_key(key@),
{
    match find_entry(s, key) {
        Some(i) => {
            proof {
                lemma_table_value(s@, i as int);
            }
            Some(&s[i].1)
        },
        None => {
            proof {
                lemma_table_dom(s@, key@);
            }
            None
        },
    }
}

/// Inserts or replaces the entry for a name (`HashMap::insert`).
pub fn upsert<V>(s: &mut Vec<(String, V)>, key: String, v: V)
    requires
        names_unique(old(s)@),
    ensures
        names_unique(final(s)@),
        table_map(final(s)@) == table_map(old(s)@).insert(key@, v),
{
    match find_entry(s, &key) {
        Some(i) => {
            proof {
                lemma_table_update(s@, i as int, v);
            }
            let ghost k = s@[i as int].0;
            s.set(i, (key, v));
            proof {
                assert(k@ == s@[i as int].0@);
                assert forall|a: int, b: int| 0 <= a < b < s@.len() implies s@[a].0@
                    != s@[b].0@ by {
                    assert(old(s)@.update(i as int, (k, v))[a].0@ == s@[a].0@);
                    assert(old(s)@.update(i as int, (k, v))[b].0@ == s@[b].0@);
                }
                assert(table_map(s@) =~= table_map(old(s)@.update(i as int, (k, v)))) by {
                    lemma_table_same_names(s@, old(s)@.update(i as int, (k, v)));
                }
            }
        },
        None => {
            proof {
                lemma_table_push_unique(s@, (key, v));
            }
            s.push((key, v));
        },
    }
}

/// Tables whose entries agree on name views and values stand for the same map.
pub proof fn lemma_table_same_names<V>(a: Seq<(String, V)>, b: Seq<(String, V)>)
    requires
        a.len() == b.len(),
        forall|i: int| 0 <= i < a.len() ==> a[i].0@ == b[i].0@ && a[i].1 == b[i].1,
    ensures
        table_map(a) == table_map(b),
    decreases a.len(),
{
    if a.len() > 0 {
        lemma_table_same_names(a.drop_last(), b.drop_last());
    }
}

} // verus!
