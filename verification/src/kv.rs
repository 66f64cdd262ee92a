//! Ghost model shared by the keyed containers: the map denoted by a sequence
//! of key/value pairs, and how lookups, updates and appends on the sequence
//! show up in that map.

use vstd::prelude::*;

verus! {

/// The views of a sequence of owned key/value pairs.
pub open spec fn kvs<V: View>(s: Seq<(String, V)>) -> Seq<(Seq<char>, V::V)> {
    s.map_values(|kv: (String, V)| (kv.0@, kv.1@))
}

/// The map denoted by a sequence of key/value pairs; a later pair wins.
pub open spec fn map_of<V>(s: Seq<(Seq<char>, V)>) -> Map<Seq<char>, V>
    decreases s.len(),
{
    if s.len() == 0 {
        Map::empty()
    } else {
        map_of(s.drop_last()).insert(s.last().0, s.last().1)
    }
}

/// No two pairs of the sequence share a key.
pub open spec fn keys_unique<V>(s: Seq<(Seq<char>, V)>) -> bool {
    forall|i: int, j: int| 0 <= i < j < s.len() ==> s[i].0 != s[j].0
}

/// A finite sequence of pairs denotes a map with a finite domain.
pub proof fn lemma_map_of_finite<V>(s: Seq<(Seq<char>, V)>)
    ensures
        map_of(s).dom().finite(),
        map_of(s).dom().len() <= s.len(),
    decreases s.len(),
{
    if s.len() > 0 {
        lemma_map_of_finite(s.drop_last());
    }
}

/// With unique keys, the denoted map has exactly one key per pair.
pub proof fn lemma_map_of_len<V>(s: Seq<(Seq<char>, V)>)
    requires
        keys_unique(s),
    ensures
        map_of(s).dom().finite(),
        map_of(s).dom().len() == s.len(),
    decreases s.len(),
{
    if s.len() > 0 {
        assert(keys_unique(s.drop_last())) by {
            assert(forall|x: int, y: int|
                0 <= x < y < s.len() - 1 ==> s.drop_last()[x] == s[x] && s.drop_last()[y] == s[y]);
        }
        lemma_map_of_len(s.drop_last());
        lemma_map_of_contains(s.drop_last(), s.last().0);
        assert(forall|i: int| 0 <= i < s.len() - 1 ==> s.drop_last()[i] == s[i]);
        assert(!map_of(s.drop_last()).contains_key(s.last().0));
    }
}

/// A key is in the denoted map exactly when some pair of the sequence holds it.
pub proof fn lemma_map_of_contains<V>(s: Seq<(Seq<char>, V)>, k: Seq<char>)
    ensures
        map_of(s).contains_key(k) <==> exists|i: int| 0 <= i < s.len() && s[i].0 == k,
    decreases s.len(),
{
    if s.len() > 0 {
        lemma_map_of_contains(s.drop_last(), k);
        if s.last().0 == k {
            assert(s[s.len() - 1].0 == k);
        } else if map_of(s).contains_key(k) {
            let i = choose|i: int| 0 <= i < s.len() - 1 && s.drop_last()[i].0 == k;
            assert(s[i].0 == k);
        } else {
            assert forall|i: int| 0 <= i < s.len() implies s[i].0 != k by {
                if i < s.len() - 1 {
                    assert(s.drop_last()[i] == s[i]);
                }
            }
        }
    }
}

/// With unique keys, each pair's value is the denoted map's value at its key.
pub proof fn lemma_map_of_index<V>(s: Seq<(Seq<char>, V)>, i: int)
    requires
        keys_unique(s),
        0 <= i < s.len(),
    ensures
        map_of(s).contains_key(s[i].0),
        map_of(s)[s[i].0] == s[i].1,
    decreases s.len(),
{
    if i < s.len() - 1 {
        assert(keys_unique(s.drop_last())) by {
            assert(forall|x: int, y: int|
                0 <= x < y < s.len() - 1 ==> s.drop_last()[x] == s[x] && s.drop_last()[y] == s[y]);
        }
        lemma_map_of_index(s.drop_last(), i);
        assert(s.drop_last()[i] == s[i]);
        assert(s.last().0 != s[i].0);
    }
}

/// Appending a pair with a fresh key inserts it into the denoted map and
/// keeps the keys unique.
pub proof fn lemma_map_of_push<V>(s: Seq<(Seq<char>, V)>, k: Seq<char>, v: V)
    requires
        keys_unique(s),
        forall|i: int| 0 <= i < s.len() ==> s[i].0 != k,
    ensures
        map_of(s.push((k, v))) == map_of(s).insert(k, v),
        keys_unique(s.push((k, v))),
    decreases s.len(),
{
    let t = s.push((k, v));
    assert(t.drop_last() =~= s);
    assert(forall|i: int| 0 <= i < s.len() ==> t[i] == s[i]);
}

/// Overwriting the pair that holds a key updates the denoted map at that key
/// and keeps the keys unique.
pub proof fn lemma_map_of_update<V>(s: Seq<(Seq<char>, V)>, i: int, k: Seq<char>, v: V)
    requires
        keys_unique(s),
        0 <= i < s.len(),
        s[i].0 == k,
    ensures
        map_of(s.update(i, (k, v))) == map_of(s).insert(k, v),
        keys_unique(s.update(i, (k, v))),
    decreases s.len(),
{
    let t = s.update(i, (k, v));
    assert(forall|j: int| 0 <= j < s.len() && j != i ==> t[j] == s[j]);
    if i == s.len() - 1 {
        assert(t.drop_last() =~= s.drop_last());
        assert(map_of(t) == map_of(s.drop_last()).insert(k, v));
        assert(map_of(s).insert(k, v) =~= map_of(s.drop_last()).insert(k, v));
    } else {
        assert(keys_unique(s.drop_last())) by {
            assert(forall|x: int, y: int|
                0 <= x < y < s.len() - 1 ==> s.drop_last()[x] == s[x] && s.drop_last()[y] == s[y]);
        }
        assert(t.drop_last() =~= s.drop_last().update(i, (k, v)));
        lemma_map_of_update(s.drop_last(), i, k, v);
        assert(s.last().0 != k);
        assert(map_of(t) == map_of(s.drop_last()).insert(k, v).insert(t.last().0, t.last().1));
        assert(t.last() == s.last());
        assert(map_of(s.drop_last()).insert(k, v).insert(s.last().0, s.last().1) =~= map_of(
            s,
        ).insert(k, v));
    }
}

/// The facts a loop that walks a uniquely-keyed sequence of pairs needs at
/// step `i`: the prefix map is finite, the next key is fresh in it, walking
/// one pair further inserts that pair, and the full map holds it.
pub proof fn lemma_prefix_step<V: View>(fields: Seq<(String, V)>, i: int)
    requires
        keys_unique(kvs(fields)),
        0 <= i < fields.len(),
    ensures
        map_of(kvs(fields.take(i))).dom().finite(),
        !map_of(kvs(fields.take(i))).contains_key(kvs(fields)[i].0),
        map_of(kvs(fields.take(i + 1))) == map_of(kvs(fields.take(i))).insert(
            kvs(fields)[i].0,
            kvs(fields)[i].1,
        ),
        map_of(kvs(fields)).contains_key(kvs(fields)[i].0),
        map_of(kvs(fields))[kvs(fields)[i].0] == kvs(fields)[i].1,
        kvs(fields)[i] == (fields[i].0@, fields[i].1@),
{
    let prefix = kvs(fields.take(i));
    assert(prefix =~= kvs(fields).take(i));
    lemma_map_of_finite(prefix);
    assert(keys_unique(prefix));
    lemma_map_of_contains(prefix, kvs(fields)[i].0);
    lemma_map_of_push(prefix, kvs(fields)[i].0, kvs(fields)[i].1);
    assert(kvs(fields.take(i + 1)) =~= prefix.push((kvs(fields)[i].0, kvs(fields)[i].1)));
    lemma_map_of_index(kvs(fields), i);
}

} // verus!
