//! Small string-keyed tables held as vectors of `(key, value)` entries with
//! distinct keys, viewed as maps from key text to value.

use vstd::prelude::*;
use crate::text::{copy_string, str_eq};

verus! {

/// The map a table stands for (for distinct keys, each key's entry).
pub open spec fn tmap<V>(s: Seq<(String, V)>) -> Map<Seq<char>, V>
    decreases s.len(),
{
    if s.len() == 0 {
        Map::empty()
    } else {
        tmap(s.drop_last()).insert(s.last().0@, s.last().1)
    }
}

/// No key occurs twice.
pub open spec fn unique_keys<V>(s: Seq<(String, V)>) -> bool {
    forall|i: int, j: int| 0 <= i < j < s.len() ==> (#[trigger] s[i]).0@ != (#[trigger] s[j]).0@
}

/// The keys of a table are exactly the keys of its entries.
pub proof fn lemma_tmap_dom<V>(s: Seq<(String, V)>)
    ensures
        forall|k: Seq<char>|
            #[trigger] tmap(s).contains_key(k) <==> exists|i: int| 0 <= i < s.len() && s[i].0@ == k,
    decreases s.len(),
{
    if s.len() > 0 {
        lemma_tmap_dom(s.drop_last());
        assert forall|k: Seq<char>| #[trigger] tmap(s).contains_key(k) implies exists|i: int|
            0 <= i < s.len() && s[i].0@ == k by {
            if k == s.last().0@ {
                assert(s[s.len() - 1].0@ == k);
            } else {
                assert(tmap(s.drop_last()).contains_key(k));
                let i = choose|i: int| 0 <= i < s.drop_last().len() && s.drop_last()[i].0@ == k;
                assert(s.drop_last()[i] == s[i]);
                assert(s[i].0@ == k);
            }
        }
        assert forall|k: Seq<char>| (exists|i: int| 0 <= i < s.len() && s[i].0@ == k) implies #[trigger] tmap(
            s,
        ).contains_key(k) by {
            let i = choose|i: int| 0 <= i < s.len() && s[i].0@ == k;
            if i < s.len() - 1 {
                assert(s.drop_last()[i] == s[i]);
                assert(s.drop_last()[i].0@ == k);
                assert(tmap(s.drop_last()).contains_key(k));
            }
        }
    }
}

/// A table with distinct keys has exactly as many keys as entries.
pub proof fn lemma_tmap_len<V>(s: Seq<(String, V)>)
    requires
        unique_keys(s),
    ensures
        tmap(s).dom().finite(),
        tmap(s).dom().len() == s.len(),
    decreases s.len(),
{
    if s.len() == 0 {
        assert(tmap(s).dom() =~= Set::<Seq<char>>::empty());
    } else {
        let d = s.drop_last();
        assert(unique_keys(d)) by {
            assert forall|a: int, b: int| 0 <= a < b < d.len() implies (#[trigger] d[a]).0@ != (
            #[trigger] d[b]).0@ by {
                assert(d[a] == s[a] && d[b] == s[b]);
            }
        }
        lemma_tmap_len(d);
        lemma_tmap_dom(d);
        let k = s.last().0@;
        if tmap(d).contains_key(k) {
            let i = choose|i: int| 0 <= i < d.len() && d[i].0@ == k;
            assert(d[i] == s[i]);
            assert(s[i].0@ != s[s.len() - 1].0@);
        }
        assert(tmap(s).dom() =~= tmap(d).dom().insert(k));
    }
}

/// In a table with distinct keys, the value under an entry's key is that
/// entry's value.
pub proof fn lemma_tmap_index<V>(s: Seq<(String, V)>, i: int)
    requires
        unique_keys(s),
        0 <= i < s.len(),
    ensures
        tmap(s).contains_key(s[i].0@),
        tmap(s)[s[i].0@] == s[i].1,
    decreases s.len(),
{
    if i < s.len() - 1 {
        let d = s.drop_last();
        assert(unique_keys(d)) by {
            assert forall|a: int, b: int| 0 <= a < b < d.len() implies (#[trigger] d[a]).0@ != (
            #[trigger] d[b]).0@ by {
                assert(d[a] == s[a] && d[b] == s[b]);
            }
        }
        assert(d[i] == s[i]);
        lemma_tmap_index(d, i);
        assert(s[i].0@ != s[s.len() - 1].0@);
    }
}

/// Replacing the value of entry `i` replaces the value under its key.
pub proof fn lemma_tmap_update<V>(s: Seq<(String, V)>, i: int, e: (String, V))
    requires
        unique_keys(s),
        0 <= i < s.len(),
        e.0@ == s[i].0@,
    ensures
        unique_keys(s.update(i, e)),
        tmap(s.update(i, e)) == tmap(s).insert(e.0@, e.1),
    decreases s.len(),
{
    let u = s.update(i, e);
    assert(unique_keys(u)) by {
        assert forall|a: int, b: int| 0 <= a < b < u.len() implies (#[trigger] u[a]).0@ != (
        #[trigger] u[b]).0@ by {
            assert(u[a].0@ == s[a].0@ && u[b].0@ == s[b].0@);
        }
    }
    if i == s.len() - 1 {
        assert(u.drop_last() =~= s.drop_last());
        assert(tmap(u) =~= tmap(s).insert(e.0@, e.1));
    } else {
        let d = s.drop_last();
        assert(unique_keys(d)) by {
            assert forall|a: int, b: int| 0 <= a < b < d.len() implies (#[trigger] d[a]).0@ != (
            #[trigger] d[b]).0@ by {
                assert(d[a] == s[a] && d[b] == s[b]);
            }
        }
        assert(u.drop_last() =~= d.update(i, e));
        lemma_tmap_update(d, i, e);
        assert(s[i].0@ != s[s.len() - 1].0@);
        assert(tmap(u) =~= tmap(s).insert(e.0@, e.1));
    }
}

/// Removing entry `i` removes its key.
pub proof fn lemma_tmap_remove<V>(s: Seq<(String, V)>, i: int)
    requires
        unique_keys(s),
        0 <= i < s.len(),
    ensures
        unique_keys(s.remove(i)),
        tmap(s.remove(i)) == tmap(s).remove(s[i].0@),
    decreases s.len(),
{
    let r = s.remove(i);
    assert(unique_keys(r)) by {
        assert forall|a: int, b: int| 0 <= a < b < r.len() implies (#[trigger] r[a]).0@ != (
        #[trigger] r[b]).0@ by {
            let sa = if a < i { a } else { a + 1 };
            let sb = if b < i { b } else { b + 1 };
            assert(r[a] == s[sa] && r[b] == s[sb]);
        }
    }
    let d = s.drop_last();
    assert(unique_keys(d)) by {
        assert forall|a: int, b: int| 0 <= a < b < d.len() implies (#[trigger] d[a]).0@ != (
        #[trigger] d[b]).0@ by {
            assert(d[a] == s[a] && d[b] == s[b]);
        }
    }
    if i == s.len() - 1 {
        assert(r =~= d);
        lemma_tmap_dom(d);
        assert forall|a: int| 0 <= a < d.len() implies d[a].0@ != s[i].0@ by {
            assert(d[a] == s[a]);
        }
        assert(!tmap(d).contains_key(s[i].0@));
        assert(tmap(r) =~= tmap(s).remove(s[i].0@));
    } else {
        assert(r.drop_last() =~= d.remove(i));
        assert(r.last() == s.last());
        lemma_tmap_remove(d, i);
        assert(d[i] == s[i]);
        assert(s[i].0@ != s[s.len() - 1].0@);
        assert(tmap(r) =~= tmap(s).remove(s[i].0@));
    }
}

/// Appending an entry with a new key inserts it.
pub proof fn lemma_tmap_push<V>(s: Seq<(String, V)>, e: (String, V))
    requires
        unique_keys(s),
        !tmap(s).contains_key(e.0@),
    ensures
        unique_keys(s.push(e)),
        tmap(s.push(e)) == tmap(s).insert(e.0@, e.1),
{
    lemma_tmap_dom(s);
    let p = s.push(e);
    assert(p.drop_last() =~= s);
    assert(unique_keys(p)) by {
        assert forall|a: int, b: int| 0 <= a < b < p.len() implies (#[trigger] p[a]).0@ != (
        #[trigger] p[b]).0@ by {
            if b == s.len() {
                assert(p[a] == s[a]);
            } else {
                assert(p[a] == s[a] && p[b] == s[b]);
            }
        }
    }
}

/// Index of the entry whose key is `key`.
pub fn table_find<V>(t: &Vec<(String, V)>, key: &str) -> (r: Option<usize>)
    ensures
        match r {
            Some(i) => i < t@.len() && t@[i as int].0@ == key@,
            None => !tmap(t@).contains_key(key@),
        },
{
    proof {
        lemma_tmap_dom(t@);
    }
    let mut i: usize = 0;
    while i < t.len()
        invariant
            i <= t@.len(),
            forall|j: int| 0 <= j < i ==> (#[trigger] t@[j]).0@ != key@,
        decreases t@.len() - i,
    {
        if str_eq(t[i].0.as_str(), key) {
            return Some(i);
        }
        i = i + 1;
    }
    None
}

/// Replace the value of entry `i`, keeping its key.
pub fn table_set_at<V>(t: &mut Vec<(String, V)>, i: usize, v: V)
    requires
        unique_keys(old(t)@),
        i < old(t)@.len(),
    ensures
        final(t)@.len() == old(t)@.len(),
        final(t)@[i as int].0@ == old(t)@[i as int].0@,
        final(t)@[i as int].1 == v,
        forall|j: int| 0 <= j < old(t)@.len() && j != i ==> final(t)@[j] == old(t)@[j],
        unique_keys(final(t)@),
        tmap(final(t)@) == tmap(old(t)@).insert(old(t)@[i as int].0@, v),
{
    let k = copy_string(&t[i].0);
    let ghost e = (k, v);
    proof {
        lemma_tmap_update(t@, i as int, e);
    }
    t.set(i, (k, v));
}

/// Append an entry under a key that is not in the table yet.
pub fn table_push<V>(t: &mut Vec<(String, V)>, key: &str, v: V)
    requires
        unique_keys(old(t)@),
        !tmap(old(t)@).contains_key(key@),
    ensures
        final(t)@.len() == old(t)@.len() + 1,
        forall|j: int| 0 <= j < old(t)@.len() ==> final(t)@[j] == old(t)@[j],
        final(t)@.last().0@ == key@,
        final(t)@.last().1 == v,
        unique_keys(final(t)@),
        tmap(final(t)@) == tmap(old(t)@).insert(key@, v),
{
    let k = String::from_str(key);
    let ghost e = (k, v);
    proof {
        lemma_tmap_push(t@, e);
    }
    t.push((k, v));
}

/// Remove entry `i`.
pub fn table_remove_at<V>(t: &mut Vec<(String, V)>, i: usize) -> (r: (String, V))
    requires
        unique_keys(old(t)@),
        i < old(t)@.len(),
    ensures
        r == old(t)@[i as int],
        final(t)@ == old(t)@.remove(i as int),
        unique_keys(final(t)@),
        tmap(final(t)@) == tmap(old(t)@).remove(old(t)@[i as int].0@),
{
    proof {
        lemma_tmap_remove(t@, i as int);
    }
    t.remove(i)
}

} // verus!
