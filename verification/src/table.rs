//! The read-state tables: a map from [`Slug`] to a value, stored as a
//! vector of pairs with pairwise-distinct keys and viewed as a
//! `Map<Seq<char>, _>`.

use vstd::prelude::*;

use crate::Slug;

verus! {

/// The map that a sequence of key-value pairs denotes; a later pair with
/// the same key would win, though well-formed tables never hold one.
pub open spec fn assoc_map<V: View>(s: Seq<(Slug, V)>) -> Map<Seq<char>, V::V>
    decreases s.len(),
{
    if s.len() == 0 {
        Map::empty()
    } else {
        assoc_map(s.drop_last()).insert(s.last().0@, s.last().1@)
    }
}

/// No two pairs share a key.
pub open spec fn distinct_keys<V>(s: Seq<(Slug, V)>) -> bool {
    forall|i: int, j: int| 0 <= i < j < s.len() ==> (#[trigger] s[i]).0@ != (#[trigger] s[j]).0@
}

proof fn lemma_distinct_drop_last<V>(s: Seq<(Slug, V)>)
    requires
        distinct_keys(s),
        s.len() > 0,
    ensures
        distinct_keys(s.drop_last()),
{
    assert forall|i: int, j: int|
        0 <= i < j < s.drop_last().len() implies (#[trigger] s.drop_last()[i]).0@ != (
    #[trigger] s.drop_last()[j]).0@ by {
        assert(s.drop_last()[i] == s[i]);
        assert(s.drop_last()[j] == s[j]);
    }
}

/// A key is in the denoted map exactly when some pair holds it.
proof fn lemma_assoc_contains<V: View>(s: Seq<(Slug, V)>, k: Seq<char>)
    ensures
        assoc_map(s).contains_key(k) <==> exists|i: int| 0 <= i < s.len() && (#[trigger] s[i]).0@
            == k,
    decreases s.len(),
{
    if s.len() > 0 {
        lemma_assoc_contains(s.drop_last(), k);
        if s.last().0@ == k {
            assert((s[s.len() - 1]).0@ == k);
        } else if assoc_map(s).contains_key(k) {
            let i = choose|i: int| 0 <= i < s.drop_last().len() && (#[trigger] s.drop_last()[i]).0@
                == k;
            assert(s.drop_last()[i] == s[i]);
        } else if exists|i: int| 0 <= i < s.len() && (#[trigger] s[i]).0@ == k {
            let i = choose|i: int| 0 <= i < s.len() && (#[trigger] s[i]).0@ == k;
            assert(i < s.len() - 1);
            assert(s.drop_last()[i] == s[i]);
        }
    }
}

/// With distinct keys, the pair at any index gives the map's value for its
/// key.
proof fn lemma_assoc_lookup<V: View>(s: Seq<(Slug, V)>, i: int)
    requires
        distinct_keys(s),
        0 <= i < s.len(),
    ensures
        assoc_map(s).contains_key(s[i].0@),
        assoc_map(s)[s[i].0@] == s[i].1@,
    decreases s.len(),
{
    if i == s.len() - 1 {
    } else {
        lemma_distinct_drop_last(s);
        assert(s.drop_last()[i] == s[i]);
        lemma_assoc_lookup(s.drop_last(), i);
        assert(s[i].0@ != s.last().0@);
    }
}

/// Updating the pair at an index, keeping its key, denotes a map insert.
proof fn lemma_assoc_update<V: View>(s: Seq<(Slug, V)>, i: int, p: (Slug, V))
    requires
        distinct_keys(s),
        0 <= i < s.len(),
        p.0@ == s[i].0@,
    ensures
        assoc_map(s.update(i, p)) == assoc_map(s).insert(p.0@, p.1@),
        distinct_keys(s.update(i, p)),
    decreases s.len(),
{
    assert forall|a: int, b: int|
        0 <= a < b < s.update(i, p).len() implies (#[trigger] s.update(i, p)[a]).0@ != (
    #[trigger] s.update(i, p)[b]).0@ by {
        assert(s.update(i, p)[a].0@ == s[a].0@);
        assert(s.update(i, p)[b].0@ == s[b].0@);
    }
    if i == s.len() - 1 {
        assert(s.update(i, p).drop_last() =~= s.drop_last());
        assert(s.update(i, p).last() == p);
        assert(assoc_map(s.update(i, p)) =~= assoc_map(s).insert(p.0@, p.1@));
    } else {
        lemma_distinct_drop_last(s);
        assert(s.drop_last()[i] == s[i]);
        lemma_assoc_update(s.drop_last(), i, p);
        assert(s.update(i, p).drop_last() =~= s.drop_last().update(i, p));
        assert(s.update(i, p).last() == s.last());
        assert(s[i].0@ != s.last().0@);
        assert(assoc_map(s.update(i, p)) =~= assoc_map(s).insert(p.0@, p.1@));
    }
}

/// Pushing a pair with a fresh key denotes a map insert and keeps the keys
/// distinct.
proof fn lemma_assoc_push<V: View>(s: Seq<(Slug, V)>, p: (Slug, V))
    requires
        forall|i: int| 0 <= i < s.len() ==> (#[trigger] s[i]).0@ != p.0@,
        distinct_keys(s),
    ensures
        assoc_map(s.push(p)) == assoc_map(s).insert(p.0@, p.1@),
        distinct_keys(s.push(p)),
{
    assert(s.push(p).drop_last() =~= s);
    assert(s.push(p).last() == p);
    assert forall|a: int, b: int|
        0 <= a < b < s.push(p).len() implies (#[trigger] s.push(p)[a]).0@ != (
    #[trigger] s.push(p)[b]).0@ by {
        if b < s.len() {
            assert(s.push(p)[a] == s[a]);
            assert(s.push(p)[b] == s[b]);
        } else {
            assert(s.push(p)[a] == s[a]);
            assert(s.push(p)[b] == p);
        }
    }
}

/// With distinct keys, the denoted map has exactly one entry per pair.
proof fn lemma_assoc_dom_len<V: View>(s: Seq<(Slug, V)>)
    requires
        distinct_keys(s),
    ensures
        assoc_map(s).dom().finite(),
        assoc_map(s).dom().len() == s.len(),
    decreases s.len(),
{
    if s.len() == 0 {
        assert(assoc_map(s).dom() =~= Set::<Seq<char>>::empty());
    } else {
        lemma_distinct_drop_last(s);
        lemma_assoc_dom_len(s.drop_last());
        lemma_assoc_contains(s.drop_last(), s.last().0@);
        assert forall|i: int|
            0 <= i < s.drop_last().len() implies (#[trigger] s.drop_last()[i]).0@ != s.last().0@ by {
            assert(s.drop_last()[i] == s[i]);
        }
        assert(!assoc_map(s.drop_last()).contains_key(s.last().0@));
        assert(assoc_map(s).dom() =~= assoc_map(s.drop_last()).dom().insert(s.last().0@));
        vstd::set::axiom_set_insert_finite(assoc_map(s.drop_last()).dom(), s.last().0@);
        vstd::set::axiom_set_insert_len(assoc_map(s.drop_last()).dom(), s.last().0@);
    }
}

/// A mutable map from [`Slug`] to `V`, keyed by the slug's characters.
pub struct Table<V> {
    entries: Vec<(Slug, V)>,
}

impl<V: View> View for Table<V> {
    type V = Map<Seq<char>, V::V>;

    closed spec fn view(&self) -> Map<Seq<char>, V::V> {
        assoc_map(self.entries@)
    }
}

impl<V: View> Table<V> {
    /// Every key appears at most once, so the vector faithfully represents
    /// the map it denotes.
    pub closed spec fn wf(&self) -> bool {
        distinct_keys(self.entries@)
    }

    /// An empty table.
    pub fn new() -> (t: Table<V>)
        ensures
            t.wf(),
            t@ == Map::<Seq<char>, V::V>::empty(),
    {
        let t = Table { entries: Vec::new() };
        proof {
            assert(t.entries@ =~= Seq::<(Slug, V)>::empty());
        }
        t
    }

    /// The position of the pair holding `key`, if any.
    fn index_of(&self, key: &Slug) -> (r: Option<usize>)
        ensures
            match r {
                Some(i) => i < self.entries@.len() && self.entries@[i as int].0@ == key@,
                None => forall|i: int|
                    0 <= i < self.entries@.len() ==> (#[trigger] self.entries@[i]).0@ != key@,
            },
    {
        let n = self.entries.len();
        let mut i: usize = 0;
        while i < n
            invariant
                i <= n,
                n == self.entries@.len(),
                forall|j: int| 0 <= j < i ==> (#[trigger] self.entries@[j]).0@ != key@,
            decreases n - i,
        {
            if self.entries[i].0.0 == key.0 {
                return Some(i);
            }
            i = i + 1;
        }
        None
    }

    /// Whether `key` is mapped.
    pub fn contains_key(&self, key: &Slug) -> (r: bool)
        ensures
            r == self@.contains_key(key@),
    {
        proof {
            lemma_assoc_contains(self.entries@, key@);
        }
        match self.index_of(key) {
            Some(_) => true,
            None => false,
        }
    }

    /// The value mapped to `key`, if any.
    pub fn get(&self, key: &Slug) -> (r: Option<&V>)
        requires
            self.wf(),
        ensures
            match r {
                Some(v) => self@.contains_key(key@) && v@ == self@[key@],
                None => !self@.contains_key(key@),
            },
    {
        proof {
            lemma_assoc_contains(self.entries@, key@);
        }
        match self.index_of(key) {
            Some(i) => {
                proof {
                    lemma_assoc_lookup(self.entries@, i as int);
                }
                Some(&self.entries[i].1)
            },
            None => None,
        }
    }

    /// Maps `key` to `value`, overwriting any earlier entry for it.
    pub fn insert(&mut self, key: Slug, value: V)
        requires
            old(self).wf(),
        ensures
            final(self).wf(),
            final(self)@ == old(self)@.insert(key@, value@),
    {
        let idx = self.index_of(&key);
        match idx {
            Some(i) => {
                let ghost entries0 = self.entries@;
                self.entries[i] = (key, value);
                proof {
                    lemma_assoc_update(entries0, i as int, (key, value));
                }
            },
            None => {
                let ghost entries0 = self.entries@;
                self.entries.push((key, value));
                proof {
                    lemma_assoc_push(entries0, (key, value));
                }
            },
        }
    }

    /// The number of mapped keys.
    pub fn len(&self) -> (n: usize)
        requires
            self.wf(),
        ensures
            n == self@.dom().len(),
            self@.dom().finite(),
    {
        proof {
            lemma_assoc_dom_len(self.entries@);
        }
        self.entries.len()
    }
}

} // verus!
