//! The state store: one `Table` per collection, a key-value table from
//! string keys to records of a single entity type. Binding each collection
//! to one entity type at compile time keeps distinct key spaces from
//! colliding.

use vstd::prelude::*;

verus! {

/// One collection of the state store: a list of key-value entries whose
/// view is the map they denote.
pub struct Table<V> {
    entries: Vec<(String, V)>,
}

/// The map a list of entries denotes; the latest entry for a key wins.
spec fn entries_map<V: View>(s: Seq<(String, V)>) -> Map<Seq<char>, V::V>
    decreases s.len(),
{
    if s.len() == 0 {
        Map::empty()
    } else {
        entries_map(s.drop_last()).insert(s.last().0@, s.last().1@)
    }
}

/// On every key that no entry of `s[i..]` mentions, `entries_map` of `s`
/// agrees with `entries_map` of `s[..i]`.
proof fn lemma_entries_map_unchanged_after<V: View>(s: Seq<(String, V)>, k: Seq<char>, i: int)
    requires
        0 <= i <= s.len(),
        forall|j: int| i <= j < s.len() ==> (#[trigger] s[j]).0@ != k,
    ensures
        entries_map(s).contains_key(k) == entries_map(s.take(i)).contains_key(k),
        entries_map(s).contains_key(k) ==> entries_map(s)[k] == entries_map(s.take(i))[k],
    decreases s.len() - i,
{
    if i == s.len() {
        assert(s.take(i) =~= s);
    } else {
        let s0 = s.drop_last();
        assert((s[s.len() - 1]).0@ != k);
        assert forall|j: int| i <= j < s0.len() implies (#[trigger] s0[j]).0@ != k by {
            assert(s0[j] == s[j]);
        }
        lemma_entries_map_unchanged_after(s0, k, i);
        assert(s0.take(i) =~= s.take(i));
    }
}

/// Replacing the latest entry for its own key changes the denoted map as an
/// insert for that key does.
proof fn lemma_entries_map_update<V: View>(s: Seq<(String, V)>, i: int, e: (String, V))
    requires
        0 <= i < s.len(),
        e.0@ == s[i].0@,
        forall|j: int| i < j < s.len() ==> (#[trigger] s[j]).0@ != e.0@,
    ensures
        entries_map(s.update(i, e)) == entries_map(s).insert(e.0@, e.1@),
    decreases s.len(),
{
    let t = s.update(i, e);
    if i == s.len() - 1 {
        assert(t.drop_last() =~= s.drop_last());
        assert(t.last() == e);
        assert(entries_map(s.drop_last()).insert(e.0@, e.1@) =~= entries_map(s).insert(
            e.0@,
            e.1@,
        ));
    } else {
        let s0 = s.drop_last();
        assert(t.drop_last() =~= s0.update(i, e));
        assert(t.last() == s.last());
        assert((s[s.len() - 1]).0@ != e.0@);
        assert forall|j: int| i < j < s0.len() implies (#[trigger] s0[j]).0@ != e.0@ by {
            assert(s0[j] == s[j]);
        }
        assert(s0[i] == s[i]);
        lemma_entries_map_update(s0, i, e);
        assert(entries_map(s0).insert(e.0@, e.1@).insert(s.last().0@, s.last().1@)
            =~= entries_map(s0).insert(s.last().0@, s.last().1@).insert(e.0@, e.1@));
    }
}

impl<V: View> View for Table<V> {
    type V = Map<Seq<char>, V::V>;

    closed spec fn view(&self) -> Map<Seq<char>, V::V> {
        entries_map(self.entries@)
    }
}

impl<V: View> Table<V> {
    /// An empty collection.
    pub fn new() -> (t: Self)
        ensures
            t@ == Map::<Seq<char>, V::V>::empty(),
    {
        Table { entries: Vec::new() }
    }

    /// Store `value` under `key`, replacing whatever the key held before.
    pub fn put(&mut self, key: String, value: V)
        ensures
            final(self)@ == old(self)@.insert(key@, value@),
    {
        let n = self.entries.len();
        let mut i: usize = n;
        while i > 0
            invariant
                i <= n,
                n == self.entries@.len(),
                self.entries@ == old(self).entries@,
                forall|j: int| i <= j < self.entries@.len() ==> (#[trigger] self.entries@[j]).0@
                    != key@,
            decreases i,
        {
            i = i - 1;
            if self.entries[i].0 == key {
                let ghost s = self.entries@;
                self.entries.set(i, (key, value));
                proof {
                    let e = self.entries@[i as int];
                    assert(self.entries@ == s.update(i as int, e));
                    lemma_entries_map_update(s, i as int, e);
                }
                return;
            }
        }
        self.entries.push((key, value));
        proof {
            assert(self.entries@.drop_last() =~= old(self).entries@);
        }
    }

    /// The value stored under `key`, if the key is present.
    pub fn get(&self, key: &String) -> (r: Option<&V>)
        ensures
            match r {
                Some(v) => self@.contains_key(key@) && v@ == self@[key@],
                None => !self@.contains_key(key@),
            },
    {
        let n = self.entries.len();
        let mut i: usize = n;
        while i > 0
            invariant
                i <= n,
                n == self.entries@.len(),
                forall|j: int| i <= j < self.entries@.len() ==> (#[trigger] self.entries@[j]).0@
                    != key@,
            decreases i,
        {
            i = i - 1;
            if self.entries[i].0 == *key {
                proof {
                    let s = self.entries@;
                    lemma_entries_map_unchanged_after(s, key@, i + 1);
                    assert(s.take(i + 1).drop_last() =~= s.take(i as int));
                    assert(s.take(i + 1).last() == s[i as int]);
                }
                return Some(&self.entries[i].1);
            }
        }
        proof {
            let s = self.entries@;
            lemma_entries_map_unchanged_after(s, key@, 0);
            assert(s.take(0) =~= Seq::<(String, V)>::empty());
        }
        None
    }

    /// Whether any value is stored under `key`.
    pub fn contains(&self, key: &String) -> (b: bool)
        ensures
            b == self@.contains_key(key@),
    {
        self.get(key).is_some()
    }
}

} // verus!
