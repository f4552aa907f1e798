//! A map from text to values that keeps its entries in the order in which
//! their keys first came.

use vstd::prelude::*;

verus! {

/// The map that a list of key and value pairs stands for: of two pairs with
/// one key the later wins.
pub open spec fn pairs_map<K, V>(pairs: Seq<(K, V)>) -> Map<K, V>
    decreases pairs.len(),
{
    if pairs.len() == 0 {
        Map::empty()
    } else {
        pairs_map(pairs.drop_last()).insert(pairs.last().0, pairs.last().1)
    }
}

/// Whether no key stands in two of the pairs.
pub open spec fn distinct_keys<K, V>(pairs: Seq<(K, V)>) -> bool {
    forall|i: int, j: int| 0 <= i < j < pairs.len() ==> #[trigger] pairs[i].0 != #[trigger] pairs[j].0
}

/// A map keyed by text.
#[derive(Debug)]
pub struct StringMap<V> {
    entries: Vec<(String, V)>,
}

impl<V> View for StringMap<V> {
    type V = Map<Seq<char>, V>;

    open spec fn view(&self) -> Map<Seq<char>, V> {
        pairs_map(self.pairs())
    }
}

/// A key is in the map of a list of pairs exactly when a pair holds it, and
/// with distinct keys the map gives that pair's value.
pub proof fn lemma_pairs_map<K, V>(pairs: Seq<(K, V)>)
    ensures
        forall|i: int| 0 <= i < pairs.len() ==> #[trigger] pairs_map(pairs).contains_key(pairs[i].0),
        forall|k: K| #[trigger]
            pairs_map(pairs).contains_key(k) ==> exists|i: int|
                0 <= i < pairs.len() && #[trigger] pairs[i].0 == k,
        distinct_keys(pairs) ==> forall|i: int|
            0 <= i < pairs.len() ==> pairs_map(pairs)[#[trigger] pairs[i].0] == pairs[i].1,
    decreases pairs.len(),
{
    if pairs.len() > 0 {
        let rest = pairs.drop_last();
        lemma_pairs_map(rest);
        assert forall|i: int| 0 <= i < pairs.len() implies #[trigger] pairs_map(pairs).contains_key(
            pairs[i].0,
        ) by {
            if i < rest.len() {
                assert(rest[i] == pairs[i]);
                assert(pairs_map(rest).contains_key(rest[i].0));
            }
        }
        assert forall|k: K| #[trigger] pairs_map(pairs).contains_key(k) implies exists|
            i: int,
        | 0 <= i < pairs.len() && #[trigger] pairs[i].0 == k by {
            if k == pairs.last().0 {
                assert(pairs[pairs.len() - 1].0 == k);
            } else {
                assert(pairs_map(rest).contains_key(k));
                let i = choose|i: int| 0 <= i < rest.len() && #[trigger] rest[i].0 == k;
                assert(pairs[i].0 == k);
            }
        }
        if distinct_keys(pairs) {
            assert forall|i: int, j: int| 0 <= i < j < rest.len() implies #[trigger] rest[i].0
                != #[trigger] rest[j].0 by {
                assert(pairs[i].0 != pairs[j].0);
            }
            assert forall|i: int| 0 <= i < pairs.len() implies pairs_map(
                pairs,
            )[#[trigger] pairs[i].0] == pairs[i].1 by {
                if i < rest.len() {
                    assert(rest[i] == pairs[i]);
                    assert(pairs[i].0 != pairs[pairs.len() - 1].0);
                }
            }
        }
    }
}

/// Of the pairs with one key the last is the one whose value the map holds.
pub proof fn law_later_pairs_win<K, V>(pairs: Seq<(K, V)>, at: int)
    requires
        0 <= at < pairs.len(),
        forall|later: int| at < later < pairs.len() ==> (#[trigger] pairs[later]).0 != pairs[at].0,
    ensures
        pairs_map(pairs).contains_key(pairs[at].0),
        pairs_map(pairs)[pairs[at].0] == pairs[at].1,
    decreases pairs.len(),
{
    let rest = pairs.drop_last();
    if at < rest.len() {
        assert forall|later: int| at < later < rest.len() implies (#[trigger] rest[later]).0
            != rest[at].0 by {
            assert(pairs[later].0 != pairs[at].0);
        }
        law_later_pairs_win(rest, at);
        assert(pairs[pairs.len() - 1].0 != pairs[at].0);
    }
}

/// With distinct keys, another value for the key at one place is another
/// value for that key in the map.
pub proof fn lemma_pairs_map_update<K, V>(pairs: Seq<(K, V)>, at: int, value: V)
    requires
        distinct_keys(pairs),
        0 <= at < pairs.len(),
    ensures
        distinct_keys(pairs.update(at, (pairs[at].0, value))),
        pairs_map(pairs.update(at, (pairs[at].0, value))) == pairs_map(pairs).insert(
            pairs[at].0,
            value,
        ),
    decreases pairs.len(),
{
    let changed = pairs.update(at, (pairs[at].0, value));
    assert forall|i: int, j: int| 0 <= i < j < changed.len() implies #[trigger] changed[i].0
        != #[trigger] changed[j].0 by {
        assert(pairs[i].0 != pairs[j].0);
    }
    let rest = pairs.drop_last();
    assert forall|i: int, j: int| 0 <= i < j < rest.len() implies #[trigger] rest[i].0
        != #[trigger] rest[j].0 by {
        assert(pairs[i].0 != pairs[j].0);
    }
    if at == pairs.len() - 1 {
        assert(changed.drop_last() =~= rest);
        assert(pairs_map(changed) =~= pairs_map(pairs).insert(pairs[at].0, value));
    } else {
        lemma_pairs_map_update(rest, at, value);
        assert(changed.drop_last() =~= rest.update(at, (rest[at].0, value)));
        assert(changed.last() == pairs.last());
        assert(pairs[at].0 != pairs[pairs.len() - 1].0);
        assert(pairs_map(changed) =~= pairs_map(pairs).insert(pairs[at].0, value));
    }
}

/// With distinct keys, a list without the pair at one place is the map
/// without that pair's key.
pub proof fn lemma_pairs_map_remove<K, V>(pairs: Seq<(K, V)>, at: int)
    requires
        distinct_keys(pairs),
        0 <= at < pairs.len(),
    ensures
        distinct_keys(pairs.remove(at)),
        pairs_map(pairs.remove(at)) == pairs_map(pairs).remove(pairs[at].0),
    decreases pairs.len(),
{
    let left = pairs.remove(at);
    assert forall|i: int, j: int| 0 <= i < j < left.len() implies #[trigger] left[i].0
        != #[trigger] left[j].0 by {
        let a = if i < at { i } else { i + 1 };
        let b = if j < at { j } else { j + 1 };
        assert(left[i] == pairs[a] && left[j] == pairs[b]);
        assert(pairs[a].0 != pairs[b].0);
    }
    let rest = pairs.drop_last();
    assert forall|i: int, j: int| 0 <= i < j < rest.len() implies #[trigger] rest[i].0
        != #[trigger] rest[j].0 by {
        assert(pairs[i].0 != pairs[j].0);
    }
    if at == pairs.len() - 1 {
        assert(left =~= rest);
        lemma_pairs_map(rest);
        assert(!pairs_map(rest).contains_key(pairs[at].0)) by {
            if pairs_map(rest).contains_key(pairs[at].0) {
                let i = choose|i: int| 0 <= i < rest.len() && #[trigger] rest[i].0 == pairs[at].0;
                assert(pairs[i].0 != pairs[at].0);
            }
        }
        assert(pairs_map(left) =~= pairs_map(pairs).remove(pairs[at].0));
    } else {
        lemma_pairs_map_remove(rest, at);
        assert(left.drop_last() =~= rest.remove(at));
        assert(left.last() == pairs.last());
        assert(pairs[at].0 != pairs[pairs.len() - 1].0);
        assert(pairs_map(left) =~= pairs_map(pairs).remove(pairs[at].0));
    }
}

/// The pairs with their keys as texts.
pub open spec fn entry_pairs<V>(entries: Seq<(String, V)>) -> Seq<(Seq<char>, V)> {
    entries.map_values(|e: (String, V)| (e.0@, e.1))
}

impl<V> StringMap<V> {
    /// The entries, in the order in which their keys first came.
    pub closed spec fn pairs(self) -> Seq<(Seq<char>, V)> {
        entry_pairs(self.entries@)
    }

    #[verifier::type_invariant]
    spec fn wf(self) -> bool {
        distinct_keys(entry_pairs(self.entries@))
    }

    /// An empty map.
    pub fn new() -> (map: Self)
        ensures
            map.pairs() == Seq::<(Seq<char>, V)>::empty(),
            map@ == Map::<Seq<char>, V>::empty(),
    {
        let map = StringMap { entries: Vec::new() };
        assert(map.pairs() =~= Seq::<(Seq<char>, V)>::empty());
        map
    }

    /// How many entries the map holds.
    pub fn len(&self) -> (len: usize)
        ensures
            len == self.pairs().len(),
            distinct_keys(self.pairs()),
    {
        proof {
            use_type_invariant(self);
        }
        self.entries.len()
    }

    /// The entry at one place in the order of the entries.
    pub fn entry(&self, at: usize) -> (entry: (&String, &V))
        requires
            at < self.pairs().len(),
        ensures
            entry.0@ == self.pairs()[at as int].0,
            *entry.1 == self.pairs()[at as int].1,
    {
        let entry = &self.entries[at];
        (&entry.0, &entry.1)
    }

    /// Takes the map apart into its entries.
    pub fn into_entries(self) -> (entries: Vec<(String, V)>)
        ensures
            entry_pairs(entries@) == self.pairs(),
            distinct_keys(entry_pairs(entries@)),
    {
        proof {
            use_type_invariant(&self);
        }
        self.entries
    }

    fn position(&self, key: &str) -> (at: Option<usize>)
        ensures
            match at {
                Some(i) => i < self.pairs().len() && self.pairs()[i as int].0 == key@,
                None => forall|i: int| 0 <= i < self.pairs().len() ==> self.pairs()[i].0 != key@,
            },
    {
        let wanted = key.to_owned();
        let mut i: usize = 0;
        while i < self.entries.len()
            invariant
                wanted@ == key@,
                i <= self.entries.len(),
                forall|j: int| 0 <= j < i ==> self.pairs()[j].0 != key@,
            decreases self.entries.len() - i,
        {
            if self.entries[i].0 == wanted {
                return Some(i);
            }
            i += 1;
        }
        None
    }

    /// Whether the map holds a value for the key.
    pub fn contains_key(&self, key: &str) -> (found: bool)
        ensures
            found == self@.contains_key(key@),
    {
        let at = self.position(key);
        proof {
            lemma_pairs_map(self.pairs());
        }
        at.is_some()
    }

    /// The value that the map holds for the key.
    pub fn get(&self, key: &str) -> (value: Option<&V>)
        ensures
            value == (if self@.contains_key(key@) {
                Some(&self@[key@])
            } else {
                None
            }),
    {
        proof {
            use_type_invariant(self);
            lemma_pairs_map(self.pairs());
        }
        match self.position(key) {
            Some(i) => Some(&self.entries[i].1),
            None => None,
        }
    }

    /// Gives the key a value and returns the one it had.
    pub fn insert(&mut self, key: String, value: V) -> (before: Option<V>)
        ensures
            final(self)@ == old(self)@.insert(key@, value),
            before == (if old(self)@.contains_key(key@) {
                Some(old(self)@[key@])
            } else {
                None
            }),
            if old(self)@.contains_key(key@) {
                exists|at: int|
                    0 <= at < old(self).pairs().len() && #[trigger] old(self).pairs()[at].0 == key@
                        && final(self).pairs() == old(self).pairs().update(at, (key@, value))
            } else {
                final(self).pairs() == old(self).pairs().push((key@, value))
            },
    {
        let at = self.position(key.as_str());
        proof {
            use_type_invariant(&*self);
            lemma_pairs_map(self.pairs());
        }
        let ghost pairs = self.pairs();
        let mut entries: Vec<(String, V)> = Vec::new();
        std::mem::swap(&mut entries, &mut self.entries);
        assert(entry_pairs(entries@) == pairs);
        match at {
            Some(i) => {
                proof {
                    lemma_pairs_map_update(pairs, i as int, value);
                }
                entries.push((key, value));
                let replaced = entries.swap_remove(i);
                assert(entry_pairs(entries@) =~= pairs.update(i as int, (pairs[i as int].0, value)));
                self.entries = entries;
                Some(replaced.1)
            },
            None => {
                entries.push((key, value));
                assert(entry_pairs(entries@) =~= pairs.push((key@, value)));
                assert(pairs.push((key@, value)).drop_last() =~= pairs);
                self.entries = entries;
                None
            },
        }
    }

    /// Takes the value of the key out of the map.
    pub fn remove(&mut self, key: &str) -> (value: Option<V>)
        ensures
            final(self)@ == old(self)@.remove(key@),
            value == (if old(self)@.contains_key(key@) {
                Some(old(self)@[key@])
            } else {
                None
            }),
            if old(self)@.contains_key(key@) {
                exists|at: int|
                    0 <= at < old(self).pairs().len() && #[trigger] old(self).pairs()[at].0 == key@
                        && final(self).pairs() == old(self).pairs().remove(at)
            } else {
                final(self).pairs() == old(self).pairs()
            },
    {
        let at = self.position(key);
        proof {
            use_type_invariant(&*self);
            lemma_pairs_map(self.pairs());
        }
        let ghost pairs = self.pairs();
        match at {
            Some(i) => {
                proof {
                    lemma_pairs_map_remove(pairs, i as int);
                }
                let mut entries: Vec<(String, V)> = Vec::new();
                std::mem::swap(&mut entries, &mut self.entries);
                let removed = entries.remove(i);
                assert(entry_pairs(entries@) =~= pairs.remove(i as int));
                self.entries = entries;
                Some(removed.1)
            },
            None => {
                assert(self@.remove(key@) =~= self@);
                None
            },
        }
    }
}

} // verus!
