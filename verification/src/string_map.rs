//! A small map from text to text that remembers the order in which its keys
//! came in. Header sets are short, so a list of pairs serves.

use vstd::prelude::*;

verus! {

/// A key with its value, as texts.
pub type TextPair = (Seq<char>, Seq<char>);

/// Whether some pair has the key `key`.
pub open spec fn has_key(pairs: Seq<TextPair>, key: Seq<char>) -> bool {
    exists|i: int| 0 <= i < pairs.len() && (#[trigger] pairs[i]).0 == key
}

/// The position of a pair with the key `key`, where there is one.
pub open spec fn key_index(pairs: Seq<TextPair>, key: Seq<char>) -> int {
    choose|i: int| 0 <= i < pairs.len() && (#[trigger] pairs[i]).0 == key
}

/// Whether no key occurs twice.
pub open spec fn distinct_keys(pairs: Seq<TextPair>) -> bool {
    forall|i: int, j: int|
        0 <= i < j < pairs.len() ==> (#[trigger] pairs[i]).0 != (#[trigger] pairs[j]).0
}

/// The pairs after `key` was given `value`: the pair with that key is
/// replaced where it stands, or a new pair is added at the end.
pub open spec fn placed(pairs: Seq<TextPair>, key: Seq<char>, value: Seq<char>) -> Seq<TextPair> {
    if has_key(pairs, key) {
        pairs.update(key_index(pairs, key), (key, value))
    } else {
        pairs.push((key, value))
    }
}

/// The pairs as a map.
pub open spec fn map_of(pairs: Seq<TextPair>) -> Map<Seq<char>, Seq<char>> {
    Map::new(|key: Seq<char>| has_key(pairs, key), |key: Seq<char>| pairs[key_index(pairs, key)].1)
}

/// Stored pairs as texts.
pub open spec fn pair_views(entries: Seq<(String, String)>) -> Seq<TextPair> {
    entries.map_values(|e: (String, String)| (e.0@, e.1@))
}

/// Placing a pair keeps the keys distinct.
pub proof fn lemma_placed_distinct(pairs: Seq<TextPair>, key: Seq<char>, value: Seq<char>)
    requires
        distinct_keys(pairs),
    ensures
        distinct_keys(placed(pairs, key, value)),
        has_key(placed(pairs, key, value), key),
        map_of(placed(pairs, key, value)) == map_of(pairs).insert(key, value),
{
    let after = placed(pairs, key, value);
    if has_key(pairs, key) {
        let at = key_index(pairs, key);
        assert(after[at].0 == key);
        assert forall|k: Seq<char>| has_key(after, k) == (k == key || has_key(pairs, k)) by {
            if has_key(after, k) {
                let i = key_index(after, k);
                assert(pairs[i].0 == k);
            }
            if has_key(pairs, k) {
                let i = key_index(pairs, k);
                assert(after[i].0 == k);
            }
        }
        assert forall|k: Seq<char>| has_key(after, k) implies #[trigger] map_of(after)[k]
            == map_of(pairs).insert(key, value)[k] by {
            let i = key_index(after, k);
            if k != key {
                let j = key_index(pairs, k);
                assert(pairs[i].0 == k);
                assert(i == j);
            } else {
                assert(i == at);
            }
        }
    } else {
        let at = pairs.len() as int;
        assert(after[at].0 == key);
        assert forall|k: Seq<char>| has_key(after, k) == (k == key || has_key(pairs, k)) by {
            if has_key(after, k) {
                let i = key_index(after, k);
                if i < at {
                    assert(pairs[i].0 == k);
                }
            }
            if has_key(pairs, k) {
                let i = key_index(pairs, k);
                assert(after[i].0 == k);
            }
        }
        assert forall|k: Seq<char>| has_key(after, k) implies #[trigger] map_of(after)[k]
            == map_of(pairs).insert(key, value)[k] by {
            let i = key_index(after, k);
            if k != key {
                let j = key_index(pairs, k);
                assert(after[j].0 == k);
                assert(i == j);
            } else {
                if i < at {
                    assert(pairs[i].0 == key);
                }
            }
        }
    }
    assert(map_of(after) =~= map_of(pairs).insert(key, value));
}

/// A map from text to text with distinct keys, kept in the order in which
/// the keys were first inserted.
#[derive(Debug)]
pub struct StringMap {
    entries: Vec<(String, String)>,
}

impl View for StringMap {
    type V = Map<Seq<char>, Seq<char>>;

    open spec fn view(&self) -> Map<Seq<char>, Seq<char>> {
        map_of(self.pairs())
    }
}

impl StringMap {
    #[verifier::type_invariant]
    spec fn keys_are_distinct(self) -> bool {
        distinct_keys(pair_views(self.entries@))
    }

    /// The pairs in the order in which their keys were first inserted.
    pub closed spec fn pairs(&self) -> Seq<TextPair> {
        pair_views(self.entries@)
    }

    /// An empty map.
    pub fn new() -> (m: StringMap)
        ensures
            m.pairs() == Seq::<TextPair>::empty(),
    {
        let m = StringMap { entries: Vec::new() };
        assert(m.pairs() =~= Seq::<TextPair>::empty());
        m
    }

    /// The number of keys.
    pub fn len(&self) -> (n: usize)
        ensures
            n == self.pairs().len(),
    {
        self.entries.len()
    }

    /// Whether the map holds nothing.
    pub fn is_empty(&self) -> (empty: bool)
        ensures
            empty == (self.pairs().len() == 0),
    {
        self.entries.len() == 0
    }

    /// The stored pairs, in order.
    pub fn entries(&self) -> (list: &Vec<(String, String)>)
        ensures
            pair_views(list@) == self.pairs(),
            distinct_keys(self.pairs()),
    {
        proof {
            use_type_invariant(self);
        }
        &self.entries
    }

    /// The position of `key` among the pairs.
    fn find(&self, key: &String) -> (found: Option<usize>)
        ensures
            match found {
                Some(i) => i < self.pairs().len() && self.pairs()[i as int].0 == key@ && has_key(
                    self.pairs(),
                    key@,
                ) && key_index(self.pairs(), key@) == i,
                None => !has_key(self.pairs(), key@),
            },
    {
        proof {
            use_type_invariant(self);
        }
        let mut i: usize = 0;
        while i < self.entries.len()
            invariant
                i <= self.entries.len(),
                distinct_keys(self.pairs()),
                forall|k: int| 0 <= k < i ==> (#[trigger] self.pairs()[k]).0 != key@,
            decreases self.entries.len() - i,
        {
            if self.entries[i].0 == *key {
                assert(self.pairs()[i as int].0 == key@);
                assert(key_index(self.pairs(), key@) == i);
                return Some(i);
            }
            i += 1;
        }
        None
    }

    /// Gives `key` the value `value`, and hands back the value it had.
    pub fn insert(&mut self, key: String, value: String) -> (previous: Option<String>)
        ensures
            final(self).pairs() == placed(old(self).pairs(), key@, value@),
            final(self)@ == old(self)@.insert(key@, value@),
            match previous {
                Some(v) => old(self)@.contains_key(key@) && old(self)@[key@] == v@,
                None => !old(self)@.contains_key(key@),
            },
    {
        proof {
            use_type_invariant(&*self);
            lemma_placed_distinct(self.pairs(), key@, value@);
        }
        let found = self.find(&key);
        let ghost before = self.entries@;
        let mut list: Vec<(String, String)> = Vec::new();
        core::mem::swap(&mut self.entries, &mut list);
        let previous = match found {
            Some(i) => {
                let previous = list[i].1.clone();
                list.set(i, (key, value));
                Some(previous)
            },
            None => {
                list.push((key, value));
                None
            },
        };
        assert(pair_views(list@) =~= placed(pair_views(before), key@, value@));
        core::mem::swap(&mut self.entries, &mut list);
        previous
    }

    /// The value of `key`, if it has one.
    pub fn get(&self, key: &str) -> (value: Option<&String>)
        ensures
            match value {
                Some(v) => self@.contains_key(key@) && self@[key@] == v@,
                None => !self@.contains_key(key@),
            },
    {
        let wanted = key.to_owned();
        match self.find(&wanted) {
            Some(i) => Some(&self.entries[i].1),
            None => None,
        }
    }

    /// Whether `key` has a value.
    pub fn contains_key(&self, key: &str) -> (found: bool)
        ensures
            found == self@.contains_key(key@),
    {
        let wanted = key.to_owned();
        self.find(&wanted).is_some()
    }
}

} // verus!
