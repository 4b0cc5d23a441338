//! Picks named entries out of a set of headers, whatever case their names
//! were written in.

use crate::string_map::{
    distinct_keys, lemma_placed_distinct, map_of, pair_views, placed, StringMap, TextPair,
};
use crate::text::{lowercase, to_lowercase};
use vstd::prelude::*;

verus! {

/// The value of the last pair whose key, in lower case, is `folded`.
pub open spec fn last_match(pairs: Seq<TextPair>, folded: Seq<char>) -> Option<Seq<char>>
    decreases pairs.len(),
{
    if pairs.len() == 0 {
        None
    } else if lowercase(pairs.last().0) == folded {
        Some(pairs.last().1)
    } else {
        last_match(pairs.drop_last(), folded)
    }
}

/// The pairs that picking `properties` out of `pairs` gives, in the order in
/// which the properties are first named. Each property that matches a key,
/// case aside, appears under its own spelling, with the value of the last
/// such key.
pub open spec fn picked(pairs: Seq<TextPair>, properties: Seq<Seq<char>>) -> Seq<TextPair>
    decreases properties.len(),
{
    if properties.len() == 0 {
        Seq::empty()
    } else {
        let earlier = picked(pairs, properties.drop_last());
        match last_match(pairs, lowercase(properties.last())) {
            Some(value) => placed(earlier, properties.last(), value),
            None => earlier,
        }
    }
}

/// The picked entries as a map: it holds exactly the properties that match a
/// key, case aside.
pub open spec fn picked_map(pairs: Seq<TextPair>, properties: Seq<Seq<char>>) -> Map<
    Seq<char>,
    Seq<char>,
> {
    Map::new(
        |name: Seq<char>| properties.contains(name) && last_match(pairs, lowercase(name)) is Some,
        |name: Seq<char>| last_match(pairs, lowercase(name))->0,
    )
}

/// The texts of a list of property names.
pub open spec fn property_texts(properties: Seq<&str>) -> Seq<Seq<char>> {
    properties.map_values(|p: &str| p@)
}

/// A key that matches, with no matching key after it, gives the last match.
pub proof fn lemma_last_match_at(pairs: Seq<TextPair>, folded: Seq<char>, at: int)
    requires
        0 <= at < pairs.len(),
        lowercase(pairs[at].0) == folded,
        forall|j: int| at < j < pairs.len() ==> lowercase((#[trigger] pairs[j]).0) != folded,
    ensures
        last_match(pairs, folded) == Some(pairs[at].1),
    decreases pairs.len(),
{
    if lowercase(pairs.last().0) != folded {
        let front = pairs.drop_last();
        assert(at < front.len());
        assert forall|j: int| at < j < front.len() implies lowercase((#[trigger] front[j]).0)
            != folded by {
            assert(front[j] == pairs[j]);
        }
        lemma_last_match_at(front, folded, at);
    } else {
        assert(pairs.last() == pairs[pairs.len() - 1]);
    }
}

/// Without a matching key there is no last match.
pub proof fn lemma_no_match(pairs: Seq<TextPair>, folded: Seq<char>)
    requires
        forall|i: int| 0 <= i < pairs.len() ==> lowercase((#[trigger] pairs[i]).0) != folded,
    ensures
        last_match(pairs, folded) is None,
    decreases pairs.len(),
{
    if pairs.len() > 0 {
        let front = pairs.drop_last();
        assert(pairs.last() == pairs[pairs.len() - 1]);
        assert forall|i: int| 0 <= i < front.len() implies lowercase((#[trigger] front[i]).0)
            != folded by {
            assert(front[i] == pairs[i]);
        }
        lemma_no_match(front, folded);
    }
}

/// The picked pairs have distinct keys, and as a map they are `picked_map`.
pub proof fn lemma_picked_map(pairs: Seq<TextPair>, properties: Seq<Seq<char>>)
    ensures
        distinct_keys(picked(pairs, properties)),
        map_of(picked(pairs, properties)) == picked_map(pairs, properties),
    decreases properties.len(),
{
    let whole = picked(pairs, properties);
    if properties.len() == 0 {
        assert(map_of(whole) =~= picked_map(pairs, properties));
    } else {
        let front = properties.drop_last();
        let name = properties.last();
        let earlier = picked(pairs, front);
        lemma_picked_map(pairs, front);
        assert forall|n: Seq<char>| properties.contains(n) == (front.contains(n) || n == name) by {
            if properties.contains(n) {
                let i = choose|i: int| 0 <= i < properties.len() && properties[i] == n;
                if i < front.len() {
                    assert(front[i] == n);
                }
            }
            if front.contains(n) {
                let i = choose|i: int| 0 <= i < front.len() && front[i] == n;
                assert(properties[i] == n);
            }
            if n == name {
                assert(properties[properties.len() - 1] == n);
            }
        }
        match last_match(pairs, lowercase(name)) {
            Some(value) => {
                lemma_placed_distinct(earlier, name, value);
                assert(map_of(whole) =~= picked_map(pairs, properties));
            },
            None => {
                assert(map_of(whole) =~= picked_map(pairs, properties));
            },
        }
    }
}

/// A property that no key matches, case aside, is not among the picked
/// entries.
pub proof fn lemma_absent_key_is_not_picked(
    pairs: Seq<TextPair>,
    properties: Seq<Seq<char>>,
    name: Seq<char>,
)
    requires
        forall|i: int| 0 <= i < pairs.len() ==> lowercase((#[trigger] pairs[i]).0) != lowercase(name),
    ensures
        !picked_map(pairs, properties).contains_key(name),
{
    lemma_no_match(pairs, lowercase(name));
}

/// The lower-case forms of the keys of `entries`.
fn lowered_keys(entries: &Vec<(String, String)>) -> (lowered: Vec<String>)
    ensures
        lowered@.len() == entries@.len(),
        forall|i: int| 0 <= i < entries@.len() ==> (#[trigger] lowered@[i])@ == lowercase(entries@[i].0@),
{
    let mut lowered: Vec<String> = Vec::new();
    let mut i: usize = 0;
    while i < entries.len()
        invariant
            i <= entries.len(),
            lowered@.len() == i,
            forall|k: int| 0 <= k < i ==> (#[trigger] lowered@[k])@ == lowercase(entries@[k].0@),
        decreases entries.len() - i,
    {
        lowered.push(to_lowercase(entries[i].0.as_str()));
        i += 1;
    }
    lowered
}

/// The last position at which `lowered` holds `wanted`.
fn last_position(lowered: &Vec<String>, wanted: &String) -> (found: Option<usize>)
    ensures
        match found {
            Some(i) => i < lowered@.len() && lowered@[i as int]@ == wanted@ && forall|j: int|
                i < j < lowered@.len() ==> (#[trigger] lowered@[j])@ != wanted@,
            None => forall|j: int| 0 <= j < lowered@.len() ==> (#[trigger] lowered@[j])@ != wanted@,
        },
{
    let mut i: usize = lowered.len();
    while i > 0
        invariant
            i <= lowered.len(),
            forall|j: int| i <= j < lowered@.len() ==> (#[trigger] lowered@[j])@ != wanted@,
        decreases i,
    {
        i -= 1;
        if lowered[i] == *wanted {
            return Some(i);
        }
    }
    None
}

/// Picks `properties` out of `source`. A property is found where a key of
/// the source equals it once both are in lower case; it then appears in the
/// result under its own spelling. Where several keys match, the one that
/// entered the source last gives the value. A property that matches no key
/// is left out.
pub fn pick(source: &StringMap, properties: &[&str]) -> (result: StringMap)
    ensures
        result.pairs() == picked(source.pairs(), property_texts(properties@)),
        result@ == picked_map(source.pairs(), property_texts(properties@)),
{
    let entries = source.entries();
    let lowered = lowered_keys(entries);
    let ghost pairs = source.pairs();
    let ghost names = property_texts(properties@);
    let mut result = StringMap::new();
    let mut j: usize = 0;
    while j < properties.len()
        invariant
            j <= properties.len(),
            pairs == pair_views(entries@),
            names == property_texts(properties@),
            lowered@.len() == entries@.len(),
            forall|i: int|
                0 <= i < entries@.len() ==> (#[trigger] lowered@[i])@ == lowercase(entries@[i].0@),
            result.pairs() == picked(pairs, names.take(j as int)),
        decreases properties.len() - j,
    {
        let prop: &str = properties[j];
        let wanted = to_lowercase(prop);
        let found = last_position(&lowered, &wanted);
        proof {
            assert(names.take(j + 1).drop_last() =~= names.take(j as int));
            assert(names.take(j + 1).last() == prop@);
            assert forall|k: int| 0 <= k < pairs.len() implies (#[trigger] pairs[k]).0
                == entries@[k].0@ && lowered@[k]@ == lowercase(pairs[k].0) by {}
        }
        match found {
            Some(i) => {
                proof {
                    assert forall|k: int| i < k < pairs.len() implies lowercase(
                        (#[trigger] pairs[k]).0,
                    ) != lowercase(prop@) by {
                        assert(lowered@[k]@ != wanted@);
                    }
                    lemma_last_match_at(pairs, lowercase(prop@), i as int);
                }
                result.insert(prop.to_owned(), entries[i].1.clone());
            },
            None => {
                proof {
                    assert forall|k: int| 0 <= k < pairs.len() implies lowercase(
                        (#[trigger] pairs[k]).0,
                    ) != lowercase(prop@) by {
                        assert(lowered@[k]@ != wanted@);
                    }
                    lemma_no_match(pairs, lowercase(prop@));
                }
            },
        }
        j += 1;
    }
    proof {
        assert(names.take(properties.len() as int) =~= names);
        lemma_picked_map(pairs, names);
    }
    result
}

} // verus!
