use vstd::prelude::*;

verus! {

/// A sequence of (key, value) pairs of text, each taken by its view.
pub type TextPairs = Seq<(Seq<char>, Seq<char>)>;

/// The pairs of a vector of owned strings, as sequences of characters.
pub open spec fn pairs_view(entries: Seq<(String, String)>) -> TextPairs {
    Seq::new(entries.len(), |i: int| (entries[i].0@, entries[i].1@))
}

/// The mapping a sequence of pairs stands for when a later pair replaces an
/// earlier one with the same key.
pub open spec fn last_wins(pairs: TextPairs) -> Map<Seq<char>, Seq<char>>
    decreases pairs.len(),
{
    if pairs.len() == 0 {
        Map::empty()
    } else {
        last_wins(pairs.drop_last()).insert(pairs.last().0, pairs.last().1)
    }
}

/// No key occurs twice.
pub open spec fn distinct_keys(pairs: TextPairs) -> bool {
    forall|i: int, j: int| 0 <= i < j < pairs.len() ==> pairs[i].0 != pairs[j].0
}

/// Appending a pair inserts it into the mapping.
pub proof fn lemma_last_wins_push(pairs: TextPairs, key: Seq<char>, value: Seq<char>)
    ensures
        last_wins(pairs.push((key, value))) == last_wins(pairs).insert(key, value),
{
    assert(pairs.push((key, value)).drop_last() =~= pairs);
}

/// Every key of the mapping is the key of some pair, and carries the value of
/// the last pair with that key.
pub proof fn lemma_last_wins_keys(pairs: TextPairs, key: Seq<char>)
    ensures
        last_wins(pairs).contains_key(key) <==> exists|i: int|
            0 <= i < pairs.len() && (#[trigger] pairs[i]).0 == key,
        last_wins(pairs).contains_key(key) ==> exists|i: int|
            0 <= i < pairs.len() && (#[trigger] pairs[i]) == (key, last_wins(pairs)[key]),
    decreases pairs.len(),
{
    if pairs.len() > 0 {
        let front = pairs.drop_last();
        lemma_last_wins_keys(front, key);
        let last: int = pairs.len() - 1;
        if pairs.last().0 == key {
            assert(pairs[last] == (key, last_wins(pairs)[key]));
        } else if last_wins(front).contains_key(key) {
            let i = choose|i: int|
                0 <= i < front.len() && (#[trigger] front[i]) == (key, last_wins(front)[key]);
            assert(pairs[i] == front[i]);
        } else {
            if exists|i: int| 0 <= i < pairs.len() && (#[trigger] pairs[i]).0 == key {
                let i = choose|i: int| 0 <= i < pairs.len() && (#[trigger] pairs[i]).0 == key;
                assert(front[i] == pairs[i]);
            }
        }
    }
}

/// The last occurrence of a key wins: a pair that no later pair shares its
/// key with gives the key its value.
pub proof fn lemma_last_occurrence_wins(pairs: TextPairs, i: int)
    requires
        0 <= i < pairs.len(),
        forall|j: int| i < j < pairs.len() ==> (#[trigger] pairs[j]).0 != pairs[i].0,
    ensures
        last_wins(pairs).contains_key(pairs[i].0),
        last_wins(pairs)[pairs[i].0] == pairs[i].1,
    decreases pairs.len(),
{
    let front = pairs.drop_last();
    if i < pairs.len() - 1 {
        assert forall|j: int| i < j < front.len() implies (#[trigger] front[j]).0
            != front[i].0 by {
            assert(front[j] == pairs[j]);
        }
        lemma_last_occurrence_wins(front, i);
        assert(front[i] == pairs[i]);
        assert(pairs[pairs.len() - 1].0 != pairs[i].0);
    }
}

/// Where no key occurs twice, replacing the value of one pair inserts the new
/// value under that pair's key.
pub proof fn lemma_last_wins_update(pairs: TextPairs, i: int, value: Seq<char>)
    requires
        distinct_keys(pairs),
        0 <= i < pairs.len(),
    ensures
        last_wins(pairs.update(i, (pairs[i].0, value))) == last_wins(pairs).insert(
            pairs[i].0,
            value,
        ),
        distinct_keys(pairs.update(i, (pairs[i].0, value))),
    decreases pairs.len(),
{
    let next = pairs.update(i, (pairs[i].0, value));
    let front = pairs.drop_last();
    if i == pairs.len() - 1 {
        assert(next.drop_last() =~= front);
        assert(last_wins(next) =~= last_wins(pairs).insert(pairs[i].0, value));
    } else {
        assert(distinct_keys(front)) by {
            assert forall|a: int, b: int| 0 <= a < b < front.len() implies front[a].0
                != front[b].0 by {
                assert(front[a] == pairs[a] && front[b] == pairs[b]);
            }
        }
        lemma_last_wins_update(front, i, value);
        assert(front[i] == pairs[i]);
        assert(next.drop_last() =~= front.update(i, (pairs[i].0, value)));
        assert(pairs[i].0 != pairs[pairs.len() - 1].0);
        assert(last_wins(next) =~= last_wins(pairs).insert(pairs[i].0, value));
    }
}

/// A mapping from text to text in which every key occurs once.
///
/// It is kept as a list of pairs in order of first insertion; its view is the
/// mapping alone.
#[derive(Debug)]
pub struct TextMap {
    entries: Vec<(String, String)>,
}

impl View for TextMap {
    type V = Map<Seq<char>, Seq<char>>;

    closed spec fn view(&self) -> Map<Seq<char>, Seq<char>> {
        last_wins(pairs_view(self.entries@))
    }
}

impl TextMap {
    #[verifier::type_invariant]
    closed spec fn unique(&self) -> bool {
        distinct_keys(pairs_view(self.entries@))
    }

    /// The pairs held, in order of first insertion.
    pub closed spec fn pairs(&self) -> TextPairs {
        pairs_view(self.entries@)
    }

    /// The empty mapping.
    pub fn new() -> (map: TextMap)
        ensures
            map@ == Map::<Seq<char>, Seq<char>>::empty(),
            map.pairs().len() == 0,
    {
        TextMap { entries: Vec::new() }
    }

    /// The number of keys.
    pub fn len(&self) -> (n: usize)
        ensures
            n == self.pairs().len(),
            n == self@.dom().len(),
            self@.dom().finite(),
    {
        proof {
            use_type_invariant(self);
            lemma_domain_size(self.pairs());
        }
        self.entries.len()
    }

    /// The pairs held, each key once: the mapping is exactly what they say.
    pub fn entries(&self) -> (list: &Vec<(String, String)>)
        ensures
            pairs_view(list@) == self.pairs(),
            distinct_keys(self.pairs()),
            self@ == last_wins(self.pairs()),
    {
        proof {
            use_type_invariant(self);
        }
        &self.entries
    }

    /// The value under `key`, if the key is present.
    pub fn get(&self, key: &String) -> (found: Option<&String>)
        ensures
            found.is_some() == self@.contains_key(key@),
            found matches Some(value) ==> value@ == self@[key@],
    {
        proof {
            use_type_invariant(self);
        }
        let mut i: usize = 0;
        while i < self.entries.len()
            invariant
                i <= self.entries.len(),
                distinct_keys(pairs_view(self.entries@)),
                forall|j: int| 0 <= j < i ==> self.entries@[j].0@ != key@,
            decreases self.entries.len() - i,
        {
            if self.entries[i].0 == *key {
                proof {
                    lemma_last_occurrence_wins(pairs_view(self.entries@), i as int);
                }
                return Some(&self.entries[i].1);
            }
            i += 1;
        }
        proof {
            lemma_last_wins_keys(pairs_view(self.entries@), key@);
        }
        None
    }

    /// Puts `value` under `key`, in place of any value the key had.
    pub fn insert(&mut self, key: String, value: String)
        ensures
            final(self)@ == old(self)@.insert(key@, value@),
    {
        proof {
            use_type_invariant(&*self);
        }
        let mut taken = TextMap::new();
        std::mem::swap(self, &mut taken);
        let mut entries = taken.entries;
        let ghost before = pairs_view(entries@);
        let mut i: usize = 0;
        let mut found: bool = false;
        while i < entries.len() && !found
            invariant
                i <= entries.len(),
                pairs_view(entries@) == before,
                distinct_keys(before),
                forall|j: int| 0 <= j < i ==> before[j].0 != key@,
                found ==> i < entries.len() && before[i as int].0 == key@,
            decreases entries.len() - i + (if found { 0int } else { 1int }),
        {
            if entries[i].0 == key {
                found = true;
            } else {
                i += 1;
            }
        }
        if found {
            proof {
                lemma_last_wins_update(before, i as int, value@);
            }
            entries.set(i, (key, value));
            assert(pairs_view(entries@) =~= before.update(i as int, (key@, value@)));
        } else {
            proof {
                lemma_last_wins_push(before, key@, value@);
            }
            entries.push((key, value));
            assert(pairs_view(entries@) =~= before.push((key@, value@)));
            assert(distinct_keys(pairs_view(entries@)));
        }
        *self = TextMap { entries };
    }

    /// The mapping that `pairs` stands for, a later pair replacing an earlier
    /// one with the same key.
    pub fn from_pairs(pairs: Vec<(String, String)>) -> (map: TextMap)
        ensures
            map@ == last_wins(pairs_view(pairs@)),
    {
        let mut map = TextMap::new();
        let mut i: usize = 0;
        while i < pairs.len()
            invariant
                i <= pairs.len(),
                map@ == last_wins(pairs_view(pairs@).take(i as int)),
            decreases pairs.len() - i,
        {
            let key = pairs[i].0.clone();
            let value = pairs[i].1.clone();
            proof {
                let all = pairs_view(pairs@);
                lemma_last_wins_push(all.take(i as int), key@, value@);
                assert(all.take(i as int + 1) =~= all.take(i as int).push((key@, value@)));
            }
            map.insert(key, value);
            i += 1;
        }
        assert(pairs_view(pairs@).take(pairs.len() as int) =~= pairs_view(pairs@));
        map
    }
}

/// Where no key occurs twice, the mapping has as many keys as there are pairs.
pub proof fn lemma_domain_size(pairs: TextPairs)
    requires
        distinct_keys(pairs),
    ensures
        last_wins(pairs).dom().finite(),
        last_wins(pairs).dom().len() == pairs.len(),
    decreases pairs.len(),
{
    if pairs.len() > 0 {
        let front = pairs.drop_last();
        assert(distinct_keys(front)) by {
            assert forall|a: int, b: int| 0 <= a < b < front.len() implies front[a].0
                != front[b].0 by {
                assert(front[a] == pairs[a] && front[b] == pairs[b]);
            }
        }
        lemma_domain_size(front);
        lemma_last_wins_keys(front, pairs.last().0);
        if last_wins(front).contains_key(pairs.last().0) {
            let i = choose|i: int| 0 <= i < front.len() && (#[trigger] front[i]).0 == pairs.last().0;
            assert(front[i] == pairs[i]);
            assert(pairs[i].0 != pairs[pairs.len() - 1].0);
        }
    }
}

} // verus!
