use vstd::prelude::*;
use vstd::utf8::*;

verus! {

/// The mapping that a list of pairs stands for: a later pair replaces an earlier one with
/// the same key.
pub open spec fn map_of(pairs: Seq<(Seq<char>, Seq<char>)>) -> Map<Seq<char>, Seq<char>>
    decreases pairs.len(),
{
    if pairs.len() == 0 {
        Map::empty()
    } else {
        map_of(pairs.drop_last()).insert(pairs.last().0, pairs.last().1)
    }
}

/// Whether no key stands twice in `pairs`.
pub open spec fn distinct_keys(pairs: Seq<(Seq<char>, Seq<char>)>) -> bool {
    forall|i: int, j: int| 0 <= i < j < pairs.len() ==> pairs[i].0 != pairs[j].0
}

/// Whether `key` is the key of one of `pairs`.
pub open spec fn has_key(pairs: Seq<(Seq<char>, Seq<char>)>, key: Seq<char>) -> bool {
    exists|i: int| 0 <= i < pairs.len() && #[trigger] pairs[i].0 == key
}

/// The keys of `map_of(pairs)` are the keys of the pairs, and there are finitely many.
pub proof fn lemma_map_of_dom(pairs: Seq<(Seq<char>, Seq<char>)>)
    ensures
        map_of(pairs).dom().finite(),
        map_of(pairs).dom().len() <= pairs.len(),
        forall|key: Seq<char>| map_of(pairs).dom().contains(key) == has_key(pairs, key),
    decreases pairs.len(),
{
    if pairs.len() > 0 {
        let front = pairs.drop_last();
        lemma_map_of_dom(front);
        assert forall|key: Seq<char>| map_of(pairs).dom().contains(key) == has_key(
            pairs,
            key,
        ) by {
            if has_key(pairs, key) {
                let i = choose|i: int| 0 <= i < pairs.len() && #[trigger] pairs[i].0 == key;
                if i < pairs.len() - 1 {
                    assert(front[i].0 == key);
                }
            }
            if has_key(front, key) {
                let i = choose|i: int| 0 <= i < front.len() && #[trigger] front[i].0 == key;
                assert(pairs[i].0 == key);
            }
            if key == pairs.last().0 {
                assert(pairs[pairs.len() - 1].0 == key);
            }
        }
    }
}

/// Where the keys are distinct, each pair is found in `map_of(pairs)` under its key, and the
/// mapping has as many keys as there are pairs.
pub proof fn lemma_map_of_distinct(pairs: Seq<(Seq<char>, Seq<char>)>)
    requires
        distinct_keys(pairs),
    ensures
        map_of(pairs).dom().len() == pairs.len(),
        forall|i: int|
            0 <= i < pairs.len() ==> map_of(pairs).dom().contains(#[trigger] pairs[i].0)
                && map_of(pairs)[pairs[i].0] == pairs[i].1,
    decreases pairs.len(),
{
    if pairs.len() > 0 {
        let front = pairs.drop_last();
        lemma_map_of_distinct(front);
        lemma_map_of_dom(front);
        if has_key(front, pairs.last().0) {
            let i = choose|i: int| 0 <= i < front.len() && #[trigger] front[i].0 == pairs.last().0;
            assert(pairs[i].0 == pairs[pairs.len() - 1].0);
        }
        assert forall|i: int| 0 <= i < pairs.len() implies map_of(pairs).dom().contains(
            #[trigger] pairs[i].0,
        ) && map_of(pairs)[pairs[i].0] == pairs[i].1 by {
            if i < pairs.len() - 1 {
                assert(front[i].0 == pairs[i].0);
                assert(pairs[i].0 != pairs[pairs.len() - 1].0);
            }
        }
    }
}

/// Replacing the value of a pair whose key stands nowhere else is an insertion under that key.
pub proof fn lemma_map_of_update(pairs: Seq<(Seq<char>, Seq<char>)>, at: int, value: Seq<char>)
    requires
        distinct_keys(pairs),
        0 <= at < pairs.len(),
    ensures
        map_of(pairs.update(at, (pairs[at].0, value))) == map_of(pairs).insert(pairs[at].0, value),
    decreases pairs.len(),
{
    let key = pairs[at].0;
    let after = pairs.update(at, (key, value));
    if at == pairs.len() - 1 {
        assert(after.drop_last() =~= pairs.drop_last());
        assert(map_of(after) =~= map_of(pairs).insert(key, value));
    } else {
        let front = pairs.drop_last();
        lemma_map_of_update(front, at, value);
        assert(after.drop_last() =~= front.update(at, (front[at].0, value)));
        assert(pairs[at].0 != pairs[pairs.len() - 1].0);
        assert(map_of(after) =~= map_of(pairs).insert(key, value));
    }
}

/// Whether two texts are the same.
pub fn same_text(a: &str, b: &str) -> (same: bool)
    ensures
        same == (a@ == b@),
{
    let left = a.as_bytes();
    let right = b.as_bytes();
    if left.len() != right.len() {
        return false;
    }
    let mut at: usize = 0;
    while at < left.len()
        invariant
            left@ == encode_utf8(a@),
            right@ == encode_utf8(b@),
            at <= left@.len() == right@.len(),
            forall|i: int| 0 <= i < at ==> left@[i] == right@[i],
        decreases left@.len() - at,
    {
        if left[at] != right[at] {
            return false;
        }
        at += 1;
    }
    proof {
        assert(left@ =~= right@);
        encode_utf8_decode_utf8(a@);
        encode_utf8_decode_utf8(b@);
    }
    true
}

/// Environment variables by name. Each name stands once; the order in which the names
/// came in is kept.
#[derive(Clone, Debug)]
pub struct EnvironmentMap {
    entries: Vec<(String, String)>,
}

impl View for EnvironmentMap {
    type V = Map<Seq<char>, Seq<char>>;

    closed spec fn view(&self) -> Map<Seq<char>, Seq<char>> {
        map_of(self.pairs())
    }
}

impl EnvironmentMap {
    /// The names and values, in the order in which the names came in.
    pub closed spec fn pairs(&self) -> Seq<(Seq<char>, Seq<char>)> {
        self.entries@.map_values(|entry: (String, String)| (entry.0@, entry.1@))
    }

    /// No name stands twice.
    pub closed spec fn wf(&self) -> bool {
        distinct_keys(self.pairs())
    }

    /// The mapping is the one that the pairs stand for, with one key for each pair.
    pub proof fn lemma_view(&self)
        requires
            self.wf(),
        ensures
            self@ == map_of(self.pairs()),
            distinct_keys(self.pairs()),
            self@.dom().finite(),
            self@.dom().len() == self.pairs().len(),
    {
        lemma_map_of_dom(self.pairs());
        lemma_map_of_distinct(self.pairs());
    }

    /// A mapping without variables.
    pub fn new() -> (map: Self)
        ensures
            map.wf(),
            map@ == Map::<Seq<char>, Seq<char>>::empty(),
            map.pairs() == Seq::<(Seq<char>, Seq<char>)>::empty(),
    {
        let map = EnvironmentMap { entries: Vec::new() };
        assert(map.pairs() =~= Seq::empty());
        map
    }

    /// The number of variables.
    pub fn len(&self) -> (count: usize)
        requires
            self.wf(),
        ensures
            count == self@.dom().len(),
            count == self.pairs().len(),
    {
        proof {
            self.lemma_view();
        }
        self.entries.len()
    }

    /// Whether there is no variable.
    pub fn is_empty(&self) -> (empty: bool)
        requires
            self.wf(),
        ensures
            empty == (self@.dom().len() == 0),
    {
        proof {
            self.lemma_view();
        }
        self.entries.len() == 0
    }

    /// The place of `key` among the entries.
    fn position(&self, key: &str) -> (found: Option<usize>)
        ensures
            match found {
                Some(at) => at < self.pairs().len() && self.pairs()[at as int].0 == key@,
                None => !has_key(self.pairs(), key@),
            },
    {
        let mut at: usize = 0;
        while at < self.entries.len()
            invariant
                at <= self.entries@.len(),
                forall|i: int| 0 <= i < at ==> self.pairs()[i].0 != key@,
            decreases self.entries@.len() - at,
        {
            if same_text(self.entries[at].0.as_str(), key) {
                return Some(at);
            }
            at += 1;
        }
        None
    }

    /// The value of the variable `key`, if there is one.
    pub fn get(&self, key: &str) -> (value: Option<&String>)
        requires
            self.wf(),
        ensures
            match value {
                Some(text) => self@.dom().contains(key@) && self@[key@] == text@,
                None => !self@.dom().contains(key@),
            },
    {
        proof {
            lemma_map_of_dom(self.pairs());
            lemma_map_of_distinct(self.pairs());
        }
        match self.position(key) {
            Some(at) => Some(&self.entries[at].1),
            None => None,
        }
    }

    /// Whether there is a variable `key`.
    pub fn contains_key(&self, key: &str) -> (found: bool)
        requires
            self.wf(),
        ensures
            found == self@.dom().contains(key@),
    {
        proof {
            lemma_map_of_dom(self.pairs());
            assert(map_of(self.pairs()).dom().contains(key@) == has_key(self.pairs(), key@));
        }
        match self.position(key) {
            Some(at) => {
                assert(self.pairs()[at as int].0 == key@);
                true
            },
            None => false,
        }
    }

    /// Sets the variable `key` to `value`, whether or not it was there before.
    pub fn insert(&mut self, key: String, value: String)
        requires
            old(self).wf(),
        ensures
            final(self).wf(),
            final(self)@ == old(self)@.insert(key@, value@),
            has_key(old(self).pairs(), key@) ==> final(self).pairs().len() == old(self).pairs().len(),
            !has_key(old(self).pairs(), key@) ==> final(self).pairs() == old(self).pairs().push(
                (key@, value@),
            ),
    {
        let ghost before = self.pairs();
        match self.position(key.as_str()) {
            Some(at) => {
                proof {
                    lemma_map_of_update(before, at as int, value@);
                }
                self.entries.set(at, (key, value));
                assert(self.pairs() =~= before.update(at as int, (key@, value@)));
            },
            None => {
                self.entries.push((key, value));
                assert(self.pairs() =~= before.push((key@, value@)));
                assert(self.pairs().drop_last() =~= before);
                assert forall|i: int, j: int| 0 <= i < j < self.pairs().len() implies self.pairs()[i].0
                    != self.pairs()[j].0 by {
                    if j == before.len() {
                        assert(before[i].0 != key@);
                    } else {
                        assert(before[i].0 != before[j].0);
                    }
                }
            },
        }
    }

    /// The name and the value of the variable that came in as number `at`.
    pub fn entry(&self, at: usize) -> (pair: (&String, &String))
        requires
            at < self.pairs().len(),
        ensures
            (pair.0@, pair.1@) == self.pairs()[at as int],
    {
        (&self.entries[at].0, &self.entries[at].1)
    }
}

} // verus!
