//! A small text-to-text map that keeps insertion order.

use vstd::prelude::*;

use crate::text::same;

verus! {

/// Text values under distinct text keys.
#[derive(Clone, Debug)]
pub struct Values {
    entries: Vec<(String, String)>,
}

/// The map described by a sequence of entries; the last entry of a key counts.
pub open spec fn entries_map(s: Seq<(Seq<char>, Seq<char>)>) -> Map<Seq<char>, Seq<char>>
    decreases s.len(),
{
    if s.len() == 0 {
        Map::empty()
    } else {
        entries_map(s.drop_last()).insert(s.last().0, s.last().1)
    }
}

impl View for Values {
    type V = Map<Seq<char>, Seq<char>>;

    closed spec fn view(&self) -> Map<Seq<char>, Seq<char>> {
        entries_map(self.pairs())
    }
}

proof fn lemma_map_at(s: Seq<(Seq<char>, Seq<char>)>, i: int)
    requires
        0 <= i < s.len(),
        forall|a: int, b: int| 0 <= a < b < s.len() ==> s[a].0 != s[b].0,
    ensures
        entries_map(s).contains_key(s[i].0),
        entries_map(s)[s[i].0] == s[i].1,
    decreases s.len(),
{
    if i < s.len() - 1 {
        lemma_map_at(s.drop_last(), i);
        assert(s.drop_last()[i] == s[i]);
        assert(s[i].0 != s.last().0);
    }
}

proof fn lemma_map_dom(s: Seq<(Seq<char>, Seq<char>)>, k: Seq<char>)
    ensures
        entries_map(s).contains_key(k) <==> exists|i: int| 0 <= i < s.len() && (#[trigger] s[i]).0 == k,
    decreases s.len(),
{
    if s.len() > 0 {
        lemma_map_dom(s.drop_last(), k);
        if exists|i: int| 0 <= i < s.len() && (#[trigger] s[i]).0 == k {
            let i = choose|i: int| 0 <= i < s.len() && (#[trigger] s[i]).0 == k;
            if i < s.len() - 1 {
                assert(s.drop_last()[i].0 == k);
            }
        }
        if entries_map(s).contains_key(k) {
            if s.last().0 == k {
                assert(s[s.len() - 1].0 == k);
            } else {
                let i = choose|i: int| 0 <= i < s.drop_last().len() && (#[trigger] s.drop_last()[i]).0 == k;
                assert(s[i].0 == k);
            }
        }
    }
}

proof fn lemma_map_update(s: Seq<(Seq<char>, Seq<char>)>, i: int, v: Seq<char>)
    requires
        0 <= i < s.len(),
        forall|a: int, b: int| 0 <= a < b < s.len() ==> s[a].0 != s[b].0,
    ensures
        entries_map(s.update(i, (s[i].0, v))) == entries_map(s).insert(s[i].0, v),
    decreases s.len(),
{
    let t = s.update(i, (s[i].0, v));
    if i == s.len() - 1 {
        assert(t.drop_last() =~= s.drop_last());
        assert(entries_map(t) =~= entries_map(s).insert(s[i].0, v));
    } else {
        lemma_map_update(s.drop_last(), i, v);
        assert(t.drop_last() =~= s.drop_last().update(i, (s.drop_last()[i].0, v)));
        assert(s[i].0 != s.last().0);
        assert(entries_map(t) =~= entries_map(s).insert(s[i].0, v));
    }
}

proof fn lemma_map_remove(s: Seq<(Seq<char>, Seq<char>)>, i: int)
    requires
        0 <= i < s.len(),
        forall|a: int, b: int| 0 <= a < b < s.len() ==> s[a].0 != s[b].0,
    ensures
        entries_map(s.remove(i)) == entries_map(s).remove(s[i].0),
    decreases s.len(),
{
    if i == s.len() - 1 {
        assert(s.remove(i) =~= s.drop_last());
        lemma_map_dom(s.drop_last(), s[i].0);
        assert(!entries_map(s.drop_last()).contains_key(s[i].0));
        assert(entries_map(s.remove(i)) =~= entries_map(s).remove(s[i].0));
    } else {
        lemma_map_remove(s.drop_last(), i);
        assert(s.remove(i).drop_last() =~= s.drop_last().remove(i));
        assert(s.remove(i).last() == s.last());
        assert(s[i].0 != s.last().0);
        assert(entries_map(s.remove(i)) =~= entries_map(s).remove(s[i].0));
    }
}

impl Values {
    /// The entries in insertion order.
    pub closed spec fn pairs(&self) -> Seq<(Seq<char>, Seq<char>)> {
        Seq::new(self.entries@.len(), |i: int| (self.entries@[i].0@, self.entries@[i].1@))
    }

    /// Keys are pairwise distinct.
    pub closed spec fn wf(&self) -> bool {
        forall|a: int, b: int|
            0 <= a < b < self.entries@.len() ==> self.entries@[a].0@ != self.entries@[b].0@
    }

    /// An empty map.
    pub fn new() -> (res: Values)
        ensures
            res.wf(),
            res@ == Map::<Seq<char>, Seq<char>>::empty(),
    {
        let res = Values { entries: Vec::new() };
        assert(res.pairs() =~= Seq::empty());
        res
    }

    fn position(&self, key: &str) -> (res: Option<usize>)
        requires
            self.wf(),
        ensures
            match res {
                Some(i) => i < self.entries@.len() && self.entries@[i as int].0@ == key@
                    && self@.contains_key(key@) && self@[key@] == self.entries@[i as int].1@,
                None => !self@.contains_key(key@),
            },
    {
        let mut i: usize = 0;
        while i < self.entries.len()
            invariant
                self.wf(),
                i <= self.entries@.len(),
                forall|j: int| 0 <= j < i ==> self.entries@[j].0@ != key@,
            decreases self.entries@.len() - i,
        {
            if same(self.entries[i].0.as_str(), key) {
                proof {
                    lemma_map_at(self.pairs(), i as int);
                }
                return Some(i);
            }
            i = i + 1;
        }
        proof {
            lemma_map_dom(self.pairs(), key@);
        }
        None
    }

    /// The value under `key`.
    pub fn get(&self, key: &str) -> (res: Option<&String>)
        requires
            self.wf(),
        ensures
            match res {
                Some(v) => self@.contains_key(key@) && v@ == self@[key@],
                None => !self@.contains_key(key@),
            },
    {
        match self.position(key) {
            Some(i) => Some(&self.entries[i].1),
            None => None,
        }
    }

    /// Whether `key` has a value.
    pub fn contains_key(&self, key: &str) -> (res: bool)
        requires
            self.wf(),
        ensures
            res == self@.contains_key(key@),
    {
        self.position(key).is_some()
    }

    /// Whether no key has a value.
    pub fn is_empty(&self) -> (res: bool)
        requires
            self.wf(),
        ensures
            res == (self@ == Map::<Seq<char>, Seq<char>>::empty()),
    {
        proof {
            if self.entries@.len() == 0 {
                assert(self.pairs() =~= Seq::empty());
            } else {
                lemma_map_at(self.pairs(), 0);
            }
        }
        self.entries.len() == 0
    }

    /// Puts `value` under `key`, replacing an earlier value.
    pub fn insert(&mut self, key: &str, value: &str)
        requires
            old(self).wf(),
        ensures
            final(self).wf(),
            final(self)@ == old(self)@.insert(key@, value@),
    {
        match self.position(key) {
            Some(i) => {
                let ghost before = self.pairs();
                let k = self.entries[i].0.clone();
                self.entries.set(i, (k, value.to_owned()));
                proof {
                    lemma_map_update(before, i as int, value@);
                    assert(self.pairs() =~= before.update(i as int, (before[i as int].0, value@)));
                }
            },
            None => {
                let ghost before = self.pairs();
                proof {
                    lemma_map_dom(before, key@);
                    assert forall|j: int| 0 <= j < self.entries@.len() implies self.entries@[j].0@ != key@ by {
                        assert(before[j].0 == self.entries@[j].0@);
                    }
                }
                self.entries.push((key.to_owned(), value.to_owned()));
                proof {
                    assert(self.pairs().drop_last() =~= before);
                    assert(self.pairs().last() == (key@, value@));
                }
            },
        }
    }

    /// Drops the value under `key`, if any.
    pub fn remove(&mut self, key: &str)
        requires
            old(self).wf(),
        ensures
            final(self).wf(),
            final(self)@ == old(self)@.remove(key@),
    {
        match self.position(key) {
            Some(i) => {
                let ghost before = self.pairs();
                let ghost entries = self.entries@;
                self.entries.remove(i);
                proof {
                    lemma_map_remove(before, i as int);
                    assert(self.pairs() =~= before.remove(i as int));
                    assert(self.entries@ =~= entries.remove(i as int));
                }
            },
            None => {
                assert(self@ =~= self@.remove(key@));
            },
        }
    }

    /// Drops every value.
    pub fn clear(&mut self)
        ensures
            final(self).wf(),
            final(self)@ == Map::<Seq<char>, Seq<char>>::empty(),
    {
        self.entries.clear();
        assert(self.pairs() =~= Seq::empty());
    }

    /// A map with the same entries.
    pub fn copy(&self) -> (res: Values)
        requires
            self.wf(),
        ensures
            res.wf(),
            res@ == self@,
            res.pairs() == self.pairs(),
    {
        let mut out: Vec<(String, String)> = Vec::new();
        let mut i: usize = 0;
        while i < self.entries.len()
            invariant
                self.wf(),
                i <= self.entries@.len(),
                out@.len() == i,
                forall|j: int| 0 <= j < i ==> out@[j].0@ == self.entries@[j].0@ && out@[j].1@ == self.entries@[j].1@,
            decreases self.entries@.len() - i,
        {
            out.push((self.entries[i].0.clone(), self.entries[i].1.clone()));
            i = i + 1;
        }
        let res = Values { entries: out };
        assert(res.pairs() =~= self.pairs());
        res
    }

    /// The number of entries.
    pub fn len(&self) -> (res: usize)
        ensures
            res == self.pairs().len(),
    {
        self.entries.len()
    }

    /// The entry at position `i` in insertion order.
    pub fn entry(&self, i: usize) -> (res: (&str, &str))
        requires
            i < self.pairs().len(),
        ensures
            (res.0@, res.1@) == self.pairs()[i as int],
    {
        (self.entries[i].0.as_str(), self.entries[i].1.as_str())
    }
}

/// A set of names.
#[derive(Clone, Debug)]
pub struct NameSet {
    names: Vec<String>,
}

impl View for NameSet {
    type V = Set<Seq<char>>;

    closed spec fn view(&self) -> Set<Seq<char>> {
        Set::new(|k: Seq<char>| exists|i: int| 0 <= i < self.names@.len() && (#[trigger] self.names@[i])@ == k)
    }
}

impl NameSet {
    /// No names.
    pub fn new() -> (res: NameSet)
        ensures
            res@ == Set::<Seq<char>>::empty(),
    {
        let res = NameSet { names: Vec::new() };
        assert(res@ =~= Set::<Seq<char>>::empty());
        res
    }

    /// Whether `name` is in the set.
    pub fn contains(&self, name: &str) -> (res: bool)
        ensures
            res == self@.contains(name@),
    {
        let mut i: usize = 0;
        while i < self.names.len()
            invariant
                i <= self.names@.len(),
                forall|j: int| 0 <= j < i ==> self.names@[j]@ != name@,
            decreases self.names@.len() - i,
        {
            if same(self.names[i].as_str(), name) {
                return true;
            }
            i = i + 1;
        }
        false
    }

    /// Adds `name`.
    pub fn insert(&mut self, name: &str)
        ensures
            final(self)@ == old(self)@.insert(name@),
    {
        let ghost before = self.names@;
        let ghost old_view = self@;
        self.names.push(name.to_owned());
        proof {
            assert forall|k: Seq<char>| self@.contains(k) == old_view.insert(name@).contains(k) by {
                if old_view.contains(k) {
                    let i = choose|i: int| 0 <= i < before.len() && (#[trigger] before[i])@ == k;
                    assert(self.names@[i]@ == k);
                }
                if k == name@ {
                    assert(self.names@[before.len() as int]@ == k);
                }
                if self@.contains(k) {
                    let i = choose|i: int| 0 <= i < self.names@.len() && (#[trigger] self.names@[i])@ == k;
                    if i < before.len() {
                        assert(before[i]@ == k);
                    }
                }
            }
            assert(self@ =~= old_view.insert(name@));
        }
    }
}

} // verus!
