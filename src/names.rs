//! Small collections keyed by strings: an ordered set of names and an
//! association list from names to values, each keeping its keys distinct.
use vstd::prelude::*;

verus! {

/// A value that can be copied with its model kept.
pub trait Duplicable: View + Sized {
    fn duplicate(&self) -> (r: Self)
        ensures
            r@ == self@,
    ;
}

impl Duplicable for String {
    fn duplicate(&self) -> (r: String) {
        self.clone()
    }
}

/// Compares two strings by their characters.
pub fn same_text(a: &String, b: &String) -> (r: bool)
    ensures
        r == (a@ == b@),
{
    *a == *b
}

/// The sequence with only the first occurrence of each element kept.
pub open spec fn dedup(s: Seq<Seq<char>>) -> Seq<Seq<char>>
    decreases s.len(),
{
    if s.len() == 0 {
        Seq::empty()
    } else {
        let d = dedup(s.drop_last());
        if d.contains(s.last()) {
            d
        } else {
            d.push(s.last())
        }
    }
}

/// The models of a sequence of strings.
pub open spec fn texts(v: Seq<String>) -> Seq<Seq<char>> {
    v.map_values(|s: String| s@)
}

pub proof fn lemma_dedup(s: Seq<Seq<char>>)
    ensures
        dedup(s).no_duplicates(),
        dedup(s).to_set() == s.to_set(),
    decreases s.len(),
{
    if s.len() > 0 {
        let p = s.drop_last();
        lemma_dedup(p);
        assert(s =~= p.push(s.last()));
        p.lemma_push_to_set_commute(s.last());
        let d = dedup(p);
        if !d.contains(s.last()) {
            d.lemma_push_to_set_commute(s.last());
            assert forall|i: int, j: int|
                0 <= i < d.push(s.last()).len() && 0 <= j < d.push(s.last()).len() && i != j
                    implies d.push(s.last())[i] != d.push(s.last())[j] by {
                if j == d.len() as int {
                    assert(d.contains(d[i]));
                } else if i == d.len() as int {
                    assert(d.contains(d[j]));
                }
            }
        } else {
            assert(d.to_set().insert(s.last()) =~= d.to_set());
        }
    }
}

/// A set of names, kept in the order in which they were first added.
pub struct NameSet {
    names: Vec<String>,
}

impl View for NameSet {
    type V = Seq<Seq<char>>;

    closed spec fn view(&self) -> Seq<Seq<char>> {
        texts(self.names@)
    }
}

impl NameSet {
    #[verifier::type_invariant]
    spec fn distinct(&self) -> bool {
        texts(self.names@).no_duplicates()
    }

    /// The names as a mathematical set.
    pub open spec fn members(&self) -> Set<Seq<char>> {
        self@.to_set()
    }

    pub fn new() -> (r: NameSet)
        ensures
            r@ == Seq::<Seq<char>>::empty(),
    {
        let r = NameSet { names: Vec::new() };
        assert(r@ =~= Seq::<Seq<char>>::empty());
        r
    }

    /// Builds the set of the given names, in order of first occurrence.
    pub fn from_names(names: Vec<String>) -> (r: NameSet)
        ensures
            r@ == dedup(texts(names@)),
    {
        let mut r = NameSet::new();
        let mut i: usize = 0;
        while i < names.len()
            invariant
                i <= names.len(),
                r@ == dedup(texts(names@.subrange(0, i as int))),
            decreases names.len() - i,
        {
            let n = names[i].clone();
            r.insert(n);
            assert(texts(names@.subrange(0, i + 1)).drop_last() =~= texts(
                names@.subrange(0, i as int),
            ));
            i = i + 1;
        }
        assert(names@.subrange(0, names.len() as int) =~= names@);
        r
    }

    pub fn len(&self) -> (r: usize)
        ensures
            r == self@.len(),
            self@.no_duplicates(),
    {
        proof {
            use_type_invariant(self);
        }
        self.names.len()
    }

    pub fn is_empty(&self) -> (r: bool)
        ensures
            r == (self@.len() == 0),
    {
        self.names.len() == 0
    }

    /// The name at position `i`.
    pub fn name_at(&self, i: usize) -> (r: &String)
        requires
            i < self@.len(),
        ensures
            r@ == self@[i as int],
    {
        &self.names[i]
    }

    pub fn contains(&self, name: &str) -> (r: bool)
        ensures
            r == self@.contains(name@),
    {
        let key = name.to_owned();
        let mut i: usize = 0;
        while i < self.names.len()
            invariant
                i <= self.names@.len(),
                key@ == name@,
                forall|j: int| 0 <= j < i ==> self@[j] != name@,
            decreases self.names.len() - i,
        {
            if same_text(&self.names[i], &key) {
                assert(self@[i as int] == name@);
                return true;
            }
            i = i + 1;
        }
        false
    }

    /// Adds a name; returns whether it was absent before.
    pub fn insert(&mut self, name: String) -> (r: bool)
        ensures
            r == !old(self)@.contains(name@),
            final(self)@ == if r {
                old(self)@.push(name@)
            } else {
                old(self)@
            },
    {
        proof {
            use_type_invariant(&*self);
        }
        if self.contains(name.as_str()) {
            false
        } else {
            let ghost before = self@;
            let mut taken = NameSet::new();
            core::mem::swap(self, &mut taken);
            let mut names = taken.names;
            names.push(name);
            assert(texts(names@) =~= before.push(name@));
            assert forall|i: int, j: int|
                0 <= i < texts(names@).len() && 0 <= j < texts(names@).len() && i != j
                    implies texts(names@)[i] != texts(names@)[j] by {
                if j == before.len() as int {
                    assert(before.contains(before[i]));
                } else if i == before.len() as int {
                    assert(before.contains(before[j]));
                }
            }
            *self = NameSet { names };
            true
        }
    }
}

impl Duplicable for NameSet {
    fn duplicate(&self) -> (r: NameSet) {
        proof {
            use_type_invariant(self);
        }
        let names = self.names.clone();
        let r = NameSet { names };
        assert(r@ =~= self@);
        r
    }
}

/// The keys of an association list.
pub open spec fn keys_of<V>(s: Seq<(String, V)>) -> Seq<Seq<char>> {
    s.map_values(|e: (String, V)| e.0@)
}

/// The map that an association list stands for; a later entry shadows an
/// earlier one with the same key.
pub open spec fn map_of<V: View>(s: Seq<(String, V)>) -> Map<Seq<char>, V::V>
    decreases s.len(),
{
    if s.len() == 0 {
        Map::empty()
    } else {
        map_of(s.drop_last()).insert(s.last().0@, s.last().1@)
    }
}

pub proof fn lemma_map_of_domain<V: View>(s: Seq<(String, V)>)
    ensures
        map_of(s).dom() == keys_of(s).to_set(),
    decreases s.len(),
{
    if s.len() > 0 {
        let p = s.drop_last();
        lemma_map_of_domain(p);
        assert(keys_of(s) =~= keys_of(p).push(s.last().0@));
        keys_of(p).lemma_push_to_set_commute(s.last().0@);
    }
}

pub proof fn lemma_map_of_value<V: View>(s: Seq<(String, V)>, i: int)
    requires
        keys_of(s).no_duplicates(),
        0 <= i < s.len(),
    ensures
        map_of(s).contains_key(s[i].0@),
        map_of(s)[s[i].0@] == s[i].1@,
    decreases s.len(),
{
    let p = s.drop_last();
    if i < s.len() - 1 {
        assert(keys_of(s)[i] != keys_of(s)[s.len() - 1]);
        assert(keys_of(p) =~= keys_of(s).drop_last());
        lemma_map_of_value(p, i);
    }
}

pub proof fn lemma_map_of_update<V: View>(s: Seq<(String, V)>, i: int, e: (String, V))
    requires
        keys_of(s).no_duplicates(),
        0 <= i < s.len(),
        e.0@ == s[i].0@,
    ensures
        keys_of(s.update(i, e)) == keys_of(s),
        map_of(s.update(i, e)) == map_of(s).insert(e.0@, e.1@),
{
    let t = s.update(i, e);
    assert(keys_of(t) =~= keys_of(s));
    lemma_map_of_domain(s);
    lemma_map_of_domain(t);
    lemma_map_of_value(t, i);
    assert forall|k: Seq<char>| #[trigger] map_of(t).contains_key(k) implies map_of(t)[k] == map_of(
        s,
    ).insert(e.0@, e.1@)[k] by {
        assert(keys_of(t).contains(k));
        let j = choose|j: int| 0 <= j < keys_of(t).len() && keys_of(t)[j] == k;
        if j != i {
            lemma_map_of_value(t, j);
            lemma_map_of_value(s, j);
        }
    }
    assert(map_of(s).insert(e.0@, e.1@).dom() =~= map_of(t).dom());
    assert(map_of(t) =~= map_of(s).insert(e.0@, e.1@));
}

/// A map from names to values, kept in the order in which keys were added.
pub struct NameMap<V> {
    entries: Vec<(String, V)>,
}

impl<V: View> View for NameMap<V> {
    type V = Map<Seq<char>, V::V>;

    closed spec fn view(&self) -> Map<Seq<char>, V::V> {
        map_of(self.entries@)
    }
}

impl<V> NameMap<V> {
    #[verifier::type_invariant]
    spec fn distinct_keys(&self) -> bool {
        keys_of(self.entries@).no_duplicates()
    }
}

impl<V: View> NameMap<V> {
    /// The keys, in order.
    pub closed spec fn keys(&self) -> Seq<Seq<char>> {
        keys_of(self.entries@)
    }

    /// The keys of the map are those of its key sequence.
    pub proof fn lemma_domain(&self)
        ensures
            self@.dom() == self.keys().to_set(),
    {
        lemma_map_of_domain(self.entries@);
    }

    pub fn new() -> (r: NameMap<V>)
        ensures
            r@ == Map::<Seq<char>, V::V>::empty(),
            r.keys() == Seq::<Seq<char>>::empty(),
    {
        let r = NameMap { entries: Vec::new() };
        assert(r.keys() =~= Seq::<Seq<char>>::empty());
        r
    }

    pub fn len(&self) -> (r: usize)
        ensures
            r == self.keys().len(),
            self.keys().no_duplicates(),
            self@.dom() == self.keys().to_set(),
    {
        proof {
            use_type_invariant(self);
            lemma_map_of_domain(self.entries@);
        }
        self.entries.len()
    }

    pub fn is_empty(&self) -> (r: bool)
        ensures
            r == (self@.dom() == Set::<Seq<char>>::empty()),
    {
        proof {
            lemma_map_of_domain(self.entries@);
            if self.entries.len() > 0 {
                assert(self.keys().contains(self.keys()[0]));
                assert(self@.dom().contains(self.keys()[0]));
            } else {
                assert(self.keys() =~= Seq::<Seq<char>>::empty());
                assert(self@.dom() =~= Set::<Seq<char>>::empty());
            }
        }
        self.entries.len() == 0
    }

    /// The key at position `i`.
    pub fn key_at(&self, i: usize) -> (r: &String)
        requires
            i < self.keys().len(),
        ensures
            r@ == self.keys()[i as int],
            self@.contains_key(r@),
    {
        proof {
            use_type_invariant(self);
            lemma_map_of_value(self.entries@, i as int);
        }
        &self.entries[i].0
    }

    /// The value at position `i`.
    pub fn value_at(&self, i: usize) -> (r: &V)
        requires
            i < self.keys().len(),
        ensures
            self@.contains_key(self.keys()[i as int]),
            r@ == self@[self.keys()[i as int]],
    {
        proof {
            use_type_invariant(self);
            lemma_map_of_value(self.entries@, i as int);
        }
        &self.entries[i].1
    }

    /// The position of a key, if present.
    fn position(&self, key: &String) -> (r: Option<usize>)
        ensures
            r.is_some() ==> r.unwrap() < self.keys().len() && self.keys()[r.unwrap() as int]
                == key@,
            r.is_none() ==> !self.keys().contains(key@),
    {
        let mut i: usize = 0;
        while i < self.entries.len()
            invariant
                i <= self.entries@.len(),
                forall|j: int| 0 <= j < i ==> self.keys()[j] != key@,
            decreases self.entries.len() - i,
        {
            if same_text(&self.entries[i].0, key) {
                return Some(i);
            }
            i = i + 1;
        }
        None
    }

    pub fn get(&self, key: &str) -> (r: Option<&V>)
        ensures
            r.is_some() == self@.contains_key(key@),
            r.is_some() ==> r.unwrap()@ == self@[key@],
    {
        proof {
            use_type_invariant(self);
            lemma_map_of_domain(self.entries@);
        }
        let k = key.to_owned();
        match self.position(&k) {
            Some(i) => {
                proof {
                    lemma_map_of_value(self.entries@, i as int);
                }
                Some(&self.entries[i].1)
            },
            None => None,
        }
    }

    pub fn contains_key(&self, key: &str) -> (r: bool)
        ensures
            r == self@.contains_key(key@),
    {
        proof {
            lemma_map_of_domain(self.entries@);
        }
        let k = key.to_owned();
        self.position(&k).is_some()
    }

    /// Sets the value of a key: a present key keeps its place, a new one
    /// goes last.
    pub fn insert(&mut self, key: String, value: V)
        ensures
            final(self)@ == old(self)@.insert(key@, value@),
            final(self).keys() == if old(self).keys().contains(key@) {
                old(self).keys()
            } else {
                old(self).keys().push(key@)
            },
    {
        proof {
            use_type_invariant(&*self);
        }
        let pos = self.position(&key);
        let ghost before = self.entries@;
        let mut taken = NameMap::new();
        core::mem::swap(self, &mut taken);
        let mut entries = taken.entries;
        match pos {
            Some(i) => {
                proof {
                    lemma_map_of_update(before, i as int, (key, value));
                }
                entries.set(i, (key, value));
            },
            None => {
                let ghost k = key@;
                entries.push((key, value));
                proof {
                    assert(entries@.drop_last() =~= before);
                    assert(keys_of(entries@) =~= keys_of(before).push(k));
                    assert forall|a: int, b: int|
                        0 <= a < keys_of(entries@).len() && 0 <= b < keys_of(entries@).len() && a
                            != b implies keys_of(entries@)[a] != keys_of(entries@)[b] by {
                        if b == before.len() as int {
                            assert(keys_of(before).contains(keys_of(before)[a]));
                        } else if a == before.len() as int {
                            assert(keys_of(before).contains(keys_of(before)[b]));
                        }
                    }
                }
            },
        }
        *self = NameMap { entries };
    }
}

impl<V: Duplicable> NameMap<V> {
    /// Adds every entry of `other`; on a shared key the value of `other` wins.
    pub fn extend_from(&mut self, other: &NameMap<V>)
        ensures
            final(self)@ == old(self)@.union_prefer_right(other@),
    {
        let n = other.len();
        let ghost start = self@;
        let mut i: usize = 0;
        while i < n
            invariant
                i <= n,
                n == other.keys().len(),
                other@.dom() == other.keys().to_set(),
                self@ == start.union_prefer_right(
                    other@.restrict(other.keys().subrange(0, i as int).to_set()),
                ),
            decreases n - i,
        {
            let k = other.key_at(i).clone();
            let v = other.value_at(i).duplicate();
            let ghost done = other.keys().subrange(0, i as int).to_set();
            let ghost next = other.keys().subrange(0, i + 1).to_set();
            self.insert(k, v);
            proof {
                assert(other.keys().subrange(0, i + 1) =~= other.keys().subrange(
                    0,
                    i as int,
                ).push(k@));
                other.keys().subrange(0, i as int).lemma_push_to_set_commute(k@);
                assert(self@ =~= start.union_prefer_right(other@.restrict(next)));
            }
            i = i + 1;
        }
        proof {
            assert(other.keys().subrange(0, n as int) =~= other.keys());
            assert(other@.restrict(other.keys().to_set()) =~= other@);
        }
    }
}

impl<V: Duplicable> Duplicable for NameMap<V> {
    fn duplicate(&self) -> (r: NameMap<V>) {
        proof {
            use_type_invariant(self);
        }
        let mut entries: Vec<(String, V)> = Vec::new();
        let mut i: usize = 0;
        while i < self.entries.len()
            invariant
                i <= self.entries@.len(),
                entries@.len() == i,
                forall|j: int|
                    0 <= j < i ==> entries@[j].0@ == self.entries@[j].0@ && entries@[j].1@
                        == self.entries@[j].1@,
            decreases self.entries.len() - i,
        {
            let k = self.entries[i].0.clone();
            let v = self.entries[i].1.duplicate();
            entries.push((k, v));
            i = i + 1;
        }
        proof {
            assert(keys_of(entries@) =~= keys_of(self.entries@));
            lemma_map_of_domain(entries@);
            lemma_map_of_domain(self.entries@);
            assert forall|k: Seq<char>| #[trigger] map_of(entries@).contains_key(k) implies map_of(
                entries@,
            )[k] == map_of(self.entries@)[k] by {
                let j = choose|j: int| 0 <= j < keys_of(entries@).len() && keys_of(entries@)[j] == k;
                lemma_map_of_value(entries@, j);
                lemma_map_of_value(self.entries@, j);
            }
            assert(map_of(entries@) =~= map_of(self.entries@));
        }
        NameMap { entries }
    }
}

} // verus!
