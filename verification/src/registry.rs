//! The bookkeeping that the host keeps across calls: the models registered by
//! property name, which list-view properties mirror which models, and the one
//! Slint instance that is worked on.
use vstd::prelude::*;

verus! {

/// No two entries of `s` carry the same name.
pub closed spec fn distinct_names<T>(s: Seq<(String, T)>) -> bool {
    forall|i: int, j: int| 0 <= i < j < s.len() ==> #[trigger] s[i].0@ != #[trigger] s[j].0@
}

/// Entry `i` of `s` carries the name `k`.
pub closed spec fn has_at<T>(s: Seq<(String, T)>, k: Seq<char>, i: int) -> bool {
    0 <= i < s.len() && s[i].0@ == k
}

/// Some entry of `s` that carries the name `k`.
closed spec fn index_of<T>(s: Seq<(String, T)>, k: Seq<char>) -> int {
    choose|i: int| has_at(s, k, i)
}

/// The values of `s`, by name.
pub closed spec fn contents_of<T>(s: Seq<(String, T)>) -> Map<Seq<char>, T> {
    Map::new(|k: Seq<char>| exists|i: int| has_at(s, k, i), |k: Seq<char>| s[index_of(s, k)].1)
}

proof fn lemma_index_of<T>(s: Seq<(String, T)>, k: Seq<char>, i: int)
    requires
        distinct_names(s),
        has_at(s, k, i),
    ensures
        index_of(s, k) == i,
        contents_of(s).contains_key(k),
        contents_of(s)[k] == s[i].1,
{
    let j = index_of(s, k);
    assert(has_at(s, k, j));
    if j < i {
        assert(s[j].0@ != s[i].0@);
    } else if i < j {
        assert(s[i].0@ != s[j].0@);
    }
}

proof fn lemma_update<T>(s: Seq<(String, T)>, i: int, e: (String, T))
    requires
        distinct_names(s),
        0 <= i < s.len(),
        s[i].0@ == e.0@,
    ensures
        distinct_names(s.update(i, e)),
        contents_of(s.update(i, e)) =~= contents_of(s).insert(e.0@, e.1),
{
    let t = s.update(i, e);
    assert forall|a: int, b: int| 0 <= a < b < t.len() implies #[trigger] t[a].0@ != #[trigger] t[b].0@ by {
        assert(s[a].0@ != s[b].0@);
    }
    lemma_index_of(t, e.0@, i);
    assert forall|k: Seq<char>| #[trigger] contents_of(t).contains_key(k) == contents_of(s).insert(e.0@, e.1).contains_key(k) by {
        if contents_of(s).contains_key(k) {
            let a = choose|a: int| has_at(s, k, a);
            assert(has_at(t, k, a));
        }
        if contents_of(t).contains_key(k) {
            let a = choose|a: int| has_at(t, k, a);
            assert(has_at(s, k, a));
        }
    }
    assert forall|k: Seq<char>| #[trigger] contents_of(t).contains_key(k) && k != e.0@ implies
        contents_of(t)[k] == contents_of(s)[k] by {
        let a = choose|a: int| has_at(t, k, a);
        lemma_index_of(t, k, a);
        assert(has_at(s, k, a));
        lemma_index_of(s, k, a);
    }
}

proof fn lemma_push<T>(s: Seq<(String, T)>, e: (String, T))
    requires
        distinct_names(s),
        !contents_of(s).contains_key(e.0@),
    ensures
        distinct_names(s.push(e)),
        contents_of(s.push(e)) =~= contents_of(s).insert(e.0@, e.1),
{
    let t = s.push(e);
    assert forall|a: int, b: int| 0 <= a < b < t.len() implies #[trigger] t[a].0@ != #[trigger] t[b].0@ by {
        if b == s.len() {
            assert(!has_at(s, e.0@, a));
        } else {
            assert(s[a].0@ != s[b].0@);
        }
    }
    lemma_index_of(t, e.0@, s.len() as int);
    assert forall|k: Seq<char>| #[trigger] contents_of(t).contains_key(k) == contents_of(s).insert(e.0@, e.1).contains_key(k) by {
        if contents_of(s).contains_key(k) {
            let a = choose|a: int| has_at(s, k, a);
            assert(has_at(t, k, a));
        }
        if contents_of(t).contains_key(k) && k != e.0@ {
            let a = choose|a: int| has_at(t, k, a);
            assert(has_at(s, k, a));
        }
    }
    assert forall|k: Seq<char>| #[trigger] contents_of(t).contains_key(k) && k != e.0@ implies
        contents_of(t)[k] == contents_of(s)[k] by {
        let a = choose|a: int| has_at(t, k, a);
        lemma_index_of(t, k, a);
        assert(has_at(s, k, a));
        lemma_index_of(s, k, a);
    }
}

/// Values registered under distinct names.
pub struct NamedRegistry<T> {
    entries: Vec<(String, T)>,
}

impl<T> NamedRegistry<T> {
    /// No two entries carry the same name.
    #[verifier::type_invariant]
    closed spec fn names_distinct(self) -> bool {
        distinct_names(self.entries@)
    }

    /// An empty registry.
    pub fn new() -> (r: Self)
        ensures
            r@ == Map::<Seq<char>, T>::empty(),
    {
        let r = NamedRegistry { entries: Vec::new() };
        assert(contents_of(r.entries@) =~= Map::<Seq<char>, T>::empty());
        r
    }

    /// The position of the entry named `k`, if any.
    fn find(&self, k: &String) -> (r: Option<usize>)
        ensures
            r matches Some(i) ==> has_at(self.entries@, k@, i as int) && self@.contains_key(k@)
                && self@[k@] == self.entries@[i as int].1,
            r is None ==> !self@.contains_key(k@),
    {
        proof {
            use_type_invariant(self);
        }
        let mut i: usize = 0;
        while i < self.entries.len()
            invariant
                i <= self.entries.len(),
                distinct_names(self.entries@),
                forall|j: int| 0 <= j < i ==> self.entries@[j].0@ != k@,
            decreases self.entries.len() - i,
        {
            if self.entries[i].0 == *k {
                proof {
                    lemma_index_of(self.entries@, k@, i as int);
                }
                return Some(i);
            }
            i = i + 1;
        }
        None
    }

    /// Whether a value is registered under `k`.
    pub fn contains(&self, k: &String) -> (b: bool)
        ensures
            b == self@.contains_key(k@),
    {
        self.find(k).is_some()
    }

    /// The value registered under `k`, if any.
    pub fn get(&self, k: &String) -> (r: Option<&T>)
        ensures
            r matches Some(v) ==> self@.contains_key(k@) && *v == self@[k@],
            r is None ==> !self@.contains_key(k@),
    {
        match self.find(k) {
            Some(i) => Some(&self.entries[i].1),
            None => None,
        }
    }

    /// Registers `v` under `k`, in place of any value registered there.
    pub fn insert(&mut self, k: String, v: T)
        ensures
            final(self)@ == old(self)@.insert(k@, v),
    {
        proof {
            use_type_invariant(&*self);
        }
        let found = self.find(&k);
        let mut es: Vec<(String, T)> = Vec::new();
        std::mem::swap(&mut es, &mut self.entries);
        match found {
            Some(i) => {
                proof {
                    lemma_update(es@, i as int, (k, v));
                }
                es[i] = (k, v);
            },
            None => {
                proof {
                    lemma_push(es@, (k, v));
                }
                es.push((k, v));
            },
        }
        self.entries = es;
    }
}

impl<T> View for NamedRegistry<T> {
    type V = Map<Seq<char>, T>;

    closed spec fn view(&self) -> Map<Seq<char>, T> {
        contents_of(self.entries@)
    }
}

/// The characters of each string of `v`, in order.
pub open spec fn texts(v: Seq<String>) -> Seq<Seq<char>> {
    v.map_values(|s: String| s@)
}

/// A copy of `v`.
fn copy_texts(v: &Vec<String>) -> (r: Vec<String>)
    ensures
        texts(r@) == texts(v@),
{
    let mut r: Vec<String> = Vec::new();
    let mut i: usize = 0;
    while i < v.len()
        invariant
            i <= v.len(),
            texts(r@) =~= texts(v@.take(i as int)),
        decreases v.len() - i,
    {
        let ghost before = r@;
        let c = v[i].clone();
        r.push(c);
        assert(r@ == before.push(c));
        assert(texts(r@) =~= texts(before).push(c@));
        assert(v@.take((i + 1) as int) =~= v@.take(i as int).push(v@[i as int]));
        assert(texts(v@.take((i + 1) as int)) =~= texts(v@.take(i as int)).push(v@[i as int]@));
        i = i + 1;
    }
    assert(v@.take(v.len() as int) =~= v@);
    r
}

/// Whether `v` holds a string with the characters of `t`.
fn holds_text(v: &Vec<String>, t: &String) -> (b: bool)
    ensures
        b == texts(v@).contains(t@),
{
    let mut i: usize = 0;
    while i < v.len()
        invariant
            i <= v.len(),
            forall|j: int| 0 <= j < i ==> v@[j]@ != t@,
        decreases v.len() - i,
    {
        if v[i] == *t {
            assert(texts(v@)[i as int] == t@);
            return true;
        }
        i = i + 1;
    }
    assert forall|j: int| 0 <= j < texts(v@).len() implies texts(v@)[j] != t@ by {
        assert(texts(v@)[j] == v@[j]@);
    }
    false
}

/// For each source property, the list-view properties that mirror it, each
/// listed once, in the order in which they were first recorded.
pub struct BridgeRegistry {
    bridges: NamedRegistry<Vec<String>>,
}

/// What `BridgeRegistry::insert` makes of the bridges `m`.
pub open spec fn bridges_after_insert(
    m: Map<Seq<char>, Seq<Seq<char>>>,
    source: Seq<char>,
    target: Seq<char>,
) -> Map<Seq<char>, Seq<Seq<char>>> {
    if m.contains_key(source) {
        if m[source].contains(target) {
            m
        } else {
            m.insert(source, m[source].push(target))
        }
    } else {
        m.insert(source, seq![target])
    }
}

impl BridgeRegistry {
    /// No target is listed twice for the same source.
    #[verifier::type_invariant]
    closed spec fn targets_distinct(self) -> bool {
        forall|k: Seq<char>| #[trigger] self.bridges@.contains_key(k) ==> texts(self.bridges@[k]@).no_duplicates()
    }

    /// No bridges.
    pub fn new() -> (r: Self)
        ensures
            r@ == Map::<Seq<char>, Seq<Seq<char>>>::empty(),
    {
        let r = BridgeRegistry { bridges: NamedRegistry::new() };
        assert(r@ =~= Map::<Seq<char>, Seq<Seq<char>>>::empty());
        r
    }

    /// Whether some list view mirrors `source`.
    pub fn contains(&self, source: &String) -> (b: bool)
        ensures
            b == self@.contains_key(source@),
    {
        self.bridges.contains(source)
    }

    /// The list-view properties that mirror `source`; none when no bridge
    /// starts there.
    pub fn targets_of(&self, source: &String) -> (r: Vec<String>)
        ensures
            texts(r@) == (if self@.contains_key(source@) { self@[source@] } else { Seq::<Seq<char>>::empty() }),
    {
        match self.bridges.get(source) {
            Some(ts) => copy_texts(ts),
            None => {
                let r: Vec<String> = Vec::new();
                assert(texts(r@) =~= Seq::<Seq<char>>::empty());
                r
            },
        }
    }

    /// Records that the list view `target` mirrors `source`; a target already
    /// recorded for `source` is not recorded again.
    pub fn insert(&mut self, source: String, target: String)
        ensures
            final(self)@ == bridges_after_insert(old(self)@, source@, target@),
    {
        proof {
            use_type_invariant(&*self);
        }
        let ghost m = self@;
        let mut b: NamedRegistry<Vec<String>> = NamedRegistry::new();
        std::mem::swap(&mut b, &mut self.bridges);
        let new_targets: Option<Vec<String>> = match b.get(&source) {
            Some(ts) => {
                if holds_text(ts, &target) {
                    None
                } else {
                    let mut t2 = copy_texts(ts);
                    t2.push(target);
                    assert(texts(t2@) =~= texts(ts@).push(target@));
                    Some(t2)
                }
            },
            None => {
                let mut t2: Vec<String> = Vec::new();
                t2.push(target);
                assert(texts(t2@) =~= seq![target@]);
                Some(t2)
            },
        };
        match new_targets {
            Some(t2) => {
                b.insert(source, t2);
            },
            None => {},
        }
        assert(b@.dom() =~= bridges_after_insert(m, source@, target@).dom());
        self.bridges = b;
        assert(self@ =~= bridges_after_insert(m, source@, target@));
    }

    /// Records the bridge from `source` to `target` when the host managed to
    /// fill `target` (`accepted`); otherwise nothing changes.
    pub fn record_transfer(&mut self, source: String, target: String, accepted: bool)
        ensures
            accepted ==> final(self)@ == bridges_after_insert(old(self)@, source@, target@),
            !accepted ==> final(self)@ == old(self)@,
    {
        if accepted {
            self.insert(source, target);
        }
    }
}

impl View for BridgeRegistry {
    type V = Map<Seq<char>, Seq<Seq<char>>>;

    closed spec fn view(&self) -> Map<Seq<char>, Seq<Seq<char>>> {
        Map::new(|k: Seq<char>| self.bridges@.contains_key(k), |k: Seq<char>| texts(self.bridges@[k]@))
    }
}

/// The one Slint instance that the host works on, if any.
pub struct InstanceSlot<T> {
    items: Vec<T>,
}

impl<T> InstanceSlot<T> {
    /// At most one instance is held.
    #[verifier::type_invariant]
    closed spec fn at_most_one(self) -> bool {
        self.items.len() <= 1
    }

    /// No instance.
    pub fn new() -> (r: Self)
        ensures
            r@ is None,
    {
        InstanceSlot { items: Vec::new() }
    }

    /// Whether no instance is held.
    pub fn is_empty(&self) -> (b: bool)
        ensures
            b == (self@ is None),
    {
        self.items.len() == 0
    }

    /// The instance held, if any.
    pub fn current(&self) -> (r: Option<&T>)
        ensures
            r matches Some(x) ==> self@ == Some(*x),
            r is None ==> self@ is None,
    {
        if self.items.len() == 0 {
            None
        } else {
            Some(&self.items[0])
        }
    }

    /// Holds `x` in place of any instance held before.
    pub fn replace(&mut self, x: T)
        ensures
            final(self)@ == Some(x),
    {
        proof {
            use_type_invariant(&*self);
        }
        let mut v: Vec<T> = Vec::new();
        std::mem::swap(&mut v, &mut self.items);
        if v.len() > 0 {
            v.pop();
        }
        v.push(x);
        self.items = v;
    }
}

impl<T> View for InstanceSlot<T> {
    type V = Option<T>;

    closed spec fn view(&self) -> Option<T> {
        if self.items.len() == 0 {
            None
        } else {
            Some(self.items[0])
        }
    }
}

} // verus!
