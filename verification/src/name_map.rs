//! A map from names to values that remembers the order in which names arrived.

use vstd::prelude::*;
use crate::text::same_text;

verus! {

struct Entry<V> {
    name: String,
    value: V,
}

/// A finite map keyed by name. Each name occurs once; walking the map visits
/// the names in the order in which they were first inserted, so that two runs
/// on the same input behave alike.
pub struct NameMap<V> {
    entries: Vec<Entry<V>>,
}

spec fn names_of<V>(entries: Seq<Entry<V>>) -> Seq<Seq<char>> {
    Seq::new(entries.len(), |i: int| entries[i].name@)
}

spec fn distinct_names<V>(entries: Seq<Entry<V>>) -> bool {
    forall|i: int, j: int| 0 <= i < j < entries.len() ==> entries[i].name@ != entries[j].name@
}

spec fn map_of<V>(entries: Seq<Entry<V>>) -> Map<Seq<char>, V> {
    Map::new(
        |k: Seq<char>| names_of(entries).contains(k),
        |k: Seq<char>| entries[names_of(entries).index_of(k)].value,
    )
}

proof fn lemma_map_of_at<V>(entries: Seq<Entry<V>>, i: int)
    requires
        distinct_names(entries),
        0 <= i < entries.len(),
    ensures
        map_of(entries).contains_key(entries[i].name@),
        map_of(entries)[entries[i].name@] == entries[i].value,
{
    let names = names_of(entries);
    let k = entries[i].name@;
    assert(names[i] == k);
    let j = names.index_of(k);
    assert(0 <= j < names.len() && names[j] == k);
    if i < j {
        assert(entries[i].name@ != entries[j].name@);
    } else if j < i {
        assert(entries[j].name@ != entries[i].name@);
    }
}

proof fn lemma_map_of_absent<V>(entries: Seq<Entry<V>>, k: Seq<char>)
    requires
        forall|i: int| 0 <= i < entries.len() ==> entries[i].name@ != k,
    ensures
        !map_of(entries).contains_key(k),
{
    let names = names_of(entries);
    if names.contains(k) {
        let j = choose|j: int| 0 <= j < names.len() && names[j] == k;
        assert(entries[j].name@ == k);
    }
}

proof fn lemma_map_of_push<V>(entries: Seq<Entry<V>>, e: Entry<V>)
    requires
        distinct_names(entries),
        forall|i: int| 0 <= i < entries.len() ==> entries[i].name@ != e.name@,
    ensures
        distinct_names(entries.push(e)),
        map_of(entries.push(e)) == map_of(entries).insert(e.name@, e.value),
        names_of(entries.push(e)) == names_of(entries).push(e.name@),
{
    let after = entries.push(e);
    assert(distinct_names(after));
    assert(names_of(after) =~= names_of(entries).push(e.name@));
    assert forall|k: Seq<char>|
        map_of(after).contains_key(k) <==> #[trigger] map_of(entries).insert(
            e.name@,
            e.value,
        ).contains_key(k) by {
        if names_of(after).contains(k) {
            let j = choose|j: int| 0 <= j < after.len() && names_of(after)[j] == k;
            if j < entries.len() {
                assert(names_of(entries)[j] == k);
            }
        }
        if names_of(entries).contains(k) {
            let j = choose|j: int| 0 <= j < entries.len() && names_of(entries)[j] == k;
            assert(names_of(after)[j] == k);
        }
        if k == e.name@ {
            assert(names_of(after)[entries.len() as int] == k);
        }
    }
    assert forall|k: Seq<char>| #[trigger] map_of(after).contains_key(k) implies map_of(after)[k]
        == map_of(entries).insert(e.name@, e.value)[k] by {
        let j = choose|j: int| 0 <= j < after.len() && names_of(after)[j] == k;
        lemma_map_of_at(after, j);
        if j < entries.len() {
            lemma_map_of_at(entries, j);
        }
    }
    assert(map_of(after) =~= map_of(entries).insert(e.name@, e.value));
}

proof fn lemma_map_of_update<V>(entries: Seq<Entry<V>>, at: int, e: Entry<V>)
    requires
        distinct_names(entries),
        0 <= at < entries.len(),
        entries[at].name@ == e.name@,
    ensures
        distinct_names(entries.update(at, e)),
        map_of(entries.update(at, e)) == map_of(entries).insert(e.name@, e.value),
        names_of(entries.update(at, e)) == names_of(entries),
{
    let after = entries.update(at, e);
    assert(names_of(after) =~= names_of(entries));
    assert forall|i: int, j: int| 0 <= i < j < after.len() implies after[i].name@
        != after[j].name@ by {
        assert(entries[i].name@ != entries[j].name@);
    }
    lemma_map_of_at(entries, at);
    assert forall|k: Seq<char>| #[trigger] map_of(after).contains_key(k) implies map_of(after)[k]
        == map_of(entries).insert(e.name@, e.value)[k] by {
        let j = choose|j: int| 0 <= j < after.len() && names_of(after)[j] == k;
        lemma_map_of_at(after, j);
        lemma_map_of_at(entries, j);
    }
    assert(map_of(after) =~= map_of(entries).insert(e.name@, e.value));
}

proof fn lemma_map_of_remove<V>(entries: Seq<Entry<V>>, at: int)
    requires
        distinct_names(entries),
        0 <= at < entries.len(),
    ensures
        distinct_names(entries.remove(at)),
        map_of(entries.remove(at)) == map_of(entries).remove(entries[at].name@),
        names_of(entries.remove(at)) == names_of(entries).remove(at),
{
    let after = entries.remove(at);
    let gone = entries[at].name@;
    assert(names_of(after) =~= names_of(entries).remove(at));
    assert forall|i: int, j: int| 0 <= i < j < after.len() implies after[i].name@
        != after[j].name@ by {
        let a = if i < at { i } else { i + 1 };
        let b = if j < at { j } else { j + 1 };
        assert(entries[a].name@ != entries[b].name@);
    }
    assert forall|i: int| 0 <= i < after.len() implies after[i].name@ != gone by {
        let a = if i < at { i } else { i + 1 };
        if a < at {
            assert(entries[a].name@ != entries[at].name@);
        } else {
            assert(entries[at].name@ != entries[a].name@);
        }
    }
    lemma_map_of_absent(after, gone);
    assert forall|k: Seq<char>|
        map_of(after).contains_key(k) <==> #[trigger] map_of(entries).remove(gone).contains_key(
            k,
        ) by {
        if names_of(after).contains(k) {
            let j = choose|j: int| 0 <= j < after.len() && names_of(after)[j] == k;
            let a = if j < at { j } else { j + 1 };
            assert(names_of(entries)[a] == k);
        }
        if names_of(entries).contains(k) && k != gone {
            let j = choose|j: int| 0 <= j < entries.len() && names_of(entries)[j] == k;
            let a = if j < at { j } else { j - 1 };
            assert(names_of(after)[a] == k);
        }
    }
    assert forall|k: Seq<char>| #[trigger] map_of(after).contains_key(k) implies map_of(after)[k]
        == map_of(entries).remove(gone)[k] by {
        let j = choose|j: int| 0 <= j < after.len() && names_of(after)[j] == k;
        let a = if j < at { j } else { j + 1 };
        lemma_map_of_at(after, j);
        lemma_map_of_at(entries, a);
    }
    assert(map_of(after) =~= map_of(entries).remove(gone));
}

impl<V> View for NameMap<V> {
    type V = Map<Seq<char>, V>;

    closed spec fn view(&self) -> Map<Seq<char>, V> {
        map_of(self.entries@)
    }
}

impl<V> NameMap<V> {
    #[verifier::type_invariant]
    spec fn well_formed(self) -> bool {
        distinct_names(self.entries@)
    }

    /// The names held, in the order in which they were first inserted.
    pub closed spec fn names(&self) -> Seq<Seq<char>> {
        names_of(self.entries@)
    }

    /// The map that holds nothing.
    pub fn new() -> (map: Self)
        ensures
            map@ == Map::<Seq<char>, V>::empty(),
            map.names() == Seq::<Seq<char>>::empty(),
    {
        let map = NameMap { entries: Vec::new() };
        assert(map@ =~= Map::<Seq<char>, V>::empty());
        assert(map.names() =~= Seq::<Seq<char>>::empty());
        map
    }

    /// How many names are held. The names are distinct, and they are the keys.
    pub fn len(&self) -> (n: usize)
        ensures
            n == self.names().len(),
            self.names().no_duplicates(),
            forall|k: Seq<char>| #[trigger] self@.contains_key(k) <==> self.names().contains(k),
    {
        proof {
            use_type_invariant(self);
        }
        self.entries.len()
    }

    /// Whether no name is held.
    pub fn is_empty(&self) -> (empty: bool)
        ensures
            empty == (self.names().len() == 0),
            empty == (self@ == Map::<Seq<char>, V>::empty()),
    {
        proof {
            if self.entries@.len() == 0 {
                assert(self@ =~= Map::<Seq<char>, V>::empty());
            } else {
                assert(names_of(self.entries@)[0] == self.entries@[0].name@);
                assert(self@.contains_key(self.entries@[0].name@));
            }
        }
        self.entries.len() == 0
    }

    /// Where `name` stands in the order of insertion.
    pub fn position(&self, name: &str) -> (found: Option<usize>)
        ensures
            match found {
                Some(i) => i < self.names().len() && self.names()[i as int] == name@
                    && self@.contains_key(name@),
                None => !self.names().contains(name@) && !self@.contains_key(name@),
            },
    {
        let mut i: usize = 0;
        while i < self.entries.len()
            invariant
                i <= self.entries.len(),
                forall|j: int| 0 <= j < i ==> self.entries[j].name@ != name@,
            decreases self.entries.len() - i,
        {
            if same_text(self.entries[i].name.as_str(), name) {
                assert(names_of(self.entries@)[i as int] == name@);
                return Some(i);
            }
            i += 1;
        }
        proof {
            lemma_map_of_absent(self.entries@, name@);
        }
        None
    }

    /// Whether `name` is held.
    pub fn contains_key(&self, name: &str) -> (held: bool)
        ensures
            held == self@.contains_key(name@),
    {
        self.position(name).is_some()
    }

    /// The value held under `name`.
    pub fn get(&self, name: &str) -> (found: Option<&V>)
        ensures
            match found {
                Some(value) => self@.contains_key(name@) && *value == self@[name@],
                None => !self@.contains_key(name@),
            },
    {
        match self.position(name) {
            Some(i) => {
                proof {
                    use_type_invariant(self);
                    lemma_map_of_at(self.entries@, i as int);
                }
                Some(&self.entries[i].value)
            },
            None => None,
        }
    }

    /// The name at place `i` in the order of insertion.
    pub fn name_at(&self, i: usize) -> (name: &String)
        requires
            i < self.names().len(),
        ensures
            name@ == self.names()[i as int],
            self@.contains_key(name@),
    {
        proof {
            use_type_invariant(self);
            lemma_map_of_at(self.entries@, i as int);
        }
        &self.entries[i].name
    }

    /// The value at place `i` in the order of insertion.
    pub fn value_at(&self, i: usize) -> (value: &V)
        requires
            i < self.names().len(),
        ensures
            self@.contains_key(self.names()[i as int]),
            *value == self@[self.names()[i as int]],
    {
        proof {
            use_type_invariant(self);
            lemma_map_of_at(self.entries@, i as int);
        }
        &self.entries[i].value
    }

    /// Puts `value` under `name`. A name already held keeps its place and
    /// gets the new value; a new name goes to the end.
    pub fn insert(&mut self, name: String, value: V)
        ensures
            final(self)@ == old(self)@.insert(name@, value),
            final(self).names() == if old(self)@.contains_key(name@) {
                old(self).names()
            } else {
                old(self).names().push(name@)
            },
    {
        proof {
            use_type_invariant(&*self);
        }
        let found = self.position(name.as_str());
        let mut entries: Vec<Entry<V>> = Vec::new();
        std::mem::swap(&mut entries, &mut self.entries);
        let entry = Entry { name, value };
        match found {
            Some(i) => {
                proof {
                    lemma_map_of_update(entries@, i as int, entry);
                }
                entries.set(i, entry);
            },
            None => {
                proof {
                    assert forall|j: int| 0 <= j < entries@.len() implies entries@[j].name@
                        != entry.name@ by {
                        assert(names_of(entries@)[j] == entries@[j].name@);
                    }
                    lemma_map_of_push(entries@, entry);
                }
                entries.push(entry);
            },
        }
        self.entries = entries;
    }

    /// Takes `name` out, with its value. The other names keep their order.
    pub fn remove(&mut self, name: &str) -> (taken: Option<V>)
        ensures
            final(self)@ == old(self)@.remove(name@),
            match taken {
                Some(value) => old(self)@.contains_key(name@) && value == old(self)@[name@],
                None => !old(self)@.contains_key(name@),
            },
            final(self).names() == old(self).names().remove_value(name@),
    {
        proof {
            use_type_invariant(&*self);
        }
        let found = self.position(name);
        match found {
            Some(i) => {
                let mut entries: Vec<Entry<V>> = Vec::new();
                std::mem::swap(&mut entries, &mut self.entries);
                proof {
                    lemma_map_of_remove(entries@, i as int);
                    lemma_map_of_at(entries@, i as int);
                    let names = names_of(entries@);
                    names.index_of_first_ensures(name@);
                    let first = names.index_of_first(name@).unwrap();
                    if first < i {
                        assert(entries@[first].name@ != entries@[i as int].name@);
                    }
                }
                let entry = entries.remove(i);
                self.entries = entries;
                Some(entry.value)
            },
            None => {
                proof {
                    self.entries@.len();
                    names_of(self.entries@).index_of_first_ensures(name@);
                    assert(self@.remove(name@) =~= self@);
                }
                None
            },
        }
    }

    /// Takes every name out.
    pub fn clear(&mut self)
        ensures
            final(self)@ == Map::<Seq<char>, V>::empty(),
            final(self).names() == Seq::<Seq<char>>::empty(),
    {
        self.entries = Vec::new();
        assert(self@ =~= Map::<Seq<char>, V>::empty());
        assert(self.names() =~= Seq::<Seq<char>>::empty());
    }
}

} // verus!
