//! A small map from field names to values that remembers the order in which
//! the names were first inserted.
use vstd::prelude::*;

verus! {

/// One name with its value.
#[derive(Debug, Clone)]
pub struct FieldEntry<V> {
    pub name: String,
    pub value: V,
}

/// A map keyed by field name. No name occurs twice, and names keep the
/// position at which they were first inserted.
#[derive(Debug)]
pub struct FieldMap<V> {
    entries: Vec<FieldEntry<V>>,
}

/// Tells whether no two positions of `names` hold the same name.
pub open spec fn distinct(names: Seq<Seq<char>>) -> bool {
    forall|i: int, j: int| 0 <= i < j < names.len() ==> names[i] != names[j]
}

/// The position of `name` in `names`, or `names.len()` if it is absent.
pub open spec fn position_of(names: Seq<Seq<char>>, name: Seq<char>) -> int
    decreases names.len(),
{
    if names.len() == 0 {
        0
    } else if names.first() == name {
        0
    } else {
        1 + position_of(names.drop_first(), name)
    }
}

/// `position_of` is in range, finds `name` when it is present, and passes
/// over no occurrence of it.
pub proof fn position_of_bounds(names: Seq<Seq<char>>, name: Seq<char>)
    ensures
        0 <= position_of(names, name) <= names.len(),
        position_of(names, name) < names.len() ==> names[position_of(names, name)] == name,
        forall|i: int| 0 <= i < position_of(names, name) ==> names[i] != name,
        position_of(names, name) < names.len() <==> names.contains(name),
    decreases names.len(),
{
    if names.len() > 0 && names.first() != name {
        let rest = names.drop_first();
        position_of_bounds(rest, name);
        assert forall|i: int| 0 <= i < position_of(names, name) implies names[i] != name by {
            if i > 0 {
                assert(names[i] == rest[i - 1]);
            }
        }
        if rest.contains(name) {
            let k = choose|k: int| 0 <= k < rest.len() && rest[k] == name;
            assert(names[k + 1] == name);
        }
        if names.contains(name) {
            let k = choose|k: int| 0 <= k < names.len() && names[k] == name;
            assert(rest[k - 1] == name);
        }
    } else if names.len() > 0 {
        assert(names[0] == name);
    }
}

/// A position that holds `name`, with no earlier occurrence, is `position_of`.
pub proof fn position_of_first(names: Seq<Seq<char>>, name: Seq<char>, i: int)
    requires
        0 <= i <= names.len(),
        i < names.len() ==> names[i] == name,
        forall|j: int| 0 <= j < i ==> names[j] != name,
    ensures
        position_of(names, name) == i,
    decreases names.len(),
{
    if names.len() > 0 && i > 0 {
        assert(names[0] != name);
        let rest = names.drop_first();
        assert forall|j: int| 0 <= j < i - 1 implies rest[j] != name by {
            assert(rest[j] == names[j + 1]);
        }
        position_of_first(rest, name, i - 1);
    }
}

/// The names of a run of entries.
pub open spec fn entry_names<V>(entries: Seq<FieldEntry<V>>) -> Seq<Seq<char>> {
    entries.map_values(|e: FieldEntry<V>| e.name@)
}

/// The values of a run of entries.
pub open spec fn entry_values<V>(entries: Seq<FieldEntry<V>>) -> Seq<V> {
    entries.map_values(|e: FieldEntry<V>| e.value)
}

/// What inserting `name` does to membership and positions: `name` is present
/// afterwards, every other name is present as before, and names that were
/// present keep their position.
pub proof fn names_after_insert(prior: Seq<Seq<char>>, name: Seq<char>, k: Seq<char>)
    ensures
        ({
            let after = if prior.contains(name) {
                prior
            } else {
                prior.push(name)
            };
            &&& after.contains(k) == (prior.contains(k) || k == name)
            &&& prior.contains(k) ==> position_of(after, k) == position_of(prior, k)
            &&& !prior.contains(name) ==> position_of(after, name) == prior.len()
        }),
{
    let after = if prior.contains(name) {
        prior
    } else {
        prior.push(name)
    };
    position_of_bounds(prior, k);
    position_of_bounds(prior, name);
    position_of_bounds(after, k);
    if !prior.contains(name) {
        if prior.contains(k) {
            let j = choose|j: int| 0 <= j < prior.len() && prior[j] == k;
            assert(after[j] == k);
            position_of_first(after, k, position_of(prior, k));
        }
        assert(after[prior.len() as int] == name);
        if after.contains(k) {
            let j = choose|j: int| 0 <= j < after.len() && after[j] == k;
            if j < prior.len() {
                assert(prior[j] == k);
            }
        }
        position_of_first(after, name, prior.len() as int);
    }
}

impl<T> FieldMap<Vec<T>> {
    /// The list of `name`, which is empty where the name is absent.
    pub open spec fn list_of(&self, name: Seq<char>) -> Seq<T> {
        if self.has(name) {
            self.value_of(name)@
        } else {
            Seq::empty()
        }
    }

    /// Adds `item` at the end of the list of `name`; an absent name comes
    /// last, with a list of that one item.
    pub fn append(&mut self, name: String, item: T)
        ensures
            final(self).wf(),
            final(self).names() == if old(self).has(name@) {
                old(self).names()
            } else {
                old(self).names().push(name@)
            },
            forall|k: Seq<char>| #[trigger] final(self).has(k) == (old(self).has(k) || k == name@),
            forall|k: Seq<char>|
                k != name@ && old(self).has(k) ==> #[trigger] final(self).value_of(k) == old(
                    self,
                ).value_of(k),
            final(self).list_of(name@) == old(self).list_of(name@).push(item),
    {
        proof {
            use_type_invariant(&*self);
        }
        let found = self.position(name.as_str());
        let mut taken = FieldMap { entries: Vec::new() };
        std::mem::swap(self, &mut taken);
        let mut entries = taken.entries;
        let ghost before = entries@;
        assert(before == old(self).entries@);
        match found {
            Some(i) => {
                proof {
                    position_of_bounds(entry_names(before), name@);
                }
                let gone = entries.remove(i);
                let mut list = gone.value;
                list.push(item);
                entries.insert(i, FieldEntry { name, value: list });
                assert(entry_names(entries@) =~= entry_names(before));
                assert(entries@[i as int].value@ == before[i as int].value@.push(item));
                assert forall|j: int| 0 <= j < before.len() && j != i implies entries@[j]
                    == before[j] by {}
            },
            None => {
                let mut list: Vec<T> = Vec::new();
                list.push(item);
                entries.push(FieldEntry { name, value: list });
                assert(entry_names(entries@) =~= entry_names(before).push(name@));
                assert forall|i: int, j: int|
                    0 <= i < j < entry_names(entries@).len() implies entry_names(entries@)[i]
                    != entry_names(entries@)[j] by {
                    if j == before.len() {
                        assert(entry_names(before)[i] != name@);
                    } else {
                        assert(entry_names(before)[i] != entry_names(before)[j]);
                    }
                }
            },
        }
        *self = FieldMap { entries };
        proof {
            let prior = old(self).names();
            let after = self.names();
            assert forall|k: Seq<char>| #[trigger] self.has(k) == (old(self).has(k) || k == name@) by {
                names_after_insert(prior, name@, k);
            }
            assert forall|k: Seq<char>| k != name@ && old(self).has(k) implies #[trigger] self.value_of(
                k,
            ) == old(self).value_of(k) by {
                names_after_insert(prior, name@, k);
                position_of_bounds(prior, k);
                position_of_bounds(prior, name@);
            }
            names_after_insert(prior, name@, name@);
            position_of_bounds(prior, name@);
        }
    }
}

impl<V: Clone> Clone for FieldMap<V> {
    /// A map with the same names, each with a clone of its value.
    fn clone(&self) -> (m: Self)
        ensures
            m.wf(),
            m.names() == self.names(),
            m.values().len() == self.values().len(),
            forall|i: int|
                0 <= i < self.values().len() ==> cloned::<V>(
                    #[trigger] self.values()[i],
                    m.values()[i],
                ),
    {
        proof {
            use_type_invariant(self);
        }
        let mut entries: Vec<FieldEntry<V>> = Vec::new();
        let mut i: usize = 0;
        while i < self.entries.len()
            invariant
                i <= self.entries.len(),
                entry_names(entries@) == entry_names(self.entries@).take(i as int),
                entries.len() == i,
                forall|j: int|
                    0 <= j < i ==> cloned::<V>(
                        #[trigger] self.entries@[j].value,
                        entries@[j].value,
                    ),
            decreases self.entries.len() - i,
        {
            let name = self.entries[i].name.clone();
            let value = self.entries[i].value.clone();
            entries.push(FieldEntry { name, value });
            assert(entry_names(entries@) == entry_names(self.entries@).take(i as int).push(name@));
            assert(entry_names(self.entries@).take(i + 1) == entry_names(self.entries@).take(
                i as int,
            ).push(name@));
            i = i + 1;
        }
        assert(entry_names(self.entries@).take(i as int) == entry_names(self.entries@));
        FieldMap { entries }
    }
}

impl<V> Default for FieldMap<V> {
    fn default() -> (m: Self)
        ensures
            m.wf(),
            m.names() == Seq::<Seq<char>>::empty(),
            m.values() == Seq::<V>::empty(),
            m.to_map() == Map::<Seq<char>, V>::empty(),
    {
        FieldMap::new()
    }
}

impl<V> FieldMap<V> {
    /// The names, in the order of first insertion.
    pub closed spec fn names(&self) -> Seq<Seq<char>> {
        entry_names(self.entries@)
    }

    /// The values, each at the position of its name.
    pub closed spec fn values(&self) -> Seq<V> {
        entry_values(self.entries@)
    }

    /// Well-formedness: as many values as names, and no name twice.
    pub open spec fn wf(&self) -> bool {
        &&& self.names().len() == self.values().len()
        &&& distinct(self.names())
    }

    #[verifier::type_invariant]
    pub open spec fn inv(&self) -> bool {
        self.wf()
    }

    /// Tells whether `name` has a value.
    pub open spec fn has(&self, name: Seq<char>) -> bool {
        self.names().contains(name)
    }

    /// The value of `name`; meaningful when `has(name)`.
    pub open spec fn value_of(&self, name: Seq<char>) -> V {
        self.values()[position_of(self.names(), name)]
    }

    /// The map from each name to its value.
    pub open spec fn to_map(&self) -> Map<Seq<char>, V> {
        Map::new(|name: Seq<char>| self.has(name), |name: Seq<char>| self.value_of(name))
    }

    /// An empty map.
    pub fn new() -> (m: Self)
        ensures
            m.wf(),
            m.names() == Seq::<Seq<char>>::empty(),
            m.values() == Seq::<V>::empty(),
            m.to_map() == Map::<Seq<char>, V>::empty(),
    {
        let m = FieldMap { entries: Vec::new() };
        assert(m.to_map() =~= Map::<Seq<char>, V>::empty());
        m
    }

    /// The number of names.
    pub fn len(&self) -> (n: usize)
        ensures
            self.wf(),
            n == self.names().len(),
    {
        proof {
            use_type_invariant(self);
        }
        self.entries.len()
    }

    /// Tells whether the map holds no name.
    pub fn is_empty(&self) -> (b: bool)
        ensures
            self.wf(),
            b == (self.names().len() == 0),
    {
        proof {
            use_type_invariant(self);
        }
        self.entries.len() == 0
    }

    /// The position of `name`, if it is present.
    pub fn position(&self, name: &str) -> (r: Option<usize>)
        ensures
            self.wf(),
            r is Some <==> self.has(name@),
            r is Some ==> r->0 == position_of(self.names(), name@),
            r is Some ==> r->0 < self.names().len(),
    {
        proof {
            use_type_invariant(self);
        }
        let mut i: usize = 0;
        while i < self.entries.len()
            invariant
                self.wf(),
                i <= self.entries.len(),
                forall|j: int| 0 <= j < i ==> self.names()[j] != name@,
            decreases self.entries.len() - i,
        {
            if self.entries[i].name.as_str().eq(name) {
                proof {
                    position_of_first(self.names(), name@, i as int);
                    position_of_bounds(self.names(), name@);
                }
                return Some(i);
            }
            i = i + 1;
        }
        proof {
            position_of_first(self.names(), name@, i as int);
            position_of_bounds(self.names(), name@);
        }
        None
    }

    /// Tells whether `name` has a value.
    pub fn contains_key(&self, name: &str) -> (b: bool)
        ensures
            self.wf(),
            b == self.has(name@),
    {
        self.position(name).is_some()
    }

    /// The value of `name`, if it has one.
    pub fn get(&self, name: &str) -> (r: Option<&V>)
        ensures
            self.wf(),
            r is Some <==> self.has(name@),
            r is Some ==> *r->0 == self.value_of(name@),
    {
        match self.position(name) {
            Some(i) => Some(&self.entries[i].value),
            None => None,
        }
    }

    /// The name at position `i`.
    pub fn name_at(&self, i: usize) -> (r: &String)
        requires
            i < self.names().len(),
        ensures
            r@ == self.names()[i as int],
    {
        &self.entries[i].name
    }

    /// The value at position `i`.
    pub fn value_at(&self, i: usize) -> (r: &V)
        requires
            i < self.values().len(),
        ensures
            *r == self.values()[i as int],
    {
        &self.entries[i].value
    }

    /// Gives `name` the value `value`: in place if the name is present, at
    /// the end otherwise.
    pub fn insert(&mut self, name: String, value: V)
        ensures
            final(self).wf(),
            old(self).has(name@) ==> final(self).names() == old(self).names(),
            old(self).has(name@) ==> final(self).values() == old(self).values().update(
                position_of(old(self).names(), name@),
                value,
            ),
            !old(self).has(name@) ==> final(self).names() == old(self).names().push(name@),
            !old(self).has(name@) ==> final(self).values() == old(self).values().push(value),
            final(self).to_map() == old(self).to_map().insert(name@, value),
    {
        proof {
            use_type_invariant(&*self);
        }
        let found = self.position(name.as_str());
        let mut taken = FieldMap { entries: Vec::new() };
        std::mem::swap(self, &mut taken);
        let mut entries = taken.entries;
        let ghost before = entries@;
        assert(before == old(self).entries@);
        match found {
            Some(i) => {
                proof {
                    position_of_bounds(entry_names(before), name@);
                }
                let gone = entries.remove(i);
                entries.insert(i, FieldEntry { name, value });
                assert(entries@ =~= before.update(i as int, FieldEntry { name, value }));
                assert(entry_names(entries@) =~= entry_names(before));
                assert(entry_values(entries@) =~= entry_values(before).update(i as int, value));
            },
            None => {
                entries.push(FieldEntry { name, value });
                assert(entry_names(entries@) =~= entry_names(before).push(name@));
                assert(entry_values(entries@) =~= entry_values(before).push(value));
                assert forall|i: int, j: int|
                    0 <= i < j < entry_names(entries@).len() implies entry_names(entries@)[i]
                    != entry_names(entries@)[j] by {
                    if j == before.len() {
                        assert(entry_names(before)[i] != name@);
                    } else {
                        assert(entry_names(before)[i] != entry_names(before)[j]);
                    }
                }
            },
        }
        *self = FieldMap { entries };
        proof {
            let after = self.names();
            let prior = old(self).names();
            assert(found is Some ==> after == prior);
            assert(found is None ==> after == prior.push(name@));
            assert forall|k: Seq<char>| #[trigger] self.has(k) == (old(self).has(k) || k == name@) by {
                if found is None {
                    if prior.contains(k) {
                        let j = choose|j: int| 0 <= j < prior.len() && prior[j] == k;
                        assert(after[j] == k);
                    }
                    if k == name@ {
                        assert(after[prior.len() as int] == k);
                    }
                    if after.contains(k) {
                        let j = choose|j: int| 0 <= j < after.len() && after[j] == k;
                        if j < prior.len() {
                            assert(prior[j] == k);
                        }
                    }
                }
            }
            assert forall|k: Seq<char>| self.has(k) implies #[trigger] self.value_of(k) == (if k
                == name@ {
                value
            } else {
                old(self).value_of(k)
            }) by {
                position_of_bounds(after, k);
                position_of_bounds(prior, k);
                position_of_bounds(prior, name@);
                if k == name@ {
                    if !old(self).has(name@) {
                        position_of_first(after, name@, prior.len() as int);
                    }
                } else {
                    if !old(self).has(name@) {
                        position_of_first(after, k, position_of(prior, k));
                    }
                }
            }
            assert(self.to_map() =~= old(self).to_map().insert(name@, value));
        }
    }
}

} // verus!
