//! Registries: maps from a name to a descriptor in which the last write to a
//! name wins.
//!
//! A registry keeps its names and descriptors in two `Vec`s, side by side,
//! and finds them through an `fnv::FnvHashMap` from each name to its
//! position. The hash map is not verified: what this module relies on is
//! stated on the three functions that touch it.

use fnv::FnvHashMap;
use vstd::prelude::*;

verus! {

/// `fnv::FnvHasher`, the hasher state inside an `FnvHashMap`. Opaque here.
#[verifier::external_type_specification]
#[verifier::external_body]
pub struct ExFnvHasher(fnv::FnvHasher);

/// `std::hash::BuildHasherDefault`, through which `fnv` hands its hasher to
/// the hash map of std. Opaque here.
#[verifier::external_type_specification]
#[verifier::external_body]
#[verifier::reject_recursive_types(H)]
pub struct ExBuildHasherDefault<H>(std::hash::BuildHasherDefault<H>);

/// What a name index holds: for each name in it, as a sequence of
/// characters, the position stored under that name.
pub uninterp spec fn slots(index: FnvHashMap<String, usize>) -> Map<Seq<char>, usize>;

/// `FnvHashMap::default()`: a new index holds no name.
#[verifier::external_body]
fn index_new() -> (index: FnvHashMap<String, usize>)
    ensures
        (slots(index) == Map::<Seq<char>, usize>::empty()),
{
    FnvHashMap::default()
}

/// `HashMap::insert` on an `FnvHashMap`: afterwards `name` stands for `slot`,
/// whether or not it stood for something before, and every other name stands
/// for what it stood for. Strings are keys by their characters.
#[verifier::external_body]
fn index_insert(index: &mut FnvHashMap<String, usize>, name: String, slot: usize)
    ensures
        slots(*final(index)) == slots(*old(index)).insert(name@, slot),
{
    index.insert(name, slot);
}

/// `HashMap::get` on an `FnvHashMap`: the position stored under `name`, or
/// `None` where the index does not hold the name.
#[verifier::external_body]
fn index_get(index: &FnvHashMap<String, usize>, name: &str) -> (slot: Option<usize>)
    ensures
        slot == (if slots(*index).contains_key(name@) {
            Some(slots(*index)[name@])
        } else {
            None
        }),
{
    index.get(name).copied()
}

/// A map from names to descriptors of type `V`. Writing a name that is
/// already there replaces its descriptor; nothing is ever removed.
pub struct Registry<V> {
    /// For each name, its position in `names` and in `entries`.
    index: FnvHashMap<String, usize>,
    /// The names, each once.
    names: Vec<String>,
    /// The descriptor of each name, at the position of the name.
    entries: Vec<V>,
}

impl<V> Registry<V> {
    /// The index and the two vectors match one to one: the index holds
    /// exactly the names of `names`, each with its own position, and every
    /// name has an entry.
    #[verifier::type_invariant]
    spec fn well_formed(self) -> bool {
        let slots = slots(self.index);
        &&& slots.dom().finite()
        &&& slots.dom().len() == self.names.len()
        &&& self.entries.len() == self.names.len()
        &&& forall|name: Seq<char>| #[trigger]
            slots.contains_key(name) ==> slots[name] < self.names.len()
                && self.names[slots[name] as int]@ == name
        &&& forall|i: int|
            0 <= i < self.names.len() ==> slots.contains_key(#[trigger] self.names[i]@)
                && slots[self.names[i]@] == i
    }
}

impl<V: DeepView> View for Registry<V> {
    type V = Map<Seq<char>, V::V>;

    /// The registry as a map from each name to the model of its descriptor.
    closed spec fn view(&self) -> Map<Seq<char>, V::V> {
        Map::new(
            |name: Seq<char>| slots(self.index).contains_key(name),
            |name: Seq<char>| self.entries@[slots(self.index)[name] as int].deep_view(),
        )
    }
}

/// `names` and `entries` list `map`: every key stands once in `names`, and
/// the entry at its position is what the map holds under it.
pub open spec fn lists_map<T>(names: Seq<Seq<char>>, entries: Seq<T>, map: Map<Seq<char>, T>) -> bool {
    &&& names.len() == entries.len()
    &&& names.no_duplicates()
    &&& forall|i: int|
        0 <= i < names.len() ==> map.contains_key(#[trigger] names[i]) && map[names[i]]
            == entries[i]
    &&& forall|name: Seq<char>| #[trigger] map.contains_key(name) ==> names.contains(name)
}

impl<V: DeepView> Registry<V> {
    /// A registry that holds nothing.
    pub fn new() -> (registry: Self)
        ensures
            (registry@ == Map::<Seq<char>, V::V>::empty()),
    {
        let registry = Registry { index: index_new(), names: Vec::new(), entries: Vec::new() };
        assert(registry@ =~= Map::<Seq<char>, V::V>::empty());
        registry
    }

    /// Puts `value` under `name`, in place of what was there, if anything.
    pub fn insert(&mut self, name: &str, value: V)
        ensures
            final(self)@ == old(self)@.insert(name@, value.deep_view()),
    {
        proof {
            use_type_invariant(&*self);
        }
        // The index and the vectors change one after the other, so all are
        // taken out of `self` and put back once they match again.
        let mut taken = Registry::new();
        std::mem::swap(self, &mut taken);
        let Registry { mut index, mut names, mut entries } = taken;
        match index_get(&index, name) {
            Some(slot) => {
                entries[slot] = value;
            },
            None => {
                let slot: usize = names.len();
                names.push(name.to_owned());
                entries.push(value);
                index_insert(&mut index, name.to_owned(), slot);
            },
        }
        *self = Registry { index, names, entries };
        assert(self@ =~= old(self)@.insert(name@, value.deep_view()));
    }

    /// The descriptor under `name`, if the registry holds the name.
    pub fn get(&self, name: &str) -> (found: Option<&V>)
        ensures
            match found {
                Some(value) => self@.contains_key(name@) && self@[name@] == value.deep_view(),
                None => !self@.contains_key(name@),
            },
    {
        proof {
            use_type_invariant(self);
        }
        match index_get(&self.index, name) {
            Some(slot) => Some(&self.entries[slot]),
            None => None,
        }
    }

    /// How many names the registry holds.
    pub fn len(&self) -> (count: usize)
        ensures
            self@.dom().finite(),
            count == self@.len(),
    {
        proof {
            use_type_invariant(self);
            assert(self@.dom() =~= slots(self.index).dom());
        }
        self.names.len()
    }

    /// Everything the registry holds, as two vectors of one length: the
    /// names, each once, and at the position of each name its descriptor.
    /// Nothing is promised of the order.
    pub fn entries(&self) -> (listing: (&Vec<String>, &Vec<V>))
        ensures
            lists_map(listing.0.deep_view(), listing.1.deep_view(), self@),
    {
        proof {
            use_type_invariant(self);
            let listed = self.names.deep_view();
            assert forall|name: Seq<char>| #[trigger] self@.contains_key(name) implies listed.contains(
                name,
            ) by {
                assert(listed[slots(self.index)[name] as int] == name);
            }
        }
        (&self.names, &self.entries)
    }
}

/// The map after a sequence of writes, first to last, each of which puts a
/// value under a name. A `None` in the sequence writes nothing: it stands for
/// a call that went elsewhere.
pub open spec fn written<T>(start: Map<Seq<char>, T>, writes: Seq<Option<(Seq<char>, T)>>) -> Map<
    Seq<char>,
    T,
>
    decreases writes.len(),
{
    if writes.len() == 0 {
        start
    } else {
        let before = written(start, writes.drop_last());
        match writes.last() {
            Some(write) => before.insert(write.0, write.1),
            None => before,
        }
    }
}

/// The write at `at` puts a value under `name`.
pub open spec fn writes_name<T>(writes: Seq<Option<(Seq<char>, T)>>, at: int, name: Seq<char>) -> bool {
    0 <= at < writes.len() && writes[at] is Some && writes[at].unwrap().0 == name
}

/// The names that `writes` put a value under.
pub open spec fn names_written<T>(writes: Seq<Option<(Seq<char>, T)>>) -> Set<Seq<char>> {
    Set::new(|name: Seq<char>| exists|at: int| writes_name(writes, at, name))
}

/// The last write to a name wins: after a sequence of writes, a name holds
/// the value of the last write to it.
pub proof fn lemma_last_write_wins<T>(
    start: Map<Seq<char>, T>,
    writes: Seq<Option<(Seq<char>, T)>>,
    last: int,
    name: Seq<char>,
)
    requires
        writes_name(writes, last, name),
        forall|later: int| last < later < writes.len() ==> !writes_name(writes, later, name),
    ensures
        written(start, writes).contains_key(name),
        written(start, writes)[name] == writes[last].unwrap().1,
    decreases writes.len(),
{
    if last < writes.len() - 1 {
        let earlier = writes.drop_last();
        assert(writes_name(earlier, last, name));
        assert forall|later: int| last < later < earlier.len() implies !writes_name(
            earlier,
            later,
            name,
        ) by {
            assert(!writes_name(writes, later, name));
        }
        lemma_last_write_wins(start, earlier, last, name);
        assert(!writes_name(writes, writes.len() - 1, name));
    }
}

/// A name that no write names holds what it held before, or nothing.
pub proof fn lemma_unwritten_name_stays<T>(
    start: Map<Seq<char>, T>,
    writes: Seq<Option<(Seq<char>, T)>>,
    name: Seq<char>,
)
    requires
        !names_written(writes).contains(name),
    ensures
        written(start, writes).contains_key(name) == start.contains_key(name),
        start.contains_key(name) ==> written(start, writes)[name] == start[name],
    decreases writes.len(),
{
    if writes.len() > 0 {
        let earlier = writes.drop_last();
        assert forall|at: int| !writes_name(earlier, at, name) by {
            assert(!writes_name(writes, at, name));
        }
        lemma_unwritten_name_stays(start, earlier, name);
        assert(!writes_name(writes, writes.len() - 1, name));
    }
}

/// A registry that starts empty holds exactly the names that were written,
/// each once: its size is the number of distinct names.
pub proof fn lemma_size_is_distinct_names<T>(writes: Seq<Option<(Seq<char>, T)>>)
    ensures
        written(Map::<Seq<char>, T>::empty(), writes).dom() == names_written(writes),
        names_written(writes).finite(),
        written(Map::<Seq<char>, T>::empty(), writes).len() == names_written(writes).len(),
    decreases writes.len(),
{
    let start = Map::<Seq<char>, T>::empty();
    if writes.len() == 0 {
        assert(names_written(writes) =~= Set::<Seq<char>>::empty());
    } else {
        let earlier = writes.drop_last();
        lemma_size_is_distinct_names(earlier);
        match writes.last() {
            Some(write) => {
                assert(writes_name(writes, writes.len() - 1, write.0));
                assert forall|name: Seq<char>|
                    names_written(writes).contains(name) == names_written(earlier).insert(
                        write.0,
                    ).contains(name) by {
                    if names_written(writes).contains(name) {
                        let at = choose|at: int| writes_name(writes, at, name);
                        if at < writes.len() - 1 {
                            assert(writes_name(earlier, at, name));
                        }
                    }
                    if names_written(earlier).contains(name) {
                        let at = choose|at: int| writes_name(earlier, at, name);
                        assert(writes_name(writes, at, name));
                    }
                }
                assert(names_written(writes) =~= names_written(earlier).insert(write.0));
            },
            None => {
                assert forall|name: Seq<char>|
                    names_written(writes).contains(name) == names_written(earlier).contains(
                        name,
                    ) by {
                    if names_written(writes).contains(name) {
                        let at = choose|at: int| writes_name(writes, at, name);
                        assert(writes_name(earlier, at, name));
                    }
                    if names_written(earlier).contains(name) {
                        let at = choose|at: int| writes_name(earlier, at, name);
                        assert(writes_name(writes, at, name));
                    }
                }
                assert(names_written(writes) =~= names_written(earlier));
            },
        }
        assert(written(start, writes).dom() =~= names_written(writes));
    }
}

} // verus!
