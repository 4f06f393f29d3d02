use vstd::prelude::*;

use crate::handle::{Generation, Handle};
use crate::names::{
    empty_table, empty_table_with_room, forget, listing, lookup, name_entries, record, NameMap,
    NameTable,
};

verus! {

/// The generation a slot moves to when it is reused or its value is replaced:
/// one more, wrapping from the largest value back to zero.
pub open spec fn next_generation(g: Generation) -> Generation {
    if g == Generation::MAX {
        0
    } else {
        (g + 1) as Generation
    }
}

/// The generations after slot `i` is handed out again: bumped if the slot was
/// allocated before, else a new entry of 0 (then `i` is the next position).
pub open spec fn bumped(gens: Seq<Generation>, i: int) -> Seq<Generation> {
    if i < gens.len() {
        gens.update(i, next_generation(gens[i]))
    } else {
        gens.push(0)
    }
}

/// The name index with every name that addresses slot `i` left out.
pub open spec fn names_without_slot(names: NameMap, i: int) -> NameMap {
    Map::new(|k: Seq<char>| names.contains_key(k) && names[k].slot() != i, |k: Seq<char>| names[k])
}

/// A stack of values addressed by generational handles, with a name index.
///
/// Values are appended by `insert` and removed from the top by `pop`. Each slot
/// position keeps a generation for as long as the map lives, even after its value
/// is popped; the generation moves on whenever the slot is reused or its value is
/// replaced, and a handle is alive only while it carries the current one.
///
/// The name index keeps, for each name, the handle issued when a value was last
/// inserted under it. `replace` leaves the index as it is, so the index may then
/// hold a handle that is no longer alive.
pub struct HandleMap<V> {
    generations: Vec<Generation>,
    keys_to_indices: NameTable,
    storage: Vec<V>,
}

impl<V> HandleMap<V> {
    /// The stored values, bottom of the stack first.
    pub closed spec fn values(&self) -> Seq<V> {
        self.storage@
    }

    /// The generation of every slot position ever allocated.
    pub closed spec fn generations(&self) -> Seq<Generation> {
        self.generations@
    }

    /// The name index.
    pub closed spec fn names(&self) -> NameMap {
        name_entries(self.keys_to_indices)
    }

    /// A handle is alive when its slot holds a value and the slot's generation
    /// is the one the handle carries.
    pub open spec fn alive(&self, h: Handle) -> bool {
        &&& h.slot() < self.values().len()
        &&& self.generations()[h.slot() as int] == h.version()
    }

    /// Every position that holds a value has a generation, every name addresses
    /// a position that holds a value, and no two names address the same position.
    pub open spec fn wf(&self) -> bool {
        &&& self.values().len() <= self.generations().len()
        &&& forall|k: Seq<char>| #[trigger]
            self.names().contains_key(k) ==> self.names()[k].slot() < self.values().len()
        &&& forall|k1: Seq<char>, k2: Seq<char>|
            #[trigger] self.names().contains_key(k1) && #[trigger] self.names().contains_key(k2)
                && self.names()[k1].slot() == self.names()[k2].slot() ==> k1 == k2
    }

    /// Nothing stored, no slot ever allocated, no name known.
    pub open spec fn is_fresh(&self) -> bool {
        &&& self.wf()
        &&& self.values() == Seq::<V>::empty()
        &&& self.generations() == Seq::<Generation>::empty()
        &&& self.names() == NameMap::empty()
    }

    /// The top value, if any, can be found through the name index. This fails
    /// only when the name of the top value was reused by a later insertion that
    /// has since been popped.
    pub open spec fn top_named(&self) -> bool {
        self.values().len() > 0 ==> exists|k: Seq<char>|
            #[trigger] self.names().contains_key(k) && self.names()[k].slot() == self.values().len() - 1
    }

    /// `post` is this map after `insert` stored `value` under `key` and
    /// returned `h`: the value goes on top, its slot moves to its next
    /// generation, and `key` now names `h`.
    pub open spec fn inserted(&self, key: Seq<char>, value: V, h: Handle, post: Self) -> bool {
        &&& h.slot() == self.values().len()
        &&& post.values() == self.values().push(value)
        &&& post.generations() == bumped(self.generations(), self.values().len() as int)
        &&& h.version() == post.generations()[h.slot() as int]
        &&& post.names() == self.names().insert(key, h)
    }

    /// `post` is this map after `pop` returned `r`: nothing changes when the
    /// map is empty; otherwise the top value is returned, and the name that
    /// addressed its slot is forgotten. Generations are kept.
    pub open spec fn popped(&self, r: Option<V>, post: Self) -> bool {
        &&& post.generations() == self.generations()
        &&& if self.values().len() == 0 {
            &&& r == None::<V>
            &&& post.values() == self.values()
            &&& post.names() == self.names()
        } else {
            &&& r == Some(self.values().last())
            &&& post.values() == self.values().drop_last()
            &&& post.names() == names_without_slot(self.names(), self.values().len() - 1)
        }
    }

    /// `post` is this map after `replace(h, value)` returned `r`: the slot of
    /// `h` holds `value` and moves to its next generation; the name index is
    /// left as it was.
    pub open spec fn replaced(&self, h: Handle, value: V, r: V, post: Self) -> bool {
        &&& r == self.values()[h.slot() as int]
        &&& post.values() == self.values().update(h.slot() as int, value)
        &&& post.generations() == bumped(self.generations(), h.slot() as int)
        &&& post.names() == self.names()
    }

    /// An empty map.
    pub fn new() -> (r: Self)
        ensures
            r.is_fresh(),
    {
        HandleMap { generations: Vec::new(), keys_to_indices: empty_table(), storage: Vec::new() }
    }

    /// An empty map with room reserved for `capacity` values. It behaves as
    /// `new()` does: only the cost of the first insertions differs.
    pub fn with_capacity(capacity: usize) -> (r: Self)
        ensures
            r.is_fresh(),
    {
        HandleMap {
            generations: Vec::new(),
            keys_to_indices: empty_table_with_room(capacity),
            storage: Vec::with_capacity(capacity),
        }
    }

    /// The handle recorded for `key` by the last insertion under it, if any.
    pub fn handle(&self, key: &str) -> (r: Option<Handle>)
        ensures
            r == (if self.names().contains_key(key@) {
                Some(self.names()[key@])
            } else {
                None
            }),
    {
        lookup(&self.keys_to_indices, key)
    }

    /// Whether `h` is alive in this map.
    pub fn is_alive(&self, h: Handle) -> (r: bool)
        requires
            self.wf(),
        ensures
            r == self.alive(h),
    {
        let i = h.index();
        i < self.storage.len() && self.generations[i] == h.generation()
    }

    /// Stores `value` on top under the name `key` and returns its handle. A
    /// name already in use now names the new value; the earlier value stays,
    /// reachable by its own handle.
    pub fn insert(&mut self, key: &str, value: V) -> (r: Handle)
        requires
            old(self).wf(),
        ensures
            final(self).wf(),
            old(self).inserted(key@, value, r, *final(self)),
    {
        let index = self.storage.len();
        let generation = self.bump_gen(index);
        let h = Handle::new(index, generation);
        self.storage.push(value);
        record(&mut self.keys_to_indices, key.to_string(), h);
        proof {
            let names = self.names();
            assert forall|k1: Seq<char>, k2: Seq<char>|
                #[trigger] names.contains_key(k1) && #[trigger] names.contains_key(k2)
                    && names[k1].slot() == names[k2].slot() implies k1 == k2 by {
                if k1 != key@ && k2 != key@ {
                    assert(old(self).names().contains_key(k1));
                    assert(old(self).names().contains_key(k2));
                }
            }
        }
        h
    }

    /// Removes the top value and returns it, or returns `None` when the map is
    /// empty. The name that addressed the freed slot is forgotten; handles to
    /// the slot are dead from now on, and stay dead when the slot is reused.
    pub fn pop(&mut self) -> (r: Option<V>)
        requires
            old(self).wf(),
            old(self).top_named(),
        ensures
            final(self).wf(),
            old(self).popped(r, *final(self)),
    {
        let top = self.storage.pop();
        match top {
            None => {
                assert(self.values() =~= old(self).values());
                assert(self.names() == old(self).names());
                None
            },
            Some(value) => {
                let index = self.storage.len();
                let entries = listing(&self.keys_to_indices);
                let ghost names = self.names();
                let mut i: usize = 0;
                while i < entries.len()
                    invariant
                        i <= entries@.len(),
                        names == self.names(),
                        names == old(self).names(),
                        self.values() == old(self).values().drop_last(),
                        self.generations() == old(self).generations(),
                        index == self.values().len(),
                        old(self).wf(),
                        old(self).top_named(),
                        old(self).values().len() == index + 1,
                        value == old(self).values().last(),
                        forall|j: int| 0 <= j < i ==> (#[trigger] entries@[j]).1.slot() != index,
                        forall|j: int|
                            0 <= j < entries@.len() ==> {
                                &&& names.contains_key(#[trigger] entries@[j].0@)
                                &&& names[entries@[j].0@] == entries@[j].1
                            },
                        forall|k: Seq<char>|
                            #[trigger] names.contains_key(k) ==> exists|j: int|
                                0 <= j < entries@.len() && #[trigger] entries@[j].0@ == k,
                    decreases entries@.len() - i,
                {
                    if entries[i].1.index() == index {
                        forget(&mut self.keys_to_indices, entries[i].0.as_str());
                        proof {
                            assert(self.names() =~= names_without_slot(names, index as int));
                            assert forall|k: Seq<char>| #[trigger]
                                self.names().contains_key(k) implies self.names()[k].slot()
                                < self.values().len() by {
                                assert(names.contains_key(k));
                            }
                        }
                        return Some(value);
                    }
                    i += 1;
                }
                proof {
                    let k = choose|k: Seq<char>|
                        #[trigger] names.contains_key(k) && names[k].slot() == index;
                    let j = choose|j: int| 0 <= j < entries@.len() && #[trigger] entries@[j].0@ == k;
                    assert(entries@[j].1.slot() != index);
                }
                Some(value)
            },
        }
    }

    /// Puts `value` in the slot of the live handle `h` and returns the value it
    /// held. The slot moves to its next generation, so `h` and every other
    /// handle to the slot are dead afterwards, including the one the name index
    /// holds: the new value is reachable by no handle issued so far.
    pub fn replace(&mut self, h: Handle, value: V) -> (r: V)
        requires
            old(self).wf(),
            old(self).alive(h),
        ensures
            final(self).wf(),
            old(self).replaced(h, value, r, *final(self)),
    {
        let index = h.index();
        let mut previous = value;
        std::mem::swap(&mut self.storage[index], &mut previous);
        self.bump_gen(index);
        assert(self.names() == old(self).names());
        previous
    }

    /// The value that the live handle `h` refers to.
    pub fn index(&self, h: Handle) -> (r: &V)
        requires
            self.wf(),
            self.alive(h),
        ensures
            *r == self.values()[h.slot() as int],
    {
        &self.storage[h.index()]
    }

    /// The value that the live handle `h` refers to, for changing in place.
    /// Unlike `replace`, this keeps every handle to the slot alive.
    pub fn index_mut(&mut self, h: Handle) -> (r: &mut V)
        requires
            old(self).wf(),
            old(self).alive(h),
        ensures
            *r == old(self).values()[h.slot() as int],
            final(self).values() == old(self).values().update(h.slot() as int, *final(r)),
            final(self).generations() == old(self).generations(),
            final(self).names() == old(self).names(),
    {
        &mut self.storage[h.index()]
    }

    /// Moves slot `index` to its next generation and returns it.
    fn bump_gen(&mut self, index: usize) -> (r: Generation)
        requires
            index <= old(self).generations().len(),
        ensures
            final(self).generations() == bumped(old(self).generations(), index as int),
            r == final(self).generations()[index as int],
            final(self).values() == old(self).values(),
            final(self).names() == old(self).names(),
    {
        if index < self.generations.len() {
            let g = self.generations[index].wrapping_add(1);
            self.generations.set(index, g);
            g
        } else {
            self.generations.push(0);
            0
        }
    }
}

impl<V> Default for HandleMap<V> {
    /// An empty map, as `new()` makes it.
    fn default() -> (r: Self)
        ensures
            r.is_fresh(),
    {
        HandleMap::new()
    }
}

} // verus!
