//! Entries into any vec-like container.
//!
//! Every slot below the length of the container counts as holding a value, so
//! an entry is occupied exactly when its key is in bounds, and vacant when the
//! key lies at or beyond the current length.
//!
//! An entry holds the container by an exclusive borrow. In contracts that
//! borrow is `e.container()`: `*e.container()` is the container as the entry
//! finds it, and `*final(e.container())` is the container once the borrow has
//! ended, which is what the owner of the container then sees.
use crate::{grown, VecInterface};
use vstd::prelude::*;

verus! {

/// Containers that hand out entries by key.
pub trait VecEntry<'a, C: 'a + VecInterface> {
    /// Gets an entry to the specified key in the container, does not modify
    /// the container until action is taken.
    ///
    /// The entry is occupied exactly when `key` is below the length of the
    /// container that it borrows.
    fn entry(&mut self, key: usize) -> (e: Entry<'_, C>)
        ensures
            e.wf(),
            e.spec_key() == key,
            e is Occupied <==> key < e.container().elements().len(),
    ;
}

/// A view into a single slot of a container, which may either be occupied or
/// vacant. It holds the container exclusively for as long as it lives.
pub enum Entry<'a, C: 'a + VecInterface> {
    /// An occupied entry.
    Occupied(OccupiedEntry<'a, C>),
    /// A vacant entry.
    Vacant(VacantEntry<'a, C>),
}

impl<'a, C: 'a + VecInterface> Entry<'a, C> {
    /// The key that the entry was requested for.
    pub open spec fn spec_key(&self) -> usize {
        match self {
            Entry::Occupied(entry) => entry.spec_key(),
            Entry::Vacant(entry) => entry.spec_key(),
        }
    }

    /// The exclusive borrow of the container that the entry holds.
    pub open spec fn container(self) -> &'a mut C {
        match self {
            Entry::Occupied(entry) => entry.container(),
            Entry::Vacant(entry) => entry.container(),
        }
    }

    /// The variant of the entry agrees with where its key lies in the borrowed
    /// container.
    pub open spec fn wf(self) -> bool {
        match self {
            Entry::Occupied(entry) => entry.wf(),
            Entry::Vacant(entry) => entry.wf(),
        }
    }

    /// An entry that is given up without being turned into a slot leaves the
    /// container as it found it.
    pub proof fn lemma_untouched(self)
        requires
            has_resolved(self),
        ensures
            *final(self.container()) == *self.container(),
    {
        match self {
            Entry::Occupied(entry) => entry.lemma_untouched(),
            Entry::Vacant(entry) => entry.lemma_untouched(),
        }
    }

    /// The key of the entry.
    #[inline]
    pub fn key(&self) -> (k: &usize)
        ensures
            *k == self.spec_key(),
    {
        match self {
            Entry::Occupied(entry) => entry.key(),
            Entry::Vacant(entry) => entry.key(),
        }
    }

    /// Ensures a value is in the slot of the entry and hands out exclusive
    /// access to the slot.
    ///
    /// An occupied entry gives its slot as it is, and `default` is dropped. For
    /// a vacant entry the container grows by the growth rule and the slot
    /// holds `default`. Either way, what the caller leaves in the slot is what
    /// the container holds there afterwards.
    #[inline]
    pub fn or_insert(self, default: C::ElementType) -> (slot: &'a mut C::ElementType) where
        C::ElementType: Default,

        requires
            self.wf(),
            self is Vacant ==> self.spec_key() < usize::MAX,
        ensures
            self is Occupied ==> *slot == self.container().elements()[self.spec_key() as int],
            self is Occupied ==> final(self.container()).elements()
                == self.container().elements().update(self.spec_key() as int, *final(slot)),
            self is Vacant ==> *slot == default,
            self is Vacant ==> grown(
                self.container().elements(),
                final(self.container()).elements(),
                self.spec_key() as int,
            ),
            self is Vacant ==> final(self.container()).elements()[self.spec_key() as int]
                == *final(slot),
    {
        match self {
            Entry::Occupied(entry) => entry.into_mut(),
            Entry::Vacant(entry) => entry.insert(default),
        }
    }

    /// Ensures a value is in the slot of the entry, a default value if there
    /// was none, and hands out exclusive access to the slot.
    ///
    /// An occupied entry gives its slot as it is. For a vacant entry the
    /// container grows by the growth rule and the slot holds a default value.
    /// Either way, what the caller leaves in the slot is what the container
    /// holds there afterwards.
    #[inline]
    pub fn or_default(self) -> (slot: &'a mut C::ElementType) where C::ElementType: Default
        requires
            self.wf(),
            self is Vacant ==> self.spec_key() < usize::MAX,
        ensures
            self is Occupied ==> *slot == self.container().elements()[self.spec_key() as int],
            self is Occupied ==> final(self.container()).elements()
                == self.container().elements().update(self.spec_key() as int, *final(slot)),
            self is Vacant ==> call_ensures(C::ElementType::default, (), *slot),
            self is Vacant ==> grown(
                self.container().elements(),
                final(self.container()).elements(),
                self.spec_key() as int,
            ),
            self is Vacant ==> final(self.container()).elements()[self.spec_key() as int]
                == *final(slot),
    {
        match self {
            Entry::Occupied(entry) => entry.into_mut(),
            Entry::Vacant(entry) => {
                let VacantEntry { z, key } = entry;
                let len = z.len();
                let new_size = if len > key {
                    len
                } else {
                    key + 1
                };
                z.resize_with(new_size, C::ElementType::default);
                z.slot_mut(key)
            },
        }
    }
}

/// An entry whose key is in bounds of the container.
pub struct OccupiedEntry<'a, C: 'a + VecInterface> {
    z: &'a mut C,
    key: usize,
}

impl<'a, C: 'a + VecInterface> OccupiedEntry<'a, C> {
    /// The key that the entry was requested for.
    pub closed spec fn spec_key(&self) -> usize {
        self.key
    }

    /// The exclusive borrow of the container that the entry holds.
    pub closed spec fn container(self) -> &'a mut C {
        self.z
    }

    /// The key is in bounds of the borrowed container.
    pub open spec fn wf(self) -> bool {
        self.spec_key() < self.container().elements().len()
    }

    /// An entry that is given up without being turned into a slot leaves the
    /// container as it found it.
    pub proof fn lemma_untouched(self)
        requires
            has_resolved(self),
        ensures
            *final(self.container()) == *self.container(),
    {
    }

    /// The key of the entry.
    #[inline]
    pub fn key(&self) -> (k: &usize)
        ensures
            *k == self.spec_key(),
    {
        &self.key
    }

    /// Turns the entry into exclusive access to its slot, for as long as the
    /// container was borrowed. What the caller leaves in the slot is what the
    /// container holds there afterwards; no other slot changes.
    #[inline]
    pub fn into_mut(self) -> (slot: &'a mut C::ElementType)
        requires
            self.wf(),
        ensures
            *slot == self.container().elements()[self.spec_key() as int],
            final(self.container()).elements() == self.container().elements().update(
                self.spec_key() as int,
                *final(slot),
            ),
    {
        self.z.slot_mut(self.key)
    }
}

/// An entry whose key lies at or beyond the length of the container.
pub struct VacantEntry<'a, C: 'a + VecInterface> {
    z: &'a mut C,
    key: usize,
}

impl<'a, C: 'a + VecInterface> VacantEntry<'a, C> {
    /// The key that the entry was requested for.
    pub closed spec fn spec_key(&self) -> usize {
        self.key
    }

    /// The exclusive borrow of the container that the entry holds.
    pub closed spec fn container(self) -> &'a mut C {
        self.z
    }

    /// The key is at or beyond the length of the borrowed container.
    pub open spec fn wf(self) -> bool {
        self.spec_key() >= self.container().elements().len()
    }

    /// An entry that is given up without being turned into a slot leaves the
    /// container as it found it.
    pub proof fn lemma_untouched(self)
        requires
            has_resolved(self),
        ensures
            *final(self.container()) == *self.container(),
    {
    }

    /// The key of the entry.
    #[inline]
    pub fn key(&self) -> (k: &usize)
        ensures
            *k == self.spec_key(),
    {
        &self.key
    }

    /// Grows the container by the growth rule, puts `value` into the slot of
    /// the entry and hands out exclusive access to it. What the caller leaves
    /// in the slot is what the container holds there afterwards.
    #[inline]
    pub fn insert(self, value: C::ElementType) -> (slot: &'a mut C::ElementType) where
        C::ElementType: Default,

        requires
            self.spec_key() < usize::MAX,
        ensures
            *slot == value,
            grown(
                self.container().elements(),
                final(self.container()).elements(),
                self.spec_key() as int,
            ),
            final(self.container()).elements()[self.spec_key() as int] == *final(slot),
    {
        let VacantEntry { z, key } = self;
        let len = z.len();
        let new_size = if len > key {
            len
        } else {
            key + 1
        };
        z.resize_with(new_size, C::ElementType::default);
        let slot = z.slot_mut(key);
        *slot = value;
        slot
    }
}

impl<'a, V: 'a> VecEntry<'a, Vec<V>> for Vec<V> {
    /// The entry is occupied exactly when `key` is below the length of the
    /// vector. It borrows the vector: it finds the vector as it is, and what
    /// it leaves is what the vector holds afterwards.
    #[inline]
    fn entry(&mut self, key: usize) -> (e: Entry<'_, Vec<V>>)
        ensures
            e is Occupied <==> key < old(self)@.len(),
            *e.container() == *old(self),
            *final(e.container()) == *final(self),
    {
        if key < self.len() {
            // value must be occupied.
            Entry::Occupied(OccupiedEntry { z: self, key })
        } else {
            Entry::Vacant(VacantEntry { z: self, key })
        }
    }
}

/// Asking a vector for an entry and the entry for its key, and no more,
/// leaves the vector as it was, whether the entry is occupied or vacant.
pub proof fn lemma_key_keeps_vec<'a, V: 'a>(
    vec: &'a mut Vec<V>,
    key: usize,
    entry: Entry<'a, Vec<V>>,
    k: &usize,
)
    requires
        call_ensures(<Vec<V> as VecEntry<'a, Vec<V>>>::entry, (vec, key), entry),
        call_ensures(Entry::<'a, Vec<V>>::key, (&entry,), k),
        has_resolved(entry),
    ensures
        *k == key,
        *final(vec) == *old(vec),
{
    entry.lemma_untouched();
}

/// Default-insertion never shrinks the container, and leaves it long enough
/// to hold the slot of the entry.
pub proof fn lemma_or_default_never_shrinks<'a, C>(
    entry: Entry<'a, C>,
    slot: &'a mut C::ElementType,
) where C: 'a + VecInterface, C::ElementType: Default
    requires
        entry.wf(),
        call_ensures(Entry::<'a, C>::or_default, (entry,), slot),
    ensures
        final(entry.container()).elements().len() >= entry.container().elements().len(),
        final(entry.container()).elements().len() > entry.spec_key(),
{
}

/// Default-insertion into an empty container: the container ends with
/// `key + 1` slots, each of them below `key` holding a default value, and
/// the slot at `key`, which starts as a default value, holding what the
/// caller leaves in it.
pub proof fn lemma_or_default_on_empty<'a, C>(
    entry: Entry<'a, C>,
    slot: &'a mut C::ElementType,
) where C: 'a + VecInterface, C::ElementType: Default
    requires
        entry.wf(),
        entry.container().elements().len() == 0,
        call_ensures(Entry::<'a, C>::or_default, (entry,), slot),
    ensures
        entry is Vacant,
        final(entry.container()).elements().len() == entry.spec_key() + 1,
        forall|i: int|
            0 <= i < entry.spec_key() ==> call_ensures(
                C::ElementType::default,
                (),
                #[trigger] final(entry.container()).elements()[i],
            ),
        call_ensures(C::ElementType::default, (), *old(slot)),
        final(entry.container()).elements()[entry.spec_key() as int] == *final(slot),
{
}

} // verus!
