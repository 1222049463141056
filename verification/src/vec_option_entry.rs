//! Entries into a vec-like container of option-like slots.
//!
//! A slot counts as holding a value only when it is in bounds and not empty,
//! so an entry is vacant when its key lies at or beyond the current length,
//! and also when the slot is there but empty.
//!
//! An entry holds the container by an exclusive borrow. In contracts that
//! borrow is `e.container()`: `*e.container()` is the container as the entry
//! finds it, and `*final(e.container())` is the container once the borrow has
//! ended, which is what the owner of the container then sees.
use crate::{grown, ElementOfOptionalVec, OptionInterface, VecInterface};
use vstd::prelude::*;

verus! {

/// The classification rule: slot `key` of `slots` is in bounds and holds an
/// occupant.
pub open spec fn occupied_at<E: OptionInterface>(slots: Seq<E>, key: int) -> bool {
    0 <= key < slots.len() && slots[key].as_option() is Some
}

/// `after` is `before` but for slot `key`, which is in bounds and holds
/// `occupant`.
pub open spec fn refilled<E: OptionInterface>(
    before: Seq<E>,
    after: Seq<E>,
    key: int,
    occupant: E::ElementType,
) -> bool {
    &&& 0 <= key < before.len()
    &&& after.len() == before.len()
    &&& forall|i: int| 0 <= i < before.len() && i != key ==> #[trigger] after[i] == before[i]
    &&& after[key].as_option() == Some(occupant)
}

/// `after` is `before` grown by the growth rule to hold slot `key`, which
/// holds `occupant`.
pub open spec fn filled<E: OptionInterface + Default>(
    before: Seq<E>,
    after: Seq<E>,
    key: int,
    occupant: E::ElementType,
) -> bool {
    &&& grown(before, after, key)
    &&& after[key].as_option() == Some(occupant)
}

/// Containers of option-like slots that hand out entries by key.
pub trait VecOptionEntry<'a, C: 'a + VecInterface> where C::ElementType: OptionInterface {
    /// Gets an entry to the specified key in the container, does not modify
    /// the container until action is taken.
    ///
    /// The entry is occupied exactly when the slot at `key` is in bounds of
    /// the container that it borrows and holds an occupant.
    fn entry(&mut self, key: usize) -> (e: Entry<'_, C>)
        ensures
            e.wf(),
            e.spec_key() == key,
            e is Occupied <==> occupied_at(e.container().elements(), key as int),
    ;
}

impl<'a, V: 'a> VecOptionEntry<'a, Vec<Option<V>>> for Vec<Option<V>> {
    /// The entry is occupied exactly when `key` is below the length of the
    /// vector and the slot at `key` is `Some`. It borrows the vector: it finds
    /// the vector as it is, and what it leaves is what the vector holds
    /// afterwards.
    #[inline]
    fn entry(&mut self, key: usize) -> (e: Entry<'_, Vec<Option<V>>>)
        ensures
            e is Occupied <==> key < old(self)@.len() && old(self)@[key as int] is Some,
            *e.container() == *old(self),
            *final(e.container()) == *final(self),
    {
        if key < self.len() {
            // There is an option, but it still depends on whether it is none or not.
            if self[key].is_some() {
                Entry::Occupied(OccupiedEntry { z: self, key })
            } else {
                Entry::Vacant(VacantEntry { z: self, key })
            }
        } else {
            Entry::Vacant(VacantEntry { z: self, key })
        }
    }
}

/// A view into a single slot of a container, which may either be occupied or
/// vacant. It holds the container exclusively for as long as it lives.
pub enum Entry<'a, C: 'a + VecInterface> where C::ElementType: OptionInterface {
    /// An occupied entry.
    Occupied(OccupiedEntry<'a, C>),
    /// A vacant entry.
    Vacant(VacantEntry<'a, C>),
}

impl<'a, C: 'a + VecInterface> Entry<'a, C> where C::ElementType: OptionInterface {
    /// The key that the entry was requested for.
    pub open spec fn spec_key(&self) -> usize {
        match self {
            Entry::Occupied(entry) => entry.spec_key(),
            Entry::Vacant(entry) => entry.spec_key(),
        }
    }

    /// The exclusive borrow of the container that the entry holds.
    pub open spec fn container(self) -> &'a mut C {
        match self {
            Entry::Occupied(entry) => entry.container(),
            Entry::Vacant(entry) => entry.container(),
        }
    }

    /// The variant of the entry agrees with what the borrowed container
    /// holds at its key.
    pub open spec fn wf(self) -> bool {
        match self {
            Entry::Occupied(entry) => entry.wf(),
            Entry::Vacant(entry) => entry.wf(),
        }
    }

    /// An entry that is given up without being turned into an occupant
    /// leaves the container as it found it.
    pub proof fn lemma_untouched(self)
        requires
            has_resolved(self),
        ensures
            *final(self.container()) == *self.container(),
    {
        match self {
            Entry::Occupied(entry) => entry.lemma_untouched(),
            Entry::Vacant(entry) => entry.lemma_untouched(),
        }
    }

    /// The key of the entry.
    #[inline]
    pub fn key(&self) -> (k: &usize)
        ensures
            *k == self.spec_key(),
    {
        match self {
            Entry::Occupied(entry) => entry.key(),
            Entry::Vacant(entry) => entry.key(),
        }
    }

    /// Ensures the slot of the entry holds an occupant and hands out
    /// exclusive access to the occupant.
    ///
    /// An occupied entry gives its occupant as it is, and `value` is dropped.
    /// For a vacant entry the container grows by the growth rule and `value`
    /// becomes the occupant of the slot. Either way, what the caller leaves
    /// behind the reference is the occupant of the slot afterwards.
    #[inline]
    pub fn or_insert(self, value: ElementOfOptionalVec<C>) -> (occupant: &'a mut ElementOfOptionalVec<
        C,
    >) where C::ElementType: Default
        requires
            self.wf(),
            self is Vacant ==> self.spec_key() < usize::MAX,
        ensures
            self is Occupied ==> Some(*occupant)
                == self.container().elements()[self.spec_key() as int].as_option(),
            self is Occupied ==> refilled(
                self.container().elements(),
                final(self.container()).elements(),
                self.spec_key() as int,
                *final(occupant),
            ),
            self is Vacant ==> *occupant == value,
            self is Vacant ==> filled(
                self.container().elements(),
                final(self.container()).elements(),
                self.spec_key() as int,
                *final(occupant),
            ),
    {
        match self {
            Entry::Occupied(entry) => entry.into_mut(),
            Entry::Vacant(entry) => entry.insert(value),
        }
    }

    /// As `or_insert`, with the value made by `f`.
    ///
    /// `f` is called for a vacant entry only: the occupant that is handed out
    /// is then a value that `f` returned. Nothing is asked of `f` when the
    /// entry is occupied.
    #[inline]
    pub fn or_insert_with<F: FnOnce() -> ElementOfOptionalVec<C>>(self, f: F) -> (occupant: &'a mut ElementOfOptionalVec<
        C,
    >) where C::ElementType: Default
        requires
            self.wf(),
            self is Vacant ==> self.spec_key() < usize::MAX,
            self is Vacant ==> f.requires(()),
        ensures
            self is Occupied ==> Some(*occupant)
                == self.container().elements()[self.spec_key() as int].as_option(),
            self is Occupied ==> refilled(
                self.container().elements(),
                final(self.container()).elements(),
                self.spec_key() as int,
                *final(occupant),
            ),
            self is Vacant ==> f.ensures((), *occupant),
            self is Vacant ==> filled(
                self.container().elements(),
                final(self.container()).elements(),
                self.spec_key() as int,
                *final(occupant),
            ),
    {
        match self {
            Entry::Occupied(entry) => entry.into_mut(),
            Entry::Vacant(entry) => entry.insert(f()),
        }
    }

    /// Provides in-place mutable access to an occupied entry before any
    /// potential insert.
    ///
    /// On an occupied entry `f` is run on the occupant, in place, and the
    /// entry is handed back, still occupied. A vacant entry is handed back as
    /// it is, and nothing is asked of `f`. The entry that is handed back
    /// holds the same borrow of the container.
    #[inline]
    pub fn and_modify<F>(self, f: F) -> (e: Self) where
        F: FnOnce(&mut ElementOfOptionalVec<C>),
        C::ElementType: Default,

        requires
            self.wf(),
            self is Occupied ==> forall|occupant: &mut ElementOfOptionalVec<C>|
                Some(*occupant) == self.container().elements()[self.spec_key() as int].as_option()
                    ==> #[trigger] f.requires((occupant,)),
        ensures
            e.wf(),
            e.spec_key() == self.spec_key(),
            e is Occupied <==> self is Occupied,
            *final(e.container()) == *final(self.container()),
            self is Vacant ==> *e.container() == *self.container(),
            self is Occupied ==> exists|occupant: &mut ElementOfOptionalVec<C>|
                Some(*occupant) == self.container().elements()[self.spec_key() as int].as_option()
                    && #[trigger] f.ensures((occupant,), ()) && refilled(
                    self.container().elements(),
                    e.container().elements(),
                    self.spec_key() as int,
                    *final(occupant),
                ),
    {
        match self {
            Entry::Occupied(mut entry) => {
                f(entry.get_mut());
                Entry::Occupied(entry)
            },
            Entry::Vacant(entry) => Entry::Vacant(entry),
        }
    }

    /// Ensures the slot of the entry holds an occupant, a default value if
    /// there was none, and hands out exclusive access to the occupant.
    ///
    /// An occupied entry gives its occupant as it is. For a vacant entry the
    /// container grows by the growth rule and a default value of the
    /// occupant's type becomes the occupant of the slot. Either way, what the
    /// caller leaves behind the reference is the occupant of the slot
    /// afterwards.
    #[inline]
    pub fn or_default(self) -> (occupant: &'a mut ElementOfOptionalVec<C>) where
        C::ElementType: Default,
        ElementOfOptionalVec<C>: Default,

        requires
            self.wf(),
            self is Vacant ==> self.spec_key() < usize::MAX,
        ensures
            self is Occupied ==> Some(*occupant)
                == self.container().elements()[self.spec_key() as int].as_option(),
            self is Occupied ==> refilled(
                self.container().elements(),
                final(self.container()).elements(),
                self.spec_key() as int,
                *final(occupant),
            ),
            self is Vacant ==> call_ensures(ElementOfOptionalVec::<C>::default, (), *occupant),
            self is Vacant ==> filled(
                self.container().elements(),
                final(self.container()).elements(),
                self.spec_key() as int,
                *final(occupant),
            ),
    {
        match self {
            Entry::Occupied(entry) => entry.into_mut(),
            Entry::Vacant(entry) => entry.insert(Default::default()),
        }
    }
}

/// An entry whose slot is in bounds of the container and holds an occupant.
pub struct OccupiedEntry<'a, C: 'a + VecInterface> where C::ElementType: OptionInterface {
    z: &'a mut C,
    key: usize,
}

impl<'a, C: 'a + VecInterface> OccupiedEntry<'a, C> where C::ElementType: OptionInterface {
    /// The key that the entry was requested for.
    pub closed spec fn spec_key(&self) -> usize {
        self.key
    }

    /// The exclusive borrow of the container that the entry holds.
    pub closed spec fn container(self) -> &'a mut C {
        self.z
    }

    /// The slot of the entry is in bounds of the borrowed container and
    /// holds an occupant.
    pub open spec fn wf(self) -> bool {
        occupied_at(self.container().elements(), self.spec_key() as int)
    }

    /// An entry that is given up without being turned into an occupant
    /// leaves the container as it found it.
    pub proof fn lemma_untouched(self)
        requires
            has_resolved(self),
        ensures
            *final(self.container()) == *self.container(),
    {
    }

    /// Turns the entry into exclusive access to the occupant of its slot, for
    /// as long as the container was borrowed. What the caller leaves behind
    /// the reference is the occupant of the slot afterwards; no other slot
    /// changes.
    #[inline]
    pub fn into_mut(self) -> (occupant: &'a mut ElementOfOptionalVec<C>)
        requires
            self.wf(),
        ensures
            Some(*occupant) == self.container().elements()[self.spec_key() as int].as_option(),
            refilled(
                self.container().elements(),
                final(self.container()).elements(),
                self.spec_key() as int,
                *final(occupant),
            ),
    {
        self.z.slot_mut(self.key).as_mut().unwrap()
    }

    /// Exclusive access to the occupant of the slot, for as long as the entry
    /// is borrowed. The entry stays occupied, by what the caller leaves
    /// behind the reference, and keeps its key and its borrow of the
    /// container.
    #[inline]
    pub fn get_mut(&mut self) -> (occupant: &mut ElementOfOptionalVec<C>)
        requires
            old(self).wf(),
        ensures
            Some(*occupant) == old(self).container().elements()[old(
                self,
            ).spec_key() as int].as_option(),
            refilled(
                old(self).container().elements(),
                final(self).container().elements(),
                old(self).spec_key() as int,
                *final(occupant),
            ),
            final(self).wf(),
            final(self).spec_key() == old(self).spec_key(),
            *final(final(self).container()) == *final(old(self).container()),
    {
        self.z.slot_mut(self.key).as_mut().unwrap()
    }

    /// The key of the entry.
    #[inline]
    pub fn key(&self) -> (k: &usize)
        ensures
            *k == self.spec_key(),
    {
        &self.key
    }
}

/// An entry whose slot is out of bounds of the container, or empty.
pub struct VacantEntry<'a, C: 'a + VecInterface> where C::ElementType: OptionInterface {
    z: &'a mut C,
    key: usize,
}

impl<'a, C: 'a + VecInterface> VacantEntry<'a, C> where C::ElementType: OptionInterface {
    /// The key that the entry was requested for.
    pub closed spec fn spec_key(&self) -> usize {
        self.key
    }

    /// The exclusive borrow of the container that the entry holds.
    pub closed spec fn container(self) -> &'a mut C {
        self.z
    }

    /// The slot of the entry is out of bounds of the borrowed container, or
    /// empty.
    pub open spec fn wf(self) -> bool {
        !occupied_at(self.container().elements(), self.spec_key() as int)
    }

    /// An entry that is given up without being turned into an occupant
    /// leaves the container as it found it.
    pub proof fn lemma_untouched(self)
        requires
            has_resolved(self),
        ensures
            *final(self.container()) == *self.container(),
    {
    }

    /// The key of the entry.
    #[inline]
    pub fn key(&self) -> (k: &usize)
        ensures
            *k == self.spec_key(),
    {
        &self.key
    }

    /// Grows the container by the growth rule, makes `value` the occupant of
    /// the slot of the entry and hands out exclusive access to it. What the
    /// caller leaves behind the reference is the occupant of the slot
    /// afterwards.
    #[inline]
    pub fn insert(self, value: ElementOfOptionalVec<C>) -> (occupant: &'a mut ElementOfOptionalVec<
        C,
    >) where C::ElementType: Default
        requires
            self.spec_key() < usize::MAX,
        ensures
            *occupant == value,
            filled(
                self.container().elements(),
                final(self.container()).elements(),
                self.spec_key() as int,
                *final(occupant),
            ),
    {
        let VacantEntry { z, key } = self;
        let len = z.len();
        let new_size = if len > key {
            len
        } else {
            key + 1
        };
        z.resize_with(new_size, C::ElementType::default);
        z.slot_mut(key).insert(value)
    }
}

/// Asking a vector for an entry and the entry for its key, and no more,
/// leaves the vector as it was, whether the entry is occupied or vacant.
pub proof fn lemma_key_keeps_vec<'a, V: 'a>(
    vec: &'a mut Vec<Option<V>>,
    key: usize,
    entry: Entry<'a, Vec<Option<V>>>,
    k: &usize,
)
    requires
        call_ensures(<Vec<Option<V>> as VecOptionEntry<'a, Vec<Option<V>>>>::entry, (vec, key), entry),
        call_ensures(Entry::<'a, Vec<Option<V>>>::key, (&entry,), k),
        has_resolved(entry),
    ensures
        *k == key,
        *final(vec) == *old(vec),
{
    entry.lemma_untouched();
}

/// Default-insertion never shrinks the container, and leaves it long enough
/// to hold the slot of the entry.
pub proof fn lemma_or_default_never_shrinks<'a, C>(
    entry: Entry<'a, C>,
    occupant: &'a mut ElementOfOptionalVec<C>,
) where
    C: 'a + VecInterface,
    C::ElementType: OptionInterface + Default,
    ElementOfOptionalVec<C>: Default,

    requires
        entry.wf(),
        call_ensures(Entry::<'a, C>::or_default, (entry,), occupant),
    ensures
        final(entry.container()).elements().len() >= entry.container().elements().len(),
        final(entry.container()).elements().len() > entry.spec_key(),
{
}

/// Default-insertion into an empty container: the container ends with
/// `key + 1` slots, each of them below `key` holding a default slot, and the
/// slot at `key` is occupied: by what the caller leaves behind the reference,
/// which starts as a default value of the occupant's type.
pub proof fn lemma_or_default_on_empty<'a, C>(
    entry: Entry<'a, C>,
    occupant: &'a mut ElementOfOptionalVec<C>,
) where
    C: 'a + VecInterface,
    C::ElementType: OptionInterface + Default,
    ElementOfOptionalVec<C>: Default,

    requires
        entry.wf(),
        entry.container().elements().len() == 0,
        call_ensures(Entry::<'a, C>::or_default, (entry,), occupant),
    ensures
        entry is Vacant,
        final(entry.container()).elements().len() == entry.spec_key() + 1,
        forall|i: int|
            0 <= i < entry.spec_key() ==> call_ensures(
                C::ElementType::default,
                (),
                #[trigger] final(entry.container()).elements()[i],
            ),
        call_ensures(ElementOfOptionalVec::<C>::default, (), *old(occupant)),
        final(entry.container()).elements()[entry.spec_key() as int].as_option() == Some(
            *final(occupant),
        ),
{
}

/// Default-insertion into an empty vector of options: the vector ends with
/// `key + 1` slots, each of them below `key` being `None`, and the slot at
/// `key` is `Some` of what the caller leaves behind the reference.
pub proof fn lemma_or_default_on_empty_vec<'a, V: 'a + Default>(
    entry: Entry<'a, Vec<Option<V>>>,
    occupant: &'a mut V,
)
    requires
        entry.wf(),
        entry.container()@.len() == 0,
        call_ensures(Entry::<'a, Vec<Option<V>>>::or_default, (entry,), occupant),
    ensures
        final(entry.container())@.len() == entry.spec_key() + 1,
        forall|i: int| 0 <= i < entry.spec_key() ==> #[trigger] final(entry.container())@[i] is None,
        final(entry.container())@[entry.spec_key() as int] == Some(*final(occupant)),
{
    lemma_or_default_on_empty(entry, occupant);
}

/// Lazy insertion spares the thunk of an occupied entry: `or_insert_with`
/// may be called on such an entry with any thunk at all, even one that can
/// never be called.
pub proof fn lemma_or_insert_with_on_occupied<'a, C, F>(entry: Entry<'a, C>, f: F) where
    C: 'a + VecInterface,
    C::ElementType: OptionInterface + Default,
    F: FnOnce() -> ElementOfOptionalVec<C>,

    requires
        entry.wf(),
        entry is Occupied,
    ensures
        call_requires(Entry::<'a, C>::or_insert_with::<F>, (entry, f)),
{
}

/// Lazy insertion calls the thunk of a vacant entry: what `or_insert_with`
/// hands out is a value that the thunk returned.
pub proof fn lemma_or_insert_with_on_vacant<'a, C, F>(
    entry: Entry<'a, C>,
    f: F,
    occupant: &'a mut ElementOfOptionalVec<C>,
) where
    C: 'a + VecInterface,
    C::ElementType: OptionInterface + Default,
    F: FnOnce() -> ElementOfOptionalVec<C>,

    requires
        entry.wf(),
        entry is Vacant,
        call_ensures(Entry::<'a, C>::or_insert_with::<F>, (entry, f), occupant),
    ensures
        f.ensures((), *old(occupant)),
{
}

/// `and_modify` spares the mutator of a vacant entry: it may be called on
/// such an entry with any mutator at all, even one that can never be called.
pub proof fn lemma_and_modify_on_vacant<'a, C, F>(entry: Entry<'a, C>, f: F) where
    C: 'a + VecInterface,
    C::ElementType: OptionInterface + Default,
    F: FnOnce(&mut ElementOfOptionalVec<C>),

    requires
        entry.wf(),
        entry is Vacant,
    ensures
        call_requires(Entry::<'a, C>::and_modify::<F>, (entry, f)),
{
}

/// Modify, else insert. On an occupied entry `and_modify` runs the mutator
/// on the occupant and `or_insert` then hands out the occupant that the
/// mutator left, dropping its own value: the container changes in that one
/// slot only. On a vacant entry the mutator is left alone and `or_insert`
/// stores its value, the container growing by the growth rule.
pub proof fn lemma_and_modify_then_or_insert<'a, C, F>(
    entry: Entry<'a, C>,
    f: F,
    modified: Entry<'a, C>,
    value: ElementOfOptionalVec<C>,
    occupant: &'a mut ElementOfOptionalVec<C>,
) where
    C: 'a + VecInterface,
    C::ElementType: OptionInterface + Default,
    F: FnOnce(&mut ElementOfOptionalVec<C>),

    requires
        entry.wf(),
        call_ensures(Entry::<'a, C>::and_modify::<F>, (entry, f), modified),
        call_ensures(Entry::<'a, C>::or_insert, (modified, value), occupant),
    ensures
        entry is Occupied ==> exists|r: &mut ElementOfOptionalVec<C>|
            Some(*r) == entry.container().elements()[entry.spec_key() as int].as_option()
                && #[trigger] f.ensures((r,), ()) && *old(occupant) == *final(r),
        entry is Occupied ==> refilled(
            entry.container().elements(),
            final(entry.container()).elements(),
            entry.spec_key() as int,
            *final(occupant),
        ),
        entry is Vacant ==> *old(occupant) == value,
        entry is Vacant ==> filled(
            entry.container().elements(),
            final(entry.container()).elements(),
            entry.spec_key() as int,
            *final(occupant),
        ),
{
}

} // verus!
