//! A map-like `entry` API for vectors.
//!
//! A vector is indexed by `usize`, so unlike a map's entry the key has to be a
//! `usize`: only then is it known how far the vector must grow when a value is
//! inserted behind its current end.
//!
//! Two engines are offered. [`vec_entry`] works on any `Vec<T>` and takes an
//! entry to be vacant exactly when the key is beyond the current length.
//! [`vec_option_entry`] works on `Vec<Option<T>>` and takes an entry to be
//! vacant when the key is beyond the current length or the slot holds `None`.
use vstd::prelude::*;

pub mod vec_entry;
pub mod vec_option_entry;

pub use vec_entry::VecEntry;
pub use vec_option_entry::VecOptionEntry;

verus! {

/// Interface for a vec-like container.
///
/// The container is modelled by the sequence of its slots, [`Self::elements`].
pub trait VecInterface {
    /// The elements that are contained in this container.
    type ElementType;

    /// The slots of the container, in index order.
    spec fn elements(&self) -> Seq<Self::ElementType>;

    /// Resize the container to this number of elements, populating values with `f`.
    ///
    /// Slots that exist before and after the call keep their value. When the
    /// container grows, every new slot holds a value that `f` returned. When
    /// it does not grow, `f` is not needed and nothing is asked of it.
    fn resize_with<F: FnMut() -> Self::ElementType>(&mut self, new_size: usize, f: F)
        requires
            old(self).elements().len() < new_size ==> f.requires(()),
        ensures
            final(self).elements().len() == new_size,
            forall|i: int|
                0 <= i < new_size && i < old(self).elements().len() ==> final(self).elements()[i]
                    == old(self).elements()[i],
            forall|i: int|
                old(self).elements().len() <= i < new_size ==> f.ensures(
                    (),
                    #[trigger] final(self).elements()[i],
                ),
    ;

    /// Returns the current length of the container.
    fn len(&self) -> (n: usize)
        ensures
            n == self.elements().len(),
    ;

    /// Exclusive access to the slot at `index`, which must be in bounds.
    ///
    /// Whatever the caller leaves in the slot is what the container holds
    /// there afterwards; no other slot changes.
    fn slot_mut(&mut self, index: usize) -> (slot: &mut Self::ElementType)
        requires
            index < old(self).elements().len(),
        ensures
            *slot == old(self).elements()[index as int],
            final(self).elements() == old(self).elements().update(index as int, *final(slot)),
    ;
}

impl<T> VecInterface for Vec<T> {
    type ElementType = T;

    open spec fn elements(&self) -> Seq<T> {
        self@
    }

    fn resize_with<F: FnMut() -> T>(&mut self, new_size: usize, f: F) {
        if new_size <= self.len() {
            self.truncate(new_size);
        } else {
            let mut fill = f;
            self.reserve(new_size - self.len());
            while self.len() < new_size
                invariant
                    fill == f,
                    f.requires(()),
                    old(self)@.len() <= self@.len() <= new_size,
                    forall|i: int| 0 <= i < old(self)@.len() ==> self@[i] == old(self)@[i],
                    forall|i: int|
                        old(self)@.len() <= i < self@.len() ==> f.ensures((), #[trigger] self@[i]),
                decreases new_size - self@.len(),
            {
                let value = fill();
                self.push(value);
            }
        }
    }

    #[inline]
    fn len(&self) -> (n: usize) {
        Vec::len(self)
    }

    #[inline]
    fn slot_mut(&mut self, index: usize) -> (slot: &mut T) {
        &mut self[index]
    }
}

/// Interface for an option-like slot.
///
/// The slot is modelled by the `Option` of its occupant, [`Self::as_option`].
pub trait OptionInterface {
    /// The type of the occupant.
    type ElementType;

    /// The slot as an `Option`: `Some` of its occupant, or `None` when empty.
    spec fn as_option(&self) -> Option<Self::ElementType>;

    /// Exclusive access to the occupant, if there is one.
    ///
    /// An empty slot stays empty. An occupied slot stays occupied, by
    /// whatever the caller leaves behind the reference.
    fn as_mut(&mut self) -> (res: Option<&mut Self::ElementType>)
        ensures
            res is Some <==> old(self).as_option() is Some,
            res is Some ==> Some(*res->0) == old(self).as_option(),
            res is Some ==> final(self).as_option() == Some(*final(res->0)),
            res is None ==> final(self).as_option() is None,
    ;

    /// Puts `value` into the slot, whatever it held, and hands out exclusive
    /// access to the new occupant.
    fn insert(&mut self, value: Self::ElementType) -> (res: &mut Self::ElementType)
        ensures
            *res == value,
            final(self).as_option() == Some(*final(res)),
    ;

    /// Whether the slot holds an occupant.
    fn is_some(&self) -> (b: bool)
        ensures
            b == (self.as_option() is Some),
    ;
}

impl<T> OptionInterface for Option<T> {
    type ElementType = T;

    open spec fn as_option(&self) -> Option<T> {
        *self
    }

    #[inline]
    fn as_mut(&mut self) -> (res: Option<&mut T>) {
        Option::as_mut(self)
    }

    #[inline]
    fn insert(&mut self, value: T) -> (res: &mut T) {
        Option::insert(self, value)
    }

    #[inline]
    fn is_some(&self) -> (b: bool) {
        Option::is_some(self)
    }
}

/// The growth rule of both engines: `after` is `before` made long enough to
/// hold slot `key`.
///
/// The length becomes `max(before.len(), key + 1)`, so the container never
/// shrinks. Every slot of `before` other than `key` keeps its value, and
/// every new slot below `key` holds a default value of `T`. Nothing is said
/// of slot `key` itself.
pub open spec fn grown<T: Default>(before: Seq<T>, after: Seq<T>, key: int) -> bool {
    &&& after.len() == if key < before.len() {
        before.len() as int
    } else {
        key + 1
    }
    &&& forall|i: int| 0 <= i < before.len() && i != key ==> #[trigger] after[i] == before[i]
    &&& forall|i: int| before.len() <= i < key ==> call_ensures(T::default, (), #[trigger] after[i])
}

/// Helper to retrieve the inner type of a container of option-like slots.
pub type ElementOfOptionalVec<C> = <<C as VecInterface>::ElementType as OptionInterface>::ElementType;

} // verus!
