//! Values paired with the record of the fields that were moved out of them,
//! and the step that ends their life.

use crate::ownership::{DropFields, DroppedFields, PrePostDropFields};
use vstd::prelude::*;

verus! {

/// Helper type for moving fields out of a value: the value, and the set of
/// its fields that were moved out so far.
pub struct AndMovedOutFields<T: DropFields> {
    value: T,
    moved: DroppedFields,
}

impl<T: DropFields> AndMovedOutFields<T> {
    /// The wrapped value.
    pub closed spec fn inner(&self) -> T {
        self.value
    }

    /// The fields that were moved out.
    pub closed spec fn moved(&self) -> DroppedFields {
        self.moved
    }

    /// Wraps `value`; no field is moved out yet.
    pub fn new(value: T) -> (r: Self)
        ensures
            r.inner() == value,
            r.moved()@ == Set::<nat>::empty(),
    {
        AndMovedOutFields { value, moved: DroppedFields::new() }
    }

    /// Gets mutable references to the wrapped value, and to the set that
    /// records which fields were moved out of it.
    pub fn inner_and_moved_mut(&mut self) -> (r: (&mut T, &mut DroppedFields))
        ensures
            *r.0 == old(self).inner(),
            *r.1 == old(self).moved(),
            final(self).inner() == *final(r.0),
            final(self).moved() == *final(r.1),
    {
        (&mut self.value, &mut self.moved)
    }

    /// Ends the move: has the value drop the fields that were not moved out,
    /// and hands back what is left of it.
    pub fn finish(self) -> (r: T)
        ensures
            self.inner().left_by_drop(self.moved(), &r),
    {
        let mut value = self.value;
        value.drop_fields(self.moved);
        value
    }
}

/// Holds a value by mutable reference, on which [`PrePostDropFields::post_drop`]
/// is to run last.
pub struct RunPostDrop<'a, T: PrePostDropFields> {
    pub mutref: &'a mut T,
}

impl<'a, T: PrePostDropFields> RunPostDrop<'a, T> {
    /// Holds `mutref`.
    pub fn new(mutref: &'a mut T) -> (r: Self)
        ensures
            *r.mutref == *old(mutref),
            *final(mutref) == *final(r.mutref),
    {
        RunPostDrop { mutref }
    }

    /// Reborrows the wrapped mutable reference.
    pub fn get_mut(&mut self) -> (r: &mut T)
        ensures
            *r == *old(self).mutref,
            *final(self).mutref == *final(r),
            *final(final(self).mutref) == *final(old(self).mutref),
    {
        &mut *self.mutref
    }

    /// Runs the hook.
    pub fn run(self) {
        self.mutref.post_drop();
    }
}

/// Holds a value by mutable reference together with the set of its fields
/// that were moved out, on which [`DropFields::drop_fields`] is to run last.
pub struct RunDropFields<'a, T: DropFields> {
    pub mutref: &'a mut T,
    pub moved: DroppedFields,
}

impl<'a, T: DropFields> RunDropFields<'a, T> {
    /// Holds `mutref` and `moved`.
    pub fn new(mutref: &'a mut T, moved: DroppedFields) -> (r: Self)
        ensures
            *r.mutref == *old(mutref),
            *final(mutref) == *final(r.mutref),
            r.moved == moved,
    {
        RunDropFields { mutref, moved }
    }

    /// Reborrows the wrapped mutable reference.
    pub fn get_mut(&mut self) -> (r: &mut T)
        ensures
            *r == *old(self).mutref,
            *final(self).mutref == *final(r),
            *final(final(self).mutref) == *final(old(self).mutref),
            final(self).moved == old(self).moved,
    {
        &mut *self.mutref
    }

    /// Gets mutable references to the wrapped value, and to the set that
    /// records which fields were moved out of it.
    pub fn get_mut_and_moved_fields(&mut self) -> (r: (&mut T, &mut DroppedFields))
        ensures
            *r.0 == *old(self).mutref,
            *r.1 == old(self).moved,
            *final(self).mutref == *final(r.0),
            *final(final(self).mutref) == *final(old(self).mutref),
            final(self).moved == *final(r.1),
    {
        (&mut *self.mutref, &mut self.moved)
    }

    /// Has the value drop the fields that were not moved out.
    pub fn run(self)
        ensures
            (*old(self.mutref)).left_by_drop(self.moved, &*final(self.mutref)),
    {
        self.mutref.drop_fields(self.moved);
    }
}

} // verus!
