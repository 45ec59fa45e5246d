//! Clones of the fields that references lead to.

use core_extensions::collection_traits::Cloned;
use vstd::prelude::*;

verus! {

/// `Cloned::cloned_` of `core_extensions` on a reference: it clones what the
/// reference leads to, with the `Clone` impl of that type.
#[verifier::external_body]
fn cloned_ref<T: Clone>(item: &T) -> (r: T)
    ensures
        cloned(*item, r),
{
    Cloned::cloned_(&item)
}

/// `Cloned::cloned_` of `core_extensions` on an `Option` of a reference:
/// `None` stays `None`, and `Some` holds the clone of what the reference leads
/// to.
#[verifier::external_body]
fn cloned_option<T: Clone>(item: Option<&T>) -> (r: Option<T>)
    ensures
        match item {
            Some(x) => r is Some && cloned(*x, r->0),
            None => r is None,
        },
{
    Cloned::cloned_(&item)
}

/// What access to one field found, of which a clone can be made.
pub trait ClonedItem: Sized {
    /// The type of the clone.
    type Cloned;

    /// Whether `made` may be the clone of `self`.
    spec fn is_clone(self, made: Self::Cloned) -> bool;

    /// Clones what was found.
    fn cloned_item(self) -> (r: Self::Cloned)
        ensures
            self.is_clone(r),
    ;
}

impl<'a, T: Clone> ClonedItem for &'a T {
    type Cloned = T;

    open spec fn is_clone(self, made: T) -> bool {
        cloned(*self, made)
    }

    fn cloned_item(self) -> (r: T) {
        cloned_ref(self)
    }
}

impl<'a, T: Clone> ClonedItem for Option<&'a T> {
    type Cloned = Option<T>;

    open spec fn is_clone(self, made: Option<T>) -> bool {
        match self {
            Some(x) => made is Some && cloned(*x, made->0),
            None => made is None,
        }
    }

    fn cloned_item(self) -> (r: Option<T>) {
        cloned_option(self)
    }
}

/// What access to several fields found, of which clones can be made.
pub trait ClonedFields: Sized {
    /// The type of the clones.
    type Cloned;

    /// Whether `made` may be the clones of `self`.
    spec fn are_clones(self, made: Self::Cloned) -> bool;

    /// Clones each of the fields.
    fn cloned_fields_(self) -> (r: Self::Cloned)
        ensures
            self.are_clones(r),
    ;
}

impl<A: ClonedItem> ClonedFields for (A,) {
    type Cloned = (A::Cloned,);

    open spec fn are_clones(self, made: (A::Cloned,)) -> bool {
        self.0.is_clone(made.0)
    }

    fn cloned_fields_(self) -> (r: (A::Cloned,)) {
        (self.0.cloned_item(),)
    }
}

impl<A: ClonedItem, B: ClonedItem> ClonedFields for (A, B) {
    type Cloned = (A::Cloned, B::Cloned);

    open spec fn are_clones(self, made: (A::Cloned, B::Cloned)) -> bool {
        self.0.is_clone(made.0) && self.1.is_clone(made.1)
    }

    fn cloned_fields_(self) -> (r: (A::Cloned, B::Cloned)) {
        (self.0.cloned_item(), self.1.cloned_item())
    }
}

impl<A: ClonedItem, B: ClonedItem, C: ClonedItem> ClonedFields for (A, B, C) {
    type Cloned = (A::Cloned, B::Cloned, C::Cloned);

    open spec fn are_clones(self, made: (A::Cloned, B::Cloned, C::Cloned)) -> bool {
        self.0.is_clone(made.0) && self.1.is_clone(made.1) && self.2.is_clone(made.2)
    }

    fn cloned_fields_(self) -> (r: (A::Cloned, B::Cloned, C::Cloned)) {
        (self.0.cloned_item(), self.1.cloned_item(), self.2.cloned_item())
    }
}

impl<A: ClonedItem, B: ClonedItem, C: ClonedItem, D: ClonedItem> ClonedFields for (A, B, C, D) {
    type Cloned = (A::Cloned, B::Cloned, C::Cloned, D::Cloned);

    open spec fn are_clones(self, made: (A::Cloned, B::Cloned, C::Cloned, D::Cloned)) -> bool {
        &&& self.0.is_clone(made.0)
        &&& self.1.is_clone(made.1)
        &&& self.2.is_clone(made.2)
        &&& self.3.is_clone(made.3)
    }

    fn cloned_fields_(self) -> (r: (A::Cloned, B::Cloned, C::Cloned, D::Cloned)) {
        (self.0.cloned_item(), self.1.cloned_item(), self.2.cloned_item(), self.3.cloned_item())
    }
}

} // verus!
