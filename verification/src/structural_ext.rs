//! Access to fields as methods on every type.

use crate::field::cloned::ClonedFields;
use crate::field::errors::NormalizeFields;
use crate::field::multi_fields::{
    field_ref, field_value_post, get_field_mut, get_field_ref, get_field_value, GetMultiField,
    GetMultiFieldMut, IntoMultiField, NormalizedMut, NormalizedRef, NormalizedValue,
};
use crate::field::rev::{RevGetField, RevGetFieldMut, RevIntoField};
use crate::field::IsVariant;
use crate::path::IsTStr;
use vstd::prelude::*;

verus! {

/// Methods for access to the fields of any type that has accessors for them.
///
/// A path that leads through the fields of records alone gives the field
/// itself; a path that leads into a variant of an enum gives an `Option`,
/// which is `None` where the enum is in another variant.
pub trait StructuralExt: Sized {
    /// Gets a reference to a single field, determined by `path`.
    fn field_<'a, P>(&'a self, path: P) -> (r: NormalizedRef<'a, P, Self>) where
        P: RevGetField<'a, Self>,
        P::Err: NormalizeFields<&'a P::Ty>,

        ensures
            r == field_ref(path, self),
    {
        get_field_ref(path, self)
    }

    /// Gets references to multiple fields, determined by `path`.
    fn fields<'a, P>(&'a self, path: P) -> (r: P::MultiTy) where P: GetMultiField<'a, Self>
        ensures
            r == path.multi_field(self),
    {
        path.multi_get_field_(self)
    }

    /// Gets clones of multiple fields, determined by `path`.
    fn cloned_fields<'a, P>(&'a self, path: P) -> (r: <P::MultiTy as ClonedFields>::Cloned) where
        P: GetMultiField<'a, Self>,
        P::MultiTy: ClonedFields,

        ensures
            path.multi_field(self).are_clones(r),
    {
        path.multi_get_field_(self).cloned_fields_()
    }

    /// Gets a mutable reference to a single field, determined by `path`. What
    /// is written through it replaces the field, and nothing else in `self`
    /// changes.
    fn field_mut<'a, P>(&'a mut self, path: P) -> (r: NormalizedMut<'a, P, Self>) where
        P: RevGetFieldMut<'a, Self>,
        P::Err: NormalizeFields<&'a mut P::Ty>,

        ensures
            match <P::Err as NormalizeFields<&'a mut P::Ty>>::denormalized(r) {
                Some(m) => path.rev_field(&*old(self)) == Some(&*m) && *final(self)
                    == path.rev_with_field(*old(self), *final(m)),
                None => path.rev_field(&*old(self)) is None && *final(self) == *old(self),
            },
    {
        get_field_mut(path, self)
    }

    /// Gets mutable references to multiple fields, determined by `path`.
    ///
    /// The result is that of `path.multi_get_field_mut_` on `self`, which
    /// holds what the paths find there.
    fn fields_mut<'a, P>(&'a mut self, path: P) -> (r: P::MultiTy) where
        P: GetMultiFieldMut<'a, Self>,

        ensures
            path.multi_lent(*old(self), r),
    {
        path.multi_get_field_mut_(self)
    }

    /// Converts this into a single field by value, determined by `path`.
    fn into_field<'a, P>(self, path: P) -> (r: NormalizedValue<'a, P, Self>) where
        P: RevIntoField<'a, Self>,
        P::Err: NormalizeFields<P::Ty>,
        Self: 'a,

        ensures
            field_value_post(path, self, r),
    {
        get_field_value(path, self)
    }

    /// Converts this into multiple fields by value, determined by `path`.
    fn into_fields<'a, P>(self, path: P) -> (r: P::MultiTy) where
        P: IntoMultiField<'a, Self>,
        Self: 'a,

        ensures
            path.multi_yields(self, r),
    {
        path.multi_into_field_(self)
    }

    /// Queries whether an enum is a particular variant.
    fn is_variant<P>(&self, path: P) -> (r: bool) where P: IsTStr, Self: IsVariant<P>
        ensures
            r == self.is_variant_spec(path),
    {
        self.is_variant_(path)
    }
}

impl<T> StructuralExt for T {

}

} // verus!
