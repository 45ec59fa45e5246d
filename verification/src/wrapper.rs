//! A wrapper whose methods reach into the fields of what it wraps.

use crate::field::cloned::ClonedFields;
use crate::field::errors::NormalizeFields;
use crate::field::multi_fields::{
    field_ref, field_value_post, get_field_mut, get_field_ref, get_field_value, GetMultiField,
    GetMultiFieldMut, IntoMultiField, NormalizedMut, NormalizedRef, NormalizedValue,
};
use crate::field::rev::{RevGetField, RevGetFieldMut, RevIntoField};
use crate::field::split::{
    IntoFields2, IntoFields3, IntoFields4, SplitFieldsMut2, SplitFieldsMut3, SplitFieldsMut4,
};
use crate::field::{
    FieldType, FromStructural, GetField, GetFieldMut, GetFieldType, GetVariantField,
    GetVariantFieldMut, IntoField, IntoVariantField, IsVariant,
};
use crate::ownership::{DropFields, DroppedFields};
use crate::path::IsTStr;
use core::ops::{Index, IndexMut};
use vstd::prelude::*;

verus! {

/// A wrapper with methods for access to the fields of the wrapped value.
///
/// A path that leads through the fields of records alone gives the field
/// itself; a path that leads into a variant of an enum gives an `Option`,
/// which is `None` where the enum is in another variant.
#[derive(Debug, Clone, Copy, PartialEq, Eq, PartialOrd, Ord, Hash)]
pub struct StrucWrapper<T>(pub T);

impl<T> StrucWrapper<T> {
    /// Gets a reference to a single field, determined by `path`.
    pub fn r<'a, P>(&'a self, path: P) -> (r: NormalizedRef<'a, P, T>) where
        P: RevGetField<'a, T>,
        P::Err: NormalizeFields<&'a P::Ty>,

        ensures
            r == field_ref(path, &self.0),
    {
        get_field_ref(path, &self.0)
    }

    /// Gets a mutable reference to a single field, determined by `path`.
    /// What is written through it replaces the field, and nothing else in the
    /// wrapped value changes.
    pub fn m<'a, P>(&'a mut self, path: P) -> (r: NormalizedMut<'a, P, T>) where
        P: RevGetFieldMut<'a, T>,
        P::Err: NormalizeFields<&'a mut P::Ty>,

        ensures
            match <P::Err as NormalizeFields<&'a mut P::Ty>>::denormalized(r) {
                Some(m) => path.rev_field(&old(self).0) == Some(&*m) && final(self).0
                    == path.rev_with_field(old(self).0, *final(m)),
                None => path.rev_field(&old(self).0) is None && final(self).0 == old(self).0,
            },
    {
        get_field_mut(path, &mut self.0)
    }

    /// Converts this into a single field by value, determined by `path`.
    pub fn v<'a, P>(self, path: P) -> (r: NormalizedValue<'a, P, T>) where
        P: RevIntoField<'a, T>,
        P::Err: NormalizeFields<P::Ty>,
        T: 'a,

        ensures
            field_value_post(path, self.0, r),
    {
        get_field_value(path, self.0)
    }

    /// Gets references to multiple fields, determined by `path`.
    pub fn refs<'a, P>(&'a self, path: P) -> (r: P::MultiTy) where P: GetMultiField<'a, T>
        ensures
            r == path.multi_field(&self.0),
    {
        path.multi_get_field_(&self.0)
    }

    /// Gets clones of multiple fields, determined by `path`.
    pub fn clones<'a, P>(&'a self, path: P) -> (r: <P::MultiTy as ClonedFields>::Cloned) where
        P: GetMultiField<'a, T>,
        P::MultiTy: ClonedFields,

        ensures
            path.multi_field(&self.0).are_clones(r),
    {
        path.multi_get_field_(&self.0).cloned_fields_()
    }

    /// Gets mutable references to multiple fields, determined by `path`.
    ///
    /// The result is that of `path.multi_get_field_mut_` on the wrapped
    /// value, which holds what the paths find there.
    pub fn muts<'a, P>(&'a mut self, path: P) -> (r: P::MultiTy) where P: GetMultiFieldMut<'a, T>
        ensures
            path.multi_lent(old(self).0, r),
    {
        path.multi_get_field_mut_(&mut self.0)
    }

    /// Converts this into multiple fields by value, determined by `path`.
    pub fn vals<'a, P>(self, path: P) -> (r: P::MultiTy) where P: IntoMultiField<'a, T>, T: 'a
        ensures
            path.multi_yields(self.0, r),
    {
        path.multi_into_field_(self.0)
    }

    /// Queries whether an enum is a particular variant.
    pub fn is_variant<P>(&self, path: P) -> (r: bool) where P: IsTStr, T: IsVariant<P>
        ensures
            r == self.0.is_variant_spec(path),
    {
        self.0.is_variant_(path)
    }
}

impl<T> StrucWrapper<T> {
    /// Turns a `&StrucWrapper<T>` into a `StrucWrapper<&T>`.
    pub fn as_ref(&self) -> (r: StrucWrapper<&T>)
        ensures
            *r.0 == self.0,
    {
        StrucWrapper(&self.0)
    }

    /// Turns a `&mut StrucWrapper<T>` into a `StrucWrapper<&mut T>`. What is written
    /// through the result is written to the wrapped value.
    pub fn as_mut(&mut self) -> (r: StrucWrapper<&mut T>)
        ensures
            *r.0 == old(self).0,
            final(self).0 == *final(r.0),
    {
        StrucWrapper(&mut self.0)
    }

    /// Transforms the wrapped value with `f`.
    pub fn map<F, U>(self, f: F) -> (r: StrucWrapper<U>) where F: FnOnce(T) -> U
        requires
            f.requires((self.0,)),
        ensures
            f.ensures((self.0,), r.0),
    {
        StrucWrapper(f(self.0))
    }

    /// Calls `f` with `self`, and wraps what it returns.
    pub fn then_<F, U>(self, f: F) -> (r: StrucWrapper<U>) where F: FnOnce(Self) -> U
        requires
            f.requires((self,)),
        ensures
            f.ensures((self,), r.0),
    {
        StrucWrapper(f(self))
    }
}

impl<T: Default> Default for StrucWrapper<T> {
    fn default() -> (r: Self)
        ensures
            T::default.ensures((), r.0),
    {
        StrucWrapper(T::default())
    }
}

impl<T: DropFields> DropFields for StrucWrapper<T> {
    /// Has the wrapped value drop the fields that were not moved out.
    fn drop_fields(&mut self, dropped: DroppedFields) {
        self.0.drop_fields(dropped);
    }

    /// What is left is the wrapper of what the wrapped value leaves of
    /// itself.
    open spec fn left_by_drop(&self, dropped: DroppedFields, after: &Self) -> bool {
        self.0.left_by_drop(dropped, &after.0)
    }
}

impl<F, T> Index<F> for StrucWrapper<T> where T: GetField<F> {
    type Output = T::Ty;

    /// Gets a reference to the field that `path` names.
    fn index(&self, path: F) -> (r: &T::Ty)
        ensures
            *r == self.0.field(path),
    {
        self.0.get_field_(path)
    }
}

impl<F, T> IndexMut<F> for StrucWrapper<T> where T: GetFieldMut<F> {
    /// Gets a mutable reference to the field that `path` names.
    fn index_mut(&mut self, path: F) -> (r: &mut T::Ty)
        ensures
            *r == old(self).0.field(path),
            final(self).0 == old(self).0.with_field(path, *final(r)),
    {
        self.0.get_field_mut_(path)
    }
}

impl<F, T> vstd::std_specs::core::IndexSpecImpl<F> for StrucWrapper<T> where T: GetField<F> {
    open spec fn index_req(&self, index: &F) -> bool {
        true
    }
}

impl<T, P> FieldType<P> for StrucWrapper<T> where T: FieldType<P> {
    type Ty = T::Ty;
}

impl<T, P> GetField<P> for StrucWrapper<T> where T: GetField<P> {
    open spec fn field(&self, path: P) -> T::Ty {
        self.0.field(path)
    }

    fn get_field_(&self, path: P) -> (r: &T::Ty) {
        self.0.get_field_(path)
    }
}

impl<T, P> GetFieldMut<P> for StrucWrapper<T> where T: GetFieldMut<P> {
    open spec fn with_field(self, path: P, value: T::Ty) -> Self {
        StrucWrapper(self.0.with_field(path, value))
    }

    proof fn lemma_field_of_with_field(self, path: P, value: T::Ty) {
        self.0.lemma_field_of_with_field(path, value);
    }

    proof fn lemma_with_own_field(self, path: P) {
        self.0.lemma_with_own_field(path);
    }

    proof fn lemma_with_field_twice(self, path: P, first: T::Ty, second: T::Ty) {
        self.0.lemma_with_field_twice(path, first, second);
    }

    fn get_field_mut_(&mut self, path: P) -> (r: &mut T::Ty) {
        self.0.get_field_mut_(path)
    }
}

impl<T, V> IsVariant<V> for StrucWrapper<T> where T: IsVariant<V> {
    open spec fn is_variant_spec(&self, name: V) -> bool {
        self.0.is_variant_spec(name)
    }

    fn is_variant_(&self, name: V) -> (r: bool) {
        self.0.is_variant_(name)
    }
}

impl<T, V, F> GetVariantField<V, F> for StrucWrapper<T> where T: GetVariantField<V, F> {
    open spec fn vfield(&self, variant: V, field: F) -> Option<T::Ty> {
        self.0.vfield(variant, field)
    }

    proof fn lemma_vfield_is_variant(&self, variant: V, field: F) {
        self.0.lemma_vfield_is_variant(variant, field);
    }

    fn get_vfield_(&self, variant: V, field: F) -> (r: Option<&T::Ty>) {
        self.0.get_vfield_(variant, field)
    }
}

impl<T, V, F> GetVariantFieldMut<V, F> for StrucWrapper<T> where T: GetVariantFieldMut<V, F> {
    open spec fn with_vfield(self, variant: V, field: F, value: T::Ty) -> Self {
        StrucWrapper(self.0.with_vfield(variant, field, value))
    }

    proof fn lemma_vfield_of_with_vfield(self, variant: V, field: F, value: T::Ty) {
        self.0.lemma_vfield_of_with_vfield(variant, field, value);
    }

    proof fn lemma_with_own_vfield(self, variant: V, field: F, value: T::Ty) {
        self.0.lemma_with_own_vfield(variant, field, value);
    }

    fn get_vfield_mut_(&mut self, variant: V, field: F) -> (r: Option<&mut T::Ty>) {
        self.0.get_vfield_mut_(variant, field)
    }
}

impl<F, T> FromStructural<F> for StrucWrapper<T> where T: FromStructural<F> {
    open spec fn built_from(from: F, made: Self) -> bool {
        T::built_from(from, made.0)
    }

    fn from_structural(from: F) -> (r: Self) {
        StrucWrapper(T::from_structural(from))
    }
}

impl<T, P0, P1> SplitFieldsMut2<P0, P1> for StrucWrapper<T> where T: SplitFieldsMut2<P0, P1> {
    proof fn lemma_fields_apart2(
        self,
        p0: P0, p1: P1,
        v0: GetFieldType<T, P0>,
        v1: GetFieldType<T, P1>,
    ) {
        self.0.lemma_fields_apart2(p0, p1, v0, v1);
    }

    fn split_fields_mut2(&mut self, p0: P0, p1: P1) -> (r: (
        &mut GetFieldType<T, P0>,
        &mut GetFieldType<T, P1>,
    )) {
        self.0.split_fields_mut2(p0, p1)
    }
}

impl<T, P0, P1, P2> SplitFieldsMut3<P0, P1, P2> for StrucWrapper<T> where
    T: SplitFieldsMut3<P0, P1, P2>,
 {
    proof fn lemma_fields_apart3(
        self,
        p0: P0, p1: P1, p2: P2,
        v0: GetFieldType<T, P0>,
        v1: GetFieldType<T, P1>,
        v2: GetFieldType<T, P2>,
    ) {
        self.0.lemma_fields_apart3(p0, p1, p2, v0, v1, v2);
    }

    fn split_fields_mut3(&mut self, p0: P0, p1: P1, p2: P2) -> (r: (
        &mut GetFieldType<T, P0>,
        &mut GetFieldType<T, P1>,
        &mut GetFieldType<T, P2>,
    )) {
        self.0.split_fields_mut3(p0, p1, p2)
    }
}

impl<T, P0, P1, P2, P3> SplitFieldsMut4<P0, P1, P2, P3> for StrucWrapper<T> where
    T: SplitFieldsMut4<P0, P1, P2, P3>,
 {
    proof fn lemma_fields_apart4(
        self,
        p0: P0, p1: P1, p2: P2, p3: P3,
        v0: GetFieldType<T, P0>,
        v1: GetFieldType<T, P1>,
        v2: GetFieldType<T, P2>,
        v3: GetFieldType<T, P3>,
    ) {
        self.0.lemma_fields_apart4(p0, p1, p2, p3, v0, v1, v2, v3);
    }

    fn split_fields_mut4(&mut self, p0: P0, p1: P1, p2: P2, p3: P3) -> (r: (
        &mut GetFieldType<T, P0>,
        &mut GetFieldType<T, P1>,
        &mut GetFieldType<T, P2>,
        &mut GetFieldType<T, P3>,
    )) {
        self.0.split_fields_mut4(p0, p1, p2, p3)
    }
}

impl<T, P> IntoField<P> for StrucWrapper<T> where T: IntoField<P> {
    open spec fn yields(self, path: P, value: T::Ty) -> bool {
        self.0.yields(path, value)
    }

    fn into_field_(self, path: P) -> (r: T::Ty) {
        self.0.into_field_(path)
    }
}

impl<T, V, F> IntoVariantField<V, F> for StrucWrapper<T> where T: IntoVariantField<V, F> {
    open spec fn vyields(self, variant: V, field: F, found: Option<T::Ty>) -> bool {
        self.0.vyields(variant, field, found)
    }

    fn into_vfield_(self, variant: V, field: F) -> (r: Option<T::Ty>) {
        self.0.into_vfield_(variant, field)
    }
}

impl<T, P0, P1> IntoFields2<P0, P1> for StrucWrapper<T> where T: IntoFields2<P0, P1> {
    fn into_fields2(self, p0: P0, p1: P1) -> (r: (
        GetFieldType<T, P0>,
        GetFieldType<T, P1>,
    )) {
        self.0.into_fields2(p0, p1)
    }
}

impl<T, P0, P1, P2> IntoFields3<P0, P1, P2> for StrucWrapper<T> where T: IntoFields3<P0, P1, P2> {
    fn into_fields3(self, p0: P0, p1: P1, p2: P2) -> (r: (
        GetFieldType<T, P0>,
        GetFieldType<T, P1>,
        GetFieldType<T, P2>,
    )) {
        self.0.into_fields3(p0, p1, p2)
    }
}

impl<T, P0, P1, P2, P3> IntoFields4<P0, P1, P2, P3> for StrucWrapper<T> where
    T: IntoFields4<P0, P1, P2, P3>,
 {
    fn into_fields4(self, p0: P0, p1: P1, p2: P2, p3: P3) -> (r: (
        GetFieldType<T, P0>,
        GetFieldType<T, P1>,
        GetFieldType<T, P2>,
        GetFieldType<T, P3>,
    )) {
        self.0.into_fields4(p0, p1, p2, p3)
    }
}

} // verus!
