//! A wrapper that gives access to fields by value by cloning them.

use crate::field::split::{
    IntoFields2, IntoFields3, IntoFields4, SplitFieldsMut2, SplitFieldsMut3, SplitFieldsMut4,
};
use crate::field::{
    FieldType, FromStructural, GetField, GetFieldMut, GetFieldType, GetVariantField,
    GetVariantFieldMut, IntoField, IntoVariantField, IsVariant,
};
use crate::ownership::{DropFields, DroppedFields};
use vstd::prelude::*;

verus! {

/// Wrapper that emulates by-value access to fields by cloning them.
///
/// This allows a type that only gives shared access to its fields to be
/// handed to a function that asks for access by value: each field that is
/// asked for is cloned out of the wrapped value.
#[derive(Debug, Clone, Copy, PartialEq, Eq, PartialOrd, Ord, Hash)]
pub struct FieldCloner<T>(pub T);

impl<T> FieldCloner<T> {
    /// Turns a `&FieldCloner<T>` into a `FieldCloner<&T>`.
    pub fn as_ref(&self) -> (r: FieldCloner<&T>)
        ensures
            *r.0 == self.0,
    {
        FieldCloner(&self.0)
    }

    /// Turns a `&mut FieldCloner<T>` into a `FieldCloner<&mut T>`. What is written
    /// through the result is written to the wrapped value.
    pub fn as_mut(&mut self) -> (r: FieldCloner<&mut T>)
        ensures
            *r.0 == old(self).0,
            final(self).0 == *final(r.0),
    {
        FieldCloner(&mut self.0)
    }

    /// Transforms the wrapped value with `f`.
    pub fn map<F, U>(self, f: F) -> (r: FieldCloner<U>) where F: FnOnce(T) -> U
        requires
            f.requires((self.0,)),
        ensures
            f.ensures((self.0,), r.0),
    {
        FieldCloner(f(self.0))
    }

    /// Calls `f` with `self`, and wraps what it returns.
    pub fn then_<F, U>(self, f: F) -> (r: FieldCloner<U>) where F: FnOnce(Self) -> U
        requires
            f.requires((self,)),
        ensures
            f.ensures((self,), r.0),
    {
        FieldCloner(f(self))
    }
}

impl<T: Clone> FieldCloner<&T> {
    /// Maps the wrapped reference into a clone.
    pub fn cloned(self) -> (r: FieldCloner<T>)
        ensures
            cloned(*self.0, r.0),
    {
        FieldCloner((*self.0).clone())
    }
}

impl<T: Clone> FieldCloner<&mut T> {
    /// Maps the wrapped mutable reference into a clone, and leaves what it
    /// refers to as it is.
    pub fn cloned(self) -> (r: FieldCloner<T>)
        ensures
            cloned(*old(self.0), r.0),
            *final(self.0) == *old(self.0),
    {
        FieldCloner((*self.0).clone())
    }
}

impl<T: Default> Default for FieldCloner<T> {
    fn default() -> (r: Self)
        ensures
            T::default.ensures((), r.0),
    {
        FieldCloner(T::default())
    }
}

impl<T> DropFields for FieldCloner<T> {
    /// Does nothing: fields are cloned out of this wrapper, never moved, so
    /// no part of the value is gone and its owner drops it as a whole.
    fn drop_fields(&mut self, dropped: DroppedFields) {
    }

    /// The value is left as it is.
    open spec fn left_by_drop(&self, dropped: DroppedFields, after: &Self) -> bool {
        *after == *self
    }
}

impl<T, P> FieldType<P> for FieldCloner<T> where T: FieldType<P> {
    type Ty = T::Ty;
}

impl<T, P> GetField<P> for FieldCloner<T> where T: GetField<P> {
    open spec fn field(&self, path: P) -> T::Ty {
        self.0.field(path)
    }

    fn get_field_(&self, path: P) -> (r: &T::Ty) {
        self.0.get_field_(path)
    }
}

impl<T, P> GetFieldMut<P> for FieldCloner<T> where T: GetFieldMut<P> {
    open spec fn with_field(self, path: P, value: T::Ty) -> Self {
        FieldCloner(self.0.with_field(path, value))
    }

    proof fn lemma_field_of_with_field(self, path: P, value: T::Ty) {
        self.0.lemma_field_of_with_field(path, value);
    }

    proof fn lemma_with_own_field(self, path: P) {
        self.0.lemma_with_own_field(path);
    }

    proof fn lemma_with_field_twice(self, path: P, first: T::Ty, second: T::Ty) {
        self.0.lemma_with_field_twice(path, first, second);
    }

    fn get_field_mut_(&mut self, path: P) -> (r: &mut T::Ty) {
        self.0.get_field_mut_(path)
    }
}

impl<T, V> IsVariant<V> for FieldCloner<T> where T: IsVariant<V> {
    open spec fn is_variant_spec(&self, name: V) -> bool {
        self.0.is_variant_spec(name)
    }

    fn is_variant_(&self, name: V) -> (r: bool) {
        self.0.is_variant_(name)
    }
}

impl<T, V, F> GetVariantField<V, F> for FieldCloner<T> where T: GetVariantField<V, F> {
    open spec fn vfield(&self, variant: V, field: F) -> Option<T::Ty> {
        self.0.vfield(variant, field)
    }

    proof fn lemma_vfield_is_variant(&self, variant: V, field: F) {
        self.0.lemma_vfield_is_variant(variant, field);
    }

    fn get_vfield_(&self, variant: V, field: F) -> (r: Option<&T::Ty>) {
        self.0.get_vfield_(variant, field)
    }
}

impl<T, V, F> GetVariantFieldMut<V, F> for FieldCloner<T> where T: GetVariantFieldMut<V, F> {
    open spec fn with_vfield(self, variant: V, field: F, value: T::Ty) -> Self {
        FieldCloner(self.0.with_vfield(variant, field, value))
    }

    proof fn lemma_vfield_of_with_vfield(self, variant: V, field: F, value: T::Ty) {
        self.0.lemma_vfield_of_with_vfield(variant, field, value);
    }

    proof fn lemma_with_own_vfield(self, variant: V, field: F, value: T::Ty) {
        self.0.lemma_with_own_vfield(variant, field, value);
    }

    fn get_vfield_mut_(&mut self, variant: V, field: F) -> (r: Option<&mut T::Ty>) {
        self.0.get_vfield_mut_(variant, field)
    }
}

impl<F, T> FromStructural<F> for FieldCloner<T> where T: FromStructural<F> {
    open spec fn built_from(from: F, made: Self) -> bool {
        T::built_from(from, made.0)
    }

    fn from_structural(from: F) -> (r: Self) {
        FieldCloner(T::from_structural(from))
    }
}

impl<T, P> IntoField<P> for FieldCloner<T> where T: GetField<P>, T::Ty: Clone {
    /// The value that comes out is a clone of the field.
    open spec fn yields(self, path: P, value: T::Ty) -> bool {
        cloned(self.0.field(path), value)
    }

    fn into_field_(self, path: P) -> (r: T::Ty) {
        self.0.get_field_(path).clone()
    }
}

impl<T, V, F> IntoVariantField<V, F> for FieldCloner<T> where
    T: GetVariantField<V, F>,
    T::Ty: Clone,
 {
    /// The value that comes out is a clone of the field, if the field is
    /// there.
    open spec fn vyields(self, variant: V, field: F, found: Option<T::Ty>) -> bool {
        match self.0.vfield(variant, field) {
            Some(x) => found is Some && cloned(x, found->0),
            None => found is None,
        }
    }

    fn into_vfield_(self, variant: V, field: F) -> (r: Option<T::Ty>) {
        proof {
            self.0.lemma_vfield_is_variant(variant, field);
        }
        match self.0.get_vfield_(variant, field) {
            Some(x) => Some(x.clone()),
            _ => None,
        }
    }
}

impl<T, P0, P1> IntoFields2<P0, P1> for FieldCloner<T> where
    T: GetField<P0> + GetField<P1>,
    GetFieldType<T, P0>: Clone,
    GetFieldType<T, P1>: Clone,
 {
    fn into_fields2(self, p0: P0, p1: P1) -> (r: (
        GetFieldType<T, P0>,
        GetFieldType<T, P1>,
    )) {
        (self.0.get_field_(p0).clone(), self.0.get_field_(p1).clone())
    }
}

impl<T, P0, P1, P2> IntoFields3<P0, P1, P2> for FieldCloner<T> where
    T: GetField<P0> + GetField<P1> + GetField<P2>,
    GetFieldType<T, P0>: Clone,
    GetFieldType<T, P1>: Clone,
    GetFieldType<T, P2>: Clone,
 {
    fn into_fields3(self, p0: P0, p1: P1, p2: P2) -> (r: (
        GetFieldType<T, P0>,
        GetFieldType<T, P1>,
        GetFieldType<T, P2>,
    )) {
        (
            self.0.get_field_(p0).clone(),
            self.0.get_field_(p1).clone(),
            self.0.get_field_(p2).clone(),
        )
    }
}

impl<T, P0, P1, P2, P3> IntoFields4<P0, P1, P2, P3> for FieldCloner<T> where
    T: GetField<P0> + GetField<P1> + GetField<P2> + GetField<P3>,
    GetFieldType<T, P0>: Clone,
    GetFieldType<T, P1>: Clone,
    GetFieldType<T, P2>: Clone,
    GetFieldType<T, P3>: Clone,
 {
    fn into_fields4(self, p0: P0, p1: P1, p2: P2, p3: P3) -> (r: (
        GetFieldType<T, P0>,
        GetFieldType<T, P1>,
        GetFieldType<T, P2>,
        GetFieldType<T, P3>,
    )) {
        (
            self.0.get_field_(p0).clone(),
            self.0.get_field_(p1).clone(),
            self.0.get_field_(p2).clone(),
            self.0.get_field_(p3).clone(),
        )
    }
}

} // verus!
