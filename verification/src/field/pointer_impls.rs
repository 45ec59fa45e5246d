//! Pointers and references to a value give access to the value's fields.

use crate::field::split::{
    IntoFields2, IntoFields3, IntoFields4, SplitFieldsMut2, SplitFieldsMut3, SplitFieldsMut4,
};
use crate::field::{
    FieldType, FromStructural, GetField, GetFieldMut, GetFieldType, GetVariantField,
    GetVariantFieldMut, IntoField, IntoVariantField, IsVariant,
};
use crate::ownership::{DropFields, DroppedFields};
use std::rc::Rc;
use std::sync::Arc;
use vstd::prelude::*;

verus! {

impl<T, P> FieldType<P> for Box<T> where T: FieldType<P> {
    type Ty = T::Ty;
}

impl<T, P> GetField<P> for Box<T> where T: GetField<P> {
    open spec fn field(&self, path: P) -> T::Ty {
        (**self).field(path)
    }

    fn get_field_(&self, path: P) -> (r: &T::Ty) {
        (**self).get_field_(path)
    }
}

impl<T, V> IsVariant<V> for Box<T> where T: IsVariant<V> {
    open spec fn is_variant_spec(&self, name: V) -> bool {
        (**self).is_variant_spec(name)
    }

    fn is_variant_(&self, name: V) -> (r: bool) {
        (**self).is_variant_(name)
    }
}

impl<T, V, F> GetVariantField<V, F> for Box<T> where T: GetVariantField<V, F> {
    open spec fn vfield(&self, variant: V, field: F) -> Option<T::Ty> {
        (**self).vfield(variant, field)
    }

    proof fn lemma_vfield_is_variant(&self, variant: V, field: F) {
        (**self).lemma_vfield_is_variant(variant, field);
    }

    fn get_vfield_(&self, variant: V, field: F) -> (r: Option<&T::Ty>) {
        (**self).get_vfield_(variant, field)
    }
}

impl<'a, T, P> FieldType<P> for &'a T where T: FieldType<P> {
    type Ty = T::Ty;
}

impl<'a, T, P> GetField<P> for &'a T where T: GetField<P> {
    open spec fn field(&self, path: P) -> T::Ty {
        (**self).field(path)
    }

    fn get_field_(&self, path: P) -> (r: &T::Ty) {
        (**self).get_field_(path)
    }
}

impl<'a, T, V> IsVariant<V> for &'a T where T: IsVariant<V> {
    open spec fn is_variant_spec(&self, name: V) -> bool {
        (**self).is_variant_spec(name)
    }

    fn is_variant_(&self, name: V) -> (r: bool) {
        (**self).is_variant_(name)
    }
}

impl<'a, T, V, F> GetVariantField<V, F> for &'a T where T: GetVariantField<V, F> {
    open spec fn vfield(&self, variant: V, field: F) -> Option<T::Ty> {
        (**self).vfield(variant, field)
    }

    proof fn lemma_vfield_is_variant(&self, variant: V, field: F) {
        (**self).lemma_vfield_is_variant(variant, field);
    }

    fn get_vfield_(&self, variant: V, field: F) -> (r: Option<&T::Ty>) {
        (**self).get_vfield_(variant, field)
    }
}

impl<'a, T, P> FieldType<P> for &'a mut T where T: FieldType<P> {
    type Ty = T::Ty;
}

impl<'a, T, P> GetField<P> for &'a mut T where T: GetField<P> {
    open spec fn field(&self, path: P) -> T::Ty {
        (**self).field(path)
    }

    fn get_field_(&self, path: P) -> (r: &T::Ty) {
        (**self).get_field_(path)
    }
}

impl<'a, T, V> IsVariant<V> for &'a mut T where T: IsVariant<V> {
    open spec fn is_variant_spec(&self, name: V) -> bool {
        (**self).is_variant_spec(name)
    }

    fn is_variant_(&self, name: V) -> (r: bool) {
        (**self).is_variant_(name)
    }
}

impl<'a, T, V, F> GetVariantField<V, F> for &'a mut T where T: GetVariantField<V, F> {
    open spec fn vfield(&self, variant: V, field: F) -> Option<T::Ty> {
        (**self).vfield(variant, field)
    }

    proof fn lemma_vfield_is_variant(&self, variant: V, field: F) {
        (**self).lemma_vfield_is_variant(variant, field);
    }

    fn get_vfield_(&self, variant: V, field: F) -> (r: Option<&T::Ty>) {
        (**self).get_vfield_(variant, field)
    }
}

impl<T, P> FieldType<P> for Rc<T> where T: FieldType<P> {
    type Ty = T::Ty;
}

impl<T, P> GetField<P> for Rc<T> where T: GetField<P> {
    open spec fn field(&self, path: P) -> T::Ty {
        (**self).field(path)
    }

    fn get_field_(&self, path: P) -> (r: &T::Ty) {
        (**self).get_field_(path)
    }
}

impl<T, V> IsVariant<V> for Rc<T> where T: IsVariant<V> {
    open spec fn is_variant_spec(&self, name: V) -> bool {
        (**self).is_variant_spec(name)
    }

    fn is_variant_(&self, name: V) -> (r: bool) {
        (**self).is_variant_(name)
    }
}

impl<T, V, F> GetVariantField<V, F> for Rc<T> where T: GetVariantField<V, F> {
    open spec fn vfield(&self, variant: V, field: F) -> Option<T::Ty> {
        (**self).vfield(variant, field)
    }

    proof fn lemma_vfield_is_variant(&self, variant: V, field: F) {
        (**self).lemma_vfield_is_variant(variant, field);
    }

    fn get_vfield_(&self, variant: V, field: F) -> (r: Option<&T::Ty>) {
        (**self).get_vfield_(variant, field)
    }
}

impl<T, P> FieldType<P> for Arc<T> where T: FieldType<P> {
    type Ty = T::Ty;
}

impl<T, P> GetField<P> for Arc<T> where T: GetField<P> {
    open spec fn field(&self, path: P) -> T::Ty {
        (**self).field(path)
    }

    fn get_field_(&self, path: P) -> (r: &T::Ty) {
        (**self).get_field_(path)
    }
}

impl<T, V> IsVariant<V> for Arc<T> where T: IsVariant<V> {
    open spec fn is_variant_spec(&self, name: V) -> bool {
        (**self).is_variant_spec(name)
    }

    fn is_variant_(&self, name: V) -> (r: bool) {
        (**self).is_variant_(name)
    }
}

impl<T, V, F> GetVariantField<V, F> for Arc<T> where T: GetVariantField<V, F> {
    open spec fn vfield(&self, variant: V, field: F) -> Option<T::Ty> {
        (**self).vfield(variant, field)
    }

    proof fn lemma_vfield_is_variant(&self, variant: V, field: F) {
        (**self).lemma_vfield_is_variant(variant, field);
    }

    fn get_vfield_(&self, variant: V, field: F) -> (r: Option<&T::Ty>) {
        (**self).get_vfield_(variant, field)
    }
}

impl<F, T> FromStructural<F> for Box<T> where T: FromStructural<F> {
    open spec fn built_from(from: F, made: Self) -> bool {
        T::built_from(from, *made)
    }

    fn from_structural(from: F) -> (r: Self) {
        Box::new(T::from_structural(from))
    }
}

impl<F, T> FromStructural<F> for Rc<T> where T: FromStructural<F> {
    open spec fn built_from(from: F, made: Self) -> bool {
        T::built_from(from, *made)
    }

    fn from_structural(from: F) -> (r: Self) {
        Rc::new(T::from_structural(from))
    }
}

impl<F, T> FromStructural<F> for Arc<T> where T: FromStructural<F> {
    open spec fn built_from(from: F, made: Self) -> bool {
        T::built_from(from, *made)
    }

    fn from_structural(from: F) -> (r: Self) {
        Arc::new(T::from_structural(from))
    }
}

impl<T, P> GetFieldMut<P> for Box<T> where T: GetFieldMut<P> {
    open spec fn with_field(self, path: P, value: T::Ty) -> Self {
        Box::new((*self).with_field(path, value))
    }

    proof fn lemma_field_of_with_field(self, path: P, value: T::Ty) {
        (*self).lemma_field_of_with_field(path, value);
    }

    proof fn lemma_with_own_field(self, path: P) {
        (*self).lemma_with_own_field(path);
    }

    proof fn lemma_with_field_twice(self, path: P, first: T::Ty, second: T::Ty) {
        (*self).lemma_with_field_twice(path, first, second);
    }

    fn get_field_mut_(&mut self, path: P) -> (r: &mut T::Ty) {
        (**self).get_field_mut_(path)
    }
}

impl<T, P> IntoField<P> for Box<T> where T: IntoField<P> {
    open spec fn yields(self, path: P, value: T::Ty) -> bool {
        (*self).yields(path, value)
    }

    fn into_field_(self, path: P) -> (r: T::Ty) {
        (*self).into_field_(path)
    }
}

impl<T, V, F> GetVariantFieldMut<V, F> for Box<T> where T: GetVariantFieldMut<V, F> {
    open spec fn with_vfield(self, variant: V, field: F, value: T::Ty) -> Self {
        Box::new((*self).with_vfield(variant, field, value))
    }

    proof fn lemma_vfield_of_with_vfield(self, variant: V, field: F, value: T::Ty) {
        (*self).lemma_vfield_of_with_vfield(variant, field, value);
    }

    proof fn lemma_with_own_vfield(self, variant: V, field: F, value: T::Ty) {
        (*self).lemma_with_own_vfield(variant, field, value);
    }

    fn get_vfield_mut_(&mut self, variant: V, field: F) -> (r: Option<&mut T::Ty>) {
        (**self).get_vfield_mut_(variant, field)
    }
}

impl<T, V, F> IntoVariantField<V, F> for Box<T> where T: IntoVariantField<V, F> {
    open spec fn vyields(self, variant: V, field: F, found: Option<T::Ty>) -> bool {
        (*self).vyields(variant, field, found)
    }

    fn into_vfield_(self, variant: V, field: F) -> (r: Option<T::Ty>) {
        (*self).into_vfield_(variant, field)
    }
}

impl<T: DropFields> DropFields for Box<T> {
    /// Has the boxed value drop the fields that were not moved out.
    fn drop_fields(&mut self, dropped: DroppedFields) {
        (**self).drop_fields(dropped);
    }

    /// What is left is a box of what the boxed value leaves of itself.
    open spec fn left_by_drop(&self, dropped: DroppedFields, after: &Self) -> bool {
        (**self).left_by_drop(dropped, &**after)
    }
}

impl<T, P0, P1> SplitFieldsMut2<P0, P1> for Box<T> where T: SplitFieldsMut2<P0, P1> {
    proof fn lemma_fields_apart2(
        self,
        p0: P0, p1: P1,
        v0: GetFieldType<T, P0>,
        v1: GetFieldType<T, P1>,
    ) {
        (*self).lemma_fields_apart2(p0, p1, v0, v1);
    }

    fn split_fields_mut2(&mut self, p0: P0, p1: P1) -> (r: (
        &mut GetFieldType<T, P0>,
        &mut GetFieldType<T, P1>,
    )) {
        (**self).split_fields_mut2(p0, p1)
    }
}

impl<T, P0, P1> IntoFields2<P0, P1> for Box<T> where T: IntoFields2<P0, P1> {
    fn into_fields2(self, p0: P0, p1: P1) -> (r: (
        GetFieldType<T, P0>,
        GetFieldType<T, P1>,
    )) {
        (*self).into_fields2(p0, p1)
    }
}

impl<T, P0, P1, P2> SplitFieldsMut3<P0, P1, P2> for Box<T> where T: SplitFieldsMut3<P0, P1, P2> {
    proof fn lemma_fields_apart3(
        self,
        p0: P0, p1: P1, p2: P2,
        v0: GetFieldType<T, P0>,
        v1: GetFieldType<T, P1>,
        v2: GetFieldType<T, P2>,
    ) {
        (*self).lemma_fields_apart3(p0, p1, p2, v0, v1, v2);
    }

    fn split_fields_mut3(&mut self, p0: P0, p1: P1, p2: P2) -> (r: (
        &mut GetFieldType<T, P0>,
        &mut GetFieldType<T, P1>,
        &mut GetFieldType<T, P2>,
    )) {
        (**self).split_fields_mut3(p0, p1, p2)
    }
}

impl<T, P0, P1, P2> IntoFields3<P0, P1, P2> for Box<T> where T: IntoFields3<P0, P1, P2> {
    fn into_fields3(self, p0: P0, p1: P1, p2: P2) -> (r: (
        GetFieldType<T, P0>,
        GetFieldType<T, P1>,
        GetFieldType<T, P2>,
    )) {
        (*self).into_fields3(p0, p1, p2)
    }
}

impl<T, P0, P1, P2, P3> SplitFieldsMut4<P0, P1, P2, P3> for Box<T> where
    T: SplitFieldsMut4<P0, P1, P2, P3>,
 {
    proof fn lemma_fields_apart4(
        self,
        p0: P0, p1: P1, p2: P2, p3: P3,
        v0: GetFieldType<T, P0>,
        v1: GetFieldType<T, P1>,
        v2: GetFieldType<T, P2>,
        v3: GetFieldType<T, P3>,
    ) {
        (*self).lemma_fields_apart4(p0, p1, p2, p3, v0, v1, v2, v3);
    }

    fn split_fields_mut4(&mut self, p0: P0, p1: P1, p2: P2, p3: P3) -> (r: (
        &mut GetFieldType<T, P0>,
        &mut GetFieldType<T, P1>,
        &mut GetFieldType<T, P2>,
        &mut GetFieldType<T, P3>,
    )) {
        (**self).split_fields_mut4(p0, p1, p2, p3)
    }
}

impl<T, P0, P1, P2, P3> IntoFields4<P0, P1, P2, P3> for Box<T> where
    T: IntoFields4<P0, P1, P2, P3>,
 {
    fn into_fields4(self, p0: P0, p1: P1, p2: P2, p3: P3) -> (r: (
        GetFieldType<T, P0>,
        GetFieldType<T, P1>,
        GetFieldType<T, P2>,
        GetFieldType<T, P3>,
    )) {
        (*self).into_fields4(p0, p1, p2, p3)
    }
}

} // verus!
