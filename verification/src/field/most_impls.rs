//! Accessors for types of the standard library: `ManuallyDrop` gives access
//! to the fields of what it wraps, and the ranges are records with the
//! fields `start` and `end`.

use crate::field::split::IntoFields2;
use crate::field::{
    FieldType, FromStructural, GetField, GetFieldMut, GetVariantField, IntoField,
    IntoVariantField, IsVariant,
};
use crate::path::names::{EndStr, StartStr};
use crate::structural_trait::{FieldInfo, StructuralFields};
use core::mem::ManuallyDrop;
use core::ops::{Range, RangeFrom, RangeInclusive, RangeTo, RangeToInclusive};
use vstd::prelude::*;

verus! {

impl<T, P> FieldType<P> for ManuallyDrop<T> where T: FieldType<P> {
    type Ty = T::Ty;
}

impl<T, P> GetField<P> for ManuallyDrop<T> where T: GetField<P> {
    open spec fn field(&self, path: P) -> T::Ty {
        self@.field(path)
    }

    fn get_field_(&self, path: P) -> (r: &T::Ty) {
        let inner: &T = &**self;
        inner.get_field_(path)
    }
}

impl<T, P> IntoField<P> for ManuallyDrop<T> where T: IntoField<P> {
    open spec fn yields(self, path: P, value: T::Ty) -> bool {
        self@.yields(path, value)
    }

    fn into_field_(self, path: P) -> (r: T::Ty) {
        ManuallyDrop::into_inner(self).into_field_(path)
    }
}

impl<T, V> IsVariant<V> for ManuallyDrop<T> where T: IsVariant<V> {
    open spec fn is_variant_spec(&self, name: V) -> bool {
        self@.is_variant_spec(name)
    }

    fn is_variant_(&self, name: V) -> (r: bool) {
        let inner: &T = &**self;
        inner.is_variant_(name)
    }
}

impl<T, V, F> GetVariantField<V, F> for ManuallyDrop<T> where T: GetVariantField<V, F> {
    open spec fn vfield(&self, variant: V, field: F) -> Option<T::Ty> {
        self@.vfield(variant, field)
    }

    proof fn lemma_vfield_is_variant(&self, variant: V, field: F) {
        self@.lemma_vfield_is_variant(variant, field);
    }

    fn get_vfield_(&self, variant: V, field: F) -> (r: Option<&T::Ty>) {
        let inner: &T = &**self;
        inner.get_vfield_(variant, field)
    }
}

impl<T, V, F> IntoVariantField<V, F> for ManuallyDrop<T> where T: IntoVariantField<V, F> {
    open spec fn vyields(self, variant: V, field: F, found: Option<T::Ty>) -> bool {
        self@.vyields(variant, field, found)
    }

    fn into_vfield_(self, variant: V, field: F) -> (r: Option<T::Ty>) {
        ManuallyDrop::into_inner(self).into_vfield_(variant, field)
    }
}

impl<F, T> FromStructural<F> for ManuallyDrop<T> where T: FromStructural<F> {
    open spec fn built_from(from: F, made: Self) -> bool {
        T::built_from(from, made@)
    }

    fn from_structural(from: F) -> (r: Self) {
        ManuallyDrop::new(T::from_structural(from))
    }
}

impl<T> FieldType<StartStr> for Range<T> {
    type Ty = T;
}

impl<T> GetField<StartStr> for Range<T> {
    open spec fn field(&self, path: StartStr) -> T {
        self.start
    }

    fn get_field_(&self, path: StartStr) -> (r: &T) {
        &self.start
    }
}

impl<T> GetFieldMut<StartStr> for Range<T> {
    open spec fn with_field(self, path: StartStr, value: T) -> Self {
        Range { start: value, end: self.end }
    }

    proof fn lemma_field_of_with_field(self, path: StartStr, value: T) {
    }

    proof fn lemma_with_own_field(self, path: StartStr) {
    }

    proof fn lemma_with_field_twice(self, path: StartStr, first: T, second: T) {
    }

    fn get_field_mut_(&mut self, path: StartStr) -> (r: &mut T) {
        &mut self.start
    }
}

impl<T> IntoField<StartStr> for Range<T> {
    open spec fn yields(self, path: StartStr, value: T) -> bool {
        value == self.start
    }

    fn into_field_(self, path: StartStr) -> (r: T) {
        self.start
    }
}

impl<T> FieldType<EndStr> for Range<T> {
    type Ty = T;
}

impl<T> GetField<EndStr> for Range<T> {
    open spec fn field(&self, path: EndStr) -> T {
        self.end
    }

    fn get_field_(&self, path: EndStr) -> (r: &T) {
        &self.end
    }
}

impl<T> GetFieldMut<EndStr> for Range<T> {
    open spec fn with_field(self, path: EndStr, value: T) -> Self {
        Range { start: self.start, end: value }
    }

    proof fn lemma_field_of_with_field(self, path: EndStr, value: T) {
    }

    proof fn lemma_with_own_field(self, path: EndStr) {
    }

    proof fn lemma_with_field_twice(self, path: EndStr, first: T, second: T) {
    }

    fn get_field_mut_(&mut self, path: EndStr) -> (r: &mut T) {
        &mut self.end
    }
}

impl<T> IntoField<EndStr> for Range<T> {
    open spec fn yields(self, path: EndStr, value: T) -> bool {
        value == self.end
    }

    fn into_field_(self, path: EndStr) -> (r: T) {
        self.end
    }
}

impl<T> IntoFields2<StartStr, EndStr> for Range<T> {
    fn into_fields2(self, p0: StartStr, p1: EndStr) -> (r: (T, T)) {
        (self.start, self.end)
    }
}

impl<F, T> FromStructural<F> for Range<T> where
    F: IntoFields2<StartStr, EndStr> + FieldType<StartStr, Ty = T> + FieldType<EndStr, Ty = T>,
 {
    open spec fn built_from(from: F, made: Self) -> bool {
        from.yields(StartStr::new_spec(), made.start) && from.yields(EndStr::new_spec(), made.end)
    }

    fn from_structural(from: F) -> (r: Self) {
        let (start, end) = from.into_fields2(StartStr::new(), EndStr::new());
        Range { start, end }
    }
}

#[verifier::external_type_specification]
#[verifier::reject_recursive_types(Idx)]
pub struct ExRangeFrom<Idx>(RangeFrom<Idx>);

#[verifier::external_type_specification]
#[verifier::reject_recursive_types(Idx)]
pub struct ExRangeTo<Idx>(RangeTo<Idx>);

#[verifier::external_type_specification]
#[verifier::reject_recursive_types(Idx)]
pub struct ExRangeToInclusive<Idx>(RangeToInclusive<Idx>);

impl<T> FieldType<StartStr> for RangeFrom<T> {
    type Ty = T;
}

impl<T> GetField<StartStr> for RangeFrom<T> {
    open spec fn field(&self, path: StartStr) -> T {
        self.start
    }

    fn get_field_(&self, path: StartStr) -> (r: &T) {
        &self.start
    }
}

impl<T> GetFieldMut<StartStr> for RangeFrom<T> {
    open spec fn with_field(self, path: StartStr, value: T) -> Self {
        RangeFrom { start: value }
    }

    proof fn lemma_field_of_with_field(self, path: StartStr, value: T) {
    }

    proof fn lemma_with_own_field(self, path: StartStr) {
    }

    proof fn lemma_with_field_twice(self, path: StartStr, first: T, second: T) {
    }

    fn get_field_mut_(&mut self, path: StartStr) -> (r: &mut T) {
        &mut self.start
    }
}

impl<T> IntoField<StartStr> for RangeFrom<T> {
    open spec fn yields(self, path: StartStr, value: T) -> bool {
        value == self.start
    }

    fn into_field_(self, path: StartStr) -> (r: T) {
        self.start
    }
}

impl<F, T> FromStructural<F> for RangeFrom<T> where F: IntoField<StartStr, Ty = T> {
    open spec fn built_from(from: F, made: Self) -> bool {
        from.yields(StartStr::new_spec(), made.start)
    }

    fn from_structural(from: F) -> (r: Self) {
        RangeFrom { start: from.into_field_(StartStr::new()) }
    }
}

impl<T> FieldType<EndStr> for RangeTo<T> {
    type Ty = T;
}

impl<T> GetField<EndStr> for RangeTo<T> {
    open spec fn field(&self, path: EndStr) -> T {
        self.end
    }

    fn get_field_(&self, path: EndStr) -> (r: &T) {
        &self.end
    }
}

impl<T> GetFieldMut<EndStr> for RangeTo<T> {
    open spec fn with_field(self, path: EndStr, value: T) -> Self {
        RangeTo { end: value }
    }

    proof fn lemma_field_of_with_field(self, path: EndStr, value: T) {
    }

    proof fn lemma_with_own_field(self, path: EndStr) {
    }

    proof fn lemma_with_field_twice(self, path: EndStr, first: T, second: T) {
    }

    fn get_field_mut_(&mut self, path: EndStr) -> (r: &mut T) {
        &mut self.end
    }
}

impl<T> IntoField<EndStr> for RangeTo<T> {
    open spec fn yields(self, path: EndStr, value: T) -> bool {
        value == self.end
    }

    fn into_field_(self, path: EndStr) -> (r: T) {
        self.end
    }
}

impl<F, T> FromStructural<F> for RangeTo<T> where F: IntoField<EndStr, Ty = T> {
    open spec fn built_from(from: F, made: Self) -> bool {
        from.yields(EndStr::new_spec(), made.end)
    }

    fn from_structural(from: F) -> (r: Self) {
        RangeTo { end: from.into_field_(EndStr::new()) }
    }
}

impl<T> FieldType<EndStr> for RangeToInclusive<T> {
    type Ty = T;
}

impl<T> GetField<EndStr> for RangeToInclusive<T> {
    open spec fn field(&self, path: EndStr) -> T {
        self.end
    }

    fn get_field_(&self, path: EndStr) -> (r: &T) {
        &self.end
    }
}

impl<T> GetFieldMut<EndStr> for RangeToInclusive<T> {
    open spec fn with_field(self, path: EndStr, value: T) -> Self {
        RangeToInclusive { end: value }
    }

    proof fn lemma_field_of_with_field(self, path: EndStr, value: T) {
    }

    proof fn lemma_with_own_field(self, path: EndStr) {
    }

    proof fn lemma_with_field_twice(self, path: EndStr, first: T, second: T) {
    }

    fn get_field_mut_(&mut self, path: EndStr) -> (r: &mut T) {
        &mut self.end
    }
}

impl<T> IntoField<EndStr> for RangeToInclusive<T> {
    open spec fn yields(self, path: EndStr, value: T) -> bool {
        value == self.end
    }

    fn into_field_(self, path: EndStr) -> (r: T) {
        self.end
    }
}

impl<F, T> FromStructural<F> for RangeToInclusive<T> where F: IntoField<EndStr, Ty = T> {
    open spec fn built_from(from: F, made: Self) -> bool {
        from.yields(EndStr::new_spec(), made.end)
    }

    fn from_structural(from: F) -> (r: Self) {
        RangeToInclusive { end: from.into_field_(EndStr::new()) }
    }
}

/// `RangeInclusive::start` hands out the lower bound that the range was made
/// with.
pub assume_specification<Idx>[ RangeInclusive::<Idx>::start ](range: &RangeInclusive<Idx>) -> (r:
    &Idx)
    ensures
        *r == range@.start,
;

/// `RangeInclusive::end` hands out the upper bound that the range was made
/// with.
pub assume_specification<Idx>[ RangeInclusive::<Idx>::end ](range: &RangeInclusive<Idx>) -> (r:
    &Idx)
    ensures
        *r == range@.end,
;

/// `RangeInclusive::into_inner` takes the range apart into the lower bound
/// and the upper bound that it was made with, in this order.
pub assume_specification<Idx>[ RangeInclusive::<Idx>::into_inner ](
    range: RangeInclusive<Idx>,
) -> (r: (Idx, Idx))
    ensures
        r == (range@.start, range@.end),
;

impl<T> FieldType<StartStr> for RangeInclusive<T> {
    type Ty = T;
}

impl<T> FieldType<EndStr> for RangeInclusive<T> {
    type Ty = T;
}

impl<T> GetField<StartStr> for RangeInclusive<T> {
    open spec fn field(&self, path: StartStr) -> T {
        self@.start
    }

    fn get_field_(&self, path: StartStr) -> (r: &T) {
        self.start()
    }
}

impl<T> GetField<EndStr> for RangeInclusive<T> {
    open spec fn field(&self, path: EndStr) -> T {
        self@.end
    }

    fn get_field_(&self, path: EndStr) -> (r: &T) {
        self.end()
    }
}

impl<T> IntoField<StartStr> for RangeInclusive<T> {
    open spec fn yields(self, path: StartStr, value: T) -> bool {
        value == self@.start
    }

    fn into_field_(self, path: StartStr) -> (r: T) {
        self.into_inner().0
    }
}

impl<T> IntoField<EndStr> for RangeInclusive<T> {
    open spec fn yields(self, path: EndStr, value: T) -> bool {
        value == self@.end
    }

    fn into_field_(self, path: EndStr) -> (r: T) {
        self.into_inner().1
    }
}

impl<T> IntoFields2<StartStr, EndStr> for RangeInclusive<T> {
    fn into_fields2(self, p0: StartStr, p1: EndStr) -> (r: (T, T)) {
        self.into_inner()
    }
}

impl<F, T> FromStructural<F> for RangeInclusive<T> where
    F: IntoFields2<StartStr, EndStr> + FieldType<StartStr, Ty = T> + FieldType<EndStr, Ty = T>,
 {
    open spec fn built_from(from: F, made: Self) -> bool {
        &&& from.yields(StartStr::new_spec(), made@.start)
        &&& from.yields(EndStr::new_spec(), made@.end)
        &&& !made@.exhausted
    }

    fn from_structural(from: F) -> (r: Self) {
        let (start, end) = from.into_fields2(StartStr::new(), EndStr::new());
        RangeInclusive::new(start, end)
    }
}

impl<T> StructuralFields for Range<T> {
    open spec fn fields_spec() -> Seq<FieldInfo> {
        seq![
            FieldInfo { original_name: "start", accessor_name: "start" },
            FieldInfo { original_name: "end", accessor_name: "end" },
        ]
    }

    fn fields() -> (r: Vec<FieldInfo>) {
        let mut fields: Vec<FieldInfo> = Vec::new();
        fields.push(FieldInfo::not_renamed("start"));
        fields.push(FieldInfo::not_renamed("end"));
        assert(fields@ =~= Self::fields_spec());
        fields
    }
}

impl<T> StructuralFields for RangeFrom<T> {
    open spec fn fields_spec() -> Seq<FieldInfo> {
        seq![FieldInfo { original_name: "start", accessor_name: "start" }]
    }

    fn fields() -> (r: Vec<FieldInfo>) {
        let mut fields: Vec<FieldInfo> = Vec::new();
        fields.push(FieldInfo::not_renamed("start"));
        assert(fields@ =~= Self::fields_spec());
        fields
    }
}

impl<T> StructuralFields for RangeTo<T> {
    open spec fn fields_spec() -> Seq<FieldInfo> {
        seq![FieldInfo { original_name: "end", accessor_name: "end" }]
    }

    fn fields() -> (r: Vec<FieldInfo>) {
        let mut fields: Vec<FieldInfo> = Vec::new();
        fields.push(FieldInfo::not_renamed("end"));
        assert(fields@ =~= Self::fields_spec());
        fields
    }
}

impl<T> StructuralFields for RangeToInclusive<T> {
    open spec fn fields_spec() -> Seq<FieldInfo> {
        seq![FieldInfo { original_name: "end", accessor_name: "end" }]
    }

    fn fields() -> (r: Vec<FieldInfo>) {
        let mut fields: Vec<FieldInfo> = Vec::new();
        fields.push(FieldInfo::not_renamed("end"));
        assert(fields@ =~= Self::fields_spec());
        fields
    }
}

impl<T> StructuralFields for RangeInclusive<T> {
    open spec fn fields_spec() -> Seq<FieldInfo> {
        seq![
            FieldInfo { original_name: "start", accessor_name: "start" },
            FieldInfo { original_name: "end", accessor_name: "end" },
        ]
    }

    fn fields() -> (r: Vec<FieldInfo>) {
        let mut fields: Vec<FieldInfo> = Vec::new();
        fields.push(FieldInfo::not_renamed("start"));
        fields.push(FieldInfo::not_renamed("end"));
        assert(fields@ =~= Self::fields_spec());
        fields
    }
}

} // verus!
