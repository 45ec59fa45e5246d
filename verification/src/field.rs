//! Accessor traits for fields: by reference, by mutable reference and by
//! value, for the fields of records and for the fields of enum variants.
//!
//! Every accessor is tied to a specification function that says which value
//! the field has, and every mutable accessor to one that says what the whole
//! value is after the field was replaced.

use crate::path::VariantField;
use vstd::prelude::*;

pub mod array_impls;
pub mod cloned;
pub mod enum_impls;
pub mod errors;
pub mod most_impls;
pub mod multi_fields;
pub mod pointer_impls;
pub mod rev;
pub mod split;
pub mod tuple_impls;
pub mod tuple_split_impls;

verus! {

/// The type of the field that the path `P` leads to.
pub trait FieldType<P> {
    type Ty;
}

/// The type of the field of `This` that the path `P` leads to.
pub type GetFieldType<This, P> = <This as FieldType<P>>::Ty;

/// Shared access to the field that `P` names.
pub trait GetField<P>: FieldType<P> {
    /// The field's value.
    spec fn field(&self, path: P) -> Self::Ty;

    /// Borrows the field.
    fn get_field_(&self, path: P) -> (r: &Self::Ty)
        ensures
            *r == self.field(path),
    ;
}

/// Mutable access to the field that `P` names.
pub trait GetFieldMut<P>: GetField<P> + Sized {
    /// `self` with the field replaced by `value` and everything else kept.
    spec fn with_field(self, path: P, value: Self::Ty) -> Self;

    /// Reading a field that was just replaced gives the new value.
    proof fn lemma_field_of_with_field(self, path: P, value: Self::Ty)
        ensures
            self.with_field(path, value).field(path) == value,
    ;

    /// Replacing a field by its own value changes nothing.
    proof fn lemma_with_own_field(self, path: P)
        ensures
            self.with_field(path, self.field(path)) == self,
    ;

    /// Of two replacements of one field only the second one shows.
    proof fn lemma_with_field_twice(self, path: P, first: Self::Ty, second: Self::Ty)
        ensures
            self.with_field(path, first).with_field(path, second) == self.with_field(path, second),
    ;

    /// Borrows the field mutably: what is written through the result
    /// replaces the field, and nothing else in `self` changes.
    fn get_field_mut_(&mut self, path: P) -> (r: &mut Self::Ty)
        ensures
            *r == old(self).field(path),
            *final(self) == old(self).with_field(path, *final(r)),
    ;
}

/// Access to the field that `P` names by value.
pub trait IntoField<P>: GetField<P> + Sized {
    /// Whether `value` may be what `self` turns into. For a type that owns
    /// the field this holds of the field's value and of nothing else.
    spec fn yields(self, path: P, value: Self::Ty) -> bool;

    /// Turns `self` into the field.
    fn into_field_(self, path: P) -> (r: Self::Ty)
        ensures
            self.yields(path, r),
    ;
}

/// Asks an enum whether it is in the variant that `V` names.
pub trait IsVariant<V> {
    /// Whether `self` is in the variant.
    spec fn is_variant_spec(&self, name: V) -> bool;

    /// Whether `self` is in the variant.
    fn is_variant_(&self, name: V) -> (r: bool)
        ensures
            r == self.is_variant_spec(name),
    ;
}

/// Shared access to the field `F` of the variant `V`.
pub trait GetVariantField<V, F>: FieldType<VariantField<V, F>> + IsVariant<V> {
    /// The field's value, `None` where `self` is in another variant.
    spec fn vfield(&self, variant: V, field: F) -> Option<Self::Ty>;

    /// The field is there exactly when the enum is in its variant.
    proof fn lemma_vfield_is_variant(&self, variant: V, field: F)
        ensures
            self.vfield(variant, field) is Some <==> self.is_variant_spec(variant),
    ;

    /// Borrows the field, if `self` is in the variant.
    fn get_vfield_(&self, variant: V, field: F) -> (r: Option<&Self::Ty>)
        ensures
            match r {
                Some(x) => self.vfield(variant, field) == Some(*x),
                None => self.vfield(variant, field) is None,
            },
    ;
}

/// Mutable access to the field `F` of the variant `V`.
pub trait GetVariantFieldMut<V, F>: GetVariantField<V, F> + Sized {
    /// `self` with the field replaced by `value`; `self` unchanged where it
    /// is in another variant.
    spec fn with_vfield(self, variant: V, field: F, value: Self::Ty) -> Self;

    /// Reading a field that was just replaced gives the new value.
    proof fn lemma_vfield_of_with_vfield(self, variant: V, field: F, value: Self::Ty)
        requires
            self.vfield(variant, field) is Some,
        ensures
            self.with_vfield(variant, field, value).vfield(variant, field) == Some(value),
    ;

    /// Replacing a field by its own value changes nothing, and in another
    /// variant no replacement changes anything.
    proof fn lemma_with_own_vfield(self, variant: V, field: F, value: Self::Ty)
        requires
            self.vfield(variant, field) is Some ==> self.vfield(variant, field) == Some(value),
        ensures
            self.with_vfield(variant, field, value) == self,
    ;

    /// Borrows the field mutably, if `self` is in the variant. What is written
    /// through the result replaces the field, and nothing else changes.
    fn get_vfield_mut_(&mut self, variant: V, field: F) -> (r: Option<&mut Self::Ty>)
        ensures
            match r {
                Some(m) => old(self).vfield(variant, field) == Some(*m) && *final(self) == old(
                    self,
                ).with_vfield(variant, field, *final(m)),
                None => old(self).vfield(variant, field) is None && *final(self) == *old(self),
            },
    ;
}

/// Access to the field `F` of the variant `V` by value.
pub trait IntoVariantField<V, F>: GetVariantField<V, F> + Sized {
    /// Whether `found` may be what `self` turns into. For a type that owns
    /// the field this holds of the field's value and of nothing else.
    spec fn vyields(self, variant: V, field: F, found: Option<Self::Ty>) -> bool;

    /// Turns `self` into the field, if it is in the variant.
    fn into_vfield_(self, variant: V, field: F) -> (r: Option<Self::Ty>)
        ensures
            self.vyields(variant, field, r),
            r is Some <==> self.is_variant_spec(variant),
    ;
}

/// Builds a value out of another one that has the same fields.
pub trait FromStructural<F>: Sized {
    /// Whether `made` may be what is built from `from`.
    spec fn built_from(from: F, made: Self) -> bool;

    /// Builds the value.
    fn from_structural(from: F) -> (r: Self)
        ensures
            Self::built_from(from, r),
    ;
}

} // verus!
