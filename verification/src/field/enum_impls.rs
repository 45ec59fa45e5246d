//! `Option` and `Result` as enums: the variants `Some`, `None`, `Ok` and
//! `Err`, and the field `0` of those that hold a value.

use crate::field::{
    FieldType, GetVariantField, GetVariantFieldMut, IntoVariantField, IsVariant,
};
use crate::path::names::{ErrStr, NoneStr, OkStr, SomeStr, I0};
use crate::path::VariantField;
use vstd::prelude::*;

verus! {

impl<T> IsVariant<SomeStr> for Option<T> {
    open spec fn is_variant_spec(&self, name: SomeStr) -> bool {
        *self is Some
    }

    fn is_variant_(&self, name: SomeStr) -> (r: bool) {
        self.is_some()
    }
}

impl<T> IsVariant<NoneStr> for Option<T> {
    open spec fn is_variant_spec(&self, name: NoneStr) -> bool {
        *self is None
    }

    fn is_variant_(&self, name: NoneStr) -> (r: bool) {
        self.is_none()
    }
}

impl<T> FieldType<VariantField<SomeStr, I0>> for Option<T> {
    type Ty = T;
}

impl<T> GetVariantField<SomeStr, I0> for Option<T> {
    open spec fn vfield(&self, variant: SomeStr, field: I0) -> Option<T> {
        match *self {
            Some(x) => Some(x),
            _ => None,
        }
    }

    proof fn lemma_vfield_is_variant(&self, variant: SomeStr, field: I0) {
    }

    fn get_vfield_(&self, variant: SomeStr, field: I0) -> (r: Option<&T>) {
        match self {
            Some(x) => Some(x),
            _ => None,
        }
    }
}

impl<T> GetVariantFieldMut<SomeStr, I0> for Option<T> {
    open spec fn with_vfield(self, variant: SomeStr, field: I0, value: T) -> Self {
        match self {
            Some(_) => Some(value),
            _ => self,
        }
    }

    proof fn lemma_vfield_of_with_vfield(self, variant: SomeStr, field: I0, value: T) {
    }

    proof fn lemma_with_own_vfield(self, variant: SomeStr, field: I0, value: T) {
    }

    fn get_vfield_mut_(&mut self, variant: SomeStr, field: I0) -> (r: Option<&mut T>) {
        match self {
            Some(x) => Some(x),
            _ => None,
        }
    }
}

impl<T> IntoVariantField<SomeStr, I0> for Option<T> {
    open spec fn vyields(self, variant: SomeStr, field: I0, found: Option<T>) -> bool {
        found == self.vfield(variant, field)
    }

    fn into_vfield_(self, variant: SomeStr, field: I0) -> (r: Option<T>) {
        match self {
            Some(x) => Some(x),
            _ => None,
        }
    }
}

impl<T, E> IsVariant<OkStr> for Result<T, E> {
    open spec fn is_variant_spec(&self, name: OkStr) -> bool {
        *self is Ok
    }

    fn is_variant_(&self, name: OkStr) -> (r: bool) {
        self.is_ok()
    }
}

impl<T, E> IsVariant<ErrStr> for Result<T, E> {
    open spec fn is_variant_spec(&self, name: ErrStr) -> bool {
        *self is Err
    }

    fn is_variant_(&self, name: ErrStr) -> (r: bool) {
        self.is_err()
    }
}

impl<T, E> FieldType<VariantField<OkStr, I0>> for Result<T, E> {
    type Ty = T;
}

impl<T, E> GetVariantField<OkStr, I0> for Result<T, E> {
    open spec fn vfield(&self, variant: OkStr, field: I0) -> Option<T> {
        match *self {
            Ok(x) => Some(x),
            _ => None,
        }
    }

    proof fn lemma_vfield_is_variant(&self, variant: OkStr, field: I0) {
    }

    fn get_vfield_(&self, variant: OkStr, field: I0) -> (r: Option<&T>) {
        match self {
            Ok(x) => Some(x),
            _ => None,
        }
    }
}

impl<T, E> GetVariantFieldMut<OkStr, I0> for Result<T, E> {
    open spec fn with_vfield(self, variant: OkStr, field: I0, value: T) -> Self {
        match self {
            Ok(_) => Ok(value),
            _ => self,
        }
    }

    proof fn lemma_vfield_of_with_vfield(self, variant: OkStr, field: I0, value: T) {
    }

    proof fn lemma_with_own_vfield(self, variant: OkStr, field: I0, value: T) {
    }

    fn get_vfield_mut_(&mut self, variant: OkStr, field: I0) -> (r: Option<&mut T>) {
        match self {
            Ok(x) => Some(x),
            _ => None,
        }
    }
}

impl<T, E> IntoVariantField<OkStr, I0> for Result<T, E> {
    open spec fn vyields(self, variant: OkStr, field: I0, found: Option<T>) -> bool {
        found == self.vfield(variant, field)
    }

    fn into_vfield_(self, variant: OkStr, field: I0) -> (r: Option<T>) {
        match self {
            Ok(x) => Some(x),
            _ => None,
        }
    }
}

impl<T, E> FieldType<VariantField<ErrStr, I0>> for Result<T, E> {
    type Ty = E;
}

impl<T, E> GetVariantField<ErrStr, I0> for Result<T, E> {
    open spec fn vfield(&self, variant: ErrStr, field: I0) -> Option<E> {
        match *self {
            Err(x) => Some(x),
            _ => None,
        }
    }

    proof fn lemma_vfield_is_variant(&self, variant: ErrStr, field: I0) {
    }

    fn get_vfield_(&self, variant: ErrStr, field: I0) -> (r: Option<&E>) {
        match self {
            Err(x) => Some(x),
            _ => None,
        }
    }
}

impl<T, E> GetVariantFieldMut<ErrStr, I0> for Result<T, E> {
    open spec fn with_vfield(self, variant: ErrStr, field: I0, value: E) -> Self {
        match self {
            Err(_) => Err(value),
            _ => self,
        }
    }

    proof fn lemma_vfield_of_with_vfield(self, variant: ErrStr, field: I0, value: E) {
    }

    proof fn lemma_with_own_vfield(self, variant: ErrStr, field: I0, value: E) {
    }

    fn get_vfield_mut_(&mut self, variant: ErrStr, field: I0) -> (r: Option<&mut E>) {
        match self {
            Err(x) => Some(x),
            _ => None,
        }
    }
}

impl<T, E> IntoVariantField<ErrStr, I0> for Result<T, E> {
    open spec fn vyields(self, variant: ErrStr, field: I0, found: Option<E>) -> bool {
        found == self.vfield(variant, field)
    }

    fn into_vfield_(self, variant: ErrStr, field: I0) -> (r: Option<E>) {
        match self {
            Err(x) => Some(x),
            _ => None,
        }
    }
}

} // verus!
