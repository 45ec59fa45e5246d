//! An enum with accessors, to try the library on.

use crate::field::{
    FieldType, GetVariantField, GetVariantFieldMut, IntoVariantField, IsVariant,
};
use crate::path::names::{I0, I1};
use crate::path::{TStr, VariantField};
use vstd::prelude::*;

verus! {

/// Stands for `Foo`.
pub struct FooName;

/// Stands for `Bar`.
pub struct BarName;

/// Stands for `Boom`.
pub struct BoomName;

/// Stands for `a`.
pub struct AName;

/// Stands for `b`.
pub struct BName;

/// The name `Foo`.
pub type FooStr = TStr<FooName>;

/// The name `Bar`.
pub type BarStr = TStr<BarName>;

/// The name `Boom`.
pub type BoomStr = TStr<BoomName>;

/// The name `a`.
pub type AStr = TStr<AName>;

/// The name `b`.
pub type BStr = TStr<BName>;

/// An enum with a variant of two positions, one of one position, and one
/// with named fields.
#[derive(Debug, Clone, Copy, PartialEq, Eq)]
pub enum Variants {
    Foo(u32, u64),
    Bar(u8),
    Boom { a: u32, b: u64 },
}

impl IsVariant<FooStr> for Variants {
    open spec fn is_variant_spec(&self, name: FooStr) -> bool {
        *self is Foo
    }

    fn is_variant_(&self, name: FooStr) -> (r: bool) {
        match self {
            Variants::Foo(..) => true,
            _ => false,
        }
    }
}

impl IsVariant<BarStr> for Variants {
    open spec fn is_variant_spec(&self, name: BarStr) -> bool {
        *self is Bar
    }

    fn is_variant_(&self, name: BarStr) -> (r: bool) {
        match self {
            Variants::Bar(..) => true,
            _ => false,
        }
    }
}

impl IsVariant<BoomStr> for Variants {
    open spec fn is_variant_spec(&self, name: BoomStr) -> bool {
        *self is Boom
    }

    fn is_variant_(&self, name: BoomStr) -> (r: bool) {
        match self {
            Variants::Boom { .. } => true,
            _ => false,
        }
    }
}

impl FieldType<VariantField<FooStr, I0>> for Variants {
    type Ty = u32;
}

impl GetVariantField<FooStr, I0> for Variants {
    open spec fn vfield(&self, variant: FooStr, field: I0) -> Option<u32> {
        match *self {
            Variants::Foo(x, _) => Some(x),
            _ => None,
        }
    }

    proof fn lemma_vfield_is_variant(&self, variant: FooStr, field: I0) {
    }

    fn get_vfield_(&self, variant: FooStr, field: I0) -> (r: Option<&u32>) {
        match self {
            Variants::Foo(x, _) => Some(x),
            _ => None,
        }
    }
}

impl GetVariantFieldMut<FooStr, I0> for Variants {
    open spec fn with_vfield(self, variant: FooStr, field: I0, value: u32) -> Self {
        match self {
            Variants::Foo(_, y) => Variants::Foo(value, y),
            _ => self,
        }
    }

    proof fn lemma_vfield_of_with_vfield(self, variant: FooStr, field: I0, value: u32) {
    }

    proof fn lemma_with_own_vfield(self, variant: FooStr, field: I0, value: u32) {
    }

    fn get_vfield_mut_(&mut self, variant: FooStr, field: I0) -> (r: Option<&mut u32>) {
        match self {
            Variants::Foo(x, _) => Some(x),
            _ => None,
        }
    }
}

impl IntoVariantField<FooStr, I0> for Variants {
    open spec fn vyields(self, variant: FooStr, field: I0, found: Option<u32>) -> bool {
        found == self.vfield(variant, field)
    }

    fn into_vfield_(self, variant: FooStr, field: I0) -> (r: Option<u32>) {
        match self {
            Variants::Foo(x, _) => Some(x),
            _ => None,
        }
    }
}

impl FieldType<VariantField<FooStr, I1>> for Variants {
    type Ty = u64;
}

impl GetVariantField<FooStr, I1> for Variants {
    open spec fn vfield(&self, variant: FooStr, field: I1) -> Option<u64> {
        match *self {
            Variants::Foo(_, x) => Some(x),
            _ => None,
        }
    }

    proof fn lemma_vfield_is_variant(&self, variant: FooStr, field: I1) {
    }

    fn get_vfield_(&self, variant: FooStr, field: I1) -> (r: Option<&u64>) {
        match self {
            Variants::Foo(_, x) => Some(x),
            _ => None,
        }
    }
}

impl GetVariantFieldMut<FooStr, I1> for Variants {
    open spec fn with_vfield(self, variant: FooStr, field: I1, value: u64) -> Self {
        match self {
            Variants::Foo(y, _) => Variants::Foo(y, value),
            _ => self,
        }
    }

    proof fn lemma_vfield_of_with_vfield(self, variant: FooStr, field: I1, value: u64) {
    }

    proof fn lemma_with_own_vfield(self, variant: FooStr, field: I1, value: u64) {
    }

    fn get_vfield_mut_(&mut self, variant: FooStr, field: I1) -> (r: Option<&mut u64>) {
        match self {
            Variants::Foo(_, x) => Some(x),
            _ => None,
        }
    }
}

impl IntoVariantField<FooStr, I1> for Variants {
    open spec fn vyields(self, variant: FooStr, field: I1, found: Option<u64>) -> bool {
        found == self.vfield(variant, field)
    }

    fn into_vfield_(self, variant: FooStr, field: I1) -> (r: Option<u64>) {
        match self {
            Variants::Foo(_, x) => Some(x),
            _ => None,
        }
    }
}

impl FieldType<VariantField<BarStr, I0>> for Variants {
    type Ty = u8;
}

impl GetVariantField<BarStr, I0> for Variants {
    open spec fn vfield(&self, variant: BarStr, field: I0) -> Option<u8> {
        match *self {
            Variants::Bar(x) => Some(x),
            _ => None,
        }
    }

    proof fn lemma_vfield_is_variant(&self, variant: BarStr, field: I0) {
    }

    fn get_vfield_(&self, variant: BarStr, field: I0) -> (r: Option<&u8>) {
        match self {
            Variants::Bar(x) => Some(x),
            _ => None,
        }
    }
}

impl GetVariantFieldMut<BarStr, I0> for Variants {
    open spec fn with_vfield(self, variant: BarStr, field: I0, value: u8) -> Self {
        match self {
            Variants::Bar(_) => Variants::Bar(value),
            _ => self,
        }
    }

    proof fn lemma_vfield_of_with_vfield(self, variant: BarStr, field: I0, value: u8) {
    }

    proof fn lemma_with_own_vfield(self, variant: BarStr, field: I0, value: u8) {
    }

    fn get_vfield_mut_(&mut self, variant: BarStr, field: I0) -> (r: Option<&mut u8>) {
        match self {
            Variants::Bar(x) => Some(x),
            _ => None,
        }
    }
}

impl IntoVariantField<BarStr, I0> for Variants {
    open spec fn vyields(self, variant: BarStr, field: I0, found: Option<u8>) -> bool {
        found == self.vfield(variant, field)
    }

    fn into_vfield_(self, variant: BarStr, field: I0) -> (r: Option<u8>) {
        match self {
            Variants::Bar(x) => Some(x),
            _ => None,
        }
    }
}

impl FieldType<VariantField<BoomStr, AStr>> for Variants {
    type Ty = u32;
}

impl GetVariantField<BoomStr, AStr> for Variants {
    open spec fn vfield(&self, variant: BoomStr, field: AStr) -> Option<u32> {
        match *self {
            Variants::Boom { a: x, .. } => Some(x),
            _ => None,
        }
    }

    proof fn lemma_vfield_is_variant(&self, variant: BoomStr, field: AStr) {
    }

    fn get_vfield_(&self, variant: BoomStr, field: AStr) -> (r: Option<&u32>) {
        match self {
            Variants::Boom { a: x, .. } => Some(x),
            _ => None,
        }
    }
}

impl GetVariantFieldMut<BoomStr, AStr> for Variants {
    open spec fn with_vfield(self, variant: BoomStr, field: AStr, value: u32) -> Self {
        match self {
            Variants::Boom { a: _, b: y } => Variants::Boom { a: value, b: y },
            _ => self,
        }
    }

    proof fn lemma_vfield_of_with_vfield(self, variant: BoomStr, field: AStr, value: u32) {
    }

    proof fn lemma_with_own_vfield(self, variant: BoomStr, field: AStr, value: u32) {
    }

    fn get_vfield_mut_(&mut self, variant: BoomStr, field: AStr) -> (r: Option<&mut u32>) {
        match self {
            Variants::Boom { a: x, .. } => Some(x),
            _ => None,
        }
    }
}

impl IntoVariantField<BoomStr, AStr> for Variants {
    open spec fn vyields(self, variant: BoomStr, field: AStr, found: Option<u32>) -> bool {
        found == self.vfield(variant, field)
    }

    fn into_vfield_(self, variant: BoomStr, field: AStr) -> (r: Option<u32>) {
        match self {
            Variants::Boom { a: x, .. } => Some(x),
            _ => None,
        }
    }
}

impl FieldType<VariantField<BoomStr, BStr>> for Variants {
    type Ty = u64;
}

impl GetVariantField<BoomStr, BStr> for Variants {
    open spec fn vfield(&self, variant: BoomStr, field: BStr) -> Option<u64> {
        match *self {
            Variants::Boom { b: x, .. } => Some(x),
            _ => None,
        }
    }

    proof fn lemma_vfield_is_variant(&self, variant: BoomStr, field: BStr) {
    }

    fn get_vfield_(&self, variant: BoomStr, field: BStr) -> (r: Option<&u64>) {
        match self {
            Variants::Boom { b: x, .. } => Some(x),
            _ => None,
        }
    }
}

impl GetVariantFieldMut<BoomStr, BStr> for Variants {
    open spec fn with_vfield(self, variant: BoomStr, field: BStr, value: u64) -> Self {
        match self {
            Variants::Boom { a: y, b: _ } => Variants::Boom { a: y, b: value },
            _ => self,
        }
    }

    proof fn lemma_vfield_of_with_vfield(self, variant: BoomStr, field: BStr, value: u64) {
    }

    proof fn lemma_with_own_vfield(self, variant: BoomStr, field: BStr, value: u64) {
    }

    fn get_vfield_mut_(&mut self, variant: BoomStr, field: BStr) -> (r: Option<&mut u64>) {
        match self {
            Variants::Boom { b: x, .. } => Some(x),
            _ => None,
        }
    }
}

impl IntoVariantField<BoomStr, BStr> for Variants {
    open spec fn vyields(self, variant: BoomStr, field: BStr, found: Option<u64>) -> bool {
        found == self.vfield(variant, field)
    }

    fn into_vfield_(self, variant: BoomStr, field: BStr) -> (r: Option<u64>) {
        match self {
            Variants::Boom { b: x, .. } => Some(x),
            _ => None,
        }
    }
}

} // verus!
