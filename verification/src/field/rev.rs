//! Access seen from the side of the path: a path knows how to reach into a
//! value, whatever lies on the way.

use crate::field::errors::{CombinedErrs, FailedAccess, InfallibleAccess, IsFieldErr};
use crate::field::{
    GetField, GetFieldMut, GetVariantField, GetVariantFieldMut, IntoField, IntoVariantField,
};
use crate::path::{FieldPathSet, NestedFieldPath, NestedFieldPathSet, TStr, VariantField};
use vstd::prelude::*;

verus! {

/// A path that can borrow what it leads to inside a `This`.
pub trait RevGetField<'a, This: 'a>: Sized {
    /// The type of what the path leads to.
    type Ty: 'a;

    /// Whether the access can fail.
    type Err: IsFieldErr;

    /// What the path leads to inside `this`, `None` where an enum on the way is
    /// in another variant.
    spec fn rev_field(self, this: &'a This) -> Option<&'a Self::Ty>;

    /// Borrows what the path leads to.
    fn rev_get_field(self, this: &'a This) -> (r: Option<&'a Self::Ty>)
        ensures
            r == self.rev_field(this),
            Self::Err::infallible() ==> r is Some,
    ;
}

/// A path that can borrow what it leads to mutably.
pub trait RevGetFieldMut<'a, This: 'a>: RevGetField<'a, This> {
    /// `this` with what the path leads to replaced by `value`; `this`
    /// unchanged where the path leads nowhere.
    spec fn rev_with_field(self, this: This, value: Self::Ty) -> This;

    /// Reading what was just replaced gives the new value.
    proof fn lemma_rev_field_of_with_field(self, this: This, value: Self::Ty)
        requires
            self.rev_field(&this) is Some,
        ensures
            self.rev_field(&self.rev_with_field(this, value)) == Some(&value),
    ;

    /// Replacing what the path leads to by itself changes nothing, and where
    /// the path leads nowhere no replacement changes anything.
    proof fn lemma_rev_with_own_field(self, this: This, value: Self::Ty)
        requires
            self.rev_field(&this) is Some ==> self.rev_field(&this) == Some(&value),
        ensures
            self.rev_with_field(this, value) == this,
    ;

    /// Borrows what the path leads to mutably. What is written through the
    /// result replaces it, and nothing else in `this` changes.
    fn rev_get_field_mut(self, this: &'a mut This) -> (r: Option<&'a mut Self::Ty>)
        ensures
            Self::Err::infallible() ==> r is Some,
            match r {
                Some(m) => self.rev_field(&*old(this)) == Some(&*m) && *final(this)
                    == self.rev_with_field(*old(this), *final(m)),
                None => self.rev_field(&*old(this)) is None && *final(this) == *old(this),
            },
    ;
}

/// A path that can turn a `This` into what it leads to.
pub trait RevIntoField<'a, This: 'a>: RevGetField<'a, This> {
    /// Whether `found` may be what `this` turns into.
    spec fn rev_yields(self, this: This, found: Option<Self::Ty>) -> bool;

    /// Turns `this` into what the path leads to.
    fn rev_into_field(self, this: This) -> (r: Option<Self::Ty>)
        ensures
            self.rev_yields(this, r),
            Self::Err::infallible() ==> r is Some,
    ;
}

impl<'a, This: 'a, T> RevGetField<'a, This> for TStr<T> where
    This: GetField<TStr<T>>,
    This::Ty: 'a,
 {
    type Ty = This::Ty;

    type Err = InfallibleAccess;

    open spec fn rev_field(self, this: &'a This) -> Option<&'a This::Ty> {
        Some(&this.field(self))
    }

    fn rev_get_field(self, this: &'a This) -> (r: Option<&'a This::Ty>) {
        Some(this.get_field_(self))
    }
}

impl<'a, This: 'a, T> RevGetFieldMut<'a, This> for TStr<T> where
    This: GetFieldMut<TStr<T>>,
    This::Ty: 'a,
 {
    open spec fn rev_with_field(self, this: This, value: This::Ty) -> This {
        this.with_field(self, value)
    }

    proof fn lemma_rev_field_of_with_field(self, this: This, value: This::Ty) {
        this.lemma_field_of_with_field(self, value);
    }

    proof fn lemma_rev_with_own_field(self, this: This, value: This::Ty) {
        this.lemma_with_own_field(self);
    }

    fn rev_get_field_mut(self, this: &'a mut This) -> (r: Option<&'a mut This::Ty>) {
        Some(this.get_field_mut_(self))
    }
}

impl<'a, This: 'a, T> RevIntoField<'a, This> for TStr<T> where
    This: IntoField<TStr<T>>,
    This::Ty: 'a,
 {
    open spec fn rev_yields(self, this: This, found: Option<This::Ty>) -> bool {
        found is Some && this.yields(self, found->0)
    }

    fn rev_into_field(self, this: This) -> (r: Option<This::Ty>) {
        Some(this.into_field_(self))
    }
}

impl<'a, This: 'a, P0, P1> RevGetField<'a, This> for NestedFieldPath<(P0, P1)> where
    P0: RevGetField<'a, This>,
    P1: RevGetField<'a, P0::Ty>,
    P0::Err: CombinedErrs<P1::Err>,
 {
    type Ty = P1::Ty;

    type Err = <P0::Err as CombinedErrs<P1::Err>>::Combined;

    open spec fn rev_field(self, this: &'a This) -> Option<&'a P1::Ty> {
        match self.list.0.rev_field(this) {
            Some(mid) => self.list.1.rev_field(mid),
            None => None,
        }
    }

    fn rev_get_field(self, this: &'a This) -> (r: Option<&'a P1::Ty>) {
        proof {
            <P0::Err as CombinedErrs<P1::Err>>::lemma_combined();
        }
        match self.list.0.rev_get_field(this) {
            Some(mid) => self.list.1.rev_get_field(mid),
            None => None,
        }
    }
}

impl<'a, This: 'a, P0, P1> RevGetFieldMut<'a, This> for NestedFieldPath<(P0, P1)> where
    P0: RevGetFieldMut<'a, This>,
    P1: RevGetFieldMut<'a, P0::Ty>,
    P0::Err: CombinedErrs<P1::Err>,
 {
    open spec fn rev_with_field(self, this: This, value: P1::Ty) -> This {
        match self.list.0.rev_field(&this) {
            Some(mid) => self.list.0.rev_with_field(
                this,
                self.list.1.rev_with_field(*mid, value),
            ),
            None => this,
        }
    }

    proof fn lemma_rev_field_of_with_field(self, this: This, value: P1::Ty) {
        let mid = *self.list.0.rev_field(&this)->0;
        self.list.1.lemma_rev_field_of_with_field(mid, value);
        self.list.0.lemma_rev_field_of_with_field(this, self.list.1.rev_with_field(mid, value));
    }

    proof fn lemma_rev_with_own_field(self, this: This, value: P1::Ty) {
        if self.list.0.rev_field(&this) is Some {
            let mid = *self.list.0.rev_field(&this)->0;
            self.list.1.lemma_rev_with_own_field(mid, value);
            self.list.0.lemma_rev_with_own_field(this, mid);
        }
    }

    fn rev_get_field_mut(self, this: &'a mut This) -> (r: Option<&'a mut P1::Ty>) {
        proof {
            <P0::Err as CombinedErrs<P1::Err>>::lemma_combined();
            if self.list.0.rev_field(&*this) is Some {
                let mid = *self.list.0.rev_field(&*this)->0;
                self.list.0.lemma_rev_with_own_field(*this, mid);
            }
        }
        match self.list.0.rev_get_field_mut(this) {
            Some(mid) => self.list.1.rev_get_field_mut(mid),
            None => None,
        }
    }
}

impl<'a, This: 'a, P0, P1> RevIntoField<'a, This> for NestedFieldPath<(P0, P1)> where
    P0: RevIntoField<'a, This>,
    P1: RevIntoField<'a, P0::Ty>,
    P0::Err: CombinedErrs<P1::Err>,
 {
    open spec fn rev_yields(self, this: This, found: Option<P1::Ty>) -> bool {
        ||| exists|mid: P0::Ty| #[trigger]
                self.list.0.rev_yields(this, Some(mid)) && self.list.1.rev_yields(mid, found)
        ||| self.list.0.rev_yields(this, None) && found is None
    }

    fn rev_into_field(self, this: This) -> (r: Option<P1::Ty>) {
        proof {
            <P0::Err as CombinedErrs<P1::Err>>::lemma_combined();
        }
        match self.list.0.rev_into_field(this) {
            Some(mid) => self.list.1.rev_into_field(mid),
            None => None,
        }
    }
}

/// The path of three steps as the first step and then the other two.
pub open spec fn nested3<P0, P1, P2>(path: NestedFieldPath<(P0, P1, P2)>) -> NestedFieldPath<
    (P0, NestedFieldPath<(P1, P2)>),
> {
    NestedFieldPath { list: (path.list.0, NestedFieldPath { list: (path.list.1, path.list.2) }) }
}

fn split3<P0, P1, P2>(path: NestedFieldPath<(P0, P1, P2)>) -> (r: NestedFieldPath<
    (P0, NestedFieldPath<(P1, P2)>),
>)
    ensures
        r == nested3(path),
{
    NestedFieldPath { list: (path.list.0, NestedFieldPath { list: (path.list.1, path.list.2) }) }
}

impl<'a, This: 'a, P0, P1, P2> RevGetField<'a, This> for NestedFieldPath<(P0, P1, P2)> where
    P0: RevGetField<'a, This>,
    P1: RevGetField<'a, P0::Ty>,
    P2: RevGetField<'a, P1::Ty>,
    P1::Err: CombinedErrs<P2::Err>,
    P0::Err: CombinedErrs<<P1::Err as CombinedErrs<P2::Err>>::Combined>,
 {
    type Ty = P2::Ty;

    type Err = <P0::Err as CombinedErrs<<P1::Err as CombinedErrs<P2::Err>>::Combined>>::Combined;

    open spec fn rev_field(self, this: &'a This) -> Option<&'a P2::Ty> {
        nested3(self).rev_field(this)
    }

    fn rev_get_field(self, this: &'a This) -> (r: Option<&'a P2::Ty>) {
        split3(self).rev_get_field(this)
    }
}

impl<'a, This: 'a, P0, P1, P2> RevGetFieldMut<'a, This> for NestedFieldPath<(P0, P1, P2)> where
    P0: RevGetFieldMut<'a, This>,
    P1: RevGetFieldMut<'a, P0::Ty>,
    P2: RevGetFieldMut<'a, P1::Ty>,
    P1::Err: CombinedErrs<P2::Err>,
    P0::Err: CombinedErrs<<P1::Err as CombinedErrs<P2::Err>>::Combined>,
 {
    open spec fn rev_with_field(self, this: This, value: P2::Ty) -> This {
        nested3(self).rev_with_field(this, value)
    }

    proof fn lemma_rev_field_of_with_field(self, this: This, value: P2::Ty) {
        nested3(self).lemma_rev_field_of_with_field(this, value);
    }

    proof fn lemma_rev_with_own_field(self, this: This, value: P2::Ty) {
        nested3(self).lemma_rev_with_own_field(this, value);
    }

    fn rev_get_field_mut(self, this: &'a mut This) -> (r: Option<&'a mut P2::Ty>) {
        proof {
            <P1::Err as CombinedErrs<P2::Err>>::lemma_combined();
            <P0::Err as CombinedErrs<
                <P1::Err as CombinedErrs<P2::Err>>::Combined,
            >>::lemma_combined();
            if self.list.0.rev_field(&*this) is Some {
                let mid = *self.list.0.rev_field(&*this)->0;
                self.list.0.lemma_rev_with_own_field(*this, mid);
                if self.list.1.rev_field(&mid) is Some {
                    let inner = *self.list.1.rev_field(&mid)->0;
                    self.list.1.lemma_rev_with_own_field(mid, inner);
                }
            }
        }
        match self.list.0.rev_get_field_mut(this) {
            Some(mid) => match self.list.1.rev_get_field_mut(mid) {
                Some(inner) => self.list.2.rev_get_field_mut(inner),
                None => None,
            },
            None => None,
        }
    }
}

impl<'a, This: 'a, P0, P1, P2> RevIntoField<'a, This> for NestedFieldPath<(P0, P1, P2)> where
    P0: RevIntoField<'a, This>,
    P1: RevIntoField<'a, P0::Ty>,
    P2: RevIntoField<'a, P1::Ty>,
    P1::Err: CombinedErrs<P2::Err>,
    P0::Err: CombinedErrs<<P1::Err as CombinedErrs<P2::Err>>::Combined>,
 {
    open spec fn rev_yields(self, this: This, found: Option<P2::Ty>) -> bool {
        nested3(self).rev_yields(this, found)
    }

    fn rev_into_field(self, this: This) -> (r: Option<P2::Ty>) {
        split3(self).rev_into_field(this)
    }
}

/// The path of four steps as the first step and then the other three.
pub open spec fn nested4<P0, P1, P2, P3>(
    path: NestedFieldPath<(P0, P1, P2, P3)>,
) -> NestedFieldPath<(P0, NestedFieldPath<(P1, P2, P3)>)> {
    NestedFieldPath {
        list: (
            path.list.0,
            NestedFieldPath { list: (path.list.1, path.list.2, path.list.3) },
        ),
    }
}

fn split4<P0, P1, P2, P3>(path: NestedFieldPath<(P0, P1, P2, P3)>) -> (r: NestedFieldPath<
    (P0, NestedFieldPath<(P1, P2, P3)>),
>)
    ensures
        r == nested4(path),
{
    NestedFieldPath {
        list: (
            path.list.0,
            NestedFieldPath { list: (path.list.1, path.list.2, path.list.3) },
        ),
    }
}

impl<'a, This: 'a, P0, P1, P2, P3> RevGetField<'a, This> for NestedFieldPath<
    (P0, P1, P2, P3),
> where
    P0: RevGetField<'a, This>,
    P1: RevGetField<'a, P0::Ty>,
    P2: RevGetField<'a, P1::Ty>,
    P3: RevGetField<'a, P2::Ty>,
    P2::Err: CombinedErrs<P3::Err>,
    P1::Err: CombinedErrs<<P2::Err as CombinedErrs<P3::Err>>::Combined>,
    P0::Err: CombinedErrs<
        <P1::Err as CombinedErrs<<P2::Err as CombinedErrs<P3::Err>>::Combined>>::Combined,
    >,
 {
    type Ty = P3::Ty;

    type Err = <P0::Err as CombinedErrs<
        <P1::Err as CombinedErrs<<P2::Err as CombinedErrs<P3::Err>>::Combined>>::Combined,
    >>::Combined;

    open spec fn rev_field(self, this: &'a This) -> Option<&'a P3::Ty> {
        nested4(self).rev_field(this)
    }

    fn rev_get_field(self, this: &'a This) -> (r: Option<&'a P3::Ty>) {
        split4(self).rev_get_field(this)
    }
}

impl<'a, This: 'a, P0, P1, P2, P3> RevGetFieldMut<'a, This> for NestedFieldPath<
    (P0, P1, P2, P3),
> where
    P0: RevGetFieldMut<'a, This>,
    P1: RevGetFieldMut<'a, P0::Ty>,
    P2: RevGetFieldMut<'a, P1::Ty>,
    P3: RevGetFieldMut<'a, P2::Ty>,
    P2::Err: CombinedErrs<P3::Err>,
    P1::Err: CombinedErrs<<P2::Err as CombinedErrs<P3::Err>>::Combined>,
    P0::Err: CombinedErrs<
        <P1::Err as CombinedErrs<<P2::Err as CombinedErrs<P3::Err>>::Combined>>::Combined,
    >,
 {
    open spec fn rev_with_field(self, this: This, value: P3::Ty) -> This {
        nested4(self).rev_with_field(this, value)
    }

    proof fn lemma_rev_field_of_with_field(self, this: This, value: P3::Ty) {
        nested4(self).lemma_rev_field_of_with_field(this, value);
    }

    proof fn lemma_rev_with_own_field(self, this: This, value: P3::Ty) {
        nested4(self).lemma_rev_with_own_field(this, value);
    }

    fn rev_get_field_mut(self, this: &'a mut This) -> (r: Option<&'a mut P3::Ty>) {
        proof {
            <P2::Err as CombinedErrs<P3::Err>>::lemma_combined();
            <P1::Err as CombinedErrs<
                <P2::Err as CombinedErrs<P3::Err>>::Combined,
            >>::lemma_combined();
            <P0::Err as CombinedErrs<
                <P1::Err as CombinedErrs<<P2::Err as CombinedErrs<P3::Err>>::Combined>>::Combined,
            >>::lemma_combined();
            if self.list.0.rev_field(&*this) is Some {
                let mid = *self.list.0.rev_field(&*this)->0;
                self.list.0.lemma_rev_with_own_field(*this, mid);
                if self.list.1.rev_field(&mid) is Some {
                    let inner = *self.list.1.rev_field(&mid)->0;
                    self.list.1.lemma_rev_with_own_field(mid, inner);
                    if self.list.2.rev_field(&inner) is Some {
                        let last = *self.list.2.rev_field(&inner)->0;
                        self.list.2.lemma_rev_with_own_field(inner, last);
                    }
                }
            }
        }
        match self.list.0.rev_get_field_mut(this) {
            Some(mid) => match self.list.1.rev_get_field_mut(mid) {
                Some(inner) => match self.list.2.rev_get_field_mut(inner) {
                    Some(last) => self.list.3.rev_get_field_mut(last),
                    None => None,
                },
                None => None,
            },
            None => None,
        }
    }
}

impl<'a, This: 'a, P0, P1, P2, P3> RevIntoField<'a, This> for NestedFieldPath<
    (P0, P1, P2, P3),
> where
    P0: RevIntoField<'a, This>,
    P1: RevIntoField<'a, P0::Ty>,
    P2: RevIntoField<'a, P1::Ty>,
    P3: RevIntoField<'a, P2::Ty>,
    P2::Err: CombinedErrs<P3::Err>,
    P1::Err: CombinedErrs<<P2::Err as CombinedErrs<P3::Err>>::Combined>,
    P0::Err: CombinedErrs<
        <P1::Err as CombinedErrs<<P2::Err as CombinedErrs<P3::Err>>::Combined>>::Combined,
    >,
 {
    open spec fn rev_yields(self, this: This, found: Option<P3::Ty>) -> bool {
        nested4(self).rev_yields(this, found)
    }

    fn rev_into_field(self, this: This) -> (r: Option<P3::Ty>) {
        split4(self).rev_into_field(this)
    }
}

impl<'a, This: 'a, V, F> RevGetField<'a, This> for VariantField<V, F> where
    This: GetVariantField<V, F>,
    This::Ty: 'a,
 {
    type Ty = This::Ty;

    type Err = FailedAccess;

    open spec fn rev_field(self, this: &'a This) -> Option<&'a This::Ty> {
        match this.vfield(self.variant, self.field) {
            Some(v) => Some(&v),
            None => None,
        }
    }

    fn rev_get_field(self, this: &'a This) -> (r: Option<&'a This::Ty>) {
        this.get_vfield_(self.variant, self.field)
    }
}

impl<'a, This: 'a, V, F> RevGetFieldMut<'a, This> for VariantField<V, F> where
    This: GetVariantFieldMut<V, F>,
    This::Ty: 'a,
 {
    open spec fn rev_with_field(self, this: This, value: This::Ty) -> This {
        this.with_vfield(self.variant, self.field, value)
    }

    proof fn lemma_rev_field_of_with_field(self, this: This, value: This::Ty) {
        this.lemma_vfield_of_with_vfield(self.variant, self.field, value);
    }

    proof fn lemma_rev_with_own_field(self, this: This, value: This::Ty) {
        this.lemma_with_own_vfield(self.variant, self.field, value);
    }

    fn rev_get_field_mut(self, this: &'a mut This) -> (r: Option<&'a mut This::Ty>) {
        this.get_vfield_mut_(self.variant, self.field)
    }
}

impl<'a, This: 'a, V, F> RevIntoField<'a, This> for VariantField<V, F> where
    This: IntoVariantField<V, F>,
    This::Ty: 'a,
 {
    open spec fn rev_yields(self, this: This, found: Option<This::Ty>) -> bool {
        &&& this.vyields(self.variant, self.field, found)
        &&& found is Some <==> this.is_variant_spec(self.variant)
    }

    fn rev_into_field(self, this: This) -> (r: Option<This::Ty>) {
        this.into_vfield_(self.variant, self.field)
    }
}

impl<'a, This: 'a, P, U> RevGetField<'a, This> for FieldPathSet<(P,), U> where
    P: RevGetField<'a, This>,
 {
    type Ty = P::Ty;

    type Err = P::Err;

    open spec fn rev_field(self, this: &'a This) -> Option<&'a P::Ty> {
        self.paths.0.rev_field(this)
    }

    fn rev_get_field(self, this: &'a This) -> (r: Option<&'a P::Ty>) {
        self.paths.0.rev_get_field(this)
    }
}

impl<'a, This: 'a, P, U> RevGetFieldMut<'a, This> for FieldPathSet<(P,), U> where
    P: RevGetFieldMut<'a, This>,
 {
    open spec fn rev_with_field(self, this: This, value: P::Ty) -> This {
        self.paths.0.rev_with_field(this, value)
    }

    proof fn lemma_rev_field_of_with_field(self, this: This, value: P::Ty) {
        self.paths.0.lemma_rev_field_of_with_field(this, value);
    }

    proof fn lemma_rev_with_own_field(self, this: This, value: P::Ty) {
        self.paths.0.lemma_rev_with_own_field(this, value);
    }

    fn rev_get_field_mut(self, this: &'a mut This) -> (r: Option<&'a mut P::Ty>) {
        self.paths.0.rev_get_field_mut(this)
    }
}

impl<'a, This: 'a, P, U> RevIntoField<'a, This> for FieldPathSet<(P,), U> where
    P: RevIntoField<'a, This>,
 {
    open spec fn rev_yields(self, this: This, found: Option<P::Ty>) -> bool {
        self.paths.0.rev_yields(this, found)
    }

    fn rev_into_field(self, this: This) -> (r: Option<P::Ty>) {
        self.paths.0.rev_into_field(this)
    }
}

/// The one path of a set behind a common start, as a path of two steps.
pub open spec fn nested_one<F, P, U>(set: NestedFieldPathSet<F, (P,), U>) -> NestedFieldPath<
    (F, P),
> {
    NestedFieldPath { list: (set.nested, set.set.paths.0) }
}

impl<'a, This: 'a, F, P, U> RevGetField<'a, This> for NestedFieldPathSet<F, (P,), U> where
    F: RevGetField<'a, This>,
    P: RevGetField<'a, F::Ty>,
    F::Err: CombinedErrs<P::Err>,
 {
    type Ty = P::Ty;

    type Err = <F::Err as CombinedErrs<P::Err>>::Combined;

    open spec fn rev_field(self, this: &'a This) -> Option<&'a P::Ty> {
        nested_one(self).rev_field(this)
    }

    fn rev_get_field(self, this: &'a This) -> (r: Option<&'a P::Ty>) {
        proof {
            <F::Err as CombinedErrs<P::Err>>::lemma_combined();
        }
        match self.nested.rev_get_field(this) {
            Some(mid) => self.set.paths.0.rev_get_field(mid),
            None => None,
        }
    }
}

impl<'a, This: 'a, F, P, U> RevGetFieldMut<'a, This> for NestedFieldPathSet<F, (P,), U> where
    F: RevGetFieldMut<'a, This>,
    P: RevGetFieldMut<'a, F::Ty>,
    F::Err: CombinedErrs<P::Err>,
 {
    open spec fn rev_with_field(self, this: This, value: P::Ty) -> This {
        nested_one(self).rev_with_field(this, value)
    }

    proof fn lemma_rev_field_of_with_field(self, this: This, value: P::Ty) {
        nested_one(self).lemma_rev_field_of_with_field(this, value);
    }

    proof fn lemma_rev_with_own_field(self, this: This, value: P::Ty) {
        nested_one(self).lemma_rev_with_own_field(this, value);
    }

    fn rev_get_field_mut(self, this: &'a mut This) -> (r: Option<&'a mut P::Ty>) {
        proof {
            <F::Err as CombinedErrs<P::Err>>::lemma_combined();
            if self.nested.rev_field(&*this) is Some {
                let mid = *self.nested.rev_field(&*this)->0;
                self.nested.lemma_rev_with_own_field(*this, mid);
            }
        }
        match self.nested.rev_get_field_mut(this) {
            Some(mid) => self.set.paths.0.rev_get_field_mut(mid),
            None => None,
        }
    }
}

impl<'a, This: 'a, F, P, U> RevIntoField<'a, This> for NestedFieldPathSet<F, (P,), U> where
    F: RevIntoField<'a, This>,
    P: RevIntoField<'a, F::Ty>,
    F::Err: CombinedErrs<P::Err>,
 {
    open spec fn rev_yields(self, this: This, found: Option<P::Ty>) -> bool {
        nested_one(self).rev_yields(this, found)
    }

    fn rev_into_field(self, this: This) -> (r: Option<P::Ty>) {
        proof {
            <F::Err as CombinedErrs<P::Err>>::lemma_combined();
        }
        match self.nested.rev_into_field(this) {
            Some(mid) => self.set.paths.0.rev_into_field(mid),
            None => None,
        }
    }
}

} // verus!
