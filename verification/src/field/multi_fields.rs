//! Access to several fields at once.

use crate::field::errors::NormalizeFields;
use crate::field::rev::{RevGetField, RevGetFieldMut, RevIntoField};
use crate::field::split::{
    IntoFields2, IntoFields3, IntoFields4, SplitFieldsMut2, SplitFieldsMut3, SplitFieldsMut4,
};
use crate::field::{
    FieldType, GetField, GetFieldMut, GetFieldType, GetVariantField, GetVariantFieldMut, IntoField,
    IntoVariantField,
};
use crate::path::{
    FieldPathSet, NestedFieldPath, NestedFieldPathSet, TStr, UniquePaths, VariantField,
};
use vstd::prelude::*;

verus! {

/// The final shape of what a path finds by shared access.
pub type NormalizedRef<'a, P, This> = <<P as RevGetField<'a, This>>::Err as NormalizeFields<
    &'a <P as RevGetField<'a, This>>::Ty,
>>::Output;

/// The final shape of what a path finds by mutable access.
pub type NormalizedMut<'a, P, This> = <<P as RevGetField<'a, This>>::Err as NormalizeFields<
    &'a mut <P as RevGetField<'a, This>>::Ty,
>>::Output;

/// The final shape of what a path finds by value.
pub type NormalizedValue<'a, P, This> = <<P as RevGetField<'a, This>>::Err as NormalizeFields<
    <P as RevGetField<'a, This>>::Ty,
>>::Output;

/// What `path` finds in `this`, in its final shape: a reference for a path
/// that cannot fail, an `Option` of one for a path that can.
pub open spec fn field_ref<'a, P, This>(path: P, this: &'a This) -> NormalizedRef<'a, P, This> where
    P: RevGetField<'a, This>,
    P::Err: NormalizeFields<&'a P::Ty>,
 {
    <P::Err as NormalizeFields<&'a P::Ty>>::normalized(path.rev_field(this))
}

/// Whether `found` is, in its final shape, something that `this` may turn
/// into by way of `path`.
pub open spec fn field_value_post<'a, P, This>(
    path: P,
    this: This,
    found: NormalizedValue<'a, P, This>,
) -> bool where P: RevIntoField<'a, This>, P::Err: NormalizeFields<P::Ty> {
    path.rev_yields(this, <P::Err as NormalizeFields<P::Ty>>::denormalized(found))
}

/// Borrows what `path` leads to in `this`.
pub fn get_field_ref<'a, P, This>(path: P, this: &'a This) -> (r: NormalizedRef<'a, P, This>) where
    P: RevGetField<'a, This>,
    P::Err: NormalizeFields<&'a P::Ty>,

    ensures
        r == field_ref(path, this),
{
    <P::Err as NormalizeFields<&'a P::Ty>>::normalize_fields(path.rev_get_field(this))
}

/// Borrows what `path` leads to in `this` mutably.
pub fn get_field_mut<'a, P, This>(path: P, this: &'a mut This) -> (r: NormalizedMut<
    'a,
    P,
    This,
>) where P: RevGetFieldMut<'a, This>, P::Err: NormalizeFields<&'a mut P::Ty>
    ensures
        match <P::Err as NormalizeFields<&'a mut P::Ty>>::denormalized(r) {
            Some(m) => path.rev_field(&*old(this)) == Some(&*m) && *final(this)
                == path.rev_with_field(*old(this), *final(m)),
            None => path.rev_field(&*old(this)) is None && *final(this) == *old(this),
        },
{
    <P::Err as NormalizeFields<&'a mut P::Ty>>::normalize_fields(path.rev_get_field_mut(this))
}

/// Turns `this` into what `path` leads to.
pub fn get_field_value<'a, P, This>(path: P, this: This) -> (r: NormalizedValue<
    'a,
    P,
    This,
>) where P: RevIntoField<'a, This>, P::Err: NormalizeFields<P::Ty>
    ensures
        field_value_post(path, this, r),
{
    <P::Err as NormalizeFields<P::Ty>>::normalize_fields(path.rev_into_field(this))
}

/// A path, or a set of paths, that can borrow all that it names at once.
pub trait GetMultiField<'a, This: 'a>: Sized {
    /// A tuple with one reference, or one `Option` of a reference, for each
    /// path.
    type MultiTy;

    /// What the paths find in `this`.
    spec fn multi_field(self, this: &'a This) -> Self::MultiTy;

    /// Borrows what the paths lead to.
    fn multi_get_field_(self, this: &'a This) -> (r: Self::MultiTy)
        ensures
            r == self.multi_field(this),
    ;
}

/// A path, or a set of paths that cannot overlap, that can borrow all that it
/// names mutably at once.
///
/// That the borrows hold what the paths find is stated here. What becomes of
/// `this` when something is written through them is stated by each
/// implementation, for its own `MultiTy`.
pub trait GetMultiFieldMut<'a, This: 'a>: Sized {
    /// A tuple with one mutable reference, or one `Option` of one, for each
    /// path.
    type MultiTy;

    /// Whether `lent` holds what the paths find in `before`.
    spec fn multi_lent(self, before: This, lent: Self::MultiTy) -> bool;

    /// Borrows what the paths lead to mutably.
    fn multi_get_field_mut_(self, this: &'a mut This) -> (r: Self::MultiTy)
        ensures
            self.multi_lent(*old(this), r),
    ;
}

/// A path, or a set of paths that cannot overlap, that can turn a value into
/// all that it names at once.
pub trait IntoMultiField<'a, This: 'a>: Sized {
    /// A tuple with one value, or one `Option` of a value, for each path.
    type MultiTy;

    /// Whether `made` may be what `this` turns into.
    spec fn multi_yields(self, this: This, made: Self::MultiTy) -> bool;

    /// Turns `this` into what the paths lead to.
    fn multi_into_field_(self, this: This) -> (r: Self::MultiTy)
        ensures
            self.multi_yields(this, r),
    ;
}

impl<'a, This: 'a, T> GetMultiField<'a, This> for TStr<T> where
    This: GetField<TStr<T>>,
    This::Ty: 'a,
 {
    type MultiTy = (&'a This::Ty,);

    open spec fn multi_field(self, this: &'a This) -> (&'a This::Ty,) {
        (&this.field(self),)
    }

    fn multi_get_field_(self, this: &'a This) -> (r: (&'a This::Ty,)) {
        (this.get_field_(self),)
    }
}

impl<'a, This: 'a, T> GetMultiFieldMut<'a, This> for TStr<T> where
    This: GetFieldMut<TStr<T>>,
    This::Ty: 'a,
 {
    type MultiTy = (&'a mut This::Ty,);

    open spec fn multi_lent(self, before: This, lent: (&'a mut This::Ty,)) -> bool {
        *lent.0 == before.field(self)
    }

    fn multi_get_field_mut_(self, this: &'a mut This) -> (r: (&'a mut This::Ty,))
        ensures
            *r.0 == old(this).field(self),
            *final(this) == old(this).with_field(self, *final(r.0)),
    {
        (this.get_field_mut_(self),)
    }
}

impl<'a, This: 'a, T> IntoMultiField<'a, This> for TStr<T> where
    This: IntoField<TStr<T>>,
    This::Ty: 'a,
 {
    type MultiTy = (This::Ty,);

    open spec fn multi_yields(self, this: This, made: (This::Ty,)) -> bool {
        this.yields(self, made.0)
    }

    fn multi_into_field_(self, this: This) -> (r: (This::Ty,))
        ensures
            this.yields(self, r.0),
    {
        (this.into_field_(self),)
    }
}

impl<'a, This: 'a, V, F> GetMultiField<'a, This> for VariantField<V, F> where
    This: GetVariantField<V, F>,
    This::Ty: 'a,
 {
    type MultiTy = (Option<&'a This::Ty>,);

    open spec fn multi_field(self, this: &'a This) -> (Option<&'a This::Ty>,) {
        (self.rev_field(this),)
    }

    fn multi_get_field_(self, this: &'a This) -> (r: (Option<&'a This::Ty>,)) {
        (self.rev_get_field(this),)
    }
}

impl<'a, This: 'a, V, F> GetMultiFieldMut<'a, This> for VariantField<V, F> where
    This: GetVariantFieldMut<V, F>,
    This::Ty: 'a,
 {
    type MultiTy = (Option<&'a mut This::Ty>,);

    open spec fn multi_lent(self, before: This, lent: (Option<&'a mut This::Ty>,)) -> bool {
        match lent.0 {
            Some(m) => before.vfield(self.variant, self.field) == Some(*m),
            None => before.vfield(self.variant, self.field) is None,
        }
    }

    fn multi_get_field_mut_(self, this: &'a mut This) -> (r: (Option<&'a mut This::Ty>,))
        ensures
            match r.0 {
                Some(m) => old(this).vfield(self.variant, self.field) == Some(*m) && *final(this)
                    == old(this).with_vfield(self.variant, self.field, *final(m)),
                None => old(this).vfield(self.variant, self.field) is None && *final(this) == *old(
                    this,
                ),
            },
    {
        (this.get_vfield_mut_(self.variant, self.field),)
    }
}

impl<'a, This: 'a, V, F> IntoMultiField<'a, This> for VariantField<V, F> where
    This: IntoVariantField<V, F>,
    This::Ty: 'a,
 {
    type MultiTy = (Option<This::Ty>,);

    open spec fn multi_yields(self, this: This, made: (Option<This::Ty>,)) -> bool {
        &&& this.vyields(self.variant, self.field, made.0)
        &&& made.0 is Some <==> this.is_variant_spec(self.variant)
    }

    fn multi_into_field_(self, this: This) -> (r: (Option<This::Ty>,))
        ensures
            this.vyields(self.variant, self.field, r.0),
            r.0 is Some <==> this.is_variant_spec(self.variant),
    {
        (this.into_vfield_(self.variant, self.field),)
    }
}

impl<'a, This: 'a, L> GetMultiField<'a, This> for NestedFieldPath<L> where
    NestedFieldPath<L>: RevGetField<'a, This>,
    <NestedFieldPath<L> as RevGetField<'a, This>>::Err: NormalizeFields<
        &'a <NestedFieldPath<L> as RevGetField<'a, This>>::Ty,
    >,
 {
    type MultiTy = (NormalizedRef<'a, NestedFieldPath<L>, This>,);

    open spec fn multi_field(self, this: &'a This) -> (
        NormalizedRef<'a, NestedFieldPath<L>, This>,
    ) {
        (field_ref(self, this),)
    }

    fn multi_get_field_(self, this: &'a This) -> (r: (
        NormalizedRef<'a, NestedFieldPath<L>, This>,
    )) {
        (get_field_ref(self, this),)
    }
}

impl<'a, This: 'a, L> GetMultiFieldMut<'a, This> for NestedFieldPath<L> where
    NestedFieldPath<L>: RevGetFieldMut<'a, This>,
    <NestedFieldPath<L> as RevGetField<'a, This>>::Err: NormalizeFields<
        &'a mut <NestedFieldPath<L> as RevGetField<'a, This>>::Ty,
    >,
 {
    type MultiTy = (NormalizedMut<'a, NestedFieldPath<L>, This>,);

    open spec fn multi_lent(
        self,
        before: This,
        lent: (NormalizedMut<'a, NestedFieldPath<L>, This>,),
    ) -> bool {
        match <<NestedFieldPath<L> as RevGetField<'a, This>>::Err as NormalizeFields<
            &'a mut <NestedFieldPath<L> as RevGetField<'a, This>>::Ty,
        >>::denormalized(lent.0) {
            Some(m) => self.rev_field(&before) == Some(&*m),
            None => self.rev_field(&before) is None,
        }
    }

    fn multi_get_field_mut_(self, this: &'a mut This) -> (r: (
        NormalizedMut<'a, NestedFieldPath<L>, This>,
    ))
        ensures
            match <<NestedFieldPath<L> as RevGetField<'a, This>>::Err as NormalizeFields<
                &'a mut <NestedFieldPath<L> as RevGetField<'a, This>>::Ty,
            >>::denormalized(r.0) {
                Some(m) => self.rev_field(&*old(this)) == Some(&*m) && *final(this)
                    == self.rev_with_field(*old(this), *final(m)),
                None => self.rev_field(&*old(this)) is None && *final(this) == *old(this),
            },
    {
        (get_field_mut(self, this),)
    }
}

impl<'a, This: 'a, L> IntoMultiField<'a, This> for NestedFieldPath<L> where
    NestedFieldPath<L>: RevIntoField<'a, This>,
    <NestedFieldPath<L> as RevGetField<'a, This>>::Err: NormalizeFields<
        <NestedFieldPath<L> as RevGetField<'a, This>>::Ty,
    >,
 {
    type MultiTy = (NormalizedValue<'a, NestedFieldPath<L>, This>,);

    open spec fn multi_yields(
        self,
        this: This,
        made: (NormalizedValue<'a, NestedFieldPath<L>, This>,),
    ) -> bool {
        field_value_post(self, this, made.0)
    }

    fn multi_into_field_(self, this: This) -> (r: (
        NormalizedValue<'a, NestedFieldPath<L>, This>,
    ))
        ensures
            field_value_post(self, this, r.0),
    {
        (get_field_value(self, this),)
    }
}

impl<'a, This: 'a, P, U> GetMultiFieldMut<'a, This> for FieldPathSet<(P,), U> where
    P: RevGetFieldMut<'a, This>,
    P::Err: NormalizeFields<&'a mut P::Ty>,
 {
    type MultiTy = (NormalizedMut<'a, P, This>,);

    open spec fn multi_lent(self, before: This, lent: (NormalizedMut<'a, P, This>,)) -> bool {
        match <P::Err as NormalizeFields<&'a mut P::Ty>>::denormalized(lent.0) {
            Some(m) => self.paths.0.rev_field(&before) == Some(&*m),
            None => self.paths.0.rev_field(&before) is None,
        }
    }

    fn multi_get_field_mut_(self, this: &'a mut This) -> (r: (NormalizedMut<'a, P, This>,))
        ensures
            match <P::Err as NormalizeFields<&'a mut P::Ty>>::denormalized(r.0) {
                Some(m) => self.paths.0.rev_field(&*old(this)) == Some(&*m) && *final(this)
                    == self.paths.0.rev_with_field(*old(this), *final(m)),
                None => self.paths.0.rev_field(&*old(this)) is None && *final(this) == *old(this),
            },
    {
        (get_field_mut(self.paths.0, this),)
    }
}

impl<'a, This: 'a, P, U> IntoMultiField<'a, This> for FieldPathSet<(P,), U> where
    P: RevIntoField<'a, This>,
    P::Err: NormalizeFields<P::Ty>,
 {
    type MultiTy = (NormalizedValue<'a, P, This>,);

    open spec fn multi_yields(self, this: This, made: (NormalizedValue<'a, P, This>,)) -> bool {
        field_value_post(self.paths.0, this, made.0)
    }

    fn multi_into_field_(self, this: This) -> (r: (NormalizedValue<'a, P, This>,))
        ensures
            field_value_post(self.paths.0, this, r.0),
    {
        (get_field_value(self.paths.0, this),)
    }
}

impl<'a, This: 'a, P0, U> GetMultiField<'a, This> for FieldPathSet<(P0,), U> where
    P0: RevGetField<'a, This>,
    P0::Err: NormalizeFields<&'a P0::Ty>,
 {
    type MultiTy = (NormalizedRef<'a, P0, This>,);

    open spec fn multi_field(self, this: &'a This) -> (NormalizedRef<'a, P0, This>,) {
        (field_ref(self.paths.0, this),)
    }

    fn multi_get_field_(self, this: &'a This) -> (r: (NormalizedRef<'a, P0, This>,)) {
        (get_field_ref(self.paths.0, this),)
    }
}

impl<'a, This: 'a, P0, P1, U> GetMultiField<'a, This> for FieldPathSet<(P0, P1), U> where
    P0: RevGetField<'a, This>,
    P0::Err: NormalizeFields<&'a P0::Ty>,
    P1: RevGetField<'a, This>,
    P1::Err: NormalizeFields<&'a P1::Ty>,
 {
    type MultiTy = (NormalizedRef<'a, P0, This>, NormalizedRef<'a, P1, This>);

    open spec fn multi_field(self, this: &'a This) -> (
        NormalizedRef<'a, P0, This>,
        NormalizedRef<'a, P1, This>,
    ) {
        (field_ref(self.paths.0, this), field_ref(self.paths.1, this))
    }

    fn multi_get_field_(self, this: &'a This) -> (r: (
        NormalizedRef<'a, P0, This>,
        NormalizedRef<'a, P1, This>,
    )) {
        (get_field_ref(self.paths.0, this), get_field_ref(self.paths.1, this))
    }
}

impl<'a, This: 'a, P0, P1, P2, U> GetMultiField<'a, This> for FieldPathSet<(P0, P1, P2), U> where
    P0: RevGetField<'a, This>,
    P0::Err: NormalizeFields<&'a P0::Ty>,
    P1: RevGetField<'a, This>,
    P1::Err: NormalizeFields<&'a P1::Ty>,
    P2: RevGetField<'a, This>,
    P2::Err: NormalizeFields<&'a P2::Ty>,
 {
    type MultiTy = (
        NormalizedRef<'a, P0, This>,
        NormalizedRef<'a, P1, This>,
        NormalizedRef<'a, P2, This>,
    );

    open spec fn multi_field(self, this: &'a This) -> (
        NormalizedRef<'a, P0, This>,
        NormalizedRef<'a, P1, This>,
        NormalizedRef<'a, P2, This>,
    ) {
        (
            field_ref(self.paths.0, this),
            field_ref(self.paths.1, this),
            field_ref(self.paths.2, this),
        )
    }

    fn multi_get_field_(self, this: &'a This) -> (r: (
        NormalizedRef<'a, P0, This>,
        NormalizedRef<'a, P1, This>,
        NormalizedRef<'a, P2, This>,
    )) {
        (
            get_field_ref(self.paths.0, this),
            get_field_ref(self.paths.1, this),
            get_field_ref(self.paths.2, this),
        )
    }
}

impl<'a, This: 'a, P0, P1, P2, P3, U> GetMultiField<'a, This> for FieldPathSet<(
    P0,
    P1,
    P2,
    P3,
), U> where
    P0: RevGetField<'a, This>,
    P0::Err: NormalizeFields<&'a P0::Ty>,
    P1: RevGetField<'a, This>,
    P1::Err: NormalizeFields<&'a P1::Ty>,
    P2: RevGetField<'a, This>,
    P2::Err: NormalizeFields<&'a P2::Ty>,
    P3: RevGetField<'a, This>,
    P3::Err: NormalizeFields<&'a P3::Ty>,
 {
    type MultiTy = (
        NormalizedRef<'a, P0, This>,
        NormalizedRef<'a, P1, This>,
        NormalizedRef<'a, P2, This>,
        NormalizedRef<'a, P3, This>,
    );

    open spec fn multi_field(self, this: &'a This) -> (
        NormalizedRef<'a, P0, This>,
        NormalizedRef<'a, P1, This>,
        NormalizedRef<'a, P2, This>,
        NormalizedRef<'a, P3, This>,
    ) {
        (
            field_ref(self.paths.0, this),
            field_ref(self.paths.1, this),
            field_ref(self.paths.2, this),
            field_ref(self.paths.3, this),
        )
    }

    fn multi_get_field_(self, this: &'a This) -> (r: (
        NormalizedRef<'a, P0, This>,
        NormalizedRef<'a, P1, This>,
        NormalizedRef<'a, P2, This>,
        NormalizedRef<'a, P3, This>,
    )) {
        (
            get_field_ref(self.paths.0, this),
            get_field_ref(self.paths.1, this),
            get_field_ref(self.paths.2, this),
            get_field_ref(self.paths.3, this),
        )
    }
}

impl<'a, This: 'a, P0, P1> GetMultiFieldMut<'a, This> for FieldPathSet<(P0, P1), UniquePaths> where
    This: SplitFieldsMut2<P0, P1>,
    GetFieldType<This, P0>: 'a,
    GetFieldType<This, P1>: 'a,
 {
    type MultiTy = (&'a mut GetFieldType<This, P0>, &'a mut GetFieldType<This, P1>);

    open spec fn multi_lent(
        self,
        before: This,
        lent: (&'a mut GetFieldType<This, P0>, &'a mut GetFieldType<This, P1>),
    ) -> bool {
        *lent.0 == before.field(self.paths.0) && *lent.1 == before.field(self.paths.1)
    }

    fn multi_get_field_mut_(self, this: &'a mut This) -> (r: (
        &'a mut GetFieldType<This, P0>,
        &'a mut GetFieldType<This, P1>,
    ))
        ensures
            *r.0 == old(this).field(self.paths.0),
            *r.1 == old(this).field(self.paths.1),
            *final(this) == old(this)
                .with_field(self.paths.0, *final(r.0))
                .with_field(self.paths.1, *final(r.1)),
    {
        this.split_fields_mut2(self.paths.0, self.paths.1)
    }
}

impl<'a, This: 'a, P0, P1> IntoMultiField<'a, This> for FieldPathSet<(P0, P1), UniquePaths> where
    This: IntoFields2<P0, P1>,
 {
    type MultiTy = (GetFieldType<This, P0>, GetFieldType<This, P1>);

    open spec fn multi_yields(
        self,
        this: This,
        made: (GetFieldType<This, P0>, GetFieldType<This, P1>),
    ) -> bool {
        this.yields(self.paths.0, made.0) && this.yields(self.paths.1, made.1)
    }

    fn multi_into_field_(self, this: This) -> (r: (GetFieldType<This, P0>, GetFieldType<This, P1>))
        ensures
            this.yields(self.paths.0, r.0),
            this.yields(self.paths.1, r.1),
    {
        this.into_fields2(self.paths.0, self.paths.1)
    }
}

impl<'a, This: 'a, P0, P1, P2> GetMultiFieldMut<'a, This> for FieldPathSet<(
    P0,
    P1,
    P2,
), UniquePaths> where
    This: SplitFieldsMut3<P0, P1, P2>,
    GetFieldType<This, P0>: 'a,
    GetFieldType<This, P1>: 'a,
    GetFieldType<This, P2>: 'a,
 {
    type MultiTy = (
        &'a mut GetFieldType<This, P0>,
        &'a mut GetFieldType<This, P1>,
        &'a mut GetFieldType<This, P2>,
    );

    open spec fn multi_lent(
        self,
        before: This,
        lent: (
            &'a mut GetFieldType<This, P0>,
            &'a mut GetFieldType<This, P1>,
            &'a mut GetFieldType<This, P2>,
        ),
    ) -> bool {
        &&& *lent.0 == before.field(self.paths.0)
        &&& *lent.1 == before.field(self.paths.1)
        &&& *lent.2 == before.field(self.paths.2)
    }

    fn multi_get_field_mut_(self, this: &'a mut This) -> (r: (
        &'a mut GetFieldType<This, P0>,
        &'a mut GetFieldType<This, P1>,
        &'a mut GetFieldType<This, P2>,
    ))
        ensures
            *r.0 == old(this).field(self.paths.0),
            *r.1 == old(this).field(self.paths.1),
            *r.2 == old(this).field(self.paths.2),
            *final(this) == old(this)
                .with_field(self.paths.0, *final(r.0))
                .with_field(self.paths.1, *final(r.1))
                .with_field(self.paths.2, *final(r.2)),
    {
        this.split_fields_mut3(self.paths.0, self.paths.1, self.paths.2)
    }
}

impl<'a, This: 'a, P0, P1, P2> IntoMultiField<'a, This> for FieldPathSet<(
    P0,
    P1,
    P2,
), UniquePaths> where
    This: IntoFields3<P0, P1, P2>,
 {
    type MultiTy = (GetFieldType<This, P0>, GetFieldType<This, P1>, GetFieldType<This, P2>);

    open spec fn multi_yields(
        self,
        this: This,
        made: (GetFieldType<This, P0>, GetFieldType<This, P1>, GetFieldType<This, P2>),
    ) -> bool {
        &&& this.yields(self.paths.0, made.0)
        &&& this.yields(self.paths.1, made.1)
        &&& this.yields(self.paths.2, made.2)
    }

    fn multi_into_field_(self, this: This) -> (r: (
        GetFieldType<This, P0>,
        GetFieldType<This, P1>,
        GetFieldType<This, P2>,
    ))
        ensures
            this.yields(self.paths.0, r.0),
            this.yields(self.paths.1, r.1),
            this.yields(self.paths.2, r.2),
    {
        this.into_fields3(self.paths.0, self.paths.1, self.paths.2)
    }
}

impl<'a, This: 'a, P0, P1, P2, P3> GetMultiFieldMut<'a, This> for FieldPathSet<(
    P0,
    P1,
    P2,
    P3,
), UniquePaths> where
    This: SplitFieldsMut4<P0, P1, P2, P3>,
    GetFieldType<This, P0>: 'a,
    GetFieldType<This, P1>: 'a,
    GetFieldType<This, P2>: 'a,
    GetFieldType<This, P3>: 'a,
 {
    type MultiTy = (
        &'a mut GetFieldType<This, P0>,
        &'a mut GetFieldType<This, P1>,
        &'a mut GetFieldType<This, P2>,
        &'a mut GetFieldType<This, P3>,
    );

    open spec fn multi_lent(
        self,
        before: This,
        lent: (
            &'a mut GetFieldType<This, P0>,
            &'a mut GetFieldType<This, P1>,
            &'a mut GetFieldType<This, P2>,
            &'a mut GetFieldType<This, P3>,
        ),
    ) -> bool {
        &&& *lent.0 == before.field(self.paths.0)
        &&& *lent.1 == before.field(self.paths.1)
        &&& *lent.2 == before.field(self.paths.2)
        &&& *lent.3 == before.field(self.paths.3)
    }

    fn multi_get_field_mut_(self, this: &'a mut This) -> (r: (
        &'a mut GetFieldType<This, P0>,
        &'a mut GetFieldType<This, P1>,
        &'a mut GetFieldType<This, P2>,
        &'a mut GetFieldType<This, P3>,
    ))
        ensures
            *r.0 == old(this).field(self.paths.0),
            *r.1 == old(this).field(self.paths.1),
            *r.2 == old(this).field(self.paths.2),
            *r.3 == old(this).field(self.paths.3),
            *final(this) == old(this)
                .with_field(self.paths.0, *final(r.0))
                .with_field(self.paths.1, *final(r.1))
                .with_field(self.paths.2, *final(r.2))
                .with_field(self.paths.3, *final(r.3)),
    {
        this.split_fields_mut4(self.paths.0, self.paths.1, self.paths.2, self.paths.3)
    }
}

impl<'a, This: 'a, P0, P1, P2, P3> IntoMultiField<'a, This> for FieldPathSet<(
    P0,
    P1,
    P2,
    P3,
), UniquePaths> where
    This: IntoFields4<P0, P1, P2, P3>,
 {
    type MultiTy = (
        GetFieldType<This, P0>,
        GetFieldType<This, P1>,
        GetFieldType<This, P2>,
        GetFieldType<This, P3>,
    );

    open spec fn multi_yields(
        self,
        this: This,
        made: (
            GetFieldType<This, P0>,
            GetFieldType<This, P1>,
            GetFieldType<This, P2>,
            GetFieldType<This, P3>,
        ),
    ) -> bool {
        &&& this.yields(self.paths.0, made.0)
        &&& this.yields(self.paths.1, made.1)
        &&& this.yields(self.paths.2, made.2)
        &&& this.yields(self.paths.3, made.3)
    }

    fn multi_into_field_(self, this: This) -> (r: (
        GetFieldType<This, P0>,
        GetFieldType<This, P1>,
        GetFieldType<This, P2>,
        GetFieldType<This, P3>,
    ))
        ensures
            this.yields(self.paths.0, r.0),
            this.yields(self.paths.1, r.1),
            this.yields(self.paths.2, r.2),
            this.yields(self.paths.3, r.3),
    {
        this.into_fields4(self.paths.0, self.paths.1, self.paths.2, self.paths.3)
    }
}

impl<'a, This: 'a, F, L, U> GetMultiField<'a, This> for NestedFieldPathSet<F, L, U> where
    F: RevGetField<'a, This>,
    FieldPathSet<L, U>: GetMultiField<'a, F::Ty>,
    F::Err: NormalizeFields<<FieldPathSet<L, U> as GetMultiField<'a, F::Ty>>::MultiTy>,
 {
    type MultiTy = <F::Err as NormalizeFields<
        <FieldPathSet<L, U> as GetMultiField<'a, F::Ty>>::MultiTy,
    >>::Output;

    open spec fn multi_field(self, this: &'a This) -> Self::MultiTy {
        <F::Err as NormalizeFields<
            <FieldPathSet<L, U> as GetMultiField<'a, F::Ty>>::MultiTy,
        >>::normalized(
            match self.nested.rev_field(this) {
                Some(mid) => Some(self.set.multi_field(mid)),
                None => None,
            },
        )
    }

    fn multi_get_field_(self, this: &'a This) -> (r: Self::MultiTy) {
        let found = match self.nested.rev_get_field(this) {
            Some(mid) => Some(self.set.multi_get_field_(mid)),
            None => None,
        };
        <F::Err as NormalizeFields<
            <FieldPathSet<L, U> as GetMultiField<'a, F::Ty>>::MultiTy,
        >>::normalize_fields(found)
    }
}

impl<'a, This: 'a, F, L> GetMultiFieldMut<'a, This> for NestedFieldPathSet<F, L, UniquePaths> where
    F: RevGetFieldMut<'a, This>,
    FieldPathSet<L, UniquePaths>: GetMultiFieldMut<'a, F::Ty>,
    F::Err: NormalizeFields<<FieldPathSet<L, UniquePaths> as GetMultiFieldMut<'a, F::Ty>>::MultiTy>,
 {
    type MultiTy = <F::Err as NormalizeFields<
        <FieldPathSet<L, UniquePaths> as GetMultiFieldMut<'a, F::Ty>>::MultiTy,
    >>::Output;

    open spec fn multi_lent(self, before: This, lent: Self::MultiTy) -> bool {
        match <F::Err as NormalizeFields<
            <FieldPathSet<L, UniquePaths> as GetMultiFieldMut<'a, F::Ty>>::MultiTy,
        >>::denormalized(lent) {
            Some(inner) => self.nested.rev_field(&before) is Some && self.set.multi_lent(
                *self.nested.rev_field(&before)->0,
                inner,
            ),
            None => self.nested.rev_field(&before) is None,
        }
    }

    fn multi_get_field_mut_(self, this: &'a mut This) -> (r: Self::MultiTy) {
        let found = match self.nested.rev_get_field_mut(this) {
            Some(mid) => Some(self.set.multi_get_field_mut_(mid)),
            None => None,
        };
        <F::Err as NormalizeFields<
            <FieldPathSet<L, UniquePaths> as GetMultiFieldMut<'a, F::Ty>>::MultiTy,
        >>::normalize_fields(found)
    }
}

} // verus!
