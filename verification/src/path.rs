//! Values that say which field is meant: names, nested paths, and sets of
//! paths. They carry no data; the type alone identifies the field.

use core::marker::PhantomData;
use vstd::prelude::*;

pub mod names;

verus! {

/// A type-level name: of a field, of a position in a tuple, or of a variant.
///
/// `T` is a marker type that stands for the name's text; two names are the
/// same name exactly when their marker types are the same type.
pub struct TStr<T>(pub PhantomData<T>);

impl<T> TStr<T> {
    /// The one value of this name.
    pub open spec fn new_spec() -> Self {
        TStr(PhantomData)
    }

    /// The one value of this name.
    #[verifier::when_used_as_spec(new_spec)]
    pub fn new() -> (r: Self)
        ensures
            r == Self::new_spec(),
    {
        TStr(PhantomData)
    }
}

impl<T> Clone for TStr<T> {
    fn clone(&self) -> (r: Self)
        ensures
            r == *self,
    {
        TStr(PhantomData)
    }
}

impl<T> Copy for TStr<T> {

}

/// Implemented by the names, and by nothing else.
pub trait IsTStr: Sized {

}

impl<T> IsTStr for TStr<T> {

}

/// The field `F` inside the variant `V` of an enum.
pub struct VariantField<V, F> {
    pub variant: V,
    pub field: F,
}

impl<V: Copy, F: Copy> Clone for VariantField<V, F> {
    fn clone(&self) -> (r: Self)
        ensures
            r == *self,
    {
        VariantField { variant: self.variant, field: self.field }
    }
}

impl<V: Copy, F: Copy> Copy for VariantField<V, F> {

}

impl<V, F> VariantField<V, F> {
    /// The path to `field` inside `variant`.
    pub fn new(variant: V, field: F) -> (r: Self)
        ensures
            r.variant == variant,
            r.field == field,
    {
        VariantField { variant, field }
    }
}

/// Several paths followed one after the other: the first into the value, the
/// next into what the first leads to, and so on. `L` is a tuple of paths.
pub struct NestedFieldPath<L> {
    pub list: L,
}

impl<L: Copy> Clone for NestedFieldPath<L> {
    fn clone(&self) -> (r: Self)
        ensures
            r == *self,
    {
        NestedFieldPath { list: self.list }
    }
}

impl<L: Copy> Copy for NestedFieldPath<L> {

}

impl<L> NestedFieldPath<L> {
    /// The path that follows the paths of `list` in turn.
    pub fn new(list: L) -> (r: Self)
        ensures
            r.list == list,
    {
        NestedFieldPath { list }
    }

    /// The set that holds this path alone.
    pub fn into_set(self) -> (r: FieldPathSet<(Self,), UniquePaths>)
        ensures
            r.paths.0 == self,
    {
        FieldPathSet::one(self)
    }
}

/// Marks a set of paths of which no two lead to the same field.
#[derive(Debug, Clone, Copy)]
pub struct UniquePaths;

/// Marks a set of paths of which two might lead to the same field.
#[derive(Debug, Clone, Copy)]
pub struct AliasedPaths;

/// Several paths, for access to several fields at once. `L` is a tuple of
/// paths, `U` is [`UniquePaths`] or [`AliasedPaths`].
pub struct FieldPathSet<L, U> {
    pub paths: L,
    pub uniqueness: PhantomData<U>,
}

impl<L: Copy, U> Clone for FieldPathSet<L, U> {
    fn clone(&self) -> (r: Self)
        ensures
            r.paths == self.paths,
    {
        FieldPathSet { paths: self.paths, uniqueness: PhantomData }
    }
}

impl<L: Copy, U> Copy for FieldPathSet<L, U> {

}

impl<P> FieldPathSet<(P,), UniquePaths> {
    /// The set that holds `path` alone.
    pub fn one(path: P) -> (r: Self)
        ensures
            r.paths.0 == path,
    {
        FieldPathSet { paths: (path,), uniqueness: PhantomData }
    }
}

impl<L> FieldPathSet<L, AliasedPaths> {
    /// The set of the paths in `paths`, of which nothing is known.
    pub fn many(paths: L) -> (r: Self)
        ensures
            r.paths == paths,
    {
        FieldPathSet { paths, uniqueness: PhantomData }
    }

    /// The same set, taken to hold no field twice.
    ///
    /// Mutable access through a set is only offered for lists of paths that
    /// cannot overlap, so this gives access to nothing that it should not.
    pub fn upgrade(self) -> (r: FieldPathSet<L, UniquePaths>)
        ensures
            r.paths == self.paths,
    {
        FieldPathSet { paths: self.paths, uniqueness: PhantomData }
    }
}

impl<L> FieldPathSet<L, UniquePaths> {
    /// The same set, with what is known of its paths forgotten.
    pub fn downgrade(self) -> (r: FieldPathSet<L, AliasedPaths>)
        ensures
            r.paths == self.paths,
    {
        FieldPathSet { paths: self.paths, uniqueness: PhantomData }
    }
}

/// A set of paths that all start with the path `nested`.
pub struct NestedFieldPathSet<F, L, U> {
    pub nested: F,
    pub set: FieldPathSet<L, U>,
}

impl<F: Copy, L: Copy, U> Clone for NestedFieldPathSet<F, L, U> {
    fn clone(&self) -> (r: Self)
        ensures
            r.nested == self.nested,
            r.set.paths == self.set.paths,
    {
        NestedFieldPathSet { nested: self.nested, set: self.set }
    }
}

impl<F: Copy, L: Copy, U> Copy for NestedFieldPathSet<F, L, U> {

}

impl<F, L, U> NestedFieldPathSet<F, L, U> {
    /// The set of the paths of `set`, each one behind `nested`.
    pub fn new(nested: F, set: FieldPathSet<L, U>) -> (r: Self)
        ensures
            r.nested == nested,
            r.set == set,
    {
        NestedFieldPathSet { nested, set }
    }
}

} // verus!
