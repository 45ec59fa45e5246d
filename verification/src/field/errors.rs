//! Whether an access can fail, told by a marker type, and what the result of
//! an access looks like once that is known.

use vstd::prelude::*;

verus! {

/// A marker for the way in which an access may fail.
pub trait IsFieldErr: Sized {
    /// Whether an access with this marker always finds its field.
    spec fn infallible() -> bool;
}

/// Marks an access that always finds its field: one into a record.
pub struct InfallibleAccess;

/// Marks an access that finds nothing where an enum is not in the variant
/// that the path names.
#[derive(Debug, Clone, Copy, PartialEq, Eq)]
pub struct FailedAccess;

impl IsFieldErr for InfallibleAccess {
    open spec fn infallible() -> bool {
        true
    }
}

impl IsFieldErr for FailedAccess {
    open spec fn infallible() -> bool {
        false
    }
}

/// The marker of two accesses made one after the other.
pub trait CombinedErrs<Second: IsFieldErr>: IsFieldErr {
    type Combined: IsFieldErr;

    /// The two together always succeed only where each of them does.
    proof fn lemma_combined()
        ensures
            Self::Combined::infallible() == (Self::infallible() && Second::infallible()),
    ;
}

impl CombinedErrs<InfallibleAccess> for InfallibleAccess {
    type Combined = InfallibleAccess;

    proof fn lemma_combined() {
    }
}

impl CombinedErrs<FailedAccess> for InfallibleAccess {
    type Combined = FailedAccess;

    proof fn lemma_combined() {
    }
}

impl CombinedErrs<InfallibleAccess> for FailedAccess {
    type Combined = FailedAccess;

    proof fn lemma_combined() {
    }
}

impl CombinedErrs<FailedAccess> for FailedAccess {
    type Combined = FailedAccess;

    proof fn lemma_combined() {
    }
}

/// Gives the result of an access its final shape: the bare value where the
/// access cannot fail, an `Option` where it can.
pub trait NormalizeFields<T>: IsFieldErr {
    type Output;

    /// The final shape of `found`.
    spec fn normalized(found: Option<T>) -> Self::Output;

    /// The access result that `out` is the final shape of.
    spec fn denormalized(out: Self::Output) -> Option<T>;

    /// Turns `found` into its final shape.
    fn normalize_fields(found: Option<T>) -> (r: Self::Output)
        requires
            Self::infallible() ==> found is Some,
        ensures
            r == Self::normalized(found),
            Self::denormalized(r) == found,
    ;
}

impl<T> NormalizeFields<T> for InfallibleAccess {
    type Output = T;

    open spec fn normalized(found: Option<T>) -> T {
        found->0
    }

    open spec fn denormalized(out: T) -> Option<T> {
        Some(out)
    }

    fn normalize_fields(found: Option<T>) -> (r: T) {
        found.unwrap()
    }
}

impl<T> NormalizeFields<T> for FailedAccess {
    type Output = Option<T>;

    open spec fn normalized(found: Option<T>) -> Option<T> {
        found
    }

    open spec fn denormalized(out: Option<T>) -> Option<T> {
        out
    }

    fn normalize_fields(found: Option<T>) -> (r: Option<T>) {
        found
    }
}

} // verus!
