//! Access to several fields of one value at the same time: two, three or
//! four distinct fields lent mutably together, or moved out together.

use crate::field::{FieldType, GetFieldMut, GetFieldType, IntoField};
use vstd::prelude::*;

verus! {

/// Mutable access to two distinct fields at once.
pub trait SplitFieldsMut2<P0, P1>: GetFieldMut<P0> + GetFieldMut<P1> {
    /// The fields do not overlap: replacing one leaves the others as they are.
    proof fn lemma_fields_apart2(
        self,
        p0: P0, p1: P1,
        v0: GetFieldType<Self, P0>, v1: GetFieldType<Self, P1>,
    )
        ensures
            self.with_field(p0, v0).field(p1) == self.field(p1),
            self.with_field(p1, v1).field(p0) == self.field(p0),
    ;

    /// Borrows the fields mutably. What is written through the results
    /// replaces the fields, and nothing else in `self` changes.
    fn split_fields_mut2(&mut self, p0: P0, p1: P1) -> (r: (
        &mut GetFieldType<Self, P0>,
        &mut GetFieldType<Self, P1>,
    ))
        ensures
            *r.0 == old(self).field(p0),
            *r.1 == old(self).field(p1),
            *final(self) == old(self).with_field(p0, *final(r.0)).with_field(p1, *final(r.1)),
    ;
}

/// Access to two distinct fields by value at once.
pub trait IntoFields2<P0, P1>: IntoField<P0> + IntoField<P1> {
    /// Turns `self` into the fields.
    fn into_fields2(self, p0: P0, p1: P1) -> (r: (
        GetFieldType<Self, P0>,
        GetFieldType<Self, P1>,
    ))
        ensures
            self.yields(p0, r.0),
            self.yields(p1, r.1),
    ;
}

/// Mutable access to three distinct fields at once.
pub trait SplitFieldsMut3<P0, P1, P2>: GetFieldMut<P0> + GetFieldMut<P1> + GetFieldMut<P2> {
    /// The fields do not overlap: replacing one leaves the others as they are.
    proof fn lemma_fields_apart3(
        self,
        p0: P0, p1: P1, p2: P2,
        v0: GetFieldType<Self, P0>, v1: GetFieldType<Self, P1>, v2: GetFieldType<Self, P2>,
    )
        ensures
            self.with_field(p0, v0).field(p1) == self.field(p1),
            self.with_field(p0, v0).field(p2) == self.field(p2),
            self.with_field(p1, v1).field(p0) == self.field(p0),
            self.with_field(p1, v1).field(p2) == self.field(p2),
            self.with_field(p2, v2).field(p0) == self.field(p0),
            self.with_field(p2, v2).field(p1) == self.field(p1),
    ;

    /// Borrows the fields mutably. What is written through the results
    /// replaces the fields, and nothing else in `self` changes.
    fn split_fields_mut3(&mut self, p0: P0, p1: P1, p2: P2) -> (r: (
        &mut GetFieldType<Self, P0>,
        &mut GetFieldType<Self, P1>,
        &mut GetFieldType<Self, P2>,
    ))
        ensures
            *r.0 == old(self).field(p0),
            *r.1 == old(self).field(p1),
            *r.2 == old(self).field(p2),
            *final(self) == old(self)
                .with_field(p0, *final(r.0))
                .with_field(p1, *final(r.1))
                .with_field(p2, *final(r.2)),
    ;
}

/// Access to three distinct fields by value at once.
pub trait IntoFields3<P0, P1, P2>: IntoField<P0> + IntoField<P1> + IntoField<P2> {
    /// Turns `self` into the fields.
    fn into_fields3(self, p0: P0, p1: P1, p2: P2) -> (r: (
        GetFieldType<Self, P0>,
        GetFieldType<Self, P1>,
        GetFieldType<Self, P2>,
    ))
        ensures
            self.yields(p0, r.0),
            self.yields(p1, r.1),
            self.yields(p2, r.2),
    ;
}

/// Mutable access to four distinct fields at once.
pub trait SplitFieldsMut4<P0, P1, P2, P3>: GetFieldMut<P0>
    + GetFieldMut<P1>
    + GetFieldMut<P2>
    + GetFieldMut<P3> {
    /// The fields do not overlap: replacing one leaves the others as they are.
    proof fn lemma_fields_apart4(
        self,
        p0: P0, p1: P1, p2: P2, p3: P3,
        v0: GetFieldType<Self, P0>,
        v1: GetFieldType<Self, P1>,
        v2: GetFieldType<Self, P2>,
        v3: GetFieldType<Self, P3>,
    )
        ensures
            self.with_field(p0, v0).field(p1) == self.field(p1),
            self.with_field(p0, v0).field(p2) == self.field(p2),
            self.with_field(p0, v0).field(p3) == self.field(p3),
            self.with_field(p1, v1).field(p0) == self.field(p0),
            self.with_field(p1, v1).field(p2) == self.field(p2),
            self.with_field(p1, v1).field(p3) == self.field(p3),
            self.with_field(p2, v2).field(p0) == self.field(p0),
            self.with_field(p2, v2).field(p1) == self.field(p1),
            self.with_field(p2, v2).field(p3) == self.field(p3),
            self.with_field(p3, v3).field(p0) == self.field(p0),
            self.with_field(p3, v3).field(p1) == self.field(p1),
            self.with_field(p3, v3).field(p2) == self.field(p2),
    ;

    /// Borrows the fields mutably. What is written through the results
    /// replaces the fields, and nothing else in `self` changes.
    fn split_fields_mut4(&mut self, p0: P0, p1: P1, p2: P2, p3: P3) -> (r: (
        &mut GetFieldType<Self, P0>,
        &mut GetFieldType<Self, P1>,
        &mut GetFieldType<Self, P2>,
        &mut GetFieldType<Self, P3>,
    ))
        ensures
            *r.0 == old(self).field(p0),
            *r.1 == old(self).field(p1),
            *r.2 == old(self).field(p2),
            *r.3 == old(self).field(p3),
            *final(self) == old(self)
                .with_field(p0, *final(r.0))
                .with_field(p1, *final(r.1))
                .with_field(p2, *final(r.2))
                .with_field(p3, *final(r.3)),
    ;
}

/// Access to four distinct fields by value at once.
pub trait IntoFields4<P0, P1, P2, P3>: IntoField<P0>
    + IntoField<P1>
    + IntoField<P2>
    + IntoField<P3> {
    /// Turns `self` into the fields.
    fn into_fields4(self, p0: P0, p1: P1, p2: P2, p3: P3) -> (r: (
        GetFieldType<Self, P0>,
        GetFieldType<Self, P1>,
        GetFieldType<Self, P2>,
        GetFieldType<Self, P3>,
    ))
        ensures
            self.yields(p0, r.0),
            self.yields(p1, r.1),
            self.yields(p2, r.2),
            self.yields(p3, r.3),
    ;
}

} // verus!
