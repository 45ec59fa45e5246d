//! Tuples as records: the field `0` is the first position, and so on.

use crate::field::{FieldType, GetField, GetFieldMut, IntoField};
use crate::path::names::{I0, I1, I2, I3};
use vstd::prelude::*;

verus! {

impl<A> FieldType<I0> for (A,) {
    type Ty = A;
}

impl<A> GetField<I0> for (A,) {
    open spec fn field(&self, path: I0) -> A {
        self.0
    }

    fn get_field_(&self, path: I0) -> (r: &A) {
        &self.0
    }
}

impl<A> GetFieldMut<I0> for (A,) {
    open spec fn with_field(self, path: I0, value: A) -> Self {
        (value,)
    }

    proof fn lemma_field_of_with_field(self, path: I0, value: A) {
    }

    proof fn lemma_with_own_field(self, path: I0) {
    }

    proof fn lemma_with_field_twice(self, path: I0, first: A, second: A) {
    }

    fn get_field_mut_(&mut self, path: I0) -> (r: &mut A) {
        &mut self.0
    }
}

impl<A> IntoField<I0> for (A,) {
    open spec fn yields(self, path: I0, value: A) -> bool {
        value == self.0
    }

    fn into_field_(self, path: I0) -> (r: A) {
        self.0
    }
}

impl<A, B> FieldType<I0> for (A, B) {
    type Ty = A;
}

impl<A, B> GetField<I0> for (A, B) {
    open spec fn field(&self, path: I0) -> A {
        self.0
    }

    fn get_field_(&self, path: I0) -> (r: &A) {
        &self.0
    }
}

impl<A, B> GetFieldMut<I0> for (A, B) {
    open spec fn with_field(self, path: I0, value: A) -> Self {
        (value, self.1)
    }

    proof fn lemma_field_of_with_field(self, path: I0, value: A) {
    }

    proof fn lemma_with_own_field(self, path: I0) {
    }

    proof fn lemma_with_field_twice(self, path: I0, first: A, second: A) {
    }

    fn get_field_mut_(&mut self, path: I0) -> (r: &mut A) {
        &mut self.0
    }
}

impl<A, B> IntoField<I0> for (A, B) {
    open spec fn yields(self, path: I0, value: A) -> bool {
        value == self.0
    }

    fn into_field_(self, path: I0) -> (r: A) {
        self.0
    }
}

impl<A, B> FieldType<I1> for (A, B) {
    type Ty = B;
}

impl<A, B> GetField<I1> for (A, B) {
    open spec fn field(&self, path: I1) -> B {
        self.1
    }

    fn get_field_(&self, path: I1) -> (r: &B) {
        &self.1
    }
}

impl<A, B> GetFieldMut<I1> for (A, B) {
    open spec fn with_field(self, path: I1, value: B) -> Self {
        (self.0, value)
    }

    proof fn lemma_field_of_with_field(self, path: I1, value: B) {
    }

    proof fn lemma_with_own_field(self, path: I1) {
    }

    proof fn lemma_with_field_twice(self, path: I1, first: B, second: B) {
    }

    fn get_field_mut_(&mut self, path: I1) -> (r: &mut B) {
        &mut self.1
    }
}

impl<A, B> IntoField<I1> for (A, B) {
    open spec fn yields(self, path: I1, value: B) -> bool {
        value == self.1
    }

    fn into_field_(self, path: I1) -> (r: B) {
        self.1
    }
}

impl<A, B, C> FieldType<I0> for (A, B, C) {
    type Ty = A;
}

impl<A, B, C> GetField<I0> for (A, B, C) {
    open spec fn field(&self, path: I0) -> A {
        self.0
    }

    fn get_field_(&self, path: I0) -> (r: &A) {
        &self.0
    }
}

impl<A, B, C> GetFieldMut<I0> for (A, B, C) {
    open spec fn with_field(self, path: I0, value: A) -> Self {
        (value, self.1, self.2)
    }

    proof fn lemma_field_of_with_field(self, path: I0, value: A) {
    }

    proof fn lemma_with_own_field(self, path: I0) {
    }

    proof fn lemma_with_field_twice(self, path: I0, first: A, second: A) {
    }

    fn get_field_mut_(&mut self, path: I0) -> (r: &mut A) {
        &mut self.0
    }
}

impl<A, B, C> IntoField<I0> for (A, B, C) {
    open spec fn yields(self, path: I0, value: A) -> bool {
        value == self.0
    }

    fn into_field_(self, path: I0) -> (r: A) {
        self.0
    }
}

impl<A, B, C> FieldType<I1> for (A, B, C) {
    type Ty = B;
}

impl<A, B, C> GetField<I1> for (A, B, C) {
    open spec fn field(&self, path: I1) -> B {
        self.1
    }

    fn get_field_(&self, path: I1) -> (r: &B) {
        &self.1
    }
}

impl<A, B, C> GetFieldMut<I1> for (A, B, C) {
    open spec fn with_field(self, path: I1, value: B) -> Self {
        (self.0, value, self.2)
    }

    proof fn lemma_field_of_with_field(self, path: I1, value: B) {
    }

    proof fn lemma_with_own_field(self, path: I1) {
    }

    proof fn lemma_with_field_twice(self, path: I1, first: B, second: B) {
    }

    fn get_field_mut_(&mut self, path: I1) -> (r: &mut B) {
        &mut self.1
    }
}

impl<A, B, C> IntoField<I1> for (A, B, C) {
    open spec fn yields(self, path: I1, value: B) -> bool {
        value == self.1
    }

    fn into_field_(self, path: I1) -> (r: B) {
        self.1
    }
}

impl<A, B, C> FieldType<I2> for (A, B, C) {
    type Ty = C;
}

impl<A, B, C> GetField<I2> for (A, B, C) {
    open spec fn field(&self, path: I2) -> C {
        self.2
    }

    fn get_field_(&self, path: I2) -> (r: &C) {
        &self.2
    }
}

impl<A, B, C> GetFieldMut<I2> for (A, B, C) {
    open spec fn with_field(self, path: I2, value: C) -> Self {
        (self.0, self.1, value)
    }

    proof fn lemma_field_of_with_field(self, path: I2, value: C) {
    }

    proof fn lemma_with_own_field(self, path: I2) {
    }

    proof fn lemma_with_field_twice(self, path: I2, first: C, second: C) {
    }

    fn get_field_mut_(&mut self, path: I2) -> (r: &mut C) {
        &mut self.2
    }
}

impl<A, B, C> IntoField<I2> for (A, B, C) {
    open spec fn yields(self, path: I2, value: C) -> bool {
        value == self.2
    }

    fn into_field_(self, path: I2) -> (r: C) {
        self.2
    }
}

impl<A, B, C, D> FieldType<I0> for (A, B, C, D) {
    type Ty = A;
}

impl<A, B, C, D> GetField<I0> for (A, B, C, D) {
    open spec fn field(&self, path: I0) -> A {
        self.0
    }

    fn get_field_(&self, path: I0) -> (r: &A) {
        &self.0
    }
}

impl<A, B, C, D> GetFieldMut<I0> for (A, B, C, D) {
    open spec fn with_field(self, path: I0, value: A) -> Self {
        (value, self.1, self.2, self.3)
    }

    proof fn lemma_field_of_with_field(self, path: I0, value: A) {
    }

    proof fn lemma_with_own_field(self, path: I0) {
    }

    proof fn lemma_with_field_twice(self, path: I0, first: A, second: A) {
    }

    fn get_field_mut_(&mut self, path: I0) -> (r: &mut A) {
        &mut self.0
    }
}

impl<A, B, C, D> IntoField<I0> for (A, B, C, D) {
    open spec fn yields(self, path: I0, value: A) -> bool {
        value == self.0
    }

    fn into_field_(self, path: I0) -> (r: A) {
        self.0
    }
}

impl<A, B, C, D> FieldType<I1> for (A, B, C, D) {
    type Ty = B;
}

impl<A, B, C, D> GetField<I1> for (A, B, C, D) {
    open spec fn field(&self, path: I1) -> B {
        self.1
    }

    fn get_field_(&self, path: I1) -> (r: &B) {
        &self.1
    }
}

impl<A, B, C, D> GetFieldMut<I1> for (A, B, C, D) {
    open spec fn with_field(self, path: I1, value: B) -> Self {
        (self.0, value, self.2, self.3)
    }

    proof fn lemma_field_of_with_field(self, path: I1, value: B) {
    }

    proof fn lemma_with_own_field(self, path: I1) {
    }

    proof fn lemma_with_field_twice(self, path: I1, first: B, second: B) {
    }

    fn get_field_mut_(&mut self, path: I1) -> (r: &mut B) {
        &mut self.1
    }
}

impl<A, B, C, D> IntoField<I1> for (A, B, C, D) {
    open spec fn yields(self, path: I1, value: B) -> bool {
        value == self.1
    }

    fn into_field_(self, path: I1) -> (r: B) {
        self.1
    }
}

impl<A, B, C, D> FieldType<I2> for (A, B, C, D) {
    type Ty = C;
}

impl<A, B, C, D> GetField<I2> for (A, B, C, D) {
    open spec fn field(&self, path: I2) -> C {
        self.2
    }

    fn get_field_(&self, path: I2) -> (r: &C) {
        &self.2
    }
}

impl<A, B, C, D> GetFieldMut<I2> for (A, B, C, D) {
    open spec fn with_field(self, path: I2, value: C) -> Self {
        (self.0, self.1, value, self.3)
    }

    proof fn lemma_field_of_with_field(self, path: I2, value: C) {
    }

    proof fn lemma_with_own_field(self, path: I2) {
    }

    proof fn lemma_with_field_twice(self, path: I2, first: C, second: C) {
    }

    fn get_field_mut_(&mut self, path: I2) -> (r: &mut C) {
        &mut self.2
    }
}

impl<A, B, C, D> IntoField<I2> for (A, B, C, D) {
    open spec fn yields(self, path: I2, value: C) -> bool {
        value == self.2
    }

    fn into_field_(self, path: I2) -> (r: C) {
        self.2
    }
}

impl<A, B, C, D> FieldType<I3> for (A, B, C, D) {
    type Ty = D;
}

impl<A, B, C, D> GetField<I3> for (A, B, C, D) {
    open spec fn field(&self, path: I3) -> D {
        self.3
    }

    fn get_field_(&self, path: I3) -> (r: &D) {
        &self.3
    }
}

impl<A, B, C, D> GetFieldMut<I3> for (A, B, C, D) {
    open spec fn with_field(self, path: I3, value: D) -> Self {
        (self.0, self.1, self.2, value)
    }

    proof fn lemma_field_of_with_field(self, path: I3, value: D) {
    }

    proof fn lemma_with_own_field(self, path: I3) {
    }

    proof fn lemma_with_field_twice(self, path: I3, first: D, second: D) {
    }

    fn get_field_mut_(&mut self, path: I3) -> (r: &mut D) {
        &mut self.3
    }
}

impl<A, B, C, D> IntoField<I3> for (A, B, C, D) {
    open spec fn yields(self, path: I3, value: D) -> bool {
        value == self.3
    }

    fn into_field_(self, path: I3) -> (r: D) {
        self.3
    }
}

} // verus!
