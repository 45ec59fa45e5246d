//! Arrays of up to five elements as records: the field `0` is the first
//! element, and so on.

use crate::field::{FieldType, GetField, GetFieldMut, IntoField};
use crate::path::names::{I0, I1, I2, I3, I4};
use vstd::array::spec_array_update;
use vstd::prelude::*;

verus! {

impl<T> FieldType<I0> for [T; 1] {
    type Ty = T;
}

impl<T> GetField<I0> for [T; 1] {
    open spec fn field(&self, path: I0) -> T {
        self@[0]
    }

    fn get_field_(&self, path: I0) -> (r: &T) {
        &self[0]
    }
}

impl<T> GetFieldMut<I0> for [T; 1] {
    open spec fn with_field(self, path: I0, value: T) -> Self {
        spec_array_update(self, 0, value)
    }

    proof fn lemma_field_of_with_field(self, path: I0, value: T) {
    }

    proof fn lemma_with_own_field(self, path: I0) {
        assert(self.with_field(path, self.field(path))@ =~= self@);
    }

    proof fn lemma_with_field_twice(self, path: I0, first: T, second: T) {
        assert(self.with_field(path, first).with_field(path, second)@ =~= self.with_field(
            path,
            second,
        )@);
    }

    fn get_field_mut_(&mut self, path: I0) -> (r: &mut T) {
        &mut self[0]
    }
}

impl<T: Copy> IntoField<I0> for [T; 1] {
    open spec fn yields(self, path: I0, value: T) -> bool {
        value == self@[0]
    }

    fn into_field_(self, path: I0) -> (r: T) {
        self[0]
    }
}

impl<T> FieldType<I0> for [T; 2] {
    type Ty = T;
}

impl<T> GetField<I0> for [T; 2] {
    open spec fn field(&self, path: I0) -> T {
        self@[0]
    }

    fn get_field_(&self, path: I0) -> (r: &T) {
        &self[0]
    }
}

impl<T> GetFieldMut<I0> for [T; 2] {
    open spec fn with_field(self, path: I0, value: T) -> Self {
        spec_array_update(self, 0, value)
    }

    proof fn lemma_field_of_with_field(self, path: I0, value: T) {
    }

    proof fn lemma_with_own_field(self, path: I0) {
        assert(self.with_field(path, self.field(path))@ =~= self@);
    }

    proof fn lemma_with_field_twice(self, path: I0, first: T, second: T) {
        assert(self.with_field(path, first).with_field(path, second)@ =~= self.with_field(
            path,
            second,
        )@);
    }

    fn get_field_mut_(&mut self, path: I0) -> (r: &mut T) {
        &mut self[0]
    }
}

impl<T: Copy> IntoField<I0> for [T; 2] {
    open spec fn yields(self, path: I0, value: T) -> bool {
        value == self@[0]
    }

    fn into_field_(self, path: I0) -> (r: T) {
        self[0]
    }
}

impl<T> FieldType<I1> for [T; 2] {
    type Ty = T;
}

impl<T> GetField<I1> for [T; 2] {
    open spec fn field(&self, path: I1) -> T {
        self@[1]
    }

    fn get_field_(&self, path: I1) -> (r: &T) {
        &self[1]
    }
}

impl<T> GetFieldMut<I1> for [T; 2] {
    open spec fn with_field(self, path: I1, value: T) -> Self {
        spec_array_update(self, 1, value)
    }

    proof fn lemma_field_of_with_field(self, path: I1, value: T) {
    }

    proof fn lemma_with_own_field(self, path: I1) {
        assert(self.with_field(path, self.field(path))@ =~= self@);
    }

    proof fn lemma_with_field_twice(self, path: I1, first: T, second: T) {
        assert(self.with_field(path, first).with_field(path, second)@ =~= self.with_field(
            path,
            second,
        )@);
    }

    fn get_field_mut_(&mut self, path: I1) -> (r: &mut T) {
        &mut self[1]
    }
}

impl<T: Copy> IntoField<I1> for [T; 2] {
    open spec fn yields(self, path: I1, value: T) -> bool {
        value == self@[1]
    }

    fn into_field_(self, path: I1) -> (r: T) {
        self[1]
    }
}

impl<T> FieldType<I0> for [T; 3] {
    type Ty = T;
}

impl<T> GetField<I0> for [T; 3] {
    open spec fn field(&self, path: I0) -> T {
        self@[0]
    }

    fn get_field_(&self, path: I0) -> (r: &T) {
        &self[0]
    }
}

impl<T> GetFieldMut<I0> for [T; 3] {
    open spec fn with_field(self, path: I0, value: T) -> Self {
        spec_array_update(self, 0, value)
    }

    proof fn lemma_field_of_with_field(self, path: I0, value: T) {
    }

    proof fn lemma_with_own_field(self, path: I0) {
        assert(self.with_field(path, self.field(path))@ =~= self@);
    }

    proof fn lemma_with_field_twice(self, path: I0, first: T, second: T) {
        assert(self.with_field(path, first).with_field(path, second)@ =~= self.with_field(
            path,
            second,
        )@);
    }

    fn get_field_mut_(&mut self, path: I0) -> (r: &mut T) {
        &mut self[0]
    }
}

impl<T: Copy> IntoField<I0> for [T; 3] {
    open spec fn yields(self, path: I0, value: T) -> bool {
        value == self@[0]
    }

    fn into_field_(self, path: I0) -> (r: T) {
        self[0]
    }
}

impl<T> FieldType<I1> for [T; 3] {
    type Ty = T;
}

impl<T> GetField<I1> for [T; 3] {
    open spec fn field(&self, path: I1) -> T {
        self@[1]
    }

    fn get_field_(&self, path: I1) -> (r: &T) {
        &self[1]
    }
}

impl<T> GetFieldMut<I1> for [T; 3] {
    open spec fn with_field(self, path: I1, value: T) -> Self {
        spec_array_update(self, 1, value)
    }

    proof fn lemma_field_of_with_field(self, path: I1, value: T) {
    }

    proof fn lemma_with_own_field(self, path: I1) {
        assert(self.with_field(path, self.field(path))@ =~= self@);
    }

    proof fn lemma_with_field_twice(self, path: I1, first: T, second: T) {
        assert(self.with_field(path, first).with_field(path, second)@ =~= self.with_field(
            path,
            second,
        )@);
    }

    fn get_field_mut_(&mut self, path: I1) -> (r: &mut T) {
        &mut self[1]
    }
}

impl<T: Copy> IntoField<I1> for [T; 3] {
    open spec fn yields(self, path: I1, value: T) -> bool {
        value == self@[1]
    }

    fn into_field_(self, path: I1) -> (r: T) {
        self[1]
    }
}

impl<T> FieldType<I2> for [T; 3] {
    type Ty = T;
}

impl<T> GetField<I2> for [T; 3] {
    open spec fn field(&self, path: I2) -> T {
        self@[2]
    }

    fn get_field_(&self, path: I2) -> (r: &T) {
        &self[2]
    }
}

impl<T> GetFieldMut<I2> for [T; 3] {
    open spec fn with_field(self, path: I2, value: T) -> Self {
        spec_array_update(self, 2, value)
    }

    proof fn lemma_field_of_with_field(self, path: I2, value: T) {
    }

    proof fn lemma_with_own_field(self, path: I2) {
        assert(self.with_field(path, self.field(path))@ =~= self@);
    }

    proof fn lemma_with_field_twice(self, path: I2, first: T, second: T) {
        assert(self.with_field(path, first).with_field(path, second)@ =~= self.with_field(
            path,
            second,
        )@);
    }

    fn get_field_mut_(&mut self, path: I2) -> (r: &mut T) {
        &mut self[2]
    }
}

impl<T: Copy> IntoField<I2> for [T; 3] {
    open spec fn yields(self, path: I2, value: T) -> bool {
        value == self@[2]
    }

    fn into_field_(self, path: I2) -> (r: T) {
        self[2]
    }
}

impl<T> FieldType<I0> for [T; 4] {
    type Ty = T;
}

impl<T> GetField<I0> for [T; 4] {
    open spec fn field(&self, path: I0) -> T {
        self@[0]
    }

    fn get_field_(&self, path: I0) -> (r: &T) {
        &self[0]
    }
}

impl<T> GetFieldMut<I0> for [T; 4] {
    open spec fn with_field(self, path: I0, value: T) -> Self {
        spec_array_update(self, 0, value)
    }

    proof fn lemma_field_of_with_field(self, path: I0, value: T) {
    }

    proof fn lemma_with_own_field(self, path: I0) {
        assert(self.with_field(path, self.field(path))@ =~= self@);
    }

    proof fn lemma_with_field_twice(self, path: I0, first: T, second: T) {
        assert(self.with_field(path, first).with_field(path, second)@ =~= self.with_field(
            path,
            second,
        )@);
    }

    fn get_field_mut_(&mut self, path: I0) -> (r: &mut T) {
        &mut self[0]
    }
}

impl<T: Copy> IntoField<I0> for [T; 4] {
    open spec fn yields(self, path: I0, value: T) -> bool {
        value == self@[0]
    }

    fn into_field_(self, path: I0) -> (r: T) {
        self[0]
    }
}

impl<T> FieldType<I1> for [T; 4] {
    type Ty = T;
}

impl<T> GetField<I1> for [T; 4] {
    open spec fn field(&self, path: I1) -> T {
        self@[1]
    }

    fn get_field_(&self, path: I1) -> (r: &T) {
        &self[1]
    }
}

impl<T> GetFieldMut<I1> for [T; 4] {
    open spec fn with_field(self, path: I1, value: T) -> Self {
        spec_array_update(self, 1, value)
    }

    proof fn lemma_field_of_with_field(self, path: I1, value: T) {
    }

    proof fn lemma_with_own_field(self, path: I1) {
        assert(self.with_field(path, self.field(path))@ =~= self@);
    }

    proof fn lemma_with_field_twice(self, path: I1, first: T, second: T) {
        assert(self.with_field(path, first).with_field(path, second)@ =~= self.with_field(
            path,
            second,
        )@);
    }

    fn get_field_mut_(&mut self, path: I1) -> (r: &mut T) {
        &mut self[1]
    }
}

impl<T: Copy> IntoField<I1> for [T; 4] {
    open spec fn yields(self, path: I1, value: T) -> bool {
        value == self@[1]
    }

    fn into_field_(self, path: I1) -> (r: T) {
        self[1]
    }
}

impl<T> FieldType<I2> for [T; 4] {
    type Ty = T;
}

impl<T> GetField<I2> for [T; 4] {
    open spec fn field(&self, path: I2) -> T {
        self@[2]
    }

    fn get_field_(&self, path: I2) -> (r: &T) {
        &self[2]
    }
}

impl<T> GetFieldMut<I2> for [T; 4] {
    open spec fn with_field(self, path: I2, value: T) -> Self {
        spec_array_update(self, 2, value)
    }

    proof fn lemma_field_of_with_field(self, path: I2, value: T) {
    }

    proof fn lemma_with_own_field(self, path: I2) {
        assert(self.with_field(path, self.field(path))@ =~= self@);
    }

    proof fn lemma_with_field_twice(self, path: I2, first: T, second: T) {
        assert(self.with_field(path, first).with_field(path, second)@ =~= self.with_field(
            path,
            second,
        )@);
    }

    fn get_field_mut_(&mut self, path: I2) -> (r: &mut T) {
        &mut self[2]
    }
}

impl<T: Copy> IntoField<I2> for [T; 4] {
    open spec fn yields(self, path: I2, value: T) -> bool {
        value == self@[2]
    }

    fn into_field_(self, path: I2) -> (r: T) {
        self[2]
    }
}

impl<T> FieldType<I3> for [T; 4] {
    type Ty = T;
}

impl<T> GetField<I3> for [T; 4] {
    open spec fn field(&self, path: I3) -> T {
        self@[3]
    }

    fn get_field_(&self, path: I3) -> (r: &T) {
        &self[3]
    }
}

impl<T> GetFieldMut<I3> for [T; 4] {
    open spec fn with_field(self, path: I3, value: T) -> Self {
        spec_array_update(self, 3, value)
    }

    proof fn lemma_field_of_with_field(self, path: I3, value: T) {
    }

    proof fn lemma_with_own_field(self, path: I3) {
        assert(self.with_field(path, self.field(path))@ =~= self@);
    }

    proof fn lemma_with_field_twice(self, path: I3, first: T, second: T) {
        assert(self.with_field(path, first).with_field(path, second)@ =~= self.with_field(
            path,
            second,
        )@);
    }

    fn get_field_mut_(&mut self, path: I3) -> (r: &mut T) {
        &mut self[3]
    }
}

impl<T: Copy> IntoField<I3> for [T; 4] {
    open spec fn yields(self, path: I3, value: T) -> bool {
        value == self@[3]
    }

    fn into_field_(self, path: I3) -> (r: T) {
        self[3]
    }
}

impl<T> FieldType<I0> for [T; 5] {
    type Ty = T;
}

impl<T> GetField<I0> for [T; 5] {
    open spec fn field(&self, path: I0) -> T {
        self@[0]
    }

    fn get_field_(&self, path: I0) -> (r: &T) {
        &self[0]
    }
}

impl<T> GetFieldMut<I0> for [T; 5] {
    open spec fn with_field(self, path: I0, value: T) -> Self {
        spec_array_update(self, 0, value)
    }

    proof fn lemma_field_of_with_field(self, path: I0, value: T) {
    }

    proof fn lemma_with_own_field(self, path: I0) {
        assert(self.with_field(path, self.field(path))@ =~= self@);
    }

    proof fn lemma_with_field_twice(self, path: I0, first: T, second: T) {
        assert(self.with_field(path, first).with_field(path, second)@ =~= self.with_field(
            path,
            second,
        )@);
    }

    fn get_field_mut_(&mut self, path: I0) -> (r: &mut T) {
        &mut self[0]
    }
}

impl<T: Copy> IntoField<I0> for [T; 5] {
    open spec fn yields(self, path: I0, value: T) -> bool {
        value == self@[0]
    }

    fn into_field_(self, path: I0) -> (r: T) {
        self[0]
    }
}

impl<T> FieldType<I1> for [T; 5] {
    type Ty = T;
}

impl<T> GetField<I1> for [T; 5] {
    open spec fn field(&self, path: I1) -> T {
        self@[1]
    }

    fn get_field_(&self, path: I1) -> (r: &T) {
        &self[1]
    }
}

impl<T> GetFieldMut<I1> for [T; 5] {
    open spec fn with_field(self, path: I1, value: T) -> Self {
        spec_array_update(self, 1, value)
    }

    proof fn lemma_field_of_with_field(self, path: I1, value: T) {
    }

    proof fn lemma_with_own_field(self, path: I1) {
        assert(self.with_field(path, self.field(path))@ =~= self@);
    }

    proof fn lemma_with_field_twice(self, path: I1, first: T, second: T) {
        assert(self.with_field(path, first).with_field(path, second)@ =~= self.with_field(
            path,
            second,
        )@);
    }

    fn get_field_mut_(&mut self, path: I1) -> (r: &mut T) {
        &mut self[1]
    }
}

impl<T: Copy> IntoField<I1> for [T; 5] {
    open spec fn yields(self, path: I1, value: T) -> bool {
        value == self@[1]
    }

    fn into_field_(self, path: I1) -> (r: T) {
        self[1]
    }
}

impl<T> FieldType<I2> for [T; 5] {
    type Ty = T;
}

impl<T> GetField<I2> for [T; 5] {
    open spec fn field(&self, path: I2) -> T {
        self@[2]
    }

    fn get_field_(&self, path: I2) -> (r: &T) {
        &self[2]
    }
}

impl<T> GetFieldMut<I2> for [T; 5] {
    open spec fn with_field(self, path: I2, value: T) -> Self {
        spec_array_update(self, 2, value)
    }

    proof fn lemma_field_of_with_field(self, path: I2, value: T) {
    }

    proof fn lemma_with_own_field(self, path: I2) {
        assert(self.with_field(path, self.field(path))@ =~= self@);
    }

    proof fn lemma_with_field_twice(self, path: I2, first: T, second: T) {
        assert(self.with_field(path, first).with_field(path, second)@ =~= self.with_field(
            path,
            second,
        )@);
    }

    fn get_field_mut_(&mut self, path: I2) -> (r: &mut T) {
        &mut self[2]
    }
}

impl<T: Copy> IntoField<I2> for [T; 5] {
    open spec fn yields(self, path: I2, value: T) -> bool {
        value == self@[2]
    }

    fn into_field_(self, path: I2) -> (r: T) {
        self[2]
    }
}

impl<T> FieldType<I3> for [T; 5] {
    type Ty = T;
}

impl<T> GetField<I3> for [T; 5] {
    open spec fn field(&self, path: I3) -> T {
        self@[3]
    }

    fn get_field_(&self, path: I3) -> (r: &T) {
        &self[3]
    }
}

impl<T> GetFieldMut<I3> for [T; 5] {
    open spec fn with_field(self, path: I3, value: T) -> Self {
        spec_array_update(self, 3, value)
    }

    proof fn lemma_field_of_with_field(self, path: I3, value: T) {
    }

    proof fn lemma_with_own_field(self, path: I3) {
        assert(self.with_field(path, self.field(path))@ =~= self@);
    }

    proof fn lemma_with_field_twice(self, path: I3, first: T, second: T) {
        assert(self.with_field(path, first).with_field(path, second)@ =~= self.with_field(
            path,
            second,
        )@);
    }

    fn get_field_mut_(&mut self, path: I3) -> (r: &mut T) {
        &mut self[3]
    }
}

impl<T: Copy> IntoField<I3> for [T; 5] {
    open spec fn yields(self, path: I3, value: T) -> bool {
        value == self@[3]
    }

    fn into_field_(self, path: I3) -> (r: T) {
        self[3]
    }
}

impl<T> FieldType<I4> for [T; 5] {
    type Ty = T;
}

impl<T> GetField<I4> for [T; 5] {
    open spec fn field(&self, path: I4) -> T {
        self@[4]
    }

    fn get_field_(&self, path: I4) -> (r: &T) {
        &self[4]
    }
}

impl<T> GetFieldMut<I4> for [T; 5] {
    open spec fn with_field(self, path: I4, value: T) -> Self {
        spec_array_update(self, 4, value)
    }

    proof fn lemma_field_of_with_field(self, path: I4, value: T) {
    }

    proof fn lemma_with_own_field(self, path: I4) {
        assert(self.with_field(path, self.field(path))@ =~= self@);
    }

    proof fn lemma_with_field_twice(self, path: I4, first: T, second: T) {
        assert(self.with_field(path, first).with_field(path, second)@ =~= self.with_field(
            path,
            second,
        )@);
    }

    fn get_field_mut_(&mut self, path: I4) -> (r: &mut T) {
        &mut self[4]
    }
}

impl<T: Copy> IntoField<I4> for [T; 5] {
    open spec fn yields(self, path: I4, value: T) -> bool {
        value == self@[4]
    }

    fn into_field_(self, path: I4) -> (r: T) {
        self[4]
    }
}

} // verus!
