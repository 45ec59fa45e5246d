//! Several positions of a tuple at once, named in increasing order.

use crate::field::split::{
    IntoFields2, IntoFields3, IntoFields4, SplitFieldsMut2, SplitFieldsMut3, SplitFieldsMut4,
};
use crate::path::names::{I0, I1, I2, I3};
use vstd::prelude::*;

verus! {

impl<A, B> SplitFieldsMut2<I0, I1> for (A, B) {
    proof fn lemma_fields_apart2(self, p0: I0, p1: I1, v0: A, v1: B) {
    }

    fn split_fields_mut2(&mut self, p0: I0, p1: I1) -> (r: (&mut A, &mut B)) {
        (&mut self.0, &mut self.1)
    }
}

impl<A, B> IntoFields2<I0, I1> for (A, B) {
    fn into_fields2(self, p0: I0, p1: I1) -> (r: (A, B)) {
        (self.0, self.1)
    }
}

impl<A, B, C> SplitFieldsMut2<I0, I1> for (A, B, C) {
    proof fn lemma_fields_apart2(self, p0: I0, p1: I1, v0: A, v1: B) {
    }

    fn split_fields_mut2(&mut self, p0: I0, p1: I1) -> (r: (&mut A, &mut B)) {
        (&mut self.0, &mut self.1)
    }
}

impl<A, B, C> IntoFields2<I0, I1> for (A, B, C) {
    fn into_fields2(self, p0: I0, p1: I1) -> (r: (A, B)) {
        (self.0, self.1)
    }
}

impl<A, B, C> SplitFieldsMut2<I0, I2> for (A, B, C) {
    proof fn lemma_fields_apart2(self, p0: I0, p1: I2, v0: A, v1: C) {
    }

    fn split_fields_mut2(&mut self, p0: I0, p1: I2) -> (r: (&mut A, &mut C)) {
        (&mut self.0, &mut self.2)
    }
}

impl<A, B, C> IntoFields2<I0, I2> for (A, B, C) {
    fn into_fields2(self, p0: I0, p1: I2) -> (r: (A, C)) {
        (self.0, self.2)
    }
}

impl<A, B, C> SplitFieldsMut2<I1, I2> for (A, B, C) {
    proof fn lemma_fields_apart2(self, p0: I1, p1: I2, v0: B, v1: C) {
    }

    fn split_fields_mut2(&mut self, p0: I1, p1: I2) -> (r: (&mut B, &mut C)) {
        (&mut self.1, &mut self.2)
    }
}

impl<A, B, C> IntoFields2<I1, I2> for (A, B, C) {
    fn into_fields2(self, p0: I1, p1: I2) -> (r: (B, C)) {
        (self.1, self.2)
    }
}

impl<A, B, C> SplitFieldsMut3<I0, I1, I2> for (A, B, C) {
    proof fn lemma_fields_apart3(self, p0: I0, p1: I1, p2: I2, v0: A, v1: B, v2: C) {
    }

    fn split_fields_mut3(&mut self, p0: I0, p1: I1, p2: I2) -> (r: (&mut A, &mut B, &mut C)) {
        (&mut self.0, &mut self.1, &mut self.2)
    }
}

impl<A, B, C> IntoFields3<I0, I1, I2> for (A, B, C) {
    fn into_fields3(self, p0: I0, p1: I1, p2: I2) -> (r: (A, B, C)) {
        (self.0, self.1, self.2)
    }
}

impl<A, B, C, D> SplitFieldsMut2<I0, I1> for (A, B, C, D) {
    proof fn lemma_fields_apart2(self, p0: I0, p1: I1, v0: A, v1: B) {
    }

    fn split_fields_mut2(&mut self, p0: I0, p1: I1) -> (r: (&mut A, &mut B)) {
        (&mut self.0, &mut self.1)
    }
}

impl<A, B, C, D> IntoFields2<I0, I1> for (A, B, C, D) {
    fn into_fields2(self, p0: I0, p1: I1) -> (r: (A, B)) {
        (self.0, self.1)
    }
}

impl<A, B, C, D> SplitFieldsMut2<I0, I2> for (A, B, C, D) {
    proof fn lemma_fields_apart2(self, p0: I0, p1: I2, v0: A, v1: C) {
    }

    fn split_fields_mut2(&mut self, p0: I0, p1: I2) -> (r: (&mut A, &mut C)) {
        (&mut self.0, &mut self.2)
    }
}

impl<A, B, C, D> IntoFields2<I0, I2> for (A, B, C, D) {
    fn into_fields2(self, p0: I0, p1: I2) -> (r: (A, C)) {
        (self.0, self.2)
    }
}

impl<A, B, C, D> SplitFieldsMut2<I0, I3> for (A, B, C, D) {
    proof fn lemma_fields_apart2(self, p0: I0, p1: I3, v0: A, v1: D) {
    }

    fn split_fields_mut2(&mut self, p0: I0, p1: I3) -> (r: (&mut A, &mut D)) {
        (&mut self.0, &mut self.3)
    }
}

impl<A, B, C, D> IntoFields2<I0, I3> for (A, B, C, D) {
    fn into_fields2(self, p0: I0, p1: I3) -> (r: (A, D)) {
        (self.0, self.3)
    }
}

impl<A, B, C, D> SplitFieldsMut2<I1, I2> for (A, B, C, D) {
    proof fn lemma_fields_apart2(self, p0: I1, p1: I2, v0: B, v1: C) {
    }

    fn split_fields_mut2(&mut self, p0: I1, p1: I2) -> (r: (&mut B, &mut C)) {
        (&mut self.1, &mut self.2)
    }
}

impl<A, B, C, D> IntoFields2<I1, I2> for (A, B, C, D) {
    fn into_fields2(self, p0: I1, p1: I2) -> (r: (B, C)) {
        (self.1, self.2)
    }
}

impl<A, B, C, D> SplitFieldsMut2<I1, I3> for (A, B, C, D) {
    proof fn lemma_fields_apart2(self, p0: I1, p1: I3, v0: B, v1: D) {
    }

    fn split_fields_mut2(&mut self, p0: I1, p1: I3) -> (r: (&mut B, &mut D)) {
        (&mut self.1, &mut self.3)
    }
}

impl<A, B, C, D> IntoFields2<I1, I3> for (A, B, C, D) {
    fn into_fields2(self, p0: I1, p1: I3) -> (r: (B, D)) {
        (self.1, self.3)
    }
}

impl<A, B, C, D> SplitFieldsMut2<I2, I3> for (A, B, C, D) {
    proof fn lemma_fields_apart2(self, p0: I2, p1: I3, v0: C, v1: D) {
    }

    fn split_fields_mut2(&mut self, p0: I2, p1: I3) -> (r: (&mut C, &mut D)) {
        (&mut self.2, &mut self.3)
    }
}

impl<A, B, C, D> IntoFields2<I2, I3> for (A, B, C, D) {
    fn into_fields2(self, p0: I2, p1: I3) -> (r: (C, D)) {
        (self.2, self.3)
    }
}

impl<A, B, C, D> SplitFieldsMut3<I0, I1, I2> for (A, B, C, D) {
    proof fn lemma_fields_apart3(self, p0: I0, p1: I1, p2: I2, v0: A, v1: B, v2: C) {
    }

    fn split_fields_mut3(&mut self, p0: I0, p1: I1, p2: I2) -> (r: (&mut A, &mut B, &mut C)) {
        (&mut self.0, &mut self.1, &mut self.2)
    }
}

impl<A, B, C, D> IntoFields3<I0, I1, I2> for (A, B, C, D) {
    fn into_fields3(self, p0: I0, p1: I1, p2: I2) -> (r: (A, B, C)) {
        (self.0, self.1, self.2)
    }
}

impl<A, B, C, D> SplitFieldsMut3<I0, I1, I3> for (A, B, C, D) {
    proof fn lemma_fields_apart3(self, p0: I0, p1: I1, p2: I3, v0: A, v1: B, v2: D) {
    }

    fn split_fields_mut3(&mut self, p0: I0, p1: I1, p2: I3) -> (r: (&mut A, &mut B, &mut D)) {
        (&mut self.0, &mut self.1, &mut self.3)
    }
}

impl<A, B, C, D> IntoFields3<I0, I1, I3> for (A, B, C, D) {
    fn into_fields3(self, p0: I0, p1: I1, p2: I3) -> (r: (A, B, D)) {
        (self.0, self.1, self.3)
    }
}

impl<A, B, C, D> SplitFieldsMut3<I0, I2, I3> for (A, B, C, D) {
    proof fn lemma_fields_apart3(self, p0: I0, p1: I2, p2: I3, v0: A, v1: C, v2: D) {
    }

    fn split_fields_mut3(&mut self, p0: I0, p1: I2, p2: I3) -> (r: (&mut A, &mut C, &mut D)) {
        (&mut self.0, &mut self.2, &mut self.3)
    }
}

impl<A, B, C, D> IntoFields3<I0, I2, I3> for (A, B, C, D) {
    fn into_fields3(self, p0: I0, p1: I2, p2: I3) -> (r: (A, C, D)) {
        (self.0, self.2, self.3)
    }
}

impl<A, B, C, D> SplitFieldsMut3<I1, I2, I3> for (A, B, C, D) {
    proof fn lemma_fields_apart3(self, p0: I1, p1: I2, p2: I3, v0: B, v1: C, v2: D) {
    }

    fn split_fields_mut3(&mut self, p0: I1, p1: I2, p2: I3) -> (r: (&mut B, &mut C, &mut D)) {
        (&mut self.1, &mut self.2, &mut self.3)
    }
}

impl<A, B, C, D> IntoFields3<I1, I2, I3> for (A, B, C, D) {
    fn into_fields3(self, p0: I1, p1: I2, p2: I3) -> (r: (B, C, D)) {
        (self.1, self.2, self.3)
    }
}

impl<A, B, C, D> SplitFieldsMut4<I0, I1, I2, I3> for (A, B, C, D) {
    proof fn lemma_fields_apart4(self, p0: I0, p1: I1, p2: I2, p3: I3, v0: A, v1: B, v2: C, v3: D) {
    }

    fn split_fields_mut4(
        &mut self,
        p0: I0,
        p1: I1,
        p2: I2,
        p3: I3,
    ) -> (r: (&mut A, &mut B, &mut C, &mut D)) {
        (&mut self.0, &mut self.1, &mut self.2, &mut self.3)
    }
}

impl<A, B, C, D> IntoFields4<I0, I1, I2, I3> for (A, B, C, D) {
    fn into_fields4(self, p0: I0, p1: I1, p2: I2, p3: I3) -> (r: (A, B, C, D)) {
        (self.0, self.1, self.2, self.3)
    }
}

} // verus!
