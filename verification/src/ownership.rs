//! Bookkeeping for values whose fields are moved out one by one: which
//! fields are gone already, and so must not be dropped again.

use vstd::prelude::*;

pub mod on_drop;
pub mod schedule;

verus! {

/// Hooks that run around the destruction of a value's fields.
///
/// Both do nothing unless a type says otherwise.
pub trait PrePostDropFields {
    /// Runs before any field is dropped.
    fn pre_drop(&mut self) {
    }

    /// Runs after the fields that were not moved out are dropped.
    fn post_drop(&mut self) {
    }
}

/// For values that can destroy what is left of them after some of their
/// fields were moved out.
pub trait DropFields {
    /// Drops all the fields that were not moved out; `dropped` says which
    /// fields are gone already.
    fn drop_fields(&mut self, dropped: DroppedFields)
        ensures
            old(self).left_by_drop(dropped, final(self)),
    ;

    /// Whether `after` may be what is left of `self` once the fields that
    /// were not moved out are dropped. A type that says nothing here allows
    /// anything to be left.
    open spec fn left_by_drop(&self, dropped: DroppedFields, after: &Self) -> bool {
        true
    }
}

/// The number of fields that a [`DroppedFields`] can tell apart.
pub const FIELD_LIMIT: u8 = 64;

/// The mask with only the bit at position `i` set.
pub open spec fn bit_mask(i: nat) -> u64 {
    1u64 << (i as u64)
}

proof fn lemma_masks_differ(i: u64, j: u64)
    by (bit_vector)
    requires
        i < 64,
        j < 64,
        1u64 << i == 1u64 << j,
    ensures
        i == j,
{
}

proof fn lemma_or_mask(x: u64, b: u64, i: u64)
    by (bit_vector)
    requires
        b < 64,
        i < 64,
    ensures
        (((x | (1u64 << b)) >> i) & 1 == 1) <==> (((x >> i) & 1 == 1) || i == b),
{
}

proof fn lemma_and_mask(x: u64, b: u64)
    by (bit_vector)
    requires
        b < 64,
    ensures
        ((x & (1u64 << b)) != 0) <==> ((x >> b) & 1 == 1),
{
}

proof fn lemma_zero_has_no_bit(i: u64)
    by (bit_vector)
    requires
        i < 64,
    ensures
        (0u64 >> i) & 1 == 0,
{
}

/// Represents the index for a field in [`DroppedFields`].
#[derive(Debug, Clone, Copy, PartialEq, Eq, Hash)]
pub struct DropBit(u64);

impl DropBit {
    /// Whether this value stands for exactly one index. Every `DropBit` that
    /// a program holds does.
    #[verifier::type_invariant]
    pub closed spec fn has_one_bit(self) -> bool {
        exists|i: nat| i < 64 && self.0 == bit_mask(i)
    }

    /// The index that this value stands for, always below 64.
    pub closed spec fn index(self) -> nat {
        let i = choose|i: nat| i < 64 && self.0 == bit_mask(i);
        if i < 64 {
            i
        } else {
            0
        }
    }

    /// The `DropBit` of the field with index `bit`.
    pub fn new(bit: u8) -> (r: Self)
        requires
            bit < FIELD_LIMIT,
        ensures
            r.index() == bit,
            r.has_one_bit(),
    {
        let mask: u64 = 1u64 << (bit as u64);
        proof {
            let i = bit as nat;
            assert(i < 64 && mask == bit_mask(i));
            let k = choose|k: nat| k < 64 && mask == bit_mask(k);
            lemma_masks_differ(k as u64, bit as u64);
        }
        DropBit(mask)
    }

    /// The index tells which `DropBit` it is: two that stand for the same
    /// index are the same value.
    pub proof fn lemma_index_determines(self, other: Self)
        requires
            self.has_one_bit(),
            other.has_one_bit(),
            self.index() == other.index(),
        ensures
            self == other,
    {
    }

    /// Every index is below [`FIELD_LIMIT`].
    pub proof fn lemma_index_bound(self)
        ensures
            self.index() < FIELD_LIMIT,
    {
    }
}

/// Which fields have been dropped for a type.
///
/// This is used while moving fields out of a value.
#[derive(Debug, Clone, Copy)]
pub struct DroppedFields(u64);

impl View for DroppedFields {
    type V = Set<nat>;

    /// The indices of the fields that are marked as dropped.
    closed spec fn view(&self) -> Set<nat> {
        Set::new(|i: nat| i < 64 && (self.0 >> (i as u64)) & 1 == 1)
    }
}

impl DroppedFields {
    /// A set in which no field is marked.
    pub fn new() -> (r: Self)
        ensures
            r@ == Set::<nat>::empty(),
    {
        let r = DroppedFields(0);
        proof {
            assert forall|i: nat| !r@.contains(i) by {
                if i < 64 {
                    lemma_zero_has_no_bit(i as u64);
                }
            }
            assert(r@ =~= Set::<nat>::empty());
        }
        r
    }

    /// Marks the field of `bit` as dropped.
    pub fn set_dropped(&mut self, bit: DropBit)
        ensures
            final(self)@ == old(self)@.insert(bit.index()),
    {
        proof {
            use_type_invariant(&bit);
        }
        let ghost before = self.0;
        self.0 = self.0 | bit.0;
        proof {
            let b = bit.index();
            assert forall|i: nat| self@.contains(i) <==> old(self)@.insert(b).contains(i) by {
                if i < 64 {
                    lemma_or_mask(before, b as u64, i as u64);
                }
            }
            assert(self@ =~= old(self)@.insert(b));
        }
    }

    /// Whether the field of `bit` is marked as dropped.
    pub fn is_dropped(&self, bit: DropBit) -> (r: bool)
        ensures
            r == self@.contains(bit.index()),
    {
        proof {
            use_type_invariant(&bit);
            lemma_and_mask(self.0, bit.index() as u64);
        }
        (self.0 & bit.0) != 0
    }

    /// Only indices below [`FIELD_LIMIT`] are ever marked.
    pub proof fn lemma_view_bound(self, i: nat)
        requires
            self@.contains(i),
        ensures
            i < FIELD_LIMIT,
    {
    }
}

} // verus!
