//! The order in which what is left of a value is destroyed after fields were
//! moved out of it.
//!
//! First the hook that runs before, if the type has hooks. Then the fields
//! that could have been moved out and were not, in the order of their
//! declaration; then the fields that cannot be moved out; then the fields to
//! which access is delegated, which destroy what is left of themselves. Last
//! the hook that runs after.

use crate::ownership::{DropBit, DroppedFields};
use vstd::prelude::*;

verus! {

/// How a field takes part in the destruction of its value.
#[derive(Debug, Clone, Copy)]
pub enum FieldDrop {
    /// The field can be moved out; its `DropBit` tells whether it was.
    Movable(DropBit),
    /// The field cannot be moved out, so it is always dropped in place.
    Fixed,
    /// Access to fields is delegated to this field: it is handed the set of
    /// moved fields and drops what is left of itself.
    Delegate,
}

/// The fields of a type in the order of their declaration, and whether hooks
/// run around their destruction.
pub struct DropLayout {
    pub fields: Vec<FieldDrop>,
    pub pre_post_drop: bool,
}

/// One step of a destruction.
#[derive(Debug, Clone, Copy, PartialEq, Eq)]
pub enum DropStep {
    /// Run the hook that comes before.
    PreDrop,
    /// Drop in place the field at this position.
    Field(usize),
    /// Have the field at this position drop what is left of itself.
    Delegate(usize),
    /// Run the hook that comes after.
    PostDrop,
}

/// The three rounds over the fields.
pub enum Round {
    Movable,
    Fixed,
    Delegate,
}

/// The step that `round` takes for the field `field` at position `i`, if any.
pub open spec fn step_for(round: Round, field: FieldDrop, i: nat, moved: Set<nat>) -> Option<
    DropStep,
> {
    match (round, field) {
        (Round::Movable, FieldDrop::Movable(bit)) => if moved.contains(bit.index()) {
            None
        } else {
            Some(DropStep::Field(i as usize))
        },
        (Round::Fixed, FieldDrop::Fixed) => Some(DropStep::Field(i as usize)),
        (Round::Delegate, FieldDrop::Delegate) => Some(DropStep::Delegate(i as usize)),
        _ => None,
    }
}

/// The steps that `round` takes over the first `upto` fields, in order.
pub open spec fn round_steps(
    round: Round,
    fields: Seq<FieldDrop>,
    moved: Set<nat>,
    upto: nat,
) -> Seq<
    DropStep,
>
    decreases upto,
{
    if upto == 0 {
        Seq::empty()
    } else {
        let before = round_steps(round, fields, moved, (upto - 1) as nat);
        match step_for(round, fields[upto - 1], (upto - 1) as nat, moved) {
            Some(step) => before.push(step),
            None => before,
        }
    }
}

/// The steps over all fields, without the hooks.
pub open spec fn field_steps(fields: Seq<FieldDrop>, moved: Set<nat>) -> Seq<DropStep> {
    round_steps(Round::Movable, fields, moved, fields.len()) + round_steps(
        Round::Fixed,
        fields,
        moved,
        fields.len(),
    ) + round_steps(Round::Delegate, fields, moved, fields.len())
}

/// The whole order of destruction.
pub open spec fn schedule(fields: Seq<FieldDrop>, pre_post_drop: bool, moved: Set<nat>) -> Seq<
    DropStep,
> {
    if pre_post_drop {
        seq![DropStep::PreDrop] + field_steps(fields, moved) + seq![DropStep::PostDrop]
    } else {
        field_steps(fields, moved)
    }
}

/// Whether the field at position `i` is destroyed by the value itself: it is
/// there, and it was not moved out.
pub open spec fn is_left(fields: Seq<FieldDrop>, moved: Set<nat>, i: int) -> bool {
    &&& 0 <= i < fields.len()
    &&& match fields[i] {
        FieldDrop::Movable(bit) => !moved.contains(bit.index()),
        _ => true,
    }
}

/// The step that destroys the field at position `i`.
pub open spec fn step_of(fields: Seq<FieldDrop>, i: int) -> DropStep {
    match fields[i] {
        FieldDrop::Delegate => DropStep::Delegate(i as usize),
        _ => DropStep::Field(i as usize),
    }
}

fn push_round(
    steps: &mut Vec<DropStep>,
    round: Round,
    layout: &DropLayout,
    moved: DroppedFields,
)
    ensures
        final(steps)@ == old(steps)@ + round_steps(
            round,
            layout.fields@,
            moved@,
            layout.fields@.len(),
        ),
{
    let n: usize = layout.fields.len();
    let mut i: usize = 0;
    while i < n
        invariant
            i <= n,
            n == layout.fields@.len(),
            steps@ == old(steps)@ + round_steps(round, layout.fields@, moved@, i as nat),
        decreases n - i,
    {
        let field = layout.fields[i];
        let ghost before = steps@;
        match (&round, field) {
            (Round::Movable, FieldDrop::Movable(bit)) => {
                if !moved.is_dropped(bit) {
                    steps.push(DropStep::Field(i));
                }
            },
            (Round::Fixed, FieldDrop::Fixed) => {
                steps.push(DropStep::Field(i));
            },
            (Round::Delegate, FieldDrop::Delegate) => {
                steps.push(DropStep::Delegate(i));
            },
            _ => {},
        }
        proof {
            let prev = round_steps(round, layout.fields@, moved@, i as nat);
            match step_for(round, layout.fields@[i as int], i as nat, moved@) {
                Some(step) => {
                    assert(steps@ =~= old(steps)@ + prev.push(step));
                },
                None => {},
            }
        }
        i += 1;
    }
}

/// Computes the order in which what is left of a value is destroyed, for a
/// type with the fields of `layout`, after the fields in `moved` were moved
/// out.
pub fn drop_schedule(layout: &DropLayout, moved: DroppedFields) -> (r: Vec<DropStep>)
    ensures
        r@ == schedule(layout.fields@, layout.pre_post_drop, moved@),
{
    let mut steps: Vec<DropStep> = Vec::new();
    if layout.pre_post_drop {
        steps.push(DropStep::PreDrop);
    }
    push_round(&mut steps, Round::Movable, layout, moved);
    push_round(&mut steps, Round::Fixed, layout, moved);
    push_round(&mut steps, Round::Delegate, layout, moved);
    if layout.pre_post_drop {
        steps.push(DropStep::PostDrop);
    }
    proof {
        assert(steps@ =~= schedule(layout.fields@, layout.pre_post_drop, moved@));
    }
    steps
}

/// A round holds exactly the steps that it takes for the fields it went
/// over.
pub proof fn lemma_round_contains(
    round: Round,
    fields: Seq<FieldDrop>,
    moved: Set<nat>,
    upto: nat,
    step: DropStep,
)
    requires
        upto <= fields.len(),
    ensures
        round_steps(round, fields, moved, upto).contains(step) <==> exists|i: int|
            0 <= i < upto && #[trigger] step_for(round, fields[i], i as nat, moved) == Some(step),
    decreases upto,
{
    if upto > 0 {
        let before = round_steps(round, fields, moved, (upto - 1) as nat);
        lemma_round_contains(round, fields, moved, (upto - 1) as nat, step);
        let last = step_for(round, fields[upto - 1], (upto - 1) as nat, moved);
        let all = round_steps(round, fields, moved, upto);
        if all.contains(step) {
            let k = choose|k: int| 0 <= k < all.len() && all[k] == step;
            if last is Some && k == all.len() - 1 {
                assert(step_for(round, fields[upto - 1], (upto - 1) as nat, moved) == Some(step));
            } else {
                assert(before[k] == step);
                assert(before.contains(step));
            }
        }
        if exists|i: int|
            0 <= i < upto && #[trigger] step_for(round, fields[i], i as nat, moved) == Some(step) {
            let i = choose|i: int|
                0 <= i < upto && #[trigger] step_for(round, fields[i], i as nat, moved) == Some(
                    step,
                );
            if i == upto - 1 {
                assert(all[all.len() - 1] == step);
            } else {
                assert(before.contains(step));
                let k = choose|k: int| 0 <= k < before.len() && before[k] == step;
                assert(all[k] == step);
            }
        }
    }
}

/// No round takes the same step twice.
pub proof fn lemma_round_no_duplicates(
    round: Round,
    fields: Seq<FieldDrop>,
    moved: Set<nat>,
    upto: nat,
)
    requires
        upto <= fields.len() <= usize::MAX,
    ensures
        round_steps(round, fields, moved, upto).no_duplicates(),
    decreases upto,
{
    if upto > 0 {
        let before = round_steps(round, fields, moved, (upto - 1) as nat);
        lemma_round_no_duplicates(round, fields, moved, (upto - 1) as nat);
        match step_for(round, fields[upto - 1], (upto - 1) as nat, moved) {
            Some(step) => {
                lemma_round_contains(round, fields, moved, (upto - 1) as nat, step);
                assert(!before.contains(step));
                let all = before.push(step);
                assert forall|a: int, b: int|
                    0 <= a < all.len() && 0 <= b < all.len() && a != b implies all[a] != all[b] by {
                    if a < before.len() && b < before.len() {
                    } else if a < before.len() {
                        assert(before.contains(all[a]));
                    } else {
                        assert(before.contains(all[b]));
                    }
                }
            },
            None => {},
        }
    }
}

/// Every field that is left is destroyed, and no field that was moved out
/// is: the step of a field stands in the order exactly when the field was
/// not moved out.
pub proof fn lemma_left_fields_are_dropped(
    fields: Seq<FieldDrop>,
    pre_post_drop: bool,
    moved: Set<nat>,
    i: int,
)
    requires
        0 <= i < fields.len() <= usize::MAX,
    ensures
        schedule(fields, pre_post_drop, moved).contains(step_of(fields, i)) <==> is_left(
            fields,
            moved,
            i,
        ),
{
    let n = fields.len();
    let step = step_of(fields, i);
    let r0 = round_steps(Round::Movable, fields, moved, n);
    let r1 = round_steps(Round::Fixed, fields, moved, n);
    let r2 = round_steps(Round::Delegate, fields, moved, n);
    lemma_round_contains(Round::Movable, fields, moved, n, step);
    lemma_round_contains(Round::Fixed, fields, moved, n, step);
    lemma_round_contains(Round::Delegate, fields, moved, n, step);
    let all = field_steps(fields, moved);
    let whole = schedule(fields, pre_post_drop, moved);
    lemma_concat_contains(r0, r1, step);
    lemma_concat_contains(r0 + r1, r2, step);
    if pre_post_drop {
        lemma_concat_contains(seq![DropStep::PreDrop], all, step);
        lemma_concat_contains(seq![DropStep::PreDrop] + all, seq![DropStep::PostDrop], step);
        assert(seq![DropStep::PreDrop].contains(step) ==> seq![DropStep::PreDrop][0] == step);
        assert(seq![DropStep::PostDrop].contains(step) ==> seq![DropStep::PostDrop][0] == step);
    }
    assert(whole.contains(step) <==> r0.contains(step) || r1.contains(step) || r2.contains(step));
    if is_left(fields, moved, i) {
        match fields[i] {
            FieldDrop::Movable(_) => {
                assert(step_for(Round::Movable, fields[i], i as nat, moved) == Some(step));
            },
            FieldDrop::Fixed => {
                assert(step_for(Round::Fixed, fields[i], i as nat, moved) == Some(step));
            },
            FieldDrop::Delegate => {
                assert(step_for(Round::Delegate, fields[i], i as nat, moved) == Some(step));
            },
        }
    }
}

/// Something stands in two sequences put together exactly when it stands in
/// one of them.
pub proof fn lemma_concat_contains(a: Seq<DropStep>, b: Seq<DropStep>, step: DropStep)
    ensures
        (a + b).contains(step) <==> a.contains(step) || b.contains(step),
{
    if a.contains(step) {
        let k = choose|k: int| 0 <= k < a.len() && a[k] == step;
        assert((a + b)[k] == step);
    }
    if b.contains(step) {
        let k = choose|k: int| 0 <= k < b.len() && b[k] == step;
        assert((a + b)[a.len() + k] == step);
    }
    if (a + b).contains(step) {
        let k = choose|k: int| 0 <= k < (a + b).len() && (a + b)[k] == step;
        if k < a.len() {
            assert(a[k] == step);
        } else {
            assert(b[k - a.len()] == step);
        }
    }
}

/// No step is taken twice: nothing is dropped two times over.
pub proof fn lemma_schedule_no_duplicates(
    fields: Seq<FieldDrop>,
    pre_post_drop: bool,
    moved: Set<nat>,
)
    requires
        fields.len() <= usize::MAX,
    ensures
        schedule(fields, pre_post_drop, moved).no_duplicates(),
{
    let n = fields.len();
    let r0 = round_steps(Round::Movable, fields, moved, n);
    let r1 = round_steps(Round::Fixed, fields, moved, n);
    let r2 = round_steps(Round::Delegate, fields, moved, n);
    lemma_round_no_duplicates(Round::Movable, fields, moved, n);
    lemma_round_no_duplicates(Round::Fixed, fields, moved, n);
    lemma_round_no_duplicates(Round::Delegate, fields, moved, n);
    assert forall|a: int, b: int| 0 <= a < r0.len() && 0 <= b < r1.len() implies r0[a] != r1[b] by {
        let step = r0[a];
        assert(r0.contains(step));
        lemma_round_contains(Round::Movable, fields, moved, n, step);
        if r1[b] == step {
            assert(r1.contains(step));
            lemma_round_contains(Round::Fixed, fields, moved, n, step);
        }
    }
    vstd::seq_lib::lemma_no_dup_in_concat(r0, r1);
    assert forall|a: int, b: int| 0 <= a < (r0 + r1).len() && 0 <= b < r2.len() implies (r0
        + r1)[a] != r2[b] by {
        let step = r2[b];
        assert(r2.contains(step));
        lemma_round_contains(Round::Delegate, fields, moved, n, step);
        if (r0 + r1)[a] == step {
            assert((r0 + r1).contains(step));
            lemma_concat_contains(r0, r1, step);
            lemma_round_contains(Round::Movable, fields, moved, n, step);
            lemma_round_contains(Round::Fixed, fields, moved, n, step);
        }
    }
    vstd::seq_lib::lemma_no_dup_in_concat(r0 + r1, r2);
    let all = field_steps(fields, moved);
    if pre_post_drop {
        let pre = seq![DropStep::PreDrop];
        let post = seq![DropStep::PostDrop];
        assert forall|a: int, b: int| 0 <= a < pre.len() && 0 <= b < all.len() implies pre[a]
            != all[b] by {
            let step = all[b];
            assert(all.contains(step));
            lemma_concat_contains(r0 + r1, r2, step);
            lemma_concat_contains(r0, r1, step);
            lemma_round_contains(Round::Movable, fields, moved, n, step);
            lemma_round_contains(Round::Fixed, fields, moved, n, step);
            lemma_round_contains(Round::Delegate, fields, moved, n, step);
        }
        vstd::seq_lib::lemma_no_dup_in_concat(pre, all);
        assert forall|a: int, b: int| 0 <= a < (pre + all).len() && 0 <= b < post.len() implies (pre
            + all)[a] != post[b] by {
            let step = (pre + all)[a];
            assert((pre + all).contains(step));
            lemma_concat_contains(pre, all, step);
            lemma_concat_contains(r0 + r1, r2, step);
            lemma_concat_contains(r0, r1, step);
            lemma_round_contains(Round::Movable, fields, moved, n, step);
            lemma_round_contains(Round::Fixed, fields, moved, n, step);
            lemma_round_contains(Round::Delegate, fields, moved, n, step);
            assert(pre.contains(step) ==> pre[0] == step);
        }
        vstd::seq_lib::lemma_no_dup_in_concat(pre + all, post);
    }
}

} // verus!
