use std::cell::RefCell;

use structural::ownership::on_drop::{AndMovedOutFields, RunDropFields, RunPostDrop};
use structural::ownership::schedule::{drop_schedule, DropLayout, DropStep, FieldDrop};
use structural::ownership::{DropBit, DropFields, DroppedFields, PrePostDropFields};

type Log = RefCell<Vec<u8>>;

struct PushOnDrop<'a> {
    value: u32,
    log: &'a Log,
    id: u8,
}

impl<'a> PushOnDrop<'a> {
    fn new(value: u32, log: &'a Log, id: u8) -> Self {
        PushOnDrop { value, log, id }
    }

    fn into_inner(self) -> u32 {
        self.value
    }
}

impl<'a> Drop for PushOnDrop<'a> {
    fn drop(&mut self) {
        self.log.borrow_mut().push(self.id);
    }
}

const A: u8 = 0;
const C: u8 = 1;
const E: u8 = 2;
const G: u8 = 3;

// The fields `a`, `c`, `e` and `g` can be moved out; `cell`, `b`, `d` and `f` cannot.
struct PrePostStructA<'a> {
    cell: &'a Log,
    fields: [Option<PushOnDrop<'a>>; 7],
}

impl<'a> PrePostStructA<'a> {
    fn new(cell: &'a Log) -> Self {
        cell.borrow_mut().clear();
        assert!(cell.borrow().is_empty());
        PrePostStructA {
            cell,
            fields: [
                Some(PushOnDrop::new(3, cell, 1)),
                Some(PushOnDrop::new(5, cell, 2)),
                Some(PushOnDrop::new(8, cell, 3)),
                Some(PushOnDrop::new(13, cell, 4)),
                Some(PushOnDrop::new(21, cell, 5)),
                Some(PushOnDrop::new(34, cell, 6)),
                Some(PushOnDrop::new(55, cell, 7)),
            ],
        }
    }

    fn layout() -> DropLayout {
        DropLayout {
            fields: vec![
                FieldDrop::Fixed,
                FieldDrop::Movable(DropBit::new(A)),
                FieldDrop::Fixed,
                FieldDrop::Movable(DropBit::new(C)),
                FieldDrop::Fixed,
                FieldDrop::Movable(DropBit::new(E)),
                FieldDrop::Fixed,
                FieldDrop::Movable(DropBit::new(G)),
            ],
            pre_post_drop: true,
        }
    }

    // Position 0 of the layout is `cell`; the others are the slots of `fields`.
    fn move_out(&mut self, bit: u8, moved: &mut DroppedFields) -> PushOnDrop<'a> {
        moved.set_dropped(DropBit::new(bit));
        self.fields[2 * bit as usize].take().unwrap()
    }
}

impl<'a> PrePostDropFields for PrePostStructA<'a> {
    fn pre_drop(&mut self) {
        self.cell.borrow_mut().push(254);
    }

    fn post_drop(&mut self) {
        self.cell.borrow_mut().push(255);
    }
}

impl<'a> DropFields for PrePostStructA<'a> {
    fn drop_fields(&mut self, dropped: DroppedFields) {
        for step in drop_schedule(&Self::layout(), dropped) {
            match step {
                DropStep::PreDrop => self.pre_drop(),
                DropStep::Field(0) => {}
                DropStep::Field(i) => drop(self.fields[i - 1].take().unwrap()),
                DropStep::Delegate(_) => unreachable!(),
                DropStep::PostDrop => RunPostDrop::new(self).run(),
            }
        }
    }
}

trait Moves<'a>: DropFields + Sized {
    fn moves_out(&mut self, bit: u8, moved: &mut DroppedFields) -> PushOnDrop<'a>;

    fn into_two(self, first: u8, second: u8) -> (PushOnDrop<'a>, PushOnDrop<'a>) {
        let mut this = AndMovedOutFields::new(self);
        let pair = {
            let (value, moved) = this.inner_and_moved_mut();
            let x = value.moves_out(first, moved);
            let y = value.moves_out(second, moved);
            (x, y)
        };
        std::mem::forget(this.finish());
        pair
    }
}

impl<'a> Moves<'a> for PrePostStructA<'a> {
    fn moves_out(&mut self, bit: u8, moved: &mut DroppedFields) -> PushOnDrop<'a> {
        self.move_out(bit, moved)
    }
}

fn wrap(before: &[u8], middle: &[u8], after: &[u8], tail: &[u8]) -> Vec<u8> {
    let mut all = before.to_vec();
    all.extend_from_slice(middle);
    all.extend_from_slice(after);
    all.extend_from_slice(tail);
    all
}

fn pre_post_drop_test<'a, T: Moves<'a>>(
    arr: &'a Log,
    make: impl Fn(&'a Log) -> T,
    before: &[u8],
    after: &[u8],
) {
    {
        let this = make(arr);
        let (a, c) = this.into_two(A, C);

        assert_eq!(&arr.borrow()[..], &wrap(before, &[254, 5, 7, 2, 4, 6, 255], after, &[])[..]);
        assert_eq!(a.into_inner(), 3);
        assert_eq!(&arr.borrow()[..], &wrap(before, &[254, 5, 7, 2, 4, 6, 255], after, &[1])[..]);
        assert_eq!(c.into_inner(), 8);
        assert_eq!(
            &arr.borrow()[..],
            &wrap(before, &[254, 5, 7, 2, 4, 6, 255], after, &[1, 3])[..]
        );
    }
    {
        let this = make(arr);
        let (c, e) = this.into_two(C, E);
        assert_eq!(&arr.borrow()[..], &wrap(before, &[254, 1, 7, 2, 4, 6, 255], after, &[])[..]);
        assert_eq!(c.into_inner(), 8);
        assert_eq!(&arr.borrow()[..], &wrap(before, &[254, 1, 7, 2, 4, 6, 255], after, &[3])[..]);
        assert_eq!(e.into_inner(), 21);
        assert_eq!(
            &arr.borrow()[..],
            &wrap(before, &[254, 1, 7, 2, 4, 6, 255], after, &[3, 5])[..]
        );
    }
    {
        let this = make(arr);
        let (e, g) = this.into_two(E, G);
        assert_eq!(&arr.borrow()[..], &wrap(before, &[254, 1, 3, 2, 4, 6, 255], after, &[])[..]);
        assert_eq!(e.into_inner(), 21);
        assert_eq!(&arr.borrow()[..], &wrap(before, &[254, 1, 3, 2, 4, 6, 255], after, &[5])[..]);
        assert_eq!(g.into_inner(), 55);
        assert_eq!(
            &arr.borrow()[..],
            &wrap(before, &[254, 1, 3, 2, 4, 6, 255], after, &[5, 7])[..]
        );
    }
}

#[test]
fn drop_order_struct() {
    let arr = RefCell::new(Vec::new());
    pre_post_drop_test(&arr, PrePostStructA::new, &[], &[]);
}

enum PrePostEnum<'a> {
    Variant(PrePostStructA<'a>),
}

impl<'a> DropFields for PrePostEnum<'a> {
    fn drop_fields(&mut self, dropped: DroppedFields) {
        let PrePostEnum::Variant(fields) = self;
        fields.drop_fields(dropped);
    }
}

impl<'a> Moves<'a> for PrePostEnum<'a> {
    fn moves_out(&mut self, bit: u8, moved: &mut DroppedFields) -> PushOnDrop<'a> {
        let PrePostEnum::Variant(fields) = self;
        fields.move_out(bit, moved)
    }
}

#[test]
fn drop_order_enum() {
    let arr = RefCell::new(Vec::new());
    pre_post_drop_test(&arr, |cell| PrePostEnum::Variant(PrePostStructA::new(cell)), &[], &[]);
}

// Access to fields is delegated to `value`; `cell`, `f0` and `f1` are the type's own.
struct PrePostStructDeleg<'a, T> {
    cell: &'a Log,
    value: T,
    f0: Option<PushOnDrop<'a>>,
    f1: Option<PushOnDrop<'a>>,
    pre: u8,
    post: u8,
}

impl<'a, T> PrePostStructDeleg<'a, T> {
    fn layout() -> DropLayout {
        DropLayout {
            fields: vec![FieldDrop::Fixed, FieldDrop::Delegate, FieldDrop::Fixed, FieldDrop::Fixed],
            pre_post_drop: true,
        }
    }
}

impl<'a, T> PrePostDropFields for PrePostStructDeleg<'a, T> {
    fn pre_drop(&mut self) {
        self.cell.borrow_mut().push(self.pre);
    }

    fn post_drop(&mut self) {
        self.cell.borrow_mut().push(self.post);
    }
}

impl<'a, T: DropFields> DropFields for PrePostStructDeleg<'a, T> {
    fn drop_fields(&mut self, dropped: DroppedFields) {
        for step in drop_schedule(&Self::layout(), dropped) {
            match step {
                DropStep::PreDrop => self.pre_drop(),
                DropStep::Field(2) => drop(self.f0.take().unwrap()),
                DropStep::Field(3) => drop(self.f1.take().unwrap()),
                DropStep::Field(_) => {}
                DropStep::Delegate(_) => RunDropFields::new(&mut self.value, dropped).run(),
                DropStep::PostDrop => self.post_drop(),
            }
        }
    }
}

impl<'a, T: Moves<'a>> Moves<'a> for PrePostStructDeleg<'a, T> {
    fn moves_out(&mut self, bit: u8, moved: &mut DroppedFields) -> PushOnDrop<'a> {
        self.value.moves_out(bit, moved)
    }
}

fn delegating<'a>(cell: &'a Log, pre: u8, post: u8) -> PrePostStructDeleg<'a, PrePostStructA<'a>> {
    let value = PrePostStructA::new(cell);
    PrePostStructDeleg {
        cell,
        value,
        f0: Some(PushOnDrop::new(0, cell, 150)),
        f1: Some(PushOnDrop::new(0, cell, 151)),
        pre,
        post,
    }
}

#[test]
fn drop_order_derive_delegation() {
    let arr = RefCell::new(Vec::new());
    pre_post_drop_test(&arr, |cell| delegating(cell, 250, 251), &[250, 150, 151], &[251]);
}

#[test]
fn drop_order_delegation_macro() {
    let arr = RefCell::new(Vec::new());
    pre_post_drop_test(&arr, |cell| delegating(cell, 100, 110), &[100, 150, 151], &[110]);
}

#[test]
fn schedule_without_hooks() {
    let layout = DropLayout {
        fields: vec![
            FieldDrop::Movable(DropBit::new(0)),
            FieldDrop::Fixed,
            FieldDrop::Delegate,
            FieldDrop::Movable(DropBit::new(1)),
        ],
        pre_post_drop: false,
    };
    let mut moved = DroppedFields::new();
    assert_eq!(
        drop_schedule(&layout, moved),
        vec![DropStep::Field(0), DropStep::Field(3), DropStep::Field(1), DropStep::Delegate(2)]
    );
    moved.set_dropped(DropBit::new(1));
    assert_eq!(
        drop_schedule(&layout, moved),
        vec![DropStep::Field(0), DropStep::Field(1), DropStep::Delegate(2)]
    );
    moved.set_dropped(DropBit::new(0));
    assert_eq!(drop_schedule(&layout, moved), vec![DropStep::Field(1), DropStep::Delegate(2)]);
    let empty = DropLayout { fields: vec![], pre_post_drop: true };
    assert_eq!(drop_schedule(&empty, moved), vec![DropStep::PreDrop, DropStep::PostDrop]);
}

#[test]
fn dropped_fields_bits() {
    let mut dropped = DroppedFields::new();
    for bit in 0..64u8 {
        assert!(!dropped.is_dropped(DropBit::new(bit)));
    }
    dropped.set_dropped(DropBit::new(0));
    dropped.set_dropped(DropBit::new(63));
    dropped.set_dropped(DropBit::new(63));
    for bit in 0..64u8 {
        assert_eq!(dropped.is_dropped(DropBit::new(bit)), bit == 0 || bit == 63);
    }
    for a in 0..64u8 {
        for b in 0..64u8 {
            assert_eq!(DropBit::new(a) == DropBit::new(b), a == b);
        }
    }
}

#[test]
fn guards_hand_out_what_they_hold() {
    struct Plain(u8, Vec<DroppedFields>);
    impl DropFields for Plain {
        fn drop_fields(&mut self, dropped: DroppedFields) {
            self.1.push(dropped);
        }
    }
    let mut plain = Plain(1, Vec::new());
    let mut guard = RunDropFields::new(&mut plain, DroppedFields::new());
    guard.get_mut().0 = 2;
    {
        let (value, moved) = guard.get_mut_and_moved_fields();
        value.0 += 1;
        moved.set_dropped(DropBit::new(7));
    }
    guard.run();
    assert_eq!(plain.0, 3);
    assert_eq!(plain.1.len(), 1);
    assert!(plain.1[0].is_dropped(DropBit::new(7)));
    assert!(!plain.1[0].is_dropped(DropBit::new(6)));
}
