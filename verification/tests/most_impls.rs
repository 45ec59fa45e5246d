use std::mem::ManuallyDrop;
use std::ops::{Range, RangeFrom, RangeInclusive, RangeTo, RangeToInclusive};
use std::rc::Rc;
use std::sync::Arc;

use structural::field::{FromStructural, GetField, GetFieldMut, IntoField};
use structural::path::names::{EndStr, StartStr, I0, I1, I2, I3};
use structural::path::FieldPathSet;
use structural::structural_ext::StructuralExt;
use structural::structural_trait::{accessor_names, field_names, FieldInfo};

#[test]
fn most_impls_delegated_mdrop() {
    let tup = (2, 3, 5, 8);
    let mut mdrop = ManuallyDrop::new(tup);
    let path = FieldPathSet::many((I0::new(), I1::new(), I2::new(), I3::new())).upgrade();
    assert_eq!(mdrop.fields(path), (&2, &3, &5, &8));

    assert_eq!((*mdrop).fields_mut(path), (&mut 2, &mut 3, &mut 5, &mut 8));

    assert_eq!(mdrop.clone().into_field(I0::new()), 2);
    assert_eq!(mdrop.clone().into_field(I1::new()), 3);
    assert_eq!(mdrop.clone().into_field(I2::new()), 5);
    assert_eq!(mdrop.clone().into_field(I3::new()), 8);
}

#[test]
fn delegated_mdrop() {
    let tup = (2, 3, 5, 8);
    let mut mdrop = ManuallyDrop::new(tup);
    let path = FieldPathSet::many((I0::new(), I1::new(), I2::new(), I3::new())).upgrade();
    assert_eq!(mdrop.fields(path), (&2, &3, &5, &8));

    assert_eq!((*mdrop).fields_mut(path), (&mut 2, &mut 3, &mut 5, &mut 8));
}

#[test]
fn range_fields() {
    let mut range: Range<u32> = 3..8;
    assert_eq!(range.get_field_(StartStr::new()), &3);
    assert_eq!(range.get_field_(EndStr::new()), &8);
    *range.get_field_mut_(EndStr::new()) = 13;
    assert_eq!(range, 3..13);
    assert_eq!(range.clone().into_field_(StartStr::new()), 3);
    assert_eq!(range.into_field_(EndStr::new()), 13);

    let mut from: RangeFrom<u32> = 5..;
    *from.get_field_mut_(StartStr::new()) += 1;
    assert_eq!(from, 6..);

    let to: RangeTo<u32> = ..21;
    assert_eq!(to.get_field_(EndStr::new()), &21);

    let to_inclusive: RangeToInclusive<u32> = ..=34;
    assert_eq!(to_inclusive.into_field_(EndStr::new()), 34);

    let inclusive: RangeInclusive<u32> = 1..=2;
    assert_eq!(inclusive.get_field_(StartStr::new()), &1);
    assert_eq!(inclusive.get_field_(EndStr::new()), &2);
    assert_eq!(inclusive.clone().into_field_(StartStr::new()), 1);
    assert_eq!(inclusive.clone().into_field_(EndStr::new()), 2);
    let path = FieldPathSet::many((StartStr::new(), EndStr::new())).upgrade();
    assert_eq!(inclusive.into_fields(path), (1, 2));
}

#[test]
fn ranges_from_structural() {
    let range: Range<u32> = FromStructural::from_structural(3..8);
    assert_eq!(range, 3..8);
    let boxed: Box<Range<u32>> = FromStructural::from_structural(Box::new(3..8));
    assert_eq!(*boxed, 3..8);
    let inclusive: RangeInclusive<u32> = FromStructural::from_structural(3..8);
    assert_eq!(inclusive, 3..=8);
    let range: Range<u32> = FromStructural::from_structural(3..=8);
    assert_eq!(range, 3..8);
    let from: RangeFrom<u32> = FromStructural::from_structural(3..8);
    assert_eq!(from, 3..);
    let to: RangeTo<u32> = FromStructural::from_structural(3..8);
    assert_eq!(to, ..8);
    let to_inclusive: RangeToInclusive<u32> = FromStructural::from_structural(3..8);
    assert_eq!(to_inclusive, ..=8);
    let rc: Rc<RangeTo<u32>> = FromStructural::from_structural(..5);
    assert_eq!(*rc, ..5);
    let arc: Arc<RangeTo<u32>> = FromStructural::from_structural(..5);
    assert_eq!(*arc, ..5);
    let mdrop: ManuallyDrop<RangeTo<u32>> = FromStructural::from_structural(..5);
    assert_eq!(*mdrop, ..5);
}

#[test]
fn pointers_delegate() {
    let mut boxed = Box::new((2u8, 3u16));
    assert_eq!(boxed.get_field_(I1::new()), &3);
    *boxed.get_field_mut_(I0::new()) = 7;
    assert_eq!(*boxed, (7, 3));
    let path = FieldPathSet::many((I0::new(), I1::new())).upgrade();
    {
        let (a, b) = boxed.fields_mut(path);
        std::mem::swap(a, &mut 1);
        *b += 1;
    }
    assert_eq!(*boxed, (1, 4));
    assert_eq!(boxed.clone().into_fields(path), (1, 4));
    assert_eq!(boxed.into_field_(I1::new()), 4);

    let rc = Rc::new((5u8, 8u16));
    assert_eq!(rc.get_field_(I0::new()), &5);
    let arc = Arc::new((5u8, 8u16));
    assert_eq!(arc.get_field_(I1::new()), &8);
    let tuple = (13u8, 21u16);
    let reference = &tuple;
    assert_eq!(GetField::get_field_(&reference, I0::new()), &13);
}

#[test]
fn range_field_names() {
    assert_eq!(field_names::<Range<u8>>(), vec!["start", "end"]);
    assert_eq!(accessor_names::<Range<u8>>(), vec!["start", "end"]);
    assert_eq!(field_names::<RangeInclusive<u8>>(), vec!["start", "end"]);
    assert_eq!(field_names::<RangeFrom<u8>>(), vec!["start"]);
    assert_eq!(accessor_names::<RangeTo<u8>>(), vec!["end"]);
    assert_eq!(accessor_names::<RangeToInclusive<u8>>(), vec!["end"]);
    let info = FieldInfo::not_renamed("foo");
    assert_eq!(info.original_name, "foo");
    assert_eq!(info.accessor_name, "foo");
}
