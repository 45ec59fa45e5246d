use structural::field::{GetField, IntoField, IntoVariantField};
use structural::field_cloner::FieldCloner;
use structural::for_examples::{AStr, BStr, BarStr, BoomStr, FooStr, Variants};
use structural::ownership::{DropBit, DropFields, DroppedFields};
use structural::path::names::{I0, I1, I2};
use structural::path::{FieldPathSet, NestedFieldPath, VariantField};
use structural::wrapper::StrucWrapper;

#[test]
fn wrapper_single_fields() {
    let mut this = StrucWrapper((0u64, 0u64, 13u64, 0u64));
    assert_eq!(this.r(I2::new()), &13);
    *this.m(I0::new()) = 5;
    assert_eq!(this.0, (5, 0, 13, 0));
    assert_eq!(this.v(I2::new()), 13);
}

#[test]
fn wrapper_variant_fields() {
    let mut this = StrucWrapper(Variants::Boom { a: 3, b: 5 });
    assert_eq!(this.r(VariantField::new(BoomStr::new(), AStr::new())), Some(&3));
    assert_eq!(this.r(VariantField::new(FooStr::new(), I0::new())), None);
    assert_eq!(this.m(VariantField::new(BarStr::new(), I0::new())), None);
    if let Some(b) = this.m(VariantField::new(BoomStr::new(), BStr::new())) {
        *b = 8;
    }
    assert_eq!(this.0, Variants::Boom { a: 3, b: 8 });
    assert!(this.is_variant(BoomStr::new()));
    assert!(!this.is_variant(FooStr::new()));
    assert!(!this.is_variant(BarStr::new()));
    assert_eq!(this.v(VariantField::new(BoomStr::new(), BStr::new())), Some(8));
    assert_eq!(this.v(VariantField::new(FooStr::new(), I1::new())), None);
}

#[test]
fn wrapper_multiple_fields() {
    let mut this = StrucWrapper((Some("&"), (true, false), 21u8));
    let pair = FieldPathSet::many((I0::new(), I1::new())).upgrade();
    assert_eq!(this.refs(pair), (&Some("&"), &(true, false)));
    assert_eq!(this.clones(pair), (Some("&"), (true, false)));
    {
        let (a, b) = this.muts(pair);
        *a = None;
        b.1 = true;
    }
    assert_eq!(this.0, (None, (true, true), 21));
    let nested = NestedFieldPath::new((I1::new(), I0::new()));
    assert_eq!(this.refs(nested), (&true,));
    assert_eq!(this.vals(FieldPathSet::many((I1::new(), I2::new())).upgrade()), ((true, true), 21));
}

#[test]
fn wrapper_conversions() {
    let mut this = StrucWrapper((13u8, 21u16));
    {
        let by_ref: StrucWrapper<&(u8, u16)> = this.as_ref();
        assert_eq!(by_ref.0, &(13, 21));
        assert_eq!(by_ref.r(I0::new()), &13);
    }
    {
        let by_mut: StrucWrapper<&mut (u8, u16)> = this.as_mut();
        by_mut.0 .1 = 34;
    }
    assert_eq!(this, StrucWrapper((13, 34)));
    let mapped = this.map(|(a, b)| u32::from(a) + u32::from(b));
    assert_eq!(mapped, StrucWrapper(47));
    let wrapped_twice = mapped.then_(|w| (w.0, w));
    assert_eq!(wrapped_twice, StrucWrapper((47, StrucWrapper(47))));
    assert_eq!(StrucWrapper::<(u8, bool)>::default(), StrucWrapper((0, false)));
}

#[test]
fn wrapper_index() {
    let mut this = StrucWrapper(("hello", "world", "foo"));
    assert_eq!(this[I1::new()], "world");
    assert_eq!(this[I2::new()], "foo");
    this[I0::new()] = "bye";
    assert_eq!(this.0, ("bye", "world", "foo"));
}

#[test]
fn wrapper_delegates_accessors() {
    let this = StrucWrapper((2u8, 3u16));
    assert_eq!(this.get_field_(I1::new()), &3);
    assert_eq!(StrucWrapper(this).r(NestedFieldPath::new((I1::new(),)).list.0), &3);
    assert_eq!(this.into_field_(I0::new()), 2);
}

struct Counts(u32);

impl DropFields for Counts {
    fn drop_fields(&mut self, dropped: DroppedFields) {
        self.0 += 1;
        if dropped.is_dropped(DropBit::new(3)) {
            self.0 += 10;
        }
    }
}

#[test]
fn drop_fields_is_handed_on() {
    let mut dropped = DroppedFields::new();
    dropped.set_dropped(DropBit::new(3));
    let mut wrapped = StrucWrapper(Counts(0));
    wrapped.drop_fields(dropped);
    assert_eq!(wrapped.0 .0, 11);
    let mut boxed = Box::new(Counts(0));
    boxed.drop_fields(DroppedFields::new());
    assert_eq!(boxed.0, 1);
    let mut cloner = FieldCloner(Counts(0));
    cloner.drop_fields(dropped);
    assert_eq!(cloner.0 .0, 0);
}

#[test]
fn cloner_clones_fields() {
    let this = ("what".to_string(), vec![0, 1, 2]);
    assert_eq!(FieldCloner(this.clone()).into_field_(I0::new()), "what");
    assert_eq!(FieldCloner(&this).into_field_(I1::new()), vec![0, 1, 2]);
    assert_eq!(FieldCloner(&&this).into_field_(I0::new()), "what");
    let pair = FieldPathSet::many((I0::new(), I1::new())).upgrade();
    assert_eq!(StrucWrapper(FieldCloner(&this)).vals(pair), this.clone());
    assert_eq!(FieldCloner(&this).get_field_(I0::new()), "what");
}

#[test]
fn cloner_variant_fields() {
    let this = Variants::Foo(13, 21);
    assert_eq!(FieldCloner(&this).into_vfield_(FooStr::new(), I1::new()), Some(21));
    assert_eq!(FieldCloner(&this).into_vfield_(BoomStr::new(), AStr::new()), None);
    assert_eq!(FieldCloner(this).into_vfield_(FooStr::new(), I0::new()), Some(13));
}

#[test]
fn cloner_conversions() {
    let mut this = FieldCloner((100u8, "baz"));
    assert_eq!(this.as_ref().into_field_(I0::new()), 100);
    {
        let by_mut = this.as_mut();
        by_mut.0 .0 = 1;
    }
    assert_eq!(this, FieldCloner((1, "baz")));
    let text = FieldCloner(String::from("abc"));
    let copy: FieldCloner<String> = text.as_ref().cloned();
    assert_eq!(copy, text);
    let mut other = FieldCloner(vec![1, 2]);
    let copy: FieldCloner<Vec<i32>> = other.as_mut().cloned();
    assert_eq!(copy.0, vec![1, 2]);
    assert_eq!(this.map(|(a, _)| a + 1), FieldCloner(2));
    assert_eq!(this.then_(|c| c.0 .1.len()), FieldCloner(3));
    assert_eq!(FieldCloner::<u8>::default(), FieldCloner(0));
}
