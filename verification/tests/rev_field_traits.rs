use structural::for_examples::{AStr, BoomStr, FooStr, Variants};
use structural::path::names::{NoneStr, SomeStr, I0, I1, I2, I3, I4};
use structural::path::{
    FieldPathSet, NestedFieldPath, NestedFieldPathSet, UniquePaths, VariantField,
};
use structural::structural_ext::StructuralExt;

#[test]
fn nested_field_path_set() {
    {
        let mut tuple = ((), (), (), ((), (), ((), (101,))));

        let nested: NestedFieldPathSet<
            NestedFieldPath<(I3, I2)>,
            (NestedFieldPath<(I1, I0)>,),
            UniquePaths,
        > = NestedFieldPathSet::new(
            NestedFieldPath::new((I3::new(), I2::new())),
            FieldPathSet::one(NestedFieldPath::new((I1::new(), I0::new()))),
        );

        assert_eq!(tuple.field_(nested), &101);
        assert_eq!(tuple.fields(nested), (&101,));
        assert_eq!(tuple.cloned_fields(nested), (101,));
        assert_eq!(tuple.field_mut(nested), &mut 101);
        assert_eq!(tuple.fields_mut(nested), (&mut 101,));
        assert_eq!(tuple.into_field(nested), 101);
    }
}

#[test]
fn field_path_set() {
    {
        let mut tuple = ((), (), (), ((), (), ((), (101,))));

        let nested: FieldPathSet<(NestedFieldPath<(I3, I2, I1, I0)>,), UniquePaths> =
            NestedFieldPath::new((I3::new(), I2::new(), I1::new(), I0::new())).into_set();

        assert_eq!(tuple.field_(nested), &101);
        assert_eq!(tuple.fields(nested), (&101,));
        assert_eq!(tuple.cloned_fields(nested), (101,));
        assert_eq!(tuple.field_mut(nested), &mut 101);
        assert_eq!(tuple.fields_mut(nested), (&mut 101,));
        assert_eq!(tuple.into_field(nested), 101);
    }
}

#[test]
fn tstr_path() {
    let mut array = [3, 5, 8, 13, 21];
    {
        let path = I1::new();
        assert_eq!(array.field_(path), &5);
        assert_eq!(array.fields(path), (&5,));
        assert_eq!(array.cloned_fields(path), (5,));
        assert_eq!(array.field_mut(path), &mut 5);
        assert_eq!(array.fields_mut(path), (&mut 5,));
        assert_eq!(array.into_field(path), 5);
    }
    {
        let path = I4::new();
        assert_eq!(array.field_(path), &21);
        assert_eq!(array.fields(path), (&21,));
        assert_eq!(array.cloned_fields(path), (21,));
        assert_eq!(array.field_mut(path), &mut 21);
        assert_eq!(array.fields_mut(path), (&mut 21,));
        assert_eq!(array.into_field(path), 21);
    }
}

#[test]
fn nested_field_path() {
    let mut tuple = ((), (101, Some(444)));
    {
        let nested = NestedFieldPath::new((I1::new(), I0::new()));

        assert_eq!(tuple.field_(nested), &101);
        assert_eq!(tuple.fields(nested), (&101,));
        assert_eq!(tuple.cloned_fields(nested), (101,));
        assert_eq!(tuple.field_mut(nested), &mut 101);
        assert_eq!(tuple.fields_mut(nested), (&mut 101,));
        assert_eq!(tuple.into_field(nested), 101);
    }
    {
        let nested = NestedFieldPath::new((
            I1::new(),
            I1::new(),
            VariantField::new(SomeStr::new(), I0::new()),
        ));

        assert_eq!(tuple.field_(nested), Some(&444));
        assert_eq!(tuple.fields(nested), (Some(&444),));
        assert_eq!(tuple.cloned_fields(nested), (Some(444),));
        assert_eq!(tuple.field_mut(nested), Some(&mut 444));
        assert_eq!(tuple.fields_mut(nested), (Some(&mut 444),));
        assert_eq!(tuple.into_field(nested), Some(444));
    }
    {
        let none = NoneStr::new();
        let inner = NestedFieldPath::new((I1::new(), I1::new()));

        assert!(!tuple.field_(inner).is_variant(none));
        assert!(tuple.field_(inner).is_variant(SomeStr::new()));
    }
}

#[test]
fn variant_field() {
    let mut foo = Variants::Foo(13, 21);
    {
        let path = VariantField::new(FooStr::new(), I0::new());

        assert_eq!(foo.field_(path), Some(&13));
        assert_eq!(foo.fields(path), (Some(&13),));
        assert_eq!(foo.cloned_fields(path), (Some(13),));
        assert_eq!(foo.field_mut(path), Some(&mut 13));
        assert_eq!(foo.fields_mut(path), (Some(&mut 13),));
        assert_eq!(foo.into_field(path), Some(13));
    }
    {
        let path = VariantField::new(BoomStr::new(), AStr::new());

        assert_eq!(foo.field_(path), None);
        assert_eq!(foo.fields(path), (None,));
        assert_eq!(foo.cloned_fields(path), (None,));
        assert_eq!(foo.field_mut(path), None);
        assert_eq!(foo.fields_mut(path), (None,));
        assert_eq!(foo.into_field(path), None);
    }
}

#[test]
fn tuple_positions() {
    let mut tuple = (1u8, 2u16, 3u32, 4u64);
    assert_eq!(tuple.field_(I2::new()), &3);
    *tuple.field_mut(I3::new()) = 40;
    assert_eq!(tuple, (1, 2, 3, 40));
    let set = FieldPathSet::many((I0::new(), I2::new(), I3::new())).upgrade();
    assert_eq!(tuple.fields(set), (&1, &3, &40));
    {
        let (a, c, d) = tuple.fields_mut(set);
        *a += 1;
        *c += 1;
        *d += 1;
    }
    assert_eq!(tuple, (2, 2, 4, 41));
    assert_eq!(tuple.into_fields(set), (2, 4, 41));
}

#[test]
fn field_mut_writes_through_nested_path() {
    let mut tuple = ((), (101, Some(444)));
    let to_some = NestedFieldPath::new((
        I1::new(),
        I1::new(),
        VariantField::new(SomeStr::new(), I0::new()),
    ));
    if let Some(x) = tuple.field_mut(to_some) {
        *x = 7;
    }
    assert_eq!(tuple, ((), (101, Some(7))));
    tuple.1 .1 = None;
    assert_eq!(tuple.field_mut(to_some), None);
    assert_eq!(tuple, ((), (101, None)));
}

#[test]
fn set_behind_a_variant() {
    let value = (Variants::Boom { a: 5, b: 8 }, 1u8);
    let pair = NestedFieldPathSet::new(
        I0::new(),
        FieldPathSet::many((
            VariantField::new(BoomStr::new(), AStr::new()),
            VariantField::new(FooStr::new(), I1::new()),
        )),
    );
    assert_eq!(value.fields(pair), (Some(&5), None));
}
