//! Information about the fields that a type gives access to.

use vstd::prelude::*;

verus! {

/// Information about a field with accessor trait impls.
#[derive(Debug, Clone, Copy)]
pub struct FieldInfo {
    /// The original name of the field.
    pub original_name: &'static str,
    /// The name used in the accessor trait impls for the field.
    pub accessor_name: &'static str,
}

impl FieldInfo {
    /// Constructs a `FieldInfo` for a field which uses the same name in its
    /// accessor impl.
    pub fn not_renamed(name: &'static str) -> (r: Self)
        ensures
            r.original_name == name,
            r.accessor_name == name,
    {
        FieldInfo { original_name: name, accessor_name: name }
    }
}

/// Implemented by the types that say which of their fields have accessors.
pub trait StructuralFields {
    /// The fields that have accessor trait impls, in the order of their
    /// declaration.
    spec fn fields_spec() -> Seq<FieldInfo>;

    /// Information about the fields that have accessor trait impls.
    fn fields() -> (r: Vec<FieldInfo>)
        ensures
            r@ == Self::fields_spec(),
    ;
}

/// The names that `T`'s fields have in their accessor trait impls.
pub fn accessor_names<T: StructuralFields>() -> (r: Vec<&'static str>)
    ensures
        r@ == T::fields_spec().map_values(|f: FieldInfo| f.accessor_name),
{
    let fields = T::fields();
    let mut names: Vec<&'static str> = Vec::new();
    let mut i: usize = 0;
    while i < fields.len()
        invariant
            i <= fields.len(),
            fields@ == T::fields_spec(),
            names@ == fields@.take(i as int).map_values(|f: FieldInfo| f.accessor_name),
        decreases fields.len() - i,
    {
        names.push(fields[i].accessor_name);
        assert(fields@.take(i + 1).map_values(|f: FieldInfo| f.accessor_name) =~= fields@.take(
            i as int,
        ).map_values(|f: FieldInfo| f.accessor_name).push(fields@[i as int].accessor_name));
        i += 1;
    }
    assert(fields@.take(fields.len() as int) =~= fields@);
    names
}

/// The names of `T`'s fields that have accessor trait impls.
pub fn field_names<T: StructuralFields>() -> (r: Vec<&'static str>)
    ensures
        r@ == T::fields_spec().map_values(|f: FieldInfo| f.original_name),
{
    let fields = T::fields();
    let mut names: Vec<&'static str> = Vec::new();
    let mut i: usize = 0;
    while i < fields.len()
        invariant
            i <= fields.len(),
            fields@ == T::fields_spec(),
            names@ == fields@.take(i as int).map_values(|f: FieldInfo| f.original_name),
        decreases fields.len() - i,
    {
        names.push(fields[i].original_name);
        assert(fields@.take(i + 1).map_values(|f: FieldInfo| f.original_name) =~= fields@.take(
            i as int,
        ).map_values(|f: FieldInfo| f.original_name).push(fields@[i as int].original_name));
        i += 1;
    }
    assert(fields@.take(fields.len() as int) =~= fields@);
    names
}

} // verus!
