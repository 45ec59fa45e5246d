//! The value that a list of field names denotes: one type-level string, or a
//! set of them in which no name may occur twice.

use vstd::prelude::*;
use vstd::string::*;

verus! {

/// The characters of each string of `strings`, in order.
pub open spec fn names_of(strings: Seq<String>) -> Seq<Seq<char>> {
    strings.map_values(|s: String| s@)
}

/// Whether the name at `i` also stands at an earlier position.
pub open spec fn used_before(names: Seq<Seq<char>>, i: int) -> bool {
    exists|j: int| 0 <= j < i && names[j] == names[i]
}

/// Whether no name of `names` stands at two positions.
pub open spec fn all_distinct(names: Seq<Seq<char>>) -> bool {
    forall|i: int| 0 <= i < names.len() ==> !used_before(names, i)
}

/// Whether `i` is the first position whose name was used before.
pub open spec fn is_first_repeat(names: Seq<Seq<char>>, i: int) -> bool {
    &&& 0 <= i < names.len()
    &&& used_before(names, i)
    &&& forall|k: int| 0 <= k < i ==> !used_before(names, k)
}

/// What a list of field names stands for.
pub enum TStrValue {
    /// Exactly one name was given: a single type-level string.
    Single(String),
    /// Any other number of names: a set of type-level strings, in the order given.
    Several(Vec<String>),
}

/// A field name was given twice; `index` is where it stands for the second time.
#[derive(Debug, Clone, Copy)]
pub struct RepeatedName {
    pub index: usize,
}

impl RepeatedName {
    /// The text shown to the user for this error.
    pub fn message(&self) -> (r: String)
        ensures
            r@ == "Field names cannot be used more than once"@,
    {
        String::from_str("Field names cannot be used more than once")
    }
}

/// Whether `name` is one of the first `upto` strings of `strings`.
fn contains_name(strings: &Vec<String>, upto: usize, name: &String) -> (r: bool)
    requires
        upto <= strings.len(),
    ensures
        r == exists|j: int| 0 <= j < upto && names_of(strings@)[j] == name@,
{
    let mut j: usize = 0;
    while j < upto
        invariant
            j <= upto <= strings.len(),
            forall|k: int| 0 <= k < j ==> names_of(strings@)[k] != name@,
        decreases upto - j,
    {
        if strings[j] == *name {
            assert(names_of(strings@)[j as int] == name@);
            return true;
        }
        j += 1;
    }
    false
}

/// Decides what the names in `strings` denote.
///
/// One name alone is a single type-level string. Otherwise the names form a
/// set, and the call fails at the first name that already occurred earlier in
/// the list.
pub fn tstr_impl(strings: Vec<String>) -> (r: Result<TStrValue, RepeatedName>)
    ensures
        match r {
            Ok(TStrValue::Single(name)) => strings.len() == 1 && name@ == strings[0]@,
            Ok(TStrValue::Several(names)) => {
                &&& strings.len() != 1
                &&& names == strings
                &&& all_distinct(names_of(strings@))
            },
            Err(e) => strings.len() != 1 && is_first_repeat(names_of(strings@), e.index as int),
        },
{
    if strings.len() == 1 {
        return Ok(TStrValue::Single(strings[0].clone()));
    }
    let mut i: usize = 0;
    while i < strings.len()
        invariant
            i <= strings.len(),
            forall|k: int| 0 <= k < i ==> !used_before(names_of(strings@), k),
        decreases strings.len() - i,
    {
        if contains_name(&strings, i, &strings[i]) {
            return Err(RepeatedName { index: i });
        }
        i += 1;
    }
    Ok(TStrValue::Several(strings))
}

/// A list in which a name is repeated is never accepted as a set, and a list
/// of distinct names is never refused.
pub proof fn lemma_repeat_excludes_distinct(names: Seq<Seq<char>>, i: int)
    requires
        is_first_repeat(names, i),
    ensures
        !all_distinct(names),
{
}

/// At most one position is the first repeat.
pub proof fn lemma_first_repeat_unique(names: Seq<Seq<char>>, i: int, j: int)
    requires
        is_first_repeat(names, i),
        is_first_repeat(names, j),
    ensures
        i == j,
{
}

} // verus!
