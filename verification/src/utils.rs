//! Helpers on the text of identifiers.

use proc_macro2::Span;
use vstd::prelude::*;
use vstd::string::*;

verus! {

/// Whether `s` begins with the two characters `r#` of a raw identifier.
pub open spec fn has_raw_prefix(s: Seq<char>) -> bool {
    s.len() >= 2 && s[0] == 'r' && s[1] == '#'
}

/// `s` without a leading `r#`, and `s` itself where it has none.
pub open spec fn without_raw_prefix(s: Seq<char>) -> Seq<char> {
    if has_raw_prefix(s) {
        s.skip(2)
    } else {
        s
    }
}

/// Strips the `r#` from a raw identifier; any other text comes back unchanged.
pub fn remove_raw_prefix(s: String) -> (r: String)
    ensures
        r@ == without_raw_prefix(s@),
{
    let text = s.as_str();
    let n: usize = text.unicode_len();
    if n >= 2 && text.get_char(0) == 'r' && text.get_char(1) == '#' {
        String::from_str(text.substring_char(2, n))
    } else {
        s
    }
}

/// Text that can be put between two other texts.
pub trait StrExt {
    /// The characters of `self`.
    spec fn chars(&self) -> Seq<char>;

    /// `before`, then `self`, then `after`, as one new string.
    fn surrounded_with(&self, before: &str, after: &str) -> (r: String)
        ensures
            r@ == before@ + self.chars() + after@,
    ;
}

impl StrExt for str {
    open spec fn chars(&self) -> Seq<char> {
        self@
    }

    fn surrounded_with(&self, before: &str, after: &str) -> (r: String) {
        let mut s = String::from_str(before);
        s.append(self);
        s.append(after);
        s
    }
}

impl StrExt for String {
    open spec fn chars(&self) -> Seq<char> {
        self@
    }

    fn surrounded_with(&self, before: &str, after: &str) -> (r: String) {
        self.as_str().surrounded_with(before, after)
    }
}

#[verifier::external_type_specification]
#[verifier::external_body]
pub struct ExSpan(Span);

/// `Span::join` of `proc_macro2`: a span that covers both, or `None`. Which
/// of the two comes back depends on where the spans come from and on the
/// compiler, so nothing is said of the result.
#[verifier::external_body]
fn join_spans(first: Span, second: Span) -> Option<Span> {
    first.join(second)
}

/// The span `joined` if there is one, else `fallback`.
pub fn joined_or(joined: Option<Span>, fallback: Span) -> (r: Span)
    ensures
        r == match joined {
            Some(span) => span,
            None => fallback,
        },
{
    match joined {
        Some(span) => span,
        None => fallback,
    }
}

/// Spans that can be put together.
pub trait SpanExt {
    /// The span that covers `self` and `other` where the two can be joined,
    /// and `self` where they cannot.
    fn combine_span(self, other: Span) -> Span;
}

impl SpanExt for Span {
    fn combine_span(self, other: Span) -> Span {
        joined_or(join_spans(self, other), self)
    }
}

} // verus!
