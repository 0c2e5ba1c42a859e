//! Conversions at the entry points of a log.

use vstd::prelude::*;

verus! {

/// The conversion of a value into its own type, `From<X> for X` of std,
/// returns the value unchanged.
pub assume_specification<X>[ <X as From<X>>::from ](x: X) -> (r: X)
    ensures
        r == x,
;

/// The conversion of a string slice into a `String`, `From<&str> for String`
/// of std, gives a string of the same characters.
pub assume_specification<'a>[ <String as From<&'a str>>::from ](s: &str) -> (r: String)
    ensures
        r@ == s@,
;

/// Whether `to` is what the conversion of `from` can give.
pub open spec fn converted<A: Into<B>, B>(from: A, to: B) -> bool {
    call_ensures(<A as Into<B>>::into, (from,), to)
}

/// Whether `text` holds the characters of what the conversion of `from` into
/// a `String` can give.
pub open spec fn converted_text<A: Into<String>>(from: A, text: Seq<char>) -> bool {
    exists|s: String| #[trigger] converted(from, s) && s@ == text
}

} // verus!
