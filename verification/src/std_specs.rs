//! What this crate takes on trust about the standard library: the contracts
//! below are believed of `std`, not proved.
use vstd::prelude::*;
use std::borrow::Cow;

verus! {

/// `Cow::from` on a string slice borrows it: the result is the `Borrowed`
/// variant holding that very slice.
pub assume_specification<'a>[ <Cow<'a, str> as From<&'a str>>::from ](s: &'a str) -> (r: Cow<'a, str>)
    ensures
        r == Cow::Borrowed(s),
;

/// `Cow::from` on a `String` takes it over: the result is the `Owned`
/// variant holding that very string.
pub assume_specification<'a>[ <Cow<'a, str> as From<String>>::from ](s: String) -> (r: Cow<'a, str>)
    ensures
        r == Cow::<str>::Owned(s),
;

/// `From::from` of a type into itself hands the value back unchanged.
pub assume_specification<T>[ <T as From<T>>::from ](t: T) -> (r: T)
    ensures
        r == t,
;

/// `String::into_boxed_str` keeps the text.
pub assume_specification[ String::into_boxed_str ](s: String) -> (r: Box<str>)
    ensures
        r@ == s@,
;

/// `str::into_string` on a boxed string keeps the text.
pub assume_specification[ str::into_string ](s: Box<str>) -> (r: String)
    ensures
        r@ == s@,
;

} // verus!
