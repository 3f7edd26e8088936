//! Seeing a text as an uncased string.
use vstd::prelude::*;
use std::borrow::Cow;
use crate::borrowed::UncasedStr;

verus! {

/// Texts that can be looked at as an [`UncasedStr`] without copying.
pub trait AsUncased: View<V = Seq<char>> {
    /// The same text, uncased.
    fn as_uncased(&self) -> (r: UncasedStr<'_>)
        ensures
            r@ == self@,
    ;
}

impl AsUncased for str {
    fn as_uncased(&self) -> (r: UncasedStr<'_>) {
        UncasedStr::new(self)
    }
}

impl AsUncased for String {
    fn as_uncased(&self) -> (r: UncasedStr<'_>) {
        UncasedStr::new(self.as_str())
    }
}

impl<'a> AsUncased for Cow<'a, str> {
    fn as_uncased(&self) -> (r: UncasedStr<'_>) {
        match self {
            Cow::Borrowed(borrowed) => UncasedStr::new(borrowed),
            Cow::Owned(owned) => UncasedStr::new(owned.as_str()),
        }
    }
}

} // verus!
