//! The uncased string that owns its text in a box.
use vstd::prelude::*;
use crate::as_uncased::AsUncased;
use crate::borrowed::UncasedStr;
use crate::owned::Uncased;

verus! {

/// An owned text of fixed length that keeps its casing and is compared
/// through its [`UncasedStr`].
#[derive(Debug)]
pub struct BoxedUncasedStr {
    string: Box<str>,
}

impl View for BoxedUncasedStr {
    type V = Seq<char>;

    /// The text, in the casing it was given.
    closed spec fn view(&self) -> Seq<char> {
        self.string@
    }
}

impl BoxedUncasedStr {
    /// Boxes `string`.
    pub fn from_string(string: String) -> (r: BoxedUncasedStr)
        ensures
            r@ == string@,
    {
        BoxedUncasedStr { string: string.into_boxed_str() }
    }

    /// The text as an [`Uncased`] that owns it. Nothing is copied.
    pub fn into_uncased(self) -> (r: Uncased<'static>)
        ensures
            r@ == self@,
            r.string is Owned,
    {
        Uncased::from_owned(self.string.into_string())
    }
}

impl AsUncased for BoxedUncasedStr {
    fn as_uncased(&self) -> (r: UncasedStr<'_>) {
        UncasedStr::new(&*self.string)
    }
}

} // verus!
