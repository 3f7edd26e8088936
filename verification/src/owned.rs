//! The uncased string that owns or borrows its text.
use vstd::prelude::*;
use vstd::utf8::encode_utf8;
use vstd::string::StringSliceAdditionalSpecFns;
use vstd::std_specs::cmp::{PartialEqSpec, PartialOrdSpec};
use std::borrow::Cow;
use core::cmp::Ordering;
use core::hash::{Hash, Hasher};
use crate::as_uncased::AsUncased;
use crate::borrowed::UncasedStr;
use crate::boxed::BoxedUncasedStr;
use crate::fold::{eq_ignore_ascii_case, fold_bytes};
use crate::order::compare_folded;
use crate::sink::ByteSink;

verus! {

/// A text, owned or borrowed, that keeps its casing and is compared,
/// ordered and hashed without regard to ASCII case.
///
/// Whether the text is owned or borrowed decides what is copied, by
/// [`Uncased::into_string`] and by [`Uncased::clone`], and nothing else:
/// equality, order and hashing read the text alone.
#[derive(Debug)]
pub struct Uncased<'s> {
    /// The text, owned or borrowed.
    pub string: Cow<'s, str>,
}

impl<'s> View for Uncased<'s> {
    type V = Seq<char>;

    /// The text, in the casing it was given.
    open spec fn view(&self) -> Seq<char> {
        self.string@
    }
}

impl<'s> Uncased<'s> {
    /// The UTF-8 bytes of the text.
    pub open spec fn bytes(&self) -> Seq<u8> {
        encode_utf8(self@)
    }

    /// What hashing feeds to a sink: the bytes of the text, each folded.
    pub open spec fn hash_bytes(&self) -> Seq<u8> {
        fold_bytes(self.bytes())
    }

    /// An uncased string of whatever converts into owned-or-borrowed text:
    /// a `&str` is borrowed, a `String` is taken over, and neither is
    /// copied.
    pub fn new<S: Into<Cow<'s, str>>>(string: S) -> (r: Uncased<'s>)
        ensures
            call_ensures(S::into, (string,), r.string),
    {
        Uncased { string: string.into() }
    }

    /// An uncased string that borrows `string`.
    #[verifier::allow_in_spec]
    pub fn from_borrowed(string: &'s str) -> (r: Uncased<'s>)
        returns
            (Uncased { string: Cow::Borrowed(string) }),
    {
        Uncased { string: Cow::Borrowed(string) }
    }

    /// An uncased string that owns `string`.
    #[verifier::allow_in_spec]
    pub fn from_owned(string: String) -> (r: Uncased<'s>)
        returns
            (Uncased { string: Cow::Owned(string) }),
    {
        Uncased { string: Cow::Owned(string) }
    }

    /// The text as an owned `String`: the string itself where the text is
    /// owned, a fresh copy where it is borrowed.
    pub fn into_string(self) -> (r: String)
        ensures
            r@ == self@,
            self.string matches Cow::Owned(owned) ==> r == owned,
    {
        match self.string {
            Cow::Borrowed(borrowed) => borrowed.to_owned(),
            Cow::Owned(owned) => owned,
        }
    }

    /// The text as an owned uncased string on the heap. A borrowed text is
    /// copied once, as by [`Uncased::into_string`].
    pub fn into_boxed_uncased(self) -> (r: BoxedUncasedStr)
        ensures
            r@ == self@,
    {
        BoxedUncasedStr::from_string(self.into_string())
    }

    /// The owned-or-borrowed text inside.
    pub fn into_cow(self) -> (r: Cow<'s, str>)
        ensures
            r == self.string,
    {
        self.string
    }

    /// The text as it was given, casing and all.
    pub fn as_str(&self) -> (r: &str)
        ensures
            r@ == self@,
    {
        match &self.string {
            Cow::Borrowed(borrowed) => borrowed,
            Cow::Owned(owned) => owned.as_str(),
        }
    }

    /// Feeds the bytes of the text to `sink`, each folded, first byte first.
    pub fn hash_into<S: ByteSink>(&self, sink: &mut S)
        ensures
            final(sink).fed() == old(sink).fed() + self.hash_bytes(),
    {
        self.as_uncased().hash_into(sink)
    }

    /// How the text stands to `other` in the order of uncased strings.
    pub fn cmp(&self, other: &Uncased<'_>) -> (r: Ordering)
        ensures
            r == compare_folded(self@, other@),
    {
        self.as_uncased().cmp(&other.as_uncased())
    }

    /// An owned copy of the text, in its own casing.
    pub fn to_string(&self) -> (r: String)
        ensures
            r@ == self@,
    {
        self.as_str().to_owned()
    }
}

/// The text of either branch, borrowed as an [`UncasedStr`].
impl<'s> AsUncased for Uncased<'s> {
    fn as_uncased(&self) -> (r: UncasedStr<'_>) {
        UncasedStr::new(self.as_str())
    }
}

impl<'s> Clone for Uncased<'s> {
    /// Copies an owned text; a borrowed one is shared.
    fn clone(&self) -> (r: Uncased<'s>)
        ensures
            r == *self,
    {
        match &self.string {
            Cow::Borrowed(borrowed) => Uncased { string: Cow::Borrowed(*borrowed) },
            Cow::Owned(owned) => Uncased { string: Cow::Owned(owned.clone()) },
        }
    }
}

/// Two uncased strings are equal when their texts are the same up to ASCII
/// case, whichever of them owns its text.
impl<'s, 'b> PartialEq<Uncased<'b>> for Uncased<'s> {
    fn eq(&self, other: &Uncased<'b>) -> (r: bool) {
        self.as_uncased() == other.as_uncased()
    }
}

impl<'s, 'b> vstd::std_specs::cmp::PartialEqSpecImpl<Uncased<'b>> for Uncased<'s> {
    open spec fn obeys_eq_spec() -> bool {
        true
    }

    open spec fn eq_spec(&self, other: &Uncased<'b>) -> bool {
        eq_ignore_ascii_case(self.bytes(), other.bytes())
    }
}

impl<'s> Eq for Uncased<'s> {

}

/// An uncased string equals a plain text that is its text up to ASCII case.
impl<'s> PartialEq<str> for Uncased<'s> {
    fn eq(&self, other: &str) -> (r: bool) {
        self.as_uncased() == *other
    }
}

impl<'s> vstd::std_specs::cmp::PartialEqSpecImpl<str> for Uncased<'s> {
    open spec fn obeys_eq_spec() -> bool {
        true
    }

    open spec fn eq_spec(&self, other: &str) -> bool {
        eq_ignore_ascii_case(self.bytes(), other.spec_bytes())
    }
}

/// A plain text equals an uncased string whose text it is up to ASCII case.
impl<'s> PartialEq<Uncased<'s>> for str {
    fn eq(&self, other: &Uncased<'s>) -> (r: bool) {
        other.as_uncased() == *self
    }
}

impl<'s> vstd::std_specs::cmp::PartialEqSpecImpl<Uncased<'s>> for str {
    open spec fn obeys_eq_spec() -> bool {
        true
    }

    open spec fn eq_spec(&self, other: &Uncased<'s>) -> bool {
        eq_ignore_ascii_case(other.bytes(), self.spec_bytes())
    }
}

/// As for `str`, through one more reference.
impl<'s, 'b> PartialEq<&'b str> for Uncased<'s> {
    fn eq(&self, other: &&'b str) -> (r: bool) {
        self.as_uncased() == **other
    }
}

impl<'s, 'b> vstd::std_specs::cmp::PartialEqSpecImpl<&'b str> for Uncased<'s> {
    open spec fn obeys_eq_spec() -> bool {
        true
    }

    open spec fn eq_spec(&self, other: &&'b str) -> bool {
        eq_ignore_ascii_case(self.bytes(), other.spec_bytes())
    }
}

/// As for `str`, through one more reference.
impl<'s, 'b> PartialEq<Uncased<'s>> for &'b str {
    fn eq(&self, other: &Uncased<'s>) -> (r: bool) {
        other.as_uncased() == **self
    }
}

impl<'s, 'b> vstd::std_specs::cmp::PartialEqSpecImpl<Uncased<'s>> for &'b str {
    open spec fn obeys_eq_spec() -> bool {
        true
    }

    open spec fn eq_spec(&self, other: &Uncased<'s>) -> bool {
        eq_ignore_ascii_case(other.bytes(), self.spec_bytes())
    }
}

impl<'s> Hash for Uncased<'s> {
    /// Writes the bytes of the text to `hasher`, each folded, one
    /// [`Hasher::write_u8`] per byte.
    fn hash<H: Hasher>(&self, hasher: &mut H) {
        self.as_uncased().hash(hasher)
    }
}

/// Uncased strings are ordered as [`Uncased::cmp`] says; any two are
/// comparable.
impl<'s, 'b> PartialOrd<Uncased<'b>> for Uncased<'s> {
    fn partial_cmp(&self, other: &Uncased<'b>) -> (r: Option<Ordering>) {
        Some(self.cmp(other))
    }
}

impl<'s, 'b> vstd::std_specs::cmp::PartialOrdSpecImpl<Uncased<'b>> for Uncased<'s> {
    open spec fn obeys_partial_cmp_spec() -> bool {
        true
    }

    open spec fn partial_cmp_spec(&self, other: &Uncased<'b>) -> Option<Ordering> {
        Some(compare_folded(self@, other@))
    }
}

/// A string slice is borrowed.
impl<'s, 'c: 's> From<&'c str> for Uncased<'s> {
    fn from(string: &'c str) -> (r: Uncased<'s>) {
        Uncased::from_borrowed(string)
    }
}

impl<'s, 'c: 's> vstd::std_specs::convert::FromSpecImpl<&'c str> for Uncased<'s> {
    open spec fn obeys_from_spec() -> bool {
        true
    }

    open spec fn from_spec(string: &'c str) -> Uncased<'s> {
        Uncased { string: Cow::Borrowed(string) }
    }
}

/// A `String` is taken over.
impl From<String> for Uncased<'static> {
    fn from(string: String) -> (r: Uncased<'static>) {
        Uncased::from_owned(string)
    }
}

impl vstd::std_specs::convert::FromSpecImpl<String> for Uncased<'static> {
    open spec fn obeys_from_spec() -> bool {
        true
    }

    open spec fn from_spec(string: String) -> Uncased<'static> {
        Uncased { string: Cow::Owned(string) }
    }
}

/// An owned-or-borrowed text is kept as it is.
impl<'s, 'c: 's> From<Cow<'c, str>> for Uncased<'s> {
    fn from(string: Cow<'c, str>) -> (r: Uncased<'s>) {
        Uncased { string }
    }
}

impl<'s, 'c: 's> vstd::std_specs::convert::FromSpecImpl<Cow<'c, str>> for Uncased<'s> {
    open spec fn obeys_from_spec() -> bool {
        true
    }

    open spec fn from_spec(string: Cow<'c, str>) -> Uncased<'s> {
        Uncased { string }
    }
}

/// Borrowing a text and taking it back as an owned string gives a string
/// with exactly that text, casing and all: whatever [`Uncased::into_string`]
/// returns on the uncased string that borrows `string` has the text of
/// `string`.
pub proof fn lemma_round_trip(string: &str, back: String)
    ensures
        Uncased::from_borrowed(string)@ == string@,
        call_ensures(Uncased::into_string, (Uncased::from_borrowed(string),), back) ==> back@
            == string@,
{
}

/// An uncased string compares, orders and hashes as the borrowed uncased
/// string of the same text does, whether it owns its text or borrows it.
pub proof fn lemma_behaves_as_its_text(a: Uncased, b: Uncased, x: UncasedStr, y: UncasedStr)
    requires
        x@ == a@,
        y@ == b@,
    ensures
        a.eq_spec(&b) == x.eq_spec(&y),
        a.partial_cmp_spec(&b) == x.partial_cmp_spec(&y),
        a.hash_bytes() == x.hash_bytes(),
{
}

} // verus!
