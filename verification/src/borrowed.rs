//! The borrowed uncased string.
use vstd::prelude::*;
use vstd::utf8::{
    decode_utf8, encode_utf8, encode_utf8_decode_utf8, encode_utf8_valid_utf8, is_char_boundary,
    is_char_boundary_iff_not_is_continuation_byte, is_char_boundary_start_end_of_seq,
    valid_utf8_split,
};
use vstd::string::StringSliceAdditionalSpecFns;
use vstd::std_specs::cmp::{PartialEqSpec, PartialOrdSpec};
use core::cmp::Ordering;
use core::hash::{Hash, Hasher};
use crate::fold::{
    bytes_eq_ignore_ascii_case, bytes_start_with_ignore_ascii_case, differ_in_case_only,
    eq_ignore_ascii_case, fold_byte, fold_bytes, fold_char, fold_chars,
    lemma_eq_iff_folded_bytes_equal, lemma_eq_iff_folded_chars_equal,
    starts_with_ignore_ascii_case, to_lower_byte,
};
use crate::order::{
    compare_folded, compare_ignore_ascii_case, lemma_compare_antisymmetric,
    lemma_compare_equal_iff, lemma_compare_reads_folded, lemma_compare_transitive, reversed,
};
use crate::sink::{ByteSink, HasherSink};

verus! {

/// A borrowed text that keeps its casing and is compared, ordered and
/// hashed without regard to ASCII case.
///
/// It is a relabelled `&str`: making one copies nothing, and it is as cheap
/// to pass around as the reference it holds.
#[derive(Clone, Copy, Debug)]
pub struct UncasedStr<'a> {
    string: &'a str,
}

impl<'a> View for UncasedStr<'a> {
    type V = Seq<char>;

    /// The text, in the casing it was given.
    closed spec fn view(&self) -> Seq<char> {
        self.string@
    }
}

impl<'a> UncasedStr<'a> {
    /// The UTF-8 bytes of the text.
    pub open spec fn bytes(&self) -> Seq<u8> {
        encode_utf8(self@)
    }

    /// What hashing feeds to a sink: the bytes of the text, each folded.
    pub open spec fn hash_bytes(&self) -> Seq<u8> {
        fold_bytes(self.bytes())
    }

    /// The uncased string that [`UncasedStr::new`] makes of `string`.
    pub closed spec fn spec_new(string: &'a str) -> UncasedStr<'a> {
        UncasedStr { string }
    }

    /// The text that [`UncasedStr::as_str`] hands out.
    pub closed spec fn spec_as_str(&self) -> &'a str {
        self.string
    }

    /// Relabels `string` as uncased. Nothing is copied.
    #[verifier::when_used_as_spec(spec_new)]
    pub fn new(string: &'a str) -> (r: UncasedStr<'a>)
        ensures
            r == Self::spec_new(string),
            r@ == string@,
    {
        UncasedStr { string }
    }

    /// The text as it was given, casing and all.
    #[verifier::when_used_as_spec(spec_as_str)]
    pub fn as_str(&self) -> (r: &'a str)
        ensures
            r == self.spec_as_str(),
            r@ == self@,
    {
        self.string
    }

    /// The length of the text in bytes.
    pub fn len(&self) -> (r: usize)
        ensures
            r == self.bytes().len(),
    {
        self.string.as_bytes().len()
    }

    /// Whether the text starts with `string` in any casing. A prefix longer
    /// than the text is no prefix.
    pub fn starts_with(&self, string: &str) -> (r: bool)
        ensures
            r == starts_with_ignore_ascii_case(self.bytes(), string.spec_bytes()),
    {
        bytes_start_with_ignore_ascii_case(self.string.as_bytes(), string.as_bytes())
    }

    /// The part of the text from byte `start` up to, not including, byte
    /// `end`, in its own casing. Both must lie on character boundaries.
    pub fn slice(&self, start: usize, end: usize) -> (r: UncasedStr<'a>)
        requires
            start <= end <= self.bytes().len(),
            is_char_boundary(self.bytes(), start as int),
            is_char_boundary(self.bytes(), end as int),
        ensures
            r.bytes() == self.bytes().subrange(start as int, end as int),
            r@ == decode_utf8(self.bytes().subrange(start as int, end as int)),
    {
        let (head, _) = self.string.split_at(end);
        proof {
            let whole = self.bytes();
            let front = whole.subrange(0, end as int);
            encode_utf8_valid_utf8(self@);
            valid_utf8_split(whole, end as int);
            if start == end {
                is_char_boundary_start_end_of_seq(front);
            } else if start > 0 {
                is_char_boundary_iff_not_is_continuation_byte(whole, start as int);
                is_char_boundary_iff_not_is_continuation_byte(front, start as int);
            }
        }
        let (_, tail) = head.split_at(start);
        assert(tail.spec_bytes() =~= self.bytes().subrange(start as int, end as int));
        proof {
            encode_utf8_decode_utf8(tail@);
        }
        UncasedStr { string: tail }
    }

    /// Feeds the bytes of the text to `sink`, each folded, first byte first.
    pub fn hash_into<S: ByteSink>(&self, sink: &mut S)
        ensures
            final(sink).fed() == old(sink).fed() + self.hash_bytes(),
    {
        let bytes = self.string.as_bytes();
        let mut i: usize = 0;
        assert(fold_bytes(bytes@.take(0)) =~= Seq::<u8>::empty());
        assert(sink.fed() + Seq::<u8>::empty() =~= sink.fed());
        while i < bytes.len()
            invariant
                i <= bytes.len(),
                sink.fed() == old(sink).fed() + fold_bytes(bytes@.take(i as int)),
            decreases bytes.len() - i,
        {
            sink.feed(to_lower_byte(bytes[i]));
            assert(fold_bytes(bytes@.take(i + 1)) =~= fold_bytes(bytes@.take(i as int)).push(
                fold_byte(bytes@[i as int]),
            ));
            assert(sink.fed() =~= old(sink).fed() + fold_bytes(bytes@.take(i + 1)));
            i += 1;
        }
        assert(bytes@.take(i as int) =~= bytes@);
    }

    /// How the text stands to `other` in the order of uncased strings.
    pub fn cmp(&self, other: &UncasedStr<'_>) -> (r: Ordering)
        ensures
            r == compare_folded(self@, other@),
    {
        compare_ignore_ascii_case(self.string, other.string)
    }

    /// An owned copy of the text, in its own casing.
    pub fn to_string(&self) -> (r: String)
        ensures
            r@ == self@,
    {
        self.string.to_owned()
    }
}

/// Two uncased strings are equal when their texts are the same up to ASCII
/// case.
impl<'a> PartialEq for UncasedStr<'a> {
    fn eq(&self, other: &UncasedStr<'a>) -> (r: bool) {
        bytes_eq_ignore_ascii_case(self.string.as_bytes(), other.string.as_bytes())
    }
}

impl<'a> vstd::std_specs::cmp::PartialEqSpecImpl for UncasedStr<'a> {
    open spec fn obeys_eq_spec() -> bool {
        true
    }

    open spec fn eq_spec(&self, other: &UncasedStr<'a>) -> bool {
        eq_ignore_ascii_case(self.bytes(), other.bytes())
    }
}

impl<'a> Eq for UncasedStr<'a> {

}

/// An uncased string equals a plain text that is its text up to ASCII case.
impl<'a> PartialEq<str> for UncasedStr<'a> {
    fn eq(&self, other: &str) -> (r: bool) {
        bytes_eq_ignore_ascii_case(self.string.as_bytes(), other.as_bytes())
    }
}

impl<'a> vstd::std_specs::cmp::PartialEqSpecImpl<str> for UncasedStr<'a> {
    open spec fn obeys_eq_spec() -> bool {
        true
    }

    open spec fn eq_spec(&self, other: &str) -> bool {
        eq_ignore_ascii_case(self.bytes(), other.spec_bytes())
    }
}

/// A plain text equals an uncased string whose text it is up to ASCII case.
impl<'a> PartialEq<UncasedStr<'a>> for str {
    fn eq(&self, other: &UncasedStr<'a>) -> (r: bool) {
        bytes_eq_ignore_ascii_case(other.string.as_bytes(), self.as_bytes())
    }
}

impl<'a> vstd::std_specs::cmp::PartialEqSpecImpl<UncasedStr<'a>> for str {
    open spec fn obeys_eq_spec() -> bool {
        true
    }

    open spec fn eq_spec(&self, other: &UncasedStr<'a>) -> bool {
        eq_ignore_ascii_case(other.bytes(), self.spec_bytes())
    }
}

/// As for `str`, through one more reference.
impl<'a, 'b> PartialEq<&'b str> for UncasedStr<'a> {
    fn eq(&self, other: &&'b str) -> (r: bool) {
        bytes_eq_ignore_ascii_case(self.string.as_bytes(), other.as_bytes())
    }
}

impl<'a, 'b> vstd::std_specs::cmp::PartialEqSpecImpl<&'b str> for UncasedStr<'a> {
    open spec fn obeys_eq_spec() -> bool {
        true
    }

    open spec fn eq_spec(&self, other: &&'b str) -> bool {
        eq_ignore_ascii_case(self.bytes(), other.spec_bytes())
    }
}

/// As for `str`, through one more reference.
impl<'a, 'b> PartialEq<UncasedStr<'a>> for &'b str {
    fn eq(&self, other: &UncasedStr<'a>) -> (r: bool) {
        bytes_eq_ignore_ascii_case(other.string.as_bytes(), self.as_bytes())
    }
}

impl<'a, 'b> vstd::std_specs::cmp::PartialEqSpecImpl<UncasedStr<'a>> for &'b str {
    open spec fn obeys_eq_spec() -> bool {
        true
    }

    open spec fn eq_spec(&self, other: &UncasedStr<'a>) -> bool {
        eq_ignore_ascii_case(other.bytes(), self.spec_bytes())
    }
}

/// A text converts into its uncased string as by [`UncasedStr::new`].
impl<'a> From<&'a str> for UncasedStr<'a> {
    fn from(string: &'a str) -> (r: UncasedStr<'a>)
        ensures
            r@ == string@,
    {
        UncasedStr::new(string)
    }
}

impl<'a> vstd::std_specs::convert::FromSpecImpl<&'a str> for UncasedStr<'a> {
    open spec fn obeys_from_spec() -> bool {
        true
    }

    open spec fn from_spec(string: &'a str) -> UncasedStr<'a> {
        UncasedStr::spec_new(string)
    }
}

impl<'a> Hash for UncasedStr<'a> {
    /// Writes the bytes of the text to `hasher`, each folded, one
    /// [`Hasher::write_u8`] per byte.
    fn hash<H: Hasher>(&self, hasher: &mut H) {
        let mut sink = HasherSink::new(hasher);
        self.hash_into(&mut sink);
    }
}

/// Uncased strings are ordered as [`UncasedStr::cmp`] says; any two are
/// comparable.
impl<'a> PartialOrd for UncasedStr<'a> {
    fn partial_cmp(&self, other: &UncasedStr<'a>) -> (r: Option<Ordering>) {
        Some(self.cmp(other))
    }
}

impl<'a> vstd::std_specs::cmp::PartialOrdSpecImpl for UncasedStr<'a> {
    open spec fn obeys_partial_cmp_spec() -> bool {
        true
    }

    open spec fn partial_cmp_spec(&self, other: &UncasedStr<'a>) -> Option<Ordering> {
        Some(compare_folded(self@, other@))
    }
}

/// Making an uncased string of a text and reading it back gives the very
/// same text: no byte of it has changed.
pub proof fn lemma_case_is_preserved(string: &str)
    ensures
        UncasedStr::new(string).as_str() == string,
        UncasedStr::new(string)@ == string@,
{
}

/// Switching the case of any of the ASCII letters of a text gives a text
/// equal to it.
pub proof fn lemma_case_toggled_is_equal(a: UncasedStr, b: UncasedStr)
    requires
        differ_in_case_only(a@, b@),
    ensures
        a.eq_spec(&b),
{
    assert(fold_chars(a@) =~= fold_chars(b@));
    lemma_eq_iff_folded_chars_equal(a@, b@);
}

/// Equality is an equivalence.
pub proof fn lemma_eq_is_equivalence(a: UncasedStr, b: UncasedStr, c: UncasedStr)
    ensures
        a.eq_spec(&a),
        a.eq_spec(&b) ==> b.eq_spec(&a),
        a.eq_spec(&b) && b.eq_spec(&c) ==> a.eq_spec(&c),
{
}

/// Two texts are equal exactly when hashing feeds the same bytes for both,
/// so equal texts hash alike in every hasher.
pub proof fn lemma_equal_iff_same_hash_bytes(a: UncasedStr, b: UncasedStr)
    ensures
        a.eq_spec(&b) <==> a.hash_bytes() == b.hash_bytes(),
{
    lemma_eq_iff_folded_bytes_equal(a.bytes(), b.bytes());
}

/// A byte that is no ASCII upper-case letter is hashed as it stands, and
/// the bytes fed are as many as the text has.
pub proof fn lemma_other_bytes_hash_unchanged(a: UncasedStr, i: int)
    requires
        0 <= i < a.bytes().len(),
        !(0x41 <= a.bytes()[i] <= 0x5a),
    ensures
        a.hash_bytes().len() == a.bytes().len(),
        a.hash_bytes()[i] == a.bytes()[i],
{
}

/// Two texts of the same length that differ in a character outside ASCII
/// are unequal: folding never makes up for such a difference.
pub proof fn lemma_non_ascii_difference_is_unequal(a: UncasedStr, b: UncasedStr, k: int)
    requires
        a@.len() == b@.len(),
        0 <= k < a@.len(),
        a@[k] != b@[k],
        a@[k] > '\u{7f}',
    ensures
        !a.eq_spec(&b),
        !b.eq_spec(&a),
{
    assert(fold_chars(a@)[k] == a@[k]);
    assert(fold_chars(b@)[k] == fold_char(b@[k]));
    lemma_eq_iff_folded_chars_equal(a@, b@);
    lemma_eq_iff_folded_chars_equal(b@, a@);
}

/// Ordering agrees with equality: two texts compare as equal exactly when
/// they are equal.
pub proof fn lemma_order_agrees_with_eq(a: UncasedStr, b: UncasedStr)
    ensures
        a.partial_cmp_spec(&b) == Some(Ordering::Equal) <==> a.eq_spec(&b),
{
    lemma_compare_equal_iff(a@, b@);
    lemma_eq_iff_folded_chars_equal(a@, b@);
}

/// The order is total: any two texts are comparable, swapping them
/// reverses the outcome, and the order is transitive.
pub proof fn lemma_order_is_total(a: UncasedStr, b: UncasedStr, c: UncasedStr)
    ensures
        a.partial_cmp_spec(&b) is Some,
        b.partial_cmp_spec(&a) == Some(reversed(compare_folded(a@, b@))),
        a.partial_cmp_spec(&b) != Some(Ordering::Greater) && b.partial_cmp_spec(&c) != Some(
            Ordering::Greater,
        ) ==> a.partial_cmp_spec(&c) != Some(Ordering::Greater),
        a.partial_cmp_spec(&b) == Some(Ordering::Less) && b.partial_cmp_spec(&c) != Some(
            Ordering::Greater,
        ) ==> a.partial_cmp_spec(&c) == Some(Ordering::Less),
        a.partial_cmp_spec(&b) != Some(Ordering::Greater) && b.partial_cmp_spec(&c) == Some(
            Ordering::Less,
        ) ==> a.partial_cmp_spec(&c) == Some(Ordering::Less),
{
    lemma_compare_antisymmetric(a@, b@);
    if compare_folded(a@, b@) != Ordering::Greater && compare_folded(b@, c@)
        != Ordering::Greater {
        lemma_compare_transitive(a@, b@, c@);
    }
}

/// The order does not see ASCII case: texts equal to the two sides compare
/// as the two sides do.
pub proof fn lemma_order_ignores_case(a: UncasedStr, b: UncasedStr, c: UncasedStr, d: UncasedStr)
    requires
        a.eq_spec(&c),
        b.eq_spec(&d),
    ensures
        a.partial_cmp_spec(&b) == c.partial_cmp_spec(&d),
{
    lemma_eq_iff_folded_chars_equal(a@, c@);
    lemma_eq_iff_folded_chars_equal(b@, d@);
    lemma_compare_reads_folded(a@, b@, c@, d@);
}

} // verus!
