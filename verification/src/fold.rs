//! ASCII case folding of bytes and characters, and equality up to folding.
use vstd::prelude::*;
use vstd::utf8::*;

verus! {

/// `b` with an ASCII upper-case letter (`0x41` to `0x5a`) replaced by its
/// lower-case form, which lies `0x20` above it.
pub open spec fn fold_byte(b: u8) -> u8 {
    if 0x41 <= b <= 0x5a {
        (b + 0x20) as u8
    } else {
        b
    }
}

/// `c` with an ASCII upper-case letter replaced by its lower-case form.
pub open spec fn fold_char(c: char) -> char {
    if 'A' <= c <= 'Z' {
        ((c as u32) + 0x20) as char
    } else {
        c
    }
}

/// The bytes of `s`, each folded.
pub open spec fn fold_bytes(s: Seq<u8>) -> Seq<u8> {
    Seq::new(s.len(), |i: int| fold_byte(s[i]))
}

/// The characters of `s`, each folded.
pub open spec fn fold_chars(s: Seq<char>) -> Seq<char> {
    Seq::new(s.len(), |i: int| fold_char(s[i]))
}

/// Equality of byte strings up to ASCII case: the lengths agree and so
/// does every position once folded.
pub open spec fn eq_ignore_ascii_case(a: Seq<u8>, b: Seq<u8>) -> bool {
    &&& a.len() == b.len()
    &&& forall|i: int| 0 <= i < a.len() ==> fold_byte(a[i]) == fold_byte(b[i])
}

/// `s` starts with `prefix` up to ASCII case.
pub open spec fn starts_with_ignore_ascii_case(s: Seq<u8>, prefix: Seq<u8>) -> bool {
    &&& prefix.len() <= s.len()
    &&& eq_ignore_ascii_case(s.subrange(0, prefix.len() as int), prefix)
}

/// `c` with its case switched if it is an ASCII letter.
pub open spec fn toggle_case(c: char) -> char {
    if 'A' <= c <= 'Z' {
        ((c as u32) + 0x20) as char
    } else if 'a' <= c <= 'z' {
        ((c as u32) - 0x20) as char
    } else {
        c
    }
}

/// `t` is `s` with the case of any number of its ASCII letters switched.
pub open spec fn differ_in_case_only(s: Seq<char>, t: Seq<char>) -> bool {
    &&& s.len() == t.len()
    &&& forall|i: int| 0 <= i < s.len() ==> t[i] == s[i] || t[i] == toggle_case(s[i])
}

/// Folds one byte.
pub fn to_lower_byte(b: u8) -> (r: u8)
    ensures
        r == fold_byte(b),
{
    if b >= 0x41 && b <= 0x5a {
        b + 0x20
    } else {
        b
    }
}

/// Folds one character.
pub fn to_lower_char(c: char) -> (r: char)
    ensures
        r == fold_char(c),
{
    if c >= 'A' && c <= 'Z' {
        ((c as u8) + 0x20) as char
    } else {
        c
    }
}

/// Compares the first `n` bytes of `a` and of `b` up to ASCII case.
fn agree_up_to(a: &[u8], b: &[u8], n: usize) -> (r: bool)
    requires
        n <= a@.len(),
        n <= b@.len(),
    ensures
        r == eq_ignore_ascii_case(a@.subrange(0, n as int), b@.subrange(0, n as int)),
{
    let mut i: usize = 0;
    while i < n
        invariant
            i <= n <= a@.len(),
            n <= b@.len(),
            forall|j: int| 0 <= j < i ==> fold_byte(a@[j]) == fold_byte(b@[j]),
        decreases n - i,
    {
        if to_lower_byte(a[i]) != to_lower_byte(b[i]) {
            assert(a@.subrange(0, n as int)[i as int] == a@[i as int]);
            assert(b@.subrange(0, n as int)[i as int] == b@[i as int]);
            return false;
        }
        i += 1;
    }
    true
}

/// Decides equality up to ASCII case.
pub fn bytes_eq_ignore_ascii_case(a: &[u8], b: &[u8]) -> (r: bool)
    ensures
        r == eq_ignore_ascii_case(a@, b@),
{
    if a.len() != b.len() {
        return false;
    }
    assert(a@.subrange(0, a@.len() as int) =~= a@);
    assert(b@.subrange(0, a@.len() as int) =~= b@);
    agree_up_to(a, b, a.len())
}

/// Decides whether `s` starts with `prefix` up to ASCII case. The lengths
/// are compared first, so no byte beyond the end of `s` is read.
pub fn bytes_start_with_ignore_ascii_case(s: &[u8], prefix: &[u8]) -> (r: bool)
    ensures
        r == starts_with_ignore_ascii_case(s@, prefix@),
{
    if s.len() < prefix.len() {
        return false;
    }
    assert(prefix@.subrange(0, prefix@.len() as int) =~= prefix@);
    agree_up_to(s, prefix, prefix.len())
}

/// Two byte strings are equal up to ASCII case exactly when their folded
/// forms are the same byte string.
pub proof fn lemma_eq_iff_folded_bytes_equal(a: Seq<u8>, b: Seq<u8>)
    ensures
        eq_ignore_ascii_case(a, b) <==> fold_bytes(a) == fold_bytes(b),
{
    if eq_ignore_ascii_case(a, b) {
        assert(fold_bytes(a) =~= fold_bytes(b));
    }
    if fold_bytes(a) == fold_bytes(b) {
        assert(a.len() == fold_bytes(a).len());
        assert(b.len() == fold_bytes(b).len());
        assert forall|i: int| 0 <= i < a.len() implies fold_byte(a[i]) == fold_byte(b[i]) by {
            assert(fold_bytes(a)[i] == fold_byte(a[i]));
            assert(fold_bytes(b)[i] == fold_byte(b[i]));
        }
    }
}

/// Folding a concatenation folds its parts.
proof fn lemma_fold_bytes_concat(x: Seq<u8>, y: Seq<u8>)
    ensures
        fold_bytes(x + y) == fold_bytes(x) + fold_bytes(y),
{
    assert(fold_bytes(x + y) =~= fold_bytes(x) + fold_bytes(y));
}

/// The encoding of a folded character is the folded encoding of the
/// character: an ASCII character is its own single byte, and the bytes of
/// any other character all lie above the ASCII range.
proof fn lemma_fold_commutes_with_encode_scalar(c: char)
    ensures
        encode_scalar(fold_char(c) as u32) == fold_bytes(encode_scalar(c as u32)),
{
    let s = c as u32;
    if has_width_1_encoding(s) {
        let t = fold_char(c) as u32;
        assert(leading_byte_width_1(s) == s as u8) by (bit_vector)
            requires
                s <= 0x7f,
        ;
        assert(leading_byte_width_1(t) == t as u8) by (bit_vector)
            requires
                t <= 0x7f,
        ;
        assert(encode_scalar(t) =~= fold_bytes(encode_scalar(s)));
    } else {
        assert(fold_char(c) == c);
        assert(forall|x: u8| #![auto] (0x80u8 | x) >= 0x80 && (0xc0u8 | x) >= 0x80 && (0xe0u8 | x)
            >= 0x80 && (0xf0u8 | x) >= 0x80) by (bit_vector);
        assert(encode_scalar(s) =~= fold_bytes(encode_scalar(s)));
    }
}

/// Folding commutes with UTF-8 encoding: folding the bytes of a text gives
/// the bytes of the text with its characters folded.
pub proof fn lemma_fold_commutes_with_encode(s: Seq<char>)
    ensures
        encode_utf8(fold_chars(s)) == fold_bytes(encode_utf8(s)),
    decreases s.len(),
{
    if s.len() == 0 {
        assert(fold_chars(s) =~= s);
        assert(fold_bytes(encode_utf8(s)) =~= encode_utf8(s));
    } else {
        let rest = s.drop_first();
        lemma_fold_commutes_with_encode(rest);
        lemma_fold_commutes_with_encode_scalar(s[0]);
        lemma_fold_bytes_concat(encode_scalar(s[0] as u32), encode_utf8(rest));
        assert(fold_chars(s).drop_first() =~= fold_chars(rest));
        assert(fold_chars(s)[0] == fold_char(s[0]));
    }
}

/// Equality up to ASCII case, which is stated on bytes, can as well be read
/// on characters: two texts are equal up to case exactly when they have the
/// same characters once each is folded.
pub proof fn lemma_eq_iff_folded_chars_equal(a: Seq<char>, b: Seq<char>)
    ensures
        eq_ignore_ascii_case(encode_utf8(a), encode_utf8(b)) <==> fold_chars(a) == fold_chars(b),
{
    lemma_eq_iff_folded_bytes_equal(encode_utf8(a), encode_utf8(b));
    lemma_fold_commutes_with_encode(a);
    lemma_fold_commutes_with_encode(b);
    encode_utf8_decode_utf8(fold_chars(a));
    encode_utf8_decode_utf8(fold_chars(b));
}

} // verus!
