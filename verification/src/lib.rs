//! Case-preserving, ASCII case-insensitive strings.
//!
//! An uncased string keeps the casing it was given, while equality, ordering
//! and hashing fold the ASCII letters `A`-`Z` onto `a`-`z`. Every other
//! byte, including each byte of a multi-byte character, counts as it stands:
//! there is no Unicode case folding here.
use vstd::prelude::*;
use vstd::string::StringSliceAdditionalSpecFns;

pub mod as_uncased;
pub mod borrowed;
pub mod boxed;
pub mod fold;
pub mod order;
pub mod owned;
pub mod sink;
pub mod std_specs;

pub use as_uncased::AsUncased;
pub use borrowed::UncasedStr;
pub use boxed::BoxedUncasedStr;
pub use owned::Uncased;

verus! {

/// Whether `s1` and `s2` are the same text up to ASCII case.
pub fn eq(s1: &str, s2: &str) -> (r: bool)
    ensures
        r == fold::eq_ignore_ascii_case(s1.spec_bytes(), s2.spec_bytes()),
{
    UncasedStr::new(s1) == UncasedStr::new(s2)
}

} // verus!
