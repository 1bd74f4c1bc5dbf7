use vstd::prelude::*;

verus! {

/// Equality of two string slices.
///
/// Relies on str's `PartialEq`: two slices are equal exactly when their
/// character sequences are.
#[verifier::external_body]
pub fn str_eq(a: &str, b: &str) -> (r: bool)
    ensures
        r == (a@ == b@),
{
    a == b
}

/// The Unicode lowercase form of a character sequence; the result depends on
/// the characters alone.
pub uninterp spec fn lower_of(s: Seq<char>) -> Seq<char>;

/// Relies on `str::to_lowercase`: the Unicode lowercase equivalent of the
/// input; characters that are already lowercase (in particular ASCII
/// lowercase letters) map to themselves.
#[verifier::external_body]
pub fn lowercase(s: &str) -> (r: String)
    ensures
        r@ == lower_of(s@),
        (forall|i: int|
            0 <= i < s@.len() ==> ('a' <= #[trigger] s@[i] <= 'z')) ==> r@ == s@,
{
    s.to_lowercase()
}

} // verus!
