//! Text helpers: specification-level substring and replacement functions,
//! and thin trusted wrappers around the `str` operations of std that vstd
//! gives no specification to.

use vstd::prelude::*;

verus! {

/// The characters of `s` with leading and trailing whitespace removed, as
/// `str::trim` computes it. Whitespace is the Unicode `White_Space` property,
/// which is left unstated here; the result depends on the characters alone.
pub uninterp spec fn trimmed(s: Seq<char>) -> Seq<char>;

/// The lower-case form of `s`, as `str::to_lowercase` computes it. Unicode
/// case folding is left unstated here; the result depends on the characters
/// alone.
pub uninterp spec fn lower_of(s: Seq<char>) -> Seq<char>;

/// `sub` occurs contiguously somewhere inside `s`.
pub open spec fn contains_substr(s: Seq<char>, sub: Seq<char>) -> bool {
    exists|i: int|
        0 <= i && i + sub.len() <= s.len() && #[trigger] s.subrange(i, i + sub.len()) == sub
}

/// `s` with every occurrence of the non-empty pattern `from` replaced by
/// `to`, scanning left to right over non-overlapping matches, as
/// `str::replace` computes it for a `&str` pattern.
pub open spec fn replace_with(s: Seq<char>, from: Seq<char>, to: Seq<char>) -> Seq<char>
    recommends
        from.len() > 0,
    decreases s.len(),
{
    if s.len() < from.len() || from.len() == 0 {
        s
    } else if s.subrange(0, from.len() as int) == from {
        to + replace_with(s.skip(from.len() as int), from, to)
    } else {
        s.take(1) + replace_with(s.skip(1), from, to)
    }
}

/// The string list `items` holds an entry with the characters `k`.
pub open spec fn seq_has_str(items: Seq<String>, k: Seq<char>) -> bool {
    exists|i: int| 0 <= i < items.len() && (#[trigger] items[i])@ == k
}

/// Search a string list for an entry with the characters of `k`.
pub(crate) fn vec_has_str(items: &Vec<String>, k: &str) -> (r: bool)
    ensures
        r == seq_has_str(items@, k@),
{
    let mut i: usize = 0;
    while i < items.len()
        invariant
            0 <= i <= items@.len(),
            forall|j: int| 0 <= j < i ==> (#[trigger] items@[j])@ != k@,
        decreases items@.len() - i,
    {
        if str_eq(items[i].as_str(), k) {
            return true;
        }
        i = i + 1;
    }
    false
}

/// Relies on `str::trim`: removes leading and trailing whitespace and
/// returns a sub-slice, so an empty input stays empty and nothing grows.
#[verifier::external_body]
pub(crate) fn trim_str(s: &str) -> (r: &str)
    ensures
        r@ == trimmed(s@),
        r@.len() <= s@.len(),
{
    s.trim()
}

/// Relies on `str::to_lowercase`: the result is a function of the characters
/// alone, and of an empty string it is empty.
#[verifier::external_body]
pub(crate) fn lowercase(s: &str) -> (r: String)
    ensures
        r@ == lower_of(s@),
        s@.len() == 0 ==> r@.len() == 0,
{
    s.to_lowercase()
}

/// Relies on `<str as PartialEq>::eq`: string slices compare equal exactly
/// when they hold the same characters.
#[verifier::external_body]
pub(crate) fn str_eq(a: &str, b: &str) -> (r: bool)
    ensures
        r == (a@ == b@),
{
    a == b
}

/// Relies on `str::contains` with a `&str` pattern: true exactly when the
/// pattern occurs as a sub-slice.
#[verifier::external_body]
pub(crate) fn str_contains(s: &str, sub: &str) -> (r: bool)
    ensures
        r == contains_substr(s@, sub@),
{
    s.contains(sub)
}

/// Relies on `str::replace` with a `&str` pattern: replaces the leftmost
/// non-overlapping occurrences of `from` with `to`.
#[verifier::external_body]
pub(crate) fn str_replace(s: &str, from: &str, to: &str) -> (r: String)
    requires
        from@.len() > 0,
    ensures
        r@ == replace_with(s@, from@, to@),
{
    s.replace(from, to)
}

} // verus!
