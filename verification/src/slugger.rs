//! Canonical URL-safe slugs, computed by the `slug` crate and
//! characterized by the shape predicate `is_slug`.

use vstd::prelude::*;

verus! {

/// A canonical slug character: a lowercase ASCII letter, a digit, or a hyphen.
pub open spec fn is_slug_char(c: char) -> bool {
    ('a' <= c && c <= 'z') || ('0' <= c && c <= '9') || c == '-'
}

/// A canonical slug: only slug characters, no leading or trailing hyphen,
/// and never two hyphens in a row.
pub open spec fn is_slug(s: Seq<char>) -> bool {
    &&& forall|i: int| 0 <= i < s.len() ==> is_slug_char(#[trigger] s[i])
    &&& s.len() > 0 ==> s[0] != '-'
    &&& s.len() > 0 ==> s[s.len() - 1] != '-'
    &&& forall|i: int| 0 < i < s.len() && #[trigger] s[i] == '-' ==> s[i - 1] != '-'
}

/// The slug that the `slug` crate computes for a given character sequence.
pub uninterp spec fn slug_of(s: Seq<char>) -> Seq<char>;

/// Relies on slug::slugify: the result depends on the input characters
/// alone; it consists of `a-z`, `0-9` and `-`, never starts or ends with a
/// hyphen and never repeats one; and an input already of that shape is
/// returned unchanged (each of its characters maps to itself).
#[verifier::external_body]
fn slugify_raw(s: &str) -> (r: String)
    ensures
        r@ == slug_of(s@),
        is_slug(r@),
        is_slug(s@) ==> r@ == s@,
{
    slug::slugify(s)
}

/// Converts arbitrary text to its canonical URL-safe slug.
pub fn slugify(s: &str) -> (r: String)
    ensures
        r@ == slug_of(s@),
        is_slug(slug_of(s@)),
        is_slug(s@) ==> slug_of(s@) == s@,
{
    slugify_raw(s)
}

/// Law: slugification is idempotent. The first component is `slugify(s)`,
/// the second is `slugify(slugify(s))`, and the two are always equal.
pub fn slugify_twice(s: &str) -> (r: (String, String))
    ensures
        r.0@ == slug_of(s@),
        r.1@ == slug_of(slug_of(s@)),
        r.1@ == r.0@,
        is_slug(r.0@),
{
    let once = slugify(s);
    let twice = slugify(once.as_str());
    (once, twice)
}

} // verus!
