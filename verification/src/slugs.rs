//! URL-safe slugs.

use vstd::prelude::*;
use crate::error::{Failure, OpError, outcome};

verus! {

/// The slug that a text is turned into.
pub uninterp spec fn slug_of(s: Seq<char>) -> Seq<char>;

/// A lowercase ASCII letter or a digit.
pub open spec fn is_slug_alnum(c: char) -> bool {
    ('a' <= c && c <= 'z') || ('0' <= c && c <= '9')
}

/// Whether `s` has the form of a slug: lowercase ASCII letters, digits and
/// the separator `-`, which stands neither first nor last nor twice in a row.
pub open spec fn is_slug(s: Seq<char>) -> bool {
    &&& forall|i: int| 0 <= i < s.len() ==> is_slug_alnum(#[trigger] s[i]) || s[i] == '-'
    &&& s.len() > 0 ==> s.first() != '-' && s.last() != '-'
    &&& forall|i: int| 0 <= i < s.len() - 1 ==> !(#[trigger] s[i] == '-' && s[i + 1] == '-')
}

/// What is known of the slug `slug` made from the text `text`.
pub open spec fn slugified(text: Seq<char>, slug: Seq<char>) -> bool {
    &&& slug == slug_of(text)
    &&& is_slug(slug)
    &&& is_slug(text) ==> slug == text
}

/// Turns a text into a slug.
///
/// Trusted: `slug::slugify`. Its result depends on the text alone and always
/// has the form of a slug; a text that already has that form comes back
/// unchanged, since lowercase letters and digits are kept and a single `-`
/// between them is kept too.
#[verifier::external_body]
fn make_slug(s: &str) -> (r: String)
    ensures
        r@ == slug_of(s@),
        is_slug(r@),
        is_slug(s@) ==> r@ == s@,
{
    ::slug::slugify(s)
}

/// Converts a text to a URL-safe slug: lowercase, runs of other characters
/// collapsed to one `-`, none of them first or last.
pub fn slugify(input: &str) -> (r: Result<String, OpError>)
    ensures
        outcome(r) == Ok::<Seq<char>, Failure>(slug_of(input@)),
        r is Ok && slugified(input@, r->Ok_0@),
{
    Ok(make_slug(input))
}

/// Making a slug of a slug changes nothing: whatever `slugify` gives for a
/// text, it gives the same for that result.
pub proof fn lemma_slugify_idempotent(text: Seq<char>, once: Seq<char>, twice: Seq<char>)
    requires
        slugified(text, once),
        slugified(once, twice),
    ensures
        twice == once,
        slug_of(slug_of(text)) == slug_of(text),
{
}

} // verus!
