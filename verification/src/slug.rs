use vstd::prelude::*;

verus! {

/// The slug that `slug::slugify` makes of a text.
pub uninterp spec fn slug_of(s: Seq<char>) -> Seq<char>;

/// Characters a slug may hold.
pub open spec fn is_slug_char(c: char) -> bool {
    ('a' <= c && c <= 'z') || ('0' <= c && c <= '9') || c == '-'
}

/// A slug holds only `a-z`, `0-9` and `-`, never starts or ends with `-`,
/// and never holds two `-` in a row.
pub open spec fn well_formed_slug(s: Seq<char>) -> bool {
    &&& forall|i: int| 0 <= i < s.len() ==> is_slug_char(#[trigger] s[i])
    &&& s.len() > 0 ==> s[0] != '-' && s[s.len() - 1] != '-'
    &&& forall|i: int| 0 <= i < s.len() - 1 ==> !(#[trigger] s[i] == '-' && s[i + 1] == '-')
}

/// Calls `slug::slugify`. Its documentation promises that the slug consists
/// of `a-z`, `0-9` and `-`, never holds more than one `-` in a row and never
/// starts or ends with `-`; that is what `well_formed_slug` states. How
/// non-ASCII characters are transliterated is left to the name `slug_of`.
#[verifier::external_body]
pub(crate) fn slugify(s: &str) -> (r: String)
    ensures
        r@ == slug_of(s@),
        well_formed_slug(r@),
{
    slug::slugify(s)
}

} // verus!
