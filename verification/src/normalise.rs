//! Normalisation of card and set names before they are compared.
use vstd::prelude::*;
use vstd::string::StrSliceExecFns;
use crate::text::push_char;
use unicode_normalization::UnicodeNormalization;

verus! {

/// What `unicode_normalization`'s NFKC recomposition makes of a string.
pub uninterp spec fn spec_nfkc(s: Seq<char>) -> Seq<char>;

/// What replacing every match of the regex `[^\w\s]` (a character that is
/// neither a Unicode word character nor Unicode whitespace) by nothing
/// makes of a string.
pub uninterp spec fn spec_strip_punctuation(s: Seq<char>) -> Seq<char>;

/// What `str::to_lowercase` makes of a string.
pub uninterp spec fn spec_to_lowercase(s: Seq<char>) -> Seq<char>;

/// Every hyphen replaced by a space.
pub open spec fn hyphens_to_spaces(s: Seq<char>) -> Seq<char> {
    s.map_values(|c: char| if c == '-' { ' ' } else { c })
}

/// The normal form of a name: hyphens become spaces, the text is put in
/// Unicode NFKC form, every character that is neither a word character nor
/// whitespace is removed, and the rest is lower-cased.
pub open spec fn spec_normalise(name: Seq<char>) -> Seq<char> {
    spec_to_lowercase(spec_strip_punctuation(spec_nfkc(hyphens_to_spaces(name))))
}

/// `UnicodeNormalization::nfkc` on a string, collected into a `String`.
/// The claim: the result depends on the input characters alone.
#[verifier::external_body]
fn nfkc(s: &str) -> (r: String)
    ensures
        r@ == spec_nfkc(s@),
{
    s.nfkc().collect::<String>()
}

/// `regex::Regex::replace_all` of the pattern `[^\w\s]` by the empty string.
/// The claim: the result depends on the input characters alone.
#[verifier::external_body]
fn strip_punctuation(s: &str) -> (r: String)
    ensures
        r@ == spec_strip_punctuation(s@),
{
    regex::Regex::new(r"[^\w\s]").expect("the pattern is valid").replace_all(s, "").into_owned()
}

/// `str::to_lowercase`. The claim: the result depends on the input
/// characters alone.
#[verifier::external_body]
fn to_lowercase(s: &str) -> (r: String)
    ensures
        r@ == spec_to_lowercase(s@),
{
    s.to_lowercase()
}

/// Replaces every hyphen of `s` by a space.
pub fn replace_hyphens(s: &str) -> (r: String)
    ensures
        r@ == hyphens_to_spaces(s@),
{
    let n = s.unicode_len();
    let mut out = String::new();
    let mut i: usize = 0;
    while i < n
        invariant
            i <= n,
            n == s@.len(),
            out@ =~= hyphens_to_spaces(s@.subrange(0, i as int)),
        decreases n - i,
    {
        let c = s.get_char(i);
        let d = if c == '-' {
            ' '
        } else {
            c
        };
        push_char(&mut out, d);
        assert(s@.subrange(0, i as int + 1) =~= s@.subrange(0, i as int).push(c));
        i += 1;
    }
    assert(s@.subrange(0, n as int) =~= s@);
    out
}

/// The normal form of a card or set name (see `spec_normalise`).
pub fn normalise(name: &str) -> (r: String)
    ensures
        r@ == spec_normalise(name@),
{
    let spaced = replace_hyphens(name);
    let composed = nfkc(spaced.as_str());
    let stripped = strip_punctuation(composed.as_str());
    to_lowercase(stripped.as_str())
}

} // verus!
