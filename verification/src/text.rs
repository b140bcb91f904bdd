//! Name normalisation for case-insensitive comparison of titles.

use vstd::prelude::*;

verus! {

/// The lowercase form of a text, as `str::to_lowercase` of the standard
/// library computes it from the Unicode `Lowercase` mapping.
pub uninterp spec fn lowercase(text: Seq<char>) -> Seq<char>;

/// The comparable form of a folder name or a title.
pub open spec fn normalized(text: Seq<char>) -> Seq<char> {
    lowercase(text)
}

/// Whether two names are the same once normalised.
pub open spec fn same_name(a: Seq<char>, b: Seq<char>) -> bool {
    normalized(a) == normalized(b)
}

/// Calls `str::to_lowercase`. The contract only names the result: it is the
/// lowercase form of the argument, which depends on nothing but the text.
#[verifier::external_body]
fn to_lowercase(text: &str) -> (lowered: String)
    ensures
        lowered@ == lowercase(text@),
{
    text.to_lowercase()
}

/// Maps a raw folder name or a stored title to its comparable form.
pub fn normalize(raw: &str) -> (token: String)
    ensures
        token@ == normalized(raw@),
{
    to_lowercase(raw)
}

/// Compares two names that are already normalised.
pub fn normalized_eq(a: &String, b: &String) -> (equal: bool)
    ensures
        equal == (a@ == b@),
{
    *a == *b
}

/// Decides whether a folder name or token and a catalog title name the same
/// work, ignoring case.
pub fn titles_match(token: &str, title: &str) -> (matched: bool)
    ensures
        matched == same_name(token@, title@),
{
    let left = normalize(token);
    let right = normalize(title);
    normalized_eq(&left, &right)
}

/// Normalised equality is reflexive.
pub proof fn lemma_same_name_reflexive(a: Seq<char>)
    ensures
        same_name(a, a),
{
}

/// Normalised equality is symmetric.
pub proof fn lemma_same_name_symmetric(a: Seq<char>, b: Seq<char>)
    requires
        same_name(a, b),
    ensures
        same_name(b, a),
{
}

/// Normalised equality is transitive.
pub proof fn lemma_same_name_transitive(a: Seq<char>, b: Seq<char>, c: Seq<char>)
    requires
        same_name(a, b),
        same_name(b, c),
    ensures
        same_name(a, c),
{
}

} // verus!
