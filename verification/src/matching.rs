//! Searching text with regular expressions, and putting text together
//! again round what was found.

use vstd::prelude::*;

verus! {

/// Whether `pattern` is accepted as a regular expression.
pub uninterp spec fn regex_accepted(pattern: Seq<char>) -> bool;

/// The texts of the successive matches of the regular expression `pattern`
/// in `text`, none overlapping another, in the order in which they stand.
pub uninterp spec fn regex_matches(pattern: Seq<char>, text: Seq<char>) -> Seq<Seq<char>>;

/// The parts of `text` that the matches of the regular expression
/// `pattern` leave over: what stands before the first match, between each
/// match and the next, and after the last.
pub uninterp spec fn regex_pieces(pattern: Seq<char>, text: Seq<char>) -> Seq<Seq<char>>;

/// The first `n` of `pieces`, each followed by the replacement of the same
/// number where there is one.
pub open spec fn woven(pieces: Seq<Seq<char>>, replacements: Seq<Seq<char>>, n: int) -> Seq<char>
    decreases n,
{
    if n <= 0 {
        Seq::empty()
    } else {
        woven(pieces, replacements, n - 1) + pieces[n - 1] + (if n - 1 < replacements.len() {
            replacements[n - 1]
        } else {
            Seq::empty()
        })
    }
}

/// The text made of `pieces` with the replacements between them: the first
/// piece, the first replacement, the second piece, and so on.
pub open spec fn weave_spec(pieces: Seq<Seq<char>>, replacements: Seq<Seq<char>>) -> Seq<char> {
    woven(pieces, replacements, pieces.len() as int)
}

/// `text` with every match of the regular expression `pattern` replaced by
/// `with`, taken literally: the parts that the matches leave over, with one
/// copy of `with` in place of each match.
pub open spec fn regex_replaced(pattern: Seq<char>, text: Seq<char>, with: Seq<char>) -> Seq<char> {
    weave_spec(
        regex_pieces(pattern, text),
        Seq::new(regex_matches(pattern, text).len(), |i: int| with),
    )
}

/// The values of a list of strings.
pub open spec fn strings_view(v: Seq<String>) -> Seq<Seq<char>> {
    Seq::new(v.len(), |i: int| v[i]@)
}

/// Finds the matches of `pattern` in `text`.
///
/// Wraps `Regex::new` and `Regex::find_iter` of the crate `regex`, and
/// `Match::as_str` for each match: the texts of the matches, in order.
/// There is a result exactly where `Regex::new` accepts `pattern`.
#[verifier::external_body]
pub(crate) fn find_all(pattern: &str, text: &str) -> (r: Option<Vec<String>>)
    ensures
        r is Some <==> regex_accepted(pattern@),
        r matches Some(found) ==> strings_view(found@) == regex_matches(pattern@, text@),
{
    match regex::Regex::new(pattern) {
        Ok(re) => Some(re.find_iter(text).map(|m| m.as_str().to_string()).collect()),
        Err(_) => None,
    }
}

/// Splits `text` at the matches of `pattern`.
///
/// Wraps `Regex::new` and `Regex::split` of the crate `regex`: the parts of
/// the text between the matches, in order. The iterator hands out one part
/// before each match and one after the last, so there is one part more than
/// there are matches. There is a result exactly where `Regex::new` accepts
/// `pattern`.
#[verifier::external_body]
pub(crate) fn split_all(pattern: &str, text: &str) -> (r: Option<Vec<String>>)
    ensures
        r is Some <==> regex_accepted(pattern@),
        r matches Some(pieces) ==> strings_view(pieces@) == regex_pieces(pattern@, text@)
            && pieces@.len() == regex_matches(pattern@, text@).len() + 1,
{
    match regex::Regex::new(pattern) {
        Ok(re) => Some(re.split(text).map(|piece| piece.to_string()).collect()),
        Err(_) => None,
    }
}

/// Replaces every match of `pattern` in `text` by `with`.
///
/// Wraps `Regex::new` and `Regex::replace_all` of the crate `regex`, with
/// the replacement handed over as `NoExpand`, so that it is taken
/// literally: the result is made of the parts of the text between the
/// matches, as `Regex::split` gives them, with the replacement after each
/// part but the last. There is a result exactly where `Regex::new` accepts
/// `pattern`.
#[verifier::external_body]
pub(crate) fn replace_all(pattern: &str, text: &str, with: &str) -> (r: Option<String>)
    ensures
        r is Some <==> regex_accepted(pattern@),
        r matches Some(replaced) ==> replaced@ == regex_replaced(pattern@, text@, with@),
{
    match regex::Regex::new(pattern) {
        Ok(re) => Some(re.replace_all(text, regex::NoExpand(with)).into_owned()),
        Err(_) => None,
    }
}

/// Puts a text together from its pieces and the replacements that go
/// between them.
pub fn weave(pieces: &Vec<String>, replacements: &Vec<String>) -> (text: String)
    ensures
        text@ == weave_spec(strings_view(pieces@), strings_view(replacements@)),
{
    let mut text = String::new();
    let mut i: usize = 0;
    while i < pieces.len()
        invariant
            i <= pieces.len(),
            text@ == woven(strings_view(pieces@), strings_view(replacements@), i as int),
        decreases pieces.len() - i,
    {
        let ghost before = text@;
        text.append(pieces[i].as_str());
        if i < replacements.len() {
            text.append(replacements[i].as_str());
        }
        assert(text@ =~= woven(strings_view(pieces@), strings_view(replacements@), i + 1));
        i = i + 1;
    }
    text
}

} // verus!
