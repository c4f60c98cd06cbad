//! Regular-expression searches, made by the `regex` crate. The patterns are
//! given by the callers; what a search finds is left to names, one for each
//! kind of search.

use vstd::prelude::*;

verus! {

/// An optional text, by its view.
pub open spec fn opt_view(o: Option<String>) -> Option<Seq<char>> {
    match o {
        Some(s) => Some(s@),
        None => None,
    }
}

/// The groups of one match, by their views: each group's text, or `None`
/// where the group took no part in the match.
pub open spec fn groups_view(c: Vec<Option<String>>) -> Seq<Option<Seq<char>>> {
    c@.map_values(|g: Option<String>| opt_view(g))
}

/// What `Regex::find_iter` finds: `None` when the pattern does not compile,
/// else the text of each match, in order.
pub uninterp spec fn regex_matches(pattern: Seq<char>, text: Seq<char>) -> Option<Seq<Seq<char>>>;

/// What `Regex::captures_iter` finds: `None` when the pattern does not
/// compile, else for each match, in order, its groups (the whole match
/// first).
pub uninterp spec fn regex_capture_groups(pattern: Seq<char>, text: Seq<char>) -> Option<
    Seq<Seq<Option<Seq<char>>>>,
>;

/// What `Regex::split` gives: `None` when the pattern does not compile,
/// else the pieces of the text between the matches.
pub uninterp spec fn regex_pieces(pattern: Seq<char>, text: Seq<char>) -> Option<Seq<Seq<char>>>;

/// `Regex::new(pattern)` and, when it compiles, `find_iter(text)`, each
/// match as its text.
#[verifier::external_body]
pub(crate) fn find_all(pattern: &str, text: &str) -> (r: Option<Vec<String>>)
    ensures
        match r {
            Some(v) => regex_matches(pattern@, text@) == Some(
                v@.map_values(|s: String| s@),
            ),
            None => regex_matches(pattern@, text@) is None,
        },
{
    regex::Regex::new(pattern).ok().map(
        |re| re.find_iter(text).map(|m| m.as_str().to_string()).collect(),
    )
}

/// `Regex::new(pattern)` and, when it compiles, `captures_iter(text)`,
/// each match as the texts of all its groups.
#[verifier::external_body]
pub(crate) fn captures_all(pattern: &str, text: &str) -> (r: Option<Vec<Vec<Option<String>>>>)
    ensures
        match r {
            Some(v) => regex_capture_groups(pattern@, text@) == Some(
                v@.map_values(|c: Vec<Option<String>>| groups_view(c)),
            ),
            None => regex_capture_groups(pattern@, text@) is None,
        },
{
    regex::Regex::new(pattern).ok().map(
        |re| re.captures_iter(text).map(
            |c| c.iter().map(|g| g.map(|m| m.as_str().to_string())).collect(),
        ).collect(),
    )
}

/// `Regex::new(pattern)` and, when it compiles, `split(text)`.
#[verifier::external_body]
pub(crate) fn split_by(pattern: &str, text: &str) -> (r: Option<Vec<String>>)
    ensures
        match r {
            Some(v) => regex_pieces(pattern@, text@) == Some(v@.map_values(|s: String| s@)),
            None => regex_pieces(pattern@, text@) is None,
        },
{
    regex::Regex::new(pattern).ok().map(|re| re.split(text).map(|g| g.to_string()).collect())
}

/// Group `i` of a match, by its view; `None` where there is no such group
/// or it took no part.
pub open spec fn group_at(groups: Seq<Option<Seq<char>>>, i: int) -> Option<Seq<char>> {
    if 0 <= i < groups.len() {
        groups[i]
    } else {
        None
    }
}

/// Group `i` of a match.
pub fn group(groups: &Vec<Option<String>>, i: usize) -> (r: Option<String>)
    ensures
        opt_view(r) == group_at(groups_view(*groups), i as int),
{
    if i < groups.len() {
        match &groups[i] {
            Some(s) => Some(s.clone()),
            None => None,
        }
    } else {
        None
    }
}

} // verus!
