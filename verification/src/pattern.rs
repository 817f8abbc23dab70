//! Regular-expression searches. The `regex` crate does the matching; this
//! module names what it finds and states, over those names, what each search
//! hands back. Nothing here is proved of the matching itself.
//!
//! A pattern is held as text and compiled where it is used, so what a
//! search finds depends on the text of the pattern and on the haystack
//! alone.

use regex::Regex;
use vstd::prelude::*;

verus! {

/// Whether `Regex::new` accepts `pattern`.
pub uninterp spec fn pattern_compiles(pattern: Seq<char>) -> bool;

/// The successive non-overlapping matches of the regex compiled from
/// `pattern` in `hay`, leftmost first, as `Regex::find_iter` and
/// `Regex::captures_iter` yield them. Each match is the pair of its start and
/// its end, counted in characters of `hay`.
pub uninterp spec fn regex_spans(pattern: Seq<char>, hay: Seq<char>) -> Seq<(int, int)>;

/// Whether `pattern` matches anywhere in `hay`.
pub open spec fn has_match(pattern: Seq<char>, hay: Seq<char>) -> bool {
    regex_spans(pattern, hay).len() > 0
}

/// The text of the leftmost match of `pattern` in `hay`, if there is one.
pub open spec fn first_text(pattern: Seq<char>, hay: Seq<char>) -> Option<Seq<char>> {
    let spans = regex_spans(pattern, hay);
    if spans.len() > 0 {
        Some(hay.subrange(spans[0].0, spans[0].1))
    } else {
        None
    }
}

/// The texts of all matches of `pattern` in `hay`, from left to right.
pub open spec fn all_texts(pattern: Seq<char>, hay: Seq<char>) -> Seq<Seq<char>> {
    let spans = regex_spans(pattern, hay);
    Seq::new(spans.len(), |i: int| hay.subrange(spans[i].0, spans[i].1))
}

/// `hay` with the first of `spans` replaced by `rep`.
pub open spec fn splice_first(hay: Seq<char>, spans: Seq<(int, int)>, rep: Seq<char>) -> Seq<
    char,
> {
    if spans.len() > 0 {
        hay.take(spans[0].0) + rep + hay.skip(spans[0].1)
    } else {
        hay
    }
}

/// `hay` with each of `spans` replaced by `rep`.
pub open spec fn splice_all(hay: Seq<char>, spans: Seq<(int, int)>, rep: Seq<char>) -> Seq<char>
    decreases spans.len(),
{
    if spans.len() > 0 {
        let last = spans.last();
        splice_all(hay.take(last.0), spans.drop_last(), rep) + rep + hay.skip(last.1)
    } else {
        hay
    }
}

/// `hay` with the leftmost match of `pattern` replaced by `rep`.
pub open spec fn first_replaced(pattern: Seq<char>, hay: Seq<char>, rep: Seq<char>) -> Seq<char> {
    splice_first(hay, regex_spans(pattern, hay), rep)
}

/// `hay` with every match of `pattern` replaced by `rep`.
pub open spec fn all_replaced(pattern: Seq<char>, hay: Seq<char>, rep: Seq<char>) -> Seq<char> {
    splice_all(hay, regex_spans(pattern, hay), rep)
}

/// Calls `Regex::new`. Trusted: the answer is whether it returned `Ok`, which
/// [`pattern_compiles`] names.
#[verifier::external_body]
pub(crate) fn compiles(pattern: &str) -> (ok: bool)
    ensures
        ok == pattern_compiles(pattern@),
{
    Regex::new(pattern).is_ok()
}

/// Compiles `pattern` and calls `Regex::is_match`. Trusted: the answer is
/// true exactly where the regex has a match in `hay`.
#[verifier::external_body]
pub(crate) fn is_match(pattern: &str, hay: &str) -> (found: bool)
    requires
        pattern_compiles(pattern@),
    ensures
        found == (regex_spans(pattern@, hay@).len() > 0),
{
    Regex::new(pattern).unwrap().is_match(hay)
}

/// Compiles `pattern` and calls `Regex::captures`, of which it takes group
/// 0. Trusted: what comes back is the text of the leftmost match, and `None`
/// where the regex has no match in `hay`.
#[verifier::external_body]
pub(crate) fn first_match(pattern: &str, hay: &str) -> (found: Option<String>)
    requires
        pattern_compiles(pattern@),
    ensures
        match found {
            Some(text) => first_text(pattern@, hay@) == Some(text@),
            None => first_text(pattern@, hay@) is None,
        },
{
    Regex::new(pattern).unwrap().captures(hay).map(|caps| caps[0].to_string())
}

/// Compiles `pattern` and calls `Regex::captures_iter`, of each item of
/// which it takes group 0. Trusted: what comes back are the texts of all
/// matches, from left to right.
#[verifier::external_body]
pub(crate) fn all_matches(pattern: &str, hay: &str) -> (found: Vec<String>)
    requires
        pattern_compiles(pattern@),
    ensures
        found@.map_values(|s: String| s@) == all_texts(pattern@, hay@),
{
    Regex::new(pattern).unwrap().captures_iter(hay).map(|caps| caps[0].to_string()).collect()
}

/// Compiles `pattern` and calls `Regex::replace`. The replacement holds no
/// `$`, so it is taken literally. Trusted: what comes back is `hay` with its
/// leftmost match replaced by `rep`, and `hay` itself where nothing matches.
#[verifier::external_body]
pub(crate) fn replace_first(pattern: &str, hay: &str, rep: &str) -> (out: String)
    requires
        pattern_compiles(pattern@),
        !rep@.contains('$'),
    ensures
        out@ == first_replaced(pattern@, hay@, rep@),
{
    Regex::new(pattern).unwrap().replace(hay, rep).into_owned()
}

/// Compiles `pattern` and calls `Regex::replace_all`. The replacement
/// holds no `$`, so it is taken literally. Trusted: what comes back is `hay`
/// with each match replaced by `rep`, and `hay` itself where nothing
/// matches.
#[verifier::external_body]
pub(crate) fn replace_every(pattern: &str, hay: &str, rep: &str) -> (out: String)
    requires
        pattern_compiles(pattern@),
        !rep@.contains('$'),
    ensures
        out@ == all_replaced(pattern@, hay@, rep@),
{
    Regex::new(pattern).unwrap().replace_all(hay, rep).into_owned()
}

} // verus!
