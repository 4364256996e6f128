//! Searching text with regular expressions, done by the `regex` crate. A
//! match is handed on as byte offsets into the text that was searched.

use crate::text::on_boundary;
use vstd::prelude::*;

verus! {

/// The bytes `start..end` of a text.
#[derive(Clone, Copy, Debug, PartialEq, Eq)]
pub struct Span {
    pub start: usize,
    pub end: usize,
}

/// One match: the span of the whole match, and the spans of the two named
/// groups that were asked for, where the pattern has them and they took part
/// in the match.
#[derive(Clone, Copy, Debug, PartialEq, Eq)]
pub struct Found {
    pub whole: Span,
    pub first: Option<Span>,
    pub second: Option<Span>,
}

/// The successive matches of `pattern` in `text`, each with the spans of the
/// groups named `first` and `second`; or the compiler's message when
/// `pattern` is no regular expression. With `multi_line`, `^` and `$` match
/// at line breaks too.
pub uninterp spec fn pattern_matches(
    pattern: Seq<char>,
    multi_line: bool,
    text: Seq<char>,
    first: Seq<char>,
    second: Seq<char>,
) -> Result<Seq<Found>, Seq<char>>;

/// A search that gave the matches `found`.
pub open spec fn matches_outcome(found: Seq<Found>) -> Result<Seq<Found>, Seq<char>> {
    Ok(found)
}

/// A search whose pattern did not compile.
pub open spec fn pattern_failure(message: Seq<char>) -> Result<Seq<Found>, Seq<char>> {
    Err(message)
}

/// The span lies in `text`, between characters.
pub open spec fn span_fits(span: Span, text: Seq<char>) -> bool {
    &&& span.start <= span.end
    &&& on_boundary(text, span.start as int)
    &&& on_boundary(text, span.end as int)
}

/// The group, if there is one, lies in `text`, between characters.
pub open spec fn group_fits(group: Option<Span>, text: Seq<char>) -> bool {
    match group {
        Some(span) => span_fits(span, text),
        None => true,
    }
}

/// Every span of every match lies in `text`, and each match starts where
/// the one before it ended, or later.
pub open spec fn well_placed(found: Seq<Found>, text: Seq<char>) -> bool {
    &&& forall|i: int|
        0 <= i < found.len() ==> span_fits((#[trigger] found[i]).whole, text) && group_fits(
            found[i].first,
            text,
        ) && group_fits(found[i].second, text)
    &&& forall|i: int, j: int|
        0 <= i < j < found.len() ==> (#[trigger] found[i]).whole.end <= (
        #[trigger] found[j]).whole.start
}

/// `RegexBuilder::new(pattern).multi_line(..).build()`, then
/// `Regex::captures_iter` over `text`. The result depends on the arguments
/// alone. As the `regex` crate documents, the matches come in order and do
/// not overlap, and every offset of a `Match` lies between characters with
/// `start <= end`.
#[verifier::external_body]
fn find_matches(
    pattern: &str,
    multi_line: bool,
    text: &str,
    first: &str,
    second: &str,
) -> (r: Result<Vec<Found>, String>)
    ensures
        match r {
            Ok(found) => pattern_matches(pattern@, multi_line, text@, first@, second@)
                == matches_outcome(found@) && well_placed(found@, text@),
            Err(message) => pattern_matches(pattern@, multi_line, text@, first@, second@)
                == pattern_failure(message@),
        },
{
    let span = |m: regex::Match| Span { start: m.start(), end: m.end() };
    match regex::RegexBuilder::new(pattern).multi_line(multi_line).build() {
        Ok(re) => Ok(
            re.captures_iter(text).map(
                |c| Found {
                    whole: span(c.get(0).unwrap()),
                    first: c.name(first).map(span),
                    second: c.name(second).map(span),
                },
            ).collect(),
        ),
        Err(e) => Err(e.to_string()),
    }
}

/// The successive matches of `pattern` in `text`, each with the spans of the
/// groups named `first` and `second`; or the compiler's message when
/// `pattern` is no regular expression.
pub fn search(pattern: &str, multi_line: bool, text: &str, first: &str, second: &str) -> (r:
    Result<Vec<Found>, String>)
    ensures
        match r {
            Ok(found) => pattern_matches(pattern@, multi_line, text@, first@, second@)
                == matches_outcome(found@) && well_placed(found@, text@),
            Err(message) => pattern_matches(pattern@, multi_line, text@, first@, second@)
                == pattern_failure(message@),
        },
{
    find_matches(pattern, multi_line, text, first, second)
}

} // verus!
