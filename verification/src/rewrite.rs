//! Writing the variables' new values back into the text of the script, in
//! place: only the value after `name:` inside the `vars` block changes.

use crate::context::RunContext;
use crate::error::{error_at, ErrorKind, ErrorModel, Location, ScriptError};
use crate::node::{Node, NodeModel};
use crate::pattern::{group_fits, pattern_matches, search, span_fits, Found, Span};
use crate::process::{begin_name, end_name};
use crate::text::{
    byte_len, byte_length, byte_slice, lemma_slice_len, lemma_slices_join, lemma_slices_of_join,
    lemma_whole_slice, slice_between,
};
use crate::value::ValueModel;
use vstd::prelude::*;

verus! {

/// The pattern that finds the value of the variable `identifier`: the group
/// `begin` reaches from the opening of the `vars` block to the blank after
/// the variable's colon, the group `end` from the blanks before the next
/// comma to the end of that line.
pub open spec fn var_pattern(identifier: Seq<char>) -> Seq<char> {
    "(?P<begin>vars:\\s*\\{\n(?:.*\n)*?\\s*"@ + identifier + "\\s*:\\s).*?(?P<end>\\s*,.*?\n)"@
}

/// The text of a group; nothing where the group took no part in the match.
pub open spec fn group_text(text: Seq<char>, group: Option<Span>) -> Seq<char> {
    match group {
        Some(span) => byte_slice(text, span.start as int, span.end as int),
        None => Seq::empty(),
    }
}

/// `text` with the match `hit` replaced by its group `begin`, then
/// `literal`, then its group `end`.
pub open spec fn splice(text: Seq<char>, hit: Found, literal: Seq<char>) -> Seq<char> {
    byte_slice(text, 0, hit.whole.start as int) + group_text(text, hit.first) + literal
        + group_text(text, hit.second) + byte_slice(
        text,
        hit.whole.end as int,
        byte_len(text) as int,
    )
}

/// The message for a variable whose pattern does not compile.
pub open spec fn unreplaceable_message(identifier: Seq<char>) -> Seq<char> {
    "Unable to replace var '"@ + identifier + "'"@
}

/// `text` with the value of the variable `identifier` replaced by the
/// literal of its value in `vars`. A variable that `vars` does not hold, or
/// whose value is not found in the text, leaves the text as it is.
pub open spec fn rewrite_var(
    text: Seq<char>,
    identifier: Seq<char>,
    location: Option<Location>,
    vars: Map<Seq<char>, ValueModel>,
) -> Result<Seq<char>, ErrorModel> {
    if !vars.dom().contains(identifier) {
        Ok(text)
    } else {
        match pattern_matches(var_pattern(identifier), true, text, begin_name(), end_name()) {
            Err(_) => Err(
                error_at(ErrorKind::InvalidRegex, unreplaceable_message(identifier), location),
            ),
            Ok(found) => {
                if found.len() == 0 {
                    Ok(text)
                } else {
                    Ok(splice(text, found[0], vars[identifier].literal()))
                }
            },
        }
    }
}

/// `text` after the variables from `from` on were written back, each into
/// the text that the one before it left.
pub open spec fn rewrite_from(
    text: Seq<char>,
    entries: Seq<(Seq<char>, NodeModel)>,
    from: int,
    vars: Map<Seq<char>, ValueModel>,
) -> Result<Seq<char>, ErrorModel>
    decreases entries.len() - from,
{
    if from < 0 || from >= entries.len() {
        Ok(text)
    } else {
        match rewrite_var(text, entries[from].0, entries[from].1.location(), vars) {
            Err(e) => Err(e),
            Ok(next) => rewrite_from(next, entries, from + 1, vars),
        }
    }
}

/// The text of the script after a run that left the variables `vars`.
pub open spec fn rewritten(content: Seq<char>, root: NodeModel, vars: Map<Seq<char>, ValueModel>)
    -> Result<Seq<char>, ErrorModel> {
    match root.entry("vars"@) {
        Err(e) => Err(e),
        Ok(node) => match node.object_entries() {
            Err(e) => Err(e),
            Ok(entries) => rewrite_from(content, entries, 0, vars),
        },
    }
}

fn group_piece<'a>(text: &'a str, group: Option<Span>) -> (r: &'a str)
    requires
        group_fits(group, text@),
    ensures
        r@ == group_text(text@, group),
{
    match group {
        Some(span) => slice_between(text, span.start, span.end),
        None => {
            let empty = "";
            proof {
                reveal_strlit("");
            }
            empty
        },
    }
}

/// Replaces the match `hit` in `text` by the text of its group `begin`,
/// then `literal`, then the text of its group `end`.
pub fn splice_value(text: &str, hit: Found, literal: &str) -> (r: String)
    requires
        span_fits(hit.whole, text@),
        group_fits(hit.first, text@),
        group_fits(hit.second, text@),
    ensures
        r@ == splice(text@, hit, literal@),
{
    let length = byte_length(text);
    let mut out = String::from_str(slice_between(text, 0, hit.whole.start));
    out.append(group_piece(text, hit.first));
    out.append(literal);
    out.append(group_piece(text, hit.second));
    out.append(slice_between(text, hit.whole.end, length));
    out
}

fn write_back(text: String, identifier: &str, location: Option<Location>, context: &RunContext)
    -> (r: Result<String, ScriptError>)
    ensures
        match r {
            Ok(next) => rewrite_var(text@, identifier@, location, context@) matches Ok(m) && m
                == next@,
            Err(e) => rewrite_var(text@, identifier@, location, context@) matches Err(m) && m
                == e@,
        },
{
    let value = match context.get_value(identifier) {
        Some(value) => value,
        None => {
            return Ok(text);
        },
    };
    let mut pattern = String::from_str("(?P<begin>vars:\\s*\\{\n(?:.*\n)*?\\s*");
    pattern.append(identifier);
    pattern.append("\\s*:\\s).*?(?P<end>\\s*,.*?\n)");
    match search(pattern.as_str(), true, text.as_str(), "begin", "end") {
        Err(_) => {
            let mut message = String::from_str("Unable to replace var '");
            message.append(identifier);
            message.append("'");
            Err(ScriptError::at(ErrorKind::InvalidRegex, message, location))
        },
        Ok(found) => {
            if found.len() == 0 {
                Ok(text)
            } else {
                Ok(splice_value(text.as_str(), found[0], value.to_literal().as_str()))
            }
        },
    }
}

/// The new text of a script, and whether it is to be written to the
/// script's file.
#[derive(Debug, PartialEq)]
pub struct ScriptUpdate {
    pub text: String,
    pub write: bool,
}

/// Writes the value of every variable of the script that `context` still
/// holds back into the script's text. The text is to be written to the
/// script's file exactly when `update` is set.
#[verifier::loop_isolation(false)]
pub fn update_script_file(content: String, root: &Node, context: &RunContext, update: bool) -> (r:
    Result<ScriptUpdate, ScriptError>)
    ensures
        match r {
            Ok(done) => rewritten(content@, root@, context@) matches Ok(m) && m == done.text@
                && done.write == update,
            Err(e) => rewritten(content@, root@, context@) matches Err(m) && m == e@,
        },
{
    let vars = root.get_object_entry("vars")?;
    let entries = vars.get_object_entries()?;
    let mut text = content;
    let mut i: usize = 0;
    while i < entries.len()
        invariant
            i <= entries.len(),
            rewrite_from(content@, vars@.entries(), 0, context@) == rewrite_from(
                text@,
                vars@.entries(),
                i as int,
                context@,
            ),
        decreases entries.len() - i,
    {
        text = write_back(text, entries[i].0.as_str(), entries[i].1.get_location(), context)?;
        i += 1;
    }
    Ok(ScriptUpdate { text, write: update })
}

/// A match that its two groups frame: `begin` starts where the match
/// starts, `end` ends where it ends, and `begin` ends before `end` starts.
pub open spec fn framed(hit: Found) -> bool {
    &&& hit.first matches Some(begin)
    &&& hit.second matches Some(end)
    &&& begin.start == hit.whole.start
    &&& end.end == hit.whole.end
    &&& begin.end <= end.start
}

/// All spans of the match lie in `text`.
pub open spec fn hit_fits(hit: Found, text: Seq<char>) -> bool {
    span_fits(hit.whole, text) && group_fits(hit.first, text) && group_fits(hit.second, text)
}

/// Writing a value back changes the bytes between the two groups and no
/// others: the text up to the end of `begin` and the text from the start of
/// `end` on stay as they are, and the literal stands between them.
pub proof fn lemma_rewrite_keeps_the_rest(text: Seq<char>, hit: Found, literal: Seq<char>)
    requires
        hit_fits(hit, text),
        framed(hit),
    ensures
        splice(text, hit, literal) == byte_slice(text, 0, hit.first->0.end as int) + literal
            + byte_slice(text, hit.second->0.start as int, byte_len(text) as int),
{
    let begin = hit.first->0;
    let end = hit.second->0;
    lemma_whole_slice(text);
    lemma_slices_join(text, 0, begin.start as int, begin.end as int);
    lemma_slices_join(text, end.start as int, end.end as int, byte_len(text) as int);
}

/// Writing the same value back a second time changes nothing, where the
/// second search finds the value at the place where the first one put it:
/// its `begin` ends where the first `begin` ended, and its `end` starts
/// right after the literal.
pub proof fn lemma_rewrite_again_changes_nothing(
    text: Seq<char>,
    hit: Found,
    literal: Seq<char>,
    again: Found,
)
    requires
        hit_fits(hit, text),
        framed(hit),
        hit_fits(again, splice(text, hit, literal)),
        framed(again),
        again.first->0.end == hit.first->0.end,
        again.second->0.start == hit.first->0.end + byte_len(literal),
    ensures
        splice(splice(text, hit, literal), again, literal) == splice(text, hit, literal),
{
    let once = splice(text, hit, literal);
    let at = hit.first->0.end as int;
    let kept = byte_slice(text, 0, at);
    let rest = byte_slice(text, hit.second->0.start as int, byte_len(text) as int);
    lemma_rewrite_keeps_the_rest(text, hit, literal);
    lemma_rewrite_keeps_the_rest(once, again, literal);
    lemma_whole_slice(text);
    lemma_slice_len(text, 0, at);
    lemma_slices_of_join(kept, literal + rest);
    assert(kept + (literal + rest) =~= once);
    lemma_slices_of_join(kept + literal, rest);
    lemma_slices_of_join(kept, literal);
}

} // verus!
