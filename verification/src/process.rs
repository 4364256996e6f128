//! What a run does to one file of a target: the new text of an updated file,
//! the content of a written one, the name of the file to copy from.

use crate::context::{
    extends, failure_of, guarded, kind_mismatch_message, set_allowed, text_result, RunContext,
    TextOutcome,
};
use crate::error::{error_at, ErrorKind, ErrorModel, Location, ScriptError};
use crate::pattern::{group_fits, pattern_matches, search, well_placed, Found, Span};
use crate::target::{
    replacement_models, Action, ActionModel, Replacement, ReplacementModel, Target, TargetFile,
    TargetFileModel, TargetModel,
};
use crate::text::{
    byte_len, byte_length, byte_slice, lemma_whole_slice, on_boundary, slice_between, text_of,
    texts,
};
use crate::value::{ScriptValue, ValueModel};
use vstd::prelude::*;

verus! {

/// The name that the expression of a replacement has for the text of the
/// group `begin`.
pub open spec fn begin_name() -> Seq<char> {
    "begin"@
}

/// The name that the expression of a replacement has for the text of the
/// group `end`.
pub open spec fn end_name() -> Seq<char> {
    "end"@
}

/// The variables after the text of a group was bound to `name`, and the
/// message if the variable would not take a string. Without a group nothing
/// changes.
pub open spec fn bind(
    vars: Map<Seq<char>, ValueModel>,
    name: Seq<char>,
    text: Seq<char>,
    group: Option<Span>,
) -> (Map<Seq<char>, ValueModel>, Option<Seq<char>>) {
    match group {
        None => (vars, None),
        Some(span) => {
            let value = ValueModel::Str(byte_slice(text, span.start as int, span.end as int));
            if set_allowed(vars, name, value) {
                (vars.insert(name, value), None)
            } else {
                (vars, Some(kind_mismatch_message(vars[name].kind(), value)))
            }
        },
    }
}

/// Where a pass over a text ends: the variables then, and the new text or
/// the error that stopped it.
pub ghost struct Pass {
    pub vars: Map<Seq<char>, ValueModel>,
    pub result: Result<Seq<char>, ErrorModel>,
}

/// Where evaluating the expression for the matches ends: the variables
/// then, and the string for each match or the error that stopped it.
pub ghost struct Inserted {
    pub vars: Map<Seq<char>, ValueModel>,
    pub result: Result<Seq<Seq<char>>, ErrorModel>,
}

/// The strings that the expression gives for the matches from `from` on,
/// after `done`, where evaluating it for match number `i` gave
/// `outcomes[i]`. For each match, in order, the groups `begin` and `end` are
/// bound and the expression is evaluated. The first failure stops the pass.
pub open spec fn insertions_from(
    text: Seq<char>,
    found: Seq<Found>,
    from: int,
    done: Seq<Seq<char>>,
    replace: ReplacementModel,
    vars: Map<Seq<char>, ValueModel>,
    outcomes: Seq<TextOutcome>,
) -> Inserted
    decreases found.len() - from,
{
    if from < 0 || from >= found.len() {
        Inserted { vars, result: Ok(done) }
    } else {
        let (vars1, failure1) = bind(vars, begin_name(), text, found[from].first);
        if failure1 is Some {
            Inserted {
                vars: vars1,
                result: Err(error_at(ErrorKind::Script, failure1->0, replace.replace_location)),
            }
        } else {
            let (vars2, failure2) = bind(vars1, end_name(), text, found[from].second);
            if failure2 is Some {
                Inserted {
                    vars: vars2,
                    result: Err(error_at(ErrorKind::Script, failure2->0, replace.replace_location)),
                }
            } else {
                match guarded(replace.replace, outcomes[from]) {
                    Err(message) => Inserted {
                        vars: vars2,
                        result: Err(error_at(ErrorKind::Script, message, replace.replace_location)),
                    },
                    Ok(inserted) => insertions_from(
                        text,
                        found,
                        from + 1,
                        done.push(inserted),
                        replace,
                        vars2,
                        outcomes,
                    ),
                }
            }
        }
    }
}

/// The text from byte `cursor` on, with the matches from `from` on
/// replaced: the text up to the next match, the string that stands for the
/// match, and then what follows the match in the same way; after the last
/// match the rest of the text.
pub open spec fn spliced_from(
    text: Seq<char>,
    found: Seq<Found>,
    inserted: Seq<Seq<char>>,
    from: int,
    cursor: int,
) -> Seq<char>
    decreases found.len() - from,
{
    if from < 0 || from >= found.len() {
        byte_slice(text, cursor, byte_len(text) as int)
    } else {
        byte_slice(text, cursor, found[from].whole.start as int) + inserted[from] + spliced_from(
            text,
            found,
            inserted,
            from + 1,
            found[from].whole.end as int,
        )
    }
}

/// `text` with each match replaced by the string that stands for it in
/// `inserted`; the text between the matches is kept.
pub open spec fn spliced(text: Seq<char>, found: Seq<Found>, inserted: Seq<Seq<char>>) -> Seq<
    char,
> {
    spliced_from(text, found, inserted, 0, 0)
}

/// The pass over `text` for the matches `found`.
pub open spec fn substituted(
    text: Seq<char>,
    found: Seq<Found>,
    replace: ReplacementModel,
    vars: Map<Seq<char>, ValueModel>,
    outcomes: Seq<TextOutcome>,
) -> Pass {
    let end = insertions_from(text, found, 0, Seq::empty(), replace, vars, outcomes);
    Pass {
        vars: end.vars,
        result: match end.result {
            Err(e) => Err(e),
            Ok(inserted) => Ok(spliced(text, found, inserted)),
        },
    }
}

/// The message for a pattern that does not compile.
pub open spec fn invalid_pattern_message(reason: Seq<char>) -> Seq<char> {
    "Regex is not valid - "@ + reason
}

/// One search and replace pass over `text`, where evaluating the
/// expression for the matches gave `outcomes`. The pattern is searched in
/// multi-line mode.
pub open spec fn pass_of(
    text: Seq<char>,
    replace: ReplacementModel,
    vars: Map<Seq<char>, ValueModel>,
    outcomes: Seq<TextOutcome>,
) -> Pass {
    match pattern_matches(replace.search, true, text, begin_name(), end_name()) {
        Err(reason) => Pass {
            vars,
            result: Err(
                error_at(
                    ErrorKind::InvalidRegex,
                    invalid_pattern_message(reason),
                    replace.search_location,
                ),
            ),
        },
        Ok(found) => substituted(text, found, replace, vars, outcomes),
    }
}

/// Whether the pattern of the pass matched anywhere in `text`.
pub open spec fn pass_matched(text: Seq<char>, replace: ReplacementModel) -> bool {
    match pattern_matches(replace.search, true, text, begin_name(), end_name()) {
        Err(_) => false,
        Ok(found) => found.len() > 0,
    }
}

/// The warning for a pattern that matched nowhere in the file at `path`.
pub open spec fn unmatched_warning(path: Seq<char>, search: Seq<char>) -> Seq<char> {
    "Search/replace in '"@ + path + "' did not match anything; check your search string '"@
        + search + "'"@
}

/// Where the passes over a file end: the variables then, the warnings so
/// far, and the new text or the error that stopped them.
pub ghost struct Updated {
    pub vars: Map<Seq<char>, ValueModel>,
    pub warnings: Seq<Seq<char>>,
    pub result: Result<Seq<char>, ErrorModel>,
}

/// The passes from number `from` on, over the text that the earlier ones
/// left, where the evaluations of pass number `i` gave `outcomes[i]`. A
/// pattern that matches nowhere adds a warning and changes nothing.
pub open spec fn passes_from(
    text: Seq<char>,
    replacements: Seq<ReplacementModel>,
    from: int,
    path: Seq<char>,
    warnings: Seq<Seq<char>>,
    vars: Map<Seq<char>, ValueModel>,
    outcomes: Seq<Seq<TextOutcome>>,
) -> Updated
    decreases replacements.len() - from,
{
    if from < 0 || from >= replacements.len() {
        Updated { vars, warnings, result: Ok(text) }
    } else {
        let pass = pass_of(text, replacements[from], vars, outcomes[from]);
        match pass.result {
            Err(e) => Updated { vars: pass.vars, warnings, result: Err(e) },
            Ok(next) => passes_from(
                next,
                replacements,
                from + 1,
                path,
                if pass_matched(text, replacements[from]) {
                    warnings
                } else {
                    warnings.push(unmatched_warning(path, replacements[from].search))
                },
                pass.vars,
                outcomes,
            ),
        }
    }
}

fn bind_group(context: &mut RunContext, name: &str, text: &str, group: Option<Span>) -> (r: Result<
    (),
    String,
>)
    requires
        group_fits(group, text@),
    ensures
        final(context).functions() == old(context).functions(),
        bind(old(context)@, name@, text@, group) == (final(context)@, failure_of(r)),
{
    match group {
        None => Ok(()),
        Some(span) => {
            let piece = slice_between(text, span.start, span.end);
            let value = ScriptValue::Str(String::from_str(piece));
            context.set_value(name, &value)
        },
    }
}

/// Whether `r` and the variables `after` are the end `expected` of
/// evaluating the expression for the matches.
pub open spec fn evaluated(
    r: Result<Vec<String>, ScriptError>,
    after: Map<Seq<char>, ValueModel>,
    expected: Inserted,
) -> bool {
    after == expected.vars && match r {
        Ok(inserted) => expected.result matches Ok(m) && m == texts(inserted@),
        Err(e) => expected.result matches Err(m) && m == e@,
    }
}

#[verifier::loop_isolation(false)]
fn evaluate_with(
    text: &str,
    found: &Vec<Found>,
    replacement: &Replacement,
    context: &mut RunContext,
) -> (r: (Result<Vec<String>, ScriptError>, Ghost<Seq<TextOutcome>>))
    requires
        old(context).wf(),
        well_placed(found@, text@),
    ensures
        final(context).wf(),
        r.0 matches Ok(inserted) ==> inserted.len() == found.len(),
        evaluated(
            r.0,
            final(context)@,
            insertions_from(text@, found@, 0, Seq::empty(), replacement@, old(context)@, r.1@),
        ),
{
    let ghost start = context@;
    let ghost mut tape: Seq<TextOutcome> = Seq::empty();
    let mut done: Vec<String> = Vec::new();
    let mut i: usize = 0;
    assert(texts(done@) =~= Seq::empty());
    while i < found.len()
        invariant
            i <= found.len(),
            done.len() == i,
            tape.len() == i,
            context.wf(),
            forall|outcomes: Seq<TextOutcome>| #[trigger]
                extends(outcomes, tape) ==> insertions_from(
                    text@,
                    found@,
                    0,
                    Seq::empty(),
                    replacement@,
                    start,
                    outcomes,
                ) == insertions_from(
                    text@,
                    found@,
                    i as int,
                    texts(done@),
                    replacement@,
                    context@,
                    outcomes,
                ),
        decreases found.len() - i,
    {
        let hit = found[i];
        let ghost before = texts(done@);
        if let Err(message) = bind_group(context, "begin", text, hit.first) {
            assert(extends(tape, tape));
            return (
                Err(ScriptError::at(ErrorKind::Script, message, replacement.replace_location)),
                Ghost(tape),
            );
        }
        if let Err(message) = bind_group(context, "end", text, hit.second) {
            assert(extends(tape, tape));
            return (
                Err(ScriptError::at(ErrorKind::Script, message, replacement.replace_location)),
                Ghost(tape),
            );
        }
        let outcome = context.eval_text(replacement.replace.as_str());
        let ghost given = text_result(outcome);
        let ghost next = tape.push(given);
        assert forall|outcomes: Seq<TextOutcome>| #[trigger] extends(outcomes, next) implies (
        extends(outcomes, tape) && outcomes[i as int] == given) by {
            assert(next[i as int] == given);
            assert forall|j: int| 0 <= j < tape.len() implies outcomes[j] == tape[j] by {
                assert(next[j] == tape[j]);
            }
        }
        let inserted = match outcome {
            Ok(inserted) => inserted,
            Err(message) => {
                assert(extends(next, next));
                return (
                    Err(ScriptError::at(ErrorKind::Script, message, replacement.replace_location)),
                    Ghost(next),
                );
            },
        };
        done.push(inserted);
        assert(texts(done@) =~= before.push(inserted@));
        proof {
            tape = next;
        }
        i += 1;
    }
    assert(extends(tape, tape));
    (Ok(done), Ghost(tape))
}

/// Evaluates the expression of `replacement` for each match in turn, with
/// the groups `begin` and `end` of that match bound in `context`, and gives
/// the strings; the first failure stops it. What the expression evaluates
/// to is up to the evaluator.
pub fn evaluate_matches(
    text: &str,
    found: &Vec<Found>,
    replacement: &Replacement,
    context: &mut RunContext,
) -> (r: Result<Vec<String>, ScriptError>)
    requires
        old(context).wf(),
        well_placed(found@, text@),
    ensures
        final(context).wf(),
        r matches Ok(inserted) ==> inserted.len() == found.len(),
        exists|outcomes: Seq<TextOutcome>| #[trigger]
            evaluated(
                r,
                final(context)@,
                insertions_from(
                    text@,
                    found@,
                    0,
                    Seq::empty(),
                    replacement@,
                    old(context)@,
                    outcomes,
                ),
            ),
{
    let ghost before = context@;
    let (r, outcomes) = evaluate_with(text, found, replacement, context);
    assert(evaluated(
        r,
        context@,
        insertions_from(text@, found@, 0, Seq::empty(), replacement@, before, outcomes@),
    ));
    r
}

/// Replaces each match in `text` by the string that stands for it in
/// `inserted` and keeps the text between the matches.
#[verifier::loop_isolation(false)]
pub fn splice_matches(text: &str, found: &Vec<Found>, inserted: &Vec<String>) -> (r: String)
    requires
        well_placed(found@, text@),
        inserted.len() == found.len(),
    ensures
        r@ == spliced(text@, found@, texts(inserted@)),
{
    let length = byte_length(text);
    let mut out = String::new();
    let mut cursor: usize = 0;
    let mut i: usize = 0;
    let ghost list = texts(inserted@);
    while i < found.len()
        invariant
            i <= found.len(),
            on_boundary(text@, cursor as int),
            i == 0 ==> cursor == 0,
            i > 0 ==> cursor == found[i - 1].whole.end,
            spliced(text@, found@, list) == out@ + spliced_from(
                text@,
                found@,
                list,
                i as int,
                cursor as int,
            ),
        decreases found.len() - i,
    {
        let hit = found[i];
        out.append(slice_between(text, cursor, hit.whole.start));
        out.append(inserted[i].as_str());
        cursor = hit.whole.end;
        i += 1;
    }
    out.append(slice_between(text, cursor, length));
    out
}

/// Whether `r` and the variables `after` are the end `expected` of a pass,
/// and `r` says whether the pattern matched.
pub open spec fn passed(
    r: Result<(String, bool), ScriptError>,
    after: Map<Seq<char>, ValueModel>,
    expected: Pass,
    matched: bool,
) -> bool {
    after == expected.vars && match r {
        Ok((next, said)) => expected.result matches Ok(m) && m == next@ && said == matched,
        Err(e) => expected.result matches Err(m) && m == e@,
    }
}

fn apply_pass(text: &str, replacement: &Replacement, context: &mut RunContext) -> (r: (
    Result<(String, bool), ScriptError>,
    Ghost<Seq<TextOutcome>>,
))
    requires
        old(context).wf(),
    ensures
        final(context).wf(),
        passed(
            r.0,
            final(context)@,
            pass_of(text@, replacement@, old(context)@, r.1@),
            pass_matched(text@, replacement@),
        ),
{
    let found = match search(replacement.search.as_str(), true, text, "begin", "end") {
        Ok(found) => found,
        Err(reason) => {
            let mut message = String::from_str("Regex is not valid - ");
            message.append(reason.as_str());
            return (
                Err(ScriptError::at(ErrorKind::InvalidRegex, message, replacement.search_location)),
                Ghost(Seq::empty()),
            );
        },
    };
    let (evaluated, outcomes) = evaluate_with(text, &found, replacement, context);
    match evaluated {
        Ok(inserted) => (Ok((splice_matches(text, &found, &inserted), found.len() > 0)), outcomes),
        Err(e) => (Err(e), outcomes),
    }
}

/// Whether `r` and the variables `after` are the end `expected` of the
/// passes over a file.
pub open spec fn updated(
    r: Result<(String, Vec<String>), ScriptError>,
    after: Map<Seq<char>, ValueModel>,
    expected: Updated,
) -> bool {
    after == expected.vars && match r {
        Ok((text, warnings)) => expected.result matches Ok(m) && m == text@ && expected.warnings
            == texts(warnings@),
        Err(e) => expected.result matches Err(m) && m == e@,
    }
}

#[verifier::loop_isolation(false)]
fn update_with(
    content: String,
    replacements: &Vec<Replacement>,
    path: &str,
    context: &mut RunContext,
) -> (r: (Result<(String, Vec<String>), ScriptError>, Ghost<Seq<Seq<TextOutcome>>>))
    requires
        old(context).wf(),
    ensures
        final(context).wf(),
        updated(
            r.0,
            final(context)@,
            passes_from(
                content@,
                replacement_models(replacements@),
                0,
                path@,
                Seq::empty(),
                old(context)@,
                r.1@,
            ),
        ),
{
    let ghost start = context@;
    let ghost models = replacement_models(replacements@);
    let ghost mut tapes: Seq<Seq<TextOutcome>> = Seq::empty();
    let mut text = content;
    let mut warnings: Vec<String> = Vec::new();
    let mut i: usize = 0;
    assert(texts(warnings@) =~= Seq::empty());
    while i < replacements.len()
        invariant
            i <= replacements.len(),
            tapes.len() == i,
            context.wf(),
            models == replacement_models(replacements@),
            forall|outcomes: Seq<Seq<TextOutcome>>| #[trigger]
                extends(outcomes, tapes) ==> passes_from(
                    content@,
                    models,
                    0,
                    path@,
                    Seq::empty(),
                    start,
                    outcomes,
                ) == passes_from(
                    text@,
                    models,
                    i as int,
                    path@,
                    texts(warnings@),
                    context@,
                    outcomes,
                ),
        decreases replacements.len() - i,
    {
        let ghost before = texts(warnings@);
        assert(models[i as int] == replacements[i as int]@);
        let (pass, tape) = apply_pass(text.as_str(), &replacements[i], context);
        let ghost next = tapes.push(tape@);
        assert forall|outcomes: Seq<Seq<TextOutcome>>| #[trigger] extends(outcomes, next) implies (
        extends(outcomes, tapes) && outcomes[i as int] == tape@) by {
            assert(next[i as int] == tape@);
            assert forall|j: int| 0 <= j < tapes.len() implies outcomes[j] == tapes[j] by {
                assert(next[j] == tapes[j]);
            }
        }
        match pass {
            Err(e) => {
                assert(extends(next, next));
                return (Err(e), Ghost(next));
            },
            Ok((changed, matched)) => {
                if !matched {
                    let mut warning = String::from_str("Search/replace in '");
                    warning.append(path);
                    warning.append("' did not match anything; check your search string '");
                    warning.append(replacements[i].search.as_str());
                    warning.append("'");
                    warnings.push(warning);
                    assert(texts(warnings@) =~= before.push(
                        unmatched_warning(path@, replacements[i as int]@.search),
                    ));
                }
                text = changed;
            },
        }
        proof {
            tapes = next;
        }
        i += 1;
    }
    assert(extends(tapes, tapes));
    (Ok((text, warnings)), Ghost(tapes))
}

/// Runs the search and replace passes over the text of the file at `path`,
/// each over what the one before it left. Gives the new text and a warning
/// for each pattern that matched nowhere. What the expressions evaluate to
/// is up to the evaluator.
pub fn apply_updates(
    content: String,
    replacements: &Vec<Replacement>,
    path: &str,
    context: &mut RunContext,
) -> (r: Result<(String, Vec<String>), ScriptError>)
    requires
        old(context).wf(),
    ensures
        final(context).wf(),
        exists|outcomes: Seq<Seq<TextOutcome>>| #[trigger]
            updated(
                r,
                final(context)@,
                passes_from(
                    content@,
                    replacement_models(replacements@),
                    0,
                    path@,
                    Seq::empty(),
                    old(context)@,
                    outcomes,
                ),
            ),
{
    let ghost before = context@;
    let (r, outcomes) = update_with(content, replacements, path, context);
    assert(updated(
        r,
        context@,
        passes_from(
            content@,
            replacement_models(replacements@),
            0,
            path@,
            Seq::empty(),
            before,
            outcomes@,
        ),
    ));
    r
}

/// What has to be done to a file once the run has decided.
#[derive(Debug, PartialEq)]
pub enum Effect {
    /// Leave the file as it is.
    Nothing,
    /// Replace the file's content by this text.
    Write(String),
    /// Copy the bytes of the file of this name, taken from the script's
    /// directory, over the file.
    Copy(String),
}

/// An `Effect` as plain values.
pub ghost enum EffectModel {
    Nothing,
    Write(Seq<char>),
    Copy(Seq<char>),
}

impl View for Effect {
    type V = EffectModel;

    open spec fn view(&self) -> EffectModel {
        match self {
            Effect::Nothing => EffectModel::Nothing,
            Effect::Write(content) => EffectModel::Write(content@),
            Effect::Copy(source) => EffectModel::Copy(source@),
        }
    }
}

/// What processing one file gave: the effect to carry out, the warnings to
/// show, and the progress line to show once the effect is done.
#[derive(Debug, PartialEq)]
pub struct FileReport {
    pub effect: Effect,
    pub warnings: Vec<String>,
    pub progress: String,
}

/// A `FileReport` as plain values.
pub ghost struct ReportModel {
    pub effect: EffectModel,
    pub warnings: Seq<Seq<char>>,
    pub progress: Seq<char>,
}

impl View for FileReport {
    type V = ReportModel;

    open spec fn view(&self) -> ReportModel {
        ReportModel {
            effect: self.effect@,
            warnings: texts(self.warnings@),
            progress: self.progress@,
        }
    }
}

/// The verb of the progress line: what was done when `update` is set, what
/// would be done when it is not.
pub open spec fn verb_of(action: ActionModel, update: bool) -> Seq<char> {
    match action {
        ActionModel::Update(_) => if update {
            "Updated"@
        } else {
            "Would update"@
        },
        ActionModel::Write(_, _) => if update {
            "Wrote"@
        } else {
            "Would write"@
        },
        ActionModel::CopyFrom(_, _) => if update {
            "Copied"@
        } else {
            "Would copy"@
        },
    }
}

/// The progress line of a file: the verb, the target's description and the
/// file's path.
pub open spec fn progress_line(verb: Seq<char>, description: Seq<char>, path: Seq<char>) -> Seq<
    char,
> {
    verb + " '"@ + description + "' -> '"@ + path + "'"@
}

/// The message for a file that should be updated and cannot be read.
pub open spec fn unreadable_message(path: Seq<char>) -> Seq<char> {
    "File '"@ + path + "' does not exist or is not readable"@
}

/// Where processing a file ends: the variables then, and the report or the
/// error that stopped it.
pub ghost struct Processed {
    pub vars: Map<Seq<char>, ValueModel>,
    pub result: Result<ReportModel, ErrorModel>,
}

/// The effect of a text that was computed: it is carried out only when
/// `update` is set.
pub open spec fn effect_when(update: bool, effect: EffectModel) -> EffectModel {
    if update {
        effect
    } else {
        EffectModel::Nothing
    }
}

/// What the evaluator gave while a file was processed: for an update the
/// outcomes of each pass, for a write or a copy the outcome of the one
/// expression.
pub ghost struct FileOutcomes {
    pub passes: Seq<Seq<TextOutcome>>,
    pub expression: TextOutcome,
}

/// The verb of the progress line of a file that is written, or copied
/// where `copies` is set.
pub open spec fn expression_verb(copies: bool, update: bool) -> Seq<char> {
    if copies {
        if update {
            "Copied"@
        } else {
            "Would copy"@
        }
    } else {
        if update {
            "Wrote"@
        } else {
            "Would write"@
        }
    }
}

/// The report for a file that is written, or copied where `copies` is
/// set, by the target called `description`, where evaluating the expression
/// of the action gave `outcome`: the string is the file's new content, or
/// the name of the file to copy from; a failure is reported at `location`.
pub open spec fn expression_report_of(
    description: Seq<char>,
    copies: bool,
    location: Option<Location>,
    path: Seq<char>,
    update: bool,
    outcome: TextOutcome,
) -> Result<ReportModel, ErrorModel> {
    match outcome {
        Err(message) => Err(error_at(ErrorKind::Script, message, location)),
        Ok(text) => Ok(
            ReportModel {
                effect: effect_when(
                    update,
                    if copies {
                        EffectModel::Copy(text)
                    } else {
                        EffectModel::Write(text)
                    },
                ),
                warnings: Seq::empty(),
                progress: progress_line(expression_verb(copies, update), description, path),
            },
        ),
    }
}

/// What a run does to `file` of `target`, found at `path`, where the
/// evaluator gave `outcomes`. `content` is the file's text as it was read,
/// `None` when it could not be read; only an update looks at it.
pub open spec fn file_outcome(
    target: TargetModel,
    file: TargetFileModel,
    path: Seq<char>,
    content: Option<Seq<char>>,
    update: bool,
    vars: Map<Seq<char>, ValueModel>,
    outcomes: FileOutcomes,
) -> Processed {
    let progress = progress_line(verb_of(target.action, update), target.description, path);
    match target.action {
        ActionModel::Update(replacements) => match content {
            None => Processed {
                vars,
                result: Err(
                    error_at(ErrorKind::FileUnreadable, unreadable_message(path), file.location),
                ),
            },
            Some(text) => {
                let end = passes_from(
                    text,
                    replacements,
                    0,
                    path,
                    Seq::empty(),
                    vars,
                    outcomes.passes,
                );
                Processed {
                    vars: end.vars,
                    result: match end.result {
                        Err(e) => Err(e),
                        Ok(next) => Ok(
                            ReportModel {
                                effect: effect_when(update, EffectModel::Write(next)),
                                warnings: end.warnings,
                                progress,
                            },
                        ),
                    },
                }
            },
        },
        ActionModel::Write(expression, location) => Processed {
            vars,
            result: expression_report_of(
                target.description,
                false,
                location,
                path,
                update,
                guarded(expression, outcomes.expression),
            ),
        },
        ActionModel::CopyFrom(expression, location) => Processed {
            vars,
            result: expression_report_of(
                target.description,
                true,
                location,
                path,
                update,
                guarded(expression, outcomes.expression),
            ),
        },
    }
}

/// Whether `r` and the variables `after` are the end `expected` of
/// processing a file.
pub open spec fn processed(
    r: Result<FileReport, ScriptError>,
    after: Map<Seq<char>, ValueModel>,
    expected: Processed,
) -> bool {
    after == expected.vars && match r {
        Ok(report) => expected.result matches Ok(m) && m == report@,
        Err(e) => expected.result matches Err(m) && m == e@,
    }
}

fn make_progress(verb: &str, description: &str, path: &str) -> (r: String)
    ensures
        r@ == progress_line(verb@, description@, path@),
{
    let mut line = String::from_str(verb);
    line.append(" '");
    line.append(description);
    line.append("' -> '");
    line.append(path);
    line.append("'");
    line
}

/// The report for a file that is written, or copied where `copies` is
/// set, from what evaluating the expression of the action gave. Without
/// `update` there is nothing to carry out.
pub fn expression_report(
    description: &str,
    copies: bool,
    location: Option<Location>,
    path: &str,
    update: bool,
    outcome: Result<String, String>,
) -> (r: Result<FileReport, ScriptError>)
    ensures
        match r {
            Ok(report) => expression_report_of(
                description@,
                copies,
                location,
                path@,
                update,
                text_result(outcome),
            ) matches Ok(m) && m == report@,
            Err(e) => expression_report_of(
                description@,
                copies,
                location,
                path@,
                update,
                text_result(outcome),
            ) matches Err(m) && m == e@,
        },
{
    let text = match outcome {
        Ok(text) => text,
        Err(message) => {
            return Err(ScriptError::at(ErrorKind::Script, message, location));
        },
    };
    let verb = if copies {
        if update {
            "Copied"
        } else {
            "Would copy"
        }
    } else {
        if update {
            "Wrote"
        } else {
            "Would write"
        }
    };
    let effect = if !update {
        Effect::Nothing
    } else if copies {
        Effect::Copy(text)
    } else {
        Effect::Write(text)
    };
    let warnings: Vec<String> = Vec::new();
    assert(texts(warnings@) =~= Seq::empty());
    Ok(FileReport { effect, warnings, progress: make_progress(verb, description, path) })
}

fn process_with(
    target: &Target,
    file: &TargetFile,
    path: &str,
    content: Option<String>,
    update: bool,
    context: &mut RunContext,
) -> (r: (Result<FileReport, ScriptError>, Ghost<FileOutcomes>))
    requires
        old(context).wf(),
    ensures
        final(context).wf(),
        processed(
            r.0,
            final(context)@,
            file_outcome(
                target@,
                file@,
                path@,
                text_of(content),
                update,
                old(context)@,
                r.1@,
            ),
        ),
{
    match &target.action {
        Action::Update(replacements) => {
            let ghost none = FileOutcomes { passes: Seq::empty(), expression: Ok(Seq::empty()) };
            let text = match content {
                Some(text) => text,
                None => {
                    let mut message = String::from_str("File '");
                    message.append(path);
                    message.append("' does not exist or is not readable");
                    return (
                        Err(ScriptError::at(ErrorKind::FileUnreadable, message, file.location)),
                        Ghost(none),
                    );
                },
            };
            let (changed, passes) = update_with(text, replacements, path, context);
            let ghost outcomes = FileOutcomes { passes: passes@, expression: Ok(Seq::empty()) };
            let (next, warnings) = match changed {
                Ok(pair) => pair,
                Err(e) => {
                    return (Err(e), Ghost(outcomes));
                },
            };
            let verb = if update {
                "Updated"
            } else {
                "Would update"
            };
            let effect = if update {
                Effect::Write(next)
            } else {
                Effect::Nothing
            };
            (
                Ok(
                    FileReport {
                        effect,
                        warnings,
                        progress: make_progress(verb, target.description.as_str(), path),
                    },
                ),
                Ghost(outcomes),
            )
        },
        Action::Write(expression, location) => {
            let outcome = context.eval_text(expression.as_str());
            let ghost outcomes = FileOutcomes {
                passes: Seq::empty(),
                expression: text_result(outcome),
            };
            (
                expression_report(
                    target.description.as_str(),
                    false,
                    *location,
                    path,
                    update,
                    outcome,
                ),
                Ghost(outcomes),
            )
        },
        Action::CopyFrom(expression, location) => {
            let outcome = context.eval_text(expression.as_str());
            let ghost outcomes = FileOutcomes {
                passes: Seq::empty(),
                expression: text_result(outcome),
            };
            (
                expression_report(
                    target.description.as_str(),
                    true,
                    *location,
                    path,
                    update,
                    outcome,
                ),
                Ghost(outcomes),
            )
        },
    }
}

/// Decides what a run does to one file of a target. The caller reads the
/// file beforehand where the target updates it, carries out the effect
/// afterwards, and then shows the progress line. Without `update` there is
/// never anything to carry out. What the expressions evaluate to is up to
/// the evaluator; everything else is as `file_outcome` says.
pub fn process_file(
    target: &Target,
    file: &TargetFile,
    path: &str,
    content: Option<String>,
    update: bool,
    context: &mut RunContext,
) -> (r: Result<FileReport, ScriptError>)
    requires
        old(context).wf(),
    ensures
        final(context).wf(),
        !update ==> (r matches Ok(report) ==> report.effect is Nothing),
        exists|outcomes: FileOutcomes| #[trigger]
            processed(
                r,
                final(context)@,
                file_outcome(
                    target@,
                    file@,
                    path@,
                    text_of(content),
                    update,
                    old(context)@,
                    outcomes,
                ),
            ),
{
    let ghost before = context@;
    let (r, outcomes) = process_with(target, file, path, content, update, context);
    assert(processed(
        r,
        context@,
        file_outcome(target@, file@, path@, text_of(content), update, before, outcomes@),
    ));
    r
}

/// The error for an effect that could not be carried out: a write to the
/// file at `path`, or a copy from the file at `source` to it.
pub open spec fn effect_failure_of(
    target: TargetModel,
    file: TargetFileModel,
    path: Seq<char>,
    source: Seq<char>,
) -> ErrorModel {
    match target.action {
        ActionModel::Update(_) => error_at(
            ErrorKind::WriteFailed,
            "Unable to write to file '"@ + path + "'"@,
            file.location,
        ),
        ActionModel::Write(_, location) => error_at(
            ErrorKind::WriteFailed,
            "Unable to write '"@ + path + "'"@,
            location,
        ),
        ActionModel::CopyFrom(_, location) => error_at(
            ErrorKind::CopyFailed,
            "unable to copy "@ + source + " to "@ + path,
            location,
        ),
    }
}

/// The error to report when the effect of a file could not be carried out.
/// `path` is the file's path; `source` is the path of the file to copy
/// from, which only a copy looks at.
pub fn effect_failure(target: &Target, file: &TargetFile, path: &str, source: &str) -> (r:
    ScriptError)
    ensures
        r@ == effect_failure_of(target@, file@, path@, source@),
{
    match &target.action {
        Action::Update(_) => {
            let mut message = String::from_str("Unable to write to file '");
            message.append(path);
            message.append("'");
            ScriptError::at(ErrorKind::WriteFailed, message, file.location)
        },
        Action::Write(_, location) => {
            let mut message = String::from_str("Unable to write '");
            message.append(path);
            message.append("'");
            ScriptError::at(ErrorKind::WriteFailed, message, *location)
        },
        Action::CopyFrom(_, location) => {
            let mut message = String::from_str("unable to copy ");
            message.append(source);
            message.append(" to ");
            message.append(path);
            ScriptError::at(ErrorKind::CopyFailed, message, *location)
        },
    }
}

/// A run that is not to apply its results asks for no effect on any file,
/// and decides everything else as a run that applies them: the same
/// variables, the same warnings, the same error, whatever the evaluator
/// gave.
pub proof fn lemma_dry_run_changes_no_file(
    target: TargetModel,
    file: TargetFileModel,
    path: Seq<char>,
    content: Option<Seq<char>>,
    vars: Map<Seq<char>, ValueModel>,
    outcomes: FileOutcomes,
)
    ensures
        file_outcome(target, file, path, content, false, vars, outcomes).result matches Ok(report)
            ==> report.effect is Nothing,
        file_outcome(target, file, path, content, false, vars, outcomes).vars == file_outcome(
            target,
            file,
            path,
            content,
            true,
            vars,
            outcomes,
        ).vars,
        match file_outcome(target, file, path, content, false, vars, outcomes).result {
            Ok(dry) => file_outcome(target, file, path, content, true, vars, outcomes).result
                matches Ok(applied) && applied.warnings == dry.warnings,
            Err(e) => file_outcome(target, file, path, content, true, vars, outcomes).result
                == Err::<ReportModel, ErrorModel>(e),
        },
{
}

/// A pattern that matches nowhere leaves the text and the variables as
/// they are.
pub proof fn lemma_no_match_changes_nothing(
    text: Seq<char>,
    replace: ReplacementModel,
    vars: Map<Seq<char>, ValueModel>,
    outcomes: Seq<TextOutcome>,
)
    requires
        pattern_matches(replace.search, true, text, begin_name(), end_name()) is Ok,
        !pass_matched(text, replace),
    ensures
        pass_of(text, replace, vars, outcomes) == (Pass { vars, result: Ok(text) }),
{
    lemma_whole_slice(text);
}

} // verus!
