//! Building the context of a run: the variables of the script, today's date,
//! the calculated variables in written order, and the local time zone where
//! the script names none.

use crate::clock::{today, Today};
use crate::context::{
    extends, guarded, kind_mismatch_message, set_allowed, value_result, RunContext, ValueOutcome,
};
use crate::error::{error_at, ErrorKind, ErrorModel, Location, ScriptError};
use crate::node::{Node, NodeModel};
use crate::text::{text_of, texts};
use crate::value::{ScriptValue, ValueModel};
use vstd::prelude::*;

verus! {

/// The names of the three variables that hold today's date.
pub open spec fn year_name() -> Seq<char> {
    "now::year"@
}

pub open spec fn month_name() -> Seq<char> {
    "now::month"@
}

pub open spec fn day_name() -> Seq<char> {
    "now::day"@
}

/// The name of the variable that holds the time zone.
pub open spec fn tz_name() -> Seq<char> {
    "tz"@
}

/// The variables after `name` was given `value`, or the error when the
/// variable holds a value of another kind.
pub open spec fn set_or_fail(
    vars: Map<Seq<char>, ValueModel>,
    name: Seq<char>,
    value: ValueModel,
    location: Option<Location>,
) -> Result<Map<Seq<char>, ValueModel>, ErrorModel> {
    if set_allowed(vars, name, value) {
        Ok(vars.insert(name, value))
    } else {
        Err(error_at(ErrorKind::Script, kind_mismatch_message(vars[name].kind(), value), location))
    }
}

/// The variables after the entries of `vars` from `from` on were added, each
/// with the value that it is written with.
pub open spec fn add_vars_from(
    entries: Seq<(Seq<char>, NodeModel)>,
    from: int,
    vars: Map<Seq<char>, ValueModel>,
) -> Result<Map<Seq<char>, ValueModel>, ErrorModel>
    decreases entries.len() - from,
{
    if from < 0 || from >= entries.len() {
        Ok(vars)
    } else {
        match set_or_fail(
            vars,
            entries[from].0,
            entries[from].1.value(),
            entries[from].1.location(),
        ) {
            Err(e) => Err(e),
            Ok(next) => add_vars_from(entries, from + 1, next),
        }
    }
}

/// The variables after today's date was added.
pub open spec fn add_today(vars: Map<Seq<char>, ValueModel>, today: Today) -> Result<
    Map<Seq<char>, ValueModel>,
    ErrorModel,
> {
    match set_or_fail(vars, year_name(), ValueModel::Int(today.year), None) {
        Err(e) => Err(e),
        Ok(with_year) => match set_or_fail(
            with_year,
            month_name(),
            ValueModel::Int(today.month),
            None,
        ) {
            Err(e) => Err(e),
            Ok(with_month) => set_or_fail(with_month, day_name(), ValueModel::Int(today.day), None),
        },
    }
}

/// The variables after the calculated variables from `from` on were added,
/// where evaluating the expression of calculated variable number `i` gave
/// `outcomes[i]`. They are added in written order, so each expression is
/// evaluated with the variables as they are when its turn comes. The first
/// failure stops it.
pub open spec fn add_calc_vars_from(
    entries: Seq<(Seq<char>, NodeModel)>,
    from: int,
    vars: Map<Seq<char>, ValueModel>,
    outcomes: Seq<ValueOutcome>,
) -> Result<Map<Seq<char>, ValueModel>, ErrorModel>
    decreases entries.len() - from,
{
    if from < 0 || from >= entries.len() {
        Ok(vars)
    } else {
        match guarded(entries[from].1.text(), outcomes[from]) {
            Err(message) => Err(error_at(ErrorKind::Script, message, entries[from].1.location())),
            Ok(value) => match set_or_fail(
                vars,
                entries[from].0,
                value,
                entries[from].1.location(),
            ) {
                Err(e) => Err(e),
                Ok(next) => add_calc_vars_from(entries, from + 1, next, outcomes),
            },
        }
    }
}

/// The entries of `calcVars`; none where the script has no `calcVars`.
pub open spec fn calc_entries(root: NodeModel) -> Result<Seq<(Seq<char>, NodeModel)>, ErrorModel> {
    if root.has("calcVars"@) {
        root.entry("calcVars"@)->Ok_0.object_entries()
    } else {
        Ok(Seq::empty())
    }
}

/// The warning that says which time zone was taken from the machine.
pub open spec fn local_tz_warning(zone: Seq<char>) -> Seq<char> {
    "No 'tz' timezone value set; using local time zone '"@ + zone + "'"@
}

/// The variables of a finished context, with the warnings to show.
pub ghost struct Built {
    pub vars: Map<Seq<char>, ValueModel>,
    pub warnings: Seq<Seq<char>>,
}

/// The last step: where no variable `tz` exists and the machine's zone is
/// known, `tz` becomes that zone and a warning says so.
pub open spec fn add_local_tz(vars: Map<Seq<char>, ValueModel>, local_tz: Option<Seq<char>>)
    -> Built {
    match local_tz {
        Some(zone) => {
            if vars.dom().contains(tz_name()) {
                Built { vars, warnings: Seq::empty() }
            } else {
                Built {
                    vars: vars.insert(tz_name(), ValueModel::Str(zone)),
                    warnings: seq![local_tz_warning(zone)],
                }
            }
        },
        None => Built { vars, warnings: Seq::empty() },
    }
}

/// The context of a run on the date `today`, where evaluating the
/// calculated variables gave `outcomes`: first the variables, then the
/// date, then the calculated variables, then the time zone.
pub open spec fn context_outcome(
    root: NodeModel,
    today: Today,
    local_tz: Option<Seq<char>>,
    outcomes: Seq<ValueOutcome>,
) -> Result<Built, ErrorModel> {
    match root.entry("vars"@) {
        Err(e) => Err(e),
        Ok(vars_node) => match vars_node.object_entries() {
            Err(e) => Err(e),
            Ok(vars) => match add_vars_from(vars, 0, Map::empty()) {
                Err(e) => Err(e),
                Ok(fixed) => match add_today(fixed, today) {
                    Err(e) => Err(e),
                    Ok(dated) => match calc_entries(root) {
                        Err(e) => Err(e),
                        Ok(calc) => match add_calc_vars_from(calc, 0, dated, outcomes) {
                            Err(e) => Err(e),
                            Ok(calculated) => Ok(add_local_tz(calculated, local_tz)),
                        },
                    },
                },
            },
        },
    }
}

fn set_at(context: &mut RunContext, name: &str, value: &ScriptValue, location: Option<Location>)
    -> (r: Result<(), ScriptError>)
    ensures
        final(context).functions() == old(context).functions(),
        match r {
            Ok(_) => set_or_fail(old(context)@, name@, value@, location) matches Ok(m) && m
                == final(context)@,
            Err(e) => set_or_fail(old(context)@, name@, value@, location) matches Err(m) && m
                == e@,
        },
{
    match context.set_value(name, value) {
        Ok(_) => Ok(()),
        Err(message) => Err(ScriptError::at(ErrorKind::Script, message, location)),
    }
}

#[verifier::loop_isolation(false)]
fn add_vars(context: &mut RunContext, vars: &Node) -> (r: Result<(), ScriptError>)
    requires
        old(context).wf(),
    ensures
        final(context).wf(),
        match r {
            Ok(_) => vars@.object_entries() is Ok && (add_vars_from(
                vars@.entries(),
                0,
                old(context)@,
            ) matches Ok(m) && m == final(context)@),
            Err(e) => match vars@.object_entries() {
                Err(m) => m == e@,
                Ok(entries) => add_vars_from(entries, 0, old(context)@) matches Err(m) && m == e@,
            },
        },
{
    let entries = vars.get_object_entries()?;
    let mut i: usize = 0;
    while i < entries.len()
        invariant
            i <= entries.len(),
            context.wf(),
            add_vars_from(vars@.entries(), 0, old(context)@) == add_vars_from(
                vars@.entries(),
                i as int,
                context@,
            ),
        decreases entries.len() - i,
    {
        let node = &entries[i].1;
        set_at(context, entries[i].0.as_str(), &node.get_value(), node.get_location())?;
        i += 1;
    }
    Ok(())
}

fn add_date(context: &mut RunContext, today: Today) -> (r: Result<(), ScriptError>)
    requires
        old(context).wf(),
    ensures
        final(context).wf(),
        match r {
            Ok(_) => add_today(old(context)@, today) matches Ok(m) && m == final(context)@,
            Err(e) => add_today(old(context)@, today) matches Err(m) && m == e@,
        },
{
    set_at(context, "now::year", &ScriptValue::Int(today.year), None)?;
    set_at(context, "now::month", &ScriptValue::Int(today.month), None)?;
    set_at(context, "now::day", &ScriptValue::Int(today.day), None)
}

/// Whether `r` and the variables `after` are what adding the calculated
/// variables of `root` to `before` gives, for the outcomes `outcomes`.
pub open spec fn calc_vars_added(
    r: Result<(), ScriptError>,
    root: NodeModel,
    before: Map<Seq<char>, ValueModel>,
    after: Map<Seq<char>, ValueModel>,
    outcomes: Seq<ValueOutcome>,
) -> bool {
    match calc_entries(root) {
        Err(e) => r matches Err(x) && x@ == e,
        Ok(entries) => match add_calc_vars_from(entries, 0, before, outcomes) {
            Err(e) => r matches Err(x) && x@ == e,
            Ok(vars) => r is Ok && after == vars,
        },
    }
}

/// Gives the variable `name` the value that evaluating its expression
/// gave, or reports the failure of the evaluation at `location`.
pub fn add_calc_var(
    context: &mut RunContext,
    name: &str,
    outcome: Result<ScriptValue, String>,
    location: Option<Location>,
) -> (r: Result<(), ScriptError>)
    ensures
        final(context).functions() == old(context).functions(),
        match value_result(outcome) {
            Err(message) => final(context)@ == old(context)@ && (r matches Err(e) && e@
                == error_at(ErrorKind::Script, message, location)),
            Ok(value) => match set_or_fail(old(context)@, name@, value, location) {
                Err(e) => r matches Err(x) && x@ == e,
                Ok(vars) => r is Ok && final(context)@ == vars,
            },
        },
{
    match outcome {
        Err(message) => Err(ScriptError::at(ErrorKind::Script, message, location)),
        Ok(value) => set_at(context, name, &value, location),
    }
}

#[verifier::loop_isolation(false)]
fn add_calc_vars(context: &mut RunContext, root: &Node) -> (r: (
    Result<(), ScriptError>,
    Ghost<Seq<ValueOutcome>>,
))
    requires
        old(context).wf(),
    ensures
        final(context).wf(),
        calc_vars_added(r.0, root@, old(context)@, final(context)@, r.1@),
{
    let calc_vars = match root.get_object_entry("calcVars") {
        Ok(node) => node,
        Err(_) => {
            return (Ok(()), Ghost(Seq::empty()));
        },
    };
    let entries = match calc_vars.get_object_entries() {
        Ok(entries) => entries,
        Err(e) => {
            return (Err(e), Ghost(Seq::empty()));
        },
    };
    let ghost all = calc_vars@.entries();
    let ghost start = context@;
    let ghost mut done: Seq<ValueOutcome> = Seq::empty();
    let mut i: usize = 0;
    while i < entries.len()
        invariant
            i <= entries.len(),
            context.wf(),
            done.len() == i,
            forall|outcomes: Seq<ValueOutcome>| #[trigger]
                extends(outcomes, done) ==> add_calc_vars_from(all, 0, start, outcomes)
                    == add_calc_vars_from(all, i as int, context@, outcomes),
        decreases entries.len() - i,
    {
        let node = &entries[i].1;
        let ghost before = context@;
        let outcome = context.eval(node.get_string().as_str());
        let ghost given = value_result(outcome);
        let ghost next = done.push(given);
        assert(entries@[i as int].0@ == all[i as int].0);
        assert forall|outcomes: Seq<ValueOutcome>| #[trigger] extends(outcomes, next) implies (
        extends(outcomes, done) && outcomes[i as int] == given) by {
            assert(next[i as int] == given);
            assert forall|j: int| 0 <= j < done.len() implies outcomes[j] == done[j] by {
                assert(next[j] == done[j]);
            }
        }
        if let Err(e) = add_calc_var(context, entries[i].0.as_str(), outcome, node.get_location()) {
            assert(extends(next, next));
            return (Err(e), Ghost(next));
        }
        proof {
            done = next;
        }
        i += 1;
    }
    assert(extends(done, done));
    (Ok(()), Ghost(done))
}

/// Whether `r` is the context and the warnings that `expected` describes, or
/// its error.
pub open spec fn builds(
    r: Result<(RunContext, Vec<String>), ScriptError>,
    expected: Result<Built, ErrorModel>,
) -> bool {
    match r {
        Ok((context, warnings)) => context.wf() && (expected matches Ok(built) && built.vars
            == context@ && built.warnings == texts(warnings@)),
        Err(e) => expected matches Err(m) && m == e@,
    }
}

fn build_with(root: &Node, today: Today, local_tz: Option<String>) -> (r: (
    Result<(RunContext, Vec<String>), ScriptError>,
    Ghost<Seq<ValueOutcome>>,
))
    ensures
        builds(r.0, context_outcome(root@, today, text_of(local_tz), r.1@)),
{
    let mut context = RunContext::new();
    let vars = match root.get_object_entry("vars") {
        Ok(vars) => vars,
        Err(e) => {
            return (Err(e), Ghost(Seq::empty()));
        },
    };
    if let Err(e) = add_vars(&mut context, vars) {
        return (Err(e), Ghost(Seq::empty()));
    }
    if let Err(e) = add_date(&mut context, today) {
        return (Err(e), Ghost(Seq::empty()));
    }
    let (added, outcomes) = add_calc_vars(&mut context, root);
    if let Err(e) = added {
        return (Err(e), outcomes);
    }
    let mut warnings: Vec<String> = Vec::new();
    assert(texts(warnings@) =~= Seq::empty());
    if let Some(zone) = local_tz {
        if context.get_value("tz").is_none() {
            let _ = context.set_value("tz", &ScriptValue::Str(zone.clone()));
            let mut warning = String::from_str(
                "No 'tz' timezone value set; using local time zone '",
            );
            warning.append(zone.as_str());
            warning.append("'");
            warnings.push(warning);
            assert(texts(warnings@) =~= seq![local_tz_warning(zone@)]);
        }
    }
    (Ok((context, warnings)), outcomes)
}

/// Builds the context of a run on the date `today`. `local_tz` is the name
/// of the machine's time zone, where the caller could find it out. What the
/// calculated variables evaluate to is up to the evaluator; everything else
/// is as `context_outcome` says.
pub fn build_run_context(root: &Node, today: Today, local_tz: Option<String>) -> (r: Result<
    (RunContext, Vec<String>),
    ScriptError,
>)
    ensures
        exists|outcomes: Seq<ValueOutcome>| #[trigger]
            builds(r, context_outcome(root@, today, text_of(local_tz), outcomes)),
{
    let (r, outcomes) = build_with(root, today, local_tz);
    assert(builds(r, context_outcome(root@, today, text_of(local_tz), outcomes@)));
    r
}

/// The message for a clock that gives no date.
pub open spec fn clock_message() -> Seq<char> {
    "The system clock gives no date"@
}

/// Whether `r` is the error for a clock that gives no date.
pub open spec fn clockless<T>(r: Result<T, ScriptError>) -> bool {
    r matches Err(e) && e@ == error_at(ErrorKind::Script, clock_message(), None)
}

/// The error for a clock that gives no date.
pub fn clock_error() -> (e: ScriptError)
    ensures
        e@ == error_at(ErrorKind::Script, clock_message(), None),
{
    ScriptError::at(ErrorKind::Script, String::from_str("The system clock gives no date"), None)
}

/// Builds the context of a run that takes place today, by the clock in UTC.
/// A clock that gives no date is an error.
pub fn create_run_context(root: &Node, local_tz: Option<String>) -> (r: Result<
    (RunContext, Vec<String>),
    ScriptError,
>)
    ensures
        clockless(r) || exists|today: Today, outcomes: Seq<ValueOutcome>|
            today.in_calendar() && #[trigger] builds(
                r,
                context_outcome(root@, today, text_of(local_tz), outcomes),
            ),
{
    match today() {
        Some(date) => build_run_context(root, date, local_tz),
        None => Err(clock_error()),
    }
}

/// The place of the first component from `from` on that is `zoneinfo`; the
/// number of components where there is none.
pub open spec fn zoneinfo_at(components: Seq<Seq<char>>, from: int) -> int
    decreases components.len() - from,
{
    if from < 0 || from >= components.len() {
        components.len() as int
    } else if components[from] == "zoneinfo"@ {
        from
    } else {
        zoneinfo_at(components, from + 1)
    }
}

/// The name of the time zone that the components of a path into the zone
/// database give: the two components after the first `zoneinfo`, with `/`
/// between them; `None` where fewer than two follow it.
pub open spec fn zone_in(components: Seq<Seq<char>>) -> Option<Seq<char>> {
    let at = zoneinfo_at(components, 0);
    if at + 2 < components.len() {
        Some(components[at + 1] + "/"@ + components[at + 2])
    } else {
        None
    }
}

/// The name of the machine's time zone, from the components of the path
/// that its local-time link points to.
#[verifier::loop_isolation(false)]
pub fn local_zone(components: &Vec<String>) -> (r: Option<String>)
    ensures
        text_of(r) == zone_in(texts(components@)),
{
    let marker = String::from_str("zoneinfo");
    let mut at: usize = 0;
    while at < components.len() && components[at] != marker
        invariant
            at <= components.len(),
            zoneinfo_at(texts(components@), 0) == zoneinfo_at(texts(components@), at as int),
        decreases components.len() - at,
    {
        at += 1;
    }
    if components.len() >= 2 && at < components.len() - 2 {
        let mut zone = components[at + 1].clone();
        zone.append("/");
        zone.append(components[at + 2].as_str());
        Some(zone)
    } else {
        None
    }
}

/// The keys of the entries `from..to`.
pub open spec fn keys_between(entries: Seq<(Seq<char>, NodeModel)>, from: int, to: int) -> Set<
    Seq<char>,
> {
    Set::new(
        |key: Seq<char>|
            exists|i: int|
                from <= i < to && 0 <= i < entries.len() && (#[trigger] entries[i]).0 == key,
    )
}

/// The keys of all entries.
pub open spec fn keys_of(entries: Seq<(Seq<char>, NodeModel)>) -> Set<Seq<char>> {
    keys_between(entries, 0, entries.len() as int)
}

/// The names of the variables that hold today's date.
pub open spec fn today_names() -> Set<Seq<char>> {
    set![year_name(), month_name(), day_name()]
}

/// The name `tz` where the machine's time zone is known, else nothing.
pub open spec fn local_names(local_tz: Option<Seq<char>>) -> Set<Seq<char>> {
    if local_tz is Some {
        set![tz_name()]
    } else {
        Set::empty()
    }
}

proof fn lemma_added_var_names(
    entries: Seq<(Seq<char>, NodeModel)>,
    from: int,
    vars: Map<Seq<char>, ValueModel>,
)
    requires
        0 <= from,
        add_vars_from(entries, from, vars) is Ok,
    ensures
        add_vars_from(entries, from, vars)->Ok_0.dom() == vars.dom() + keys_between(
            entries,
            from,
            entries.len() as int,
        ),
    decreases entries.len() - from,
{
    if from < entries.len() {
        let next = set_or_fail(
            vars,
            entries[from].0,
            entries[from].1.value(),
            entries[from].1.location(),
        )->Ok_0;
        lemma_added_var_names(entries, from + 1, next);
    }
}

proof fn lemma_added_calc_names(
    entries: Seq<(Seq<char>, NodeModel)>,
    from: int,
    vars: Map<Seq<char>, ValueModel>,
    outcomes: Seq<ValueOutcome>,
)
    requires
        0 <= from,
        add_calc_vars_from(entries, from, vars, outcomes) is Ok,
    ensures
        add_calc_vars_from(entries, from, vars, outcomes)->Ok_0.dom() == vars.dom() + keys_between(
            entries,
            from,
            entries.len() as int,
        ),
    decreases entries.len() - from,
{
    if from < entries.len() {
        let value = guarded(entries[from].1.text(), outcomes[from])->Ok_0;
        let next = set_or_fail(vars, entries[from].0, value, entries[from].1.location())->Ok_0;
        lemma_added_calc_names(entries, from + 1, next, outcomes);
    }
}

/// A finished context holds every variable of the script, the three
/// variables of today's date, every calculated variable, `tz` where the
/// machine's time zone is known, and no other variable, whatever the
/// calculated variables evaluated to.
pub proof fn lemma_context_names(
    root: NodeModel,
    today: Today,
    local_tz: Option<Seq<char>>,
    outcomes: Seq<ValueOutcome>,
)
    requires
        context_outcome(root, today, local_tz, outcomes) is Ok,
    ensures
        context_outcome(root, today, local_tz, outcomes)->Ok_0.vars.dom() == keys_of(
            root.entry("vars"@)->Ok_0.entries(),
        ) + today_names() + keys_of(calc_entries(root)->Ok_0) + local_names(local_tz),
{
    let vars = root.entry("vars"@)->Ok_0.entries();
    let calc = calc_entries(root)->Ok_0;
    let fixed = add_vars_from(vars, 0, Map::empty())->Ok_0;
    let dated = add_today(fixed, today)->Ok_0;
    lemma_added_var_names(vars, 0, Map::empty());
    lemma_added_calc_names(calc, 0, dated, outcomes);
}

/// The variables with which calculated variable number `at` is evaluated:
/// those that the calculated variables written before it have left.
pub open spec fn calc_context(
    entries: Seq<(Seq<char>, NodeModel)>,
    at: int,
    vars: Map<Seq<char>, ValueModel>,
    outcomes: Seq<ValueOutcome>,
) -> Result<Map<Seq<char>, ValueModel>, ErrorModel> {
    add_calc_vars_from(entries.take(at), 0, vars, outcomes)
}

proof fn lemma_calc_vars_split(
    entries: Seq<(Seq<char>, NodeModel)>,
    from: int,
    at: int,
    vars: Map<Seq<char>, ValueModel>,
    outcomes: Seq<ValueOutcome>,
)
    requires
        0 <= from <= at <= entries.len(),
    ensures
        add_calc_vars_from(entries, from, vars, outcomes) == (match add_calc_vars_from(
            entries.take(at),
            from,
            vars,
            outcomes,
        ) {
            Err(e) => Err(e),
            Ok(seen) => add_calc_vars_from(entries, at, seen, outcomes),
        }),
    decreases at - from,
{
    if from < at {
        assert(entries.take(at)[from] == entries[from]);
        match guarded(entries[from].1.text(), outcomes[from]) {
            Err(_) => {},
            Ok(value) => match set_or_fail(
                vars,
                entries[from].0,
                value,
                entries[from].1.location(),
            ) {
                Err(_) => {},
                Ok(next) => {
                    lemma_calc_vars_split(entries, from + 1, at, next, outcomes);
                },
            },
        }
    }
}

/// Calculated variables are evaluated in written order. Where all of them
/// could be added, each one was evaluated, with success, when the variables
/// held what was there before the first of them and every calculated
/// variable written before it, and nothing else: no calculated variable
/// written after it.
pub proof fn lemma_calc_vars_in_written_order(
    entries: Seq<(Seq<char>, NodeModel)>,
    vars: Map<Seq<char>, ValueModel>,
    outcomes: Seq<ValueOutcome>,
    at: int,
)
    requires
        0 <= at < entries.len(),
        add_calc_vars_from(entries, 0, vars, outcomes) is Ok,
    ensures
        calc_context(entries, at, vars, outcomes) is Ok,
        calc_context(entries, at, vars, outcomes)->Ok_0.dom() == vars.dom() + keys_between(
            entries,
            0,
            at,
        ),
        guarded(entries[at].1.text(), outcomes[at]) is Ok,
{
    lemma_calc_vars_split(entries, 0, at, vars, outcomes);
    lemma_added_calc_names(entries.take(at), 0, vars, outcomes);
    assert(keys_between(entries.take(at), 0, at) =~= keys_between(entries, 0, at)) by {
        assert forall|key: Seq<char>|
            keys_between(entries.take(at), 0, at).contains(key) implies keys_between(
            entries,
            0,
            at,
        ).contains(key) by {
            let i = choose|i: int|
                0 <= i < at && 0 <= i < entries.take(at).len() && (#[trigger] entries.take(
                    at,
                )[i]).0 == key;
            assert(entries[i].0 == key);
        }
        assert forall|key: Seq<char>|
            keys_between(entries, 0, at).contains(key) implies keys_between(
            entries.take(at),
            0,
            at,
        ).contains(key) by {
            let i = choose|i: int|
                0 <= i < at && 0 <= i < entries.len() && (#[trigger] entries[i]).0 == key;
            assert(entries.take(at)[i].0 == key);
        }
    }
}

} // verus!
