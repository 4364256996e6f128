//! Running the one operation that a run was asked for.

use crate::context::{failure_of, kept, names_shift, shift_refusal, RunContext};
use crate::error::{error_at, ErrorKind, ErrorModel, ScriptError};
use crate::node::{Node, NodeModel};
use crate::value::ValueModel;
use vstd::prelude::*;

verus! {

/// The names of the entries from `from` on, each between single quotes,
/// with `, ` between them, after `done`.
pub open spec fn name_list_from(entries: Seq<(Seq<char>, NodeModel)>, from: int, done: Seq<char>)
    -> Seq<char>
    decreases entries.len() - from,
{
    if from < 0 || from >= entries.len() {
        done
    } else {
        name_list_from(
            entries,
            from + 1,
            done + (if from == 0 {
                Seq::<char>::empty()
            } else {
                ", "@
            }) + "'"@ + entries[from].0 + "'"@,
        )
    }
}

/// The message for a run that names no operation: it lists the operations
/// of the script in written order.
pub open spec fn unnamed_message(entries: Seq<(Seq<char>, NodeModel)>) -> Seq<char> {
    name_list_from(entries, 0, "Specify a valid operation, one of "@)
}

/// The message for an operation that the script does not have.
pub open spec fn unknown_message(name: Seq<char>) -> Seq<char> {
    "Operation '"@ + name + "' not found"@
}

/// The node of the operation called `name`, or the error that says why
/// there is none. A run must name its operation.
pub open spec fn operation_of(root: NodeModel, name: Option<Seq<char>>) -> Result<
    NodeModel,
    ErrorModel,
> {
    match root.entry("operations"@) {
        Err(e) => Err(e),
        Ok(operations) => match name {
            Some(name) => match operations.entry(name) {
                Ok(node) => Ok(node),
                Err(_) => Err(
                    error_at(
                        ErrorKind::OperationNotFound,
                        unknown_message(name),
                        operations.location(),
                    ),
                ),
            },
            None => match operations.object_entries() {
                Err(e) => Err(e),
                Ok(entries) => Err(
                    error_at(
                        ErrorKind::OperationNotFound,
                        unnamed_message(entries),
                        operations.location(),
                    ),
                ),
            },
        },
    }
}

/// The line that announces the operation.
pub open spec fn announcement(name: Seq<char>) -> Seq<char> {
    "Operation '"@ + name + "'"@
}

/// The line that announces the operation called `name`.
pub fn announce(name: &str) -> (r: String)
    ensures
        r@ == announcement(name@),
{
    let mut line = String::from_str("Operation '");
    line.append(name);
    line.append("'");
    line
}

/// What running an expression left: the variables afterwards, and the
/// evaluator's message if it failed.
pub ghost struct RunOutcome {
    pub vars: Map<Seq<char>, ValueModel>,
    pub failure: Option<Seq<char>>,
}

/// Where running an operation ends: the variables then, and the error if it
/// failed.
pub ghost struct Ran {
    pub vars: Map<Seq<char>, ValueModel>,
    pub failure: Option<ErrorModel>,
}

/// The end of running the expression of the operation `node`, where the
/// evaluator left `ran`: a failure of the evaluator is reported at the
/// operation's place in the script. An expression that names a shift is
/// refused and changes nothing.
pub open spec fn expression_outcome(
    node: NodeModel,
    vars: Map<Seq<char>, ValueModel>,
    ran: RunOutcome,
) -> Ran {
    if names_shift(node.text()) {
        Ran { vars, failure: Some(error_at(ErrorKind::Script, shift_refusal(), node.location())) }
    } else {
        Ran {
            vars: ran.vars,
            failure: match ran.failure {
                Some(message) => Some(error_at(ErrorKind::Script, message, node.location())),
                None => None,
            },
        }
    }
}

/// Running the operation called `name` on the variables `vars`, where the
/// evaluator left `ran`. An operation that is not found changes nothing.
pub open spec fn operation_outcome(
    root: NodeModel,
    name: Option<Seq<char>>,
    vars: Map<Seq<char>, ValueModel>,
    ran: RunOutcome,
) -> Ran {
    match operation_of(root, name) {
        Err(e) => Ran { vars, failure: Some(e) },
        Ok(node) => expression_outcome(node, vars, ran),
    }
}

#[verifier::loop_isolation(false)]
fn unnamed_error(operations: &Node) -> (e: ScriptError)
    requires
        operations@ is Object,
    ensures
        e@ == error_at(
            ErrorKind::OperationNotFound,
            unnamed_message(operations@.entries()),
            operations@.location(),
        ),
{
    let mut message = String::from_str("Specify a valid operation, one of ");
    let entries = match operations.get_object_entries() {
        Ok(entries) => entries,
        Err(e) => {
            return e;
        },
    };
    let mut i: usize = 0;
    while i < entries.len()
        invariant
            i <= entries.len(),
            unnamed_message(operations@.entries()) == name_list_from(
                operations@.entries(),
                i as int,
                message@,
            ),
        decreases entries.len() - i,
    {
        if i > 0 {
            message.append(", ");
        }
        message.append("'");
        message.append(entries[i].0.as_str());
        message.append("'");
        i += 1;
    }
    ScriptError::at(ErrorKind::OperationNotFound, message, operations.get_location())
}

/// Looks up the operation of a run. Without a name the error lists the
/// operations that the script has.
pub fn find_operation<'a>(root: &'a Node, name: Option<&str>) -> (r: Result<&'a Node, ScriptError>)
    ensures
        match r {
            Ok(node) => operation_of(root@, name_of(name)) matches Ok(m) && m
                == node@,
            Err(e) => operation_of(root@, name_of(name)) matches Err(m) && m
                == e@,
        },
{
    let operations = root.get_object_entry("operations")?;
    match name {
        Some(name) => match operations.get_object_entry(name) {
            Ok(node) => Ok(node),
            Err(_) => {
                let mut message = String::from_str("Operation '");
                message.append(name);
                message.append("' not found");
                Err(
                    ScriptError::at(
                        ErrorKind::OperationNotFound,
                        message,
                        operations.get_location(),
                    ),
                )
            },
        },
        None => {
            if operations.is_object() {
                Err(unnamed_error(operations))
            } else {
                Err(
                    ScriptError::structure(
                        String::from_str("Not an object"),
                        operations.get_location(),
                    ),
                )
            }
        },
    }
}

/// The text of a name that may be missing.
pub open spec fn name_of(name: Option<&str>) -> Option<Seq<char>> {
    match name {
        Some(name) => Some(name@),
        None => None,
    }
}

/// Whether `r` reports exactly the failure `expected`.
pub open spec fn fails_with(r: Result<(), ScriptError>, expected: Option<ErrorModel>) -> bool {
    match r {
        Ok(_) => expected is None,
        Err(e) => expected == Some(e@),
    }
}

/// Whether `r` and the variables `after` are the end `expected`.
pub open spec fn runs(
    r: Result<(), ScriptError>,
    after: Map<Seq<char>, ValueModel>,
    expected: Ran,
) -> bool {
    after == expected.vars && fails_with(r, expected.failure)
}

/// Runs the expression of the operation `node` on the variables of
/// `context`. What it assigns is up to the evaluator: every variable stays,
/// with a value of its kind, and assignments made before a failure stay too.
pub fn run_expression(node: &Node, context: &mut RunContext) -> (r: Result<(), ScriptError>)
    requires
        old(context).wf(),
    ensures
        final(context).wf(),
        kept(old(context)@, final(context)@),
        exists|ran: RunOutcome| #[trigger]
            runs(r, final(context)@, expression_outcome(node@, old(context)@, ran)),
{
    let ghost before = context@;
    let outcome = context.run(node.get_string().as_str());
    let ghost ran = RunOutcome { vars: context@, failure: failure_of(outcome) };
    let r = match outcome {
        Ok(_) => Ok(()),
        Err(message) => Err(ScriptError::at(ErrorKind::Script, message, node.get_location())),
    };
    assert(runs(r, context@, expression_outcome(node@, before, ran)));
    r
}

/// Runs the operation called `name` on the variables of `context`.
pub fn run_operation(name: Option<&str>, root: &Node, context: &mut RunContext) -> (r: Result<
    (),
    ScriptError,
>)
    requires
        old(context).wf(),
    ensures
        final(context).wf(),
        kept(old(context)@, final(context)@),
        exists|ran: RunOutcome| #[trigger]
            runs(r, final(context)@, operation_outcome(root@, name_of(name), old(context)@, ran)),
{
    let ghost before = context@;
    let node = match find_operation(root, name) {
        Ok(node) => node,
        Err(e) => {
            let ghost ran = RunOutcome { vars: before, failure: None };
            assert(runs(Err(e), context@, operation_outcome(root@, name_of(name), before, ran)));
            return Err(e);
        },
    };
    let r = run_expression(node, context);
    let ghost ran = choose|ran: RunOutcome| #[trigger]
        runs(r, context@, expression_outcome(node@, before, ran));
    assert(runs(r, context@, operation_outcome(root@, name_of(name), before, ran)));
    r
}

} // verus!
