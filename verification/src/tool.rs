//! The steps of a run, with what each has to say handed to a log.

use crate::context::{kept, RunContext, ValueOutcome};
use crate::error::{ErrorModel, ScriptError};
use crate::node::Node;
use crate::operation::{
    announce, expression_outcome, find_operation, name_of, operation_outcome, run_expression, runs,
    RunOutcome,
};
use crate::process::{file_outcome, process_file, processed, FileOutcomes, FileReport};
use crate::rewrite::{rewritten, update_script_file, ScriptUpdate};
use crate::setup::{
    build_run_context, builds, clock_error, clockless, context_outcome, Built,
};
use crate::clock::{today, Today};
use crate::target::{Target, TargetFile};
use crate::text::text_of;
use crate::validate::{reports, validate_script_file, validation};
use vstd::prelude::*;

verus! {

/// Where a run says what it does. What becomes of a message is up to the
/// implementation.
pub trait StampVerLog {
    fn output(&self, message: &str);

    fn warning(&self, message: &str);

    fn error(&self, message: &str);
}

/// The lines of the console log: progress as it is, warnings and errors
/// behind a word that says which they are.
#[derive(Clone, Copy, Debug)]
pub struct StampVerLogger {}

impl StampVerLogger {
    pub fn new() -> (r: StampVerLogger) {
        StampVerLogger {  }
    }

    /// The line for a progress message.
    pub fn output_line(&self, message: &str) -> (r: String)
        ensures
            r@ == message@,
    {
        String::from_str(message)
    }

    /// The line for a warning.
    pub fn warning_line(&self, message: &str) -> (r: String)
        ensures
            r@ == "warning: "@ + message@,
    {
        let mut line = String::from_str("warning: ");
        line.append(message);
        line
    }

    /// The line for an error.
    pub fn error_line(&self, message: &str) -> (r: String)
        ensures
            r@ == "error: "@ + message@,
    {
        let mut line = String::from_str("error: ");
        line.append(message);
        line
    }
}

/// Whether `r` is the context that `expected` describes, or its error.
pub open spec fn creates(r: Result<RunContext, ScriptError>, expected: Result<Built, ErrorModel>)
    -> bool {
    match r {
        Ok(context) => context.wf() && (expected matches Ok(built) && built.vars == context@),
        Err(e) => expected matches Err(m) && m == e@,
    }
}

/// The steps of a run that report to the log `L`.
pub struct StampVerTool<'a, L: StampVerLog> {
    log: &'a L,
}

impl<'a, L: StampVerLog> StampVerTool<'a, L> {
    /// The log that the steps report to.
    pub closed spec fn log(&self) -> &'a L {
        self.log
    }

    pub fn new(log: &'a L) -> (r: StampVerTool<'a, L>)
        ensures
            r.log() == log,
    {
        StampVerTool { log }
    }

    fn warn_all(&self, warnings: &Vec<String>) {
        let mut i: usize = 0;
        while i < warnings.len()
            invariant
                i <= warnings.len(),
            decreases warnings.len() - i,
        {
            self.log.warning(warnings[i].as_str());
            i += 1;
        }
    }

    /// Checks the shape of the document.
    pub fn validate_script_file(&self, root: &Node) -> (r: Result<(), ScriptError>)
        ensures
            reports(r, validation(root@)),
    {
        validate_script_file(root)
    }

    /// Builds the context of a run on the date `today` and hands its
    /// warnings to the log. `local_tz` is the name of the machine's time
    /// zone, where the caller could find it out.
    pub fn create_run_context_on(&self, root: &Node, today: Today, local_tz: Option<String>) -> (r:
        Result<RunContext, ScriptError>)
        ensures
            exists|outcomes: Seq<ValueOutcome>| #[trigger]
                creates(r, context_outcome(root@, today, text_of(local_tz), outcomes)),
    {
        let built = build_run_context(root, today, local_tz);
        let ghost outcomes = choose|outcomes: Seq<ValueOutcome>| #[trigger]
            builds(built, context_outcome(root@, today, text_of(local_tz), outcomes));
        let r = match built {
            Ok((context, warnings)) => {
                self.warn_all(&warnings);
                Ok(context)
            },
            Err(e) => Err(e),
        };
        assert(creates(r, context_outcome(root@, today, text_of(local_tz), outcomes)));
        r
    }

    /// Builds the context of a run that takes place today, by the clock in
    /// UTC, and hands its warnings to the log. A clock that gives no date
    /// is an error.
    pub fn create_run_context(&self, root: &Node, local_tz: Option<String>) -> (r: Result<
        RunContext,
        ScriptError,
    >)
        ensures
            clockless(r) || exists|today: Today, outcomes: Seq<ValueOutcome>|
                today.in_calendar() && #[trigger] creates(
                    r,
                    context_outcome(root@, today, text_of(local_tz), outcomes),
                ),
    {
        match today() {
            Some(date) => {
                let r = self.create_run_context_on(root, date, local_tz);
                let ghost outcomes = choose|outcomes: Seq<ValueOutcome>| #[trigger]
                    creates(r, context_outcome(root@, date, text_of(local_tz), outcomes));
                assert(date.in_calendar() && creates(
                    r,
                    context_outcome(root@, date, text_of(local_tz), outcomes),
                ));
                r
            },
            None => Err(clock_error()),
        }
    }

    /// Announces the operation to the log and runs it on the variables of
    /// `context`.
    pub fn run_operation(&self, operation: Option<String>, root: &Node, context: &mut RunContext)
        -> (r: Result<(), ScriptError>)
        requires
            old(context).wf(),
        ensures
            final(context).wf(),
            kept(old(context)@, final(context)@),
            exists|ran: RunOutcome| #[trigger]
                runs(
                    r,
                    final(context)@,
                    operation_outcome(root@, text_of(operation), old(context)@, ran),
                ),
    {
        let ghost before = context@;
        let name: Option<&str> = match &operation {
            Some(name) => Some(name.as_str()),
            None => None,
        };
        assert(name_of(name) == text_of(operation));
        let node = match find_operation(root, name) {
            Ok(node) => node,
            Err(e) => {
                let ghost ran = RunOutcome { vars: before, failure: None };
                assert(runs(
                    Err(e),
                    context@,
                    operation_outcome(root@, text_of(operation), before, ran),
                ));
                return Err(e);
            },
        };
        if let Some(name) = name {
            self.log.output(announce(name).as_str());
        }
        let r = run_expression(node, context);
        let ghost ran = choose|ran: RunOutcome| #[trigger]
            runs(r, context@, expression_outcome(node@, before, ran));
        assert(runs(r, context@, operation_outcome(root@, text_of(operation), before, ran)));
        r
    }

    /// Decides what the run does to one file of a target and hands the
    /// warnings to the log. The caller carries out the effect and then calls
    /// `file_done`.
    pub fn process_target_file(
        &self,
        target: &Target,
        file: &TargetFile,
        path: &str,
        content: Option<String>,
        update: bool,
        context: &mut RunContext,
    ) -> (r: Result<FileReport, ScriptError>)
        requires
            old(context).wf(),
        ensures
            final(context).wf(),
            !update ==> (r matches Ok(report) ==> report.effect is Nothing),
            exists|outcomes: FileOutcomes| #[trigger]
                processed(
                    r,
                    final(context)@,
                    file_outcome(
                        target@,
                        file@,
                        path@,
                        text_of(content),
                        update,
                        old(context)@,
                        outcomes,
                    ),
                ),
    {
        let r = process_file(target, file, path, content, update, context);
        if let Ok(report) = &r {
            self.warn_all(&report.warnings);
        }
        r
    }

    /// Hands the progress line of a file to the log.
    pub fn file_done(&self, report: &FileReport) {
        self.log.output(report.progress.as_str());
    }

    /// Writes the variables' values back into the text of the script.
    pub fn update_script_file(
        &self,
        content: String,
        root: &Node,
        context: &RunContext,
        update: bool,
    ) -> (r: Result<ScriptUpdate, ScriptError>)
        ensures
            match r {
                Ok(done) => rewritten(content@, root@, context@) matches Ok(m) && m == done.text@
                    && done.write == update,
                Err(e) => rewritten(content@, root@, context@) matches Err(m) && m == e@,
            },
    {
        update_script_file(content, root, context, update)
    }
}

} // verus!
