//! A run, step by step: it starts with the operation, takes the files of
//! the targets one by one in their order, and ends with the new text of the
//! script. Reading and writing files is left to the caller, between the
//! steps. Every error names the script file.

use crate::clock::{today, Today};
use crate::context::{RunContext, ValueOutcome};
use crate::error::{error_at, ErrorKind, ErrorModel, ScriptError};
use crate::node::{Node, NodeModel};
use crate::operation::{operation_outcome, runs, RunOutcome};
use crate::process::{
    effect_failure, effect_failure_of, file_outcome, processed, FileOutcomes, FileReport,
    Processed,
};
use crate::rewrite::{rewritten, ScriptUpdate};
use crate::setup::{clock_error, clock_message, context_outcome};
use crate::target::{
    files_in_order, places_fit, places_of, read_targets, target_models, targets_of, Action,
    FilePlace, Target, TargetFile, TargetFileModel, TargetModel,
};
use crate::text::text_of;
use crate::tool::{creates, StampVerLog, StampVerTool};
use crate::validate::{lemma_valid_document_reads, shaped, validation};
use crate::value::ValueModel;
use vstd::prelude::*;

verus! {

/// A run that has started: the operation has run, the files of the targets
/// are taken next.
pub struct Run {
    script_file: String,
    root: Node,
    context: RunContext,
    targets: Vec<Target>,
    places: Vec<FilePlace>,
    next: usize,
    update: bool,
}

/// What the caller has to bring for the next file: the file's path, from
/// its name, and its text where `read` is set.
#[derive(Debug, PartialEq)]
pub struct FileRequest {
    pub name: String,
    pub read: bool,
}

/// Where the start of a run ends: the variables after the operation and the
/// targets of the script.
pub ghost struct Started {
    pub vars: Map<Seq<char>, ValueModel>,
    pub targets: Seq<TargetModel>,
}

/// What the evaluator gave while a run started: the values of the
/// calculated variables, and what running the operation left.
pub ghost struct StartOutcomes {
    pub calc: Seq<ValueOutcome>,
    pub ran: RunOutcome,
}

/// The start of a run, where the evaluator gave `outcomes`: the document is
/// validated, the context is built, the operation is run, the targets are
/// read. The first step that fails stops the run.
pub open spec fn start_outcome(
    root: NodeModel,
    operation: Option<Seq<char>>,
    today: Today,
    local_tz: Option<Seq<char>>,
    outcomes: StartOutcomes,
) -> Result<Started, ErrorModel> {
    match validation(root) {
        Some(e) => Err(e),
        None => match context_outcome(root, today, local_tz, outcomes.calc) {
            Err(e) => Err(e),
            Ok(built) => {
                let ran = operation_outcome(root, operation, built.vars, outcomes.ran);
                match ran.failure {
                    Some(e) => Err(e),
                    None => match targets_of(root) {
                        Err(e) => Err(e),
                        Ok(targets) => Ok(Started { vars: ran.vars, targets }),
                    },
                }
            },
        },
    }
}

impl Run {
    /// The name of the script file, which every error of the run names.
    pub closed spec fn script_file(&self) -> Seq<char> {
        self.script_file@
    }

    /// The document of the script.
    pub closed spec fn root(&self) -> NodeModel {
        self.root@
    }

    /// The variables as they are now.
    pub closed spec fn vars(&self) -> Map<Seq<char>, ValueModel> {
        self.context@
    }

    /// The targets of the script.
    pub closed spec fn targets(&self) -> Seq<TargetModel> {
        target_models(self.targets@)
    }

    /// How many files the run has taken.
    pub closed spec fn position(&self) -> int {
        self.next as int
    }

    /// Whether the run applies its results.
    pub closed spec fn applies(&self) -> bool {
        self.update
    }

    /// The run is at one of its files or behind the last, and its context
    /// has the ternary function and no other.
    pub closed spec fn wf(&self) -> bool {
        &&& self.context.wf()
        &&& self.places@ == places_of(target_models(self.targets@))
        &&& places_fit(self.places@, target_models(self.targets@))
        &&& self.next <= self.places.len()
    }

    /// The files of all targets, in the order in which the run takes them.
    pub open spec fn files(&self) -> Seq<FilePlace> {
        places_of(self.targets())
    }

    /// Whether every file has been taken.
    pub open spec fn done(&self) -> bool {
        self.position() >= self.files().len()
    }

    /// The target of the file that is taken next.
    pub open spec fn next_target(&self) -> TargetModel {
        self.targets()[self.files()[self.position()].target as int]
    }

    /// The file that is taken next.
    pub open spec fn next_file(&self) -> TargetFileModel {
        self.next_target().files[self.files()[self.position()].file as int]
    }

    /// The target of the file that was taken last.
    pub open spec fn last_target(&self) -> TargetModel {
        self.targets()[self.files()[self.position() - 1].target as int]
    }

    /// The file that was taken last.
    pub open spec fn last_taken(&self) -> TargetFileModel {
        self.last_target().files[self.files()[self.position() - 1].file as int]
    }

    /// What the run does to the next file when it is found at `path` with
    /// the text `content`, where the evaluator gave `outcomes`.
    pub open spec fn next_outcome(
        &self,
        path: Seq<char>,
        content: Option<Seq<char>>,
        outcomes: FileOutcomes,
    ) -> Processed {
        file_outcome(
            self.next_target(),
            self.next_file(),
            path,
            content,
            self.applies(),
            self.vars(),
            outcomes,
        )
    }

    /// Whether `result` is the report for the next file, with the run then
    /// one file further at `position`, or the error, said to come from the
    /// script file, with the run where it was; and `vars` are the variables
    /// then.
    pub open spec fn reports(
        &self,
        result: Result<FileReport, ScriptError>,
        position: int,
        vars: Map<Seq<char>, ValueModel>,
        expected: Processed,
    ) -> bool {
        vars == expected.vars && match result {
            Ok(report) => expected.result matches Ok(m) && m == report@ && position
                == self.position() + 1,
            Err(e) => expected.result matches Err(m) && e@ == m.in_file(self.script_file())
                && position == self.position(),
        }
    }
}

/// Whether `r` is the run that `expected` describes, at its first file, or
/// its error, said to come from the script file.
pub open spec fn starts(
    r: Result<Run, ScriptError>,
    expected: Result<Started, ErrorModel>,
    script_file: Seq<char>,
    root: NodeModel,
    update: bool,
) -> bool {
    match r {
        Ok(run) => {
            &&& run.wf()
            &&& expected matches Ok(started)
            &&& run.vars() == started.vars
            &&& run.targets() == started.targets
            &&& run.position() == 0
            &&& run.applies() == update
            &&& run.root() == root
            &&& run.script_file() == script_file
        },
        Err(e) => expected matches Err(m) && e@ == m.in_file(script_file),
    }
}

impl Run {
    /// Starts a run of the script `root`, read from `script_file`, on the
    /// date `today`: validates the document, builds the context, runs the
    /// operation and reads the targets. `local_tz` is the name of the
    /// machine's time zone, where the caller could find it out.
    pub fn start_on<L: StampVerLog>(
        tool: &StampVerTool<L>,
        script_file: &str,
        root: Node,
        operation: Option<String>,
        update: bool,
        today: Today,
        local_tz: Option<String>,
    ) -> (r: Result<Run, ScriptError>)
        ensures
            exists|outcomes: StartOutcomes| #[trigger]
                starts(
                    r,
                    start_outcome(root@, text_of(operation), today, text_of(local_tz), outcomes),
                    script_file@,
                    root@,
                    update,
                ),
    {
        let ghost idle = RunOutcome { vars: Map::empty(), failure: None };
        if let Err(e) = tool.validate_script_file(&root) {
            let r = Err(e.in_file(script_file));
            let ghost outcomes = StartOutcomes { calc: Seq::empty(), ran: idle };
            assert(starts(
                r,
                start_outcome(root@, text_of(operation), today, text_of(local_tz), outcomes),
                script_file@,
                root@,
                update,
            ));
            return r;
        }
        let created = tool.create_run_context_on(&root, today, local_tz);
        let ghost calc = choose|calc: Seq<ValueOutcome>| #[trigger]
            creates(created, context_outcome(root@, today, text_of(local_tz), calc));
        let mut context = match created {
            Ok(context) => context,
            Err(e) => {
                let r = Err(e.in_file(script_file));
                let ghost outcomes = StartOutcomes { calc, ran: idle };
                assert(starts(
                    r,
                    start_outcome(root@, text_of(operation), today, text_of(local_tz), outcomes),
                    script_file@,
                    root@,
                    update,
                ));
                return r;
            },
        };
        let ghost built = context@;
        let operated = tool.run_operation(operation, &root, &mut context);
        let ghost ran = choose|ran: RunOutcome| #[trigger]
            runs(operated, context@, operation_outcome(root@, text_of(operation), built, ran));
        let ghost outcomes = StartOutcomes { calc, ran };
        if let Err(e) = operated {
            let r = Err(e.in_file(script_file));
            assert(starts(
                r,
                start_outcome(root@, text_of(operation), today, text_of(local_tz), outcomes),
                script_file@,
                root@,
                update,
            ));
            return r;
        }
        let targets = match read_targets(&root) {
            Ok(targets) => targets,
            Err(e) => {
                let r = Err(e.in_file(script_file));
                assert(starts(
                    r,
                    start_outcome(root@, text_of(operation), today, text_of(local_tz), outcomes),
                    script_file@,
                    root@,
                    update,
                ));
                return r;
            },
        };
        let places = files_in_order(&targets);
        let r = Ok(
            Run {
                script_file: String::from_str(script_file),
                root,
                context,
                targets,
                places,
                next: 0,
                update,
            },
        );
        assert(starts(
            r,
            start_outcome(root@, text_of(operation), today, text_of(local_tz), outcomes),
            script_file@,
            root@,
            update,
        ));
        r
    }

    /// Starts a run that takes place today, by the clock in UTC. A clock
    /// that gives no date is an error.
    pub fn start<L: StampVerLog>(
        tool: &StampVerTool<L>,
        script_file: &str,
        root: Node,
        operation: Option<String>,
        update: bool,
        local_tz: Option<String>,
    ) -> (r: Result<Run, ScriptError>)
        ensures
            clock_failed(r, script_file@) || exists|today: Today, outcomes: StartOutcomes|
                today.in_calendar() && #[trigger] starts(
                    r,
                    start_outcome(root@, text_of(operation), today, text_of(local_tz), outcomes),
                    script_file@,
                    root@,
                    update,
                ),
    {
        match today() {
            Some(date) => {
                let r = Run::start_on(tool, script_file, root, operation, update, date, local_tz);
                let ghost outcomes = choose|outcomes: StartOutcomes| #[trigger]
                    starts(
                        r,
                        start_outcome(
                            root@,
                            text_of(operation),
                            date,
                            text_of(local_tz),
                            outcomes,
                        ),
                        script_file@,
                        root@,
                        update,
                    );
                assert(date.in_calendar() && starts(
                    r,
                    start_outcome(root@, text_of(operation), date, text_of(local_tz), outcomes),
                    script_file@,
                    root@,
                    update,
                ));
                r
            },
            None => Err(clock_error().in_file(script_file)),
        }
    }

    /// What the caller has to bring for the next file; `None` when every
    /// file has been taken.
    pub fn next_request(&self) -> (r: Option<FileRequest>)
        requires
            self.wf(),
        ensures
            match r {
                None => self.done(),
                Some(request) => !self.done() && request.name@ == self.next_file().name
                    && request.read == (self.next_target().action is Update),
            },
    {
        if self.next < self.places.len() {
            let place = self.places[self.next];
            let target = &self.targets[place.target];
            let file = &target.files[place.file];
            let read = match &target.action {
                Action::Update(_) => true,
                _ => false,
            };
            Some(FileRequest { name: file.name.clone(), read })
        } else {
            None
        }
    }

    /// Whether every file has been taken.
    pub fn is_done(&self) -> (r: bool)
        requires
            self.wf(),
        ensures
            r == self.done(),
    {
        self.next >= self.places.len()
    }

    /// The target and the file that were taken last, for the error of an
    /// effect that fails; `None` before the first file.
    pub fn last_file(&self) -> (r: Option<(&Target, &TargetFile)>)
        requires
            self.wf(),
        ensures
            match r {
                None => self.position() == 0,
                Some((target, file)) => self.position() > 0 && self.position() <= self.files().len()
                    && target@ == self.targets()[self.files()[self.position() - 1].target as int]
                    && file@ == target@.files[self.files()[self.position() - 1].file as int],
            },
    {
        if self.next > 0 {
            let place = self.places[self.next - 1];
            let target = &self.targets[place.target];
            Some((target, &target.files[place.file]))
        } else {
            None
        }
    }

    /// Decides what the run does to the next file, found at `path`.
    /// `content` is the file's text where the request asked to read it,
    /// `None` when it could not be read. The caller carries out the effect
    /// and, when that is done, calls `file_done` of the tool. `None` when
    /// every file has been taken. An error leaves the run at the file that
    /// failed. Without `update` there is never anything to carry out.
    pub fn process_next<L: StampVerLog>(
        &mut self,
        tool: &StampVerTool<L>,
        path: &str,
        content: Option<String>,
    ) -> (r: Option<Result<FileReport, ScriptError>>)
        requires
            old(self).wf(),
        ensures
            final(self).wf(),
            final(self).targets() == old(self).targets(),
            final(self).root() == old(self).root(),
            final(self).script_file() == old(self).script_file(),
            final(self).applies() == old(self).applies(),
            !old(self).applies() ==> (r matches Some(Ok(report)) ==> report.effect is Nothing),
            match r {
                None => old(self).done() && final(self).vars() == old(self).vars()
                    && final(self).position() == old(self).position(),
                Some(result) => !old(self).done() && exists|outcomes: FileOutcomes| #[trigger]
                    old(self).reports(
                        result,
                        final(self).position(),
                        final(self).vars(),
                        old(self).next_outcome(path@, text_of(content), outcomes),
                    ),
            },
    {
        if self.next >= self.places.len() {
            return None;
        }
        let ghost before = *self;
        let place = self.places[self.next];
        let target = &self.targets[place.target];
        let file = &target.files[place.file];
        let processed_file = tool.process_target_file(
            target,
            file,
            path,
            content,
            self.update,
            &mut self.context,
        );
        let ghost outcomes = choose|outcomes: FileOutcomes| #[trigger]
            processed(
                processed_file,
                self.context@,
                file_outcome(
                    target@,
                    file@,
                    path@,
                    text_of(content),
                    before.applies(),
                    before.vars(),
                    outcomes,
                ),
            );
        let result = match processed_file {
            Ok(report) => {
                self.next = self.next + 1;
                Ok(report)
            },
            Err(e) => Err(e.in_file(self.script_file.as_str())),
        };
        assert(before.reports(
            result,
            self.position(),
            self.vars(),
            before.next_outcome(path@, text_of(content), outcomes),
        ));
        Some(result)
    }

    /// The error to report when the effect of the file that was taken last
    /// could not be carried out. `path` is the file's path; `source` is the
    /// path of the file to copy from, which only a copy looks at.
    pub fn effect_failed(&self, path: &str, source: &str) -> (r: ScriptError)
        requires
            self.wf(),
            self.position() > 0,
        ensures
            r@ == effect_failure_of(self.last_target(), self.last_taken(), path@, source@).in_file(
                self.script_file(),
            ),
    {
        let place = self.places[self.next - 1];
        let target = &self.targets[place.target];
        let file = &target.files[place.file];
        effect_failure(target, file, path, source).in_file(self.script_file.as_str())
    }

    /// Writes the variables' values back into the text of the script. The
    /// text is to be written to the script file exactly when the run applies
    /// its results.
    pub fn finish<L: StampVerLog>(&self, tool: &StampVerTool<L>, content: String) -> (r: Result<
        ScriptUpdate,
        ScriptError,
    >)
        requires
            self.wf(),
        ensures
            match r {
                Ok(done) => rewritten(content@, self.root(), self.vars()) matches Ok(m) && m
                    == done.text@ && done.write == self.applies(),
                Err(e) => rewritten(content@, self.root(), self.vars()) matches Err(m) && e@
                    == m.in_file(self.script_file()),
            },
    {
        match tool.update_script_file(content, &self.root, &self.context, self.update) {
            Ok(done) => Ok(done),
            Err(e) => Err(e.in_file(self.script_file.as_str())),
        }
    }
}

/// Whether `r` is the error for a clock that gives no date, said to come
/// from the script file.
pub open spec fn clock_failed(r: Result<Run, ScriptError>, script_file: Seq<char>) -> bool {
    r matches Err(e) && e@ == error_at(ErrorKind::Script, clock_message(), None).in_file(
        script_file,
    )
}

/// A run that has started has something to do: its script has at least one
/// target, and each target names at least one file.
pub proof fn lemma_started_run_has_files(
    root: NodeModel,
    operation: Option<Seq<char>>,
    today: Today,
    local_tz: Option<Seq<char>>,
    outcomes: StartOutcomes,
)
    requires
        start_outcome(root, operation, today, local_tz, outcomes) is Ok,
    ensures
        ({
            let targets = start_outcome(root, operation, today, local_tz, outcomes)->Ok_0.targets;
            targets.len() > 0 && forall|i: int|
                0 <= i < targets.len() ==> shaped(#[trigger] targets[i])
        }),
{
    lemma_valid_document_reads(root);
}

} // verus!
