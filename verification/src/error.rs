//! The error that every step of a run reports.

use crate::text::{decimal, push_decimal};
use vstd::prelude::*;

verus! {

/// A place in the script's text; lines and columns count from one.
#[derive(Clone, Copy, Debug, PartialEq, Eq, Structural)]
pub struct Location {
    pub line: usize,
    pub column: usize,
}

/// The kinds of error that stop a run.
#[derive(Clone, Copy, Debug, PartialEq, Eq, Structural)]
pub enum ErrorKind {
    /// The document has not the shape of a script.
    Structure,
    /// An expression could not be evaluated, or a variable would not take
    /// its value.
    Script,
    /// The run names no operation, or one that the script does not have.
    OperationNotFound,
    /// A search pattern is no regular expression.
    InvalidRegex,
    /// A file that is to be updated cannot be read.
    FileUnreadable,
    /// A file could not be copied.
    CopyFailed,
    /// A file could not be written.
    WriteFailed,
}

/// What went wrong, in which script file, and where in it.
#[derive(Clone, Debug, PartialEq)]
pub struct ScriptError {
    pub kind: ErrorKind,
    pub message: String,
    pub script_file: Option<String>,
    pub location: Option<Location>,
}

/// A `ScriptError` as plain values.
pub ghost struct ErrorModel {
    pub kind: ErrorKind,
    pub message: Seq<char>,
    pub script_file: Option<Seq<char>>,
    pub location: Option<Location>,
}

impl View for ScriptError {
    type V = ErrorModel;

    open spec fn view(&self) -> ErrorModel {
        ErrorModel {
            kind: self.kind,
            message: self.message@,
            script_file: match self.script_file {
                Some(file) => Some(file@),
                None => None,
            },
            location: self.location,
        }
    }
}

/// An error that names no script file.
pub open spec fn error_at(kind: ErrorKind, message: Seq<char>, location: Option<Location>)
    -> ErrorModel {
    ErrorModel { kind, message, script_file: None, location }
}

/// An error in the shape of the document.
pub open spec fn structure_error(message: Seq<char>, location: Option<Location>) -> ErrorModel {
    error_at(ErrorKind::Structure, message, location)
}

impl ErrorModel {
    /// The same error, said to come from `file`.
    pub open spec fn in_file(self, file: Seq<char>) -> ErrorModel {
        ErrorModel {
            kind: self.kind,
            message: self.message,
            script_file: Some(file),
            location: self.location,
        }
    }

    /// The line a user reads: `file (line,column): message` when both the
    /// file and the place are known, the bare message otherwise.
    pub open spec fn display(self) -> Seq<char> {
        match (self.script_file, self.location) {
            (Some(file), Some(place)) => file + seq![' ', '('] + decimal(place.line as nat)
                + seq![','] + decimal(place.column as nat) + seq![')', ':', ' '] + self.message,
            _ => self.message,
        }
    }
}

impl ScriptError {
    /// An error of the kind `Script`.
    pub fn new(message: String, script_file: Option<String>, location: Option<Location>) -> (r:
        ScriptError)
        ensures
            r.kind == ErrorKind::Script,
            r.message == message,
            r.script_file == script_file,
            r.location == location,
    {
        ScriptError { kind: ErrorKind::Script, message, script_file, location }
    }

    /// An error of the given kind with `message` at `location`, naming no
    /// file.
    pub fn at(kind: ErrorKind, message: String, location: Option<Location>) -> (r: ScriptError)
        ensures
            r@ == error_at(kind, message@, location),
    {
        ScriptError { kind, message, script_file: None, location }
    }

    /// An error in the shape of the document.
    pub fn structure(message: String, location: Option<Location>) -> (r: ScriptError)
        ensures
            r@ == structure_error(message@, location),
    {
        ScriptError { kind: ErrorKind::Structure, message, script_file: None, location }
    }

    /// The same error, said to come from `file`.
    pub fn in_file(self, file: &str) -> (r: ScriptError)
        ensures
            r@ == self@.in_file(file@),
    {
        ScriptError {
            kind: self.kind,
            message: self.message,
            script_file: Some(String::from_str(file)),
            location: self.location,
        }
    }

    /// The line a user reads for this error.
    pub fn to_text(&self) -> (r: String)
        ensures
            r@ == self@.display(),
    {
        match (&self.script_file, &self.location) {
            (Some(file), Some(place)) => {
                proof {
                    reveal_strlit(" (");
                    reveal_strlit(",");
                    reveal_strlit("): ");
                }
                let mut out = file.clone();
                out.append(" (");
                push_decimal(&mut out, place.line as u64);
                out.append(",");
                push_decimal(&mut out, place.column as u64);
                out.append("): ");
                out.append(self.message.as_str());
                out
            },
            _ => self.message.clone(),
        }
    }
}

} // verus!
