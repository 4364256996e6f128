//! Version stamping: a script document names variables, derived values,
//! operations and targets; one operation is run against the variables, the
//! targets are brought up to date, and the new values are written back into
//! the script's text.
//!
//! A run goes through these steps, each with its module:
//! `parse` reads the script into a tree of `node`s, `validate` checks its
//! shape, `setup` builds the `context` of variables, `operation` runs the
//! one operation, `target` reads the targets and `process` decides what is
//! done to each of their files, and `rewrite` writes the variables back
//! into the script's text. `run` puts the steps in their order and `tool`
//! reports them to a log. Files are read and written by the caller.
//!
//! Expressions are evaluated by `evalexpr`, patterns are searched by
//! `regex`, the script is parsed by `json5_nodes` and the date comes from
//! `chrono`; what is taken on trust of each is stated where it is called.
//! What an expression evaluates to is left to the evaluator: the contracts
//! say what a step does with whatever the evaluator gave. An expression
//! in which `shl` or `shr` stands as a word is refused, because the
//! evaluator's shift functions stop the program on a shift count out of
//! range.

pub mod clock;
pub mod context;
pub mod error;
pub mod node;
pub mod operation;
pub mod parse;
pub mod pattern;
pub mod process;
pub mod rewrite;
pub mod run;
pub mod setup;
pub mod target;
pub mod text;
pub mod tool;
pub mod validate;
pub mod value;

pub use crate::context::RunContext;
pub use crate::error::{ErrorKind, Location, ScriptError};
pub use crate::node::Node;
pub use crate::run::Run;
pub use crate::tool::{StampVerLog, StampVerLogger, StampVerTool};
pub use crate::value::ScriptValue;
