//! The evaluation context of a run: the variables that expressions read and
//! assign, kept and evaluated by the `evalexpr` crate.
//!
//! What an expression evaluates to is the evaluator's business and nothing
//! is said of it here: it computes with the machine's floating point
//! functions, whose last digits differ from machine to machine. What is
//! said is what holds whatever it gives: which variables there are, that a
//! variable keeps the kind of its value, and that an expression naming one
//! of the evaluator's shift functions is never handed to it.

use crate::value::{ScriptValue, ValueKind, ValueModel};
use evalexpr::{
    Context, ContextWithMutableFunctions, ContextWithMutableVariables, EvalexprError, Function,
};
use vstd::prelude::*;
use vstd::string::StringSliceAdditionalSpecFns;
use vstd::utf8::encode_utf8;

verus! {

#[verifier::external_type_specification]
#[verifier::external_body]
pub struct ExHashMapContext(evalexpr::HashMapContext);

#[verifier::external_type_specification]
#[verifier::external_body]
pub struct ExOutsideValue(evalexpr::Value);

/// The variables that a context holds, each with its value.
pub uninterp spec fn context_vars(context: evalexpr::HashMapContext) -> Map<Seq<char>, ValueModel>;

/// The names of the functions that were registered in a context.
pub uninterp spec fn context_functions(context: evalexpr::HashMapContext) -> Set<Seq<char>>;

/// The message with which a context refuses to give a variable that holds
/// a value of the kind `held` a value of another kind, `given`.
pub uninterp spec fn kind_mismatch_message(held: ValueKind, given: ValueModel) -> Seq<char>;

/// What evaluating an expression gave: its value, or the evaluator's
/// message.
pub type ValueOutcome = Result<ValueModel, Seq<char>>;

/// What evaluating an expression to a string gave: the string, or the
/// evaluator's message.
pub type TextOutcome = Result<Seq<char>, Seq<char>>;

/// A byte that continues a name: a letter or digit of ASCII, `_`, `:` or
/// `.`. None of them ends a name of the evaluator.
pub open spec fn word_byte(byte: u8) -> bool {
    ||| 48 <= byte <= 57
    ||| 65 <= byte <= 90
    ||| 97 <= byte <= 122
    ||| byte == 95
    ||| byte == 58
    ||| byte == 46
}

/// Whether the bytes at `at` spell `shl` or `shr` as a word of its own: no
/// byte that continues a name stands directly before or after.
pub open spec fn shift_at(bytes: Seq<u8>, at: int) -> bool {
    &&& bytes[at] == 115
    &&& bytes[at + 1] == 104
    &&& (bytes[at + 2] == 108 || bytes[at + 2] == 114)
    &&& (at == 0 || !word_byte(bytes[at - 1]))
    &&& (at + 3 == bytes.len() || !word_byte(bytes[at + 3]))
}

/// Whether `shl` or `shr` stands in the expression as a word of its own,
/// be it as a name or inside a string. The evaluator's functions of these
/// names stop the program on a shift count out of range, so no such
/// expression is handed to it.
pub open spec fn names_shift(expression: Seq<char>) -> bool {
    exists|at: int|
        0 <= at && at + 3 <= encode_utf8(expression).len() && #[trigger] shift_at(
            encode_utf8(expression),
            at,
        )
}

/// The message for an expression that is refused for its shift.
pub open spec fn shift_refusal() -> Seq<char> {
    "The functions 'shl' and 'shr' are not supported"@
}

/// The outcome of an expression: the refusal where it names a shift, else
/// what the evaluator gave.
pub open spec fn guarded<T>(expression: Seq<char>, outcome: Result<T, Seq<char>>) -> Result<
    T,
    Seq<char>,
> {
    if names_shift(expression) {
        Err(shift_refusal())
    } else {
        outcome
    }
}

/// Every variable of `before` is a variable of `after`, with a value of
/// the kind it had.
pub open spec fn kept(before: Map<Seq<char>, ValueModel>, after: Map<Seq<char>, ValueModel>)
    -> bool {
    forall|name: Seq<char>| #[trigger]
        before.dom().contains(name) ==> after.dom().contains(name) && after[name].kind()
            == before[name].kind()
}

/// Whether `tape` begins with `done`.
pub open spec fn extends<T>(tape: Seq<T>, done: Seq<T>) -> bool {
    &&& done.len() <= tape.len()
    &&& forall|i: int| 0 <= i < done.len() ==> tape[i] == done[i]
}

/// A value or a message as plain values.
pub open spec fn value_result(r: Result<ScriptValue, String>) -> ValueOutcome {
    match r {
        Ok(value) => Ok(value@),
        Err(message) => Err(message@),
    }
}

/// A string or a message as plain values.
pub open spec fn text_result(r: Result<String, String>) -> TextOutcome {
    match r {
        Ok(text) => Ok(text@),
        Err(message) => Err(message@),
    }
}

/// The name under which the ternary function is registered.
pub open spec fn ternary_name() -> Seq<char> {
    "if"@
}

/// What the ternary function makes of its argument.
pub enum Ternary {
    /// The branch that the condition selects.
    Chosen(ScriptValue),
    /// The argument is no tuple.
    NotTuple,
    /// The first item, which is no boolean.
    NotBoolean(ScriptValue),
    /// The tuple has no item at the place needed; it should have this many.
    Missing(usize),
}

/// A `Ternary` as plain values.
pub ghost enum TernaryModel {
    Chosen(ValueModel),
    NotTuple,
    NotBoolean(ValueModel),
    Missing(usize),
}

impl View for Ternary {
    type V = TernaryModel;

    open spec fn view(&self) -> TernaryModel {
        match self {
            Ternary::Chosen(value) => TernaryModel::Chosen(value@),
            Ternary::NotTuple => TernaryModel::NotTuple,
            Ternary::NotBoolean(value) => TernaryModel::NotBoolean(value@),
            Ternary::Missing(wanted) => TernaryModel::Missing(*wanted),
        }
    }
}

/// `if(condition, then, else)`: the second item of the argument when the
/// first is `true`, the third when it is `false`.
pub open spec fn ternary_of(argument: ValueModel) -> TernaryModel {
    match argument {
        ValueModel::Tuple(items) => {
            if items.len() == 0 {
                TernaryModel::Missing(3)
            } else {
                match items[0] {
                    ValueModel::Bool(condition) => {
                        let at: int = if condition {
                            1
                        } else {
                            2
                        };
                        if at < items.len() {
                            TernaryModel::Chosen(items[at])
                        } else {
                            TernaryModel::Missing(3)
                        }
                    },
                    other => TernaryModel::NotBoolean(other),
                }
            }
        },
        _ => TernaryModel::NotTuple,
    }
}

/// The ternary function of the expression language.
pub fn ternary(argument: ScriptValue) -> (r: Ternary)
    ensures
        r@ == ternary_of(argument@),
{
    match argument {
        ScriptValue::Tuple(items) => {
            let mut items = items;
            if items.len() == 0 {
                return Ternary::Missing(3);
            }
            let condition: bool = match &items[0] {
                ScriptValue::Bool(flag) => *flag,
                _ => {
                    let first = items.swap_remove(0);
                    return Ternary::NotBoolean(first);
                },
            };
            let at: usize = if condition {
                1
            } else {
                2
            };
            if at < items.len() {
                let chosen = items.swap_remove(at);
                Ternary::Chosen(chosen)
            } else {
                Ternary::Missing(3)
            }
        },
        _ => Ternary::NotTuple,
    }
}

/// The library's value for a `Value` of `evalexpr`: variant for variant,
/// a float by its bits (`to_bits`), a tuple item by item.
#[verifier::external_body]
fn value_from_outside(value: &evalexpr::Value) -> ScriptValue {
    match value {
        evalexpr::Value::String(text) => ScriptValue::Str(text.clone()),
        evalexpr::Value::Float(number) => ScriptValue::Float(number.to_bits()),
        evalexpr::Value::Int(number) => ScriptValue::Int(*number),
        evalexpr::Value::Boolean(flag) => ScriptValue::Bool(*flag),
        evalexpr::Value::Tuple(items) => ScriptValue::Tuple(
            items.iter().map(value_from_outside).collect(),
        ),
        evalexpr::Value::Empty => ScriptValue::Empty,
    }
}

/// The `Value` of `evalexpr` for a value of the library: variant for
/// variant, a float from its bits (`from_bits`), a tuple item by item.
#[verifier::external_body]
fn value_to_outside(value: &ScriptValue) -> evalexpr::Value {
    match value {
        ScriptValue::Str(text) => evalexpr::Value::String(text.clone()),
        ScriptValue::Float(bits) => evalexpr::Value::Float(evalexpr::FloatType::from_bits(*bits)),
        ScriptValue::Int(number) => evalexpr::Value::Int(*number),
        ScriptValue::Bool(flag) => evalexpr::Value::Boolean(*flag),
        ScriptValue::Tuple(items) => evalexpr::Value::Tuple(
            items.iter().map(value_to_outside).collect(),
        ),
        ScriptValue::Empty => evalexpr::Value::Empty,
    }
}

/// No variables.
pub open spec fn no_vars() -> Map<Seq<char>, ValueModel> {
    Map::empty()
}

/// No functions.
pub open spec fn no_functions() -> Set<Seq<char>> {
    Set::empty()
}

/// The message of a failed step, if it failed.
pub open spec fn failure_of(r: Result<(), String>) -> Option<Seq<char>> {
    match r {
        Ok(_) => None,
        Err(message) => Some(message@),
    }
}

/// Whether a context with variables `vars` takes `value` for `name`: the
/// name is new, or holds a value of the same kind.
pub open spec fn set_allowed(vars: Map<Seq<char>, ValueModel>, name: Seq<char>, value: ValueModel)
    -> bool {
    vars.dom().contains(name) ==> vars[name].kind() == value.kind()
}

/// `HashMapContext::new`: a context without variables or functions.
#[verifier::external_body]
fn context_new() -> (context: evalexpr::HashMapContext)
    ensures
        context_vars(context) == no_vars(),
        context_functions(context) == no_functions(),
{
    evalexpr::HashMapContext::new()
}

/// `ContextWithMutableVariables::set_value` of `HashMapContext`: gives the
/// variable the value, unless it holds one of another kind; then nothing
/// changes and the message of the evaluator's error comes back.
#[verifier::external_body]
fn context_set(context: &mut evalexpr::HashMapContext, name: &str, value: &ScriptValue) -> (r:
    Result<(), String>)
    ensures
        context_functions(*final(context)) == context_functions(*old(context)),
        match r {
            Ok(_) => set_allowed(context_vars(*old(context)), name@, value@) && context_vars(
                *final(context),
            ) == context_vars(*old(context)).insert(name@, value@),
            Err(message) => !set_allowed(context_vars(*old(context)), name@, value@)
                && message@ == kind_mismatch_message(
                context_vars(*old(context))[name@].kind(),
                value@,
            )
                && context_vars(*final(context)) == context_vars(*old(context)),
        },
{
    context.set_value(name.to_string(), value_to_outside(value)).map_err(|e| e.to_string())
}

/// `Context::get_value` of `HashMapContext`: the value of the variable, if
/// the context holds it.
#[verifier::external_body]
fn context_get(context: &evalexpr::HashMapContext, name: &str) -> (r: Option<ScriptValue>)
    ensures
        match r {
            Some(value) => context_vars(*context).dom().contains(name@) && context_vars(
                *context,
            )[name@] == value@,
            None => !context_vars(*context).dom().contains(name@),
        },
{
    context.get_value(name).map(value_from_outside)
}

/// `ContextWithMutableFunctions::set_function` of `HashMapContext`, with a
/// `Function` that hands its argument to `ternary` and its answer back:
/// registers the ternary function under `name` and leaves the variables.
#[verifier::external_body]
fn context_add_ternary(context: &mut evalexpr::HashMapContext, name: &str)
    ensures
        context_vars(*final(context)) == context_vars(*old(context)),
        context_functions(*final(context)) == context_functions(*old(context)).insert(name@),
{
    let function = Function::new(|argument| match ternary(value_from_outside(argument)) {
        Ternary::Chosen(value) => Ok(value_to_outside(&value)),
        Ternary::NotTuple => Err(EvalexprError::expected_tuple(argument.clone())),
        Ternary::NotBoolean(first) => {
            Err(EvalexprError::expected_boolean(value_to_outside(&first)))
        },
        Ternary::Missing(wanted) => {
            Err(EvalexprError::expected_fixed_len_tuple(wanted, argument.clone()))
        },
    });
    let _ = context.set_function(name.to_string(), function);
}

/// `evalexpr::eval_with_context`: the value of the expression, or the
/// message of the evaluator's error. The context is not changed. Nothing is
/// said of the value: the evaluator computes with the machine's floating
/// point functions. Its functions `shl` and `shr` stop the program on a
/// shift count out of range, so an expression in which either stands as a
/// word of its own is left out; a name of the evaluator ends only at
/// white space, at one of `+-*/%^(),;=!<>&|` or at a string.
#[verifier::external_body]
fn context_eval(expression: &str, context: &evalexpr::HashMapContext) -> (r: Result<
    ScriptValue,
    String,
>)
    requires
        context_functions(*context) == set![ternary_name()],
        !names_shift(expression@),
{
    match evalexpr::eval_with_context(expression, context) {
        Ok(value) => Ok(value_from_outside(&value)),
        Err(e) => Err(e.to_string()),
    }
}

/// `evalexpr::eval_string_with_context`: the string that is the value of
/// the expression, or the message of the evaluator's error. The context is
/// not changed. Nothing is said of the string. An expression in which
/// `shl` or `shr` stands as a word is left out, as for `context_eval`.
#[verifier::external_body]
fn context_eval_text(expression: &str, context: &evalexpr::HashMapContext) -> (r: Result<
    String,
    String,
>)
    requires
        context_functions(*context) == set![ternary_name()],
        !names_shift(expression@),
{
    evalexpr::eval_string_with_context(expression, context).map_err(|e| e.to_string())
}

/// `evalexpr::eval_with_context_mut`: runs the expression and its
/// assignments on the context; the value is dropped, the message of the
/// evaluator's error comes back. Whatever the expression does, it changes
/// the context through `set_value` alone: no function is added or removed,
/// no variable is removed, and a variable keeps the kind of its value. An
/// expression in which `shl` or `shr` stands as a word is left out, as for
/// `context_eval`.
#[verifier::external_body]
fn context_run(expression: &str, context: &mut evalexpr::HashMapContext) -> (r: Result<(), String>)
    requires
        context_functions(*old(context)) == set![ternary_name()],
        !names_shift(expression@),
    ensures
        context_functions(*final(context)) == context_functions(*old(context)),
        kept(context_vars(*old(context)), context_vars(*final(context))),
{
    match evalexpr::eval_with_context_mut(expression, context) {
        Ok(_) => Ok(()),
        Err(e) => Err(e.to_string()),
    }
}

fn is_word_byte(byte: u8) -> (r: bool)
    ensures
        r == word_byte(byte),
{
    (48 <= byte && byte <= 57) || (65 <= byte && byte <= 90) || (97 <= byte && byte <= 122) || byte
        == 95 || byte == 58 || byte == 46
}

/// Whether `shl` or `shr` stands in the expression as a word of its own.
#[verifier::loop_isolation(false)]
pub fn mentions_shift(expression: &str) -> (r: bool)
    ensures
        r == names_shift(expression@),
{
    let bytes = expression.as_bytes();
    if bytes.len() < 3 {
        return false;
    }
    let last: usize = bytes.len() - 3;
    let mut at: usize = 0;
    while at <= last
        invariant
            last == bytes.len() - 3,
            forall|i: int| 0 <= i < at ==> !shift_at(bytes@, i),
        decreases last + 1 - at,
    {
        if bytes[at] == 115 && bytes[at + 1] == 104 && (bytes[at + 2] == 108 || bytes[at + 2]
            == 114) && (at == 0 || !is_word_byte(bytes[at - 1])) && (at == last || !is_word_byte(
            bytes[at + 3],
        )) {
            assert(shift_at(bytes@, at as int));
            return true;
        }
        at += 1;
    }
    false
}

fn refusal() -> (r: String)
    ensures
        r@ == shift_refusal(),
{
    String::from_str("The functions 'shl' and 'shr' are not supported")
}

/// The variables of a run. The ternary function `if` is registered in it and
/// no other.
pub struct RunContext {
    inner: evalexpr::HashMapContext,
}

impl View for RunContext {
    type V = Map<Seq<char>, ValueModel>;

    closed spec fn view(&self) -> Map<Seq<char>, ValueModel> {
        context_vars(self.inner)
    }
}

impl RunContext {
    /// The names of the registered functions.
    pub closed spec fn functions(&self) -> Set<Seq<char>> {
        context_functions(self.inner)
    }

    /// Exactly the ternary function is registered.
    pub open spec fn wf(&self) -> bool {
        self.functions() == set![ternary_name()]
    }

    /// A context without variables.
    pub fn new() -> (r: RunContext)
        ensures
            r.wf(),
            r@ == no_vars(),
    {
        let mut inner = context_new();
        context_add_ternary(&mut inner, "if");
        RunContext { inner }
    }

    /// Gives the variable `name` the value `value`. A variable keeps its
    /// kind: a value of another kind is refused with the evaluator's message
    /// and nothing changes.
    pub fn set_value(&mut self, name: &str, value: &ScriptValue) -> (r: Result<(), String>)
        ensures
            final(self).functions() == old(self).functions(),
            match r {
                Ok(_) => set_allowed(old(self)@, name@, value@) && final(self)@ == old(
                    self,
                )@.insert(name@, value@),
                Err(message) => !set_allowed(old(self)@, name@, value@)
                    && message@ == kind_mismatch_message(old(self)@[name@].kind(), value@)
                    && final(self)@ == old(self)@,
            },
    {
        context_set(&mut self.inner, name, value)
    }

    /// The value of the variable `name`, if there is one.
    pub fn get_value(&self, name: &str) -> (r: Option<ScriptValue>)
        ensures
            match r {
                Some(value) => self@.dom().contains(name@) && self@[name@] == value@,
                None => !self@.dom().contains(name@),
            },
    {
        context_get(&self.inner, name)
    }

    /// The value of `expression`, or the evaluator's message. An
    /// expression that names a shift is refused.
    pub fn eval(&self, expression: &str) -> (r: Result<ScriptValue, String>)
        requires
            self.wf(),
        ensures
            value_result(r) == guarded(expression@, value_result(r)),
    {
        if mentions_shift(expression) {
            Err(refusal())
        } else {
            context_eval(expression, &self.inner)
        }
    }

    /// The string that `expression` evaluates to, or the evaluator's
    /// message. An expression that names a shift is refused.
    pub fn eval_text(&self, expression: &str) -> (r: Result<String, String>)
        requires
            self.wf(),
        ensures
            text_result(r) == guarded(expression@, text_result(r)),
    {
        if mentions_shift(expression) {
            Err(refusal())
        } else {
            context_eval_text(expression, &self.inner)
        }
    }

    /// Runs `expression` with its assignments on the variables. Every
    /// variable stays, with a value of its kind; assignments made before a
    /// failure stay too. An expression that names a shift is refused and
    /// changes nothing.
    pub fn run(&mut self, expression: &str) -> (r: Result<(), String>)
        requires
            old(self).wf(),
        ensures
            final(self).wf(),
            kept(old(self)@, final(self)@),
            names_shift(expression@) ==> final(self)@ == old(self)@ && failure_of(r) == Some(
                shift_refusal(),
            ),
    {
        if mentions_shift(expression) {
            Err(refusal())
        } else {
            context_run(expression, &mut self.inner)
        }
    }
}

} // verus!
