//! The shape that a script document must have before anything is evaluated.
//! The checks run in a fixed order and the first violation is the one
//! reported, with the place of the node that breaks the rule.

use crate::error::{structure_error, ErrorModel, ScriptError};
use crate::node::{Node, NodeModel};
use crate::target::{
    no_action_message, replacement_of, replacements_from, target_of, targets_from, targets_of,
    ActionModel, ReplacementModel, TargetModel,
};
use crate::text::{decimal, push_decimal};
use vstd::prelude::*;

verus! {

/// The first of two violations, in the order of the checks.
pub open spec fn first_of(first: Option<ErrorModel>, second: Option<ErrorModel>) -> Option<
    ErrorModel,
> {
    if first is Some {
        first
    } else {
        second
    }
}

/// The three objects whose entries are checked one by one.
pub ghost enum Section {
    Vars,
    CalcVars,
    Operations,
}

/// A message about the entry `key`: `before`, the key, `after`.
pub open spec fn about(before: Seq<char>, key: Seq<char>, after: Seq<char>) -> Seq<char> {
    before + key + after
}

/// A scalar: what a variable may be.
pub open spec fn is_scalar(node: NodeModel) -> bool {
    node is String || node is Integer || node is Float || node is Bool
}

/// What is wrong with one entry of a section, if anything. A variable is a
/// scalar, and `tz` a string; a calculated variable is a string and not the
/// name of a variable; an operation is a string.
pub open spec fn entry_violation(section: Section, key: Seq<char>, node: NodeModel, vars: NodeModel)
    -> Option<ErrorModel> {
    match section {
        Section::Vars => {
            if key == "tz"@ && !(node is String) {
                Some(structure_error("'tz' node must be a string"@, node.location()))
            } else if !is_scalar(node) {
                Some(
                    structure_error(
                        "'vars' entry must be a string, integer, float or boolean"@,
                        node.location(),
                    ),
                )
            } else {
                None
            }
        },
        Section::CalcVars => {
            if !(node is String) {
                Some(
                    structure_error(
                        about("'calcVars' entry '"@, key, "' must be a string"@),
                        node.location(),
                    ),
                )
            } else if vars.has(key) {
                Some(
                    structure_error(about("Duplicate identifier '"@, key, "'"@), node.location()),
                )
            } else {
                None
            }
        },
        Section::Operations => {
            if !(node is String) {
                Some(
                    structure_error(
                        about("Operation '"@, key, "' must be a string"@),
                        node.location(),
                    ),
                )
            } else {
                None
            }
        },
    }
}

/// The violation of the first entry, from `from` on, that has one.
pub open spec fn first_entry_violation(
    section: Section,
    entries: Seq<(Seq<char>, NodeModel)>,
    from: int,
    vars: NodeModel,
) -> Option<ErrorModel>
    decreases entries.len() - from,
{
    if from < 0 || from >= entries.len() {
        None
    } else {
        first_of(
            entry_violation(section, entries[from].0, entries[from].1, vars),
            first_entry_violation(section, entries, from + 1, vars),
        )
    }
}

/// What is wrong with the entries of the object `node`.
pub open spec fn section_violation(section: Section, node: NodeModel, vars: NodeModel) -> Option<
    ErrorModel,
> {
    match node.object_entries() {
        Err(e) => Some(e),
        Ok(entries) => first_entry_violation(section, entries, 0, vars),
    }
}

/// A message about item number `index`: `before`, the number, `after`.
pub open spec fn about_item(before: Seq<char>, index: int, after: Seq<char>) -> Seq<char> {
    before + decimal(index as nat) + after
}

/// What is wrong with item `index` of `files`, if anything: it must be a
/// string.
pub open spec fn file_violation(index: int, node: NodeModel) -> Option<ErrorModel> {
    if !(node is String) {
        Some(
            structure_error(
                about_item("'files' entry '"@, index, "' must be a string"@),
                node.location(),
            ),
        )
    } else {
        None
    }
}

/// The violation of the first file, from `from` on, that has one.
pub open spec fn first_file_violation(items: Seq<NodeModel>, from: int) -> Option<ErrorModel>
    decreases items.len() - from,
{
    if from < 0 || from >= items.len() {
        None
    } else {
        first_of(file_violation(from, items[from]), first_file_violation(items, from + 1))
    }
}

/// What is wrong with item `index` of `updates`, if anything: it must be
/// an object with the strings `search` and `replace`.
pub open spec fn update_violation(index: int, node: NodeModel) -> Option<ErrorModel> {
    if !(node is Object) {
        Some(
            structure_error(
                about_item("'updates' entry '"@, index, "' must be an object"@),
                node.location(),
            ),
        )
    } else {
        match node.entry("search"@) {
            Err(e) => Some(e),
            Ok(search) => match node.entry("replace"@) {
                Err(e) => Some(e),
                Ok(replace) => {
                    if !(search is String) {
                        Some(structure_error("'search' entry must be string"@, search.location()))
                    } else if !(replace is String) {
                        Some(structure_error("'replace' entry must be string"@, replace.location()))
                    } else {
                        None
                    }
                },
            },
        }
    }
}

/// The violation of the first update, from `from` on, that has one.
pub open spec fn first_update_violation(items: Seq<NodeModel>, from: int) -> Option<ErrorModel>
    decreases items.len() - from,
{
    if from < 0 || from >= items.len() {
        None
    } else {
        first_of(update_violation(from, items[from]), first_update_violation(items, from + 1))
    }
}

/// What is wrong with the `updates` of a target: it must be an array, not
/// empty, of well-formed updates.
pub open spec fn updates_violation(updates: NodeModel) -> Option<ErrorModel> {
    match updates.array_items() {
        Err(e) => Some(e),
        Ok(items) => {
            if items.len() == 0 {
                Some(structure_error("'updates' must not be empty"@, updates.location()))
            } else {
                first_update_violation(items, 0)
            }
        },
    }
}

/// How many of the three actions a target names.
pub open spec fn action_count(target: NodeModel) -> int {
    (if target.has("updates"@) {
        1int
    } else {
        0int
    }) + (if target.has("write"@) {
        1int
    } else {
        0int
    }) + (if target.has("copyFrom"@) {
        1int
    } else {
        0int
    })
}

/// What is wrong with the action of a target: it must have exactly one of
/// `updates`, `write` and `copyFrom`, of the right kind.
pub open spec fn action_violation(target: NodeModel) -> Option<ErrorModel> {
    if action_count(target) > 1 {
        Some(
            structure_error(
                "Target must contain only one of 'updates', 'write' or 'copyFrom'"@,
                target.location(),
            ),
        )
    } else if target.has("updates"@) {
        updates_violation(target.entry("updates"@)->Ok_0)
    } else if target.has("write"@) {
        let node = target.entry("write"@)->Ok_0;
        if !(node is String) {
            Some(structure_error("'write' entry must be string"@, node.location()))
        } else {
            None
        }
    } else if target.has("copyFrom"@) {
        let node = target.entry("copyFrom"@)->Ok_0;
        if !(node is String) {
            Some(structure_error("'copyFrom' entry must be string"@, node.location()))
        } else {
            None
        }
    } else {
        Some(structure_error(no_action_message(), target.location()))
    }
}

/// What is wrong with the `files` of a target: it must be an array, not
/// empty, of strings.
pub open spec fn files_violation(files: NodeModel) -> Option<ErrorModel> {
    match files.array_items() {
        Err(e) => Some(e),
        Ok(items) => {
            if items.len() == 0 {
                Some(structure_error("'files' must not be empty"@, files.location()))
            } else {
                first_file_violation(items, 0)
            }
        },
    }
}

/// What is wrong with item `index` of `targets`, if anything: it must be an
/// object with a string `description`, with `files` and with one action.
pub open spec fn target_violation(index: int, node: NodeModel) -> Option<ErrorModel> {
    if !(node is Object) {
        Some(
            structure_error(
                about_item("'targets' entry '"@, index, "' must be an object"@),
                node.location(),
            ),
        )
    } else {
        match node.entry("description"@) {
            Err(e) => Some(e),
            Ok(description) => {
                if !(description is String) {
                    Some(
                        structure_error(
                            "'description' entry must be a string"@,
                            description.location(),
                        ),
                    )
                } else {
                    match node.entry("files"@) {
                        Err(e) => Some(e),
                        Ok(files) => first_of(files_violation(files), action_violation(node)),
                    }
                }
            },
        }
    }
}

/// The violation of the first target, from `from` on, that has one.
pub open spec fn first_target_violation(items: Seq<NodeModel>, from: int) -> Option<ErrorModel>
    decreases items.len() - from,
{
    if from < 0 || from >= items.len() {
        None
    } else {
        first_of(target_violation(from, items[from]), first_target_violation(items, from + 1))
    }
}

/// What is wrong with `targets`: it must be an array, not empty, of
/// well-formed targets.
pub open spec fn targets_violation(targets: NodeModel) -> Option<ErrorModel> {
    match targets.array_items() {
        Err(e) => Some(e),
        Ok(items) => {
            if items.len() == 0 {
                Some(structure_error("'targets' must not be empty"@, targets.location()))
            } else {
                first_target_violation(items, 0)
            }
        },
    }
}

/// What is wrong with the entry `name` of the root: it must be there, and
/// then `check` says what is wrong with it.
pub open spec fn required(root: NodeModel, name: Seq<char>, check: spec_fn(NodeModel) -> Option<
    ErrorModel,
>) -> Option<ErrorModel> {
    match root.entry(name) {
        Err(e) => Some(e),
        Ok(node) => check(node),
    }
}

/// The first violation of the document's shape, or `None` for a document
/// that can be run. The order is: the root, `vars`, `calcVars` where it is
/// there, `operations`, `targets`; inside each, the entries or items in
/// written order.
pub open spec fn validation(root: NodeModel) -> Option<ErrorModel> {
    if !(root is Object) {
        Some(structure_error("Node <root> is not an object"@, root.location()))
    } else {
        let vars = root.entry("vars"@);
        first_of(
            required(root, "vars"@, |node: NodeModel| section_violation(Section::Vars, node, node)),
            first_of(
                if root.has("calcVars"@) {
                    section_violation(
                        Section::CalcVars,
                        root.entry("calcVars"@)->Ok_0,
                        vars->Ok_0,
                    )
                } else {
                    None
                },
                first_of(
                    required(
                        root,
                        "operations"@,
                        |node: NodeModel| section_violation(Section::Operations, node, node),
                    ),
                    required(root, "targets"@, |node: NodeModel| targets_violation(node)),
                ),
            ),
        )
    }
}

/// Whether `r` reports exactly the violation `expected`.
pub open spec fn reports(r: Result<(), ScriptError>, expected: Option<ErrorModel>) -> bool {
    match r {
        Ok(_) => expected is None,
        Err(e) => expected == Some(e@),
    }
}

fn message_about(before: &str, key: &str, after: &str) -> (r: String)
    ensures
        r@ == about(before@, key@, after@),
{
    let mut message = String::from_str(before);
    message.append(key);
    message.append(after);
    message
}

fn message_about_item(before: &str, index: usize, after: &str) -> (r: String)
    ensures
        r@ == about_item(before@, index as int, after@),
{
    let mut message = String::from_str(before);
    push_decimal(&mut message, index as u64);
    message.append(after);
    message
}

fn fail(message: &str, node: &Node) -> (r: Result<(), ScriptError>)
    ensures
        r matches Err(e) && e@ == structure_error(message@, node@.location()),
{
    Err(ScriptError::structure(String::from_str(message), node.get_location()))
}

fn is_scalar_node(node: &Node) -> (r: bool)
    ensures
        r == is_scalar(node@),
{
    node.is_string() || node.is_integer() || node.is_float() || node.is_bool()
}

fn check_var(key: &String, node: &Node) -> (r: Result<(), ScriptError>)
    ensures
        forall|vars: NodeModel| reports(
            r,
            #[trigger] entry_violation(Section::Vars, key@, node@, vars),
        ),
{
    let tz = String::from_str("tz");
    if *key == tz && !node.is_string() {
        fail("'tz' node must be a string", node)
    } else if !is_scalar_node(node) {
        fail("'vars' entry must be a string, integer, float or boolean", node)
    } else {
        Ok(())
    }
}

#[verifier::loop_isolation(false)]
fn check_vars(vars: &Node) -> (r: Result<(), ScriptError>)
    ensures
        reports(r, section_violation(Section::Vars, vars@, vars@)),
{
    let entries = vars.get_object_entries()?;
    let mut i: usize = 0;
    while i < entries.len()
        invariant
            i <= entries.len(),
            first_entry_violation(Section::Vars, vars@.entries(), 0, vars@)
                == first_entry_violation(Section::Vars, vars@.entries(), i as int, vars@),
        decreases entries.len() - i,
    {
        check_var(&entries[i].0, &entries[i].1)?;
        i += 1;
    }
    Ok(())
}

#[verifier::loop_isolation(false)]
fn check_calc_vars(calc_vars: &Node, vars: &Node) -> (r: Result<(), ScriptError>)
    requires
        vars@ is Object,
    ensures
        reports(r, section_violation(Section::CalcVars, calc_vars@, vars@)),
{
    let entries = calc_vars.get_object_entries()?;
    let mut i: usize = 0;
    while i < entries.len()
        invariant
            i <= entries.len(),
            first_entry_violation(Section::CalcVars, calc_vars@.entries(), 0, vars@)
                == first_entry_violation(Section::CalcVars, calc_vars@.entries(), i as int, vars@),
        decreases entries.len() - i,
    {
        let key = entries[i].0.as_str();
        let node = &entries[i].1;
        if !node.is_string() {
            return Err(
                ScriptError::structure(
                    message_about("'calcVars' entry '", key, "' must be a string"),
                    node.get_location(),
                ),
            );
        }
        if vars.get_object_entry(key).is_ok() {
            return Err(
                ScriptError::structure(
                    message_about("Duplicate identifier '", key, "'"),
                    node.get_location(),
                ),
            );
        }
        i += 1;
    }
    Ok(())
}

#[verifier::loop_isolation(false)]
fn check_operations(operations: &Node) -> (r: Result<(), ScriptError>)
    ensures
        reports(r, section_violation(Section::Operations, operations@, operations@)),
{
    let entries = operations.get_object_entries()?;
    let mut i: usize = 0;
    while i < entries.len()
        invariant
            i <= entries.len(),
            first_entry_violation(Section::Operations, operations@.entries(), 0, operations@)
                == first_entry_violation(
                Section::Operations,
                operations@.entries(),
                i as int,
                operations@,
            ),
        decreases entries.len() - i,
    {
        let node = &entries[i].1;
        if !node.is_string() {
            return Err(
                ScriptError::structure(
                    message_about("Operation '", entries[i].0.as_str(), "' must be a string"),
                    node.get_location(),
                ),
            );
        }
        i += 1;
    }
    Ok(())
}

#[verifier::loop_isolation(false)]
fn check_files(files: &Node) -> (r: Result<(), ScriptError>)
    ensures
        reports(r, files_violation(files@)),
{
    let items = files.get_array_items()?;
    if items.len() == 0 {
        return fail("'files' must not be empty", files);
    }
    let mut i: usize = 0;
    while i < items.len()
        invariant
            i <= items.len(),
            first_file_violation(files@.items(), 0) == first_file_violation(
                files@.items(),
                i as int,
            ),
        decreases items.len() - i,
    {
        if !items[i].is_string() {
            return Err(
                ScriptError::structure(
                    message_about_item("'files' entry '", i, "' must be a string"),
                    items[i].get_location(),
                ),
            );
        }
        i += 1;
    }
    Ok(())
}

fn check_update(index: usize, node: &Node) -> (r: Result<(), ScriptError>)
    ensures
        reports(r, update_violation(index as int, node@)),
{
    if !node.is_object() {
        return Err(
            ScriptError::structure(
                message_about_item("'updates' entry '", index, "' must be an object"),
                node.get_location(),
            ),
        );
    }
    let search = node.get_object_entry("search")?;
    let replace = node.get_object_entry("replace")?;
    if !search.is_string() {
        fail("'search' entry must be string", search)
    } else if !replace.is_string() {
        fail("'replace' entry must be string", replace)
    } else {
        Ok(())
    }
}

#[verifier::loop_isolation(false)]
fn check_updates(updates: &Node) -> (r: Result<(), ScriptError>)
    ensures
        reports(r, updates_violation(updates@)),
{
    let items = updates.get_array_items()?;
    if items.len() == 0 {
        return fail("'updates' must not be empty", updates);
    }
    let mut i: usize = 0;
    while i < items.len()
        invariant
            i <= items.len(),
            first_update_violation(updates@.items(), 0) == first_update_violation(
                updates@.items(),
                i as int,
            ),
        decreases items.len() - i,
    {
        check_update(i, &items[i])?;
        i += 1;
    }
    Ok(())
}

fn check_action(target: &Node) -> (r: Result<(), ScriptError>)
    requires
        target@ is Object,
    ensures
        reports(r, action_violation(target@)),
{
    let updates = target.get_object_entry("updates");
    let write = target.get_object_entry("write");
    let copy_from = target.get_object_entry("copyFrom");
    let mut count: usize = 0;
    if updates.is_ok() {
        count += 1;
    }
    if write.is_ok() {
        count += 1;
    }
    if copy_from.is_ok() {
        count += 1;
    }
    if count > 1 {
        return fail("Target must contain only one of 'updates', 'write' or 'copyFrom'", target);
    }
    if let Ok(node) = updates {
        check_updates(node)
    } else if let Ok(node) = write {
        if !node.is_string() {
            fail("'write' entry must be string", node)
        } else {
            Ok(())
        }
    } else if let Ok(node) = copy_from {
        if !node.is_string() {
            fail("'copyFrom' entry must be string", node)
        } else {
            Ok(())
        }
    } else {
        fail("Target must contain 'updates', 'write' or 'copyFrom'", target)
    }
}

fn check_target(index: usize, node: &Node) -> (r: Result<(), ScriptError>)
    ensures
        reports(r, target_violation(index as int, node@)),
{
    if !node.is_object() {
        return Err(
            ScriptError::structure(
                message_about_item("'targets' entry '", index, "' must be an object"),
                node.get_location(),
            ),
        );
    }
    let description = node.get_object_entry("description")?;
    if !description.is_string() {
        return fail("'description' entry must be a string", description);
    }
    let files = node.get_object_entry("files")?;
    check_files(files)?;
    check_action(node)
}

#[verifier::loop_isolation(false)]
fn check_targets(targets: &Node) -> (r: Result<(), ScriptError>)
    ensures
        reports(r, targets_violation(targets@)),
{
    let items = targets.get_array_items()?;
    if items.len() == 0 {
        return fail("'targets' must not be empty", targets);
    }
    let mut i: usize = 0;
    while i < items.len()
        invariant
            i <= items.len(),
            first_target_violation(targets@.items(), 0) == first_target_violation(
                targets@.items(),
                i as int,
            ),
        decreases items.len() - i,
    {
        check_target(i, &items[i])?;
        i += 1;
    }
    Ok(())
}

/// Checks the shape of the document and reports the first violation, in the
/// order of `validation`. Nothing is changed or evaluated.
pub fn validate_script_file(root: &Node) -> (r: Result<(), ScriptError>)
    ensures
        reports(r, validation(root@)),
{
    if !root.is_object() {
        return fail("Node <root> is not an object", root);
    }
    let vars = root.get_object_entry("vars")?;
    check_vars(vars)?;
    if let Ok(calc_vars) = root.get_object_entry("calcVars") {
        check_calc_vars(calc_vars, vars)?;
    }
    let operations = root.get_object_entry("operations")?;
    check_operations(operations)?;
    let targets = root.get_object_entry("targets")?;
    check_targets(targets)
}

/// A target as a valid document describes it: it names a file, and where it
/// updates, it has a replacement to make.
pub open spec fn shaped(target: TargetModel) -> bool {
    &&& target.files.len() > 0
    &&& target.action matches ActionModel::Update(replacements) ==> replacements.len() > 0
}

proof fn lemma_updates_read(items: Seq<NodeModel>, from: int, done: Seq<ReplacementModel>)
    requires
        0 <= from <= items.len(),
        first_update_violation(items, from) is None,
    ensures
        replacements_from(items, from, done) matches Ok(all) && all.len() == done.len()
            + items.len() - from,
    decreases items.len() - from,
{
    if from < items.len() {
        lemma_updates_read(items, from + 1, done.push(replacement_of(items[from])->Ok_0));
    }
}

proof fn lemma_target_read(index: int, node: NodeModel)
    requires
        target_violation(index, node) is None,
    ensures
        target_of(node) matches Ok(target) && shaped(target),
{
    let files = node.entry("files"@)->Ok_0;
    if node.has("updates"@) {
        let updates = node.entry("updates"@)->Ok_0;
        lemma_updates_read(updates.items(), 0, Seq::empty());
    }
}

proof fn lemma_targets_read(items: Seq<NodeModel>, from: int, done: Seq<TargetModel>)
    requires
        0 <= from <= items.len(),
        first_target_violation(items, from) is None,
        forall|i: int| 0 <= i < done.len() ==> shaped(#[trigger] done[i]),
    ensures
        targets_from(items, from, done) matches Ok(all) && all.len() == done.len() + items.len()
            - from && forall|i: int| 0 <= i < all.len() ==> shaped(#[trigger] all[i]),
    decreases items.len() - from,
{
    if from < items.len() {
        lemma_target_read(from, items[from]);
        lemma_targets_read(items, from + 1, done.push(target_of(items[from])->Ok_0));
    }
}

/// A document that passes validation can be run: it has its variables and
/// its operations as objects, and its targets can be read; there is at least
/// one, each names at least one file, and each that updates has at least one
/// replacement.
pub proof fn lemma_valid_document_reads(root: NodeModel)
    requires
        validation(root) is None,
    ensures
        root.entry("vars"@) matches Ok(vars) && vars is Object,
        root.entry("operations"@) matches Ok(operations) && operations is Object,
        targets_of(root) matches Ok(targets) && targets.len() > 0 && forall|i: int|
            0 <= i < targets.len() ==> shaped(#[trigger] targets[i]),
{
    let targets = root.entry("targets"@)->Ok_0;
    lemma_targets_read(targets.items(), 0, Seq::empty());
}

} // verus!
