//! The targets of a script: which files each one names and what is done to
//! them.

use crate::error::{structure_error, ErrorModel, Location, ScriptError};
use crate::node::{items_match, Node, NodeModel};
use vstd::prelude::*;

verus! {

/// One search and replace: a pattern, and the expression that gives the text
/// for each match.
#[derive(Debug, PartialEq)]
pub struct Replacement {
    pub search: String,
    pub search_location: Option<Location>,
    pub replace: String,
    pub replace_location: Option<Location>,
}

/// A `Replacement` as plain values.
pub ghost struct ReplacementModel {
    pub search: Seq<char>,
    pub search_location: Option<Location>,
    pub replace: Seq<char>,
    pub replace_location: Option<Location>,
}

impl View for Replacement {
    type V = ReplacementModel;

    open spec fn view(&self) -> ReplacementModel {
        ReplacementModel {
            search: self.search@,
            search_location: self.search_location,
            replace: self.replace@,
            replace_location: self.replace_location,
        }
    }
}

/// What is done to the files of a target.
#[derive(Debug, PartialEq)]
pub enum Action {
    /// Search and replace passes over the file's text, in this order.
    Update(Vec<Replacement>),
    /// The file's new content, as an expression.
    Write(String, Option<Location>),
    /// The name of the file to copy from, as an expression.
    CopyFrom(String, Option<Location>),
}

/// An `Action` as plain values.
pub ghost enum ActionModel {
    Update(Seq<ReplacementModel>),
    Write(Seq<char>, Option<Location>),
    CopyFrom(Seq<char>, Option<Location>),
}

/// The replacements as plain values.
pub open spec fn replacement_models(replacements: Seq<Replacement>) -> Seq<ReplacementModel> {
    Seq::new(replacements.len(), |i: int| replacements[i]@)
}

impl View for Action {
    type V = ActionModel;

    open spec fn view(&self) -> ActionModel {
        match self {
            Action::Update(replacements) => ActionModel::Update(replacement_models(replacements@)),
            Action::Write(expression, location) => ActionModel::Write(expression@, *location),
            Action::CopyFrom(expression, location) => ActionModel::CopyFrom(
                expression@,
                *location,
            ),
        }
    }
}

/// A file of a target: its name as the script gives it, and where the script
/// names it.
#[derive(Debug, PartialEq)]
pub struct TargetFile {
    pub name: String,
    pub location: Option<Location>,
}

/// A `TargetFile` as plain values.
pub ghost struct TargetFileModel {
    pub name: Seq<char>,
    pub location: Option<Location>,
}

impl View for TargetFile {
    type V = TargetFileModel;

    open spec fn view(&self) -> TargetFileModel {
        TargetFileModel { name: self.name@, location: self.location }
    }
}

/// The files as plain values.
pub open spec fn file_models(files: Seq<TargetFile>) -> Seq<TargetFileModel> {
    Seq::new(files.len(), |i: int| files[i]@)
}

/// A target: what it is, its files in written order, and its one action.
#[derive(Debug, PartialEq)]
pub struct Target {
    pub description: String,
    pub files: Vec<TargetFile>,
    pub action: Action,
}

/// A `Target` as plain values.
pub ghost struct TargetModel {
    pub description: Seq<char>,
    pub files: Seq<TargetFileModel>,
    pub action: ActionModel,
}

impl View for Target {
    type V = TargetModel;

    open spec fn view(&self) -> TargetModel {
        TargetModel {
            description: self.description@,
            files: file_models(self.files@),
            action: self.action@,
        }
    }
}

/// The targets as plain values.
pub open spec fn target_models(targets: Seq<Target>) -> Seq<TargetModel> {
    Seq::new(targets.len(), |i: int| targets[i]@)
}

/// The replacement that an item of `updates` describes.
pub open spec fn replacement_of(item: NodeModel) -> Result<ReplacementModel, ErrorModel> {
    match item.entry("search"@) {
        Err(e) => Err(e),
        Ok(search) => match item.entry("replace"@) {
            Err(e) => Err(e),
            Ok(replace) => Ok(
                ReplacementModel {
                    search: search.text(),
                    search_location: search.location(),
                    replace: replace.text(),
                    replace_location: replace.location(),
                },
            ),
        },
    }
}

/// The replacements that the items from `from` on describe, after `done`;
/// the first item that describes none decides the error.
pub open spec fn replacements_from(items: Seq<NodeModel>, from: int, done: Seq<ReplacementModel>)
    -> Result<Seq<ReplacementModel>, ErrorModel>
    decreases items.len() - from,
{
    if from < 0 || from >= items.len() {
        Ok(done)
    } else {
        match replacement_of(items[from]) {
            Err(e) => Err(e),
            Ok(replacement) => replacements_from(items, from + 1, done.push(replacement)),
        }
    }
}

/// The files that the items of `files` name.
pub open spec fn files_of(items: Seq<NodeModel>) -> Seq<TargetFileModel> {
    Seq::new(
        items.len(),
        |i: int| TargetFileModel { name: items[i].text(), location: items[i].location() },
    )
}

/// The message for a target that has none of the three actions.
pub open spec fn no_action_message() -> Seq<char> {
    "Target must contain 'updates', 'write' or 'copyFrom'"@
}

/// The action of a target: `updates` where it is there, else `copyFrom`,
/// else `write`.
pub open spec fn action_of(target: NodeModel) -> Result<ActionModel, ErrorModel> {
    if target.has("updates"@) {
        match target.entry("updates"@)->Ok_0.array_items() {
            Err(e) => Err(e),
            Ok(items) => match replacements_from(items, 0, Seq::empty()) {
                Err(e) => Err(e),
                Ok(replacements) => Ok(ActionModel::Update(replacements)),
            },
        }
    } else if target.has("copyFrom"@) {
        let node = target.entry("copyFrom"@)->Ok_0;
        Ok(ActionModel::CopyFrom(node.text(), node.location()))
    } else if target.has("write"@) {
        let node = target.entry("write"@)->Ok_0;
        Ok(ActionModel::Write(node.text(), node.location()))
    } else {
        Err(structure_error(no_action_message(), target.location()))
    }
}

/// The target that a node describes.
pub open spec fn target_of(node: NodeModel) -> Result<TargetModel, ErrorModel> {
    match node.entry("description"@) {
        Err(e) => Err(e),
        Ok(description) => match node.entry("files"@) {
            Err(e) => Err(e),
            Ok(files) => match files.array_items() {
                Err(e) => Err(e),
                Ok(items) => match action_of(node) {
                    Err(e) => Err(e),
                    Ok(action) => Ok(
                        TargetModel {
                            description: description.text(),
                            files: files_of(items),
                            action,
                        },
                    ),
                },
            },
        },
    }
}

/// The targets that the items from `from` on describe, after `done`; the
/// first item that describes none decides the error.
pub open spec fn targets_from(items: Seq<NodeModel>, from: int, done: Seq<TargetModel>) -> Result<
    Seq<TargetModel>,
    ErrorModel,
>
    decreases items.len() - from,
{
    if from < 0 || from >= items.len() {
        Ok(done)
    } else {
        match target_of(items[from]) {
            Err(e) => Err(e),
            Ok(target) => targets_from(items, from + 1, done.push(target)),
        }
    }
}

/// The targets of the script, in written order.
pub open spec fn targets_of(root: NodeModel) -> Result<Seq<TargetModel>, ErrorModel> {
    match root.entry("targets"@) {
        Err(e) => Err(e),
        Ok(node) => match node.array_items() {
            Err(e) => Err(e),
            Ok(items) => targets_from(items, 0, Seq::empty()),
        },
    }
}

fn read_replacement(item: &Node) -> (r: Result<Replacement, ScriptError>)
    ensures
        match r {
            Ok(replacement) => replacement_of(item@) matches Ok(m) && m == replacement@,
            Err(e) => replacement_of(item@) matches Err(m) && m == e@,
        },
{
    let search = item.get_object_entry("search")?;
    let replace = item.get_object_entry("replace")?;
    Ok(
        Replacement {
            search: search.get_string(),
            search_location: search.get_location(),
            replace: replace.get_string(),
            replace_location: replace.get_location(),
        },
    )
}

fn read_replacements(items: &Vec<Node>) -> (r: Result<Vec<Replacement>, ScriptError>)
    ensures
        forall|model: Seq<NodeModel>| #[trigger]
            items_match(items@, model) ==> match r {
                Ok(replacements) => replacements_from(model, 0, Seq::empty()) matches Ok(m) && m
                    == replacement_models(replacements@),
                Err(e) => replacements_from(model, 0, Seq::empty()) matches Err(m) && m == e@,
            },
{
    let mut done: Vec<Replacement> = Vec::new();
    let mut i: usize = 0;
    assert(replacement_models(done@) =~= Seq::empty());
    while i < items.len()
        invariant
            i <= items.len(),
            forall|model: Seq<NodeModel>| #[trigger]
                items_match(items@, model) ==> replacements_from(model, 0, Seq::empty())
                    == replacements_from(model, i as int, replacement_models(done@)),
        decreases items.len() - i,
    {
        let ghost before = replacement_models(done@);
        match read_replacement(&items[i]) {
            Ok(replacement) => {
                done.push(replacement);
                assert(replacement_models(done@) =~= before.push(replacement@));
            },
            Err(e) => {
                return Err(e);
            },
        }
        i += 1;
    }
    Ok(done)
}

fn read_files(items: &Vec<Node>) -> (r: Vec<TargetFile>)
    ensures
        forall|model: Seq<NodeModel>| #[trigger]
            items_match(items@, model) ==> file_models(r@) == files_of(model),
{
    let mut files: Vec<TargetFile> = Vec::new();
    let mut i: usize = 0;
    while i < items.len()
        invariant
            i <= items.len(),
            files.len() == i,
            forall|k: int|
                0 <= k < i ==> (#[trigger] files[k]).name@ == items[k]@.text() && files[k].location
                    == items[k]@.location(),
        decreases items.len() - i,
    {
        files.push(TargetFile { name: items[i].get_string(), location: items[i].get_location() });
        i += 1;
    }
    assert forall|model: Seq<NodeModel>| #[trigger] items_match(items@, model) implies file_models(
        files@,
    ) == files_of(model) by {
    }
    files
}

fn read_action(target: &Node) -> (r: Result<Action, ScriptError>)
    ensures
        match r {
            Ok(action) => action_of(target@) matches Ok(m) && m == action@,
            Err(e) => action_of(target@) matches Err(m) && m == e@,
        },
{
    if let Ok(updates) = target.get_object_entry("updates") {
        let items = updates.get_array_items()?;
        let replacements = read_replacements(items)?;
        Ok(Action::Update(replacements))
    } else if let Ok(node) = target.get_object_entry("copyFrom") {
        Ok(Action::CopyFrom(node.get_string(), node.get_location()))
    } else if let Ok(node) = target.get_object_entry("write") {
        Ok(Action::Write(node.get_string(), node.get_location()))
    } else {
        Err(
            ScriptError::structure(
                String::from_str("Target must contain 'updates', 'write' or 'copyFrom'"),
                target.get_location(),
            ),
        )
    }
}

/// The target that `node` describes.
pub fn read_target(node: &Node) -> (r: Result<Target, ScriptError>)
    ensures
        match r {
            Ok(target) => target_of(node@) matches Ok(m) && m == target@,
            Err(e) => target_of(node@) matches Err(m) && m == e@,
        },
{
    let description = node.get_object_entry("description")?;
    let files = node.get_object_entry("files")?;
    let items = files.get_array_items()?;
    let action = read_action(node)?;
    Ok(Target { description: description.get_string(), files: read_files(items), action })
}

/// The targets of the script, in written order.
pub fn read_targets(root: &Node) -> (r: Result<Vec<Target>, ScriptError>)
    ensures
        match r {
            Ok(targets) => targets_of(root@) matches Ok(m) && m == target_models(targets@),
            Err(e) => targets_of(root@) matches Err(m) && m == e@,
        },
{
    let node = root.get_object_entry("targets")?;
    let items = node.get_array_items()?;
    let mut done: Vec<Target> = Vec::new();
    let mut i: usize = 0;
    assert(target_models(done@) =~= Seq::empty());
    while i < items.len()
        invariant
            i <= items.len(),
            root@.entry("targets"@) matches Ok(n) && n == node@,
            node@ is Array,
            items_match(items@, node@.items()),
            targets_from(node@.items(), 0, Seq::empty()) == targets_from(
                node@.items(),
                i as int,
                target_models(done@),
            ),
        decreases items.len() - i,
    {
        let ghost before = target_models(done@);
        match read_target(&items[i]) {
            Ok(target) => {
                done.push(target);
                assert(target_models(done@) =~= before.push(target@));
            },
            Err(e) => {
                return Err(e);
            },
        }
        i += 1;
    }
    Ok(done)
}

/// A file of a target, by the number of the target and the number of the
/// file in it.
#[derive(Clone, Copy, Debug, PartialEq, Eq)]
pub struct FilePlace {
    pub target: usize,
    pub file: usize,
}

/// The files of target number `target` from file `from` on, after `done`.
pub open spec fn places_of_target(target: int, files: int, from: int, done: Seq<FilePlace>) -> Seq<
    FilePlace,
>
    decreases files - from,
{
    if from < 0 || from >= files {
        done
    } else {
        places_of_target(
            target,
            files,
            from + 1,
            done.push(FilePlace { target: target as usize, file: from as usize }),
        )
    }
}

/// The files of the targets from `from` on, after `done`: target by target,
/// and in each target file by file.
pub open spec fn places_from(targets: Seq<TargetModel>, from: int, done: Seq<FilePlace>) -> Seq<
    FilePlace,
>
    decreases targets.len() - from,
{
    if from < 0 || from >= targets.len() {
        done
    } else {
        places_from(
            targets,
            from + 1,
            places_of_target(from, targets[from].files.len() as int, 0, done),
        )
    }
}

/// Every place is that of a file of one of the targets.
pub open spec fn places_fit(places: Seq<FilePlace>, targets: Seq<TargetModel>) -> bool {
    forall|i: int|
        0 <= i < places.len() ==> (#[trigger] places[i]).target < targets.len()
            && places[i].file < targets[places[i].target as int].files.len()
}

/// The files of all targets in the order in which a run takes them.
pub open spec fn places_of(targets: Seq<TargetModel>) -> Seq<FilePlace> {
    places_from(targets, 0, Seq::empty())
}

/// The order in which a run takes the files: the targets in written order,
/// and the files of each in written order.
#[verifier::loop_isolation(false)]
pub fn files_in_order(targets: &Vec<Target>) -> (r: Vec<FilePlace>)
    ensures
        r@ == places_of(target_models(targets@)),
        places_fit(r@, target_models(targets@)),
{
    let ghost models = target_models(targets@);
    let mut done: Vec<FilePlace> = Vec::new();
    let mut t: usize = 0;
    while t < targets.len()
        invariant
            t <= targets.len(),
            places_fit(done@, models),
            places_from(models, 0, Seq::empty()) == places_from(models, t as int, done@),
        decreases targets.len() - t,
    {
        let files = targets[t].files.len();
        let ghost before = done@;
        let mut f: usize = 0;
        while f < files
            invariant
                f <= files,
                places_fit(done@, models),
                places_of_target(t as int, files as int, 0, before) == places_of_target(
                    t as int,
                    files as int,
                    f as int,
                    done@,
                ),
            decreases files - f,
        {
            done.push(FilePlace { target: t, file: f });
            f += 1;
        }
        t += 1;
    }
    done
}

} // verus!
