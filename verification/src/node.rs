//! The parsed script document: a tree of nodes, each with its value and the
//! place in the script's text where it was read.

use crate::error::{structure_error, ErrorModel, Location, ScriptError};
use crate::text::{signed_decimal, signed_to_string};
use crate::value::{float_text, float_to_text, ScriptValue, ValueModel};
use vstd::prelude::*;

verus! {

/// A node of the document. An object keeps its entries in the order in which
/// they were written; a floating-point number is held by its bits.
#[derive(Debug, PartialEq)]
pub enum Node {
    Null(Option<Location>),
    Bool(bool, Option<Location>),
    Integer(i64, Option<Location>),
    Float(u64, Option<Location>),
    String(String, Option<Location>),
    Array(Vec<Node>, Option<Location>),
    Object(Vec<(String, Node)>, Option<Location>),
}

/// A `Node` as plain values.
pub ghost enum NodeModel {
    Null { location: Option<Location> },
    Bool { flag: bool, location: Option<Location> },
    Integer { number: i64, location: Option<Location> },
    Float { bits: u64, location: Option<Location> },
    String { text: Seq<char>, location: Option<Location> },
    Array { items: Seq<NodeModel>, location: Option<Location> },
    Object { entries: Seq<(Seq<char>, NodeModel)>, location: Option<Location> },
}

/// The plain tree that `node` stands for.
pub open spec fn node_model(node: Node) -> NodeModel
    decreases node,
{
    match node {
        Node::Null(location) => NodeModel::Null { location },
        Node::Bool(flag, location) => NodeModel::Bool { flag, location },
        Node::Integer(number, location) => NodeModel::Integer { number, location },
        Node::Float(bits, location) => NodeModel::Float { bits, location },
        Node::String(text, location) => NodeModel::String { text: text@, location },
        Node::Array(items, location) => NodeModel::Array {
            items: Seq::new(
                items@.len(),
                |i: int|
                    if 0 <= i < items@.len() {
                        node_model(items@[i])
                    } else {
                        NodeModel::Null { location: None }
                    },
            ),
            location,
        },
        Node::Object(entries, location) => NodeModel::Object {
            entries: Seq::new(
                entries@.len(),
                |i: int|
                    if 0 <= i < entries@.len() {
                        (entries@[i].0@, node_model(entries@[i].1))
                    } else {
                        (Seq::empty(), NodeModel::Null { location: None })
                    },
            ),
            location,
        },
    }
}

impl View for Node {
    type V = NodeModel;

    open spec fn view(&self) -> NodeModel {
        node_model(*self)
    }
}

/// The index of the first entry at or after `from` whose key is `name`.
pub open spec fn find_key(entries: Seq<(Seq<char>, NodeModel)>, name: Seq<char>, from: int)
    -> Option<int>
    decreases entries.len() - from,
{
    if from < 0 || from >= entries.len() {
        None
    } else if entries[from].0 == name {
        Some(from)
    } else {
        find_key(entries, name, from + 1)
    }
}

impl NodeModel {
    pub open spec fn location(self) -> Option<Location> {
        match self {
            NodeModel::Null { location } => location,
            NodeModel::Bool { location, .. } => location,
            NodeModel::Integer { location, .. } => location,
            NodeModel::Float { location, .. } => location,
            NodeModel::String { location, .. } => location,
            NodeModel::Array { location, .. } => location,
            NodeModel::Object { location, .. } => location,
        }
    }

    /// The entries of an object, in written order; none for any other node.
    pub open spec fn entries(self) -> Seq<(Seq<char>, NodeModel)> {
        match self {
            NodeModel::Object { entries, .. } => entries,
            _ => Seq::empty(),
        }
    }

    /// The items of an array; none for any other node.
    pub open spec fn items(self) -> Seq<NodeModel> {
        match self {
            NodeModel::Array { items, .. } => items,
            _ => Seq::empty(),
        }
    }

    /// Whether the object has an entry called `name`.
    pub open spec fn has(self, name: Seq<char>) -> bool {
        find_key(self.entries(), name, 0) is Some
    }

    /// The first entry called `name`, or the error that says why there is
    /// none.
    pub open spec fn entry(self, name: Seq<char>) -> Result<NodeModel, ErrorModel> {
        if !(self is Object) {
            Err(structure_error("Not an object"@, self.location()))
        } else {
            match find_key(self.entries(), name, 0) {
                Some(i) => Ok(self.entries()[i].1),
                None => Err(
                    structure_error("Object entry '"@ + name + "' not found"@, self.location()),
                ),
            }
        }
    }

    /// The entries of an object, or the error that says it is none.
    pub open spec fn object_entries(self) -> Result<Seq<(Seq<char>, NodeModel)>, ErrorModel> {
        if self is Object {
            Ok(self.entries())
        } else {
            Err(structure_error("Not an object"@, self.location()))
        }
    }

    /// The items of an array, or the error that says it is none.
    pub open spec fn array_items(self) -> Result<Seq<NodeModel>, ErrorModel> {
        if self is Array {
            Ok(self.items())
        } else {
            Err(structure_error("Not an array"@, self.location()))
        }
    }

    /// The value that a variable written as this node starts with.
    pub open spec fn value(self) -> ValueModel {
        match self {
            NodeModel::Integer { number, .. } => ValueModel::Int(number),
            NodeModel::Float { bits, .. } => ValueModel::Float(bits),
            NodeModel::Bool { flag, .. } => ValueModel::Bool(flag),
            NodeModel::String { text, .. } => ValueModel::Str(text),
            _ => ValueModel::Empty,
        }
    }

    /// The node's value as text: a string as it is, a number or boolean as
    /// it is written, `null` for null, nothing for an array or object.
    pub open spec fn text(self) -> Seq<char> {
        match self {
            NodeModel::Null { .. } => "null"@,
            NodeModel::Integer { number, .. } => signed_decimal(number as int),
            NodeModel::Float { bits, .. } => float_text(bits),
            NodeModel::Bool { flag, .. } => if flag {
                "true"@
            } else {
                "false"@
            },
            NodeModel::String { text, .. } => text,
            _ => Seq::empty(),
        }
    }
}

/// The entries of an object node, as the model lists them.
pub open spec fn entries_match(entries: Seq<(String, Node)>, model: Seq<(Seq<char>, NodeModel)>)
    -> bool {
    &&& entries.len() == model.len()
    &&& forall|i: int|
        0 <= i < entries.len() ==> (#[trigger] entries[i]).0@ == model[i].0 && entries[i].1@
            == model[i].1
}

/// The items of an array node, as the model lists them.
pub open spec fn items_match(items: Seq<Node>, model: Seq<NodeModel>) -> bool {
    &&& items.len() == model.len()
    &&& forall|i: int| 0 <= i < items.len() ==> (#[trigger] items[i])@ == model[i]
}

impl Node {
    pub fn is_null(&self) -> (r: bool)
        ensures
            r == (self@ is Null),
    {
        match self {
            Node::Null(_) => true,
            _ => false,
        }
    }

    pub fn is_bool(&self) -> (r: bool)
        ensures
            r == (self@ is Bool),
    {
        match self {
            Node::Bool(_, _) => true,
            _ => false,
        }
    }

    pub fn is_integer(&self) -> (r: bool)
        ensures
            r == (self@ is Integer),
    {
        match self {
            Node::Integer(_, _) => true,
            _ => false,
        }
    }

    pub fn is_float(&self) -> (r: bool)
        ensures
            r == (self@ is Float),
    {
        match self {
            Node::Float(_, _) => true,
            _ => false,
        }
    }

    pub fn is_string(&self) -> (r: bool)
        ensures
            r == (self@ is String),
    {
        match self {
            Node::String(_, _) => true,
            _ => false,
        }
    }

    pub fn is_array(&self) -> (r: bool)
        ensures
            r == (self@ is Array),
    {
        match self {
            Node::Array(_, _) => true,
            _ => false,
        }
    }

    pub fn is_object(&self) -> (r: bool)
        ensures
            r == (self@ is Object),
    {
        match self {
            Node::Object(_, _) => true,
            _ => false,
        }
    }

    /// Where the node was read, if that is known.
    pub fn get_location(&self) -> (r: Option<Location>)
        ensures
            r == self@.location(),
    {
        match self {
            Node::Null(location) => *location,
            Node::Bool(_, location) => *location,
            Node::Integer(_, location) => *location,
            Node::Float(_, location) => *location,
            Node::String(_, location) => *location,
            Node::Array(_, location) => *location,
            Node::Object(_, location) => *location,
        }
    }

    /// The entries of an object node, in written order.
    pub fn get_object_entries(&self) -> (r: Result<&Vec<(String, Node)>, ScriptError>)
        ensures
            match r {
                Ok(entries) => self@.object_entries() is Ok && entries_match(
                    entries@,
                    self@.entries(),
                ),
                Err(e) => self@.object_entries() == Err::<Seq<(Seq<char>, NodeModel)>, ErrorModel>(
                    e@,
                ),
            },
    {
        match self {
            Node::Object(entries, _) => Ok(entries),
            _ => Err(
                ScriptError::structure(String::from_str("Not an object"), self.get_location()),
            ),
        }
    }

    /// The items of an array node.
    pub fn get_array_items(&self) -> (r: Result<&Vec<Node>, ScriptError>)
        ensures
            match r {
                Ok(items) => self@.array_items() is Ok && items_match(items@, self@.items()),
                Err(e) => self@.array_items() == Err::<Seq<NodeModel>, ErrorModel>(e@),
            },
    {
        match self {
            Node::Array(items, _) => Ok(items),
            _ => Err(ScriptError::structure(String::from_str("Not an array"), self.get_location())),
        }
    }

    /// The first entry of an object node that is called `name`.
    pub fn get_object_entry(&self, name: &str) -> (r: Result<&Node, ScriptError>)
        ensures
            match r {
                Ok(node) => self@.entry(name@) == Ok::<NodeModel, ErrorModel>(node@),
                Err(e) => self@.entry(name@) == Err::<NodeModel, ErrorModel>(e@),
            },
    {
        match self {
            Node::Object(entries, location) => {
                let key = String::from_str(name);
                let mut i: usize = 0;
                while i < entries.len()
                    invariant
                        i <= entries.len(),
                        key@ == name@,
                        entries_match(entries@, self@.entries()),
                        find_key(self@.entries(), name@, 0) == find_key(
                            self@.entries(),
                            name@,
                            i as int,
                        ),
                    decreases entries.len() - i,
                {
                    if entries[i].0 == key {
                        return Ok(&entries[i].1);
                    }
                    i += 1;
                }
                let mut message = String::from_str("Object entry '");
                message.append(name);
                message.append("' not found");
                Err(ScriptError::structure(message, *location))
            },
            _ => Err(
                ScriptError::structure(String::from_str("Not an object"), self.get_location()),
            ),
        }
    }

    /// The value that a variable written as this node starts with.
    pub fn get_value(&self) -> (r: ScriptValue)
        ensures
            r@ == self@.value(),
    {
        match self {
            Node::Integer(value, _) => ScriptValue::Int(*value),
            Node::Float(bits, _) => ScriptValue::Float(*bits),
            Node::Bool(value, _) => ScriptValue::Bool(*value),
            Node::String(text, _) => ScriptValue::Str(text.clone()),
            _ => ScriptValue::Empty,
        }
    }

    /// The node's value as text.
    pub fn get_string(&self) -> (r: String)
        ensures
            r@ == self@.text(),
    {
        match self {
            Node::Null(_) => String::from_str("null"),
            Node::Integer(value, _) => signed_to_string(*value),
            Node::Float(bits, _) => float_to_text(*bits),
            Node::Bool(value, _) => {
                if *value {
                    String::from_str("true")
                } else {
                    String::from_str("false")
                }
            },
            Node::String(text, _) => text.clone(),
            _ => String::new(),
        }
    }
}

} // verus!
