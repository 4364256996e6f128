//! Reading the text of a script into its document tree, done by the
//! `json5_nodes` crate.

use crate::error::{structure_error, ErrorKind, ErrorModel, Location, ScriptError};
use crate::node::{Node, NodeModel};
use json5_nodes::{JsonError, JsonNode};
use vstd::prelude::*;

verus! {

#[verifier::external_type_specification]
#[verifier::external_body]
pub struct ExJsonNode(json5_nodes::JsonNode);

#[verifier::external_type_specification]
#[verifier::external_body]
pub struct ExJsonError(json5_nodes::JsonError);

/// The document that a JSON5 text describes, or the parser's message and
/// the place where it stopped.
pub uninterp spec fn parsed(text: Seq<char>) -> Result<NodeModel, ErrorModel>;

/// A text that describes `document`.
pub open spec fn parsed_document(document: NodeModel) -> Result<NodeModel, ErrorModel> {
    Ok(document)
}

/// A text that the parser refused.
pub open spec fn parse_failure(message: Seq<char>, location: Option<Location>) -> Result<
    NodeModel,
    ErrorModel,
> {
    Err(structure_error(message, location))
}

/// The place that a `JsonNode` of `json5_nodes` carries, field for field.
#[verifier::external_body]
fn place_from_outside(node: &JsonNode) -> Option<Location> {
    let place = match node {
        JsonNode::Null(l) => l,
        JsonNode::Bool(_, l) => l,
        JsonNode::Integer(_, l) => l,
        JsonNode::Float(_, l) => l,
        JsonNode::String(_, l) => l,
        JsonNode::Array(_, l) => l,
        JsonNode::Object(_, l) => l,
    };
    place.map(|l| Location { line: l.line, column: l.column })
}

/// The library's node for a `JsonNode` of `json5_nodes`: variant for
/// variant, a float by its bits (`to_bits`), the items of an array and the
/// entries of an object in the order in which the outside map hands them
/// out (that in which they were written; a key written twice stands once,
/// at its last place).
#[verifier::external_body]
fn node_from_outside(node: &JsonNode) -> Node {
    let at = place_from_outside(node);
    match node {
        JsonNode::Null(_) => Node::Null(at),
        JsonNode::Bool(value, _) => Node::Bool(*value, at),
        JsonNode::Integer(value, _) => Node::Integer(*value, at),
        JsonNode::Float(value, _) => Node::Float(value.to_bits(), at),
        JsonNode::String(value, _) => Node::String(value.clone(), at),
        JsonNode::Array(items, _) => Node::Array(items.iter().map(node_from_outside).collect(), at),
        JsonNode::Object(entries, _) => Node::Object(
            entries.iter().map(|(key, value)| (key.clone(), node_from_outside(value))).collect(),
            at,
        ),
    }
}

/// The message (`to_string`) and the place of a `JsonError` of
/// `json5_nodes`.
#[verifier::external_body]
fn failure_from_outside(error: &JsonError) -> (String, Option<Location>) {
    let place = match error {
        JsonError::Syntax(_, l) => l,
        JsonError::NumberFormat(l) => l,
        JsonError::NumberRange(l) => l,
        JsonError::Unicode(l) => l,
    };
    (error.to_string(), place.map(|l| Location { line: l.line, column: l.column }))
}

/// `json5_nodes::parse`: the document tree of a JSON5 text, with the place
/// of every node; or the parser's message and the place it gives. The
/// result depends on the text alone.
#[verifier::external_body]
fn parse_json5(text: &str) -> (r: Result<Node, (String, Option<Location>)>)
    ensures
        match r {
            Ok(document) => parsed(text@) == parsed_document(document@),
            Err(failure) => parsed(text@) == parse_failure(failure.0@, failure.1),
        },
{
    match json5_nodes::parse(text) {
        Ok(node) => Ok(node_from_outside(&node)),
        Err(error) => Err(failure_from_outside(&error)),
    }
}

/// Reads the text of a script into its document tree. A text that is no
/// document is an error in the shape of the script, at the place where the
/// parser stopped; it names no script file.
pub fn parse_script(content: &str) -> (r: Result<Node, ScriptError>)
    ensures
        match r {
            Ok(document) => parsed(content@) matches Ok(m) && m == document@,
            Err(e) => parsed(content@) matches Err(m) && m == e@ && e.kind == ErrorKind::Structure
                && e.script_file is None,
        },
{
    match parse_json5(content) {
        Ok(document) => Ok(document),
        Err(failure) => Err(ScriptError::structure(failure.0, failure.1)),
    }
}

} // verus!
