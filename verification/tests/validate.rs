use stampver::parse::parse_script;
use stampver::validate::validate_script_file;
use stampver::{ErrorKind, Location, Node, ScriptError};

fn check(text: &str) -> Result<(), ScriptError> {
    validate_script_file(&parse_script(text).unwrap())
}

fn refused(text: &str) -> (String, Option<(usize, usize)>) {
    let error = check(text).unwrap_err();
    assert_eq!(error.script_file, None);
    assert_eq!(error.kind, ErrorKind::Structure);
    (error.message, error.location.map(|l| (l.line, l.column)))
}

const TARGETS: &str = "targets: [ { description: 'd', files: ['f'], write: '\"x\"' } ]";

#[test]
fn small_document_is_valid() {
    assert_eq!(check(&format!("{{ vars: {{}}, operations: {{}}, {} }}", TARGETS)), Ok(()));
    assert_eq!(
        check(&format!(
            "{{ vars: {{ a: 1, b: 'x', c: 1.5, d: true, tz: 'UTC' }}, calcVars: {{ e: 'a + 1' }}, operations: {{ o: 'a = 2' }}, {} }}",
            TARGETS
        )),
        Ok(())
    );
}

#[test]
fn root_must_be_an_object() {
    assert_eq!(refused("[1]"), ("Node <root> is not an object".to_string(), Some((1, 1))));
}

#[test]
fn vars_operations_and_targets_must_be_there() {
    assert_eq!(
        refused(&format!("{{ operations: {{}}, {} }}", TARGETS)),
        ("Object entry 'vars' not found".to_string(), Some((1, 1)))
    );
    assert_eq!(
        refused(&format!("{{ vars: {{}}, {} }}", TARGETS)),
        ("Object entry 'operations' not found".to_string(), Some((1, 1)))
    );
    assert_eq!(
        refused("{ vars: {}, operations: {} }"),
        ("Object entry 'targets' not found".to_string(), Some((1, 1)))
    );
}

#[test]
fn sections_must_be_objects() {
    assert_eq!(
        refused(&format!("{{ vars: 1, operations: {{}}, {} }}", TARGETS)),
        ("Not an object".to_string(), Some((1, 9)))
    );
    assert_eq!(
        refused(&format!("{{ vars: {{}}, calcVars: [], operations: {{}}, {} }}", TARGETS)),
        ("Not an object".to_string(), Some((1, 23)))
    );
    assert_eq!(
        refused(&format!("{{ vars: {{}}, operations: 'x', {} }}", TARGETS)),
        ("Not an object".to_string(), Some((1, 25)))
    );
    assert_eq!(refused("{ vars: {}, operations: {}, targets: {} }"), ("Not an array".to_string(), Some((1, 38))));
}

#[test]
fn a_var_must_be_a_scalar() {
    assert_eq!(
        refused(&format!("{{ vars: {{ a: 1, b: [1] }}, operations: {{}}, {} }}", TARGETS)),
        ("'vars' entry must be a string, integer, float or boolean".to_string(), Some((1, 20)))
    );
    assert_eq!(
        refused(&format!("{{ vars: {{ a: null }}, operations: {{}}, {} }}", TARGETS)),
        ("'vars' entry must be a string, integer, float or boolean".to_string(), Some((1, 14)))
    );
}

#[test]
fn tz_must_be_a_string() {
    assert_eq!(
        refused(&format!("{{ vars: {{ tz: 1 }}, operations: {{}}, {} }}", TARGETS)),
        ("'tz' node must be a string".to_string(), Some((1, 15)))
    );
}

#[test]
fn a_calc_var_must_be_a_string() {
    assert_eq!(
        refused(&format!("{{ vars: {{}}, calcVars: {{ next: 1 }}, operations: {{}}, {} }}", TARGETS)),
        ("'calcVars' entry 'next' must be a string".to_string(), Some((1, 31)))
    );
}

#[test]
fn a_calc_var_must_not_be_named_like_a_var() {
    assert_eq!(
        refused(&format!(
            "{{ vars: {{ a: 1 }}, calcVars: {{ b: '1', a: '2' }}, operations: {{}}, {} }}",
            TARGETS
        )),
        ("Duplicate identifier 'a'".to_string(), Some((1, 42)))
    );
}

#[test]
fn an_operation_must_be_a_string() {
    assert_eq!(
        refused(&format!("{{ vars: {{}}, operations: {{ incr: 'a += 1', bad: true }}, {} }}", TARGETS)),
        ("Operation 'bad' must be a string".to_string(), Some((1, 48)))
    );
}

#[test]
fn targets_must_not_be_empty() {
    assert_eq!(
        refused("{ vars: {}, operations: {}, targets: [] }"),
        ("'targets' must not be empty".to_string(), Some((1, 38)))
    );
}

fn with_target(target: &str) -> (String, Option<(usize, usize)>) {
    refused(&format!("{{ vars: {{}}, operations: {{}},\ntargets: [ {{ description: 'd', files: ['f'], write: 'x' }},\n{} ] }}", target))
}

#[test]
fn a_target_must_be_an_object() {
    assert_eq!(with_target("7"), ("'targets' entry '1' must be an object".to_string(), Some((3, 1))));
}

#[test]
fn a_target_needs_a_description() {
    assert_eq!(
        with_target("{ files: ['f'], write: 'x' }"),
        ("Object entry 'description' not found".to_string(), Some((3, 1)))
    );
    assert_eq!(
        with_target("{ description: 5, files: ['f'], write: 'x' }"),
        ("'description' entry must be a string".to_string(), Some((3, 16)))
    );
}

#[test]
fn a_target_needs_files() {
    assert_eq!(
        with_target("{ description: 'd', write: 'x' }"),
        ("Object entry 'files' not found".to_string(), Some((3, 1)))
    );
    assert_eq!(
        with_target("{ description: 'd', files: 'f', write: 'x' }"),
        ("Not an array".to_string(), Some((3, 28)))
    );
    assert_eq!(
        with_target("{ description: 'd', files: [], write: 'x' }"),
        ("'files' must not be empty".to_string(), Some((3, 28)))
    );
    assert_eq!(
        with_target("{ description: 'd', files: ['a', 2], write: 'x' }"),
        ("'files' entry '1' must be a string".to_string(), Some((3, 34)))
    );
}

#[test]
fn a_target_needs_one_action() {
    assert_eq!(
        with_target("{ description: 'd', files: ['f'] }"),
        ("Target must contain 'updates', 'write' or 'copyFrom'".to_string(), Some((3, 1)))
    );
    assert_eq!(
        with_target("{ description: 'd', files: ['f'], write: 'x', copyFrom: 'y' }"),
        ("Target must contain only one of 'updates', 'write' or 'copyFrom'".to_string(), Some((3, 1)))
    );
    assert_eq!(
        with_target("{ description: 'd', files: ['f'], updates: [{search: 'a', replace: 'b'}], write: 'x' }"),
        ("Target must contain only one of 'updates', 'write' or 'copyFrom'".to_string(), Some((3, 1)))
    );
}

#[test]
fn write_and_copy_from_must_be_strings() {
    assert_eq!(
        with_target("{ description: 'd', files: ['f'], write: 1 }"),
        ("'write' entry must be string".to_string(), Some((3, 42)))
    );
    assert_eq!(
        with_target("{ description: 'd', files: ['f'], copyFrom: [] }"),
        ("'copyFrom' entry must be string".to_string(), Some((3, 45)))
    );
}

#[test]
fn updates_must_be_a_list_of_search_and_replace() {
    assert_eq!(
        with_target("{ description: 'd', files: ['f'], updates: {} }"),
        ("Not an array".to_string(), Some((3, 44)))
    );
    assert_eq!(
        with_target("{ description: 'd', files: ['f'], updates: [] }"),
        ("'updates' must not be empty".to_string(), Some((3, 44)))
    );
    assert_eq!(
        with_target("{ description: 'd', files: ['f'], updates: [{search: 'a', replace: 'b'}, 3] }"),
        ("'updates' entry '1' must be an object".to_string(), Some((3, 74)))
    );
    assert_eq!(
        with_target("{ description: 'd', files: ['f'], updates: [{replace: 'b'}] }"),
        ("Object entry 'search' not found".to_string(), Some((3, 45)))
    );
    assert_eq!(
        with_target("{ description: 'd', files: ['f'], updates: [{search: 'a'}] }"),
        ("Object entry 'replace' not found".to_string(), Some((3, 45)))
    );
    assert_eq!(
        with_target("{ description: 'd', files: ['f'], updates: [{search: 1, replace: 2}] }"),
        ("'search' entry must be string".to_string(), Some((3, 54)))
    );
    assert_eq!(
        with_target("{ description: 'd', files: ['f'], updates: [{search: 'a', replace: 2}] }"),
        ("'replace' entry must be string".to_string(), Some((3, 68)))
    );
}

#[test]
fn the_first_violation_is_reported() {
    // vars come before operations, operations before targets
    assert_eq!(
        refused("{ targets: [], operations: { o: 1 }, vars: { a: [] } }"),
        ("'vars' entry must be a string, integer, float or boolean".to_string(), Some((1, 49)))
    );
    assert_eq!(
        refused("{ targets: [], operations: { o: 1 }, vars: { a: 1 } }"),
        ("Operation 'o' must be a string".to_string(), Some((1, 33)))
    );
    // the second target is fine, the first is not
    assert_eq!(
        refused("{ vars: {}, operations: {}, targets: [ { description: 1 }, { description: 'd', files: ['f'], write: 'x' } ] }").0,
        "'description' entry must be a string"
    );
}

#[test]
fn nodes_without_places_give_errors_without_places() {
    let root = Node::Array(vec![], None);
    let error = validate_script_file(&root).unwrap_err();
    assert_eq!(error.message, "Node <root> is not an object");
    assert_eq!(error.location, None::<Location>);
}
