use stampver::parse::parse_script;
use stampver::{ErrorKind, Location, Node, ScriptValue};

fn place(line: usize, column: usize) -> Option<Location> {
    Some(Location { line, column })
}

fn sample() -> Node {
    Node::Object(
        vec![
            ("name".to_string(), Node::String("dummy".to_string(), place(2, 9))),
            ("count".to_string(), Node::Integer(-7, place(3, 10))),
            ("ratio".to_string(), Node::Float(3.5f64.to_bits(), None)),
            ("on".to_string(), Node::Bool(true, None)),
            ("nothing".to_string(), Node::Null(None)),
            ("list".to_string(), Node::Array(vec![Node::Integer(1, None), Node::Integer(2, None)], place(7, 9))),
            ("name".to_string(), Node::String("second".to_string(), None)),
        ],
        place(1, 1),
    )
}

#[test]
fn kinds_of_nodes() {
    let root = sample();
    assert!(root.is_object());
    assert!(!root.is_array());
    assert!(root.get_object_entry("name").unwrap().is_string());
    assert!(root.get_object_entry("count").unwrap().is_integer());
    assert!(root.get_object_entry("ratio").unwrap().is_float());
    assert!(root.get_object_entry("on").unwrap().is_bool());
    assert!(root.get_object_entry("nothing").unwrap().is_null());
    assert!(root.get_object_entry("list").unwrap().is_array());
    assert!(!root.get_object_entry("list").unwrap().is_object());
    assert!(!root.get_object_entry("count").unwrap().is_float());
}

#[test]
fn entry_is_the_first_of_its_name() {
    let root = sample();
    assert_eq!(root.get_object_entry("name").unwrap().get_string(), "dummy");
    assert_eq!(root.get_object_entry("name").unwrap().get_location(), place(2, 9));
}

#[test]
fn missing_entry_is_an_error_at_the_object() {
    let root = sample();
    let error = root.get_object_entry("version").unwrap_err();
    assert_eq!(error.kind, ErrorKind::Structure);
    assert_eq!(error.message, "Object entry 'version' not found");
    assert_eq!(error.location, place(1, 1));
    assert_eq!(error.script_file, None);
}

#[test]
fn entry_of_what_is_no_object_is_an_error() {
    let node = Node::Array(vec![], place(4, 2));
    let error = node.get_object_entry("x").unwrap_err();
    assert_eq!(error.message, "Not an object");
    assert_eq!(error.location, place(4, 2));
    let error = node.get_object_entries().unwrap_err();
    assert_eq!(error.message, "Not an object");
    assert_eq!(error.location, place(4, 2));
}

#[test]
fn items_of_what_is_no_array_is_an_error() {
    let root = sample();
    let error = root.get_array_items().unwrap_err();
    assert_eq!(error.message, "Not an array");
    assert_eq!(error.location, place(1, 1));
    assert_eq!(root.get_object_entry("list").unwrap().get_array_items().unwrap().len(), 2);
    assert_eq!(root.get_object_entries().unwrap().len(), 7);
    assert_eq!(root.get_object_entries().unwrap()[1].0, "count");
}

#[test]
fn values_of_nodes() {
    let root = sample();
    assert_eq!(root.get_object_entry("name").unwrap().get_value(), ScriptValue::Str("dummy".to_string()));
    assert_eq!(root.get_object_entry("count").unwrap().get_value(), ScriptValue::Int(-7));
    assert_eq!(root.get_object_entry("ratio").unwrap().get_value(), ScriptValue::Float(3.5f64.to_bits()));
    assert_eq!(root.get_object_entry("on").unwrap().get_value(), ScriptValue::Bool(true));
    assert_eq!(root.get_object_entry("nothing").unwrap().get_value(), ScriptValue::Empty);
    assert_eq!(root.get_object_entry("list").unwrap().get_value(), ScriptValue::Empty);
    assert_eq!(root.get_value(), ScriptValue::Empty);
}

#[test]
fn texts_of_nodes() {
    let root = sample();
    assert_eq!(root.get_object_entry("name").unwrap().get_string(), "dummy");
    assert_eq!(root.get_object_entry("count").unwrap().get_string(), "-7");
    assert_eq!(root.get_object_entry("ratio").unwrap().get_string(), "3.5");
    assert_eq!(root.get_object_entry("on").unwrap().get_string(), "true");
    assert_eq!(Node::Bool(false, None).get_string(), "false");
    assert_eq!(root.get_object_entry("nothing").unwrap().get_string(), "null");
    assert_eq!(root.get_object_entry("list").unwrap().get_string(), "");
    assert_eq!(root.get_string(), "");
}

#[test]
fn literals_of_values() {
    assert_eq!(ScriptValue::Str("beta".to_string()).to_literal(), "\"beta\"");
    assert_eq!(ScriptValue::Int(20210903).to_literal(), "20210903");
    assert_eq!(ScriptValue::Int(-4).to_literal(), "-4");
    assert_eq!(ScriptValue::Float(3.14f64.to_bits()).to_literal(), "3.14");
    assert_eq!(ScriptValue::Float(2.0f64.to_bits()).to_literal(), "2");
    assert_eq!(ScriptValue::Float(1e21f64.to_bits()).to_literal(), "1000000000000000000000");
    assert_eq!(ScriptValue::Bool(true).to_literal(), "true");
    assert_eq!(ScriptValue::Bool(false).to_literal(), "false");
    assert_eq!(ScriptValue::Empty.to_literal(), "");
    assert_eq!(ScriptValue::Tuple(vec![ScriptValue::Int(1)]).to_literal(), "");
}

#[test]
fn parsing_gives_the_tree_with_places() {
    let root = parse_script("// c\n{ a: 1, b: [true, null, 2.5, 'x'], }").unwrap();
    assert_eq!(
        root,
        Node::Object(
            vec![
                ("a".to_string(), Node::Integer(1, place(2, 6))),
                (
                    "b".to_string(),
                    Node::Array(
                        vec![
                            Node::Bool(true, place(2, 13)),
                            Node::Null(place(2, 19)),
                            Node::Float(2.5f64.to_bits(), place(2, 25)),
                            Node::String("x".to_string(), place(2, 30)),
                        ],
                        place(2, 12)
                    )
                ),
            ],
            place(2, 1)
        )
    );
}

#[test]
fn parsing_keeps_the_written_order() {
    let root = parse_script("{ zeta: 1, alpha: 2, mid: 3 }").unwrap();
    let keys: Vec<String> = root.get_object_entries().unwrap().iter().map(|e| e.0.clone()).collect();
    assert_eq!(keys, vec!["zeta".to_string(), "alpha".to_string(), "mid".to_string()]);
}

#[test]
fn parsing_reports_where_it_stopped() {
    let error = parse_script("{ a: }").unwrap_err();
    assert_eq!(error.kind, ErrorKind::Structure);
    assert_eq!(error.location, place(1, 6));
    assert_eq!(error.script_file, None);
    assert!(!error.message.is_empty());
}

#[test]
fn parsing_reports_a_number_that_is_too_large() {
    let error = parse_script("{ a: 99999999999999999999 }").unwrap_err();
    assert_eq!(error.kind, ErrorKind::Structure);
    assert_eq!(error.script_file, None);
    assert_eq!(error.message, "bad number format");
    assert_eq!(error.location, place(1, 6));
}
