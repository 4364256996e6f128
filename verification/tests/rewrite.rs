use stampver::parse::parse_script;
use stampver::pattern::{Found, Span};
use stampver::rewrite::{splice_value, update_script_file};
use stampver::{ErrorKind, Location, Node, RunContext, ScriptValue};

const SCRIPT: &str = "// version file\n{\n  vars: {\n    major: 3,\n    minor: 10, // minor\n    buildType: \"test\",\n    pi: 3.14,\n    debug: true,\n    last: 1\n  },\n  operations: {\n    incrMajor: \"major += 1\",\n  },\n}\n";

fn rewrite(context: &RunContext) -> String {
    let root = parse_script(SCRIPT).unwrap();
    update_script_file(SCRIPT.to_string(), &root, context, false).unwrap().text
}

#[test]
fn values_are_written_back_in_place() {
    let mut context = RunContext::new();
    context.set_value("major", &ScriptValue::Int(4)).unwrap();
    context.set_value("minor", &ScriptValue::Int(0)).unwrap();
    context.set_value("buildType", &ScriptValue::Str("prod".to_string())).unwrap();
    context.set_value("pi", &ScriptValue::Float(3.5f64.to_bits())).unwrap();
    context.set_value("debug", &ScriptValue::Bool(false)).unwrap();
    assert_eq!(
        rewrite(&context),
        "// version file\n{\n  vars: {\n    major: 4,\n    minor: 0, // minor\n    buildType: \"prod\",\n    pi: 3.5,\n    debug: false,\n    last: 1\n  },\n  operations: {\n    incrMajor: \"major += 1\",\n  },\n}\n"
    );
}

#[test]
fn a_variable_that_the_context_lacks_is_left() {
    let mut context = RunContext::new();
    context.set_value("minor", &ScriptValue::Int(11)).unwrap();
    context.set_value("other", &ScriptValue::Int(1)).unwrap();
    assert_eq!(rewrite(&context), SCRIPT.replace("minor: 10,", "minor: 11,"));
}

#[test]
fn nothing_changes_without_variables() {
    assert_eq!(rewrite(&RunContext::new()), SCRIPT);
}

#[test]
fn a_value_that_is_not_found_in_the_text_is_skipped() {
    let root = parse_script(SCRIPT).unwrap();
    let mut context = RunContext::new();
    context.set_value("major", &ScriptValue::Int(4)).unwrap();
    let edited = "{ \"vars\": { \"major\": 3 } }\n";
    let done = update_script_file(edited.to_string(), &root, &context, true).unwrap();
    assert_eq!(done.text, edited);
    assert!(done.write);
}

#[test]
fn the_flag_says_whether_to_write() {
    let root = parse_script(SCRIPT).unwrap();
    let context = RunContext::new();
    assert!(!update_script_file(SCRIPT.to_string(), &root, &context, false).unwrap().write);
    assert!(update_script_file(SCRIPT.to_string(), &root, &context, true).unwrap().write);
}

#[test]
fn rewriting_twice_gives_the_same_text() {
    let mut context = RunContext::new();
    context.set_value("major", &ScriptValue::Int(12345)).unwrap();
    context.set_value("buildType", &ScriptValue::Str("beta".to_string())).unwrap();
    let root = parse_script(SCRIPT).unwrap();
    let once = update_script_file(SCRIPT.to_string(), &root, &context, false).unwrap().text;
    let twice = update_script_file(once.clone(), &root, &context, false).unwrap().text;
    assert_eq!(once, twice);
    assert!(once.contains("    major: 12345,\n    minor: 10, // minor\n    buildType: \"beta\",\n"));
}

#[test]
fn a_string_with_a_comma_is_not_written_the_same_twice() {
    let mut context = RunContext::new();
    context.set_value("buildType", &ScriptValue::Str("a,b".to_string())).unwrap();
    let root = parse_script(SCRIPT).unwrap();
    let once = update_script_file(SCRIPT.to_string(), &root, &context, false).unwrap().text;
    assert!(once.contains("    buildType: \"a,b\",\n"));
    let twice = update_script_file(once.clone(), &root, &context, false).unwrap().text;
    assert!(twice.contains("    buildType: \"a,b\",b\",\n"));
}

#[test]
fn a_dollar_in_a_value_is_written_as_it_is() {
    let mut context = RunContext::new();
    context.set_value("buildType", &ScriptValue::Str("$end ${begin} $1".to_string())).unwrap();
    assert_eq!(rewrite(&context), SCRIPT.replace("\"test\"", "\"$end ${begin} $1\""));
}

#[test]
fn a_tuple_or_empty_value_is_written_as_nothing() {
    let mut context = RunContext::new();
    context.set_value("major", &ScriptValue::Empty).unwrap();
    assert_eq!(rewrite(&context), SCRIPT.replace("major: 3,", "major: ,"));
}

#[test]
fn vars_must_be_there() {
    let context = RunContext::new();
    let missing = parse_script("{ operations: {} }").unwrap();
    let error = update_script_file("x".to_string(), &missing, &context, false).unwrap_err();
    assert_eq!(error.message, "Object entry 'vars' not found");
    let wrong = parse_script("{ vars: 1 }").unwrap();
    let error = update_script_file("x".to_string(), &wrong, &context, false).unwrap_err();
    assert_eq!(error.message, "Not an object");
}

#[test]
fn a_name_that_makes_no_pattern_is_an_error() {
    let context = {
        let mut context = RunContext::new();
        context.set_value("a(b", &ScriptValue::Int(1)).unwrap();
        context
    };
    let root = Node::Object(
        vec![(
            "vars".to_string(),
            Node::Object(
                vec![("a(b".to_string(), Node::Integer(1, Some(Location { line: 3, column: 4 })))],
                None,
            ),
        )],
        None,
    );
    let error = update_script_file("vars: {\n a(b: 1,\n}".to_string(), &root, &context, false).unwrap_err();
    assert_eq!(error.kind, ErrorKind::InvalidRegex);
    assert_eq!(error.message, "Unable to replace var 'a(b'");
    assert_eq!(error.location, Some(Location { line: 3, column: 4 }));
}

#[test]
fn a_value_is_spliced_between_its_groups() {
    let hit = Found {
        whole: Span { start: 2, end: 9 },
        first: Some(Span { start: 2, end: 5 }),
        second: Some(Span { start: 7, end: 9 }),
    };
    assert_eq!(splice_value("0123456789", hit, "<new>"), "01234<new>789");
    let bare = Found { whole: Span { start: 2, end: 9 }, first: None, second: None };
    assert_eq!(splice_value("0123456789", bare, "-"), "01-9");
}
