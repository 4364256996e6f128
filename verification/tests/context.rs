use stampver::context::{mentions_shift, ternary, Ternary};
use stampver::value::ValueKind;
use stampver::{RunContext, ScriptValue};

fn text(value: &str) -> ScriptValue {
    ScriptValue::Str(value.to_string())
}

#[test]
fn new_context_holds_no_variable() {
    let context = RunContext::new();
    assert_eq!(context.get_value("major"), None);
    assert_eq!(context.get_value("if"), None);
}

#[test]
fn set_then_get() {
    let mut context = RunContext::new();
    assert_eq!(context.set_value("major", &ScriptValue::Int(3)), Ok(()));
    assert_eq!(context.set_value("name", &text("x")), Ok(()));
    assert_eq!(context.set_value("pi", &ScriptValue::Float(3.14f64.to_bits())), Ok(()));
    assert_eq!(context.set_value("on", &ScriptValue::Bool(true)), Ok(()));
    assert_eq!(context.set_value("pair", &ScriptValue::Tuple(vec![ScriptValue::Int(1), text("a")])), Ok(()));
    assert_eq!(context.get_value("major"), Some(ScriptValue::Int(3)));
    assert_eq!(context.get_value("name"), Some(text("x")));
    assert_eq!(context.get_value("pi"), Some(ScriptValue::Float(3.14f64.to_bits())));
    assert_eq!(context.get_value("on"), Some(ScriptValue::Bool(true)));
    assert_eq!(context.get_value("pair"), Some(ScriptValue::Tuple(vec![ScriptValue::Int(1), text("a")])));
    assert_eq!(context.get_value("minor"), None);
}

#[test]
fn a_variable_takes_a_new_value_of_its_kind() {
    let mut context = RunContext::new();
    context.set_value("major", &ScriptValue::Int(3)).unwrap();
    assert_eq!(context.set_value("major", &ScriptValue::Int(4)), Ok(()));
    assert_eq!(context.get_value("major"), Some(ScriptValue::Int(4)));
}

#[test]
fn a_variable_refuses_a_value_of_another_kind() {
    let mut context = RunContext::new();
    context.set_value("major", &ScriptValue::Int(3)).unwrap();
    assert_eq!(
        context.set_value("major", &text("four")),
        Err("Expected a Value::Int, but got String(\"four\").".to_string())
    );
    assert_eq!(context.get_value("major"), Some(ScriptValue::Int(3)));
}

#[test]
fn expressions_read_the_variables() {
    let mut context = RunContext::new();
    context.set_value("major", &ScriptValue::Int(3)).unwrap();
    context.set_value("name", &text("v")).unwrap();
    assert_eq!(context.eval("major * 10 + 1"), Ok(ScriptValue::Int(31)));
    assert_eq!(context.eval("name + str::from(major)"), Ok(text("v3")));
    assert_eq!(context.eval("major > 2 && name == \"v\""), Ok(ScriptValue::Bool(true)));
    assert_eq!(context.eval("major / 2.0"), Ok(ScriptValue::Float(1.5f64.to_bits())));
    assert_eq!(context.eval("(1, \"a\")"), Ok(ScriptValue::Tuple(vec![ScriptValue::Int(1), text("a")])));
    assert_eq!(context.eval(""), Ok(ScriptValue::Empty));
    assert_eq!(context.get_value("major"), Some(ScriptValue::Int(3)));
}

#[test]
fn an_unknown_variable_is_an_error() {
    let context = RunContext::new();
    assert_eq!(
        context.eval("minor + 1"),
        Err("Variable identifier is not bound to anything by context: \"minor\".".to_string())
    );
    assert_eq!(
        context.eval_text("minor"),
        Err("Variable identifier is not bound to anything by context: \"minor\".".to_string())
    );
}

#[test]
fn evaluation_cannot_assign() {
    let mut context = RunContext::new();
    context.set_value("major", &ScriptValue::Int(3)).unwrap();
    assert_eq!(context.eval("major = 4"), Err("Cannot manipulate context".to_string()));
    assert_eq!(context.get_value("major"), Some(ScriptValue::Int(3)));
}

#[test]
fn a_string_is_asked_for() {
    let mut context = RunContext::new();
    context.set_value("major", &ScriptValue::Int(3)).unwrap();
    assert_eq!(context.eval_text("\"v\" + str::from(major)"), Ok("v3".to_string()));
    assert_eq!(context.eval_text("major"), Err("Expected a Value::String, but got Int(3).".to_string()));
}

#[test]
fn running_assigns() {
    let mut context = RunContext::new();
    context.set_value("major", &ScriptValue::Int(3)).unwrap();
    context.set_value("minor", &ScriptValue::Int(7)).unwrap();
    assert_eq!(context.run("major += 1; minor = 0; fresh = \"new\""), Ok(()));
    assert_eq!(context.get_value("major"), Some(ScriptValue::Int(4)));
    assert_eq!(context.get_value("minor"), Some(ScriptValue::Int(0)));
    assert_eq!(context.get_value("fresh"), Some(text("new")));
}

#[test]
fn assignments_before_a_failure_stay() {
    let mut context = RunContext::new();
    context.set_value("major", &ScriptValue::Int(3)).unwrap();
    assert_eq!(
        context.run("major = 9; major = missing"),
        Err("Variable identifier is not bound to anything by context: \"missing\".".to_string())
    );
    assert_eq!(context.get_value("major"), Some(ScriptValue::Int(9)));
}

#[test]
fn running_keeps_the_kind_of_a_variable() {
    let mut context = RunContext::new();
    context.set_value("major", &ScriptValue::Int(3)).unwrap();
    assert_eq!(context.run("major = \"x\""), Err("Expected a Value::Int, but got String(\"x\").".to_string()));
    assert_eq!(context.run("major = 1 / 0"), Err("Error dividing 1 / 0".to_string()));
    assert_eq!(context.get_value("major"), Some(ScriptValue::Int(3)));
}

#[test]
fn the_ternary_function_is_registered() {
    let mut context = RunContext::new();
    context.set_value("buildType", &text("test")).unwrap();
    assert_eq!(context.eval("if(buildType == \"test\", \"-test\", \"-prod\")"), Ok(text("-test")));
    assert_eq!(context.eval("if(buildType == \"prod\", 1, 2)"), Ok(ScriptValue::Int(2)));
    assert_eq!(context.eval("if(1, 2, 3)"), Err("Expected a Value::Boolean, but got Int(1).".to_string()));
    assert_eq!(context.eval("if(true)"), Err("Expected a Value::Tuple, but got Boolean(true).".to_string()));
    assert_eq!(
        context.eval("if(false, 1)"),
        Err("Expected a Value::Tuple of len 3, but got Tuple([Boolean(false), Int(1)]).".to_string())
    );
    assert_eq!(context.eval("if(true, 1)"), Ok(ScriptValue::Int(1)));
    assert_eq!(context.eval("if(true, 1, 2, 3)"), Ok(ScriptValue::Int(1)));
}

#[test]
fn ternary_picks_by_its_first_item() {
    let pick = |items: Vec<ScriptValue>| ternary(ScriptValue::Tuple(items));
    assert!(matches!(pick(vec![ScriptValue::Bool(true), text("a"), text("b")]), Ternary::Chosen(v) if v == text("a")));
    assert!(matches!(pick(vec![ScriptValue::Bool(false), text("a"), text("b")]), Ternary::Chosen(v) if v == text("b")));
    assert!(matches!(pick(vec![ScriptValue::Int(0), text("a"), text("b")]), Ternary::NotBoolean(v) if v == ScriptValue::Int(0)));
    assert!(matches!(pick(vec![]), Ternary::Missing(3)));
    assert!(matches!(pick(vec![ScriptValue::Bool(false), text("a")]), Ternary::Missing(3)));
    assert!(matches!(pick(vec![ScriptValue::Bool(true)]), Ternary::Missing(3)));
    assert!(matches!(ternary(ScriptValue::Bool(true)), Ternary::NotTuple));
    assert!(matches!(ternary(ScriptValue::Empty), Ternary::NotTuple));
}

#[test]
fn kinds_of_values() {
    assert_eq!(text("a").kind(), ValueKind::Str);
    assert_eq!(ScriptValue::Float(0).kind(), ValueKind::Float);
    assert_eq!(ScriptValue::Int(0).kind(), ValueKind::Int);
    assert_eq!(ScriptValue::Bool(false).kind(), ValueKind::Bool);
    assert_eq!(ScriptValue::Tuple(vec![]).kind(), ValueKind::Tuple);
    assert_eq!(ScriptValue::Empty.kind(), ValueKind::Empty);
}

const REFUSAL: &str = "The functions 'shl' and 'shr' are not supported";

#[test]
fn an_expression_that_names_a_shift_is_refused() {
    let mut context = RunContext::new();
    context.set_value("major", &ScriptValue::Int(3)).unwrap();
    assert_eq!(context.eval("shl(1, 64)"), Err(REFUSAL.to_string()));
    assert_eq!(context.eval("shr(major, -1)"), Err(REFUSAL.to_string()));
    assert_eq!(context.eval("shl(1, 2)"), Err(REFUSAL.to_string()));
    assert_eq!(context.eval_text("str::from(shl(1, 64))"), Err(REFUSAL.to_string()));
    assert_eq!(context.run("major = shl(1, 64)"), Err(REFUSAL.to_string()));
    assert_eq!(context.run("major = 9; major = shr(1, 64)"), Err(REFUSAL.to_string()));
    assert_eq!(context.get_value("major"), Some(ScriptValue::Int(3)));
}

#[test]
fn the_letters_of_a_shift_are_found_anywhere() {
    assert!(mentions_shift("shl"));
    assert!(mentions_shift("shr"));
    assert!(mentions_shift("1 + shl(2, 3)"));
    assert!(mentions_shift("a = shr (1,1)"));
    assert!(mentions_shift("\"shr\""));
    assert!(mentions_shift("1+shl(1,1)"));
    assert!(mentions_shift("x;shr"));
    assert!(mentions_shift("\u{a0}shl\u{a0}"));
    assert!(mentions_shift("#shl"));
    assert!(!mentions_shift("flashlight + 1"));
    assert!(!mentions_shift("pushlevel"));
    assert!(!mentions_shift("shlx shr1 _shl shr_ a::shl shl::a shl.x"));
    assert!(!mentions_shift(""));
    assert!(!mentions_shift("sh"));
    assert!(!mentions_shift("shL(1, 2)"));
    assert!(!mentions_shift("s h l"));
    assert!(!mentions_shift("major += 1; minor = 0"));
    assert!(!mentions_shift("äöü ß € shx rhs lhs"));
}

#[test]
fn powers_and_the_other_functions_are_evaluated() {
    let mut context = RunContext::new();
    context.set_value("flashlight", &ScriptValue::Int(5)).unwrap();
    assert_eq!(context.eval("flashlight + 1"), Ok(ScriptValue::Int(6)));
    assert_eq!(context.eval("2 ^ 3"), Ok(ScriptValue::Float(8.0f64.to_bits())));
    assert_eq!(context.eval("math::sqrt(16)"), Ok(ScriptValue::Float(4.0f64.to_bits())));
    assert_eq!(context.eval("bitand(6, 3)"), Ok(ScriptValue::Int(2)));
    assert_eq!(context.eval("min(4, 2, 9)"), Ok(ScriptValue::Int(2)));
    assert_eq!(context.eval("len(\"abc\")"), Ok(ScriptValue::Int(3)));
    assert_eq!(context.eval_text("str::to_uppercase(\"abc\")"), Ok("ABC".to_string()));
}

#[test]
fn running_keeps_every_variable() {
    let mut context = RunContext::new();
    context.set_value("a", &ScriptValue::Int(1)).unwrap();
    context.set_value("b", &ScriptValue::Str("x".to_string())).unwrap();
    let _ = context.run("a = 2; b = 3; a = 4");
    assert_eq!(context.get_value("a"), Some(ScriptValue::Int(2)));
    assert_eq!(context.get_value("b"), Some(ScriptValue::Str("x".to_string())));
}
