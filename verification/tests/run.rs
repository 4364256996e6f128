use stampver::clock::Today;
use stampver::parse::parse_script;
use stampver::process::{effect_failure, process_file, Effect};
use stampver::rewrite::update_script_file;
use stampver::run::{FileRequest, Run};
use stampver::setup::build_run_context;
use stampver::target::read_targets;
use stampver::{ErrorKind, RunContext, ScriptValue, StampVerLog, StampVerTool};
use std::cell::RefCell;

const VERSION_CONTENT: &str = r##"// Test file
  {
    vars: {
      major: 3,
      minor: 0,
      patch: 0,
      build: 20210902,
      revision: 0,
      tz: "America/Los_Angeles",
      sequence: 6,
      buildType: "test",
      pi: 3.14,
      debug: true,
    },
    calcVars: {
      nextBuild: "now::year * 10000 + now::month * 100 + now::day",
      nextSequence: "sequence + 1",
    },
    operations: {
      incrMajor: "major += 1; minor = 0; patch = 0; revision = 0; build = nextBuild",
      incrMinor: "minor += 1; patch = 0; revision = 0; build = nextBuild",
      incrPatch: "patch += 1; revision = 0; build = nextBuild",
      incrRevision: "revision += 1; build = nextBuild",
      incrSequence: "sequence += 1",
      setBetaBuild: 'buildType = "beta"',
      setProdBuild: 'buildType = "prod"',
    },
    targets: [
      {
        description: "NodeJS package file",
        files: ["package.json"],
        updates: [
          {
            search: '^(?P<begin>\\s*"version"\\s*:\\s*")\\d+\\.\\d+\\.\\d+(?P<end>")',
            replace: 'begin + str::from(major) + "." + str::from(minor) + "." + str::from(patch) + end',
          },
        ],
      },
      {
        description: "TypeScript version",
        files: ["version.ts"],
        updates: [
          {
            search: '^(?P<begin>\\s*export\\s*const\\s*version\\s*=\\s*")\\d+\\.\\d+\\.\\d+(?P<end>";?)$',
            replace: 'begin + str::from(major) + "." + str::from(minor) + "." + str::from(patch) + end',
          },
          {
            search: '^(?P<begin>\\s*export\\s*const\\s*fullVersion\\s*=\\s*")\\d+\\.\\d+\\.\\d+\\+\\d+\\.\\d+(?P<end>";?)$',
            replace: 'begin + str::from(major) + "." + str::from(minor) + "." + str::from(patch) + "+" + str::from(build) + "." + str::from(revision) + end',
          },
        ],
      },
      {
        description: "Git version tag commit message",
        files: ["version.desc.txt"],
        write: '"Version" + str::from(major) + "." + str::from(minor) + "." + str::from(patch) + "+" + str::from(build) + "." + str::from(revision)',
      },
      {
        description: "Google Firebase",
        files: ["some-file.plist"],
        copyFrom: '"some-file" + if(buildType == "test", "-test", "-prod") + ".plist"',
      },
    ],
  }
          "##;

const PACKAGE_JSON_CONTENT: &str = r##"
  {
    "name": "dummy",
    "version": "0.0.0"
  }
      "##;

const VERSION_TS_CONTENT: &str = r##"
  export const version = "10.0.0";
  export const fullVersion = "10.0.0+20210903.0";
      "##;

struct TestLogger {
    lines: RefCell<Vec<String>>,
}

impl TestLogger {
    fn new() -> TestLogger {
        TestLogger { lines: RefCell::new(Vec::new()) }
    }
}

impl StampVerLog for TestLogger {
    fn output(&self, message: &str) {
        self.lines.borrow_mut().push(format!("output: {}", message));
    }

    fn warning(&self, message: &str) {
        self.lines.borrow_mut().push(format!("warning: {}", message));
    }

    fn error(&self, message: &str) {
        self.lines.borrow_mut().push(format!("error: {}", message));
    }
}

fn day() -> Today {
    Today { year: 2021, month: 9, day: 3 }
}

fn content_of(file: &str) -> Option<String> {
    match file {
        "package.json" => Some(PACKAGE_JSON_CONTENT.to_string()),
        "version.ts" => Some(VERSION_TS_CONTENT.to_string()),
        "some-file-test.plist" => Some("some-file-test".to_string()),
        _ => None,
    }
}

/// One whole run over files kept in memory; gives the effects in order and
/// the new text of the script.
fn run_in_memory(operation: &str, update: bool, logger: &TestLogger) -> (Vec<(String, Effect)>, String, bool) {
    let tool = StampVerTool::new(logger);
    let root = parse_script(VERSION_CONTENT).unwrap();
    let mut run =
        Run::start_on(&tool, "version.json5", root, Some(operation.to_string()), update, day(), None).unwrap();
    let mut effects = Vec::new();
    while let Some(request) = run.next_request() {
        let path = format!("/tmp/project/{}", request.name);
        let content = if request.read { content_of(&request.name) } else { None };
        let report = run.process_next(&tool, &path, content).unwrap().unwrap();
        tool.file_done(&report);
        effects.push((request.name, report.effect));
    }
    assert!(run.is_done());
    assert!(run.process_next(&tool, "x", None).is_none());
    let done = run.finish(&tool, VERSION_CONTENT.to_string()).unwrap();
    (effects, done.text, done.write)
}

#[test]
fn test_run() {
    let logger = TestLogger::new();

    let (dry, dry_text, dry_write) = run_in_memory("incrMajor", false, &logger);
    assert_eq!(dry.len(), 4);
    assert!(dry.iter().all(|(_, effect)| *effect == Effect::Nothing));
    assert!(!dry_write);

    let (effects, text, write) = run_in_memory("incrMajor", true, &logger);
    assert!(write);
    assert_eq!(text, dry_text);
    assert_eq!(
        effects[0],
        (
            "package.json".to_string(),
            Effect::Write("\n  {\n    \"name\": \"dummy\",\n    \"version\": \"4.0.0\"\n  }\n      ".to_string())
        )
    );
    assert_eq!(
        effects[1],
        (
            "version.ts".to_string(),
            Effect::Write(
                "\n  export const version = \"4.0.0\";\n  export const fullVersion = \"4.0.0+20210903.0\";\n      "
                    .to_string()
            )
        )
    );
    assert_eq!(
        effects[2],
        ("version.desc.txt".to_string(), Effect::Write("Version4.0.0+20210903.0".to_string()))
    );
    assert_eq!(
        effects[3],
        ("some-file.plist".to_string(), Effect::Copy("some-file-test.plist".to_string()))
    );
    assert!(text.contains("      major: 4,\n      minor: 0,\n      patch: 0,\n      build: 20210903,\n"));
    assert!(text.contains("      tz: \"America/Los_Angeles\",\n"));
    assert!(text.contains("      pi: 3.14,\n      debug: true,\n"));
    assert_eq!(text.len(), VERSION_CONTENT.len());
}

#[test]
fn run_reports_progress_and_operation() {
    let logger = TestLogger::new();
    run_in_memory("incrMajor", false, &logger);
    let lines = logger.lines.borrow();
    assert_eq!(
        *lines,
        vec![
            "output: Operation 'incrMajor'".to_string(),
            "output: Would update 'NodeJS package file' -> '/tmp/project/package.json'".to_string(),
            "output: Would update 'TypeScript version' -> '/tmp/project/version.ts'".to_string(),
            "output: Would write 'Git version tag commit message' -> '/tmp/project/version.desc.txt'".to_string(),
            "output: Would copy 'Google Firebase' -> '/tmp/project/some-file.plist'".to_string(),
        ]
    );
}

#[test]
fn applied_run_reports_what_was_done() {
    let logger = TestLogger::new();
    run_in_memory("incrPatch", true, &logger);
    let lines = logger.lines.borrow();
    assert_eq!(lines[1], "output: Updated 'NodeJS package file' -> '/tmp/project/package.json'");
    assert_eq!(lines[3], "output: Wrote 'Git version tag commit message' -> '/tmp/project/version.desc.txt'");
    assert_eq!(lines[4], "output: Copied 'Google Firebase' -> '/tmp/project/some-file.plist'");
}

#[test]
fn incr_major_sets_the_variables() {
    let root = parse_script(
        r#"{
            vars: { major: 3, minor: 0, patch: 0, revision: 0, build: 20210902 },
            calcVars: { nextBuild: "now::year * 10000 + now::month * 100 + now::day" },
            operations: { incrMajor: "major += 1; minor = 0; patch = 0; revision = 0; build = nextBuild" },
            targets: [],
        }"#,
    )
    .unwrap();
    let (mut context, warnings) = build_run_context(&root, day(), None).unwrap();
    assert!(warnings.is_empty());
    stampver::operation::run_operation(Some("incrMajor"), &root, &mut context).unwrap();
    assert_eq!(context.get_value("major"), Some(ScriptValue::Int(4)));
    assert_eq!(context.get_value("minor"), Some(ScriptValue::Int(0)));
    assert_eq!(context.get_value("patch"), Some(ScriptValue::Int(0)));
    assert_eq!(context.get_value("revision"), Some(ScriptValue::Int(0)));
    assert_eq!(context.get_value("build"), Some(ScriptValue::Int(20210903)));
}

#[test]
fn update_replaces_the_version() {
    let root = parse_script(
        r#"{ targets: [ {
            description: "package",
            files: ["package.json"],
            updates: [ {
                search: '^(?P<begin>\\s*"version"\\s*:\\s*")\\d+\\.\\d+\\.\\d+(?P<end>")',
                replace: 'begin + str::from(major) + "." + str::from(minor) + "." + str::from(patch) + end',
            } ],
        } ] }"#,
    )
    .unwrap();
    let targets = read_targets(&root).unwrap();
    let mut context = RunContext::new();
    context.set_value("major", &ScriptValue::Int(4)).unwrap();
    context.set_value("minor", &ScriptValue::Int(0)).unwrap();
    context.set_value("patch", &ScriptValue::Int(0)).unwrap();
    let report = process_file(
        &targets[0],
        &targets[0].files[0],
        "package.json",
        Some("\"version\": \"0.0.0\"".to_string()),
        true,
        &mut context,
    )
    .unwrap();
    assert_eq!(report.effect, Effect::Write("\"version\": \"4.0.0\"".to_string()));
    assert!(report.warnings.is_empty());
    assert_eq!(report.progress, "Updated 'package' -> 'package.json'");
    assert_eq!(context.get_value("begin"), Some(ScriptValue::Str("\"version\": \"".to_string())));
    assert_eq!(context.get_value("end"), Some(ScriptValue::Str("\"".to_string())));
}

#[test]
fn failed_copy_names_both_paths() {
    let root = parse_script(
        r#"{ targets: [ { description: "Firebase", files: ["some-file.plist"], copyFrom: '"missing" + ".plist"' } ] }"#,
    )
    .unwrap();
    let targets = read_targets(&root).unwrap();
    let mut context = RunContext::new();
    let report =
        process_file(&targets[0], &targets[0].files[0], "/p/some-file.plist", None, true, &mut context).unwrap();
    assert_eq!(report.effect, Effect::Copy("missing.plist".to_string()));
    let error = effect_failure(&targets[0], &targets[0].files[0], "/p/some-file.plist", "/p/missing.plist");
    assert_eq!(error.kind, ErrorKind::CopyFailed);
    assert_eq!(error.message, "unable to copy /p/missing.plist to /p/some-file.plist");
    assert_eq!(error.location.map(|l| l.line), Some(1));
    assert_eq!(error.script_file, None);
}

#[test]
fn rewrite_keeps_everything_but_the_value() {
    let content = "{\n  vars: {\n    major: 3, // the major version\n    minor: 10,\n  },\n}\n";
    let root = parse_script(content).unwrap();
    let mut context = RunContext::new();
    context.set_value("major", &ScriptValue::Int(4)).unwrap();
    let once = update_script_file(content.to_string(), &root, &context, false).unwrap();
    assert_eq!(once.text, "{\n  vars: {\n    major: 4, // the major version\n    minor: 10,\n  },\n}\n");
    assert!(!once.write);
    let twice = update_script_file(once.text.clone(), &root, &context, true).unwrap();
    assert_eq!(twice.text, once.text);
    assert!(twice.write);
}

fn started(text: &str, operation: Option<&str>) -> Result<Run, stampver::ScriptError> {
    let logger = TestLogger::new();
    let tool = StampVerTool::new(&logger);
    Run::start_on(
        &tool,
        "dir/version.json5",
        parse_script(text).unwrap(),
        operation.map(|o| o.to_string()),
        true,
        day(),
        None,
    )
}

#[test]
fn every_error_of_a_run_names_the_script_file() {
    let failed = |text: &str, operation: Option<&str>| match started(text, operation) {
        Ok(_) => panic!("the run started"),
        Err(error) => {
            assert_eq!(error.script_file, Some("dir/version.json5".to_string()));
            (error.kind, error.message)
        }
    };
    assert_eq!(failed("[]", Some("o")), (ErrorKind::Structure, "Node <root> is not an object".to_string()));
    let body = "operations: { o: 'a = nothing' }, targets: [ { description: 'd', files: ['f'], write: 'w' } ]";
    assert_eq!(
        failed(&format!("{{ vars: {{ a: 1 }}, calcVars: {{ b: 'c' }}, {} }}", body), Some("o")),
        (ErrorKind::Script, "Variable identifier is not bound to anything by context: \"c\".".to_string())
    );
    assert_eq!(
        failed(&format!("{{ vars: {{ a: 1 }}, {} }}", body), Some("p")),
        (ErrorKind::OperationNotFound, "Operation 'p' not found".to_string())
    );
    assert_eq!(
        failed(&format!("{{ vars: {{ a: 1 }}, {} }}", body), None),
        (ErrorKind::OperationNotFound, "Specify a valid operation, one of 'o'".to_string())
    );
    assert_eq!(
        failed(&format!("{{ vars: {{ a: 1 }}, {} }}", body), Some("o")),
        (ErrorKind::Script, "Variable identifier is not bound to anything by context: \"nothing\".".to_string())
    );
}

#[test]
fn a_run_takes_the_files_in_written_order() {
    let logger = TestLogger::new();
    let tool = StampVerTool::new(&logger);
    let mut run = started(
        "{ vars: { a: 1 }, operations: { o: 'a += 1' }, targets: [
            { description: 'one', files: ['a.txt', 'b.txt'], updates: [ { search: 'x', replace: 'a' } ] },
            { description: 'two', files: ['c.txt'], write: '\"w\" + str::from(a)' },
        ] }",
        Some("o"),
    )
    .unwrap();
    assert!(run.last_file().is_none());
    assert_eq!(run.next_request(), Some(FileRequest { name: "a.txt".to_string(), read: true }));
    // the failing file stays the next one
    let error = run.process_next(&tool, "/p/a.txt", Some("x".to_string())).unwrap().unwrap_err();
    assert_eq!(error.kind, ErrorKind::Script);
    assert_eq!(error.message, "Expected a Value::String, but got Int(2).");
    assert_eq!(error.script_file, Some("dir/version.json5".to_string()));
    assert_eq!(run.next_request(), Some(FileRequest { name: "a.txt".to_string(), read: true }));
    let error = run.process_next(&tool, "/p/a.txt", None).unwrap().unwrap_err();
    assert_eq!(error.kind, ErrorKind::FileUnreadable);
    assert_eq!(error.script_file, Some("dir/version.json5".to_string()));
    assert!(run.last_file().is_none());
    let report = run.process_next(&tool, "/p/a.txt", Some("y".to_string())).unwrap().unwrap();
    assert_eq!(report.effect, Effect::Write("y".to_string()));
    assert_eq!(run.last_file().map(|(target, file)| (target.description.clone(), file.name.clone())), Some(("one".to_string(), "a.txt".to_string())));
    assert_eq!(run.next_request(), Some(FileRequest { name: "b.txt".to_string(), read: true }));
    run.process_next(&tool, "/p/b.txt", Some("".to_string())).unwrap().unwrap();
    assert_eq!(run.next_request(), Some(FileRequest { name: "c.txt".to_string(), read: false }));
    assert!(!run.is_done());
    let report = run.process_next(&tool, "/p/c.txt", None).unwrap().unwrap();
    assert_eq!(report.effect, Effect::Write("w2".to_string()));
    assert_eq!(run.next_request(), None);
    assert!(run.is_done());
    assert_eq!(run.last_file().map(|(_, file)| file.name.clone()), Some("c.txt".to_string()));
    let done = run.finish(&tool, "vars: {\n a: 1,\n}\n".to_string()).unwrap();
    assert_eq!(done.text, "vars: {\n a: 2,\n}\n");
    assert!(done.write);
}

#[test]
fn the_error_of_a_failed_effect_names_the_script_file() {
    let logger = TestLogger::new();
    let tool = StampVerTool::new(&logger);
    let mut run = started(
        "{ vars: { a: 1 }, operations: { o: 'a += 1' }, targets: [
            { description: 'one', files: ['a.txt'], updates: [ { search: 'x', replace: '\"y\"' } ] },
            { description: 'two', files: ['c.txt'], copyFrom: '\"s.txt\"' },
        ] }",
        Some("o"),
    )
    .unwrap();
    run.process_next(&tool, "/p/a.txt", Some("x".to_string())).unwrap().unwrap();
    let error = run.effect_failed("/p/a.txt", "");
    assert_eq!(error.kind, ErrorKind::WriteFailed);
    assert_eq!(error.message, "Unable to write to file '/p/a.txt'");
    assert_eq!(error.script_file, Some("dir/version.json5".to_string()));
    assert_eq!(error.location.map(|l| l.line), Some(2));
    run.process_next(&tool, "/p/c.txt", None).unwrap().unwrap();
    let error = run.effect_failed("/p/c.txt", "/p/s.txt");
    assert_eq!(error.kind, ErrorKind::CopyFailed);
    assert_eq!(error.message, "unable to copy /p/s.txt to /p/c.txt");
    assert_eq!(error.script_file, Some("dir/version.json5".to_string()));
    assert_eq!(error.location.map(|l| l.line), Some(3));
}

#[test]
fn a_run_does_not_start_on_a_shift() {
    let error = match started(
        "{ vars: { a: 1 }, operations: { o: 'a = shl(a, 1)' }, targets: [ { description: 'd', files: ['f'], write: '\"w\"' } ] }",
        Some("o"),
    ) {
        Ok(_) => panic!("the run started"),
        Err(error) => error,
    };
    assert_eq!(error.kind, ErrorKind::Script);
    assert_eq!(error.message, "The functions 'shl' and 'shr' are not supported");
    assert_eq!(error.script_file, Some("dir/version.json5".to_string()));
}
