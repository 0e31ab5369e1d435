use codex_code_review::analyzer::{IssueCategory, IssueSeverity};
use codex_code_review::linters::clippy::{
    ClippyLinter, ClippyMessage, CompilerMessage, DiagnosticCode, DiagnosticSpan, DiagnosticSpanText,
};
use codex_code_review::linters::eslint::{has_output, ESLintFix, ESLintLinter, ESLintMessage, ESLintResult};
use codex_code_review::linters::generic::{parse_usize, GenericLinter, OutputParser};
use codex_code_review::linters::pylint::{PylintLinter, PylintMessage};
use codex_code_review::linters::{AnyLinter, Linter, LinterRegistry};

fn clippy_message(code: &str, level: &str, spans: Vec<DiagnosticSpan>) -> ClippyMessage {
    ClippyMessage {
        reason: "compiler-message".to_string(),
        message: Some(CompilerMessage {
            message: "this is a test".to_string(),
            code: Some(DiagnosticCode { code: Some(code.to_string()) }),
            level: level.to_string(),
            spans,
            rendered: Some("rendered message".to_string()),
        }),
    }
}

fn span(line: usize, texts: &[&str]) -> DiagnosticSpan {
    span_in("src/a.rs", line, texts)
}

fn span_in(file: &str, line: usize, texts: &[&str]) -> DiagnosticSpan {
    DiagnosticSpan {
        file_name: file.to_string(),
        line_start: line,
        line_end: line,
        column_start: 5,
        column_end: 10,
        text: texts.iter().map(|t| DiagnosticSpanText { text: t.to_string() }).collect(),
    }
}

#[test]
fn clippy_test_supported_extensions() {
    let linter = ClippyLinter::new();
    assert!(linter.supported_extensions().contains(&"rs"));
}

#[test]
fn test_parse_clippy_output() {
    // {"reason":"compiler-message","message":{"message":"this is a test","code":{"code":"clippy::test"},
    //  "level":"warning","spans":[{"line_start":10,...,"text":[{"text":"test line"}]}],"rendered":"rendered message"}}
    let linter = ClippyLinter::new();
    let output = r#"{"reason":"compiler-message","message":{"message":"this is a test","code":{"code":"clippy::test"},"level":"warning","spans":[{"line_start":10,"line_end":10,"column_start":5,"column_end":10,"text":[{"text":"test line"}]}],"rendered":"rendered message"}}"#;
    let lines = ClippyLinter::json_lines_of(output);
    assert_eq!(lines.len(), 1);
    let msgs = vec![Some(clippy_message("clippy::test", "warning", vec![span(10, &["test line"])]))];
    let issues = linter.issues_from_messages(msgs);
    assert_eq!(issues.len(), 1);
    assert_eq!(issues[0].line, Some(10));
    assert_eq!(issues[0].severity, IssueSeverity::Warning);
    assert_eq!(issues[0].snippet.as_deref(), Some("test line"));
    assert_eq!(issues[0].suggested_fix.as_deref(), Some("rendered message"));
}

#[test]
fn clippy_skips_other_messages() {
    let linter = ClippyLinter::new();
    assert!(linter.convert_to_issue(clippy_message("E0308", "error", vec![])).is_none());
    assert!(linter.convert_to_issue(clippy_message("clippy::x", "failure-note", vec![])).is_none());
    assert!(linter.convert_to_issue(clippy_message("clippy::x", "error", vec![span(3, &[])])).is_none());
    let no_span = linter.convert_to_issue(clippy_message("clippy::x", "note", vec![])).unwrap();
    assert_eq!(no_span.severity, IssueSeverity::Info);
    assert_eq!(no_span.line, None);
    let mut other = clippy_message("clippy::x", "error", vec![]);
    other.reason = "build-finished".to_string();
    assert!(linter.convert_to_issue(other).is_none());
    let lines = ClippyLinter::json_lines_of("Compiling x\n  {\"a\":1}\nwarning: y\n");
    assert_eq!(lines, vec!["  {\"a\":1}".to_string()]);
    let kept = linter.file_issues(
        vec![
            None,
            Some(clippy_message("clippy::x", "help", vec![])),
            Some(clippy_message("clippy::x", "warning", vec![span(2, &["t"])])),
        ],
        "src/a.rs",
    );
    assert_eq!(kept.len(), 1);
    assert_eq!(kept[0].line, Some(2));
}

#[test]
fn clippy_keeps_only_the_linted_files_issues() {
    let linter = ClippyLinter::new();
    let msgs = || {
        vec![
            Some(clippy_message("clippy::x", "warning", vec![span_in("src/a.rs", 1, &["in a"])])),
            Some(clippy_message("clippy::x", "warning", vec![span_in("src/b.rs", 2, &["in b"])])),
            Some(clippy_message("clippy::x", "error", vec![span_in("src/a.rs", 3, &["again a"])])),
        ]
    };
    let a = linter.file_issues(msgs(), "/work/project/src/a.rs");
    assert_eq!(a.len(), 2);
    assert_eq!(a[0].snippet.as_deref(), Some("in a"));
    assert_eq!(a[1].line, Some(3));
    let b = linter.file_issues(msgs(), "src/b.rs");
    assert_eq!(b.len(), 1);
    assert_eq!(b[0].snippet.as_deref(), Some("in b"));
    assert!(linter.file_issues(msgs(), "/work/project/src/xa.rs").is_empty());
}

#[test]
fn clippy_command_line() {
    let linter = ClippyLinter::new();
    let cmd = linter.command();
    assert_eq!(cmd.program, "cargo");
    assert_eq!(cmd.args, vec!["clippy", "--message-format=json", "--", "-W", "clippy::all"]);
    let custom = ClippyLinter::with_flags(vec!["-q".to_string()]);
    assert_eq!(custom.command().args, vec!["clippy", "-q"]);
}

#[test]
fn test_parse_eslint_output() {
    let linter = ESLintLinter::new();
    let results = vec![ESLintResult {
        file_path: "/test/file.js".to_string(),
        messages: vec![ESLintMessage {
            rule_id: Some("no-unused-vars".to_string()),
            severity: 2,
            message: "'x' is assigned a value but never used.".to_string(),
            line: 1,
            column: 5,
            node_type: Some("Identifier".to_string()),
            message_id: Some("unusedVar".to_string()),
            fix: None,
        }],
    }];
    let issues = linter.issues_from_results(&results);
    assert_eq!(issues.len(), 1);
    assert_eq!(issues[0].severity, IssueSeverity::Error);
    assert_eq!(issues[0].line, Some(1));
    assert_eq!(issues[0].category, IssueCategory::Bug);
    assert_eq!(issues[0].description, "'x' is assigned a value but never used. [no-unused-vars]");
}

#[test]
fn eslint_categories_and_fixes() {
    let linter = ESLintLinter::with_path("/usr/bin/eslint".to_string());
    let msg = |rule: Option<&str>, severity: u8, fix: Option<&str>| ESLintMessage {
        rule_id: rule.map(|r| r.to_string()),
        severity,
        message: "m".to_string(),
        line: 3,
        column: 4,
        node_type: None,
        message_id: None,
        fix: fix.map(|f| ESLintFix { text: f.to_string() }),
    };
    let results = vec![ESLintResult {
        file_path: "a.js".to_string(),
        messages: vec![
            msg(Some("plugin/security-x"), 1, None),
            msg(Some("complexity"), 0, Some("y")),
            msg(None, 2, None),
        ],
    }];
    let issues = linter.issues_from_results(&results);
    assert_eq!(issues[0].category, IssueCategory::Security);
    assert_eq!(issues[0].severity, IssueSeverity::Warning);
    assert_eq!(issues[1].category, IssueCategory::Complexity);
    assert_eq!(issues[1].severity, IssueSeverity::Info);
    assert_eq!(issues[1].suggested_fix.as_deref(), Some("Replace with: y"));
    assert_eq!(issues[2].category, IssueCategory::Style);
    assert_eq!(issues[2].description, "m [eslint]");
    let cmd = linter.command("a.js");
    assert_eq!(cmd.program, "/usr/bin/eslint");
    assert_eq!(cmd.args, vec!["--format=json", "--no-color", "a.js"]);
    assert!(!has_output("  \n "));
    assert!(has_output(" [] "));
}

#[test]
fn eslint_test_supported_extensions() {
    let linter = ESLintLinter::new();
    let exts = linter.supported_extensions();
    assert!(exts.contains(&"js"));
    assert!(exts.contains(&"ts"));
    assert!(exts.contains(&"tsx"));
}

#[test]
fn test_parse_pylint_output() {
    let linter = PylintLinter::new();
    let messages = vec![PylintMessage {
        message_type: "error".to_string(),
        symbol: "undefined-variable".to_string(),
        message: "Undefined variable 'foo'".to_string(),
        line: 10,
        column: 5,
        message_id: "E0602".to_string(),
    }];
    let issues = linter.issues_from_messages(&messages);
    assert_eq!(issues.len(), 1);
    assert_eq!(issues[0].severity, IssueSeverity::Error);
    assert_eq!(issues[0].line, Some(10));
    assert_eq!(issues[0].description, "Undefined variable 'foo' [undefined-variable]");
}

#[test]
fn test_categorize_message() {
    assert_eq!(PylintLinter::categorize_message("too-many-branches"), IssueCategory::Complexity);
    assert_eq!(PylintLinter::categorize_message("missing-docstring"), IssueCategory::Documentation);
    assert_eq!(PylintLinter::categorize_message("sql-injection"), IssueCategory::Security);
}

#[test]
fn categorize_message_other_rules() {
    assert_eq!(PylintLinter::categorize_message("wrong-import-order"), IssueCategory::Style);
    assert_eq!(PylintLinter::categorize_message("E1101"), IssueCategory::Bug);
    assert_eq!(PylintLinter::categorize_message("syntax-error"), IssueCategory::Bug);
    assert_eq!(PylintLinter::categorize_message("performance-hint"), IssueCategory::Performance);
    assert_eq!(PylintLinter::categorize_message("line-too-long"), IssueCategory::Style);
}

#[test]
fn pylint_test_supported_extensions() {
    let linter = PylintLinter::new();
    let exts = linter.supported_extensions();
    assert!(exts.contains(&"py"));
}

#[test]
fn test_eslint_creation() {
    let linter = GenericLinter::eslint();
    assert_eq!(linter.name(), "eslint");
    assert!(linter.supported_extensions().contains(&"js"));
}

#[test]
fn test_pylint_creation() {
    let linter = GenericLinter::pylint();
    assert_eq!(linter.name(), "pylint");
    assert!(linter.supported_extensions().contains(&"py"));
}

#[test]
fn generic_linter_commands_and_parsers() {
    let linter = GenericLinter::shellcheck();
    assert_eq!(linter.name(), "shellcheck");
    assert_eq!(linter.supported_extensions(), vec!["sh", "bash"]);
    let cmd = linter.lint_command("run.sh");
    assert_eq!(cmd.program, "shellcheck");
    assert_eq!(cmd.args, vec!["--format=json", "run.sh"]);
    assert!(linter.parse_output("anything").unwrap().is_empty());
    let regex_linter = GenericLinter::new(
        "custom".to_string(),
        "custom".to_string(),
        vec![],
        vec!["txt".to_string()],
        OutputParser::Regex(r"line (\d+): bad".to_string()),
    );
    let issues = regex_linter.parse_output("ok\nline 12: bad thing\nline x: bad").unwrap();
    assert_eq!(issues.len(), 1);
    assert_eq!(issues[0].description, "line 12: bad");
    assert_eq!(issues[0].line, Some(12));
    assert_eq!(issues[0].severity, IssueSeverity::Warning);
    assert!(regex_linter.parse_regex_output("x", "(").is_err());
    let big = regex_linter
        .parse_regex_output("n 99999999999999999999999", r"n (\d+)")
        .unwrap();
    assert_eq!(big[0].line, None);
}

#[test]
fn parse_usize_follows_std() {
    for s in ["0", "+7", "42", "007", "", "+", "-1", "1a", " 1", "18446744073709551615", "18446744073709551616"] {
        assert_eq!(parse_usize(s), s.parse::<usize>().ok(), "{s}");
    }
}

#[test]
fn test_registry_creation() {
    let registry = LinterRegistry::default();
    assert!(!registry.linters().is_empty());
}

#[test]
fn test_get_linters_for_file() {
    let registry = LinterRegistry::default();
    let linters = registry.get_linters_for_file("test.rs");
    assert!(!linters.is_empty());
}

#[test]
fn linters_are_chosen_by_extension() {
    let mut registry = LinterRegistry::new();
    registry.register(AnyLinter::Generic(GenericLinter::shellcheck()));
    registry.register(AnyLinter::Pylint(PylintLinter::new()));
    registry.register(AnyLinter::Generic(GenericLinter::pylint()));
    let names: Vec<&str> = registry.get_linters_for_file("src/app.py").iter().map(|l| l.name()).collect();
    assert_eq!(names, vec!["pylint", "pylint"]);
    assert!(registry.get_linters_for_file("README").is_empty());
    let check = registry.linters()[1].availability_check();
    assert_eq!(check.program, "pylint");
    assert_eq!(check.args, vec!["--version"]);
    let lint = registry.linters()[1].lint_command("x.py");
    assert_eq!(lint.args, vec!["--output-format=json", "--score=no", "x.py"]);
}
