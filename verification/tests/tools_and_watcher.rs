use codex_code_review::tools::{
    execute_tool, register_review_tools, ParamKind, ReviewTool, ToolOutput, ToolRequest,
};
use codex_code_review::watcher::{passes_watch_patterns, watch_pattern_matches, ChangeKind, FileWatcher, WatchEvent};

#[test]
fn test_tool_names() {
    assert_eq!(ReviewTool::AnalyzeCode.name(), "analyze_code");
    assert_eq!(ReviewTool::DetectBugs.name(), "detect_bugs");
}

#[test]
fn test_requires_ai() {
    assert!(ReviewTool::DetectBugs.requires_ai());
    assert!(!ReviewTool::CheckStyle.requires_ai());
}

#[test]
fn test_register_tools() {
    let tools = register_review_tools().unwrap();
    assert_eq!(tools.len(), 8);
    assert!(tools.iter().any(|t| t.name == "analyze_code"));
}

#[test]
fn registered_schemas() {
    let tools = register_review_tools().unwrap();
    let bugs = &tools[1];
    assert_eq!(bugs.tool, ReviewTool::DetectBugs);
    assert_eq!(bugs.description, "Detect potential bugs and security issues");
    assert_eq!(bugs.parameters.required, vec!["file_path".to_string()]);
    let threshold = &bugs.parameters.properties[1];
    assert_eq!(threshold.name, "severity_threshold");
    assert_eq!(threshold.kind, ParamKind::Text);
    assert_eq!(threshold.allowed, vec!["info", "warning", "error", "critical"]);
    let dup = &tools[7];
    assert_eq!(dup.parameters.required, vec!["directory".to_string()]);
    assert_eq!(dup.parameters.properties[1].kind, ParamKind::Integer);
}

#[test]
fn test_execute_tool() {
    let request = ToolRequest {
        tool: ReviewTool::CheckStyle,
        file_path: "test.rs".to_string(),
        params: serde_json::Value::Object(serde_json::Map::new()),
    };
    let response = execute_tool(request).unwrap();
    assert!(response.success);
    assert!(matches!(response.result, ToolOutput::StyleIssues));
}

#[test]
fn execute_unimplemented_tool() {
    let request = ToolRequest {
        tool: ReviewTool::GenerateTests,
        file_path: "test.rs".to_string(),
        params: serde_json::Value::Null,
    };
    let response = execute_tool(request).unwrap();
    match response.result {
        ToolOutput::Message(m) => assert_eq!(m, "Tool generate_tests not yet implemented"),
        other => panic!("unexpected {other:?}"),
    }
    let complexity = execute_tool(ToolRequest {
        tool: ReviewTool::MeasureComplexity,
        file_path: "x".to_string(),
        params: serde_json::Value::Null,
    })
    .unwrap();
    assert!(matches!(complexity.result, ToolOutput::Complexity { complexity: 5 }));
}

#[test]
fn test_watch_event_paths() {
    let event = WatchEvent::Modified("/test/file.rs".to_string());
    let paths = event.paths();
    assert_eq!(paths.len(), 1);
    assert_eq!(paths[0], "/test/file.rs");
}

#[test]
fn test_should_trigger_review() {
    assert!(WatchEvent::Modified("test.rs".to_string()).should_trigger_review());
    assert!(WatchEvent::Created("test.rs".to_string()).should_trigger_review());
    assert!(!WatchEvent::Deleted("test.rs".to_string()).should_trigger_review());
}

#[test]
fn batch_paths_and_trigger() {
    let event = WatchEvent::Batch(vec!["a.rs".to_string(), "b.rs".to_string()]);
    assert_eq!(event.paths(), vec!["a.rs", "b.rs"]);
    assert!(event.should_trigger_review());
}

#[test]
fn watch_patterns() {
    // Patterns with `**` are globs over the whole path.
    assert!(watch_pattern_matches("**/*.rs", "/w/src/main.rs"));
    assert!(watch_pattern_matches("**/*.rs", "main.rs"));
    assert!(!watch_pattern_matches("**/*.rs", "/w/src/main.py"));
    assert!(!watch_pattern_matches("**/*.rs", "/w/src/main.rs.bak"));
    assert!(watch_pattern_matches("**/target/**", "x/target/debug/a.rs"));
    assert!(!watch_pattern_matches("**/target/**", "x/targets/a.rs"));
    assert!(!watch_pattern_matches("**/foo.rs", "/w/barfoo.rs"));
    assert!(watch_pattern_matches("**/src/?.rs", "/w/src/a.rs"));
    assert!(!watch_pattern_matches("**/src/*.rs", "/w/src/a/b.rs"));
    // Other patterns match where they occur in the path.
    assert!(watch_pattern_matches("src", "/home/me/src/lib.py"));
    assert!(!watch_pattern_matches("lib", "main.rs"));
    assert!(passes_watch_patterns(&vec![], "anything"));
    assert!(passes_watch_patterns(&vec!["**/*.py".to_string(), "**/*.rs".to_string()], "a.rs"));
    assert!(!passes_watch_patterns(&vec!["**/*.py".to_string()], "a.rs"));
}

#[test]
fn test_file_watcher_creation() {
    let watcher = FileWatcher::new(
        "/tmp/project".to_string(),
        vec!["**/*.rs".to_string()],
        vec!["**/target/**".to_string()],
    );
    assert!(watcher.is_ok());
}

#[test]
fn watcher_events() {
    let watcher = FileWatcher::new(
        "/tmp/project".to_string(),
        vec!["**/*.rs".to_string()],
        vec!["**/target/**".to_string()],
    )
    .unwrap();
    let ev = watcher
        .event_for(ChangeKind::Modify, vec!["/tmp/project/src/a.rs".to_string()], vec![false])
        .unwrap();
    assert!(matches!(ev, WatchEvent::Modified(ref p) if p == "/tmp/project/src/a.rs"));
    let none = watcher.event_for(
        ChangeKind::Create,
        vec!["/tmp/project/target/debug/b.rs".to_string(), "/tmp/project/c.py".to_string()],
        vec![false, false],
    );
    assert!(none.is_none());
    let batch = watcher
        .event_for(
            ChangeKind::Remove,
            vec!["/tmp/project/a.rs".to_string(), "/tmp/project/b.rs".to_string()],
            vec![false, false],
        )
        .unwrap();
    assert!(matches!(batch, WatchEvent::Batch(ref ps) if ps.len() == 2));
    assert!(watcher
        .event_for(ChangeKind::Other, vec!["/tmp/project/a.rs".to_string()], vec![false])
        .is_none());
}

#[test]
fn invalid_ignore_pattern_is_refused() {
    let watcher = FileWatcher::new("/tmp/project".to_string(), vec![], vec!["a[".to_string(), "{".to_string()]);
    assert!(watcher.is_err());
}

#[test]
fn docs_example_pattern_reviews_saved_rust_file() {
    let watcher = FileWatcher::new("/w".to_string(), vec!["**/*.rs".to_string()], vec![]).unwrap();
    let ev = watcher
        .event_for(ChangeKind::Modify, vec!["/w/src/main.rs".to_string()], vec![false])
        .unwrap();
    assert!(matches!(ev, WatchEvent::Modified(ref p) if p == "/w/src/main.rs"));
}

#[test]
fn comment_and_blank_ignore_lines_are_accepted() {
    let watcher = FileWatcher::new(
        "./w".to_string(),
        vec![],
        vec!["# build output".to_string(), "   ".to_string(), "target/   ".to_string()],
    )
    .unwrap();
    assert!(watcher
        .event_for(ChangeKind::Modify, vec!["w/target".to_string()], vec![true])
        .is_none());
    assert!(watcher
        .event_for(ChangeKind::Modify, vec!["w/src/a.rs".to_string()], vec![false])
        .is_some());
}
