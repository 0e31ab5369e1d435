use codex_code_review::analyzer::{Issue, IssueCategory, IssueSeverity};
use codex_code_review::ast_analyzer::{AstBlock, AstExpr, AstStmt, FnItem, RustFile};
use codex_code_review::cli::{
    config_file_or_default, issue_line, session_dir_or_default, AnalyzeCommand, StartCommand,
};
use codex_code_review::config::{AnalysisConfig, LocalAIConfig};
use codex_code_review::enhanced_analyzer::{language_of_extension, EnhancedAnalyzer};
use codex_code_review::init;
use codex_code_review::time::Timestamp;

fn issue(category: IssueCategory, description: &str, line: Option<usize>) -> Issue {
    Issue {
        severity: IssueSeverity::Warning,
        category,
        description: description.to_string(),
        line,
        column: None,
        snippet: None,
        suggested_fix: None,
    }
}

#[test]
fn test_init() {
    assert!(init().is_ok());
}

#[test]
fn test_detect_language() {
    let analyzer = EnhancedAnalyzer::new(AnalysisConfig::default());
    assert_eq!(analyzer.detect_language("test.rs"), "rust");
    assert_eq!(analyzer.detect_language("test.py"), "python");
    assert_eq!(analyzer.detect_language("test.js"), "javascript");
    assert_eq!(analyzer.detect_language("dir/x.cxx"), "cpp");
    assert_eq!(analyzer.detect_language("Makefile"), "unknown");
    assert_eq!(language_of_extension(Some("h")), "c");
}

#[test]
fn test_basic_metrics() {
    let analyzer = EnhancedAnalyzer::new(AnalysisConfig::default());
    let code = "\nfn test() {\n    if true {\n        println!(\"test\");\n    }\n}\n";
    let metrics = analyzer.calculate_basic_metrics(code);
    assert!(metrics.num_functions > 0);
    assert!(metrics.complexity > 1);
    assert_eq!(metrics.complexity, 2);
    assert_eq!(metrics.loc, 6);
}

#[test]
fn issues_are_deduplicated() {
    let analyzer = EnhancedAnalyzer::new(AnalysisConfig::default());
    let issues = vec![
        issue(IssueCategory::Style, "long", Some(3)),
        issue(IssueCategory::Style, "long", Some(4)),
        issue(IssueCategory::Style, "long", Some(3)),
        issue(IssueCategory::Bug, "long", Some(3)),
    ];
    let kept = analyzer.deduplicate_issues(issues);
    assert_eq!(kept.len(), 3);
    assert_eq!(kept[1].line, Some(4));
    assert_eq!(kept[2].category, IssueCategory::Bug);
}

#[test]
fn analysis_is_assembled() {
    let analyzer = EnhancedAnalyzer::new(AnalysisConfig::default()).with_ai(LocalAIConfig::default());
    assert!(analyzer.ai().is_some());
    assert!(analyzer.wants_ast("rust"));
    assert!(!analyzer.wants_ast("python"));
    let file = RustFile {
        functions: vec![FnItem {
            name: "f".to_string(),
            is_pub: true,
            attributes: vec![],
            num_params: 0,
            is_async: false,
            returns_unit: true,
            top_level: true,
            body: AstBlock { stmts: vec![AstStmt::Expr(AstExpr::Loop)] },
        }],
    };
    let ast = analyzer.analyze_with_ast(&file);
    assert!(ast.is_some());
    assert_eq!(analyzer.quick_complexity("rust", Some(&file)), Some(2));
    assert_eq!(analyzer.quick_complexity("go", Some(&file)), None);
    let gathered = analyzer.gather_issues(&ast, Some(vec![issue(IssueCategory::Style, "s", None)]), &None);
    assert_eq!(gathered.len(), 2);
    let result = analyzer.finish_analysis(
        "a.rs",
        "fn f() {}",
        "rust",
        ast,
        None,
        gathered,
        vec![],
        Timestamp { secs: 1, nanos: 0 },
        7,
    );
    let summary = result.summary();
    assert_eq!(summary.total_issues, 2);
    assert!(summary.used_ast);
    assert!(!summary.used_ai);
    assert_eq!(summary.complexity, 2);
    assert_eq!(result.basic.metrics.doc_coverage.numerator, 0);
    assert_eq!(result.basic.metrics.doc_coverage.denominator, 1);
    assert_eq!(result.all_issues().len(), 2);
    let no_ast = analyzer.with_ast(false);
    assert!(!no_ast.wants_ast("rust"));
}

#[test]
fn cli_decisions() {
    assert_eq!(session_dir_or_default(&None, "/home/me"), "/home/me/.codex/review-sessions");
    assert_eq!(session_dir_or_default(&Some("/s".to_string()), "/home/me"), "/s");
    assert_eq!(config_file_or_default(&None), "codex-review.toml");
    let start = StartCommand { dir: ".".to_string(), duration: Some(8), indefinite: false, session_dir: None, config_file: None };
    assert_eq!(start.run_secs(), Some(28_800));
    let forever = StartCommand { indefinite: true, ..start.clone() };
    assert_eq!(forever.run_secs(), None);
    let json = AnalyzeCommand { target: "a".to_string(), review_type: "full".to_string(), output: "json".to_string(), config_file: None };
    assert!(json.wants_json());
    assert_eq!(issue_line(&issue(IssueCategory::Style, "Line exceeds 100 characters", Some(45))), "   🟡 Style: Line exceeds 100 characters (line 45)");
}
