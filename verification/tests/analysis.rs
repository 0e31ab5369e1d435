use codex_code_review::analyzer::{CodeAnalyzer, IssueCategory, IssueSeverity};
use codex_code_review::ast_analyzer::{
    extract_function_signatures, AstAnalyzer, AstBlock, AstExpr, AstStmt, FnItem, RustFile,
};
use codex_code_review::config::{AnalysisConfig, LocalAIConfig, ReviewConfig, ReviewPolicy};
use codex_code_review::fixer::{CodeFixer, FixReport};
use codex_code_review::time::Timestamp;

fn function(name: &str, is_pub: bool, has_doc: bool, params: usize, stmts: Vec<AstStmt>) -> FnItem {
    FnItem {
        name: name.to_string(),
        is_pub,
        attributes: if has_doc { vec!["doc".to_string()] } else { vec!["inline".to_string()] },
        num_params: params,
        is_async: false,
        returns_unit: false,
        top_level: true,
        body: AstBlock { stmts },
    }
}

fn block(stmts: Vec<AstStmt>) -> AstBlock {
    AstBlock { stmts }
}

#[test]
fn test_calculate_metrics() {
    let analyzer = CodeAnalyzer::new(AnalysisConfig::default());
    let code = "\nfn test_function() {\n    // This is a comment\n    if true {\n        println!(\"test\");\n    }\n}\n";
    let metrics = analyzer.calculate_metrics(code);
    assert!(metrics.loc > 0);
    assert!(metrics.complexity > 1);
}

#[test]
fn calculate_metrics_exact_values() {
    let analyzer = CodeAnalyzer::new(AnalysisConfig::default());
    let code = "\nfn test_function() {\n    // This is a comment\n    if true {\n        println!(\"test\");\n    }\n}\n";
    let metrics = analyzer.calculate_metrics(code);
    assert_eq!(metrics.loc, 7);
    assert_eq!(metrics.complexity, 2);
    assert_eq!(metrics.num_functions, 1);
    assert_eq!(metrics.num_comments, 1);
    assert_eq!(metrics.doc_coverage.numerator, 0);
    assert_eq!(metrics.doc_coverage.denominator, 7);
}

#[test]
fn test_doc_coverage() {
    let analyzer = CodeAnalyzer::new(AnalysisConfig::default());
    let code = "\n/// This is documentation\nfn test() {}\n";
    let coverage = analyzer.calculate_doc_coverage(code);
    assert!(coverage.numerator > 0 && coverage.denominator > 0);
    assert_eq!(coverage.numerator, 1);
    assert_eq!(coverage.denominator, 3);
}

#[test]
fn estimate_complexity_counts_decision_words() {
    let analyzer = CodeAnalyzer::new(AnalysisConfig::default());
    assert_eq!(analyzer.estimate_complexity("if a && b || c { } else { for x in y {} }"), 6);
    assert_eq!(analyzer.estimate_complexity(""), 1);
}

#[test]
fn long_lines_and_complexity_are_reported() {
    let analyzer = CodeAnalyzer::new(AnalysisConfig::default());
    let long = "x".repeat(120);
    let issues = analyzer.detect_issues(&long);
    assert_eq!(issues.len(), 1);
    assert_eq!(issues[0].category, IssueCategory::Style);
    assert_eq!(issues[0].line, Some(1));
    let complex = "if if if if if if if if if if if ";
    let issues = analyzer.detect_issues(complex);
    assert_eq!(issues.len(), 1);
    assert_eq!(issues[0].category, IssueCategory::Complexity);
    let result = analyzer.analyze_content("a.rs", complex, Timestamp { secs: 1, nanos: 0 }, 5);
    assert_eq!(result.file_path, "a.rs");
    assert_eq!(result.issues.len(), 1);
    assert!(!result.has_critical_issues());
    assert_eq!(result.issues_above_severity(IssueSeverity::Warning).len(), 1);
    assert_eq!(result.issues_above_severity(IssueSeverity::Error).len(), 0);
}

#[test]
fn test_simple_function() {
    // fn add(a: i32, b: i32) -> i32 { a + b }
    let file = RustFile {
        functions: vec![function("add", false, false, 2, vec![AstStmt::Expr(AstExpr::Other)])],
    };
    let analyzer = AstAnalyzer::default();
    let result = analyzer.analyze(&file);
    assert_eq!(result.metrics.num_functions, 1);
    assert_eq!(result.metrics.complexity, 1);
    assert!(result.issues.is_empty());
}

#[test]
fn test_complex_function() {
    // fn complex(x: i32) -> i32 { if x > 0 { if x > 10 { if x > 20 { x * 2 } else { x + 1 } } else { x - 1 } } else { 0 } }
    let innermost = AstExpr::If {
        then_branch: block(vec![AstStmt::Expr(AstExpr::Other)]),
        else_branch: Some(Box::new(AstExpr::Block(block(vec![AstStmt::Expr(AstExpr::Other)])))),
    };
    let middle = AstExpr::If {
        then_branch: block(vec![AstStmt::Expr(innermost)]),
        else_branch: Some(Box::new(AstExpr::Block(block(vec![AstStmt::Expr(AstExpr::Other)])))),
    };
    let outer = AstExpr::If {
        then_branch: block(vec![AstStmt::Expr(middle)]),
        else_branch: Some(Box::new(AstExpr::Block(block(vec![AstStmt::Expr(AstExpr::Other)])))),
    };
    let file = RustFile { functions: vec![function("complex", false, false, 1, vec![AstStmt::Expr(outer)])] };
    let analyzer = AstAnalyzer::new(2, 100);
    let result = analyzer.analyze(&file);
    assert_eq!(result.metrics.num_functions, 1);
    assert!(result.metrics.complexity > 2);
    assert!(!result.issues.is_empty());
    assert_eq!(result.metrics.complexity, 4);
    assert_eq!(
        result.issues[0].description,
        "Function 'complex' has complexity 4 which exceeds threshold 2"
    );
}

#[test]
fn test_undocumented_public_function() {
    // pub fn public_func() {}
    let mut f = function("public_func", true, false, 0, vec![]);
    f.returns_unit = true;
    let file = RustFile { functions: vec![f] };
    let analyzer = AstAnalyzer::default();
    let result = analyzer.analyze(&file);
    assert_eq!(result.metrics.num_pub_functions, 1);
    assert_eq!(result.metrics.documented_functions, 0);
    let doc_issues: Vec<_> =
        result.issues.iter().filter(|i| i.category == IssueCategory::Documentation).collect();
    assert!(!doc_issues.is_empty());
}

#[test]
fn test_extract_signatures() {
    // fn sync_func(x: i32) -> String { String::new() }
    // async fn async_func() -> Result<()> { Ok(()) }
    let sync_func = function("sync_func", false, false, 1, vec![AstStmt::Expr(AstExpr::Other)]);
    let mut async_func = function("async_func", false, false, 0, vec![AstStmt::Expr(AstExpr::Other)]);
    async_func.is_async = true;
    let file = RustFile { functions: vec![sync_func, async_func] };
    let sigs = extract_function_signatures(&file);
    assert_eq!(sigs.len(), 2);
    assert!(!sigs[0].is_async);
    assert!(sigs[1].is_async);
    assert_eq!(sigs[0].output, "T");
    assert_eq!(sigs[0].inputs, 1);
}

#[test]
fn test_default_config() {
    let config = ReviewConfig::default();
    assert!(!config.enabled);
    assert!(!config.watch_patterns.is_empty());
    assert!(config.policies.confidence_threshold > 0);
    assert_eq!(config.policies.confidence_threshold, 850);
}

#[test]
fn test_local_ai_config() {
    let config = LocalAIConfig::default();
    assert!(config.ollama_base_url.contains("localhost"));
    assert!(config.concurrent_requests > 0);
}

#[test]
fn test_fix_trailing_whitespace() {
    let fixer = CodeFixer::new(ReviewPolicy::default());
    let content = "line1  \nline2\t\nline3";
    let fixed = fixer.fix_trailing_whitespace(content);
    assert_eq!(fixed, "line1\nline2\nline3");
}

#[test]
fn test_break_long_line() {
    let fixer = CodeFixer::new(ReviewPolicy::default());
    let long_line = "This is a very long line that exceeds one hundred characters and should be broken up into multiple lines for better readability";
    let broken = fixer.break_long_line(long_line);
    assert!(broken.contains('\n'));
}

#[test]
fn test_optimize_imports() {
    let fixer = CodeFixer::new(ReviewPolicy::default());
    let content = "use std::io;\nuse std::fs;\nuse std::io;\nfn main() {}";
    let optimized = fixer.optimize_imports(content);
    assert_eq!(optimized.matches("use std::io;").count(), 1);
}

#[test]
fn test_fix_report() {
    let report = FixReport::new("test.rs".to_string());
    assert_eq!(report.total_fixes(), 0);
    assert!(!report.changed);
}

#[test]
fn long_lines_are_counted_in_characters() {
    let analyzer = CodeAnalyzer::new(AnalysisConfig::default());
    let wide = "é".repeat(51);
    assert!(analyzer
        .detect_issues(&wide)
        .iter()
        .all(|i| i.category != IssueCategory::Style));
    let long = "é".repeat(101);
    let issues = analyzer.detect_issues(&long);
    let style: Vec<_> = issues.iter().filter(|i| i.category == IssueCategory::Style).collect();
    assert_eq!(style.len(), 1);
    assert_eq!(style[0].line, Some(1));
    assert_eq!(style[0].description, "Line exceeds 100 characters");
}

#[test]
fn complexity_estimate_fits_its_counter() {
    assert!(codex_code_review::analyzer::complexity_estimate_fits("if a && b { } else { }"));
}

#[test]
fn doc_attribute_marks_a_function_documented() {
    let mut f = function("f", true, false, 0, vec![]);
    assert!(!f.has_doc());
    f.attributes = vec!["allow".to_string(), "doc".to_string()];
    assert!(f.has_doc());
    f.attributes = vec!["my::doc".to_string()];
    assert!(!f.has_doc());
}
