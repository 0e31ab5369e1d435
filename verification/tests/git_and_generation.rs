use codex_code_review::ai_client::AIClient;
use codex_code_review::analyzer::{Impact, Suggestion, SuggestionType};
use codex_code_review::ast_analyzer::FunctionSignature;
use codex_code_review::config::LocalAIConfig;
use codex_code_review::fixer::FixReport;
use codex_code_review::git_integration::{
    log_args, parse_commits, parse_status, status_parseable, GitIntegration, GitStatus,
};
use codex_code_review::session::ImprovementRecord;
use codex_code_review::test_generator::{
    extract_code_block, GeneratedTests, Test, TestFileWriter, TestGenerator, TestLanguage, TestType,
};
use codex_code_review::time::Timestamp;

#[test]
fn git_status_counts() {
    let out = " M src/a.rs\nA  b.rs\n D c.rs\n?? d.rs\n?? e.rs\nR  f -> g\n\n";
    assert!(status_parseable(out));
    let status = parse_status(out);
    assert_eq!(status, GitStatus { modified: 1, added: 1, deleted: 1, untracked: 2 });
    assert!(status.has_changes());
    assert_eq!(status.total_changes(), 5);
    assert!(!status_parseable("x\n"));
    let only_new = GitStatus { modified: 0, added: 0, deleted: 0, untracked: 3 };
    assert!(!only_new.has_changes());
    assert_eq!(GitStatus::default().total_changes(), 0);
}

#[test]
fn git_log_is_read_in_groups_of_five() {
    let out = "h1\nfirst\nann\na@x\n2024-01-01\nh2\nsecond\nbob\nb@x\n2024-01-02\nh3\npartial";
    let commits = parse_commits(out);
    assert_eq!(commits.len(), 2);
    assert_eq!(commits[1].hash, "h2");
    assert_eq!(commits[1].email, "b@x");
    let args = log_args(5);
    assert_eq!(args, vec!["log", "-5", "--pretty=format:%H%n%s%n%an%n%ae%n%ad", "--date=iso"]);
}

#[test]
fn git_commit_messages() {
    let git = GitIntegration::new("/repo".to_string());
    assert_eq!(git.repo_path(), "/repo");
    assert_eq!(git.full_message("tidy"), "[codex-review] tidy");
    let mut report = FixReport::new("src/lib.rs".to_string());
    report.changed = true;
    report.style_fixes_applied = 2;
    report.suggestions_applied.push(Suggestion {
        suggestion_type: SuggestionType::AddComment,
        description: "Add docs".to_string(),
        confidence: 900,
        impact: Impact::Medium,
        code_changes: None,
        rationale: "r".to_string(),
    });
    assert_eq!(git.commit_fix_plan(&report), None);
    let git = git.with_auto_commit(true).with_commit_prefix("[bot]".to_string());
    assert_eq!(
        git.commit_fix_plan(&report).unwrap(),
        "fix: Auto-fix style issues in \"lib.rs\"\n\nApplied 2 style fixes and 1 suggestions\n\n- Add docs"
    );
    report.changed = false;
    assert_eq!(git.commit_fix_plan(&report), None);
    let record = ImprovementRecord::new_at(
        "src/a.rs".to_string(),
        "refactor".to_string(),
        "Split".to_string(),
        905,
        Timestamp { secs: 0, nanos: 0 },
    );
    assert_eq!(
        git.commit_improvement_plan(&record).unwrap(),
        "refactor: Split\n\nsrc/a.rs\n\nConfidence: 90.5%"
    );
    assert_eq!(
        git.backup_branch_name_at("main", Timestamp { secs: 1_700_000_000, nanos: 0 }).unwrap(),
        "main-backup-20231114-221320"
    );
}

fn generator() -> TestGenerator {
    TestGenerator::new(AIClient::new(LocalAIConfig::default()))
}

#[test]
fn test_extract_code_block() {
    let generator = generator();
    let response = "\nHere's the test:\n\n```rust\n#[test]\nfn test_add() {\n    assert_eq!(add(2, 2), 4);\n}\n```\n";
    let code = generator.extract_code_block(response);
    assert!(code.contains("#[test]"));
    assert!(code.contains("test_add"));
    assert_eq!(code, "#[test]\nfn test_add() {\n    assert_eq!(add(2, 2), 4);\n}");
}

#[test]
fn test_extract_code_block_no_markers() {
    let generator = generator();
    let response = "just some text";
    let code = generator.extract_code_block(response);
    assert_eq!(code, "just some text");
}

#[test]
fn unclosed_block_gives_whole_reply() {
    assert_eq!(extract_code_block("  ```rust\nfn x() {}  "), "```rust\nfn x() {}");
}

#[test]
fn generation_prompts_and_results() {
    let g = generator();
    assert_eq!(g.model(), "deepseek-coder:33b");
    assert_eq!(TestGenerator::test_language("typescript"), Some(TestLanguage::JavaScript));
    assert_eq!(TestGenerator::test_language("go"), None);
    let sig = FunctionSignature { name: "add".to_string(), inputs: 2, output: "T".to_string(), is_async: false };
    let prompt = g.rust_test_prompt("fn add() {}", &sig);
    assert!(prompt.starts_with("Generate a comprehensive unit test for this Rust function.\n\nFunction signature: add(2 parameters) -> T\n"));
    assert!(prompt.ends_with("fn test_add() {\n    // Your test code here\n}\n```\n"));
    let t = g.rust_test_from_reply(&sig, "```rust\n#[test]\nfn test_add() {}\n```");
    assert_eq!(t.name, "test_add");
    assert_eq!(t.code, "#[test]\nfn test_add() {}");
    let all = TestGenerator::rust_tests_result(vec![t], 1);
    assert_eq!(all.coverage_estimate, 100);
    assert_eq!(TestGenerator::rust_tests_result(vec![], 0).coverage_estimate, 0);
    assert_eq!(g.python_tests_from_reply("x").coverage_estimate, 80);
    assert_eq!(g.js_tests_from_reply("x").tests[0].name, "module.test.js");
    let it = g.integration_test_from_reply("code");
    assert_eq!(it.test_type, TestType::Integration);
    assert!(g.integration_tests_prompt(&vec!["a", "b"], "rust").contains("rust modules:\n\na\nb\n\n"));
    assert!(g.python_tests_prompt("src").contains("```python\nsrc\n```"));
    assert!(g.js_tests_prompt("src").contains("```javascript\nsrc\n```"));
    assert!(TestGenerator::no_tests().tests.is_empty());
}

fn tests_of(codes: &[&str]) -> GeneratedTests {
    GeneratedTests {
        tests: codes
            .iter()
            .map(|c| Test {
                name: "t".to_string(),
                code: c.to_string(),
                function_tested: "f".to_string(),
                test_type: TestType::Unit,
            })
            .collect(),
        coverage_estimate: 100,
    }
}

#[test]
fn test_files_are_written() {
    let w = TestFileWriter;
    let tests = tests_of(&["#[test]\nfn a() {}"]);
    assert_eq!(
        w.tests_file_content(&tests, "rust"),
        "#[cfg(test)]\nmod tests {\n    use super::*;\n\n    #[test]\n    fn a() {}\n\n}\n"
    );
    assert_eq!(w.tests_file_content(&tests, "python"), "import pytest\n\n#[test]\nfn a() {}\n\n");
    assert_eq!(w.tests_file_content(&tests, "go"), "");
}

#[test]
fn tests_are_appended() {
    let w = TestFileWriter;
    let tests = tests_of(&["fn a() {}", "fn b() {}"]);
    let existing = "fn main() {}\n#[cfg(test)]\nmod tests {\n}\n";
    assert_eq!(
        w.appended_content(existing, &tests, "rust"),
        "fn main() {}\n#[cfg(test)]\nmod tests {\n    fn b() {}\n\n    fn a() {}\n\n}\n"
    );
    assert_eq!(
        w.appended_content("fn main() {}\n", &tests_of(&["fn a() {}"]), "rust"),
        "fn main() {}\n\n#[cfg(test)]\nmod tests {\n    use super::*;\n\n    fn a() {}\n\n}\n"
    );
    assert_eq!(w.appended_content("x = 1", &tests_of(&["def t(): pass"]), "python"), "x = 1\n\ndef t(): pass\n\n");
}
