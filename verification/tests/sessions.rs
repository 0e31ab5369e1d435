use codex_code_review::analyzer::{AnalysisResult, CodeMetrics, Issue, IssueCategory, IssueSeverity, Ratio};
use codex_code_review::config::ReviewConfig;
use codex_code_review::reviewer::{ContinuousReviewer, PeriodicSchedule, ReviewTask, TaskStep};
use codex_code_review::session::{
    session_file_name, session_ids, ImprovementRecord, ReviewSession, ReviewSessionState, SessionManager,
};
use codex_code_review::time::Timestamp;
use codex_code_review::watcher::WatchEvent;

fn at(secs: i64) -> Timestamp {
    Timestamp { secs, nanos: 0 }
}

fn result(path: &str, issues: usize) -> AnalysisResult {
    AnalysisResult {
        file_path: path.to_string(),
        issues: (0..issues)
            .map(|i| Issue {
                severity: IssueSeverity::Info,
                category: IssueCategory::Style,
                description: format!("issue {i}"),
                line: None,
                column: None,
                snippet: None,
                suggested_fix: None,
            })
            .collect(),
        suggestions: vec![],
        metrics: CodeMetrics {
            loc: 1,
            complexity: 1,
            num_functions: 0,
            num_comments: 0,
            doc_coverage: Ratio { numerator: 0, denominator: 1 },
            test_coverage: None,
        },
        timestamp: at(0),
        duration_nanos: 0,
    }
}

#[test]
fn test_new_session() {
    let session = ReviewSession::new("test-123".to_string());
    assert_eq!(session.id, "test-123");
    assert_eq!(session.state, ReviewSessionState::Active);
    assert_eq!(session.statistics.files_analyzed, 0);
}

#[test]
fn test_session_state_changes() {
    let mut session = ReviewSession::new("test".to_string());
    session.pause();
    assert_eq!(session.state, ReviewSessionState::Paused);
    session.resume();
    assert_eq!(session.state, ReviewSessionState::Active);
    session.complete();
    assert_eq!(session.state, ReviewSessionState::Completed);
}

#[test]
fn session_keeps_latest_result_per_file() {
    let mut session = ReviewSession::new_at("s".to_string(), at(10));
    session.add_analysis_result_at(result("a.rs", 2), at(11));
    session.add_analysis_result_at(result("b.rs", 1), at(12));
    session.add_analysis_result_at(result("a.rs", 3), at(13));
    assert_eq!(session.statistics.files_analyzed, 3);
    assert_eq!(session.statistics.total_issues, 6);
    assert_eq!(session.analysis_results.len(), 2);
    let a = session.analysis_results.iter().find(|r| r.file_path == "a.rs").unwrap();
    assert_eq!(a.issues.len(), 3);
    assert_eq!(session.updated_at, at(13));
    assert_eq!(session.duration_nanos(), 3_000_000_000);
}

#[test]
fn improvements_are_recorded() {
    let mut session = ReviewSession::new_at("s".to_string(), at(0));
    let record = ImprovementRecord::new_at("a.rs".to_string(), "style".to_string(), "d".to_string(), 900, at(5));
    session.record_improvement_at(record, at(6));
    assert_eq!(session.statistics.improvements_applied, 1);
    assert_eq!(session.improvements_applied.len(), 1);
    let failed = ImprovementRecord::new("a.rs".to_string(), "t".to_string(), "d".to_string(), 500)
        .failed("boom".to_string());
    assert!(!failed.success);
    assert_eq!(failed.error.as_deref(), Some("boom"));
}

#[test]
fn test_session_manager() {
    let mut manager = SessionManager::new("/tmp/sessions".to_string());
    assert!(manager.current_session().is_none());
    let id = manager.start_session_at(at(1_700_000_000)).id.clone();
    assert_eq!(id, "review-1700000000");
    assert!(manager.current_session().is_some());
    manager.complete_session_at(at(1_700_000_100));
    assert_eq!(manager.current_session().unwrap().state, ReviewSessionState::Completed);
    assert_eq!(session_file_name(&id), "review-1700000000.json");
    assert_eq!(manager.session_dir(), "/tmp/sessions");
}

#[test]
fn reviewer_turns_events_into_tasks() {
    assert!(ContinuousReviewer::task_for_event(&WatchEvent::Deleted("a.rs".to_string())).is_none());
    match ContinuousReviewer::task_for_event(&WatchEvent::Modified("a.rs".to_string())) {
        Some(ReviewTask::AnalyzeFile(p)) => assert_eq!(p, "a.rs"),
        other => panic!("unexpected {other:?}"),
    }
    match ContinuousReviewer::task_for_event(&WatchEvent::Batch(vec!["a".to_string(), "b".to_string()])) {
        Some(ReviewTask::AnalyzeFiles(ps)) => assert_eq!(ps, vec!["a".to_string(), "b".to_string()]),
        other => panic!("unexpected {other:?}"),
    }
}

#[test]
fn test_reviewer_creation() {
    let config = ReviewConfig::default();
    let reviewer = ContinuousReviewer::new(config, "/tmp/sessions".to_string());
    assert!(!reviewer.running());
    assert!(reviewer.get_statistics().is_none());
    assert_eq!(reviewer.periodic_schedule(), PeriodicSchedule::Every { secs: 1800 });
}

#[test]
fn test_submit_task() {
    let mut reviewer = ContinuousReviewer::new(ReviewConfig::default(), "/tmp/sessions".to_string());
    reviewer.start_at(at(100));
    assert!(reviewer.running());
    let step = reviewer.process_task_at(ReviewTask::AnalyzeFile("test.rs".to_string()), at(101));
    assert!(matches!(step, TaskStep::AnalyzeFile(ref p) if p == "test.rs"));
    let fix_style = reviewer.file_analyzed_at(result("test.rs", 2), at(102));
    assert!(fix_style);
    let step = reviewer.process_task_at(
        ReviewTask::ApplyImprovement {
            file_path: "test.rs".to_string(),
            improvement_type: "style".to_string(),
            description: "tidy".to_string(),
            code_changes: None,
        },
        at(103),
    );
    assert!(matches!(step, TaskStep::Done));
    reviewer.files_analyzed_at(vec![result("a.rs", 1), result("b.rs", 4)], at(104));
    let stats = reviewer.get_statistics().unwrap();
    assert_eq!(stats.files_analyzed, 3);
    assert_eq!(stats.total_issues, 7);
    assert_eq!(stats.improvements_applied, 1);
    reviewer.pause_at(at(105));
    assert!(!reviewer.running());
    assert_eq!(reviewer.session_manager().current_session().unwrap().state, ReviewSessionState::Paused);
    reviewer.resume_at(at(106));
    assert!(reviewer.running());
    assert_eq!(reviewer.session_manager().current_session().unwrap().state, ReviewSessionState::Active);
    assert!(matches!(reviewer.process_task_at(ReviewTask::Stop, at(107)), TaskStep::Stop));
    reviewer.stop_at(at(108));
    assert!(!reviewer.running());
    assert_eq!(reviewer.session_manager().current_session().unwrap().state, ReviewSessionState::Completed);
}

#[test]
fn periodic_checks_follow_the_configuration() {
    let mut config = ReviewConfig::default();
    config.triggers.periodic_check_minutes = None;
    let reviewer = ContinuousReviewer::new(config, "/tmp".to_string());
    assert_eq!(reviewer.periodic_schedule(), PeriodicSchedule::Idle { secs: 10 });
}

#[test]
fn test_session_ids_from_directory_listing() {
    let paths = vec![
        "/tmp/sessions/review-1.json".to_string(),
        "/tmp/sessions/notes.txt".to_string(),
        "/tmp/sessions/review-2.json".to_string(),
        "/tmp/sessions/archive".to_string(),
    ];
    let ids = session_ids(&paths);
    assert_eq!(ids, vec!["review-1".to_string(), "review-2".to_string()]);
    assert_eq!(session_file_name("review-1"), "review-1.json");
}
