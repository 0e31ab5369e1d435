//! Continuous code review: the analysis, fixing and bookkeeping logic.
use vstd::prelude::*;

pub mod text;
pub mod time;
pub mod config;
pub mod analyzer;
pub mod fixer;
pub mod ast_analyzer;
pub mod ai_cache;
pub mod ai_client;
pub mod tools;
pub mod session;
pub mod watcher;
pub mod reviewer;
pub mod paths;
pub mod linters;
pub mod git_integration;
pub mod test_generator;
pub mod enhanced_analyzer;
pub mod cli;

pub use ai_client::{AIAnalysisResult, AIClient, QuickCheckType};
pub use analyzer::{AnalysisResult, CodeAnalyzer, Issue, IssueCategory, IssueSeverity, Suggestion};
pub use ast_analyzer::{AstAnalysisResult, AstAnalyzer, FunctionInfo};
pub use config::{AnalysisConfig, LocalAIConfig, ReviewConfig, ReviewPolicy, ReviewTrigger};
pub use enhanced_analyzer::{EnhancedAnalysisResult, EnhancedAnalyzer, QuickAnalysisResult};
pub use fixer::{CodeFixer, FixReport};
pub use git_integration::{CommitInfo, GitIntegration, GitStatus};
pub use linters::{Linter, LinterRegistry};
pub use reviewer::{ContinuousReviewer, ReviewTask, ReviewType};
pub use session::{ReviewSession, ReviewSessionState, SessionManager};
pub use test_generator::{GeneratedTests, Test, TestFileWriter, TestGenerator, TestType};
pub use tools::{register_review_tools, ReviewTool};
pub use watcher::{FileWatcher, WatchEvent};

verus! {

/// Errors of setting up the code review module.
#[derive(Debug, Clone)]
pub enum ReviewError {
    Setup(String),
}

/// Initialize the code review module; nothing can fail.
pub fn init() -> (r: Result<(), ReviewError>)
    ensures
        r is Ok,
{
    Ok(())
}

} // verus!
