//! Configuration types for continuous code review.
//!
//! Confidence values and coverage thresholds are fractions in `0..=1`; they
//! are held here in thousandths (`850` stands for `0.85`).
use vstd::prelude::*;
use crate::text::owned;

verus! {

/// The character sequences held by a vector of strings.
pub open spec fn string_views(v: Seq<String>) -> Seq<Seq<char>> {
    v.map_values(|s: String| s@)
}

/// Main configuration for continuous code review.
#[derive(Debug, Clone)]
pub struct ReviewConfig {
    /// Enable continuous review
    pub enabled: bool,
    /// Patterns to watch (glob patterns)
    pub watch_patterns: Vec<String>,
    /// Patterns to ignore
    pub ignore_patterns: Vec<String>,
    /// Review triggers
    pub triggers: ReviewTrigger,
    /// Review policies
    pub policies: ReviewPolicy,
    /// Local AI configuration
    pub local_ai: LocalAIConfig,
    /// Analysis settings
    pub analysis: AnalysisConfig,
}

pub open spec fn default_watch_patterns() -> Seq<Seq<char>> {
    seq!["**/*.rs"@, "**/*.py"@, "**/*.js"@, "**/*.ts"@]
}

pub open spec fn default_ignore_patterns() -> Seq<Seq<char>> {
    seq!["**/target/**"@, "**/node_modules/**"@, "**/.git/**"@, "**/dist/**"@, "**/build/**"@]
}

impl Default for ReviewConfig {
    fn default() -> (c: Self)
        ensures
            !c.enabled,
            string_views(c.watch_patterns@) == default_watch_patterns(),
            string_views(c.ignore_patterns@) == default_ignore_patterns(),
            c.triggers.is_default(),
            c.policies.is_default(),
            c.local_ai.is_default(),
            c.analysis.is_default(),
    {
        let mut watch_patterns: Vec<String> = Vec::new();
        watch_patterns.push(owned("**/*.rs"));
        watch_patterns.push(owned("**/*.py"));
        watch_patterns.push(owned("**/*.js"));
        watch_patterns.push(owned("**/*.ts"));
        let mut ignore_patterns: Vec<String> = Vec::new();
        ignore_patterns.push(owned("**/target/**"));
        ignore_patterns.push(owned("**/node_modules/**"));
        ignore_patterns.push(owned("**/.git/**"));
        ignore_patterns.push(owned("**/dist/**"));
        ignore_patterns.push(owned("**/build/**"));
        assert(string_views(watch_patterns@) =~= default_watch_patterns());
        assert(string_views(ignore_patterns@) =~= default_ignore_patterns());
        ReviewConfig {
            enabled: false,
            watch_patterns,
            ignore_patterns,
            triggers: ReviewTrigger::default(),
            policies: ReviewPolicy::default(),
            local_ai: LocalAIConfig::default(),
            analysis: AnalysisConfig::default(),
        }
    }
}

/// Review trigger configuration.
#[derive(Debug, Clone, Copy, PartialEq, Eq, Structural)]
pub struct ReviewTrigger {
    /// Trigger review on file save
    pub on_file_save: bool,
    /// Trigger review on git commit
    pub on_git_commit: bool,
    /// Periodic check interval in minutes
    pub periodic_check_minutes: Option<u64>,
    /// Trigger on manual request
    pub on_manual_request: bool,
}

impl ReviewTrigger {
    pub open spec fn is_default(self) -> bool {
        &&& self.on_file_save
        &&& self.on_git_commit
        &&& self.periodic_check_minutes == Some(30u64)
        &&& self.on_manual_request
    }
}

impl Default for ReviewTrigger {
    fn default() -> (t: Self)
        ensures
            t.is_default(),
    {
        ReviewTrigger {
            on_file_save: true,
            on_git_commit: true,
            periodic_check_minutes: Some(30),
            on_manual_request: true,
        }
    }
}

/// Review policy configuration.
#[derive(Debug, Clone, Copy, PartialEq, Eq, Structural)]
pub struct ReviewPolicy {
    /// Automatically fix code style issues
    pub auto_fix_style: bool,
    /// Automatically add tests (requires approval if false)
    pub auto_add_tests: bool,
    /// Automatically refactor code (requires approval if false)
    pub auto_refactor: bool,
    /// Automatically add comments
    pub auto_add_comments: bool,
    /// Require tests to pass before applying changes
    pub require_tests_pass: bool,
    /// Create backup branch before changes
    pub create_backup_branch: bool,
    /// Commit each improvement separately
    pub commit_each_improvement: bool,
    /// Confidence threshold for auto-apply, in thousandths (0..=1000)
    pub confidence_threshold: u32,
}

impl ReviewPolicy {
    pub open spec fn is_default(self) -> bool {
        &&& self.auto_fix_style
        &&& !self.auto_add_tests
        &&& !self.auto_refactor
        &&& self.auto_add_comments
        &&& self.require_tests_pass
        &&& self.create_backup_branch
        &&& self.commit_each_improvement
        &&& self.confidence_threshold == 850
    }
}

impl Default for ReviewPolicy {
    fn default() -> (p: Self)
        ensures
            p.is_default(),
    {
        ReviewPolicy {
            auto_fix_style: true,
            auto_add_tests: false,
            auto_refactor: false,
            auto_add_comments: true,
            require_tests_pass: true,
            create_backup_branch: true,
            commit_each_improvement: true,
            confidence_threshold: 850,
        }
    }
}

/// Local AI configuration.
#[derive(Debug, Clone)]
pub struct LocalAIConfig {
    /// Primary model for code generation
    pub coding_model: String,
    /// Model for code review
    pub review_model: String,
    /// Fast model for quick checks
    pub quick_check_model: String,
    /// Ollama base URL
    pub ollama_base_url: String,
    /// Maximum concurrent requests
    pub concurrent_requests: usize,
    /// Request timeout in seconds
    pub timeout_secs: u64,
}

impl LocalAIConfig {
    pub open spec fn is_default(self) -> bool {
        &&& self.coding_model@ == "deepseek-coder:33b"@
        &&& self.review_model@ == "codellama:13b-instruct"@
        &&& self.quick_check_model@ == "qwen2.5-coder:7b"@
        &&& self.ollama_base_url@ == "http://localhost:11434/v1"@
        &&& self.concurrent_requests == 3
        &&& self.timeout_secs == 300
    }
}

impl Default for LocalAIConfig {
    fn default() -> (c: Self)
        ensures
            c.is_default(),
    {
        LocalAIConfig {
            coding_model: owned("deepseek-coder:33b"),
            review_model: owned("codellama:13b-instruct"),
            quick_check_model: owned("qwen2.5-coder:7b"),
            ollama_base_url: owned("http://localhost:11434/v1"),
            concurrent_requests: 3,
            timeout_secs: 300,
        }
    }
}

/// Analysis configuration.
#[derive(Debug, Clone, Copy, PartialEq, Eq, Structural)]
pub struct AnalysisConfig {
    /// Analyze code style
    pub check_style: bool,
    /// Detect potential bugs
    pub detect_bugs: bool,
    /// Suggest refactoring
    pub suggest_refactoring: bool,
    /// Check code complexity
    pub check_complexity: bool,
    /// Generate tests
    pub generate_tests: bool,
    /// Check documentation coverage
    pub check_documentation: bool,
    /// Maximum complexity threshold
    pub max_complexity: u32,
    /// Minimum documentation coverage, in thousandths (0..=1000)
    pub min_doc_coverage: u32,
}

impl AnalysisConfig {
    pub open spec fn is_default(self) -> bool {
        &&& self.check_style
        &&& self.detect_bugs
        &&& self.suggest_refactoring
        &&& self.check_complexity
        &&& !self.generate_tests
        &&& self.check_documentation
        &&& self.max_complexity == 10
        &&& self.min_doc_coverage == 700
    }
}

impl Default for AnalysisConfig {
    fn default() -> (c: Self)
        ensures
            c.is_default(),
    {
        AnalysisConfig {
            check_style: true,
            detect_bugs: true,
            suggest_refactoring: true,
            check_complexity: true,
            generate_tests: false,
            check_documentation: true,
            max_complexity: 10,
            min_doc_coverage: 700,
        }
    }
}

/// Improvement scope configuration.
#[derive(Debug, Clone, Copy, PartialEq, Eq, Structural)]
pub struct ImprovementScope {
    /// Improve code style
    pub code_style: bool,
    /// Add comments
    pub add_comments: bool,
    /// Extract functions
    pub extract_functions: bool,
    /// Remove duplication
    pub remove_duplication: bool,
    /// Optimize imports
    pub optimize_imports: bool,
}

impl ImprovementScope {
    pub open spec fn is_default(self) -> bool {
        self.code_style && self.add_comments && self.extract_functions && self.remove_duplication
            && self.optimize_imports
    }
}

impl Default for ImprovementScope {
    fn default() -> (s: Self)
        ensures
            s.is_default(),
    {
        ImprovementScope {
            code_style: true,
            add_comments: true,
            extract_functions: true,
            remove_duplication: true,
            optimize_imports: true,
        }
    }
}

/// Auto-improve configuration.
#[derive(Debug, Clone, Copy, PartialEq, Eq, Structural)]
pub struct AutoImproveConfig {
    /// Enable auto-improve (opt-in)
    pub enabled: bool,
    /// Maximum iterations
    pub max_iterations: u32,
    /// Confidence threshold, in thousandths (0..=1000)
    pub confidence_threshold: u32,
    /// Improvement scope
    pub scope: ImprovementScope,
    /// Safety settings
    pub require_tests_pass: bool,
    /// Create backup branch
    pub create_backup_branch: bool,
    /// Commit each improvement
    pub commit_each_improvement: bool,
}

impl AutoImproveConfig {
    pub open spec fn is_default(self) -> bool {
        &&& !self.enabled
        &&& self.max_iterations == 10
        &&& self.confidence_threshold == 850
        &&& self.scope.is_default()
        &&& self.require_tests_pass
        &&& self.create_backup_branch
        &&& self.commit_each_improvement
    }
}

impl Default for AutoImproveConfig {
    fn default() -> (c: Self)
        ensures
            c.is_default(),
    {
        AutoImproveConfig {
            enabled: false,
            max_iterations: 10,
            confidence_threshold: 850,
            scope: ImprovementScope::default(),
            require_tests_pass: true,
            create_backup_branch: true,
            commit_each_improvement: true,
        }
    }
}

} // verus!
