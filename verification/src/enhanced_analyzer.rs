//! Enhanced code analyzer integrating AI, linters, and AST analysis.
//!
//! Reading the file, running the linters and asking the model happen
//! outside this library; here is which analyses run for a file, and how
//! their findings combine into one result.
use vstd::prelude::*;
use crate::ai_client::{
    category_named, severity_named, spec_lowercase, AIAnalysisResult, AIClient, AIIssue,
};
use crate::analyzer::{
    issue_views, AnalysisResult, CodeMetrics, Issue, IssueView, LineKind, Ratio,
    Suggestion, count_lines, count_lines_of_kind, opt_view,
};
use crate::ast_analyzer::{
    complexity_fits, complexity_fits_counters, AstAnalysisResult, AstAnalyzer, RustFile,
};
use crate::config::{AnalysisConfig, LocalAIConfig};
use crate::linters::LinterRegistry;
use crate::paths::{path_extension, spec_path_extension};
use crate::text::{chars_of, count_matches, count_str_matches, lines, lines_of, owned};
use crate::linters::clippy::same;
use crate::time::Timestamp;

verus! {

// ---------------------------------------------------------------------------
// Languages
// ---------------------------------------------------------------------------
/// The language of a file extension.
pub open spec fn language_of(ext: Option<Seq<char>>) -> Seq<char> {
    match ext {
        Some(e) => if e == "rs"@ {
            "rust"@
        } else if e == "py"@ {
            "python"@
        } else if e == "js"@ {
            "javascript"@
        } else if e == "ts"@ {
            "typescript"@
        } else if e == "go"@ {
            "go"@
        } else if e == "java"@ {
            "java"@
        } else if e == "cpp"@ || e == "cc"@ || e == "cxx"@ {
            "cpp"@
        } else if e == "c"@ || e == "h"@ {
            "c"@
        } else {
            "unknown"@
        },
        None => "unknown"@,
    }
}

/// The language of a file extension, if it has one.
pub fn language_of_extension(ext: Option<&str>) -> (r: &'static str)
    ensures
        r@ == language_of(match ext {
            Some(e) => Some(e@),
            None => None,
        }),
{
    match ext {
        Some(e) => {
            let c = chars_of(e);
            if same(&c, "rs") {
                "rust"
            } else if same(&c, "py") {
                "python"
            } else if same(&c, "js") {
                "javascript"
            } else if same(&c, "ts") {
                "typescript"
            } else if same(&c, "go") {
                "go"
            } else if same(&c, "java") {
                "java"
            } else if same(&c, "cpp") || same(&c, "cc") || same(&c, "cxx") {
                "cpp"
            } else if same(&c, "c") || same(&c, "h") {
                "c"
            } else {
                "unknown"
            }
        },
        None => "unknown",
    }
}

// ---------------------------------------------------------------------------
// Basic metrics
// ---------------------------------------------------------------------------
/// Rough metrics of any language: lines, functions (`fn `, `function `,
/// `def `), comment lines, the share of doc lines, and `1` plus the `if `,
/// `for `, `while ` and `match ` seen.
pub open spec fn spec_basic_metrics(content: Seq<char>) -> CodeMetrics {
    CodeMetrics {
        loc: lines(content).len() as usize,
        complexity: (1 + count_matches(content, "if "@) + count_matches(content, "for "@)
            + count_matches(content, "while "@) + count_matches(content, "match "@)) as u32,
        num_functions: (count_matches(content, "fn "@) + count_matches(content, "function "@)
            + count_matches(content, "def "@)) as usize,
        num_comments: count_lines(lines(content), LineKind::AnyComment) as usize,
        doc_coverage: Ratio {
            numerator: count_lines(lines(content), LineKind::AnyDoc) as usize,
            denominator: lines(content).len() as usize,
        },
        test_coverage: None,
    }
}

/// The metrics of an AST analysis: its complexity and functions, the share
/// of public functions documented (all when there are none); lines and
/// comments are not counted.
pub open spec fn spec_ast_metrics(a: AstAnalysisResult) -> CodeMetrics {
    CodeMetrics {
        loc: 0,
        complexity: a.metrics.complexity,
        num_functions: a.metrics.num_functions,
        num_comments: 0,
        doc_coverage: if a.metrics.num_pub_functions > 0 {
            Ratio { numerator: a.metrics.documented_functions, denominator: a.metrics.num_pub_functions }
        } else {
            Ratio { numerator: 1, denominator: 1 }
        },
        test_coverage: None,
    }
}

/// The basic metrics of `content` fit their counters: the complexity its
/// `u32` and the function count its `usize` (the sums overflow, and panic,
/// otherwise).
pub open spec fn basic_metrics_fit(content: Seq<char>) -> bool {
    &&& 1 + count_matches(content, "if "@) + count_matches(content, "for "@) + count_matches(
        content,
        "while "@,
    ) + count_matches(content, "match "@) <= u32::MAX
    &&& count_matches(content, "fn "@) + count_matches(content, "function "@) + count_matches(
        content,
        "def "@,
    ) <= usize::MAX
}

// ---------------------------------------------------------------------------
// Deduplication
// ---------------------------------------------------------------------------
/// Two issues report the same thing: same category, description and line.
pub open spec fn same_key(a: IssueView, b: IssueView) -> bool {
    a.category == b.category && a.description == b.description && a.line == b.line
}

/// The issues of `v` not reported earlier in `v`, in order.
pub open spec fn dedup(v: Seq<IssueView>) -> Seq<IssueView>
    decreases v.len(),
{
    if v.len() == 0 {
        Seq::empty()
    } else if exists|j: int| 0 <= j < v.len() - 1 && same_key(#[trigger] v[j], v.last()) {
        dedup(v.drop_last())
    } else {
        dedup(v.drop_last()).push(v.last())
    }
}

/// Every issue deduplication keeps is one of its input.
pub proof fn lemma_dedup_from_input(v: Seq<IssueView>)
    ensures
        forall|k: int|
            #![trigger dedup(v)[k]]
            0 <= k < dedup(v).len() ==> exists|i: int| 0 <= i < v.len() && dedup(v)[k] == #[trigger] v[i],
    decreases v.len(),
{
    if v.len() > 0 {
        let pre = v.drop_last();
        let d = dedup(pre);
        lemma_dedup_from_input(pre);
        assert forall|k: int| #![trigger dedup(v)[k]] 0 <= k < dedup(v).len() implies exists|i: int|
            0 <= i < v.len() && dedup(v)[k] == #[trigger] v[i] by {
            if k < d.len() {
                let i = choose|i: int| 0 <= i < pre.len() && d[k] == #[trigger] pre[i];
                assert(v[i] == pre[i]);
                assert(dedup(v)[k] == d[k]);
            } else {
                assert(dedup(v)[k] == v[v.len() - 1]);
            }
        }
    }
}

/// Deduplication leaves no two issues with the same category, description
/// and line.
pub proof fn lemma_dedup_distinct(v: Seq<IssueView>)
    ensures
        forall|a: int, b: int|
            0 <= a < b < dedup(v).len() ==> !same_key(#[trigger] dedup(v)[a], #[trigger] dedup(v)[b]),
    decreases v.len(),
{
    if v.len() > 0 {
        let pre = v.drop_last();
        let last = v.last();
        let d = dedup(pre);
        lemma_dedup_distinct(pre);
        if !(exists|j: int| 0 <= j < v.len() - 1 && same_key(#[trigger] v[j], last)) {
            lemma_dedup_from_input(pre);
            let r = d.push(last);
            assert(dedup(v) == r);
            assert forall|a: int, b: int| 0 <= a < b < r.len() implies !same_key(#[trigger] r[a], #[trigger] r[b]) by {
                if b == r.len() - 1 {
                    let i = choose|i: int| 0 <= i < pre.len() && d[a] == #[trigger] pre[i];
                    assert(v[i] == pre[i]);
                    assert(!same_key(v[i], last));
                } else {
                    assert(r[a] == d[a] && r[b] == d[b]);
                }
            }
        }
    }
}

/// Every issue of the input keeps one with its category, description and
/// line after deduplication.
pub proof fn lemma_dedup_covers(v: Seq<IssueView>)
    ensures
        forall|i: int|
            0 <= i < v.len() ==> exists|k: int| 0 <= k < dedup(v).len() && same_key(#[trigger] dedup(v)[k], #[trigger] v[i]),
    decreases v.len(),
{
    if v.len() > 0 {
        let pre = v.drop_last();
        let last = v.last();
        let d = dedup(pre);
        lemma_dedup_covers(pre);
        assert forall|i: int| 0 <= i < v.len() implies exists|k: int| 0 <= k < dedup(v).len() && same_key(#[trigger] dedup(v)[k], #[trigger] v[i]) by {
            if i < v.len() - 1 {
                assert(pre[i] == v[i]);
                let k = choose|k: int| 0 <= k < d.len() && same_key(#[trigger] d[k], #[trigger] pre[i]);
                assert(dedup(v)[k] == d[k]);
            } else if exists|j: int| 0 <= j < v.len() - 1 && same_key(#[trigger] v[j], last) {
                let j = choose|j: int| 0 <= j < v.len() - 1 && same_key(#[trigger] v[j], last);
                assert(pre[j] == v[j]);
                let k = choose|k: int| 0 <= k < d.len() && same_key(#[trigger] d[k], #[trigger] pre[j]);
                assert(same_key(dedup(v)[k], v[i]));
            } else {
                assert(dedup(v)[dedup(v).len() - 1] == v[i]);
            }
        }
    }
}

fn same_issue_key(a: &Issue, b: &Issue) -> (r: bool)
    ensures
        r == same_key(a@, b@),
{
    if a.category != b.category || a.line != b.line {
        return false;
    }
    let ad = chars_of(a.description.as_str());
    let bd = chars_of(b.description.as_str());
    let r = crate::text::starts_with_chars(&ad, &bd) && ad.len() == bd.len();
    proof {
        if r {
            assert(ad@ =~= bd@);
        }
        if a.description@ == b.description@ {
            assert(ad@.take(bd@.len() as int) =~= bd@);
        }
    }
    r
}

// ---------------------------------------------------------------------------
// Results
// ---------------------------------------------------------------------------
/// Enhanced analysis result.
#[derive(Debug, Clone)]
pub struct EnhancedAnalysisResult {
    /// Basic analysis result
    pub basic: AnalysisResult,
    /// AST analysis result (Rust only)
    pub ast_result: Option<AstAnalysisResult>,
    /// AI analysis result
    pub ai_result: Option<AIAnalysisResult>,
    /// Detected language
    pub language: String,
}

/// Analysis summary.
#[derive(Debug, Clone)]
pub struct AnalysisSummary {
    pub total_issues: usize,
    pub total_suggestions: usize,
    pub complexity: u32,
    pub used_ai: bool,
    pub used_ast: bool,
    pub language: String,
}

impl EnhancedAnalysisResult {
    /// Get all issues combined.
    pub fn all_issues(&self) -> (r: &[Issue])
        ensures
            r@ == self.basic.issues@,
    {
        self.basic.issues.as_slice()
    }

    /// Get summary.
    pub fn summary(&self) -> (s: AnalysisSummary)
        ensures
            s.total_issues == self.basic.issues@.len(),
            s.total_suggestions == self.basic.suggestions@.len(),
            s.complexity == self.basic.metrics.complexity,
            s.used_ai == self.ai_result is Some,
            s.used_ast == self.ast_result is Some,
            s.language@ == self.language@,
    {
        AnalysisSummary {
            total_issues: self.basic.issues.len(),
            total_suggestions: self.basic.suggestions.len(),
            complexity: self.basic.metrics.complexity,
            used_ai: self.ai_result.is_some(),
            used_ast: self.ast_result.is_some(),
            language: self.language.clone(),
        }
    }
}

/// Quick analysis result.
#[derive(Debug, Clone, Copy, PartialEq, Eq, Structural)]
pub struct QuickAnalysisResult {
    pub has_bugs: bool,
    pub needs_refactor: bool,
    pub complexity: Option<u32>,
}

/// The issue an AI-reported issue becomes.
pub open spec fn ai_issue_view(a: AIIssue) -> IssueView {
    IssueView {
        severity: severity_named(spec_lowercase(a.severity@)),
        category: category_named(spec_lowercase(a.category@)),
        description: a.description@,
        line: a.line,
        column: None,
        snippet: None,
        suggested_fix: opt_view(a.suggestion),
    }
}

pub open spec fn ai_issue_views(v: Seq<AIIssue>) -> Seq<IssueView> {
    v.map_values(|a: AIIssue| ai_issue_view(a))
}

/// The issues of an analysis, in the order they are gathered: AST issues,
/// then linter issues, then the AI's issues converted.
pub open spec fn gathered(
    ast: Option<AstAnalysisResult>,
    linted: Option<Seq<IssueView>>,
    ai: Seq<IssueView>,
) -> Seq<IssueView> {
    (match ast {
        Some(a) => issue_views(a.issues@),
        None => Seq::empty(),
    }) + (match linted {
        Some(l) => l,
        None => Seq::empty(),
    }) + ai
}

// ---------------------------------------------------------------------------
// The analyzer
// ---------------------------------------------------------------------------
/// Enhanced code analyzer with AI and linter integration.
pub struct EnhancedAnalyzer {
    config: AnalysisConfig,
    ai_client: Option<AIClient>,
    linters: LinterRegistry,
    ast_analyzer: Option<AstAnalyzer>,
    use_ai: bool,
    use_linters: bool,
    use_ast: bool,
}

impl EnhancedAnalyzer {
    pub closed spec fn cfg(&self) -> AnalysisConfig {
        self.config
    }

    pub closed spec fn client(&self) -> Option<AIClient> {
        self.ai_client
    }

    pub closed spec fn registry(&self) -> LinterRegistry {
        self.linters
    }

    pub closed spec fn ast(&self) -> Option<AstAnalyzer> {
        self.ast_analyzer
    }

    pub closed spec fn ai_enabled(&self) -> bool {
        self.use_ai
    }

    pub closed spec fn linters_enabled(&self) -> bool {
        self.use_linters
    }

    pub closed spec fn ast_enabled(&self) -> bool {
        self.use_ast
    }

    /// Create a new enhanced analyzer: the built-in linters, an AST analyzer
    /// with the configured complexity limit and functions of up to 100
    /// lines, no AI.
    pub fn new(config: AnalysisConfig) -> (a: Self)
        ensures
            a.cfg() == config,
            a.client() is None,
            a.ast() == Some(AstAnalyzer { max_complexity: config.max_complexity, max_function_length: 100 }),
            a.registry().registered().len() == 3,
            !a.ai_enabled(),
            a.linters_enabled(),
            a.ast_enabled(),
    {
        let max_complexity = config.max_complexity;
        EnhancedAnalyzer {
            config,
            ai_client: None,
            linters: LinterRegistry::default(),
            ast_analyzer: Some(AstAnalyzer::new(max_complexity, 100)),
            use_ai: false,
            use_linters: true,
            use_ast: true,
        }
    }

    /// Enable AI analysis with a client for the given configuration.
    pub fn with_ai(self, ai_config: LocalAIConfig) -> (a: Self)
        ensures
            a.client() matches Some(c) && c.cfg() == ai_config,
            a.ai_enabled(),
            a.cfg() == self.cfg(),
            a.ast() == self.ast(),
            a.registry() == self.registry(),
            a.linters_enabled() == self.linters_enabled(),
            a.ast_enabled() == self.ast_enabled(),
    {
        EnhancedAnalyzer { ai_client: Some(AIClient::new(ai_config)), use_ai: true, ..self }
    }

    /// Configure linter usage.
    pub fn with_linters(self, enabled: bool) -> (a: Self)
        ensures
            a.linters_enabled() == enabled,
            a.cfg() == self.cfg(),
            a.client() == self.client(),
            a.ast() == self.ast(),
            a.registry() == self.registry(),
            a.ai_enabled() == self.ai_enabled(),
            a.ast_enabled() == self.ast_enabled(),
    {
        EnhancedAnalyzer { use_linters: enabled, ..self }
    }

    /// Configure AST analysis.
    pub fn with_ast(self, enabled: bool) -> (a: Self)
        ensures
            a.ast_enabled() == enabled,
            a.cfg() == self.cfg(),
            a.client() == self.client(),
            a.ast() == self.ast(),
            a.registry() == self.registry(),
            a.ai_enabled() == self.ai_enabled(),
            a.linters_enabled() == self.linters_enabled(),
    {
        EnhancedAnalyzer { use_ast: enabled, ..self }
    }

    /// Set custom linter registry.
    pub fn with_linter_registry(self, registry: LinterRegistry) -> (a: Self)
        ensures
            a.registry() == registry,
            a.cfg() == self.cfg(),
            a.client() == self.client(),
            a.ast() == self.ast(),
            a.ai_enabled() == self.ai_enabled(),
            a.linters_enabled() == self.linters_enabled(),
            a.ast_enabled() == self.ast_enabled(),
    {
        EnhancedAnalyzer { linters: registry, ..self }
    }

    /// The linter registry.
    pub fn linters(&self) -> (r: &LinterRegistry)
        ensures
            *r == self.registry(),
    {
        &self.linters
    }

    /// The AI client, when AI analysis is enabled.
    pub fn ai(&self) -> (r: Option<&AIClient>)
        ensures
            match r {
                Some(c) => self.ai_enabled() && self.client() == Some(*c),
                None => !self.ai_enabled() || self.client() is None,
            },
    {
        if !self.use_ai {
            return None;
        }
        match &self.ai_client {
            Some(c) => Some(c),
            None => None,
        }
    }

    /// Detect programming language from file extension.
    pub fn detect_language(&self, file_path: &str) -> (r: &'static str)
        ensures
            r@ == language_of(spec_path_extension(file_path@)),
    {
        let ext = path_extension(file_path);
        match &ext {
            Some(e) => language_of_extension(Some(e.as_str())),
            None => language_of_extension(None),
        }
    }

    /// Whether a file of this language gets an AST analysis.
    pub fn wants_ast(&self, language: &str) -> (b: bool)
        ensures
            b == (self.ast_enabled() && language@ == "rust"@),
    {
        let l = chars_of(language);
        self.use_ast && crate::linters::clippy::same(&l, "rust")
    }

    /// Whether the linters run.
    pub fn wants_linters(&self) -> (b: bool)
        ensures
            b == self.linters_enabled(),
    {
        self.use_linters
    }

    /// Analyze a parsed Rust file; `None` without an AST analyzer, or when
    /// the file's complexity does not fit the analysis counters.
    pub fn analyze_with_ast(&self, file: &RustFile) -> (r: Option<AstAnalysisResult>)
        ensures
            r is Some == (self.ast() is Some && complexity_fits(file.functions@)),
            r matches Some(x) ==> crate::ast_analyzer::is_analysis_of(
                self.ast()->0,
                file.functions@,
                x,
            ),
    {
        match &self.ast_analyzer {
            Some(a) => {
                if complexity_fits_counters(file) {
                    Some(a.analyze(file))
                } else {
                    None
                }
            },
            None => None,
        }
    }

    /// The total complexity of a parsed file for a quick analysis: only for
    /// Rust with AST analysis enabled, and when it fits the counters.
    pub fn quick_complexity(&self, language: &str, file: Option<&RustFile>) -> (r: Option<u32>)
        ensures
            r is Some <==> (self.ast_enabled() && language@ == "rust"@ && self.ast() is Some
                && file is Some && complexity_fits(file->0.functions@)),
            r matches Some(c) ==> c == crate::ast_analyzer::total_complexity(file->0.functions@),
    {
        if !self.wants_ast(language) {
            return None;
        }
        match (&self.ast_analyzer, file) {
            (Some(a), Some(f)) => {
                if complexity_fits_counters(f) {
                    Some(a.quick_complexity_check(f))
                } else {
                    None
                }
            },
            _ => None,
        }
    }

    /// Gather the issues of the analyses that ran: AST issues, linter
    /// issues, then the AI's issues converted.
    pub fn gather_issues(
        &self,
        ast_result: &Option<AstAnalysisResult>,
        linter_issues: Option<Vec<Issue>>,
        ai_result: &Option<AIAnalysisResult>,
    ) -> (r: Vec<Issue>)
        ensures
            issue_views(r@) == gathered(
                *ast_result,
                match linter_issues {
                    Some(l) => Some(issue_views(l@)),
                    None => None,
                },
                match ai_result {
                    Some(a) => ai_issue_views(a.issues@),
                    None => Seq::empty(),
                },
            ),
    {
        let mut all: Vec<Issue> = match ast_result {
            Some(a) => crate::analyzer::clone_issues(&a.issues),
            None => Vec::new(),
        };
        let ghost first = issue_views(all@);
        match linter_issues {
            Some(l) => {
                let mut l = l;
                all.append(&mut l);
            },
            None => {},
        }
        let ghost second = issue_views(all@);
        assert(second =~= first + match linter_issues {
            Some(l) => issue_views(l@),
            None => Seq::empty(),
        });
        match ai_result {
            Some(a) => {
                let mut i: usize = 0;
                while i < a.issues.len()
                    invariant
                        i <= a.issues.len(),
                        issue_views(all@) == second + ai_issue_views(a.issues@.take(i as int)),
                    decreases a.issues.len() - i,
                {
                    let ghost prev = issue_views(all@);
                    all.push(a.issues[i].to_issue());
                    assert(issue_views(all@) =~= prev.push(ai_issue_view(a.issues@[i as int])));
                    assert(ai_issue_views(a.issues@.take(i + 1)) =~= ai_issue_views(a.issues@.take(i as int)).push(
                        ai_issue_view(a.issues@[i as int]),
                    ));
                    assert(second + ai_issue_views(a.issues@.take(i + 1)) =~= (second + ai_issue_views(
                        a.issues@.take(i as int),
                    )).push(ai_issue_view(a.issues@[i as int])));
                    i += 1;
                }
                assert(a.issues@.take(i as int) =~= a.issues@);
            },
            None => {
                assert(issue_views(all@) =~= second + Seq::<IssueView>::empty());
            },
        }
        all
    }

    /// The result of analyzing a file, from what the analyses found: the
    /// gathered issues deduplicated, the suggestions, the metrics of the AST
    /// analysis (or the basic metrics of the content without one).
    pub fn finish_analysis(
        &self,
        file_path: &str,
        content: &str,
        language: &str,
        ast_result: Option<AstAnalysisResult>,
        ai_result: Option<AIAnalysisResult>,
        issues: Vec<Issue>,
        suggestions: Vec<Suggestion>,
        timestamp: Timestamp,
        duration_nanos: u128,
    ) -> (r: EnhancedAnalysisResult)
        requires
            ast_result is None ==> basic_metrics_fit(content@),
        ensures
            r.basic.file_path@ == file_path@,
            issue_views(r.basic.issues@) == dedup(issue_views(issues@)),
            r.basic.suggestions == suggestions,
            r.basic.metrics == match ast_result {
                Some(a) => spec_ast_metrics(a),
                None => spec_basic_metrics(content@),
            },
            r.basic.timestamp == timestamp,
            r.basic.duration_nanos == duration_nanos,
            r.ast_result == ast_result,
            r.ai_result == ai_result,
            r.language@ == language@,
    {
        let metrics = match &ast_result {
            Some(a) => self.ast_metrics_to_code_metrics(a),
            None => self.calculate_basic_metrics(content),
        };
        let issues = self.deduplicate_issues(issues);
        EnhancedAnalysisResult {
            basic: AnalysisResult {
                file_path: owned(file_path),
                issues,
                suggestions,
                metrics,
                timestamp,
                duration_nanos,
            },
            ast_result,
            ai_result,
            language: owned(language),
        }
    }

    /// The metrics of an AST analysis.
    pub fn ast_metrics_to_code_metrics(&self, ast_result: &AstAnalysisResult) -> (m: CodeMetrics)
        ensures
            m == spec_ast_metrics(*ast_result),
    {
        let am = &ast_result.metrics;
        CodeMetrics {
            loc: 0,
            complexity: am.complexity,
            num_functions: am.num_functions,
            num_comments: 0,
            doc_coverage: if am.num_pub_functions > 0 {
                Ratio { numerator: am.documented_functions, denominator: am.num_pub_functions }
            } else {
                Ratio { numerator: 1, denominator: 1 }
            },
            test_coverage: None,
        }
    }

    /// Whether the basic metrics of `content` fit their counters.
    pub fn basic_metrics_fit(&self, content: &str) -> (b: bool)
        ensures
            b == basic_metrics_fit(content@),
    {
        let chars = chars_of(content);
        proof {
            reveal_strlit("fn ");
            reveal_strlit("function ");
            reveal_strlit("def ");
            reveal_strlit("if ");
            reveal_strlit("for ");
            reveal_strlit("while ");
            reveal_strlit("match ");
        }
        let fns = count_str_matches(&chars, "fn ") as u128;
        let functions = count_str_matches(&chars, "function ") as u128;
        let defs = count_str_matches(&chars, "def ") as u128;
        let ifs = count_str_matches(&chars, "if ") as u128;
        let fors = count_str_matches(&chars, "for ") as u128;
        let whiles = count_str_matches(&chars, "while ") as u128;
        let matches = count_str_matches(&chars, "match ") as u128;
        1 + ifs + fors + whiles + matches <= 0xffff_ffff && fns + functions + defs
            <= usize::MAX as u128
    }

    /// Calculate basic metrics (when there is no AST analysis).
    pub fn calculate_basic_metrics(&self, content: &str) -> (m: CodeMetrics)
        requires
            basic_metrics_fit(content@),
        ensures
            m == spec_basic_metrics(content@),
    {
        let chars = chars_of(content);
        let ls = lines_of(&chars);
        proof {
            reveal_strlit("fn ");
            reveal_strlit("function ");
            reveal_strlit("def ");
            reveal_strlit("if ");
            reveal_strlit("for ");
            reveal_strlit("while ");
            reveal_strlit("match ");
        }
        let fns = count_str_matches(&chars, "fn ");
        let functions = count_str_matches(&chars, "function ");
        let defs = count_str_matches(&chars, "def ");
        let ifs = count_str_matches(&chars, "if ");
        let fors = count_str_matches(&chars, "for ");
        let whiles = count_str_matches(&chars, "while ");
        let matches = count_str_matches(&chars, "match ");
        let num_comments = count_lines_of_kind(&ls, LineKind::AnyComment);
        let doc_lines = count_lines_of_kind(&ls, LineKind::AnyDoc);
        let complexity = (1 + ifs as u64 + fors as u64 + whiles as u64 + matches as u64) as u32;
        CodeMetrics {
            loc: ls.len(),
            complexity,
            num_functions: fns + functions + defs,
            num_comments,
            doc_coverage: Ratio { numerator: doc_lines, denominator: ls.len() },
            test_coverage: None,
        }
    }

    /// Deduplicate issues from different sources: of issues with the same
    /// category, description and line, the first stays.
    pub fn deduplicate_issues(&self, issues: Vec<Issue>) -> (r: Vec<Issue>)
        ensures
            issue_views(r@) == dedup(issue_views(issues@)),
    {
        let ghost all = issue_views(issues@);
        let mut r: Vec<Issue> = Vec::new();
        let mut i: usize = 0;
        while i < issues.len()
            invariant
                i <= issues.len(),
                all == issue_views(issues@),
                issue_views(r@) == dedup(all.take(i as int)),
            decreases issues.len() - i,
        {
            let ghost pre = all.take(i + 1);
            assert(pre.drop_last() =~= all.take(i as int));
            assert(pre.last() == issues@[i as int]@);
            let mut seen = false;
            let mut j: usize = 0;
            while j < i
                invariant
                    j <= i < issues.len(),
                    all == issue_views(issues@),
                    pre == all.take(i + 1),
                    seen == exists|k: int| 0 <= k < j && same_key(#[trigger] pre[k], pre.last()),
                decreases i - j,
            {
                if same_issue_key(&issues[j], &issues[i]) {
                    assert(same_key(pre[j as int], pre.last()));
                    seen = true;
                } else {
                    proof {
                        if seen {
                            let k = choose|k: int| 0 <= k < j && same_key(#[trigger] pre[k], pre.last());
                            assert(0 <= k < j + 1);
                        }
                        assert forall|k: int| 0 <= k < j + 1 && same_key(#[trigger] pre[k], pre.last()) implies k < j by {
                            if k == j {
                                assert(pre[k] == issues@[j as int]@);
                            }
                        }
                    }
                }
                j += 1;
            }
            if !seen {
                let ghost prev = issue_views(r@);
                r.push(issues[i].clone());
                assert(issue_views(r@) =~= prev.push(issues@[i as int]@));
            }
            i += 1;
        }
        assert(all.take(i as int) =~= all);
        r
    }
}

} // verus!
