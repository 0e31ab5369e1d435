//! Code analyzer for detecting issues and suggesting improvements.
use vstd::prelude::*;
use crate::config::AnalysisConfig;
use crate::text::{
    chars_of, count_matches, count_str_matches, decimal,
    lines, lines_of, owned, push_decimal, push_str, starts_with, str_starts_with, string_of, trim,
    trimmed, views,
};
use crate::time::Timestamp;

verus! {

/// Issue severity levels, from least to most severe.
#[derive(Debug, Clone, Copy, PartialEq, Eq, Structural, PartialOrd, Ord, Hash)]
pub enum IssueSeverity {
    Info,
    Warning,
    Error,
    Critical,
}

impl IssueSeverity {
    /// Position in the order `Info < Warning < Error < Critical`.
    pub open spec fn rank(self) -> nat {
        match self {
            IssueSeverity::Info => 0,
            IssueSeverity::Warning => 1,
            IssueSeverity::Error => 2,
            IssueSeverity::Critical => 3,
        }
    }

    pub fn level(&self) -> (r: u8)
        ensures
            r == self.rank(),
    {
        match self {
            IssueSeverity::Info => 0,
            IssueSeverity::Warning => 1,
            IssueSeverity::Error => 2,
            IssueSeverity::Critical => 3,
        }
    }

    /// `self >= other` in the severity order.
    pub fn at_least(&self, other: &IssueSeverity) -> (r: bool)
        ensures
            r == (self.rank() >= other.rank()),
    {
        self.level() >= other.level()
    }
}

/// Issue categories.
#[derive(Debug, Clone, Copy, PartialEq, Eq, Structural, Hash)]
pub enum IssueCategory {
    Style,
    Bug,
    Performance,
    Security,
    Complexity,
    Documentation,
    Testing,
    Maintainability,
}

impl IssueCategory {
    /// The variant's name, as `{:?}` writes it.
    pub open spec fn spec_name(self) -> Seq<char> {
        match self {
            IssueCategory::Style => "Style"@,
            IssueCategory::Bug => "Bug"@,
            IssueCategory::Performance => "Performance"@,
            IssueCategory::Security => "Security"@,
            IssueCategory::Complexity => "Complexity"@,
            IssueCategory::Documentation => "Documentation"@,
            IssueCategory::Testing => "Testing"@,
            IssueCategory::Maintainability => "Maintainability"@,
        }
    }

    /// The variant's name, as `{:?}` writes it.
    pub fn debug_name(&self) -> (s: String)
        ensures
            s@ == self.spec_name(),
    {
        match self {
            IssueCategory::Style => owned("Style"),
            IssueCategory::Bug => owned("Bug"),
            IssueCategory::Performance => owned("Performance"),
            IssueCategory::Security => owned("Security"),
            IssueCategory::Complexity => owned("Complexity"),
            IssueCategory::Documentation => owned("Documentation"),
            IssueCategory::Testing => owned("Testing"),
            IssueCategory::Maintainability => owned("Maintainability"),
        }
    }
}

/// The text held by an optional string.
pub open spec fn opt_view(o: Option<String>) -> Option<Seq<char>> {
    match o {
        Some(s) => Some(s@),
        None => None,
    }
}

/// Code issue detected.
#[derive(Debug)]
pub struct Issue {
    /// Issue severity
    pub severity: IssueSeverity,
    /// Issue category
    pub category: IssueCategory,
    /// Description
    pub description: String,
    /// Location in file (line number)
    pub line: Option<usize>,
    /// Column number
    pub column: Option<usize>,
    /// Code snippet
    pub snippet: Option<String>,
    /// Suggested fix
    pub suggested_fix: Option<String>,
}

/// What an [`Issue`] says, with its strings as character sequences.
pub struct IssueView {
    pub severity: IssueSeverity,
    pub category: IssueCategory,
    pub description: Seq<char>,
    pub line: Option<usize>,
    pub column: Option<usize>,
    pub snippet: Option<Seq<char>>,
    pub suggested_fix: Option<Seq<char>>,
}

impl View for Issue {
    type V = IssueView;

    open spec fn view(&self) -> IssueView {
        IssueView {
            severity: self.severity,
            category: self.category,
            description: self.description@,
            line: self.line,
            column: self.column,
            snippet: opt_view(self.snippet),
            suggested_fix: opt_view(self.suggested_fix),
        }
    }
}

impl Clone for Issue {
    fn clone(&self) -> (r: Self)
        ensures
            r == *self,
    {
        Issue {
            severity: self.severity,
            category: self.category,
            description: self.description.clone(),
            line: self.line,
            column: self.column,
            snippet: match &self.snippet {
                Some(s) => Some(s.clone()),
                None => None,
            },
            suggested_fix: match &self.suggested_fix {
                Some(s) => Some(s.clone()),
                None => None,
            },
        }
    }
}

/// The views of a sequence of issues.
pub open spec fn issue_views(v: Seq<Issue>) -> Seq<IssueView> {
    v.map_values(|i: Issue| i@)
}

/// Types of suggestions.
#[derive(Debug, Clone, Copy, PartialEq, Eq, Structural, Hash)]
pub enum SuggestionType {
    Refactor,
    AddTest,
    AddComment,
    ExtractFunction,
    RemoveDuplication,
    OptimizeImports,
    ImproveNaming,
    SimplifyLogic,
}

/// Impact levels.
#[derive(Debug, Clone, Copy, PartialEq, Eq, Structural, Hash)]
pub enum Impact {
    Low,
    Medium,
    High,
}

/// Code change description.
#[derive(Debug)]
pub struct CodeChange {
    /// Original code
    pub original: String,
    /// Modified code
    pub modified: String,
    /// Start line
    pub start_line: usize,
    /// End line
    pub end_line: usize,
}

impl Clone for CodeChange {
    fn clone(&self) -> (r: Self)
        ensures
            r == *self,
    {
        CodeChange {
            original: self.original.clone(),
            modified: self.modified.clone(),
            start_line: self.start_line,
            end_line: self.end_line,
        }
    }
}

/// Suggestion for improvement.
#[derive(Debug)]
pub struct Suggestion {
    /// Suggestion type
    pub suggestion_type: SuggestionType,
    /// Description
    pub description: String,
    /// Confidence score, in thousandths (0..=1000)
    pub confidence: u32,
    /// Estimated impact
    pub impact: Impact,
    /// Code changes (optional)
    pub code_changes: Option<CodeChange>,
    /// Rationale
    pub rationale: String,
}

/// What a [`Suggestion`] says, with its strings as character sequences.
pub struct SuggestionView {
    pub suggestion_type: SuggestionType,
    pub description: Seq<char>,
    pub confidence: u32,
    pub impact: Impact,
    pub has_code_changes: bool,
    pub rationale: Seq<char>,
}

impl View for Suggestion {
    type V = SuggestionView;

    open spec fn view(&self) -> SuggestionView {
        SuggestionView {
            suggestion_type: self.suggestion_type,
            description: self.description@,
            confidence: self.confidence,
            impact: self.impact,
            has_code_changes: self.code_changes is Some,
            rationale: self.rationale@,
        }
    }
}

impl Clone for Suggestion {
    fn clone(&self) -> (r: Self)
        ensures
            r == *self,
    {
        Suggestion {
            suggestion_type: self.suggestion_type,
            description: self.description.clone(),
            confidence: self.confidence,
            impact: self.impact,
            code_changes: match &self.code_changes {
                Some(c) => Some(c.clone()),
                None => None,
            },
            rationale: self.rationale.clone(),
        }
    }
}

/// The views of a sequence of suggestions.
pub open spec fn suggestion_views(v: Seq<Suggestion>) -> Seq<SuggestionView> {
    v.map_values(|s: Suggestion| s@)
}

/// A fraction `numerator / denominator`; a zero denominator stands for 0.
#[derive(Debug, Clone, Copy, PartialEq, Eq, Structural)]
pub struct Ratio {
    pub numerator: usize,
    pub denominator: usize,
}

impl Ratio {
    /// The fraction is below `t` thousandths.
    pub open spec fn spec_below_thousandths(self, t: u32) -> bool {
        if self.denominator == 0 {
            0 < t
        } else {
            self.numerator * 1000 < t * self.denominator
        }
    }

    pub fn below_thousandths(&self, t: u32) -> (b: bool)
        ensures
            b == self.spec_below_thousandths(t),
    {
        if self.denominator == 0 {
            0 < t
        } else {
            let n = self.numerator as u128;
            let d = self.denominator as u128;
            let tt = t as u128;
            assert(n * 1000 <= 0xffff_ffff_ffff_ffff * 1000) by (nonlinear_arith)
                requires
                    n <= 0xffff_ffff_ffff_ffff,
            ;
            assert(tt * d <= 0xffff_ffff * 0xffff_ffff_ffff_ffff) by (nonlinear_arith)
                requires
                    tt <= 0xffff_ffff,
                    d <= 0xffff_ffff_ffff_ffff,
            ;
            n * 1000 < tt * d
        }
    }
}

/// Code metrics.
#[derive(Debug, Clone, Copy, PartialEq, Eq, Structural)]
pub struct CodeMetrics {
    /// Lines of code
    pub loc: usize,
    /// Cyclomatic complexity
    pub complexity: u32,
    /// Number of functions
    pub num_functions: usize,
    /// Number of comments
    pub num_comments: usize,
    /// Documentation coverage
    pub doc_coverage: Ratio,
    /// Test coverage, if available
    pub test_coverage: Option<Ratio>,
}

/// Analysis result for a code file.
#[derive(Debug)]
pub struct AnalysisResult {
    /// File path analyzed
    pub file_path: String,
    /// Issues found
    pub issues: Vec<Issue>,
    /// Suggestions for improvement
    pub suggestions: Vec<Suggestion>,
    /// Code metrics
    pub metrics: CodeMetrics,
    /// Analysis timestamp
    pub timestamp: Timestamp,
    /// Analysis duration, in nanoseconds
    pub duration_nanos: u128,
}

pub fn clone_issues(v: &Vec<Issue>) -> (r: Vec<Issue>)
    ensures
        r@ == v@,
{
    let mut r: Vec<Issue> = Vec::new();
    let mut i: usize = 0;
    while i < v.len()
        invariant
            i <= v.len(),
            r@ == v@.take(i as int),
        decreases v.len() - i,
    {
        r.push(v[i].clone());
        i += 1;
        assert(r@ =~= v@.take(i as int));
    }
    assert(v@.take(i as int) =~= v@);
    r
}

pub fn clone_suggestions(v: &Vec<Suggestion>) -> (r: Vec<Suggestion>)
    ensures
        r@ == v@,
{
    let mut r: Vec<Suggestion> = Vec::new();
    let mut i: usize = 0;
    while i < v.len()
        invariant
            i <= v.len(),
            r@ == v@.take(i as int),
        decreases v.len() - i,
    {
        r.push(v[i].clone());
        i += 1;
        assert(r@ =~= v@.take(i as int));
    }
    assert(v@.take(i as int) =~= v@);
    r
}

impl Clone for AnalysisResult {
    fn clone(&self) -> (r: Self)
        ensures
            r.file_path == self.file_path,
            r.issues@ == self.issues@,
            r.suggestions@ == self.suggestions@,
            r.metrics == self.metrics,
            r.timestamp == self.timestamp,
            r.duration_nanos == self.duration_nanos,
    {
        AnalysisResult {
            file_path: self.file_path.clone(),
            issues: clone_issues(&self.issues),
            suggestions: clone_suggestions(&self.suggestions),
            metrics: self.metrics,
            timestamp: self.timestamp,
            duration_nanos: self.duration_nanos,
        }
    }
}

/// The issues of `v` at least as severe as `min`, in order.
pub open spec fn at_least_severity(v: Seq<Issue>, min: IssueSeverity) -> Seq<Issue>
    decreases v.len(),
{
    if v.len() == 0 {
        seq![]
    } else if v.last().severity.rank() >= min.rank() {
        at_least_severity(v.drop_last(), min).push(v.last())
    } else {
        at_least_severity(v.drop_last(), min)
    }
}

/// The suggestions of `v` of type `t`, in order.
pub open spec fn of_type(v: Seq<Suggestion>, t: SuggestionType) -> Seq<Suggestion>
    decreases v.len(),
{
    if v.len() == 0 {
        seq![]
    } else if v.last().suggestion_type == t {
        of_type(v.drop_last(), t).push(v.last())
    } else {
        of_type(v.drop_last(), t)
    }
}

impl AnalysisResult {
    /// Check if there are any critical issues.
    pub fn has_critical_issues(&self) -> (b: bool)
        ensures
            b == exists|i: int|
                0 <= i < self.issues.len() && #[trigger] self.issues@[i].severity
                    == IssueSeverity::Critical,
    {
        let mut i: usize = 0;
        while i < self.issues.len()
            invariant
                i <= self.issues.len(),
                forall|k: int|
                    0 <= k < i ==> #[trigger] self.issues@[k].severity != IssueSeverity::Critical,
            decreases self.issues.len() - i,
        {
            if self.issues[i].severity == IssueSeverity::Critical {
                return true;
            }
            i += 1;
        }
        false
    }

    /// Get all issues above a certain severity.
    pub fn issues_above_severity(&self, min_severity: IssueSeverity) -> (r: Vec<&Issue>)
        ensures
            r@.map_values(|x: &Issue| *x) == at_least_severity(self.issues@, min_severity),
    {
        let mut r: Vec<&Issue> = Vec::new();
        let mut i: usize = 0;
        while i < self.issues.len()
            invariant
                i <= self.issues.len(),
                r@.map_values(|x: &Issue| *x) == at_least_severity(
                    self.issues@.take(i as int),
                    min_severity,
                ),
            decreases self.issues.len() - i,
        {
            assert(self.issues@.take(i + 1).drop_last() =~= self.issues@.take(i as int));
            let ghost before = r@.map_values(|x: &Issue| *x);
            if self.issues[i].severity.at_least(&min_severity) {
                r.push(&self.issues[i]);
                assert(r@.map_values(|x: &Issue| *x) =~= before.push(self.issues@[i as int]));
            }
            i += 1;
        }
        assert(self.issues@.take(i as int) =~= self.issues@);
        r
    }

    /// Get suggestions by type.
    pub fn suggestions_by_type(&self, suggestion_type: SuggestionType) -> (r: Vec<&Suggestion>)
        ensures
            r@.map_values(|x: &Suggestion| *x) == of_type(self.suggestions@, suggestion_type),
    {
        let mut r: Vec<&Suggestion> = Vec::new();
        let mut i: usize = 0;
        while i < self.suggestions.len()
            invariant
                i <= self.suggestions.len(),
                r@.map_values(|x: &Suggestion| *x) == of_type(
                    self.suggestions@.take(i as int),
                    suggestion_type,
                ),
            decreases self.suggestions.len() - i,
        {
            assert(self.suggestions@.take(i + 1).drop_last() =~= self.suggestions@.take(i as int));
            let ghost before = r@.map_values(|x: &Suggestion| *x);
            if self.suggestions[i].suggestion_type == suggestion_type {
                r.push(&self.suggestions[i]);
                assert(r@.map_values(|x: &Suggestion| *x) =~= before.push(
                    self.suggestions@[i as int],
                ));
            }
            i += 1;
        }
        assert(self.suggestions@.take(i as int) =~= self.suggestions@);
        r
    }
}

// ---------------------------------------------------------------------------
// Line classification
// ---------------------------------------------------------------------------
/// The kinds of lines that the metrics count, by what the trimmed line
/// starts with.
#[derive(Debug, Clone, Copy, PartialEq, Eq, Structural)]
pub enum LineKind {
    /// `//`
    Comment,
    /// `///` or `//!`
    Doc,
    /// `//`, `#` or `/*`
    AnyComment,
    /// `///` or `"""`
    AnyDoc,
}

pub open spec fn line_is(l: Seq<char>, kind: LineKind) -> bool {
    let t = trim(l);
    match kind {
        LineKind::Comment => starts_with(t, "//"@),
        LineKind::Doc => starts_with(t, "///"@) || starts_with(t, "//!"@),
        LineKind::AnyComment => starts_with(t, "//"@) || starts_with(t, "#"@) || starts_with(
            t,
            "/*"@,
        ),
        LineKind::AnyDoc => starts_with(t, "///"@) || starts_with(t, "\"\"\""@),
    }
}

/// Number of lines of `ls` of the given kind.
pub open spec fn count_lines(ls: Seq<Seq<char>>, kind: LineKind) -> nat
    decreases ls.len(),
{
    if ls.len() == 0 {
        0
    } else {
        count_lines(ls.drop_last(), kind) + if line_is(ls.last(), kind) {
            1nat
        } else {
            0nat
        }
    }
}

pub fn line_is_kind(l: &Vec<char>, kind: LineKind) -> (b: bool)
    ensures
        b == line_is(l@, kind),
{
    let t = trimmed(l);
    match kind {
        LineKind::Comment => str_starts_with(&t, "//"),
        LineKind::Doc => str_starts_with(&t, "///") || str_starts_with(&t, "//!"),
        LineKind::AnyComment => str_starts_with(&t, "//") || str_starts_with(&t, "#")
            || str_starts_with(&t, "/*"),
        LineKind::AnyDoc => str_starts_with(&t, "///") || str_starts_with(&t, "\"\"\""),
    }
}

pub fn count_lines_of_kind(ls: &Vec<Vec<char>>, kind: LineKind) -> (n: usize)
    ensures
        n == count_lines(views(ls@), kind),
        n <= ls.len(),
{
    let mut n: usize = 0;
    let mut i: usize = 0;
    while i < ls.len()
        invariant
            i <= ls.len(),
            n <= i,
            n == count_lines(views(ls@).take(i as int), kind),
        decreases ls.len() - i,
    {
        assert(views(ls@).take(i + 1).drop_last() =~= views(ls@).take(i as int));
        if line_is_kind(&ls[i], kind) {
            n += 1;
        }
        i += 1;
    }
    assert(views(ls@).take(i as int) =~= views(ls@));
    n
}

// ---------------------------------------------------------------------------
// Complexity estimate
// ---------------------------------------------------------------------------
/// `1` plus the non-overlapping occurrences of `"if "`, `"else "`, `"for "`,
/// `"while "`, `"match "`, `"&&"` and `"||"`.
pub open spec fn estimated_complexity(s: Seq<char>) -> nat {
    1 + count_matches(s, "if "@) + count_matches(s, "else "@) + count_matches(s, "for "@)
        + count_matches(s, "while "@) + count_matches(s, "match "@) + count_matches(s, "&&"@)
        + count_matches(s, "||"@)
}

// ---------------------------------------------------------------------------
// Laws of the complexity estimate
// ---------------------------------------------------------------------------
/// A pattern that does not start at position `k` of `w` (it differs from
/// `w` at `k + j`) is not counted there.
proof fn lemma_count_skip(w: Seq<char>, k: int, s: Seq<char>, p: Seq<char>, j: int)
    requires
        0 <= k < w.len(),
        0 <= j < p.len(),
        k + j < w.len(),
        w[k + j] != p[j],
    ensures
        count_matches(w.skip(k) + s, p) == count_matches(w.skip(k + 1) + s, p),
{
    let t = w.skip(k) + s;
    assert(t.drop_first() =~= w.skip(k + 1) + s);
    if t.len() >= p.len() {
        assert(t.take(p.len() as int)[j] == w[k + j]);
        assert(t.take(p.len() as int) != p);
    } else {
        assert(count_matches(t.drop_first(), p) == 0);
    }
}

/// A pattern at the front of a text is counted once there, and counting
/// goes on after it.
proof fn lemma_count_front(w: Seq<char>, s: Seq<char>)
    requires
        w.len() > 0,
    ensures
        count_matches(w + s, w) == 1 + count_matches(s, w),
{
    assert((w + s).take(w.len() as int) =~= w);
    assert((w + s).skip(w.len() as int) =~= s);
}


proof fn lemma_front_if(s: Seq<char>)
    ensures
        estimated_complexity("if "@ + s) == estimated_complexity(s) + 1,
{
    reveal_strlit("if ");
    reveal_strlit("else ");
    reveal_strlit("for ");
    reveal_strlit("while ");
    reveal_strlit("match ");
    reveal_strlit("&&");
    reveal_strlit("||");
    let w = "if "@;
    assert(w.skip(0) =~= w);
    assert(w.skip(w.len() as int) + s =~= s);
    lemma_count_front(w, s);
    lemma_count_skip(w, 0, s, "else "@, 0);
    lemma_count_skip(w, 1, s, "else "@, 0);
    lemma_count_skip(w, 2, s, "else "@, 0);
    lemma_count_skip(w, 0, s, "for "@, 0);
    lemma_count_skip(w, 1, s, "for "@, 1);
    lemma_count_skip(w, 2, s, "for "@, 0);
    lemma_count_skip(w, 0, s, "while "@, 0);
    lemma_count_skip(w, 1, s, "while "@, 0);
    lemma_count_skip(w, 2, s, "while "@, 0);
    lemma_count_skip(w, 0, s, "match "@, 0);
    lemma_count_skip(w, 1, s, "match "@, 0);
    lemma_count_skip(w, 2, s, "match "@, 0);
    lemma_count_skip(w, 0, s, "&&"@, 0);
    lemma_count_skip(w, 1, s, "&&"@, 0);
    lemma_count_skip(w, 2, s, "&&"@, 0);
    lemma_count_skip(w, 0, s, "||"@, 0);
    lemma_count_skip(w, 1, s, "||"@, 0);
    lemma_count_skip(w, 2, s, "||"@, 0);
}

proof fn lemma_front_else(s: Seq<char>)
    ensures
        estimated_complexity("else "@ + s) == estimated_complexity(s) + 1,
{
    reveal_strlit("if ");
    reveal_strlit("else ");
    reveal_strlit("for ");
    reveal_strlit("while ");
    reveal_strlit("match ");
    reveal_strlit("&&");
    reveal_strlit("||");
    let w = "else "@;
    assert(w.skip(0) =~= w);
    assert(w.skip(w.len() as int) + s =~= s);
    lemma_count_front(w, s);
    lemma_count_skip(w, 0, s, "if "@, 0);
    lemma_count_skip(w, 1, s, "if "@, 0);
    lemma_count_skip(w, 2, s, "if "@, 0);
    lemma_count_skip(w, 3, s, "if "@, 0);
    lemma_count_skip(w, 4, s, "if "@, 0);
    lemma_count_skip(w, 0, s, "for "@, 0);
    lemma_count_skip(w, 1, s, "for "@, 0);
    lemma_count_skip(w, 2, s, "for "@, 0);
    lemma_count_skip(w, 3, s, "for "@, 0);
    lemma_count_skip(w, 4, s, "for "@, 0);
    lemma_count_skip(w, 0, s, "while "@, 0);
    lemma_count_skip(w, 1, s, "while "@, 0);
    lemma_count_skip(w, 2, s, "while "@, 0);
    lemma_count_skip(w, 3, s, "while "@, 0);
    lemma_count_skip(w, 4, s, "while "@, 0);
    lemma_count_skip(w, 0, s, "match "@, 0);
    lemma_count_skip(w, 1, s, "match "@, 0);
    lemma_count_skip(w, 2, s, "match "@, 0);
    lemma_count_skip(w, 3, s, "match "@, 0);
    lemma_count_skip(w, 4, s, "match "@, 0);
    lemma_count_skip(w, 0, s, "&&"@, 0);
    lemma_count_skip(w, 1, s, "&&"@, 0);
    lemma_count_skip(w, 2, s, "&&"@, 0);
    lemma_count_skip(w, 3, s, "&&"@, 0);
    lemma_count_skip(w, 4, s, "&&"@, 0);
    lemma_count_skip(w, 0, s, "||"@, 0);
    lemma_count_skip(w, 1, s, "||"@, 0);
    lemma_count_skip(w, 2, s, "||"@, 0);
    lemma_count_skip(w, 3, s, "||"@, 0);
    lemma_count_skip(w, 4, s, "||"@, 0);
}

proof fn lemma_front_for(s: Seq<char>)
    ensures
        estimated_complexity("for "@ + s) == estimated_complexity(s) + 1,
{
    reveal_strlit("if ");
    reveal_strlit("else ");
    reveal_strlit("for ");
    reveal_strlit("while ");
    reveal_strlit("match ");
    reveal_strlit("&&");
    reveal_strlit("||");
    let w = "for "@;
    assert(w.skip(0) =~= w);
    assert(w.skip(w.len() as int) + s =~= s);
    lemma_count_front(w, s);
    lemma_count_skip(w, 0, s, "if "@, 0);
    lemma_count_skip(w, 1, s, "if "@, 0);
    lemma_count_skip(w, 2, s, "if "@, 0);
    lemma_count_skip(w, 3, s, "if "@, 0);
    lemma_count_skip(w, 0, s, "else "@, 0);
    lemma_count_skip(w, 1, s, "else "@, 0);
    lemma_count_skip(w, 2, s, "else "@, 0);
    lemma_count_skip(w, 3, s, "else "@, 0);
    lemma_count_skip(w, 0, s, "while "@, 0);
    lemma_count_skip(w, 1, s, "while "@, 0);
    lemma_count_skip(w, 2, s, "while "@, 0);
    lemma_count_skip(w, 3, s, "while "@, 0);
    lemma_count_skip(w, 0, s, "match "@, 0);
    lemma_count_skip(w, 1, s, "match "@, 0);
    lemma_count_skip(w, 2, s, "match "@, 0);
    lemma_count_skip(w, 3, s, "match "@, 0);
    lemma_count_skip(w, 0, s, "&&"@, 0);
    lemma_count_skip(w, 1, s, "&&"@, 0);
    lemma_count_skip(w, 2, s, "&&"@, 0);
    lemma_count_skip(w, 3, s, "&&"@, 0);
    lemma_count_skip(w, 0, s, "||"@, 0);
    lemma_count_skip(w, 1, s, "||"@, 0);
    lemma_count_skip(w, 2, s, "||"@, 0);
    lemma_count_skip(w, 3, s, "||"@, 0);
}

proof fn lemma_front_while(s: Seq<char>)
    ensures
        estimated_complexity("while "@ + s) == estimated_complexity(s) + 1,
{
    reveal_strlit("if ");
    reveal_strlit("else ");
    reveal_strlit("for ");
    reveal_strlit("while ");
    reveal_strlit("match ");
    reveal_strlit("&&");
    reveal_strlit("||");
    let w = "while "@;
    assert(w.skip(0) =~= w);
    assert(w.skip(w.len() as int) + s =~= s);
    lemma_count_front(w, s);
    lemma_count_skip(w, 0, s, "if "@, 0);
    lemma_count_skip(w, 1, s, "if "@, 0);
    lemma_count_skip(w, 2, s, "if "@, 1);
    lemma_count_skip(w, 3, s, "if "@, 0);
    lemma_count_skip(w, 4, s, "if "@, 0);
    lemma_count_skip(w, 5, s, "if "@, 0);
    lemma_count_skip(w, 0, s, "else "@, 0);
    lemma_count_skip(w, 1, s, "else "@, 0);
    lemma_count_skip(w, 2, s, "else "@, 0);
    lemma_count_skip(w, 3, s, "else "@, 0);
    lemma_count_skip(w, 4, s, "else "@, 1);
    lemma_count_skip(w, 5, s, "else "@, 0);
    lemma_count_skip(w, 0, s, "for "@, 0);
    lemma_count_skip(w, 1, s, "for "@, 0);
    lemma_count_skip(w, 2, s, "for "@, 0);
    lemma_count_skip(w, 3, s, "for "@, 0);
    lemma_count_skip(w, 4, s, "for "@, 0);
    lemma_count_skip(w, 5, s, "for "@, 0);
    lemma_count_skip(w, 0, s, "match "@, 0);
    lemma_count_skip(w, 1, s, "match "@, 0);
    lemma_count_skip(w, 2, s, "match "@, 0);
    lemma_count_skip(w, 3, s, "match "@, 0);
    lemma_count_skip(w, 4, s, "match "@, 0);
    lemma_count_skip(w, 5, s, "match "@, 0);
    lemma_count_skip(w, 0, s, "&&"@, 0);
    lemma_count_skip(w, 1, s, "&&"@, 0);
    lemma_count_skip(w, 2, s, "&&"@, 0);
    lemma_count_skip(w, 3, s, "&&"@, 0);
    lemma_count_skip(w, 4, s, "&&"@, 0);
    lemma_count_skip(w, 5, s, "&&"@, 0);
    lemma_count_skip(w, 0, s, "||"@, 0);
    lemma_count_skip(w, 1, s, "||"@, 0);
    lemma_count_skip(w, 2, s, "||"@, 0);
    lemma_count_skip(w, 3, s, "||"@, 0);
    lemma_count_skip(w, 4, s, "||"@, 0);
    lemma_count_skip(w, 5, s, "||"@, 0);
}

proof fn lemma_front_match(s: Seq<char>)
    ensures
        estimated_complexity("match "@ + s) == estimated_complexity(s) + 1,
{
    reveal_strlit("if ");
    reveal_strlit("else ");
    reveal_strlit("for ");
    reveal_strlit("while ");
    reveal_strlit("match ");
    reveal_strlit("&&");
    reveal_strlit("||");
    let w = "match "@;
    assert(w.skip(0) =~= w);
    assert(w.skip(w.len() as int) + s =~= s);
    lemma_count_front(w, s);
    lemma_count_skip(w, 0, s, "if "@, 0);
    lemma_count_skip(w, 1, s, "if "@, 0);
    lemma_count_skip(w, 2, s, "if "@, 0);
    lemma_count_skip(w, 3, s, "if "@, 0);
    lemma_count_skip(w, 4, s, "if "@, 0);
    lemma_count_skip(w, 5, s, "if "@, 0);
    lemma_count_skip(w, 0, s, "else "@, 0);
    lemma_count_skip(w, 1, s, "else "@, 0);
    lemma_count_skip(w, 2, s, "else "@, 0);
    lemma_count_skip(w, 3, s, "else "@, 0);
    lemma_count_skip(w, 4, s, "else "@, 0);
    lemma_count_skip(w, 5, s, "else "@, 0);
    lemma_count_skip(w, 0, s, "for "@, 0);
    lemma_count_skip(w, 1, s, "for "@, 0);
    lemma_count_skip(w, 2, s, "for "@, 0);
    lemma_count_skip(w, 3, s, "for "@, 0);
    lemma_count_skip(w, 4, s, "for "@, 0);
    lemma_count_skip(w, 5, s, "for "@, 0);
    lemma_count_skip(w, 0, s, "while "@, 0);
    lemma_count_skip(w, 1, s, "while "@, 0);
    lemma_count_skip(w, 2, s, "while "@, 0);
    lemma_count_skip(w, 3, s, "while "@, 0);
    lemma_count_skip(w, 4, s, "while "@, 0);
    lemma_count_skip(w, 5, s, "while "@, 0);
    lemma_count_skip(w, 0, s, "&&"@, 0);
    lemma_count_skip(w, 1, s, "&&"@, 0);
    lemma_count_skip(w, 2, s, "&&"@, 0);
    lemma_count_skip(w, 3, s, "&&"@, 0);
    lemma_count_skip(w, 4, s, "&&"@, 0);
    lemma_count_skip(w, 5, s, "&&"@, 0);
    lemma_count_skip(w, 0, s, "||"@, 0);
    lemma_count_skip(w, 1, s, "||"@, 0);
    lemma_count_skip(w, 2, s, "||"@, 0);
    lemma_count_skip(w, 3, s, "||"@, 0);
    lemma_count_skip(w, 4, s, "||"@, 0);
    lemma_count_skip(w, 5, s, "||"@, 0);
}

proof fn lemma_front_and(s: Seq<char>)
    ensures
        estimated_complexity("&&"@ + s) == estimated_complexity(s) + 1,
{
    reveal_strlit("if ");
    reveal_strlit("else ");
    reveal_strlit("for ");
    reveal_strlit("while ");
    reveal_strlit("match ");
    reveal_strlit("&&");
    reveal_strlit("||");
    let w = "&&"@;
    assert(w.skip(0) =~= w);
    assert(w.skip(w.len() as int) + s =~= s);
    lemma_count_front(w, s);
    lemma_count_skip(w, 0, s, "if "@, 0);
    lemma_count_skip(w, 1, s, "if "@, 0);
    lemma_count_skip(w, 0, s, "else "@, 0);
    lemma_count_skip(w, 1, s, "else "@, 0);
    lemma_count_skip(w, 0, s, "for "@, 0);
    lemma_count_skip(w, 1, s, "for "@, 0);
    lemma_count_skip(w, 0, s, "while "@, 0);
    lemma_count_skip(w, 1, s, "while "@, 0);
    lemma_count_skip(w, 0, s, "match "@, 0);
    lemma_count_skip(w, 1, s, "match "@, 0);
    lemma_count_skip(w, 0, s, "||"@, 0);
    lemma_count_skip(w, 1, s, "||"@, 0);
}

proof fn lemma_front_or(s: Seq<char>)
    ensures
        estimated_complexity("||"@ + s) == estimated_complexity(s) + 1,
{
    reveal_strlit("if ");
    reveal_strlit("else ");
    reveal_strlit("for ");
    reveal_strlit("while ");
    reveal_strlit("match ");
    reveal_strlit("&&");
    reveal_strlit("||");
    let w = "||"@;
    assert(w.skip(0) =~= w);
    assert(w.skip(w.len() as int) + s =~= s);
    lemma_count_front(w, s);
    lemma_count_skip(w, 0, s, "if "@, 0);
    lemma_count_skip(w, 1, s, "if "@, 0);
    lemma_count_skip(w, 0, s, "else "@, 0);
    lemma_count_skip(w, 1, s, "else "@, 0);
    lemma_count_skip(w, 0, s, "for "@, 0);
    lemma_count_skip(w, 1, s, "for "@, 0);
    lemma_count_skip(w, 0, s, "while "@, 0);
    lemma_count_skip(w, 1, s, "while "@, 0);
    lemma_count_skip(w, 0, s, "match "@, 0);
    lemma_count_skip(w, 1, s, "match "@, 0);
    lemma_count_skip(w, 0, s, "&&"@, 0);
    lemma_count_skip(w, 1, s, "&&"@, 0);
}

/// Each decision word at the front of a text adds one to its complexity
/// estimate, whatever follows it: `if `, `else `, `for `, `while `,
/// `match `, `&&` and `||` each count once. Text without any of them has
/// the estimate one.
pub proof fn lemma_decision_words_count_once(s: Seq<char>)
    ensures
        estimated_complexity("if "@ + s) == estimated_complexity(s) + 1,
        estimated_complexity("else "@ + s) == estimated_complexity(s) + 1,
        estimated_complexity("for "@ + s) == estimated_complexity(s) + 1,
        estimated_complexity("while "@ + s) == estimated_complexity(s) + 1,
        estimated_complexity("match "@ + s) == estimated_complexity(s) + 1,
        estimated_complexity("&&"@ + s) == estimated_complexity(s) + 1,
        estimated_complexity("||"@ + s) == estimated_complexity(s) + 1,
        estimated_complexity(Seq::<char>::empty()) == 1,
{
    lemma_front_if(s);
    lemma_front_else(s);
    lemma_front_for(s);
    lemma_front_while(s);
    lemma_front_match(s);
    lemma_front_and(s);
    lemma_front_or(s);
}

/// A character that starts no decision word adds nothing to the
/// complexity estimate, whatever follows it.
pub proof fn lemma_other_character_counts_nothing(c: char, s: Seq<char>)
    requires
        c != 'i' && c != 'e' && c != 'f' && c != 'w' && c != 'm' && c != '&' && c != '|',
    ensures
        estimated_complexity(seq![c] + s) == estimated_complexity(s),
{
    reveal_strlit("if ");
    reveal_strlit("else ");
    reveal_strlit("for ");
    reveal_strlit("while ");
    reveal_strlit("match ");
    reveal_strlit("&&");
    reveal_strlit("||");
    let w = seq![c];
    assert(w.skip(0) =~= w);
    assert(w.skip(1) + s =~= s);
    lemma_count_skip(w, 0, s, "if "@, 0);
    lemma_count_skip(w, 0, s, "else "@, 0);
    lemma_count_skip(w, 0, s, "for "@, 0);
    lemma_count_skip(w, 0, s, "while "@, 0);
    lemma_count_skip(w, 0, s, "match "@, 0);
    lemma_count_skip(w, 0, s, "&&"@, 0);
    lemma_count_skip(w, 0, s, "||"@, 0);
}

/// The complexity estimate of `s` fits the `u32` it is summed in (the
/// sum overflows, and panics, otherwise).
pub open spec fn estimate_fits(s: Seq<char>) -> bool {
    estimated_complexity(s) <= u32::MAX
}

fn estimate_wide(s: &Vec<char>) -> (c: u128)
    ensures
        c == estimated_complexity(s@),
{
    proof {
        reveal_strlit("if ");
        reveal_strlit("else ");
        reveal_strlit("for ");
        reveal_strlit("while ");
        reveal_strlit("match ");
        reveal_strlit("&&");
        reveal_strlit("||");
    }
    let a = count_str_matches(s, "if ") as u128;
    let b = count_str_matches(s, "else ") as u128;
    let f = count_str_matches(s, "for ") as u128;
    let w = count_str_matches(s, "while ") as u128;
    let m = count_str_matches(s, "match ") as u128;
    let and = count_str_matches(s, "&&") as u128;
    let or = count_str_matches(s, "||") as u128;
    1 + a + b + f + w + m + and + or
}

/// Whether the complexity estimate of `content` fits its `u32`.
pub fn complexity_estimate_fits(content: &str) -> (b: bool)
    ensures
        b == estimate_fits(content@),
{
    let chars = chars_of(content);
    estimate_wide(&chars) <= 0xffff_ffff
}

fn complexity_of(s: &Vec<char>) -> (c: u32)
    requires
        estimate_fits(s@),
    ensures
        c == estimated_complexity(s@),
{
    estimate_wide(s) as u32
}

// ---------------------------------------------------------------------------
// Issues, suggestions and metrics
// ---------------------------------------------------------------------------
/// The style issue for a line longer than 100 characters.
pub open spec fn long_line_issue(line: Seq<char>, number: int) -> IssueView {
    IssueView {
        severity: IssueSeverity::Warning,
        category: IssueCategory::Style,
        description: "Line exceeds 100 characters"@,
        line: Some(number as usize),
        column: Some(100usize),
        snippet: Some(line),
        suggested_fix: None,
    }
}

/// One style issue per line of `ls` longer than 100 characters, in line order,
/// numbered from 1.
pub open spec fn long_line_issues(ls: Seq<Seq<char>>) -> Seq<IssueView>
    decreases ls.len(),
{
    if ls.len() == 0 {
        seq![]
    } else if ls.last().len() > 100 {
        long_line_issues(ls.drop_last()).push(long_line_issue(ls.last(), ls.len() as int))
    } else {
        long_line_issues(ls.drop_last())
    }
}

/// Adding a line adds a long-line issue exactly when the line has more than
/// 100 characters: a style warning at that line's number (counting from
/// one), column 100, quoting the line.
pub proof fn lemma_long_line_added(ls: Seq<Seq<char>>, l: Seq<char>)
    ensures
        l.len() > 100 ==> long_line_issues(ls.push(l)) == long_line_issues(ls).push(
            long_line_issue(l, ls.len() + 1int),
        ),
        l.len() <= 100 ==> long_line_issues(ls.push(l)) == long_line_issues(ls),
        long_line_issue(l, ls.len() + 1int).severity == IssueSeverity::Warning,
        long_line_issue(l, ls.len() + 1int).category == IssueCategory::Style,
        long_line_issue(l, ls.len() + 1int).line == Some((ls.len() + 1) as usize),
        long_line_issue(l, ls.len() + 1int).column == Some(100usize),
        long_line_issue(l, ls.len() + 1int).snippet == Some(l),
        long_line_issues(ls).len() <= ls.len(),
    decreases ls.len(),
{
    assert(ls.push(l).drop_last() =~= ls);
    if ls.len() > 0 {
        lemma_long_line_added(ls.drop_last(), ls.last());
        assert(ls.drop_last().push(ls.last()) =~= ls);
    }
}

/// The complexity issue for an estimate above the threshold.
pub open spec fn complexity_issue(complexity: nat, max: nat) -> IssueView {
    IssueView {
        severity: IssueSeverity::Warning,
        category: IssueCategory::Complexity,
        description: "Code complexity ("@ + decimal(complexity) + ") exceeds threshold ("@
            + decimal(max) + ")"@,
        line: None,
        column: None,
        snippet: None,
        suggested_fix: Some("Consider breaking down complex functions"@),
    }
}

/// The issues that the basic analysis reports for `content`.
pub open spec fn spec_detect_issues(cfg: AnalysisConfig, content: Seq<char>) -> Seq<IssueView> {
    (if cfg.check_style {
        long_line_issues(lines(content))
    } else {
        seq![]
    }) + (if cfg.check_complexity && estimated_complexity(content) > cfg.max_complexity {
        seq![complexity_issue(estimated_complexity(content), cfg.max_complexity as nat)]
    } else {
        seq![]
    })
}

/// The suggestion made for each complexity issue.
pub open spec fn extract_function_suggestion() -> SuggestionView {
    SuggestionView {
        suggestion_type: SuggestionType::ExtractFunction,
        description: "Extract complex logic into separate functions"@,
        confidence: 800,
        impact: Impact::High,
        has_code_changes: false,
        rationale: "Reducing complexity improves readability and maintainability"@,
    }
}

/// The suggestion made when documentation coverage is below the minimum.
pub open spec fn add_documentation_suggestion() -> SuggestionView {
    SuggestionView {
        suggestion_type: SuggestionType::AddComment,
        description: "Add documentation to improve code clarity"@,
        confidence: 900,
        impact: Impact::Medium,
        has_code_changes: false,
        rationale: "Documentation helps other developers understand the code"@,
    }
}

/// One extract-function suggestion per complexity issue.
pub open spec fn complexity_suggestions(issues: Seq<IssueView>) -> Seq<SuggestionView>
    decreases issues.len(),
{
    if issues.len() == 0 {
        seq![]
    } else if issues.last().category == IssueCategory::Complexity {
        complexity_suggestions(issues.drop_last()).push(extract_function_suggestion())
    } else {
        complexity_suggestions(issues.drop_last())
    }
}

/// Share of documentation lines (`///` or `//!`) among all lines.
pub open spec fn spec_doc_coverage(content: Seq<char>) -> Ratio {
    Ratio {
        numerator: count_lines(lines(content), LineKind::Doc) as usize,
        denominator: lines(content).len() as usize,
    }
}

/// The suggestions that the basic analysis makes.
pub open spec fn spec_generate_suggestions(
    cfg: AnalysisConfig,
    content: Seq<char>,
    issues: Seq<IssueView>,
) -> Seq<SuggestionView> {
    complexity_suggestions(issues) + (if cfg.check_documentation && spec_doc_coverage(
        content,
    ).spec_below_thousandths(cfg.min_doc_coverage) {
        seq![add_documentation_suggestion()]
    } else {
        seq![]
    })
}

/// The metrics of the basic analysis.
pub open spec fn spec_metrics(content: Seq<char>) -> CodeMetrics {
    CodeMetrics {
        loc: lines(content).len() as usize,
        complexity: estimated_complexity(content) as u32,
        num_functions: count_matches(content, "fn "@) as usize,
        num_comments: count_lines(lines(content), LineKind::Comment) as usize,
        doc_coverage: spec_doc_coverage(content),
        test_coverage: None,
    }
}

fn make_issue(
    severity: IssueSeverity,
    category: IssueCategory,
    description: String,
    line: Option<usize>,
    column: Option<usize>,
    snippet: Option<String>,
    suggested_fix: Option<String>,
) -> (i: Issue)
    ensures
        i.severity == severity,
        i.category == category,
        i.description == description,
        i.line == line,
        i.column == column,
        i.snippet == snippet,
        i.suggested_fix == suggested_fix,
{
    Issue { severity, category, description, line, column, snippet, suggested_fix }
}

fn extract_function_suggestion_value() -> (s: Suggestion)
    ensures
        s@ == extract_function_suggestion(),
{
    Suggestion {
        suggestion_type: SuggestionType::ExtractFunction,
        description: owned("Extract complex logic into separate functions"),
        confidence: 800,
        impact: Impact::High,
        code_changes: None,
        rationale: owned("Reducing complexity improves readability and maintainability"),
    }
}

fn add_documentation_suggestion_value() -> (s: Suggestion)
    ensures
        s@ == add_documentation_suggestion(),
{
    Suggestion {
        suggestion_type: SuggestionType::AddComment,
        description: owned("Add documentation to improve code clarity"),
        confidence: 900,
        impact: Impact::Medium,
        code_changes: None,
        rationale: owned("Documentation helps other developers understand the code"),
    }
}

fn doc_coverage_of(ls: &Vec<Vec<char>>) -> (r: Ratio)
    ensures
        r.numerator == count_lines(views(ls@), LineKind::Doc),
        r.denominator == ls.len(),
{
    Ratio { numerator: count_lines_of_kind(ls, LineKind::Doc), denominator: ls.len() }
}

/// Code analyzer.
pub struct CodeAnalyzer {
    /// Analysis configuration
    config: AnalysisConfig,
}

impl CodeAnalyzer {
    /// The configuration the analyzer applies.
    pub closed spec fn cfg(&self) -> AnalysisConfig {
        self.config
    }

    /// Create a new code analyzer.
    pub fn new(config: AnalysisConfig) -> (a: Self)
        ensures
            a.cfg() == config,
    {
        CodeAnalyzer { config }
    }

    /// Detect issues in code: lines over 100 characters (when style is
    /// checked), then an estimate above the threshold (when complexity is
    /// checked).
    pub fn detect_issues(&self, content: &str) -> (r: Vec<Issue>)
        requires
            self.cfg().check_complexity ==> estimate_fits(content@),
        ensures
            issue_views(r@) == spec_detect_issues(self.cfg(), content@),
    {
        let chars = chars_of(content);
        let ls = lines_of(&chars);
        let mut issues: Vec<Issue> = Vec::new();
        if self.config.check_style {
            let mut i: usize = 0;
            while i < ls.len()
                invariant
                    i <= ls.len(),
                    issue_views(issues@) == long_line_issues(views(ls@).take(i as int)),
                decreases ls.len() - i,
            {
                assert(views(ls@).take(i + 1).drop_last() =~= views(ls@).take(i as int));
                assert(views(ls@).take(i + 1).last() == ls@[i as int]@);
                if ls[i].len() > 100 {
                    let ghost before = issue_views(issues@);
                    let issue = make_issue(
                        IssueSeverity::Warning,
                        IssueCategory::Style,
                        owned("Line exceeds 100 characters"),
                        Some(i + 1),
                        Some(100),
                        Some(string_of(&ls[i])),
                        None,
                    );
                    issues.push(issue);
                    assert(issue_views(issues@) =~= before.push(
                        long_line_issue(ls@[i as int]@, i + 1),
                    ));
                }
                i += 1;
            }
            assert(views(ls@).take(i as int) =~= views(ls@));
        }
        let ghost style = issue_views(issues@);
        if self.config.check_complexity {
            let complexity = complexity_of(&chars);
            if complexity > self.config.max_complexity {
                let mut d = String::new();
                push_str(&mut d, "Code complexity (");
                push_decimal(&mut d, complexity as u64);
                push_str(&mut d, ") exceeds threshold (");
                push_decimal(&mut d, self.config.max_complexity as u64);
                push_str(&mut d, ")");
                let issue = make_issue(
                    IssueSeverity::Warning,
                    IssueCategory::Complexity,
                    d,
                    None,
                    None,
                    None,
                    Some(owned("Consider breaking down complex functions")),
                );
                issues.push(issue);
                assert(issue_views(issues@) =~= style + seq![
                    complexity_issue(complexity as nat, self.config.max_complexity as nat),
                ]);
            }
        }
        assert(issue_views(issues@) =~= spec_detect_issues(self.cfg(), content@));
        issues
    }

    /// Generate improvement suggestions: one per complexity issue, then one
    /// for documentation coverage below the minimum (when documentation is
    /// checked).
    pub fn generate_suggestions(&self, content: &str, issues: &Vec<Issue>) -> (r: Vec<Suggestion>)
        ensures
            suggestion_views(r@) == spec_generate_suggestions(
                self.cfg(),
                content@,
                issue_views(issues@),
            ),
    {
        let mut suggestions: Vec<Suggestion> = Vec::new();
        let mut i: usize = 0;
        while i < issues.len()
            invariant
                i <= issues.len(),
                suggestion_views(suggestions@) == complexity_suggestions(
                    issue_views(issues@).take(i as int),
                ),
            decreases issues.len() - i,
        {
            assert(issue_views(issues@).take(i + 1).drop_last() =~= issue_views(issues@).take(
                i as int,
            ));
            if issues[i].category == IssueCategory::Complexity {
                let ghost before = suggestion_views(suggestions@);
                suggestions.push(extract_function_suggestion_value());
                assert(suggestion_views(suggestions@) =~= before.push(
                    extract_function_suggestion(),
                ));
            }
            i += 1;
        }
        assert(issue_views(issues@).take(i as int) =~= issue_views(issues@));
        let ghost base = suggestion_views(suggestions@);
        if self.config.check_documentation {
            let coverage = self.calculate_doc_coverage(content);
            if coverage.below_thousandths(self.config.min_doc_coverage) {
                suggestions.push(add_documentation_suggestion_value());
                assert(suggestion_views(suggestions@) =~= base + seq![
                    add_documentation_suggestion(),
                ]);
            }
        }
        assert(suggestion_views(suggestions@) =~= spec_generate_suggestions(
            self.cfg(),
            content@,
            issue_views(issues@),
        ));
        suggestions
    }

    /// Calculate code metrics.
    pub fn calculate_metrics(&self, content: &str) -> (m: CodeMetrics)
        requires
            estimate_fits(content@),
        ensures
            m == spec_metrics(content@),
    {
        let chars = chars_of(content);
        let ls = lines_of(&chars);
        proof {
            reveal_strlit("fn ");
        }
        let num_functions = count_str_matches(&chars, "fn ");
        let num_comments = count_lines_of_kind(&ls, LineKind::Comment);
        let doc_coverage = doc_coverage_of(&ls);
        let complexity = complexity_of(&chars);
        CodeMetrics {
            loc: ls.len(),
            complexity,
            num_functions,
            num_comments,
            doc_coverage,
            test_coverage: None,
        }
    }

    /// Calculate documentation coverage: the share of lines that start
    /// (after trimming) with `///` or `//!`; no lines give zero.
    pub fn calculate_doc_coverage(&self, content: &str) -> (r: Ratio)
        ensures
            r == spec_doc_coverage(content@),
    {
        let chars = chars_of(content);
        let ls = lines_of(&chars);
        doc_coverage_of(&ls)
    }

    /// Estimate cyclomatic complexity (simplified).
    pub fn estimate_complexity(&self, content: &str) -> (c: u32)
        requires
            estimate_fits(content@),
        ensures
            c == estimated_complexity(content@),
    {
        let chars = chars_of(content);
        complexity_of(&chars)
    }

    /// The analysis of a file's content: its issues, the suggestions drawn
    /// from them and its metrics, stamped with the given time and duration.
    pub fn analyze_content(
        &self,
        file_path: &str,
        content: &str,
        timestamp: Timestamp,
        duration_nanos: u128,
    ) -> (r: AnalysisResult)
        requires
            estimate_fits(content@),
        ensures
            r.file_path@ == file_path@,
            issue_views(r.issues@) == spec_detect_issues(self.cfg(), content@),
            suggestion_views(r.suggestions@) == spec_generate_suggestions(
                self.cfg(),
                content@,
                spec_detect_issues(self.cfg(), content@),
            ),
            r.metrics == spec_metrics(content@),
            r.timestamp == timestamp,
            r.duration_nanos == duration_nanos,
    {
        let issues = self.detect_issues(content);
        let suggestions = self.generate_suggestions(content, &issues);
        let metrics = self.calculate_metrics(content);
        AnalysisResult {
            file_path: owned(file_path),
            issues,
            suggestions,
            metrics,
            timestamp,
            duration_nanos,
        }
    }
}

} // verus!
