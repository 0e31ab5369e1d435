//! Prompts and replies of the local AI model (Ollama).
//!
//! The HTTP exchange itself happens outside this library; here are the
//! prompts sent, the cache keys and URL used, and how replies become
//! issues and suggestions.
use vstd::prelude::*;
use crate::analyzer::{
    issue_views, Impact, Issue, IssueCategory, IssueSeverity, IssueView,
    Suggestion, SuggestionType,
};
use crate::config::LocalAIConfig;
use crate::ai_cache::{expired_at, generate_key, spec_generate_key, AICache, CachedView};
use crate::time::Timestamp;
use crate::text::{
    chars_of, contains, join, join_all, owned, push_chars, push_str, slice_chars, str_contains,
    string_of, views,
};

verus! {

/// Unicode lower-case mapping of a string, as `str::to_lowercase` computes it.
pub uninterp spec fn spec_lowercase(s: Seq<char>) -> Seq<char>;

/// The lower-case form of an ASCII character (`A`..`Z` become `a`..`z`).
pub open spec fn ascii_lower(c: char) -> char {
    if 'A' <= c && c <= 'Z' {
        ((c as u32) + 32) as char
    } else {
        c
    }
}

/// Every character of `s` is ASCII.
pub open spec fn all_ascii(s: Seq<char>) -> bool {
    forall|i: int| 0 <= i < s.len() ==> (s[i] as u32) < 128
}

/// `str::to_lowercase`: the string with every character replaced by its
/// Unicode lower-case mapping; on ASCII text that is ASCII lower-casing.
/// Beyond ASCII the result is a function of the text alone; the Unicode
/// tables it follows are not restated here.
#[verifier::external_body]
fn to_lowercase(s: &str) -> (r: String)
    ensures
        r@ == spec_lowercase(s@),
        all_ascii(s@) ==> r@ == s@.map_values(|c: char| ascii_lower(c)),
{
    s.to_lowercase()
}

/// How `{:?}` writes a path (a quoted string with escapes).
pub uninterp spec fn spec_path_debug(path: Seq<char>) -> Seq<char>;

/// `format!("{:?}", Path::new(path))`: the path quoted, with characters
/// escaped as `Debug` escapes them. The result is a function of the path
/// text alone; the escaping rules are not restated here.
#[verifier::external_body]
pub(crate) fn path_debug(path: &str) -> (r: String)
    ensures
        r@ == spec_path_debug(path@),
{
    format!("{:?}", std::path::Path::new(path))
}

/// Quick check types.
#[derive(Debug, Clone, Copy, PartialEq, Eq, Structural)]
pub enum QuickCheckType {
    HasBugs,
    NeedsRefactor,
    IsTested,
}

/// AI analysis result.
#[derive(Debug, Clone)]
pub struct AIAnalysisResult {
    pub issues: Vec<AIIssue>,
    pub overall_quality: String,
    pub key_concerns: Vec<String>,
}

/// AI-detected issue.
#[derive(Debug, Clone)]
pub struct AIIssue {
    pub severity: String,
    pub category: String,
    pub description: String,
    pub line: Option<usize>,
    pub suggestion: Option<String>,
}

/// AI suggestion.
#[derive(Debug, Clone)]
pub struct AISuggestion {
    /// The suggestion's type as the model names it
    pub suggestion_type: String,
    pub description: String,
    /// Confidence, in thousandths (0..=1000)
    pub confidence: u32,
    pub impact: String,
    pub rationale: String,
}

/// Severity named by a lower-cased severity word.
pub open spec fn severity_named(s: Seq<char>) -> IssueSeverity {
    if s == "critical"@ {
        IssueSeverity::Critical
    } else if s == "error"@ {
        IssueSeverity::Error
    } else if s == "warning"@ {
        IssueSeverity::Warning
    } else {
        IssueSeverity::Info
    }
}

/// What an AI issue converts to: its severity word, lower-cased, decides
/// the severity (`critical`, `error` and `warning` name theirs, any other
/// word is information) and its category word the category (`bug`,
/// `style`, `performance`, `security`, `complexity` name theirs); its
/// description, line and suggestion are kept and it has no column or
/// snippet.
pub proof fn lemma_ai_issue_conversion(a: AIIssue)
    ensures
        ({
            let v = crate::enhanced_analyzer::ai_issue_view(a);
            let sev = spec_lowercase(a.severity@);
            let cat = spec_lowercase(a.category@);
            &&& sev == "warning"@ ==> v.severity == IssueSeverity::Warning
            &&& sev == "error"@ ==> v.severity == IssueSeverity::Error
            &&& sev == "critical"@ ==> v.severity == IssueSeverity::Critical
            &&& (sev != "warning"@ && sev != "error"@ && sev != "critical"@) ==> v.severity
                == IssueSeverity::Info
            &&& cat == "bug"@ ==> v.category == IssueCategory::Bug
            &&& cat == "style"@ ==> v.category == IssueCategory::Style
            &&& cat == "performance"@ ==> v.category == IssueCategory::Performance
            &&& cat == "security"@ ==> v.category == IssueCategory::Security
            &&& cat == "complexity"@ ==> v.category == IssueCategory::Complexity
            &&& v.description == a.description@
            &&& v.line == a.line
            &&& v.column is None
            &&& v.snippet is None
            &&& v.suggested_fix == crate::analyzer::opt_view(a.suggestion)
        }),
{
    reveal_strlit("warning");
    reveal_strlit("error");
    reveal_strlit("critical");
    reveal_strlit("bug");
    reveal_strlit("style");
    reveal_strlit("performance");
    reveal_strlit("security");
    reveal_strlit("complexity");
    let v = crate::enhanced_analyzer::ai_issue_view(a);
    assert(v.severity == severity_named(spec_lowercase(a.severity@)));
    assert(v.category == category_named(spec_lowercase(a.category@)));
    assert("warning"@.len() == 7);
    assert("critical"@.len() == 8);
    assert("error"@.len() == 5);
    assert("bug"@.len() == 3);
    assert("style"@.len() == 5);
    assert("performance"@.len() == 11);
    assert("security"@.len() == 8);
    assert("complexity"@.len() == 10);
}

/// Category named by a lower-cased category word.
pub open spec fn category_named(s: Seq<char>) -> IssueCategory {
    if s == "bug"@ {
        IssueCategory::Bug
    } else if s == "style"@ {
        IssueCategory::Style
    } else if s == "performance"@ {
        IssueCategory::Performance
    } else if s == "security"@ {
        IssueCategory::Security
    } else if s == "complexity"@ {
        IssueCategory::Complexity
    } else if s == "documentation"@ {
        IssueCategory::Documentation
    } else if s == "testing"@ {
        IssueCategory::Testing
    } else {
        IssueCategory::Maintainability
    }
}

/// Suggestion type named by a lower-cased type word.
pub open spec fn suggestion_type_named(s: Seq<char>) -> SuggestionType {
    if s == "refactor"@ {
        SuggestionType::Refactor
    } else if s == "add_test"@ {
        SuggestionType::AddTest
    } else if s == "add_comment"@ {
        SuggestionType::AddComment
    } else if s == "extract_function"@ {
        SuggestionType::ExtractFunction
    } else if s == "remove_duplication"@ {
        SuggestionType::RemoveDuplication
    } else if s == "optimize"@ {
        SuggestionType::OptimizeImports
    } else {
        SuggestionType::SimplifyLogic
    }
}

/// Impact named by a lower-cased impact word.
pub open spec fn impact_named(s: Seq<char>) -> Impact {
    if s == "high"@ {
        Impact::High
    } else if s == "medium"@ {
        Impact::Medium
    } else {
        Impact::Low
    }
}

fn same_text(a: &Vec<char>, b: &str) -> (r: bool)
    ensures
        r == (a@ == b@),
{
    let bv = chars_of(b);
    if a.len() != bv.len() {
        return false;
    }
    let mut i: usize = 0;
    while i < a.len()
        invariant
            a.len() == bv.len(),
            bv@ == b@,
            i <= a.len(),
            forall|k: int| 0 <= k < i ==> a@[k] == bv@[k],
        decreases a.len() - i,
    {
        if a[i] != bv[i] {
            assert(a@[i as int] != bv@[i as int]);
            return false;
        }
        i += 1;
    }
    assert(a@ =~= bv@);
    true
}

fn clone_opt(o: &Option<String>) -> (r: Option<String>)
    ensures
        r == *o,
{
    match o {
        Some(s) => Some(s.clone()),
        None => None,
    }
}

impl AIIssue {
    /// Convert to Issue: severity and category are read from the
    /// lower-cased words (unknown words give `Info` and `Maintainability`).
    pub fn to_issue(&self) -> (i: Issue)
        ensures
            i.severity == severity_named(spec_lowercase(self.severity@)),
            i.category == category_named(spec_lowercase(self.category@)),
            i.description@ == self.description@,
            i.line == self.line,
            i.column is None,
            i.snippet is None,
            i.suggested_fix == self.suggestion,
    {
        let sev_s = to_lowercase(self.severity.as_str());
        let sev = chars_of(sev_s.as_str());
        let severity = if same_text(&sev, "critical") {
            IssueSeverity::Critical
        } else if same_text(&sev, "error") {
            IssueSeverity::Error
        } else if same_text(&sev, "warning") {
            IssueSeverity::Warning
        } else {
            IssueSeverity::Info
        };
        let cat_s = to_lowercase(self.category.as_str());
        let cat = chars_of(cat_s.as_str());
        let category = if same_text(&cat, "bug") {
            IssueCategory::Bug
        } else if same_text(&cat, "style") {
            IssueCategory::Style
        } else if same_text(&cat, "performance") {
            IssueCategory::Performance
        } else if same_text(&cat, "security") {
            IssueCategory::Security
        } else if same_text(&cat, "complexity") {
            IssueCategory::Complexity
        } else if same_text(&cat, "documentation") {
            IssueCategory::Documentation
        } else if same_text(&cat, "testing") {
            IssueCategory::Testing
        } else {
            IssueCategory::Maintainability
        };
        Issue {
            severity,
            category,
            description: self.description.clone(),
            line: self.line,
            column: None,
            snippet: None,
            suggested_fix: clone_opt(&self.suggestion),
        }
    }
}

/// What the type and impact words of an AI suggestion, lower-cased, name:
/// the six types the prompt lists (`refactor`, `add_test`, `add_comment`,
/// `extract_function`, `remove_duplication`, `optimize`) map to their
/// suggestion types, any other word to simplifying logic; `high` and
/// `medium` to their impacts, anything else to low.
pub proof fn lemma_suggestion_words(t: Seq<char>, impact: Seq<char>)
    ensures
        t == "refactor"@ ==> suggestion_type_named(t) == SuggestionType::Refactor,
        t == "add_test"@ ==> suggestion_type_named(t) == SuggestionType::AddTest,
        t == "add_comment"@ ==> suggestion_type_named(t) == SuggestionType::AddComment,
        t == "extract_function"@ ==> suggestion_type_named(t) == SuggestionType::ExtractFunction,
        t == "remove_duplication"@ ==> suggestion_type_named(t) == SuggestionType::RemoveDuplication,
        t == "optimize"@ ==> suggestion_type_named(t) == SuggestionType::OptimizeImports,
        (t != "refactor"@ && t != "add_test"@ && t != "add_comment"@ && t != "extract_function"@
            && t != "remove_duplication"@ && t != "optimize"@) ==> suggestion_type_named(t)
            == SuggestionType::SimplifyLogic,
        impact == "high"@ ==> impact_named(impact) == Impact::High,
        impact == "medium"@ ==> impact_named(impact) == Impact::Medium,
        (impact != "high"@ && impact != "medium"@) ==> impact_named(impact) == Impact::Low,
{
    reveal_strlit("refactor");
    reveal_strlit("add_test");
    reveal_strlit("add_comment");
    reveal_strlit("extract_function");
    reveal_strlit("remove_duplication");
    reveal_strlit("optimize");
    reveal_strlit("high");
    reveal_strlit("medium");
    assert("refactor"@.len() == 8 && "add_test"@.len() == 8 && "add_comment"@.len() == 11);
    assert("extract_function"@.len() == 16 && "remove_duplication"@.len() == 18);
    assert("optimize"@.len() == 8 && "high"@.len() == 4 && "medium"@.len() == 6);
    assert("refactor"@[0] != "add_test"@[0]);
    assert("refactor"@[0] != "optimize"@[0]);
    assert("add_test"@[0] != "optimize"@[0]);
}

impl AISuggestion {
    /// Convert to Suggestion: type and impact are read from the lower-cased
    /// words (unknown words give `SimplifyLogic` and `Low`).
    pub fn to_suggestion(&self) -> (s: Suggestion)
        ensures
            s.suggestion_type == suggestion_type_named(spec_lowercase(self.suggestion_type@)),
            s.description@ == self.description@,
            s.confidence == self.confidence,
            s.impact == impact_named(spec_lowercase(self.impact@)),
            s.code_changes is None,
            s.rationale@ == self.rationale@,
    {
        let t_s = to_lowercase(self.suggestion_type.as_str());
        let t = chars_of(t_s.as_str());
        let suggestion_type = if same_text(&t, "refactor") {
            SuggestionType::Refactor
        } else if same_text(&t, "add_test") {
            SuggestionType::AddTest
        } else if same_text(&t, "add_comment") {
            SuggestionType::AddComment
        } else if same_text(&t, "extract_function") {
            SuggestionType::ExtractFunction
        } else if same_text(&t, "remove_duplication") {
            SuggestionType::RemoveDuplication
        } else if same_text(&t, "optimize") {
            SuggestionType::OptimizeImports
        } else {
            SuggestionType::SimplifyLogic
        };
        let i_s = to_lowercase(self.impact.as_str());
        let im = chars_of(i_s.as_str());
        let impact = if same_text(&im, "high") {
            Impact::High
        } else if same_text(&im, "medium") {
            Impact::Medium
        } else {
            Impact::Low
        };
        Suggestion {
            suggestion_type,
            description: self.description.clone(),
            confidence: self.confidence,
            impact,
            code_changes: None,
            rationale: self.rationale.clone(),
        }
    }
}

// ---------------------------------------------------------------------------
// Prompts
// ---------------------------------------------------------------------------
/// The analysis prompt for code in `language` from the file whose path
/// `{:?}` writes as `path_debug`.
pub open spec fn analysis_prompt(path_debug: Seq<char>, content: Seq<char>, language: Seq<char>) -> Seq<
    char,
> {
    "You are a code review expert. Analyze the following "@ + language + " code from file "@ + path_debug + ".\n\nIdentify:\n1. Potential bugs and security issues\n2. Code style violations\n3. Performance problems\n4. Maintainability concerns\n\nProvide your analysis in this JSON format:\n{\n  \"issues\": [\n    {\n      \"severity\": \"error|warning|info\",\n      \"category\": \"bug|style|performance|security|complexity\",\n      \"description\": \"Description of the issue\",\n      \"line\": line_number,\n      \"suggestion\": \"How to fix it\"\n    }\n  ],\n  \"overall_quality\": \"poor|fair|good|excellent\",\n  \"key_concerns\": [\"concern1\", \"concern2\"]\n}\n\nCode:\n```"@ + language + "\n"@ + content + "\n```\n\nAnalysis:"@
}

/// `- {category:?}: {description}` for each issue.
pub open spec fn issue_summary_lines(issues: Seq<IssueView>) -> Seq<Seq<char>>
    decreases issues.len(),
{
    if issues.len() == 0 {
        seq![]
    } else {
        issue_summary_lines(issues.drop_last()).push(
            "- "@ + issues.last().category.spec_name() + ": "@ + issues.last().description,
        )
    }
}

/// The improvement prompt for a file, its content and its known issues.
pub open spec fn improvement_prompt(path_debug: Seq<char>, content: Seq<char>, issues: Seq<IssueView>) -> Seq<
    char,
> {
    "You are a code improvement expert. Given the code and identified issues, suggest specific improvements.\n\nFile: "@ + path_debug + "\n\nKnown Issues:\n"@ + join(issue_summary_lines(issues), "\n"@) + "\n\nCode:\n```\n"@ + content + "\n```\n\nProvide improvement suggestions in this JSON format:\n{\n  \"suggestions\": [\n    {\n      \"type\": \"refactor|add_test|add_comment|extract_function|remove_duplication|optimize\",\n      \"description\": \"What to improve\",\n      \"confidence\": 0.0-1.0,\n      \"impact\": \"low|medium|high\",\n      \"rationale\": \"Why this improvement helps\"\n    }\n  ]\n}\n\nSuggestions:"@
}

/// The question a quick check asks, before the code.
pub open spec fn quick_check_question(t: QuickCheckType) -> Seq<char> {
    match t {
        QuickCheckType::HasBugs => "Does this code have any obvious bugs? Answer with just YES or NO.\n\n"@,
        QuickCheckType::NeedsRefactor => "Does this code need refactoring? Answer with just YES or NO.\n\n"@,
        QuickCheckType::IsTested => "Does this code appear to have tests? Answer with just YES or NO.\n\n"@,
    }
}

/// A quick-check reply means yes when its lower-cased text contains `yes`.
pub open spec fn spec_quick_check_answer(response: Seq<char>) -> bool {
    contains(spec_lowercase(response), "yes"@)
}

/// The text between the first `{` and the last `}` of a reply (both
/// included); the whole reply when it has no `{`, no `}`, or its last `}`
/// comes before the character preceding its first `{` (such a reply is
/// then handed to the parser as it is, which falls back to the default).
pub open spec fn spec_json_part(r: Seq<char>) -> Seq<char> {
    if r.contains('{') && r.contains('}') && first_index(r, '{') <= last_index(r, '}') + 1 {
        r.subrange(first_index(r, '{'), last_index(r, '}') + 1)
    } else {
        r
    }
}

/// Index of the first occurrence of `c` in `r`.
pub open spec fn first_index(r: Seq<char>, c: char) -> int {
    choose|i: int| 0 <= i < r.len() && r[i] == c && forall|j: int| 0 <= j < i ==> r[j] != c
}

/// Index of the last occurrence of `c` in `r`.
pub open spec fn last_index(r: Seq<char>, c: char) -> int {
    choose|i: int| 0 <= i < r.len() && r[i] == c && forall|j: int| i < j < r.len() ==> r[j] != c
}

fn find_first(r: &Vec<char>, c: char) -> (res: Option<usize>)
    ensures
        match res {
            Some(i) => i < r.len() && r@[i as int] == c && forall|j: int| 0 <= j < i ==> r@[j] != c,
            None => !r@.contains(c),
        },
{
    let mut i: usize = 0;
    while i < r.len()
        invariant
            i <= r.len(),
            forall|j: int| 0 <= j < i ==> r@[j] != c,
        decreases r.len() - i,
    {
        if r[i] == c {
            return Some(i);
        }
        i += 1;
    }
    None
}

fn find_last(r: &Vec<char>, c: char) -> (res: Option<usize>)
    ensures
        match res {
            Some(i) => i < r.len() && r@[i as int] == c && forall|j: int| i < j < r.len() ==> r@[j] != c,
            None => !r@.contains(c),
        },
{
    let mut i: usize = r.len();
    while i > 0
        invariant
            i <= r.len(),
            forall|j: int| i <= j < r.len() ==> r@[j] != c,
        decreases i,
    {
        if r[i - 1] == c {
            return Some(i - 1);
        }
        i -= 1;
    }
    None
}

proof fn lemma_first_index(r: Seq<char>, c: char, i: int)
    requires
        0 <= i < r.len(),
        r[i] == c,
        forall|j: int| 0 <= j < i ==> r[j] != c,
    ensures
        first_index(r, c) == i,
{
    let k = first_index(r, c);
    assert(0 <= k < r.len() && r[k] == c && forall|j: int| 0 <= j < k ==> r[j] != c);
}

proof fn lemma_last_index(r: Seq<char>, c: char, i: int)
    requires
        0 <= i < r.len(),
        r[i] == c,
        forall|j: int| i < j < r.len() ==> r[j] != c,
    ensures
        last_index(r, c) == i,
{
    let k = last_index(r, c);
    assert(0 <= k < r.len() && r[k] == c && forall|j: int| k < j < r.len() ==> r[j] != c);
}

/// The part of a model reply that is parsed as JSON.
pub fn extract_json(response: &str) -> (r: String)
    ensures
        r@ == spec_json_part(response@),
{
    let chars = chars_of(response);
    match find_first(&chars, '{') {
        Some(start) => match find_last(&chars, '}') {
            Some(end) => {
                proof {
                    lemma_first_index(chars@, '{', start as int);
                    lemma_last_index(chars@, '}', end as int);
                }
                if start <= end + 1 {
                    string_of(&slice_chars(&chars, start, end + 1))
                } else {
                    owned(response)
                }
            },
            None => owned(response),
        },
        None => owned(response),
    }
}

/// The analysis a reply gives: the parsed result, or an empty analysis of
/// quality `unknown` when the reply did not parse.
pub fn analysis_or_fallback(parsed: Option<AIAnalysisResult>) -> (r: AIAnalysisResult)
    ensures
        match parsed {
            Some(p) => r == p,
            None => r.issues@.len() == 0 && r.overall_quality@ == "unknown"@ && r.key_concerns@.len()
                == 0,
        },
{
    match parsed {
        Some(p) => p,
        None => AIAnalysisResult {
            issues: Vec::new(),
            overall_quality: owned("unknown"),
            key_concerns: Vec::new(),
        },
    }
}

/// The suggestions a reply gives: each parsed suggestion converted, or none
/// when the reply did not parse.
pub fn suggestions_or_empty(parsed: Option<Vec<AISuggestion>>) -> (r: Vec<Suggestion>)
    ensures
        match parsed {
            Some(p) => r@.len() == p@.len() && forall|i: int|
                0 <= i < p@.len() ==> #[trigger] r@[i].suggestion_type == suggestion_type_named(
                    spec_lowercase(p@[i].suggestion_type@),
                ) && r@[i].description@ == p@[i].description@ && r@[i].confidence
                    == p@[i].confidence && r@[i].impact == impact_named(spec_lowercase(p@[i].impact@))
                    && r@[i].code_changes is None && r@[i].rationale@ == p@[i].rationale@,
            None => r@.len() == 0,
        },
{
    match parsed {
        None => Vec::new(),
        Some(p) => {
            let mut r: Vec<Suggestion> = Vec::new();
            let mut i: usize = 0;
            while i < p.len()
                invariant
                    i <= p.len(),
                    r@.len() == i,
                    forall|k: int|
                        0 <= k < i ==> #[trigger] r@[k].suggestion_type == suggestion_type_named(
                            spec_lowercase(p@[k].suggestion_type@),
                        ) && r@[k].description@ == p@[k].description@ && r@[k].confidence
                            == p@[k].confidence && r@[k].impact == impact_named(
                            spec_lowercase(p@[k].impact@),
                        ) && r@[k].code_changes is None && r@[k].rationale@ == p@[k].rationale@,
                decreases p.len() - i,
            {
                r.push(p[i].to_suggestion());
                i += 1;
            }
            r
        },
    }
}

/// A reply remembered for `model` and `prompt` at `now` is served again
/// from the cache by `cached_reply_at` at any time less than an hour
/// later (and not a second or more before it was stored).
pub proof fn lemma_remembered_reply_served(
    cache: AICache,
    model: Seq<char>,
    prompt: Seq<char>,
    reply: Seq<char>,
    now: Timestamp,
    later: Timestamp,
)
    requires
        cache.contents().dom().contains(spec_generate_key(prompt, model)),
        cache.contents()[spec_generate_key(prompt, model)] == (CachedView {
            response: reply,
            timestamp: now,
            ttl_secs: 3600,
        }),
        -1_000_000_000 < later.total_nanos() - now.total_nanos() < 3600 * 1_000_000_000,
    ensures
        !expired_at(cache.contents()[spec_generate_key(prompt, model)], later),
        cache.answer_at(spec_generate_key(prompt, model), later) == Some(reply),
{
    crate::ai_cache::lemma_expiry(cache.contents()[spec_generate_key(prompt, model)], later);
}

/// AI client for code analysis: the models, prompts and endpoint of a
/// local Ollama server.
#[derive(Debug, Clone)]
pub struct AIClient {
    config: LocalAIConfig,
}

impl AIClient {
    /// The configuration the client uses.
    pub closed spec fn cfg(&self) -> LocalAIConfig {
        self.config
    }

    /// Create a new AI client.
    pub fn new(config: LocalAIConfig) -> (c: Self)
        ensures
            c.cfg() == config,
    {
        AIClient { config }
    }

    /// Get the coding model name.
    pub fn coding_model(&self) -> (r: &str)
        ensures
            r@ == self.cfg().coding_model@,
    {
        self.config.coding_model.as_str()
    }

    /// Get the review model name.
    pub fn review_model(&self) -> (r: &str)
        ensures
            r@ == self.cfg().review_model@,
    {
        self.config.review_model.as_str()
    }

    /// Get the quick check model name.
    pub fn quick_check_model(&self) -> (r: &str)
        ensures
            r@ == self.cfg().quick_check_model@,
    {
        self.config.quick_check_model.as_str()
    }

    /// The generate endpoint: the base URL followed by `/api/generate`.
    pub fn generate_url(&self) -> (r: String)
        ensures
            r@ == self.cfg().ollama_base_url@ + "/api/generate"@,
    {
        let mut s = self.config.ollama_base_url.clone();
        push_str(&mut s, "/api/generate");
        s
    }

    /// The key under which the reply of `model` to `prompt` is cached.
    pub fn cache_key(model: &str, prompt: &str) -> (r: String)
        ensures
            r@ == spec_generate_key(prompt@, model@),
    {
        generate_key(prompt, model)
    }

    /// The cached reply of `model` to `prompt` as of `now`, if any is
    /// cached and not expired.
    pub fn cached_reply_at(cache: &AICache, model: &str, prompt: &str, now: &Timestamp) -> (r: Option<
        String,
    >)
        ensures
            ({
                let k = spec_generate_key(prompt@, model@);
                &&& r matches Some(s) ==> cache.contents().dom().contains(k) && s@
                    == cache.contents()[k].response && !expired_at(cache.contents()[k], *now)
                &&& r is None ==> !cache.contents().dom().contains(k) || expired_at(
                    cache.contents()[k],
                    *now,
                )
            }),
    {
        let key = Self::cache_key(model, prompt);
        cache.get_at(key.as_str(), now)
    }

    /// Cache the reply of `model` to `prompt` at `now`, for an hour.
    pub fn remember_reply_at(cache: &mut AICache, model: &str, prompt: &str, reply: String, now: Timestamp)
        ensures
            final(cache).contents().dom().contains(spec_generate_key(prompt@, model@)),
            final(cache).contents()[spec_generate_key(prompt@, model@)] == (CachedView {
                response: reply@,
                timestamp: now,
                ttl_secs: 3600,
            }),
            final(cache).capacity() == old(cache).capacity(),
    {
        let key = Self::cache_key(model, prompt);
        cache.put_at(key, reply, 3600, now);
    }

    /// Create analysis prompt.
    pub fn create_analysis_prompt(&self, file_path: &str, content: &str, language: &str) -> (r: String)
        ensures
            r@ == analysis_prompt(spec_path_debug(file_path@), content@, language@),
    {
        let path = path_debug(file_path);
        let mut s = String::new();
        push_str(&mut s, "You are a code review expert. Analyze the following ");
        push_str(&mut s, language);
        push_str(&mut s, " code from file ");
        push_str(&mut s, path.as_str());
        push_str(&mut s, ".\n\nIdentify:\n1. Potential bugs and security issues\n2. Code style violations\n3. Performance problems\n4. Maintainability concerns\n\nProvide your analysis in this JSON format:\n{\n  \"issues\": [\n    {\n      \"severity\": \"error|warning|info\",\n      \"category\": \"bug|style|performance|security|complexity\",\n      \"description\": \"Description of the issue\",\n      \"line\": line_number,\n      \"suggestion\": \"How to fix it\"\n    }\n  ],\n  \"overall_quality\": \"poor|fair|good|excellent\",\n  \"key_concerns\": [\"concern1\", \"concern2\"]\n}\n\nCode:\n```");
        push_str(&mut s, language);
        push_str(&mut s, "\n");
        push_str(&mut s, content);
        push_str(&mut s, "\n```\n\nAnalysis:");
        s
    }

    /// Create improvement prompt.
    pub fn create_improvement_prompt(&self, file_path: &str, content: &str, issues: &Vec<Issue>) -> (r: String)
        ensures
            r@ == improvement_prompt(spec_path_debug(file_path@), content@, issue_views(issues@)),
    {
        let mut summary: Vec<Vec<char>> = Vec::new();
        let mut i: usize = 0;
        while i < issues.len()
            invariant
                i <= issues.len(),
                views(summary@) == issue_summary_lines(issue_views(issues@).take(i as int)),
            decreases issues.len() - i,
        {
            assert(issue_views(issues@).take(i + 1).drop_last() =~= issue_views(issues@).take(i as int));
            let mut line = chars_of("- ");
            let name = issues[i].category.debug_name();
            let nv = chars_of(name.as_str());
            crate::text::extend_chars(&mut line, &nv);
            let sep = chars_of(": ");
            crate::text::extend_chars(&mut line, &sep);
            let dv = chars_of(issues[i].description.as_str());
            crate::text::extend_chars(&mut line, &dv);
            let ghost before = views(summary@);
            summary.push(line);
            assert(views(summary@) =~= before.push(
                "- "@ + issues@[i as int].category.spec_name() + ": "@ + issues@[i as int].description@,
            ));
            i += 1;
        }
        assert(issue_views(issues@).take(i as int) =~= issue_views(issues@));
        let joined = join_all(&summary, "\n");
        let path = path_debug(file_path);
        let mut s = String::new();
        push_str(&mut s, "You are a code improvement expert. Given the code and identified issues, suggest specific improvements.\n\nFile: ");
        push_str(&mut s, path.as_str());
        push_str(&mut s, "\n\nKnown Issues:\n");
        push_chars(&mut s, &joined);
        push_str(&mut s, "\n\nCode:\n```\n");
        push_str(&mut s, content);
        push_str(&mut s, "\n```\n\nProvide improvement suggestions in this JSON format:\n{\n  \"suggestions\": [\n    {\n      \"type\": \"refactor|add_test|add_comment|extract_function|remove_duplication|optimize\",\n      \"description\": \"What to improve\",\n      \"confidence\": 0.0-1.0,\n      \"impact\": \"low|medium|high\",\n      \"rationale\": \"Why this improvement helps\"\n    }\n  ]\n}\n\nSuggestions:");
        s
    }

    /// The prompt of a quick check: its question followed by the code.
    pub fn quick_check_prompt(&self, content: &str, check_type: QuickCheckType) -> (r: String)
        ensures
            r@ == quick_check_question(check_type) + content@,
    {
        let mut s = String::new();
        match check_type {
            QuickCheckType::HasBugs => push_str(&mut s, "Does this code have any obvious bugs? Answer with just YES or NO.\n\n"),
            QuickCheckType::NeedsRefactor => push_str(&mut s, "Does this code need refactoring? Answer with just YES or NO.\n\n"),
            QuickCheckType::IsTested => push_str(&mut s, "Does this code appear to have tests? Answer with just YES or NO.\n\n"),
        }
        push_str(&mut s, content);
        s
    }

    /// Reads a quick-check reply: yes when the lower-cased reply contains
    /// `yes`.
    pub fn quick_check_answer(response: &str) -> (b: bool)
        ensures
            b == spec_quick_check_answer(response@),
    {
        let lower = to_lowercase(response);
        let l = chars_of(lower.as_str());
        str_contains(&l, "yes")
    }
}

} // verus!
