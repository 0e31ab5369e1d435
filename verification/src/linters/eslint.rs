//! ESLint linter integration for JavaScript/TypeScript.
use vstd::prelude::*;
use crate::analyzer::{issue_views, Issue, IssueCategory, IssueSeverity, IssueView};
use crate::text::{chars_of, contains, owned, push_str, starts_with, str_contains, str_starts_with, trim, trimmed};
use super::{str_texts, Invocation, Linter, texts};

verus! {

/// ESLint JSON output format: the messages for one file.
#[derive(Debug)]
pub struct ESLintResult {
    pub file_path: String,
    pub messages: Vec<ESLintMessage>,
}

/// ESLint message.
#[derive(Debug)]
pub struct ESLintMessage {
    pub rule_id: Option<String>,
    pub severity: u8,
    pub message: String,
    pub line: usize,
    pub column: usize,
    pub node_type: Option<String>,
    pub message_id: Option<String>,
    pub fix: Option<ESLintFix>,
}

/// ESLint fix suggestion.
#[derive(Debug)]
pub struct ESLintFix {
    pub text: String,
}

/// ESLint's numeric severity: 2 is an error, 1 a warning, else info.
pub open spec fn eslint_severity(s: u8) -> IssueSeverity {
    if s == 2 {
        IssueSeverity::Error
    } else if s == 1 {
        IssueSeverity::Warning
    } else {
        IssueSeverity::Info
    }
}

/// The category of a rule: security and complexity rules by name, `no-`
/// rules are bugs, anything else (or no rule) style.
pub open spec fn eslint_category(rule: Option<Seq<char>>) -> IssueCategory {
    match rule {
        Some(r) => if contains(r, "security"@) {
            IssueCategory::Security
        } else if contains(r, "complexity"@) {
            IssueCategory::Complexity
        } else if starts_with(r, "no-"@) {
            IssueCategory::Bug
        } else {
            IssueCategory::Style
        },
        None => IssueCategory::Style,
    }
}

pub open spec fn rule_text(m: ESLintMessage) -> Option<Seq<char>> {
    match m.rule_id {
        Some(r) => Some(r@),
        None => None,
    }
}

/// The issue of one ESLint message.
pub open spec fn eslint_issue(m: ESLintMessage) -> IssueView {
    IssueView {
        severity: eslint_severity(m.severity),
        category: eslint_category(rule_text(m)),
        description: m.message@ + " ["@ + (match rule_text(m) {
            Some(r) => r,
            None => "eslint"@,
        }) + "]"@,
        line: Some(m.line),
        column: Some(m.column),
        snippet: None,
        suggested_fix: match m.fix {
            Some(f) => Some("Replace with: "@ + f.text@),
            None => None,
        },
    }
}

pub open spec fn message_issues(ms: Seq<ESLintMessage>) -> Seq<IssueView> {
    ms.map_values(|m: ESLintMessage| eslint_issue(m))
}

/// The issues of all messages of all results, in order.
pub open spec fn eslint_issues(rs: Seq<ESLintResult>) -> Seq<IssueView>
    decreases rs.len(),
{
    if rs.len() == 0 {
        Seq::empty()
    } else {
        eslint_issues(rs.drop_last()) + message_issues(rs.last().messages@)
    }
}

/// Whether a linter's output has anything to parse (it is not blank).
pub fn has_output(stdout: &str) -> (b: bool)
    ensures
        b == (trim(stdout@).len() > 0),
{
    let c = chars_of(stdout);
    let t = trimmed(&c);
    t.len() > 0
}

/// What an ESLint message becomes: severity 2 is an error, 1 a warning,
/// anything else information; the line and column are kept; the
/// description is the message followed by the rule in brackets (`eslint`
/// without a rule); a fix is offered as its replacement text; a `no-` rule
/// that names neither security nor complexity is a bug, and a message
/// without a rule a style issue.
pub proof fn lemma_eslint_issue(m: ESLintMessage)
    ensures
        ({
            let i = eslint_issue(m);
            &&& m.severity == 2 ==> i.severity == IssueSeverity::Error
            &&& m.severity == 1 ==> i.severity == IssueSeverity::Warning
            &&& (m.severity != 1 && m.severity != 2) ==> i.severity == IssueSeverity::Info
            &&& i.line == Some(m.line)
            &&& i.column == Some(m.column)
            &&& m.rule_id matches Some(r) ==> i.description == m.message@ + " ["@ + r@ + "]"@
            &&& m.rule_id is None ==> i.description == m.message@ + " [eslint]"@
            &&& m.rule_id is None ==> i.category == IssueCategory::Style
            &&& (m.rule_id matches Some(r) && starts_with(r@, "no-"@) && !contains(r@, "security"@)
                && !contains(r@, "complexity"@)) ==> i.category == IssueCategory::Bug
            &&& m.fix matches Some(f) ==> i.suggested_fix == Some("Replace with: "@ + f.text@)
            &&& m.fix is None ==> i.suggested_fix is None
        }),
{
    reveal_strlit(" [eslint]");
    reveal_strlit(" [");
    reveal_strlit("eslint");
    reveal_strlit("]");
    assert(" ["@ + "eslint"@ + "]"@ =~= " [eslint]"@);
    if m.rule_id is None {
        assert(m.message@ + " ["@ + "eslint"@ + "]"@ =~= m.message@ + " [eslint]"@);
    }
}

/// ESLint linter for JavaScript/TypeScript.
#[derive(Debug)]
pub struct ESLintLinter {
    eslint_path: String,
}

impl ESLintLinter {
    /// The eslint executable.
    pub closed spec fn path(&self) -> Seq<char> {
        self.eslint_path@
    }

    /// Create a new ESLint linter running `eslint`.
    pub fn new() -> (l: Self)
        ensures
            l.path() == "eslint"@,
    {
        ESLintLinter { eslint_path: owned("eslint") }
    }

    /// Create with custom eslint path.
    pub fn with_path(path: String) -> (l: Self)
        ensures
            l.path() == path@,
    {
        ESLintLinter { eslint_path: path }
    }

    /// The eslint executable.
    pub fn eslint_path(&self) -> (r: &str)
        ensures
            r@ == self.path(),
    {
        self.eslint_path.as_str()
    }

    /// The command that lints a file, with JSON output and no colors.
    pub fn command(&self, file_path: &str) -> (r: Invocation)
        ensures
            r.program@ == self.path(),
            texts(r.args@) == seq!["--format=json"@, "--no-color"@, file_path@],
    {
        let args = vec![owned("--format=json"), owned("--no-color"), owned(file_path)];
        assert(texts(args@) =~= seq!["--format=json"@, "--no-color"@, file_path@]);
        Invocation { program: self.eslint_path.clone(), args }
    }

    /// The issues of ESLint's parsed JSON output, in order.
    pub fn issues_from_results(&self, results: &Vec<ESLintResult>) -> (r: Vec<Issue>)
        ensures
            issue_views(r@) == eslint_issues(results@),
    {
        let mut r: Vec<Issue> = Vec::new();
        let mut i: usize = 0;
        while i < results.len()
            invariant
                i <= results.len(),
                issue_views(r@) == eslint_issues(results@.take(i as int)),
            decreases results.len() - i,
        {
            assert(results@.take(i + 1).drop_last() =~= results@.take(i as int));
            let ghost before = issue_views(r@);
            let msgs = &results[i].messages;
            let mut j: usize = 0;
            while j < msgs.len()
                invariant
                    j <= msgs.len(),
                    issue_views(r@) == before + message_issues(msgs@.take(j as int)),
                decreases msgs.len() - j,
            {
                let issue = message_issue(&msgs[j]);
                let ghost prev = r@;
                r.push(issue);
                assert(issue_views(r@) =~= issue_views(prev).push(eslint_issue(msgs@[j as int])));
                assert(message_issues(msgs@.take(j + 1)) =~= message_issues(msgs@.take(j as int)).push(
                    eslint_issue(msgs@[j as int]),
                ));
                assert(before + message_issues(msgs@.take(j + 1)) =~= (before + message_issues(
                    msgs@.take(j as int),
                )).push(eslint_issue(msgs@[j as int])));
                j += 1;
            }
            assert(msgs@.take(j as int) =~= msgs@);
            assert(results@.take(i + 1).last() == results@[i as int]);
            i += 1;
        }
        assert(results@.take(i as int) =~= results@);
        r
    }
}

fn category_of(rule: &Option<String>) -> (c: IssueCategory)
    ensures
        c == eslint_category(match rule {
            Some(r) => Some(r@),
            None => None,
        }),
{
    match rule {
        Some(r) => {
            let rc = chars_of(r.as_str());
            if str_contains(&rc, "security") {
                IssueCategory::Security
            } else if str_contains(&rc, "complexity") {
                IssueCategory::Complexity
            } else if str_starts_with(&rc, "no-") {
                IssueCategory::Bug
            } else {
                IssueCategory::Style
            }
        },
        None => IssueCategory::Style,
    }
}

fn message_issue(m: &ESLintMessage) -> (i: Issue)
    ensures
        i@ == eslint_issue(*m),
{
    let severity = if m.severity == 2 {
        IssueSeverity::Error
    } else if m.severity == 1 {
        IssueSeverity::Warning
    } else {
        IssueSeverity::Info
    };
    let category = category_of(&m.rule_id);
    let mut description = m.message.clone();
    push_str(&mut description, " [");
    match &m.rule_id {
        Some(r) => push_str(&mut description, r.as_str()),
        None => push_str(&mut description, "eslint"),
    }
    push_str(&mut description, "]");
    let suggested_fix = match &m.fix {
        Some(f) => {
            let mut s = owned("Replace with: ");
            push_str(&mut s, f.text.as_str());
            Some(s)
        },
        None => None,
    };
    Issue {
        severity,
        category,
        description,
        line: Some(m.line),
        column: Some(m.column),
        snippet: None,
        suggested_fix,
    }
}

impl Default for ESLintLinter {
    fn default() -> (l: Self)
        ensures
            l.path() == "eslint"@,
    {
        Self::new()
    }
}

impl Linter for ESLintLinter {
    open spec fn spec_name(&self) -> Seq<char> {
        "eslint"@
    }

    open spec fn spec_extensions(&self) -> Seq<Seq<char>> {
        seq!["js"@, "jsx"@, "ts"@, "tsx"@, "mjs"@, "cjs"@]
    }

    fn name(&self) -> (r: &str) {
        "eslint"
    }

    fn supported_extensions(&self) -> (r: Vec<&str>) {
        let r = vec!["js", "jsx", "ts", "tsx", "mjs", "cjs"];
        assert(str_texts(r@) =~= seq!["js"@, "jsx"@, "ts"@, "tsx"@, "mjs"@, "cjs"@]);
        r
    }
}

} // verus!
