//! Pylint linter integration for Python.
use vstd::prelude::*;
use crate::analyzer::{issue_views, Issue, IssueCategory, IssueSeverity, IssueView};
use crate::text::{chars_of, contains, owned, push_str, starts_with, str_contains, str_starts_with};
use super::{str_texts, Invocation, Linter, texts};
use super::clippy::same;

verus! {

/// Pylint JSON message format.
#[derive(Debug)]
pub struct PylintMessage {
    pub message_type: String,
    pub symbol: String,
    pub message: String,
    pub line: usize,
    pub column: usize,
    pub message_id: String,
}

/// Pylint's message type as a severity: errors and fatal errors are
/// errors, warnings warnings, anything else info.
pub open spec fn pylint_severity(t: Seq<char>) -> IssueSeverity {
    if t == "error"@ || t == "fatal"@ {
        IssueSeverity::Error
    } else if t == "warning"@ {
        IssueSeverity::Warning
    } else {
        IssueSeverity::Info
    }
}

/// The category of a Pylint symbol, by the first rule that applies.
pub open spec fn spec_categorize(symbol: Seq<char>) -> IssueCategory {
    if contains(symbol, "security"@) || contains(symbol, "sql-injection"@) {
        IssueCategory::Security
    } else if contains(symbol, "complexity"@) || contains(symbol, "too-many"@) {
        IssueCategory::Complexity
    } else if contains(symbol, "doc"@) || contains(symbol, "missing-"@) {
        IssueCategory::Documentation
    } else if contains(symbol, "import"@) {
        IssueCategory::Style
    } else if starts_with(symbol, "E"@) || contains(symbol, "error"@) {
        IssueCategory::Bug
    } else if contains(symbol, "performance"@) {
        IssueCategory::Performance
    } else {
        IssueCategory::Style
    }
}

/// The issue of one Pylint message.
pub open spec fn pylint_issue(m: PylintMessage) -> IssueView {
    IssueView {
        severity: pylint_severity(m.message_type@),
        category: spec_categorize(m.symbol@),
        description: m.message@ + " ["@ + m.symbol@ + "]"@,
        line: Some(m.line),
        column: Some(m.column),
        snippet: None,
        suggested_fix: None,
    }
}

pub open spec fn pylint_issues(ms: Seq<PylintMessage>) -> Seq<IssueView> {
    ms.map_values(|m: PylintMessage| pylint_issue(m))
}

/// Each Pylint message gives one issue, in order, at its line and column,
/// described by its message and then its symbol in brackets. A message of
/// type `warning` is a warning; `error` and `fatal` ones are errors; every
/// other type (convention, refactor, info, ...) is information. A symbol
/// naming security makes a security issue.
pub proof fn lemma_pylint_issue_per_message(ms: Seq<PylintMessage>)
    ensures
        pylint_issues(ms).len() == ms.len(),
        forall|i: int|
            0 <= i < ms.len() ==> {
                let issue = #[trigger] pylint_issues(ms)[i];
                let t = ms[i].message_type@;
                &&& t == "warning"@ ==> issue.severity == IssueSeverity::Warning
                &&& (t == "error"@ || t == "fatal"@) ==> issue.severity == IssueSeverity::Error
                &&& (t != "warning"@ && t != "error"@ && t != "fatal"@) ==> issue.severity
                    == IssueSeverity::Info
                &&& issue.line == Some(ms[i].line)
                &&& issue.column == Some(ms[i].column)
                &&& issue.description == ms[i].message@ + " ["@ + ms[i].symbol@ + "]"@
                &&& contains(ms[i].symbol@, "security"@) ==> issue.category == IssueCategory::Security
            },
{
    reveal_strlit("warning");
    reveal_strlit("error");
    reveal_strlit("fatal");
    assert("warning"@.len() == 7 && "error"@.len() == 5 && "fatal"@.len() == 5);
    assert("error"@[0] != "fatal"@[0]);
}

/// Pylint linter for Python.
#[derive(Debug)]
pub struct PylintLinter {
    pylint_path: String,
}

impl PylintLinter {
    /// The pylint executable.
    pub closed spec fn path(&self) -> Seq<char> {
        self.pylint_path@
    }

    /// Create a new Pylint linter running `pylint`.
    pub fn new() -> (l: Self)
        ensures
            l.path() == "pylint"@,
    {
        PylintLinter { pylint_path: owned("pylint") }
    }

    /// Create with custom pylint path.
    pub fn with_path(path: String) -> (l: Self)
        ensures
            l.path() == path@,
    {
        PylintLinter { pylint_path: path }
    }

    /// The pylint executable.
    pub fn pylint_path(&self) -> (r: &str)
        ensures
            r@ == self.path(),
    {
        self.pylint_path.as_str()
    }

    /// The command that lints a file, with JSON output and no score.
    pub fn command(&self, file_path: &str) -> (r: Invocation)
        ensures
            r.program@ == self.path(),
            texts(r.args@) == seq!["--output-format=json"@, "--score=no"@, file_path@],
    {
        let args = vec![owned("--output-format=json"), owned("--score=no"), owned(file_path)];
        assert(texts(args@) =~= seq!["--output-format=json"@, "--score=no"@, file_path@]);
        Invocation { program: self.pylint_path.clone(), args }
    }

    /// Categorize Pylint message by symbol.
    pub fn categorize_message(symbol: &str) -> (c: IssueCategory)
        ensures
            c == spec_categorize(symbol@),
    {
        let s = chars_of(symbol);
        if str_contains(&s, "security") || str_contains(&s, "sql-injection") {
            IssueCategory::Security
        } else if str_contains(&s, "complexity") || str_contains(&s, "too-many") {
            IssueCategory::Complexity
        } else if str_contains(&s, "doc") || str_contains(&s, "missing-") {
            IssueCategory::Documentation
        } else if str_contains(&s, "import") {
            IssueCategory::Style
        } else if str_starts_with(&s, "E") || str_contains(&s, "error") {
            IssueCategory::Bug
        } else if str_contains(&s, "performance") {
            IssueCategory::Performance
        } else {
            IssueCategory::Style
        }
    }

    /// The issues of Pylint's parsed JSON output, in order.
    pub fn issues_from_messages(&self, messages: &Vec<PylintMessage>) -> (r: Vec<Issue>)
        ensures
            issue_views(r@) == pylint_issues(messages@),
    {
        let mut r: Vec<Issue> = Vec::new();
        let mut i: usize = 0;
        while i < messages.len()
            invariant
                i <= messages.len(),
                issue_views(r@) == pylint_issues(messages@.take(i as int)),
            decreases messages.len() - i,
        {
            let m = &messages[i];
            let t = chars_of(m.message_type.as_str());
            let severity = if same(&t, "error") || same(&t, "fatal") {
                IssueSeverity::Error
            } else if same(&t, "warning") {
                IssueSeverity::Warning
            } else {
                IssueSeverity::Info
            };
            let category = Self::categorize_message(m.symbol.as_str());
            let mut description = m.message.clone();
            push_str(&mut description, " [");
            push_str(&mut description, m.symbol.as_str());
            push_str(&mut description, "]");
            r.push(
                Issue {
                    severity,
                    category,
                    description,
                    line: Some(m.line),
                    column: Some(m.column),
                    snippet: None,
                    suggested_fix: None,
                },
            );
            assert(pylint_issues(messages@.take(i + 1)) =~= pylint_issues(messages@.take(i as int)).push(
                pylint_issue(messages@[i as int]),
            ));
            assert(issue_views(r@) =~= issue_views(r@).drop_last().push(r@.last()@));
            i += 1;
        }
        assert(messages@.take(i as int) =~= messages@);
        r
    }
}

impl Default for PylintLinter {
    fn default() -> (l: Self)
        ensures
            l.path() == "pylint"@,
    {
        Self::new()
    }
}

impl Linter for PylintLinter {
    open spec fn spec_name(&self) -> Seq<char> {
        "pylint"@
    }

    open spec fn spec_extensions(&self) -> Seq<Seq<char>> {
        seq!["py"@, "pyw"@]
    }

    fn name(&self) -> (r: &str) {
        "pylint"
    }

    fn supported_extensions(&self) -> (r: Vec<&str>) {
        let r = vec!["py", "pyw"];
        assert(str_texts(r@) =~= seq!["py"@, "pyw"@]);
        r
    }
}

} // verus!
