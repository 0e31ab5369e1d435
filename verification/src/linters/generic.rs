//! Generic linter wrapper for external tools.
use vstd::prelude::*;
use crate::analyzer::{issue_views, Issue, IssueCategory, IssueSeverity, IssueView};
use crate::text::{chars_of, lines, lines_of, owned, string_of, views};
use super::{borrowed_all, clone_strings, Invocation, Linter, texts};

verus! {

#[verifier::external_type_specification]
#[verifier::external_body]
pub struct ExRegex(regex::Regex);

#[verifier::external_type_specification]
#[verifier::external_body]
pub struct ExRegexError(regex::Error);

/// Whether `regex::Regex::new` accepts a pattern.
pub uninterp spec fn spec_regex_compiles(pattern: Seq<char>) -> bool;

/// `Regex::captures` of a compiled pattern on a line: when it matches, the
/// text of the whole match and of the first group (if it took part).
pub uninterp spec fn spec_regex_captures(pattern: Seq<char>, line: Seq<char>) -> Option<
    (Seq<char>, Option<Seq<char>>),
>;

/// A regular expression together with the pattern it was compiled from.
#[derive(Debug)]
pub struct LinePattern {
    regex: regex::Regex,
    source: String,
}

impl LinePattern {
    pub closed spec fn pattern(&self) -> Seq<char> {
        self.source@
    }
}

/// `regex::Regex::new(pattern)`, kept with its pattern. It succeeds exactly
/// on the patterns the regex crate accepts.
#[verifier::external_body]
fn compile_line_pattern(pattern: &str) -> (r: Result<LinePattern, regex::Error>)
    ensures
        r is Ok == spec_regex_compiles(pattern@),
        r matches Ok(p) ==> p.pattern() == pattern@,
{
    match regex::Regex::new(pattern) {
        Ok(regex) => Ok(LinePattern { regex, source: pattern.to_string() }),
        Err(e) => Err(e),
    }
}

pub open spec fn capture_view(c: Option<(String, Option<String>)>) -> Option<
    (Seq<char>, Option<Seq<char>>),
> {
    match c {
        Some((whole, first)) => Some(
            (
                whole@,
                match first {
                    Some(f) => Some(f@),
                    None => None,
                },
            ),
        ),
        None => None,
    }
}

/// `Regex::captures(line)` of a compiled pattern: the whole match's text
/// and the first group's text, if the pattern matches the line.
#[verifier::external_body]
fn line_captures(p: &LinePattern, line: &str) -> (r: Option<(String, Option<String>)>)
    ensures
        capture_view(r) == spec_regex_captures(p.pattern(), line@),
{
    p.regex.captures(line).map(
        |c| (c.get(0).map(|m| m.as_str().to_string()).unwrap_or_default(), c.get(1).map(|m| m.as_str().to_string())),
    )
}

// ---------------------------------------------------------------------------
// `str::parse::<usize>`
// ---------------------------------------------------------------------------
pub open spec fn is_digit(c: char) -> bool {
    '0' <= c && c <= '9'
}

/// The value of a string of decimal digits.
pub open spec fn digits_value(s: Seq<char>) -> int
    decreases s.len(),
{
    if s.len() == 0 {
        0
    } else {
        digits_value(s.drop_last()) * 10 + (s.last() as int - '0' as int)
    }
}

/// The digits of an unsigned number: the text after an optional `+`.
pub open spec fn unsigned_digits(s: Seq<char>) -> Seq<char> {
    if s.len() > 0 && s[0] == '+' {
        s.skip(1)
    } else {
        s
    }
}

pub open spec fn all_digits(d: Seq<char>) -> bool {
    forall|i: int| 0 <= i < d.len() ==> is_digit(#[trigger] d[i])
}

/// `str::parse::<usize>`: an optional `+` and then one or more decimal
/// digits whose value fits in a `usize`.
pub open spec fn spec_parse_usize(s: Seq<char>) -> Option<usize> {
    let d = unsigned_digits(s);
    if d.len() > 0 && all_digits(d) && digits_value(d) <= usize::MAX {
        Some(digits_value(d) as usize)
    } else {
        None
    }
}

proof fn lemma_digits_prefix(s: Seq<char>, k: int)
    requires
        0 <= k <= s.len(),
        forall|i: int| 0 <= i < s.len() ==> is_digit(#[trigger] s[i]),
    ensures
        digits_value(s.take(k)) <= digits_value(s),
        0 <= digits_value(s.take(k)),
    decreases s.len() - k,
{
    if k < s.len() {
        lemma_digits_prefix(s, k + 1);
        assert(s.take(k + 1).drop_last() =~= s.take(k));
        assert(is_digit(s[k]));
    } else {
        assert(s.take(k) =~= s);
        lemma_digits_nonneg(s);
    }
}

proof fn lemma_digits_nonneg(s: Seq<char>)
    requires
        forall|i: int| 0 <= i < s.len() ==> is_digit(#[trigger] s[i]),
    ensures
        0 <= digits_value(s),
    decreases s.len(),
{
    if s.len() > 0 {
        assert(is_digit(s[s.len() - 1]));
        assert forall|i: int| 0 <= i < s.drop_last().len() implies is_digit(#[trigger] s.drop_last()[i]) by {
            assert(s.drop_last()[i] == s[i]);
        }
        lemma_digits_nonneg(s.drop_last());
    }
}

/// `str::parse::<usize>`.
pub fn parse_usize(s: &str) -> (r: Option<usize>)
    ensures
        r == spec_parse_usize(s@),
{
    let c = chars_of(s);
    let start: usize = if c.len() > 0 && c[0] == '+' {
        1
    } else {
        0
    };
    let ghost d = if c@.len() > 0 && c@[0] == '+' {
        c@.skip(1)
    } else {
        c@
    };
    assert(d =~= c@.skip(start as int));
    if start >= c.len() {
        assert(d.len() == 0);
        return None;
    }
    let mut value: usize = 0;
    let mut i: usize = start;
    while i < c.len()
        invariant
            start <= i <= c.len(),
            c@ == s@,
            d == c@.skip(start as int),
            d == unsigned_digits(s@),
            value == digits_value(d.take(i - start)),
            forall|k: int| 0 <= k < i - start ==> is_digit(#[trigger] d[k]),
        decreases c.len() - i,
    {
        let ch = c[i];
        assert(d[i - start] == ch);
        assert(d.take(i - start + 1).drop_last() =~= d.take(i - start));
        assert(d.take(i - start + 1).last() == d[i - start]);
        if !('0' <= ch && ch <= '9') {
            assert(!is_digit(d[i - start]));
            assert(!all_digits(d));
            assert(spec_parse_usize(s@) is None);
            return None;
        }
        let digit: usize = (ch as u32 - '0' as u32) as usize;
        assert(digit == ch as int - '0' as int);
        assert(digits_value(d.take(i - start + 1)) == value * 10 + digit);
        match value.checked_mul(10) {
            Some(v10) => match v10.checked_add(digit) {
                Some(v) => {
                    value = v;
                },
                None => {
                    proof {
                        if all_digits(d) {
                            lemma_digits_prefix(d, i - start + 1);
                        }
                    }
                    assert(spec_parse_usize(s@) is None);
                    return None;
                },
            },
            None => {
                proof {
                    if all_digits(d) {
                        lemma_digits_prefix(d, i - start + 1);
                        lemma_digits_nonneg(d.take(i - start));
                    }
                }
                assert(spec_parse_usize(s@) is None);
                return None;
            },
        }
        i += 1;
    }
    assert(d.take(i - start) =~= d);
    Some(value)
}

// ---------------------------------------------------------------------------
// The generic linter
// ---------------------------------------------------------------------------
/// Output parser type.
#[derive(Debug, Clone)]
pub enum OutputParser {
    Json,
    Regex(String),
}

/// Errors of parsing a linter's output.
#[derive(Debug)]
pub enum LintError {
    /// The output pattern is not a valid regular expression.
    Pattern(regex::Error),
}

/// The issue of a line the output pattern matched: the whole match as
/// description, the first group (parsed as a number) as line.
pub open spec fn regex_issue(whole: Seq<char>, first: Option<Seq<char>>) -> IssueView {
    IssueView {
        severity: IssueSeverity::Warning,
        category: IssueCategory::Style,
        description: whole,
        line: match first {
            Some(f) => spec_parse_usize(f),
            None => None,
        },
        column: None,
        snippet: None,
        suggested_fix: None,
    }
}

/// The issues of the output lines the pattern matches, in order.
pub open spec fn regex_issues(pattern: Seq<char>, ls: Seq<Seq<char>>) -> Seq<IssueView>
    decreases ls.len(),
{
    if ls.len() == 0 {
        Seq::empty()
    } else {
        let rest = regex_issues(pattern, ls.drop_last());
        match spec_regex_captures(pattern, ls.last()) {
            Some((whole, first)) => rest.push(regex_issue(whole, first)),
            None => rest,
        }
    }
}

/// Generic command-line linter.
#[derive(Debug)]
pub struct GenericLinter {
    name: String,
    command: String,
    args: Vec<String>,
    extensions: Vec<String>,
    output_parser: OutputParser,
}

impl GenericLinter {
    pub closed spec fn spec_command(&self) -> Seq<char> {
        self.command@
    }

    pub closed spec fn spec_args(&self) -> Seq<Seq<char>> {
        texts(self.args@)
    }

    pub closed spec fn parser(&self) -> OutputParser {
        self.output_parser
    }

    /// Create a new generic linter.
    pub fn new(
        name: String,
        command: String,
        args: Vec<String>,
        extensions: Vec<String>,
        output_parser: OutputParser,
    ) -> (l: Self)
        ensures
            l.spec_name() == name@,
            l.spec_command() == command@,
            l.spec_args() == texts(args@),
            l.spec_extensions() == texts(extensions@),
            l.parser() == output_parser,
    {
        GenericLinter { name, command, args, extensions, output_parser }
    }

    /// Create ESLint linter.
    pub fn eslint() -> (l: Self)
        ensures
            l.spec_name() == "eslint"@,
            l.spec_command() == "eslint"@,
            l.spec_args() == seq!["--format=json"@],
            l.spec_extensions() == seq!["js"@, "jsx"@, "ts"@, "tsx"@],
            l.parser() is Json,
    {
        let args = vec![owned("--format=json")];
        let extensions = vec![owned("js"), owned("jsx"), owned("ts"), owned("tsx")];
        assert(texts(args@) =~= seq!["--format=json"@]);
        assert(texts(extensions@) =~= seq!["js"@, "jsx"@, "ts"@, "tsx"@]);
        GenericLinter {
            name: owned("eslint"),
            command: owned("eslint"),
            args,
            extensions,
            output_parser: OutputParser::Json,
        }
    }

    /// Create Pylint linter.
    pub fn pylint() -> (l: Self)
        ensures
            l.spec_name() == "pylint"@,
            l.spec_command() == "pylint"@,
            l.spec_args() == seq!["--output-format=json"@],
            l.spec_extensions() == seq!["py"@],
            l.parser() is Json,
    {
        let args = vec![owned("--output-format=json")];
        let extensions = vec![owned("py")];
        assert(texts(args@) =~= seq!["--output-format=json"@]);
        assert(texts(extensions@) =~= seq!["py"@]);
        GenericLinter {
            name: owned("pylint"),
            command: owned("pylint"),
            args,
            extensions,
            output_parser: OutputParser::Json,
        }
    }

    /// Create Shellcheck linter.
    pub fn shellcheck() -> (l: Self)
        ensures
            l.spec_name() == "shellcheck"@,
            l.spec_command() == "shellcheck"@,
            l.spec_args() == seq!["--format=json"@],
            l.spec_extensions() == seq!["sh"@, "bash"@],
            l.parser() is Json,
    {
        let args = vec![owned("--format=json")];
        let extensions = vec![owned("sh"), owned("bash")];
        assert(texts(args@) =~= seq!["--format=json"@]);
        assert(texts(extensions@) =~= seq!["sh"@, "bash"@]);
        GenericLinter {
            name: owned("shellcheck"),
            command: owned("shellcheck"),
            args,
            extensions,
            output_parser: OutputParser::Json,
        }
    }

    /// The linter's executable.
    pub fn command(&self) -> (r: &str)
        ensures
            r@ == self.spec_command(),
    {
        self.command.as_str()
    }

    /// The command that lints a file: the arguments, then the file.
    pub fn lint_command(&self, file_path: &str) -> (r: Invocation)
        ensures
            r.program@ == self.spec_command(),
            texts(r.args@) == self.spec_args().push(file_path@),
    {
        let mut args = clone_strings(&self.args);
        args.push(owned(file_path));
        assert(texts(args@) =~= texts(self.args@).push(file_path@));
        Invocation { program: self.command.clone(), args }
    }

    /// Parse JSON output: no tool-specific format is read, so no issues.
    pub fn parse_json_output(&self, output: &str) -> (r: Result<Vec<Issue>, LintError>)
        ensures
            r matches Ok(v) && v@.len() == 0,
    {
        Ok(Vec::new())
    }

    /// Parse output using a regular expression, one issue per matching line.
    pub fn parse_regex_output(&self, output: &str, pattern: &str) -> (r: Result<Vec<Issue>, LintError>)
        ensures
            r is Ok == spec_regex_compiles(pattern@),
            r matches Ok(v) ==> issue_views(v@) == regex_issues(pattern@, lines(output@)),
    {
        let re = match compile_line_pattern(pattern) {
            Ok(p) => p,
            Err(e) => return Err(LintError::Pattern(e)),
        };
        let chars = chars_of(output);
        let ls = lines_of(&chars);
        let mut issues: Vec<Issue> = Vec::new();
        let mut i: usize = 0;
        while i < ls.len()
            invariant
                i <= ls.len(),
                re.pattern() == pattern@,
                issue_views(issues@) == regex_issues(pattern@, views(ls@).take(i as int)),
            decreases ls.len() - i,
        {
            assert(views(ls@).take(i + 1).drop_last() =~= views(ls@).take(i as int));
            let line = string_of(&ls[i]);
            match line_captures(&re, line.as_str()) {
                Some((whole, first)) => {
                    let line_no = match &first {
                        Some(f) => parse_usize(f.as_str()),
                        None => None,
                    };
                    issues.push(
                        Issue {
                            severity: IssueSeverity::Warning,
                            category: IssueCategory::Style,
                            description: whole,
                            line: line_no,
                            column: None,
                            snippet: None,
                            suggested_fix: None,
                        },
                    );
                    assert(issue_views(issues@) =~= issue_views(issues@).drop_last().push(
                        issues@.last()@,
                    ));
                },
                None => {},
            }
            i += 1;
        }
        assert(views(ls@).take(i as int) =~= views(ls@));
        Ok(issues)
    }

    /// Parse the linter's output with its output parser.
    pub fn parse_output(&self, output: &str) -> (r: Result<Vec<Issue>, LintError>)
        ensures
            match self.parser() {
                OutputParser::Json => r matches Ok(v) && v@.len() == 0,
                OutputParser::Regex(p) => r is Ok == spec_regex_compiles(p@) && (r matches Ok(v)
                    ==> issue_views(v@) == regex_issues(p@, lines(output@))),
            },
    {
        match &self.output_parser {
            OutputParser::Json => self.parse_json_output(output),
            OutputParser::Regex(pattern) => self.parse_regex_output(output, pattern.as_str()),
        }
    }
}

impl Linter for GenericLinter {
    closed spec fn spec_name(&self) -> Seq<char> {
        self.name@
    }

    closed spec fn spec_extensions(&self) -> Seq<Seq<char>> {
        texts(self.extensions@)
    }

    fn name(&self) -> (r: &str) {
        self.name.as_str()
    }

    fn supported_extensions(&self) -> (r: Vec<&str>) {
        borrowed_all(&self.extensions)
    }
}

} // verus!
