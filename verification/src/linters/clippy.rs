//! Clippy linter integration for Rust.
use vstd::prelude::*;
use crate::analyzer::{opt_view, Issue, IssueCategory, IssueSeverity, IssueView, issue_views};
use crate::text::{chars_of, ends_with, ends_with_chars, lines, lines_of, owned, starts_with, str_starts_with, string_of, trim, trimmed, views};
use super::{str_texts, clone_strings, Invocation, Linter, texts};

verus! {

/// Clippy JSON message format.
#[derive(Debug)]
pub struct ClippyMessage {
    pub reason: String,
    pub message: Option<CompilerMessage>,
}

/// Compiler message.
#[derive(Debug)]
pub struct CompilerMessage {
    pub message: String,
    pub code: Option<DiagnosticCode>,
    pub level: String,
    pub spans: Vec<DiagnosticSpan>,
    pub rendered: Option<String>,
}

/// Diagnostic code.
#[derive(Debug)]
pub struct DiagnosticCode {
    pub code: Option<String>,
}

/// Diagnostic span.
#[derive(Debug)]
pub struct DiagnosticSpan {
    pub file_name: String,
    pub line_start: usize,
    pub line_end: usize,
    pub column_start: usize,
    pub column_end: usize,
    pub text: Vec<DiagnosticSpanText>,
}

/// Diagnostic span text.
#[derive(Debug)]
pub struct DiagnosticSpanText {
    pub text: String,
}

/// The severity of a compiler message level, if it is one Clippy reports.
pub open spec fn level_severity(level: Seq<char>) -> Option<IssueSeverity> {
    if level == "error"@ {
        Some(IssueSeverity::Error)
    } else if level == "warning"@ {
        Some(IssueSeverity::Warning)
    } else if level == "help"@ || level == "note"@ {
        Some(IssueSeverity::Info)
    } else {
        None
    }
}

/// A message carries a `clippy::` lint code.
pub open spec fn is_clippy_code(code: Option<DiagnosticCode>) -> bool {
    code matches Some(c) && c.code matches Some(s) && starts_with(s@, "clippy::"@)
}

/// The issue a Clippy message stands for: compiler messages with a
/// `clippy::` code and a known level, located at their first span (which,
/// when present, must have text).
pub open spec fn clippy_issue(msg: ClippyMessage) -> Option<IssueView> {
    if msg.reason@ != "compiler-message"@ {
        None
    } else {
        match msg.message {
            None => None,
            Some(m) => if !is_clippy_code(m.code) {
                None
            } else {
                match level_severity(m.level@) {
                    None => None,
                    Some(severity) => if m.spans@.len() == 0 {
                        Some(
                            IssueView {
                                severity,
                                category: IssueCategory::Style,
                                description: m.message@,
                                line: None,
                                column: None,
                                snippet: None,
                                suggested_fix: opt_view(m.rendered),
                            },
                        )
                    } else if m.spans@[0].text@.len() == 0 {
                        None
                    } else {
                        Some(
                            IssueView {
                                severity,
                                category: IssueCategory::Style,
                                description: m.message@,
                                line: Some(m.spans@[0].line_start),
                                column: Some(m.spans@[0].column_start),
                                snippet: Some(m.spans@[0].text@[0].text@),
                                suggested_fix: opt_view(m.rendered),
                            },
                        )
                    },
                }
            },
        }
    }
}

/// The issues of a list of messages (`None` for lines that did not parse).
pub open spec fn clippy_issues(msgs: Seq<Option<ClippyMessage>>) -> Seq<IssueView>
    decreases msgs.len(),
{
    if msgs.len() == 0 {
        Seq::empty()
    } else {
        let rest = clippy_issues(msgs.drop_last());
        match msgs.last() {
            Some(m) => match clippy_issue(m) {
                Some(i) => rest.push(i),
                None => rest,
            },
            None => rest,
        }
    }
}

/// The lines of Clippy's output that hold JSON: those starting with `{`
/// once trimmed.
pub open spec fn json_lines(ls: Seq<Seq<char>>) -> Seq<Seq<char>>
    decreases ls.len(),
{
    if ls.len() == 0 {
        Seq::empty()
    } else {
        let rest = json_lines(ls.drop_last());
        if starts_with(trim(ls.last()), "{"@) {
            rest.push(ls.last())
        } else {
            rest
        }
    }
}

/// A file name reported by Clippy names the linted file: it is the
/// linted path itself, or the path ends with `/` and the name.
pub open spec fn names_file(path: Seq<char>, file_name: Seq<char>) -> bool {
    path == file_name || ends_with(path, "/"@ + file_name)
}

/// A message is located in the linted file: its first span is there.
pub open spec fn in_file(m: Option<ClippyMessage>, path: Seq<char>) -> bool {
    m matches Some(msg) && msg.message matches Some(cm) && cm.spans@.len() > 0 && names_file(
        path,
        cm.spans@[0].file_name@,
    )
}

/// The messages located in the linted file, in order.
pub open spec fn file_messages(msgs: Seq<Option<ClippyMessage>>, path: Seq<char>) -> Seq<
    Option<ClippyMessage>,
>
    decreases msgs.len(),
{
    if msgs.len() == 0 {
        Seq::empty()
    } else {
        let rest = file_messages(msgs.drop_last(), path);
        if in_file(msgs.last(), path) {
            rest.push(msgs.last())
        } else {
            rest
        }
    }
}

pub open spec fn default_clippy_flags() -> Seq<Seq<char>> {
    seq!["--message-format=json"@, "--"@, "-W"@, "clippy::all"@]
}

/// Which Clippy messages become issues, and at which severity: only
/// compiler messages carrying a `clippy::` code do; an `error` is an error,
/// a `warning` a warning, `help` and `note` are information, and any other
/// level gives no issue. The issue is located at the message's first span
/// and offers the rendered text as fix.
pub proof fn lemma_clippy_issue_levels(msg: ClippyMessage)
    ensures
        clippy_issue(msg) is Some ==> msg.reason@ == "compiler-message"@ && msg.message is Some
            && is_clippy_code(msg.message->0.code),
        ({
            let ok = msg.reason@ == "compiler-message"@ && msg.message is Some && is_clippy_code(
                msg.message->0.code,
            ) && (msg.message->0.spans@.len() == 0 || msg.message->0.spans@[0].text@.len() > 0);
            let level = msg.message->0.level@;
            &&& ok && level == "error"@ ==> (clippy_issue(msg) matches Some(i) && i.severity
                == IssueSeverity::Error)
            &&& ok && level == "warning"@ ==> (clippy_issue(msg) matches Some(i) && i.severity
                == IssueSeverity::Warning)
            &&& ok && (level == "help"@ || level == "note"@) ==> (clippy_issue(msg) matches Some(i)
                && i.severity == IssueSeverity::Info)
            &&& msg.message is Some && level != "error"@ && level != "warning"@ && level != "help"@
                && level != "note"@ ==> clippy_issue(msg) is None
        }),
        clippy_issue(msg) matches Some(i) ==> i.category == IssueCategory::Style
            && i.description == msg.message->0.message@ && i.suggested_fix == opt_view(
            msg.message->0.rendered,
        ) && (msg.message->0.spans@.len() > 0 ==> i.line == Some(msg.message->0.spans@[0].line_start)
            && i.column == Some(msg.message->0.spans@[0].column_start) && i.snippet == Some(
            msg.message->0.spans@[0].text@[0].text@,
        )),
{
    reveal_strlit("error");
    reveal_strlit("warning");
    reveal_strlit("help");
    reveal_strlit("note");
    assert("error"@.len() == 5 && "warning"@.len() == 7 && "help"@.len() == 4 && "note"@.len() == 4);
    assert("help"@[0] != "note"@[0]);
}

/// Clippy linter.
#[derive(Debug)]
pub struct ClippyLinter {
    flags: Vec<String>,
}

impl ClippyLinter {
    /// The flags passed after `cargo clippy`.
    pub closed spec fn spec_flags(&self) -> Seq<Seq<char>> {
        texts(self.flags@)
    }

    pub open spec fn is_default(&self) -> bool {
        self.spec_flags() == default_clippy_flags()
    }

    /// Create a new Clippy linter with JSON output and all Clippy lints.
    pub fn new() -> (l: Self)
        ensures
            l.is_default(),
    {
        let flags = vec![owned("--message-format=json"), owned("--"), owned("-W"), owned("clippy::all")];
        assert(texts(flags@) =~= default_clippy_flags());
        ClippyLinter { flags }
    }

    /// Create with custom flags.
    pub fn with_flags(flags: Vec<String>) -> (l: Self)
        ensures
            l.spec_flags() == texts(flags@),
    {
        ClippyLinter { flags }
    }

    /// The command that runs Clippy.
    pub fn command(&self) -> (r: Invocation)
        ensures
            r.program@ == "cargo"@,
            texts(r.args@) == seq!["clippy"@] + self.spec_flags(),
    {
        let mut args = vec![owned("clippy")];
        let mut flags = clone_strings(&self.flags);
        args.append(&mut flags);
        assert(texts(args@) =~= seq!["clippy"@] + texts(self.flags@));
        Invocation { program: owned("cargo"), args }
    }

    /// Convert clippy message to Issue.
    pub fn convert_to_issue(&self, msg: ClippyMessage) -> (r: Option<Issue>)
        ensures
            match r {
                Some(i) => clippy_issue(msg) == Some(i@),
                None => clippy_issue(msg) is None,
            },
    {
        let reason = chars_of(msg.reason.as_str());
        let expected = chars_of("compiler-message");
        if !(crate::text::starts_with_chars(&reason, &expected) && reason.len() == expected.len()) {
            proof {
                if msg.reason@ == "compiler-message"@ {
                    assert(reason@.take(expected@.len() as int) =~= expected@);
                }
            }
            return None;
        }
        assert(reason@ =~= expected@);
        let message = match msg.message {
            Some(m) => m,
            None => return None,
        };
        let is_clippy = match &message.code {
            Some(c) => match &c.code {
                Some(s) => {
                    let sc = chars_of(s.as_str());
                    str_starts_with(&sc, "clippy::")
                },
                None => false,
            },
            None => false,
        };
        if !is_clippy {
            return None;
        }
        let severity = match level_of(message.level.as_str()) {
            Some(s) => s,
            None => return None,
        };
        if message.spans.len() == 0 {
            return Some(
                Issue {
                    severity,
                    category: IssueCategory::Style,
                    description: message.message,
                    line: None,
                    column: None,
                    snippet: None,
                    suggested_fix: message.rendered,
                },
            );
        }
        if message.spans[0].text.len() == 0 {
            return None;
        }
        let line = message.spans[0].line_start;
        let column = message.spans[0].column_start;
        let snippet = message.spans[0].text[0].text.clone();
        Some(
            Issue {
                severity,
                category: IssueCategory::Style,
                description: message.message,
                line: Some(line),
                column: Some(column),
                snippet: Some(snippet),
                suggested_fix: message.rendered,
            },
        )
    }

    /// The lines of Clippy's output to parse as JSON messages.
    pub fn json_lines_of(output: &str) -> (r: Vec<String>)
        ensures
            texts(r@) == json_lines(lines(output@)),
    {
        let chars = chars_of(output);
        let ls = lines_of(&chars);
        let mut r: Vec<String> = Vec::new();
        let mut i: usize = 0;
        while i < ls.len()
            invariant
                i <= ls.len(),
                texts(r@) == json_lines(views(ls@).take(i as int)),
            decreases ls.len() - i,
        {
            assert(views(ls@).take(i + 1).drop_last() =~= views(ls@).take(i as int));
            let t = trimmed(&ls[i]);
            if str_starts_with(&t, "{") {
                r.push(string_of(&ls[i]));
                assert(texts(r@) =~= texts(r@).drop_last().push(views(ls@)[i as int]));
            }
            i += 1;
        }
        assert(views(ls@).take(i as int) =~= views(ls@));
        r
    }

    /// The issues of the parsed JSON lines, in order (`None` for lines that
    /// did not parse).
    pub fn issues_from_messages(&self, msgs: Vec<Option<ClippyMessage>>) -> (r: Vec<Issue>)
        ensures
            issue_views(r@) == clippy_issues(msgs@),
    {
        let ghost all = msgs@;
        let mut rest = msgs;
        let mut r: Vec<Issue> = Vec::new();
        assert(all.take(0) =~= Seq::<Option<ClippyMessage>>::empty());
        assert(all.skip(0) =~= all);
        while rest.len() > 0
            invariant
                rest@.len() <= all.len(),
                rest@ == all.skip(all.len() - rest@.len()),
                issue_views(r@) == clippy_issues(all.take(all.len() - rest@.len())),
            decreases rest.len(),
        {
            let ghost k = all.len() - rest@.len();
            assert(rest@[0] == all[k]);
            assert(all.take(k + 1).drop_last() =~= all.take(k));
            let m = rest.remove(0);
            assert(rest@ =~= all.skip(k + 1));
            match m {
                Some(msg) => match self.convert_to_issue(msg) {
                    Some(issue) => {
                        r.push(issue);
                        assert(issue_views(r@) =~= issue_views(r@).drop_last().push(r@.last()@));
                    },
                    None => {},
                },
                None => {},
            }
        }
        assert(all.take(all.len() as int) =~= all);
        r
    }

    /// The issues reported for the linted file: those of the messages
    /// whose first span lies in it, in order.
    pub fn file_issues(&self, msgs: Vec<Option<ClippyMessage>>, file_path: &str) -> (r: Vec<Issue>)
        ensures
            issue_views(r@) == clippy_issues(file_messages(msgs@, file_path@)),
    {
        let path = chars_of(file_path);
        let ghost all = msgs@;
        let mut rest = msgs;
        let mut kept: Vec<Option<ClippyMessage>> = Vec::new();
        assert(all.take(0) =~= Seq::<Option<ClippyMessage>>::empty());
        assert(all.skip(0) =~= all);
        while rest.len() > 0
            invariant
                rest@.len() <= all.len(),
                rest@ == all.skip(all.len() - rest@.len()),
                path@ == file_path@,
                kept@ == file_messages(all.take(all.len() - rest@.len()), file_path@),
            decreases rest.len(),
        {
            let ghost k = all.len() - rest@.len();
            assert(rest@[0] == all[k]);
            assert(all.take(k + 1).drop_last() =~= all.take(k));
            let m = rest.remove(0);
            assert(rest@ =~= all.skip(k + 1));
            let keep = match &m {
                Some(msg) => match &msg.message {
                    Some(cm) => cm.spans.len() > 0 && names_file_chars(&path, cm.spans[0].file_name.as_str()),
                    None => false,
                },
                None => false,
            };
            if keep {
                kept.push(m);
            }
        }
        assert(all.take(all.len() as int) =~= all);
        self.issues_from_messages(kept)
    }
}

/// Whether a file name reported by Clippy names the linted path.
fn names_file_chars(path: &Vec<char>, file_name: &str) -> (b: bool)
    ensures
        b == names_file(path@, file_name@),
{
    let f = chars_of(file_name);
    let mut sf = chars_of("/");
    crate::text::extend_chars(&mut sf, &f);
    proof {
        reveal_strlit("/");
    }
    let same_path = crate::text::starts_with_chars(path, &f) && path.len() == f.len();
    proof {
        if same_path {
            assert(path@ =~= f@);
        }
        if path@ == f@ {
            assert(path@.take(f@.len() as int) =~= f@);
        }
    }
    same_path || ends_with_chars(path, &sf)
}

fn level_of(level: &str) -> (r: Option<IssueSeverity>)
    ensures
        r == level_severity(level@),
{
    let l = chars_of(level);
    if same(&l, "error") {
        Some(IssueSeverity::Error)
    } else if same(&l, "warning") {
        Some(IssueSeverity::Warning)
    } else if same(&l, "help") || same(&l, "note") {
        Some(IssueSeverity::Info)
    } else {
        None
    }
}

/// Whether a character vector spells exactly `t`.
pub fn same(v: &Vec<char>, t: &str) -> (b: bool)
    ensures
        b == (v@ == t@),
{
    let tc = chars_of(t);
    let b = crate::text::starts_with_chars(v, &tc) && v.len() == tc.len();
    proof {
        if b {
            assert(v@ =~= tc@);
        }
        if v@ == t@ {
            assert(v@.take(tc@.len() as int) =~= tc@);
        }
    }
    b
}

impl Default for ClippyLinter {
    fn default() -> (l: Self)
        ensures
            l.is_default(),
    {
        Self::new()
    }
}

impl Linter for ClippyLinter {
    open spec fn spec_name(&self) -> Seq<char> {
        "clippy"@
    }

    open spec fn spec_extensions(&self) -> Seq<Seq<char>> {
        seq!["rs"@]
    }

    fn name(&self) -> (r: &str) {
        "clippy"
    }

    fn supported_extensions(&self) -> (r: Vec<&str>) {
        let r = vec!["rs"];
        assert(str_texts(r@) =~= seq!["rs"@]);
        r
    }
}

} // verus!
