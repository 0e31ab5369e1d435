//! Git integration for automatic commits: the commit messages and what
//! git's output says.
//!
//! Running git happens outside this library; here are the messages
//! committed, whether a commit is due, and the reading of `git status
//! --porcelain` and `git log` output.
use vstd::prelude::*;
use crate::analyzer::Suggestion;
use crate::fixer::FixReport;
use crate::paths::{file_name_debug, spec_file_name_debug};
use crate::session::ImprovementRecord;
use crate::text::{
    char_byte_width, char_width, chars_of, decimal, join, lines, lines_of, owned,
    push_chars, push_decimal, push_str, string_of, trim, trimmed, views,
};
use crate::time::Timestamp;
use crate::linters::clippy::same;
use std::fmt::Write;

verus! {

/// `chrono::DateTime::from_timestamp(secs, nanos)` formatted (UTC) with
/// the strftime format `fmt`, when the time is in chrono's range and the
/// format is one chrono can write.
pub uninterp spec fn spec_backup_stamp(secs: i64, nanos: u32, fmt: Seq<char>) -> Option<Seq<char>>;

/// `DateTime::<Utc>::from_timestamp(secs, nanos)` and, when it is in range,
/// the text of its `format(fmt)`, written with `write!` so that a format
/// chrono cannot write gives `None` rather than a panic. The text is a
/// function of the time and the format alone; the calendar arithmetic and
/// the format language are not restated here.
#[verifier::external_body]
fn backup_stamp(secs: i64, nanos: u32, fmt: &str) -> (r: Option<String>)
    ensures
        match r {
            Some(s) => spec_backup_stamp(secs, nanos, fmt@) == Some(s@),
            None => spec_backup_stamp(secs, nanos, fmt@) is None,
        },
{
    let t = chrono::DateTime::from_timestamp(secs, nanos)?;
    let mut s = String::new();
    write!(s, "{}", t.format(fmt)).ok()?;
    Some(s)
}

/// The strftime format of the stamp in a backup branch's name.
pub open spec fn backup_stamp_format() -> Seq<char> {
    "%Y%m%d-%H%M%S"@
}

/// Git repository status.
#[derive(Debug, Clone, Copy, PartialEq, Eq, Structural)]
pub struct GitStatus {
    pub modified: usize,
    pub added: usize,
    pub deleted: usize,
    pub untracked: usize,
}

impl Default for GitStatus {
    fn default() -> (s: Self)
        ensures
            s == (GitStatus { modified: 0, added: 0, deleted: 0, untracked: 0 }),
    {
        GitStatus { modified: 0, added: 0, deleted: 0, untracked: 0 }
    }
}

impl GitStatus {
    /// Whether tracked files changed (untracked files do not count).
    pub fn has_changes(&self) -> (b: bool)
        ensures
            b == (self.modified > 0 || self.added > 0 || self.deleted > 0),
    {
        self.modified > 0 || self.added > 0 || self.deleted > 0
    }

    /// All changed files, untracked ones included.
    pub fn total_changes(&self) -> (n: usize)
        requires
            self.modified + self.added + self.deleted + self.untracked <= usize::MAX,
        ensures
            n == self.modified + self.added + self.deleted + self.untracked,
    {
        self.modified + self.added + self.deleted + self.untracked
    }
}

/// Whether `has_changes` implies changes are counted: a status with
/// changes has a positive total.
pub proof fn lemma_changes_counted(s: GitStatus)
    ensures
        (s.modified > 0 || s.added > 0 || s.deleted > 0) ==> s.modified + s.added + s.deleted
            + s.untracked > 0,
{
}

/// Commit information.
#[derive(Debug, Clone)]
pub struct CommitInfo {
    pub hash: String,
    pub message: String,
    pub author: String,
    pub email: String,
    pub date: String,
}

// ---------------------------------------------------------------------------
// `git status --porcelain`
// ---------------------------------------------------------------------------
/// The number of characters in the first two bytes of a line (`&line[0..2]`
/// is defined exactly when there is one).
pub open spec fn code_chars(line: Seq<char>) -> Option<int> {
    if line.len() >= 1 && char_width(line[0]) == 2 {
        Some(1)
    } else if line.len() >= 2 && char_width(line[0]) == 1 && char_width(line[1]) == 1 {
        Some(2)
    } else {
        None
    }
}

/// Every non-empty line has a two-byte status code to slice.
pub open spec fn status_readable(out: Seq<char>) -> bool {
    forall|i: int| 0 <= i < lines(out).len() && lines(out)[i].len() > 0 ==> (#[trigger] code_chars(lines(out)[i])) is Some
}

/// The trimmed status code of a line.
pub open spec fn status_code(line: Seq<char>) -> Seq<char> {
    trim(line.take(code_chars(line)->0))
}

/// The counts a list of porcelain lines adds to a status.
pub open spec fn status_of(ls: Seq<Seq<char>>) -> GitStatus
    decreases ls.len(),
{
    if ls.len() == 0 {
        GitStatus { modified: 0, added: 0, deleted: 0, untracked: 0 }
    } else {
        let s = status_of(ls.drop_last());
        let l = ls.last();
        if l.len() == 0 {
            s
        } else {
            let c = status_code(l);
            if c == "M"@ {
                GitStatus { modified: (s.modified + 1) as usize, ..s }
            } else if c == "A"@ {
                GitStatus { added: (s.added + 1) as usize, ..s }
            } else if c == "D"@ {
                GitStatus { deleted: (s.deleted + 1) as usize, ..s }
            } else if c == "?"@ || c == "??"@ {
                GitStatus { untracked: (s.untracked + 1) as usize, ..s }
            } else {
                s
            }
        }
    }
}

pub open spec fn status_total(s: GitStatus) -> int {
    s.modified + s.added + s.deleted + s.untracked
}

proof fn lemma_status_bounded(ls: Seq<Seq<char>>)
    ensures
        status_total(status_of(ls)) <= ls.len(),
        status_of(ls).modified <= ls.len(),
        status_of(ls).added <= ls.len(),
        status_of(ls).deleted <= ls.len(),
        status_of(ls).untracked <= ls.len(),
    decreases ls.len(),
{
    if ls.len() > 0 {
        lemma_status_bounded(ls.drop_last());
    }
}

fn code_char_count(line: &Vec<char>) -> (r: Option<usize>)
    ensures
        match r {
            Some(k) => code_chars(line@) == Some(k as int),
            None => code_chars(line@) is None,
        },
{
    if line.len() >= 1 && char_byte_width(line[0]) == 2 {
        Some(1)
    } else if line.len() >= 2 && char_byte_width(line[0]) == 1 && char_byte_width(line[1]) == 1 {
        Some(2)
    } else {
        None
    }
}

/// Whether `parse_status` can read an output (every non-empty line starts
/// with a two-byte status code).
pub fn status_parseable(stdout: &str) -> (b: bool)
    ensures
        b == status_readable(stdout@),
{
    let chars = chars_of(stdout);
    let ls = lines_of(&chars);
    let mut i: usize = 0;
    while i < ls.len()
        invariant
            i <= ls.len(),
            views(ls@) == lines(stdout@),
            forall|k: int| 0 <= k < i && views(ls@)[k].len() > 0 ==> (#[trigger] code_chars(views(ls@)[k])) is Some,
        decreases ls.len() - i,
    {
        if ls[i].len() > 0 {
            match code_char_count(&ls[i]) {
                Some(_) => {},
                None => {
                    assert(views(ls@)[i as int] == ls@[i as int]@);
                    return false;
                },
            }
        }
        assert(views(ls@)[i as int] == ls@[i as int]@);
        i += 1;
    }
    true
}

/// Read `git status --porcelain` output: modified, added, deleted and
/// untracked files, by the trimmed two-byte status code of each line.
pub fn parse_status(stdout: &str) -> (s: GitStatus)
    requires
        status_readable(stdout@),
    ensures
        s == status_of(lines(stdout@)),
{
    let chars = chars_of(stdout);
    let ls = lines_of(&chars);
    let mut status = GitStatus::default();
    let mut i: usize = 0;
    while i < ls.len()
        invariant
            i <= ls.len(),
            views(ls@) == lines(stdout@),
            status_readable(stdout@),
            status == status_of(views(ls@).take(i as int)),
        decreases ls.len() - i,
    {
        proof {
            assert(views(ls@).take(i + 1).drop_last() =~= views(ls@).take(i as int));
            assert(views(ls@).take(i + 1).last() == ls@[i as int]@);
            lemma_status_bounded(views(ls@).take(i as int));
        }
        let line = &ls[i];
        if line.len() > 0 {
            assert(code_chars(views(ls@)[i as int]) is Some);
            let k = match code_char_count(line) {
                Some(k) => k,
                None => {
                    proof {
                        assert(false);
                    }
                    0
                },
            };
            let code_part = crate::text::slice_chars(line, 0, k);
            let code = trimmed(&code_part);
            assert(code_part@ =~= line@.take(k as int));
            if same(&code, "M") {
                status.modified = status.modified + 1;
            } else if same(&code, "A") {
                status.added = status.added + 1;
            } else if same(&code, "D") {
                status.deleted = status.deleted + 1;
            } else if same(&code, "?") || same(&code, "??") {
                status.untracked = status.untracked + 1;
            }
        }
        i += 1;
    }
    assert(views(ls@).take(i as int) =~= views(ls@));
    status
}

// ---------------------------------------------------------------------------
// `git log`
// ---------------------------------------------------------------------------
/// The commits of `git log --pretty=format:%H%n%s%n%an%n%ae%n%ad`: each
/// full group of five lines, in order; a shorter last group is dropped.
pub open spec fn commits_of(ls: Seq<Seq<char>>) -> Seq<(Seq<char>, Seq<char>, Seq<char>, Seq<char>, Seq<char>)>
    decreases ls.len(),
{
    if ls.len() < 5 {
        Seq::empty()
    } else {
        seq![(ls[0], ls[1], ls[2], ls[3], ls[4])] + commits_of(ls.skip(5))
    }
}

pub open spec fn commit_view(c: CommitInfo) -> (Seq<char>, Seq<char>, Seq<char>, Seq<char>, Seq<char>) {
    (c.hash@, c.message@, c.author@, c.email@, c.date@)
}

/// The arguments of `git log` listing the last `count` commits.
pub fn log_args(count: usize) -> (r: Vec<String>)
    ensures
        r@.len() == 4,
        r@[0]@ == "log"@,
        r@[1]@ == "-"@ + decimal(count as nat),
        r@[2]@ == "--pretty=format:%H%n%s%n%an%n%ae%n%ad"@,
        r@[3]@ == "--date=iso"@,
{
    let mut n = owned("-");
    push_decimal(&mut n, count as u64);
    vec![owned("log"), n, owned("--pretty=format:%H%n%s%n%an%n%ae%n%ad"), owned("--date=iso")]
}

/// Read `git log` output into commits.
pub fn parse_commits(stdout: &str) -> (r: Vec<CommitInfo>)
    ensures
        r@.map_values(|c: CommitInfo| commit_view(c)) == commits_of(lines(stdout@)),
{
    let chars = chars_of(stdout);
    let ls = lines_of(&chars);
    let ghost all = views(ls@);
    let mut r: Vec<CommitInfo> = Vec::new();
    let mut i: usize = 0;
    assert(all.skip(0) =~= all);
    assert(r@.map_values(|c: CommitInfo| commit_view(c)) + commits_of(all.skip(0)) =~= commits_of(all));
    while ls.len() - i >= 5
        invariant
            i <= ls.len(),
            all == views(ls@),
            all == lines(stdout@),
            r@.map_values(|c: CommitInfo| commit_view(c)) + commits_of(all.skip(i as int)) == commits_of(all),
        decreases ls.len() - i,
    {
        let c = CommitInfo {
            hash: string_of(&ls[i]),
            message: string_of(&ls[i + 1]),
            author: string_of(&ls[i + 2]),
            email: string_of(&ls[i + 3]),
            date: string_of(&ls[i + 4]),
        };
        let ghost rest = all.skip(i as int);
        assert(rest.skip(5) =~= all.skip(i + 5));
        assert(commit_view(c) == (rest[0], rest[1], rest[2], rest[3], rest[4]));
        let ghost prev = r@;
        r.push(c);
        assert(r@.map_values(|c: CommitInfo| commit_view(c)) =~= prev.map_values(|c: CommitInfo| commit_view(c)).push(commit_view(c)));
        assert(r@.map_values(|c: CommitInfo| commit_view(c)) + commits_of(all.skip(i + 5)) =~= prev.map_values(|c: CommitInfo| commit_view(c)) + commits_of(rest));
        i += 5;
    }
    assert(commits_of(all.skip(i as int)) =~= Seq::empty());
    assert(r@.map_values(|c: CommitInfo| commit_view(c)) + Seq::empty() =~= r@.map_values(|c: CommitInfo| commit_view(c)));
    r
}

// ---------------------------------------------------------------------------
// Commit messages
// ---------------------------------------------------------------------------
/// The `- description` lines of the applied suggestions.
pub open spec fn suggestion_lines(ss: Seq<Suggestion>) -> Seq<Seq<char>> {
    ss.map_values(|s: Suggestion| "- "@ + s.description@)
}

/// The message committing a fix report.
pub open spec fn fix_message(r: FixReport) -> Seq<char> {
    "fix: "@ + (if r.style_fixes_applied > 0 {
        "Auto-fix style issues"@
    } else {
        "Apply improvements"@
    }) + " in "@ + spec_file_name_debug(r.file_path@) + "\n\nApplied "@ + decimal(
        r.style_fixes_applied as nat,
    ) + " style fixes and "@ + decimal(r.suggestions_applied@.len()) + " suggestions\n\n"@ + join(
        suggestion_lines(r.suggestions_applied@),
        "\n"@,
    )
}

/// A confidence in thousandths as a percentage with one decimal.
pub open spec fn percent_text(thousandths: u32) -> Seq<char> {
    decimal((thousandths / 10) as nat) + "."@ + decimal((thousandths % 10) as nat)
}

/// The message committing an improvement.
pub open spec fn improvement_message(r: ImprovementRecord) -> Seq<char> {
    r.improvement_type@ + ": "@ + r.description@ + "\n\n"@ + r.file_path@ + "\n\nConfidence: "@
        + percent_text(r.confidence) + "%"@
}

/// Git integration manager.
#[derive(Debug, Clone)]
pub struct GitIntegration {
    repo_path: String,
    auto_commit: bool,
    commit_prefix: String,
}

impl GitIntegration {
    pub closed spec fn repo(&self) -> Seq<char> {
        self.repo_path@
    }

    pub closed spec fn commits_automatically(&self) -> bool {
        self.auto_commit
    }

    pub closed spec fn prefix(&self) -> Seq<char> {
        self.commit_prefix@
    }

    /// Create a new Git integration: no auto-commit, prefix `[codex-review]`.
    pub fn new(repo_path: String) -> (g: Self)
        ensures
            g.repo() == repo_path@,
            !g.commits_automatically(),
            g.prefix() == "[codex-review]"@,
    {
        GitIntegration { repo_path, auto_commit: false, commit_prefix: owned("[codex-review]") }
    }

    /// Enable auto-commit.
    pub fn with_auto_commit(self, enabled: bool) -> (g: Self)
        ensures
            g.repo() == self.repo(),
            g.commits_automatically() == enabled,
            g.prefix() == self.prefix(),
    {
        GitIntegration { auto_commit: enabled, ..self }
    }

    /// Set commit message prefix.
    pub fn with_commit_prefix(self, prefix: String) -> (g: Self)
        ensures
            g.repo() == self.repo(),
            g.commits_automatically() == self.commits_automatically(),
            g.prefix() == prefix@,
    {
        GitIntegration { commit_prefix: prefix, ..self }
    }

    /// The repository git runs in.
    pub fn repo_path(&self) -> (r: &str)
        ensures
            r@ == self.repo(),
    {
        self.repo_path.as_str()
    }

    /// The message a commit is made with: the prefix, a space, the message.
    pub fn full_message(&self, message: &str) -> (r: String)
        ensures
            r@ == self.prefix() + " "@ + message@,
    {
        let mut s = self.commit_prefix.clone();
        push_str(&mut s, " ");
        push_str(&mut s, message);
        s
    }

    /// The name of a backup branch of `base_name` made at `now`:
    /// `<base>-backup-<%Y%m%d-%H%M%S>`; `None` when `now` is outside
    /// chrono's range.
    pub fn backup_branch_name_at(&self, base_name: &str, now: Timestamp) -> (r: Option<String>)
        ensures
            match r {
                Some(s) => spec_backup_stamp(now.secs, now.nanos, backup_stamp_format()) matches Some(
                    t,
                ) && s@ == base_name@ + "-backup-"@ + t,
                None => spec_backup_stamp(now.secs, now.nanos, backup_stamp_format()) is None,
            },
    {
        match backup_stamp(now.secs, now.nanos, "%Y%m%d-%H%M%S") {
            Some(stamp) => {
                let mut s = owned(base_name);
                push_str(&mut s, "-backup-");
                push_str(&mut s, stamp.as_str());
                Some(s)
            },
            None => None,
        }
    }

    /// The message committing a fix report.
    pub fn fix_commit_message(report: &FixReport) -> (r: String)
        ensures
            r@ == fix_message(*report),
    {
        let mut s = owned("fix: ");
        if report.style_fixes_applied > 0 {
            push_str(&mut s, "Auto-fix style issues");
        } else {
            push_str(&mut s, "Apply improvements");
        }
        push_str(&mut s, " in ");
        let name = file_name_debug(report.file_path.as_str());
        push_str(&mut s, name.as_str());
        push_str(&mut s, "\n\nApplied ");
        push_decimal(&mut s, report.style_fixes_applied as u64);
        push_str(&mut s, " style fixes and ");
        push_decimal(&mut s, report.suggestions_applied.len() as u64);
        push_str(&mut s, " suggestions\n\n");
        let mut ls: Vec<Vec<char>> = Vec::new();
        let mut i: usize = 0;
        while i < report.suggestions_applied.len()
            invariant
                i <= report.suggestions_applied.len(),
                views(ls@) == suggestion_lines(report.suggestions_applied@).take(i as int),
            decreases report.suggestions_applied.len() - i,
        {
            let mut l = chars_of("- ");
            let d = chars_of(report.suggestions_applied[i].description.as_str());
            crate::text::extend_chars(&mut l, &d);
            assert(l@ == "- "@ + report.suggestions_applied@[i as int].description@);
            let ghost prev = views(ls@);
            ls.push(l);
            assert(views(ls@) =~= prev.push(l@));
            i += 1;
            assert(views(ls@) =~= suggestion_lines(report.suggestions_applied@).take(i as int));
        }
        assert(suggestion_lines(report.suggestions_applied@).take(i as int) =~= suggestion_lines(
            report.suggestions_applied@,
        ));
        let joined = crate::text::join_all(&ls, "\n");
        push_chars(&mut s, &joined);
        s
    }

    /// The commit a fix report calls for: none without auto-commit or when
    /// nothing changed, else the report's message (the file is staged and
    /// committed with it).
    pub fn commit_fix_plan(&self, report: &FixReport) -> (r: Option<String>)
        ensures
            match r {
                Some(m) => self.commits_automatically() && report.changed && m@ == fix_message(*report),
                None => !self.commits_automatically() || !report.changed,
            },
    {
        if !self.auto_commit {
            return None;
        }
        if !report.changed {
            return None;
        }
        Some(Self::fix_commit_message(report))
    }

    /// The message committing an improvement.
    pub fn improvement_commit_message(improvement: &ImprovementRecord) -> (r: String)
        ensures
            r@ == improvement_message(*improvement),
    {
        let mut s = improvement.improvement_type.clone();
        push_str(&mut s, ": ");
        push_str(&mut s, improvement.description.as_str());
        push_str(&mut s, "\n\n");
        push_str(&mut s, improvement.file_path.as_str());
        push_str(&mut s, "\n\nConfidence: ");
        push_decimal(&mut s, (improvement.confidence / 10) as u64);
        push_str(&mut s, ".");
        push_decimal(&mut s, (improvement.confidence % 10) as u64);
        push_str(&mut s, "%");
        s
    }

    /// The commit an improvement calls for: none without auto-commit.
    pub fn commit_improvement_plan(&self, improvement: &ImprovementRecord) -> (r: Option<String>)
        ensures
            match r {
                Some(m) => self.commits_automatically() && m@ == improvement_message(*improvement),
                None => !self.commits_automatically(),
            },
    {
        if !self.auto_commit {
            return None;
        }
        Some(Self::improvement_commit_message(improvement))
    }
}

} // verus!
