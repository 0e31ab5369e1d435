//! The code review commands: what each command takes, and the decisions
//! and text the commands make that do not depend on the terminal.
use vstd::prelude::*;
use crate::analyzer::{Issue, IssueSeverity};
use crate::text::{chars_of, decimal, owned, push_decimal, push_str};
use crate::linters::clippy::same;

verus! {

/// Code review commands.
#[derive(Debug, Clone)]
pub struct ReviewCli {
    pub command: ReviewCommand,
}

#[derive(Debug, Clone)]
pub enum ReviewCommand {
    /// Start continuous code review
    Start(StartCommand),
    /// Analyze a specific file or directory
    Analyze(AnalyzeCommand),
    /// Show review statistics
    Stats(StatsCommand),
    /// List review sessions
    Sessions(SessionsCommand),
    /// Configure continuous review
    Configure(ConfigureCommand),
}

#[derive(Debug, Clone)]
pub struct StartCommand {
    /// Directory to watch (defaults to current directory)
    pub dir: String,
    /// Duration to run (in hours)
    pub duration: Option<u64>,
    /// Run indefinitely (until interrupted)
    pub indefinite: bool,
    /// Session directory (defaults to ~/.codex/review-sessions)
    pub session_dir: Option<String>,
    /// Configuration file
    pub config_file: Option<String>,
}

#[derive(Debug, Clone)]
pub struct AnalyzeCommand {
    /// File or directory to analyze
    pub target: String,
    /// Review type: incremental, full, or quick
    pub review_type: String,
    /// Output format: text or json
    pub output: String,
    /// Configuration file
    pub config_file: Option<String>,
}

#[derive(Debug, Clone)]
pub struct StatsCommand {
    /// Session ID (defaults to current session)
    pub session: Option<String>,
    /// Session directory (defaults to ~/.codex/review-sessions)
    pub session_dir: Option<String>,
}

#[derive(Debug, Clone)]
pub struct SessionsCommand {
    /// Session directory (defaults to ~/.codex/review-sessions)
    pub session_dir: Option<String>,
    /// Show detailed information
    pub verbose: bool,
}

#[derive(Debug, Clone)]
pub struct ConfigureCommand {
    /// Show current configuration
    pub show: bool,
    /// Initialize default configuration
    pub init: bool,
    /// Configuration file path
    pub config_file: Option<String>,
}

/// `Path::new(base).join(rel)`, as text.
pub uninterp spec fn spec_path_join(base: Seq<char>, rel: Seq<char>) -> Seq<char>;

/// `Path::new(base).join(rel)`: `rel` appended to `base` with a separator
/// where one is needed (a `rel` that is absolute replaces `base`). The
/// result is a function of the two texts; the separator rules are not
/// restated here.
#[verifier::external_body]
pub(crate) fn path_join(base: &str, rel: &str) -> (r: String)
    ensures
        r@ == spec_path_join(base@, rel@),
{
    std::path::Path::new(base).join(rel).to_string_lossy().into_owned()
}

/// The session directory of a command: the one given, or
/// `.codex/review-sessions` in the home directory.
pub fn session_dir_or_default(given: &Option<String>, home: &str) -> (r: String)
    ensures
        r@ == match given {
            Some(d) => d@,
            None => spec_path_join(home@, ".codex/review-sessions"@),
        },
{
    match given {
        Some(d) => d.clone(),
        None => path_join(home, ".codex/review-sessions"),
    }
}

/// The configuration file `configure --init` writes: the one given, or
/// `codex-review.toml`.
pub fn config_file_or_default(given: &Option<String>) -> (r: String)
    ensures
        r@ == match given {
            Some(f) => f@,
            None => "codex-review.toml"@,
        },
{
    match given {
        Some(f) => f.clone(),
        None => owned("codex-review.toml"),
    }
}

impl StartCommand {
    /// How long to run, in seconds: until interrupted (`None`) when running
    /// indefinitely or without a duration, else the given hours.
    pub fn run_secs(&self) -> (r: Option<u64>)
        requires
            match self.duration {
                Some(h) => self.indefinite || h * 3600 <= u64::MAX,
                None => true,
            },
        ensures
            r == if self.indefinite || self.duration is None {
                None::<u64>
            } else {
                Some((self.duration->0 * 3600) as u64)
            },
    {
        if self.indefinite {
            return None;
        }
        match self.duration {
            Some(hours) => Some(hours * 3600),
            None => None,
        }
    }
}

impl AnalyzeCommand {
    /// Whether results are printed as JSON.
    pub fn wants_json(&self) -> (b: bool)
        ensures
            b == (self.output@ == "json"@),
    {
        let o = chars_of(self.output.as_str());
        same(&o, "json")
    }
}

/// The icon printed before an issue of a severity.
pub open spec fn spec_severity_icon(s: IssueSeverity) -> Seq<char> {
    match s {
        IssueSeverity::Critical => "🔴"@,
        IssueSeverity::Error => "🟠"@,
        IssueSeverity::Warning => "🟡"@,
        IssueSeverity::Info => "🔵"@,
    }
}

pub fn severity_icon(s: IssueSeverity) -> (r: &'static str)
    ensures
        r@ == spec_severity_icon(s),
{
    match s {
        IssueSeverity::Critical => "🔴",
        IssueSeverity::Error => "🟠",
        IssueSeverity::Warning => "🟡",
        IssueSeverity::Info => "🔵",
    }
}

/// The line printed for an issue: its icon, category and description, and
/// its line number when it has one.
pub open spec fn spec_issue_line(i: Issue) -> Seq<char> {
    "   "@ + spec_severity_icon(i.severity) + " "@ + i.category.spec_name() + ": "@ + i.description@
        + match i.line {
        Some(n) => " (line "@ + decimal(n as nat) + ")"@,
        None => Seq::empty(),
    }
}

pub fn issue_line(issue: &Issue) -> (r: String)
    ensures
        r@ == spec_issue_line(*issue),
{
    let mut s = owned("   ");
    push_str(&mut s, severity_icon(issue.severity));
    push_str(&mut s, " ");
    let name = issue.category.debug_name();
    push_str(&mut s, name.as_str());
    push_str(&mut s, ": ");
    push_str(&mut s, issue.description.as_str());
    match issue.line {
        Some(n) => {
            push_str(&mut s, " (line ");
            push_decimal(&mut s, n as u64);
            push_str(&mut s, ")");
        },
        None => {},
    }
    s
}

} // verus!
