//! Decisions of continuous review: which task a watch event becomes,
//! what the task processor does with each task, and how the session
//! records what was analyzed.
//!
//! The queue, the timers and the file reads run outside this library; they
//! hand each event, task and analysis here and carry out the step that
//! comes back.
use vstd::prelude::*;
use crate::analyzer::{AnalysisResult, CodeAnalyzer};
use crate::config::ReviewConfig;
use crate::session::{
    ImprovementRecord, ReviewSession, ReviewSessionState, SessionManager, SessionStatistics,
};
use crate::text::owned;
use crate::time::Timestamp;
use crate::watcher::{event_paths, path_views, WatchEvent};

verus! {

/// Review task types.
#[derive(Debug, Clone)]
pub enum ReviewTask {
    /// Analyze a single file
    AnalyzeFile(String),
    /// Analyze multiple files
    AnalyzeFiles(Vec<String>),
    /// Review changes in a directory
    ReviewDirectory(String),
    /// Apply an improvement
    ApplyImprovement {
        file_path: String,
        improvement_type: String,
        description: String,
        code_changes: Option<String>,
    },
    /// Periodic check
    PeriodicCheck,
    /// Stop continuous review
    Stop,
}

/// Review type.
#[derive(Debug, Clone, Copy, PartialEq, Eq, Structural)]
pub enum ReviewType {
    /// Incremental review (only changed files)
    Incremental,
    /// Full review (all files)
    Full,
    /// Quick check (fast, less thorough)
    Quick,
}

/// What the task processor does after taking a task.
#[derive(Debug, Clone)]
pub enum TaskStep {
    /// Leave the processing loop.
    Stop,
    /// Analyze this file, then report the result with `file_analyzed_at`.
    AnalyzeFile(String),
    /// Analyze these files, then report the results with `files_analyzed_at`.
    AnalyzeFiles(Vec<String>),
    /// The task is finished.
    Done,
}

/// How the periodic checker waits.
#[derive(Debug, Clone, Copy, PartialEq, Eq, Structural)]
pub enum PeriodicSchedule {
    /// Send a periodic check every `secs` seconds.
    Every { secs: u64 },
    /// No checks configured: wake every `secs` seconds to see whether the
    /// review still runs.
    Idle { secs: u64 },
}

/// Confidence recorded for an improvement applied from a task, in
/// thousandths.
pub open spec fn task_improvement_confidence() -> u32 {
    900
}

/// Sum of the issue counts of a list of results.
pub open spec fn issues_in(rs: Seq<AnalysisResult>) -> nat
    decreases rs.len(),
{
    if rs.len() == 0 {
        0
    } else {
        issues_in(rs.drop_last()) + rs.last().issues@.len()
    }
}

/// Sum of the suggestion counts of a list of results.
pub open spec fn suggestions_in(rs: Seq<AnalysisResult>) -> nat
    decreases rs.len(),
{
    if rs.len() == 0 {
        0
    } else {
        suggestions_in(rs.drop_last()) + rs.last().suggestions@.len()
    }
}

/// A session's counters can take `files` more files with these many
/// issues and suggestions, and one more improvement, without overflow.
pub open spec fn has_room(s: SessionStatistics, files: int, issues: int, suggestions: int) -> bool {
    &&& s.files_analyzed + files <= usize::MAX
    &&& s.total_issues + issues <= usize::MAX
    &&& s.total_suggestions + suggestions <= usize::MAX
    &&& s.improvements_applied < usize::MAX
}

/// The latest results of `before` with `rs` added in order.
pub open spec fn results_after(
    before: Map<Seq<char>, AnalysisResult>,
    rs: Seq<AnalysisResult>,
) -> Map<Seq<char>, AnalysisResult>
    decreases rs.len(),
{
    if rs.len() == 0 {
        before
    } else {
        results_after(before, rs.drop_last()).insert(rs.last().file_path@, rs.last())
    }
}

/// Continuous code review: its configuration, analyzer, sessions and
/// whether it runs.
pub struct ContinuousReviewer {
    config: ReviewConfig,
    analyzer: CodeAnalyzer,
    session_manager: SessionManager,
    running: bool,
}

impl ContinuousReviewer {
    pub closed spec fn cfg(&self) -> ReviewConfig {
        self.config
    }

    pub closed spec fn is_running(&self) -> bool {
        self.running
    }

    pub closed spec fn session(&self) -> Option<ReviewSession> {
        self.session_manager.current()
    }

    pub closed spec fn sessions_dir(&self) -> Seq<char> {
        self.session_manager.dir()
    }

    pub closed spec fn analysis_cfg(&self) -> crate::config::AnalysisConfig {
        self.analyzer.cfg()
    }

    /// The current session's counters have room for `files` more files
    /// with these many issues and suggestions, and one more improvement.
    pub open spec fn room_for(&self, files: int, issues: int, suggestions: int) -> bool {
        match self.session() {
            Some(s) => has_room(s.statistics, files, issues, suggestions),
            None => true,
        }
    }

    /// Whether the current session's counters have room for `files` more
    /// files with these many issues and suggestions, and one more
    /// improvement (what `process_task_at` and the `*_analyzed_at` steps
    /// need).
    pub fn has_room_for(&self, files: usize, issues: usize, suggestions: usize) -> (b: bool)
        ensures
            b == self.room_for(files as int, issues as int, suggestions as int),
    {
        match self.session_manager.current_session() {
            Some(s) => {
                let st = s.statistics;
                st.files_analyzed as u128 + files as u128 <= usize::MAX as u128
                    && st.total_issues as u128 + issues as u128 <= usize::MAX as u128
                    && st.total_suggestions as u128 + suggestions as u128 <= usize::MAX as u128
                    && st.improvements_applied < usize::MAX
            },
            None => true,
        }
    }

    /// Create continuous review, not yet running and without a
    /// session; its analyzer applies the configuration's analysis settings.
    pub fn new(config: ReviewConfig, session_dir: String) -> (r: Self)
        ensures
            r.cfg() == config,
            r.analysis_cfg() == config.analysis,
            r.sessions_dir() == session_dir@,
            r.session() is None,
            !r.is_running(),
    {
        let analyzer = CodeAnalyzer::new(config.analysis);
        ContinuousReviewer {
            config,
            analyzer,
            session_manager: SessionManager::new(session_dir),
            running: false,
        }
    }

    /// The configuration.
    pub fn config(&self) -> (r: &ReviewConfig)
        ensures
            *r == self.cfg(),
    {
        &self.config
    }

    /// The analyzer files are analyzed with.
    pub fn analyzer(&self) -> (r: &CodeAnalyzer)
        ensures
            r.cfg() == self.analysis_cfg(),
    {
        &self.analyzer
    }

    /// The session manager (to save the current session).
    pub fn session_manager(&self) -> (r: &SessionManager)
        ensures
            r.current() == self.session(),
            r.dir() == self.sessions_dir(),
    {
        &self.session_manager
    }

    /// Whether continuous review runs.
    pub fn running(&self) -> (b: bool)
        ensures
            b == self.is_running(),
    {
        self.running
    }

    /// Start continuous review at `now` (the session directory exists): the
    /// review runs, with a fresh session.
    pub fn start_at(&mut self, now: Timestamp)
        ensures
            final(self).is_running(),
            final(self).session() matches Some(s) && s.state == ReviewSessionState::Active
                && s.started_at == now && s.statistics == crate::session::zero_statistics(),
            final(self).cfg() == old(self).cfg(),
            final(self).analysis_cfg() == old(self).analysis_cfg(),
            final(self).sessions_dir() == old(self).sessions_dir(),
    {
        self.running = true;
        self.session_manager.start_session_at(now);
    }

    /// Stop continuous review at `now`: it no longer runs and the
    /// current session, if any, is completed.
    pub fn stop_at(&mut self, now: Timestamp)
        ensures
            !final(self).is_running(),
            match old(self).session() {
                None => final(self).session() is None,
                Some(s) => final(self).session() matches Some(t) && t.state
                    == ReviewSessionState::Completed && t.results() == s.results()
                    && t.statistics == s.statistics,
            },
            final(self).cfg() == old(self).cfg(),
            final(self).sessions_dir() == old(self).sessions_dir(),
    {
        self.running = false;
        self.session_manager.complete_session_at(now);
    }

    /// The task a watch event becomes, if any.
    pub fn task_for_event(event: &WatchEvent) -> (r: Option<ReviewTask>)
        ensures
            match r {
                None => *event is Deleted,
                Some(ReviewTask::AnalyzeFile(p)) => !(*event is Deleted) && event_paths(
                    *event,
                ).len() == 1 && p@ == event_paths(*event)[0],
                Some(ReviewTask::AnalyzeFiles(ps)) => !(*event is Deleted) && event_paths(
                    *event,
                ).len() != 1 && path_views(ps@) == event_paths(*event),
                Some(_) => false,
            },
    {
        if !event.should_trigger_review() {
            return None;
        }
        let paths = event.paths();
        if paths.len() == 1 {
            Some(ReviewTask::AnalyzeFile(owned(paths[0])))
        } else {
            let mut owned_paths: Vec<String> = Vec::new();
            let mut i: usize = 0;
            while i < paths.len()
                invariant
                    i <= paths.len(),
                    owned_paths@.len() == i,
                    forall|k: int| 0 <= k < i ==> (#[trigger] owned_paths@[k])@ == paths@[k]@,
                decreases paths.len() - i,
            {
                owned_paths.push(owned(paths[i]));
                i += 1;
            }
            proof {
                assert(path_views(owned_paths@) =~= paths@.map_values(|s: &str| s@));
            }
            Some(ReviewTask::AnalyzeFiles(owned_paths))
        }
    }

    /// How the periodic checker waits: every configured number of minutes,
    /// or polling every ten seconds when none is configured.
    pub fn periodic_schedule(&self) -> (r: PeriodicSchedule)
        requires
            match self.cfg().triggers.periodic_check_minutes {
                Some(m) => m * 60 <= u64::MAX,
                None => true,
            },
        ensures
            r == match self.cfg().triggers.periodic_check_minutes {
                Some(m) => PeriodicSchedule::Every { secs: (m * 60) as u64 },
                None => PeriodicSchedule::Idle { secs: 10 },
            },
    {
        match self.config.triggers.periodic_check_minutes {
            Some(m) => PeriodicSchedule::Every { secs: m * 60 },
            None => PeriodicSchedule::Idle { secs: 10 },
        }
    }

    /// Take a task at `now`. An improvement is recorded in the current
    /// session (confidence 0.9); analyses are handed back to be run.
    pub fn process_task_at(&mut self, task: ReviewTask, now: Timestamp) -> (r: TaskStep)
        requires
            task is ApplyImprovement ==> old(self).room_for(0, 0, 0),
        ensures
            final(self).is_running() == old(self).is_running(),
            final(self).cfg() == old(self).cfg(),
            final(self).analysis_cfg() == old(self).analysis_cfg(),
            final(self).sessions_dir() == old(self).sessions_dir(),
            match task {
                ReviewTask::Stop => r is Stop && final(self).session() == old(self).session(),
                ReviewTask::AnalyzeFile(p) => r matches TaskStep::AnalyzeFile(q) && q == p
                    && final(self).session() == old(self).session(),
                ReviewTask::AnalyzeFiles(ps) => r matches TaskStep::AnalyzeFiles(qs) && qs == ps
                    && final(self).session() == old(self).session(),
                ReviewTask::ApplyImprovement { file_path, improvement_type, description, .. } => {
                    &&& r is Done
                    &&& match old(self).session() {
                        None => final(self).session() is None,
                        Some(s) => final(self).session() matches Some(t) && {
                            &&& t.improvements_applied@.len() == s.improvements_applied@.len() + 1
                            &&& t.improvements_applied@.drop_last() == s.improvements_applied@
                            &&& t.improvements_applied@.last().file_path == file_path
                            &&& t.improvements_applied@.last().improvement_type == improvement_type
                            &&& t.improvements_applied@.last().description == description
                            &&& t.improvements_applied@.last().confidence
                                == task_improvement_confidence()
                            &&& t.improvements_applied@.last().applied_at == now
                            &&& t.improvements_applied@.last().success
                            &&& t.statistics.improvements_applied == s.statistics.improvements_applied
                                + 1
                            &&& t.results() == s.results()
                            &&& t.state == s.state
                        },
                    }
                },
                _ => r is Done && final(self).session() == old(self).session(),
            },
    {
        match task {
            ReviewTask::Stop => TaskStep::Stop,
            ReviewTask::AnalyzeFile(p) => TaskStep::AnalyzeFile(p),
            ReviewTask::AnalyzeFiles(ps) => TaskStep::AnalyzeFiles(ps),
            ReviewTask::ApplyImprovement { file_path, improvement_type, description, code_changes } => {
                let record = ImprovementRecord::new_at(
                    file_path,
                    improvement_type,
                    description,
                    900,
                    now,
                );
                match self.session_manager.current_session_mut() {
                    Some(session) => {
                        session.record_improvement_at(record, now);
                    },
                    None => {},
                }
                TaskStep::Done
            },
            _ => TaskStep::Done,
        }
    }

    /// Record the analysis of one file at `now` in the current session.
    /// Returns whether style fixes are to be applied (the policy's
    /// `auto_fix_style`).
    pub fn file_analyzed_at(&mut self, result: AnalysisResult, now: Timestamp) -> (fix_style: bool)
        requires
            old(self).room_for(1, result.issues@.len() as int, result.suggestions@.len() as int),
        ensures
            fix_style == old(self).cfg().policies.auto_fix_style,
            final(self).is_running() == old(self).is_running(),
            final(self).cfg() == old(self).cfg(),
            final(self).analysis_cfg() == old(self).analysis_cfg(),
            final(self).sessions_dir() == old(self).sessions_dir(),
            match old(self).session() {
                None => final(self).session() is None,
                Some(s) => final(self).session() matches Some(t) && {
                    &&& t.results() == s.results().insert(result.file_path@, result)
                    &&& t.statistics.files_analyzed == s.statistics.files_analyzed + 1
                    &&& t.statistics.total_issues == s.statistics.total_issues + result.issues@.len()
                    &&& t.statistics.total_suggestions == s.statistics.total_suggestions
                        + result.suggestions@.len()
                    &&& t.statistics.improvements_applied == s.statistics.improvements_applied
                    &&& t.statistics.issues_resolved == s.statistics.issues_resolved
                    &&& t.state == s.state
                    &&& t.updated_at == now
                    &&& t.id == s.id
                    &&& t.started_at == s.started_at
                    &&& t.improvements_applied == s.improvements_applied
                },
            },
    {
        match self.session_manager.current_session_mut() {
            Some(session) => {
                session.add_analysis_result_at(result, now);
            },
            None => {},
        }
        self.config.policies.auto_fix_style
    }

    /// Record the analyses of several files at `now`, in order.
    pub fn files_analyzed_at(&mut self, results: Vec<AnalysisResult>, now: Timestamp)
        requires
            old(self).room_for(results@.len() as int, issues_in(results@) as int, suggestions_in(results@) as int),
        ensures
            final(self).is_running() == old(self).is_running(),
            final(self).cfg() == old(self).cfg(),
            final(self).analysis_cfg() == old(self).analysis_cfg(),
            final(self).sessions_dir() == old(self).sessions_dir(),
            match old(self).session() {
                None => final(self).session() is None,
                Some(s) => final(self).session() matches Some(t) && {
                    &&& t.results() == results_after(s.results(), results@)
                    &&& t.statistics.files_analyzed == s.statistics.files_analyzed + results@.len()
                    &&& t.statistics.total_issues == s.statistics.total_issues + issues_in(results@)
                    &&& t.statistics.total_suggestions == s.statistics.total_suggestions
                        + suggestions_in(results@)
                    &&& t.statistics.improvements_applied == s.statistics.improvements_applied
                    &&& t.statistics.issues_resolved == s.statistics.issues_resolved
                    &&& t.state == s.state
                    &&& t.updated_at == (if results@.len() == 0 {
                        s.updated_at
                    } else {
                        now
                    })
                    &&& t.id == s.id
                    &&& t.started_at == s.started_at
                    &&& t.improvements_applied == s.improvements_applied
                },
            },
    {
        let ghost start = self.session();
        let total = results.len();
        let ghost all = results@;
        assert(all.len() == total);
        assert(all.skip(0) =~= all);
        assert(all.take(0) =~= Seq::<AnalysisResult>::empty());
        let mut rest = results;
        let mut done: usize = 0;
        while rest.len() > 0
            invariant
                all.len() <= usize::MAX,
                done + rest@.len() == all.len(),
                rest@ == all.skip(done as int),
                self.room_for(rest@.len() as int, issues_in(all) - issues_in(all.take(done as int)),
                    suggestions_in(all) - suggestions_in(all.take(done as int))),
                self.is_running() == old(self).is_running(),
                self.cfg() == old(self).cfg(),
                self.analysis_cfg() == old(self).analysis_cfg(),
                self.sessions_dir() == old(self).sessions_dir(),
                match start {
                    None => self.session() is None,
                    Some(s) => self.session() matches Some(t) && {
                        &&& t.results() == results_after(s.results(), all.take(done as int))
                        &&& t.statistics.files_analyzed == s.statistics.files_analyzed + done
                        &&& t.statistics.total_issues == s.statistics.total_issues + issues_in(
                            all.take(done as int),
                        )
                        &&& t.statistics.total_suggestions == s.statistics.total_suggestions
                            + suggestions_in(all.take(done as int))
                        &&& t.statistics.improvements_applied == s.statistics.improvements_applied
                        &&& t.statistics.issues_resolved == s.statistics.issues_resolved
                        &&& t.state == s.state
                        &&& t.updated_at == (if done == 0 {
                            s.updated_at
                        } else {
                            now
                        })
                        &&& t.id == s.id
                        &&& t.started_at == s.started_at
                        &&& t.improvements_applied == s.improvements_applied
                    },
                },
            decreases rest.len(),
        {
            proof {
                lemma_sums_split(all, done as int);
                assert(all.take(done + 1).drop_last() =~= all.take(done as int));
                assert(all.take(done + 1).last() == all[done as int]);
            }
            assert(rest@[0] == all[done as int]);
            let r = rest.remove(0);
            assert(rest@ =~= all.skip(done + 1));
            self.file_analyzed_at(r, now);
            done += 1;
        }
        proof {
            assert(all.take(done as int) =~= all);
        }
    }

    /// Statistics of the current session.
    pub fn get_statistics(&self) -> (r: Option<SessionStatistics>)
        ensures
            r == match self.session() {
                Some(s) => Some(s.statistics),
                None => None,
            },
    {
        match self.session_manager.current_session() {
            Some(s) => Some(s.statistics),
            None => None,
        }
    }

    /// Pause continuous review at `now`: it no longer runs and the current
    /// session is paused.
    pub fn pause_at(&mut self, now: Timestamp)
        ensures
            !final(self).is_running(),
            final(self).cfg() == old(self).cfg(),
            final(self).sessions_dir() == old(self).sessions_dir(),
            match old(self).session() {
                None => final(self).session() is None,
                Some(s) => final(self).session() matches Some(t) && t.state
                    == ReviewSessionState::Paused && t.results() == s.results() && t.statistics
                    == s.statistics && t.id == s.id && t.updated_at == now,
            },
    {
        self.running = false;
        match self.session_manager.current_session_mut() {
            Some(session) => session.pause_at(now),
            None => {},
        }
    }

    /// Resume continuous review at `now`: it runs again and the current session
    /// is active.
    pub fn resume_at(&mut self, now: Timestamp)
        ensures
            final(self).is_running(),
            final(self).cfg() == old(self).cfg(),
            final(self).sessions_dir() == old(self).sessions_dir(),
            match old(self).session() {
                None => final(self).session() is None,
                Some(s) => final(self).session() matches Some(t) && t.state
                    == ReviewSessionState::Active && t.results() == s.results() && t.statistics
                    == s.statistics && t.id == s.id && t.updated_at == now,
            },
    {
        self.running = true;
        match self.session_manager.current_session_mut() {
            Some(session) => session.resume_at(now),
            None => {},
        }
    }
}

proof fn lemma_sums_split(all: Seq<AnalysisResult>, done: int)
    requires
        0 <= done < all.len(),
    ensures
        issues_in(all.take(done + 1)) == issues_in(all.take(done)) + all[done].issues@.len(),
        suggestions_in(all.take(done + 1)) == suggestions_in(all.take(done))
            + all[done].suggestions@.len(),
        issues_in(all.take(done + 1)) <= issues_in(all),
        suggestions_in(all.take(done + 1)) <= suggestions_in(all),
{
    assert(all.take(done + 1).drop_last() =~= all.take(done));
    lemma_prefix_sums(all, done + 1);
}

proof fn lemma_prefix_sums(all: Seq<AnalysisResult>, k: int)
    requires
        0 <= k <= all.len(),
    ensures
        issues_in(all.take(k)) <= issues_in(all),
        suggestions_in(all.take(k)) <= suggestions_in(all),
    decreases all.len() - k,
{
    if k < all.len() {
        lemma_prefix_sums(all, k + 1);
        assert(all.take(k + 1).drop_last() =~= all.take(k));
    } else {
        assert(all.take(k) =~= all);
    }
}

} // verus!
