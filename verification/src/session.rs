//! Review session management: what a session records and how its
//! statistics and state change.
use vstd::prelude::*;
use crate::analyzer::AnalysisResult;
use crate::text::{chars_of, owned, push_chars, signed_decimal, signed_decimal_chars};
use crate::time::{clock_reading, Timestamp};
use crate::paths::{path_extension, path_file_stem, spec_file_stem, spec_path_extension};

verus! {

/// Session state.
#[derive(Debug, Clone, Copy, PartialEq, Eq, Structural)]
pub enum ReviewSessionState {
    Active,
    Paused,
    Completed,
    Failed,
}

/// Session statistics.
#[derive(Debug, Clone, Copy, PartialEq, Eq, Structural)]
pub struct SessionStatistics {
    /// Number of files analyzed
    pub files_analyzed: usize,
    /// Total issues found
    pub total_issues: usize,
    /// Total suggestions made
    pub total_suggestions: usize,
    /// Improvements applied
    pub improvements_applied: usize,
    /// Issues resolved
    pub issues_resolved: usize,
}

impl Default for SessionStatistics {
    fn default() -> (s: Self)
        ensures
            s == zero_statistics(),
    {
        SessionStatistics {
            files_analyzed: 0,
            total_issues: 0,
            total_suggestions: 0,
            improvements_applied: 0,
            issues_resolved: 0,
        }
    }
}

pub open spec fn zero_statistics() -> SessionStatistics {
    SessionStatistics {
        files_analyzed: 0,
        total_issues: 0,
        total_suggestions: 0,
        improvements_applied: 0,
        issues_resolved: 0,
    }
}

/// Record of an improvement applied.
#[derive(Debug, Clone)]
pub struct ImprovementRecord {
    /// File path
    pub file_path: String,
    /// Improvement type
    pub improvement_type: String,
    /// Description
    pub description: String,
    /// Applied at
    pub applied_at: Timestamp,
    /// Confidence score, in thousandths
    pub confidence: u32,
    /// Success status
    pub success: bool,
    /// Error message (if failed)
    pub error: Option<String>,
}

impl ImprovementRecord {
    /// Create a successful improvement record applied at `now`.
    pub fn new_at(
        file_path: String,
        improvement_type: String,
        description: String,
        confidence: u32,
        now: Timestamp,
    ) -> (r: Self)
        ensures
            r.file_path == file_path,
            r.improvement_type == improvement_type,
            r.description == description,
            r.applied_at == now,
            r.confidence == confidence,
            r.success,
            r.error is None,
    {
        ImprovementRecord {
            file_path,
            improvement_type,
            description,
            applied_at: now,
            confidence,
            success: true,
            error: None,
        }
    }

    /// Create a successful improvement record applied now.
    pub fn new(file_path: String, improvement_type: String, description: String, confidence: u32) -> (r:
        Self)
        ensures
            r.file_path == file_path,
            r.improvement_type == improvement_type,
            r.description == description,
            r.confidence == confidence,
            r.success,
            r.error is None,
    {
        let now = Timestamp::now();
        Self::new_at(file_path, improvement_type, description, confidence, now)
    }

    /// Mark as failed.
    pub fn failed(self, error: String) -> (r: Self)
        ensures
            r.file_path == self.file_path,
            r.improvement_type == self.improvement_type,
            r.description == self.description,
            r.applied_at == self.applied_at,
            r.confidence == self.confidence,
            !r.success,
            r.error == Some(error),
    {
        ImprovementRecord { success: false, error: Some(error), ..self }
    }
}

// ---------------------------------------------------------------------------
// Results by file
// ---------------------------------------------------------------------------
/// The latest result for each file of a list.
pub open spec fn results_map(v: Seq<AnalysisResult>) -> Map<Seq<char>, AnalysisResult>
    decreases v.len(),
{
    if v.len() == 0 {
        Map::empty()
    } else {
        results_map(v.drop_last()).insert(v.last().file_path@, v.last())
    }
}

/// `j` is the last position of `v` holding a result for `k`.
pub open spec fn last_for(v: Seq<AnalysisResult>, k: Seq<char>, j: int) -> bool {
    &&& 0 <= j < v.len()
    &&& v[j].file_path@ == k
    &&& forall|l: int| j < l < v.len() ==> (#[trigger] v[l]).file_path@ != k
}

proof fn lemma_results_map(v: Seq<AnalysisResult>)
    ensures
        results_map(v).dom().finite(),
        forall|i: int|
            0 <= i < v.len() ==> results_map(v).dom().contains((#[trigger] v[i]).file_path@),
        forall|i: int|
            #![trigger last_for(v, v[i].file_path@, i)]
            last_for(v, v[i].file_path@, i) ==> results_map(v)[v[i].file_path@] == v[i],
        forall|k: Seq<char>| #[trigger]
            results_map(v).dom().contains(k) ==> exists|j: int|
                #![trigger v[j]]
                last_for(v, k, j) && results_map(v)[k] == v[j],
    decreases v.len(),
{
    if v.len() > 0 {
        let pre = v.drop_last();
        let last = v.last();
        let n = v.len() - 1;
        lemma_results_map(pre);
        assert forall|i: int| 0 <= i < v.len() implies results_map(v).dom().contains(
            (#[trigger] v[i]).file_path@,
        ) by {
            if i < n {
                assert(pre[i] == v[i]);
            }
        }
        assert forall|i: int| #![trigger last_for(v, v[i].file_path@, i)]
            last_for(v, v[i].file_path@, i) implies results_map(v)[v[i].file_path@] == v[i] by {
            if i < n {
                assert(v[n].file_path@ != v[i].file_path@);
                assert(pre[i] == v[i]);
                assert forall|l: int| i < l < pre.len() implies (#[trigger] pre[l]).file_path@
                    != pre[i].file_path@ by {
                    assert(pre[l] == v[l]);
                }
                assert(last_for(pre, pre[i].file_path@, i));
            }
        }
        assert forall|k: Seq<char>| #[trigger] results_map(v).dom().contains(k) implies exists|j: int|
            #![trigger v[j]]
            last_for(v, k, j) && results_map(v)[k] == v[j] by {
            if k == last.file_path@ {
                assert(last_for(v, k, n));
                assert(v[n] == last);
            } else {
                let j = choose|j: int| #![trigger pre[j]] last_for(pre, k, j) && results_map(pre)[k] == pre[j];
                assert(v[j] == pre[j]);
                assert forall|l: int| j < l < v.len() implies (#[trigger] v[l]).file_path@ != k by {
                    if l < n {
                        assert(pre[l] == v[l]);
                    }
                }
                assert(last_for(v, k, j));
            }
        }
    }
}

/// Review session state.
#[derive(Debug, Clone)]
pub struct ReviewSession {
    /// Session ID
    pub id: String,
    /// Session start time
    pub started_at: Timestamp,
    /// Last update time
    pub updated_at: Timestamp,
    /// Session state
    pub state: ReviewSessionState,
    /// Analysis results; of several for one file the last one counts
    pub analysis_results: Vec<AnalysisResult>,
    /// Improvements applied
    pub improvements_applied: Vec<ImprovementRecord>,
    /// Session statistics
    pub statistics: SessionStatistics,
}

impl ReviewSession {
    /// The latest analysis result of each file.
    pub open spec fn results(&self) -> Map<Seq<char>, AnalysisResult> {
        results_map(self.analysis_results@)
    }

    /// Create a new review session started at `now`.
    pub fn new_at(id: String, now: Timestamp) -> (s: Self)
        ensures
            s.id == id,
            s.started_at == now,
            s.updated_at == now,
            s.state == ReviewSessionState::Active,
            s.results() == Map::<Seq<char>, AnalysisResult>::empty(),
            s.improvements_applied@.len() == 0,
            s.statistics == zero_statistics(),
    {
        let s = ReviewSession {
            id,
            started_at: now,
            updated_at: now,
            state: ReviewSessionState::Active,
            analysis_results: Vec::new(),
            improvements_applied: Vec::new(),
            statistics: SessionStatistics::default(),
        };
        assert(results_map(s.analysis_results@) =~= Map::<Seq<char>, AnalysisResult>::empty());
        s
    }

    /// Create a new review session started now.
    pub fn new(id: String) -> (s: Self)
        ensures
            s.id == id,
            s.started_at == s.updated_at,
            s.state == ReviewSessionState::Active,
            s.results() == Map::<Seq<char>, AnalysisResult>::empty(),
            s.improvements_applied@.len() == 0,
            s.statistics == zero_statistics(),
    {
        let now = Timestamp::now();
        Self::new_at(id, now)
    }

    /// Add an analysis result at `now`: it replaces any earlier result of
    /// the same file, and the statistics count it.
    pub fn add_analysis_result_at(&mut self, result: AnalysisResult, now: Timestamp)
        requires
            old(self).statistics.files_analyzed < usize::MAX,
            old(self).statistics.total_issues + result.issues@.len() <= usize::MAX,
            old(self).statistics.total_suggestions + result.suggestions@.len() <= usize::MAX,
        ensures
            final(self).results() == old(self).results().insert(result.file_path@, result),
            final(self).updated_at == now,
            final(self).statistics == (SessionStatistics {
                files_analyzed: (old(self).statistics.files_analyzed + 1) as usize,
                total_issues: (old(self).statistics.total_issues + result.issues@.len()) as usize,
                total_suggestions: (old(self).statistics.total_suggestions
                    + result.suggestions@.len()) as usize,
                ..old(self).statistics
            }),
            final(self).id == old(self).id,
            final(self).started_at == old(self).started_at,
            final(self).state == old(self).state,
            final(self).improvements_applied == old(self).improvements_applied,
    {
        self.updated_at = now;
        self.statistics.files_analyzed = self.statistics.files_analyzed + 1;
        self.statistics.total_issues = self.statistics.total_issues + result.issues.len();
        self.statistics.total_suggestions = self.statistics.total_suggestions + result.suggestions.len();
        self.put_result(result);
    }

    /// Store `result` as its file's latest result.
    fn put_result(&mut self, result: AnalysisResult)
        ensures
            final(self).results() == old(self).results().insert(result.file_path@, result),
            final(self).updated_at == old(self).updated_at,
            final(self).statistics == old(self).statistics,
            final(self).id == old(self).id,
            final(self).started_at == old(self).started_at,
            final(self).state == old(self).state,
            final(self).improvements_applied == old(self).improvements_applied,
    {
        let ghost old_results = self.analysis_results@;
        let ghost key = result.file_path@;
        let ghost value = result;
        proof {
            lemma_results_map(old_results);
        }
        let path = chars_of(result.file_path.as_str());
        let mut i: usize = self.analysis_results.len();
        let mut found: Option<usize> = None;
        while i > 0
            invariant_except_break
                found is None,
            invariant
                i <= self.analysis_results.len(),
                self.analysis_results@ == old_results,
                path@ == key,
                forall|l: int| i <= l < old_results.len() ==> (#[trigger] old_results[l]).file_path@ != key,
            ensures
                match found {
                    Some(j) => j < old_results.len() && old_results[j as int].file_path@ == key && forall|l: int|
                        j < l < old_results.len() ==> (#[trigger] old_results[l]).file_path@ != key,
                    None => forall|l: int| 0 <= l < old_results.len() ==> (#[trigger] old_results[l]).file_path@ != key,
                },
            decreases i,
        {
            let pc = chars_of(self.analysis_results[i - 1].file_path.as_str());
            if crate::text::starts_with_chars(&pc, &path) && pc.len() == path.len() {
                assert(pc@ =~= path@);
                found = Some(i - 1);
                break;
            }
            proof {
                if pc@ == path@ {
                    assert(pc@.take(path@.len() as int) =~= path@);
                }
            }
            i -= 1;
        }
        match found {
            Some(j) => {
                self.analysis_results.set(j, result);
                proof {
                    let new_results = self.analysis_results@;
                    assert(last_for(old_results, key, j as int));
                    lemma_results_map(new_results);
                    assert forall|m: int| 0 <= m < new_results.len() implies (#[trigger] new_results[m]).file_path@
                        == old_results[m].file_path@ by {}
                    assert forall|x: Seq<char>| #[trigger] results_map(new_results).dom().contains(x)
                        <==> results_map(old_results).insert(key, value).dom().contains(x) by {
                        if results_map(new_results).dom().contains(x) {
                            let m = choose|m: int| #![trigger new_results[m]] last_for(new_results, x, m) && results_map(new_results)[x] == new_results[m];
                            assert(old_results[m].file_path@ == x);
                        }
                        if results_map(old_results).dom().contains(x) {
                            let m = choose|m: int| #![trigger old_results[m]] last_for(old_results, x, m) && results_map(old_results)[x] == old_results[m];
                            assert(new_results[m].file_path@ == x);
                        }
                        if x == key {
                            assert(new_results[j as int].file_path@ == key);
                        }
                    }
                    assert forall|x: Seq<char>| #[trigger] results_map(new_results).dom().contains(x)
                        implies results_map(new_results)[x] == results_map(old_results).insert(key, value)[x] by {
                        let m = choose|m: int| #![trigger new_results[m]] last_for(new_results, x, m) && results_map(new_results)[x] == new_results[m];
                        if x == key {
                            if m < j {
                                assert(new_results[j as int].file_path@ == key);
                            }
                            if m > j {
                                assert(old_results[m].file_path@ == key);
                            }
                            assert(m == j);
                        } else {
                            assert(m != j);
                            assert(new_results[m] == old_results[m]);
                            assert forall|l: int| m < l < old_results.len() implies (#[trigger] old_results[l]).file_path@ != x by {
                                assert(new_results[l].file_path@ == old_results[l].file_path@);
                            }
                            assert(last_for(old_results, old_results[m].file_path@, m));
                        }
                    }
                    assert(results_map(new_results) =~= results_map(old_results).insert(key, value));
                }
            },
            None => {
                self.analysis_results.push(result);
                assert(self.analysis_results@.drop_last() =~= old_results);
            },
        }
    }

    /// Add an analysis result now.
    pub fn add_analysis_result(&mut self, result: AnalysisResult)
        requires
            old(self).statistics.files_analyzed < usize::MAX,
            old(self).statistics.total_issues + result.issues@.len() <= usize::MAX,
            old(self).statistics.total_suggestions + result.suggestions@.len() <= usize::MAX,
        ensures
            final(self).results() == old(self).results().insert(result.file_path@, result),
            final(self).statistics.files_analyzed == old(self).statistics.files_analyzed + 1,
            final(self).statistics.total_issues == old(self).statistics.total_issues
                + result.issues@.len(),
            final(self).statistics.total_suggestions == old(self).statistics.total_suggestions
                + result.suggestions@.len(),
            final(self).state == old(self).state,
    {
        let now = Timestamp::now();
        self.add_analysis_result_at(result, now);
    }

    /// Record an improvement at `now`.
    pub fn record_improvement_at(&mut self, improvement: ImprovementRecord, now: Timestamp)
        requires
            old(self).statistics.improvements_applied < usize::MAX,
        ensures
            final(self).improvements_applied@ == old(self).improvements_applied@.push(improvement),
            final(self).statistics == (SessionStatistics {
                improvements_applied: (old(self).statistics.improvements_applied + 1) as usize,
                ..old(self).statistics
            }),
            final(self).updated_at == now,
            final(self).results() == old(self).results(),
            final(self).id == old(self).id,
            final(self).started_at == old(self).started_at,
            final(self).state == old(self).state,
    {
        self.updated_at = now;
        self.statistics.improvements_applied = self.statistics.improvements_applied + 1;
        self.improvements_applied.push(improvement);
    }

    /// Record an improvement now.
    pub fn record_improvement(&mut self, improvement: ImprovementRecord)
        requires
            old(self).statistics.improvements_applied < usize::MAX,
        ensures
            final(self).improvements_applied@ == old(self).improvements_applied@.push(improvement),
            final(self).statistics.improvements_applied == old(self).statistics.improvements_applied
                + 1,
            final(self).results() == old(self).results(),
            final(self).state == old(self).state,
    {
        let now = Timestamp::now();
        self.record_improvement_at(improvement, now);
    }

    /// Move to `state` at `now`, keeping everything else.
    fn set_state_at(&mut self, state: ReviewSessionState, now: Timestamp)
        ensures
            final(self).state == state,
            final(self).updated_at == now,
            final(self).results() == old(self).results(),
            final(self).id == old(self).id,
            final(self).started_at == old(self).started_at,
            final(self).statistics == old(self).statistics,
            final(self).improvements_applied == old(self).improvements_applied,
            final(self).analysis_results == old(self).analysis_results,
    {
        self.state = state;
        self.updated_at = now;
    }

    /// Pause the session at `now`.
    pub fn pause_at(&mut self, now: Timestamp)
        ensures
            final(self).state == ReviewSessionState::Paused,
            final(self).updated_at == now,
            final(self).results() == old(self).results(),
            final(self).id == old(self).id,
            final(self).started_at == old(self).started_at,
            final(self).statistics == old(self).statistics,
            final(self).improvements_applied == old(self).improvements_applied,
            final(self).analysis_results == old(self).analysis_results,
    {
        self.set_state_at(ReviewSessionState::Paused, now);
    }

    /// Resume the session at `now`.
    pub fn resume_at(&mut self, now: Timestamp)
        ensures
            final(self).state == ReviewSessionState::Active,
            final(self).updated_at == now,
            final(self).results() == old(self).results(),
            final(self).id == old(self).id,
            final(self).started_at == old(self).started_at,
            final(self).statistics == old(self).statistics,
            final(self).improvements_applied == old(self).improvements_applied,
            final(self).analysis_results == old(self).analysis_results,
    {
        self.set_state_at(ReviewSessionState::Active, now);
    }

    /// Complete the session at `now`.
    pub fn complete_at(&mut self, now: Timestamp)
        ensures
            final(self).state == ReviewSessionState::Completed,
            final(self).updated_at == now,
            final(self).results() == old(self).results(),
            final(self).id == old(self).id,
            final(self).started_at == old(self).started_at,
            final(self).statistics == old(self).statistics,
            final(self).improvements_applied == old(self).improvements_applied,
            final(self).analysis_results == old(self).analysis_results,
    {
        self.set_state_at(ReviewSessionState::Completed, now);
    }

    /// Pause the session.
    pub fn pause(&mut self)
        ensures
            final(self).state == ReviewSessionState::Paused,
            final(self).results() == old(self).results(),
            final(self).statistics == old(self).statistics,
            final(self).id == old(self).id,
            final(self).started_at == old(self).started_at,
            final(self).improvements_applied == old(self).improvements_applied,
            final(self).analysis_results == old(self).analysis_results,
            clock_reading(final(self).updated_at),
    {
        let now = Timestamp::now();
        self.pause_at(now);
    }

    /// Resume the session.
    pub fn resume(&mut self)
        ensures
            final(self).state == ReviewSessionState::Active,
            final(self).results() == old(self).results(),
            final(self).statistics == old(self).statistics,
            final(self).id == old(self).id,
            final(self).started_at == old(self).started_at,
            final(self).improvements_applied == old(self).improvements_applied,
            final(self).analysis_results == old(self).analysis_results,
            clock_reading(final(self).updated_at),
    {
        let now = Timestamp::now();
        self.resume_at(now);
    }

    /// Complete the session.
    pub fn complete(&mut self)
        ensures
            final(self).state == ReviewSessionState::Completed,
            final(self).results() == old(self).results(),
            final(self).statistics == old(self).statistics,
            final(self).id == old(self).id,
            final(self).started_at == old(self).started_at,
            final(self).improvements_applied == old(self).improvements_applied,
            final(self).analysis_results == old(self).analysis_results,
            clock_reading(final(self).updated_at),
    {
        let now = Timestamp::now();
        self.complete_at(now);
    }

    /// Session duration, in nanoseconds from start to last update.
    pub fn duration_nanos(&self) -> (d: i128)
        ensures
            d == self.updated_at.total_nanos() - self.started_at.total_nanos(),
    {
        self.updated_at.nanos_since(&self.started_at)
    }

}

// ---------------------------------------------------------------------------
// Session manager
// ---------------------------------------------------------------------------
/// The file name a session is saved under: its id and `.json`.
pub open spec fn session_file_name_of(id: Seq<char>) -> Seq<char> {
    id + ".json"@
}

/// The id of a session started at `now`: `review-` and the seconds since
/// the epoch.
pub open spec fn session_id_at(now: Timestamp) -> Seq<char> {
    "review-"@ + signed_decimal(now.secs as int)
}

/// Session manager.
pub struct SessionManager {
    session_dir: String,
    current_session: Option<ReviewSession>,
}

impl SessionManager {
    pub closed spec fn dir(&self) -> Seq<char> {
        self.session_dir@
    }

    pub closed spec fn current(&self) -> Option<ReviewSession> {
        self.current_session
    }

    /// Create a new session manager.
    pub fn new(session_dir: String) -> (m: Self)
        ensures
            m.dir() == session_dir@,
            m.current() is None,
    {
        SessionManager { session_dir, current_session: None }
    }

    /// The directory sessions are saved in.
    pub fn session_dir(&self) -> (r: &str)
        ensures
            r@ == self.dir(),
    {
        self.session_dir.as_str()
    }

    /// Start a new session at `now` (the session directory exists).
    pub fn start_session_at(&mut self, now: Timestamp) -> (r: &ReviewSession)
        ensures
            final(self).current() == Some(*r),
            r.id@ == session_id_at(now),
            r.started_at == now,
            r.updated_at == now,
            r.state == ReviewSessionState::Active,
            r.results() == Map::<Seq<char>, AnalysisResult>::empty(),
            r.improvements_applied@.len() == 0,
            r.statistics == zero_statistics(),
            final(self).dir() == old(self).dir(),
    {
        let mut id = owned("review-");
        let digits = signed_decimal_chars(now.secs);
        push_chars(&mut id, &digits);
        self.current_session = Some(ReviewSession::new_at(id, now));
        self.current_session.as_ref().unwrap()
    }

    /// Get current session.
    pub fn current_session(&self) -> (r: Option<&ReviewSession>)
        ensures
            r == (match self.current() {
                Some(s) => Some(&s),
                None => None,
            }),
    {
        match &self.current_session {
            Some(s) => Some(s),
            None => None,
        }
    }

    /// Get mutable current session.
    pub fn current_session_mut(&mut self) -> (r: Option<&mut ReviewSession>)
        ensures
            match old(self).current() {
                None => r is None && final(self).current() is None,
                Some(s) => r is Some && *r->0 == s && final(self).current() == Some(*final(r->0)),
            },
            final(self).dir() == old(self).dir(),
    {
        self.current_session.as_mut()
    }

    /// Make a session read back from disk the current one.
    pub fn load_session(&mut self, session: ReviewSession)
        ensures
            final(self).current() == Some(session),
            final(self).dir() == old(self).dir(),
    {
        self.current_session = Some(session);
    }

    /// Complete the current session, if any, at `now`.
    pub fn complete_session_at(&mut self, now: Timestamp)
        ensures
            final(self).dir() == old(self).dir(),
            match old(self).current() {
                None => final(self).current() is None,
                Some(s) => final(self).current() matches Some(t) && t.state
                    == ReviewSessionState::Completed && t.updated_at == now && t.id == s.id
                    && t.results() == s.results() && t.statistics == s.statistics,
            },
    {
        match &mut self.current_session {
            Some(s) => s.complete_at(now),
            None => {},
        }
    }
}

/// The session ids among the files of a session directory: the stems of
/// the `.json` files, in order.
pub open spec fn ids_of(paths: Seq<Seq<char>>) -> Seq<Seq<char>>
    decreases paths.len(),
{
    if paths.len() == 0 {
        Seq::empty()
    } else {
        let rest = ids_of(paths.drop_last());
        let p = paths.last();
        if spec_path_extension(p) == Some("json"@) && spec_file_stem(p) is Some {
            rest.push(spec_file_stem(p)->0)
        } else {
            rest
        }
    }
}

/// The session ids among the files of a session directory.
pub fn session_ids(paths: &Vec<String>) -> (r: Vec<String>)
    ensures
        r@.map_values(|s: String| s@) == ids_of(paths@.map_values(|s: String| s@)),
{
    let ghost all = paths@.map_values(|s: String| s@);
    let mut r: Vec<String> = Vec::new();
    let mut i: usize = 0;
    while i < paths.len()
        invariant
            i <= paths.len(),
            all == paths@.map_values(|s: String| s@),
            r@.map_values(|s: String| s@) == ids_of(all.take(i as int)),
        decreases paths.len() - i,
    {
        assert(all.take(i + 1).drop_last() =~= all.take(i as int));
        assert(all.take(i + 1).last() == paths@[i as int]@);
        let ext = path_extension(paths[i].as_str());
        let is_json = match &ext {
            Some(e) => {
                let c = chars_of(e.as_str());
                crate::linters::clippy::same(&c, "json")
            },
            None => false,
        };
        assert(is_json == (spec_path_extension(paths@[i as int]@) == Some("json"@)));
        if is_json {
            match path_file_stem(paths[i].as_str()) {
                Some(stem) => {
                    let ghost prev = r@.map_values(|s: String| s@);
                    r.push(stem);
                    assert(r@.map_values(|s: String| s@) =~= prev.push(r@[r@.len() - 1]@));
                },
                None => {},
            }
        }
        i += 1;
    }
    assert(all.take(i as int) =~= all);
    r
}

/// The file name a session is saved under.
pub fn session_file_name(id: &str) -> (r: String)
    ensures
        r@ == session_file_name_of(id@),
{
    let mut s = owned(id);
    crate::text::push_str(&mut s, ".json");
    s
}

} // verus!
