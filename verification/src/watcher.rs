//! Which file changes are reviewed, and as what events.
//!
//! Watching the file system happens outside this library; here the
//! changed paths reported for one file-system event are filtered (gitignore
//! rules through the `ignore` crate, then the watch patterns) and turned
//! into a watch event.
use vstd::prelude::*;
use crate::text::{
    chars_of, contains, contains_chars, ends_with, owned, starts_with, trim_end,
};

verus! {

#[verifier::external_type_specification]
#[verifier::external_body]
pub struct ExGitignoreBuilder(ignore::gitignore::GitignoreBuilder);

#[verifier::external_type_specification]
#[verifier::external_body]
pub struct ExGitignore(ignore::gitignore::Gitignore);

#[verifier::external_type_specification]
#[verifier::external_body]
pub struct ExIgnoreError(ignore::Error);

/// The root `GitignoreBuilder::new` keeps of the path it is given: on
/// Unix, a leading `./` is removed.
pub open spec fn stripped_root(root: Seq<char>) -> Seq<char> {
    if root.len() >= 2 && root[0] == '.' && root[1] == '/' {
        root.skip(2)
    } else {
        root
    }
}

/// What `GitignoreBuilder::add_line` stores of a line: nothing for a
/// comment (a line starting with `#`) or for a line that is blank once its
/// trailing whitespace is trimmed (the trimming is skipped for a line
/// ending in an escaped space `\ `); otherwise the trimmed line.
pub open spec fn ignore_entry(line: Seq<char>) -> Option<Seq<char>> {
    let t = if ends_with(line, "\\ "@) {
        line
    } else {
        trim_end(line)
    };
    if starts_with(line, "#"@) || t.len() == 0 {
        None
    } else {
        Some(t)
    }
}

/// The entries that a list of lines gives, in order.
pub open spec fn ignore_entries(lines: Seq<Seq<char>>) -> Seq<Seq<char>>
    decreases lines.len(),
{
    if lines.len() == 0 {
        Seq::empty()
    } else {
        let rest = ignore_entries(lines.drop_last());
        match ignore_entry(lines.last()) {
            Some(t) => rest.push(t),
            None => rest,
        }
    }
}

/// The root a gitignore builder matches paths against.
pub uninterp spec fn builder_root(b: ignore::gitignore::GitignoreBuilder) -> Seq<char>;

/// The entries stored in a gitignore builder, in order.
pub uninterp spec fn builder_lines(b: ignore::gitignore::GitignoreBuilder) -> Seq<Seq<char>>;

/// The root a gitignore matcher was built with.
pub uninterp spec fn gitignore_root(g: ignore::gitignore::Gitignore) -> Seq<char>;

/// The entries a gitignore matcher was built from, in order.
pub uninterp spec fn gitignore_lines(g: ignore::gitignore::Gitignore) -> Seq<Seq<char>>;

/// Whether `GitignoreBuilder::add_line` accepts a stored entry (the glob
/// it makes of it parses).
pub uninterp spec fn spec_ignore_line_accepted(line: Seq<char>) -> bool;

/// Whether the globs of the given lines combine into a matcher.
pub uninterp spec fn spec_ignore_set_builds(lines: Seq<Seq<char>>) -> bool;

/// Whether the matcher built from `lines` at `root` ignores `path`.
pub uninterp spec fn spec_ignores(
    root: Seq<char>,
    lines: Seq<Seq<char>>,
    path: Seq<char>,
    is_dir: bool,
) -> bool;

/// `GitignoreBuilder::new(root)`: a builder with no entries, rooted at
/// `root` with a leading `./` removed (the Unix form of its prefix strip).
#[verifier::external_body]
fn gitignore_builder(root: &str) -> (b: ignore::gitignore::GitignoreBuilder)
    ensures
        builder_root(b) == stripped_root(root@),
        builder_lines(b) == Seq::<Seq<char>>::empty(),
{
    ignore::gitignore::GitignoreBuilder::new(root)
}

/// `GitignoreBuilder::add_line(None, line)`. A comment or blank line is
/// accepted and stores nothing; any other line is stored trimmed (see
/// `ignore_entry`) when its glob parses, and otherwise the call fails and
/// stores nothing.
#[verifier::external_body]
fn add_ignore_line(b: &mut ignore::gitignore::GitignoreBuilder, line: &str) -> (r: Result<
    (),
    ignore::Error,
>)
    ensures
        builder_root(*final(b)) == builder_root(*old(b)),
        match ignore_entry(line@) {
            None => r is Ok && builder_lines(*final(b)) == builder_lines(*old(b)),
            Some(t) => (r is Ok == spec_ignore_line_accepted(t)) && builder_lines(*final(b)) == (
            if r is Ok {
                builder_lines(*old(b)).push(t)
            } else {
                builder_lines(*old(b))
            }),
        },
{
    match b.add_line(None, line) {
        Ok(_) => Ok(()),
        Err(e) => Err(e),
    }
}

/// `GitignoreBuilder::build`: the matcher of the entries stored so far.
/// Without entries it is `Gitignore::empty()`, whose root is empty; with
/// some, it fails exactly when their globs do not combine into a set.
#[verifier::external_body]
fn build_gitignore(b: &ignore::gitignore::GitignoreBuilder) -> (r: Result<
    ignore::gitignore::Gitignore,
    ignore::Error,
>)
    ensures
        r is Ok == (builder_lines(*b).len() == 0 || spec_ignore_set_builds(builder_lines(*b))),
        r matches Ok(g) ==> (if builder_lines(*b).len() == 0 {
            gitignore_root(g).len() == 0 && gitignore_lines(g).len() == 0
        } else {
            gitignore_root(g) == builder_root(*b) && gitignore_lines(g) == builder_lines(*b)
        }),
{
    b.build()
}

/// Whether the matcher built from `lines` at `root` ignores `path`: never
/// without entries, else as the `ignore` crate decides.
pub open spec fn is_ignored(root: Seq<char>, lines: Seq<Seq<char>>, path: Seq<char>, is_dir: bool) -> bool {
    lines.len() > 0 && spec_ignores(root, lines, path, is_dir)
}

/// `Gitignore::matched(path, is_dir).is_ignore()`. A matcher without
/// entries has an empty glob set and matches nothing.
#[verifier::external_body]
fn gitignore_ignores(g: &ignore::gitignore::Gitignore, path: &str, is_dir: bool) -> (r: bool)
    ensures
        r == spec_ignores(gitignore_root(*g), gitignore_lines(*g), path@, is_dir),
        gitignore_lines(*g).len() == 0 ==> !r,
{
    g.matched(path, is_dir).is_ignore()
}

// ---------------------------------------------------------------------------
// Watch events
// ---------------------------------------------------------------------------
/// Watch event types.
#[derive(Debug, Clone)]
pub enum WatchEvent {
    /// File was created
    Created(String),
    /// File was modified
    Modified(String),
    /// File was deleted
    Deleted(String),
    /// Multiple files changed (batch)
    Batch(Vec<String>),
}

pub open spec fn path_views(v: Seq<String>) -> Seq<Seq<char>> {
    v.map_values(|s: String| s@)
}

/// The paths an event carries.
pub open spec fn event_paths(e: WatchEvent) -> Seq<Seq<char>> {
    match e {
        WatchEvent::Created(p) => seq![p@],
        WatchEvent::Modified(p) => seq![p@],
        WatchEvent::Deleted(p) => seq![p@],
        WatchEvent::Batch(ps) => path_views(ps@),
    }
}

impl WatchEvent {
    /// Get all file paths from this event.
    pub fn paths(&self) -> (r: Vec<&str>)
        ensures
            r@.map_values(|s: &str| s@) == event_paths(*self),
    {
        match self {
            WatchEvent::Created(p) | WatchEvent::Modified(p) | WatchEvent::Deleted(p) => {
                let r = vec![p.as_str()];
                assert(r@.map_values(|s: &str| s@) =~= event_paths(*self));
                r
            },
            WatchEvent::Batch(ps) => {
                let mut r: Vec<&str> = Vec::new();
                let mut i: usize = 0;
                while i < ps.len()
                    invariant
                        i <= ps.len(),
                        r@.len() == i,
                        forall|k: int| 0 <= k < i ==> (#[trigger] r@[k])@ == ps@[k]@,
                    decreases ps.len() - i,
                {
                    r.push(ps[i].as_str());
                    i += 1;
                }
                assert(r@.map_values(|s: &str| s@) =~= path_views(ps@));
                r
            },
        }
    }

    /// Check if event should trigger review: every event but a deletion.
    pub fn should_trigger_review(&self) -> (b: bool)
        ensures
            b == !(*self is Deleted),
    {
        match self {
            WatchEvent::Modified(_) | WatchEvent::Created(_) | WatchEvent::Batch(_) => true,
            WatchEvent::Deleted(_) => false,
        }
    }
}

/// The kind of a file-system event, as far as the watcher tells kinds apart.
#[derive(Debug, Clone, Copy, PartialEq, Eq, Structural)]
pub enum ChangeKind {
    Create,
    Modify,
    Remove,
    Other,
}

// ---------------------------------------------------------------------------
// Watch patterns
// ---------------------------------------------------------------------------
/// The glob `p[i..]` matches all of `s[j..]`: `**/` matches any run of
/// whole directories (none included), another `**` any run of characters,
/// `*` any run of characters without `/`, `?` one character other than
/// `/`, and any other character itself.
pub open spec fn glob_at(p: Seq<char>, i: int, s: Seq<char>, j: int) -> bool
    decreases p.len() - i, s.len() - j, 0int,
{
    if i < 0 || j < 0 || i > p.len() || j > s.len() {
        false
    } else if i == p.len() {
        j == s.len()
    } else if p[i] == '*' && i + 1 < p.len() && p[i + 1] == '*' {
        if i + 2 < p.len() && p[i + 2] == '/' {
            glob_at(p, i + 3, s, j) || any_then(p, i + 2, s, j)
        } else {
            any_then(p, i + 2, s, j)
        }
    } else if p[i] == '*' {
        segment_then(p, i + 1, s, j)
    } else if p[i] == '?' {
        j < s.len() && s[j] != '/' && glob_at(p, i + 1, s, j + 1)
    } else {
        j < s.len() && s[j] == p[i] && glob_at(p, i + 1, s, j + 1)
    }
}

/// Some run of characters of `s` from `j` on, then the glob `p[i..]`.
pub open spec fn any_then(p: Seq<char>, i: int, s: Seq<char>, j: int) -> bool
    decreases p.len() - i, s.len() - j, 1int,
{
    if i < 0 || j < 0 || i > p.len() || j > s.len() {
        false
    } else {
        glob_at(p, i, s, j) || (j < s.len() && any_then(p, i, s, j + 1))
    }
}

/// Some run of characters other than `/` of `s` from `j` on, then the
/// glob `p[i..]`.
pub open spec fn segment_then(p: Seq<char>, i: int, s: Seq<char>, j: int) -> bool
    decreases p.len() - i, s.len() - j, 1int,
{
    if i < 0 || j < 0 || i > p.len() || j > s.len() {
        false
    } else {
        glob_at(p, i, s, j) || (j < s.len() && s[j] != '/' && segment_then(p, i, s, j + 1))
    }
}

/// A watch pattern matches a path: a pattern with `**` as a glob matching
/// the whole path, any other pattern by occurring in the path.
pub open spec fn pattern_matches(pattern: Seq<char>, path: Seq<char>) -> bool {
    if contains(pattern, "**"@) {
        glob_at(pattern, 0, path, 0)
    } else {
        contains(path, pattern)
    }
}

fn glob_from(p: &Vec<char>, i: usize, s: &Vec<char>, j: usize) -> (b: bool)
    requires
        i <= p.len(),
        j <= s.len(),
    ensures
        b == glob_at(p@, i as int, s@, j as int),
    decreases p.len() - i, s.len() - j, 0usize,
{
    if i == p.len() {
        j == s.len()
    } else if p[i] == '*' && i + 1 < p.len() && p[i + 1] == '*' {
        if i + 2 < p.len() && p[i + 2] == '/' {
            glob_from(p, i + 3, s, j) || any_from(p, i + 2, s, j)
        } else {
            any_from(p, i + 2, s, j)
        }
    } else if p[i] == '*' {
        segment_from(p, i + 1, s, j)
    } else if p[i] == '?' {
        j < s.len() && s[j] != '/' && glob_from(p, i + 1, s, j + 1)
    } else {
        j < s.len() && s[j] == p[i] && glob_from(p, i + 1, s, j + 1)
    }
}

fn any_from(p: &Vec<char>, i: usize, s: &Vec<char>, j: usize) -> (b: bool)
    requires
        i <= p.len(),
        j <= s.len(),
    ensures
        b == any_then(p@, i as int, s@, j as int),
    decreases p.len() - i, s.len() - j, 1usize,
{
    glob_from(p, i, s, j) || (j < s.len() && any_from(p, i, s, j + 1))
}

fn segment_from(p: &Vec<char>, i: usize, s: &Vec<char>, j: usize) -> (b: bool)
    requires
        i <= p.len(),
        j <= s.len(),
    ensures
        b == segment_then(p@, i as int, s@, j as int),
    decreases p.len() - i, s.len() - j, 1usize,
{
    glob_from(p, i, s, j) || (j < s.len() && s[j] != '/' && segment_from(p, i, s, j + 1))
}

/// A path passes the watch patterns: there are none, or one matches.
pub open spec fn passes_patterns(patterns: Seq<Seq<char>>, path: Seq<char>) -> bool {
    patterns.len() == 0 || exists|i: int| 0 <= i < patterns.len() && pattern_matches(#[trigger] patterns[i], path)
}

/// Whether a watch pattern matches a path.
pub fn watch_pattern_matches(pattern: &str, path: &str) -> (b: bool)
    ensures
        b == pattern_matches(pattern@, path@),
{
    let pc = chars_of(pattern);
    let sc = chars_of(path);
    let stars = chars_of("**");
    if contains_chars(&pc, &stars) {
        proof {
            reveal_strlit("**");
        }
        glob_from(&pc, 0, &sc, 0)
    } else {
        contains_chars(&sc, &pc)
    }
}

/// Whether a path passes a list of watch patterns.
pub fn passes_watch_patterns(patterns: &Vec<String>, path: &str) -> (b: bool)
    ensures
        b == passes_patterns(path_views(patterns@), path@),
{
    if patterns.len() == 0 {
        return true;
    }
    let mut i: usize = 0;
    while i < patterns.len()
        invariant
            i <= patterns.len(),
            forall|k: int| 0 <= k < i ==> !pattern_matches(#[trigger] path_views(patterns@)[k], path@),
        decreases patterns.len() - i,
    {
        if watch_pattern_matches(patterns[i].as_str(), path) {
            assert(pattern_matches(path_views(patterns@)[i as int], path@));
            return true;
        }
        i += 1;
    }
    false
}

// ---------------------------------------------------------------------------
// The watcher's filter
// ---------------------------------------------------------------------------
/// Errors of setting up a watcher.
#[derive(Debug)]
pub enum WatchError {
    /// An ignore pattern did not parse, or the patterns did not combine.
    Ignore(ignore::Error),
}

/// The part of a file watcher that decides which changes matter: the
/// watched directory, its gitignore matcher and the watch patterns.
#[derive(Debug)]
pub struct FileWatcher {
    watch_dir: String,
    gitignore: ignore::gitignore::Gitignore,
    watch_patterns: Vec<String>,
}

/// The paths among `paths` that a watcher with these rules keeps.
pub open spec fn kept_paths(
    root: Seq<char>,
    lines: Seq<Seq<char>>,
    patterns: Seq<Seq<char>>,
    paths: Seq<Seq<char>>,
    dirs: Seq<bool>,
) -> Seq<Seq<char>>
    decreases paths.len(),
{
    if paths.len() == 0 || dirs.len() == 0 {
        Seq::empty()
    } else {
        let rest = kept_paths(root, lines, patterns, paths.drop_last(), dirs.drop_last());
        let p = paths.last();
        if !is_ignored(root, lines, p, dirs.last()) && passes_patterns(patterns, p) {
            rest.push(p)
        } else {
            rest
        }
    }
}

/// The event `e` stands for a change of `kind` to the paths `kept`.
pub open spec fn event_matches(e: WatchEvent, kind: ChangeKind, kept: Seq<Seq<char>>) -> bool {
    if kept.len() == 1 {
        match kind {
            ChangeKind::Create => e matches WatchEvent::Created(p) && p@ == kept[0],
            ChangeKind::Modify => e matches WatchEvent::Modified(p) && p@ == kept[0],
            ChangeKind::Remove => e matches WatchEvent::Deleted(p) && p@ == kept[0],
            ChangeKind::Other => false,
        }
    } else {
        e matches WatchEvent::Batch(ps) && path_views(ps@) == kept
    }
}

impl FileWatcher {
    pub closed spec fn dir(&self) -> Seq<char> {
        self.watch_dir@
    }

    pub closed spec fn patterns(&self) -> Seq<Seq<char>> {
        path_views(self.watch_patterns@)
    }

    pub closed spec fn ignore_root(&self) -> Seq<char> {
        gitignore_root(self.gitignore)
    }

    pub closed spec fn ignore_lines(&self) -> Seq<Seq<char>> {
        gitignore_lines(self.gitignore)
    }

    /// Create a new file watcher: the ignore patterns become gitignore
    /// entries rooted at the watched directory. It fails on the first
    /// pattern whose glob does not parse, or when the entries do not
    /// combine.
    pub fn new(watch_dir: String, watch_patterns: Vec<String>, ignore_patterns: Vec<String>) -> (r:
        Result<Self, WatchError>)
        ensures
            r is Ok == ((forall|i: int|
                0 <= i < ignore_patterns@.len() && (#[trigger] ignore_entry(
                    path_views(ignore_patterns@)[i],
                )) is Some ==> spec_ignore_line_accepted(
                    ignore_entry(path_views(ignore_patterns@)[i])->0,
                )) && (ignore_entries(path_views(ignore_patterns@)).len() == 0
                || spec_ignore_set_builds(ignore_entries(path_views(ignore_patterns@))))),
            r matches Ok(w) ==> w.dir() == watch_dir@ && w.patterns() == path_views(watch_patterns@)
                && w.ignore_lines() == ignore_entries(path_views(ignore_patterns@))
                && w.ignore_root() == (if ignore_entries(path_views(ignore_patterns@)).len() == 0 {
                    Seq::<char>::empty()
                } else {
                    stripped_root(watch_dir@)
                }),
    {
        let ghost pv = path_views(ignore_patterns@);
        let mut builder = gitignore_builder(watch_dir.as_str());
        let mut i: usize = 0;
        while i < ignore_patterns.len()
            invariant
                i <= ignore_patterns.len(),
                pv == path_views(ignore_patterns@),
                builder_root(builder) == stripped_root(watch_dir@),
                builder_lines(builder) == ignore_entries(pv.take(i as int)),
                forall|k: int|
                    0 <= k < i && (#[trigger] ignore_entry(pv[k])) is Some ==> spec_ignore_line_accepted(
                        ignore_entry(pv[k])->0,
                    ),
            decreases ignore_patterns.len() - i,
        {
            assert(pv.take(i + 1).drop_last() =~= pv.take(i as int));
            assert(pv.take(i + 1).last() == pv[i as int]);
            match add_ignore_line(&mut builder, ignore_patterns[i].as_str()) {
                Ok(()) => {},
                Err(e) => {
                    assert(ignore_entry(pv[i as int]) is Some);
                    assert(!spec_ignore_line_accepted(ignore_entry(pv[i as int])->0));
                    return Err(WatchError::Ignore(e));
                },
            }
            i += 1;
        }
        assert(pv.take(i as int) =~= pv);
        match build_gitignore(&builder) {
            Ok(gitignore) => Ok(FileWatcher { watch_dir, gitignore, watch_patterns }),
            Err(e) => Err(WatchError::Ignore(e)),
        }
    }

    /// The watched directory.
    pub fn watch_dir(&self) -> (r: &str)
        ensures
            r@ == self.dir(),
    {
        self.watch_dir.as_str()
    }

    /// Whether a changed path is kept: not ignored, and passing the watch
    /// patterns.
    pub fn keeps(&self, path: &str, is_dir: bool) -> (b: bool)
        ensures
            b == (!is_ignored(self.ignore_root(), self.ignore_lines(), path@, is_dir)
                && passes_patterns(self.patterns(), path@)),
    {
        !gitignore_ignores(&self.gitignore, path, is_dir) && passes_watch_patterns(
            &self.watch_patterns,
            path,
        )
    }

    /// The watch event for a file-system event of `kind` on `paths`
    /// (`is_dir[i]` telling whether `paths[i]` is a directory), if any.
    pub fn event_for(&self, kind: ChangeKind, paths: Vec<String>, is_dir: Vec<bool>) -> (r: Option<
        WatchEvent,
    >)
        requires
            paths@.len() == is_dir@.len(),
        ensures
            ({
                let kept = kept_paths(
                    self.ignore_root(),
                    self.ignore_lines(),
                    self.patterns(),
                    path_views(paths@),
                    is_dir@,
                );
                match r {
                    None => kept.len() == 0 || kind is Other,
                    Some(e) => kept.len() > 0 && !(kind is Other) && event_matches(e, kind, kept),
                }
            }),
    {
        let ghost root = self.ignore_root();
        let ghost lines = self.ignore_lines();
        let ghost pats = self.patterns();
        let mut kept: Vec<String> = Vec::new();
        let mut i: usize = 0;
        while i < paths.len()
            invariant
                i <= paths.len(),
                paths@.len() == is_dir@.len(),
                root == self.ignore_root(),
                lines == self.ignore_lines(),
                pats == self.patterns(),
                path_views(kept@) == kept_paths(
                    root,
                    lines,
                    pats,
                    path_views(paths@).take(i as int),
                    is_dir@.take(i as int),
                ),
            decreases paths.len() - i,
        {
            assert(path_views(paths@).take(i + 1).drop_last() =~= path_views(paths@).take(i as int));
            assert(is_dir@.take(i + 1).drop_last() =~= is_dir@.take(i as int));
            if self.keeps(paths[i].as_str(), is_dir[i]) {
                kept.push(owned(paths[i].as_str()));
                assert(path_views(kept@) =~= path_views(kept@).drop_last().push(paths@[i as int]@));
            }
            i += 1;
        }
        assert(path_views(paths@).take(i as int) =~= path_views(paths@));
        assert(is_dir@.take(i as int) =~= is_dir@);
        if kept.len() == 0 {
            return None;
        }
        if kept.len() == 1 {
            let p = owned(kept[0].as_str());
            match kind {
                ChangeKind::Create => Some(WatchEvent::Created(p)),
                ChangeKind::Modify => Some(WatchEvent::Modified(p)),
                ChangeKind::Remove => Some(WatchEvent::Deleted(p)),
                ChangeKind::Other => None,
            }
        } else {
            match kind {
                ChangeKind::Other => None,
                _ => Some(WatchEvent::Batch(kept)),
            }
        }
    }
}

} // verus!
