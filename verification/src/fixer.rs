//! Auto-fix functionality for code issues.
use vstd::prelude::*;
use crate::analyzer::{
    issue_views, suggestion_views, AnalysisResult, Issue, IssueCategory, IssueView, Suggestion,
    SuggestionType, SuggestionView,
};
use crate::config::ReviewPolicy;
use crate::text::{
    byte_len, byte_len_exceeds, chars_in_first_bytes, chars_of, contains, extend_chars,
    is_whitespace, join, join_all, join_range, lemma_byte_len_push, lemma_trim_end_is_prefix,
    lines, lines_of, owned, slice_chars, starts_with, str_contains, str_starts_with, string_of,
    trim, trim_end, trim_start, trimmed, trimmed_end, trimmed_start, views,
};

verus! {

// ---------------------------------------------------------------------------
// Specifications of the individual fixes
// ---------------------------------------------------------------------------
/// `s` with every line stripped of trailing whitespace, joined by `'\n'`.
pub open spec fn spec_fix_trailing_whitespace(s: Seq<char>) -> Seq<char> {
    join(trim_end_lines(lines(s)), "\n"@)
}

/// Every line of `ls` without its trailing whitespace.
pub open spec fn trim_end_lines(ls: Seq<Seq<char>>) -> Seq<Seq<char>>
    decreases ls.len(),
{
    if ls.len() == 0 {
        seq![]
    } else {
        trim_end_lines(ls.drop_last()).push(trim_end(ls.last()))
    }
}

/// Fixing trailing whitespace keeps every line's text up to its last
/// character that is not whitespace, leading whitespace included: each
/// fixed line is a prefix of its line, what it drops is whitespace only,
/// and it does not end in whitespace; a line that does not end in
/// whitespace is kept as it is. No line is added or lost.
pub proof fn lemma_trailing_whitespace_only(ls: Seq<Seq<char>>)
    ensures
        trim_end_lines(ls).len() == ls.len(),
        forall|i: int|
            0 <= i < ls.len() ==> {
                let o = #[trigger] trim_end_lines(ls)[i];
                &&& o.len() <= ls[i].len()
                &&& o == ls[i].take(o.len() as int)
                &&& forall|j: int| o.len() <= j < ls[i].len() ==> is_whitespace(ls[i][j])
                &&& o.len() > 0 ==> !is_whitespace(o.last())
                &&& (ls[i].len() == 0 || !is_whitespace(ls[i].last())) ==> o == ls[i]
            },
    decreases ls.len(),
{
    if ls.len() > 0 {
        let pre = ls.drop_last();
        lemma_trailing_whitespace_only(pre);
        lemma_trim_end_is_prefix(ls.last());
        let t = trim_end_lines(ls);
        assert forall|i: int| 0 <= i < ls.len() implies {
            let o = #[trigger] trim_end_lines(ls)[i];
            &&& o.len() <= ls[i].len()
            &&& o == ls[i].take(o.len() as int)
            &&& forall|j: int| o.len() <= j < ls[i].len() ==> is_whitespace(ls[i][j])
            &&& o.len() > 0 ==> !is_whitespace(o.last())
            &&& (ls[i].len() == 0 || !is_whitespace(ls[i].last())) ==> o == ls[i]
        } by {
            if i < ls.len() - 1 {
                assert(t[i] == trim_end_lines(pre)[i]);
                assert(ls[i] == pre[i]);
            } else {
                let l = ls.last();
                assert(t[i] == trim_end(l));
                if l.len() == 0 || !is_whitespace(l.last()) {
                    assert(trim_end(l) == l);
                }
            }
        }
    }
}

/// A character at which a long line may be broken.
pub open spec fn is_break_char(c: char) -> bool {
    c == ',' || c == '.' || c == ' '
}

/// Index of the last break character of `s`.
pub open spec fn last_break(s: Seq<char>) -> Option<int>
    decreases s.len(),
{
    if s.len() == 0 {
        None
    } else if is_break_char(s.last()) {
        Some(s.len() - 1)
    } else {
        last_break(s.drop_last())
    }
}

/// Byte 100 of `line` falls on a character boundary (so `&line[..100]` is
/// defined).
pub open spec fn has_boundary_at_100(line: Seq<char>) -> bool {
    exists|k: int| 0 <= k <= line.len() && #[trigger] byte_len(line.take(k)) == 100
}

/// The number of characters in the first 100 bytes of `line`.
pub open spec fn first_100_bytes(line: Seq<char>) -> int {
    choose|k: int| 0 <= k <= line.len() && #[trigger] byte_len(line.take(k)) == 100
}

/// A long line broken after its last `,`, `.` or space within the first
/// 100 bytes: the head loses trailing whitespace, the tail leading
/// whitespace, and the tail goes on a new line indented by four spaces.
/// Without such a character the line stays as it is.
pub open spec fn spec_break_long_line(line: Seq<char>) -> Seq<char> {
    match last_break(line.take(first_100_bytes(line))) {
        Some(j) => trim_end(line.take(j + 1)) + "\n    "@ + trim_start(line.skip(j + 1)),
        None => line,
    }
}

/// The long-line fix for the line numbered `number` (from 1) of `s`:
/// `None` where breaking the line would slice inside a character.
pub open spec fn spec_fix_long_lines(s: Seq<char>, number: Option<usize>) -> Option<Seq<char>> {
    let ls = lines(s);
    match number {
        Some(n) => if 0 < n <= ls.len() && byte_len(ls[n - 1]) > 100 {
            if has_boundary_at_100(ls[n - 1]) {
                Some(
                    join(ls.take(n - 1), "\n"@) + "\n"@ + spec_break_long_line(ls[n - 1]) + "\n"@
                        + join(ls.skip(n as int), "\n"@),
                )
            } else {
                None
            }
        } else {
            Some(s)
        },
        None => Some(s),
    }
}

/// The leading whitespace of a line.
pub open spec fn indentation(l: Seq<char>) -> Seq<char> {
    l.take(l.len() - trim_start(l).len())
}

/// A `/// TODO` documentation line inserted before the line numbered
/// `number` (from 1), with that line's indentation.
pub open spec fn spec_add_documentation(s: Seq<char>, number: Option<usize>) -> Seq<char> {
    let ls = lines(s);
    match number {
        Some(n) => if 0 < n <= ls.len() {
            join(ls.take(n - 1), "\n"@) + "\n"@ + indentation(ls[n - 1])
                + "/// TODO: Add documentation\n"@ + join(ls.skip(n - 1), "\n"@)
        } else {
            s
        },
        None => s,
    }
}

/// The fix one issue calls for: `None` where it would slice inside a
/// character.
pub open spec fn style_fix_step(s: Seq<char>, issue: IssueView) -> Option<Seq<char>> {
    if issue.category != IssueCategory::Style {
        Some(s)
    } else if contains(issue.description, "exceeds 100 characters"@) {
        spec_fix_long_lines(s, issue.line)
    } else if contains(issue.description, "trailing whitespace"@) {
        Some(spec_fix_trailing_whitespace(s))
    } else if contains(issue.description, "missing documentation"@) {
        Some(spec_add_documentation(s, issue.line))
    } else {
        Some(s)
    }
}

/// The style fixes of `issues` applied in order; `None` where one of them
/// would slice inside a character.
pub open spec fn spec_style_fixes(s: Seq<char>, issues: Seq<IssueView>) -> Option<Seq<char>>
    decreases issues.len(),
{
    if issues.len() == 0 {
        Some(s)
    } else {
        match spec_style_fixes(s, issues.drop_last()) {
            Some(t) => style_fix_step(t, issues.last()),
            None => None,
        }
    }
}

/// A line that imports with `use`.
pub open spec fn is_use_line(l: Seq<char>) -> bool {
    starts_with(trim(l), "use "@)
}

/// Some line of `ls` trims to `t`.
pub open spec fn trims_to(ls: Seq<Seq<char>>, t: Seq<char>) -> bool {
    exists|j: int| 0 <= j < ls.len() && trim(#[trigger] ls[j]) == t
}

/// The lines of `ls` without the `use` lines whose trimmed text appeared on
/// an earlier line.
pub open spec fn dedup_use_lines(ls: Seq<Seq<char>>) -> Seq<Seq<char>>
    decreases ls.len(),
{
    if ls.len() == 0 {
        seq![]
    } else if is_use_line(ls.last()) && trims_to(ls.drop_last(), trim(ls.last())) {
        dedup_use_lines(ls.drop_last())
    } else {
        dedup_use_lines(ls.drop_last()).push(ls.last())
    }
}

/// Duplicate `use` lines removed, the rest joined by `'\n'`.
pub open spec fn spec_optimize_imports(s: Seq<char>) -> Seq<char> {
    join(dedup_use_lines(lines(s)), "\n"@)
}

/// The content after one suggestion is applied.
pub open spec fn spec_apply_suggestion(s: Seq<char>, sg: SuggestionView) -> Seq<char> {
    if sg.suggestion_type == SuggestionType::OptimizeImports {
        spec_optimize_imports(s)
    } else {
        s
    }
}

/// The policy lets a suggestion of this type be applied without approval.
pub open spec fn spec_should_auto_apply(p: ReviewPolicy, t: SuggestionType) -> bool {
    match t {
        SuggestionType::AddComment => p.auto_add_comments,
        SuggestionType::AddTest => p.auto_add_tests,
        SuggestionType::Refactor => p.auto_refactor,
        SuggestionType::OptimizeImports => p.auto_fix_style,
        _ => false,
    }
}

/// The suggestion is confident enough and allowed by the policy.
pub open spec fn applies(p: ReviewPolicy, sg: SuggestionView) -> bool {
    sg.confidence >= p.confidence_threshold && spec_should_auto_apply(p, sg.suggestion_type)
}

/// The suggestions of `ss` that the policy applies, in order.
pub open spec fn applied_suggestions(p: ReviewPolicy, ss: Seq<SuggestionView>) -> Seq<
    SuggestionView,
>
    decreases ss.len(),
{
    if ss.len() == 0 {
        seq![]
    } else if applies(p, ss.last()) {
        applied_suggestions(p, ss.drop_last()).push(ss.last())
    } else {
        applied_suggestions(p, ss.drop_last())
    }
}

/// The content after the applied suggestions, in order.
pub open spec fn after_suggestions(p: ReviewPolicy, s: Seq<char>, ss: Seq<SuggestionView>) -> Seq<
    char,
>
    decreases ss.len(),
{
    if ss.len() == 0 {
        s
    } else if applies(p, ss.last()) {
        spec_apply_suggestion(after_suggestions(p, s, ss.drop_last()), ss.last())
    } else {
        after_suggestions(p, s, ss.drop_last())
    }
}

/// Number of style issues.
pub open spec fn count_style(issues: Seq<IssueView>) -> nat
    decreases issues.len(),
{
    if issues.len() == 0 {
        0
    } else {
        count_style(issues.drop_last()) + if issues.last().category == IssueCategory::Style {
            1nat
        } else {
            0nat
        }
    }
}

/// The content after the style fixes (when the policy fixes style).
pub open spec fn after_style(p: ReviewPolicy, s: Seq<char>, issues: Seq<IssueView>) -> Seq<char> {
    if p.auto_fix_style {
        spec_style_fixes(s, issues)->0
    } else {
        s
    }
}

/// The content that fixing produces.
pub open spec fn spec_fixed_content(
    p: ReviewPolicy,
    s: Seq<char>,
    issues: Seq<IssueView>,
    ss: Seq<SuggestionView>,
) -> Seq<char> {
    after_suggestions(p, after_style(p, s, issues), ss)
}

// ---------------------------------------------------------------------------
// Proof helpers
// ---------------------------------------------------------------------------
proof fn lemma_byte_len_strictly_increasing(s: Seq<char>, a: int, b: int)
    requires
        0 <= a < b <= s.len(),
    ensures
        byte_len(s.take(a)) < byte_len(s.take(b)),
    decreases b - a,
{
    assert(s.take(b) =~= s.take(b - 1).push(s[b - 1]));
    lemma_byte_len_push(s.take(b - 1), s[b - 1]);
    if a < b - 1 {
        lemma_byte_len_strictly_increasing(s, a, b - 1);
    }
}

proof fn lemma_first_100_unique(s: Seq<char>, k: int)
    requires
        0 <= k <= s.len(),
        byte_len(s.take(k)) == 100,
    ensures
        first_100_bytes(s) == k,
        has_boundary_at_100(s),
{
    let c = first_100_bytes(s);
    assert(has_boundary_at_100(s));
    if c < k {
        lemma_byte_len_strictly_increasing(s, c, k);
    } else if k < c {
        lemma_byte_len_strictly_increasing(s, k, c);
    }
}

// ---------------------------------------------------------------------------
// Executable fixes
// ---------------------------------------------------------------------------
fn last_break_in(s: &Vec<char>, k: usize) -> (r: Option<usize>)
    requires
        k <= s.len(),
    ensures
        match r {
            Some(j) => last_break(s@.take(k as int)) == Some(j as int) && j < k,
            None => last_break(s@.take(k as int)) is None,
        },
{
    let mut i = k;
    while i > 0
        invariant
            i <= k <= s.len(),
            last_break(s@.take(k as int)) == last_break(s@.take(i as int)),
        decreases i,
    {
        let c = s[i - 1];
        assert(s@.take(i as int).last() == c);
        if c == ',' || c == '.' || c == ' ' {
            return Some(i - 1);
        }
        assert(s@.take(i as int).drop_last() =~= s@.take(i - 1));
        i -= 1;
    }
    None
}

fn break_chars(line: &Vec<char>, k: usize) -> (r: Vec<char>)
    requires
        k <= line.len(),
        byte_len(line@.take(k as int)) == 100,
    ensures
        r@ == spec_break_long_line(line@),
{
    proof {
        lemma_first_100_unique(line@, k as int);
    }
    match last_break_in(line, k) {
        Some(j) => {
            let head = slice_chars(line, 0, j + 1);
            let tail = slice_chars(line, j + 1, line.len());
            assert(head@ =~= line@.take(j + 1));
            assert(tail@ =~= line@.skip(j + 1));
            let mut r = trimmed_end(&head);
            let sep = chars_of("\n    ");
            extend_chars(&mut r, &sep);
            let t = trimmed_start(&tail);
            extend_chars(&mut r, &t);
            r
        },
        None => {
            let r = slice_chars(line, 0, line.len());
            assert(r@ =~= line@);
            r
        },
    }
}

fn copy_chars(s: &Vec<char>) -> (r: Vec<char>)
    ensures
        r@ == s@,
{
    let r = slice_chars(s, 0, s.len());
    assert(r@ =~= s@);
    r
}

fn fix_trailing_whitespace_chars(s: &Vec<char>) -> (r: Vec<char>)
    ensures
        r@ == spec_fix_trailing_whitespace(s@),
{
    let ls = lines_of(s);
    let mut out: Vec<Vec<char>> = Vec::new();
    let mut i: usize = 0;
    while i < ls.len()
        invariant
            i <= ls.len(),
            views(out@) == trim_end_lines(views(ls@).take(i as int)),
        decreases ls.len() - i,
    {
        assert(views(ls@).take(i + 1).drop_last() =~= views(ls@).take(i as int));
        let ghost before = views(out@);
        out.push(trimmed_end(&ls[i]));
        assert(views(out@) =~= before.push(trim_end(ls@[i as int]@)));
        i += 1;
    }
    assert(views(ls@).take(i as int) =~= views(ls@));
    join_all(&out, "\n")
}

fn fix_long_lines_chars(s: &Vec<char>, number: Option<usize>) -> (r: Option<Vec<char>>)
    ensures
        match r {
            Some(v) => spec_fix_long_lines(s@, number) == Some(v@),
            None => spec_fix_long_lines(s@, number) is None,
        },
{
    match number {
        None => Some(copy_chars(s)),
        Some(n) => {
            let ls = lines_of(s);
            if n > 0 && n <= ls.len() && byte_len_exceeds(&ls[n - 1], 100) {
                match chars_in_first_bytes(&ls[n - 1], 100) {
                    Some(k) => {
                        let nl = chars_of("\n");
                        let mut r = join_range(&ls, 0, n - 1, &nl);
                        r.push('\n');
                        let b = break_chars(&ls[n - 1], k);
                        extend_chars(&mut r, &b);
                        r.push('\n');
                        let tail = join_range(&ls, n, ls.len(), &nl);
                        extend_chars(&mut r, &tail);
                        proof {
                            lemma_first_100_unique(ls@[n - 1]@, k as int);
                            assert(views(ls@).subrange(0, n - 1) =~= views(ls@).take(n - 1));
                            assert(views(ls@).subrange(n as int, ls.len() as int) =~= views(
                                ls@,
                            ).skip(n as int));
                            reveal_strlit("\n");
                            assert(r@ =~= join(views(ls@).take(n - 1), "\n"@) + "\n"@
                                + spec_break_long_line(ls@[n - 1]@) + "\n"@ + join(
                                views(ls@).skip(n as int),
                                "\n"@,
                            ));
                        }
                        Some(r)
                    },
                    None => {
                        assert(!has_boundary_at_100(ls@[n - 1]@));
                        None
                    },
                }
            } else {
                Some(copy_chars(s))
            }
        },
    }
}

fn add_documentation_chars(s: &Vec<char>, number: Option<usize>) -> (r: Vec<char>)
    ensures
        r@ == spec_add_documentation(s@, number),
{
    match number {
        None => copy_chars(s),
        Some(n) => {
            let ls = lines_of(s);
            if n > 0 && n <= ls.len() {
                let nl = chars_of("\n");
                let mut r = join_range(&ls, 0, n - 1, &nl);
                r.push('\n');
                let line = &ls[n - 1];
                let a = crate::text::trim_start_index(line, 0, line.len());
                let indent = slice_chars(line, 0, a);
                extend_chars(&mut r, &indent);
                let todo = chars_of("/// TODO: Add documentation\n");
                extend_chars(&mut r, &todo);
                let tail = join_range(&ls, n - 1, ls.len(), &nl);
                extend_chars(&mut r, &tail);
                proof {
                    assert(line@.subrange(0, line@.len() as int) =~= line@);
                    assert(indent@ =~= indentation(line@));
                    assert(views(ls@).subrange(0, n - 1) =~= views(ls@).take(n - 1));
                    assert(views(ls@).subrange(n - 1, ls.len() as int) =~= views(ls@).skip(
                        n - 1,
                    ));
                    reveal_strlit("\n");
                    assert(r@ =~= join(views(ls@).take(n - 1), "\n"@) + "\n"@ + indentation(
                        ls@[n - 1]@,
                    ) + "/// TODO: Add documentation\n"@ + join(views(ls@).skip(n - 1), "\n"@));
                }
                r
            } else {
                copy_chars(s)
            }
        },
    }
}

fn style_fix_step_chars(s: &Vec<char>, issue: &Issue) -> (r: Option<Vec<char>>)
    ensures
        match r {
            Some(v) => style_fix_step(s@, issue@) == Some(v@),
            None => style_fix_step(s@, issue@) is None,
        },
{
    if issue.category != IssueCategory::Style {
        return Some(copy_chars(s));
    }
    let desc = chars_of(issue.description.as_str());
    if str_contains(&desc, "exceeds 100 characters") {
        fix_long_lines_chars(s, issue.line)
    } else if str_contains(&desc, "trailing whitespace") {
        Some(fix_trailing_whitespace_chars(s))
    } else if str_contains(&desc, "missing documentation") {
        Some(add_documentation_chars(s, issue.line))
    } else {
        Some(copy_chars(s))
    }
}

fn style_fixes_chars(s: &Vec<char>, issues: &Vec<Issue>) -> (r: Option<Vec<char>>)
    ensures
        match r {
            Some(v) => spec_style_fixes(s@, issue_views(issues@)) == Some(v@),
            None => spec_style_fixes(s@, issue_views(issues@)) is None,
        },
{
    let mut cur = copy_chars(s);
    let mut i: usize = 0;
    while i < issues.len()
        invariant
            i <= issues.len(),
            spec_style_fixes(s@, issue_views(issues@).take(i as int)) == Some(cur@),
        decreases issues.len() - i,
    {
        assert(issue_views(issues@).take(i + 1).drop_last() =~= issue_views(issues@).take(
            i as int,
        ));
        assert(issue_views(issues@).take(i + 1).last() == issues@[i as int]@);
        match style_fix_step_chars(&cur, &issues[i]) {
            Some(next) => {
                cur = next;
            },
            None => {
                proof {
                    lemma_style_fixes_none_stays(s@, issue_views(issues@), i + 1);
                }
                return None;
            },
        }
        i += 1;
    }
    assert(issue_views(issues@).take(i as int) =~= issue_views(issues@));
    Some(cur)
}

proof fn lemma_style_fixes_none_stays(s: Seq<char>, issues: Seq<IssueView>, k: int)
    requires
        0 <= k <= issues.len(),
        spec_style_fixes(s, issues.take(k)) is None,
    ensures
        spec_style_fixes(s, issues) is None,
    decreases issues.len() - k,
{
    if k < issues.len() {
        assert(issues.take(k + 1).drop_last() =~= issues.take(k));
        lemma_style_fixes_none_stays(s, issues, k + 1);
    } else {
        assert(issues.take(k) =~= issues);
    }
}

fn trims_to_any(seen: &Vec<Vec<char>>, t: &Vec<char>) -> (b: bool)
    ensures
        b == exists|j: int| 0 <= j < seen.len() && (#[trigger] seen@[j])@ == t@,
{
    let mut j: usize = 0;
    while j < seen.len()
        invariant
            j <= seen.len(),
            forall|k: int| 0 <= k < j ==> (#[trigger] seen@[k])@ != t@,
        decreases seen.len() - j,
    {
        if crate::text::starts_with_chars(&seen[j], t) && seen[j].len() == t.len() {
            assert(seen@[j as int]@ =~= t@);
            return true;
        }
        proof {
            if seen@[j as int]@ == t@ {
                assert(seen@[j as int]@.take(t@.len() as int) =~= t@);
            }
        }
        j += 1;
    }
    false
}

fn optimize_imports_chars(s: &Vec<char>) -> (r: Vec<char>)
    ensures
        r@ == spec_optimize_imports(s@),
{
    let ls = lines_of(s);
    let mut seen: Vec<Vec<char>> = Vec::new();
    let mut kept: Vec<Vec<char>> = Vec::new();
    let mut i: usize = 0;
    while i < ls.len()
        invariant
            i <= ls.len(),
            views(kept@) == dedup_use_lines(views(ls@).take(i as int)),
            forall|t: Seq<char>|
                starts_with(t, "use "@) ==> ((exists|j: int|
                    0 <= j < seen.len() && (#[trigger] seen@[j])@ == t) <==> trims_to(
                    views(ls@).take(i as int),
                    t,
                )),
        decreases ls.len() - i,
    {
        let ghost prefix = views(ls@).take(i as int);
        let ghost next = views(ls@).take(i + 1);
        assert(next.drop_last() =~= prefix);
        assert(next.last() == ls@[i as int]@);
        let t = trimmed(&ls[i]);
        let is_use = str_starts_with(&t, "use ");
        let ghost before = views(kept@);
        if is_use {
            let dup = trims_to_any(&seen, &t);
            if !dup {
                kept.push(copy_chars(&ls[i]));
                assert(views(kept@) =~= before.push(ls@[i as int]@));
            }
            let ghost old_seen = seen@;
            seen.push(t);
            proof {
                assert forall|u: Seq<char>| starts_with(u, "use "@) implies ((exists|j: int|
                    0 <= j < seen.len() && (#[trigger] seen@[j])@ == u) <==> trims_to(next, u)) by {
                    if trims_to(next, u) {
                        let j = choose|j: int| 0 <= j < next.len() && trim(#[trigger] next[j]) == u;
                        if j < i {
                            assert(trims_to(prefix, u));
                            let m = choose|m: int|
                                0 <= m < old_seen.len() && (#[trigger] old_seen[m])@ == u;
                            assert(seen@[m] == old_seen[m]);
                        } else {
                            assert(seen@[old_seen.len() as int]@ == u);
                        }
                    }
                    if exists|j: int| 0 <= j < seen.len() && (#[trigger] seen@[j])@ == u {
                        let m = choose|m: int| 0 <= m < seen.len() && (#[trigger] seen@[m])@ == u;
                        if m < old_seen.len() {
                            assert(old_seen[m] == seen@[m]);
                            assert(trims_to(prefix, u));
                            let j = choose|j: int|
                                0 <= j < prefix.len() && trim(#[trigger] prefix[j]) == u;
                            assert(next[j] == prefix[j]);
                        } else {
                            assert(trim(next[i as int]) == u);
                        }
                    }
                }
            }
        } else {
            kept.push(copy_chars(&ls[i]));
            assert(views(kept@) =~= before.push(ls@[i as int]@));
            proof {
                assert forall|u: Seq<char>| starts_with(u, "use "@) implies ((exists|j: int|
                    0 <= j < seen.len() && (#[trigger] seen@[j])@ == u) <==> trims_to(next, u)) by {
                    if trims_to(next, u) {
                        let j = choose|j: int| 0 <= j < next.len() && trim(#[trigger] next[j]) == u;
                        if j < i {
                            assert(prefix[j] == next[j]);
                            assert(trims_to(prefix, u));
                        }
                    }
                    if trims_to(prefix, u) {
                        let j = choose|j: int| 0 <= j < prefix.len() && trim(#[trigger] prefix[j]) == u;
                        assert(next[j] == prefix[j]);
                    }
                }
            }
        }
        i += 1;
    }
    assert(views(ls@).take(i as int) =~= views(ls@));
    join_all(&kept, "\n")
}

// ---------------------------------------------------------------------------
// Fix reports and the fixer
// ---------------------------------------------------------------------------
/// Fix report.
#[derive(Debug)]
pub struct FixReport {
    pub file_path: String,
    pub changed: bool,
    pub style_fixes_applied: usize,
    pub suggestions_applied: Vec<Suggestion>,
    pub backup_created: bool,
}

impl FixReport {
    pub fn new(file_path: String) -> (r: Self)
        ensures
            r.file_path == file_path,
            !r.changed,
            r.style_fixes_applied == 0,
            r.suggestions_applied@.len() == 0,
            !r.backup_created,
    {
        FixReport {
            file_path,
            changed: false,
            style_fixes_applied: 0,
            suggestions_applied: Vec::new(),
            backup_created: false,
        }
    }

    /// Style fixes plus applied suggestions.
    pub fn total_fixes(&self) -> (n: usize)
        requires
            self.style_fixes_applied + self.suggestions_applied.len() <= usize::MAX,
        ensures
            n == self.style_fixes_applied + self.suggestions_applied.len(),
    {
        self.style_fixes_applied + self.suggestions_applied.len()
    }
}

/// What fixing a file produces: the new content, and the report of what
/// was applied. The file is to be written only when `report.changed`, after
/// a backup when `report.backup_created`.
#[derive(Debug)]
pub struct FixPlan {
    pub content: String,
    pub report: FixReport,
}

/// Code fixer.
pub struct CodeFixer {
    policy: ReviewPolicy,
}

impl CodeFixer {
    /// The policy the fixer follows.
    pub closed spec fn pol(&self) -> ReviewPolicy {
        self.policy
    }

    /// Create a new code fixer.
    pub fn new(policy: ReviewPolicy) -> (f: Self)
        ensures
            f.pol() == policy,
    {
        CodeFixer { policy }
    }

    /// The policy the fixer follows.
    pub fn policy(&self) -> (r: &ReviewPolicy)
        ensures
            *r == self.pol(),
    {
        &self.policy
    }

    /// Fixes a file's content from its analysis: the style fixes (when the
    /// policy fixes style), then each suggestion at or above the confidence
    /// threshold whose type the policy lets through, in order.
    pub fn plan_fixes(&self, file_path: &str, original: &str, result: &AnalysisResult) -> (r:
        FixPlan)
        requires
            self.pol().auto_fix_style ==> spec_style_fixes(
                original@,
                issue_views(result.issues@),
            ) is Some,
        ensures
            r.content@ == spec_fixed_content(
                self.pol(),
                original@,
                issue_views(result.issues@),
                suggestion_views(result.suggestions@),
            ),
            r.report.file_path@ == file_path@,
            r.report.style_fixes_applied == (if self.pol().auto_fix_style {
                count_style(issue_views(result.issues@))
            } else {
                0
            }),
            suggestion_views(r.report.suggestions_applied@) == applied_suggestions(
                self.pol(),
                suggestion_views(result.suggestions@),
            ),
            r.report.changed == (r.content@ != original@),
            r.report.backup_created == (r.report.changed && self.pol().create_backup_branch),
    {
        let mut report = FixReport::new(owned(file_path));
        let orig = chars_of(original);
        let mut content = copy_chars(&orig);
        if self.policy.auto_fix_style {
            let fixed = style_fixes_chars(&content, &result.issues);
            content = fixed.unwrap();
            report.style_fixes_applied = count_style_issues(&result.issues);
        }
        let ghost styled = content@;
        let mut i: usize = 0;
        while i < result.suggestions.len()
            invariant
                i <= result.suggestions.len(),
                content@ == after_suggestions(
                    self.pol(),
                    styled,
                    suggestion_views(result.suggestions@).take(i as int),
                ),
                suggestion_views(report.suggestions_applied@) == applied_suggestions(
                    self.pol(),
                    suggestion_views(result.suggestions@).take(i as int),
                ),
                report.file_path@ == file_path@,
                report.style_fixes_applied == (if self.pol().auto_fix_style {
                    count_style(issue_views(result.issues@))
                } else {
                    0
                }),
                !report.changed,
                !report.backup_created,
            decreases result.suggestions.len() - i,
        {
            let ghost prefix = suggestion_views(result.suggestions@).take(i as int);
            assert(suggestion_views(result.suggestions@).take(i + 1).drop_last() =~= prefix);
            assert(suggestion_views(result.suggestions@).take(i + 1).last()
                == result.suggestions@[i as int]@);
            let s = &result.suggestions[i];
            if s.confidence >= self.policy.confidence_threshold && self.should_auto_apply(s) {
                content = self.apply_suggestion_chars(&content, s);
                let ghost before = suggestion_views(report.suggestions_applied@);
                report.suggestions_applied.push(s.clone());
                assert(suggestion_views(report.suggestions_applied@) =~= before.push(s@));
            }
            i += 1;
        }
        assert(suggestion_views(result.suggestions@).take(i as int) =~= suggestion_views(
            result.suggestions@,
        ));
        let changed = !same_chars(&content, &orig);
        if changed {
            if self.policy.create_backup_branch {
                report.backup_created = true;
            }
            report.changed = true;
        }
        FixPlan { content: string_of(&content), report }
    }

    fn apply_suggestion_chars(&self, content: &Vec<char>, suggestion: &Suggestion) -> (r: Vec<
        char,
    >)
        ensures
            r@ == spec_apply_suggestion(content@, suggestion@),
    {
        match suggestion.suggestion_type {
            SuggestionType::OptimizeImports => optimize_imports_chars(content),
            _ => copy_chars(content),
        }
    }

    /// Apply the style fixes that `issues` call for, in order.
    pub fn apply_style_fixes(&self, content: &str, issues: &Vec<Issue>) -> (r: String)
        requires
            spec_style_fixes(content@, issue_views(issues@)) is Some,
        ensures
            Some(r@) == spec_style_fixes(content@, issue_views(issues@)),
    {
        let c = chars_of(content);
        let fixed = style_fixes_chars(&c, issues);
        string_of(&fixed.unwrap())
    }

    /// Whether the style fixes of `issues` can be applied to `content`
    /// without slicing inside a character (where `apply_style_fixes` is
    /// defined).
    pub fn style_fixes_apply(content: &str, issues: &Vec<Issue>) -> (b: bool)
        ensures
            b == spec_style_fixes(content@, issue_views(issues@)) is Some,
    {
        let c = chars_of(content);
        style_fixes_chars(&c, issues).is_some()
    }

    /// Fix long lines: break the line the issue points at.
    pub fn fix_long_lines(&self, content: &str, issue: &Issue) -> (r: String)
        requires
            spec_fix_long_lines(content@, issue.line) is Some,
        ensures
            Some(r@) == spec_fix_long_lines(content@, issue.line),
    {
        let c = chars_of(content);
        string_of(&fix_long_lines_chars(&c, issue.line).unwrap())
    }

    /// Break a long line at logical points.
    pub fn break_long_line(&self, line: &str) -> (r: String)
        requires
            has_boundary_at_100(line@),
        ensures
            r@ == spec_break_long_line(line@),
    {
        let l = chars_of(line);
        let k = chars_in_first_bytes(&l, 100);
        string_of(&break_chars(&l, k.unwrap()))
    }

    /// Fix trailing whitespace.
    pub fn fix_trailing_whitespace(&self, content: &str) -> (r: String)
        ensures
            r@ == spec_fix_trailing_whitespace(content@),
    {
        let c = chars_of(content);
        string_of(&fix_trailing_whitespace_chars(&c))
    }

    /// Add documentation before the line the issue points at.
    pub fn add_documentation(&self, content: &str, issue: &Issue) -> (r: String)
        ensures
            r@ == spec_add_documentation(content@, issue.line),
    {
        let c = chars_of(content);
        string_of(&add_documentation_chars(&c, issue.line))
    }

    /// Apply a suggestion: only import optimization changes the content.
    pub fn apply_suggestion(&self, content: &str, suggestion: &Suggestion) -> (r: String)
        ensures
            r@ == spec_apply_suggestion(content@, suggestion@),
    {
        let c = chars_of(content);
        string_of(&self.apply_suggestion_chars(&c, suggestion))
    }

    /// Add comments based on suggestion (leaves the content as it is).
    pub fn add_comments(&self, content: &str, _suggestion: &Suggestion) -> (r: String)
        ensures
            r@ == content@,
    {
        owned(content)
    }

    /// Optimize imports: drop `use` lines repeated verbatim (after trimming).
    pub fn optimize_imports(&self, content: &str) -> (r: String)
        ensures
            r@ == spec_optimize_imports(content@),
    {
        let c = chars_of(content);
        string_of(&optimize_imports_chars(&c))
    }

    /// Check if suggestion should be auto-applied.
    pub fn should_auto_apply(&self, suggestion: &Suggestion) -> (b: bool)
        ensures
            b == spec_should_auto_apply(self.pol(), suggestion.suggestion_type),
    {
        match suggestion.suggestion_type {
            SuggestionType::AddComment => self.policy.auto_add_comments,
            SuggestionType::AddTest => self.policy.auto_add_tests,
            SuggestionType::Refactor => self.policy.auto_refactor,
            SuggestionType::OptimizeImports => self.policy.auto_fix_style,
            _ => false,
        }
    }
}

fn same_chars(a: &Vec<char>, b: &Vec<char>) -> (r: bool)
    ensures
        r == (a@ == b@),
{
    if a.len() != b.len() {
        return false;
    }
    let mut i: usize = 0;
    while i < a.len()
        invariant
            a.len() == b.len(),
            i <= a.len(),
            forall|k: int| 0 <= k < i ==> a@[k] == b@[k],
        decreases a.len() - i,
    {
        if a[i] != b[i] {
            return false;
        }
        i += 1;
    }
    assert(a@ =~= b@);
    true
}

fn count_style_issues(issues: &Vec<Issue>) -> (n: usize)
    ensures
        n == count_style(issue_views(issues@)),
{
    let mut n: usize = 0;
    let mut i: usize = 0;
    while i < issues.len()
        invariant
            i <= issues.len(),
            n <= i,
            n == count_style(issue_views(issues@).take(i as int)),
        decreases issues.len() - i,
    {
        assert(issue_views(issues@).take(i + 1).drop_last() =~= issue_views(issues@).take(
            i as int,
        ));
        if issues[i].category == IssueCategory::Style {
            n += 1;
        }
        i += 1;
    }
    assert(issue_views(issues@).take(i as int) =~= issue_views(issues@));
    n
}

} // verus!
