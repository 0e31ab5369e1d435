//! Function-level analysis of Rust source.
//!
//! The analysis reads a [`RustFile`]: every `fn` item of a parsed file, in
//! the order a syntax-tree visitor meets them (an item before the items
//! nested in it), each with the shape of its body that the complexity
//! count needs. Parsing and walking the syntax tree happen outside this
//! library; everything decided from the functions happens here.
use vstd::prelude::*;
use crate::analyzer::{issue_views, Issue, IssueCategory, IssueSeverity, IssueView, Ratio};
use crate::text::{chars_of, decimal, owned, push_decimal, push_str};

verus! {

/// An expression, reduced to what the complexity count looks at.
#[derive(Debug)]
pub enum AstExpr {
    /// `if cond { then_branch } else else_branch`
    If { then_branch: AstBlock, else_branch: Option<Box<AstExpr>> },
    /// `match` with this many arms
    Match { arms: usize },
    /// `while`, `for` or `loop`
    Loop,
    /// A binary `&&` or `||`
    LogicalOp,
    /// A block expression
    Block(AstBlock),
    /// Anything else
    Other,
}

/// A block: its statements in order.
#[derive(Debug)]
pub struct AstBlock {
    pub stmts: Vec<AstStmt>,
}

/// A statement of a block.
#[derive(Debug)]
pub enum AstStmt {
    /// An expression statement (with or without a semicolon)
    Expr(AstExpr),
    /// A `let`, with its initializer if it has one
    Local(Option<AstExpr>),
    /// An item or macro statement
    Other,
}

/// A `fn` item.
#[derive(Debug)]
pub struct FnItem {
    /// Function name
    pub name: String,
    /// Declared `pub`
    pub is_pub: bool,
    /// The paths of its attributes, as written (`doc` for a `///` comment)
    pub attributes: Vec<String>,
    /// Number of parameters
    pub num_params: usize,
    /// Declared `async`
    pub is_async: bool,
    /// Declares no return type
    pub returns_unit: bool,
    /// An item of the file itself rather than one nested in another item
    pub top_level: bool,
    /// Function body
    pub body: AstBlock,
}

/// A function is documented: it carries a `doc` attribute.
pub open spec fn documented(f: FnItem) -> bool {
    exists|i: int| 0 <= i < f.attributes@.len() && (#[trigger] f.attributes@[i])@ == "doc"@
}

impl FnItem {
    /// Whether the function carries a `doc` attribute.
    pub fn has_doc(&self) -> (b: bool)
        ensures
            b == documented(*self),
    {
        let mut i: usize = 0;
        while i < self.attributes.len()
            invariant
                i <= self.attributes.len(),
                forall|k: int| 0 <= k < i ==> (#[trigger] self.attributes@[k])@ != "doc"@,
            decreases self.attributes.len() - i,
        {
            let a = chars_of(self.attributes[i].as_str());
            if crate::linters::clippy::same(&a, "doc") {
                return true;
            }
            i += 1;
        }
        false
    }
}

/// The `fn` items of a parsed Rust file, in visiting order.
#[derive(Debug)]
pub struct RustFile {
    pub functions: Vec<FnItem>,
}

// ---------------------------------------------------------------------------
// Decision points
// ---------------------------------------------------------------------------
/// Decision points of an expression: an `if` counts one plus those of the
/// expression statements of its branch and of its `else`; a `match` counts
/// its arms; loops and `&&`/`||` count one; a block counts those of its
/// expression statements.
pub open spec fn expr_points(e: AstExpr) -> nat
    decreases e,
{
    match e {
        AstExpr::If { then_branch, else_branch } => 1 + expr_stmt_points(then_branch.stmts@)
            + match else_branch {
            Some(b) => expr_points(*b),
            None => 0,
        },
        AstExpr::Match { arms } => arms as nat,
        AstExpr::Loop => 1,
        AstExpr::LogicalOp => 1,
        AstExpr::Block(b) => expr_stmt_points(b.stmts@),
        AstExpr::Other => 0,
    }
}

/// Decision points of the expression statements of `stmts`.
pub open spec fn expr_stmt_points(stmts: Seq<AstStmt>) -> nat
    decreases stmts,
{
    if stmts.len() == 0 {
        0
    } else {
        expr_stmt_points(stmts.drop_last()) + match stmts.last() {
            AstStmt::Expr(e) => expr_points(e),
            _ => 0,
        }
    }
}

/// Decision points of a function body's statements, `let` initializers
/// included.
pub open spec fn body_points(stmts: Seq<AstStmt>) -> nat
    decreases stmts.len(),
{
    if stmts.len() == 0 {
        0
    } else {
        body_points(stmts.drop_last()) + match stmts.last() {
            AstStmt::Expr(e) => expr_points(e),
            AstStmt::Local(Some(init)) => expr_points(init),
            _ => 0,
        }
    }
}

/// Complexity of a function: one plus the decision points of its body.
pub open spec fn fn_complexity(f: FnItem) -> nat {
    1 + body_points(f.body.stmts@)
}

fn expr_points_of(e: &AstExpr) -> (n: u32)
    requires
        expr_points(*e) <= u32::MAX,
    ensures
        n == expr_points(*e),
    decreases e,
{
    match e {
        AstExpr::If { then_branch, else_branch } => {
            let t = expr_stmt_points_of(&then_branch.stmts);
            let el = match else_branch {
                Some(b) => expr_points_of(b),
                None => 0,
            };
            1 + t + el
        },
        AstExpr::Match { arms } => *arms as u32,
        AstExpr::Loop => 1,
        AstExpr::LogicalOp => 1,
        AstExpr::Block(b) => expr_stmt_points_of(&b.stmts),
        AstExpr::Other => 0,
    }
}

fn expr_stmt_points_of(stmts: &Vec<AstStmt>) -> (n: u32)
    requires
        expr_stmt_points(stmts@) <= u32::MAX,
    ensures
        n == expr_stmt_points(stmts@),
    decreases stmts,
{
    let mut n: u32 = 0;
    let mut i: usize = 0;
    while i < stmts.len()
        invariant
            i <= stmts.len(),
            n == expr_stmt_points(stmts@.take(i as int)),
            expr_stmt_points(stmts@) <= u32::MAX,
        decreases stmts.len() - i,
    {
        assert(stmts@.take(i + 1).drop_last() =~= stmts@.take(i as int));
        proof {
            lemma_expr_stmt_points_prefix(stmts@, i + 1);
        }
        match &stmts[i] {
            AstStmt::Expr(e) => {
                let p = expr_points_of(e);
                n = n + p;
            },
            _ => {},
        }
        i += 1;
    }
    assert(stmts@.take(i as int) =~= stmts@);
    n
}

proof fn lemma_expr_stmt_points_prefix(s: Seq<AstStmt>, k: int)
    requires
        0 <= k <= s.len(),
    ensures
        expr_stmt_points(s.take(k)) <= expr_stmt_points(s),
    decreases s.len() - k,
{
    if k < s.len() {
        assert(s.take(k + 1).drop_last() =~= s.take(k));
        lemma_expr_stmt_points_prefix(s, k + 1);
    } else {
        assert(s.take(k) =~= s);
    }
}

proof fn lemma_body_points_prefix(s: Seq<AstStmt>, k: int)
    requires
        0 <= k <= s.len(),
    ensures
        body_points(s.take(k)) <= body_points(s),
    decreases s.len() - k,
{
    if k < s.len() {
        assert(s.take(k + 1).drop_last() =~= s.take(k));
        lemma_body_points_prefix(s, k + 1);
    } else {
        assert(s.take(k) =~= s);
    }
}

fn complexity_of_fn(f: &FnItem) -> (n: u32)
    requires
        fn_complexity(*f) <= u32::MAX,
    ensures
        n == fn_complexity(*f),
{
    let stmts = &f.body.stmts;
    let mut n: u32 = 1;
    let mut i: usize = 0;
    while i < stmts.len()
        invariant
            i <= stmts.len(),
            n == 1 + body_points(stmts@.take(i as int)),
            1 + body_points(stmts@) <= u32::MAX,
        decreases stmts.len() - i,
    {
        assert(stmts@.take(i + 1).drop_last() =~= stmts@.take(i as int));
        proof {
            lemma_body_points_prefix(stmts@, i + 1);
        }
        match &stmts[i] {
            AstStmt::Expr(e) => {
                let p = expr_points_of(e);
                n = n + p;
            },
            AstStmt::Local(Some(init)) => {
                let p = expr_points_of(init);
                n = n + p;
            },
            _ => {},
        }
        i += 1;
    }
    assert(stmts@.take(i as int) =~= stmts@);
    n
}

// ---------------------------------------------------------------------------
// Results
// ---------------------------------------------------------------------------
/// AST-derived code metrics.
#[derive(Debug, Clone, Copy, PartialEq, Eq, Structural)]
pub struct AstMetrics {
    /// Total functions
    pub num_functions: usize,
    /// Public functions
    pub num_pub_functions: usize,
    /// Total complexity
    pub complexity: u32,
    /// Average function length (not computed: always zero)
    pub avg_function_length: Ratio,
    /// Documented functions
    pub documented_functions: usize,
}

/// Function information from AST.
#[derive(Debug, Clone)]
pub struct FunctionInfo {
    /// Function name
    pub name: String,
    /// Is public
    pub is_pub: bool,
    /// Has documentation
    pub has_doc: bool,
    /// Complexity score
    pub complexity: u32,
    /// Number of lines (statements of the body)
    pub lines: usize,
    /// Number of parameters
    pub num_params: usize,
    /// Line number (not tracked: always zero)
    pub line: usize,
}

/// AST analysis result.
#[derive(Debug, Clone)]
pub struct AstAnalysisResult {
    /// Code metrics from AST
    pub metrics: AstMetrics,
    /// Issues found during AST analysis
    pub issues: Vec<Issue>,
    /// Function information
    pub function_info: Vec<FunctionInfo>,
}

/// Function signature for test generation.
#[derive(Debug, Clone)]
pub struct FunctionSignature {
    pub name: String,
    pub inputs: usize,
    pub output: String,
    pub is_async: bool,
}

/// Sum of the complexities of `fs`.
pub open spec fn total_complexity(fs: Seq<FnItem>) -> nat
    decreases fs.len(),
{
    if fs.len() == 0 {
        0
    } else {
        total_complexity(fs.drop_last()) + fn_complexity(fs.last())
    }
}

/// Number of public functions of `fs`.
pub open spec fn count_pub(fs: Seq<FnItem>) -> nat
    decreases fs.len(),
{
    if fs.len() == 0 {
        0
    } else {
        count_pub(fs.drop_last()) + if fs.last().is_pub {
            1nat
        } else {
            0nat
        }
    }
}

/// Number of documented functions of `fs`.
pub open spec fn count_documented(fs: Seq<FnItem>) -> nat
    decreases fs.len(),
{
    if fs.len() == 0 {
        0
    } else {
        count_documented(fs.drop_last()) + if documented(fs.last()) {
            1nat
        } else {
            0nat
        }
    }
}

/// The issues reported for one function.
pub open spec fn fn_issues(f: FnItem, max_complexity: u32, max_len: usize) -> Seq<IssueView> {
    let c = fn_complexity(f);
    let lines = f.body.stmts@.len();
    (if c > max_complexity {
        seq![
            IssueView {
                severity: IssueSeverity::Warning,
                category: IssueCategory::Complexity,
                description: "Function '"@ + f.name@ + "' has complexity "@ + decimal(c)
                    + " which exceeds threshold "@ + decimal(max_complexity as nat),
                line: Some(0usize),
                column: None,
                snippet: None,
                suggested_fix: Some("Consider breaking this function into smaller functions"@),
            },
        ]
    } else {
        seq![]
    }) + (if lines > max_len {
        seq![
            IssueView {
                severity: IssueSeverity::Warning,
                category: IssueCategory::Maintainability,
                description: "Function '"@ + f.name@ + "' has "@ + decimal(lines)
                    + " lines which exceeds recommended "@ + decimal(max_len as nat) + " lines"@,
                line: Some(0usize),
                column: None,
                snippet: None,
                suggested_fix: Some("Consider refactoring this function"@),
            },
        ]
    } else {
        seq![]
    }) + (if f.is_pub && !documented(f) {
        seq![
            IssueView {
                severity: IssueSeverity::Info,
                category: IssueCategory::Documentation,
                description: "Public function '"@ + f.name@ + "' is missing documentation"@,
                line: Some(0usize),
                column: None,
                snippet: None,
                suggested_fix: Some("Add documentation with ///"@),
            },
        ]
    } else {
        seq![]
    })
}

/// The issues reported for `fs`, function by function.
pub open spec fn all_fn_issues(fs: Seq<FnItem>, max_complexity: u32, max_len: usize) -> Seq<
    IssueView,
>
    decreases fs.len(),
{
    if fs.len() == 0 {
        seq![]
    } else {
        all_fn_issues(fs.drop_last(), max_complexity, max_len) + fn_issues(
            fs.last(),
            max_complexity,
            max_len,
        )
    }
}

/// An `else` adds the decision points of its expression: an `if` with an
/// `else` has exactly the points of the same `if` without it plus those of
/// the `else` expression (so each `else if` of a chain counts).
pub proof fn lemma_else_branch_counts(then_branch: AstBlock, e: AstExpr)
    ensures
        expr_points(AstExpr::If { then_branch: then_branch, else_branch: Some(Box::new(e)) })
            == expr_points(AstExpr::If { then_branch: then_branch, else_branch: None }) + expr_points(
            e,
        ),
        expr_points(AstExpr::If { then_branch: then_branch, else_branch: None }) >= 1,
{
}

/// A statement added to the branch of an `if` adds its decision points
/// when it is an expression statement, and nothing otherwise.
pub proof fn lemma_then_branch_counts(
    then_branch: AstBlock,
    longer: AstBlock,
    st: AstStmt,
    else_branch: Option<Box<AstExpr>>,
)
    requires
        longer.stmts@ == then_branch.stmts@.push(st),
    ensures
        expr_points(AstExpr::If { then_branch: longer, else_branch: else_branch }) == expr_points(
            AstExpr::If { then_branch: then_branch, else_branch: else_branch },
        ) + match st {
            AstStmt::Expr(e) => expr_points(e),
            _ => 0,
        },
{
    assert(longer.stmts@.drop_last() =~= then_branch.stmts@);
    assert(expr_stmt_points(longer.stmts@) == expr_stmt_points(then_branch.stmts@) + match st {
        AstStmt::Expr(e) => expr_points(e),
        _ => 0,
    });
}

/// A statement added to a function's body adds its decision points: those
/// of an expression statement or of a `let` initializer, else none.
pub proof fn lemma_body_statement_counts(f: FnItem, g: FnItem, st: AstStmt)
    requires
        g.body.stmts@ == f.body.stmts@.push(st),
    ensures
        fn_complexity(g) == fn_complexity(f) + match st {
            AstStmt::Expr(e) => expr_points(e),
            AstStmt::Local(Some(init)) => expr_points(init),
            _ => 0,
        },
        fn_complexity(f) >= 1,
{
    assert(g.body.stmts@.drop_last() =~= f.body.stmts@);
}

/// The points of the other expressions: a `match` counts its arms, a loop
/// or a `&&`/`||` one, a block the points of its expression statements in
/// order, anything else none.
pub proof fn lemma_leaf_points(arms: usize, b: AstBlock, longer: AstBlock, e: AstExpr)
    requires
        longer.stmts@ == b.stmts@.push(AstStmt::Expr(e)),
    ensures
        expr_points(AstExpr::Match { arms }) == arms,
        expr_points(AstExpr::Loop) == 1,
        expr_points(AstExpr::LogicalOp) == 1,
        expr_points(AstExpr::Other) == 0,
        expr_points(AstExpr::Block(longer)) == expr_points(AstExpr::Block(b)) + expr_points(e),
{
    assert(longer.stmts@.drop_last() =~= b.stmts@);
    assert(expr_stmt_points(longer.stmts@) == expr_stmt_points(b.stmts@) + expr_points(e));
}

/// An `if` / `else if` / `else` chain as a function's only statement gives
/// it complexity three plus the decision points inside its three branches.
pub proof fn lemma_else_if_chain(f: FnItem, t1: AstBlock, t2: AstBlock, b: AstBlock)
    requires
        f.body.stmts@ == seq![
            AstStmt::Expr(
                AstExpr::If {
                    then_branch: t1,
                    else_branch: Some(
                        Box::new(
                            AstExpr::If {
                                then_branch: t2,
                                else_branch: Some(Box::new(AstExpr::Block(b))),
                            },
                        ),
                    ),
                },
            ),
        ],
    ensures
        fn_complexity(f) == 3 + expr_stmt_points(t1.stmts@) + expr_stmt_points(t2.stmts@)
            + expr_stmt_points(b.stmts@),
{
    let inner = AstExpr::If { then_branch: t2, else_branch: Some(Box::new(AstExpr::Block(b))) };
    let outer = AstExpr::If { then_branch: t1, else_branch: Some(Box::new(inner)) };
    assert(f.body.stmts@.drop_last() =~= Seq::<AstStmt>::empty());
    assert(f.body.stmts@.len() == 1);
    assert(f.body.stmts@.last() == AstStmt::Expr(outer));
    assert(body_points(Seq::<AstStmt>::empty()) == 0);
    assert(body_points(f.body.stmts@) == expr_points(outer));
    assert(expr_points(AstExpr::Block(b)) == expr_stmt_points(b.stmts@));
    assert(expr_points(inner) == 1 + expr_stmt_points(t2.stmts@) + expr_stmt_points(b.stmts@));
    assert(expr_points(outer) == 1 + expr_stmt_points(t1.stmts@) + expr_points(inner));
}

/// Visiting one more function: the counts grow by what that function
/// adds (one function; one public, one documented, its complexity where
/// they apply), and its issues come after those of the functions before
/// it: one complexity warning when its complexity exceeds the limit, one
/// maintainability warning when its length does, one documentation note
/// when it is public and undocumented.
pub proof fn lemma_visit_step(fs: Seq<FnItem>, f: FnItem, max_complexity: u32, max_len: usize)
    ensures
        fs.push(f).len() == fs.len() + 1,
        count_pub(fs.push(f)) == count_pub(fs) + if f.is_pub {
            1nat
        } else {
            0nat
        },
        count_documented(fs.push(f)) == count_documented(fs) + if documented(f) {
            1nat
        } else {
            0nat
        },
        total_complexity(fs.push(f)) == total_complexity(fs) + fn_complexity(f),
        all_fn_issues(fs.push(f), max_complexity, max_len) == all_fn_issues(
            fs,
            max_complexity,
            max_len,
        ) + fn_issues(f, max_complexity, max_len),
        fn_issues(f, max_complexity, max_len).len() == (if fn_complexity(f) > max_complexity {
            1int
        } else {
            0int
        }) + (if f.body.stmts@.len() > max_len {
            1int
        } else {
            0int
        }) + (if f.is_pub && !documented(f) {
            1int
        } else {
            0int
        }),
{
    assert(fs.push(f).drop_last() =~= fs);
}

/// `r` is the analysis of the functions `fs` under the limits of `a`: the
/// counts, the issues function by function, and one record per function.
pub open spec fn is_analysis_of(a: AstAnalyzer, fs: Seq<FnItem>, r: AstAnalysisResult) -> bool {
    &&& r.metrics.num_functions == fs.len()
    &&& r.metrics.num_pub_functions == count_pub(fs)
    &&& r.metrics.complexity == total_complexity(fs)
    &&& r.metrics.documented_functions == count_documented(fs)
    &&& r.metrics.avg_function_length == (Ratio { numerator: 0, denominator: 0 })
    &&& issue_views(r.issues@) == all_fn_issues(fs, a.max_complexity, a.max_function_length)
    &&& r.function_info@.len() == fs.len()
    &&& forall|i: int| 0 <= i < fs.len() ==> fn_info_matches(#[trigger] r.function_info@[i], fs[i])
}

/// The information recorded for one function.
pub open spec fn fn_info_matches(info: FunctionInfo, f: FnItem) -> bool {
    &&& info.name@ == f.name@
    &&& info.is_pub == f.is_pub
    &&& info.has_doc == documented(f)
    &&& info.complexity == fn_complexity(f)
    &&& info.lines == f.body.stmts@.len()
    &&& info.num_params == f.num_params
    &&& info.line == 0
}

/// The functions of `fs` declared at the top of the file, as signatures.
pub open spec fn signatures_of(fs: Seq<FnItem>) -> Seq<(Seq<char>, usize, Seq<char>, bool)>
    decreases fs.len(),
{
    if fs.len() == 0 {
        seq![]
    } else if fs.last().top_level {
        signatures_of(fs.drop_last()).push(
            (
                fs.last().name@,
                fs.last().num_params,
                if fs.last().returns_unit {
                    "()"@
                } else {
                    "T"@
                },
                fs.last().is_async,
            ),
        )
    } else {
        signatures_of(fs.drop_last())
    }
}

/// What a signature says.
pub open spec fn signature_view(s: FunctionSignature) -> (Seq<char>, usize, Seq<char>, bool) {
    (s.name@, s.inputs, s.output@, s.is_async)
}

/// The complexities fit the `u32` counters of the analysis.
pub open spec fn complexity_fits(fs: Seq<FnItem>) -> bool {
    total_complexity(fs) <= u32::MAX
}

proof fn lemma_total_complexity_prefix(fs: Seq<FnItem>, k: int)
    requires
        0 <= k <= fs.len(),
    ensures
        total_complexity(fs.take(k)) <= total_complexity(fs),
    decreases fs.len() - k,
{
    if k < fs.len() {
        assert(fs.take(k + 1).drop_last() =~= fs.take(k));
        lemma_total_complexity_prefix(fs, k + 1);
    } else {
        assert(fs.take(k) =~= fs);
    }
}

/// One more than the largest `u32`: counts are computed up to it.
pub open spec fn count_cap() -> nat {
    0x1_0000_0000
}

pub open spec fn capped(n: nat) -> nat {
    if n < count_cap() {
        n
    } else {
        count_cap()
    }
}

fn add_capped(a: u64, b: u64) -> (r: u64)
    requires
        a <= count_cap(),
        b <= count_cap(),
    ensures
        r == capped((a + b) as nat),
{
    if a + b < 0x1_0000_0000 {
        a + b
    } else {
        0x1_0000_0000
    }
}

fn expr_points_capped(e: &AstExpr) -> (n: u64)
    ensures
        n == capped(expr_points(*e)),
    decreases e,
{
    match e {
        AstExpr::If { then_branch, else_branch } => {
            let t = expr_stmt_points_capped(&then_branch.stmts);
            let el = match else_branch {
                Some(b) => expr_points_capped(b),
                None => 0,
            };
            add_capped(add_capped(1, t), el)
        },
        AstExpr::Match { arms } => {
            if (*arms as u64) < 0x1_0000_0000 {
                *arms as u64
            } else {
                0x1_0000_0000
            }
        },
        AstExpr::Loop => 1,
        AstExpr::LogicalOp => 1,
        AstExpr::Block(b) => expr_stmt_points_capped(&b.stmts),
        AstExpr::Other => 0,
    }
}

fn expr_stmt_points_capped(stmts: &Vec<AstStmt>) -> (n: u64)
    ensures
        n == capped(expr_stmt_points(stmts@)),
    decreases stmts,
{
    let mut n: u64 = 0;
    let mut i: usize = 0;
    while i < stmts.len()
        invariant
            i <= stmts.len(),
            n == capped(expr_stmt_points(stmts@.take(i as int))),
        decreases stmts.len() - i,
    {
        assert(stmts@.take(i + 1).drop_last() =~= stmts@.take(i as int));
        match &stmts[i] {
            AstStmt::Expr(e) => {
                let p = expr_points_capped(e);
                n = add_capped(n, p);
            },
            _ => {},
        }
        i += 1;
    }
    assert(stmts@.take(i as int) =~= stmts@);
    n
}

fn fn_complexity_capped(f: &FnItem) -> (n: u64)
    ensures
        n == capped(fn_complexity(*f)),
{
    let stmts = &f.body.stmts;
    let mut n: u64 = 1;
    let mut i: usize = 0;
    while i < stmts.len()
        invariant
            i <= stmts.len(),
            n == capped(1 + body_points(stmts@.take(i as int))),
        decreases stmts.len() - i,
    {
        assert(stmts@.take(i + 1).drop_last() =~= stmts@.take(i as int));
        match &stmts[i] {
            AstStmt::Expr(e) => {
                let p = expr_points_capped(e);
                n = add_capped(n, p);
            },
            AstStmt::Local(Some(init)) => {
                let p = expr_points_capped(init);
                n = add_capped(n, p);
            },
            _ => {},
        }
        i += 1;
    }
    assert(stmts@.take(i as int) =~= stmts@);
    n
}

/// Whether the file's complexity fits the analysis' `u32` counters.
pub fn complexity_fits_counters(file: &RustFile) -> (b: bool)
    ensures
        b == complexity_fits(file.functions@),
{
    let fs = &file.functions;
    let mut n: u64 = 0;
    let mut i: usize = 0;
    while i < fs.len()
        invariant
            i <= fs.len(),
            n == capped(total_complexity(fs@.take(i as int))),
        decreases fs.len() - i,
    {
        assert(fs@.take(i + 1).drop_last() =~= fs@.take(i as int));
        let c = fn_complexity_capped(&fs[i]);
        n = add_capped(n, c);
        i += 1;
    }
    assert(fs@.take(i as int) =~= fs@);
    n <= 0xffff_ffff
}

/// AST analyzer for Rust code.
#[derive(Debug, Clone, Copy, PartialEq, Eq, Structural)]
pub struct AstAnalyzer {
    /// Maximum allowed function complexity
    pub max_complexity: u32,
    /// Maximum allowed function length
    pub max_function_length: usize,
}

impl Default for AstAnalyzer {
    fn default() -> (a: Self)
        ensures
            a.max_complexity == 10,
            a.max_function_length == 100,
    {
        AstAnalyzer::new(10, 100)
    }
}

impl AstAnalyzer {
    /// Create a new AST analyzer.
    pub fn new(max_complexity: u32, max_function_length: usize) -> (a: Self)
        ensures
            a.max_complexity == max_complexity,
            a.max_function_length == max_function_length,
    {
        AstAnalyzer { max_complexity, max_function_length }
    }

    /// Analyze the functions of a parsed Rust file.
    pub fn analyze(&self, file: &RustFile) -> (r: AstAnalysisResult)
        requires
            complexity_fits(file.functions@),
        ensures
            r.metrics.num_functions == file.functions@.len(),
            r.metrics.num_pub_functions == count_pub(file.functions@),
            r.metrics.complexity == total_complexity(file.functions@),
            r.metrics.documented_functions == count_documented(file.functions@),
            r.metrics.avg_function_length == (Ratio { numerator: 0, denominator: 0 }),
            issue_views(r.issues@) == all_fn_issues(
                file.functions@,
                self.max_complexity,
                self.max_function_length,
            ),
            r.function_info@.len() == file.functions@.len(),
            forall|i: int|
                0 <= i < file.functions@.len() ==> fn_info_matches(
                    #[trigger] r.function_info@[i],
                    file.functions@[i],
                ),
            is_analysis_of(*self, file.functions@, r),
    {
        let fs = &file.functions;
        let mut metrics = AstMetrics {
            num_functions: 0,
            num_pub_functions: 0,
            complexity: 0,
            avg_function_length: Ratio { numerator: 0, denominator: 0 },
            documented_functions: 0,
        };
        let mut issues: Vec<Issue> = Vec::new();
        let mut infos: Vec<FunctionInfo> = Vec::new();
        let mut i: usize = 0;
        while i < fs.len()
            invariant
                i <= fs.len(),
                complexity_fits(fs@),
                metrics.num_functions == i,
                metrics.num_pub_functions == count_pub(fs@.take(i as int)),
                metrics.num_pub_functions <= i,
                metrics.documented_functions == count_documented(fs@.take(i as int)),
                metrics.documented_functions <= i,
                metrics.complexity == total_complexity(fs@.take(i as int)),
                metrics.avg_function_length == (Ratio { numerator: 0, denominator: 0 }),
                issue_views(issues@) == all_fn_issues(
                    fs@.take(i as int),
                    self.max_complexity,
                    self.max_function_length,
                ),
                infos@.len() == i,
                forall|k: int| 0 <= k < i ==> fn_info_matches(#[trigger] infos@[k], fs@[k]),
            decreases fs.len() - i,
        {
            let f = &fs[i];
            let ghost prefix = fs@.take(i as int);
            assert(fs@.take(i + 1).drop_last() =~= prefix);
            assert(fs@.take(i + 1).last() == *f);
            proof {
                lemma_total_complexity_prefix(fs@, i + 1);
            }
            metrics.num_functions += 1;
            if f.is_pub {
                metrics.num_pub_functions += 1;
            }
            let has_doc = f.has_doc();
            if has_doc {
                metrics.documented_functions += 1;
            }
            let complexity = complexity_of_fn(f);
            metrics.complexity = metrics.complexity + complexity;
            let lines = f.body.stmts.len();
            infos.push(
                FunctionInfo {
                    name: f.name.clone(),
                    is_pub: f.is_pub,
                    has_doc,
                    complexity,
                    lines,
                    num_params: f.num_params,
                    line: 0,
                },
            );
            let ghost before = issue_views(issues@);
            let new_issues = self.issues_for(f, complexity, lines);
            let mut j: usize = 0;
            while j < new_issues.len()
                invariant
                    j <= new_issues.len(),
                    issue_views(issues@) == before + issue_views(new_issues@).take(j as int),
                decreases new_issues.len() - j,
            {
                let ghost prev = issue_views(issues@);
                let c = new_issues[j].clone();
                issues.push(c);
                assert(issue_views(issues@) =~= prev.push(new_issues@[j as int]@));
                assert(issue_views(new_issues@).take(j + 1) =~= issue_views(new_issues@).take(
                    j as int,
                ).push(new_issues@[j as int]@));
                j += 1;
            }
            assert(issue_views(new_issues@).take(j as int) =~= issue_views(new_issues@));
            i += 1;
        }
        assert(fs@.take(i as int) =~= fs@);
        AstAnalysisResult { metrics, issues, function_info: infos }
    }

    fn issues_for(&self, f: &FnItem, complexity: u32, lines: usize) -> (r: Vec<Issue>)
        requires
            complexity == fn_complexity(*f),
            lines == f.body.stmts@.len(),
        ensures
            issue_views(r@) == fn_issues(*f, self.max_complexity, self.max_function_length),
    {
        let mut r: Vec<Issue> = Vec::new();
        let ghost s0 = issue_views(r@);
        if complexity > self.max_complexity {
            let mut d = String::new();
            push_str(&mut d, "Function '");
            push_str(&mut d, f.name.as_str());
            push_str(&mut d, "' has complexity ");
            push_decimal(&mut d, complexity as u64);
            push_str(&mut d, " which exceeds threshold ");
            push_decimal(&mut d, self.max_complexity as u64);
            r.push(
                Issue {
                    severity: IssueSeverity::Warning,
                    category: IssueCategory::Complexity,
                    description: d,
                    line: Some(0),
                    column: None,
                    snippet: None,
                    suggested_fix: Some(
                        owned("Consider breaking this function into smaller functions"),
                    ),
                },
            );
        }
        let ghost s1 = issue_views(r@);
        if lines > self.max_function_length {
            let mut d = String::new();
            push_str(&mut d, "Function '");
            push_str(&mut d, f.name.as_str());
            push_str(&mut d, "' has ");
            push_decimal(&mut d, lines as u64);
            push_str(&mut d, " lines which exceeds recommended ");
            push_decimal(&mut d, self.max_function_length as u64);
            push_str(&mut d, " lines");
            let ghost before = issue_views(r@);
            r.push(
                Issue {
                    severity: IssueSeverity::Warning,
                    category: IssueCategory::Maintainability,
                    description: d,
                    line: Some(0),
                    column: None,
                    snippet: None,
                    suggested_fix: Some(owned("Consider refactoring this function")),
                },
            );
            assert(issue_views(r@) =~= before.push(r@[r@.len() - 1]@));
        }
        let ghost s2 = issue_views(r@);
        if f.is_pub && !f.has_doc() {
            let mut d = String::new();
            push_str(&mut d, "Public function '");
            push_str(&mut d, f.name.as_str());
            push_str(&mut d, "' is missing documentation");
            let ghost before = issue_views(r@);
            r.push(
                Issue {
                    severity: IssueSeverity::Info,
                    category: IssueCategory::Documentation,
                    description: d,
                    line: Some(0),
                    column: None,
                    snippet: None,
                    suggested_fix: Some(owned("Add documentation with ///")),
                },
            );
            assert(issue_views(r@) =~= before.push(r@[r@.len() - 1]@));
        }
        assert(issue_views(r@) =~= fn_issues(*f, self.max_complexity, self.max_function_length));
        r
    }

    /// Total complexity of the file's functions.
    pub fn quick_complexity_check(&self, file: &RustFile) -> (c: u32)
        requires
            complexity_fits(file.functions@),
        ensures
            c == total_complexity(file.functions@),
    {
        let r = self.analyze(file);
        r.metrics.complexity
    }
}

/// Extract function signatures for test generation: the file's top-level
/// functions, in order.
pub fn extract_function_signatures(file: &RustFile) -> (r: Vec<FunctionSignature>)
    ensures
        r@.map_values(|s: FunctionSignature| signature_view(s)) == signatures_of(
            file.functions@,
        ),
{
    let fs = &file.functions;
    let mut r: Vec<FunctionSignature> = Vec::new();
    let mut i: usize = 0;
    while i < fs.len()
        invariant
            i <= fs.len(),
            r@.map_values(|s: FunctionSignature| signature_view(s)) == signatures_of(
                fs@.take(i as int),
            ),
        decreases fs.len() - i,
    {
        assert(fs@.take(i + 1).drop_last() =~= fs@.take(i as int));
        let f = &fs[i];
        if f.top_level {
            let ghost before = r@.map_values(|s: FunctionSignature| signature_view(s));
            let output = if f.returns_unit {
                owned("()")
            } else {
                owned("T")
            };
            r.push(
                FunctionSignature {
                    name: f.name.clone(),
                    inputs: f.num_params,
                    output,
                    is_async: f.is_async,
                },
            );
            assert(r@.map_values(|s: FunctionSignature| signature_view(s)) =~= before.push(
                signature_view(r@[r@.len() - 1]),
            ));
        }
        i += 1;
    }
    assert(fs@.take(i as int) =~= fs@);
    r
}

} // verus!
