//! Linter integrations for code review.
//!
//! Running a linter's command happens outside this library; here are the
//! linters' names, file types and command lines, and how their output
//! becomes issues.
use vstd::prelude::*;
use crate::paths::{path_extension, spec_path_extension};
use crate::text::owned;

pub mod clippy;
pub mod eslint;
pub mod pylint;
pub mod generic;

use clippy::ClippyLinter;
use eslint::ESLintLinter;
use pylint::PylintLinter;
use generic::GenericLinter;

verus! {

/// A linter: its name and the file extensions it checks.
pub trait Linter {
    /// The linter's name.
    spec fn spec_name(&self) -> Seq<char>;

    /// The extensions (without `.`) of the files it checks.
    spec fn spec_extensions(&self) -> Seq<Seq<char>>;

    /// Get linter name.
    fn name(&self) -> (r: &str)
        ensures
            r@ == self.spec_name(),
    ;

    /// Get supported file extensions.
    fn supported_extensions(&self) -> (r: Vec<&str>)
        ensures
            str_texts(r@) == self.spec_extensions(),
    ;
}

/// A program and the arguments to run it with.
#[derive(Debug, Clone)]
pub struct Invocation {
    pub program: String,
    pub args: Vec<String>,
}

pub open spec fn texts(v: Seq<String>) -> Seq<Seq<char>> {
    v.map_values(|s: String| s@)
}

/// The text of each string slice.
pub open spec fn str_texts(v: Seq<&str>) -> Seq<Seq<char>> {
    v.map_values(|s: &str| s@)
}

/// Copies of a list of strings.
pub fn clone_strings(v: &Vec<String>) -> (r: Vec<String>)
    ensures
        r@ == v@,
{
    let mut r: Vec<String> = Vec::new();
    let mut i: usize = 0;
    while i < v.len()
        invariant
            i <= v.len(),
            r@ == v@.take(i as int),
        decreases v.len() - i,
    {
        r.push(v[i].clone());
        i += 1;
        assert(r@ =~= v@.take(i as int));
    }
    assert(v@.take(i as int) =~= v@);
    r
}

/// Slices of owned strings.
pub fn borrowed_all(v: &Vec<String>) -> (r: Vec<&str>)
    ensures
        str_texts(r@) == texts(v@),
{
    let mut r: Vec<&str> = Vec::new();
    let mut i: usize = 0;
    while i < v.len()
        invariant
            i <= v.len(),
            r@.len() == i,
            forall|k: int| 0 <= k < i ==> (#[trigger] r@[k])@ == v@[k]@,
        decreases v.len() - i,
    {
        r.push(v[i].as_str());
        i += 1;
    }
    assert(str_texts(r@) =~= texts(v@));
    r
}

/// Any of the linters this library knows.
#[derive(Debug)]
pub enum AnyLinter {
    Clippy(ClippyLinter),
    ESLint(ESLintLinter),
    Pylint(PylintLinter),
    Generic(GenericLinter),
}

impl Linter for AnyLinter {
    open spec fn spec_name(&self) -> Seq<char> {
        match self {
            AnyLinter::Clippy(l) => l.spec_name(),
            AnyLinter::ESLint(l) => l.spec_name(),
            AnyLinter::Pylint(l) => l.spec_name(),
            AnyLinter::Generic(l) => l.spec_name(),
        }
    }

    open spec fn spec_extensions(&self) -> Seq<Seq<char>> {
        match self {
            AnyLinter::Clippy(l) => l.spec_extensions(),
            AnyLinter::ESLint(l) => l.spec_extensions(),
            AnyLinter::Pylint(l) => l.spec_extensions(),
            AnyLinter::Generic(l) => l.spec_extensions(),
        }
    }

    fn name(&self) -> (r: &str) {
        match self {
            AnyLinter::Clippy(l) => l.name(),
            AnyLinter::ESLint(l) => l.name(),
            AnyLinter::Pylint(l) => l.name(),
            AnyLinter::Generic(l) => l.name(),
        }
    }

    fn supported_extensions(&self) -> (r: Vec<&str>) {
        match self {
            AnyLinter::Clippy(l) => l.supported_extensions(),
            AnyLinter::ESLint(l) => l.supported_extensions(),
            AnyLinter::Pylint(l) => l.supported_extensions(),
            AnyLinter::Generic(l) => l.supported_extensions(),
        }
    }
}

impl AnyLinter {
    /// The command that tells whether the linter is installed (it exits
    /// successfully when it is).
    pub fn availability_check(&self) -> (r: Invocation)
        ensures
            match self {
                AnyLinter::Clippy(_) => r.program@ == "cargo"@ && texts(r.args@) == seq![
                    "clippy"@,
                    "--version"@,
                ],
                AnyLinter::ESLint(l) => r.program@ == l.path() && texts(r.args@) == seq![
                    "--version"@,
                ],
                AnyLinter::Pylint(l) => r.program@ == l.path() && texts(r.args@) == seq![
                    "--version"@,
                ],
                AnyLinter::Generic(l) => r.program@ == l.spec_command() && texts(r.args@) == seq![
                    "--version"@,
                ],
            },
    {
        let (program, args) = match self {
            AnyLinter::Clippy(_) => (owned("cargo"), vec![owned("clippy"), owned("--version")]),
            AnyLinter::ESLint(l) => (owned(l.eslint_path()), vec![owned("--version")]),
            AnyLinter::Pylint(l) => (owned(l.pylint_path()), vec![owned("--version")]),
            AnyLinter::Generic(l) => (owned(l.command()), vec![owned("--version")]),
        };
        proof {
            assert(texts(args@) =~= match self {
                AnyLinter::Clippy(_) => seq!["clippy"@, "--version"@],
                _ => seq!["--version"@],
            });
        }
        Invocation { program, args }
    }

    /// The command that lints `file_path`.
    pub fn lint_command(&self, file_path: &str) -> (r: Invocation)
        ensures
            (r.program@, texts(r.args@)) == spec_lint_command(*self, file_path@),
    {
        match self {
            AnyLinter::Clippy(l) => l.command(),
            AnyLinter::ESLint(l) => l.command(file_path),
            AnyLinter::Pylint(l) => l.command(file_path),
            AnyLinter::Generic(l) => l.lint_command(file_path),
        }
    }
}

/// The program and arguments that lint `file` with `l`: Clippy checks the
/// whole project, the others the one file.
pub open spec fn spec_lint_command(l: AnyLinter, file: Seq<char>) -> (Seq<char>, Seq<Seq<char>>) {
    match l {
        AnyLinter::Clippy(c) => ("cargo"@, seq!["clippy"@] + c.spec_flags()),
        AnyLinter::ESLint(e) => (e.path(), seq!["--format=json"@, "--no-color"@, file]),
        AnyLinter::Pylint(p) => (p.path(), seq!["--output-format=json"@, "--score=no"@, file]),
        AnyLinter::Generic(g) => (g.spec_command(), g.spec_args().push(file)),
    }
}

/// The linters among `ls` that check files with extension `ext`, in order.
pub open spec fn supporting(ls: Seq<AnyLinter>, ext: Seq<char>) -> Seq<AnyLinter>
    decreases ls.len(),
{
    if ls.len() == 0 {
        Seq::empty()
    } else {
        let rest = supporting(ls.drop_last(), ext);
        if ls.last().spec_extensions().contains(ext) {
            rest.push(ls.last())
        } else {
            rest
        }
    }
}

/// The extension by which linters are chosen: the path's, or empty.
pub open spec fn lint_extension(path: Seq<char>) -> Seq<char> {
    match spec_path_extension(path) {
        Some(e) => e,
        None => Seq::empty(),
    }
}

fn list_contains(v: &Vec<&str>, x: &str) -> (b: bool)
    ensures
        b == str_texts(v@).contains(x@),
{
    let xc = crate::text::chars_of(x);
    let mut i: usize = 0;
    while i < v.len()
        invariant
            i <= v.len(),
            xc@ == x@,
            forall|k: int| 0 <= k < i ==> (#[trigger] v@[k])@ != x@,
        decreases v.len() - i,
    {
        let c = crate::text::chars_of(v[i]);
        if crate::text::starts_with_chars(&c, &xc) && c.len() == xc.len() {
            assert(c@ =~= xc@);
            assert(str_texts(v@)[i as int] == x@);
            return true;
        }
        proof {
            if c@ == xc@ {
                assert(c@.take(xc@.len() as int) =~= xc@);
            }
        }
        i += 1;
    }
    proof {
        if str_texts(v@).contains(x@) {
            let k = choose|k: int| 0 <= k < v@.len() && #[trigger] str_texts(v@)[k] == x@;
            assert(v@[k]@ == x@);
        }
    }
    false
}

/// Linter registry.
#[derive(Debug)]
pub struct LinterRegistry {
    linters: Vec<AnyLinter>,
}

impl LinterRegistry {
    pub closed spec fn registered(&self) -> Seq<AnyLinter> {
        self.linters@
    }

    /// Create a new linter registry.
    pub fn new() -> (r: Self)
        ensures
            r.registered() == Seq::<AnyLinter>::empty(),
    {
        LinterRegistry { linters: Vec::new() }
    }

    /// Register a linter.
    pub fn register(&mut self, linter: AnyLinter)
        ensures
            final(self).registered() == old(self).registered().push(linter),
    {
        self.linters.push(linter);
    }

    /// The registered linters, in order.
    pub fn linters(&self) -> (r: &Vec<AnyLinter>)
        ensures
            r@ == self.registered(),
    {
        &self.linters
    }

    /// Get the linters for a file: those checking its extension, in the
    /// order they were registered.
    pub fn get_linters_for_file(&self, file_path: &str) -> (r: Vec<&AnyLinter>)
        ensures
            r@.map_values(|l: &AnyLinter| *l) == supporting(self.registered(), lint_extension(file_path@)),
    {
        let ext = match path_extension(file_path) {
            Some(e) => e,
            None => String::new(),
        };
        proof {
            assert(ext@ == lint_extension(file_path@));
        }
        let mut r: Vec<&AnyLinter> = Vec::new();
        let mut i: usize = 0;
        while i < self.linters.len()
            invariant
                i <= self.linters.len(),
                ext@ == lint_extension(file_path@),
                r@.map_values(|l: &AnyLinter| *l) == supporting(self.linters@.take(i as int), ext@),
            decreases self.linters.len() - i,
        {
            assert(self.linters@.take(i + 1).drop_last() =~= self.linters@.take(i as int));
            let exts = self.linters[i].supported_extensions();
            if list_contains(&exts, ext.as_str()) {
                r.push(&self.linters[i]);
                assert(r@.map_values(|l: &AnyLinter| *l) =~= r@.drop_last().map_values(|l: &AnyLinter| *l).push(self.linters@[i as int]));
            }
            i += 1;
        }
        assert(self.linters@.take(i as int) =~= self.linters@);
        r
    }
}

impl Default for LinterRegistry {
    /// The built-in linters: Clippy, ESLint and Pylint.
    fn default() -> (r: Self)
        ensures
            r.registered().len() == 3,
            r.registered()[0] matches AnyLinter::Clippy(c) && c.is_default(),
            r.registered()[1] matches AnyLinter::ESLint(e) && e.path() == "eslint"@,
            r.registered()[2] matches AnyLinter::Pylint(p) && p.path() == "pylint"@,
    {
        let mut registry = Self::new();
        registry.register(AnyLinter::Clippy(ClippyLinter::new()));
        registry.register(AnyLinter::ESLint(ESLintLinter::new()));
        registry.register(AnyLinter::Pylint(PylintLinter::new()));
        registry
    }
}

} // verus!
