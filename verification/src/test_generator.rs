//! AI-powered test generation: the prompts sent to the model, the code
//! taken from its replies, and the test files written from them.
//!
//! The model is called, and files are read and written, outside this
//! library.
use vstd::prelude::*;
use crate::ai_client::AIClient;
use crate::ast_analyzer::FunctionSignature;
use crate::linters::str_texts;
use crate::text::{
    chars_of, contains, contains_chars, decimal, extend_chars, join, join_all, matches_at,
    occurs_at, owned, push_chars, push_decimal, push_str, replace_newlines, replace_newlines_chars,
    slice_chars, string_of, trim, trimmed,
};

verus! {

/// Type of test.
#[derive(Debug, Clone, Copy, PartialEq, Eq, Structural)]
pub enum TestType {
    Unit,
    Integration,
    EndToEnd,
}

/// A generated test.
#[derive(Debug, Clone)]
pub struct Test {
    pub name: String,
    pub code: String,
    pub function_tested: String,
    pub test_type: TestType,
}

/// Generated tests result.
#[derive(Debug, Clone)]
pub struct GeneratedTests {
    pub tests: Vec<Test>,
    /// Estimated coverage, in percent
    pub coverage_estimate: u32,
}

/// The languages tests are generated for.
#[derive(Debug, Clone, Copy, PartialEq, Eq, Structural)]
pub enum TestLanguage {
    Rust,
    Python,
    JavaScript,
}

/// The generator used for a language name: `rust`, `python`, and
/// `javascript` or `typescript`; none for any other.
pub open spec fn spec_test_language(language: Seq<char>) -> Option<TestLanguage> {
    if language == "rust"@ {
        Some(TestLanguage::Rust)
    } else if language == "python"@ {
        Some(TestLanguage::Python)
    } else if language == "javascript"@ || language == "typescript"@ {
        Some(TestLanguage::JavaScript)
    } else {
        None
    }
}

// ---------------------------------------------------------------------------
// Code blocks
// ---------------------------------------------------------------------------
/// `i` is the first position where `p` occurs in `s`.
pub open spec fn first_at(s: Seq<char>, p: Seq<char>, i: int) -> bool {
    occurs_at(s, p, i) && forall|j: int| 0 <= j < i ==> !occurs_at(s, p, j)
}

/// Position of the first occurrence of `p` in `s` (meaningful when `p`
/// occurs).
pub open spec fn first_pos(s: Seq<char>, p: Seq<char>) -> int {
    choose|i: int| first_at(s, p, i)
}

proof fn lemma_first_pos(s: Seq<char>, p: Seq<char>, i: int)
    requires
        first_at(s, p, i),
    ensures
        first_pos(s, p) == i,
{
    let k = first_pos(s, p);
    assert(first_at(s, p, k));
    if k < i {
        assert(!occurs_at(s, p, k));
    }
    if i < k {
        assert(!occurs_at(s, p, i));
    }
}

/// Index just past the first line break of `s`, or `0` when it has none.
pub open spec fn code_start(s: Seq<char>) -> int {
    if contains(s, "\n"@) {
        first_pos(s, "\n"@) + 1
    } else {
        0
    }
}

/// The code of a model reply: the trimmed text between the first ``` fence
/// (and the rest of its line) and the next fence; the whole trimmed reply
/// when there is no such pair of fences.
pub open spec fn spec_extract_code_block(r: Seq<char>) -> Seq<char> {
    if contains(r, "```"@) {
        let after = r.skip(first_pos(r, "```"@) + 3);
        let code_part = after.skip(code_start(after));
        if contains(code_part, "```"@) {
            trim(code_part.take(first_pos(code_part, "```"@)))
        } else {
            trim(r)
        }
    } else {
        trim(r)
    }
}

fn find_first_str(s: &Vec<char>, p: &Vec<char>) -> (r: Option<usize>)
    ensures
        match r {
            Some(i) => first_at(s@, p@, i as int) && first_pos(s@, p@) == i,
            None => !contains(s@, p@),
        },
{
    let mut i: usize = 0;
    loop
        invariant
            i <= s.len(),
            forall|j: int| 0 <= j < i ==> !occurs_at(s@, p@, j),
        decreases s.len() - i,
    {
        if matches_at(s, p, i) {
            proof {
                lemma_first_pos(s@, p@, i as int);
            }
            return Some(i);
        }
        if i == s.len() {
            proof {
                assert forall|j: int| !occurs_at(s@, p@, j) by {
                    if 0 <= j < i {
                    }
                }
            }
            return None;
        }
        i += 1;
    }
}

/// Extract the code block of a model reply.
pub fn extract_code_block(response: &str) -> (r: String)
    ensures
        r@ == spec_extract_code_block(response@),
{
    let chars = chars_of(response);
    let fence = chars_of("```");
    proof {
        reveal_strlit("```");
        reveal_strlit("\n");
    }
    assert(fence@.len() == 3);
    match find_first_str(&chars, &fence) {
        Some(start) => {
            assert(occurs_at(chars@, fence@, start as int));
            let n = chars.len();
            assert(start + 3 <= n);
            let after = slice_chars(&chars, start + 3, chars.len());
            assert(after@ =~= chars@.skip(start + 3));
            let newline = chars_of("\n");
            let cs = match find_first_str(&after, &newline) {
                Some(i) => i + 1,
                None => 0,
            };
            let code_part = slice_chars(&after, cs, after.len());
            assert(code_part@ =~= after@.skip(cs as int));
            match find_first_str(&code_part, &fence) {
                Some(end) => {
                    let body = slice_chars(&code_part, 0, end);
                    assert(body@ =~= code_part@.take(end as int));
                    string_of(&trimmed(&body))
                },
                None => string_of(&trimmed(&chars)),
            }
        },
        None => string_of(&trimmed(&chars)),
    }
}

// ---------------------------------------------------------------------------
// Prompts
// ---------------------------------------------------------------------------
/// The prompt asking for a unit test of one Rust function.
pub open spec fn rust_test_prompt(source: Seq<char>, name: Seq<char>, inputs: usize, output: Seq<char>) -> Seq<char> {
    "Generate a comprehensive unit test for this Rust function.\n\nFunction signature: "@ + name
        + "("@ + decimal(inputs as nat) + " parameters) -> "@ + output
        + "\n\nFull source code:\n```rust\n"@ + source
        + "\n```\n\nGenerate a test that:\n1. Tests normal cases\n2. Tests edge cases\n3. Tests error cases if applicable\n\nProvide ONLY the test function code in this format:\n```rust\n#[test]\nfn test_"@
        + name + "() {\n    // Your test code here\n}\n```\n"@
}

/// The prompt asking for pytest tests of a Python module.
pub open spec fn python_tests_prompt(source: Seq<char>) -> Seq<char> {
    "Generate comprehensive pytest tests for this Python code:\n\n```python\n"@ + source
        + "\n```\n\nGenerate tests that cover:\n1. Normal cases\n2. Edge cases\n3. Error handling\n4. Type checking (if applicable)\n\nProvide test code only."@
}

/// The prompt asking for Jest tests of a JavaScript/TypeScript module.
pub open spec fn js_tests_prompt(source: Seq<char>) -> Seq<char> {
    "Generate comprehensive Jest tests for this JavaScript/TypeScript code:\n\n```javascript\n"@
        + source
        + "\n```\n\nGenerate tests that cover:\n1. Happy path\n2. Edge cases\n3. Error scenarios\n4. Async behavior (if applicable)\n\nProvide test code only."@
}

/// The prompt asking for integration tests of some modules.
pub open spec fn integration_tests_prompt(modules: Seq<Seq<char>>, language: Seq<char>) -> Seq<char> {
    "Generate integration tests for these "@ + language + " modules:\n\n"@ + join(modules, "\n"@)
        + "\n\nCreate tests that verify:\n1. Module interactions\n2. Data flow between components\n3. End-to-end scenarios\n\nProvide test code only."@
}

/// Test generator using AI.
pub struct TestGenerator {
    ai_client: AIClient,
}

impl TestGenerator {
    pub closed spec fn client(&self) -> AIClient {
        self.ai_client
    }

    /// Create a new test generator.
    pub fn new(ai_client: AIClient) -> (g: Self)
        ensures
            g.client() == ai_client,
    {
        TestGenerator { ai_client }
    }

    /// The model tests are asked of: the client's coding model.
    pub fn model(&self) -> (r: &str)
        ensures
            r@ == self.client().cfg().coding_model@,
    {
        self.ai_client.coding_model()
    }

    /// Extract code block from AI response.
    pub fn extract_code_block(&self, response: &str) -> (r: String)
        ensures
            r@ == spec_extract_code_block(response@),
    {
        extract_code_block(response)
    }

    /// Which generator a language uses, if any.
    pub fn test_language(language: &str) -> (r: Option<TestLanguage>)
        ensures
            r == spec_test_language(language@),
    {
        let l = chars_of(language);
        if crate::linters::clippy::same(&l, "rust") {
            Some(TestLanguage::Rust)
        } else if crate::linters::clippy::same(&l, "python") {
            Some(TestLanguage::Python)
        } else if crate::linters::clippy::same(&l, "javascript") || crate::linters::clippy::same(
            &l,
            "typescript",
        ) {
            Some(TestLanguage::JavaScript)
        } else {
            None
        }
    }

    /// The result for a language without a generator: no tests, no coverage.
    pub fn no_tests() -> (r: GeneratedTests)
        ensures
            r.tests@.len() == 0,
            r.coverage_estimate == 0,
    {
        GeneratedTests { tests: Vec::new(), coverage_estimate: 0 }
    }

    /// The prompt asking for a unit test of one Rust function.
    pub fn rust_test_prompt(&self, source: &str, sig: &FunctionSignature) -> (r: String)
        ensures
            r@ == rust_test_prompt(source@, sig.name@, sig.inputs, sig.output@),
    {
        let mut s = owned("Generate a comprehensive unit test for this Rust function.\n\nFunction signature: ");
        push_str(&mut s, sig.name.as_str());
        push_str(&mut s, "(");
        push_decimal(&mut s, sig.inputs as u64);
        push_str(&mut s, " parameters) -> ");
        push_str(&mut s, sig.output.as_str());
        push_str(&mut s, "\n\nFull source code:\n```rust\n");
        push_str(&mut s, source);
        push_str(&mut s, "\n```\n\nGenerate a test that:\n1. Tests normal cases\n2. Tests edge cases\n3. Tests error cases if applicable\n\nProvide ONLY the test function code in this format:\n```rust\n#[test]\nfn test_");
        push_str(&mut s, sig.name.as_str());
        push_str(&mut s, "() {\n    // Your test code here\n}\n```\n");
        s
    }

    /// The unit test made from the model's reply for a Rust function.
    pub fn rust_test_from_reply(&self, sig: &FunctionSignature, reply: &str) -> (t: Test)
        ensures
            t.name@ == "test_"@ + sig.name@,
            t.code@ == spec_extract_code_block(reply@),
            t.function_tested@ == sig.name@,
            t.test_type == TestType::Unit,
    {
        let mut name = owned("test_");
        push_str(&mut name, sig.name.as_str());
        Test {
            name,
            code: extract_code_block(reply),
            function_tested: sig.name.clone(),
            test_type: TestType::Unit,
        }
    }

    /// The Rust tests generated for a file: one test per signature, so the
    /// coverage estimate is the share of signatures tested, in percent
    /// (zero without signatures).
    pub fn rust_tests_result(tests: Vec<Test>, signatures: usize) -> (r: GeneratedTests)
        requires
            tests@.len() <= signatures,
        ensures
            r.tests == tests,
            r.coverage_estimate == (if signatures == 0 {
                0
            } else {
                tests@.len() * 100 / signatures as nat
            }),
    {
        let coverage_estimate: u32 = if signatures == 0 {
            0
        } else {
            assert(tests@.len() * 100 / signatures as nat <= 100) by (nonlinear_arith)
                requires
                    tests@.len() <= signatures,
                    signatures > 0,
            ;
            ((tests.len() as u128 * 100) / signatures as u128) as u32
        };
        GeneratedTests { tests, coverage_estimate }
    }

    /// The prompt asking for pytest tests.
    pub fn python_tests_prompt(&self, source: &str) -> (r: String)
        ensures
            r@ == python_tests_prompt(source@),
    {
        let mut s = owned("Generate comprehensive pytest tests for this Python code:\n\n```python\n");
        push_str(&mut s, source);
        push_str(&mut s, "\n```\n\nGenerate tests that cover:\n1. Normal cases\n2. Edge cases\n3. Error handling\n4. Type checking (if applicable)\n\nProvide test code only.");
        s
    }

    /// The Python tests made from the model's reply: one module test,
    /// estimated at 80% coverage.
    pub fn python_tests_from_reply(&self, reply: &str) -> (r: GeneratedTests)
        ensures
            r.tests@.len() == 1,
            r.tests@[0].name@ == "test_module"@,
            r.tests@[0].code@ == spec_extract_code_block(reply@),
            r.tests@[0].function_tested@ == "module"@,
            r.tests@[0].test_type == TestType::Unit,
            r.coverage_estimate == 80,
    {
        let t = Test {
            name: owned("test_module"),
            code: extract_code_block(reply),
            function_tested: owned("module"),
            test_type: TestType::Unit,
        };
        GeneratedTests { tests: vec![t], coverage_estimate: 80 }
    }

    /// The prompt asking for Jest tests.
    pub fn js_tests_prompt(&self, source: &str) -> (r: String)
        ensures
            r@ == js_tests_prompt(source@),
    {
        let mut s = owned("Generate comprehensive Jest tests for this JavaScript/TypeScript code:\n\n```javascript\n");
        push_str(&mut s, source);
        push_str(&mut s, "\n```\n\nGenerate tests that cover:\n1. Happy path\n2. Edge cases\n3. Error scenarios\n4. Async behavior (if applicable)\n\nProvide test code only.");
        s
    }

    /// The JavaScript tests made from the model's reply: one module test
    /// file, estimated at 75% coverage.
    pub fn js_tests_from_reply(&self, reply: &str) -> (r: GeneratedTests)
        ensures
            r.tests@.len() == 1,
            r.tests@[0].name@ == "module.test.js"@,
            r.tests@[0].code@ == spec_extract_code_block(reply@),
            r.tests@[0].function_tested@ == "module"@,
            r.tests@[0].test_type == TestType::Unit,
            r.coverage_estimate == 75,
    {
        let t = Test {
            name: owned("module.test.js"),
            code: extract_code_block(reply),
            function_tested: owned("module"),
            test_type: TestType::Unit,
        };
        GeneratedTests { tests: vec![t], coverage_estimate: 75 }
    }

    /// The prompt asking for integration tests of some modules.
    pub fn integration_tests_prompt(&self, modules: &Vec<&str>, language: &str) -> (r: String)
        ensures
            r@ == integration_tests_prompt(str_texts(modules@), language@),
    {
        let mut parts: Vec<Vec<char>> = Vec::new();
        let mut i: usize = 0;
        while i < modules.len()
            invariant
                i <= modules.len(),
                crate::text::views(parts@) == str_texts(modules@).take(i as int),
            decreases modules.len() - i,
        {
            let ghost prev = crate::text::views(parts@);
            parts.push(chars_of(modules[i]));
            assert(crate::text::views(parts@) =~= prev.push(modules@[i as int]@));
            i += 1;
            assert(str_texts(modules@).take(i as int) =~= str_texts(modules@).take(i - 1).push(modules@[i - 1]@));
        }
        assert(str_texts(modules@).take(i as int) =~= str_texts(modules@));
        let joined = join_all(&parts, "\n");
        let mut s = owned("Generate integration tests for these ");
        push_str(&mut s, language);
        push_str(&mut s, " modules:\n\n");
        push_chars(&mut s, &joined);
        push_str(&mut s, "\n\nCreate tests that verify:\n1. Module interactions\n2. Data flow between components\n3. End-to-end scenarios\n\nProvide test code only.");
        s
    }

    /// The integration test made from the model's reply.
    pub fn integration_test_from_reply(&self, reply: &str) -> (t: Test)
        ensures
            t.name@ == "integration_test"@,
            t.code@ == spec_extract_code_block(reply@),
            t.function_tested@ == "multiple"@,
            t.test_type == TestType::Integration,
    {
        Test {
            name: owned("integration_test"),
            code: extract_code_block(reply),
            function_tested: owned("multiple"),
            test_type: TestType::Integration,
        }
    }
}

// ---------------------------------------------------------------------------
// Test files
// ---------------------------------------------------------------------------
/// A test inside a Rust test module: indented by four spaces, every line.
pub open spec fn rust_block(t: Test) -> Seq<char> {
    "    "@ + replace_newlines(t.code@, "\n    "@) + "\n\n"@
}

/// The Rust blocks of tests, in order.
pub open spec fn rust_blocks(ts: Seq<Test>) -> Seq<char>
    decreases ts.len(),
{
    if ts.len() == 0 {
        Seq::empty()
    } else {
        rust_blocks(ts.drop_last()) + rust_block(ts.last())
    }
}

/// The Rust blocks of tests, last test first.
pub open spec fn reversed_rust_blocks(ts: Seq<Test>) -> Seq<char>
    decreases ts.len(),
{
    if ts.len() == 0 {
        Seq::empty()
    } else {
        rust_block(ts.last()) + reversed_rust_blocks(ts.drop_last())
    }
}

/// Test code followed by a blank line, for each test in order.
pub open spec fn plain_blocks(ts: Seq<Test>) -> Seq<char>
    decreases ts.len(),
{
    if ts.len() == 0 {
        Seq::empty()
    } else {
        plain_blocks(ts.drop_last()) + ts.last().code@ + "\n\n"@
    }
}

/// A new Rust test module holding the tests.
pub open spec fn rust_test_module(ts: Seq<Test>) -> Seq<char> {
    "#[cfg(test)]\nmod tests {\n"@ + "    use super::*;\n\n"@ + rust_blocks(ts) + "}\n"@
}

/// The content of a new test file for a language.
pub open spec fn spec_tests_file(ts: Seq<Test>, language: Seq<char>) -> Seq<char> {
    if language == "rust"@ {
        rust_test_module(ts)
    } else if language == "python"@ {
        "import pytest\n\n"@ + plain_blocks(ts)
    } else if language == "javascript"@ || language == "typescript"@ {
        "const { describe, it, expect } = require('@jest/globals');\n\n"@ + plain_blocks(ts)
    } else {
        Seq::empty()
    }
}

/// Index of the last `}` of `s`.
pub open spec fn last_brace(s: Seq<char>) -> int {
    choose|i: int| 0 <= i < s.len() && s[i] == '}' && forall|j: int| i < j < s.len() ==> s[j] != '}'
}

/// The content of an existing file with tests appended. For Rust, a new
/// test module is added when there is none; otherwise each test is inserted
/// before the file's last `}` (so the tests end up last one first), and a
/// file without `}` stays as it is. Other languages get the tests after a
/// blank line.
pub open spec fn spec_appended(existing: Seq<char>, ts: Seq<Test>, language: Seq<char>) -> Seq<char> {
    if language == "rust"@ {
        if !contains(existing, "#[cfg(test)]"@) {
            existing + "\n"@ + rust_test_module(ts)
        } else if existing.contains('}') {
            let pos = last_brace(existing);
            existing.take(pos) + reversed_rust_blocks(ts) + existing.skip(pos)
        } else {
            existing
        }
    } else {
        existing + "\n\n"@ + plain_blocks(ts)
    }
}

/// Test file writer.
#[derive(Debug, Clone, Copy)]
pub struct TestFileWriter;

fn rust_blocks_of(tests: &Vec<Test>) -> (r: Vec<char>)
    ensures
        r@ == rust_blocks(tests@),
{
    let indent = chars_of("\n    ");
    let mut r: Vec<char> = Vec::new();
    let mut i: usize = 0;
    while i < tests.len()
        invariant
            i <= tests.len(),
            indent@ == "\n    "@,
            r@ == rust_blocks(tests@.take(i as int)),
        decreases tests.len() - i,
    {
        assert(tests@.take(i + 1).drop_last() =~= tests@.take(i as int));
        let code = chars_of(tests[i].code.as_str());
        let body = replace_newlines_chars(&code, &indent);
        let lead = chars_of("    ");
        extend_chars(&mut r, &lead);
        extend_chars(&mut r, &body);
        let tail = chars_of("\n\n");
        extend_chars(&mut r, &tail);
        assert(r@ =~= rust_blocks(tests@.take(i as int)) + rust_block(tests@[i as int]));
        i += 1;
    }
    assert(tests@.take(i as int) =~= tests@);
    r
}

fn reversed_rust_blocks_of(tests: &Vec<Test>) -> (r: Vec<char>)
    ensures
        r@ == reversed_rust_blocks(tests@),
{
    let indent = chars_of("\n    ");
    let mut r: Vec<char> = Vec::new();
    let mut i: usize = 0;
    while i < tests.len()
        invariant
            i <= tests.len(),
            indent@ == "\n    "@,
            r@ == reversed_rust_blocks(tests@.take(i as int)),
        decreases tests.len() - i,
    {
        assert(tests@.take(i + 1).drop_last() =~= tests@.take(i as int));
        let code = chars_of(tests[i].code.as_str());
        let body = replace_newlines_chars(&code, &indent);
        let mut block = chars_of("    ");
        extend_chars(&mut block, &body);
        let tail = chars_of("\n\n");
        extend_chars(&mut block, &tail);
        extend_chars(&mut block, &r);
        assert(block@ =~= rust_block(tests@[i as int]) + reversed_rust_blocks(tests@.take(i as int)));
        r = block;
        i += 1;
    }
    assert(tests@.take(i as int) =~= tests@);
    r
}

fn plain_blocks_of(tests: &Vec<Test>) -> (r: Vec<char>)
    ensures
        r@ == plain_blocks(tests@),
{
    let mut r: Vec<char> = Vec::new();
    let mut i: usize = 0;
    while i < tests.len()
        invariant
            i <= tests.len(),
            r@ == plain_blocks(tests@.take(i as int)),
        decreases tests.len() - i,
    {
        assert(tests@.take(i + 1).drop_last() =~= tests@.take(i as int));
        let code = chars_of(tests[i].code.as_str());
        extend_chars(&mut r, &code);
        let tail = chars_of("\n\n");
        extend_chars(&mut r, &tail);
        assert(r@ =~= plain_blocks(tests@.take(i as int)) + tests@[i as int].code@ + "\n\n"@);
        i += 1;
    }
    assert(tests@.take(i as int) =~= tests@);
    r
}

fn rust_module_of(tests: &Vec<Test>) -> (r: Vec<char>)
    ensures
        r@ == rust_test_module(tests@),
{
    let mut r = chars_of("#[cfg(test)]\nmod tests {\n");
    let usage = chars_of("    use super::*;\n\n");
    extend_chars(&mut r, &usage);
    let blocks = rust_blocks_of(tests);
    extend_chars(&mut r, &blocks);
    let close = chars_of("}\n");
    extend_chars(&mut r, &close);
    r
}

fn last_brace_of(s: &Vec<char>) -> (r: Option<usize>)
    ensures
        match r {
            Some(i) => i < s.len() && s@[i as int] == '}' && i == last_brace(s@),
            None => !s@.contains('}'),
        },
{
    let mut i: usize = s.len();
    while i > 0
        invariant
            i <= s.len(),
            forall|j: int| i <= j < s.len() ==> s@[j] != '}',
        decreases i,
    {
        if s[i - 1] == '}' {
            proof {
                let k = last_brace(s@);
                assert(0 <= k < s@.len() && s@[k] == '}' && forall|j: int| k < j < s@.len() ==> s@[j] != '}');
            }
            return Some(i - 1);
        }
        i -= 1;
    }
    None
}

impl TestFileWriter {
    /// The content of a new test file holding the tests (written to the
    /// output path by the caller).
    pub fn tests_file_content(&self, tests: &GeneratedTests, language: &str) -> (r: String)
        ensures
            r@ == spec_tests_file(tests.tests@, language@),
    {
        let l = chars_of(language);
        if crate::linters::clippy::same(&l, "rust") {
            string_of(&rust_module_of(&tests.tests))
        } else if crate::linters::clippy::same(&l, "python") {
            let mut s = owned("import pytest\n\n");
            push_chars(&mut s, &plain_blocks_of(&tests.tests));
            s
        } else if crate::linters::clippy::same(&l, "javascript") || crate::linters::clippy::same(
            &l,
            "typescript",
        ) {
            let mut s = owned("const { describe, it, expect } = require('@jest/globals');\n\n");
            push_chars(&mut s, &plain_blocks_of(&tests.tests));
            s
        } else {
            String::new()
        }
    }

    /// The content of an existing file with the tests appended (read and
    /// written back by the caller; a file that cannot be read counts as
    /// empty).
    pub fn appended_content(&self, existing: &str, tests: &GeneratedTests, language: &str) -> (r: String)
        ensures
            r@ == spec_appended(existing@, tests.tests@, language@),
    {
        let l = chars_of(language);
        let content = chars_of(existing);
        if crate::linters::clippy::same(&l, "rust") {
            let marker = chars_of("#[cfg(test)]");
            if !contains_chars(&content, &marker) {
                let mut s = owned(existing);
                push_str(&mut s, "\n");
                push_chars(&mut s, &rust_module_of(&tests.tests));
                assert(s@ == spec_appended(existing@, tests.tests@, language@));
                s
            } else {
                match last_brace_of(&content) {
                    Some(pos) => {
                        let mut r = slice_chars(&content, 0, pos);
                        let middle = reversed_rust_blocks_of(&tests.tests);
                        extend_chars(&mut r, &middle);
                        let rest = slice_chars(&content, pos, content.len());
                        extend_chars(&mut r, &rest);
                        assert(r@ =~= existing@.take(pos as int) + reversed_rust_blocks(tests.tests@)
                            + existing@.skip(pos as int));
                        assert(content@[pos as int] == '}');
                        assert(r@ == spec_appended(existing@, tests.tests@, language@));
                        string_of(&r)
                    },
                    None => {
                        assert(!existing@.contains('}'));
                        owned(existing)
                    },
                }
            }
        } else {
            let mut s = owned(existing);
            push_str(&mut s, "\n\n");
            push_chars(&mut s, &plain_blocks_of(&tests.tests));
            assert(s@ == spec_appended(existing@, tests.tests@, language@));
            s
        }
    }
}

proof fn lemma_last_brace_exists(s: Seq<char>)
    requires
        s.contains('}'),
    ensures
        exists|i: int| 0 <= i < s.len() && s[i] == '}' && forall|j: int| i < j < s.len() ==> s[j] != '}',
    decreases s.len(),
{
    if s.last() == '}' {
        assert(0 <= s.len() - 1 < s.len() && s[s.len() - 1] == '}');
    } else {
        let k = choose|k: int| 0 <= k < s.len() && s[k] == '}';
        assert(s.drop_last()[k] == s[k]);
        lemma_last_brace_exists(s.drop_last());
        let i = choose|i: int| 0 <= i < s.drop_last().len() && s.drop_last()[i] == '}' && forall|j: int| i < j < s.drop_last().len() ==> s.drop_last()[j] != '}';
        assert(s[i] == '}');
        assert forall|j: int| i < j < s.len() implies s[j] != '}' by {
            if j < s.len() - 1 {
                assert(s.drop_last()[j] == s[j]);
            }
        }
    }
}

/// Appending no tests to a Rust file that already has a test module leaves
/// it unchanged.
pub proof fn lemma_append_nothing(existing: Seq<char>)
    requires
        contains(existing, "#[cfg(test)]"@),
    ensures
        spec_appended(existing, Seq::<Test>::empty(), "rust"@) == existing,
{
    if existing.contains('}') {
        lemma_last_brace_exists(existing);
        let pos = last_brace(existing);
        assert(0 <= pos < existing.len() && existing[pos] == '}' && forall|j: int|
            pos < j < existing.len() ==> existing[j] != '}');
        assert(existing.take(pos) + Seq::<char>::empty() + existing.skip(pos) =~= existing);
    }
}

} // verus!
