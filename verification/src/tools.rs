//! Review-specific tools: their names, descriptions, parameter schemas and
//! what executing one answers.
use vstd::prelude::*;
use crate::text::owned;

verus! {

/// Review tool types.
#[derive(Debug, Clone, Copy, PartialEq, Eq, Structural)]
pub enum ReviewTool {
    /// Analyze code for issues
    AnalyzeCode,
    /// Detect potential bugs
    DetectBugs,
    /// Check code style
    CheckStyle,
    /// Measure complexity
    MeasureComplexity,
    /// Suggest refactoring
    SuggestRefactoring,
    /// Generate tests
    GenerateTests,
    /// Check documentation
    CheckDocumentation,
    /// Find code duplication
    FindDuplication,
}

/// The registered name of a tool.
pub open spec fn tool_name(t: ReviewTool) -> Seq<char> {
    match t {
        ReviewTool::AnalyzeCode => "analyze_code"@,
        ReviewTool::DetectBugs => "detect_bugs"@,
        ReviewTool::CheckStyle => "check_style"@,
        ReviewTool::MeasureComplexity => "measure_complexity"@,
        ReviewTool::SuggestRefactoring => "suggest_refactoring"@,
        ReviewTool::GenerateTests => "generate_tests"@,
        ReviewTool::CheckDocumentation => "check_documentation"@,
        ReviewTool::FindDuplication => "find_duplication"@,
    }
}

/// The description of a tool.
pub open spec fn tool_description(t: ReviewTool) -> Seq<char> {
    match t {
        ReviewTool::AnalyzeCode => "Analyze code file for issues and improvements"@,
        ReviewTool::DetectBugs => "Detect potential bugs and security issues"@,
        ReviewTool::CheckStyle => "Check code style and formatting"@,
        ReviewTool::MeasureComplexity => "Measure code complexity metrics"@,
        ReviewTool::SuggestRefactoring => "Suggest refactoring opportunities"@,
        ReviewTool::GenerateTests => "Generate test cases for code"@,
        ReviewTool::CheckDocumentation => "Check documentation coverage"@,
        ReviewTool::FindDuplication => "Find duplicated code"@,
    }
}

/// The tools that need an AI model.
pub open spec fn tool_requires_ai(t: ReviewTool) -> bool {
    t is DetectBugs || t is SuggestRefactoring || t is GenerateTests
}

impl ReviewTool {
    /// Get tool name.
    pub fn name(&self) -> (r: &'static str)
        ensures
            r@ == tool_name(*self),
    {
        match self {
            ReviewTool::AnalyzeCode => "analyze_code",
            ReviewTool::DetectBugs => "detect_bugs",
            ReviewTool::CheckStyle => "check_style",
            ReviewTool::MeasureComplexity => "measure_complexity",
            ReviewTool::SuggestRefactoring => "suggest_refactoring",
            ReviewTool::GenerateTests => "generate_tests",
            ReviewTool::CheckDocumentation => "check_documentation",
            ReviewTool::FindDuplication => "find_duplication",
        }
    }

    /// Get tool description.
    pub fn description(&self) -> (r: &'static str)
        ensures
            r@ == tool_description(*self),
    {
        match self {
            ReviewTool::AnalyzeCode => "Analyze code file for issues and improvements",
            ReviewTool::DetectBugs => "Detect potential bugs and security issues",
            ReviewTool::CheckStyle => "Check code style and formatting",
            ReviewTool::MeasureComplexity => "Measure code complexity metrics",
            ReviewTool::SuggestRefactoring => "Suggest refactoring opportunities",
            ReviewTool::GenerateTests => "Generate test cases for code",
            ReviewTool::CheckDocumentation => "Check documentation coverage",
            ReviewTool::FindDuplication => "Find duplicated code",
        }
    }

    /// Check if tool requires AI model.
    pub fn requires_ai(&self) -> (b: bool)
        ensures
            b == tool_requires_ai(*self),
    {
        match self {
            ReviewTool::DetectBugs | ReviewTool::SuggestRefactoring | ReviewTool::GenerateTests => {
                true
            },
            _ => false,
        }
    }
}

// ---------------------------------------------------------------------------
// Parameter schemas
// ---------------------------------------------------------------------------
/// The JSON type of a tool parameter.
#[derive(Debug, Clone, Copy, PartialEq, Eq, Structural)]
pub enum ParamKind {
    /// `"type": "string"`
    Text,
    /// `"type": "array"` of strings
    TextList,
    /// `"type": "boolean"`
    Boolean,
    /// `"type": "integer"`
    Integer,
    /// `"type": "number"`
    Number,
}

/// One property of a tool's parameter object.
#[derive(Debug, Clone)]
pub struct ToolParameter {
    /// Property name
    pub name: String,
    /// Its JSON type
    pub kind: ParamKind,
    /// The values allowed (`"enum"`), empty when any value of the type is
    pub allowed: Vec<String>,
    /// Description of the property
    pub description: String,
}

/// The JSON schema of a tool's parameters: an object with these properties,
/// of which those named in `required` must be given.
#[derive(Debug, Clone)]
pub struct ParameterSchema {
    pub properties: Vec<ToolParameter>,
    pub required: Vec<String>,
}

/// What a parameter states: name, type, allowed values and description.
pub type ParamView = (Seq<char>, ParamKind, Seq<Seq<char>>, Seq<char>);

pub open spec fn str_views(v: Seq<String>) -> Seq<Seq<char>> {
    v.map_values(|s: String| s@)
}

pub open spec fn param_view(p: ToolParameter) -> ParamView {
    (p.name@, p.kind, str_views(p.allowed@), p.description@)
}

pub open spec fn schema_properties(s: ParameterSchema) -> Seq<ParamView> {
    s.properties@.map_values(|p: ToolParameter| param_view(p))
}

/// A parameter with no list of allowed values.
pub open spec fn plain(name: Seq<char>, kind: ParamKind, description: Seq<char>) -> ParamView {
    (name, kind, Seq::<Seq<char>>::empty(), description)
}

/// The properties each tool's schema declares, in order.
pub open spec fn tool_properties(t: ReviewTool) -> Seq<ParamView> {
    match t {
        ReviewTool::AnalyzeCode => seq![
            plain("file_path"@, ParamKind::Text, "Path to the file to analyze"@),
            plain("analysis_types"@, ParamKind::TextList, "Types of analysis to perform"@),
        ],
        ReviewTool::DetectBugs => seq![
            plain("file_path"@, ParamKind::Text, "Path to the file to check"@),
            (
                "severity_threshold"@,
                ParamKind::Text,
                seq!["info"@, "warning"@, "error"@, "critical"@],
                "Minimum severity level to report"@,
            ),
        ],
        ReviewTool::CheckStyle => seq![
            plain("file_path"@, ParamKind::Text, "Path to the file to check"@),
            plain("auto_fix"@, ParamKind::Boolean, "Automatically fix style issues"@),
        ],
        ReviewTool::MeasureComplexity => seq![
            plain("file_path"@, ParamKind::Text, "Path to the file to measure"@),
            plain("threshold"@, ParamKind::Integer, "Complexity threshold for warnings"@),
        ],
        ReviewTool::SuggestRefactoring => seq![
            plain("file_path"@, ParamKind::Text, "Path to the file to analyze"@),
            plain("focus_areas"@, ParamKind::TextList, "Specific areas to focus on"@),
        ],
        ReviewTool::GenerateTests => seq![
            plain("file_path"@, ParamKind::Text, "Path to the file to generate tests for"@),
            plain("test_framework"@, ParamKind::Text, "Test framework to use"@),
        ],
        ReviewTool::CheckDocumentation => seq![
            plain("file_path"@, ParamKind::Text, "Path to the file to check"@),
            plain("min_coverage"@, ParamKind::Number, "Minimum documentation coverage required"@),
        ],
        ReviewTool::FindDuplication => seq![
            plain("directory"@, ParamKind::Text, "Directory to scan for duplication"@),
            plain("min_lines"@, ParamKind::Integer, "Minimum lines for duplication detection"@),
        ],
    }
}

/// The parameters each tool's schema requires.
pub open spec fn tool_required(t: ReviewTool) -> Seq<Seq<char>> {
    match t {
        ReviewTool::FindDuplication => seq!["directory"@],
        _ => seq!["file_path"@],
    }
}

/// The tools in the order they are registered.
pub open spec fn registered_tools() -> Seq<ReviewTool> {
    seq![
        ReviewTool::AnalyzeCode,
        ReviewTool::DetectBugs,
        ReviewTool::CheckStyle,
        ReviewTool::MeasureComplexity,
        ReviewTool::SuggestRefactoring,
        ReviewTool::GenerateTests,
        ReviewTool::CheckDocumentation,
        ReviewTool::FindDuplication,
    ]
}

/// Review tool specification for registration.
#[derive(Debug, Clone)]
pub struct ReviewToolSpec {
    /// Tool type
    pub tool: ReviewTool,
    /// Tool name
    pub name: String,
    /// Tool description
    pub description: String,
    /// JSON schema for parameters
    pub parameters: ParameterSchema,
}

/// A registration entry states its tool's name, description and schema.
pub open spec fn spec_describes(s: ReviewToolSpec, t: ReviewTool) -> bool {
    &&& s.tool == t
    &&& s.name@ == tool_name(t)
    &&& s.description@ == tool_description(t)
    &&& schema_properties(s.parameters) == tool_properties(t)
    &&& str_views(s.parameters.required@) == tool_required(t)
}

fn param(name: &str, kind: ParamKind, description: &str) -> (p: ToolParameter)
    ensures
        param_view(p) == plain(name@, kind, description@),
{
    let p = ToolParameter { name: owned(name), kind, allowed: Vec::new(), description: owned(description) };
    assert(str_views(p.allowed@) =~= Seq::<Seq<char>>::empty());
    p
}

fn schema_of(tool: ReviewTool) -> (s: ParameterSchema)
    ensures
        schema_properties(s) == tool_properties(tool),
        str_views(s.required@) == tool_required(tool),
{
    let (first, second) = match tool {
        ReviewTool::AnalyzeCode => (
            param("file_path", ParamKind::Text, "Path to the file to analyze"),
            param("analysis_types", ParamKind::TextList, "Types of analysis to perform"),
        ),
        ReviewTool::DetectBugs => {
            let levels = vec![owned("info"), owned("warning"), owned("error"), owned("critical")];
            assert(str_views(levels@) =~= seq!["info"@, "warning"@, "error"@, "critical"@]);
            (
                param("file_path", ParamKind::Text, "Path to the file to check"),
                ToolParameter {
                    name: owned("severity_threshold"),
                    kind: ParamKind::Text,
                    allowed: levels,
                    description: owned("Minimum severity level to report"),
                },
            )
        },
        ReviewTool::CheckStyle => (
            param("file_path", ParamKind::Text, "Path to the file to check"),
            param("auto_fix", ParamKind::Boolean, "Automatically fix style issues"),
        ),
        ReviewTool::MeasureComplexity => (
            param("file_path", ParamKind::Text, "Path to the file to measure"),
            param("threshold", ParamKind::Integer, "Complexity threshold for warnings"),
        ),
        ReviewTool::SuggestRefactoring => (
            param("file_path", ParamKind::Text, "Path to the file to analyze"),
            param("focus_areas", ParamKind::TextList, "Specific areas to focus on"),
        ),
        ReviewTool::GenerateTests => (
            param("file_path", ParamKind::Text, "Path to the file to generate tests for"),
            param("test_framework", ParamKind::Text, "Test framework to use"),
        ),
        ReviewTool::CheckDocumentation => (
            param("file_path", ParamKind::Text, "Path to the file to check"),
            param("min_coverage", ParamKind::Number, "Minimum documentation coverage required"),
        ),
        ReviewTool::FindDuplication => (
            param("directory", ParamKind::Text, "Directory to scan for duplication"),
            param("min_lines", ParamKind::Integer, "Minimum lines for duplication detection"),
        ),
    };
    let required = match tool {
        ReviewTool::FindDuplication => vec![owned("directory")],
        _ => vec![owned("file_path")],
    };
    let s = ParameterSchema { properties: vec![first, second], required };
    assert(schema_properties(s) =~= tool_properties(tool));
    assert(str_views(s.required@) =~= tool_required(tool));
    s
}

fn spec_for(tool: ReviewTool) -> (s: ReviewToolSpec)
    ensures
        spec_describes(s, tool),
{
    ReviewToolSpec {
        tool,
        name: owned(tool.name()),
        description: owned(tool.description()),
        parameters: schema_of(tool),
    }
}

/// Errors of tool registration and execution (none occur today; the
/// `Result` is kept for callers that integrate other tool systems).
#[derive(Debug, Clone)]
pub enum ToolError {
    Unavailable(String),
}

/// Register review tools: one entry per tool, in declaration order, each
/// with its name, description and parameter schema.
pub fn register_review_tools() -> (r: Result<Vec<ReviewToolSpec>, ToolError>)
    ensures
        r is Ok,
        r matches Ok(v) ==> v@.len() == registered_tools().len() && forall|i: int|
            0 <= i < v@.len() ==> spec_describes(#[trigger] v@[i], registered_tools()[i]),
{
    let order = vec![
        ReviewTool::AnalyzeCode,
        ReviewTool::DetectBugs,
        ReviewTool::CheckStyle,
        ReviewTool::MeasureComplexity,
        ReviewTool::SuggestRefactoring,
        ReviewTool::GenerateTests,
        ReviewTool::CheckDocumentation,
        ReviewTool::FindDuplication,
    ];
    assert(order@ =~= registered_tools());
    let mut tools: Vec<ReviewToolSpec> = Vec::new();
    let mut i: usize = 0;
    while i < order.len()
        invariant
            i <= order.len(),
            order@ == registered_tools(),
            tools@.len() == i,
            forall|k: int| 0 <= k < i ==> spec_describes(#[trigger] tools@[k], registered_tools()[k]),
        decreases order.len() - i,
    {
        tools.push(spec_for(order[i]));
        i += 1;
    }
    Ok(tools)
}

/// Every parameter a tool requires is one of the properties its schema
/// declares, and no property is declared twice.
pub proof fn lemma_required_parameters_declared(t: ReviewTool)
    ensures
        forall|j: int|
            0 <= j < tool_required(t).len() ==> exists|k: int|
                0 <= k < tool_properties(t).len() && (#[trigger] tool_properties(t)[k]).0
                    == #[trigger] tool_required(t)[j],
        forall|a: int, b: int|
            0 <= a < b < tool_properties(t).len() ==> (#[trigger] tool_properties(t)[a]).0
                != (#[trigger] tool_properties(t)[b]).0,
{
    reveal_strlit("file_path");
    reveal_strlit("directory");
    reveal_strlit("analysis_types");
    reveal_strlit("severity_threshold");
    reveal_strlit("auto_fix");
    reveal_strlit("threshold");
    reveal_strlit("focus_areas");
    reveal_strlit("test_framework");
    reveal_strlit("min_coverage");
    reveal_strlit("min_lines");
    assert(tool_properties(t)[0].0 == tool_required(t)[0]);
    let first = tool_properties(t)[0].0;
    let second = tool_properties(t)[1].0;
    assert(first[0] != second[0] || first[1] != second[1]);
    assert(first != second);
}

/// Registered tool names are pairwise distinct.
pub proof fn lemma_tool_names_distinct(a: ReviewTool, b: ReviewTool)
    requires
        a != b,
    ensures
        tool_name(a) != tool_name(b),
{
    reveal_strlit("analyze_code");
    reveal_strlit("detect_bugs");
    reveal_strlit("check_style");
    reveal_strlit("measure_complexity");
    reveal_strlit("suggest_refactoring");
    reveal_strlit("generate_tests");
    reveal_strlit("check_documentation");
    reveal_strlit("find_duplication");
    if tool_name(a) == tool_name(b) {
        assert(tool_name(a)[0] == tool_name(b)[0]);
        assert(tool_name(a).len() == tool_name(b).len());
        assert(tool_name(a)[1] == tool_name(b)[1]);
        assert(tool_name(a)[6] == tool_name(b)[6]);
    }
}

// ---------------------------------------------------------------------------
// Execution
// ---------------------------------------------------------------------------
#[verifier::external_type_specification]
#[verifier::external_body]
pub struct ExJsonValue(serde_json::Value);

/// Tool execution request.
#[derive(Debug)]
pub struct ToolRequest {
    /// Tool to execute
    pub tool: ReviewTool,
    /// File path
    pub file_path: String,
    /// Additional parameters, carried as the JSON value they were given in
    pub params: serde_json::Value,
}

/// The result data of a tool run.
#[derive(Debug, Clone)]
pub enum ToolOutput {
    /// `{"issues": [], "suggestions": []}`: no issues and no suggestions
    Findings,
    /// `{"style_issues": []}`: no style issues
    StyleIssues,
    /// `{"complexity": .., "functions": []}`
    Complexity { complexity: u64 },
    /// `{"message": ..}`
    Message(String),
}

/// Tool execution response.
#[derive(Debug, Clone)]
pub struct ToolResponse {
    /// Tool that was executed
    pub tool: ReviewTool,
    /// Success status
    pub success: bool,
    /// Result data
    pub result: ToolOutput,
    /// Error message (if failed)
    pub error: Option<String>,
}

/// What executing a tool answers.
pub open spec fn spec_tool_output(t: ReviewTool, out: ToolOutput) -> bool {
    match t {
        ReviewTool::AnalyzeCode => out is Findings,
        ReviewTool::CheckStyle => out is StyleIssues,
        ReviewTool::MeasureComplexity => out == ToolOutput::Complexity { complexity: 5 },
        _ => out matches ToolOutput::Message(m) && m@ == "Tool "@ + tool_name(t) + " not yet implemented"@,
    }
}

/// Execute a review tool: it succeeds, with the answer of its kind.
pub fn execute_tool(request: ToolRequest) -> (r: Result<ToolResponse, ToolError>)
    ensures
        r is Ok,
        r matches Ok(resp) ==> resp.tool == request.tool && resp.success && resp.error is None
            && spec_tool_output(request.tool, resp.result),
{
    let result = match request.tool {
        ReviewTool::AnalyzeCode => ToolOutput::Findings,
        ReviewTool::CheckStyle => ToolOutput::StyleIssues,
        ReviewTool::MeasureComplexity => ToolOutput::Complexity { complexity: 5 },
        _ => {
            let mut m = owned("Tool ");
            crate::text::push_str(&mut m, request.tool.name());
            crate::text::push_str(&mut m, " not yet implemented");
            ToolOutput::Message(m)
        },
    };
    Ok(ToolResponse { tool: request.tool, success: true, result, error: None })
}

} // verus!
