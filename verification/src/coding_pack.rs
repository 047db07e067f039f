//! The pack of the coding domain.

use vstd::prelude::*;
use crate::builtin_sources::{
    self, DateSource, EnvironmentInfoSource, FileTreeSource, GitStatusSource, ProjectConfigSource,
    ProjectInstructionsSource,
};
use crate::collections::{self, NameSet, Table};
use crate::compression_template::{self, CompressionTemplate, CompressionTemplateView};
use crate::context_source::{RefreshPolicyView, SourceHandle, SourceHandleView};
use crate::domain_pack::{self, DomainPack, DomainPackView, ToolHandle, ToolHandleView};
use crate::memory_profile::{self, MemoryProfile};
use crate::paradigm_strategy::{
    self, DomainParadigmKind, ParadigmStrategy, ParadigmStrategyView, SubAgentMergeStrategy,
    SubAgentTypeDefinition, SubAgentTypeDefinitionView,
};
use crate::permission_profile::{
    self, DenyPattern, DenyPatternView, PermissionProfile, PermissionProfileView,
};
use crate::repo_map::RepoMapSource;
use crate::text;
use crate::time;
use crate::tool_decorator::{self, ToolDecorator, ToolDecoratorView};
use crate::types::PermissionLevel;
use crate::workflow::{
    self, EdgeCondition, GraphEdge, GraphEdgeView, GraphNode, GraphNodeView, StateGraph,
    StateGraphView, StepConfig, StepConfigView, WorkflowConfig, WorkflowConfigView,
};

verus! {

/// What the agents of the coding domain are told.
pub const CODING_SYSTEM_PROMPT: &'static str = "You are an intelligent coding assistant that can plan, execute, and reflect on software development tasks. You have access to tools for reading, editing, searching, and executing code in the project.\n\n**Tool Selection Rules (CRITICAL — always follow these):**\n\nAlways prefer the most specific tool available over shell commands:\n- For reading files: use read_file (NOT shell cat/head/tail/less)\n- For editing files: use edit_file (NOT shell sed/awk/perl -i)\n- For creating files: use apply_patch or edit_file (NOT shell echo/tee)\n- For listing directories: use list_directory (NOT shell ls/find -type d)\n- For searching content: use grep (NOT shell grep/find)\n- For finding files: use glob (NOT shell find/locate)\n\nUse shell ONLY for: compilation, testing, git operations, package management, running scripts, and commands that have no dedicated tool equivalent. Shell is the LEAST preferred tool — always check if a specialized tool exists first.\n\nKey principles:\n1. **Read before edit**: Always read the relevant files before making changes. Understand the existing code structure before modifying it.\n2. **Precise edits**: Use exact string matching for edits. Avoid large rewrites when targeted edits suffice.\n3. **Test after changes**: After modifying code, run relevant tests to verify the changes work correctly.\n4. **Incremental progress**: Break complex tasks into smaller steps. Complete each step before moving to the next.\n5. **Preserve context**: When working on multi-step tasks, keep track of which files you've modified and what decisions you've made.\n\nWhen you need to use a tool, output a tool call. When you have the final answer, respond with just text without any tool calls. When a task is complex, you can delegate it to a specialized sub-agent or switch to a planning paradigm.\n\n**Current information**: Your knowledge has a training cutoff. For anything that may have changed since then (recent news, latest library/framework versions, current prices, live data, recent documentation), call `web_search` to find current sources and `web_fetch` to read them — do not answer from memory. The current date/time is appended to this prompt; use it to judge recency.";

/// What the agent `searcher` is told.
pub const SEARCHER_AGENT_PROMPT: &'static str = "You are a code exploration agent. Your job is to search and understand the codebase. Use read_file, grep, and glob to find relevant code. Return a comprehensive summary of your findings including file paths, function signatures, and key patterns.";

/// What the agent `coder` is told.
pub const CODER_AGENT_PROMPT: &'static str = "You are a code implementation agent. Your job is to write and modify code based on the given specification. Use edit_file and write_file for changes, shell for running tests, and read_file to understand the codebase. Return a summary of all changes you made.";

/// What the agent `review` is told.
pub const REVIEW_AGENT_PROMPT: &'static str = "You are a code review agent. Your job is to review code changes for correctness bugs, style issues, and potential improvements. Use read_file to examine the changed code and grep to find related patterns. Return a structured review with findings and suggestions.";

/// What is said of the tool `read_file`.
pub const CODING_READ_FILE_NOTE: &'static str = "Read source code files. Supports offset+limit for large files to avoid overflowing the context window. Returns content with line numbers. For binary files, returns base64-encoded data.\n\n**RECOMMENDED** — always prefer read_file over shell for reading files:\n- Do NOT use shell cat → use read_file\n- Do NOT use shell head/tail → use read_file with offset+limit\n- Do NOT use shell less → use read_file\n- read_file returns structured line-numbered output, handles encoding, and respects the context window budget";

/// What is said of the tool `edit_file`.
pub const CODING_EDIT_FILE_NOTE: &'static str = "Perform precise code edits using exact string matching. The old_string must be unique in the file. This is a safe, targeted editing mechanism — avoid large rewrites when targeted edits suffice.\n\n**RECOMMENDED** — always prefer edit_file over shell for editing files:\n- Do NOT use shell sed → use edit_file\n- Do NOT use shell awk → use edit_file\n- Do NOT use shell perl -i → use edit_file\n- edit_file ensures exact, atomic replacements with validation, unlike shell text manipulation which is error-prone and irreversible";

/// What is said of the tool `apply_patch`.
pub const CODING_APPLY_PATCH_NOTE: &'static str = "Apply a unified diff patch to modify multiple files at once. Use for multi-file refactoring, batch edits, and applying review suggestions. The patch should be in standard unified diff format. Each file's changes are applied atomically — context mismatches skip that file with an error.\n\n**RECOMMENDED** for multi-file changes — prefer apply_patch over shell patch command";

/// What is said of the tool `shell`.
pub const CODING_SHELL_NOTE: &'static str = "Execute shell commands. ONLY use shell for operations that have NO dedicated tool equivalent:\n- Compilation: cargo build, npm run build, make\n- Testing: cargo test, npm test, pytest\n- Git: git status, git diff, git log, git commit\n- Package management: cargo add, npm install, pip install\n- Running scripts: python script.py, bash script.sh\n\n**Do NOT use shell for file operations — use dedicated tools instead**:\n- Do NOT use cat → use read_file\n- Do NOT use sed/awk → use edit_file\n- Do NOT use echo > file → use edit_file or apply_patch\n- Do NOT use ls → use list_directory\n- Do NOT use grep → use grep tool\n- Do NOT use find → use glob\n- Do NOT use mkdir → use edit_file (creates files), list_directory checks dirs\n\nCommands run with timeout (default 120s, max 600s). Dangerous commands (rm -rf, mkfs, dd, chmod 777) are blocked. Output truncated at 100KB.";

/// What is said of the tool `grep`.
pub const CODING_GREP_NOTE: &'static str = "Search code content using regex patterns. Recursively searches the project directory for matching lines with file paths and line numbers. Use for: finding function definitions, usages, patterns across the codebase.\n\n**RECOMMENDED** — prefer this over shell grep:\n- Do NOT use shell grep → use this grep tool\n- Do NOT use shell rg/ag → use this grep tool\n- Native Rust implementation, no shell dependency, respects context limits";

/// What is said of the tool `glob`.
pub const CODING_GLOB_NOTE: &'static str = "Find files matching glob patterns (e.g., '**/*.rs', 'src/**/*.toml'). Faster than grep for file discovery. Use for: finding source files, config files, test files.\n\n**RECOMMENDED** — prefer this over shell find:\n- Do NOT use shell find → use glob\n- Do NOT use shell locate → use glob\n- Native Rust implementation, no shell dependency";

/// What is said of the tool `list_directory`.
pub const CODING_LIST_DIRECTORY_NOTE: &'static str = "List directory contents showing files and subdirectories with sizes. Use for: exploring project structure, finding relevant directories.\n\n**RECOMMENDED** — prefer this over shell ls:\n- Do NOT use shell ls → use list_directory\n- Do NOT use shell find -type d → use list_directory\n- Returns structured output with file sizes, unlike raw ls output";

/// What is said of the tool `environment`.
pub const CODING_ENVIRONMENT_NOTE: &'static str = "Get environment information: working directory, platform, shell, available tools. Pure observation — no modifications.";

/// What is said of the tool `web_fetch`.
pub const CODING_WEB_FETCH_NOTE: &'static str = "Fetch content from a web URL and convert it to structured Markdown. Preserves headings, links, and other semantic elements. Use for: fetching documentation, API references, blog posts, and any web content.\n\n**RECOMMENDED** — prefer this over shell curl for URL content:\n- Do NOT use shell curl → use web_fetch (returns structured content)\n- Only use shell curl when you need raw binary data or streaming";

/// What is said of the tool `web_search`.
pub const CODING_WEB_SEARCH_NOTE: &'static str = "Search the web for current information. Returns titles, URLs, and snippets. Use this whenever a question is time-sensitive or may have changed since your training (recent news, latest releases/versions, current prices, live data, recent docs), then use web_fetch to read the most promising results.\n\n**RECOMMENDED** for fresh information:\n- For 'latest' / 'current' / 'recent' / 'new' questions → web_search first\n- Do NOT guess from memory for anything that may have changed\n- Combine web_search + web_fetch; cross-reference multiple results";

/// When a strategy applies.
pub const STRATEGY_NOTE: &'static str = "Complex refactoring/rewrite tasks require planning, execution, and review";

/// When a strategy applies.
pub const STRATEGY_NOTE_2: &'static str = "Bug fixing requires understanding the problem and applying targeted fixes";

/// What the model is asked in the step `quality_review`.
pub const CODE_REVIEW_QUALITY_REVIEW_PROMPT: &'static str = "Review the following code changes for correctness, style, and efficiency issues:\n{{read_diff_output}}";

/// What the model is asked in the step `compile_report`.
pub const CODE_REVIEW_COMPILE_REPORT_PROMPT: &'static str = "Compile a code review report:\n- Syntax: {{check_syntax_output}}\n- Tests: {{run_tests_output}}\n- Quality: {{quality_review_output}}";

/// What the model is asked in the step `analyze`.
pub const DEBUG_ANALYZE_PROMPT: &'static str = "Analyze this bug: error={{reproduce_output}}, related code={{search_code_output}}";

/// What the model is asked in the step `analyze_code`.
pub const REFACTOR_ANALYZE_CODE_PROMPT: &'static str = "Analyze the following code and identify refactoring opportunities. Focus on: duplicated logic, overly complex functions, poor naming, missing abstractions, and violations of SOLID principles.\n\nLook at the project structure and key files to understand the current design.";

/// What the model is asked in the step `plan_refactor`.
pub const REFACTOR_PLAN_REFACTOR_PROMPT: &'static str = "Based on the analysis: {{analyze_code_output}}\n\nCreate a detailed refactoring plan. For each change, specify:\n1. What file/function to modify\n2. The exact change to make\n3. Why this change improves the code\n4. Potential risks and how to mitigate them\n\nPrioritize changes by impact (high → low) and risk (low → high).";

/// What the model is asked in the step `understand_code`.
pub const TEST_UNDERSTAND_CODE_PROMPT: &'static str = "Analyze the codebase to understand what needs testing. Identify:\n1. Public functions and their expected behavior\n2. Edge cases and error conditions\n3. Integration points between modules\n4. Current test coverage gaps\n\nFocus on the most critical and under-tested components.";

/// What the model is asked in the step `generate_tests`.
pub const TEST_GENERATE_TESTS_PROMPT: &'static str = "Based on the analysis: {{understand_code_output}}\n\nGenerate comprehensive test cases. For each function/module identified:\n1. Write unit tests for normal behavior\n2. Write edge case tests\n3. Write error condition tests\n4. Write integration tests where applicable\n\nUse the project's existing test framework (cargo test for Rust, pytest for Python, etc.). Output the complete test code.";

/// What the model is asked in the step `fix_failures`.
pub const TEST_FIX_FAILURES_PROMPT: &'static str = "The test run produced these results: {{run_tests_output}}\n\nAnalyze any test failures and fix them. Common issues:\n1. Test assumptions don't match actual behavior → adjust test expectations\n2. Missing imports or setup → add the required scaffolding\n3. Async/timing issues → add proper waits or mocks\n4. Environment dependencies → mock or isolate them\n\nProvide the corrected test code.";

/// What the model is told at the node `plan`.
pub const PLAN_PLAN_PROMPT: &'static str = "You are a planning agent. Decompose the task into ordered, dependency-ordered steps. Use `task_create` to commit the step list, then `exit_plan_mode` to submit, or give the plan as your final answer text.";

/// What the model is told at the node `end`.
pub const PLAN_END_PROMPT: &'static str = "Present the finalized plan to the user as a clear, ordered list of steps.";

/// What the model is told at the node `reflect`.
pub const REFLECT_REFLECT_PROMPT: &'static str = "You are a reflection agent. Critically review the last result: check for correctness, gaps, and regressions. If a verification or fix is needed, call the right tool; otherwise give your final assessment as text.";

/// What the model is told at the node `explore`.
pub const EXPLORE_EXPLORE_PROMPT: &'static str = "You are an exploration agent. Search and understand the codebase/environment. Call tools to inspect, or delegate focused sub-searches to an Explore sub-agent. When you have enough, give your findings as your final answer.";

/// What the model is told at the node `synthesize`.
pub const EXPLORE_SYNTHESIZE_PROMPT: &'static str = "Synthesize the exploration findings into a comprehensive final summary: file paths, key signatures, and patterns.";

/// What the coding pack is for.
pub const CODING_DESCRIPTION: &'static str = "Coding domain pack — provides tools, context, permissions, and strategies for software development tasks";

/// The agent that looks through the code.
pub open spec fn searcher_agent() -> SubAgentTypeDefinitionView {
    SubAgentTypeDefinitionView {
        name: "searcher"@,
        description: "Explores the codebase to find relevant files, functions, and patterns"@,
        system_prompt: SEARCHER_AGENT_PROMPT@,
        available_tools: seq!["read_file"@, "grep"@, "glob"@, "list_directory"@],
        permission_threshold: PermissionLevel::Read,
        budget: 40_000,
        modifies_files: false,
        merge_strategy: SubAgentMergeStrategy::PreserveOnly,
        structured_output: None,
    }
}

/// The agent that looks through the code.
pub fn searcher() -> (r: SubAgentTypeDefinition)
    ensures
        r.deep_view() == searcher_agent(),
{
    SubAgentTypeDefinition {
        name: "searcher".to_string(),
        description: "Explores the codebase to find relevant files, functions, and patterns".to_string(),
        system_prompt: SEARCHER_AGENT_PROMPT.to_string(),
        available_tools: text::texts(["read_file", "grep", "glob", "list_directory"]),
        permission_threshold: PermissionLevel::Read,
        budget: 40_000,
        modifies_files: false,
        merge_strategy: SubAgentMergeStrategy::PreserveOnly,
        structured_output: None,
    }
}

/// The agent that changes the code.
pub open spec fn coder_agent() -> SubAgentTypeDefinitionView {
    SubAgentTypeDefinitionView {
        name: "coder"@,
        description: "Implements code changes based on a plan or specification"@,
        system_prompt: CODER_AGENT_PROMPT@,
        available_tools: seq!["read_file"@, "edit_file"@, "shell"@, "grep"@, "glob"@],
        permission_threshold: PermissionLevel::Standard,
        budget: 80_000,
        modifies_files: true,
        merge_strategy: SubAgentMergeStrategy::Merge,
        structured_output: None,
    }
}

/// The agent that changes the code.
pub fn coder() -> (r: SubAgentTypeDefinition)
    ensures
        r.deep_view() == coder_agent(),
{
    SubAgentTypeDefinition {
        name: "coder".to_string(),
        description: "Implements code changes based on a plan or specification".to_string(),
        system_prompt: CODER_AGENT_PROMPT.to_string(),
        available_tools: text::texts(["read_file", "edit_file", "shell", "grep", "glob"]),
        permission_threshold: PermissionLevel::Standard,
        budget: 80_000,
        modifies_files: true,
        merge_strategy: SubAgentMergeStrategy::Merge,
        structured_output: None,
    }
}

/// The agent that looks over changes.
pub open spec fn changes_reader_agent() -> SubAgentTypeDefinitionView {
    SubAgentTypeDefinitionView {
        name: "review"@,
        description: "Reviews code changes for correctness, quality, and potential issues"@,
        system_prompt: REVIEW_AGENT_PROMPT@,
        available_tools: seq!["read_file"@, "grep"@, "glob"@],
        permission_threshold: PermissionLevel::Read,
        budget: 30_000,
        modifies_files: false,
        merge_strategy: SubAgentMergeStrategy::PreserveOnly,
        structured_output: None,
    }
}

/// The agent that looks over changes.
pub fn changes_reader() -> (r: SubAgentTypeDefinition)
    ensures
        r.deep_view() == changes_reader_agent(),
{
    SubAgentTypeDefinition {
        name: "review".to_string(),
        description: "Reviews code changes for correctness, quality, and potential issues".to_string(),
        system_prompt: REVIEW_AGENT_PROMPT.to_string(),
        available_tools: text::texts(["read_file", "grep", "glob"]),
        permission_threshold: PermissionLevel::Read,
        budget: 30_000,
        modifies_files: false,
        merge_strategy: SubAgentMergeStrategy::PreserveOnly,
        structured_output: None,
    }
}

/// The agents that help in the coding domain.
pub open spec fn coding_agents() -> Seq<SubAgentTypeDefinitionView> {
    seq![searcher_agent(), coder_agent(), changes_reader_agent()]
}

/// The agents that help in the coding domain.
pub fn coding_sub_agent_types() -> (r: Vec<SubAgentTypeDefinition>)
    ensures
        r.deep_view() == coding_agents(),
{
    let r = vec![searcher(), coder(), changes_reader()];
    assert(r.deep_view() =~= coding_agents());
    r
}

/// What the coding domain says of its tools.
pub open spec fn coding_decorators_table() -> Seq<ToolDecoratorView> {
    seq![
        tool_decorator::decorated("read_file"@, CODING_READ_FILE_NOTE@, None),
        tool_decorator::decorated("edit_file"@, CODING_EDIT_FILE_NOTE@, None),
        tool_decorator::decorated("apply_patch"@, CODING_APPLY_PATCH_NOTE@, None),
        tool_decorator::decorated("shell"@, CODING_SHELL_NOTE@, Some(PermissionLevel::Full)),
        tool_decorator::decorated("grep"@, CODING_GREP_NOTE@, None),
        tool_decorator::decorated("glob"@, CODING_GLOB_NOTE@, None),
        tool_decorator::decorated("list_directory"@, CODING_LIST_DIRECTORY_NOTE@, None),
        tool_decorator::decorated("environment"@, CODING_ENVIRONMENT_NOTE@, None),
        tool_decorator::decorated("web_fetch"@, CODING_WEB_FETCH_NOTE@, None),
        tool_decorator::decorated("web_search"@, CODING_WEB_SEARCH_NOTE@, None),
    ]
}

/// What the coding domain says of its tools.
pub fn coding_decorators() -> (r: Vec<ToolDecorator>)
    ensures
        r.deep_view() == coding_decorators_table(),
{
    let r = vec![
        ToolDecorator::with_description("read_file", CODING_READ_FILE_NOTE),
        ToolDecorator::with_description("edit_file", CODING_EDIT_FILE_NOTE),
        ToolDecorator::with_description("apply_patch", CODING_APPLY_PATCH_NOTE),
        ToolDecorator::with_description_and_permission(
            "shell",
            CODING_SHELL_NOTE,
            PermissionLevel::Full,
        ),
        ToolDecorator::with_description("grep", CODING_GREP_NOTE),
        ToolDecorator::with_description("glob", CODING_GLOB_NOTE),
        ToolDecorator::with_description("list_directory", CODING_LIST_DIRECTORY_NOTE),
        ToolDecorator::with_description("environment", CODING_ENVIRONMENT_NOTE),
        ToolDecorator::with_description("web_fetch", CODING_WEB_FETCH_NOTE),
        ToolDecorator::with_description("web_search", CODING_WEB_SEARCH_NOTE),
    ];
    assert(r.deep_view() =~= coding_decorators_table());
    r
}

/// Which ways of working fit which tasks in the coding domain.
pub open spec fn coding_strategies_table() -> Seq<ParadigmStrategyView> {
    seq![
        ParadigmStrategyView {
            trigger_pattern: "refactor|rewrite|restructure|redesign"@,
            paradigm_sequence: seq![
                DomainParadigmKind::Plan,
                DomainParadigmKind::ReAct,
                DomainParadigmKind::Reflect,
            ],
            sub_agent_types: coding_agents(),
            description: STRATEGY_NOTE@,
        },
        ParadigmStrategyView {
            trigger_pattern: "fix|bug|error|crash|broken|debug|issue"@,
            paradigm_sequence: seq![DomainParadigmKind::Plan, DomainParadigmKind::ReAct],
            sub_agent_types: coding_agents(),
            description: STRATEGY_NOTE_2@,
        },
        ParadigmStrategyView {
            trigger_pattern: "find|search|understand|explain|how|where|what"@,
            paradigm_sequence: seq![DomainParadigmKind::Explore],
            sub_agent_types: seq![searcher_agent()],
            description: "Search and understanding tasks use exploration paradigm"@,
        },
        ParadigmStrategyView {
            trigger_pattern: "implement|add|create|build|write|develop"@,
            paradigm_sequence: seq![DomainParadigmKind::ReAct],
            sub_agent_types: seq![coder_agent()],
            description: "Implementation tasks use ReAct for iterative development"@,
        },
    ]
}

/// Which ways of working fit which tasks in the coding domain.
pub fn coding_strategies() -> (r: Vec<ParadigmStrategy>)
    ensures
        r.deep_view() == coding_strategies_table(),
{
    let r = vec![
        ParadigmStrategy {
            trigger_pattern: "refactor|rewrite|restructure|redesign".to_string(),
            paradigm_sequence: vec![
                DomainParadigmKind::Plan,
                DomainParadigmKind::ReAct,
                DomainParadigmKind::Reflect,
            ],
            sub_agent_types: coding_sub_agent_types(),
            description: STRATEGY_NOTE.to_string(),
        },
        ParadigmStrategy {
            trigger_pattern: "fix|bug|error|crash|broken|debug|issue".to_string(),
            paradigm_sequence: vec![DomainParadigmKind::Plan, DomainParadigmKind::ReAct],
            sub_agent_types: coding_sub_agent_types(),
            description: STRATEGY_NOTE_2.to_string(),
        },
        ParadigmStrategy {
            trigger_pattern: "find|search|understand|explain|how|where|what".to_string(),
            paradigm_sequence: vec![DomainParadigmKind::Explore],
            sub_agent_types: vec![searcher()],
            description: "Search and understanding tasks use exploration paradigm".to_string(),
        },
        ParadigmStrategy {
            trigger_pattern: "implement|add|create|build|write|develop".to_string(),
            paradigm_sequence: vec![DomainParadigmKind::ReAct],
            sub_agent_types: vec![coder()],
            description: "Implementation tasks use ReAct for iterative development".to_string(),
        },
    ];
    assert(r.deep_view() =~~= coding_strategies_table());
    r
}

/// Looking over changes.
pub open spec fn code_review_steps() -> Seq<StepConfigView> {
    seq![
        workflow::tool_step(
            "read_diff"@,
            "Read recent code changes"@,
            Seq::empty(),
            "shell"@,
            workflow::one_argument("command"@, "git diff HEAD"@),
            Some(30),
        ),
        workflow::tool_step(
            "check_syntax"@,
            "Syntax check"@,
            seq!["read_diff"@],
            "shell"@,
            workflow::one_argument("command"@, "cargo check 2>&1"@),
            Some(60),
        ),
        workflow::tool_step(
            "run_tests"@,
            "Run tests"@,
            seq!["read_diff"@],
            "shell"@,
            workflow::one_argument("command"@, "cargo test 2>&1 | tail -20"@),
            Some(120),
        ),
        workflow::prompt_step(
            "quality_review"@,
            "LLM quality review"@,
            seq!["read_diff"@],
            CODE_REVIEW_QUALITY_REVIEW_PROMPT@,
        ),
        workflow::prompt_step(
            "compile_report"@,
            "Final report"@,
            seq!["check_syntax"@, "run_tests"@, "quality_review"@],
            CODE_REVIEW_COMPILE_REPORT_PROMPT@,
        ),
    ]
}

/// Looking over changes.
pub open spec fn code_review_task() -> WorkflowConfigView {
    workflow::workflow_of(
        "code-review"@,
        "Systematic code review: diff → check → test → analyze → report"@,
        code_review_steps(),
        false,
    )
}

/// Looking over changes.
pub fn code_review_workflow() -> (r: WorkflowConfig)
    ensures
        r.deep_view() == code_review_task(),
{
    let steps = vec![
        StepConfig::call(
            "read_diff",
            "Read recent code changes",
            Vec::new(),
            "shell",
            workflow::argument("command", "git diff HEAD"),
            Some(30),
        ),
        StepConfig::call(
            "check_syntax",
            "Syntax check",
            text::texts(["read_diff"]),
            "shell",
            workflow::argument("command", "cargo check 2>&1"),
            Some(60),
        ),
        StepConfig::call(
            "run_tests",
            "Run tests",
            text::texts(["read_diff"]),
            "shell",
            workflow::argument("command", "cargo test 2>&1 | tail -20"),
            Some(120),
        ),
        StepConfig::ask(
            "quality_review",
            "LLM quality review",
            text::texts(["read_diff"]),
            CODE_REVIEW_QUALITY_REVIEW_PROMPT,
        ),
        StepConfig::ask(
            "compile_report",
            "Final report",
            text::texts(["check_syntax", "run_tests", "quality_review"]),
            CODE_REVIEW_COMPILE_REPORT_PROMPT,
        ),
    ];
    assert(steps.deep_view() =~~= code_review_steps());
    WorkflowConfig::of_steps(
        "code-review",
        "Systematic code review: diff → check → test → analyze → report",
        steps,
        false,
    )
}

/// Finding and mending a fault.
pub open spec fn debug_steps() -> Seq<StepConfigView> {
    seq![
        workflow::tool_step(
            "reproduce"@,
            "Reproduce the bug"@,
            Seq::empty(),
            "shell"@,
            workflow::one_argument("command"@, "{{reproduce_command}}"@),
            Some(60),
        ),
        workflow::tool_step(
            "search_code"@,
            "Search for error patterns"@,
            seq!["reproduce"@],
            "grep"@,
            workflow::two_arguments("pattern"@, "{{error_pattern}}"@, "path"@, "."@),
            None,
        ),
        workflow::prompt_step(
            "analyze"@,
            "Root cause analysis"@,
            seq!["search_code"@],
            DEBUG_ANALYZE_PROMPT@,
        ),
        StepConfigView {
            requires_approval: true,
            ..workflow::tool_step(
                "fix"@,
                "Apply fix"@,
                seq!["analyze"@],
                "shell"@,
                workflow::one_argument("command"@, "{{fix_command}}"@),
                Some(60),
            )
        },
        workflow::tool_step(
            "verify"@,
            "Verify fix"@,
            seq!["fix"@],
            "shell"@,
            workflow::one_argument("command"@, "cargo test 2>&1 | tail -10"@),
            Some(120),
        ),
    ]
}

/// Finding and mending a fault.
pub open spec fn debug_task() -> WorkflowConfigView {
    workflow::workflow_of(
        "debug"@,
        "Systematic debugging: reproduce → search → analyze → fix → verify"@,
        debug_steps(),
        false,
    )
}

/// Finding and mending a fault.
pub fn debug_workflow() -> (r: WorkflowConfig)
    ensures
        r.deep_view() == debug_task(),
{
    let steps = vec![
        StepConfig::call(
            "reproduce",
            "Reproduce the bug",
            Vec::new(),
            "shell",
            workflow::argument("command", "{{reproduce_command}}"),
            Some(60),
        ),
        StepConfig::call(
            "search_code",
            "Search for error patterns",
            text::texts(["reproduce"]),
            "grep",
            workflow::arguments("pattern", "{{error_pattern}}", "path", "."),
            None,
        ),
        StepConfig::ask(
            "analyze",
            "Root cause analysis",
            text::texts(["search_code"]),
            DEBUG_ANALYZE_PROMPT,
        ),
        StepConfig::call(
            "fix",
            "Apply fix",
            text::texts(["analyze"]),
            "shell",
            workflow::argument("command", "{{fix_command}}"),
            Some(60),
        ).approved(),
        StepConfig::call(
            "verify",
            "Verify fix",
            text::texts(["fix"]),
            "shell",
            workflow::argument("command", "cargo test 2>&1 | tail -10"),
            Some(120),
        ),
    ];
    assert(steps.deep_view() =~~= debug_steps());
    WorkflowConfig::of_steps(
        "debug",
        "Systematic debugging: reproduce → search → analyze → fix → verify",
        steps,
        false,
    )
}

/// Changing the shape of the code.
pub open spec fn refactor_steps() -> Seq<StepConfigView> {
    seq![
        workflow::prompt_step(
            "analyze_code"@,
            "Analyze current code structure"@,
            Seq::empty(),
            REFACTOR_ANALYZE_CODE_PROMPT@,
        ),
        workflow::prompt_step(
            "plan_refactor"@,
            "Plan refactoring approach"@,
            seq!["analyze_code"@],
            REFACTOR_PLAN_REFACTOR_PROMPT@,
        ),
        StepConfigView {
            requires_approval: true,
            ..workflow::tool_step(
                "execute_refactor"@,
                "Execute refactoring changes"@,
                seq!["plan_refactor"@],
                "shell"@,
                workflow::one_argument("command"@, "{{refactor_command}}"@),
                Some(120),
            )
        },
        workflow::tool_step(
            "verify_refactor"@,
            "Verify refactoring didn't break anything"@,
            seq!["execute_refactor"@],
            "shell"@,
            workflow::one_argument("command"@, "cargo check 2>&1 && cargo test 2>&1 | tail -20"@),
            Some(120),
        ),
    ]
}

/// Changing the shape of the code.
pub open spec fn refactor_task() -> WorkflowConfigView {
    workflow::workflow_of(
        "refactor"@,
        "Systematic refactoring: analyze → plan → execute → verify"@,
        refactor_steps(),
        false,
    )
}

/// Changing the shape of the code.
pub fn refactor_workflow() -> (r: WorkflowConfig)
    ensures
        r.deep_view() == refactor_task(),
{
    let steps = vec![
        StepConfig::ask(
            "analyze_code",
            "Analyze current code structure",
            Vec::new(),
            REFACTOR_ANALYZE_CODE_PROMPT,
        ),
        StepConfig::ask(
            "plan_refactor",
            "Plan refactoring approach",
            text::texts(["analyze_code"]),
            REFACTOR_PLAN_REFACTOR_PROMPT,
        ),
        StepConfig::call(
            "execute_refactor",
            "Execute refactoring changes",
            text::texts(["plan_refactor"]),
            "shell",
            workflow::argument("command", "{{refactor_command}}"),
            Some(120),
        ).approved(),
        StepConfig::call(
            "verify_refactor",
            "Verify refactoring didn't break anything",
            text::texts(["execute_refactor"]),
            "shell",
            workflow::argument("command", "cargo check 2>&1 && cargo test 2>&1 | tail -20"),
            Some(120),
        ),
    ];
    assert(steps.deep_view() =~~= refactor_steps());
    WorkflowConfig::of_steps(
        "refactor",
        "Systematic refactoring: analyze → plan → execute → verify",
        steps,
        false,
    )
}

/// Writing tests.
pub open spec fn test_steps() -> Seq<StepConfigView> {
    seq![
        workflow::prompt_step(
            "understand_code"@,
            "Understand the code to be tested"@,
            Seq::empty(),
            TEST_UNDERSTAND_CODE_PROMPT@,
        ),
        workflow::prompt_step(
            "generate_tests"@,
            "Generate test cases"@,
            seq!["understand_code"@],
            TEST_GENERATE_TESTS_PROMPT@,
        ),
        workflow::tool_step(
            "run_tests"@,
            "Run the generated tests"@,
            seq!["generate_tests"@],
            "shell"@,
            workflow::one_argument("command"@, "cargo test 2>&1 | tail -30"@),
            Some(120),
        ),
        workflow::prompt_step(
            "fix_failures"@,
            "Fix failing tests"@,
            seq!["run_tests"@],
            TEST_FIX_FAILURES_PROMPT@,
        ),
    ]
}

/// Writing tests.
pub open spec fn test_task() -> WorkflowConfigView {
    workflow::workflow_of(
        "test"@,
        "Systematic test generation: understand → generate → run → fix"@,
        test_steps(),
        true,
    )
}

/// Writing tests.
pub fn test_workflow() -> (r: WorkflowConfig)
    ensures
        r.deep_view() == test_task(),
{
    let steps = vec![
        StepConfig::ask(
            "understand_code",
            "Understand the code to be tested",
            Vec::new(),
            TEST_UNDERSTAND_CODE_PROMPT,
        ),
        StepConfig::ask(
            "generate_tests",
            "Generate test cases",
            text::texts(["understand_code"]),
            TEST_GENERATE_TESTS_PROMPT,
        ),
        StepConfig::call(
            "run_tests",
            "Run the generated tests",
            text::texts(["generate_tests"]),
            "shell",
            workflow::argument("command", "cargo test 2>&1 | tail -30"),
            Some(120),
        ),
        StepConfig::ask(
            "fix_failures",
            "Fix failing tests",
            text::texts(["run_tests"]),
            TEST_FIX_FAILURES_PROMPT,
        ),
    ];
    assert(steps.deep_view() =~~= test_steps());
    WorkflowConfig::of_steps(
        "test",
        "Systematic test generation: understand → generate → run → fix",
        steps,
        true,
    )
}

/// Thinking, acting and thinking again.
pub open spec fn react_nodes() -> Seq<GraphNodeView> {
    seq![
        workflow::infer_node("think"@, None, true, None),
        workflow::call_node("act"@),
        workflow::approval_node("approve"@, "Approve tool execution before proceeding"@),
        workflow::infer_node(
            "end"@,
            Some("Provide a final answer to the user's question."@),
            false,
            None,
        ),
    ]
}

/// What may follow what there.
pub open spec fn react_edges() -> Seq<GraphEdgeView> {
    seq![
        workflow::edge("think"@, "act"@, EdgeCondition::HasToolCalls),
        workflow::edge("think"@, "end"@, EdgeCondition::IsFinalAnswer),
        workflow::edge("act"@, "approve"@, EdgeCondition::Always),
        workflow::edge("approve"@, "think"@, EdgeCondition::Always),
    ]
}

/// Thinking, acting and thinking again.
pub open spec fn react_graph() -> StateGraphView {
    StateGraphView {
        name: "react-loop"@,
        entry_point: "think"@,
        nodes: react_nodes(),
        edges: react_edges(),
        terminal_nodes: seq!["end"@],
    }
}

/// Thinking, acting and thinking again.
pub fn react_state_graph() -> (r: StateGraph)
    ensures
        r.deep_view() == react_graph(),
{
    let mut graph = StateGraph::new("react-loop", "think");
    graph.add_node(GraphNode::infer("think", None, true, None));
    graph.add_node(GraphNode::call("act"));
    graph.add_node(GraphNode::approval("approve", "Approve tool execution before proceeding"));
    graph.add_node(
        GraphNode::infer("end", Some("Provide a final answer to the user's question."), false, None)
    );
    assert(graph.deep_view().nodes =~~= react_nodes());
    graph.add_edge(GraphEdge::when("think", "act", EdgeCondition::HasToolCalls));
    graph.add_edge(GraphEdge::when("think", "end", EdgeCondition::IsFinalAnswer));
    graph.add_edge(GraphEdge::when("act", "approve", EdgeCondition::Always));
    graph.add_edge(GraphEdge::when("approve", "think", EdgeCondition::Always));
    assert(graph.deep_view().edges =~= react_edges());
    graph.add_terminal("end".to_string());
    graph
}

/// Making a plan.
pub open spec fn plan_nodes() -> Seq<GraphNodeView> {
    seq![
        workflow::infer_node(
            "plan"@,
            Some(PLAN_PLAN_PROMPT@),
            true,
            Some(seq!["exit_plan_mode"@, "task_create"@]),
        ),
        workflow::delegate_node("delegate"@, "Plan"@),
        workflow::infer_node("end"@, Some(PLAN_END_PROMPT@), false, None),
    ]
}

/// What may follow what there.
pub open spec fn plan_edges() -> Seq<GraphEdgeView> {
    seq![
        workflow::edge("plan"@, "end"@, EdgeCondition::IsFinalAnswer),
        workflow::edge("plan"@, "delegate"@, EdgeCondition::RequestsDelegation),
        workflow::edge("plan"@, "plan"@, EdgeCondition::HasToolCalls),
        workflow::edge("delegate"@, "plan"@, EdgeCondition::Always),
    ]
}

/// Making a plan.
pub open spec fn plan_graph() -> StateGraphView {
    StateGraphView {
        name: "plan-workflow"@,
        entry_point: "plan"@,
        nodes: plan_nodes(),
        edges: plan_edges(),
        terminal_nodes: seq!["end"@],
    }
}

/// Making a plan.
pub fn plan_workflow_state_graph() -> (r: StateGraph)
    ensures
        r.deep_view() == plan_graph(),
{
    let mut graph = StateGraph::new("plan-workflow", "plan");
    graph.add_node(
        GraphNode::infer(
            "plan",
            Some(PLAN_PLAN_PROMPT),
            true,
            Some(text::texts(["exit_plan_mode", "task_create"])),
        )
    );
    graph.add_node(GraphNode::delegate("delegate", "Plan"));
    graph.add_node(GraphNode::infer("end", Some(PLAN_END_PROMPT), false, None));
    assert(graph.deep_view().nodes =~~= plan_nodes());
    graph.add_edge(GraphEdge::when("plan", "end", EdgeCondition::IsFinalAnswer));
    graph.add_edge(GraphEdge::when("plan", "delegate", EdgeCondition::RequestsDelegation));
    graph.add_edge(GraphEdge::when("plan", "plan", EdgeCondition::HasToolCalls));
    graph.add_edge(GraphEdge::when("delegate", "plan", EdgeCondition::Always));
    assert(graph.deep_view().edges =~= plan_edges());
    graph.add_terminal("end".to_string());
    graph
}

/// Looking over a result.
pub open spec fn reflect_nodes() -> Seq<GraphNodeView> {
    seq![
        workflow::infer_node("reflect"@, Some(REFLECT_REFLECT_PROMPT@), true, None),
        workflow::call_node("act"@),
        workflow::infer_node(
            "end"@,
            Some("Provide the final reflection assessment."@),
            false,
            None,
        ),
    ]
}

/// What may follow what there.
pub open spec fn reflect_edges() -> Seq<GraphEdgeView> {
    seq![
        workflow::edge("reflect"@, "end"@, EdgeCondition::IsFinalAnswer),
        workflow::edge("reflect"@, "act"@, EdgeCondition::HasToolCalls),
        workflow::edge("act"@, "reflect"@, EdgeCondition::Always),
    ]
}

/// Looking over a result.
pub open spec fn reflect_graph() -> StateGraphView {
    StateGraphView {
        name: "reflect-workflow"@,
        entry_point: "reflect"@,
        nodes: reflect_nodes(),
        edges: reflect_edges(),
        terminal_nodes: seq!["end"@],
    }
}

/// Looking over a result.
pub fn reflect_workflow_state_graph() -> (r: StateGraph)
    ensures
        r.deep_view() == reflect_graph(),
{
    let mut graph = StateGraph::new("reflect-workflow", "reflect");
    graph.add_node(GraphNode::infer("reflect", Some(REFLECT_REFLECT_PROMPT), true, None));
    graph.add_node(GraphNode::call("act"));
    graph.add_node(
        GraphNode::infer("end", Some("Provide the final reflection assessment."), false, None)
    );
    assert(graph.deep_view().nodes =~~= reflect_nodes());
    graph.add_edge(GraphEdge::when("reflect", "end", EdgeCondition::IsFinalAnswer));
    graph.add_edge(GraphEdge::when("reflect", "act", EdgeCondition::HasToolCalls));
    graph.add_edge(GraphEdge::when("act", "reflect", EdgeCondition::Always));
    assert(graph.deep_view().edges =~= reflect_edges());
    graph.add_terminal("end".to_string());
    graph
}

/// Looking through the surroundings.
pub open spec fn explore_nodes() -> Seq<GraphNodeView> {
    seq![
        workflow::infer_node("explore"@, Some(EXPLORE_EXPLORE_PROMPT@), true, None),
        workflow::call_node("act"@),
        workflow::delegate_node("delegate"@, "Explore"@),
        workflow::infer_node("synthesize"@, Some(EXPLORE_SYNTHESIZE_PROMPT@), false, None),
    ]
}

/// What may follow what there.
pub open spec fn explore_edges() -> Seq<GraphEdgeView> {
    seq![
        workflow::edge("explore"@, "synthesize"@, EdgeCondition::IsFinalAnswer),
        workflow::edge("explore"@, "delegate"@, EdgeCondition::RequestsDelegation),
        workflow::edge("explore"@, "act"@, EdgeCondition::HasToolCalls),
        workflow::edge("act"@, "explore"@, EdgeCondition::Always),
        workflow::edge("delegate"@, "explore"@, EdgeCondition::Always),
    ]
}

/// Looking through the surroundings.
pub open spec fn explore_graph() -> StateGraphView {
    StateGraphView {
        name: "explore-workflow"@,
        entry_point: "explore"@,
        nodes: explore_nodes(),
        edges: explore_edges(),
        terminal_nodes: seq!["synthesize"@],
    }
}

/// Looking through the surroundings.
pub fn explore_workflow_state_graph() -> (r: StateGraph)
    ensures
        r.deep_view() == explore_graph(),
{
    let mut graph = StateGraph::new("explore-workflow", "explore");
    graph.add_node(GraphNode::infer("explore", Some(EXPLORE_EXPLORE_PROMPT), true, None));
    graph.add_node(GraphNode::call("act"));
    graph.add_node(GraphNode::delegate("delegate", "Explore"));
    graph.add_node(GraphNode::infer("synthesize", Some(EXPLORE_SYNTHESIZE_PROMPT), false, None));
    assert(graph.deep_view().nodes =~~= explore_nodes());
    graph.add_edge(GraphEdge::when("explore", "synthesize", EdgeCondition::IsFinalAnswer));
    graph.add_edge(GraphEdge::when("explore", "delegate", EdgeCondition::RequestsDelegation));
    graph.add_edge(GraphEdge::when("explore", "act", EdgeCondition::HasToolCalls));
    graph.add_edge(GraphEdge::when("act", "explore", EdgeCondition::Always));
    graph.add_edge(GraphEdge::when("delegate", "explore", EdgeCondition::Always));
    assert(graph.deep_view().edges =~= explore_edges());
    graph.add_terminal("synthesize".to_string());
    graph
}

/// Where the agents of the coding domain get what they know of their
/// surroundings.
pub open spec fn coding_source_table(project_dir: Seq<char>) -> Seq<SourceHandleView> {
    seq![
        builtin_sources::source_in(
            "project_instructions"@,
            project_dir,
            RefreshPolicyView::OnceAtStart,
            1,
        ),
        builtin_sources::source_in("repo_map"@, project_dir, RefreshPolicyView::OnChange, 8),
        builtin_sources::source_in("git_status"@, project_dir, RefreshPolicyView::OnChange, 10),
        builtin_sources::source_in("file_tree"@, project_dir, RefreshPolicyView::OnceAtStart, 20),
        builtin_sources::source_in(
            "project_config"@,
            project_dir,
            RefreshPolicyView::OnceAtStart,
            30,
        ),
        builtin_sources::source_anywhere(
            "date"@,
            RefreshPolicyView::Periodic(time::seconds(3600)),
            5,
        ),
        builtin_sources::source_anywhere("environment"@, RefreshPolicyView::OnceAtStart, 15),
    ]
}

/// Where the agents of the coding domain get what they know of their
/// surroundings.
pub fn coding_sources(project_dir: &str) -> (r: Vec<SourceHandle>)
    ensures
        r.deep_view() == coding_source_table(project_dir@),
{
    let r = vec![
        ProjectInstructionsSource::new(project_dir).handle(),
        RepoMapSource::new(project_dir).handle(),
        GitStatusSource::new(project_dir).handle(),
        FileTreeSource::new(project_dir).handle(),
        ProjectConfigSource::new(project_dir).handle(),
        DateSource::new().handle(),
        EnvironmentInfoSource::new().handle(),
    ];
    assert(r.deep_view() =~= coding_source_table(project_dir@));
    r
}

/// The names of the tools of the coding domain.
pub open spec fn coding_tool_names() -> Seq<Seq<char>> {
    seq![
        "read_file"@, "edit_file"@, "apply_patch"@, "shell"@, "grep"@, "glob"@, "list_directory"@,
        "notebook_edit"@, "environment"@, "web_fetch"@, "web_search"@,
    ]
}

/// The tools of the coding domain.
pub fn coding_tools() -> (r: Vec<ToolHandle>)
    ensures
        r.deep_view() == domain_pack::host_tools(coding_tool_names()),
{
    let names = text::texts(
        [
            "read_file", "edit_file", "apply_patch", "shell", "grep", "glob", "list_directory",
            "notebook_edit", "environment", "web_fetch", "web_search",
        ]
    );
    assert(names.deep_view() =~= coding_tool_names());
    ToolHandle::hosts(&names)
}

/// The permissions of the coding domain.
pub open spec fn coding_permissions() -> PermissionProfileView {
    PermissionProfileView {
        auto_approve: collections::set_of(
            seq![
                "read_file"@, "grep"@, "glob"@, "list_directory"@, "environment"@, "calculator"@,
                "web_search"@, "web_fetch"@,
            ]
        ),
        require_confirmation: collections::set_of(
            seq!["edit_file"@, "shell"@, "write_file"@, "notebook_edit"@]
        ),
        deny_by_default: seq![
            DenyPatternView {
                tool_pattern: "shell"@,
                arg_pattern: Some("rm.*-rf|mkfs|dd.*if=/dev/zero|chmod.*(777|666)"@),
                reason: "Irreversible filesystem operations are blocked for safety"@,
            },
        ],
        permission_overrides: collections::table_of(seq![("shell"@, PermissionLevel::Full)]),
        ..permission_profile::bare_profile("coding"@)
    }
}

/// The permissions of the coding domain.
pub fn coding_profile() -> (r: PermissionProfile)
    ensures
        r.deep_view() == coding_permissions(),
{
    let auto_approve = text::texts(
        [
            "read_file", "grep", "glob", "list_directory", "environment", "calculator",
            "web_search", "web_fetch",
        ]
    );
    let require_confirmation = text::texts(["edit_file", "shell", "write_file", "notebook_edit"]);
    let overrides: Vec<(String, PermissionLevel)> = vec![
        ("shell".to_string(), PermissionLevel::Full)
    ];
    let deny_by_default = vec![
        DenyPattern::deny_tool_args(
            "shell", "rm.*-rf|mkfs|dd.*if=/dev/zero|chmod.*(777|666)",
            "Irreversible filesystem operations are blocked for safety",
        ),
    ];
    let profile = PermissionProfile {
        auto_approve: NameSet::from_names(auto_approve),
        require_confirmation: NameSet::from_names(require_confirmation),
        deny_by_default,
        permission_overrides: Table::from_pairs(overrides),
        ..PermissionProfile::new("coding".to_string())
    };
    proof {
        assert(
            auto_approve.deep_view() =~= seq![
                "read_file"@, "grep"@, "glob"@, "list_directory"@, "environment"@, "calculator"@,
                "web_search"@, "web_fetch"@,
            ]
        );
        assert(
            require_confirmation.deep_view() =~= seq![
                "edit_file"@, "shell"@, "write_file"@, "notebook_edit"@,
            ]
        );
        assert(overrides.deep_view() =~= seq![("shell"@, PermissionLevel::Full)]);
        assert(deny_by_default.deep_view() =~= coding_permissions().deny_by_default);
    }
    profile
}

/// How the conversations of the coding domain are summarised.
pub open spec fn coding_summaries() -> CompressionTemplateView {
    CompressionTemplateView {
        name: "coding"@,
        preserve_fields: seq![
            "critical_files"@, "progress_status"@, "key_decisions"@, "next_steps"@,
            "errors_encountered"@,
        ],
        template: compression_template::CODING_COMPRESSION_TEMPLATE@,
        truncate_rules: collections::table_of(
            seq![("tool_output"@, 2000usize), ("file_content"@, 5000usize)]
        ),
        default_variables: collections::table_of(
            seq![("constraints"@, "Must maintain backward compatibility"@)]
        ),
    }
}

/// How the conversations of the coding domain are summarised.
pub fn coding_template() -> (r: CompressionTemplate)
    ensures
        r.deep_view() == coding_summaries(),
{
    let rules: Vec<(String, usize)> = vec![
        ("tool_output".to_string(), 2000),
        ("file_content".to_string(), 5000),
    ];
    let variables: Vec<(String, String)> = vec![
        ("constraints".to_string(), "Must maintain backward compatibility".to_string())
    ];
    proof {
        assert(
            rules.deep_view() =~= seq![("tool_output"@, 2000usize), ("file_content"@, 5000usize)]
        );
        assert(
            variables.deep_view() =~= seq![
                ("constraints"@, "Must maintain backward compatibility"@)
            ]
        );
    }
    CompressionTemplate {
        name: "coding".to_string(),
        preserve_fields: text::texts(
            [
                "critical_files", "progress_status", "key_decisions", "next_steps",
                "errors_encountered",
            ]
        ),
        template: compression_template::CODING_COMPRESSION_TEMPLATE.to_string(),
        truncate_rules: Table::from_pairs(rules),
        default_variables: Table::from_pairs(variables),
    }
}

/// What an agent needs to work in the coding domain.
pub open spec fn coding_contents(project_dir: Seq<char>) -> DomainPackView {
    DomainPackView {
        name: "coding"@,
        description: CODING_DESCRIPTION@,
        tools: domain_pack::host_tools(coding_tool_names()),
        tool_decorators: coding_decorators_table(),
        context_sources: coding_source_table(project_dir),
        permission_profile: coding_permissions(),
        paradigm_strategies: coding_strategies_table(),
        compression_template: coding_summaries(),
        memory_profile: memory_profile::coding_memory(),
        system_prompt_template: CODING_SYSTEM_PROMPT@,
        workflows: seq![code_review_task(), debug_task(), refactor_task(), test_task()],
        state_graphs: seq![react_graph(), plan_graph(), reflect_graph(), explore_graph()],
        sub_agent_definitions: seq![
            paradigm_strategy::plan_agent(),
            paradigm_strategy::explore_agent(),
            paradigm_strategy::code_agent(),
            paradigm_strategy::review_agent(),
        ],
    }
}

/// The pack of the coding domain, for a project.
pub fn coding_pack(project_dir: &str) -> (r: DomainPack)
    ensures
        r.deep_view() == coding_contents(project_dir@),
{
    let workflows = vec![
        code_review_workflow(),
        debug_workflow(),
        refactor_workflow(),
        test_workflow(),
    ];
    let state_graphs = vec![
        react_state_graph(),
        plan_workflow_state_graph(),
        reflect_workflow_state_graph(),
        explore_workflow_state_graph(),
    ];
    let sub_agent_definitions = SubAgentTypeDefinition::defaults();
    proof {
        assert(workflows.deep_view() =~= coding_contents(project_dir@).workflows);
        assert(state_graphs.deep_view() =~= coding_contents(project_dir@).state_graphs);
        assert(sub_agent_definitions.deep_view() =~= coding_contents(
            project_dir@,
        ).sub_agent_definitions);
    }
    DomainPack {
        name: "coding".to_string(),
        description: CODING_DESCRIPTION.to_string(),
        tools: coding_tools(),
        tool_decorators: coding_decorators(),
        context_sources: coding_sources(project_dir),
        permission_profile: coding_profile(),
        paradigm_strategies: coding_strategies(),
        compression_template: coding_template(),
        memory_profile: MemoryProfile::coding(),
        system_prompt_template: CODING_SYSTEM_PROMPT.to_string(),
        workflows,
        state_graphs,
        sub_agent_definitions,
    }
}

// ─── Laws ───────────────────────────────────────────────────────────────────

proof fn lemma_code_review_steps()
    ensures
        workflow::steps_in_order(code_review_steps()),
        workflow::steps_act(code_review_steps()),
{
    let steps = code_review_steps();
    assert(steps[0].id == steps[1].depends_on[0]);
    assert(steps[0].id == steps[2].depends_on[0]);
    assert(steps[0].id == steps[3].depends_on[0]);
    assert(steps[1].id == steps[4].depends_on[0]);
    assert(steps[2].id == steps[4].depends_on[1]);
    assert(steps[3].id == steps[4].depends_on[2]);
}

proof fn lemma_debug_steps()
    ensures
        workflow::steps_in_order(debug_steps()),
        workflow::steps_act(debug_steps()),
{
    let steps = debug_steps();
    assert(steps[0].id == steps[1].depends_on[0]);
    assert(steps[1].id == steps[2].depends_on[0]);
    assert(steps[2].id == steps[3].depends_on[0]);
    assert(steps[3].id == steps[4].depends_on[0]);
}

proof fn lemma_refactor_steps()
    ensures
        workflow::steps_in_order(refactor_steps()),
        workflow::steps_act(refactor_steps()),
{
    let steps = refactor_steps();
    assert(steps[0].id == steps[1].depends_on[0]);
    assert(steps[1].id == steps[2].depends_on[0]);
    assert(steps[2].id == steps[3].depends_on[0]);
}

proof fn lemma_test_steps()
    ensures
        workflow::steps_in_order(test_steps()),
        workflow::steps_act(test_steps()),
{
    let steps = test_steps();
    assert(steps[0].id == steps[1].depends_on[0]);
    assert(steps[1].id == steps[2].depends_on[0]);
    assert(steps[2].id == steps[3].depends_on[0]);
}

proof fn lemma_react_graph()
    ensures
        workflow::sound_graph(react_graph()),
{
    let graph = react_graph();
    assert(graph.nodes[0].id == graph.entry_point);
    assert(graph.nodes[3].id == graph.terminal_nodes[0]);
    assert(graph.edges[0].from == graph.nodes[0].id);
    assert(graph.edges[0].to == graph.nodes[1].id);
    assert(graph.edges[1].from == graph.nodes[0].id);
    assert(graph.edges[1].to == graph.nodes[3].id);
    assert(graph.edges[2].from == graph.nodes[1].id);
    assert(graph.edges[2].to == graph.nodes[2].id);
    assert(graph.edges[3].from == graph.nodes[2].id);
    assert(graph.edges[3].to == graph.nodes[0].id);
    assert(workflow::reaches(graph, "end"@, "end"@, 3));
    assert(graph.edges[1].from == "think"@ && graph.edges[1].to == "end"@);
    assert(workflow::follows(graph, "think"@, "end"@));
    assert(workflow::reaches(graph, "think"@, "end"@, 4));
    assert(workflow::reaches(graph, "end"@, "end"@, 1));
    assert(graph.edges[1].from == "think"@ && graph.edges[1].to == "end"@);
    assert(workflow::follows(graph, "think"@, "end"@));
    assert(workflow::reaches(graph, "think"@, "end"@, 2));
    assert(graph.edges[3].from == "approve"@ && graph.edges[3].to == "think"@);
    assert(workflow::follows(graph, "approve"@, "think"@));
    assert(workflow::reaches(graph, "approve"@, "end"@, 3));
    assert(graph.edges[2].from == "act"@ && graph.edges[2].to == "approve"@);
    assert(workflow::follows(graph, "act"@, "approve"@));
    assert(workflow::reaches(graph, "act"@, "end"@, 4));
    assert(workflow::reaches(graph, "end"@, "end"@, 2));
    assert(graph.edges[1].from == "think"@ && graph.edges[1].to == "end"@);
    assert(workflow::follows(graph, "think"@, "end"@));
    assert(workflow::reaches(graph, "think"@, "end"@, 3));
    assert(graph.edges[3].from == "approve"@ && graph.edges[3].to == "think"@);
    assert(workflow::follows(graph, "approve"@, "think"@));
    assert(workflow::reaches(graph, "approve"@, "end"@, 4));
    assert(workflow::reaches(graph, "end"@, "end"@, 4));
}

proof fn lemma_plan_graph()
    ensures
        workflow::sound_graph(plan_graph()),
{
    let graph = plan_graph();
    assert(graph.nodes[0].id == graph.entry_point);
    assert(graph.nodes[2].id == graph.terminal_nodes[0]);
    assert(graph.edges[0].from == graph.nodes[0].id);
    assert(graph.edges[0].to == graph.nodes[2].id);
    assert(graph.edges[1].from == graph.nodes[0].id);
    assert(graph.edges[1].to == graph.nodes[1].id);
    assert(graph.edges[2].from == graph.nodes[0].id);
    assert(graph.edges[2].to == graph.nodes[0].id);
    assert(graph.edges[3].from == graph.nodes[1].id);
    assert(graph.edges[3].to == graph.nodes[0].id);
    assert(workflow::reaches(graph, "end"@, "end"@, 2));
    assert(graph.edges[0].from == "plan"@ && graph.edges[0].to == "end"@);
    assert(workflow::follows(graph, "plan"@, "end"@));
    assert(workflow::reaches(graph, "plan"@, "end"@, 3));
    assert(workflow::reaches(graph, "end"@, "end"@, 1));
    assert(graph.edges[0].from == "plan"@ && graph.edges[0].to == "end"@);
    assert(workflow::follows(graph, "plan"@, "end"@));
    assert(workflow::reaches(graph, "plan"@, "end"@, 2));
    assert(graph.edges[3].from == "delegate"@ && graph.edges[3].to == "plan"@);
    assert(workflow::follows(graph, "delegate"@, "plan"@));
    assert(workflow::reaches(graph, "delegate"@, "end"@, 3));
    assert(workflow::reaches(graph, "end"@, "end"@, 3));
}

proof fn lemma_reflect_graph()
    ensures
        workflow::sound_graph(reflect_graph()),
{
    let graph = reflect_graph();
    assert(graph.nodes[0].id == graph.entry_point);
    assert(graph.nodes[2].id == graph.terminal_nodes[0]);
    assert(graph.edges[0].from == graph.nodes[0].id);
    assert(graph.edges[0].to == graph.nodes[2].id);
    assert(graph.edges[1].from == graph.nodes[0].id);
    assert(graph.edges[1].to == graph.nodes[1].id);
    assert(graph.edges[2].from == graph.nodes[1].id);
    assert(graph.edges[2].to == graph.nodes[0].id);
    assert(workflow::reaches(graph, "end"@, "end"@, 2));
    assert(graph.edges[0].from == "reflect"@ && graph.edges[0].to == "end"@);
    assert(workflow::follows(graph, "reflect"@, "end"@));
    assert(workflow::reaches(graph, "reflect"@, "end"@, 3));
    assert(workflow::reaches(graph, "end"@, "end"@, 1));
    assert(graph.edges[0].from == "reflect"@ && graph.edges[0].to == "end"@);
    assert(workflow::follows(graph, "reflect"@, "end"@));
    assert(workflow::reaches(graph, "reflect"@, "end"@, 2));
    assert(graph.edges[2].from == "act"@ && graph.edges[2].to == "reflect"@);
    assert(workflow::follows(graph, "act"@, "reflect"@));
    assert(workflow::reaches(graph, "act"@, "end"@, 3));
    assert(workflow::reaches(graph, "end"@, "end"@, 3));
}

proof fn lemma_explore_graph()
    ensures
        workflow::sound_graph(explore_graph()),
{
    let graph = explore_graph();
    assert(graph.nodes[0].id == graph.entry_point);
    assert(graph.nodes[3].id == graph.terminal_nodes[0]);
    assert(graph.edges[0].from == graph.nodes[0].id);
    assert(graph.edges[0].to == graph.nodes[3].id);
    assert(graph.edges[1].from == graph.nodes[0].id);
    assert(graph.edges[1].to == graph.nodes[2].id);
    assert(graph.edges[2].from == graph.nodes[0].id);
    assert(graph.edges[2].to == graph.nodes[1].id);
    assert(graph.edges[3].from == graph.nodes[1].id);
    assert(graph.edges[3].to == graph.nodes[0].id);
    assert(graph.edges[4].from == graph.nodes[2].id);
    assert(graph.edges[4].to == graph.nodes[0].id);
    assert(workflow::reaches(graph, "synthesize"@, "synthesize"@, 3));
    assert(graph.edges[0].from == "explore"@ && graph.edges[0].to == "synthesize"@);
    assert(workflow::follows(graph, "explore"@, "synthesize"@));
    assert(workflow::reaches(graph, "explore"@, "synthesize"@, 4));
    assert(workflow::reaches(graph, "synthesize"@, "synthesize"@, 2));
    assert(graph.edges[0].from == "explore"@ && graph.edges[0].to == "synthesize"@);
    assert(workflow::follows(graph, "explore"@, "synthesize"@));
    assert(workflow::reaches(graph, "explore"@, "synthesize"@, 3));
    assert(graph.edges[3].from == "act"@ && graph.edges[3].to == "explore"@);
    assert(workflow::follows(graph, "act"@, "explore"@));
    assert(workflow::reaches(graph, "act"@, "synthesize"@, 4));
    assert(graph.edges[4].from == "delegate"@ && graph.edges[4].to == "explore"@);
    assert(workflow::follows(graph, "delegate"@, "explore"@));
    assert(workflow::reaches(graph, "delegate"@, "synthesize"@, 4));
    assert(workflow::reaches(graph, "synthesize"@, "synthesize"@, 4));
}

/// The steps of each workflow of the pack stand behind those that they depend
/// on, and each calls a tool or asks a model.
pub proof fn law_coding_workflows(project_dir: Seq<char>, i: int)
    requires
        0 <= i < coding_contents(project_dir).workflows.len(),
    ensures
        workflow::steps_in_order(coding_contents(project_dir).workflows[i].steps),
        workflow::steps_act(coding_contents(project_dir).workflows[i].steps),
{
    lemma_code_review_steps();
    lemma_debug_steps();
    lemma_refactor_steps();
    lemma_test_steps();
}

/// Each graph of the pack begins and ends at nodes of its own, its edges join
/// nodes of its own, and its end can be reached from each of them.
pub proof fn law_coding_graphs(project_dir: Seq<char>, i: int)
    requires
        0 <= i < coding_contents(project_dir).state_graphs.len(),
    ensures
        workflow::sound_graph(coding_contents(project_dir).state_graphs[i]),
{
    lemma_react_graph();
    lemma_plan_graph();
    lemma_reflect_graph();
    lemma_explore_graph();
}

/// The pack speaks of no tool that it does not have.
pub proof fn law_coding_decorators_name_tools(i: int)
    requires
        0 <= i < coding_decorators_table().len(),
    ensures
        coding_tool_names().contains(coding_decorators_table()[i].tool_name),
{
    let names = coding_tool_names();
    assert(names[0] == coding_decorators_table()[0].tool_name);
    assert(names[1] == coding_decorators_table()[1].tool_name);
    assert(names[2] == coding_decorators_table()[2].tool_name);
    assert(names[3] == coding_decorators_table()[3].tool_name);
    assert(names[4] == coding_decorators_table()[4].tool_name);
    assert(names[5] == coding_decorators_table()[5].tool_name);
    assert(names[6] == coding_decorators_table()[6].tool_name);
    assert(names[8] == coding_decorators_table()[7].tool_name);
    assert(names[9] == coding_decorators_table()[8].tool_name);
    assert(names[10] == coding_decorators_table()[9].tool_name);
}

/// No tool of the domain both runs without asking and is asked about, and the
/// tools that change files or run commands are asked about.
pub proof fn law_coding_permissions(name: Seq<char>)
    ensures
        coding_permissions().auto_approve.contains(name)
            ==> !coding_permissions().require_confirmation.contains(name),
        coding_permissions().require_confirmation.contains("edit_file"@),
        coding_permissions().require_confirmation.contains("shell"@),
        collections::lookup(coding_permissions().permission_overrides, "shell"@) == Some(
            PermissionLevel::Full,
        ),
{
    reveal_strlit("read_file");
    reveal_strlit("grep");
    reveal_strlit("glob");
    reveal_strlit("list_directory");
    reveal_strlit("environment");
    reveal_strlit("calculator");
    reveal_strlit("web_search");
    reveal_strlit("web_fetch");
    reveal_strlit("edit_file");
    reveal_strlit("shell");
    reveal_strlit("write_file");
    reveal_strlit("notebook_edit");
    let auto = seq![
        "read_file"@, "grep"@, "glob"@, "list_directory"@, "environment"@, "calculator"@,
        "web_search"@, "web_fetch"@,
    ];
    let confirm = seq!["edit_file"@, "shell"@, "write_file"@, "notebook_edit"@];
    collections::lemma_set_of(auto, name);
    collections::lemma_set_of(confirm, name);
    collections::lemma_set_of(confirm, "edit_file"@);
    collections::lemma_set_of(confirm, "shell"@);
    assert(confirm[0] == "edit_file"@ && confirm[1] == "shell"@);
    assert(
        "read_file"@ != "edit_file"@
            && "grep"@ != "edit_file"@
            && "glob"@ != "edit_file"@
            && "list_directory"@ != "edit_file"@
            && "environment"@ != "edit_file"@
            && "calculator"@ != "edit_file"@
            && "web_search"@ != "edit_file"@
            && "web_fetch"@ != "edit_file"@
    ) by {
        assert("read_file"@[0] != "edit_file"@[0]);
        assert("grep"@.len() != "edit_file"@.len());
        assert("glob"@.len() != "edit_file"@.len());
        assert("list_directory"@.len() != "edit_file"@.len());
        assert("environment"@.len() != "edit_file"@.len());
        assert("calculator"@.len() != "edit_file"@.len());
        assert("web_search"@.len() != "edit_file"@.len());
        assert("web_fetch"@[0] != "edit_file"@[0]);
    }
    assert(
        "read_file"@ != "shell"@
            && "grep"@ != "shell"@
            && "glob"@ != "shell"@
            && "list_directory"@ != "shell"@
            && "environment"@ != "shell"@
            && "calculator"@ != "shell"@
            && "web_search"@ != "shell"@
            && "web_fetch"@ != "shell"@
    ) by {
        assert("read_file"@.len() != "shell"@.len());
        assert("grep"@.len() != "shell"@.len());
        assert("glob"@.len() != "shell"@.len());
        assert("list_directory"@.len() != "shell"@.len());
        assert("environment"@.len() != "shell"@.len());
        assert("calculator"@.len() != "shell"@.len());
        assert("web_search"@.len() != "shell"@.len());
        assert("web_fetch"@.len() != "shell"@.len());
    }
    assert(
        "read_file"@ != "write_file"@
            && "grep"@ != "write_file"@
            && "glob"@ != "write_file"@
            && "list_directory"@ != "write_file"@
            && "environment"@ != "write_file"@
            && "calculator"@ != "write_file"@
            && "web_search"@ != "write_file"@
            && "web_fetch"@ != "write_file"@
    ) by {
        assert("read_file"@.len() != "write_file"@.len());
        assert("grep"@.len() != "write_file"@.len());
        assert("glob"@.len() != "write_file"@.len());
        assert("list_directory"@.len() != "write_file"@.len());
        assert("environment"@.len() != "write_file"@.len());
        assert("calculator"@[0] != "write_file"@[0]);
        assert("web_search"@[1] != "write_file"@[1]);
        assert("web_fetch"@.len() != "write_file"@.len());
    }
    assert(
        "read_file"@ != "notebook_edit"@
            && "grep"@ != "notebook_edit"@
            && "glob"@ != "notebook_edit"@
            && "list_directory"@ != "notebook_edit"@
            && "environment"@ != "notebook_edit"@
            && "calculator"@ != "notebook_edit"@
            && "web_search"@ != "notebook_edit"@
            && "web_fetch"@ != "notebook_edit"@
    ) by {
        assert("read_file"@.len() != "notebook_edit"@.len());
        assert("grep"@.len() != "notebook_edit"@.len());
        assert("glob"@.len() != "notebook_edit"@.len());
        assert("list_directory"@.len() != "notebook_edit"@.len());
        assert("environment"@.len() != "notebook_edit"@.len());
        assert("calculator"@.len() != "notebook_edit"@.len());
        assert("web_search"@.len() != "notebook_edit"@.len());
        assert("web_fetch"@.len() != "notebook_edit"@.len());
    }
    let overrides = seq![("shell"@, PermissionLevel::Full)];
    assert(overrides.drop_last() =~= Seq::empty());
    reveal_with_fuel(collections::table_of, 2);
    assert(collections::table_of(overrides) =~= overrides);
}

/// The agents of the pack are given only tools that the pack has, and only what an agent
/// may change is merged.
pub proof fn law_coding_agents(project_dir: Seq<char>, i: int, j: int, k: int)
    ensures
        ({
            let pack = coding_contents(project_dir);
            let names = coding_tool_names();
            &&& 0 <= i < pack.paradigm_strategies.len() ==> {
                let strategy = pack.paradigm_strategies[i];
                &&& strategy.paradigm_sequence.len() > 0
                &&& 0 <= j < strategy.sub_agent_types.len() ==> {
                    let agent = strategy.sub_agent_types[j];
                    &&& agent.modifies_files <==> agent.merge_strategy
                        == SubAgentMergeStrategy::Merge
                    &&& 0 <= k < agent.available_tools.len() ==> names.contains(
                        agent.available_tools[k],
                    )
                }
            }
            &&& 0 <= j < pack.sub_agent_definitions.len() && 0 <= k
                < pack.sub_agent_definitions[j].available_tools.len() ==> names.contains(
                pack.sub_agent_definitions[j].available_tools[k],
            )
        }),
{
    let names = coding_tool_names();
    assert(names[0] == "read_file"@ && names[1] == "edit_file"@ && names[3] == "shell"@
        && names[4] == "grep"@ && names[5] == "glob"@ && names[6] == "list_directory"@);
    assert(names.contains("read_file"@) && names.contains("edit_file"@) && names.contains(
        "shell"@,
    ) && names.contains("grep"@) && names.contains("glob"@) && names.contains("list_directory"@));
}

/// The sources of the pack look at the project that it is for, or at none, and no two have
/// the same name.
pub proof fn law_coding_sources(project_dir: Seq<char>, i: int, j: int)
    ensures
        ({
            let sources = coding_contents(project_dir).context_sources;
            &&& 0 <= i < sources.len() ==> (sources[i].project_dir matches Some(dir) ==> dir
                == project_dir)
            &&& 0 <= i < j < sources.len() ==> sources[i].key != sources[j].key
            &&& coding_contents(project_dir).name == "coding"@
            &&& coding_contents(project_dir).tools == domain_pack::host_tools(coding_tool_names())
        }),
{
    reveal_strlit("project_instructions");
    reveal_strlit("repo_map");
    reveal_strlit("git_status");
    reveal_strlit("file_tree");
    reveal_strlit("project_config");
    reveal_strlit("date");
    reveal_strlit("environment");
    let sources = coding_contents(project_dir).context_sources;
    assert(sources[0].key.len() == 20 && sources[1].key.len() == 8 && sources[2].key.len() == 10
        && sources[3].key.len() == 9 && sources[4].key.len() == 14 && sources[5].key.len() == 4
        && sources[6].key.len() == 11);
}

} // verus!
