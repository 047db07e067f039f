//! The pack of the research domain.

use vstd::prelude::*;
use crate::builtin_sources::{
    self, DateSource, EnvironmentInfoSource, ProjectConfigSource, ProjectInstructionsSource,
};
use crate::collections::{self, NameSet, Table};
use crate::compression_template::{self, CompressionTemplate, CompressionTemplateView};
use crate::context_source::{RefreshPolicyView, SourceHandle, SourceHandleView};
use crate::domain_pack::{self, DomainPack, DomainPackView, ToolHandle, ToolHandleView};
use crate::memory_profile::{self, MemoryProfile};
use crate::paradigm_strategy::{
    self, DomainParadigmKind, ParadigmStrategy, ParadigmStrategyView, SubAgentMergeStrategy,
    SubAgentTypeDefinition, SubAgentTypeDefinitionView,
};
use crate::permission_profile::{
    self, DenyPattern, DenyPatternView, PermissionProfile, PermissionProfileView,
};
use crate::text;
use crate::time;
use crate::tool_decorator::{self, ToolDecorator, ToolDecoratorView};
use crate::types::PermissionLevel;
use crate::workflow::{
    self, EdgeCondition, GraphEdge, GraphEdgeView, GraphNode, GraphNodeView, StateGraph,
    StateGraphView, StepConfig, StepConfigView, WorkflowConfig, WorkflowConfigView,
};

verus! {

/// What the agents of the research domain are told.
pub const RESEARCH_SYSTEM_PROMPT: &'static str = "You are an intelligent research agent that can search, gather, analyze, and synthesize information from the web and local files. You have access to web search, web fetch, and file reading tools, but NO editing capabilities — you are a read-only observer and analyst.\n\nKey principles:\n1. **Search first**: For any factual question, start by searching the web. Use multiple queries to cross-reference findings from different sources.\n2. **Verify sources**: Always fetch the actual source content, don't rely solely on search snippets. Verify claims by checking multiple independent sources.\n3. **Cite everything**: Every claim in your response must be backed by a source citation (URL, document title, or file path). Use [Source: URL/path] notation for citations.\n4. **Synthesize**: Don't just list findings — analyze patterns, identify contradictions, and draw conclusions. Weigh evidence from multiple sources.\n5. **Be current**: Research is time-sensitive. Always check the date of sources and note when information may be outdated. Use the current date context provided to you.\n6. **Stay focused**: Research tasks can lead to information overload. Stay on-topic and prioritize relevance over comprehensiveness.\n\nWhen you need to search the web, use web_search. When you need to read a specific page, use web_fetch. When you need to read local files, use read_file. When your research is complete, provide a comprehensive synthesis with citations.";

/// The template of the research domain.
pub const RESEARCH_COMPRESSION_TEMPLATE: &'static str = "## Research Progress Summary\n\n### Search Queries Used\n{{search_queries}}\n\n### Key Findings\n{{key_findings}}\n\n### Source Citations\n{{source_citations}}\n\n### Verification Status\n{{verification_status}}\n\n### Conclusions\n{{conclusions}}\n\n### Unanswered Questions\n{{unanswered_questions}}\n\n---\nResearch depth: {{research_depth}}\nCitation style: {{citation_style}}";

/// What is said of the agent `searcher`.
pub const SEARCHER_NOTE: &'static str = "Searches the web and local files to find relevant information on a topic";

/// What the agent `searcher` is told.
pub const SEARCHER_AGENT_PROMPT: &'static str = "You are a research search agent. Your job is to find relevant information on the given topic using web search and file reading tools. Start with web_search to discover sources, then web_fetch to read the most promising results. Also check local files with read_file if relevant documents exist in the project. Return a comprehensive list of findings with source citations.";

/// What is said of the agent `analyzer`.
pub const ANALYZER_NOTE: &'static str = "Analyzes gathered information, identifies patterns, and draws conclusions";

/// What the agent `analyzer` is told.
pub const ANALYZER_AGENT_PROMPT: &'static str = "You are a research analysis agent. Your job is to analyze the gathered information and identify patterns, contradictions, and key insights. You have access to read_file and web_fetch for verification, and calculator for quantitative analysis. Return a structured analysis with key findings, evidence quality ratings, and preliminary conclusions.";

/// What the agent `verifier` is told.
pub const VERIFIER_AGENT_PROMPT: &'static str = "You are a research verification agent. Your job is to verify claims by checking multiple independent sources. For each claim, search for contradicting evidence and assess the reliability of supporting sources. Return a verification report with confirmed claims, disputed claims, and unverified claims.";

/// What the agent `explore` is told.
pub const EXPLORER_PROMPT: &'static str = "You are a research exploration agent. Search and analyze documents, papers, and web resources to gather relevant information. Return a comprehensive summary with citations, key findings, and relevance scores for each source.";

/// What is said of the tool `web_search`.
pub const RESEARCH_WEB_SEARCH_NOTE: &'static str = "Search the web for information. Returns a list of results with titles, URLs, and snippets. This is your PRIMARY tool for discovering information. Use multiple queries to cross-reference findings. Supports Google, Bing, SerpAPI, and DuckDuckGo (default, free). Always check the date of results for time-sensitive research.";

/// What is said of the tool `web_fetch`.
pub const RESEARCH_WEB_FETCH_NOTE: &'static str = "Fetch content from a web URL and convert it to structured Markdown. This is your SECONDARY tool for reading discovered sources. Always verify claims by fetching the actual source content — don't rely solely on search snippets. Preserves headings, links, and semantic elements for analysis.";

/// What is said of the tool `read_file`.
pub const RESEARCH_READ_FILE_NOTE: &'static str = "Read local files for project-specific context. Use for: reading documentation, configuration files, research papers stored locally, and project README files. Supports offset+limit for large files.";

/// What is said of the tool `grep`.
pub const RESEARCH_GREP_NOTE: &'static str = "Search file contents using regex patterns. Use for: finding specific information in local documents, searching through research notes, and locating relevant passages.";

/// What is said of the tool `glob`.
pub const RESEARCH_GLOB_NOTE: &'static str = "Find files matching glob patterns. Use for: discovering relevant local files, finding research documents, and exploring project structure.";

/// What is said of the tool `list_directory`.
pub const RESEARCH_LIST_DIRECTORY_NOTE: &'static str = "List directory contents. Use for: exploring project structure to find relevant local documents and research materials.";

/// What is said of the tool `environment`.
pub const RESEARCH_ENVIRONMENT_NOTE: &'static str = "Get environment information: working directory, platform, available tools. Includes current date — CRITICAL for time-sensitive research.";

/// What is said of the tool `calculator`.
pub const RESEARCH_CALCULATOR_NOTE: &'static str = "Perform mathematical calculations. Use for: quantitative analysis, statistical computations, and verifying numerical claims in your research.";

/// When a strategy applies.
pub const STRATEGY_NOTE: &'static str = "Deep research tasks require comprehensive search, analysis, verification, and synthesis";

/// When a strategy applies.
pub const STRATEGY_NOTE_2: &'static str = "Fact-checking requires searching for evidence and verifying from multiple sources";

/// What the model is asked in the step `analyze_findings`.
pub const DEEP_RESEARCH_ANALYZE_FINDINGS_PROMPT: &'static str = "Analyze the following research findings. Identify key themes, patterns, contradictions, and gaps in the evidence. Rate the quality and reliability of each source.\n\nSearch results: {{search_web_output}}\nFetched source content: {{fetch_sources_output}}";

/// What the model is asked in the step `synthesize`.
pub const DEEP_RESEARCH_SYNTHESIZE_PROMPT: &'static str = "Based on the analysis: {{analyze_findings_output}}\n\nSynthesize the findings into coherent conclusions. For each conclusion, cite the supporting evidence. Identify areas where evidence is weak or contradictory. Note unanswered questions for further research.";

/// What the model is asked in the step `compile_report`.
pub const DEEP_RESEARCH_COMPILE_REPORT_PROMPT: &'static str = "Compile a comprehensive research report from the analysis and synthesis:\n\nAnalysis: {{analyze_findings_output}}\nSynthesis: {{synthesize_output}}\n\nThe report should include:\n1. Executive Summary (key findings in 3-5 bullet points)\n2. Methodology (search queries, sources used)\n3. Findings (organized by theme, with citations)\n4. Conclusions (with evidence ratings)\n5. Recommendations & Further Research (unanswered questions)\n\nUse [Source: URL] notation for all citations.";

/// What the model is asked in the step `screen_sources`.
pub const LITERATURE_REVIEW_SCREEN_SOURCES_PROMPT: &'static str = "Screen the following search results for relevance to the research topic. For each result, assess:\n1. Relevance to the topic (high/medium/low)\n2. Source credibility (peer-reviewed, institutional, blog, etc.)\n3. Date of publication (is it current enough?)\n4. Key contribution or claim\n\nSelect the top 5-8 most relevant and credible sources for detailed analysis.\n\nSearch results: {{search_literature_output}}";

/// What the model is asked in the step `analyze_sources`.
pub const LITERATURE_REVIEW_ANALYZE_SOURCES_PROMPT: &'static str = "For each selected source, perform a detailed analysis:\n\nScreened sources: {{screen_sources_output}}\n\nFor each source:\n1. Main argument or finding\n2. Methodology used\n3. Key evidence and data points\n4. Limitations and criticisms\n5. Connections to other sources in the review\n\nFocus on extracting the unique contribution of each source.";

/// What the model is asked in the step `map_literature`.
pub const LITERATURE_REVIEW_MAP_LITERATURE_PROMPT: &'static str = "Based on the source analyses: {{analyze_sources_output}}\n\nCreate a literature landscape map:\n1. **Thematic clusters**: Group sources by shared themes or approaches\n2. **Chronological trends**: Identify how understanding has evolved over time\n3. **Methodological patterns**: Common methods and their strengths/weaknesses\n4. **Convergence points**: Where multiple sources agree\n5. **Divergence points**: Where sources disagree or contradict\n6. **Gaps**: Topics or perspectives not covered by existing literature\n7. **Future directions**: Where the field is heading based on current trends\n\nThis map should serve as a foundation for the research.";

/// What the model is told at the node `think`.
pub const RESEARCH_THINK_PROMPT: &'static str = "You are a research agent. Decide whether you need more information (search/fetch) or can synthesize what you've gathered. If you need more info, describe what to search for. If you have enough, provide your synthesis.";

/// What the model is told at the node `analyze`.
pub const RESEARCH_ANALYZE_PROMPT: &'static str = "Analyze the search/fetch results. Identify key findings, assess source quality, note contradictions or gaps. Decide if you have enough information or need to search more.";

/// What the model is told at the node `end`.
pub const RESEARCH_END_PROMPT: &'static str = "Compile a comprehensive research report with citations. Include: executive summary, methodology, findings (organized by theme), conclusions, and areas for further research. Use [Source: URL] for citations.";

/// What the research pack is for.
pub const RESEARCH_DESCRIPTION: &'static str = "Research domain pack — provides tools, context, permissions, and strategies for information gathering, analysis, and synthesis tasks";

/// The agent that searches.
pub open spec fn searcher_agent() -> SubAgentTypeDefinitionView {
    SubAgentTypeDefinitionView {
        name: "searcher"@,
        description: SEARCHER_NOTE@,
        system_prompt: SEARCHER_AGENT_PROMPT@,
        available_tools: seq![
            "web_search"@, "web_fetch"@, "read_file"@, "grep"@, "glob"@, "calculator"@,
        ],
        permission_threshold: PermissionLevel::Standard,
        budget: 50_000,
        modifies_files: false,
        merge_strategy: SubAgentMergeStrategy::PreserveOnly,
        structured_output: None,
    }
}

/// The agent that searches.
pub fn searcher() -> (r: SubAgentTypeDefinition)
    ensures
        r.deep_view() == searcher_agent(),
{
    SubAgentTypeDefinition {
        name: "searcher".to_string(),
        description: SEARCHER_NOTE.to_string(),
        system_prompt: SEARCHER_AGENT_PROMPT.to_string(),
        available_tools: text::texts(
            ["web_search", "web_fetch", "read_file", "grep", "glob", "calculator"]
        ),
        permission_threshold: PermissionLevel::Standard,
        budget: 50_000,
        modifies_files: false,
        merge_strategy: SubAgentMergeStrategy::PreserveOnly,
        structured_output: None,
    }
}

/// The agent that weighs what was found.
pub open spec fn analyzer_agent() -> SubAgentTypeDefinitionView {
    SubAgentTypeDefinitionView {
        name: "analyzer"@,
        description: ANALYZER_NOTE@,
        system_prompt: ANALYZER_AGENT_PROMPT@,
        available_tools: seq!["read_file"@, "web_fetch"@, "calculator"@, "grep"@],
        permission_threshold: PermissionLevel::Read,
        budget: 30_000,
        modifies_files: false,
        merge_strategy: SubAgentMergeStrategy::PreserveOnly,
        structured_output: None,
    }
}

/// The agent that weighs what was found.
pub fn analyzer() -> (r: SubAgentTypeDefinition)
    ensures
        r.deep_view() == analyzer_agent(),
{
    SubAgentTypeDefinition {
        name: "analyzer".to_string(),
        description: ANALYZER_NOTE.to_string(),
        system_prompt: ANALYZER_AGENT_PROMPT.to_string(),
        available_tools: text::texts(["read_file", "web_fetch", "calculator", "grep"]),
        permission_threshold: PermissionLevel::Read,
        budget: 30_000,
        modifies_files: false,
        merge_strategy: SubAgentMergeStrategy::PreserveOnly,
        structured_output: None,
    }
}

/// The agent that checks claims.
pub open spec fn claims_verifier_agent() -> SubAgentTypeDefinitionView {
    SubAgentTypeDefinitionView {
        name: "verifier"@,
        description: "Verifies claims by cross-referencing multiple independent sources"@,
        system_prompt: VERIFIER_AGENT_PROMPT@,
        available_tools: seq!["web_search"@, "web_fetch"@, "read_file"@],
        permission_threshold: PermissionLevel::Standard,
        budget: 25_000,
        modifies_files: false,
        merge_strategy: SubAgentMergeStrategy::PreserveOnly,
        structured_output: None,
    }
}

/// The agent that checks claims.
pub fn claims_verifier() -> (r: SubAgentTypeDefinition)
    ensures
        r.deep_view() == claims_verifier_agent(),
{
    SubAgentTypeDefinition {
        name: "verifier".to_string(),
        description: "Verifies claims by cross-referencing multiple independent sources".to_string(),
        system_prompt: VERIFIER_AGENT_PROMPT.to_string(),
        available_tools: text::texts(["web_search", "web_fetch", "read_file"]),
        permission_threshold: PermissionLevel::Standard,
        budget: 25_000,
        modifies_files: false,
        merge_strategy: SubAgentMergeStrategy::PreserveOnly,
        structured_output: None,
    }
}

/// The agent that looks through sources.
pub open spec fn explorer_agent() -> SubAgentTypeDefinitionView {
    SubAgentTypeDefinitionView {
        name: "explore"@,
        description: "Research exploration agent"@,
        system_prompt: EXPLORER_PROMPT@,
        available_tools: seq!["read_file"@, "grep"@, "glob"@, "list_directory"@, "web_fetch"@],
        permission_threshold: PermissionLevel::Read,
        budget: 50_000,
        modifies_files: false,
        merge_strategy: SubAgentMergeStrategy::PreserveOnly,
        structured_output: None,
    }
}

/// The agent that looks through sources.
pub fn explorer() -> (r: SubAgentTypeDefinition)
    ensures
        r.deep_view() == explorer_agent(),
{
    SubAgentTypeDefinition {
        name: "explore".to_string(),
        description: "Research exploration agent".to_string(),
        system_prompt: EXPLORER_PROMPT.to_string(),
        available_tools: text::texts(["read_file", "grep", "glob", "list_directory", "web_fetch"]),
        permission_threshold: PermissionLevel::Read,
        budget: 50_000,
        modifies_files: false,
        merge_strategy: SubAgentMergeStrategy::PreserveOnly,
        structured_output: None,
    }
}

/// The agents that help in the research domain.
pub open spec fn research_agents() -> Seq<SubAgentTypeDefinitionView> {
    seq![searcher_agent(), analyzer_agent(), claims_verifier_agent()]
}

/// The agents that help in the research domain.
pub fn research_sub_agent_types() -> (r: Vec<SubAgentTypeDefinition>)
    ensures
        r.deep_view() == research_agents(),
{
    let r = vec![searcher(), analyzer(), claims_verifier()];
    assert(r.deep_view() =~= research_agents());
    r
}

/// What the research domain says of its tools.
pub open spec fn research_decorators_table() -> Seq<ToolDecoratorView> {
    seq![
        tool_decorator::decorated("web_search"@, RESEARCH_WEB_SEARCH_NOTE@, None),
        tool_decorator::decorated("web_fetch"@, RESEARCH_WEB_FETCH_NOTE@, None),
        tool_decorator::decorated("read_file"@, RESEARCH_READ_FILE_NOTE@, None),
        tool_decorator::decorated("grep"@, RESEARCH_GREP_NOTE@, None),
        tool_decorator::decorated("glob"@, RESEARCH_GLOB_NOTE@, None),
        tool_decorator::decorated("list_directory"@, RESEARCH_LIST_DIRECTORY_NOTE@, None),
        tool_decorator::decorated("environment"@, RESEARCH_ENVIRONMENT_NOTE@, None),
        tool_decorator::decorated("calculator"@, RESEARCH_CALCULATOR_NOTE@, None),
    ]
}

/// What the research domain says of its tools.
pub fn research_decorators() -> (r: Vec<ToolDecorator>)
    ensures
        r.deep_view() == research_decorators_table(),
{
    let r = vec![
        ToolDecorator::with_description("web_search", RESEARCH_WEB_SEARCH_NOTE),
        ToolDecorator::with_description("web_fetch", RESEARCH_WEB_FETCH_NOTE),
        ToolDecorator::with_description("read_file", RESEARCH_READ_FILE_NOTE),
        ToolDecorator::with_description("grep", RESEARCH_GREP_NOTE),
        ToolDecorator::with_description("glob", RESEARCH_GLOB_NOTE),
        ToolDecorator::with_description("list_directory", RESEARCH_LIST_DIRECTORY_NOTE),
        ToolDecorator::with_description("environment", RESEARCH_ENVIRONMENT_NOTE),
        ToolDecorator::with_description("calculator", RESEARCH_CALCULATOR_NOTE),
    ];
    assert(r.deep_view() =~= research_decorators_table());
    r
}

/// Which ways of working fit which tasks in the research domain.
pub open spec fn research_strategies_table() -> Seq<ParadigmStrategyView> {
    seq![
        ParadigmStrategyView {
            trigger_pattern: "research|investigate|analyze|study|compare|evaluate"@,
            paradigm_sequence: seq![
                DomainParadigmKind::Explore,
                DomainParadigmKind::Reflect,
                DomainParadigmKind::Plan,
            ],
            sub_agent_types: research_agents(),
            description: STRATEGY_NOTE@,
        },
        ParadigmStrategyView {
            trigger_pattern: "verify|fact-check|confirm|check|validate|true|false"@,
            paradigm_sequence: seq![DomainParadigmKind::Explore, DomainParadigmKind::Reflect],
            sub_agent_types: seq![searcher_agent(), claims_verifier_agent()],
            description: STRATEGY_NOTE_2@,
        },
        ParadigmStrategyView {
            trigger_pattern: "what is|who|when|where|how many|definition|meaning"@,
            paradigm_sequence: seq![DomainParadigmKind::Explore],
            sub_agent_types: seq![searcher_agent()],
            description: "Quick factual lookups use single search phase"@,
        },
        ParadigmStrategyView {
            trigger_pattern: "summarize|synthesize|overview|review|digest|brief"@,
            paradigm_sequence: seq![DomainParadigmKind::Reflect, DomainParadigmKind::Plan],
            sub_agent_types: seq![analyzer_agent()],
            description: "Summary/synthesis tasks require analysis and organized reporting"@,
        },
    ]
}

/// Which ways of working fit which tasks in the research domain.
pub fn research_strategies() -> (r: Vec<ParadigmStrategy>)
    ensures
        r.deep_view() == research_strategies_table(),
{
    let r = vec![
        ParadigmStrategy {
            trigger_pattern: "research|investigate|analyze|study|compare|evaluate".to_string(),
            paradigm_sequence: vec![
                DomainParadigmKind::Explore,
                DomainParadigmKind::Reflect,
                DomainParadigmKind::Plan,
            ],
            sub_agent_types: research_sub_agent_types(),
            description: STRATEGY_NOTE.to_string(),
        },
        ParadigmStrategy {
            trigger_pattern: "verify|fact-check|confirm|check|validate|true|false".to_string(),
            paradigm_sequence: vec![DomainParadigmKind::Explore, DomainParadigmKind::Reflect],
            sub_agent_types: vec![searcher(), claims_verifier()],
            description: STRATEGY_NOTE_2.to_string(),
        },
        ParadigmStrategy {
            trigger_pattern: "what is|who|when|where|how many|definition|meaning".to_string(),
            paradigm_sequence: vec![DomainParadigmKind::Explore],
            sub_agent_types: vec![searcher()],
            description: "Quick factual lookups use single search phase".to_string(),
        },
        ParadigmStrategy {
            trigger_pattern: "summarize|synthesize|overview|review|digest|brief".to_string(),
            paradigm_sequence: vec![DomainParadigmKind::Reflect, DomainParadigmKind::Plan],
            sub_agent_types: vec![analyzer()],
            description: "Summary/synthesis tasks require analysis and organized reporting".to_string(),
        },
    ];
    assert(r.deep_view() =~~= research_strategies_table());
    r
}

/// Research into a question.
pub open spec fn deep_research_steps() -> Seq<StepConfigView> {
    seq![
        workflow::tool_step(
            "search_web"@,
            "Search the web for relevant information"@,
            Seq::empty(),
            "web_search"@,
            workflow::one_argument("query"@, "{{research_query}}"@),
            Some(30),
        ),
        workflow::tool_step(
            "fetch_sources"@,
            "Fetch content from top sources"@,
            seq!["search_web"@],
            "web_fetch"@,
            workflow::one_argument("url"@, "{{top_source_url}}"@),
            Some(60),
        ),
        workflow::prompt_step(
            "analyze_findings"@,
            "Analyze gathered information"@,
            seq!["fetch_sources"@],
            DEEP_RESEARCH_ANALYZE_FINDINGS_PROMPT@,
        ),
        workflow::prompt_step(
            "synthesize"@,
            "Synthesize findings into conclusions"@,
            seq!["analyze_findings"@],
            DEEP_RESEARCH_SYNTHESIZE_PROMPT@,
        ),
        workflow::prompt_step(
            "compile_report"@,
            "Compile research report with citations"@,
            seq!["synthesize"@],
            DEEP_RESEARCH_COMPILE_REPORT_PROMPT@,
        ),
    ]
}

/// Research into a question.
pub open spec fn deep_research_task() -> WorkflowConfigView {
    workflow::workflow_of(
        "deep-research"@,
        "Systematic deep research: search → fetch → analyze → synthesize → report"@,
        deep_research_steps(),
        true,
    )
}

/// Research into a question.
pub fn deep_research_workflow() -> (r: WorkflowConfig)
    ensures
        r.deep_view() == deep_research_task(),
{
    let steps = vec![
        StepConfig::call(
            "search_web",
            "Search the web for relevant information",
            Vec::new(),
            "web_search",
            workflow::argument("query", "{{research_query}}"),
            Some(30),
        ),
        StepConfig::call(
            "fetch_sources",
            "Fetch content from top sources",
            text::texts(["search_web"]),
            "web_fetch",
            workflow::argument("url", "{{top_source_url}}"),
            Some(60),
        ),
        StepConfig::ask(
            "analyze_findings",
            "Analyze gathered information",
            text::texts(["fetch_sources"]),
            DEEP_RESEARCH_ANALYZE_FINDINGS_PROMPT,
        ),
        StepConfig::ask(
            "synthesize",
            "Synthesize findings into conclusions",
            text::texts(["analyze_findings"]),
            DEEP_RESEARCH_SYNTHESIZE_PROMPT,
        ),
        StepConfig::ask(
            "compile_report",
            "Compile research report with citations",
            text::texts(["synthesize"]),
            DEEP_RESEARCH_COMPILE_REPORT_PROMPT,
        ),
    ];
    assert(steps.deep_view() =~~= deep_research_steps());
    WorkflowConfig::of_steps(
        "deep-research",
        "Systematic deep research: search → fetch → analyze → synthesize → report",
        steps,
        true,
    )
}

/// Looking through what was written.
pub open spec fn literature_review_steps() -> Seq<StepConfigView> {
    seq![
        workflow::tool_step(
            "search_literature"@,
            "Search for relevant publications"@,
            Seq::empty(),
            "web_search"@,
            workflow::one_argument("query"@, "{{literature_query}}"@),
            Some(30),
        ),
        workflow::prompt_step(
            "screen_sources"@,
            "Screen and select relevant sources"@,
            seq!["search_literature"@],
            LITERATURE_REVIEW_SCREEN_SOURCES_PROMPT@,
        ),
        workflow::prompt_step(
            "analyze_sources"@,
            "Analyze each selected source for key insights"@,
            seq!["screen_sources"@],
            LITERATURE_REVIEW_ANALYZE_SOURCES_PROMPT@,
        ),
        workflow::prompt_step(
            "map_literature"@,
            "Map the literature landscape"@,
            seq!["analyze_sources"@],
            LITERATURE_REVIEW_MAP_LITERATURE_PROMPT@,
        ),
    ]
}

/// Looking through what was written.
pub open spec fn literature_review_task() -> WorkflowConfigView {
    workflow::workflow_of(
        "literature-review"@,
        "Systematic literature review: search → screen → analyze → map"@,
        literature_review_steps(),
        true,
    )
}

/// Looking through what was written.
pub fn literature_review_workflow() -> (r: WorkflowConfig)
    ensures
        r.deep_view() == literature_review_task(),
{
    let steps = vec![
        StepConfig::call(
            "search_literature",
            "Search for relevant publications",
            Vec::new(),
            "web_search",
            workflow::argument("query", "{{literature_query}}"),
            Some(30),
        ),
        StepConfig::ask(
            "screen_sources",
            "Screen and select relevant sources",
            text::texts(["search_literature"]),
            LITERATURE_REVIEW_SCREEN_SOURCES_PROMPT,
        ),
        StepConfig::ask(
            "analyze_sources",
            "Analyze each selected source for key insights",
            text::texts(["screen_sources"]),
            LITERATURE_REVIEW_ANALYZE_SOURCES_PROMPT,
        ),
        StepConfig::ask(
            "map_literature",
            "Map the literature landscape",
            text::texts(["analyze_sources"]),
            LITERATURE_REVIEW_MAP_LITERATURE_PROMPT,
        ),
    ];
    assert(steps.deep_view() =~~= literature_review_steps());
    WorkflowConfig::of_steps(
        "literature-review",
        "Systematic literature review: search → screen → analyze → map",
        steps,
        true,
    )
}

/// Searching, weighing and searching again.
pub open spec fn research_nodes() -> Seq<GraphNodeView> {
    seq![
        workflow::infer_node("think"@, Some(RESEARCH_THINK_PROMPT@), true, None),
        workflow::call_node("search"@),
        workflow::infer_node("analyze"@, Some(RESEARCH_ANALYZE_PROMPT@), true, None),
        workflow::infer_node("end"@, Some(RESEARCH_END_PROMPT@), false, None),
    ]
}

/// What may follow what there.
pub open spec fn research_edges() -> Seq<GraphEdgeView> {
    seq![
        workflow::edge("think"@, "search"@, EdgeCondition::HasToolCalls),
        workflow::edge("think"@, "end"@, EdgeCondition::IsFinalAnswer),
        workflow::edge("search"@, "analyze"@, EdgeCondition::Always),
        workflow::edge("analyze"@, "think"@, EdgeCondition::Always),
    ]
}

/// Searching, weighing and searching again.
pub open spec fn research_graph() -> StateGraphView {
    StateGraphView {
        name: "research-loop"@,
        entry_point: "think"@,
        nodes: research_nodes(),
        edges: research_edges(),
        terminal_nodes: seq!["end"@],
    }
}

/// Searching, weighing and searching again.
pub fn research_loop_graph() -> (r: StateGraph)
    ensures
        r.deep_view() == research_graph(),
{
    let mut graph = StateGraph::new("research-loop", "think");
    graph.add_node(GraphNode::infer("think", Some(RESEARCH_THINK_PROMPT), true, None));
    graph.add_node(GraphNode::call("search"));
    graph.add_node(GraphNode::infer("analyze", Some(RESEARCH_ANALYZE_PROMPT), true, None));
    graph.add_node(GraphNode::infer("end", Some(RESEARCH_END_PROMPT), false, None));
    assert(graph.deep_view().nodes =~~= research_nodes());
    graph.add_edge(GraphEdge::when("think", "search", EdgeCondition::HasToolCalls));
    graph.add_edge(GraphEdge::when("think", "end", EdgeCondition::IsFinalAnswer));
    graph.add_edge(GraphEdge::when("search", "analyze", EdgeCondition::Always));
    graph.add_edge(GraphEdge::when("analyze", "think", EdgeCondition::Always));
    assert(graph.deep_view().edges =~= research_edges());
    graph.add_terminal("end".to_string());
    graph
}

/// Where the agents of the research domain get what they know of their
/// surroundings.
pub open spec fn research_source_table(project_dir: Seq<char>) -> Seq<SourceHandleView> {
    seq![
        builtin_sources::source_in(
            "project_instructions"@,
            project_dir,
            RefreshPolicyView::OnceAtStart,
            1,
        ),
        builtin_sources::source_anywhere(
            "date"@,
            RefreshPolicyView::Periodic(time::seconds(3600)),
            5,
        ),
        builtin_sources::source_in(
            "project_config"@,
            project_dir,
            RefreshPolicyView::OnceAtStart,
            30,
        ),
        builtin_sources::source_anywhere("environment"@, RefreshPolicyView::OnceAtStart, 15),
    ]
}

/// Where the agents of the research domain get what they know of their
/// surroundings.
pub fn research_sources(project_dir: &str) -> (r: Vec<SourceHandle>)
    ensures
        r.deep_view() == research_source_table(project_dir@),
{
    let r = vec![
        ProjectInstructionsSource::new(project_dir).handle(),
        DateSource::new().handle(),
        ProjectConfigSource::new(project_dir).handle(),
        EnvironmentInfoSource::new().handle(),
    ];
    assert(r.deep_view() =~= research_source_table(project_dir@));
    r
}

/// The names of the tools of the research domain.
pub open spec fn research_tool_names() -> Seq<Seq<char>> {
    seq![
        "web_search"@, "web_fetch"@, "read_file"@, "grep"@, "glob"@, "list_directory"@,
        "environment"@, "calculator"@,
    ]
}

/// The tools of the research domain.
pub fn research_tools() -> (r: Vec<ToolHandle>)
    ensures
        r.deep_view() == domain_pack::host_tools(research_tool_names()),
{
    let names = text::texts(
        [
            "web_search", "web_fetch", "read_file", "grep", "glob", "list_directory", "environment",
            "calculator",
        ]
    );
    assert(names.deep_view() =~= research_tool_names());
    ToolHandle::hosts(&names)
}

/// The permissions of the research domain.
pub open spec fn research_permissions() -> PermissionProfileView {
    PermissionProfileView {
        auto_approve: collections::set_of(
            seq![
                "web_search"@, "web_fetch"@, "read_file"@, "grep"@, "glob"@, "list_directory"@,
                "environment"@, "calculator"@,
            ]
        ),
        require_confirmation: collections::set_of(Seq::empty()),
        deny_by_default: seq![
            DenyPatternView {
                tool_pattern: "shell"@,
                arg_pattern: Some(".*"@),
                reason: "Shell execution is not available in research mode"@,
            },
        ],
        permission_overrides: collections::table_of(Seq::empty()),
        ..permission_profile::bare_profile("research"@)
    }
}

/// The permissions of the research domain.
pub fn research_profile() -> (r: PermissionProfile)
    ensures
        r.deep_view() == research_permissions(),
{
    let auto_approve = text::texts(
        [
            "web_search", "web_fetch", "read_file", "grep", "glob", "list_directory", "environment",
            "calculator",
        ]
    );
    let require_confirmation = Vec::<String>::new();
    let overrides: Vec<(String, PermissionLevel)> = Vec::new();
    let deny_by_default = vec![
        DenyPattern::deny_tool_args(
            "shell", ".*", "Shell execution is not available in research mode",
        ),
    ];
    let profile = PermissionProfile {
        auto_approve: NameSet::from_names(auto_approve),
        require_confirmation: NameSet::from_names(require_confirmation),
        deny_by_default,
        permission_overrides: Table::from_pairs(overrides),
        ..PermissionProfile::new("research".to_string())
    };
    proof {
        assert(
            auto_approve.deep_view() =~= seq![
                "web_search"@, "web_fetch"@, "read_file"@, "grep"@, "glob"@, "list_directory"@,
                "environment"@, "calculator"@,
            ]
        );
        assert(require_confirmation.deep_view() =~= Seq::empty());
        assert(overrides.deep_view() =~= Seq::empty());
        assert(deny_by_default.deep_view() =~= research_permissions().deny_by_default);
    }
    profile
}

/// How the conversations of the research domain are summarised.
pub open spec fn research_summaries() -> CompressionTemplateView {
    CompressionTemplateView {
        name: "research"@,
        preserve_fields: seq![
            "search_queries"@, "key_findings"@, "source_citations"@, "verification_status"@,
            "conclusions"@, "unanswered_questions"@,
        ],
        template: RESEARCH_COMPRESSION_TEMPLATE@,
        truncate_rules: collections::table_of(
            seq![
                ("search_result"@, 500usize),
                ("web_content"@, 3000usize),
                ("file_content"@, 2000usize),
            ]
        ),
        default_variables: collections::table_of(
            seq![("research_depth"@, "comprehensive"@), ("citation_style"@, "[Source: URL/path]"@)]
        ),
    }
}

/// How the conversations of the research domain are summarised.
pub fn research_template() -> (r: CompressionTemplate)
    ensures
        r.deep_view() == research_summaries(),
{
    let rules: Vec<(String, usize)> = vec![
        ("search_result".to_string(), 500),
        ("web_content".to_string(), 3000),
        ("file_content".to_string(), 2000),
    ];
    let variables: Vec<(String, String)> = vec![
        ("research_depth".to_string(), "comprehensive".to_string()),
        ("citation_style".to_string(), "[Source: URL/path]".to_string()),
    ];
    proof {
        assert(
            rules.deep_view() =~= seq![
                ("search_result"@, 500usize),
                ("web_content"@, 3000usize),
                ("file_content"@, 2000usize),
            ]
        );
        assert(
            variables.deep_view() =~= seq![
                ("research_depth"@, "comprehensive"@),
                ("citation_style"@, "[Source: URL/path]"@),
            ]
        );
    }
    CompressionTemplate {
        name: "research".to_string(),
        preserve_fields: text::texts(
            [
                "search_queries", "key_findings", "source_citations", "verification_status",
                "conclusions", "unanswered_questions",
            ]
        ),
        template: RESEARCH_COMPRESSION_TEMPLATE.to_string(),
        truncate_rules: Table::from_pairs(rules),
        default_variables: Table::from_pairs(variables),
    }
}

/// What an agent needs to work in the research domain.
pub open spec fn research_contents(project_dir: Seq<char>) -> DomainPackView {
    DomainPackView {
        name: "research"@,
        description: RESEARCH_DESCRIPTION@,
        tools: domain_pack::host_tools(research_tool_names()),
        tool_decorators: research_decorators_table(),
        context_sources: research_source_table(project_dir),
        permission_profile: research_permissions(),
        paradigm_strategies: research_strategies_table(),
        compression_template: research_summaries(),
        memory_profile: memory_profile::research_memory(),
        system_prompt_template: RESEARCH_SYSTEM_PROMPT@,
        workflows: seq![deep_research_task(), literature_review_task()],
        state_graphs: seq![research_graph()],
        sub_agent_definitions: seq![
            explorer_agent(),
            paradigm_strategy::plan_agent(),
            paradigm_strategy::review_agent(),
        ],
    }
}

/// The pack of the research domain, for a project.
pub fn research_pack(project_dir: &str) -> (r: DomainPack)
    ensures
        r.deep_view() == research_contents(project_dir@),
{
    let workflows = vec![deep_research_workflow(), literature_review_workflow()];
    let state_graphs = vec![research_loop_graph()];
    let sub_agent_definitions = vec![
        explorer(),
        SubAgentTypeDefinition::plan(),
        SubAgentTypeDefinition::review(),
    ];
    proof {
        assert(workflows.deep_view() =~= research_contents(project_dir@).workflows);
        assert(state_graphs.deep_view() =~= research_contents(project_dir@).state_graphs);
        assert(sub_agent_definitions.deep_view() =~= research_contents(
            project_dir@,
        ).sub_agent_definitions);
    }
    DomainPack {
        name: "research".to_string(),
        description: RESEARCH_DESCRIPTION.to_string(),
        tools: research_tools(),
        tool_decorators: research_decorators(),
        context_sources: research_sources(project_dir),
        permission_profile: research_profile(),
        paradigm_strategies: research_strategies(),
        compression_template: research_template(),
        memory_profile: MemoryProfile::research(),
        system_prompt_template: RESEARCH_SYSTEM_PROMPT.to_string(),
        workflows,
        state_graphs,
        sub_agent_definitions,
    }
}

// ─── Laws ───────────────────────────────────────────────────────────────────

proof fn lemma_deep_research_steps()
    ensures
        workflow::steps_in_order(deep_research_steps()),
        workflow::steps_act(deep_research_steps()),
{
    let steps = deep_research_steps();
    assert(steps[0].id == steps[1].depends_on[0]);
    assert(steps[1].id == steps[2].depends_on[0]);
    assert(steps[2].id == steps[3].depends_on[0]);
    assert(steps[3].id == steps[4].depends_on[0]);
}

proof fn lemma_literature_review_steps()
    ensures
        workflow::steps_in_order(literature_review_steps()),
        workflow::steps_act(literature_review_steps()),
{
    let steps = literature_review_steps();
    assert(steps[0].id == steps[1].depends_on[0]);
    assert(steps[1].id == steps[2].depends_on[0]);
    assert(steps[2].id == steps[3].depends_on[0]);
}

proof fn lemma_research_graph()
    ensures
        workflow::sound_graph(research_graph()),
{
    let graph = research_graph();
    assert(graph.nodes[0].id == graph.entry_point);
    assert(graph.nodes[3].id == graph.terminal_nodes[0]);
    assert(graph.edges[0].from == graph.nodes[0].id);
    assert(graph.edges[0].to == graph.nodes[1].id);
    assert(graph.edges[1].from == graph.nodes[0].id);
    assert(graph.edges[1].to == graph.nodes[3].id);
    assert(graph.edges[2].from == graph.nodes[1].id);
    assert(graph.edges[2].to == graph.nodes[2].id);
    assert(graph.edges[3].from == graph.nodes[2].id);
    assert(graph.edges[3].to == graph.nodes[0].id);
    assert(workflow::reaches(graph, "end"@, "end"@, 3));
    assert(graph.edges[1].from == "think"@ && graph.edges[1].to == "end"@);
    assert(workflow::follows(graph, "think"@, "end"@));
    assert(workflow::reaches(graph, "think"@, "end"@, 4));
    assert(workflow::reaches(graph, "end"@, "end"@, 1));
    assert(graph.edges[1].from == "think"@ && graph.edges[1].to == "end"@);
    assert(workflow::follows(graph, "think"@, "end"@));
    assert(workflow::reaches(graph, "think"@, "end"@, 2));
    assert(graph.edges[3].from == "analyze"@ && graph.edges[3].to == "think"@);
    assert(workflow::follows(graph, "analyze"@, "think"@));
    assert(workflow::reaches(graph, "analyze"@, "end"@, 3));
    assert(graph.edges[2].from == "search"@ && graph.edges[2].to == "analyze"@);
    assert(workflow::follows(graph, "search"@, "analyze"@));
    assert(workflow::reaches(graph, "search"@, "end"@, 4));
    assert(workflow::reaches(graph, "end"@, "end"@, 2));
    assert(graph.edges[1].from == "think"@ && graph.edges[1].to == "end"@);
    assert(workflow::follows(graph, "think"@, "end"@));
    assert(workflow::reaches(graph, "think"@, "end"@, 3));
    assert(graph.edges[3].from == "analyze"@ && graph.edges[3].to == "think"@);
    assert(workflow::follows(graph, "analyze"@, "think"@));
    assert(workflow::reaches(graph, "analyze"@, "end"@, 4));
    assert(workflow::reaches(graph, "end"@, "end"@, 4));
}

/// The steps of each workflow of the pack stand behind those that they depend
/// on, and each calls a tool or asks a model.
pub proof fn law_research_workflows(project_dir: Seq<char>, i: int)
    requires
        0 <= i < research_contents(project_dir).workflows.len(),
    ensures
        workflow::steps_in_order(research_contents(project_dir).workflows[i].steps),
        workflow::steps_act(research_contents(project_dir).workflows[i].steps),
{
    lemma_deep_research_steps();
    lemma_literature_review_steps();
}

/// Each graph of the pack begins and ends at nodes of its own, its edges join
/// nodes of its own, and its end can be reached from each of them.
pub proof fn law_research_graphs(project_dir: Seq<char>, i: int)
    requires
        0 <= i < research_contents(project_dir).state_graphs.len(),
    ensures
        workflow::sound_graph(research_contents(project_dir).state_graphs[i]),
{
    lemma_research_graph();
}

/// The pack speaks of no tool that it does not have.
pub proof fn law_research_decorators_name_tools(i: int)
    requires
        0 <= i < research_decorators_table().len(),
    ensures
        research_tool_names().contains(research_decorators_table()[i].tool_name),
{
    let names = research_tool_names();
    assert(names[0] == research_decorators_table()[0].tool_name);
    assert(names[1] == research_decorators_table()[1].tool_name);
    assert(names[2] == research_decorators_table()[2].tool_name);
    assert(names[3] == research_decorators_table()[3].tool_name);
    assert(names[4] == research_decorators_table()[4].tool_name);
    assert(names[5] == research_decorators_table()[5].tool_name);
    assert(names[6] == research_decorators_table()[6].tool_name);
    assert(names[7] == research_decorators_table()[7].tool_name);
}

/// Every tool of the domain runs without asking, unless a pattern refuses the
/// call: research changes nothing.
pub proof fn law_research_tools_run(tool: Seq<char>)
    requires
        research_tool_names().contains(tool),
    ensures
        research_permissions().auto_approve.contains(tool),
        research_permissions().require_confirmation.len() == 0,
{
    let auto = seq![
        "web_search"@, "web_fetch"@, "read_file"@, "grep"@, "glob"@, "list_directory"@,
        "environment"@, "calculator"@,
    ];
    collections::lemma_set_of(auto, tool);
    let i = choose|i: int| 0 <= i < research_tool_names().len() && research_tool_names()[i] == tool;
    assert(auto[i] == tool);
}

/// The agents that help with a task change no files, and are given only tools that the pack
/// has.
pub proof fn law_research_agents(project_dir: Seq<char>, i: int, j: int, k: int)
    ensures
        ({
            let pack = research_contents(project_dir);
            let names = research_tool_names();
            &&& 0 <= i < pack.paradigm_strategies.len() ==> {
                let strategy = pack.paradigm_strategies[i];
                &&& strategy.paradigm_sequence.len() > 0
                &&& 0 <= j < strategy.sub_agent_types.len() ==> {
                    let agent = strategy.sub_agent_types[j];
                    &&& !agent.modifies_files
                    &&& agent.merge_strategy == SubAgentMergeStrategy::PreserveOnly
                    &&& 0 <= k < agent.available_tools.len() ==> names.contains(
                        agent.available_tools[k],
                    )
                }
            }
            &&& 0 <= j < pack.sub_agent_definitions.len() ==> {
                let agent = pack.sub_agent_definitions[j];
                &&& !agent.modifies_files
                &&& 0 <= k < agent.available_tools.len() ==> names.contains(
                    agent.available_tools[k],
                )
            }
        }),
{
    let names = research_tool_names();
    assert(names[0] == "web_search"@ && names[1] == "web_fetch"@ && names[2] == "read_file"@
        && names[3] == "grep"@ && names[4] == "glob"@ && names[5] == "list_directory"@ && names[7]
        == "calculator"@);
    assert(names.contains("web_search"@) && names.contains("web_fetch"@) && names.contains(
        "read_file"@,
    ) && names.contains("grep"@) && names.contains("glob"@) && names.contains("list_directory"@)
        && names.contains("calculator"@));
}

/// The sources of the pack look at the project that it is for, or at none.
pub proof fn law_research_sources(project_dir: Seq<char>, i: int)
    ensures
        ({
            let sources = research_contents(project_dir).context_sources;
            &&& 0 <= i < sources.len() ==> (sources[i].project_dir matches Some(dir) ==> dir
                == project_dir)
            &&& research_contents(project_dir).name == "research"@
            &&& research_contents(project_dir).tools == domain_pack::host_tools(
                research_tool_names(),
            )
        }),
{
}

} // verus!
