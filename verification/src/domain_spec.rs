//! What a configuration of a pack looks like: its JSON Schema, and the names that
//! it may use.

use vstd::prelude::*;
use crate::data::{self, DataValue, DataView};
use crate::text;

verus! {

/// How refused calls are written.
pub open spec fn deny_patterns_schema() -> DataView {
    data::no_fields()
        .with("type"@, DataView::Text("array"@))
        .with("description"@, DataView::Text("Deny patterns — always block matching tool calls"@))
        .with("items"@, data::no_fields()
            .with("type"@, DataView::Text("object"@))
            .with(
                "required"@,
                data::no_items().item(DataView::Text("tool"@)).item(DataView::Text("reason"@)),
            )
            .with("properties"@, data::no_fields()
                .with("tool"@, data::no_fields()
                    .with("type"@, DataView::Text("string"@))
                    .with("description"@, DataView::Text("Tool name pattern (exact or regex)"@)))
                .with("args_pattern"@, data::no_fields()
                    .with("type"@, DataView::Text("string"@))
                    .with("description"@, DataView::Text("Optional regex pattern matching tool arguments"@)))
                .with("reason"@, data::no_fields()
                    .with("type"@, DataView::Text("string"@))
                    .with("description"@, DataView::Text("Reason for denial (shown to user and model)"@)))))
}

/// How refused calls are written.
fn deny_patterns() -> (r: DataValue)
    ensures
        r.deep_view() == deny_patterns_schema(),
{
    DataValue::fields()
        .with("type", data::text_value("array"))
        .with("description", data::text_value("Deny patterns — always block matching tool calls"))
        .with("items", DataValue::fields()
            .with("type", data::text_value("object"))
            .with(
                "required",
                DataValue::items().item(data::text_value("tool")).item(data::text_value("reason")),
            )
            .with("properties", DataValue::fields()
                .with("tool", DataValue::fields()
                    .with("type", data::text_value("string"))
                    .with("description", data::text_value("Tool name pattern (exact or regex)")))
                .with("args_pattern", DataValue::fields()
                    .with("type", data::text_value("string"))
                    .with("description", data::text_value("Optional regex pattern matching tool arguments")))
                .with("reason", DataValue::fields()
                    .with("type", data::text_value("string"))
                    .with("description", data::text_value("Reason for denial (shown to user and model)")))))
}

/// How permissions are written.
pub open spec fn permissions_schema() -> DataView {
    data::no_fields()
        .with("type"@, DataView::Text("object"@))
        .with(
            "description"@,
            DataView::Text("Permission profile — determines how tool calls are approved/denied"@),
        )
        .with("required"@, data::no_items())
        .with("properties"@, data::no_fields()
            .with("auto_approve"@, data::no_fields()
                .with("type"@, DataView::Text("array"@))
                .with(
                    "description"@,
                    DataView::Text("Tool names to auto-approve (skip approval gate)"@),
                )
                .with("items"@, data::no_fields()
                    .with("type"@, DataView::Text("string"@)))
                .with("uniqueItems"@, DataView::Bool(true)))
            .with("require_confirmation"@, data::no_fields()
                .with("type"@, DataView::Text("array"@))
                .with(
                    "description"@,
                    DataView::Text("Tool names that require explicit confirmation"@),
                )
                .with("items"@, data::no_fields()
                    .with("type"@, DataView::Text("string"@)))
                .with("uniqueItems"@, DataView::Bool(true)))
            .with("deny_by_default"@, deny_patterns_schema()))
}

/// How permissions are written.
fn permissions() -> (r: DataValue)
    ensures
        r.deep_view() == permissions_schema(),
{
    DataValue::fields()
        .with("type", data::text_value("object"))
        .with(
            "description",
            data::text_value("Permission profile — determines how tool calls are approved/denied"),
        )
        .with("required", DataValue::items())
        .with("properties", DataValue::fields()
            .with("auto_approve", DataValue::fields()
                .with("type", data::text_value("array"))
                .with(
                    "description",
                    data::text_value("Tool names to auto-approve (skip approval gate)"),
                )
                .with("items", DataValue::fields()
                    .with("type", data::text_value("string")))
                .with("uniqueItems", DataValue::Bool(true)))
            .with("require_confirmation", DataValue::fields()
                .with("type", data::text_value("array"))
                .with(
                    "description",
                    data::text_value("Tool names that require explicit confirmation"),
                )
                .with("items", DataValue::fields()
                    .with("type", data::text_value("string")))
                .with("uniqueItems", DataValue::Bool(true)))
            .with("deny_by_default", deny_patterns()))
}

/// How helping agents are written.
pub open spec fn sub_agents_schema() -> DataView {
    data::no_fields()
        .with("type"@, DataView::Text("array"@))
        .with("description"@, DataView::Text("Sub-agent type definitions"@))
        .with("items"@, data::no_fields()
            .with("type"@, DataView::Text("object"@))
            .with(
                "required"@,
                data::no_items()
                    .item(DataView::Text("name"@))
                    .item(DataView::Text("description"@))
                    .item(DataView::Text("system_prompt"@))
                    .item(DataView::Text("available_tools"@)),
            )
            .with("properties"@, data::no_fields()
                .with("name"@, data::no_fields()
                    .with("type"@, DataView::Text("string"@))
                    .with("minLength"@, DataView::Number(text::digits(1))))
                .with("description"@, data::no_fields()
                    .with("type"@, DataView::Text("string"@)))
                .with("system_prompt"@, data::no_fields()
                    .with("type"@, DataView::Text("string"@))
                    .with("minLength"@, DataView::Number(text::digits(1))))
                .with("available_tools"@, data::no_fields()
                    .with("type"@, DataView::Text("array"@))
                    .with("items"@, data::no_fields()
                        .with("type"@, DataView::Text("string"@)))
                    .with("minItems"@, DataView::Number(text::digits(1))))
                .with("permission_threshold"@, data::no_fields()
                    .with("type"@, DataView::Text("string"@))
                    .with(
                        "enum"@,
                        data::no_items()
                            .item(DataView::Text("read"@))
                            .item(DataView::Text("standard"@))
                            .item(DataView::Text("admin"@)),
                    )
                    .with("default"@, DataView::Text("standard"@)))
                .with("modifies_files"@, data::no_fields()
                    .with("type"@, DataView::Text("boolean"@))
                    .with("default"@, DataView::Bool(false)))))
}

/// How helping agents are written.
fn sub_agents() -> (r: DataValue)
    ensures
        r.deep_view() == sub_agents_schema(),
{
    DataValue::fields()
        .with("type", data::text_value("array"))
        .with("description", data::text_value("Sub-agent type definitions"))
        .with("items", DataValue::fields()
            .with("type", data::text_value("object"))
            .with(
                "required",
                DataValue::items()
                    .item(data::text_value("name"))
                    .item(data::text_value("description"))
                    .item(data::text_value("system_prompt"))
                    .item(data::text_value("available_tools")),
            )
            .with("properties", DataValue::fields()
                .with("name", DataValue::fields()
                    .with("type", data::text_value("string"))
                    .with("minLength", data::number_value(1)))
                .with("description", DataValue::fields()
                    .with("type", data::text_value("string")))
                .with("system_prompt", DataValue::fields()
                    .with("type", data::text_value("string"))
                    .with("minLength", data::number_value(1)))
                .with("available_tools", DataValue::fields()
                    .with("type", data::text_value("array"))
                    .with("items", DataValue::fields()
                        .with("type", data::text_value("string")))
                    .with("minItems", data::number_value(1)))
                .with("permission_threshold", DataValue::fields()
                    .with("type", data::text_value("string"))
                    .with(
                        "enum",
                        DataValue::items()
                            .item(data::text_value("read"))
                            .item(data::text_value("standard"))
                            .item(data::text_value("admin")),
                    )
                    .with("default", data::text_value("standard")))
                .with("modifies_files", DataValue::fields()
                    .with("type", data::text_value("boolean"))
                    .with("default", DataValue::Bool(false)))))
}

/// How ways of working are written.
pub open spec fn strategies_schema() -> DataView {
    data::no_fields()
        .with("type"@, DataView::Text("array"@))
        .with(
            "description"@,
            DataView::Text(
                "Paradigm strategy definitions — task pattern → paradigm sequence mapping"@
            ),
        )
        .with("items"@, data::no_fields()
            .with("type"@, DataView::Text("object"@))
            .with(
                "required"@,
                data::no_items().item(DataView::Text("trigger"@)).item(DataView::Text("sequence"@)),
            )
            .with("properties"@, data::no_fields()
                .with("trigger"@, data::no_fields()
                    .with("type"@, DataView::Text("string"@))
                    .with(
                        "description"@,
                        DataView::Text("Regex pattern for matching task descriptions"@),
                    )
                    .with("minLength"@, DataView::Number(text::digits(1))))
                .with("sequence"@, data::no_fields()
                    .with("type"@, DataView::Text("array"@))
                    .with(
                        "description"@,
                        DataView::Text("Paradigm sequence (Plan, ReAct, Reflect, Explore)"@),
                    )
                    .with("items"@, data::no_fields()
                        .with("type"@, DataView::Text("string"@))
                        .with("enum"@, data::no_items().item(DataView::Text("Plan"@)).item(DataView::Text("ReAct"@)).item(DataView::Text("Reflect"@)).item(DataView::Text("Explore"@))))
                    .with("minItems"@, DataView::Number(text::digits(1))))
                .with("sub_agents"@, sub_agents_schema())
                .with("description"@, data::no_fields()
                    .with("type"@, DataView::Text("string"@))
                    .with("default"@, DataView::Text(""@)))))
}

/// How ways of working are written.
fn strategies() -> (r: DataValue)
    ensures
        r.deep_view() == strategies_schema(),
{
    DataValue::fields()
        .with("type", data::text_value("array"))
        .with(
            "description",
            data::text_value(
                "Paradigm strategy definitions — task pattern → paradigm sequence mapping"
            ),
        )
        .with("items", DataValue::fields()
            .with("type", data::text_value("object"))
            .with(
                "required",
                DataValue::items().item(data::text_value("trigger")).item(data::text_value("sequence")),
            )
            .with("properties", DataValue::fields()
                .with("trigger", DataValue::fields()
                    .with("type", data::text_value("string"))
                    .with(
                        "description",
                        data::text_value("Regex pattern for matching task descriptions"),
                    )
                    .with("minLength", data::number_value(1)))
                .with("sequence", DataValue::fields()
                    .with("type", data::text_value("array"))
                    .with(
                        "description",
                        data::text_value("Paradigm sequence (Plan, ReAct, Reflect, Explore)"),
                    )
                    .with("items", DataValue::fields()
                        .with("type", data::text_value("string"))
                        .with("enum", DataValue::items().item(data::text_value("Plan")).item(data::text_value("ReAct")).item(data::text_value("Reflect")).item(data::text_value("Explore"))))
                    .with("minItems", data::number_value(1)))
                .with("sub_agents", sub_agents())
                .with("description", DataValue::fields()
                    .with("type", data::text_value("string"))
                    .with("default", data::text_value("")))))
}

/// How templates of summaries are written.
pub open spec fn summaries_schema() -> DataView {
    data::no_fields()
        .with("type"@, DataView::Text("object"@))
        .with(
            "description"@,
            DataView::Text("Compression template — context preservation priorities"@),
        )
        .with("properties"@, data::no_fields()
            .with("name"@, data::no_fields()
                .with("type"@, DataView::Text("string"@))
                .with("minLength"@, DataView::Number(text::digits(1))))
            .with("preserve_fields"@, data::no_fields()
                .with("type"@, DataView::Text("array"@))
                .with("description"@, DataView::Text("Fields to preserve during compression"@))
                .with("items"@, data::no_fields()
                    .with("type"@, DataView::Text("string"@))))
            .with("truncate_rules"@, data::no_fields()
                .with("type"@, DataView::Text("object"@))
                .with("description"@, DataView::Text("Truncation rules: content_type → max chars"@))
                .with("additionalProperties"@, data::no_fields()
                    .with("type"@, DataView::Text("integer"@))
                    .with("minimum"@, DataView::Number(text::digits(0))))))
}

/// How templates of summaries are written.
fn summaries() -> (r: DataValue)
    ensures
        r.deep_view() == summaries_schema(),
{
    DataValue::fields()
        .with("type", data::text_value("object"))
        .with(
            "description",
            data::text_value("Compression template — context preservation priorities"),
        )
        .with("properties", DataValue::fields()
            .with("name", DataValue::fields()
                .with("type", data::text_value("string"))
                .with("minLength", data::number_value(1)))
            .with("preserve_fields", DataValue::fields()
                .with("type", data::text_value("array"))
                .with("description", data::text_value("Fields to preserve during compression"))
                .with("items", DataValue::fields()
                    .with("type", data::text_value("string"))))
            .with("truncate_rules", DataValue::fields()
                .with("type", data::text_value("object"))
                .with("description", data::text_value("Truncation rules: content_type → max chars"))
                .with("additionalProperties", DataValue::fields()
                    .with("type", data::text_value("integer"))
                    .with("minimum", data::number_value(0)))))
}

/// How a text is written that may be left out.
pub open spec fn text_schema(description: Seq<char>, default: Seq<char>) -> DataView {
    data::no_fields()
        .with("type"@, DataView::Text("string"@))
        .with("description"@, DataView::Text(description))
        .with("default"@, DataView::Text(default))
}

/// How a text is written that may be left out.
fn optional_text(description: &str, default: &str) -> (r: DataValue)
    ensures
        r.deep_view() == text_schema(description@, default@),
{
    DataValue::fields()
        .with("type", data::text_value("string"))
        .with("description", data::text_value(description))
        .with("default", data::text_value(default))
}

/// The names of sources.
pub open spec fn source_names() -> DataView {
    data::no_items()
        .item(DataView::Text("project_instructions"@))
        .item(DataView::Text("git_status"@))
        .item(DataView::Text("file_tree"@))
        .item(DataView::Text("project_config"@))
        .item(DataView::Text("date"@))
        .item(DataView::Text("environment"@))
}

/// How the name of a source is written.
pub open spec fn source_schema() -> DataView {
    data::no_fields().with("type"@, DataView::Text("string"@)).with("enum"@, source_names())
}

/// How the name of a source is written.
fn source() -> (r: DataValue)
    ensures
        r.deep_view() == source_schema(),
{
    let names = DataValue::items()
        .item(data::text_value("project_instructions"))
        .item(data::text_value("git_status"))
        .item(data::text_value("file_tree"))
        .item(data::text_value("project_config"))
        .item(data::text_value("date"))
        .item(data::text_value("environment"));
    DataValue::fields().with("type", data::text_value("string")).with("enum", names)
}

/// How the names of sources are written.
pub open spec fn sources_schema() -> DataView {
    data::no_fields()
        .with("type"@, DataView::Text("array"@))
        .with(
            "description"@,
            DataView::Text("Context source names to include — resolved from predefined factories"@),
        )
        .with("items"@, source_schema())
        .with("uniqueItems"@, DataView::Bool(true))
}

/// How the names of sources are written.
fn sources() -> (r: DataValue)
    ensures
        r.deep_view() == sources_schema(),
{
    DataValue::fields()
        .with("type", data::text_value("array"))
        .with(
            "description",
            data::text_value(
                "Context source names to include — resolved from predefined factories"
            ),
        )
        .with("items", source())
        .with("uniqueItems", DataValue::Bool(true))
}

/// How the names of tools are written.
pub open spec fn tools_schema() -> DataView {
    data::no_fields()
        .with("type"@, DataView::Text("array"@))
        .with(
            "description"@,
            DataView::Text("Tool names to include — resolved from predefined tool factories"@),
        )
        .with("items"@, data::no_fields()
            .with("type"@, DataView::Text("string"@))
            .with("minLength"@, DataView::Number(text::digits(1))))
        .with("minItems"@, DataView::Number(text::digits(0)))
        .with("uniqueItems"@, DataView::Bool(true))
}

/// How the names of tools are written.
fn tools() -> (r: DataValue)
    ensures
        r.deep_view() == tools_schema(),
{
    DataValue::fields()
        .with("type", data::text_value("array"))
        .with(
            "description",
            data::text_value("Tool names to include — resolved from predefined tool factories"),
        )
        .with("items", DataValue::fields()
            .with("type", data::text_value("string"))
            .with("minLength", data::number_value(1)))
        .with("minItems", data::number_value(0))
        .with("uniqueItems", DataValue::Bool(true))
}

/// How what is said of tools is written.
pub open spec fn decorators_schema() -> DataView {
    data::no_fields()
        .with("type"@, DataView::Text("object"@))
        .with(
            "description"@,
            DataView::Text("Tool description overrides — tool name → custom description"@),
        )
        .with("additionalProperties"@, data::no_fields()
            .with("type"@, DataView::Text("string"@))
            .with("minLength"@, DataView::Number(text::digits(1))))
}

/// How what is said of tools is written.
fn decorators() -> (r: DataValue)
    ensures
        r.deep_view() == decorators_schema(),
{
    DataValue::fields()
        .with("type", data::text_value("object"))
        .with(
            "description",
            data::text_value("Tool description overrides — tool name → custom description"),
        )
        .with("additionalProperties", DataValue::fields()
            .with("type", data::text_value("string"))
            .with("minLength", data::number_value(1)))
}

/// How the name of a pack is written.
pub open spec fn name_schema() -> DataView {
    data::no_fields()
        .with("type"@, DataView::Text("string"@))
        .with(
            "description"@,
            DataView::Text("Unique domain name (e.g., 'coding', 'research', 'data_analysis')"@),
        )
        .with("minLength"@, DataView::Number(text::digits(1)))
        .with("maxLength"@, DataView::Number(text::digits(64)))
        .with("pattern"@, DataView::Text("^[a-z][a-z0-9_-]*$"@))
}

/// How the name of a pack is written.
fn name() -> (r: DataValue)
    ensures
        r.deep_view() == name_schema(),
{
    DataValue::fields()
        .with("type", data::text_value("string"))
        .with(
            "description",
            data::text_value("Unique domain name (e.g., 'coding', 'research', 'data_analysis')"),
        )
        .with("minLength", data::number_value(1))
        .with("maxLength", data::number_value(64))
        .with("pattern", data::text_value("^[a-z][a-z0-9_-]*$"))
}

/// The fields of a configuration.
pub open spec fn fields_schema() -> DataView {
    data::no_fields()
        .with("spec_version"@, text_schema("DomainPack spec version (e.g., '1.0')"@, "1.0"@))
        .with("name"@, name_schema())
        .with("description"@, text_schema("Human-readable description of this domain pack"@, ""@))
        .with("tools"@, tools_schema())
        .with("tool_decorators"@, decorators_schema())
        .with("context_sources"@, sources_schema())
        .with("permission_profile"@, permissions_schema())
        .with("paradigm_strategies"@, strategies_schema())
        .with("compression_template"@, summaries_schema())
        .with("system_prompt"@, text_schema("System prompt template for this domain's agent"@, ""@))
}

/// The fields of a configuration.
fn fields() -> (r: DataValue)
    ensures
        r.deep_view() == fields_schema(),
{
    DataValue::fields()
        .with("spec_version", optional_text("DomainPack spec version (e.g., '1.0')", "1.0"))
        .with("name", name())
        .with("description", optional_text("Human-readable description of this domain pack", ""))
        .with("tools", tools())
        .with("tool_decorators", decorators())
        .with("context_sources", sources())
        .with("permission_profile", permissions())
        .with("paradigm_strategies", strategies())
        .with("compression_template", summaries())
        .with("system_prompt", optional_text("System prompt template for this domain's agent", ""))
}

/// The JSON Schema of a configuration.
pub open spec fn document() -> DataView {
    data::no_fields()
        .with("$schema"@, DataView::Text("https://json-schema.org/draft/2020-12/schema"@))
        .with("$id"@, DataView::Text("https://oneai.dev/spec/domain-pack/v1.0"@))
        .with("title"@, DataView::Text("DomainPack Configuration"@))
        .with(
            "description"@,
            DataView::Text(
                "DomainPack configuration schema — 5 layers of domain workflow embedding for OneAI agents"@
            ),
        )
        .with("type"@, DataView::Text("object"@))
        .with(
            "required"@,
            data::no_items()
                .item(DataView::Text("name"@))
                .item(DataView::Text("tools"@))
                .item(DataView::Text("permission_profile"@)),
        )
        .with("properties"@, fields_schema())
}

/// The names of the tools that a configuration may name.
pub open spec fn known_tools() -> Seq<Seq<char>> {
    seq![
        "read_file"@, "edit_file"@, "grep"@, "glob"@, "list_directory"@, "shell"@, "environment"@,
        "calculator"@, "notebook_edit"@, "apply_patch"@, "web_search"@, "web_fetch"@,
    ]
}

/// The names of the sources that a configuration may name.
pub open spec fn known_sources() -> Seq<Seq<char>> {
    seq![
        "project_instructions"@, "git_status"@, "file_tree"@, "project_config"@, "date"@,
        "environment"@,
    ]
}

/// What a configuration of a pack looks like.
pub struct DomainPackSpec;

impl DomainPackSpec {
    /// The version of the description.
    pub const SPEC_VERSION: &'static str = "1.0";

    /// The JSON Schema of a configuration.
    pub fn schema() -> (r: DataValue)
        ensures
            r.deep_view() == document(),
    {
        DataValue::fields()
            .with("$schema", data::text_value("https://json-schema.org/draft/2020-12/schema"))
            .with("$id", data::text_value("https://oneai.dev/spec/domain-pack/v1.0"))
            .with("title", data::text_value("DomainPack Configuration"))
            .with(
                "description",
                data::text_value(
                    "DomainPack configuration schema — 5 layers of domain workflow embedding for OneAI agents"
                ),
            )
            .with("type", data::text_value("object"))
            .with(
                "required",
                DataValue::items()
                    .item(data::text_value("name"))
                    .item(data::text_value("tools"))
                    .item(data::text_value("permission_profile")),
            )
            .with("properties", fields())
    }

    /// The names of the tools that a configuration may name.
    pub fn known_tool_names() -> (r: Vec<String>)
        ensures
            r.deep_view() == known_tools(),
    {
        text::texts(
            [
                "read_file", "edit_file", "grep", "glob", "list_directory", "shell", "environment",
                "calculator", "notebook_edit", "apply_patch", "web_search", "web_fetch",
            ]
        )
    }

    /// The names of the sources that a configuration may name.
    pub fn known_context_source_names() -> (r: Vec<String>)
        ensures
            r.deep_view() == known_sources(),
    {
        text::texts(
            [
                "project_instructions", "git_status", "file_tree", "project_config", "date",
                "environment",
            ]
        )
    }
}

// ─── Laws ───────────────────────────────────────────────────────────────────

/// The fields of a configuration stand under `properties`.
proof fn lemma_fields()
    ensures
        document().field("properties"@) == Some(fields_schema()),
{
    reveal_strlit("$id");
    reveal_strlit("$schema");
    reveal_strlit("description");
    reveal_strlit("properties");
    reveal_strlit("required");
    reveal_strlit("title");
    reveal_strlit("type");
    let at0 = data::no_fields();
    let at1 = at0.with("$schema"@, DataView::Text("https://json-schema.org/draft/2020-12/schema"@));
    assert("$schema"@.len() != "properties"@.len());
    data::law_field_after_with(
        at0,
        "$schema"@,
        DataView::Text("https://json-schema.org/draft/2020-12/schema"@),
        "properties"@,
    );
    let at2 = at1.with("$id"@, DataView::Text("https://oneai.dev/spec/domain-pack/v1.0"@));
    assert("$id"@.len() != "properties"@.len());
    data::law_field_after_with(
        at1,
        "$id"@,
        DataView::Text("https://oneai.dev/spec/domain-pack/v1.0"@),
        "properties"@,
    );
    let at3 = at2.with("title"@, DataView::Text("DomainPack Configuration"@));
    assert("title"@.len() != "properties"@.len());
    data::law_field_after_with(
        at2,
        "title"@,
        DataView::Text("DomainPack Configuration"@),
        "properties"@,
    );
    let at4 = at3.with(
        "description"@,
        DataView::Text(
            "DomainPack configuration schema — 5 layers of domain workflow embedding for OneAI agents"@
        ),
    );
    assert("description"@.len() != "properties"@.len());
    data::law_field_after_with(
        at3,
        "description"@,
        DataView::Text(
            "DomainPack configuration schema — 5 layers of domain workflow embedding for OneAI agents"@
        ),
        "properties"@,
    );
    let at5 = at4.with("type"@, DataView::Text("object"@));
    assert("type"@.len() != "properties"@.len());
    data::law_field_after_with(at4, "type"@, DataView::Text("object"@), "properties"@);
    let at6 = at5.with(
        "required"@,
        data::no_items()
            .item(DataView::Text("name"@))
            .item(DataView::Text("tools"@))
            .item(DataView::Text("permission_profile"@)),
    );
    assert("required"@.len() != "properties"@.len());
    data::law_field_after_with(
        at5,
        "required"@,
        data::no_items()
            .item(DataView::Text("name"@))
            .item(DataView::Text("tools"@))
            .item(DataView::Text("permission_profile"@)),
        "properties"@,
    );
    let at7 = at6.with("properties"@, fields_schema());
    data::law_field_after_with(at6, "properties"@, fields_schema(), "properties"@);
}

/// The names of sources are a field of a configuration.
proof fn lemma_sources()
    ensures
        fields_schema().field("context_sources"@) == Some(sources_schema()),
{
    reveal_strlit("compression_template");
    reveal_strlit("context_sources");
    reveal_strlit("description");
    reveal_strlit("name");
    reveal_strlit("paradigm_strategies");
    reveal_strlit("permission_profile");
    reveal_strlit("spec_version");
    reveal_strlit("system_prompt");
    reveal_strlit("tool_decorators");
    reveal_strlit("tools");
    let at0 = data::no_fields();
    let at1 = at0.with(
        "spec_version"@,
        text_schema("DomainPack spec version (e.g., '1.0')"@, "1.0"@),
    );
    assert("spec_version"@.len() != "context_sources"@.len());
    data::law_field_after_with(
        at0,
        "spec_version"@,
        text_schema("DomainPack spec version (e.g., '1.0')"@, "1.0"@),
        "context_sources"@,
    );
    let at2 = at1.with("name"@, name_schema());
    assert("name"@.len() != "context_sources"@.len());
    data::law_field_after_with(at1, "name"@, name_schema(), "context_sources"@);
    let at3 = at2.with(
        "description"@,
        text_schema("Human-readable description of this domain pack"@, ""@),
    );
    assert("description"@.len() != "context_sources"@.len());
    data::law_field_after_with(
        at2,
        "description"@,
        text_schema("Human-readable description of this domain pack"@, ""@),
        "context_sources"@,
    );
    let at4 = at3.with("tools"@, tools_schema());
    assert("tools"@.len() != "context_sources"@.len());
    data::law_field_after_with(at3, "tools"@, tools_schema(), "context_sources"@);
    let at5 = at4.with("tool_decorators"@, decorators_schema());
    assert("tool_decorators"@[0] != "context_sources"@[0]);
    data::law_field_after_with(at4, "tool_decorators"@, decorators_schema(), "context_sources"@);
    let at6 = at5.with("context_sources"@, sources_schema());
    data::law_field_after_with(at5, "context_sources"@, sources_schema(), "context_sources"@);
    let at7 = at6.with("permission_profile"@, permissions_schema());
    assert("permission_profile"@.len() != "context_sources"@.len());
    data::law_field_after_with(
        at6,
        "permission_profile"@,
        permissions_schema(),
        "context_sources"@,
    );
    let at8 = at7.with("paradigm_strategies"@, strategies_schema());
    assert("paradigm_strategies"@.len() != "context_sources"@.len());
    data::law_field_after_with(
        at7,
        "paradigm_strategies"@,
        strategies_schema(),
        "context_sources"@,
    );
    let at9 = at8.with("compression_template"@, summaries_schema());
    assert("compression_template"@.len() != "context_sources"@.len());
    data::law_field_after_with(
        at8,
        "compression_template"@,
        summaries_schema(),
        "context_sources"@,
    );
    let at10 = at9.with(
        "system_prompt"@,
        text_schema("System prompt template for this domain's agent"@, ""@),
    );
    assert("system_prompt"@.len() != "context_sources"@.len());
    data::law_field_after_with(
        at9,
        "system_prompt"@,
        text_schema("System prompt template for this domain's agent"@, ""@),
        "context_sources"@,
    );
}

/// Each name of a source is one item.
proof fn lemma_source_items()
    ensures
        sources_schema().field("items"@) == Some(source_schema()),
{
    reveal_strlit("description");
    reveal_strlit("items");
    reveal_strlit("type");
    reveal_strlit("uniqueItems");
    let at0 = data::no_fields();
    let at1 = at0.with("type"@, DataView::Text("array"@));
    assert("type"@.len() != "items"@.len());
    data::law_field_after_with(at0, "type"@, DataView::Text("array"@), "items"@);
    let at2 = at1.with(
        "description"@,
        DataView::Text("Context source names to include — resolved from predefined factories"@),
    );
    assert("description"@.len() != "items"@.len());
    data::law_field_after_with(
        at1,
        "description"@,
        DataView::Text("Context source names to include — resolved from predefined factories"@),
        "items"@,
    );
    let at3 = at2.with("items"@, source_schema());
    data::law_field_after_with(at2, "items"@, source_schema(), "items"@);
    let at4 = at3.with("uniqueItems"@, DataView::Bool(true));
    assert("uniqueItems"@.len() != "items"@.len());
    data::law_field_after_with(at3, "uniqueItems"@, DataView::Bool(true), "items"@);
}

/// The items are listed.
proof fn lemma_source_names()
    ensures
        source_schema().field("enum"@) == Some(source_names()),
{
    reveal_strlit("enum");
    reveal_strlit("type");
    let at0 = data::no_fields();
    let at1 = at0.with("type"@, DataView::Text("string"@));
    assert("type"@[0] != "enum"@[0]);
    data::law_field_after_with(at0, "type"@, DataView::Text("string"@), "enum"@);
    let at2 = at1.with("enum"@, source_names());
    data::law_field_after_with(at1, "enum"@, source_names(), "enum"@);
}

/// The schema admits the names of sources that are known, and no others.
pub proof fn law_schema_lists_known_sources()
    ensures
        document().field("properties"@) == Some(fields_schema()),
        fields_schema().field("context_sources"@) == Some(sources_schema()),
        sources_schema().field("items"@) matches Some(items) && items.field("enum"@) == Some(
            DataView::List(data::texts_contents(known_sources())),
        ),
{
    lemma_fields();
    lemma_sources();
    lemma_source_items();
    lemma_source_names();
    let listed = source_names();
    assert(listed->List_0 =~= data::texts_contents(known_sources()));
}

proof fn lemma_field_spec_version()
    ensures
        fields_schema().field("spec_version"@) == Some(
            text_schema("DomainPack spec version (e.g., '1.0')"@, "1.0"@)
        ),
{
    reveal_strlit("compression_template");
    reveal_strlit("context_sources");
    reveal_strlit("description");
    reveal_strlit("name");
    reveal_strlit("paradigm_strategies");
    reveal_strlit("permission_profile");
    reveal_strlit("spec_version");
    reveal_strlit("system_prompt");
    reveal_strlit("tool_decorators");
    reveal_strlit("tools");
    let at0 = data::no_fields();
    let at1 = at0.with(
        "spec_version"@,
        text_schema("DomainPack spec version (e.g., '1.0')"@, "1.0"@),
    );
    data::law_field_after_with(
        at0,
        "spec_version"@,
        text_schema("DomainPack spec version (e.g., '1.0')"@, "1.0"@),
        "spec_version"@,
    );
    let at2 = at1.with("name"@, name_schema());
    assert("name"@.len() != "spec_version"@.len());
    data::law_field_after_with(at1, "name"@, name_schema(), "spec_version"@);
    let at3 = at2.with(
        "description"@,
        text_schema("Human-readable description of this domain pack"@, ""@),
    );
    assert("description"@.len() != "spec_version"@.len());
    data::law_field_after_with(
        at2,
        "description"@,
        text_schema("Human-readable description of this domain pack"@, ""@),
        "spec_version"@,
    );
    let at4 = at3.with("tools"@, tools_schema());
    assert("tools"@.len() != "spec_version"@.len());
    data::law_field_after_with(at3, "tools"@, tools_schema(), "spec_version"@);
    let at5 = at4.with("tool_decorators"@, decorators_schema());
    assert("tool_decorators"@.len() != "spec_version"@.len());
    data::law_field_after_with(at4, "tool_decorators"@, decorators_schema(), "spec_version"@);
    let at6 = at5.with("context_sources"@, sources_schema());
    assert("context_sources"@.len() != "spec_version"@.len());
    data::law_field_after_with(at5, "context_sources"@, sources_schema(), "spec_version"@);
    let at7 = at6.with("permission_profile"@, permissions_schema());
    assert("permission_profile"@.len() != "spec_version"@.len());
    data::law_field_after_with(at6, "permission_profile"@, permissions_schema(), "spec_version"@);
    let at8 = at7.with("paradigm_strategies"@, strategies_schema());
    assert("paradigm_strategies"@.len() != "spec_version"@.len());
    data::law_field_after_with(at7, "paradigm_strategies"@, strategies_schema(), "spec_version"@);
    let at9 = at8.with("compression_template"@, summaries_schema());
    assert("compression_template"@.len() != "spec_version"@.len());
    data::law_field_after_with(at8, "compression_template"@, summaries_schema(), "spec_version"@);
    let at10 = at9.with(
        "system_prompt"@,
        text_schema("System prompt template for this domain's agent"@, ""@),
    );
    assert("system_prompt"@.len() != "spec_version"@.len());
    data::law_field_after_with(
        at9,
        "system_prompt"@,
        text_schema("System prompt template for this domain's agent"@, ""@),
        "spec_version"@,
    );
}

proof fn lemma_field_name()
    ensures
        fields_schema().field("name"@) == Some(name_schema()),
{
    reveal_strlit("compression_template");
    reveal_strlit("context_sources");
    reveal_strlit("description");
    reveal_strlit("name");
    reveal_strlit("paradigm_strategies");
    reveal_strlit("permission_profile");
    reveal_strlit("spec_version");
    reveal_strlit("system_prompt");
    reveal_strlit("tool_decorators");
    reveal_strlit("tools");
    let at0 = data::no_fields();
    let at1 = at0.with(
        "spec_version"@,
        text_schema("DomainPack spec version (e.g., '1.0')"@, "1.0"@),
    );
    assert("spec_version"@.len() != "name"@.len());
    data::law_field_after_with(
        at0,
        "spec_version"@,
        text_schema("DomainPack spec version (e.g., '1.0')"@, "1.0"@),
        "name"@,
    );
    let at2 = at1.with("name"@, name_schema());
    data::law_field_after_with(at1, "name"@, name_schema(), "name"@);
    let at3 = at2.with(
        "description"@,
        text_schema("Human-readable description of this domain pack"@, ""@),
    );
    assert("description"@.len() != "name"@.len());
    data::law_field_after_with(
        at2,
        "description"@,
        text_schema("Human-readable description of this domain pack"@, ""@),
        "name"@,
    );
    let at4 = at3.with("tools"@, tools_schema());
    assert("tools"@.len() != "name"@.len());
    data::law_field_after_with(at3, "tools"@, tools_schema(), "name"@);
    let at5 = at4.with("tool_decorators"@, decorators_schema());
    assert("tool_decorators"@.len() != "name"@.len());
    data::law_field_after_with(at4, "tool_decorators"@, decorators_schema(), "name"@);
    let at6 = at5.with("context_sources"@, sources_schema());
    assert("context_sources"@.len() != "name"@.len());
    data::law_field_after_with(at5, "context_sources"@, sources_schema(), "name"@);
    let at7 = at6.with("permission_profile"@, permissions_schema());
    assert("permission_profile"@.len() != "name"@.len());
    data::law_field_after_with(at6, "permission_profile"@, permissions_schema(), "name"@);
    let at8 = at7.with("paradigm_strategies"@, strategies_schema());
    assert("paradigm_strategies"@.len() != "name"@.len());
    data::law_field_after_with(at7, "paradigm_strategies"@, strategies_schema(), "name"@);
    let at9 = at8.with("compression_template"@, summaries_schema());
    assert("compression_template"@.len() != "name"@.len());
    data::law_field_after_with(at8, "compression_template"@, summaries_schema(), "name"@);
    let at10 = at9.with(
        "system_prompt"@,
        text_schema("System prompt template for this domain's agent"@, ""@),
    );
    assert("system_prompt"@.len() != "name"@.len());
    data::law_field_after_with(
        at9,
        "system_prompt"@,
        text_schema("System prompt template for this domain's agent"@, ""@),
        "name"@,
    );
}

proof fn lemma_field_description()
    ensures
        fields_schema().field("description"@) == Some(
            text_schema("Human-readable description of this domain pack"@, ""@)
        ),
{
    reveal_strlit("compression_template");
    reveal_strlit("context_sources");
    reveal_strlit("description");
    reveal_strlit("name");
    reveal_strlit("paradigm_strategies");
    reveal_strlit("permission_profile");
    reveal_strlit("spec_version");
    reveal_strlit("system_prompt");
    reveal_strlit("tool_decorators");
    reveal_strlit("tools");
    let at0 = data::no_fields();
    let at1 = at0.with(
        "spec_version"@,
        text_schema("DomainPack spec version (e.g., '1.0')"@, "1.0"@),
    );
    assert("spec_version"@.len() != "description"@.len());
    data::law_field_after_with(
        at0,
        "spec_version"@,
        text_schema("DomainPack spec version (e.g., '1.0')"@, "1.0"@),
        "description"@,
    );
    let at2 = at1.with("name"@, name_schema());
    assert("name"@.len() != "description"@.len());
    data::law_field_after_with(at1, "name"@, name_schema(), "description"@);
    let at3 = at2.with(
        "description"@,
        text_schema("Human-readable description of this domain pack"@, ""@),
    );
    data::law_field_after_with(
        at2,
        "description"@,
        text_schema("Human-readable description of this domain pack"@, ""@),
        "description"@,
    );
    let at4 = at3.with("tools"@, tools_schema());
    assert("tools"@.len() != "description"@.len());
    data::law_field_after_with(at3, "tools"@, tools_schema(), "description"@);
    let at5 = at4.with("tool_decorators"@, decorators_schema());
    assert("tool_decorators"@.len() != "description"@.len());
    data::law_field_after_with(at4, "tool_decorators"@, decorators_schema(), "description"@);
    let at6 = at5.with("context_sources"@, sources_schema());
    assert("context_sources"@.len() != "description"@.len());
    data::law_field_after_with(at5, "context_sources"@, sources_schema(), "description"@);
    let at7 = at6.with("permission_profile"@, permissions_schema());
    assert("permission_profile"@.len() != "description"@.len());
    data::law_field_after_with(at6, "permission_profile"@, permissions_schema(), "description"@);
    let at8 = at7.with("paradigm_strategies"@, strategies_schema());
    assert("paradigm_strategies"@.len() != "description"@.len());
    data::law_field_after_with(at7, "paradigm_strategies"@, strategies_schema(), "description"@);
    let at9 = at8.with("compression_template"@, summaries_schema());
    assert("compression_template"@.len() != "description"@.len());
    data::law_field_after_with(at8, "compression_template"@, summaries_schema(), "description"@);
    let at10 = at9.with(
        "system_prompt"@,
        text_schema("System prompt template for this domain's agent"@, ""@),
    );
    assert("system_prompt"@.len() != "description"@.len());
    data::law_field_after_with(
        at9,
        "system_prompt"@,
        text_schema("System prompt template for this domain's agent"@, ""@),
        "description"@,
    );
}

proof fn lemma_field_tools()
    ensures
        fields_schema().field("tools"@) == Some(tools_schema()),
{
    reveal_strlit("compression_template");
    reveal_strlit("context_sources");
    reveal_strlit("description");
    reveal_strlit("name");
    reveal_strlit("paradigm_strategies");
    reveal_strlit("permission_profile");
    reveal_strlit("spec_version");
    reveal_strlit("system_prompt");
    reveal_strlit("tool_decorators");
    reveal_strlit("tools");
    let at0 = data::no_fields();
    let at1 = at0.with(
        "spec_version"@,
        text_schema("DomainPack spec version (e.g., '1.0')"@, "1.0"@),
    );
    assert("spec_version"@.len() != "tools"@.len());
    data::law_field_after_with(
        at0,
        "spec_version"@,
        text_schema("DomainPack spec version (e.g., '1.0')"@, "1.0"@),
        "tools"@,
    );
    let at2 = at1.with("name"@, name_schema());
    assert("name"@.len() != "tools"@.len());
    data::law_field_after_with(at1, "name"@, name_schema(), "tools"@);
    let at3 = at2.with(
        "description"@,
        text_schema("Human-readable description of this domain pack"@, ""@),
    );
    assert("description"@.len() != "tools"@.len());
    data::law_field_after_with(
        at2,
        "description"@,
        text_schema("Human-readable description of this domain pack"@, ""@),
        "tools"@,
    );
    let at4 = at3.with("tools"@, tools_schema());
    data::law_field_after_with(at3, "tools"@, tools_schema(), "tools"@);
    let at5 = at4.with("tool_decorators"@, decorators_schema());
    assert("tool_decorators"@.len() != "tools"@.len());
    data::law_field_after_with(at4, "tool_decorators"@, decorators_schema(), "tools"@);
    let at6 = at5.with("context_sources"@, sources_schema());
    assert("context_sources"@.len() != "tools"@.len());
    data::law_field_after_with(at5, "context_sources"@, sources_schema(), "tools"@);
    let at7 = at6.with("permission_profile"@, permissions_schema());
    assert("permission_profile"@.len() != "tools"@.len());
    data::law_field_after_with(at6, "permission_profile"@, permissions_schema(), "tools"@);
    let at8 = at7.with("paradigm_strategies"@, strategies_schema());
    assert("paradigm_strategies"@.len() != "tools"@.len());
    data::law_field_after_with(at7, "paradigm_strategies"@, strategies_schema(), "tools"@);
    let at9 = at8.with("compression_template"@, summaries_schema());
    assert("compression_template"@.len() != "tools"@.len());
    data::law_field_after_with(at8, "compression_template"@, summaries_schema(), "tools"@);
    let at10 = at9.with(
        "system_prompt"@,
        text_schema("System prompt template for this domain's agent"@, ""@),
    );
    assert("system_prompt"@.len() != "tools"@.len());
    data::law_field_after_with(
        at9,
        "system_prompt"@,
        text_schema("System prompt template for this domain's agent"@, ""@),
        "tools"@,
    );
}

proof fn lemma_field_tool_decorators()
    ensures
        fields_schema().field("tool_decorators"@) == Some(decorators_schema()),
{
    reveal_strlit("compression_template");
    reveal_strlit("context_sources");
    reveal_strlit("description");
    reveal_strlit("name");
    reveal_strlit("paradigm_strategies");
    reveal_strlit("permission_profile");
    reveal_strlit("spec_version");
    reveal_strlit("system_prompt");
    reveal_strlit("tool_decorators");
    reveal_strlit("tools");
    let at0 = data::no_fields();
    let at1 = at0.with(
        "spec_version"@,
        text_schema("DomainPack spec version (e.g., '1.0')"@, "1.0"@),
    );
    assert("spec_version"@.len() != "tool_decorators"@.len());
    data::law_field_after_with(
        at0,
        "spec_version"@,
        text_schema("DomainPack spec version (e.g., '1.0')"@, "1.0"@),
        "tool_decorators"@,
    );
    let at2 = at1.with("name"@, name_schema());
    assert("name"@.len() != "tool_decorators"@.len());
    data::law_field_after_with(at1, "name"@, name_schema(), "tool_decorators"@);
    let at3 = at2.with(
        "description"@,
        text_schema("Human-readable description of this domain pack"@, ""@),
    );
    assert("description"@.len() != "tool_decorators"@.len());
    data::law_field_after_with(
        at2,
        "description"@,
        text_schema("Human-readable description of this domain pack"@, ""@),
        "tool_decorators"@,
    );
    let at4 = at3.with("tools"@, tools_schema());
    assert("tools"@.len() != "tool_decorators"@.len());
    data::law_field_after_with(at3, "tools"@, tools_schema(), "tool_decorators"@);
    let at5 = at4.with("tool_decorators"@, decorators_schema());
    data::law_field_after_with(at4, "tool_decorators"@, decorators_schema(), "tool_decorators"@);
    let at6 = at5.with("context_sources"@, sources_schema());
    assert("context_sources"@[0] != "tool_decorators"@[0]);
    data::law_field_after_with(at5, "context_sources"@, sources_schema(), "tool_decorators"@);
    let at7 = at6.with("permission_profile"@, permissions_schema());
    assert("permission_profile"@.len() != "tool_decorators"@.len());
    data::law_field_after_with(
        at6,
        "permission_profile"@,
        permissions_schema(),
        "tool_decorators"@,
    );
    let at8 = at7.with("paradigm_strategies"@, strategies_schema());
    assert("paradigm_strategies"@.len() != "tool_decorators"@.len());
    data::law_field_after_with(
        at7,
        "paradigm_strategies"@,
        strategies_schema(),
        "tool_decorators"@,
    );
    let at9 = at8.with("compression_template"@, summaries_schema());
    assert("compression_template"@.len() != "tool_decorators"@.len());
    data::law_field_after_with(
        at8,
        "compression_template"@,
        summaries_schema(),
        "tool_decorators"@,
    );
    let at10 = at9.with(
        "system_prompt"@,
        text_schema("System prompt template for this domain's agent"@, ""@),
    );
    assert("system_prompt"@.len() != "tool_decorators"@.len());
    data::law_field_after_with(
        at9,
        "system_prompt"@,
        text_schema("System prompt template for this domain's agent"@, ""@),
        "tool_decorators"@,
    );
}

proof fn lemma_field_context_sources()
    ensures
        fields_schema().field("context_sources"@) == Some(sources_schema()),
{
    reveal_strlit("compression_template");
    reveal_strlit("context_sources");
    reveal_strlit("description");
    reveal_strlit("name");
    reveal_strlit("paradigm_strategies");
    reveal_strlit("permission_profile");
    reveal_strlit("spec_version");
    reveal_strlit("system_prompt");
    reveal_strlit("tool_decorators");
    reveal_strlit("tools");
    let at0 = data::no_fields();
    let at1 = at0.with(
        "spec_version"@,
        text_schema("DomainPack spec version (e.g., '1.0')"@, "1.0"@),
    );
    assert("spec_version"@.len() != "context_sources"@.len());
    data::law_field_after_with(
        at0,
        "spec_version"@,
        text_schema("DomainPack spec version (e.g., '1.0')"@, "1.0"@),
        "context_sources"@,
    );
    let at2 = at1.with("name"@, name_schema());
    assert("name"@.len() != "context_sources"@.len());
    data::law_field_after_with(at1, "name"@, name_schema(), "context_sources"@);
    let at3 = at2.with(
        "description"@,
        text_schema("Human-readable description of this domain pack"@, ""@),
    );
    assert("description"@.len() != "context_sources"@.len());
    data::law_field_after_with(
        at2,
        "description"@,
        text_schema("Human-readable description of this domain pack"@, ""@),
        "context_sources"@,
    );
    let at4 = at3.with("tools"@, tools_schema());
    assert("tools"@.len() != "context_sources"@.len());
    data::law_field_after_with(at3, "tools"@, tools_schema(), "context_sources"@);
    let at5 = at4.with("tool_decorators"@, decorators_schema());
    assert("tool_decorators"@[0] != "context_sources"@[0]);
    data::law_field_after_with(at4, "tool_decorators"@, decorators_schema(), "context_sources"@);
    let at6 = at5.with("context_sources"@, sources_schema());
    data::law_field_after_with(at5, "context_sources"@, sources_schema(), "context_sources"@);
    let at7 = at6.with("permission_profile"@, permissions_schema());
    assert("permission_profile"@.len() != "context_sources"@.len());
    data::law_field_after_with(
        at6,
        "permission_profile"@,
        permissions_schema(),
        "context_sources"@,
    );
    let at8 = at7.with("paradigm_strategies"@, strategies_schema());
    assert("paradigm_strategies"@.len() != "context_sources"@.len());
    data::law_field_after_with(
        at7,
        "paradigm_strategies"@,
        strategies_schema(),
        "context_sources"@,
    );
    let at9 = at8.with("compression_template"@, summaries_schema());
    assert("compression_template"@.len() != "context_sources"@.len());
    data::law_field_after_with(
        at8,
        "compression_template"@,
        summaries_schema(),
        "context_sources"@,
    );
    let at10 = at9.with(
        "system_prompt"@,
        text_schema("System prompt template for this domain's agent"@, ""@),
    );
    assert("system_prompt"@.len() != "context_sources"@.len());
    data::law_field_after_with(
        at9,
        "system_prompt"@,
        text_schema("System prompt template for this domain's agent"@, ""@),
        "context_sources"@,
    );
}

proof fn lemma_field_permission_profile()
    ensures
        fields_schema().field("permission_profile"@) == Some(permissions_schema()),
{
    reveal_strlit("compression_template");
    reveal_strlit("context_sources");
    reveal_strlit("description");
    reveal_strlit("name");
    reveal_strlit("paradigm_strategies");
    reveal_strlit("permission_profile");
    reveal_strlit("spec_version");
    reveal_strlit("system_prompt");
    reveal_strlit("tool_decorators");
    reveal_strlit("tools");
    let at0 = data::no_fields();
    let at1 = at0.with(
        "spec_version"@,
        text_schema("DomainPack spec version (e.g., '1.0')"@, "1.0"@),
    );
    assert("spec_version"@.len() != "permission_profile"@.len());
    data::law_field_after_with(
        at0,
        "spec_version"@,
        text_schema("DomainPack spec version (e.g., '1.0')"@, "1.0"@),
        "permission_profile"@,
    );
    let at2 = at1.with("name"@, name_schema());
    assert("name"@.len() != "permission_profile"@.len());
    data::law_field_after_with(at1, "name"@, name_schema(), "permission_profile"@);
    let at3 = at2.with(
        "description"@,
        text_schema("Human-readable description of this domain pack"@, ""@),
    );
    assert("description"@.len() != "permission_profile"@.len());
    data::law_field_after_with(
        at2,
        "description"@,
        text_schema("Human-readable description of this domain pack"@, ""@),
        "permission_profile"@,
    );
    let at4 = at3.with("tools"@, tools_schema());
    assert("tools"@.len() != "permission_profile"@.len());
    data::law_field_after_with(at3, "tools"@, tools_schema(), "permission_profile"@);
    let at5 = at4.with("tool_decorators"@, decorators_schema());
    assert("tool_decorators"@.len() != "permission_profile"@.len());
    data::law_field_after_with(at4, "tool_decorators"@, decorators_schema(), "permission_profile"@);
    let at6 = at5.with("context_sources"@, sources_schema());
    assert("context_sources"@.len() != "permission_profile"@.len());
    data::law_field_after_with(at5, "context_sources"@, sources_schema(), "permission_profile"@);
    let at7 = at6.with("permission_profile"@, permissions_schema());
    data::law_field_after_with(
        at6,
        "permission_profile"@,
        permissions_schema(),
        "permission_profile"@,
    );
    let at8 = at7.with("paradigm_strategies"@, strategies_schema());
    assert("paradigm_strategies"@.len() != "permission_profile"@.len());
    data::law_field_after_with(
        at7,
        "paradigm_strategies"@,
        strategies_schema(),
        "permission_profile"@,
    );
    let at9 = at8.with("compression_template"@, summaries_schema());
    assert("compression_template"@.len() != "permission_profile"@.len());
    data::law_field_after_with(
        at8,
        "compression_template"@,
        summaries_schema(),
        "permission_profile"@,
    );
    let at10 = at9.with(
        "system_prompt"@,
        text_schema("System prompt template for this domain's agent"@, ""@),
    );
    assert("system_prompt"@.len() != "permission_profile"@.len());
    data::law_field_after_with(
        at9,
        "system_prompt"@,
        text_schema("System prompt template for this domain's agent"@, ""@),
        "permission_profile"@,
    );
}

proof fn lemma_field_paradigm_strategies()
    ensures
        fields_schema().field("paradigm_strategies"@) == Some(strategies_schema()),
{
    reveal_strlit("compression_template");
    reveal_strlit("context_sources");
    reveal_strlit("description");
    reveal_strlit("name");
    reveal_strlit("paradigm_strategies");
    reveal_strlit("permission_profile");
    reveal_strlit("spec_version");
    reveal_strlit("system_prompt");
    reveal_strlit("tool_decorators");
    reveal_strlit("tools");
    let at0 = data::no_fields();
    let at1 = at0.with(
        "spec_version"@,
        text_schema("DomainPack spec version (e.g., '1.0')"@, "1.0"@),
    );
    assert("spec_version"@.len() != "paradigm_strategies"@.len());
    data::law_field_after_with(
        at0,
        "spec_version"@,
        text_schema("DomainPack spec version (e.g., '1.0')"@, "1.0"@),
        "paradigm_strategies"@,
    );
    let at2 = at1.with("name"@, name_schema());
    assert("name"@.len() != "paradigm_strategies"@.len());
    data::law_field_after_with(at1, "name"@, name_schema(), "paradigm_strategies"@);
    let at3 = at2.with(
        "description"@,
        text_schema("Human-readable description of this domain pack"@, ""@),
    );
    assert("description"@.len() != "paradigm_strategies"@.len());
    data::law_field_after_with(
        at2,
        "description"@,
        text_schema("Human-readable description of this domain pack"@, ""@),
        "paradigm_strategies"@,
    );
    let at4 = at3.with("tools"@, tools_schema());
    assert("tools"@.len() != "paradigm_strategies"@.len());
    data::law_field_after_with(at3, "tools"@, tools_schema(), "paradigm_strategies"@);
    let at5 = at4.with("tool_decorators"@, decorators_schema());
    assert("tool_decorators"@.len() != "paradigm_strategies"@.len());
    data::law_field_after_with(
        at4,
        "tool_decorators"@,
        decorators_schema(),
        "paradigm_strategies"@,
    );
    let at6 = at5.with("context_sources"@, sources_schema());
    assert("context_sources"@.len() != "paradigm_strategies"@.len());
    data::law_field_after_with(at5, "context_sources"@, sources_schema(), "paradigm_strategies"@);
    let at7 = at6.with("permission_profile"@, permissions_schema());
    assert("permission_profile"@.len() != "paradigm_strategies"@.len());
    data::law_field_after_with(
        at6,
        "permission_profile"@,
        permissions_schema(),
        "paradigm_strategies"@,
    );
    let at8 = at7.with("paradigm_strategies"@, strategies_schema());
    data::law_field_after_with(
        at7,
        "paradigm_strategies"@,
        strategies_schema(),
        "paradigm_strategies"@,
    );
    let at9 = at8.with("compression_template"@, summaries_schema());
    assert("compression_template"@.len() != "paradigm_strategies"@.len());
    data::law_field_after_with(
        at8,
        "compression_template"@,
        summaries_schema(),
        "paradigm_strategies"@,
    );
    let at10 = at9.with(
        "system_prompt"@,
        text_schema("System prompt template for this domain's agent"@, ""@),
    );
    assert("system_prompt"@.len() != "paradigm_strategies"@.len());
    data::law_field_after_with(
        at9,
        "system_prompt"@,
        text_schema("System prompt template for this domain's agent"@, ""@),
        "paradigm_strategies"@,
    );
}

proof fn lemma_field_compression_template()
    ensures
        fields_schema().field("compression_template"@) == Some(summaries_schema()),
{
    reveal_strlit("compression_template");
    reveal_strlit("context_sources");
    reveal_strlit("description");
    reveal_strlit("name");
    reveal_strlit("paradigm_strategies");
    reveal_strlit("permission_profile");
    reveal_strlit("spec_version");
    reveal_strlit("system_prompt");
    reveal_strlit("tool_decorators");
    reveal_strlit("tools");
    let at0 = data::no_fields();
    let at1 = at0.with(
        "spec_version"@,
        text_schema("DomainPack spec version (e.g., '1.0')"@, "1.0"@),
    );
    assert("spec_version"@.len() != "compression_template"@.len());
    data::law_field_after_with(
        at0,
        "spec_version"@,
        text_schema("DomainPack spec version (e.g., '1.0')"@, "1.0"@),
        "compression_template"@,
    );
    let at2 = at1.with("name"@, name_schema());
    assert("name"@.len() != "compression_template"@.len());
    data::law_field_after_with(at1, "name"@, name_schema(), "compression_template"@);
    let at3 = at2.with(
        "description"@,
        text_schema("Human-readable description of this domain pack"@, ""@),
    );
    assert("description"@.len() != "compression_template"@.len());
    data::law_field_after_with(
        at2,
        "description"@,
        text_schema("Human-readable description of this domain pack"@, ""@),
        "compression_template"@,
    );
    let at4 = at3.with("tools"@, tools_schema());
    assert("tools"@.len() != "compression_template"@.len());
    data::law_field_after_with(at3, "tools"@, tools_schema(), "compression_template"@);
    let at5 = at4.with("tool_decorators"@, decorators_schema());
    assert("tool_decorators"@.len() != "compression_template"@.len());
    data::law_field_after_with(
        at4,
        "tool_decorators"@,
        decorators_schema(),
        "compression_template"@,
    );
    let at6 = at5.with("context_sources"@, sources_schema());
    assert("context_sources"@.len() != "compression_template"@.len());
    data::law_field_after_with(at5, "context_sources"@, sources_schema(), "compression_template"@);
    let at7 = at6.with("permission_profile"@, permissions_schema());
    assert("permission_profile"@.len() != "compression_template"@.len());
    data::law_field_after_with(
        at6,
        "permission_profile"@,
        permissions_schema(),
        "compression_template"@,
    );
    let at8 = at7.with("paradigm_strategies"@, strategies_schema());
    assert("paradigm_strategies"@.len() != "compression_template"@.len());
    data::law_field_after_with(
        at7,
        "paradigm_strategies"@,
        strategies_schema(),
        "compression_template"@,
    );
    let at9 = at8.with("compression_template"@, summaries_schema());
    data::law_field_after_with(
        at8,
        "compression_template"@,
        summaries_schema(),
        "compression_template"@,
    );
    let at10 = at9.with(
        "system_prompt"@,
        text_schema("System prompt template for this domain's agent"@, ""@),
    );
    assert("system_prompt"@.len() != "compression_template"@.len());
    data::law_field_after_with(
        at9,
        "system_prompt"@,
        text_schema("System prompt template for this domain's agent"@, ""@),
        "compression_template"@,
    );
}

proof fn lemma_field_system_prompt()
    ensures
        fields_schema().field("system_prompt"@) == Some(
            text_schema("System prompt template for this domain's agent"@, ""@)
        ),
{
    reveal_strlit("compression_template");
    reveal_strlit("context_sources");
    reveal_strlit("description");
    reveal_strlit("name");
    reveal_strlit("paradigm_strategies");
    reveal_strlit("permission_profile");
    reveal_strlit("spec_version");
    reveal_strlit("system_prompt");
    reveal_strlit("tool_decorators");
    reveal_strlit("tools");
    let at0 = data::no_fields();
    let at1 = at0.with(
        "spec_version"@,
        text_schema("DomainPack spec version (e.g., '1.0')"@, "1.0"@),
    );
    assert("spec_version"@.len() != "system_prompt"@.len());
    data::law_field_after_with(
        at0,
        "spec_version"@,
        text_schema("DomainPack spec version (e.g., '1.0')"@, "1.0"@),
        "system_prompt"@,
    );
    let at2 = at1.with("name"@, name_schema());
    assert("name"@.len() != "system_prompt"@.len());
    data::law_field_after_with(at1, "name"@, name_schema(), "system_prompt"@);
    let at3 = at2.with(
        "description"@,
        text_schema("Human-readable description of this domain pack"@, ""@),
    );
    assert("description"@.len() != "system_prompt"@.len());
    data::law_field_after_with(
        at2,
        "description"@,
        text_schema("Human-readable description of this domain pack"@, ""@),
        "system_prompt"@,
    );
    let at4 = at3.with("tools"@, tools_schema());
    assert("tools"@.len() != "system_prompt"@.len());
    data::law_field_after_with(at3, "tools"@, tools_schema(), "system_prompt"@);
    let at5 = at4.with("tool_decorators"@, decorators_schema());
    assert("tool_decorators"@.len() != "system_prompt"@.len());
    data::law_field_after_with(at4, "tool_decorators"@, decorators_schema(), "system_prompt"@);
    let at6 = at5.with("context_sources"@, sources_schema());
    assert("context_sources"@.len() != "system_prompt"@.len());
    data::law_field_after_with(at5, "context_sources"@, sources_schema(), "system_prompt"@);
    let at7 = at6.with("permission_profile"@, permissions_schema());
    assert("permission_profile"@.len() != "system_prompt"@.len());
    data::law_field_after_with(at6, "permission_profile"@, permissions_schema(), "system_prompt"@);
    let at8 = at7.with("paradigm_strategies"@, strategies_schema());
    assert("paradigm_strategies"@.len() != "system_prompt"@.len());
    data::law_field_after_with(at7, "paradigm_strategies"@, strategies_schema(), "system_prompt"@);
    let at9 = at8.with("compression_template"@, summaries_schema());
    assert("compression_template"@.len() != "system_prompt"@.len());
    data::law_field_after_with(at8, "compression_template"@, summaries_schema(), "system_prompt"@);
    let at10 = at9.with(
        "system_prompt"@,
        text_schema("System prompt template for this domain's agent"@, ""@),
    );
    data::law_field_after_with(
        at9,
        "system_prompt"@,
        text_schema("System prompt template for this domain's agent"@, ""@),
        "system_prompt"@,
    );
}

proof fn lemma_required_fields()
    ensures
        document().field("required"@) == Some(
            data::no_items()
                .item(DataView::Text("name"@))
                .item(DataView::Text("tools"@))
                .item(DataView::Text("permission_profile"@))
        ),
{
    reveal_strlit("$id");
    reveal_strlit("$schema");
    reveal_strlit("description");
    reveal_strlit("properties");
    reveal_strlit("required");
    reveal_strlit("title");
    reveal_strlit("type");
    let at0 = data::no_fields();
    let at1 = at0.with("$schema"@, DataView::Text("https://json-schema.org/draft/2020-12/schema"@));
    assert("$schema"@.len() != "required"@.len());
    data::law_field_after_with(
        at0,
        "$schema"@,
        DataView::Text("https://json-schema.org/draft/2020-12/schema"@),
        "required"@,
    );
    let at2 = at1.with("$id"@, DataView::Text("https://oneai.dev/spec/domain-pack/v1.0"@));
    assert("$id"@.len() != "required"@.len());
    data::law_field_after_with(
        at1,
        "$id"@,
        DataView::Text("https://oneai.dev/spec/domain-pack/v1.0"@),
        "required"@,
    );
    let at3 = at2.with("title"@, DataView::Text("DomainPack Configuration"@));
    assert("title"@.len() != "required"@.len());
    data::law_field_after_with(
        at2,
        "title"@,
        DataView::Text("DomainPack Configuration"@),
        "required"@,
    );
    let at4 = at3.with(
        "description"@,
        DataView::Text(
            "DomainPack configuration schema — 5 layers of domain workflow embedding for OneAI agents"@
        ),
    );
    assert("description"@.len() != "required"@.len());
    data::law_field_after_with(
        at3,
        "description"@,
        DataView::Text(
            "DomainPack configuration schema — 5 layers of domain workflow embedding for OneAI agents"@
        ),
        "required"@,
    );
    let at5 = at4.with("type"@, DataView::Text("object"@));
    assert("type"@.len() != "required"@.len());
    data::law_field_after_with(at4, "type"@, DataView::Text("object"@), "required"@);
    let at6 = at5.with(
        "required"@,
        data::no_items()
            .item(DataView::Text("name"@))
            .item(DataView::Text("tools"@))
            .item(DataView::Text("permission_profile"@)),
    );
    data::law_field_after_with(
        at5,
        "required"@,
        data::no_items()
            .item(DataView::Text("name"@))
            .item(DataView::Text("tools"@))
            .item(DataView::Text("permission_profile"@)),
        "required"@,
    );
    let at7 = at6.with("properties"@, fields_schema());
    assert("properties"@.len() != "required"@.len());
    data::law_field_after_with(at6, "properties"@, fields_schema(), "required"@);
}


/// The schema describes each field of a configuration, and asks for a name, tools and
/// permissions, which are among those that it describes.
pub proof fn law_schema_describes_each_field(name: Seq<char>)
    ensures
        fields_schema().field("spec_version"@) == Some(
            text_schema("DomainPack spec version (e.g., '1.0')"@, "1.0"@)
        ),
        fields_schema().field("name"@) == Some(name_schema()),
        fields_schema().field("description"@) == Some(
            text_schema("Human-readable description of this domain pack"@, ""@)
        ),
        fields_schema().field("tools"@) == Some(tools_schema()),
        fields_schema().field("tool_decorators"@) == Some(decorators_schema()),
        fields_schema().field("context_sources"@) == Some(sources_schema()),
        fields_schema().field("permission_profile"@) == Some(permissions_schema()),
        fields_schema().field("paradigm_strategies"@) == Some(strategies_schema()),
        fields_schema().field("compression_template"@) == Some(summaries_schema()),
        fields_schema().field("system_prompt"@) == Some(
            text_schema("System prompt template for this domain's agent"@, ""@)
        ),
        document().list_field("required"@) matches Some(required) && (required.contains(
            DataView::Text(name),
        ) <==> name == "name"@ || name == "tools"@ || name == "permission_profile"@) && (
        required.contains(DataView::Text(name)) ==> fields_schema().field(name) is Some),
{
    lemma_field_spec_version();
    lemma_field_name();
    lemma_field_description();
    lemma_field_tools();
    lemma_field_tool_decorators();
    lemma_field_context_sources();
    lemma_field_permission_profile();
    lemma_field_paradigm_strategies();
    lemma_field_compression_template();
    lemma_field_system_prompt();
    lemma_required_fields();
    let required = document().list_field("required"@)->0;
    assert(required.len() == 3);
    assert(required[0] == DataView::Text("name"@));
    assert(required[1] == DataView::Text("tools"@));
    assert(required[2] == DataView::Text("permission_profile"@));
}

} // verus!
