//! Files that tell an agent of a project, made from what was found out of it.

use vstd::prelude::*;
use crate::collections;
use crate::duplicate::Duplicate;
use crate::project_probe::{
    self, BuildSystem, ManifestFacts, ManifestFactsView, ModuleEntry, ModuleEntryView,
};
use crate::text;

verus! {

/// How many bytes of facts the model is given.
pub const CONTEXT_BLOCK_CAP: usize = 14000;

/// How many bytes of the instructions that are there the model is given.
pub const EXISTING_CAP: usize = 4000;

/// How many bytes of the list of files the model is given.
pub const TREE_CAP: usize = 3000;

/// What the model is told, up to the kind of file.
pub const SYSTEM_BEFORE: &'static str = "You generate a ";

/// What the model is told, between the kind of file and its name.
pub const SYSTEM_MIDDLE: &'static str = "-compatible project-instruction file (";

/// What the model is told, between the name of the file and the first principle.
pub const SYSTEM_AFTER: &'static str = ") for an AI coding agent running in the OneAI framework. The file is auto-loaded into agent context at session start, so it must make the agent immediately productive.\n\nPrinciples (follow strictly):\n1. ";

/// The first principle that the model is told.
pub const PRINCIPLE: &'static str = "Link, don't embed";

/// What the model is told, behind the first principle.
pub const SYSTEM_REST: &'static str = " — reference existing docs (README.md, ARCHITECTURE.md, CONTRIBUTING.md, docs/*) with Markdown links instead of copying their content.\n2. Minimal by default — include only what an agent cannot easily discover itself; omit the obvious.\n3. Concise and actionable — every line should guide behavior (commands, constraints, do/don't rules, gotchas).\n4. Ground every claim in the provided project facts; if something is uncertain, omit it rather than guess.\n\nOutput ONLY the raw markdown file content. Do not wrap it in a code fence, do not add preamble or commentary, do not mention that you were asked to generate a file.";

/// What the model is asked, up to the directory.
pub const USER_BEFORE: &'static str = "Project root: ";

/// What the model is asked, between the directory and the facts.
pub const USER_FACTS: &'static str = "\n\nHere are facts gathered from the project:\n\n";

/// What the model is asked, between the facts and the name of the file.
pub const USER_FILE: &'static str = "\n\nWrite the full content of ";

/// What the model is asked, between the name of the file and the part on the design.
pub const USER_AFTER: &'static str = ". Start with a `# <Project name>` H1. Include these sections (skip any that lack grounding facts):\n- Overview (name, purpose, language, build system — 2-3 sentences)\n- ";

/// The part on the design that the model is asked for.
pub const DESIGN_PART: &'static str = "Architecture & key design";

/// What the model is asked, behind the part on the design.
pub const USER_REST: &'static str = " (component boundaries, layering, data/control flow, key abstractions and where they live — ground in the module map and entry points)\n- Build, test, run (exact commands from the facts)\n- Conventions (formatting, linting, commit style, patterns that differ from defaults)\n- Key files & directories (pointers to the most important files an agent must read)\n- Pitfalls / notes (environment setup, common mistakes, do/don't rules)\n\nReference README.md / ARCHITECTURE.md / CONTRIBUTING.md via links where they hold detail. Keep it tight — prefer a sharp 60-line file over a vague 200-line one.";

/// What the head of a file says of its kind, up to the kind.
pub const MADE_BY: &'static str = "> Generated by `oneai init` — ";

/// What the head of a file says behind its kind.
pub const MADE_FOR: &'static str = "-compatible project-instruction file.\n> Read automatically into agent context by `ProjectInstructionsSource`.\n> Tip: re-run `oneai init --force` with a configured LLM provider for an LLM-synthesized doc, or edit this file by hand.\n\n";

/// What a file ends with.
pub const GUIDANCE: &'static str = "<!-- Add project-specific guidance: coding standards, commit message\n     conventions, deployment norms, do/don't rules the agent must follow. -->\n";

/// What stands before the modules.
pub const MODULES_HEAD: &'static str = "## Architecture — module map\n\nGrounded in each crate's `src/lib.rs` doc comment and `pub mod` declarations.\n\n";


// ─── Formats ────────────────────────────────────────────────────────────────

/// What a kind of file of instructions goes by.
#[derive(Debug, PartialEq)]
pub struct FormatNames {
    /// The word that users type for it.
    pub word: String,
    /// The name of the file.
    pub filename: String,
    /// What users call it.
    pub label: String,
}

/// The contents of a [`FormatNames`].
#[verifier::ext_equal]
pub struct FormatNamesView {
    pub word: Seq<char>,
    pub filename: Seq<char>,
    pub label: Seq<char>,
}

impl DeepView for FormatNames {
    type V = FormatNamesView;

    open spec fn deep_view(&self) -> FormatNamesView {
        FormatNamesView {
            word: self.word.deep_view(),
            filename: self.filename.deep_view(),
            label: self.label.deep_view(),
        }
    }
}

impl Duplicate for FormatNames {
    fn duplicate(&self) -> (copy: Self) {
        FormatNames {
            word: self.word.duplicate(),
            filename: self.filename.duplicate(),
            label: self.label.duplicate(),
        }
    }
}

impl Clone for FormatNames {
    fn clone(&self) -> (copy: Self)
        ensures
            copy.deep_view() == self.deep_view(),
    {
        self.duplicate()
    }
}

/// The kind of a file of instructions.
#[derive(Debug, PartialEq)]
pub enum ProjectInfoFormat {
    /// The framework's own.
    Oneai,
    /// The one that several agents share.
    Agents,
    /// One that goes by the names that are given.
    Claude(FormatNames),
}

/// The contents of a [`ProjectInfoFormat`].
#[verifier::ext_equal]
pub enum ProjectInfoFormatView {
    Oneai,
    Agents,
    Claude(FormatNamesView),
}

impl DeepView for ProjectInfoFormat {
    type V = ProjectInfoFormatView;

    open spec fn deep_view(&self) -> ProjectInfoFormatView {
        match self {
            ProjectInfoFormat::Oneai => ProjectInfoFormatView::Oneai,
            ProjectInfoFormat::Agents => ProjectInfoFormatView::Agents,
            ProjectInfoFormat::Claude(value) => ProjectInfoFormatView::Claude(value.deep_view()),
        }
    }
}

impl Duplicate for ProjectInfoFormat {
    fn duplicate(&self) -> (copy: Self) {
        match self {
            ProjectInfoFormat::Oneai => ProjectInfoFormat::Oneai,
            ProjectInfoFormat::Agents => ProjectInfoFormat::Agents,
            ProjectInfoFormat::Claude(value) => ProjectInfoFormat::Claude(value.duplicate()),
        }
    }
}

impl Clone for ProjectInfoFormat {
    fn clone(&self) -> (copy: Self)
        ensures
            copy.deep_view() == self.deep_view(),
    {
        self.duplicate()
    }
}

/// Why there is no such kind of file.
#[derive(Debug, PartialEq)]
pub enum FormatError {
    /// The name, trimmed and in lower case, is that of none; there are others.
    UnknownFormat { name: String, known: Vec<String> },
}

/// The contents of a [`FormatError`].
#[verifier::ext_equal]
pub enum FormatErrorView {
    UnknownFormat { name: Seq<char>, known: Seq<Seq<char>> },
}

impl DeepView for FormatError {
    type V = FormatErrorView;

    open spec fn deep_view(&self) -> FormatErrorView {
        match self {
            FormatError::UnknownFormat { name, known } => FormatErrorView::UnknownFormat {
                name: name.deep_view(),
                known: known.deep_view(),
            },
        }
    }
}

impl Duplicate for FormatError {
    fn duplicate(&self) -> (copy: Self) {
        match self {
            FormatError::UnknownFormat { name, known } => FormatError::UnknownFormat {
                name: name.duplicate(),
                known: known.duplicate(),
            },
        }
    }
}

impl Clone for FormatError {
    fn clone(&self) -> (copy: Self)
        ensures
            copy.deep_view() == self.deep_view(),
    {
        self.duplicate()
    }
}

/// A user may type this for the kind: its word, alone or with what stands for
/// the notation.
pub open spec fn goes_by(names: FormatNamesView, typed: Seq<char>) -> bool {
    typed == names.word || typed == names.word + "md"@ || typed == names.word + ".md"@
}

/// The kind of file with this name, where the third kind goes by these names.
pub open spec fn format_named(name: Seq<char>, third: FormatNamesView) -> Option<
    ProjectInfoFormatView,
> {
    if name == "oneai"@ {
        Some(ProjectInfoFormatView::Oneai)
    } else if name == "agents"@ || name == "agent"@ {
        Some(ProjectInfoFormatView::Agents)
    } else if goes_by(third, name) {
        Some(ProjectInfoFormatView::Claude(third))
    } else {
        None
    }
}

/// The words of the three kinds.
pub open spec fn known_words(third: FormatNamesView) -> Seq<Seq<char>> {
    seq!["oneai"@, "agents"@, third.word]
}

impl FormatError {
    /// The error in words.
    pub fn message(&self) -> (r: String)
        ensures
            match self.deep_view() {
                FormatErrorView::UnknownFormat { name, known } => r@
                    == "unknown project-info format '"@ + name + "'; expected one of: "@
                    + text::joined(known, ", "@),
            },
    {
        match self {
            FormatError::UnknownFormat { name, known } => {
                let mut r = "unknown project-info format '".to_string();
                r.push_str(name.as_str());
                r.push_str("'; expected one of: ");
                r.push_str(text::join(known, ", ").as_str());
                r
            },
        }
    }
}

impl ProjectInfoFormatView {
    /// The name of the file.
    pub open spec fn filename(self) -> Seq<char> {
        match self {
            ProjectInfoFormatView::Oneai => "ONEAI.md"@,
            ProjectInfoFormatView::Agents => "AGENTS.md"@,
            ProjectInfoFormatView::Claude(names) => names.filename,
        }
    }

    /// What users call the kind.
    pub open spec fn label(self) -> Seq<char> {
        match self {
            ProjectInfoFormatView::Oneai => "OneAI"@,
            ProjectInfoFormatView::Agents => "OpenCode (AGENTS.md)"@,
            ProjectInfoFormatView::Claude(names) => names.label,
        }
    }
}

impl ProjectInfoFormat {
    /// The kind of file with this name, in any case and with white space around
    /// it, where the third kind goes by these names.
    pub fn from_name(s: &str, third: &FormatNames) -> (r: Result<Self, FormatError>)
        ensures
            collections::outcome(r) == (match format_named(
                text::ascii_lowered(text::trimmed(s@)),
                third.deep_view(),
            ) {
                Some(format) => Ok::<ProjectInfoFormatView, FormatErrorView>(format),
                None => Err(
                    FormatErrorView::UnknownFormat {
                        name: text::ascii_lowered(text::trimmed(s@)),
                        known: known_words(third.deep_view()),
                    },
                ),
            }),
    {
        let trimmed = text::trim(s);
        let name = text::to_ascii_lowercase(trimmed.as_str());
        if text::same(name.as_str(), "oneai") {
            return Ok(ProjectInfoFormat::Oneai);
        }
        if text::same(name.as_str(), "agents") || text::same(name.as_str(), "agent") {
            return Ok(ProjectInfoFormat::Agents);
        }
        let short = text::concat(third.word.as_str(), "md");
        let long = text::concat(third.word.as_str(), ".md");
        if text::same(name.as_str(), third.word.as_str()) || text::same(
            name.as_str(),
            short.as_str(),
        ) || text::same(name.as_str(), long.as_str()) {
            return Ok(ProjectInfoFormat::Claude(third.clone()));
        }
        let known = text::texts(["oneai", "agents", third.word.as_str()]);
        assert(known.deep_view() =~= known_words(third.deep_view()));
        Err(FormatError::UnknownFormat { name, known })
    }

    /// The name of the file.
    pub fn filename(&self) -> (r: &str)
        ensures
            r@ == self.deep_view().filename(),
    {
        match self {
            ProjectInfoFormat::Oneai => "ONEAI.md",
            ProjectInfoFormat::Agents => "AGENTS.md",
            ProjectInfoFormat::Claude(names) => names.filename.as_str(),
        }
    }

    /// What users call the kind.
    pub fn label(&self) -> (r: &str)
        ensures
            r@ == self.deep_view().label(),
    {
        match self {
            ProjectInfoFormat::Oneai => "OneAI",
            ProjectInfoFormat::Agents => "OpenCode (AGENTS.md)",
            ProjectInfoFormat::Claude(names) => names.label.as_str(),
        }
    }
}

impl Default for ProjectInfoFormat {
    fn default() -> (r: Self)
        ensures
            r == ProjectInfoFormat::Oneai,
    {
        ProjectInfoFormat::Oneai
    }
}

/// This is one of the three kinds, where the third goes by these names.
pub open spec fn is_kind(format: ProjectInfoFormatView, third: FormatNamesView) -> bool {
    format matches ProjectInfoFormatView::Claude(names) ==> names == third
}

/// The files of all three kinds are among those that agents read; and no two kinds
/// share a file, where the third has one of its own.
pub proof fn law_formats_are_read(
    third: FormatNamesView,
    a: ProjectInfoFormatView,
    b: ProjectInfoFormatView,
)
    requires
        is_kind(a, third),
        is_kind(b, third),
    ensures
        crate::builtin_sources::usual_instruction_names(third.filename).contains(a.filename()),
        third.filename != "ONEAI.md"@ && third.filename != "AGENTS.md"@ && a.filename()
            == b.filename() ==> a == b,
{
    reveal_strlit("ONEAI.md");
    reveal_strlit("AGENTS.md");
    assert("ONEAI.md"@[0] == 'O' && "AGENTS.md"@[0] == 'A');
    let names = crate::builtin_sources::usual_instruction_names(third.filename);
    assert(names[0] == "ONEAI.md"@ && names[1] == third.filename && names[2] == "AGENTS.md"@);
}

/// Every kind is found by the words that it goes by, and no other word finds one:
/// of the third kind where no word of the others is one of its own.
pub proof fn law_kinds_are_found(third: FormatNamesView, name: Seq<char>)
    ensures
        name == "oneai"@ ==> format_named(name, third) == Some(ProjectInfoFormatView::Oneai),
        name == "agents"@ || name == "agent"@ ==> format_named(name, third) == Some(
            ProjectInfoFormatView::Agents,
        ),
        goes_by(third, name) && name != "oneai"@ && name != "agents"@ && name != "agent"@
            ==> format_named(name, third) == Some(ProjectInfoFormatView::Claude(third)),
        format_named(name, third) is None <==> name != "oneai"@ && name != "agents"@ && name
            != "agent"@ && !goes_by(third, name),
{
    reveal_strlit("oneai");
    reveal_strlit("agents");
    reveal_strlit("agent");
    assert("oneai"@[0] == 'o' && "agents"@[0] == 'a' && "agent"@[0] == 'a');
}

// ─── Options and result ─────────────────────────────────────────────────────

/// How a file of instructions is made.
#[derive(Debug, PartialEq)]
pub struct ProjectInfoOptions {
    /// The kind of file.
    pub format: ProjectInfoFormat,
    /// Whether a file that is there is written over.
    pub force: bool,
    /// Whether the files of the project are listed.
    pub include_file_tree: bool,
    /// How many lines that list has at most.
    pub max_structure_lines: usize,
    /// How many dependencies are listed at most.
    pub max_dependencies: usize,
}

/// The contents of a [`ProjectInfoOptions`].
#[verifier::ext_equal]
pub struct ProjectInfoOptionsView {
    pub format: ProjectInfoFormatView,
    pub force: bool,
    pub include_file_tree: bool,
    pub max_structure_lines: usize,
    pub max_dependencies: usize,
}

impl DeepView for ProjectInfoOptions {
    type V = ProjectInfoOptionsView;

    open spec fn deep_view(&self) -> ProjectInfoOptionsView {
        ProjectInfoOptionsView {
            format: self.format.deep_view(),
            force: self.force,
            include_file_tree: self.include_file_tree,
            max_structure_lines: self.max_structure_lines,
            max_dependencies: self.max_dependencies,
        }
    }
}

impl Duplicate for ProjectInfoOptions {
    fn duplicate(&self) -> (copy: Self) {
        ProjectInfoOptions {
            format: self.format.duplicate(),
            force: self.force,
            include_file_tree: self.include_file_tree,
            max_structure_lines: self.max_structure_lines,
            max_dependencies: self.max_dependencies,
        }
    }
}

impl Clone for ProjectInfoOptions {
    fn clone(&self) -> (copy: Self)
        ensures
            copy.deep_view() == self.deep_view(),
    {
        self.duplicate()
    }
}

/// How a file is made where nothing else is said.
pub open spec fn usual_options() -> ProjectInfoOptionsView {
    ProjectInfoOptionsView {
        format: ProjectInfoFormatView::Oneai,
        force: false,
        include_file_tree: true,
        max_structure_lines: 120,
        max_dependencies: 40,
    }
}

impl Default for ProjectInfoOptions {
    fn default() -> (r: Self)
        ensures
            r.deep_view() == usual_options(),
    {
        ProjectInfoOptions {
            format: ProjectInfoFormat::Oneai,
            force: false,
            include_file_tree: true,
            max_structure_lines: 120,
            max_dependencies: 40,
        }
    }
}

/// What became of a file of instructions.
#[derive(Debug, PartialEq)]
pub struct GeneratedProjectInfo {
    /// Where it is, or would be.
    pub path: String,
    /// Its name.
    pub filename: String,
    /// What is, or would be, in it.
    pub content: String,
    /// Whether a file that was there was written over.
    pub overwritten: bool,
    /// Whether a file that was there was left as it was.
    pub skipped: bool,
    /// Whether a model wrote the content.
    pub llm_generated: bool,
}

/// The contents of a [`GeneratedProjectInfo`].
#[verifier::ext_equal]
pub struct GeneratedProjectInfoView {
    pub path: Seq<char>,
    pub filename: Seq<char>,
    pub content: Seq<char>,
    pub overwritten: bool,
    pub skipped: bool,
    pub llm_generated: bool,
}

impl DeepView for GeneratedProjectInfo {
    type V = GeneratedProjectInfoView;

    open spec fn deep_view(&self) -> GeneratedProjectInfoView {
        GeneratedProjectInfoView {
            path: self.path.deep_view(),
            filename: self.filename.deep_view(),
            content: self.content.deep_view(),
            overwritten: self.overwritten,
            skipped: self.skipped,
            llm_generated: self.llm_generated,
        }
    }
}

impl Duplicate for GeneratedProjectInfo {
    fn duplicate(&self) -> (copy: Self) {
        GeneratedProjectInfo {
            path: self.path.duplicate(),
            filename: self.filename.duplicate(),
            content: self.content.duplicate(),
            overwritten: self.overwritten,
            skipped: self.skipped,
            llm_generated: self.llm_generated,
        }
    }
}

impl Clone for GeneratedProjectInfo {
    fn clone(&self) -> (copy: Self)
        ensures
            copy.deep_view() == self.deep_view(),
    {
        self.duplicate()
    }
}

/// What becomes of a file of instructions.
pub open spec fn generated(
    path: Seq<char>,
    options: ProjectInfoOptionsView,
    content: Seq<char>,
    llm_generated: bool,
    exists: bool,
) -> GeneratedProjectInfoView {
    GeneratedProjectInfoView {
        path,
        filename: options.format.filename(),
        content,
        overwritten: exists && options.force,
        skipped: exists && !options.force,
        llm_generated,
    }
}

/// What becomes of a file of instructions. It is to be written unless it is
/// skipped.
pub fn plan_content(
    path: &str,
    options: &ProjectInfoOptions,
    content: String,
    llm_generated: bool,
    exists: bool,
) -> (r: GeneratedProjectInfo)
    ensures
        r.deep_view() == generated(
            path@,
            options.deep_view(),
            content@,
            llm_generated,
            exists,
        ),
{
    GeneratedProjectInfo {
        path: path.to_string(),
        filename: options.format.filename().to_string(),
        content,
        overwritten: exists && options.force,
        skipped: exists && !options.force,
        llm_generated,
    }
}

/// A file that is there is kept, unless it is to be written over; and a file
/// that is not there is never skipped.
pub proof fn law_existing_file_is_kept(
    path: Seq<char>,
    options: ProjectInfoOptionsView,
    content: Seq<char>,
    llm_generated: bool,
    exists: bool,
)
    ensures
        ({
            let r = generated(path, options, content, llm_generated, exists);
            &&& r.skipped <==> exists && !options.force
            &&& r.overwritten ==> exists && !r.skipped
            &&& !exists ==> !r.skipped && !r.overwritten
        }),
{
}

// ─── What was found out ─────────────────────────────────────────────────────

/// What was found out of a project.
#[derive(Debug, PartialEq)]
pub struct ProjectProbe {
    /// Where it is.
    pub project_dir: String,
    pub name: String,
    pub version: String,
    pub description: String,
    /// What it is built with.
    pub build_system: Option<BuildSystem>,
    pub language: String,
    /// What is run for what.
    pub commands: Vec<(String, String)>,
    /// What it depends on, with versions.
    pub key_dependencies: Vec<(String, String)>,
    /// The conventions of its code.
    pub conventions: Vec<String>,
    /// Its crates.
    pub module_map: Vec<ModuleEntry>,
    /// The files where its programs begin, with their first lines.
    pub entry_points: Vec<(String, String)>,
    /// Its readme.
    pub readme: String,
    /// The file of instructions that is there, with its name.
    pub existing_instructions: Option<(String, String)>,
    /// Documents to refer to.
    pub doc_links: Vec<String>,
    /// Its files.
    pub file_tree: String,
    /// The branch.
    pub git_branch: String,
    /// The last commits.
    pub git_commits: String,
}

/// The contents of a [`ProjectProbe`].
#[verifier::ext_equal]
pub struct ProjectProbeView {
    pub project_dir: Seq<char>,
    pub name: Seq<char>,
    pub version: Seq<char>,
    pub description: Seq<char>,
    pub build_system: Option<BuildSystem>,
    pub language: Seq<char>,
    pub commands: Seq<(Seq<char>, Seq<char>)>,
    pub key_dependencies: Seq<(Seq<char>, Seq<char>)>,
    pub conventions: Seq<Seq<char>>,
    pub module_map: Seq<ModuleEntryView>,
    pub entry_points: Seq<(Seq<char>, Seq<char>)>,
    pub readme: Seq<char>,
    pub existing_instructions: Option<(Seq<char>, Seq<char>)>,
    pub doc_links: Seq<Seq<char>>,
    pub file_tree: Seq<char>,
    pub git_branch: Seq<char>,
    pub git_commits: Seq<char>,
}

impl DeepView for ProjectProbe {
    type V = ProjectProbeView;

    open spec fn deep_view(&self) -> ProjectProbeView {
        ProjectProbeView {
            project_dir: self.project_dir.deep_view(),
            name: self.name.deep_view(),
            version: self.version.deep_view(),
            description: self.description.deep_view(),
            build_system: self.build_system.deep_view(),
            language: self.language.deep_view(),
            commands: self.commands.deep_view(),
            key_dependencies: self.key_dependencies.deep_view(),
            conventions: self.conventions.deep_view(),
            module_map: self.module_map.deep_view(),
            entry_points: self.entry_points.deep_view(),
            readme: self.readme.deep_view(),
            existing_instructions: self.existing_instructions.deep_view(),
            doc_links: self.doc_links.deep_view(),
            file_tree: self.file_tree.deep_view(),
            git_branch: self.git_branch.deep_view(),
            git_commits: self.git_commits.deep_view(),
        }
    }
}

impl Duplicate for ProjectProbe {
    fn duplicate(&self) -> (copy: Self) {
        ProjectProbe {
            project_dir: self.project_dir.duplicate(),
            name: self.name.duplicate(),
            version: self.version.duplicate(),
            description: self.description.duplicate(),
            build_system: self.build_system.duplicate(),
            language: self.language.duplicate(),
            commands: self.commands.duplicate(),
            key_dependencies: self.key_dependencies.duplicate(),
            conventions: self.conventions.duplicate(),
            module_map: self.module_map.duplicate(),
            entry_points: self.entry_points.duplicate(),
            readme: self.readme.duplicate(),
            existing_instructions: self.existing_instructions.duplicate(),
            doc_links: self.doc_links.duplicate(),
            file_tree: self.file_tree.duplicate(),
            git_branch: self.git_branch.duplicate(),
            git_commits: self.git_commits.duplicate(),
        }
    }
}

impl Clone for ProjectProbe {
    fn clone(&self) -> (copy: Self)
        ensures
            copy.deep_view() == self.deep_view(),
    {
        self.duplicate()
    }
}

/// What was read of a project beside its manifest.
#[derive(Debug, PartialEq)]
pub struct ProjectSignals {
    /// Where it is.
    pub project_dir: String,
    /// The name of that directory, where it has one.
    pub dir_name: Option<String>,
    /// The conventions of its code.
    pub conventions: Vec<String>,
    /// Its crates.
    pub module_map: Vec<ModuleEntry>,
    /// The files where its programs begin, with their first lines.
    pub entry_points: Vec<(String, String)>,
    /// Its readme.
    pub readme: String,
    /// The file of instructions that is there, with its name.
    pub existing_instructions: Option<(String, String)>,
    /// Documents to refer to.
    pub doc_links: Vec<String>,
    /// Its files.
    pub file_tree: String,
    /// The branch.
    pub git_branch: String,
    /// The last commits.
    pub git_commits: String,
}

/// The contents of a [`ProjectSignals`].
#[verifier::ext_equal]
pub struct ProjectSignalsView {
    pub project_dir: Seq<char>,
    pub dir_name: Option<Seq<char>>,
    pub conventions: Seq<Seq<char>>,
    pub module_map: Seq<ModuleEntryView>,
    pub entry_points: Seq<(Seq<char>, Seq<char>)>,
    pub readme: Seq<char>,
    pub existing_instructions: Option<(Seq<char>, Seq<char>)>,
    pub doc_links: Seq<Seq<char>>,
    pub file_tree: Seq<char>,
    pub git_branch: Seq<char>,
    pub git_commits: Seq<char>,
}

impl DeepView for ProjectSignals {
    type V = ProjectSignalsView;

    open spec fn deep_view(&self) -> ProjectSignalsView {
        ProjectSignalsView {
            project_dir: self.project_dir.deep_view(),
            dir_name: self.dir_name.deep_view(),
            conventions: self.conventions.deep_view(),
            module_map: self.module_map.deep_view(),
            entry_points: self.entry_points.deep_view(),
            readme: self.readme.deep_view(),
            existing_instructions: self.existing_instructions.deep_view(),
            doc_links: self.doc_links.deep_view(),
            file_tree: self.file_tree.deep_view(),
            git_branch: self.git_branch.deep_view(),
            git_commits: self.git_commits.deep_view(),
        }
    }
}

impl Duplicate for ProjectSignals {
    fn duplicate(&self) -> (copy: Self) {
        ProjectSignals {
            project_dir: self.project_dir.duplicate(),
            dir_name: self.dir_name.duplicate(),
            conventions: self.conventions.duplicate(),
            module_map: self.module_map.duplicate(),
            entry_points: self.entry_points.duplicate(),
            readme: self.readme.duplicate(),
            existing_instructions: self.existing_instructions.duplicate(),
            doc_links: self.doc_links.duplicate(),
            file_tree: self.file_tree.duplicate(),
            git_branch: self.git_branch.duplicate(),
            git_commits: self.git_commits.duplicate(),
        }
    }
}

impl Clone for ProjectSignals {
    fn clone(&self) -> (copy: Self)
        ensures
            copy.deep_view() == self.deep_view(),
    {
        self.duplicate()
    }
}

/// What was found out of a project, by its manifest and the rest.
pub open spec fn probe_of(
    build_system: Option<BuildSystem>,
    facts: ManifestFactsView,
    signals: ProjectSignalsView,
) -> ProjectProbeView {
    ProjectProbeView {
        project_dir: signals.project_dir,
        name: if facts.name.len() > 0 {
            facts.name
        } else {
            match signals.dir_name {
                Some(name) => name,
                None => "project"@,
            }
        },
        version: facts.version,
        description: facts.description,
        build_system,
        language: match build_system {
            Some(build_system) => build_system.spec_language(),
            None => Seq::empty(),
        },
        commands: facts.commands,
        key_dependencies: facts.key_dependencies,
        conventions: signals.conventions,
        module_map: signals.module_map,
        entry_points: signals.entry_points,
        readme: signals.readme,
        existing_instructions: signals.existing_instructions,
        doc_links: signals.doc_links,
        file_tree: signals.file_tree,
        git_branch: signals.git_branch,
        git_commits: signals.git_commits,
    }
}

/// Whether the text is empty.
fn is_empty(s: &String) -> (r: bool)
    ensures
        r == (s@.len() == 0),
{
    s.as_str().is_empty()
}

/// What a model is told to make a file of this kind.
pub open spec fn system_prompt(format: ProjectInfoFormatView) -> Seq<char> {
    SYSTEM_BEFORE@ + format.label() + SYSTEM_MIDDLE@ + format.filename() + SYSTEM_AFTER@
        + PRINCIPLE@ + SYSTEM_REST@
}

/// What a model is asked to make a file of this kind.
pub open spec fn user_prompt(
    probe: ProjectProbeView,
    format: ProjectInfoFormatView,
) -> Seq<char> {
    USER_BEFORE@ + probe.project_dir + USER_FACTS@ + facts_block(probe) + USER_FILE@
        + format.filename() + USER_AFTER@ + DESIGN_PART@ + USER_REST@
}

impl ProjectProbe {
    /// What was found out of a project, by its manifest and the rest.
    pub fn assemble(
        build_system: Option<BuildSystem>,
        facts: ManifestFacts,
        signals: ProjectSignals,
    ) -> (r: Self)
        ensures
            r.deep_view() == probe_of(build_system, facts.deep_view(), signals.deep_view()),
    {
        let name = if is_empty(&facts.name) {
            match signals.dir_name {
                Some(name) => name,
                None => "project".to_string(),
            }
        } else {
            facts.name
        };
        let language = match &build_system {
            Some(build_system) => build_system.language().to_string(),
            None => String::new(),
        };
        ProjectProbe {
            project_dir: signals.project_dir,
            name,
            version: facts.version,
            description: facts.description,
            build_system,
            language,
            commands: facts.commands,
            key_dependencies: facts.key_dependencies,
            conventions: signals.conventions,
            module_map: signals.module_map,
            entry_points: signals.entry_points,
            readme: signals.readme,
            existing_instructions: signals.existing_instructions,
            doc_links: signals.doc_links,
            file_tree: signals.file_tree,
            git_branch: signals.git_branch,
            git_commits: signals.git_commits,
        }
    }
}

/// The name of the build system, or a word for none.
pub open spec fn system_label(build_system: Option<BuildSystem>) -> Seq<char> {
    match build_system {
        Some(build_system) => build_system.spec_label(),
        None => "unrecognized"@,
    }
}

/// The name of the build system, or a word for none.
fn label_system(build_system: &Option<BuildSystem>) -> (r: &'static str)
    ensures
        r@ == system_label(*build_system),
{
    match build_system {
        Some(build_system) => build_system.label(),
        None => "unrecognized",
    }
}

/// A dependency in a list: its name, and its version where it has one.
pub open spec fn dependency_item(dependency: (Seq<char>, Seq<char>)) -> Seq<char> {
    if dependency.1.len() == 0 {
        "- "@ + dependency.0
    } else {
        "- "@ + dependency.0 + ": "@ + dependency.1
    }
}

/// The dependencies as items of a list.
pub open spec fn dependency_items(dependencies: Seq<(Seq<char>, Seq<char>)>) -> Seq<Seq<char>> {
    dependencies.map_values(|dependency: (Seq<char>, Seq<char>)| dependency_item(dependency))
}

/// The first `n` dependencies as items of a list.
fn list_items(dependencies: &Vec<(String, String)>, n: usize) -> (r: Vec<String>)
    requires
        n <= dependencies.len(),
    ensures
        r.deep_view() == dependency_items(dependencies.deep_view().take(n as int)),
        n == dependencies.len() ==> r.deep_view() == dependency_items(dependencies.deep_view()),
{
    let ghost all = dependencies.deep_view();
    let mut r: Vec<String> = Vec::new();
    let mut i: usize = 0;
    while i < n
        invariant
            i <= n <= dependencies.len(),
            all == dependencies.deep_view(),
            r.deep_view() == dependency_items(all.take(i as int)),
        decreases n - i,
    {
        let ghost before = r.deep_view();
        assert(all[i as int] == (dependencies@[i as int].0@, dependencies@[i as int].1@));
        let mut item = "- ".to_string();
        item.push_str(dependencies[i].0.as_str());
        if !is_empty(&dependencies[i].1) {
            item.push_str(": ");
            item.push_str(dependencies[i].1.as_str());
        }
        r.push(item);
        assert(r.deep_view() =~= before.push(dependency_item(all[i as int])));
        i = i + 1;
        assert(r.deep_view() =~= dependency_items(all.take(i as int)));
    }
    assert(n == dependencies.len() ==> all.take(n as int) =~= all);
    r
}

// ─── Facts for a model ──────────────────────────────────────────────────────

/// A part of the facts, under a heading: nothing where it is blank.
pub open spec fn section(label: Seq<char>, body: Seq<char>) -> Seq<char> {
    if text::trimmed(body).len() == 0 {
        Seq::empty()
    } else {
        "## "@ + label + "\n"@ + body + "\n\n"@
    }
}

/// A part of the facts that is there where its list is not empty.
pub open spec fn section_if(present: bool, label: Seq<char>, body: Seq<char>) -> Seq<char> {
    if present {
        section(label, body)
    } else {
        Seq::empty()
    }
}

/// What the project is.
pub open spec fn project_lines(probe: ProjectProbeView) -> Seq<char> {
    "name: "@ + probe.name + "\nversion: "@ + probe.version + "\nlanguage: "@ + probe.language
        + "\nbuild_system: "@ + system_label(probe.build_system) + "\ndescription: "@
        + probe.description + "\nroot: "@ + probe.project_dir
}

/// A crate and what it says of itself.
pub open spec fn module_lines(module: ModuleEntryView) -> Seq<char> {
    "- "@ + module.name + " ("@ + module.path + ")"@ + (if module.description.len() > 0 {
        " — "@ + module.description
    } else {
        Seq::empty()
    }) + "\n"@ + (if module.doc.len() > 0 {
        text::flattened(
            text::wrapped(text::first_lines(text::line_seq(module.doc), 8), "    "@, "\n"@),
        )
    } else {
        Seq::empty()
    }) + (if module.modules.len() > 0 {
        "    modules: "@ + text::joined(module.modules, ", "@) + "\n"@
    } else {
        Seq::empty()
    })
}

/// The crates and what they say of themselves.
pub open spec fn module_map_lines(modules: Seq<ModuleEntryView>) -> Seq<char>
    decreases modules.len(),
{
    if modules.len() == 0 {
        Seq::empty()
    } else {
        module_map_lines(modules.drop_last()) + module_lines(modules.last())
    }
}

/// All facts, part after part.
pub open spec fn all_facts(probe: ProjectProbeView) -> Seq<char> {
    section("Project"@, project_lines(probe)) + section_if(
        probe.commands.len() > 0,
        "Commands"@,
        text::joined(text::paired(probe.commands, "- "@, ": "@, Seq::empty()), "\n"@),
    ) + section_if(
        probe.module_map.len() > 0,
        "Module map (architecture)"@,
        module_map_lines(probe.module_map),
    ) + section_if(
        probe.entry_points.len() > 0,
        "Entry-point file excerpts"@,
        text::joined(text::paired(probe.entry_points, "// "@, " \n"@, Seq::empty()), "\n\n"@),
    ) + section_if(
        probe.key_dependencies.len() > 0,
        "Key dependencies"@,
        text::joined(dependency_items(probe.key_dependencies), "\n"@),
    ) + section_if(
        probe.conventions.len() > 0,
        "Conventions"@,
        text::joined(text::prefixed(probe.conventions, "- "@), "\n"@),
    ) + section_if(
        probe.readme.len() > 0,
        "README"@,
        project_probe::cut(probe.readme, project_probe::README_CAP as nat),
    ) + (match probe.existing_instructions {
        Some((name, content)) => section(
            "Existing instruction file ("@ + name + ")"@,
            project_probe::cut(content, EXISTING_CAP as nat),
        ),
        None => Seq::empty(),
    }) + section_if(
        probe.doc_links.len() > 0,
        "Supplementary docs (link, don't embed)"@,
        text::joined(text::prefixed(probe.doc_links, "- "@), "\n"@),
    ) + section_if(
        probe.file_tree.len() > 0,
        "File tree (top levels)"@,
        project_probe::cut(probe.file_tree, TREE_CAP as nat),
    ) + section(
        "Git"@,
        "branch: "@ + probe.git_branch + "\nrecent commits:\n"@ + probe.git_commits,
    )
}

/// The facts that the model is given: all of them, cut where they are long.
pub open spec fn facts_block(probe: ProjectProbeView) -> Seq<char> {
    project_probe::cut(all_facts(probe), CONTEXT_BLOCK_CAP as nat)
}

/// Appends a part, under a heading: nothing where it is blank.
fn push_section(block: &mut String, label: &str, body: &str)
    ensures
        final(block)@ == old(block)@ + section(label@, body@),
{
    if !text::is_blank(body) {
        block.push_str("## ");
        block.push_str(label);
        block.push_str("\n");
        block.push_str(body);
        block.push_str("\n\n");
    }
    assert(block@ =~= old(block)@ + section(label@, body@));
}

/// Appends a part that is there where its list is not empty.
fn push_section_if(block: &mut String, present: bool, label: &str, body: &str)
    ensures
        final(block)@ == old(block)@ + section_if(present, label@, body@),
{
    if present {
        push_section(block, label, body);
    }
    assert(block@ =~= old(block)@ + section_if(present, label@, body@));
}

/// The first lines of a text, each between `before` and `after`.
fn quote_lines(s: &str, max: usize, before: &str, after: &str) -> (r: String)
    ensures
        r@ == text::flattened(
            text::wrapped(text::first_lines(text::line_seq(s@), max as int), before@, after@),
        ),
{
    let mut lines = text::lines(s);
    let ghost all = lines.deep_view();
    if lines.len() > max {
        lines.truncate(max);
        assert(lines.deep_view() =~= all.take(max as int));
    }
    let wrapped = text::wrap_all(&lines, before, after);
    text::flatten(&wrapped)
}

/// A crate and what it says of itself.
fn describe_module(module: &ModuleEntry) -> (r: String)
    ensures
        r@ == module_lines(module.deep_view()),
{
    let mut r = "- ".to_string();
    r.push_str(module.name.as_str());
    r.push_str(" (");
    r.push_str(module.path.as_str());
    r.push_str(")");
    if !is_empty(&module.description) {
        r.push_str(" — ");
        r.push_str(module.description.as_str());
    }
    r.push_str("\n");
    if !is_empty(&module.doc) {
        r.push_str(quote_lines(module.doc.as_str(), 8, "    ", "\n").as_str());
    }
    if module.modules.len() > 0 {
        r.push_str("    modules: ");
        r.push_str(text::join(&module.modules, ", ").as_str());
        r.push_str("\n");
    }
    assert(r@ =~= module_lines(module.deep_view()));
    r
}

/// The crates and what they say of themselves.
fn describe_modules(modules: &Vec<ModuleEntry>) -> (r: String)
    ensures
        r@ == module_map_lines(modules.deep_view()),
{
    let ghost all = modules.deep_view();
    let mut r = String::new();
    let mut i: usize = 0;
    while i < modules.len()
        invariant
            i <= modules.len(),
            all == modules.deep_view(),
            r@ == module_map_lines(all.take(i as int)),
        decreases modules.len() - i,
    {
        assert(all.take(i + 1).drop_last() =~= all.take(i as int));
        assert(all[i as int] == modules@[i as int].deep_view());
        r.push_str(describe_module(&modules[i]).as_str());
        i = i + 1;
    }
    assert(all.take(i as int) =~= all);
    r
}

impl ProjectProbe {
    /// What the project is.
    fn describe(&self) -> (r: String)
        ensures
            r@ == project_lines(self.deep_view()),
    {
        let mut r = "name: ".to_string();
        r.push_str(self.name.as_str());
        r.push_str("\nversion: ");
        r.push_str(self.version.as_str());
        r.push_str("\nlanguage: ");
        r.push_str(self.language.as_str());
        r.push_str("\nbuild_system: ");
        r.push_str(label_system(&self.build_system));
        r.push_str("\ndescription: ");
        r.push_str(self.description.as_str());
        r.push_str("\nroot: ");
        r.push_str(self.project_dir.as_str());
        r
    }

    /// All facts, part after part.
    fn gather(&self) -> (r: String)
        ensures
            r@ == all_facts(self.deep_view()),
    {
        proof {
            reveal_strlit("");
            assert(""@ =~= Seq::<char>::empty());
        }
        let mut r = String::new();
        push_section(&mut r, "Project", self.describe().as_str());
        let commands = text::pair_all(&self.commands, "- ", ": ", "");
        push_section_if(
            &mut r,
            self.commands.len() > 0,
            "Commands",
            text::join(&commands, "\n").as_str(),
        );
        push_section_if(
            &mut r,
            self.module_map.len() > 0,
            "Module map (architecture)",
            describe_modules(&self.module_map).as_str(),
        );
        let entries = text::pair_all(&self.entry_points, "// ", " \n", "");
        push_section_if(
            &mut r,
            self.entry_points.len() > 0,
            "Entry-point file excerpts",
            text::join(&entries, "\n\n").as_str(),
        );
        let dependencies = list_items(&self.key_dependencies, self.key_dependencies.len());
        push_section_if(
            &mut r,
            self.key_dependencies.len() > 0,
            "Key dependencies",
            text::join(&dependencies, "\n").as_str(),
        );
        let conventions = text::prefix_all(&self.conventions, "- ");
        push_section_if(
            &mut r,
            self.conventions.len() > 0,
            "Conventions",
            text::join(&conventions, "\n").as_str(),
        );
        push_section_if(
            &mut r,
            !is_empty(&self.readme),
            "README",
            project_probe::truncate_chars(
                self.readme.as_str(),
                project_probe::README_CAP,
            ).as_str(),
        );
        let ghost before = r@;
        if let Some((name, content)) = &self.existing_instructions {
            let mut label = "Existing instruction file (".to_string();
            label.push_str(name.as_str());
            label.push_str(")");
            push_section(
                &mut r,
                label.as_str(),
                project_probe::truncate_chars(content.as_str(), EXISTING_CAP).as_str(),
            );
        }
        assert(r@ =~= before + (match self.deep_view().existing_instructions {
            Some((name, content)) => section(
                "Existing instruction file ("@ + name + ")"@,
                project_probe::cut(content, EXISTING_CAP as nat),
            ),
            None => Seq::empty(),
        }));
        let links = text::prefix_all(&self.doc_links, "- ");
        push_section_if(
            &mut r,
            self.doc_links.len() > 0,
            "Supplementary docs (link, don't embed)",
            text::join(&links, "\n").as_str(),
        );
        push_section_if(
            &mut r,
            !is_empty(&self.file_tree),
            "File tree (top levels)",
            project_probe::truncate_chars(self.file_tree.as_str(), TREE_CAP).as_str(),
        );
        let mut git = "branch: ".to_string();
        git.push_str(self.git_branch.as_str());
        git.push_str("\nrecent commits:\n");
        git.push_str(self.git_commits.as_str());
        push_section(&mut r, "Git", git.as_str());
        assert(r@ =~= all_facts(self.deep_view()));
        r
    }

    /// The facts that a model is given, cut where they are long.
    pub fn context_block(&self) -> (r: String)
        ensures
            r@ == facts_block(self.deep_view()),
    {
        project_probe::truncate_chars(self.gather().as_str(), CONTEXT_BLOCK_CAP)
    }

    /// What a model is told, and what it is asked, to make a file of this kind.
    pub fn build_init_prompt(&self, format: &ProjectInfoFormat) -> (r: (String, String))
        ensures
            r.0@ == system_prompt(format.deep_view()),
            r.1@ == user_prompt(self.deep_view(), format.deep_view()),
    {
        let mut system = SYSTEM_BEFORE.to_string();
        system.push_str(format.label());
        system.push_str(SYSTEM_MIDDLE);
        system.push_str(format.filename());
        system.push_str(SYSTEM_AFTER);
        system.push_str(PRINCIPLE);
        system.push_str(SYSTEM_REST);
        let mut user = USER_BEFORE.to_string();
        user.push_str(self.project_dir.as_str());
        user.push_str(USER_FACTS);
        user.push_str(self.context_block().as_str());
        user.push_str(USER_FILE);
        user.push_str(format.filename());
        user.push_str(USER_AFTER);
        user.push_str(DESIGN_PART);
        user.push_str(USER_REST);
        (system, user)
    }
}

/// What a model is told is which kind of file it makes, under which name, and by
/// which principle; what it is asked holds all its facts, the name of the file and
/// the part on the design.
pub proof fn law_prompts_hold_what_is_asked(probe: ProjectProbeView, format: ProjectInfoFormatView)
    ensures
        text::occurs(system_prompt(format), format.label()),
        text::occurs(system_prompt(format), format.filename()),
        text::occurs(system_prompt(format), "Link, don't embed"@),
        text::occurs(user_prompt(probe, format), facts_block(probe)),
        text::occurs(user_prompt(probe, format), format.filename()),
        text::occurs(user_prompt(probe, format), "Architecture & key design"@),
{
    let system = system_prompt(format);
    let to_label = SYSTEM_BEFORE@;
    let from_name = format.filename() + SYSTEM_AFTER@ + PRINCIPLE@ + SYSTEM_REST@;
    text::lemma_occurs_inside(to_label, format.label(), SYSTEM_MIDDLE@ + from_name);
    assert(to_label + format.label() + (SYSTEM_MIDDLE@ + from_name) =~= system);
    let to_name = to_label + format.label() + SYSTEM_MIDDLE@;
    let from_principle = SYSTEM_AFTER@ + PRINCIPLE@ + SYSTEM_REST@;
    text::lemma_occurs_inside(to_name, format.filename(), from_principle);
    assert(to_name + format.filename() + from_principle =~= system);
    let to_principle = to_name + format.filename() + SYSTEM_AFTER@;
    text::lemma_occurs_inside(to_principle, PRINCIPLE@, SYSTEM_REST@);
    assert(to_principle + PRINCIPLE@ + SYSTEM_REST@ =~= system);

    let user = user_prompt(probe, format);
    let to_facts = USER_BEFORE@ + probe.project_dir + USER_FACTS@;
    let ending = USER_AFTER@ + DESIGN_PART@ + USER_REST@;
    text::lemma_occurs_inside(
        to_facts,
        facts_block(probe),
        USER_FILE@ + format.filename() + ending,
    );
    assert(to_facts + facts_block(probe) + (USER_FILE@ + format.filename() + ending) =~= user);
    let to_file = to_facts + facts_block(probe) + USER_FILE@;
    text::lemma_occurs_inside(to_file, format.filename(), ending);
    assert(to_file + format.filename() + ending =~= user);
    let to_design = to_file + format.filename() + USER_AFTER@;
    text::lemma_occurs_inside(to_design, DESIGN_PART@, USER_REST@);
    assert(to_design + DESIGN_PART@ + USER_REST@ =~= user);
}

/// The facts that a model is given stay within their bound, but for the mark
/// that says that they were cut.
pub proof fn law_context_is_bounded(probe: ProjectProbeView)
    ensures
        text::byte_len(facts_block(probe)) <= CONTEXT_BLOCK_CAP + 18,
{
    project_probe::law_cut_is_bounded(all_facts(probe), CONTEXT_BLOCK_CAP as nat);
}

// ─── The file without a model ───────────────────────────────────────────────

/// The head of the file.
pub open spec fn file_head(probe: ProjectProbeView, format: ProjectInfoFormatView) -> Seq<char> {
    "# "@ + (if probe.name.len() == 0 {
        "Project"@
    } else {
        probe.name
    }) + "\n\n"@ + MADE_BY@ + format.label() + MADE_FOR@
}

/// What the project is.
pub open spec fn overview(probe: ProjectProbeView) -> Seq<char> {
    "## Overview\n\n"@ + "- **Name**: "@ + probe.name + "\n"@ + (if probe.version.len() > 0 {
        "- **Version**: "@ + probe.version + "\n"@
    } else {
        Seq::empty()
    }) + "- **Language**: "@ + (if probe.language.len() == 0 {
        "unknown"@
    } else {
        probe.language
    }) + "\n"@ + "- **Build system**: "@ + system_label(probe.build_system) + "\n"@ + (
    if probe.description.len() > 0 {
        "- **Description**: "@ + probe.description + "\n"@
    } else {
        Seq::empty()
    }) + "\n"@
}

/// Each command, with what it is for behind it.
pub open spec fn command_lines(commands: Seq<(Seq<char>, Seq<char>)>) -> Seq<char>
    decreases commands.len(),
{
    if commands.len() == 0 {
        Seq::empty()
    } else {
        command_lines(commands.drop_last()) + text::padded(commands.last().1, 10) + " # "@
            + commands.last().0 + "\n"@
    }
}

/// What is run for what.
pub open spec fn command_part(probe: ProjectProbeView) -> Seq<char> {
    if probe.commands.len() == 0 {
        Seq::empty()
    } else {
        "## Build, test, run\n\n```bash\n"@ + command_lines(probe.commands) + "```\n\n"@
    }
}

/// A crate.
pub open spec fn module_part(module: ModuleEntryView) -> Seq<char> {
    "### "@ + module.name + " (`"@ + module.path + "`)\n"@ + (if module.description.len() > 0 {
        module.description + "\n"@
    } else {
        Seq::empty()
    }) + (if module.doc.len() > 0 {
        "\n"@ + text::flattened(
            text::wrapped(text::first_lines(text::line_seq(module.doc), 12), "> "@, "\n"@),
        )
    } else {
        Seq::empty()
    }) + (if module.modules.len() > 0 {
        "\nModules: "@ + text::joined(module.modules, ", "@) + "\n"@
    } else {
        Seq::empty()
    }) + "\n"@
}

/// The crates.
pub open spec fn module_parts(modules: Seq<ModuleEntryView>) -> Seq<char>
    decreases modules.len(),
{
    if modules.len() == 0 {
        Seq::empty()
    } else {
        module_parts(modules.drop_last()) + module_part(modules.last())
    }
}

/// The crates, or else the files.
pub open spec fn structure_part(
    probe: ProjectProbeView,
    options: ProjectInfoOptionsView,
) -> Seq<char> {
    if probe.module_map.len() > 0 {
        MODULES_HEAD@ + module_parts(probe.module_map)
    } else if options.include_file_tree && probe.file_tree.len() > 0 {
        let lines = text::line_seq(probe.file_tree);
        "## Project structure\n\n```\n"@ + text::joined(
            text::first_lines(lines, options.max_structure_lines as int),
            "\n"@,
        ) + (if lines.len() > options.max_structure_lines {
            "\n... [truncated]"@
        } else {
            Seq::empty()
        }) + "\n```\n\n"@
    } else {
        Seq::empty()
    }
}

/// The files where the programs begin.
pub open spec fn entry_part(probe: ProjectProbeView) -> Seq<char> {
    if probe.entry_points.len() == 0 {
        Seq::empty()
    } else {
        "## Entry-point excerpts\n\n"@ + text::flattened(
            text::paired(
                probe.entry_points,
                "`"@,
                "` (first lines):\n\n```\n"@,
                "\n```\n\n"@,
            ),
        )
    }
}

/// The dependencies.
pub open spec fn dependency_part(
    probe: ProjectProbeView,
    options: ProjectInfoOptionsView,
) -> Seq<char> {
    let shown = if probe.key_dependencies.len() > options.max_dependencies {
        probe.key_dependencies.take(options.max_dependencies as int)
    } else {
        probe.key_dependencies
    };
    if probe.key_dependencies.len() == 0 {
        Seq::empty()
    } else {
        "## Key dependencies\n\n"@ + text::flattened(
            text::wrapped(dependency_items(shown), Seq::empty(), "\n"@),
        ) + "\n"@
    }
}

/// A list under a heading: nothing where it is empty.
pub open spec fn list_part(heading: Seq<char>, items: Seq<Seq<char>>) -> Seq<char> {
    if items.len() == 0 {
        Seq::empty()
    } else {
        heading + text::flattened(text::wrapped(items, "- "@, "\n"@)) + "\n"@
    }
}

/// The documents to refer to.
pub open spec fn link_part(links: Seq<Seq<char>>) -> Seq<char> {
    if links.len() == 0 {
        Seq::empty()
    } else {
        "## Further reading\n\n"@ + text::flattened(
            links.map_values(|link: Seq<char>| "- ["@ + link + "]("@ + link + ")\n"@),
        ) + "\n"@
    }
}

/// The branch and the last commits.
pub open spec fn git_part(probe: ProjectProbeView) -> Seq<char> {
    "## Git context\n\n"@ + "- **Branch**: "@ + probe.git_branch + "\n"@ + (
    if probe.git_commits.len() > 0 {
        "- **Recent commits**:\n"@ + text::flattened(
            text::wrapped(text::line_seq(probe.git_commits), "  "@, "\n"@),
        )
    } else {
        Seq::empty()
    }) + "\n"@
}

/// What a file ends with.
pub open spec fn notes_part(probe: ProjectProbeView) -> Seq<char> {
    "## Notes\n\n"@ + (if probe.readme.len() > 0 {
        "README (excerpt):\n\n"@ + probe.readme + "\n\n"@
    } else {
        Seq::empty()
    }) + GUIDANCE@
}

/// The file that is made without a model.
pub open spec fn heuristic(probe: ProjectProbeView, options: ProjectInfoOptionsView) -> Seq<char> {
    file_head(probe, options.format) + overview(probe) + command_part(probe) + structure_part(
        probe,
        options,
    ) + entry_part(probe) + dependency_part(probe, options) + list_part(
        "## Conventions\n\n"@,
        probe.conventions,
    ) + link_part(probe.doc_links) + git_part(probe) + notes_part(probe)
}

fn write_head(probe: &ProjectProbe, format: &ProjectInfoFormat) -> (r: String)
    ensures
        r@ == file_head(probe.deep_view(), format.deep_view()),
{
    let mut r = "# ".to_string();
    if is_empty(&probe.name) {
        r.push_str("Project");
    } else {
        r.push_str(probe.name.as_str());
    }
    r.push_str("\n\n");
    r.push_str(MADE_BY);
    r.push_str(format.label());
    r.push_str(MADE_FOR);
    r
}

fn write_overview(probe: &ProjectProbe) -> (r: String)
    ensures
        r@ == overview(probe.deep_view()),
{
    let mut r = "## Overview\n\n".to_string();
    r.push_str("- **Name**: ");
    r.push_str(probe.name.as_str());
    r.push_str("\n");
    if !is_empty(&probe.version) {
        r.push_str("- **Version**: ");
        r.push_str(probe.version.as_str());
        r.push_str("\n");
    }
    r.push_str("- **Language**: ");
    if is_empty(&probe.language) {
        r.push_str("unknown");
    } else {
        r.push_str(probe.language.as_str());
    }
    r.push_str("\n");
    r.push_str("- **Build system**: ");
    r.push_str(label_system(&probe.build_system));
    r.push_str("\n");
    if !is_empty(&probe.description) {
        r.push_str("- **Description**: ");
        r.push_str(probe.description.as_str());
        r.push_str("\n");
    }
    r.push_str("\n");
    assert(r@ =~= overview(probe.deep_view()));
    r
}

fn write_commands(probe: &ProjectProbe) -> (r: String)
    ensures
        r@ == command_part(probe.deep_view()),
{
    let commands = &probe.commands;
    if commands.len() == 0 {
        return String::new();
    }
    let ghost all = commands.deep_view();
    let mut lines = String::new();
    let mut i: usize = 0;
    while i < commands.len()
        invariant
            i <= commands.len(),
            all == commands.deep_view(),
            lines@ == command_lines(all.take(i as int)),
        decreases commands.len() - i,
    {
        assert(all.take(i + 1).drop_last() =~= all.take(i as int));
        assert(all[i as int] == (commands@[i as int].0@, commands@[i as int].1@));
        lines.push_str(text::pad(commands[i].1.as_str(), 10).as_str());
        lines.push_str(" # ");
        lines.push_str(commands[i].0.as_str());
        lines.push_str("\n");
        i = i + 1;
    }
    assert(all.take(i as int) =~= all);
    let mut r = "## Build, test, run\n\n```bash\n".to_string();
    r.push_str(lines.as_str());
    r.push_str("```\n\n");
    r
}

fn write_module(module: &ModuleEntry) -> (r: String)
    ensures
        r@ == module_part(module.deep_view()),
{
    let mut r = "### ".to_string();
    r.push_str(module.name.as_str());
    r.push_str(" (`");
    r.push_str(module.path.as_str());
    r.push_str("`)\n");
    if !is_empty(&module.description) {
        r.push_str(module.description.as_str());
        r.push_str("\n");
    }
    if !is_empty(&module.doc) {
        r.push_str("\n");
        r.push_str(quote_lines(module.doc.as_str(), 12, "> ", "\n").as_str());
    }
    if module.modules.len() > 0 {
        r.push_str("\nModules: ");
        r.push_str(text::join(&module.modules, ", ").as_str());
        r.push_str("\n");
    }
    r.push_str("\n");
    assert(r@ =~= module_part(module.deep_view()));
    r
}

fn write_structure(probe: &ProjectProbe, options: &ProjectInfoOptions) -> (r: String)
    ensures
        r@ == structure_part(probe.deep_view(), options.deep_view()),
{
    if probe.module_map.len() > 0 {
        let modules = &probe.module_map;
        let ghost all = modules.deep_view();
        let mut parts = String::new();
        let mut i: usize = 0;
        while i < modules.len()
            invariant
                i <= modules.len(),
                all == modules.deep_view(),
                parts@ == module_parts(all.take(i as int)),
            decreases modules.len() - i,
        {
            assert(all.take(i + 1).drop_last() =~= all.take(i as int));
            assert(all[i as int] == modules@[i as int].deep_view());
            parts.push_str(write_module(&modules[i]).as_str());
            i = i + 1;
        }
        assert(all.take(i as int) =~= all);
        let mut r = MODULES_HEAD.to_string();
        r.push_str(parts.as_str());
        r
    } else if options.include_file_tree && !is_empty(&probe.file_tree) {
        let lines = text::lines(probe.file_tree.as_str());
        let n: usize = if lines.len() > options.max_structure_lines {
            options.max_structure_lines
        } else {
            lines.len()
        };
        assert(lines.deep_view().take(n as int) =~= text::first_lines(
            lines.deep_view(),
            options.max_structure_lines as int,
        ));
        let mut r = "## Project structure\n\n```\n".to_string();
        r.push_str(text::join_first(&lines, n, "\n").as_str());
        if lines.len() > options.max_structure_lines {
            r.push_str("\n... [truncated]");
        }
        r.push_str("\n```\n\n");
        assert(r@ =~= structure_part(probe.deep_view(), options.deep_view()));
        r
    } else {
        String::new()
    }
}

fn write_entries(probe: &ProjectProbe) -> (r: String)
    ensures
        r@ == entry_part(probe.deep_view()),
{
    if probe.entry_points.len() == 0 {
        return String::new();
    }
    let entries = text::pair_all(
        &probe.entry_points,
        "`",
        "` (first lines):\n\n```\n",
        "\n```\n\n",
    );
    let mut r = "## Entry-point excerpts\n\n".to_string();
    r.push_str(text::flatten(&entries).as_str());
    r
}

fn write_dependencies(probe: &ProjectProbe, options: &ProjectInfoOptions) -> (r: String)
    ensures
        r@ == dependency_part(probe.deep_view(), options.deep_view()),
{
    if probe.key_dependencies.len() == 0 {
        return String::new();
    }
    let n: usize = if probe.key_dependencies.len() > options.max_dependencies {
        options.max_dependencies
    } else {
        probe.key_dependencies.len()
    };
    let items = list_items(&probe.key_dependencies, n);
    proof {
        reveal_strlit("");
        assert(""@ =~= Seq::<char>::empty());
    }
    let lines = text::wrap_all(&items, "", "\n");
    let mut r = "## Key dependencies\n\n".to_string();
    r.push_str(text::flatten(&lines).as_str());
    r.push_str("\n");
    r
}

fn write_list(heading: &str, items: &Vec<String>) -> (r: String)
    ensures
        r@ == list_part(heading@, items.deep_view()),
{
    if items.len() == 0 {
        return String::new();
    }
    let lines = text::wrap_all(items, "- ", "\n");
    let mut r = heading.to_string();
    r.push_str(text::flatten(&lines).as_str());
    r.push_str("\n");
    r
}

fn write_links(links: &Vec<String>) -> (r: String)
    ensures
        r@ == link_part(links.deep_view()),
{
    if links.len() == 0 {
        return String::new();
    }
    let ghost expected = links.deep_view().map_values(
        |link: Seq<char>| "- ["@ + link + "]("@ + link + ")\n"@,
    );
    let mut lines: Vec<String> = Vec::new();
    let mut i: usize = 0;
    assert(lines.deep_view() =~= expected.take(0));
    while i < links.len()
        invariant
            i <= links.len(),
            expected == links.deep_view().map_values(
                |link: Seq<char>| "- ["@ + link + "]("@ + link + ")\n"@,
            ),
            lines.deep_view() == expected.take(i as int),
        decreases links.len() - i,
    {
        let ghost before = lines.deep_view();
        assert(links.deep_view()[i as int] == links@[i as int]@);
        let mut line = "- [".to_string();
        line.push_str(links[i].as_str());
        line.push_str("](");
        line.push_str(links[i].as_str());
        line.push_str(")\n");
        lines.push(line);
        assert(lines.deep_view() =~= before.push(expected[i as int]));
        i = i + 1;
        assert(lines.deep_view() =~= expected.take(i as int));
    }
    assert(expected.take(i as int) =~= expected);
    let mut r = "## Further reading\n\n".to_string();
    r.push_str(text::flatten(&lines).as_str());
    r.push_str("\n");
    r
}

fn write_git(probe: &ProjectProbe) -> (r: String)
    ensures
        r@ == git_part(probe.deep_view()),
{
    let mut r = "## Git context\n\n".to_string();
    r.push_str("- **Branch**: ");
    r.push_str(probe.git_branch.as_str());
    r.push_str("\n");
    if !is_empty(&probe.git_commits) {
        r.push_str("- **Recent commits**:\n");
        let lines = text::lines(probe.git_commits.as_str());
        let indented = text::wrap_all(&lines, "  ", "\n");
        r.push_str(text::flatten(&indented).as_str());
    }
    r.push_str("\n");
    assert(r@ =~= git_part(probe.deep_view()));
    r
}

fn write_notes(probe: &ProjectProbe) -> (r: String)
    ensures
        r@ == notes_part(probe.deep_view()),
{
    let mut r = "## Notes\n\n".to_string();
    if !is_empty(&probe.readme) {
        r.push_str("README (excerpt):\n\n");
        r.push_str(probe.readme.as_str());
        r.push_str("\n\n");
    }
    r.push_str(GUIDANCE);
    assert(r@ =~= notes_part(probe.deep_view()));
    r
}

/// The file that is made without a model.
pub fn compose_heuristic(probe: &ProjectProbe, opts: &ProjectInfoOptions) -> (r: String)
    ensures
        r@ == heuristic(probe.deep_view(), opts.deep_view()),
{
    let mut r = write_head(probe, &opts.format);
    r.push_str(write_overview(probe).as_str());
    r.push_str(write_commands(probe).as_str());
    r.push_str(write_structure(probe, opts).as_str());
    r.push_str(write_entries(probe).as_str());
    r.push_str(write_dependencies(probe, opts).as_str());
    r.push_str(write_list("## Conventions\n\n", &probe.conventions).as_str());
    r.push_str(write_links(&probe.doc_links).as_str());
    r.push_str(write_git(probe).as_str());
    r.push_str(write_notes(probe).as_str());
    r
}

/// The parts of a file of ten parts, taken together from the third on.
proof fn lemma_ten_parts(
    a: Seq<char>,
    b: Seq<char>,
    c: Seq<char>,
    d: Seq<char>,
    e: Seq<char>,
    f: Seq<char>,
    g: Seq<char>,
    h: Seq<char>,
    i: Seq<char>,
    j: Seq<char>,
)
    ensures
        text::occurs(a + b + c + d + e + f + g + h + i + j, b),
{
    let rest = c + d + e + f + g + h + i + j;
    assert(a + b + c + d + e + f + g + h + i + j =~= a + b + rest);
    text::lemma_occurs_inside(a, b, rest);
}

/// What stands third and twelfth of the fifteen parts of an overview occurs in
/// it.
proof fn lemma_overview_parts(
    front: Seq<char>,
    name: Seq<char>,
    a: Seq<char>,
    b: Seq<char>,
    c: Seq<char>,
    d: Seq<char>,
    e: Seq<char>,
    f: Seq<char>,
    label: Seq<char>,
    g: Seq<char>,
    h: Seq<char>,
    i: Seq<char>,
)
    ensures
        text::occurs(front + name + a + b + c + d + e + f + label + g + h + i, name),
        text::occurs(front + name + a + b + c + d + e + f + label + g + h + i, label),
{
    let whole = front + name + a + b + c + d + e + f + label + g + h + i;
    let behind_name = a + b + c + d + e + f + label + g + h + i;
    assert(whole =~= front + name + behind_name);
    text::lemma_occurs_inside(front, name, behind_name);
    let before_label = front + name + a + b + c + d + e + f;
    assert(whole =~= before_label + label + (g + h + i));
    text::lemma_occurs_inside(before_label, label, g + h + i);
}

/// The file that is made without a model always says what the project is
/// called and what it is built with.
pub proof fn law_heuristic_names_project(
    probe: ProjectProbeView,
    options: ProjectInfoOptionsView,
)
    ensures
        text::occurs(heuristic(probe, options), probe.name),
        text::occurs(heuristic(probe, options), system_label(probe.build_system)),
{
    lemma_ten_parts(
        file_head(probe, options.format),
        overview(probe),
        command_part(probe),
        structure_part(probe, options),
        entry_part(probe),
        dependency_part(probe, options),
        list_part("## Conventions\n\n"@, probe.conventions),
        link_part(probe.doc_links),
        git_part(probe),
        notes_part(probe),
    );
    lemma_overview_parts(
        "## Overview\n\n"@ + "- **Name**: "@,
        probe.name,
        "\n"@,
        if probe.version.len() > 0 {
            "- **Version**: "@ + probe.version + "\n"@
        } else {
            Seq::empty()
        },
        "- **Language**: "@,
        if probe.language.len() == 0 {
            "unknown"@
        } else {
            probe.language
        },
        "\n"@,
        "- **Build system**: "@,
        system_label(probe.build_system),
        "\n"@,
        if probe.description.len() > 0 {
            "- **Description**: "@ + probe.description + "\n"@
        } else {
            Seq::empty()
        },
        "\n"@,
    );
    text::lemma_occurs_through(heuristic(probe, options), overview(probe), probe.name);
    text::lemma_occurs_through(
        heuristic(probe, options),
        overview(probe),
        system_label(probe.build_system),
    );
}

/// The first `n` of the texts.
pub open spec fn at_most(items: Seq<Seq<char>>, n: int) -> Seq<Seq<char>> {
    if items.len() > n {
        items.take(n)
    } else {
        items
    }
}

/// What a file says of a crate.
pub open spec fn told_of_module(module: ModuleEntryView) -> Seq<Seq<char>> {
    seq![module.name, module.path, module.description] + (if module.doc.len() > 0 {
        at_most(text::line_seq(module.doc), 12)
    } else {
        Seq::empty()
    }) + module.modules
}

/// What a file says of the crates.
pub open spec fn told_of_modules(modules: Seq<ModuleEntryView>) -> Seq<Seq<char>> {
    modules.map_values(|module: ModuleEntryView| told_of_module(module)).flatten_alt()
}

/// The texts of each pair, the second one first.
pub open spec fn swapped(pairs: Seq<(Seq<char>, Seq<char>)>) -> Seq<(Seq<char>, Seq<char>)> {
    pairs.map_values(|pair: (Seq<char>, Seq<char>)| (pair.1, pair.0))
}

/// What a file says of the structure of the project: the crates where there are any, or
/// else the files where they are wanted.
pub open spec fn told_of_structure(
    probe: ProjectProbeView,
    options: ProjectInfoOptionsView,
) -> Seq<Seq<char>> {
    if probe.module_map.len() > 0 {
        told_of_modules(probe.module_map)
    } else if options.include_file_tree && probe.file_tree.len() > 0 {
        at_most(text::line_seq(probe.file_tree), options.max_structure_lines as int)
    } else {
        Seq::empty()
    }
}

/// What the head of a file says.
pub open spec fn told_at_the_head(
    probe: ProjectProbeView,
    options: ProjectInfoOptionsView,
) -> Seq<Seq<char>> {
    seq![
        if probe.name.len() == 0 {
            "Project"@
        } else {
            probe.name
        },
        options.format.label(),
    ]
}

/// What a file says the project is.
pub open spec fn told_in_overview(probe: ProjectProbeView) -> Seq<Seq<char>> {
    seq![
        "## Overview"@,
        probe.name,
        probe.version,
        if probe.language.len() == 0 {
            "unknown"@
        } else {
            probe.language
        },
        system_label(probe.build_system),
        probe.description,
    ]
}

/// The dependencies that a file names.
pub open spec fn named_dependencies(
    probe: ProjectProbeView,
    options: ProjectInfoOptionsView,
) -> Seq<(Seq<char>, Seq<char>)> {
    if probe.key_dependencies.len() > options.max_dependencies {
        probe.key_dependencies.take(options.max_dependencies as int)
    } else {
        probe.key_dependencies
    }
}

/// What a file says of the branch.
pub open spec fn told_of_branch(probe: ProjectProbeView) -> Seq<Seq<char>> {
    seq!["## Git context"@, probe.git_branch] + text::line_seq(probe.git_commits)
}

/// What a file says of a project, in this order.
pub open spec fn told(probe: ProjectProbeView, options: ProjectInfoOptionsView) -> Seq<Seq<char>> {
    told_at_the_head(probe, options) + told_in_overview(probe) + text::both(
        swapped(probe.commands),
    ) + told_of_structure(probe, options) + text::both(probe.entry_points) + text::both(
        named_dependencies(probe, options),
    ) + probe.conventions + probe.doc_links + told_of_branch(probe) + seq![
        "## Notes"@,
        probe.readme,
    ]
}

proof fn lemma_module_told(module: ModuleEntryView)
    ensures
        text::in_order(module_part(module), told_of_module(module)),
{
    let described = (
        if module.description.len() > 0 { module.description + "\n"@ } else { Seq::empty() }
    );
    let documented = (
        if module.doc.len() > 0 {
            "\n"@ + text::flattened(
                text::wrapped(text::first_lines(text::line_seq(module.doc), 12), "> "@, "\n"@)
            )
        } else { Seq::empty() }
    );
    let lines = (
        if module.doc.len() > 0 { at_most(text::line_seq(module.doc), 12) } else { Seq::empty() }
    );
    let listed = (
        if module.modules.len() > 0 {
            "\nModules: "@ + text::joined(module.modules, ", "@) + "\n"@
        } else { Seq::empty() }
    );
    if module.description.len() > 0 {
        text::lemma_in_order_between(Seq::empty(), module.description, "\n"@);
        assert(Seq::<char>::empty() + module.description + "\n"@ =~= described);
    } else {
        text::lemma_in_order_between(Seq::empty(), module.description, Seq::empty());
        assert(Seq::<char>::empty() + module.description + Seq::<char>::empty() =~= described);
    }
    if module.doc.len() > 0 {
        let quoted = text::flattened(text::wrapped(lines, "> "@, "\n"@));
        text::lemma_wrapped_in_order(lines, "> "@, "\n"@);
        assert(text::in_order("\n"@, Seq::empty()));
        text::lemma_in_order_add("\n"@, Seq::empty(), quoted, lines);
        assert(Seq::<Seq<char>>::empty() + lines =~= lines);
    }
    if module.modules.len() > 0 {
        text::lemma_joined_in_order(module.modules, ", "@);
        assert(text::in_order("\nModules: "@, Seq::empty()));
        text::lemma_in_order_add(
            "\nModules: "@,
            Seq::empty(),
            text::joined(module.modules, ", "@),
            module.modules,
        );
        assert(Seq::<Seq<char>>::empty() + module.modules =~= module.modules);
        text::lemma_in_order_before(
            "\nModules: "@ + text::joined(module.modules, ", "@),
            module.modules,
            "\n"@,
        );
    }
    let s1 = "### "@;
    let p1 = Seq::<Seq<char>>::empty();
    assert(text::in_order(s1, p1));
    let s2 = s1 + module.name;
    let p2 = p1.push(module.name);
    text::lemma_in_order_piece(s1, p1, module.name);
    let s3 = s2 + " (`"@;
    let p3 = p2;
    text::lemma_in_order_before(s2, p2, " (`"@);
    let s4 = s3 + module.path;
    let p4 = p3.push(module.path);
    text::lemma_in_order_piece(s3, p3, module.path);
    let s5 = s4 + "`)\n"@;
    let p5 = p4;
    text::lemma_in_order_before(s4, p4, "`)\n"@);
    let s6 = s5 + described;
    let p6 = p5 + seq![module.description];
    text::lemma_in_order_add(s5, p5, described, seq![module.description]);
    let s7 = s6 + documented;
    let p7 = p6 + lines;
    text::lemma_in_order_add(s6, p6, documented, lines);
    let s8 = s7 + listed;
    let p8 = p7 + module.modules;
    text::lemma_in_order_add(s7, p7, listed, module.modules);
    let s9 = s8 + "\n"@;
    let p9 = p8;
    text::lemma_in_order_before(s8, p8, "\n"@);
    assert(s9 =~= module_part(module));
    assert(p9 =~= told_of_module(module));
}

proof fn lemma_modules_told(modules: Seq<ModuleEntryView>)
    ensures
        text::in_order(module_parts(modules), told_of_modules(modules)),
    decreases modules.len(),
{
    if modules.len() > 0 {
        let front = modules.drop_last();
        let lists = modules.map_values(|module: ModuleEntryView| told_of_module(module));
        lemma_modules_told(front);
        lemma_module_told(modules.last());
        text::lemma_in_order_add(
            module_parts(front),
            told_of_modules(front),
            module_part(modules.last()),
            told_of_module(modules.last()),
        );
        assert(lists.drop_last() =~= front.map_values(
            |module: ModuleEntryView| told_of_module(module),
        ));
    }
}

proof fn lemma_commands_told(commands: Seq<(Seq<char>, Seq<char>)>)
    ensures
        text::in_order(command_lines(commands), text::both(swapped(commands))),
    decreases commands.len(),
{
    if commands.len() > 0 {
        let front = commands.drop_last();
        let (what, command) = commands.last();
        let before = command_lines(front);
        let pieces = text::both(swapped(front));
        lemma_commands_told(front);
        assert(swapped(commands).drop_last() =~= swapped(front));
        assert(swapped(commands).last() == (command, what));
        let padded = text::padded(command, 10);
        text::lemma_padded(command, 10);
        assert(padded =~= command + padded.skip(command.len() as int)) by {
            assert(padded.take(command.len() as int) =~= command);
        }
        text::lemma_in_order_piece(before, pieces, command);
        let rest = padded.skip(command.len() as int);
        text::lemma_in_order_before(before + command, pieces.push(command), rest + " # "@);
        text::lemma_in_order_piece(
            before + command + (rest + " # "@),
            pieces.push(command),
            what,
        );
        text::lemma_in_order_before(
            before + command + (rest + " # "@) + what,
            pieces.push(command).push(what),
            "\n"@,
        );
        assert(before + command + (rest + " # "@) + what + "\n"@ =~= command_lines(commands));
    }
}

proof fn lemma_dependencies_told(dependencies: Seq<(Seq<char>, Seq<char>)>)
    ensures
        text::in_order(
            text::flattened(
                text::wrapped(dependency_items(dependencies), Seq::empty(), "\n"@),
            ),
            text::both(dependencies),
        ),
        text::in_order(
            text::joined(dependency_items(dependencies), "\n"@),
            text::both(dependencies),
        ),
    decreases dependencies.len(),
{
    let items = dependency_items(dependencies);
    let lines = text::wrapped(items, Seq::empty(), "\n"@);
    if dependencies.len() > 0 {
        let front = dependencies.drop_last();
        let (name, version) = dependencies.last();
        lemma_dependencies_told(front);
        assert(items.drop_last() =~= dependency_items(front));
        assert(lines.drop_last() =~= text::wrapped(
            dependency_items(front),
            Seq::empty(),
            "\n"@,
        ));
        let pieces = text::both(front);
        let item = dependency_item((name, version));
        let start = text::flattened(lines.drop_last());
        lemma_dependency_told(start, pieces, name, version);
        text::lemma_in_order_before(start + item, pieces.push(name).push(version), "\n"@);
        assert(start + item + "\n"@ =~= text::flattened(lines));
        let joint = if front.len() == 0 {
            Seq::empty()
        } else {
            text::joined(items.drop_last(), "\n"@) + "\n"@
        };
        if front.len() > 0 {
            text::lemma_in_order_before(text::joined(items.drop_last(), "\n"@), pieces, "\n"@);
        }
        lemma_dependency_told(joint, pieces, name, version);
        assert(joint + item =~= text::joined(items, "\n"@));
    }
}

proof fn lemma_dependency_told(
    start: Seq<char>,
    pieces: Seq<Seq<char>>,
    name: Seq<char>,
    version: Seq<char>,
)
    requires
        text::in_order(start, pieces),
    ensures
        text::in_order(
            start + dependency_item((name, version)),
            pieces.push(name).push(version),
        ),
{
    let item = dependency_item((name, version));
    text::lemma_in_order_before(start, pieces, "- "@);
    text::lemma_in_order_piece(start + "- "@, pieces, name);
    let between = if version.len() == 0 {
        Seq::empty()
    } else {
        ": "@
    };
    text::lemma_in_order_before(start + "- "@ + name, pieces.push(name), between);
    text::lemma_in_order_piece(start + "- "@ + name + between, pieces.push(name), version);
    assert(start + "- "@ + name + between + version =~= start + item);
}

proof fn lemma_links_told(links: Seq<Seq<char>>)
    ensures
        text::in_order(
            text::flattened(
                links.map_values(|link: Seq<char>| "- ["@ + link + "]("@ + link + ")\n"@),
            ),
            links,
        ),
    decreases links.len(),
{
    let lines = links.map_values(|link: Seq<char>| "- ["@ + link + "]("@ + link + ")\n"@);
    if links.len() > 0 {
        let front = links.drop_last();
        let link = links.last();
        let before = text::flattened(lines.drop_last());
        lemma_links_told(front);
        assert(lines.drop_last() =~= front.map_values(
            |link: Seq<char>| "- ["@ + link + "]("@ + link + ")\n"@,
        ));
        text::lemma_in_order_before(before, front, "- ["@);
        text::lemma_in_order_piece(before + "- ["@, front, link);
        text::lemma_in_order_before(
            before + "- ["@ + link,
            front.push(link),
            "]("@ + link + ")\n"@,
        );
        assert(front.push(link) =~= links);
        assert(before + "- ["@ + link + ("]("@ + link + ")\n"@) =~= text::flattened(lines));
    }
}

proof fn lemma_optional_told(head: Seq<char>, piece: Seq<char>, tail: Seq<char>)
    ensures
        text::in_order(
            if piece.len() > 0 {
                head + piece + tail
            } else {
                Seq::empty()
            },
            seq![piece],
        ),
{
    if piece.len() > 0 {
        text::lemma_in_order_between(head, piece, tail);
    } else {
        text::lemma_in_order_between(Seq::empty(), piece, Seq::empty());
        assert(Seq::<char>::empty() + piece + Seq::<char>::empty() =~= Seq::empty());
    }
}

proof fn lemma_headed_told(
    head: Seq<char>,
    body: Seq<char>,
    pieces: Seq<Seq<char>>,
    tail: Seq<char>,
)
    requires
        text::in_order(body, pieces),
    ensures
        text::in_order(head + body + tail, pieces),
        text::in_order(head + body, pieces),
{
    assert(text::in_order(head, Seq::empty()));
    text::lemma_in_order_add(head, Seq::empty(), body, pieces);
    assert(Seq::<Seq<char>>::empty() + pieces =~= pieces);
    text::lemma_in_order_before(head + body, pieces, tail);
}

proof fn lemma_parts_told(probe: ProjectProbeView, options: ProjectInfoOptionsView)
    ensures
        text::in_order(command_part(probe), text::both(swapped(probe.commands))),
        text::in_order(structure_part(probe, options), told_of_structure(probe, options)),
        text::in_order(entry_part(probe), text::both(probe.entry_points)),
        text::in_order(
            dependency_part(probe, options),
            text::both(named_dependencies(probe, options)),
        ),
        text::in_order(list_part("## Conventions\n\n"@, probe.conventions), probe.conventions),
        text::in_order(link_part(probe.doc_links), probe.doc_links),
{
    lemma_commands_told(probe.commands);
    lemma_headed_told(
        "## Build, test, run\n\n```bash\n"@,
        command_lines(probe.commands),
        text::both(swapped(probe.commands)),
        "```\n\n"@,
    );
    lemma_modules_told(probe.module_map);
    lemma_headed_told(
        MODULES_HEAD@,
        module_parts(probe.module_map),
        told_of_modules(probe.module_map),
        Seq::empty(),
    );
    let lines = at_most(text::line_seq(probe.file_tree), options.max_structure_lines as int);
    text::lemma_joined_in_order(lines, "\n"@);
    lemma_headed_told(
        "## Project structure\n\n```\n"@,
        text::joined(lines, "\n"@),
        lines,
        Seq::empty(),
    );
    let mark = if text::line_seq(probe.file_tree).len() > options.max_structure_lines {
        "\n... [truncated]"@
    } else {
        Seq::empty()
    };
    let listed = "## Project structure\n\n```\n"@ + text::joined(lines, "\n"@);
    text::lemma_in_order_before(listed, lines, mark);
    text::lemma_in_order_before(listed + mark, lines, "\n```\n\n"@);
    text::lemma_paired_in_order(
        probe.entry_points,
        "`"@,
        "` (first lines):\n\n```\n"@,
        "\n```\n\n"@,
    );
    lemma_headed_told(
        "## Entry-point excerpts\n\n"@,
        text::flattened(
            text::paired(
                probe.entry_points,
                "`"@,
                "` (first lines):\n\n```\n"@,
                "\n```\n\n"@,
            ),
        ),
        text::both(probe.entry_points),
        Seq::empty(),
    );
    let shown = if probe.key_dependencies.len() > options.max_dependencies {
        probe.key_dependencies.take(options.max_dependencies as int)
    } else {
        probe.key_dependencies
    };
    lemma_dependencies_told(shown);
    lemma_headed_told(
        "## Key dependencies\n\n"@,
        text::flattened(text::wrapped(dependency_items(shown), Seq::empty(), "\n"@)),
        text::both(shown),
        "\n"@,
    );
    text::lemma_wrapped_in_order(probe.conventions, "- "@, "\n"@);
    lemma_headed_told(
        "## Conventions\n\n"@,
        text::flattened(text::wrapped(probe.conventions, "- "@, "\n"@)),
        probe.conventions,
        "\n"@,
    );
    lemma_links_told(probe.doc_links);
    lemma_headed_told(
        "## Further reading\n\n"@,
        text::flattened(
            probe.doc_links.map_values(
                |link: Seq<char>| "- ["@ + link + "]("@ + link + ")\n"@,
            ),
        ),
        probe.doc_links,
        "\n"@,
    );
}

proof fn lemma_head_told(probe: ProjectProbeView, options: ProjectInfoOptionsView)
    ensures
        text::in_order(file_head(probe, options.format), told_at_the_head(probe, options)),
{
    let called = if probe.name.len() == 0 {
        "Project"@
    } else {
        probe.name
    };
    let s1 = "# "@;
    let p1 = Seq::<Seq<char>>::empty();
    assert(text::in_order(s1, p1));
    let s2 = s1 + called;
    let p2 = p1.push(called);
    text::lemma_in_order_piece(s1, p1, called);
    let s3 = s2 + "\n\n"@;
    let p3 = p2;
    text::lemma_in_order_before(s2, p2, "\n\n"@);
    let s4 = s3 + MADE_BY@;
    let p4 = p3;
    text::lemma_in_order_before(s3, p3, MADE_BY@);
    let s5 = s4 + options.format.label();
    let p5 = p4.push(options.format.label());
    text::lemma_in_order_piece(s4, p4, options.format.label());
    let s6 = s5 + MADE_FOR@;
    let p6 = p5;
    text::lemma_in_order_before(s5, p5, MADE_FOR@);
    assert(s6 =~= file_head(probe, options.format));
    assert(p6 =~= told_at_the_head(probe, options));
}

proof fn lemma_overview_told(probe: ProjectProbeView)
    ensures
        text::in_order(overview(probe), told_in_overview(probe)),
{
    let language = if probe.language.len() == 0 {
        "unknown"@
    } else {
        probe.language
    };
    let label = system_label(probe.build_system);
    lemma_headings();
    let version = if probe.version.len() > 0 {
        "- **Version**: "@ + probe.version + "\n"@
    } else {
        Seq::empty()
    };
    lemma_optional_told("- **Version**: "@, probe.version, "\n"@);
    let description = if probe.description.len() > 0 {
        "- **Description**: "@ + probe.description + "\n"@
    } else {
        Seq::empty()
    };
    lemma_optional_told("- **Description**: "@, probe.description, "\n"@);
    let s1 = Seq::<char>::empty();
    let p1 = Seq::<Seq<char>>::empty();
    assert(text::in_order(s1, p1));
    let s2 = s1 + "## Overview"@;
    let p2 = p1.push("## Overview"@);
    text::lemma_in_order_piece(s1, p1, "## Overview"@);
    let s3 = s2 + "\n\n"@;
    let p3 = p2;
    text::lemma_in_order_before(s2, p2, "\n\n"@);
    let s4 = s3 + "- **Name**: "@;
    let p4 = p3;
    text::lemma_in_order_before(s3, p3, "- **Name**: "@);
    let s5 = s4 + probe.name;
    let p5 = p4.push(probe.name);
    text::lemma_in_order_piece(s4, p4, probe.name);
    let s6 = s5 + "\n"@;
    let p6 = p5;
    text::lemma_in_order_before(s5, p5, "\n"@);
    let s7 = s6 + version;
    let p7 = p6 + seq![probe.version];
    text::lemma_in_order_add(s6, p6, version, seq![probe.version]);
    let s8 = s7 + "- **Language**: "@;
    let p8 = p7;
    text::lemma_in_order_before(s7, p7, "- **Language**: "@);
    let s9 = s8 + language;
    let p9 = p8.push(language);
    text::lemma_in_order_piece(s8, p8, language);
    let s10 = s9 + "\n"@;
    let p10 = p9;
    text::lemma_in_order_before(s9, p9, "\n"@);
    let s11 = s10 + "- **Build system**: "@;
    let p11 = p10;
    text::lemma_in_order_before(s10, p10, "- **Build system**: "@);
    let s12 = s11 + label;
    let p12 = p11.push(label);
    text::lemma_in_order_piece(s11, p11, label);
    let s13 = s12 + "\n"@;
    let p13 = p12;
    text::lemma_in_order_before(s12, p12, "\n"@);
    let s14 = s13 + description;
    let p14 = p13 + seq![probe.description];
    text::lemma_in_order_add(s13, p13, description, seq![probe.description]);
    let s15 = s14 + "\n"@;
    let p15 = p14;
    text::lemma_in_order_before(s14, p14, "\n"@);
    assert(s15 =~= overview(probe));
    assert(p15 =~= told_in_overview(probe));
}

proof fn lemma_branch_told(probe: ProjectProbeView)
    ensures
        text::in_order(git_part(probe), told_of_branch(probe)),
{
    lemma_headings();
    let commits = if probe.git_commits.len() > 0 {
        "- **Recent commits**:\n"@ + text::flattened(
            text::wrapped(text::line_seq(probe.git_commits), "  "@, "\n"@),
        )
    } else {
        Seq::empty()
    };
    text::lemma_wrapped_in_order(text::line_seq(probe.git_commits), "  "@, "\n"@);
    lemma_headed_told(
        "- **Recent commits**:\n"@,
        text::flattened(text::wrapped(text::line_seq(probe.git_commits), "  "@, "\n"@)),
        text::line_seq(probe.git_commits),
        Seq::empty(),
    );
    if probe.git_commits.len() == 0 {
        assert(probe.git_commits =~= Seq::empty());
        assert(text::line_seq(probe.git_commits) =~= Seq::empty());
    }
    let s1 = Seq::<char>::empty();
    let p1 = Seq::<Seq<char>>::empty();
    assert(text::in_order(s1, p1));
    let s2 = s1 + "## Git context"@;
    let p2 = p1.push("## Git context"@);
    text::lemma_in_order_piece(s1, p1, "## Git context"@);
    let s3 = s2 + "\n\n"@;
    let p3 = p2;
    text::lemma_in_order_before(s2, p2, "\n\n"@);
    let s4 = s3 + "- **Branch**: "@;
    let p4 = p3;
    text::lemma_in_order_before(s3, p3, "- **Branch**: "@);
    let s5 = s4 + probe.git_branch;
    let p5 = p4.push(probe.git_branch);
    text::lemma_in_order_piece(s4, p4, probe.git_branch);
    let s6 = s5 + "\n"@;
    let p6 = p5;
    text::lemma_in_order_before(s5, p5, "\n"@);
    let s7 = s6 + commits;
    let p7 = p6 + text::line_seq(probe.git_commits);
    text::lemma_in_order_add(s6, p6, commits, text::line_seq(probe.git_commits));
    let s8 = s7 + "\n"@;
    let p8 = p7;
    text::lemma_in_order_before(s7, p7, "\n"@);
    assert(s8 =~= git_part(probe));
    assert(p8 =~= told_of_branch(probe));
}

proof fn lemma_notes_told(probe: ProjectProbeView)
    ensures
        text::in_order(notes_part(probe), seq!["## Notes"@, probe.readme]),
{
    lemma_headings();
    let readme = if probe.readme.len() > 0 {
        "README (excerpt):\n\n"@ + probe.readme + "\n\n"@
    } else {
        Seq::empty()
    };
    lemma_optional_told("README (excerpt):\n\n"@, probe.readme, "\n\n"@);
    let s1 = Seq::<char>::empty();
    let p1 = Seq::<Seq<char>>::empty();
    assert(text::in_order(s1, p1));
    let s2 = s1 + "## Notes"@;
    let p2 = p1.push("## Notes"@);
    text::lemma_in_order_piece(s1, p1, "## Notes"@);
    let s3 = s2 + "\n\n"@;
    let p3 = p2;
    text::lemma_in_order_before(s2, p2, "\n\n"@);
    let s4 = s3 + readme;
    let p4 = p3 + seq![probe.readme];
    text::lemma_in_order_add(s3, p3, readme, seq![probe.readme]);
    let s5 = s4 + GUIDANCE@;
    let p5 = p4;
    text::lemma_in_order_before(s4, p4, GUIDANCE@);
    assert(s5 =~= notes_part(probe));
    assert(p5 =~= seq!["## Notes"@, probe.readme]);
}

/// What stands in order in each of ten parts does so in all of them together.
proof fn lemma_ten_in_order(
    a: Seq<char>,
    of_a: Seq<Seq<char>>,
    b: Seq<char>,
    of_b: Seq<Seq<char>>,
    c: Seq<char>,
    of_c: Seq<Seq<char>>,
    d: Seq<char>,
    of_d: Seq<Seq<char>>,
    e: Seq<char>,
    of_e: Seq<Seq<char>>,
    f: Seq<char>,
    of_f: Seq<Seq<char>>,
    g: Seq<char>,
    of_g: Seq<Seq<char>>,
    h: Seq<char>,
    of_h: Seq<Seq<char>>,
    i: Seq<char>,
    of_i: Seq<Seq<char>>,
    j: Seq<char>,
    of_j: Seq<Seq<char>>,
)
    requires
        text::in_order(a, of_a),
        text::in_order(b, of_b),
        text::in_order(c, of_c),
        text::in_order(d, of_d),
        text::in_order(e, of_e),
        text::in_order(f, of_f),
        text::in_order(g, of_g),
        text::in_order(h, of_h),
        text::in_order(i, of_i),
        text::in_order(j, of_j),
    ensures
        text::in_order(
            a + b + c + d + e + f + g + h + i + j,
            of_a + of_b + of_c + of_d + of_e + of_f + of_g + of_h + of_i + of_j,
        ),
{
    text::lemma_in_order_add(a, of_a, b, of_b);
    text::lemma_in_order_add(a + b, of_a + of_b, c, of_c);
    text::lemma_in_order_add(a + b + c, of_a + of_b + of_c, d, of_d);
    text::lemma_in_order_add(a + b + c + d, of_a + of_b + of_c + of_d, e, of_e);
    text::lemma_in_order_add(a + b + c + d + e, of_a + of_b + of_c + of_d + of_e, f, of_f);
    text::lemma_in_order_add(
        a + b + c + d + e + f,
        of_a + of_b + of_c + of_d + of_e + of_f,
        g,
        of_g,
    );
    text::lemma_in_order_add(
        a + b + c + d + e + f + g,
        of_a + of_b + of_c + of_d + of_e + of_f + of_g,
        h,
        of_h,
    );
    text::lemma_in_order_add(
        a + b + c + d + e + f + g + h,
        of_a + of_b + of_c + of_d + of_e + of_f + of_g + of_h,
        i,
        of_i,
    );
    text::lemma_in_order_add(
        a + b + c + d + e + f + g + h + i,
        of_a + of_b + of_c + of_d + of_e + of_f + of_g + of_h + of_i,
        j,
        of_j,
    );
}

/// The file that is made without a model says all that it is to say of the project, in
/// order: what the project is, every command behind what is run, every crate with its
/// path and what it says of itself, or else the files, the places where programs begin,
/// the first dependencies, every convention, every document, the branch with its commits,
/// and what the project says of itself.
pub proof fn law_heuristic_tells_all(probe: ProjectProbeView, options: ProjectInfoOptionsView)
    ensures
        text::in_order(heuristic(probe, options), told(probe, options)),
{
    lemma_head_told(probe, options);
    lemma_overview_told(probe);
    lemma_parts_told(probe, options);
    lemma_branch_told(probe);
    lemma_notes_told(probe);
    lemma_ten_in_order(
        file_head(probe, options.format),
        told_at_the_head(probe, options),
        overview(probe),
        told_in_overview(probe),
        command_part(probe),
        text::both(swapped(probe.commands)),
        structure_part(probe, options),
        told_of_structure(probe, options),
        entry_part(probe),
        text::both(probe.entry_points),
        dependency_part(probe, options),
        text::both(named_dependencies(probe, options)),
        list_part("## Conventions\n\n"@, probe.conventions),
        probe.conventions,
        link_part(probe.doc_links),
        probe.doc_links,
        git_part(probe),
        told_of_branch(probe),
        notes_part(probe),
        seq!["## Notes"@, probe.readme],
    );
}

proof fn lemma_headings()
    ensures
        "## Overview\n\n"@ == "## Overview"@ + "\n\n"@,
        "## Git context\n\n"@ == "## Git context"@ + "\n\n"@,
        "## Notes\n\n"@ == "## Notes"@ + "\n\n"@,
{
    reveal_strlit("## Overview\n\n");
    reveal_strlit("## Overview");
    reveal_strlit("## Git context\n\n");
    reveal_strlit("## Git context");
    reveal_strlit("## Notes\n\n");
    reveal_strlit("## Notes");
    reveal_strlit("\n\n");
    assert("## Overview\n\n"@ =~= "## Overview"@ + "\n\n"@);
    assert("## Git context\n\n"@ =~= "## Git context"@ + "\n\n"@);
    assert("## Notes\n\n"@ =~= "## Notes"@ + "\n\n"@);
}

/// Each of the parts of what is told is told.
proof fn lemma_told_parts(
    a: Seq<Seq<char>>,
    b: Seq<Seq<char>>,
    c: Seq<Seq<char>>,
    d: Seq<Seq<char>>,
    e: Seq<Seq<char>>,
    f: Seq<Seq<char>>,
    g: Seq<Seq<char>>,
    h: Seq<Seq<char>>,
    i: Seq<Seq<char>>,
    j: Seq<Seq<char>>,
    s: Seq<char>,
    k: int,
)
    requires
        text::in_order(s, a + b + c + d + e + f + g + h + i + j),
    ensures
        0 <= k < b.len() ==> text::occurs(s, b[k]),
        0 <= k < c.len() ==> text::occurs(s, c[k]),
        0 <= k < d.len() ==> text::occurs(s, d[k]),
        0 <= k < e.len() ==> text::occurs(s, e[k]),
        0 <= k < f.len() ==> text::occurs(s, f[k]),
        0 <= k < g.len() ==> text::occurs(s, g[k]),
        0 <= k < h.len() ==> text::occurs(s, h[k]),
        0 <= k < i.len() ==> text::occurs(s, i[k]),
        0 <= k < j.len() ==> text::occurs(s, j[k]),
{
    let all = a + b + c + d + e + f + g + h + i + j;
    let before = a.len();
    if 0 <= k < b.len() {
        text::law_each_piece_occurs(s, all, before + k);
    }
    let before = before + b.len();
    if 0 <= k < c.len() {
        text::law_each_piece_occurs(s, all, before + k);
    }
    let before = before + c.len();
    if 0 <= k < d.len() {
        text::law_each_piece_occurs(s, all, before + k);
    }
    let before = before + d.len();
    if 0 <= k < e.len() {
        text::law_each_piece_occurs(s, all, before + k);
    }
    let before = before + e.len();
    if 0 <= k < f.len() {
        text::law_each_piece_occurs(s, all, before + k);
    }
    let before = before + f.len();
    if 0 <= k < g.len() {
        text::law_each_piece_occurs(s, all, before + k);
    }
    let before = before + g.len();
    if 0 <= k < h.len() {
        text::law_each_piece_occurs(s, all, before + k);
    }
    let before = before + h.len();
    if 0 <= k < i.len() {
        text::law_each_piece_occurs(s, all, before + k);
    }
    let before = before + i.len();
    if 0 <= k < j.len() {
        text::law_each_piece_occurs(s, all, before + k);
    }
}

proof fn lemma_heuristic_tells(
    probe: ProjectProbeView,
    options: ProjectInfoOptionsView,
    k: int,
)
    ensures
        ({
            let s = heuristic(probe, options);
            let commands = text::both(swapped(probe.commands));
            let structure = told_of_structure(probe, options);
            let entries = text::both(probe.entry_points);
            let dependencies = text::both(named_dependencies(probe, options));
            &&& 0 <= k < 6 ==> text::occurs(s, told_in_overview(probe)[k])
            &&& 0 <= k < commands.len() ==> text::occurs(s, commands[k])
            &&& 0 <= k < structure.len() ==> text::occurs(s, structure[k])
            &&& 0 <= k < entries.len() ==> text::occurs(s, entries[k])
            &&& 0 <= k < dependencies.len() ==> text::occurs(s, dependencies[k])
            &&& 0 <= k < probe.conventions.len() ==> text::occurs(s, probe.conventions[k])
            &&& 0 <= k < probe.doc_links.len() ==> text::occurs(s, probe.doc_links[k])
            &&& k == 1 ==> text::occurs(s, probe.git_branch) && text::occurs(s, probe.readme)
        }),
{
    law_heuristic_tells_all(probe, options);
    lemma_told_parts(
        told_at_the_head(probe, options),
        told_in_overview(probe),
        text::both(swapped(probe.commands)),
        told_of_structure(probe, options),
        text::both(probe.entry_points),
        text::both(named_dependencies(probe, options)),
        probe.conventions,
        probe.doc_links,
        told_of_branch(probe),
        seq!["## Notes"@, probe.readme],
        heuristic(probe, options),
        k,
    );
    assert(told_of_branch(probe)[1] == probe.git_branch);
}

/// For every crate, its name, its path and its description occur in the file that is
/// made without a model; and likewise every command, every place where a program begins,
/// every convention and document, and the first dependencies, as many as are wanted.
pub proof fn law_heuristic_names_all(
    probe: ProjectProbeView,
    options: ProjectInfoOptionsView,
    i: int,
)
    ensures
        0 <= i < probe.module_map.len() ==> {
            &&& text::occurs(heuristic(probe, options), probe.module_map[i].name)
            &&& text::occurs(heuristic(probe, options), probe.module_map[i].path)
            &&& text::occurs(heuristic(probe, options), probe.module_map[i].description)
        },
        0 <= i < probe.commands.len() ==> {
            &&& text::occurs(heuristic(probe, options), probe.commands[i].0)
            &&& text::occurs(heuristic(probe, options), probe.commands[i].1)
        },
        0 <= i < probe.entry_points.len() ==> {
            &&& text::occurs(heuristic(probe, options), probe.entry_points[i].0)
            &&& text::occurs(heuristic(probe, options), probe.entry_points[i].1)
        },
        0 <= i < probe.key_dependencies.len() && i < options.max_dependencies ==> {
            &&& text::occurs(heuristic(probe, options), probe.key_dependencies[i].0)
            &&& text::occurs(heuristic(probe, options), probe.key_dependencies[i].1)
        },
        0 <= i < probe.conventions.len() ==> text::occurs(
            heuristic(probe, options),
            probe.conventions[i],
        ),
        0 <= i < probe.doc_links.len() ==> text::occurs(
            heuristic(probe, options),
            probe.doc_links[i],
        ),
        text::occurs(heuristic(probe, options), probe.readme),
        text::occurs(heuristic(probe, options), probe.git_branch),
        text::occurs(heuristic(probe, options), probe.description),
        text::occurs(heuristic(probe, options), probe.version),
{
    lemma_heuristic_tells(probe, options, 1);
    lemma_heuristic_tells(probe, options, 2);
    lemma_heuristic_tells(probe, options, 5);
    lemma_heuristic_tells(probe, options, i);
    lemma_heuristic_tells(probe, options, 2 * i);
    lemma_heuristic_tells(probe, options, 2 * i + 1);
    text::lemma_both(swapped(probe.commands), i);
    text::lemma_both(probe.entry_points, i);
    text::lemma_both(named_dependencies(probe, options), i);
    if 0 <= i < probe.module_map.len() {
        lemma_told_of_modules(probe.module_map, i);
        let k = told_before(probe.module_map, i);
        lemma_heuristic_tells(probe, options, k);
        lemma_heuristic_tells(probe, options, k + 1);
        lemma_heuristic_tells(probe, options, k + 2);
    }
}

/// How many pieces are told before those of the crate at a position.
spec fn told_before(modules: Seq<ModuleEntryView>, i: int) -> int {
    told_of_modules(modules.take(i)).len() as int
}

proof fn lemma_told_of_modules(modules: Seq<ModuleEntryView>, i: int)
    requires
        0 <= i < modules.len(),
    ensures
        ({
            let k = told_before(modules, i);
            let all = told_of_modules(modules);
            &&& 0 <= k && k + 2 < all.len()
            &&& all[k] == modules[i].name
            &&& all[k + 1] == modules[i].path
            &&& all[k + 2] == modules[i].description
        }),
    decreases modules.len(),
{
    let front = modules.drop_last();
    let lists = modules.map_values(|module: ModuleEntryView| told_of_module(module));
    assert(lists.drop_last() =~= front.map_values(
        |module: ModuleEntryView| told_of_module(module),
    ));
    if i < front.len() {
        lemma_told_of_modules(front, i);
        assert(front.take(i) =~= modules.take(i));
    } else {
        assert(modules.take(i) =~= front);
        assert(told_of_module(modules.last())[0] == modules[i].name);
        assert(told_of_module(modules.last())[1] == modules[i].path);
        assert(told_of_module(modules.last())[2] == modules[i].description);
    }
}

// ─── The answer of a model ──────────────────────────────────────────────────

/// What stands behind the first line.
pub open spec fn behind_first_line(s: Seq<char>) -> Seq<char> {
    let n = text::before_first(s, '\n') as int;
    if n < s.len() {
        s.skip(n + 1)
    } else {
        s
    }
}

/// An answer without the fence around it: without the marks it begins with and
/// the rest of their line, and without the marks it ends with.
pub open spec fn unfenced(answer: Seq<char>) -> Seq<char> {
    let trimmed = text::trimmed(answer);
    if "```"@.is_prefix_of(trimmed) {
        text::trimmed_end(
            text::without_suffixes(
                behind_first_line(text::without_prefixes(trimmed, "```"@)),
                "```"@,
            ),
        )
    } else {
        trimmed
    }
}

/// An answer without the fence around it.
pub fn strip_code_fence(answer: &str) -> (r: String)
    ensures
        r@ == unfenced(answer@),
{
    let trimmed = text::trim(answer);
    if !text::starts_with(trimmed.as_str(), "```") {
        return trimmed;
    }
    proof {
        reveal_strlit("```");
    }
    let opened = text::trim_start_matches(trimmed.as_str(), "```");
    let v = text::chars(opened.as_str());
    let mut n: usize = 0;
    while n < v.len() && v[n] != '\n'
        invariant
            n <= v.len(),
            v@ == opened@,
            forall|k: int| 0 <= k < n ==> #[trigger] v@[k] != '\n',
        decreases v.len() - n,
    {
        n = n + 1;
    }
    proof {
        text::lemma_before_first(opened@, '\n', n as int);
    }
    let body = if n < v.len() {
        text::substring(&v, n + 1, v.len())
    } else {
        opened.clone()
    };
    assert(body@ =~= behind_first_line(opened@));
    let closed = text::trim_end_matches(body.as_str(), "```");
    text::trim_end(closed.as_str())
}

/// What the file holds, and whether a model wrote it: the answer of the model
/// without its fence, or else, where there is no answer or it is blank, what is
/// made without a model.
pub open spec fn chosen_content(
    answer: Option<Seq<char>>,
    probe: ProjectProbeView,
    options: ProjectInfoOptionsView,
) -> (Seq<char>, bool) {
    let written = match answer {
        Some(answer) => text::trimmed(unfenced(answer)),
        None => Seq::empty(),
    };
    if written.len() > 0 {
        (written, true)
    } else {
        (heuristic(probe, options), false)
    }
}

/// What the file holds, and whether a model wrote it.
pub fn choose_content(
    answer: Option<&str>,
    probe: &ProjectProbe,
    options: &ProjectInfoOptions,
) -> (r: (String, bool))
    ensures
        (r.0@, r.1) == chosen_content(
            match answer {
                Some(answer) => Some(answer@),
                None => None,
            },
            probe.deep_view(),
            options.deep_view(),
        ),
{
    let written = match answer {
        Some(answer) => text::trim(strip_code_fence(answer).as_str()),
        None => String::new(),
    };
    if is_empty(&written) {
        (compose_heuristic(probe, options), false)
    } else {
        (written, true)
    }
}

/// A file is never empty: whatever the model answers, something is written.
pub proof fn law_content_is_never_empty(
    answer: Option<Seq<char>>,
    probe: ProjectProbeView,
    options: ProjectInfoOptionsView,
)
    ensures
        chosen_content(answer, probe, options).0.len() > 0,
{
    reveal_strlit("# ");
    assert(heuristic(probe, options).len() >= "# "@.len());
}

/// The name of a project is that in its manifest, or else that of its directory, or else a
/// word for any; its language is that of its build system; and all else is what its
/// manifest and the rest of it say.
pub proof fn law_probe_holds_what_was_found(
    build_system: Option<BuildSystem>,
    facts: ManifestFactsView,
    signals: ProjectSignalsView,
)
    ensures
        ({
            let probe = probe_of(build_system, facts, signals);
            &&& facts.name.len() > 0 ==> probe.name == facts.name
            &&& facts.name.len() == 0 ==> (signals.dir_name matches Some(name) ==> probe.name
                == name)
            &&& facts.name.len() == 0 && signals.dir_name is None ==> probe.name == "project"@
            &&& probe.project_dir == signals.project_dir
            &&& probe.version == facts.version
            &&& probe.description == facts.description
            &&& probe.build_system == build_system
            &&& build_system matches Some(system) ==> probe.language == system.spec_language()
            &&& build_system is None ==> probe.language.len() == 0
            &&& probe.commands == facts.commands
            &&& probe.key_dependencies == facts.key_dependencies
            &&& probe.conventions == signals.conventions
            &&& probe.module_map == signals.module_map
            &&& probe.entry_points == signals.entry_points
            &&& probe.readme == signals.readme
            &&& probe.existing_instructions == signals.existing_instructions
            &&& probe.doc_links == signals.doc_links
            &&& probe.file_tree == signals.file_tree
            &&& probe.git_branch == signals.git_branch
            &&& probe.git_commits == signals.git_commits
        }),
{
}

/// What becomes of a file is said of the file, under the name of its kind, with the content
/// that was made and who made it; it is written over where it is there and that is wanted.
pub proof fn law_generated_file(
    path: Seq<char>,
    options: ProjectInfoOptionsView,
    content: Seq<char>,
    llm_generated: bool,
    exists: bool,
)
    ensures
        ({
            let r = generated(path, options, content, llm_generated, exists);
            &&& r.path == path
            &&& r.filename == options.format.filename()
            &&& r.content == content
            &&& r.llm_generated == llm_generated
            &&& r.overwritten <==> exists && options.force
        }),
{
}

/// Where there is no answer, or one that is blank, the file is the one that is made without
/// a model; an answer without a fence is taken without the white space around it.
pub proof fn law_answer_is_taken(
    answer: Seq<char>,
    probe: ProjectProbeView,
    options: ProjectInfoOptionsView,
)
    ensures
        chosen_content(None, probe, options) == (heuristic(probe, options), false),
        text::trimmed(answer).len() == 0 ==> chosen_content(Some(answer), probe, options) == (
            heuristic(probe, options),
            false,
        ),
        text::trimmed(answer).len() > 0 && text::trimmed(answer)[0] != '`' ==> chosen_content(
            Some(answer),
            probe,
            options,
        ) == (text::trimmed(answer), true),
{
    reveal_strlit("```");
    let bare = text::trimmed(answer);
    if "```"@.is_prefix_of(bare) {
        assert(bare[0] == bare.take(3)[0]);
        assert("```"@[0] == '`');
    }
    text::lemma_trimmed_twice(answer);
}

/// The fence around an answer is taken off: the marks with the word behind them, and the
/// marks at the end. What stands between them stays, but for white space at its end.
pub proof fn law_fence_is_taken_off(word: Seq<char>, body: Seq<char>)
    requires
        !word.contains('\n'),
        word.len() == 0 || word[0] != '`',
    ensures
        unfenced("```"@ + word + "\n"@ + body + "\n```"@) == text::trimmed_end(body),
{
    reveal_strlit("```");
    reveal_strlit("\n");
    reveal_strlit("\n```");
    let fence = "```"@;
    let answer = fence + word + "\n"@ + body + "\n```"@;
    let n = answer.len() as int;
    assert(fence.len() == 3 && fence[0] == '`' && fence[1] == '`' && fence[2] == '`');
    assert("\n```"@.len() == 4 && "\n```"@[0] == '\n' && "\n```"@[3] == '`');
    assert(answer[0] == '`' && answer.last() == '`');
    assert(text::trimmed(answer) == answer);
    assert(fence.is_prefix_of(answer)) by {
        assert(fence =~= answer.take(3));
    }
    let opened = word + "\n"@ + body + "\n```"@;
    assert(answer.skip(3) =~= opened);
    assert(opened[0] != '`') by {
        if word.len() == 0 {
            assert(opened[0] == "\n"@[0]);
        }
    }
    assert(!fence.is_prefix_of(opened)) by {
        if fence.is_prefix_of(opened) {
            assert(opened[0] == opened.take(3)[0]);
        }
    }
    reveal_with_fuel(text::without_prefixes, 3);
    assert(text::without_prefixes(answer, fence) == opened);
    assert forall|k: int| 0 <= k < word.len() implies #[trigger] opened[k] != '\n' by {
        assert(word[k] == opened[k]);
        assert(word.contains(word[k]));
    }
    assert(opened[word.len() as int] == '\n');
    text::lemma_before_first(opened, '\n', word.len() as int);
    let rest = body + "\n```"@;
    assert(opened.skip(word.len() as int + 1) =~= rest);
    assert(behind_first_line(opened) == rest);
    let closed = body + "\n"@;
    assert(rest.take(rest.len() - 3) =~= closed);
    assert(fence.is_suffix_of(rest)) by {
        assert(fence =~= rest.skip(rest.len() - 3));
    }
    assert(!fence.is_suffix_of(closed)) by {
        if fence.is_suffix_of(closed) {
            assert(closed.last() == closed.skip(closed.len() - 3).last());
            assert(closed.last() == '\n');
        }
    }
    reveal_with_fuel(text::without_suffixes, 3);
    assert(rest.subrange(0, rest.len() - 3) =~= closed);
    assert(text::without_suffixes(rest, fence) == closed);
    assert(closed.last() == '\n');
    assert(closed.drop_last() =~= body);
}

/// What a model is told of a crate.
pub open spec fn facts_of_module(module: ModuleEntryView) -> Seq<Seq<char>> {
    seq![module.name, module.path, module.description] + (if module.doc.len() > 0 {
        at_most(text::line_seq(module.doc), 8)
    } else {
        Seq::empty()
    }) + module.modules
}

/// What a model is told of the crates.
pub open spec fn facts_of_modules(modules: Seq<ModuleEntryView>) -> Seq<Seq<char>> {
    modules.map_values(|module: ModuleEntryView| facts_of_module(module)).flatten_alt()
}

/// A text, where it is not blank.
pub open spec fn unless_blank(s: Seq<char>) -> Seq<Seq<char>> {
    if text::trimmed(s).len() == 0 {
        Seq::empty()
    } else {
        seq![s]
    }
}

/// What a model is told of a project, in this order.
pub open spec fn facts_told(probe: ProjectProbeView) -> Seq<Seq<char>> {
    seq![
        probe.name,
        probe.version,
        probe.language,
        system_label(probe.build_system),
        probe.description,
        probe.project_dir,
    ] + text::both(probe.commands) + facts_of_modules(probe.module_map) + text::both(
        probe.entry_points,
    ) + text::both(probe.key_dependencies) + probe.conventions + unless_blank(
        project_probe::cut(probe.readme, project_probe::README_CAP as nat),
    ) + (match probe.existing_instructions {
        Some((name, content)) => unless_blank(
            project_probe::cut(content, EXISTING_CAP as nat),
        ),
        None => Seq::empty(),
    }) + probe.doc_links + unless_blank(
        project_probe::cut(probe.file_tree, TREE_CAP as nat),
    ) + seq![probe.git_branch, probe.git_commits]
}

proof fn lemma_module_facts(module: ModuleEntryView)
    ensures
        text::in_order(module_lines(module), facts_of_module(module)),
{
    let described = if module.description.len() > 0 {
        " — "@ + module.description
    } else {
        Seq::empty()
    };
    let lines = if module.doc.len() > 0 {
        at_most(text::line_seq(module.doc), 8)
    } else {
        Seq::empty()
    };
    let documented = if module.doc.len() > 0 {
        text::flattened(
            text::wrapped(text::first_lines(text::line_seq(module.doc), 8), "    "@, "\n"@),
        )
    } else {
        Seq::empty()
    };
    let listed = if module.modules.len() > 0 {
        "    modules: "@ + text::joined(module.modules, ", "@) + "\n"@
    } else {
        Seq::empty()
    };
    lemma_optional_told(" — "@, module.description, Seq::empty());
    assert(" — "@ + module.description + Seq::<char>::empty() =~= " — "@ + module.description);
    text::lemma_wrapped_in_order(lines, "    "@, "\n"@);
    text::lemma_joined_in_order(module.modules, ", "@);
    lemma_headed_told(
        "    modules: "@,
        text::joined(module.modules, ", "@),
        module.modules,
        "\n"@,
    );
    let s1 = "- "@;
    let p1 = Seq::<Seq<char>>::empty();
    assert(text::in_order(s1, p1));
    let s2 = s1 + module.name;
    let p2 = p1.push(module.name);
    text::lemma_in_order_piece(s1, p1, module.name);
    let s3 = s2 + " ("@;
    let p3 = p2;
    text::lemma_in_order_before(s2, p2, " ("@);
    let s4 = s3 + module.path;
    let p4 = p3.push(module.path);
    text::lemma_in_order_piece(s3, p3, module.path);
    let s5 = s4 + ")"@;
    let p5 = p4;
    text::lemma_in_order_before(s4, p4, ")"@);
    let s6 = s5 + described;
    let p6 = p5 + seq![module.description];
    text::lemma_in_order_add(s5, p5, described, seq![module.description]);
    let s7 = s6 + "\n"@;
    let p7 = p6;
    text::lemma_in_order_before(s6, p6, "\n"@);
    let s8 = s7 + documented;
    let p8 = p7 + lines;
    text::lemma_in_order_add(s7, p7, documented, lines);
    let s9 = s8 + listed;
    let p9 = p8 + module.modules;
    text::lemma_in_order_add(s8, p8, listed, module.modules);
    assert(s9 =~= module_lines(module));
    assert(p9 =~= facts_of_module(module));
}

proof fn lemma_modules_facts(modules: Seq<ModuleEntryView>)
    ensures
        text::in_order(module_map_lines(modules), facts_of_modules(modules)),
        modules.len() > 0 ==> "- "@.is_prefix_of(module_map_lines(modules)),
    decreases modules.len(),
{
    if modules.len() > 0 {
        let front = modules.drop_last();
        let lists = modules.map_values(|module: ModuleEntryView| facts_of_module(module));
        let whole = module_map_lines(modules);
        lemma_modules_facts(front);
        lemma_module_facts(modules.last());
        text::lemma_in_order_add(
            module_map_lines(front),
            facts_of_modules(front),
            module_lines(modules.last()),
            facts_of_module(modules.last()),
        );
        assert(lists.drop_last() =~= front.map_values(
            |module: ModuleEntryView| facts_of_module(module),
        ));
        let n = "- "@.len() as int;
        if front.len() == 0 {
            assert(module_map_lines(front) =~= Seq::empty());
            assert(whole =~= module_lines(modules.last()));
            assert("- "@ =~= whole.take(n));
        } else {
            assert(module_map_lines(front).take(n) =~= "- "@);
            assert("- "@ =~= whole.take(n));
        }
    }
}

proof fn lemma_section_told(label: Seq<char>, body: Seq<char>, pieces: Seq<Seq<char>>)
    requires
        text::in_order(body, pieces),
        text::trimmed(body).len() > 0,
    ensures
        text::in_order(section(label, body), pieces),
{
    lemma_headed_told("## "@ + label + "\n"@, body, pieces, "\n\n"@);
}

/// A body that begins with something that is not white space is not blank.
proof fn lemma_begins_with(body: Seq<char>, head: Seq<char>)
    requires
        head.is_prefix_of(body),
        head.len() > 0,
        !text::white_space(head[0]),
    ensures
        text::trimmed(body).len() > 0,
{
    text::lemma_blank(body);
    assert(body[0] == body.take(head.len() as int)[0]);
}

proof fn lemma_joined_begins(parts: Seq<Seq<char>>, sep: Seq<char>)
    requires
        parts.len() > 0,
    ensures
        parts[0].is_prefix_of(text::joined(parts, sep)),
    decreases parts.len(),
{
    let whole = text::joined(parts, sep);
    let n = parts[0].len() as int;
    if parts.len() > 1 {
        lemma_joined_begins(parts.drop_last(), sep);
        let before = text::joined(parts.drop_last(), sep);
        assert(before.take(n) =~= parts[0]);
        assert(whole.take(n) =~= parts[0]);
    } else {
        assert(whole.take(n) =~= parts[0]);
    }
}

/// A list of items that begin with a mark is not blank.
proof fn lemma_marked_list(parts: Seq<Seq<char>>, sep: Seq<char>, mark: Seq<char>)
    requires
        parts.len() > 0,
        mark.is_prefix_of(parts[0]),
        mark.len() > 0,
        !text::white_space(mark[0]),
    ensures
        text::trimmed(text::joined(parts, sep)).len() > 0,
{
    let whole = text::joined(parts, sep);
    lemma_joined_begins(parts, sep);
    assert(mark.is_prefix_of(whole)) by {
        let n = mark.len() as int;
        assert(parts[0].take(n) =~= mark);
        assert(whole.take(parts[0].len() as int) =~= parts[0]);
        assert(whole.take(n) =~= whole.take(parts[0].len() as int).take(n));
    }
    lemma_begins_with(whole, mark);
}

proof fn lemma_prefixed_in_order(items: Seq<Seq<char>>, prefix: Seq<char>, sep: Seq<char>)
    ensures
        text::in_order(text::joined(text::prefixed(items, prefix), sep), items),
    decreases items.len(),
{
    let parts = text::prefixed(items, prefix);
    if items.len() > 0 {
        let front = items.drop_last();
        let item = items.last();
        lemma_prefixed_in_order(front, prefix, sep);
        assert(parts.drop_last() =~= text::prefixed(front, prefix));
        let start = if front.len() == 0 {
            Seq::empty()
        } else {
            text::joined(parts.drop_last(), sep) + sep
        };
        if front.len() > 0 {
            text::lemma_in_order_before(text::joined(parts.drop_last(), sep), front, sep);
        }
        text::lemma_in_order_before(start, front, prefix);
        text::lemma_in_order_piece(start + prefix, front, item);
        assert(front.push(item) =~= items);
        assert(start + prefix + item =~= text::joined(parts, sep));
    }
}

proof fn lemma_blank_section(label: Seq<char>, body: Seq<char>)
    ensures
        text::in_order(section(label, body), unless_blank(body)),
{
    if text::trimmed(body).len() > 0 {
        text::lemma_in_order_between(Seq::empty(), body, Seq::empty());
        assert(Seq::<char>::empty() + body + Seq::<char>::empty() =~= body);
        lemma_section_told(label, body, seq![body]);
    }
}

proof fn lemma_marks()
    ensures
        "- "@.len() > 0 && !text::white_space("- "@[0]),
        "// "@.len() > 0 && !text::white_space("// "@[0]),
        "name: "@.len() > 0 && !text::white_space("name: "@[0]),
        "branch: "@.len() > 0 && !text::white_space("branch: "@[0]),
{
    reveal_strlit("- ");
    reveal_strlit("// ");
    reveal_strlit("name: ");
    reveal_strlit("branch: ");
}

proof fn lemma_project_facts(probe: ProjectProbeView)
    ensures
        text::in_order(
            section("Project"@, project_lines(probe)),
            seq![
                probe.name,
                probe.version,
                probe.language,
                system_label(probe.build_system),
                probe.description,
                probe.project_dir,
            ],
        ),
{
    let label = system_label(probe.build_system);
    let s1 = "name: "@;
    let p1 = Seq::<Seq<char>>::empty();
    assert(text::in_order(s1, p1));
    let s2 = s1 + probe.name;
    let p2 = p1.push(probe.name);
    text::lemma_in_order_piece(s1, p1, probe.name);
    let s3 = s2 + "\nversion: "@;
    let p3 = p2;
    text::lemma_in_order_before(s2, p2, "\nversion: "@);
    let s4 = s3 + probe.version;
    let p4 = p3.push(probe.version);
    text::lemma_in_order_piece(s3, p3, probe.version);
    let s5 = s4 + "\nlanguage: "@;
    let p5 = p4;
    text::lemma_in_order_before(s4, p4, "\nlanguage: "@);
    let s6 = s5 + probe.language;
    let p6 = p5.push(probe.language);
    text::lemma_in_order_piece(s5, p5, probe.language);
    let s7 = s6 + "\nbuild_system: "@;
    let p7 = p6;
    text::lemma_in_order_before(s6, p6, "\nbuild_system: "@);
    let s8 = s7 + label;
    let p8 = p7.push(label);
    text::lemma_in_order_piece(s7, p7, label);
    let s9 = s8 + "\ndescription: "@;
    let p9 = p8;
    text::lemma_in_order_before(s8, p8, "\ndescription: "@);
    let s10 = s9 + probe.description;
    let p10 = p9.push(probe.description);
    text::lemma_in_order_piece(s9, p9, probe.description);
    let s11 = s10 + "\nroot: "@;
    let p11 = p10;
    text::lemma_in_order_before(s10, p10, "\nroot: "@);
    let s12 = s11 + probe.project_dir;
    let p12 = p11.push(probe.project_dir);
    text::lemma_in_order_piece(s11, p11, probe.project_dir);
    let pieces = seq![
        probe.name,
        probe.version,
        probe.language,
        label,
        probe.description,
        probe.project_dir,
    ];
    assert(s12 =~= project_lines(probe));
    assert(p12 =~= pieces);
    lemma_marks();
    assert("name: "@ =~= project_lines(probe).take("name: "@.len() as int));
    lemma_begins_with(project_lines(probe), "name: "@);
    lemma_section_told("Project"@, project_lines(probe), pieces);
}

proof fn lemma_branch_facts(probe: ProjectProbeView)
    ensures
        text::in_order(
            section(
                "Git"@,
                "branch: "@ + probe.git_branch + "\nrecent commits:\n"@ + probe.git_commits,
            ),
            seq![probe.git_branch, probe.git_commits],
        ),
{
    let s1 = "branch: "@;
    let p1 = Seq::<Seq<char>>::empty();
    assert(text::in_order(s1, p1));
    let s2 = s1 + probe.git_branch;
    let p2 = p1.push(probe.git_branch);
    text::lemma_in_order_piece(s1, p1, probe.git_branch);
    let s3 = s2 + "\nrecent commits:\n"@;
    let p3 = p2;
    text::lemma_in_order_before(s2, p2, "\nrecent commits:\n"@);
    let s4 = s3 + probe.git_commits;
    let p4 = p3.push(probe.git_commits);
    text::lemma_in_order_piece(s3, p3, probe.git_commits);
    let pieces = seq![probe.git_branch, probe.git_commits];
    assert(p4 =~= pieces);
    lemma_marks();
    assert("branch: "@ =~= s4.take("branch: "@.len() as int));
    lemma_begins_with(s4, "branch: "@);
    lemma_section_told("Git"@, s4, pieces);
}

proof fn lemma_paired_section(
    label: Seq<char>,
    pairs: Seq<(Seq<char>, Seq<char>)>,
    before: Seq<char>,
    between: Seq<char>,
    sep: Seq<char>,
)
    requires
        before.len() > 0,
        !text::white_space(before[0]),
    ensures
        text::in_order(
            section_if(
                pairs.len() > 0,
                label,
                text::joined(text::paired(pairs, before, between, Seq::empty()), sep),
            ),
            text::both(pairs),
        ),
{
    if pairs.len() > 0 {
        let parts = text::paired(pairs, before, between, Seq::empty());
        text::lemma_joined_pairs_in_order(pairs, before, between, Seq::empty(), sep);
        assert(before =~= parts[0].take(before.len() as int));
        lemma_marked_list(parts, sep, before);
        lemma_section_told(label, text::joined(parts, sep), text::both(pairs));
    }
}

proof fn lemma_prefixed_section(label: Seq<char>, items: Seq<Seq<char>>)
    ensures
        text::in_order(
            section_if(
                items.len() > 0,
                label,
                text::joined(text::prefixed(items, "- "@), "\n"@),
            ),
            items,
        ),
{
    if items.len() > 0 {
        let parts = text::prefixed(items, "- "@);
        lemma_marks();
        lemma_prefixed_in_order(items, "- "@, "\n"@);
        assert("- "@ =~= parts[0].take("- "@.len() as int));
        lemma_marked_list(parts, "\n"@, "- "@);
        lemma_section_told(label, text::joined(parts, "\n"@), items);
    }
}

proof fn lemma_cut_section(label: Seq<char>, s: Seq<char>, max: nat)
    ensures
        text::in_order(
            section_if(s.len() > 0, label, project_probe::cut(s, max)),
            unless_blank(project_probe::cut(s, max)),
        ),
{
    lemma_blank_section(label, project_probe::cut(s, max));
    if s.len() == 0 {
        assert(s =~= Seq::empty());
        reveal_with_fuel(text::byte_len, 1);
        assert(project_probe::cut(s, max) == s);
        text::lemma_blank(s);
    }
}

/// What stands in order in each of eleven parts does so in all of them together.
proof fn lemma_eleven_in_order(
    a: Seq<char>,
    of_a: Seq<Seq<char>>,
    b: Seq<char>,
    of_b: Seq<Seq<char>>,
    c: Seq<char>,
    of_c: Seq<Seq<char>>,
    d: Seq<char>,
    of_d: Seq<Seq<char>>,
    e: Seq<char>,
    of_e: Seq<Seq<char>>,
    f: Seq<char>,
    of_f: Seq<Seq<char>>,
    g: Seq<char>,
    of_g: Seq<Seq<char>>,
    h: Seq<char>,
    of_h: Seq<Seq<char>>,
    i: Seq<char>,
    of_i: Seq<Seq<char>>,
    j: Seq<char>,
    of_j: Seq<Seq<char>>,
    k: Seq<char>,
    of_k: Seq<Seq<char>>,
)
    requires
        text::in_order(a, of_a),
        text::in_order(b, of_b),
        text::in_order(c, of_c),
        text::in_order(d, of_d),
        text::in_order(e, of_e),
        text::in_order(f, of_f),
        text::in_order(g, of_g),
        text::in_order(h, of_h),
        text::in_order(i, of_i),
        text::in_order(j, of_j),
        text::in_order(k, of_k),
    ensures
        text::in_order(
            a + b + c + d + e + f + g + h + i + j + k,
            of_a + of_b + of_c + of_d + of_e + of_f + of_g + of_h + of_i + of_j + of_k,
        ),
{
    text::lemma_in_order_add(a, of_a, b, of_b);
    text::lemma_in_order_add(a + b, of_a + of_b, c, of_c);
    text::lemma_in_order_add(a + b + c, of_a + of_b + of_c, d, of_d);
    text::lemma_in_order_add(a + b + c + d, of_a + of_b + of_c + of_d, e, of_e);
    text::lemma_in_order_add(a + b + c + d + e, of_a + of_b + of_c + of_d + of_e, f, of_f);
    text::lemma_in_order_add(
        a + b + c + d + e + f,
        of_a + of_b + of_c + of_d + of_e + of_f,
        g,
        of_g,
    );
    text::lemma_in_order_add(
        a + b + c + d + e + f + g,
        of_a + of_b + of_c + of_d + of_e + of_f + of_g,
        h,
        of_h,
    );
    text::lemma_in_order_add(
        a + b + c + d + e + f + g + h,
        of_a + of_b + of_c + of_d + of_e + of_f + of_g + of_h,
        i,
        of_i,
    );
    text::lemma_in_order_add(
        a + b + c + d + e + f + g + h + i,
        of_a + of_b + of_c + of_d + of_e + of_f + of_g + of_h + of_i,
        j,
        of_j,
    );
    text::lemma_in_order_add(
        a + b + c + d + e + f + g + h + i + j,
        of_a + of_b + of_c + of_d + of_e + of_f + of_g + of_h + of_i + of_j,
        k,
        of_k,
    );
}

proof fn lemma_module_section(modules: Seq<ModuleEntryView>)
    ensures
        text::in_order(
            section_if(
                modules.len() > 0,
                "Module map (architecture)"@,
                module_map_lines(modules),
            ),
            facts_of_modules(modules),
        ),
{
    lemma_marks();
    lemma_modules_facts(modules);
    if modules.len() > 0 {
        lemma_begins_with(module_map_lines(modules), "- "@);
        lemma_section_told(
            "Module map (architecture)"@,
            module_map_lines(modules),
            facts_of_modules(modules),
        );
    }
}

proof fn lemma_dependency_section(dependencies: Seq<(Seq<char>, Seq<char>)>)
    ensures
        text::in_order(
            section_if(
                dependencies.len() > 0,
                "Key dependencies"@,
                text::joined(dependency_items(dependencies), "\n"@),
            ),
            text::both(dependencies),
        ),
{
    lemma_marks();
    let items = dependency_items(dependencies);
    lemma_dependencies_told(dependencies);
    if dependencies.len() > 0 {
        assert("- "@ =~= items[0].take("- "@.len() as int));
        lemma_marked_list(items, "\n"@, "- "@);
        lemma_section_told(
            "Key dependencies"@,
            text::joined(items, "\n"@),
            text::both(dependencies),
        );
    }
}

/// The facts hold all that was found out of a project, in order: what it is, every
/// command, every crate, every place where a program begins, every dependency, convention
/// and document, what it says of itself, the instructions that are there, its files and its
/// branch, each of them cut where it is long.
#[verifier::rlimit(50)]
#[verifier::spinoff_prover]
pub proof fn law_facts_tell_all(probe: ProjectProbeView)
    ensures
        text::in_order(all_facts(probe), facts_told(probe)),
{
    lemma_marks();
    lemma_project_facts(probe);
    lemma_paired_section("Commands"@, probe.commands, "- "@, ": "@, "\n"@);
    lemma_module_section(probe.module_map);
    lemma_paired_section(
        "Entry-point file excerpts"@,
        probe.entry_points,
        "// "@,
        " \n"@,
        "\n\n"@,
    );
    let items = dependency_items(probe.key_dependencies);
    lemma_dependency_section(probe.key_dependencies);
    lemma_prefixed_section("Conventions"@, probe.conventions);
    lemma_cut_section("README"@, probe.readme, project_probe::README_CAP as nat);
    let existing = match probe.existing_instructions {
        Some((name, content)) => section(
            "Existing instruction file ("@ + name + ")"@,
            project_probe::cut(content, EXISTING_CAP as nat),
        ),
        None => Seq::empty(),
    };
    let existing_told = match probe.existing_instructions {
        Some((name, content)) => unless_blank(
            project_probe::cut(content, EXISTING_CAP as nat),
        ),
        None => Seq::empty(),
    };
    if let Some((name, content)) = probe.existing_instructions {
        lemma_blank_section(
            "Existing instruction file ("@ + name + ")"@,
            project_probe::cut(content, EXISTING_CAP as nat),
        );
    }
    lemma_prefixed_section("Supplementary docs (link, don't embed)"@, probe.doc_links);
    lemma_cut_section("File tree (top levels)"@, probe.file_tree, TREE_CAP as nat);
    lemma_branch_facts(probe);
    lemma_eleven_in_order(
        section("Project"@, project_lines(probe)),
        seq![
            probe.name,
            probe.version,
            probe.language,
            system_label(probe.build_system),
            probe.description,
            probe.project_dir,
        ],
        section_if(
            probe.commands.len() > 0,
            "Commands"@,
            text::joined(text::paired(probe.commands, "- "@, ": "@, Seq::empty()), "\n"@),
        ),
        text::both(probe.commands),
        section_if(
            probe.module_map.len() > 0,
            "Module map (architecture)"@,
            module_map_lines(probe.module_map),
        ),
        facts_of_modules(probe.module_map),
        section_if(
            probe.entry_points.len() > 0,
            "Entry-point file excerpts"@,
            text::joined(text::paired(probe.entry_points, "// "@, " \n"@, Seq::empty()), "\n\n"@),
        ),
        text::both(probe.entry_points),
        section_if(
            probe.key_dependencies.len() > 0,
            "Key dependencies"@,
            text::joined(items, "\n"@),
        ),
        text::both(probe.key_dependencies),
        section_if(
            probe.conventions.len() > 0,
            "Conventions"@,
            text::joined(text::prefixed(probe.conventions, "- "@), "\n"@),
        ),
        probe.conventions,
        section_if(
            probe.readme.len() > 0,
            "README"@,
            project_probe::cut(probe.readme, project_probe::README_CAP as nat),
        ),
        unless_blank(project_probe::cut(probe.readme, project_probe::README_CAP as nat)),
        existing,
        existing_told,
        section_if(
            probe.doc_links.len() > 0,
            "Supplementary docs (link, don't embed)"@,
            text::joined(text::prefixed(probe.doc_links, "- "@), "\n"@),
        ),
        probe.doc_links,
        section_if(
            probe.file_tree.len() > 0,
            "File tree (top levels)"@,
            project_probe::cut(probe.file_tree, TREE_CAP as nat),
        ),
        unless_blank(project_probe::cut(probe.file_tree, TREE_CAP as nat)),
        section(
            "Git"@,
            "branch: "@ + probe.git_branch + "\nrecent commits:\n"@ + probe.git_commits,
        ),
        seq![probe.git_branch, probe.git_commits],
    );
}

/// The facts that a model is given are all of them where they fit, and else begin as all of
/// them do.
pub proof fn law_facts_are_cut_at_the_end(probe: ProjectProbeView)
    ensures
        text::byte_len(all_facts(probe)) <= CONTEXT_BLOCK_CAP ==> facts_block(probe) == all_facts(
            probe,
        ),
        text::byte_len(all_facts(probe)) > CONTEXT_BLOCK_CAP ==> exists|kept: Seq<char>| #[trigger]
            kept.is_prefix_of(all_facts(probe)) && facts_block(probe) == kept
                + project_probe::CUT_MARK@ && text::byte_len(kept) >= CONTEXT_BLOCK_CAP,
{
    project_probe::law_cut_is_bounded(all_facts(probe), CONTEXT_BLOCK_CAP as nat);
}

} // verus!
