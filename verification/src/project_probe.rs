//! What the files of a project say of it.
//!
//! The caller reads the files and hands over their texts; what they mean is
//! found out here.

use vstd::prelude::*;
use crate::builtin_sources;
use crate::collections;
use crate::data::{self, DataValue, DataView};
use crate::duplicate::Duplicate;
use crate::patterns;
use crate::repo_map;
use crate::text;

verus! {

/// How many dependencies are listed at most.
pub const PROBE_MAX_DEPS: usize = 60;

/// How many bytes of a readme are kept.
pub const README_CAP: usize = 6000;

/// How many bytes of the documentation of a crate are kept.
pub const CRATE_DOC_CAP: usize = 800;

/// How many lines of documentation are read.
pub const DOC_LINES: usize = 60;

/// How many lines of a file are shown.
pub const EXCERPT_LINES: usize = 40;

/// What stands behind a text that was cut.
pub const CUT_MARK: &'static str = "… [truncated]";

/// A text of at most `max` bytes as it is; a longer one cut where it reaches
/// `max` bytes, at the end of a character, with a mark behind it.
pub open spec fn cut(s: Seq<char>, max: nat) -> Seq<char> {
    if text::byte_len(s) <= max {
        s
    } else {
        s.take(text::chars_reaching(s, max) as int) + CUT_MARK@
    }
}

/// A text of at most `max` bytes as it is; a longer one cut where it reaches
/// `max` bytes, at the end of a character, with a mark behind it.
pub fn truncate_chars(s: &str, max: usize) -> (r: String)
    ensures
        r@ == cut(s@, max as nat),
{
    if text::len_bytes(s) <= max {
        return s.to_string();
    }
    let mut r = text::take_reaching(s, max);
    r.push_str(CUT_MARK);
    r
}

/// A text that was cut is at most a few bytes longer than the bound, and begins
/// as the whole text does.
pub proof fn law_cut_is_bounded(s: Seq<char>, max: nat)
    ensures
        text::byte_len(cut(s, max)) <= max + 18,
        text::byte_len(s) <= max ==> cut(s, max) == s,
        text::byte_len(s) > max ==> exists|kept: Seq<char>| #[trigger]
            kept.is_prefix_of(s) && cut(s, max) == kept + CUT_MARK@ && text::byte_len(kept) >= max,
{
    if text::byte_len(s) > max {
        text::lemma_reaching_bytes(s, max);
        let kept = s.take(text::chars_reaching(s, max) as int);
        assert(kept.is_prefix_of(s));
        text::lemma_byte_len_add(kept, CUT_MARK@);
        reveal_strlit("… [truncated]");
        let mark = CUT_MARK@;
        let tail = mark.drop_first();
        text::lemma_ascii_byte_len(tail);
        text::lemma_byte_len_add(seq![mark[0]], tail);
        assert(seq![mark[0]] + tail =~= mark);
        assert(text::byte_len(seq![mark[0]]) <= 3) by {
            assert(mark[0] == '…');
            assert(mark[0] as u32 == 0x2026);
            reveal_with_fuel(text::byte_len, 2);
            assert(seq![mark[0]].drop_last() =~= Seq::<char>::empty());
        }
    }
}

// ─── Build systems ──────────────────────────────────────────────────────────

/// What a project is built with.
#[derive(Debug, Clone, Copy, PartialEq, Eq, Structural)]
pub enum BuildSystem {
    RustCargo,
    NodePackage,
    Python,
    GoModule,
    Make,
    Cmake,
}

impl DeepView for BuildSystem {
    type V = BuildSystem;

    open spec fn deep_view(&self) -> BuildSystem {
        *self
    }
}

impl Duplicate for BuildSystem {
    fn duplicate(&self) -> (copy: Self) {
        *self
    }
}

impl BuildSystem {
    /// The name of this build system.
    pub open spec fn spec_label(self) -> Seq<char> {
        match self {
            BuildSystem::RustCargo => "Rust / Cargo"@,
            BuildSystem::NodePackage => "Node.js / npm"@,
            BuildSystem::Python => "Python"@,
            BuildSystem::GoModule => "Go modules"@,
            BuildSystem::Make => "Make"@,
            BuildSystem::Cmake => "CMake"@,
        }
    }

    /// The language of the projects that are built with it.
    pub open spec fn spec_language(self) -> Seq<char> {
        match self {
            BuildSystem::RustCargo => "Rust"@,
            BuildSystem::NodePackage => "JavaScript/TypeScript"@,
            BuildSystem::Python => "Python"@,
            BuildSystem::GoModule => "Go"@,
            BuildSystem::Make => ""@,
            BuildSystem::Cmake => "C/C++"@,
        }
    }

    /// The name of this build system.
    pub fn label(&self) -> (r: &'static str)
        ensures
            r@ == self.spec_label(),
    {
        match self {
            BuildSystem::RustCargo => "Rust / Cargo",
            BuildSystem::NodePackage => "Node.js / npm",
            BuildSystem::Python => "Python",
            BuildSystem::GoModule => "Go modules",
            BuildSystem::Make => "Make",
            BuildSystem::Cmake => "CMake",
        }
    }

    /// The language of the projects that are built with it: empty where it may
    /// be any.
    pub fn language(&self) -> (r: &'static str)
        ensures
            r@ == self.spec_language(),
    {
        match self {
            BuildSystem::RustCargo => "Rust",
            BuildSystem::NodePackage => "JavaScript/TypeScript",
            BuildSystem::Python => "Python",
            BuildSystem::GoModule => "Go",
            BuildSystem::Make => "",
            BuildSystem::Cmake => "C/C++",
        }
    }
}

/// Which manifests a project has.
#[derive(Debug, PartialEq)]
pub struct ManifestFiles {
    pub cargo_toml: bool,
    pub package_json: bool,
    pub pyproject_toml: bool,
    pub setup_py: bool,
    pub requirements_txt: bool,
    pub go_mod: bool,
    /// `Makefile` or `makefile`.
    pub makefile: bool,
    pub cmake_lists: bool,
}

/// The contents of a [`ManifestFiles`].
#[verifier::ext_equal]
pub struct ManifestFilesView {
    pub cargo_toml: bool,
    pub package_json: bool,
    pub pyproject_toml: bool,
    pub setup_py: bool,
    pub requirements_txt: bool,
    pub go_mod: bool,
    pub makefile: bool,
    pub cmake_lists: bool,
}

impl DeepView for ManifestFiles {
    type V = ManifestFilesView;

    open spec fn deep_view(&self) -> ManifestFilesView {
        ManifestFilesView {
            cargo_toml: self.cargo_toml,
            package_json: self.package_json,
            pyproject_toml: self.pyproject_toml,
            setup_py: self.setup_py,
            requirements_txt: self.requirements_txt,
            go_mod: self.go_mod,
            makefile: self.makefile,
            cmake_lists: self.cmake_lists,
        }
    }
}

impl Duplicate for ManifestFiles {
    fn duplicate(&self) -> (copy: Self) {
        ManifestFiles {
            cargo_toml: self.cargo_toml,
            package_json: self.package_json,
            pyproject_toml: self.pyproject_toml,
            setup_py: self.setup_py,
            requirements_txt: self.requirements_txt,
            go_mod: self.go_mod,
            makefile: self.makefile,
            cmake_lists: self.cmake_lists,
        }
    }
}

impl Clone for ManifestFiles {
    fn clone(&self) -> (copy: Self)
        ensures
            copy.deep_view() == self.deep_view(),
    {
        self.duplicate()
    }
}

/// What a project with these manifests is built with.
pub open spec fn build_system_of(files: ManifestFilesView) -> Option<BuildSystem> {
    if files.cargo_toml {
        Some(BuildSystem::RustCargo)
    } else if files.package_json {
        Some(BuildSystem::NodePackage)
    } else if files.pyproject_toml || files.setup_py || files.requirements_txt {
        Some(BuildSystem::Python)
    } else if files.go_mod {
        Some(BuildSystem::GoModule)
    } else if files.makefile {
        Some(BuildSystem::Make)
    } else if files.cmake_lists {
        Some(BuildSystem::Cmake)
    } else {
        None
    }
}

/// What a project with these manifests is built with.
pub fn detect_build_system(files: &ManifestFiles) -> (r: Option<BuildSystem>)
    ensures
        r == build_system_of(files.deep_view()),
{
    if files.cargo_toml {
        Some(BuildSystem::RustCargo)
    } else if files.package_json {
        Some(BuildSystem::NodePackage)
    } else if files.pyproject_toml || files.setup_py || files.requirements_txt {
        Some(BuildSystem::Python)
    } else if files.go_mod {
        Some(BuildSystem::GoModule)
    } else if files.makefile {
        Some(BuildSystem::Make)
    } else if files.cmake_lists {
        Some(BuildSystem::Cmake)
    } else {
        None
    }
}

// ─── Manifests ──────────────────────────────────────────────────────────────

/// What a manifest says.
#[derive(Debug, PartialEq)]
pub struct ManifestFacts {
    pub name: String,
    pub version: String,
    pub description: String,
    /// What is run for what.
    pub commands: Vec<(String, String)>,
    /// What the project depends on, with versions.
    pub key_dependencies: Vec<(String, String)>,
}

/// The contents of a [`ManifestFacts`].
#[verifier::ext_equal]
pub struct ManifestFactsView {
    pub name: Seq<char>,
    pub version: Seq<char>,
    pub description: Seq<char>,
    pub commands: Seq<(Seq<char>, Seq<char>)>,
    pub key_dependencies: Seq<(Seq<char>, Seq<char>)>,
}

impl DeepView for ManifestFacts {
    type V = ManifestFactsView;

    open spec fn deep_view(&self) -> ManifestFactsView {
        ManifestFactsView {
            name: self.name.deep_view(),
            version: self.version.deep_view(),
            description: self.description.deep_view(),
            commands: self.commands.deep_view(),
            key_dependencies: self.key_dependencies.deep_view(),
        }
    }
}

impl Duplicate for ManifestFacts {
    fn duplicate(&self) -> (copy: Self) {
        ManifestFacts {
            name: self.name.duplicate(),
            version: self.version.duplicate(),
            description: self.description.duplicate(),
            commands: self.commands.duplicate(),
            key_dependencies: self.key_dependencies.duplicate(),
        }
    }
}

impl Clone for ManifestFacts {
    fn clone(&self) -> (copy: Self)
        ensures
            copy.deep_view() == self.deep_view(),
    {
        self.duplicate()
    }
}

/// Nothing is known.
pub open spec fn no_facts() -> ManifestFactsView {
    ManifestFactsView {
        name: Seq::empty(),
        version: Seq::empty(),
        description: Seq::empty(),
        commands: Seq::empty(),
        key_dependencies: Seq::empty(),
    }
}

impl ManifestFacts {
    /// Nothing is known.
    pub fn new() -> (r: Self)
        ensures
            r.deep_view() == no_facts(),
    {
        ManifestFacts {
            name: String::new(),
            version: String::new(),
            description: String::new(),
            commands: Vec::new(),
            key_dependencies: Vec::new(),
        }
    }
}

impl Default for ManifestFacts {
    fn default() -> (r: Self)
        ensures
            r.deep_view() == no_facts(),
    {
        ManifestFacts::new()
    }
}

/// What is run for what.
fn command(purpose: &str, line: &str) -> (r: (String, String))
    ensures
        r.deep_view() == (purpose@, line@),
{
    (purpose.to_string(), line.to_string())
}

/// The name, the version and the description that an object gives.
pub open spec fn named_by(section: DataView, facts: ManifestFactsView) -> ManifestFactsView {
    ManifestFactsView {
        name: section.text_or("name"@, Seq::empty()),
        version: section.text_or("version"@, Seq::empty()),
        description: section.text_or("description"@, Seq::empty()),
        ..facts
    }
}

/// The facts with the name, the version and the description that an object
/// gives.
fn name_by(section: &DataValue, facts: ManifestFacts) -> (r: ManifestFacts)
    ensures
        r.deep_view() == named_by(section.deep_view(), facts.deep_view()),
{
    proof {
        reveal_strlit("");
        assert(""@ =~= Seq::<char>::empty());
    }
    ManifestFacts {
        name: section.text_or("name", ""),
        version: section.text_or("version", ""),
        description: section.text_or("description", ""),
        ..facts
    }
}

/// The version that a dependency is given with: as a text, or in an object; or
/// a word for the version that the workspace gives; or nothing.
pub open spec fn version_of(value: DataView) -> Seq<char> {
    match value {
        DataView::Text(version) => version,
        DataView::Object(_) => match value.text_field("version"@) {
            Some(version) => version,
            None => if value.field("workspace"@) == Some(DataView::Bool(true)) {
                "{workspace}"@
            } else {
                Seq::empty()
            },
        },
        _ => Seq::empty(),
    }
}

/// The version that a dependency is given with.
pub fn dep_version(val: &DataValue) -> (r: String)
    ensures
        r@ == version_of(val.deep_view()),
{
    match val {
        DataValue::Text(version) => version.clone(),
        DataValue::Object(_) => {
            if let Some(DataValue::Text(version)) = val.get("version") {
                return version.clone();
            }
            if let Some(DataValue::Bool(workspace)) = val.get("workspace") {
                if *workspace {
                    return "{workspace}".to_string();
                }
            }
            String::new()
        },
        _ => String::new(),
    }
}

/// The dependencies that the entries name, in order, as many as are listed.
pub open spec fn listed_dependencies(
    entries: Seq<(Seq<char>, DataView)>,
    skip: Option<Seq<char>>,
) -> Seq<(Seq<char>, Seq<char>)>
    decreases entries.len(),
{
    if entries.len() == 0 {
        Seq::empty()
    } else {
        let before = listed_dependencies(entries.drop_last(), skip);
        let (name, value) = entries.last();
        if before.len() >= PROBE_MAX_DEPS || skip == Some(name) {
            before
        } else {
            before.push((name, version_of(value)))
        }
    }
}

/// The dependencies that the entries name, in order, as many as are listed.
fn list_dependencies(entries: &Vec<(String, DataValue)>, skip: Option<&str>) -> (r: Vec<
    (String, String),
>)
    ensures
        r.deep_view() == listed_dependencies(
            entries.deep_view(),
            match skip {
                Some(name) => Some(name@),
                None => None,
            },
        ),
{
    let ghost all = entries.deep_view();
    let ghost skipped = match skip {
        Some(name) => Some(name@),
        None => None,
    };
    let mut r: Vec<(String, String)> = Vec::new();
    let mut i: usize = 0;
    while i < entries.len()
        invariant
            i <= entries.len(),
            all == entries.deep_view(),
            skipped == (match skip {
                Some(name) => Some(name@),
                None => None,
            }),
            r.deep_view() == listed_dependencies(all.take(i as int), skipped),
        decreases entries.len() - i,
    {
        let ghost before = r.deep_view();
        assert(all.take(i + 1).drop_last() =~= all.take(i as int));
        assert(all[i as int] == (entries@[i as int].0@, entries@[i as int].1.deep_view()));
        let skips = match skip {
            Some(name) => text::same(entries[i].0.as_str(), name),
            None => false,
        };
        if r.len() < PROBE_MAX_DEPS && !skips {
            let version = dep_version(&entries[i].1);
            let ghost v = version@;
            r.push((entries[i].0.clone(), version));
            assert(r.deep_view() =~= before.push((all[i as int].0, v)));
        }
        i = i + 1;
    }
    assert(all.take(i as int) =~= all);
    r
}

// ─── Cargo ──────────────────────────────────────────────────────────────────

/// What is run where the manifest cannot be understood.
pub open spec fn bare_cargo_commands() -> Seq<(Seq<char>, Seq<char>)> {
    seq![
        ("build"@, "cargo build"@),
        ("test"@, "cargo test"@),
        ("lint"@, "cargo clippy --workspace --all-targets"@),
    ]
}

/// What is run in a crate or a workspace.
pub open spec fn cargo_commands(workspace: bool) -> Seq<(Seq<char>, Seq<char>)> {
    seq![
        ("build"@, "cargo build"@),
        (
            "test"@,
            if workspace {
                "cargo test --workspace"@
            } else {
                "cargo test"@
            },
        ),
        ("lint"@, "cargo clippy --workspace --all-targets"@),
        ("format"@, "cargo fmt"@),
        ("run"@, "cargo run --bin <bin>"@),
    ]
}

/// The table of dependencies: that of the workspace or the package, or else
/// that of the manifest.
pub open spec fn cargo_dependencies(manifest: DataView, workspace: bool) -> Option<
    Seq<(Seq<char>, DataView)>,
> {
    let section = manifest.field(
        if workspace {
            "workspace"@
        } else {
            "package"@
        },
    );
    let own = match section {
        Some(section) => section.object_field("dependencies"@),
        None => None,
    };
    match own {
        Some(dependencies) => Some(dependencies),
        None => manifest.object_field("dependencies"@),
    }
}

/// What `Cargo.toml` says.
pub open spec fn cargo_manifest_facts(
    manifest: DataView,
    dir_name: Option<Seq<char>>,
) -> ManifestFactsView {
    let workspace = manifest.field("workspace"@) is Some;
    let facts = match manifest.field("package"@) {
        Some(DataView::Object(package)) => named_by(DataView::Object(package), no_facts()),
        _ => if workspace {
            ManifestFactsView {
                name: match dir_name {
                    Some(name) => name,
                    None => "workspace"@,
                },
                ..no_facts()
            }
        } else {
            no_facts()
        },
    };
    ManifestFactsView {
        commands: cargo_commands(workspace),
        key_dependencies: match cargo_dependencies(manifest, workspace) {
            Some(dependencies) => listed_dependencies(dependencies, None),
            None => Seq::empty(),
        },
        ..facts
    }
}

/// What the text of `Cargo.toml` says: nothing where it could not be read, and
/// little where it cannot be understood.
pub open spec fn cargo_facts(
    manifest: Option<Seq<char>>,
    dir_name: Option<Seq<char>>,
) -> ManifestFactsView {
    match manifest {
        None => no_facts(),
        Some(manifest) => match data::toml_document(manifest) {
            None => ManifestFactsView { commands: bare_cargo_commands(), ..no_facts() },
            Some(manifest) => cargo_manifest_facts(manifest, dir_name),
        },
    }
}

/// The table of dependencies: that of the workspace or the package, or else
/// that of the manifest.
fn find_cargo_dependencies(manifest: &DataValue, workspace: bool) -> (r: Option<
    &Vec<(String, DataValue)>,
>)
    ensures
        match r {
            Some(entries) => cargo_dependencies(manifest.deep_view(), workspace) == Some(
                entries.deep_view(),
            ),
            None => cargo_dependencies(manifest.deep_view(), workspace) is None,
        },
{
    let section = if workspace {
        manifest.get("workspace")
    } else {
        manifest.get("package")
    };
    if let Some(section) = section {
        if let Some(dependencies) = section.object_at("dependencies") {
            return Some(dependencies);
        }
    }
    manifest.object_at("dependencies")
}

/// What `Cargo.toml` says of the project in a directory of this name.
pub fn read_cargo(manifest: &DataValue, dir_name: Option<&str>) -> (r: ManifestFacts)
    ensures
        r.deep_view() == cargo_manifest_facts(
            manifest.deep_view(),
            match dir_name {
                Some(name) => Some(name@),
                None => None,
            },
        ),
{
    let workspace = manifest.get("workspace").is_some();
    let named = match manifest.get("package") {
        Some(package) => match package {
            DataValue::Object(_) => name_by(package, ManifestFacts::new()),
            _ => name_workspace(workspace, dir_name),
        },
        None => name_workspace(workspace, dir_name),
    };
    let test = if workspace {
        "cargo test --workspace"
    } else {
        "cargo test"
    };
    let commands = vec![
        command("build", "cargo build"),
        command("test", test),
        command("lint", "cargo clippy --workspace --all-targets"),
        command("format", "cargo fmt"),
        command("run", "cargo run --bin <bin>"),
    ];
    assert(commands.deep_view() =~= cargo_commands(workspace));
    let key_dependencies = match find_cargo_dependencies(manifest, workspace) {
        Some(dependencies) => list_dependencies(dependencies, None),
        None => Vec::new(),
    };
    ManifestFacts { commands, key_dependencies, ..named }
}

/// The facts with the name of a workspace, which is that of its directory.
fn name_workspace(workspace: bool, dir_name: Option<&str>) -> (r: ManifestFacts)
    ensures
        r.deep_view() == (if workspace {
            ManifestFactsView {
                name: match dir_name {
                    Some(name) => name@,
                    None => "workspace"@,
                },
                ..no_facts()
            }
        } else {
            no_facts()
        }),
{
    if workspace {
        let name = match dir_name {
            Some(name) => name.to_string(),
            None => "workspace".to_string(),
        };
        ManifestFacts { name, ..ManifestFacts::new() }
    } else {
        ManifestFacts::new()
    }
}

/// What the text of `Cargo.toml` says of the project in a directory of this
/// name.
pub fn probe_cargo(manifest: Option<&str>, dir_name: Option<&str>) -> (r: ManifestFacts)
    ensures
        r.deep_view() == cargo_facts(
            match manifest {
                Some(manifest) => Some(manifest@),
                None => None,
            },
            match dir_name {
                Some(name) => Some(name@),
                None => None,
            },
        ),
{
    match manifest {
        None => ManifestFacts::new(),
        Some(manifest) => match data::parse_toml(manifest) {
            None => {
                let commands = vec![
                    command("build", "cargo build"),
                    command("test", "cargo test"),
                    command("lint", "cargo clippy --workspace --all-targets"),
                ];
                assert(commands.deep_view() =~= bare_cargo_commands());
                ManifestFacts { commands, ..ManifestFacts::new() }
            },
            Some(manifest) => read_cargo(&manifest, dir_name),
        },
    }
}

// ─── Node ───────────────────────────────────────────────────────────────────

/// The package manager of a project with these lock files.
pub open spec fn package_manager(pnpm_lock: bool, yarn_lock: bool) -> Seq<char> {
    if pnpm_lock {
        "pnpm"@
    } else if yarn_lock {
        "yarn"@
    } else {
        "npm"@
    }
}

/// What is run with a package manager.
pub open spec fn node_commands(manager: Seq<char>) -> Seq<(Seq<char>, Seq<char>)> {
    seq![
        ("install"@, manager + " install"@),
        ("build"@, manager + " run build"@),
        ("test"@, manager + " test"@),
        ("lint"@, manager + " run lint"@),
        ("run"@, manager + " start"@),
    ]
}

/// The text that a value is: empty where it is none.
pub open spec fn plain_text(value: DataView) -> Seq<char> {
    match value {
        DataView::Text(value) => value,
        _ => Seq::empty(),
    }
}

/// The dependencies that the entries name, in order, as many as are listed.
pub open spec fn node_dependencies(entries: Seq<(Seq<char>, DataView)>) -> Seq<
    (Seq<char>, Seq<char>),
>
    decreases entries.len(),
{
    if entries.len() == 0 {
        Seq::empty()
    } else {
        let before = node_dependencies(entries.drop_last());
        if before.len() >= PROBE_MAX_DEPS {
            before
        } else {
            before.push((entries.last().0, plain_text(entries.last().1)))
        }
    }
}

/// What `package.json` says.
pub open spec fn node_manifest_facts(manifest: DataView, manager: Seq<char>) -> ManifestFactsView {
    ManifestFactsView {
        commands: node_commands(manager),
        key_dependencies: match manifest.object_field("dependencies"@) {
            Some(dependencies) => node_dependencies(dependencies),
            None => Seq::empty(),
        },
        ..named_by(manifest, no_facts())
    }
}

/// What the text of `package.json` says: nothing where it could not be read or
/// understood.
pub open spec fn node_facts(manifest: Option<Seq<char>>, manager: Seq<char>) -> ManifestFactsView {
    match manifest {
        None => no_facts(),
        Some(manifest) => match data::json_document(manifest) {
            None => no_facts(),
            Some(manifest) => node_manifest_facts(manifest, manager),
        },
    }
}

/// The dependencies that the entries name, in order, as many as are listed.
fn list_node_dependencies(entries: &Vec<(String, DataValue)>) -> (r: Vec<(String, String)>)
    ensures
        r.deep_view() == node_dependencies(entries.deep_view()),
{
    let ghost all = entries.deep_view();
    let mut r: Vec<(String, String)> = Vec::new();
    let mut i: usize = 0;
    while i < entries.len()
        invariant
            i <= entries.len(),
            all == entries.deep_view(),
            r.deep_view() == node_dependencies(all.take(i as int)),
        decreases entries.len() - i,
    {
        let ghost before = r.deep_view();
        assert(all.take(i + 1).drop_last() =~= all.take(i as int));
        assert(all[i as int] == (entries@[i as int].0@, entries@[i as int].1.deep_view()));
        if r.len() < PROBE_MAX_DEPS {
            let version = match entries[i].1.as_str() {
                Some(version) => version.to_string(),
                None => String::new(),
            };
            let ghost v = version@;
            r.push((entries[i].0.clone(), version));
            assert(r.deep_view() =~= before.push((all[i as int].0, v)));
        }
        i = i + 1;
    }
    assert(all.take(i as int) =~= all);
    r
}

/// What `package.json` says of a project with this package manager.
pub fn read_node(manifest: &DataValue, manager: &str) -> (r: ManifestFacts)
    ensures
        r.deep_view() == node_manifest_facts(manifest.deep_view(), manager@),
{
    let named = name_by(manifest, ManifestFacts::new());
    let commands = vec![
        command("install", text::concat(manager, " install").as_str()),
        command("build", text::concat(manager, " run build").as_str()),
        command("test", text::concat(manager, " test").as_str()),
        command("lint", text::concat(manager, " run lint").as_str()),
        command("run", text::concat(manager, " start").as_str()),
    ];
    assert(commands.deep_view() =~= node_commands(manager@));
    let key_dependencies = match manifest.object_at("dependencies") {
        Some(dependencies) => list_node_dependencies(dependencies),
        None => Vec::new(),
    };
    ManifestFacts { commands, key_dependencies, ..named }
}

/// What the text of `package.json` says of a project with these lock files.
pub fn probe_node(manifest: Option<&str>, pnpm_lock: bool, yarn_lock: bool) -> (r: ManifestFacts)
    ensures
        r.deep_view() == node_facts(
            match manifest {
                Some(manifest) => Some(manifest@),
                None => None,
            },
            package_manager(pnpm_lock, yarn_lock),
        ),
{
    let manager = if pnpm_lock {
        "pnpm"
    } else if yarn_lock {
        "yarn"
    } else {
        "npm"
    };
    match manifest {
        None => ManifestFacts::new(),
        Some(manifest) => match data::parse_json(manifest) {
            None => ManifestFacts::new(),
            Some(manifest) => read_node(&manifest, manager),
        },
    }
}

// ─── Python ─────────────────────────────────────────────────────────────────

/// A character of the name of a requirement.
pub open spec fn requirement_char(c: char) -> bool {
    text::letter_or_digit(c) || c == '-' || c == '_' || c == '.'
}

/// How many characters of a requirement are its name.
pub open spec fn requirement_name_len(s: Seq<char>) -> nat
    decreases s.len(),
{
    if s.len() == 0 || !requirement_char(s[0]) {
        0
    } else {
        1 + requirement_name_len(s.drop_first())
    }
}

/// A requirement as its name and the rest.
pub open spec fn requirement_parts(s: Seq<char>) -> (Seq<char>, Seq<char>) {
    let n = requirement_name_len(s) as int;
    (s.take(n), text::trimmed(s.skip(n)))
}

/// A requirement as its name and the rest.
pub fn split_pep508(s: &str) -> (r: (String, String))
    ensures
        r.deep_view() == requirement_parts(s@),
{
    let v = text::chars(s);
    let mut n: usize = 0;
    let mut more = true;
    assert(s@.skip(0) =~= s@);
    while more && n < v.len()
        invariant
            n <= v.len(),
            v@ == s@,
            requirement_name_len(s@) == n + requirement_name_len(s@.skip(n as int)),
            !more ==> n < v.len() && !requirement_char(v@[n as int]),
        decreases v.len() - n, more as int,
    {
        let c = v[n];
        if text::is_alphanumeric(c) || c == '-' || c == '_' || c == '.' {
            assert(s@.skip(n as int).drop_first() =~= s@.skip(n + 1));
            n = n + 1;
        } else {
            more = false;
        }
    }
    proof {
        assert(requirement_name_len(s@.skip(n as int)) == 0);
        assert(v@.subrange(0, n as int) =~= s@.take(n as int));
        assert(v@.subrange(n as int, v@.len() as int) =~= s@.skip(n as int));
    }
    let name = text::substring(&v, 0, n);
    let rest = text::substring(&v, n, v.len());
    (name, text::trim(rest.as_str()))
}

/// The requirements in a list, in order, as many as are listed.
pub open spec fn listed_requirements(items: Seq<DataView>) -> Seq<(Seq<char>, Seq<char>)>
    decreases items.len(),
{
    if items.len() == 0 {
        Seq::empty()
    } else {
        let before = listed_requirements(items.drop_last());
        match items.last() {
            DataView::Text(item) => if before.len() >= PROBE_MAX_DEPS {
                before
            } else {
                before.push(requirement_parts(item))
            },
            _ => before,
        }
    }
}

/// The requirements in a list, in order, as many as are listed.
fn list_requirements(items: &Vec<DataValue>) -> (r: Vec<(String, String)>)
    ensures
        r.deep_view() == listed_requirements(items.deep_view()),
{
    let ghost all = items.deep_view();
    let mut r: Vec<(String, String)> = Vec::new();
    let mut i: usize = 0;
    while i < items.len()
        invariant
            i <= items.len(),
            all == items.deep_view(),
            r.deep_view() == listed_requirements(all.take(i as int)),
        decreases items.len() - i,
    {
        let ghost before = r.deep_view();
        assert(all.take(i + 1).drop_last() =~= all.take(i as int));
        assert(all[i as int] == items@[i as int].deep_view());
        if r.len() < PROBE_MAX_DEPS {
            if let Some(item) = items[i].as_str() {
                let parts = split_pep508(item);
                let ghost p = parts.deep_view();
                r.push(parts);
                assert(r.deep_view() =~= before.push(p));
            }
        }
        i = i + 1;
    }
    assert(all.take(i as int) =~= all);
    r
}

/// What is run in a Python project.
pub open spec fn python_commands() -> Seq<(Seq<char>, Seq<char>)> {
    seq![
        ("install"@, "pip install -e ."@),
        ("test"@, "pytest"@),
        ("build"@, "python -m build"@),
        ("lint"@, "ruff check"@),
    ]
}

/// What `pyproject.toml` says, in its own section or in that of Poetry.
pub open spec fn python_manifest_facts(manifest: DataView) -> ManifestFactsView {
    match manifest.field("project"@) {
        Some(DataView::Object(project)) => {
            let section = DataView::Object(project);
            ManifestFactsView {
                key_dependencies: match section.list_field("dependencies"@) {
                    Some(items) => listed_requirements(items),
                    None => Seq::empty(),
                },
                ..named_by(section, no_facts())
            }
        },
        _ => match manifest.field("tool"@) {
            Some(tool) => match tool.field("poetry"@) {
                Some(DataView::Object(poetry)) => {
                    let section = DataView::Object(poetry);
                    ManifestFactsView {
                        key_dependencies: match section.object_field("dependencies"@) {
                            Some(entries) => listed_dependencies(entries, Some("python"@)),
                            None => Seq::empty(),
                        },
                        ..named_by(section, no_facts())
                    }
                },
                _ => no_facts(),
            },
            None => no_facts(),
        },
    }
}

/// What the text of `pyproject.toml` says.
pub open spec fn python_facts(manifest: Option<Seq<char>>) -> ManifestFactsView {
    let facts = match manifest {
        None => no_facts(),
        Some(manifest) => match data::toml_document(manifest) {
            None => no_facts(),
            Some(manifest) => python_manifest_facts(manifest),
        },
    };
    ManifestFactsView { commands: python_commands(), ..facts }
}

/// What the section of Poetry says.
fn read_poetry(manifest: &DataValue) -> (r: ManifestFacts)
    requires
        !(manifest.deep_view().field("project"@) matches Some(DataView::Object(_))),
    ensures
        r.deep_view() == python_manifest_facts(manifest.deep_view()),
{
    if let Some(tool) = manifest.get("tool") {
        if let Some(poetry) = tool.get("poetry") {
            if let DataValue::Object(_) = poetry {
                let named = name_by(poetry, ManifestFacts::new());
                let key_dependencies = match poetry.object_at("dependencies") {
                    Some(entries) => list_dependencies(entries, Some("python")),
                    None => Vec::new(),
                };
                return ManifestFacts { key_dependencies, ..named };
            }
        }
    }
    ManifestFacts::new()
}

/// What `pyproject.toml` says, in its own section or in that of Poetry.
pub fn read_python(manifest: &DataValue) -> (r: ManifestFacts)
    ensures
        r.deep_view() == python_manifest_facts(manifest.deep_view()),
{
    if let Some(project) = manifest.get("project") {
        if let DataValue::Object(_) = project {
            let named = name_by(project, ManifestFacts::new());
            let key_dependencies = match project.list_at("dependencies") {
                Some(items) => list_requirements(items),
                None => Vec::new(),
            };
            return ManifestFacts { key_dependencies, ..named };
        }
    }
    read_poetry(manifest)
}

/// What the text of `pyproject.toml` says.
pub fn probe_python(manifest: Option<&str>) -> (r: ManifestFacts)
    ensures
        r.deep_view() == python_facts(
            match manifest {
                Some(manifest) => Some(manifest@),
                None => None,
            },
        ),
{
    let facts = match manifest {
        None => ManifestFacts::new(),
        Some(manifest) => match data::parse_toml(manifest) {
            None => ManifestFacts::new(),
            Some(manifest) => read_python(&manifest),
        },
    };
    let commands = vec![
        command("install", "pip install -e ."),
        command("test", "pytest"),
        command("build", "python -m build"),
        command("lint", "ruff check"),
    ];
    assert(commands.deep_view() =~= python_commands());
    ManifestFacts { commands, ..facts }
}

// ─── Go, Make and CMake ─────────────────────────────────────────────────────

/// What is run in a Go module.
pub open spec fn go_commands() -> Seq<(Seq<char>, Seq<char>)> {
    seq![
        ("build"@, "go build ./..."@),
        ("test"@, "go test ./..."@),
        ("run"@, "go run ."@),
        ("lint"@, "go vet ./..."@),
    ]
}

/// The name and the version that the lines of `go.mod` give: the last of each.
pub open spec fn go_lines(lines: Seq<Seq<char>>) -> (Seq<char>, Seq<char>)
    decreases lines.len(),
{
    if lines.len() == 0 {
        (Seq::empty(), Seq::empty())
    } else {
        let (name, version) = go_lines(lines.drop_last());
        let line = text::trimmed(lines.last());
        if "module "@.is_prefix_of(line) {
            (text::trimmed(line.skip("module "@.len() as int)), version)
        } else if "go "@.is_prefix_of(line) {
            (name, text::trimmed(text::replaced(line, "go "@, Seq::empty())))
        } else {
            (name, version)
        }
    }
}

/// What the text of `go.mod` says.
pub open spec fn go_facts(manifest: Option<Seq<char>>) -> ManifestFactsView {
    let (name, version) = match manifest {
        None => (Seq::empty(), Seq::empty()),
        Some(manifest) => go_lines(text::line_seq(manifest)),
    };
    ManifestFactsView { name, version, commands: go_commands(), ..no_facts() }
}

/// What the text of `go.mod` says.
pub fn probe_go(manifest: Option<&str>) -> (r: ManifestFacts)
    ensures
        r.deep_view() == go_facts(
            match manifest {
                Some(manifest) => Some(manifest@),
                None => None,
            },
        ),
{
    let mut name = String::new();
    let mut version = String::new();
    if let Some(manifest) = manifest {
        let lines = text::lines(manifest);
        let ghost all = lines.deep_view();
        let mut i: usize = 0;
        while i < lines.len()
            invariant
                i <= lines.len(),
                all == lines.deep_view(),
                (name@, version@) == go_lines(all.take(i as int)),
            decreases lines.len() - i,
        {
            assert(all.take(i + 1).drop_last() =~= all.take(i as int));
            assert(all[i as int] == lines@[i as int]@);
            let line = text::trim(lines[i].as_str());
            if let Some(rest) = text::strip_prefix(line.as_str(), "module ") {
                name = text::trim(rest.as_str());
            } else if text::starts_with(line.as_str(), "go ") {
                proof {
                    reveal_strlit("go ");
                    reveal_strlit("");
                    assert(""@ =~= Seq::<char>::empty());
                }
                let rest = text::replace(line.as_str(), "go ", "");
                version = text::trim(rest.as_str());
            }
            i = i + 1;
        }
        assert(all.take(i as int) =~= all);
    }
    let commands = vec![
        command("build", "go build ./..."),
        command("test", "go test ./..."),
        command("run", "go run ."),
        command("lint", "go vet ./..."),
    ];
    assert(commands.deep_view() =~= go_commands());
    ManifestFacts { name, version, commands, ..ManifestFacts::new() }
}

/// What a target of a makefile looks like.
pub const MAKE_TARGET: &'static str = "(?m)^([a-zA-Z][a-zA-Z0-9_.-]*):";

/// What the name of a CMake project looks like.
pub const CMAKE_PROJECT: &'static str = "project\\s*\\(\\s*([A-Za-z0-9_.-]+)";

/// What is run for each target.
pub open spec fn make_commands(targets: Seq<Option<Seq<char>>>) -> Seq<(Seq<char>, Seq<char>)>
    decreases targets.len(),
{
    if targets.len() == 0 {
        Seq::empty()
    } else {
        let before = make_commands(targets.drop_last());
        match targets.last() {
            Some(target) => before.push((target, "make "@ + target)),
            None => before,
        }
    }
}

/// What the text of a makefile says.
pub open spec fn make_facts(makefile: Option<Seq<char>>) -> ManifestFactsView {
    match makefile {
        None => no_facts(),
        Some(makefile) => ManifestFactsView {
            commands: make_commands(patterns::every_first_group(MAKE_TARGET@, makefile)),
            ..no_facts()
        },
    }
}

/// What is run for each target that was found.
pub fn target_commands(targets: &Vec<Option<String>>) -> (r: Vec<(String, String)>)
    ensures
        r.deep_view() == make_commands(targets.deep_view()),
{
    let ghost all = targets.deep_view();
    let mut r: Vec<(String, String)> = Vec::new();
    let mut i: usize = 0;
    while i < targets.len()
        invariant
            i <= targets.len(),
            all == targets.deep_view(),
            r.deep_view() == make_commands(all.take(i as int)),
        decreases targets.len() - i,
    {
        let ghost before = r.deep_view();
        assert(all.take(i + 1).drop_last() =~= all.take(i as int));
        assert(all[i as int] == targets@[i as int].deep_view());
        if let Some(target) = &targets[i] {
            let line = text::concat("make ", target.as_str());
            r.push((target.clone(), line));
            assert(r.deep_view() =~= before.push((target@, "make "@ + target@)));
        }
        i = i + 1;
    }
    assert(all.take(i as int) =~= all);
    r
}

/// What the text of a makefile says.
pub fn probe_make(makefile: Option<&str>) -> (r: ManifestFacts)
    ensures
        r.deep_view() == make_facts(
            match makefile {
                Some(makefile) => Some(makefile@),
                None => None,
            },
        ),
{
    match makefile {
        None => ManifestFacts::new(),
        Some(makefile) => {
            let targets = patterns::capture_all(MAKE_TARGET, makefile);
            ManifestFacts { commands: target_commands(&targets), ..ManifestFacts::new() }
        },
    }
}

/// What is run in a CMake project.
pub open spec fn cmake_commands() -> Seq<(Seq<char>, Seq<char>)> {
    seq![
        ("configure"@, "cmake -B build"@),
        ("build"@, "cmake --build build"@),
        ("test"@, "ctest --test-dir build"@),
    ]
}

/// What is said of a CMake project of this name.
pub open spec fn cmake_named_facts(name: Option<Seq<char>>) -> ManifestFactsView {
    ManifestFactsView {
        name: match name {
            Some(name) => name,
            None => Seq::empty(),
        },
        commands: cmake_commands(),
        ..no_facts()
    }
}

/// What the text of `CMakeLists.txt` says.
pub open spec fn cmake_facts(lists: Option<Seq<char>>) -> ManifestFactsView {
    cmake_named_facts(
        match lists {
            Some(lists) => patterns::first_group(CMAKE_PROJECT@, lists),
            None => None,
        },
    )
}

/// What is said of a CMake project of this name.
pub fn name_cmake(name: Option<String>) -> (r: ManifestFacts)
    ensures
        r.deep_view() == cmake_named_facts(name.deep_view()),
{
    let commands = vec![
        command("configure", "cmake -B build"),
        command("build", "cmake --build build"),
        command("test", "ctest --test-dir build"),
    ];
    assert(commands.deep_view() =~= cmake_commands());
    let name = match name {
        Some(name) => name,
        None => String::new(),
    };
    ManifestFacts { name, commands, ..ManifestFacts::new() }
}

/// What the text of `CMakeLists.txt` says.
pub fn probe_cmake(lists: Option<&str>) -> (r: ManifestFacts)
    ensures
        r.deep_view() == cmake_facts(
            match lists {
                Some(lists) => Some(lists@),
                None => None,
            },
        ),
{
    let name = match lists {
        Some(lists) => patterns::capture(CMAKE_PROJECT, lists),
        None => None,
    };
    name_cmake(name)
}

// ─── Conventions ────────────────────────────────────────────────────────────

/// The files that tell of a convention, with what they tell.
pub open spec fn convention_table() -> Seq<(Seq<char>, Seq<char>)> {
    seq![
        ("rustfmt.toml"@, "uses rustfmt with a custom config"@),
        (".rustfmt.toml"@, "uses rustfmt with a custom config"@),
        ("clippy.toml"@, "uses clippy with project-specific lints"@),
        (".cargo/config.toml"@, "has a .cargo/config.toml (custom build flags)"@),
        (".eslintrc"@, "uses ESLint"@),
        (".eslintrc.json"@, "uses ESLint"@),
        (".eslintrc.js"@, "uses ESLint"@),
        (".eslintrc.cjs"@, "uses ESLint"@),
        (".eslintrc.yml"@, "uses ESLint"@),
        (".prettierrc"@, "uses Prettier"@),
        (".prettierrc.json"@, "uses Prettier"@),
        ("prettier.config.js"@, "uses Prettier"@),
        ("tsconfig.json"@, "uses TypeScript (tsconfig.json present)"@),
        (".ruff.toml"@, "uses Ruff (lint/format)"@),
        ("ruff.toml"@, "uses Ruff (lint/format)"@),
        (".flake8"@, "uses flake8"@),
        ("mypy.ini"@, "uses mypy for type checking"@),
        (".pre-commit-config.yaml"@, "uses pre-commit hooks"@),
        ("pytest.ini"@, "uses pytest (pytest.ini present)"@),
        ("tox.ini"@, "uses tox"@),
        (".editorconfig"@, "ships an .editorconfig (editor consistency)"@),
        (".gitattributes"@, "ships .gitattributes (line-ending / diff normalization)"@),
        (".gitignore"@, "ships a .gitignore"@),
        ("CONTRIBUTING.md"@, "has CONTRIBUTING.md (commit/PR conventions)"@),
    ]
}

/// The files that tell of a convention, with what they tell.
pub fn convention_checks() -> (r: Vec<(String, String)>)
    ensures
        r.deep_view() == convention_table(),
{
    let r = vec![
        command("rustfmt.toml", "uses rustfmt with a custom config"),
        command(".rustfmt.toml", "uses rustfmt with a custom config"),
        command("clippy.toml", "uses clippy with project-specific lints"),
        command(".cargo/config.toml", "has a .cargo/config.toml (custom build flags)"),
        command(".eslintrc", "uses ESLint"),
        command(".eslintrc.json", "uses ESLint"),
        command(".eslintrc.js", "uses ESLint"),
        command(".eslintrc.cjs", "uses ESLint"),
        command(".eslintrc.yml", "uses ESLint"),
        command(".prettierrc", "uses Prettier"),
        command(".prettierrc.json", "uses Prettier"),
        command("prettier.config.js", "uses Prettier"),
        command("tsconfig.json", "uses TypeScript (tsconfig.json present)"),
        command(".ruff.toml", "uses Ruff (lint/format)"),
        command("ruff.toml", "uses Ruff (lint/format)"),
        command(".flake8", "uses flake8"),
        command("mypy.ini", "uses mypy for type checking"),
        command(".pre-commit-config.yaml", "uses pre-commit hooks"),
        command("pytest.ini", "uses pytest (pytest.ini present)"),
        command("tox.ini", "uses tox"),
        command(".editorconfig", "ships an .editorconfig (editor consistency)"),
        command(".gitattributes", "ships .gitattributes (line-ending / diff normalization)"),
        command(".gitignore", "ships a .gitignore"),
        command("CONTRIBUTING.md", "has CONTRIBUTING.md (commit/PR conventions)"),
    ];
    assert(r.deep_view() =~= convention_table());
    r
}

/// The notes on the files that are there.
pub open spec fn notes_on(checks: Seq<(Seq<char>, Seq<char>)>, present: Seq<bool>) -> Seq<Seq<char>>
    decreases checks.len(),
{
    if checks.len() == 0 {
        Seq::empty()
    } else {
        let before = notes_on(checks.drop_last(), present.drop_last());
        if present.last() {
            before.push(checks.last().1)
        } else {
            before
        }
    }
}

/// The note, where it applies.
pub open spec fn note_if(applies: bool, note: Seq<char>) -> Seq<Seq<char>> {
    if applies {
        seq![note]
    } else {
        Seq::empty()
    }
}

/// The notes on the tools that `pyproject.toml` configures.
pub open spec fn pyproject_notes(pyproject: Option<Seq<char>>) -> Seq<Seq<char>> {
    match pyproject {
        None => Seq::empty(),
        Some(pyproject) => note_if(
            text::occurs(pyproject, "[tool.ruff"@),
            "uses Ruff (config in pyproject.toml)"@,
        ) + note_if(
            text::occurs(pyproject, "[tool.mypy"@),
            "uses mypy (config in pyproject.toml)"@,
        ) + note_if(
            text::occurs(pyproject, "[tool.pytest"@),
            "uses pytest (config in pyproject.toml)"@,
        ),
    }
}

/// One of the notes speaks of this.
pub open spec fn mentioned(notes: Seq<Seq<char>>, word: Seq<char>) -> bool {
    exists|i: int| 0 <= i < notes.len() && text::occurs(#[trigger] notes[i], word)
}

/// The conventions of a project.
pub open spec fn conventions_of(
    present: Seq<bool>,
    pyproject: Option<Seq<char>>,
    build_system: Option<BuildSystem>,
) -> Seq<Seq<char>> {
    let notes = notes_on(convention_table(), present) + pyproject_notes(pyproject);
    if build_system == Some(BuildSystem::RustCargo) {
        let formatted = notes + note_if(
            !mentioned(notes, "rustfmt"@),
            "cargo fmt is the canonical formatter"@,
        );
        formatted + note_if(
            !mentioned(formatted, "clippy"@),
            "cargo clippy is the canonical linter"@,
        )
    } else {
        notes
    }
}

/// Whether one of the notes speaks of this.
fn mentions(notes: &Vec<String>, word: &str) -> (r: bool)
    ensures
        r == mentioned(notes.deep_view(), word@),
{
    let mut i: usize = 0;
    while i < notes.len()
        invariant
            i <= notes.len(),
            forall|k: int| 0 <= k < i ==> !text::occurs(#[trigger] notes.deep_view()[k], word@),
        decreases notes.len() - i,
    {
        assert(notes.deep_view()[i as int] == notes@[i as int]@);
        if text::contains(notes[i].as_str(), word) {
            assert(text::occurs(notes.deep_view()[i as int], word@));
            return true;
        }
        i = i + 1;
    }
    false
}

/// Appends the note, where it applies.
fn push_note(notes: &mut Vec<String>, applies: bool, note: &str)
    ensures
        final(notes).deep_view() == old(notes).deep_view() + note_if(applies, note@),
{
    let ghost before = notes.deep_view();
    if applies {
        notes.push(note.to_string());
        assert(notes.deep_view() =~= before.push(note@));
    }
    assert(notes.deep_view() =~= before + note_if(applies, note@));
}

/// The conventions of a project: `present` says which of the files of
/// [`convention_checks`] are there.
pub fn detect_conventions(
    present: &Vec<bool>,
    pyproject: Option<&str>,
    build_system: Option<BuildSystem>,
) -> (r: Vec<String>)
    requires
        present@.len() == convention_table().len(),
    ensures
        r.deep_view() == conventions_of(
            present@,
            match pyproject {
                Some(pyproject) => Some(pyproject@),
                None => None,
            },
            build_system,
        ),
{
    let checks = convention_checks();
    let ghost all = checks.deep_view();
    let mut notes: Vec<String> = Vec::new();
    let mut i: usize = 0;
    while i < checks.len()
        invariant
            i <= checks.len() == present.len(),
            all == checks.deep_view(),
            notes.deep_view() == notes_on(all.take(i as int), present@.take(i as int)),
        decreases checks.len() - i,
    {
        let ghost before = notes.deep_view();
        assert(all.take(i + 1).drop_last() =~= all.take(i as int));
        assert(present@.take(i + 1).drop_last() =~= present@.take(i as int));
        assert(all[i as int].1 == checks@[i as int].1@);
        if present[i] {
            notes.push(checks[i].1.clone());
            assert(notes.deep_view() =~= before.push(all[i as int].1));
        }
        i = i + 1;
    }
    assert(all.take(i as int) =~= all);
    assert(present@.take(i as int) =~= present@);
    let ghost first = notes.deep_view();
    if let Some(pyproject) = pyproject {
        push_note(
            &mut notes,
            text::contains(pyproject, "[tool.ruff"),
            "uses Ruff (config in pyproject.toml)",
        );
        push_note(
            &mut notes,
            text::contains(pyproject, "[tool.mypy"),
            "uses mypy (config in pyproject.toml)",
        );
        push_note(
            &mut notes,
            text::contains(pyproject, "[tool.pytest"),
            "uses pytest (config in pyproject.toml)",
        );
        assert(notes.deep_view() =~= first + pyproject_notes(Some(pyproject@)));
    } else {
        assert(notes.deep_view() =~= first + pyproject_notes(None));
    }
    if let Some(BuildSystem::RustCargo) = build_system {
        let formatted = mentions(&notes, "rustfmt");
        push_note(&mut notes, !formatted, "cargo fmt is the canonical formatter");
        let linted = mentions(&notes, "clippy");
        push_note(&mut notes, !linted, "cargo clippy is the canonical linter");
    }
    notes
}

/// Every Rust project has a formatter and a linter among its conventions.
pub proof fn law_rust_conventions(present: Seq<bool>, pyproject: Option<Seq<char>>)
    ensures
        mentioned(conventions_of(present, pyproject, Some(BuildSystem::RustCargo)), "clippy"@),
        mentioned(conventions_of(present, pyproject, Some(BuildSystem::RustCargo)), "rustfmt"@)
            || conventions_of(present, pyproject, Some(BuildSystem::RustCargo)).contains(
            "cargo fmt is the canonical formatter"@,
        ),
{
    let notes = notes_on(convention_table(), present) + pyproject_notes(pyproject);
    let formatted = notes + note_if(
        !mentioned(notes, "rustfmt"@),
        "cargo fmt is the canonical formatter"@,
    );
    let all = conventions_of(present, pyproject, Some(BuildSystem::RustCargo));
    if mentioned(notes, "rustfmt"@) {
        let i = choose|i: int| 0 <= i < notes.len() && text::occurs(
            #[trigger] notes[i],
            "rustfmt"@,
        );
        assert(all[i] == notes[i]);
    } else {
        assert(all[notes.len() as int] == "cargo fmt is the canonical formatter"@);
    }
    if mentioned(formatted, "clippy"@) {
        let i = choose|i: int|
            0 <= i < formatted.len() && text::occurs(#[trigger] formatted[i], "clippy"@);
        assert(all[i] == formatted[i]);
    } else {
        let note = "cargo clippy is the canonical linter"@;
        assert(all[formatted.len() as int] == note);
        reveal_strlit("cargo clippy is the canonical linter");
        reveal_strlit("clippy");
        assert(note.subrange(6, 12) =~= "clippy"@);
        assert(text::stands_at(note, "clippy"@, 6));
    }
}

// ─── Modules ────────────────────────────────────────────────────────────────

/// A crate of the project.
#[derive(Debug, PartialEq)]
pub struct ModuleEntry {
    pub name: String,
    /// Its path in the project.
    pub path: String,
    /// What its manifest says of it.
    pub description: String,
    /// What its documentation says.
    pub doc: String,
    /// Its public modules.
    pub modules: Vec<String>,
}

/// The contents of a [`ModuleEntry`].
#[verifier::ext_equal]
pub struct ModuleEntryView {
    pub name: Seq<char>,
    pub path: Seq<char>,
    pub description: Seq<char>,
    pub doc: Seq<char>,
    pub modules: Seq<Seq<char>>,
}

impl DeepView for ModuleEntry {
    type V = ModuleEntryView;

    open spec fn deep_view(&self) -> ModuleEntryView {
        ModuleEntryView {
            name: self.name.deep_view(),
            path: self.path.deep_view(),
            description: self.description.deep_view(),
            doc: self.doc.deep_view(),
            modules: self.modules.deep_view(),
        }
    }
}

impl Duplicate for ModuleEntry {
    fn duplicate(&self) -> (copy: Self) {
        ModuleEntry {
            name: self.name.duplicate(),
            path: self.path.duplicate(),
            description: self.description.duplicate(),
            doc: self.doc.duplicate(),
            modules: self.modules.duplicate(),
        }
    }
}

impl Clone for ModuleEntry {
    fn clone(&self) -> (copy: Self)
        ensures
            copy.deep_view() == self.deep_view(),
    {
        self.duplicate()
    }
}

/// The patterns that a workspace gives for its members.
pub open spec fn member_patterns(manifest: DataView) -> Seq<Seq<char>> {
    match manifest.field("workspace"@) {
        Some(workspace) => match workspace.list_field("members"@) {
            Some(members) => texts_in(members),
            None => Seq::empty(),
        },
        None => Seq::empty(),
    }
}

/// The texts in a list.
pub open spec fn texts_in(items: Seq<DataView>) -> Seq<Seq<char>>
    decreases items.len(),
{
    if items.len() == 0 {
        Seq::empty()
    } else {
        let before = texts_in(items.drop_last());
        match items.last() {
            DataView::Text(item) => before.push(item),
            _ => before,
        }
    }
}

/// The patterns that the text of a workspace manifest gives for its members:
/// none where it cannot be understood.
pub open spec fn workspace_patterns_of(manifest: Seq<char>) -> Seq<Seq<char>> {
    match data::toml_document(manifest) {
        Some(manifest) => member_patterns(manifest),
        None => Seq::empty(),
    }
}

/// The patterns that a workspace gives for its members.
pub fn read_members(manifest: &DataValue) -> (r: Vec<String>)
    ensures
        r.deep_view() == member_patterns(manifest.deep_view()),
{
    let mut r: Vec<String> = Vec::new();
    if let Some(workspace) = manifest.get("workspace") {
        if let Some(members) = workspace.list_at("members") {
            let ghost all = members.deep_view();
            let mut i: usize = 0;
            assert(r.deep_view() =~= texts_in(all.take(0)));
            while i < members.len()
                invariant
                    i <= members.len(),
                    all == members.deep_view(),
                    r.deep_view() == texts_in(all.take(i as int)),
                decreases members.len() - i,
            {
                let ghost before = r.deep_view();
                assert(all.take(i + 1).drop_last() =~= all.take(i as int));
                assert(all[i as int] == members@[i as int].deep_view());
                if let Some(item) = members[i].as_str() {
                    r.push(item.to_string());
                    assert(r.deep_view() =~= before.push(item@));
                }
                i = i + 1;
            }
            assert(all.take(i as int) =~= all);
            return r;
        }
    }
    assert(r.deep_view() =~= member_patterns(manifest.deep_view()));
    r
}

/// The patterns that the text of a workspace manifest gives for its members.
pub fn workspace_patterns(manifest: &str) -> (r: Vec<String>)
    ensures
        r.deep_view() == workspace_patterns_of(manifest@),
{
    match data::parse_toml(manifest) {
        Some(manifest) => read_members(&manifest),
        None => {
            let r: Vec<String> = Vec::new();
            assert(r.deep_view() =~= Seq::<Seq<char>>::empty());
            r
        },
    }
}

/// How the directories that a pattern stands for are found.
#[derive(Debug, PartialEq)]
pub enum GlobPlan {
    /// It is this one, where it is there.
    Exact(String),
    /// They lie in a directory, their names match a segment, and behind each
    /// stands a further path.
    Star { prefix: Vec<String>, segment: String, after: Vec<String> },
}

/// The contents of a [`GlobPlan`].
#[verifier::ext_equal]
pub enum GlobPlanView {
    Exact(Seq<char>),
    Star { prefix: Seq<Seq<char>>, segment: Seq<char>, after: Seq<Seq<char>> },
}

impl DeepView for GlobPlan {
    type V = GlobPlanView;

    open spec fn deep_view(&self) -> GlobPlanView {
        match self {
            GlobPlan::Exact(value) => GlobPlanView::Exact(value.deep_view()),
            GlobPlan::Star { prefix, segment, after } => GlobPlanView::Star {
                prefix: prefix.deep_view(),
                segment: segment.deep_view(),
                after: after.deep_view(),
            },
        }
    }
}

impl Duplicate for GlobPlan {
    fn duplicate(&self) -> (copy: Self) {
        match self {
            GlobPlan::Exact(value) => GlobPlan::Exact(value.duplicate()),
            GlobPlan::Star { prefix, segment, after } => GlobPlan::Star {
                prefix: prefix.duplicate(),
                segment: segment.duplicate(),
                after: after.duplicate(),
            },
        }
    }
}

impl Clone for GlobPlan {
    fn clone(&self) -> (copy: Self)
        ensures
            copy.deep_view() == self.deep_view(),
    {
        self.duplicate()
    }
}

/// The position of the first part with a star in it.
pub open spec fn star_position(parts: Seq<Seq<char>>) -> nat
    decreases parts.len(),
{
    if parts.len() == 0 || parts[0].contains('*') {
        0
    } else {
        1 + star_position(parts.drop_first())
    }
}

/// How the directories that a pattern stands for are found.
pub open spec fn plan_of(pattern: Seq<char>) -> GlobPlanView {
    let pat = text::trimmed_of(pattern, '/');
    if !pat.contains('*') {
        GlobPlanView::Exact(pat)
    } else {
        let parts = text::split_on(pat, '/');
        let i = star_position(parts) as int;
        GlobPlanView::Star {
            prefix: parts.take(i),
            segment: parts[i],
            after: parts.skip(i + 1),
        }
    }
}

/// Whether the text holds a star.
fn has_star(s: &str) -> (r: bool)
    ensures
        r == s@.contains('*'),
{
    let v = text::chars(s);
    let mut i: usize = 0;
    while i < v.len()
        invariant
            i <= v.len(),
            v@ == s@,
            forall|k: int| 0 <= k < i ==> v@[k] != '*',
        decreases v.len() - i,
    {
        if v[i] == '*' {
            assert(s@[i as int] == '*');
            return true;
        }
        i = i + 1;
    }
    false
}

/// Where the whole holds a star, one of the parts does.
proof fn lemma_star_in_parts(s: Seq<char>)
    requires
        s.contains('*'),
    ensures
        star_position(text::split_on(s, '/')) < text::split_on(s, '/').len(),
    decreases s.len(),
{
    let n = text::before_first(s, '/') as int;
    text::lemma_before_first_bounds(s, '/');
    let parts = text::split_on(s, '/');
    let k = choose|k: int| 0 <= k < s.len() && s[k] == '*';
    if n < s.len() {
        let rest = s.skip(n + 1);
        assert(parts.drop_first() =~= text::split_on(rest, '/'));
        if k < n {
            assert(s.take(n)[k] == '*');
            assert(parts[0].contains('*'));
        } else {
            assert(s[n] == '/');
            assert(rest[k - n - 1] == '*');
            lemma_star_in_parts(rest);
        }
    }
}

/// How the directories that a pattern stands for are found.
pub fn plan_glob(pattern: &str) -> (r: GlobPlan)
    ensures
        r.deep_view() == plan_of(pattern@),
{
    let pat = text::trim_matches(pattern, '/');
    if !has_star(pat.as_str()) {
        return GlobPlan::Exact(pat);
    }
    let parts = text::split(pat.as_str(), '/');
    let ghost all = parts.deep_view();
    proof {
        lemma_star_in_parts(pat@);
        assert(all.skip(0) =~= all);
    }
    let mut i: usize = 0;
    let mut searching = true;
    while searching
        invariant
            i < parts.len(),
            all == parts.deep_view(),
            star_position(all) < all.len(),
            star_position(all) == i + star_position(all.skip(i as int)),
            !searching ==> star_position(all) == i,
        decreases parts.len() - i, searching as int,
    {
        assert(all.skip(i as int)[0] == all[i as int]);
        assert(all[i as int] == parts@[i as int]@);
        if has_star(parts[i].as_str()) {
            searching = false;
        } else {
            assert(all.skip(i as int).drop_first() =~= all.skip(i + 1));
            i = i + 1;
        }
    }
    let prefix = text_range(&parts, 0, i);
    let after = text_range(&parts, i + 1, parts.len());
    assert(all.subrange(0, i as int) =~= all.take(i as int));
    assert(all.subrange(i + 1, all.len() as int) =~= all.skip(i + 1));
    assert(all[i as int] == parts@[i as int]@);
    GlobPlan::Star { prefix, segment: parts[i].clone(), after }
}

/// The texts from one position up to another.
fn text_range(items: &Vec<String>, from: usize, to: usize) -> (r: Vec<String>)
    requires
        from <= to <= items.len(),
    ensures
        r.deep_view() == items.deep_view().subrange(from as int, to as int),
{
    let ghost all = items.deep_view();
    let mut r: Vec<String> = Vec::new();
    let mut i: usize = from;
    while i < to
        invariant
            from <= i <= to <= items.len(),
            all == items.deep_view(),
            r.deep_view() == all.subrange(from as int, i as int),
        decreases to - i,
    {
        let ghost before = r.deep_view();
        assert(all[i as int] == items@[i as int]@);
        r.push(items[i].clone());
        assert(r.deep_view() =~= before.push(all[i as int]));
        i = i + 1;
        assert(r.deep_view() =~= all.subrange(from as int, i as int));
    }
    r
}

/// The name is what the pattern stands for, where its first star stands for
/// any text.
pub open spec fn glob_matches(pattern: Seq<char>, name: Seq<char>) -> bool {
    let n = text::before_first(pattern, '*') as int;
    if n < pattern.len() {
        exists|middle: Seq<char>|
            name == #[trigger] (pattern.take(n) + middle + pattern.skip(n + 1))
    } else {
        name == pattern
    }
}

/// Whether the name is what the pattern stands for, where its first star
/// stands for any text.
pub fn glob_match(pattern: &str, name: &str) -> (r: bool)
    ensures
        r == glob_matches(pattern@, name@),
{
    let v = text::chars(pattern);
    let mut n: usize = 0;
    while n < v.len() && v[n] != '*'
        invariant
            n <= v.len(),
            v@ == pattern@,
            forall|k: int| 0 <= k < n ==> #[trigger] v@[k] != '*',
        decreases v.len() - n,
    {
        n = n + 1;
    }
    proof {
        text::lemma_before_first(pattern@, '*', n as int);
    }
    if n == v.len() {
        return text::same(name, pattern);
    }
    let prefix = text::substring(&v, 0, n);
    let suffix = text::substring(&v, n + 1, v.len());
    let ghost p = pattern@.take(n as int);
    let ghost s = pattern@.skip(n + 1);
    proof {
        assert(prefix@ =~= p);
        assert(suffix@ =~= s);
    }
    let len = text::chars(name).len();
    let r = text::starts_with(name, prefix.as_str()) && text::ends_with(name, suffix.as_str())
        && len >= n && len - n >= v.len() - n - 1;
    proof {
        if r {
            let middle = name@.subrange(n as int, len - s.len());
            assert(name@ =~= p + middle + s) by {
                assert(name@.take(n as int) =~= p);
                assert(name@.skip(len - s.len()) =~= s);
                assert(name@ =~= name@.take(n as int) + middle + name@.skip(len - s.len()));
            }
        }
        if exists|middle: Seq<char>| name@ == #[trigger] (p + middle + s) {
            let middle = choose|middle: Seq<char>| name@ == #[trigger] (p + middle + s);
            assert(name@.take(n as int) =~= p);
            assert(name@.skip(name@.len() - s.len()) =~= s);
            assert(p.is_prefix_of(name@));
            assert(s.is_suffix_of(name@));
        }
    }
    r
}

/// The directories that a plan stands for, as paths from the root of the project,
/// given the names in the directory that it looks into.
pub open spec fn planned_dirs(plan: GlobPlanView, names: Seq<Seq<char>>) -> Seq<Seq<char>> {
    match plan {
        GlobPlanView::Exact(path) => seq![path],
        GlobPlanView::Star { prefix, segment, after } => dirs_below(prefix, segment, after, names),
    }
}

/// The paths through the names that match a segment.
pub open spec fn dirs_below(
    prefix: Seq<Seq<char>>,
    segment: Seq<char>,
    after: Seq<Seq<char>>,
    names: Seq<Seq<char>>,
) -> Seq<Seq<char>>
    decreases names.len(),
{
    if names.len() == 0 {
        Seq::empty()
    } else {
        let front = dirs_below(prefix, segment, after, names.drop_last());
        if glob_matches(segment, names.last()) {
            front.push(text::joined(prefix.push(names.last()) + after, "/"@))
        } else {
            front
        }
    }
}

/// The directories that a plan stands for, as paths from the root of the project,
/// given the names in the directory that it looks into. Those of them that are
/// there are meant.
pub fn glob_expand(plan: &GlobPlan, names: &Vec<String>) -> (r: Vec<String>)
    ensures
        r.deep_view() == planned_dirs(plan.deep_view(), names.deep_view()),
{
    match plan {
        GlobPlan::Exact(path) => {
            let r = vec![path.clone()];
            assert(r.deep_view() =~= seq![path@]);
            r
        },
        GlobPlan::Star { prefix, segment, after } => {
            let ghost all = names.deep_view();
            let ghost pre = prefix.deep_view();
            let ghost post = after.deep_view();
            let mut r: Vec<String> = Vec::new();
            let mut i: usize = 0;
            while i < names.len()
                invariant
                    i <= names.len(),
                    all == names.deep_view(),
                    pre == prefix.deep_view(),
                    post == after.deep_view(),
                    r.deep_view() == dirs_below(pre, segment@, post, all.take(i as int)),
                decreases names.len() - i,
            {
                let ghost before = r.deep_view();
                assert(all.take(i + 1).drop_last() =~= all.take(i as int));
                assert(all[i as int] == names@[i as int]@);
                if glob_match(segment.as_str(), names[i].as_str()) {
                    let mut parts = prefix.duplicate();
                    parts.push(names[i].clone());
                    assert(parts.deep_view() =~= pre.push(all[i as int]));
                    push_all(&mut parts, after);
                    let path = text::join(&parts, "/");
                    let ghost made = path@;
                    r.push(path);
                    assert(r.deep_view() =~= before.push(made));
                }
                i = i + 1;
            }
            assert(all.take(i as int) =~= all);
            r
        },
    }
}

/// Appends the texts.
fn push_all(items: &mut Vec<String>, more: &Vec<String>)
    ensures
        final(items).deep_view() == old(items).deep_view() + more.deep_view(),
{
    let ghost start = items.deep_view();
    let ghost all = more.deep_view();
    let mut i: usize = 0;
    assert(start + all.take(0) =~= start);
    while i < more.len()
        invariant
            i <= more.len(),
            all == more.deep_view(),
            items.deep_view() == start + all.take(i as int),
        decreases more.len() - i,
    {
        let ghost before = items.deep_view();
        assert(all[i as int] == more@[i as int]@);
        items.push(more[i].clone());
        assert(items.deep_view() =~= before.push(all[i as int]));
        i = i + 1;
        assert(items.deep_view() =~= start + all.take(i as int));
    }
    assert(all.take(i as int) =~= all);
}

/// The paths from the root, each once, in the order in which they come.
pub open spec fn members_of(found: Seq<Seq<char>>) -> Seq<Seq<char>>
    decreases found.len(),
{
    if found.len() == 0 {
        Seq::empty()
    } else {
        let before = members_of(found.drop_last());
        if exists|i: int|
            0 <= i < before.len() && text::path_components("/"@ + #[trigger] before[i])
                == text::path_components("/"@ + found.last()) {
            before
        } else {
            before.push(found.last())
        }
    }
}

/// The directories of the members of a workspace, as paths from its root, each once,
/// in the order in which its patterns give them.
pub fn workspace_members(found: &Vec<String>) -> (r: Vec<String>)
    ensures
        r.deep_view() == members_of(found.deep_view()),
{
    let ghost all = found.deep_view();
    let mut r: Vec<String> = Vec::new();
    let mut i: usize = 0;
    while i < found.len()
        invariant
            i <= found.len(),
            all == found.deep_view(),
            r.deep_view() == members_of(all.take(i as int)),
        decreases found.len() - i,
    {
        let ghost before = r.deep_view();
        assert(all.take(i + 1).drop_last() =~= all.take(i as int));
        assert(all[i as int] == found@[i as int]@);
        if !is_member(&r, found[i].as_str()) {
            r.push(found[i].clone());
            assert(r.deep_view() =~= before.push(all[i as int]));
        }
        i = i + 1;
    }
    assert(all.take(i as int) =~= all);
    r
}

/// Whether the path from the root is among the members.
fn is_member(members: &Vec<String>, path: &str) -> (r: bool)
    ensures
        r == exists|i: int|
            0 <= i < members.deep_view().len() && text::path_components(
                "/"@ + #[trigger] members.deep_view()[i],
            ) == text::path_components("/"@ + path@),
{
    let ghost all = members.deep_view();
    let wanted = text::concat("/", path);
    let mut i: usize = 0;
    while i < members.len()
        invariant
            i <= members.len(),
            all == members.deep_view(),
            wanted@ == "/"@ + path@,
            forall|k: int|
                0 <= k < i ==> text::path_components("/"@ + #[trigger] all[k])
                    != text::path_components("/"@ + path@),
        decreases members.len() - i,
    {
        assert(all[i as int] == members@[i as int]@);
        let member = text::concat("/", members[i].as_str());
        if text::same_path(member.as_str(), wanted.as_str()) {
            return true;
        }
        i = i + 1;
    }
    false
}

/// The directories with the modules of a project, as paths from its root: those of
/// its members, or else the root alone.
pub open spec fn module_dirs_of(
    build_system: Option<BuildSystem>,
    members: Seq<Seq<char>>,
) -> Seq<Seq<char>> {
    if build_system != Some(BuildSystem::RustCargo) {
        Seq::empty()
    } else if members.len() == 0 {
        seq![Seq::empty()]
    } else {
        members
    }
}

/// The directories with the modules of a project, as paths from its root.
pub fn module_dirs(build_system: Option<BuildSystem>, members: Vec<String>) -> (r: Vec<String>)
    ensures
        r.deep_view() == module_dirs_of(build_system, members.deep_view()),
{
    match build_system {
        Some(BuildSystem::RustCargo) => if members.len() == 0 {
            let r = vec![String::new()];
            assert(r.deep_view() =~= seq![Seq::<char>::empty()]);
            r
        } else {
            members
        },
        _ => Vec::new(),
    }
}

/// What the declaration of a public module looks like.
pub const PUB_MOD: &'static str = "^pub(?:\\([^)]*\\))?\\s+mod\\s+([a-zA-Z_][a-zA-Z0-9_]*)";

/// The name of the public module that a line declares.
pub fn parse_pub_mod(line: &str) -> (r: Option<String>)
    ensures
        r.deep_view() == patterns::first_group(PUB_MOD@, line@),
{
    patterns::capture(PUB_MOD, line)
}

/// The line of documentation that a line of code is, without the mark and the
/// blank behind it.
pub open spec fn doc_line(line: Seq<char>) -> Option<Seq<char>> {
    let code = text::trimmed_start(line);
    if "//!"@.is_prefix_of(code) {
        let rest = code.skip("//!"@.len() as int);
        Some(
            if " "@.is_prefix_of(rest) {
                rest.skip(" "@.len() as int)
            } else {
                rest
            },
        )
    } else {
        None
    }
}

/// What a line of code declares: the public module that the expression finds.
pub open spec fn declared(line: Seq<char>) -> Option<Seq<char>> {
    patterns::first_group(PUB_MOD@, text::trimmed_start(line))
}

/// The lines of documentation and the public modules of a file, where
/// `declared` says what each line declares. Reading stops with the last line
/// of documentation that is read.
pub open spec fn entry_lines(lines: Seq<Seq<char>>, declared: Seq<Option<Seq<char>>>) -> (
    Seq<Seq<char>>,
    Seq<Seq<char>>,
)
    decreases lines.len(),
{
    if lines.len() == 0 {
        (Seq::empty(), Seq::empty())
    } else {
        let (docs, modules) = entry_lines(lines.drop_last(), declared.drop_last());
        if docs.len() >= DOC_LINES {
            (docs, modules)
        } else {
            match doc_line(lines.last()) {
                Some(doc) => (docs.push(doc), modules),
                None => match declared.last() {
                    Some(module) => (docs, modules.push(module)),
                    None => (docs, modules),
                },
            }
        }
    }
}

/// What each line declares.
pub open spec fn declarations(lines: Seq<Seq<char>>) -> Seq<Option<Seq<char>>> {
    Seq::new(lines.len(), |i: int| declared(lines[i]))
}

/// The documentation and the public modules of the file with this text.
pub open spec fn rust_entry(code: Seq<char>) -> (Seq<char>, Seq<Seq<char>>) {
    let lines = text::line_seq(code);
    let (docs, modules) = entry_lines(lines, declarations(lines));
    (text::joined(docs, "\n"@), modules)
}

/// The documentation and the public modules of a file, given what each of its
/// lines declares.
pub fn read_rust_entry(lines: &Vec<String>, found: &Vec<Option<String>>) -> (r: (
    Vec<String>,
    Vec<String>,
))
    requires
        found@.len() == lines@.len(),
    ensures
        (r.0.deep_view(), r.1.deep_view()) == entry_lines(lines.deep_view(), found.deep_view()),
{
    let ghost all = lines.deep_view();
    let ghost names = found.deep_view();
    let mut docs: Vec<String> = Vec::new();
    let mut modules: Vec<String> = Vec::new();
    let mut i: usize = 0;
    proof {
        assert(docs.deep_view() =~= Seq::<Seq<char>>::empty());
        assert(modules.deep_view() =~= Seq::<Seq<char>>::empty());
    }
    while i < lines.len()
        invariant
            i <= lines.len() == found.len(),
            all == lines.deep_view(),
            names == found.deep_view(),
            (docs.deep_view(), modules.deep_view()) == entry_lines(
                all.take(i as int),
                names.take(i as int),
            ),
        decreases lines.len() - i,
    {
        let ghost d = docs.deep_view();
        let ghost m = modules.deep_view();
        proof {
            assert(all.take(i + 1).drop_last() =~= all.take(i as int));
            assert(names.take(i + 1).drop_last() =~= names.take(i as int));
            assert(all[i as int] == lines@[i as int]@);
            assert(names[i as int] == found@[i as int].deep_view());
        }
        if docs.len() < DOC_LINES {
            let code = text::trim_start(lines[i].as_str());
            if let Some(rest) = text::strip_prefix(code.as_str(), "//!") {
                let doc = match text::strip_prefix(rest.as_str(), " ") {
                    Some(doc) => doc,
                    None => rest,
                };
                let ghost v = doc@;
                docs.push(doc);
                assert(docs.deep_view() =~= d.push(v));
            } else if let Some(module) = &found[i] {
                modules.push(module.clone());
                assert(modules.deep_view() =~= m.push(module@));
            }
        }
        i = i + 1;
    }
    assert(all.take(i as int) =~= all);
    assert(names.take(i as int) =~= names);
    (docs, modules)
}

/// The documentation and the public modules of the file with this text.
pub fn parse_rust_entry(code: &str) -> (r: (String, Vec<String>))
    ensures
        r.deep_view() == rust_entry(code@),
{
    let lines = text::lines(code);
    let ghost all = lines.deep_view();
    let ghost expected = declarations(all);
    let mut found: Vec<Option<String>> = Vec::new();
    let mut i: usize = 0;
    assert(found.deep_view() =~= expected.take(0));
    while i < lines.len()
        invariant
            i <= lines.len(),
            found.len() == i,
            all == lines.deep_view(),
            expected == declarations(all),
            found.deep_view() == expected.take(i as int),
        decreases lines.len() - i,
    {
        let ghost before = found.deep_view();
        assert(all[i as int] == lines@[i as int]@);
        let line = text::trim_start(lines[i].as_str());
        let module = parse_pub_mod(line.as_str());
        found.push(module);
        assert(found.deep_view() =~= before.push(expected[i as int]));
        i = i + 1;
        assert(found.deep_view() =~= expected.take(i as int));
    }
    assert(expected.take(i as int) =~= expected);
    let (docs, modules) = read_rust_entry(&lines, &found);
    (text::join(&docs, "\n"), modules)
}

/// No more lines of documentation are read than are wanted, and there is a
/// line of the file for each of them and for each module.
pub proof fn law_entry_is_bounded(lines: Seq<Seq<char>>, declared: Seq<Option<Seq<char>>>)
    ensures
        entry_lines(lines, declared).0.len() <= DOC_LINES,
        entry_lines(lines, declared).0.len() + entry_lines(lines, declared).1.len() <= lines.len(),
    decreases lines.len(),
{
    if lines.len() > 0 {
        law_entry_is_bounded(lines.drop_last(), declared.drop_last());
    }
}

/// The name and the description of a crate, by its manifest or else by the
/// name of its directory: unknown where its manifest could not be read or
/// understood, or there is no name.
pub open spec fn crate_name(
    has_manifest: bool,
    manifest: Option<DataView>,
    dir_name: Option<Seq<char>>,
) -> Option<(Seq<char>, Seq<char>)> {
    if has_manifest {
        match manifest {
            Some(manifest) => Some(
                match manifest.field("package"@) {
                    Some(package) => (
                        package.text_or("name"@, Seq::empty()),
                        package.text_or("description"@, Seq::empty()),
                    ),
                    None => (Seq::empty(), Seq::empty()),
                },
            ),
            None => None,
        }
    } else {
        match dir_name {
            Some(name) => Some((name, Seq::empty())),
            None => None,
        }
    }
}

/// The first line of a text.
pub open spec fn first_line(s: Seq<char>) -> Seq<char> {
    if text::line_seq(s).len() > 0 {
        text::line_seq(s)[0]
    } else {
        Seq::empty()
    }
}

/// The entry of a crate in the list of modules. A crate whose manifest does not
/// describe it is described by the first line of its documentation.
pub open spec fn module_entry(
    named: Option<(Seq<char>, Seq<char>)>,
    path: Seq<char>,
    entry: (Seq<char>, Seq<Seq<char>>),
) -> Option<ModuleEntryView> {
    match named {
        Some((name, description)) => Some(
            ModuleEntryView {
                name,
                path,
                description: if description.len() > 0 {
                    description
                } else {
                    first_line(entry.0)
                },
                doc: cut(entry.0, CRATE_DOC_CAP as nat),
                modules: entry.1,
            },
        ),
        None => None,
    }
}

/// The name and the description of a crate.
pub fn name_crate(
    has_manifest: bool,
    manifest: Option<&DataValue>,
    dir_name: Option<&str>,
) -> (r: Option<(String, String)>)
    ensures
        r.deep_view() == crate_name(
            has_manifest,
            match manifest {
                Some(manifest) => Some(manifest.deep_view()),
                None => None,
            },
            match dir_name {
                Some(name) => Some(name@),
                None => None,
            },
        ),
{
    proof {
        reveal_strlit("");
        assert(""@ =~= Seq::<char>::empty());
    }
    if has_manifest {
        match manifest {
            Some(manifest) => match manifest.get("package") {
                Some(package) => Some(
                    (package.text_or("name", ""), package.text_or("description", "")),
                ),
                None => Some((String::new(), String::new())),
            },
            None => None,
        }
    } else {
        match dir_name {
            Some(name) => Some((name.to_string(), String::new())),
            None => None,
        }
    }
}

/// What a crate is described by: its manifest, and its documentation where the
/// manifest says nothing.
fn described(description: String, doc: &str) -> (r: String)
    ensures
        r@ == if description@.len() > 0 {
            description@
        } else {
            first_line(doc@)
        },
{
    if !text::same(description.as_str(), "") {
        proof {
            reveal_strlit("");
            if description@.len() == 0 {
                assert(description@ =~= ""@);
            }
        }
        return description;
    }
    proof {
        reveal_strlit("");
    }
    let lines = text::lines(doc);
    assert(lines.deep_view().len() == lines.len());
    if lines.len() > 0 {
        assert(lines.deep_view()[0] == lines@[0]@);
        lines[0].clone()
    } else {
        String::new()
    }
}

/// The files in which a crate can begin. A project that is itself the crate may
/// begin with a program in place of a library.
pub open spec fn crate_roots(path: Seq<char>) -> Seq<Seq<char>> {
    if path.len() == 0 {
        seq!["src/lib.rs"@, "src/main.rs"@]
    } else {
        seq!["src/lib.rs"@]
    }
}

/// The files in which the crate at this path of a project can begin, in the order
/// in which they are tried.
pub fn root_files(path: &str) -> (r: Vec<String>)
    ensures
        r.deep_view() == crate_roots(path@),
{
    proof {
        reveal_strlit("");
        if path@.len() == 0 {
            assert(path@ =~= ""@);
        }
    }
    let r = if text::same(path, "") {
        text::texts(["src/lib.rs", "src/main.rs"])
    } else {
        text::texts(["src/lib.rs"])
    };
    assert(r.deep_view() =~= crate_roots(path@));
    r
}

/// The entry of a crate in the list of modules, by the text of its manifest
/// and that of its root file, as far as they are there and could be read.
pub fn rust_module_entry(
    has_manifest: bool,
    manifest: Option<&str>,
    dir_name: Option<&str>,
    path: &str,
    root_file: Option<&str>,
) -> (r: Option<ModuleEntry>)
    ensures
        r.deep_view() == module_entry(
            crate_name(
                has_manifest,
                match manifest {
                    Some(manifest) => data::toml_document(manifest@),
                    None => None,
                },
                match dir_name {
                    Some(name) => Some(name@),
                    None => None,
                },
            ),
            path@,
            match root_file {
                Some(code) => rust_entry(code@),
                None => (Seq::empty(), Seq::empty()),
            },
        ),
{
    let parsed = match manifest {
        Some(manifest) => data::parse_toml(manifest),
        None => None,
    };
    let named = match &parsed {
        Some(parsed) => name_crate(has_manifest, Some(parsed), dir_name),
        None => name_crate(has_manifest, None, dir_name),
    };
    let (doc, modules) = match root_file {
        Some(code) => parse_rust_entry(code),
        None => {
            let none: Vec<String> = Vec::new();
            assert(none.deep_view() =~= Seq::<Seq<char>>::empty());
            (String::new(), none)
        },
    };
    match named {
        Some((name, manifest_description)) => Some(
            ModuleEntry {
                name,
                path: path.to_string(),
                description: described(manifest_description, doc.as_str()),
                doc: truncate_chars(doc.as_str(), CRATE_DOC_CAP),
                modules,
            },
        ),
        None => None,
    }
}

// ─── Further files ──────────────────────────────────────────────────────────

/// The files where programs of this kind begin.
pub open spec fn entry_files(build_system: Option<BuildSystem>) -> Seq<Seq<char>> {
    match build_system {
        Some(BuildSystem::RustCargo) => seq!["src/lib.rs"@, "src/main.rs"@],
        Some(BuildSystem::NodePackage) => seq!["src/index.ts"@, "src/index.js"@],
        Some(BuildSystem::Python) => seq!["__init__.py"@, "src/__init__.py"@],
        _ => Seq::empty(),
    }
}

/// The files where programs of this kind begin.
pub fn entry_candidates(build_system: Option<BuildSystem>) -> (r: Vec<String>)
    ensures
        r.deep_view() == entry_files(build_system),
{
    match build_system {
        Some(BuildSystem::RustCargo) => text::texts(["src/lib.rs", "src/main.rs"]),
        Some(BuildSystem::NodePackage) => text::texts(["src/index.ts", "src/index.js"]),
        Some(BuildSystem::Python) => text::texts(["__init__.py", "src/__init__.py"]),
        _ => {
            let r: Vec<String> = Vec::new();
            assert(r.deep_view() =~= Seq::<Seq<char>>::empty());
            r
        },
    }
}

/// The lines that are not blank.
pub open spec fn full_lines(lines: Seq<Seq<char>>) -> Seq<Seq<char>> {
    lines.filter(|line: Seq<char>| text::trimmed(line).len() > 0)
}

/// The beginning of a file: its first lines that are not blank.
pub open spec fn excerpt(code: Seq<char>) -> Seq<char> {
    text::joined(
        text::first_lines(full_lines(text::line_seq(code)), EXCERPT_LINES as int),
        "\n"@,
    )
}

/// The beginning of a file: its first lines that are not blank.
pub fn file_excerpt(code: &str) -> (r: String)
    ensures
        r@ == excerpt(code@),
{
    let lines = text::lines(code);
    let ghost all = lines.deep_view();
    let ghost keep = |line: Seq<char>| text::trimmed(line).len() > 0;
    let mut kept: Vec<String> = Vec::new();
    let mut i: usize = 0;
    proof {
        reveal(Seq::filter);
        assert(kept.deep_view() =~= all.take(0).filter(keep));
    }
    while i < lines.len()
        invariant
            i <= lines.len(),
            all == lines.deep_view(),
            keep == (|line: Seq<char>| text::trimmed(line).len() > 0),
            kept.deep_view() == all.take(i as int).filter(keep),
        decreases lines.len() - i,
    {
        let ghost before = kept.deep_view();
        proof {
            reveal(Seq::filter);
            assert(all.take(i + 1).drop_last() =~= all.take(i as int));
            assert(all[i as int] == lines@[i as int]@);
        }
        if !text::is_blank(lines[i].as_str()) {
            kept.push(lines[i].clone());
            assert(kept.deep_view() =~= before.push(all[i as int]));
        }
        i = i + 1;
    }
    assert(all.take(i as int) =~= all);
    let n: usize = if kept.len() > EXCERPT_LINES {
        EXCERPT_LINES
    } else {
        kept.len()
    };
    assert(kept.deep_view().take(n as int) =~= text::first_lines(
        full_lines(text::line_seq(code@)),
        EXCERPT_LINES as int,
    ));
    text::join_first(&kept, n, "\n")
}

/// The names that a readme may have, in the order in which they are tried.
pub open spec fn readme_files() -> Seq<Seq<char>> {
    seq!["README.md"@, "README"@, "README.rst"@, "README.txt"@, "readme.md"@]
}

/// The names that a readme may have, in the order in which they are tried.
pub fn readme_names() -> (r: Vec<String>)
    ensures
        r.deep_view() == readme_files(),
{
    text::texts(["README.md", "README", "README.rst", "README.txt", "readme.md"])
}

/// The readme: the first that could be read, cut where it is long.
pub open spec fn readme_text(contents: Seq<Option<Seq<char>>>) -> Seq<char>
    decreases contents.len(),
{
    if contents.len() == 0 {
        Seq::empty()
    } else {
        match contents[0] {
            Some(content) => cut(content, README_CAP as nat),
            None => readme_text(contents.drop_first()),
        }
    }
}

/// The readme, by what was read of each file that it may be.
pub fn pick_readme(contents: &Vec<Option<String>>) -> (r: String)
    ensures
        r@ == readme_text(contents.deep_view()),
{
    let ghost all = contents.deep_view();
    let mut i: usize = 0;
    assert(all.skip(0) =~= all);
    while i < contents.len()
        invariant
            i <= contents.len(),
            all == contents.deep_view(),
            readme_text(all) == readme_text(all.skip(i as int)),
        decreases contents.len() - i,
    {
        assert(all.skip(i as int)[0] == all[i as int]);
        assert(all[i as int] == contents@[i as int].deep_view());
        if let Some(content) = &contents[i] {
            return truncate_chars(content.as_str(), README_CAP);
        }
        assert(all.skip(i as int).drop_first() =~= all.skip(i + 1));
        i = i + 1;
    }
    String::new()
}

/// The file of instructions that is there: the first that is not blank.
pub open spec fn existing_of(names: Seq<Seq<char>>, contents: Seq<Option<Seq<char>>>) -> Option<
    (Seq<char>, Seq<char>),
>
    decreases names.len(),
{
    if names.len() == 0 {
        None
    } else if builtin_sources::usable(contents[0]) {
        Some((names[0], contents[0]->0))
    } else {
        existing_of(names.drop_first(), contents.drop_first())
    }
}

/// The file of instructions that is there, by what was read of the files of
/// these names.
pub fn pick_existing(names: &Vec<String>, contents: &Vec<Option<String>>) -> (r: Option<
    (String, String),
>)
    requires
        contents@.len() == names@.len(),
    ensures
        r.deep_view() == existing_of(names.deep_view(), contents.deep_view()),
{
    let ghost all = names.deep_view();
    let ghost texts = contents.deep_view();
    let mut i: usize = 0;
    proof {
        assert(all.skip(0) =~= all);
        assert(texts.skip(0) =~= texts);
    }
    while i < names.len()
        invariant
            i <= names.len() == contents.len(),
            all == names.deep_view(),
            texts == contents.deep_view(),
            existing_of(all, texts) == existing_of(all.skip(i as int), texts.skip(i as int)),
        decreases names.len() - i,
    {
        proof {
            assert(all.skip(i as int)[0] == all[i as int]);
            assert(texts.skip(i as int)[0] == texts[i as int]);
            assert(all[i as int] == names@[i as int]@);
            assert(texts[i as int] == contents@[i as int].deep_view());
            assert(all.skip(i as int).drop_first() =~= all.skip(i + 1));
            assert(texts.skip(i as int).drop_first() =~= texts.skip(i + 1));
        }
        if builtin_sources::is_usable(&contents[i]) {
            if let Some(content) = &contents[i] {
                return Some((names[i].clone(), content.clone()));
            }
        }
        i = i + 1;
    }
    None
}

/// The documents that a project may have in its root.
pub open spec fn root_documents() -> Seq<Seq<char>> {
    seq!["ARCHITECTURE.md"@, "CONTRIBUTING.md"@, "CHANGELOG.md"@, "DESIGN.md"@]
}

/// The documents that a project may have in its root.
pub fn document_names() -> (r: Vec<String>)
    ensures
        r.deep_view() == root_documents(),
{
    text::texts(["ARCHITECTURE.md", "CONTRIBUTING.md", "CHANGELOG.md", "DESIGN.md"])
}

/// A file in the directory of documents is one to refer to.
pub fn is_document(ext: &str) -> (r: bool)
    ensures
        r == (ext@ == "md"@),
{
    text::same(ext, "md")
}

/// The names that are marked.
pub open spec fn marked(names: Seq<Seq<char>>, marks: Seq<bool>) -> Seq<Seq<char>>
    decreases names.len(),
{
    if names.len() == 0 {
        Seq::empty()
    } else {
        let before = marked(names.drop_last(), marks.drop_last());
        if marks.last() {
            before.push(names.last())
        } else {
            before
        }
    }
}

/// The documents to refer to, in ascending order: those in the root that are
/// there, and the others that were found.
pub fn inventory_docs(present: &Vec<bool>, found: &Vec<String>) -> (r: Vec<String>)
    requires
        present@.len() == root_documents().len(),
    ensures
        repo_map::ascending(r.deep_view()),
        r.deep_view().to_multiset() == (marked(root_documents(), present@)
            + found.deep_view()).to_multiset(),
{
    let names = document_names();
    let ghost all = names.deep_view();
    let mut links: Vec<String> = Vec::new();
    let mut i: usize = 0;
    while i < names.len()
        invariant
            i <= names.len() == present.len(),
            all == names.deep_view(),
            links.deep_view() == marked(all.take(i as int), present@.take(i as int)),
        decreases names.len() - i,
    {
        let ghost before = links.deep_view();
        assert(all.take(i + 1).drop_last() =~= all.take(i as int));
        assert(present@.take(i + 1).drop_last() =~= present@.take(i as int));
        assert(all[i as int] == names@[i as int]@);
        if present[i] {
            links.push(names[i].clone());
            assert(links.deep_view() =~= before.push(all[i as int]));
        }
        i = i + 1;
    }
    assert(all.take(i as int) =~= all);
    assert(present@.take(i as int) =~= present@);
    let mut rest = found.duplicate();
    let ghost front = links.deep_view();
    let ghost back = rest.deep_view();
    links.append(&mut rest);
    assert(links.deep_view() =~= front + back);
    repo_map::sort_paths(&links)
}

/// What is said of the files of a project, by what the command that lists them
/// printed.
pub open spec fn tree_text(output: Option<Seq<char>>) -> Seq<char> {
    match output {
        Some(output) => if text::trimmed(output).len() > 0 {
            text::trimmed(output)
        } else {
            "(file tree unavailable)"@
        },
        None => "(file tree unavailable)"@,
    }
}

/// What is said of the files of a project, by what the command that lists them
/// printed.
pub fn scan_file_tree(output: Option<&str>) -> (r: String)
    ensures
        r@ == tree_text(
            match output {
                Some(output) => Some(output@),
                None => None,
            },
        ),
{
    match output {
        Some(output) => if text::is_blank(output) {
            "(file tree unavailable)".to_string()
        } else {
            text::trim(output)
        },
        None => "(file tree unavailable)".to_string(),
    }
}

/// What a command printed, without the white space around it, or else a word
/// for nothing.
pub open spec fn printed_or(output: Option<Seq<char>>, nothing: Seq<char>) -> Seq<char> {
    match output {
        Some(output) => if text::trimmed(output).len() > 0 {
            text::trimmed(output)
        } else {
            nothing
        },
        None => nothing,
    }
}

/// What a command printed, without the white space around it, or else a word
/// for nothing.
fn print_or(output: Option<&str>, nothing: &str) -> (r: String)
    ensures
        r@ == printed_or(
            match output {
                Some(output) => Some(output@),
                None => None,
            },
            nothing@,
        ),
{
    match output {
        Some(output) => if text::is_blank(output) {
            nothing.to_string()
        } else {
            text::trim(output)
        },
        None => nothing.to_string(),
    }
}

/// The branch and the last commits, by what two commands printed.
pub fn scan_git(branch: Option<&str>, commits: Option<&str>) -> (r: (String, String))
    ensures
        r.0@ == printed_or(
            match branch {
                Some(branch) => Some(branch@),
                None => None,
            },
            "(not a git repo or no branch)"@,
        ),
        r.1@ == printed_or(
            match commits {
                Some(commits) => Some(commits@),
                None => None,
            },
            "(no commits)"@,
        ),
{
    (print_or(branch, "(not a git repo or no branch)"), print_or(commits, "(no commits)"))
}

// ─── Laws ───────────────────────────────────────────────────────────────────

/// A project is built by the first of the systems of which it has a manifest: Cargo, npm,
/// Python, Go, Make and CMake, in this order.
pub proof fn law_first_manifest_counts(files: ManifestFilesView)
    ensures
        ({
            let system = build_system_of(files);
            let python = files.pyproject_toml || files.setup_py || files.requirements_txt;
            &&& system == Some(BuildSystem::RustCargo) <==> files.cargo_toml
            &&& system == Some(BuildSystem::NodePackage) <==> !files.cargo_toml
                && files.package_json
            &&& system == Some(BuildSystem::Python) <==> !files.cargo_toml && !files.package_json
                && python
            &&& system == Some(BuildSystem::GoModule) <==> !files.cargo_toml
                && !files.package_json && !python && files.go_mod
            &&& system == Some(BuildSystem::Make) <==> !files.cargo_toml && !files.package_json
                && !python && !files.go_mod && files.makefile
            &&& system == Some(BuildSystem::Cmake) <==> !files.cargo_toml && !files.package_json
                && !python && !files.go_mod && !files.makefile && files.cmake_lists
            &&& system is None <==> !files.cargo_toml && !files.package_json && !python
                && !files.go_mod && !files.makefile && !files.cmake_lists
        }),
{
}

/// The version that a dependency asks for: the text itself, or what its table says; one that
/// is left to the workspace says so.
pub proof fn law_version_is_read(version: Seq<char>, table: Seq<(Seq<char>, DataView)>)
    ensures
        version_of(DataView::Text(version)) == version,
        data::entry_of(table, "version"@) == Some(DataView::Text(version)) ==> version_of(
            DataView::Object(table),
        ) == version,
        data::entry_of(table, "version"@) is None && data::entry_of(table, "workspace"@) == Some(
            DataView::Bool(true),
        ) ==> version_of(DataView::Object(table)) == "{workspace}"@,
        data::entry_of(table, "version"@) is None && data::entry_of(table, "workspace"@) is None
            ==> version_of(DataView::Object(table)).len() == 0,
        version_of(DataView::Null).len() == 0,
{
}

/// The dependencies that are listed are the first of a manifest, in their order, each with
/// the version that it asks for: as many as there are, but at most sixty.
pub proof fn law_dependencies_are_listed(entries: Seq<(Seq<char>, DataView)>)
    ensures
        ({
            let cargo = listed_dependencies(entries, None);
            let node = node_dependencies(entries);
            &&& entries.len() <= 60 ==> cargo.len() == entries.len() && node.len()
                == entries.len()
            &&& entries.len() > 60 ==> cargo.len() == 60 && node.len() == 60
            &&& forall|i: int|
                0 <= i < entries.len() && i < 60 ==> #[trigger] cargo[i] == (
                    entries[i].0,
                    version_of(entries[i].1),
                )
            &&& forall|i: int|
                0 <= i < entries.len() && i < 60 ==> (#[trigger] node[i]).0 == entries[i].0 && (
                entries[i].1 matches DataView::Text(version) ==> node[i].1 == version)
        }),
    decreases entries.len(),
{
    if entries.len() > 0 {
        law_dependencies_are_listed(entries.drop_last());
    }
}

/// A dependency that is skipped is never listed; every other is, up to the bound, behind
/// those before it.
pub proof fn law_skipped_dependency(
    entries: Seq<(Seq<char>, DataView)>,
    skip: Seq<char>,
    entry: (Seq<char>, DataView),
)
    ensures
        forall|i: int|
            0 <= i < listed_dependencies(entries, Some(skip)).len() ==> (
            #[trigger] listed_dependencies(entries, Some(skip))[i]).0 != skip,
        entry.0 != skip && listed_dependencies(entries, Some(skip)).len() < 60
            ==> listed_dependencies(entries.push(entry), Some(skip)) == listed_dependencies(
            entries,
            Some(skip),
        ).push((entry.0, version_of(entry.1))),
        entry.0 == skip ==> listed_dependencies(entries.push(entry), Some(skip))
            == listed_dependencies(entries, Some(skip)),
    decreases entries.len(),
{
    assert(entries.push(entry).drop_last() =~= entries);
    if entries.len() > 0 {
        law_skipped_dependency(entries.drop_last(), skip, entry);
    }
}

/// What a manifest of Cargo says: the name, the version and the description of its package,
/// or else the name of the directory for a workspace; and its dependencies, its own before
/// those at the root.
pub proof fn law_cargo_manifest_is_read(manifest: DataView, dir_name: Option<Seq<char>>)
    ensures
        ({
            let facts = cargo_manifest_facts(manifest, dir_name);
            let workspace = manifest.field("workspace"@) is Some;
            let own = match manifest.field("package"@) {
                Some(package) => package.field("dependencies"@),
                None => None,
            };
            &&& manifest.object_field("package"@) matches Some(package) ==> {
                &&& data::entry_of(package, "name"@) matches Some(DataView::Text(name))
                    ==> facts.name == name
                &&& data::entry_of(package, "version"@) matches Some(DataView::Text(version))
                    ==> facts.version == version
                &&& data::entry_of(package, "description"@) matches Some(
                    DataView::Text(description),
                ) ==> facts.description == description
            }
            &&& manifest.field("package"@) is None && workspace ==> {
                &&& dir_name matches Some(name) ==> facts.name == name
                &&& dir_name is None ==> facts.name == "workspace"@
            }
            &&& manifest.field("package"@) is None && !workspace ==> facts.name.len() == 0
            &&& !workspace && own is None ==> (manifest.object_field("dependencies"@) matches Some(
                entries,
            ) ==> facts.key_dependencies == listed_dependencies(entries, None))
            &&& manifest.field("workspace"@) matches Some(section) ==> (section.object_field(
                "dependencies"@,
            ) matches Some(entries) ==> facts.key_dependencies == listed_dependencies(
                entries,
                None,
            ))
        }),
{
}

/// The commands of each system are its own: a workspace of Cargo is tested as a whole, and
/// those of npm go by the manager of its packages.
pub proof fn law_commands_go_by_the_system(manager: Seq<char>, workspace: bool, i: int)
    ensures
        cargo_commands(true)[1] == ("test"@, "cargo test --workspace"@),
        cargo_commands(false)[1] == ("test"@, "cargo test"@),
        cargo_commands(workspace)[0] == ("build"@, "cargo build"@),
        cargo_commands(workspace).len() == 5,
        node_commands(manager).len() == 5,
        0 <= i < 5 ==> manager.is_prefix_of(node_commands(manager)[i].1),
        package_manager(true, workspace) == "pnpm"@,
        package_manager(false, true) == "yarn"@,
        package_manager(false, false) == "npm"@,
{
    let commands = node_commands(manager);
    if 0 <= i < 5 {
        assert(commands[i].1.take(manager.len() as int) =~= manager);
    }
}

/// What a manifest of npm says: its name, version and description, and its dependencies.
pub proof fn law_node_manifest_is_read(manifest: DataView, manager: Seq<char>)
    ensures
        ({
            let facts = node_manifest_facts(manifest, manager);
            &&& manifest.text_field("name"@) matches Some(name) ==> facts.name == name
            &&& manifest.text_field("version"@) matches Some(version) ==> facts.version == version
            &&& manifest.text_field("description"@) matches Some(text) ==> facts.description
                == text
            &&& manifest.text_field("name"@) is None ==> facts.name.len() == 0
            &&& manifest.object_field("dependencies"@) matches Some(entries)
                ==> facts.key_dependencies == node_dependencies(entries)
            &&& manifest.field("dependencies"@) is None ==> facts.key_dependencies.len() == 0
            &&& facts.commands == node_commands(manager)
        }),
{
}

/// A requirement is cut behind its name: the longest beginning of letters, digits, `-`, `_`
/// and `.`; what follows is the version.
pub proof fn law_requirement_is_cut(name: Seq<char>, rest: Seq<char>)
    requires
        forall|i: int|
            0 <= i < name.len() ==> ({
                let c = #[trigger] name[i];
                text::letter_or_digit(c) || c == '-' || c == '_' || c == '.'
            }),
        rest.len() > 0 ==> !text::letter_or_digit(rest[0]) && rest[0] != '-' && rest[0] != '_'
            && rest[0] != '.',
    ensures
        requirement_parts(name + rest) == (name, text::trimmed(rest)),
{
    lemma_requirement_name(name, rest);
    let whole = name + rest;
    assert(whole.take(name.len() as int) =~= name);
    assert(whole.skip(name.len() as int) =~= rest);
}

proof fn lemma_requirement_name(name: Seq<char>, rest: Seq<char>)
    requires
        forall|i: int|
            0 <= i < name.len() ==> ({
                let c = #[trigger] name[i];
                text::letter_or_digit(c) || c == '-' || c == '_' || c == '.'
            }),
        rest.len() > 0 ==> !text::letter_or_digit(rest[0]) && rest[0] != '-' && rest[0] != '_'
            && rest[0] != '.',
    ensures
        requirement_name_len(name + rest) == name.len(),
    decreases name.len(),
{
    let whole = name + rest;
    if name.len() > 0 {
        let tail = name.drop_first();
        assert forall|i: int| 0 <= i < tail.len() implies ({
            let c = #[trigger] tail[i];
            text::letter_or_digit(c) || c == '-' || c == '_' || c == '.'
        }) by {
            assert(tail[i] == name[i + 1]);
        }
        lemma_requirement_name(tail, rest);
        assert(whole[0] == name[0]);
        assert(whole.drop_first() =~= tail + rest);
    } else {
        assert(whole =~= rest);
    }
}

/// A requirement that is added is listed behind those before it, up to sixty; what is no
/// text is passed over.
pub proof fn law_requirements_are_listed(items: Seq<DataView>, item: DataView)
    ensures
        listed_requirements(Seq::empty()).len() == 0,
        listed_requirements(items).len() <= 60,
        item matches DataView::Text(requirement) ==> listed_requirements(items).len() < 60
            ==> listed_requirements(items.push(item)) == listed_requirements(items).push(
            requirement_parts(requirement),
        ),
        !(item is Text) ==> listed_requirements(items.push(item)) == listed_requirements(items),
    decreases items.len(),
{
    assert(items.push(item).drop_last() =~= items);
    if items.len() > 0 {
        law_requirements_are_listed(items.drop_last(), item);
    }
}

/// What a manifest of Python says of the project itself counts, and what it says for Poetry
/// only where it says nothing of the project.
pub proof fn law_python_manifest_is_read(
    manifest: DataView,
    section: Seq<(Seq<char>, DataView)>,
)
    ensures
        ({
            let facts = python_manifest_facts(manifest);
            let named = {
                &&& data::entry_of(section, "name"@) matches Some(DataView::Text(name))
                    ==> facts.name == name
                &&& data::entry_of(section, "version"@) matches Some(DataView::Text(version))
                    ==> facts.version == version
                &&& data::entry_of(section, "description"@) matches Some(DataView::Text(text))
                    ==> facts.description == text
            };
            let poetry = match manifest.field("tool"@) {
                Some(tool) => tool.object_field("poetry"@),
                None => None,
            };
            &&& manifest.object_field("project"@) == Some(section) ==> {
                &&& named
                &&& data::entry_of(section, "dependencies"@) matches Some(DataView::List(items))
                    ==> facts.key_dependencies == listed_requirements(items)
            }
            &&& manifest.field("project"@) is None && poetry == Some(section) ==> {
                &&& named
                &&& data::entry_of(section, "dependencies"@) matches Some(
                    DataView::Object(entries),
                ) ==> facts.key_dependencies == listed_dependencies(entries, Some("python"@))
            }
            &&& manifest.field("project"@) is None && poetry is None ==> facts == no_facts()
        }),
{
}

/// The last line of a Go manifest that names the module gives the name, the last that names
/// the version of Go the version, and every other line changes neither.
pub proof fn law_go_lines_are_read(lines: Seq<Seq<char>>, line: Seq<char>, word: Seq<char>)
    ensures
        text::trimmed(line) == "module "@ + word ==> go_lines(lines.push(line)) == (
            text::trimmed(word),
            go_lines(lines).1,
        ),
        text::trimmed(line) == "go "@ + word && !word.contains('g') ==> go_lines(lines.push(line))
            == (go_lines(lines).0, text::trimmed(word)),
        !"module "@.is_prefix_of(text::trimmed(line)) && !"go "@.is_prefix_of(text::trimmed(line))
            ==> go_lines(lines.push(line)) == go_lines(lines),
        go_lines(Seq::empty()).0.len() == 0 && go_lines(Seq::empty()).1.len() == 0,
{
    reveal_strlit("module ");
    reveal_strlit("go ");
    assert(lines.push(line).drop_last() =~= lines);
    if text::trimmed(line) == "module "@ + word {
        assert(("module "@ + word).take(7) =~= "module "@);
        assert("module "@.is_prefix_of("module "@ + word));
        assert(("module "@ + word).skip(7) =~= word);
    }
    if text::trimmed(line) == "go "@ + word && !word.contains('g') {
        assert(("go "@ + word).take(3) =~= "go "@);
        assert("go "@.is_prefix_of("go "@ + word));
        assert(("go "@ + word)[0] == 'g');
        assert(!"module "@.is_prefix_of("go "@ + word)) by {
            assert("module "@[0] == 'm');
            if "module "@.is_prefix_of("go "@ + word) {
                assert(("go "@ + word).take(7)[0] == 'm');
            }
        }
        let none = Seq::<char>::empty();
        text::law_replaced(none, "go "@, word, none);
        assert(none + "go "@ + word =~= "go "@ + word);
        assert(none + none + word =~= word);
    }
}

/// Each target of a Makefile is a command, in its place, called by its name.
pub proof fn law_targets_are_commands(targets: Seq<Option<Seq<char>>>, target: Seq<char>)
    ensures
        make_commands(targets.push(Some(target))) == make_commands(targets).push(
            (target, "make "@ + target),
        ),
        make_commands(targets.push(None)) == make_commands(targets),
        make_commands(Seq::empty()).len() == 0,
        cmake_named_facts(Some(target)).name == target,
        cmake_named_facts(None).name.len() == 0,
        cmake_named_facts(Some(target)).commands == cmake_commands(),
{
    assert(targets.push(Some(target)).drop_last() =~= targets);
    assert(targets.push(None).drop_last() =~= targets);
}

/// What a file tells of how a project is worked on is noted exactly where the file is
/// there: the notes of the files of the table, and of a Python manifest those of its
/// sections.
pub proof fn law_conventions_are_noted(
    present: Seq<bool>,
    pyproject: Seq<char>,
    system: Option<BuildSystem>,
    i: int,
)
    requires
        present.len() == convention_table().len(),
        0 <= i < present.len(),
    ensures
        present[i] ==> conventions_of(present, None, system).contains(convention_table()[i].1),
        text::occurs(pyproject, "[tool.ruff"@) ==> conventions_of(
            present,
            Some(pyproject),
            system,
        ).contains("uses Ruff (config in pyproject.toml)"@),
        text::occurs(pyproject, "[tool.mypy"@) ==> conventions_of(
            present,
            Some(pyproject),
            system,
        ).contains("uses mypy (config in pyproject.toml)"@),
        text::occurs(pyproject, "[tool.pytest"@) ==> conventions_of(
            present,
            Some(pyproject),
            system,
        ).contains("uses pytest (config in pyproject.toml)"@),
        system != Some(BuildSystem::RustCargo) ==> conventions_of(present, None, system)
            == notes_on(convention_table(), present),
{
    let table = convention_table();
    let notes = notes_on(table, present);
    if present[i] {
        lemma_note_is_there(table, present, i);
        let k = choose|k: int| 0 <= k < notes.len() && notes[k] == table[i].1;
        assert(conventions_of(present, None, system)[k] == table[i].1);
    }
    let all = conventions_of(present, Some(pyproject), system);
    let a = note_if(
        text::occurs(pyproject, "[tool.ruff"@),
        "uses Ruff (config in pyproject.toml)"@,
    );
    let b = note_if(
        text::occurs(pyproject, "[tool.mypy"@),
        "uses mypy (config in pyproject.toml)"@,
    );
    if text::occurs(pyproject, "[tool.ruff"@) {
        assert(all[notes.len() as int] == "uses Ruff (config in pyproject.toml)"@);
    }
    if text::occurs(pyproject, "[tool.mypy"@) {
        assert(all[(notes.len() + a.len()) as int] == "uses mypy (config in pyproject.toml)"@);
    }
    if text::occurs(pyproject, "[tool.pytest"@) {
        assert(all[(notes.len() + a.len() + b.len()) as int]
            == "uses pytest (config in pyproject.toml)"@);
    }
    assert(notes + pyproject_notes(None) =~= notes);
}

proof fn lemma_note_is_there(checks: Seq<(Seq<char>, Seq<char>)>, present: Seq<bool>, i: int)
    requires
        checks.len() == present.len(),
        0 <= i < present.len(),
        present[i],
    ensures
        notes_on(checks, present).contains(checks[i].1),
    decreases checks.len(),
{
    let front = checks.drop_last();
    let before = notes_on(front, present.drop_last());
    let now = notes_on(checks, present);
    if i < front.len() {
        lemma_note_is_there(front, present.drop_last(), i);
        let k = choose|k: int| 0 <= k < before.len() && before[k] == front[i].1;
        assert(now[k] == checks[i].1);
    } else {
        assert(now[before.len() as int] == checks[i].1);
    }
}

/// A note is there only for a file that is.
pub proof fn law_no_other_conventions(
    checks: Seq<(Seq<char>, Seq<char>)>,
    present: Seq<bool>,
    k: int,
)
    requires
        checks.len() == present.len(),
        0 <= k < notes_on(checks, present).len(),
    ensures
        exists|i: int|
            0 <= i < checks.len() && present[i] && (#[trigger] checks[i]).1 == notes_on(
                checks,
                present,
            )[k],
    decreases checks.len(),
{
    let front = checks.drop_last();
    let before = notes_on(front, present.drop_last());
    if k < before.len() {
        law_no_other_conventions(front, present.drop_last(), k);
        let i = choose|i: int|
            0 <= i < front.len() && present.drop_last()[i] && (#[trigger] front[i]).1 == before[k];
        assert(checks[i] == front[i]);
        assert(present[i]);
    } else {
        assert(checks[checks.len() - 1] == checks.last());
    }
}

/// The patterns of the members of a workspace are the texts that its manifest lists, in
/// their order.
pub proof fn law_member_patterns(manifest: DataView, items: Seq<DataView>, item: DataView)
    ensures
        manifest.field("workspace"@) matches Some(workspace) ==> (workspace.list_field(
            "members"@,
        ) matches Some(members) ==> member_patterns(manifest) == texts_in(members)),
        manifest.field("workspace"@) is None ==> member_patterns(manifest).len() == 0,
        texts_in(Seq::empty()).len() == 0,
        item matches DataView::Text(pattern) ==> texts_in(items.push(item)) == texts_in(
            items,
        ).push(pattern),
        !(item is Text) ==> texts_in(items.push(item)) == texts_in(items),
{
    assert(items.push(item).drop_last() =~= items);
}

/// A pattern without a star stands for itself; one with a star is cut at the first part
/// that holds one, and its parts together are the pattern.
pub proof fn law_pattern_is_cut_at_its_star(pattern: Seq<char>)
    ensures
        ({
            let pat = text::trimmed_of(pattern, '/');
            &&& !pat.contains('*') ==> plan_of(pattern) == GlobPlanView::Exact(pat)
            &&& pat.contains('*') ==> (plan_of(pattern) matches GlobPlanView::Star {
                prefix,
                segment,
                after,
            } && segment.contains('*') && text::joined(prefix.push(segment) + after, seq!['/'])
                == pat && forall|i: int|
                0 <= i < prefix.len() ==> !(#[trigger] prefix[i]).contains('*'))
        }),
{
    let pat = text::trimmed_of(pattern, '/');
    if pat.contains('*') {
        let parts = text::split_on(pat, '/');
        text::law_split_and_joined(pat, '/');
        lemma_star_part(pat);
        lemma_star_position(parts);
        let i = star_position(parts) as int;
        assert(parts.take(i).push(parts[i]) + parts.skip(i + 1) =~= parts);
        assert forall|k: int| 0 <= k < parts.take(i).len() implies !(#[trigger] parts.take(
            i,
        )[k]).contains('*') by {
            assert(parts.take(i)[k] == parts[k]);
        }
    }
}

proof fn lemma_star_part(s: Seq<char>)
    requires
        s.contains('*'),
    ensures
        exists|i: int|
            0 <= i < text::split_on(s, '/').len() && (
                #[trigger] text::split_on(s, '/')[i]
            ).contains('*'),
    decreases s.len(),
{
    let n = text::before_first(s, '/') as int;
    text::lemma_before_first_bounds(s, '/');
    let parts = text::split_on(s, '/');
    if n >= s.len() {
        assert(parts[0] == s);
    } else {
        let k = choose|k: int| 0 <= k < s.len() && s[k] == '*';
        if k < n {
            assert(s.take(n)[k] == '*');
            assert(parts[0] == s.take(n));
        } else {
            let rest = s.skip(n + 1);
            assert(s[n] == '/');
            assert(rest[k - n - 1] == '*');
            lemma_star_part(rest);
            let others = text::split_on(rest, '/');
            let i = choose|i: int| 0 <= i < others.len() && (#[trigger] others[i]).contains('*');
            assert(parts[i + 1] == others[i]);
        }
    }
}

proof fn lemma_star_position(parts: Seq<Seq<char>>)
    requires
        exists|i: int| 0 <= i < parts.len() && (#[trigger] parts[i]).contains('*'),
    ensures
        star_position(parts) < parts.len(),
        parts[star_position(parts) as int].contains('*'),
        forall|i: int| 0 <= i < star_position(parts) ==> !(#[trigger] parts[i]).contains('*'),
    decreases parts.len(),
{
    if !parts[0].contains('*') {
        let rest = parts.drop_first();
        let i = choose|i: int| 0 <= i < parts.len() && (#[trigger] parts[i]).contains('*');
        assert(rest[i - 1] == parts[i]);
        lemma_star_position(rest);
        let n = star_position(rest) as int;
        assert(rest[n] == parts[n + 1]);
        assert forall|k: int| 0 <= k < star_position(parts) implies !(#[trigger] parts[k]).contains(
            '*',
        ) by {
            if k > 0 {
                assert(rest[k - 1] == parts[k]);
            }
        }
    }
}

/// A star stands for anything: a name fits where it is what stands before the star, anything,
/// and what stands behind it.
pub proof fn law_star_stands_for_anything(
    before: Seq<char>,
    middle: Seq<char>,
    after: Seq<char>,
    name: Seq<char>,
)
    requires
        !before.contains('*'),
    ensures
        glob_matches(before + seq!['*'] + after, before + middle + after),
        glob_matches(before + seq!['*'] + after, name) ==> before.is_prefix_of(name)
            && after.is_suffix_of(name) && name.len() >= before.len() + after.len(),
        glob_matches(before, name) <==> name == before,
{
    let pattern = before + seq!['*'] + after;
    let n = before.len() as int;
    assert forall|i: int| 0 <= i < n implies pattern[i] != '*' by {
        assert(pattern[i] == before[i]);
        assert(before.contains(before[i]));
    }
    text::lemma_before_first(pattern, '*', n);
    assert(pattern.take(n) =~= before);
    assert(pattern.skip(n + 1) =~= after);
    assert forall|i: int| 0 <= i < n implies before[i] != '*' by {
        assert(before.contains(before[i]));
    }
    text::lemma_before_first(before, '*', n);
    assert(before + middle + after == pattern.take(n) + middle + pattern.skip(n + 1));
    if glob_matches(pattern, name) {
        let m = choose|m: Seq<char>| name == #[trigger] (pattern.take(n) + m + pattern.skip(n + 1));
        assert(name.take(n) =~= before);
        assert(name.skip(name.len() - after.len()) =~= after);
    }
}

/// The directories of a pattern are those of the names that fit, each in its place between
/// what stands before and behind the star; a pattern without a star is one directory.
pub proof fn law_directories_that_fit(
    prefix: Seq<Seq<char>>,
    segment: Seq<char>,
    after: Seq<Seq<char>>,
    names: Seq<Seq<char>>,
    name: Seq<char>,
)
    ensures
        ({
            let plan = GlobPlanView::Star { prefix, segment, after };
            let dir = text::joined(prefix.push(name) + after, "/"@);
            &&& glob_matches(segment, name) ==> planned_dirs(plan, names.push(name))
                == planned_dirs(plan, names).push(dir)
            &&& !glob_matches(segment, name) ==> planned_dirs(plan, names.push(name))
                == planned_dirs(plan, names)
            &&& planned_dirs(plan, Seq::empty()).len() == 0
            &&& planned_dirs(GlobPlanView::Exact(name), names) == seq![name]
        }),
{
    assert(names.push(name).drop_last() =~= names);
}

/// Of the directories that were found each is a member, the first of those that are the
/// same path; no path is a member twice, and nothing else is a member.
pub proof fn law_members_are_found_once(found: Seq<Seq<char>>)
    ensures
        ({
            let members = members_of(found);
            &&& forall|k: int|
                0 <= k < found.len() ==> exists|i: int|
                    0 <= i < members.len() && text::path_components("/"@ + #[trigger] members[i])
                        == text::path_components("/"@ + #[trigger] found[k])
            &&& forall|i: int, j: int|
                0 <= i < j < members.len() ==> text::path_components("/"@ + #[trigger] members[i])
                    != text::path_components("/"@ + #[trigger] members[j])
            &&& forall|i: int| 0 <= i < members.len() ==> found.contains(#[trigger] members[i])
        }),
    decreases found.len(),
{
    if found.len() > 0 {
        let front = found.drop_last();
        let last = found.last();
        law_members_are_found_once(front);
        let before = members_of(front);
        let members = members_of(found);
        assert forall|i: int| 0 <= i < members.len() implies found.contains(#[trigger] members[i]) by {
            if i < before.len() {
                assert(members[i] == before[i]);
                let k = choose|k: int| 0 <= k < front.len() && front[k] == before[i];
                assert(found[k] == members[i]);
            } else {
                assert(found[found.len() - 1] == members[i]);
            }
        }
        assert forall|k: int| 0 <= k < found.len() implies exists|i: int|
            0 <= i < members.len() && text::path_components("/"@ + #[trigger] members[i])
                == text::path_components("/"@ + #[trigger] found[k]) by {
            if k < front.len() {
                assert(front[k] == found[k]);
                let i = choose|i: int|
                    0 <= i < before.len() && text::path_components("/"@ + #[trigger] before[i])
                        == text::path_components("/"@ + front[k]);
                assert(members[i] == before[i]);
            } else if members.len() > before.len() {
                assert(members[before.len() as int] == last);
            } else {
                let i = choose|i: int|
                    0 <= i < before.len() && text::path_components("/"@ + #[trigger] before[i])
                        == text::path_components("/"@ + last);
                assert(members[i] == before[i]);
            }
        }
        assert forall|i: int, j: int| 0 <= i < j < members.len() implies text::path_components(
            "/"@ + #[trigger] members[i],
        ) != text::path_components("/"@ + #[trigger] members[j]) by {
            assert(members[i] == before[i]);
            if j < before.len() {
                assert(members[j] == before[j]);
            } else {
                assert(members[j] == last);
            }
        }
    }
}

/// The modules of a Rust project are looked for in each of its members, or in its root
/// where it has none; those of other projects nowhere.
pub proof fn law_where_modules_are(system: BuildSystem, members: Seq<Seq<char>>)
    ensures
        members.len() > 0 ==> module_dirs_of(Some(BuildSystem::RustCargo), members) == members,
        members.len() == 0 ==> module_dirs_of(Some(BuildSystem::RustCargo), members) == seq![
            Seq::<char>::empty(),
        ],
        system != BuildSystem::RustCargo ==> module_dirs_of(Some(system), members).len() == 0,
        module_dirs_of(None, members).len() == 0,
        system == BuildSystem::RustCargo ==> entry_files(Some(system)) == seq![
            "src/lib.rs"@,
            "src/main.rs"@,
        ],
        entry_files(None).len() == 0,
{
}

/// A line of documentation is what follows its mark, without the one space behind it; every
/// other line is none.
pub proof fn law_documentation_line(space: Seq<char>, rest: Seq<char>)
    requires
        forall|i: int| 0 <= i < space.len() ==> text::white_space(#[trigger] space[i]),
    ensures
        doc_line(space + "//! "@ + rest) == Some(rest),
        rest.len() == 0 || rest[0] != ' ' ==> doc_line(space + "//!"@ + rest) == Some(rest),
        rest.len() > 0 && rest[0] != '/' && !text::white_space(rest[0]) ==> doc_line(space + rest)
            is None,
{
    reveal_strlit("//! ");
    reveal_strlit("//!");
    reveal_strlit(" ");
    let a = "//! "@ + rest;
    let b = "//!"@ + rest;
    assert(a[0] == '/' && b[0] == '/');
    lemma_without_space(space, a);
    lemma_without_space(space, b);
    assert(space + "//! "@ + rest =~= space + a);
    assert(space + "//!"@ + rest =~= space + b);
    assert(a.take(3) =~= "//!"@);
    assert("//!"@.is_prefix_of(a));
    assert(a.skip(3).take(1) =~= " "@);
    assert(" "@.is_prefix_of(a.skip(3)));
    assert(a.skip(3).skip(1) =~= rest);
    assert(b.take(3) =~= "//!"@);
    assert("//!"@.is_prefix_of(b));
    assert(b.skip(3) =~= rest);
    if " "@.is_prefix_of(rest) {
        assert(rest.take(1)[0] == ' ');
    }
    if rest.len() > 0 && rest[0] != '/' && !text::white_space(rest[0]) {
        lemma_without_space(space, rest);
        if "//!"@.is_prefix_of(rest) {
            assert(rest.take(3)[0] == '/');
        }
    }
}

proof fn lemma_without_space(space: Seq<char>, s: Seq<char>)
    requires
        forall|i: int| 0 <= i < space.len() ==> text::white_space(#[trigger] space[i]),
        s.len() > 0,
        !text::white_space(s[0]),
    ensures
        text::trimmed_start(space + s) == s,
    decreases space.len(),
{
    let whole = space + s;
    if space.len() > 0 {
        let rest = space.drop_first();
        assert forall|i: int| 0 <= i < rest.len() implies text::white_space(#[trigger] rest[i]) by {
            assert(rest[i] == space[i + 1]);
        }
        assert(whole[0] == space[0]);
        assert(whole.drop_first() =~= rest + s);
        lemma_without_space(rest, s);
    } else {
        assert(whole =~= s);
    }
}

/// A line of documentation, or else one that declares a module, is added to what is known
/// of a crate, as long as there are fewer than sixty lines of documentation; other lines
/// add nothing.
pub proof fn law_lines_of_a_crate(
    lines: Seq<Seq<char>>,
    modules: Seq<Option<Seq<char>>>,
    line: Seq<char>,
    module: Option<Seq<char>>,
)
    requires
        lines.len() == modules.len(),
    ensures
        ({
            let before = entry_lines(lines, modules);
            let now = entry_lines(lines.push(line), modules.push(module));
            &&& before.0.len() < 60 ==> {
                &&& doc_line(line) matches Some(doc) ==> now == (before.0.push(doc), before.1)
                &&& doc_line(line) is None ==> (module matches Some(name) ==> now == (
                    before.0,
                    before.1.push(name),
                ))
                &&& doc_line(line) is None && module is None ==> now == before
            }
            &&& before.0.len() >= 60 ==> now == before
        }),
{
    assert(lines.push(line).drop_last() =~= lines);
    assert(modules.push(module).drop_last() =~= modules);
}

/// What is known of a module: its name, its path, what its manifest says of it or else the
/// first line of its documentation, and its documentation with the modules it declares.
pub proof fn law_module_is_known(
    name: Seq<char>,
    description: Seq<char>,
    path: Seq<char>,
    doc: Seq<char>,
    modules: Seq<Seq<char>>,
)
    ensures
        module_entry(Some((name, description)), path, (doc, modules)) matches Some(entry) && {
            &&& entry.name == name
            &&& entry.path == path
            &&& entry.modules == modules
            &&& description.len() > 0 ==> entry.description == description
            &&& description.len() == 0 && text::line_seq(doc).len() > 0 ==> entry.description
                == text::line_seq(doc)[0]
            &&& text::byte_len(doc) <= 800 ==> entry.doc == doc
        },
        module_entry(None, path, (doc, modules)) is None,
{
}

/// The name of a crate is that of its manifest, where it has one that was understood, and
/// that of its directory where it has none.
pub proof fn law_crate_is_named(manifest: DataView, name: Seq<char>, package: DataView)
    ensures
        manifest.field("package"@) == Some(package) ==> (crate_name(
            true,
            Some(manifest),
            Some(name),
        ) matches Some((named, description)) && (package.text_field("name"@) matches Some(own)
            ==> named == own) && (package.text_field("description"@) matches Some(text)
            ==> description == text)),
        crate_name(true, None, Some(name)) is None,
        crate_name(false, Some(manifest), Some(name)) == Some((name, Seq::<char>::empty())),
        crate_name(false, Some(manifest), None) is None,
{
}

/// An excerpt holds the first lines of a file that are not blank, in order: at most forty.
pub proof fn law_excerpt_holds_the_first_lines(code: Seq<char>, n: int)
    requires
        0 <= n <= full_lines(text::line_seq(code)).len(),
        n == 40 || n < 40 && n == full_lines(text::line_seq(code)).len(),
    ensures
        text::in_order(excerpt(code), full_lines(text::line_seq(code)).take(n)),
{
    let shown = full_lines(text::line_seq(code)).take(n);
    assert(shown =~= text::first_lines(full_lines(text::line_seq(code)), EXCERPT_LINES as int));
    text::lemma_joined_in_order(shown, "\n"@);
}

/// A line stays exactly where it is not blank.
pub proof fn law_blank_lines_are_left_out(lines: Seq<Seq<char>>, line: Seq<char>)
    ensures
        text::trimmed(line).len() > 0 ==> full_lines(lines.push(line)) == full_lines(lines).push(
            line,
        ),
        text::trimmed(line).len() == 0 ==> full_lines(lines.push(line)) == full_lines(lines),
{
    reveal(Seq::filter);
    assert(lines.push(line).drop_last() =~= lines);
}

/// The first of the files that could be read is the one that counts: for what introduces
/// the project any, and for its instructions one that is not blank.
pub proof fn law_first_file_counts(
    names: Seq<Seq<char>>,
    contents: Seq<Option<Seq<char>>>,
    i: int,
    content: Seq<char>,
)
    requires
        names.len() == contents.len(),
        0 <= i < contents.len(),
        contents[i] == Some(content),
    ensures
        (forall|k: int| 0 <= k < i ==> (#[trigger] contents[k]) is None) && text::byte_len(content)
            <= 6000 ==> readme_text(contents) == content,
        (forall|k: int|
            0 <= k < i ==> ((#[trigger] contents[k]) matches Some(other) ==> text::trimmed(
                other,
            ).len() == 0)) && text::trimmed(content).len() > 0 ==> existing_of(names, contents)
            == Some((names[i], content)),
    decreases contents.len(),
{
    if i > 0 {
        let rest = contents.drop_first();
        law_first_file_counts(names.drop_first(), rest, i - 1, content);
        assert forall|k: int| 0 <= k < i - 1 implies #[trigger] rest[k] == contents[k + 1] by {}
        if forall|k: int| 0 <= k < i ==> (#[trigger] contents[k]) is None {
            assert(contents[0] is None);
        }
        if forall|k: int|
            0 <= k < i ==> ((#[trigger] contents[k]) matches Some(other) ==> text::trimmed(
                other,
            ).len() == 0) {
            assert(!builtin_sources::usable(contents[0]));
        }
    }
}

/// Where no file could be read there is nothing to tell.
pub proof fn law_no_file_counts(names: Seq<Seq<char>>, contents: Seq<Option<Seq<char>>>)
    requires
        names.len() == contents.len(),
        forall|k: int| 0 <= k < contents.len() ==> (#[trigger] contents[k]) is None,
    ensures
        readme_text(contents).len() == 0,
        existing_of(names, contents) is None,
    decreases contents.len(),
{
    if contents.len() > 0 {
        let rest = contents.drop_first();
        assert forall|k: int| 0 <= k < rest.len() implies (#[trigger] rest[k]) is None by {
            assert(rest[k] == contents[k + 1]);
        }
        assert(contents[0] is None);
        law_no_file_counts(names.drop_first(), rest);
    }
}

/// The names that are marked stay, in their order, and no others.
pub proof fn law_marked_names_stay(
    names: Seq<Seq<char>>,
    marks: Seq<bool>,
    name: Seq<char>,
    mark: bool,
)
    requires
        names.len() == marks.len(),
    ensures
        mark ==> marked(names.push(name), marks.push(mark)) == marked(names, marks).push(name),
        !mark ==> marked(names.push(name), marks.push(mark)) == marked(names, marks),
        marked(Seq::empty(), Seq::empty()).len() == 0,
{
    assert(names.push(name).drop_last() =~= names);
    assert(marks.push(mark).drop_last() =~= marks);
}

/// What a command printed counts, without the white space around it, unless it is blank or
/// the command failed.
pub proof fn law_what_was_printed_counts(output: Seq<char>, nothing: Seq<char>)
    ensures
        text::trimmed(output).len() > 0 ==> printed_or(Some(output), nothing) == text::trimmed(
            output,
        ) && tree_text(Some(output)) == text::trimmed(output),
        text::trimmed(output).len() == 0 ==> printed_or(Some(output), nothing) == nothing
            && tree_text(Some(output)) == "(file tree unavailable)"@,
        printed_or(None, nothing) == nothing,
        tree_text(None) == "(file tree unavailable)"@,
{
}

/// A manifest that was understood tells what it holds, and one that was not tells nothing,
/// but for the commands that its system always has.
pub proof fn law_manifest_tells_what_it_holds(
    manifest: Seq<char>,
    dir_name: Option<Seq<char>>,
    manager: Seq<char>,
)
    ensures
        data::toml_document(manifest) matches Some(document) ==> {
            &&& cargo_facts(Some(manifest), dir_name) == cargo_manifest_facts(document, dir_name)
            &&& python_facts(Some(manifest)).name == python_manifest_facts(document).name
            &&& python_facts(Some(manifest)).key_dependencies == python_manifest_facts(
                document,
            ).key_dependencies
            &&& workspace_patterns_of(manifest) == member_patterns(document)
        },
        data::toml_document(manifest) is None ==> {
            &&& cargo_facts(Some(manifest), dir_name).name.len() == 0
            &&& cargo_facts(Some(manifest), dir_name).commands.len() == 3
            &&& python_facts(Some(manifest)) == python_facts(None)
            &&& workspace_patterns_of(manifest).len() == 0
        },
        data::json_document(manifest) matches Some(document) ==> node_facts(
            Some(manifest),
            manager,
        ) == node_manifest_facts(document, manager),
        data::json_document(manifest) is None ==> node_facts(Some(manifest), manager)
            == node_facts(None, manager),
        go_facts(Some(manifest)).name == go_lines(text::line_seq(manifest)).0,
        go_facts(Some(manifest)).version == go_lines(text::line_seq(manifest)).1,
        go_facts(Some(manifest)).commands == go_facts(None).commands,
        make_facts(Some(manifest)).commands == make_commands(
            patterns::every_first_group(MAKE_TARGET@, manifest),
        ),
        make_facts(None).commands.len() == 0,
        cmake_facts(Some(manifest)) == cmake_named_facts(
            patterns::first_group(CMAKE_PROJECT@, manifest),
        ),
        cmake_facts(None).name.len() == 0,
{
}

/// What is known of a crate by its code holds its lines of documentation in order, and the
/// modules it declares.
pub proof fn law_documentation_in_order(code: Seq<char>)
    ensures
        ({
            let lines = text::line_seq(code);
            let found = entry_lines(lines, declarations(lines));
            &&& text::in_order(rust_entry(code).0, found.0)
            &&& rust_entry(code).1 == found.1
        }),
{
    let lines = text::line_seq(code);
    text::lemma_joined_in_order(entry_lines(lines, declarations(lines)).0, "\n"@);
}

/// What introduces a project, and the documentation of a module, is shown only as far as
/// its limit reaches, with a mark that more was there.
pub proof fn law_long_texts_are_cut(
    contents: Seq<Option<Seq<char>>>,
    content: Seq<char>,
    named: (Seq<char>, Seq<char>),
    path: Seq<char>,
    modules: Seq<Seq<char>>,
)
    ensures
        contents.len() > 0 && contents[0] == Some(content) ==> text::byte_len(
            readme_text(contents),
        ) <= 6018,
        module_entry(Some(named), path, (content, modules)) matches Some(entry) && text::byte_len(
            entry.doc,
        ) <= 818,
        contents.len() > 0 && contents[0] == Some(content) && text::byte_len(content) > 6000
            ==> exists|kept: Seq<char>| #[trigger]
            kept.is_prefix_of(content) && readme_text(contents) == kept + CUT_MARK@
                && text::byte_len(kept) >= 6000,
        text::byte_len(content) > 800 ==> exists|kept: Seq<char>| #[trigger]
            kept.is_prefix_of(content) && module_entry(
                Some(named),
                path,
                (content, modules),
            )->0.doc == kept + CUT_MARK@ && text::byte_len(kept) >= 800,
{
    law_cut_is_bounded(content, README_CAP as nat);
    law_cut_is_bounded(content, CRATE_DOC_CAP as nat);
    if text::byte_len(content) > 6000 {
        let kept = choose|kept: Seq<char>| #[trigger]
            kept.is_prefix_of(content) && cut(content, 6000) == kept + CUT_MARK@
                && text::byte_len(kept) >= 6000;
        assert(kept.is_prefix_of(content));
    }
    if text::byte_len(content) > 800 {
        let kept = choose|kept: Seq<char>| #[trigger]
            kept.is_prefix_of(content) && cut(content, 800) == kept + CUT_MARK@
                && text::byte_len(kept) >= 800;
        assert(kept.is_prefix_of(content));
    }
}

} // verus!
