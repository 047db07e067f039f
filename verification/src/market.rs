//! Where packs are found: those of the library, and those that were installed.

use vstd::prelude::*;
use crate::coding_pack;
use crate::collections::{self, Table};
use crate::domain_pack::{DomainPack, DomainPackView};
use crate::duplicate::Duplicate;
use crate::research_pack;
use crate::text;

verus! {

/// The version of the packs of the library.
pub const PACK_VERSION: &'static str = "0.1.0";

/// Where a pack comes from.
#[derive(Debug, PartialEq)]
pub enum PackSource {
    /// A path.
    Local { path: String },
    /// A git repository, and the branch or tag where one is asked for.
    Git { repo_url: String, ref_: Option<String> },
    /// The registry of packs.
    Registry { name: String, version: Option<String> },
}

/// The contents of a [`PackSource`].
#[verifier::ext_equal]
pub enum PackSourceView {
    Local { path: Seq<char> },
    Git { repo_url: Seq<char>, ref_: Option<Seq<char>> },
    Registry { name: Seq<char>, version: Option<Seq<char>> },
}

impl DeepView for PackSource {
    type V = PackSourceView;

    open spec fn deep_view(&self) -> PackSourceView {
        match self {
            PackSource::Local { path } => PackSourceView::Local { path: path.deep_view() },
            PackSource::Git { repo_url, ref_ } => PackSourceView::Git {
                repo_url: repo_url.deep_view(),
                ref_: ref_.deep_view(),
            },
            PackSource::Registry { name, version } => PackSourceView::Registry {
                name: name.deep_view(),
                version: version.deep_view(),
            },
        }
    }
}

impl Duplicate for PackSource {
    fn duplicate(&self) -> (copy: Self) {
        match self {
            PackSource::Local { path } => PackSource::Local { path: path.duplicate() },
            PackSource::Git { repo_url, ref_ } => PackSource::Git {
                repo_url: repo_url.duplicate(),
                ref_: ref_.duplicate(),
            },
            PackSource::Registry { name, version } => PackSource::Registry {
                name: name.duplicate(),
                version: version.duplicate(),
            },
        }
    }
}

impl Clone for PackSource {
    fn clone(&self) -> (copy: Self)
        ensures
            copy.deep_view() == self.deep_view(),
    {
        self.duplicate()
    }
}

/// A pack that is known.
#[derive(Debug, PartialEq)]
pub struct PackIndexEntry {
    /// The name.
    pub name: String,
    /// What the pack is for.
    pub description: String,
    /// The version.
    pub version: String,
    /// Who keeps the pack.
    pub author: String,
    /// What the pack is searched by, besides.
    pub tags: Vec<String>,
    /// Where the pack comes from.
    pub source: PackSource,
    /// Whether the pack is there without being installed.
    pub is_builtin: bool,
}

/// The contents of a [`PackIndexEntry`].
#[verifier::ext_equal]
pub struct PackIndexEntryView {
    pub name: Seq<char>,
    pub description: Seq<char>,
    pub version: Seq<char>,
    pub author: Seq<char>,
    pub tags: Seq<Seq<char>>,
    pub source: PackSourceView,
    pub is_builtin: bool,
}

impl DeepView for PackIndexEntry {
    type V = PackIndexEntryView;

    open spec fn deep_view(&self) -> PackIndexEntryView {
        PackIndexEntryView {
            name: self.name.deep_view(),
            description: self.description.deep_view(),
            version: self.version.deep_view(),
            author: self.author.deep_view(),
            tags: self.tags.deep_view(),
            source: self.source.deep_view(),
            is_builtin: self.is_builtin,
        }
    }
}

impl Duplicate for PackIndexEntry {
    fn duplicate(&self) -> (copy: Self) {
        PackIndexEntry {
            name: self.name.duplicate(),
            description: self.description.duplicate(),
            version: self.version.duplicate(),
            author: self.author.duplicate(),
            tags: self.tags.duplicate(),
            source: self.source.duplicate(),
            is_builtin: self.is_builtin,
        }
    }
}

impl Clone for PackIndexEntry {
    fn clone(&self) -> (copy: Self)
        ensures
            copy.deep_view() == self.deep_view(),
    {
        self.duplicate()
    }
}

// ─── Errors ─────────────────────────────────────────────────────────────────

/// Why a pack was not installed.
#[derive(Debug, PartialEq)]
pub enum PackInstallError {
    /// There is nothing at the path.
    SourceNotFound(String),
    /// There is a pack of the name already.
    AlreadyInstalled(String),
    /// The files could not be copied.
    CopyFailed(String),
    /// The repository could not be cloned.
    GitFailed(String),
    /// The source is not supported.
    NotImplemented(String),
}

/// The contents of a [`PackInstallError`].
#[verifier::ext_equal]
pub enum PackInstallErrorView {
    SourceNotFound(Seq<char>),
    AlreadyInstalled(Seq<char>),
    CopyFailed(Seq<char>),
    GitFailed(Seq<char>),
    NotImplemented(Seq<char>),
}

impl DeepView for PackInstallError {
    type V = PackInstallErrorView;

    open spec fn deep_view(&self) -> PackInstallErrorView {
        match self {
            PackInstallError::SourceNotFound(value) => PackInstallErrorView::SourceNotFound(value.deep_view()),
            PackInstallError::AlreadyInstalled(value) => PackInstallErrorView::AlreadyInstalled(value.deep_view()),
            PackInstallError::CopyFailed(value) => PackInstallErrorView::CopyFailed(value.deep_view()),
            PackInstallError::GitFailed(value) => PackInstallErrorView::GitFailed(value.deep_view()),
            PackInstallError::NotImplemented(value) => PackInstallErrorView::NotImplemented(value.deep_view()),
        }
    }
}

impl Duplicate for PackInstallError {
    fn duplicate(&self) -> (copy: Self) {
        match self {
            PackInstallError::SourceNotFound(value) => PackInstallError::SourceNotFound(value.duplicate()),
            PackInstallError::AlreadyInstalled(value) => PackInstallError::AlreadyInstalled(value.duplicate()),
            PackInstallError::CopyFailed(value) => PackInstallError::CopyFailed(value.duplicate()),
            PackInstallError::GitFailed(value) => PackInstallError::GitFailed(value.duplicate()),
            PackInstallError::NotImplemented(value) => PackInstallError::NotImplemented(value.duplicate()),
        }
    }
}

impl Clone for PackInstallError {
    fn clone(&self) -> (copy: Self)
        ensures
            copy.deep_view() == self.deep_view(),
    {
        self.duplicate()
    }
}

/// Why a pack was not loaded.
#[derive(Debug, PartialEq)]
pub enum PackLoadError {
    /// There is no pack of the name.
    NotFound(String),
    /// The pack of the name could not be loaded.
    LoadFailed(String, String),
}

/// The contents of a [`PackLoadError`].
#[verifier::ext_equal]
pub enum PackLoadErrorView {
    NotFound(Seq<char>),
    LoadFailed(Seq<char>, Seq<char>),
}

impl DeepView for PackLoadError {
    type V = PackLoadErrorView;

    open spec fn deep_view(&self) -> PackLoadErrorView {
        match self {
            PackLoadError::NotFound(value) => PackLoadErrorView::NotFound(value.deep_view()),
            PackLoadError::LoadFailed(first, second) => PackLoadErrorView::LoadFailed(
                first.deep_view(),
                second.deep_view(),
            ),
        }
    }
}

impl Duplicate for PackLoadError {
    fn duplicate(&self) -> (copy: Self) {
        match self {
            PackLoadError::NotFound(value) => PackLoadError::NotFound(value.duplicate()),
            PackLoadError::LoadFailed(first, second) => PackLoadError::LoadFailed(
                first.duplicate(),
                second.duplicate(),
            ),
        }
    }
}

impl Clone for PackLoadError {
    fn clone(&self) -> (copy: Self)
        ensures
            copy.deep_view() == self.deep_view(),
    {
        self.duplicate()
    }
}

/// What is said where a pack was not installed.
pub open spec fn install_message(error: PackInstallErrorView) -> Seq<char> {
    match error {
        PackInstallErrorView::SourceNotFound(path) => "Source not found: "@ + path,
        PackInstallErrorView::AlreadyInstalled(name) => "Pack '"@ + name + "' already installed"@,
        PackInstallErrorView::CopyFailed(said) => "Copy failed: "@ + said,
        PackInstallErrorView::GitFailed(said) => "Git clone failed: "@ + said,
        PackInstallErrorView::NotImplemented(said) => "Not implemented: "@ + said,
    }
}

impl PackInstallError {
    /// What is said where a pack was not installed.
    pub fn message(&self) -> (r: String)
        ensures
            r@ == install_message(self.deep_view()),
    {
        match self {
            PackInstallError::SourceNotFound(path) => text::concat(
                "Source not found: ",
                path.as_str(),
            ),
            PackInstallError::AlreadyInstalled(name) => {
                let mut r = text::concat("Pack '", name.as_str());
                r.push_str("' already installed");
                r
            },
            PackInstallError::CopyFailed(said) => text::concat("Copy failed: ", said.as_str()),
            PackInstallError::GitFailed(said) => text::concat(
                "Git clone failed: ",
                said.as_str(),
            ),
            PackInstallError::NotImplemented(said) => text::concat(
                "Not implemented: ",
                said.as_str(),
            ),
        }
    }
}

/// What is said where a pack was not loaded.
pub open spec fn load_message(error: PackLoadErrorView) -> Seq<char> {
    match error {
        PackLoadErrorView::NotFound(name) => "Pack '"@ + name + "' not found"@,
        PackLoadErrorView::LoadFailed(name, said) => "Failed to load pack '"@ + name + "': "@
            + said,
    }
}

impl PackLoadError {
    /// What is said where a pack was not loaded.
    pub fn message(&self) -> (r: String)
        ensures
            r@ == load_message(self.deep_view()),
    {
        match self {
            PackLoadError::NotFound(name) => {
                let mut r = text::concat("Pack '", name.as_str());
                r.push_str("' not found");
                r
            },
            PackLoadError::LoadFailed(name, said) => {
                let mut r = text::concat("Failed to load pack '", name.as_str());
                r.push_str("': ");
                r.push_str(said.as_str());
                r
            },
        }
    }
}

// ─── Packs of the library ───────────────────────────────────────────────────

/// A pack that is there without being installed.
pub open spec fn builtin_entry_of(
    name: Seq<char>,
    description: Seq<char>,
    tags: Seq<Seq<char>>,
) -> PackIndexEntryView {
    PackIndexEntryView {
        name,
        description,
        version: PACK_VERSION@,
        author: "OneAI"@,
        tags,
        source: PackSourceView::Local { path: "builtin://"@ + name },
        is_builtin: true,
    }
}

/// A pack that is planned.
pub open spec fn planned_entry_of(
    name: Seq<char>,
    description: Seq<char>,
    tags: Seq<Seq<char>>,
) -> PackIndexEntryView {
    PackIndexEntryView {
        name,
        description,
        version: "planned"@,
        author: "OneAI"@,
        tags,
        source: PackSourceView::Registry { name, version: None },
        is_builtin: false,
    }
}

/// A pack that is there without being installed.
fn builtin_entry(name: &str, description: &str, tags: Vec<String>) -> (r: PackIndexEntry)
    ensures
        r.deep_view() == builtin_entry_of(name@, description@, tags.deep_view()),
{
    PackIndexEntry {
        name: name.to_string(),
        description: description.to_string(),
        version: PACK_VERSION.to_string(),
        author: "OneAI".to_string(),
        tags,
        source: PackSource::Local { path: text::concat("builtin://", name) },
        is_builtin: true,
    }
}

/// A pack that is planned.
fn planned_entry(name: &str, description: &str, tags: Vec<String>) -> (r: PackIndexEntry)
    ensures
        r.deep_view() == planned_entry_of(name@, description@, tags.deep_view()),
{
    PackIndexEntry {
        name: name.to_string(),
        description: description.to_string(),
        version: "planned".to_string(),
        author: "OneAI".to_string(),
        tags,
        source: PackSource::Registry { name: name.to_string(), version: None },
        is_builtin: false,
    }
}

/// The packs that are known from the start.
pub open spec fn builtin_packs() -> Seq<PackIndexEntryView> {
    seq![
        builtin_entry_of(
            "coding"@,
            "Coding domain pack — software development tools, context, and strategies"@,
            seq!["coding"@, "software"@, "development"@, "editing"@, "shell"@, "git"@],
        ),
        builtin_entry_of(
            "research"@,
            "Research domain pack — web search, analysis, and synthesis tools"@,
            seq!["research"@, "search"@, "analysis"@, "web"@, "synthesis"@, "citation"@],
        ),
        builtin_entry_of(
            "general"@,
            "General-purpose domain pack — minimal tool set for basic tasks"@,
            seq!["general"@, "chat"@, "calculator"@],
        ),
        planned_entry_of(
            "writing"@,
            "Content creation and editing domain pack — coming soon"@,
            seq!["writing"@, "content"@, "editing"@, "creative"@],
        ),
        planned_entry_of(
            "data"@,
            "Data analysis and visualization domain pack — coming soon"@,
            seq!["data"@, "analysis"@, "visualization"@, "query"@, "statistics"@],
        ),
        planned_entry_of(
            "devops"@,
            "Infrastructure and deployment domain pack — coming soon"@,
            seq!["devops"@, "deploy"@, "monitor"@, "infrastructure"@, "ci"@],
        ),
    ]
}

/// The packs that are known from the start.
pub fn builtin_pack_entries() -> (r: Vec<PackIndexEntry>)
    ensures
        r.deep_view() == builtin_packs(),
{
    let r = vec![
        builtin_entry(
            "coding",
            "Coding domain pack — software development tools, context, and strategies",
            text::texts(["coding", "software", "development", "editing", "shell", "git"]),
        ),
        builtin_entry(
            "research",
            "Research domain pack — web search, analysis, and synthesis tools",
            text::texts(["research", "search", "analysis", "web", "synthesis", "citation"]),
        ),
        builtin_entry(
            "general",
            "General-purpose domain pack — minimal tool set for basic tasks",
            text::texts(["general", "chat", "calculator"]),
        ),
        planned_entry(
            "writing",
            "Content creation and editing domain pack — coming soon",
            text::texts(["writing", "content", "editing", "creative"]),
        ),
        planned_entry(
            "data",
            "Data analysis and visualization domain pack — coming soon",
            text::texts(["data", "analysis", "visualization", "query", "statistics"]),
        ),
        planned_entry(
            "devops",
            "Infrastructure and deployment domain pack — coming soon",
            text::texts(["devops", "deploy", "monitor", "infrastructure", "ci"]),
        ),
    ];
    assert(r.deep_view() =~~= builtin_packs());
    r
}

// ─── Packs that were installed ──────────────────────────────────────────────

/// A directory among the installed packs.
#[derive(Debug, PartialEq)]
pub struct FoundPack {
    /// The name of the directory.
    pub name: String,
    /// The path of the directory.
    pub path: String,
    /// What the pack is for, by each of its configuration files in the order in
    /// which they are looked for, where it is there and can be loaded.
    pub descriptions: Vec<Option<String>>,
}

/// The contents of a [`FoundPack`].
#[verifier::ext_equal]
pub struct FoundPackView {
    pub name: Seq<char>,
    pub path: Seq<char>,
    pub descriptions: Seq<Option<Seq<char>>>,
}

impl DeepView for FoundPack {
    type V = FoundPackView;

    open spec fn deep_view(&self) -> FoundPackView {
        FoundPackView {
            name: self.name.deep_view(),
            path: self.path.deep_view(),
            descriptions: self.descriptions.deep_view(),
        }
    }
}

impl Duplicate for FoundPack {
    fn duplicate(&self) -> (copy: Self) {
        FoundPack {
            name: self.name.duplicate(),
            path: self.path.duplicate(),
            descriptions: self.descriptions.duplicate(),
        }
    }
}

impl Clone for FoundPack {
    fn clone(&self) -> (copy: Self)
        ensures
            copy.deep_view() == self.deep_view(),
    {
        self.duplicate()
    }
}

/// The first text that there is.
pub open spec fn first_text(found: Seq<Option<Seq<char>>>) -> Option<Seq<char>>
    decreases found.len(),
{
    if found.len() == 0 {
        None
    } else if found[0].is_some() {
        found[0]
    } else {
        first_text(found.drop_first())
    }
}

/// What an installed pack is for.
pub open spec fn description_of(found: Seq<Option<Seq<char>>>) -> Seq<char> {
    match first_text(found) {
        Some(description) => description,
        None => "Installed domain pack"@,
    }
}

/// What an installed pack is for.
pub fn read_pack_description(found: &Vec<Option<String>>) -> (r: String)
    ensures
        r@ == description_of(found.deep_view()),
{
    let ghost all = found.deep_view();
    let mut i: usize = 0;
    assert(all.skip(0) =~= all);
    while i < found.len()
        invariant
            i <= found.len(),
            all == found.deep_view(),
            first_text(all) == first_text(all.skip(i as int)),
        decreases found.len() - i,
    {
        assert(all.skip(i as int)[0] == found@[i as int].deep_view());
        assert(all.skip(i as int).drop_first() =~= all.skip(i + 1));
        match &found[i] {
            Some(description) => {
                return description.clone();
            },
            None => {},
        }
        i = i + 1;
    }
    "Installed domain pack".to_string()
}

/// The entry of an installed pack.
pub open spec fn installed_entry(pack: FoundPackView) -> PackIndexEntryView {
    PackIndexEntryView {
        name: pack.name,
        description: description_of(pack.descriptions),
        version: "local"@,
        author: "unknown"@,
        tags: seq![pack.name],
        source: PackSourceView::Local { path: pack.path },
        is_builtin: false,
    }
}

/// The packs by name, with the packs of a list: the later one under a name.
pub open spec fn with_packs(
    index: Seq<(Seq<char>, PackIndexEntryView)>,
    packs: Seq<PackIndexEntryView>,
) -> Seq<(Seq<char>, PackIndexEntryView)>
    decreases packs.len(),
{
    if packs.len() == 0 {
        index
    } else {
        collections::entered(
            with_packs(index, packs.drop_last()),
            packs.last().name,
            packs.last(),
        )
    }
}

/// The packs by name, with the installed packs under the names that are free.
pub open spec fn with_installed(
    index: Seq<(Seq<char>, PackIndexEntryView)>,
    found: Seq<FoundPackView>,
) -> Seq<(Seq<char>, PackIndexEntryView)>
    decreases found.len(),
{
    if found.len() == 0 {
        index
    } else {
        let before = with_installed(index, found.drop_last());
        if collections::lookup(before, found.last().name).is_some() {
            before
        } else {
            collections::entered(before, found.last().name, installed_entry(found.last()))
        }
    }
}

// ─── PackRegistry ───────────────────────────────────────────────────────────

/// The packs that are known, each under its own name.
#[derive(Debug)]
pub struct PackRegistry {
    /// Where installed packs are kept.
    cache_dir: String,
    /// The packs, by name.
    index: Table<PackIndexEntry>,
}

/// The contents of a [`PackRegistry`].
#[verifier::ext_equal]
pub struct PackRegistryView {
    pub cache_dir: Seq<char>,
    pub index: Seq<(Seq<char>, PackIndexEntryView)>,
}

impl DeepView for PackRegistry {
    type V = PackRegistryView;

    closed spec fn deep_view(&self) -> PackRegistryView {
        PackRegistryView { cache_dir: self.cache_dir@, index: self.index.deep_view() }
    }
}

/// Each pack stands under its own name.
pub open spec fn own_names(index: Seq<(Seq<char>, PackIndexEntryView)>) -> bool {
    forall|i: int| 0 <= i < index.len() ==> (#[trigger] index[i]).0 == index[i].1.name
}

/// No two of the packs have one name.
pub open spec fn names_once(packs: Seq<PackIndexEntryView>) -> bool {
    forall|i: int, j: int|
        0 <= i < j < packs.len() ==> (#[trigger] packs[i]).name != (#[trigger] packs[j]).name
}

/// The pack was installed: it is neither one of the library nor a planned one.
pub open spec fn is_installed(pack: PackIndexEntryView) -> bool {
    !pack.is_builtin && pack.source is Local
}

spec fn listed(builtin: bool) -> spec_fn(PackIndexEntryView) -> bool {
    |pack: PackIndexEntryView|
        if builtin {
            pack.is_builtin
        } else {
            is_installed(pack)
        }
}

/// The pack is found by this query, which is in lower case.
pub open spec fn answers(pack: PackIndexEntryView, query: Seq<char>) -> bool {
    ||| text::occurs(text::in_lower_case(pack.name), query)
    ||| text::occurs(text::in_lower_case(pack.description), query)
    ||| exists|i: int|
        0 <= i < pack.tags.len() && text::occurs(
            text::in_lower_case(#[trigger] pack.tags[i]),
            query,
        )
}

/// The packs of these entries.
pub open spec fn packs_of(index: Seq<(Seq<char>, PackIndexEntryView)>) -> Seq<PackIndexEntryView> {
    index.map_values(|entry: (Seq<char>, PackIndexEntryView)| entry.1)
}

/// Whether the pack is found by this query, which is in lower case.
fn is_answer(pack: &PackIndexEntry, query: &str) -> (r: bool)
    ensures
        r == answers(pack.deep_view(), query@),
{
    if text::contains(text::lower(pack.name.as_str()).as_str(), query) {
        return true;
    }
    if text::contains(text::lower(pack.description.as_str()).as_str(), query) {
        return true;
    }
    let ghost tags = pack.deep_view().tags;
    let mut i: usize = 0;
    while i < pack.tags.len()
        invariant
            i <= pack.tags.len(),
            tags == pack.deep_view().tags,
            forall|k: int|
                0 <= k < i ==> !text::occurs(text::in_lower_case(#[trigger] tags[k]), query@),
        decreases pack.tags.len() - i,
    {
        assert(tags[i as int] == pack.tags@[i as int]@);
        if text::contains(text::lower(pack.tags[i].as_str()).as_str(), query) {
            return true;
        }
        i = i + 1;
    }
    false
}

impl PackRegistry {
    #[verifier::type_invariant]
    spec fn packs_under_own_names(self) -> bool {
        own_names(self.index.deep_view())
    }

    /// The packs of the library, and those that were installed in a directory.
    pub fn new(cache_dir: &str, found: &Vec<FoundPack>) -> (r: Self)
        ensures
            r.deep_view().cache_dir == cache_dir@,
            r.deep_view().index == with_installed(
                with_packs(Seq::empty(), builtin_packs()),
                found.deep_view(),
            ),
    {
        let mut index: Table<PackIndexEntry> = Table::new();
        PackRegistry::populate_builtin_index(&mut index);
        PackRegistry::discover_installed_packs(&mut index, found);
        proof {
            law_index_holds_each_name_once(found.deep_view());
        }
        PackRegistry { cache_dir: cache_dir.to_string(), index }
    }

    fn populate_builtin_index(index: &mut Table<PackIndexEntry>)
        ensures
            final(index).deep_view() == with_packs(old(index).deep_view(), builtin_packs()),
    {
        let packs = builtin_pack_entries();
        let ghost all = packs.deep_view();
        let ghost before = index.deep_view();
        let mut i: usize = 0;
        while i < packs.len()
            invariant
                i <= packs.len(),
                all == packs.deep_view(),
                index.deep_view() == with_packs(before, all.take(i as int)),
            decreases packs.len() - i,
        {
            assert(all.take(i + 1).drop_last() =~= all.take(i as int));
            assert(all[i as int] == packs@[i as int].deep_view());
            index.insert(packs[i].name.clone(), packs[i].clone());
            i = i + 1;
        }
        assert(all.take(i as int) =~= all);
    }

    fn discover_installed_packs(index: &mut Table<PackIndexEntry>, found: &Vec<FoundPack>)
        ensures
            final(index).deep_view() == with_installed(old(index).deep_view(), found.deep_view()),
    {
        let ghost all = found.deep_view();
        let ghost before = index.deep_view();
        let mut i: usize = 0;
        while i < found.len()
            invariant
                i <= found.len(),
                all == found.deep_view(),
                index.deep_view() == with_installed(before, all.take(i as int)),
            decreases found.len() - i,
        {
            assert(all.take(i + 1).drop_last() =~= all.take(i as int));
            assert(all[i as int] == found@[i as int].deep_view());
            if !index.contains_key(found[i].name.as_str()) {
                let tags = vec![found[i].name.clone()];
                assert(tags.deep_view() =~= seq![all[i as int].name]);
                let entry = PackIndexEntry {
                    name: found[i].name.clone(),
                    description: read_pack_description(&found[i].descriptions),
                    version: "local".to_string(),
                    author: "unknown".to_string(),
                    tags,
                    source: PackSource::Local { path: found[i].path.clone() },
                    is_builtin: false,
                };
                assert(entry.deep_view() == installed_entry(all[i as int]));
                index.insert(found[i].name.clone(), entry);
            }
            i = i + 1;
        }
        assert(all.take(i as int) =~= all);
    }

    /// Where installed packs are kept.
    pub fn cache_dir(&self) -> (r: &str)
        ensures
            r@ == self.deep_view().cache_dir,
    {
        self.cache_dir.as_str()
    }

    /// The packs that a query finds in their names, descriptions or tags,
    /// whatever the case of letters. None is found twice, and the empty query
    /// finds all.
    pub fn search(&self, query: &str) -> (r: Vec<&PackIndexEntry>)
        ensures
            r.deep_view() == packs_of(self.deep_view().index).filter(
                |pack: PackIndexEntryView| answers(pack, text::in_lower_case(query@)),
            ),
            names_once(r.deep_view()),
            query@.len() == 0 ==> r.deep_view() == packs_of(self.deep_view().index),
    {
        let lowered = text::lower(query);
        let ghost all = packs_of(self.deep_view().index);
        let ghost keep = |pack: PackIndexEntryView| answers(pack, text::in_lower_case(query@));
        let mut r: Vec<&PackIndexEntry> = Vec::new();
        let count = self.index.len();
        let mut i: usize = 0;
        proof {
            reveal(Seq::filter);
            assert(all.take(0).filter(keep) =~= Seq::empty());
        }
        while i < count
            invariant
                i <= count,
                count == all.len(),
                all == packs_of(self.deep_view().index),
                lowered@ == text::in_lower_case(query@),
                keep == (|pack: PackIndexEntryView| answers(pack, text::in_lower_case(query@))),
                r.deep_view() == all.take(i as int).filter(keep),
            decreases all.len() - i,
        {
            let ghost before = r.deep_view();
            proof {
                reveal(Seq::filter);
                assert(all.take(i + 1).drop_last() =~= all.take(i as int));
            }
            let pack = self.index.value_at(i);
            if is_answer(pack, lowered.as_str()) {
                r.push(pack);
                assert(r.deep_view() =~= before.push(all[i as int]));
            }
            i = i + 1;
        }
        proof {
            assert(all.take(i as int) =~= all);
            use_type_invariant(self);
            law_listings_hold_no_pack_twice(self.deep_view().index, keep);
            if query@.len() == 0 {
                assert(query@ =~= Seq::empty());
                law_empty_query_finds_all(all);
            }
        }
        r
    }

    /// The pack of a name.
    pub fn get_entry(&self, name: &str) -> (r: Option<&PackIndexEntry>)
        ensures
            r.deep_view() == collections::lookup(self.deep_view().index, name@),
    {
        self.index.get(name)
    }

    /// All packs that are known, none of them twice.
    pub fn list_all(&self) -> (r: Vec<&PackIndexEntry>)
        ensures
            r.deep_view() == packs_of(self.deep_view().index),
            names_once(r.deep_view()),
    {
        let ghost all = packs_of(self.deep_view().index);
        let count = self.index.len();
        let mut r: Vec<&PackIndexEntry> = Vec::new();
        let mut i: usize = 0;
        while i < count
            invariant
                i <= count,
                count == all.len(),
                all == packs_of(self.deep_view().index),
                r.deep_view() == all.take(i as int),
            decreases count - i,
        {
            let ghost before = r.deep_view();
            r.push(self.index.value_at(i));
            assert(r.deep_view() =~= before.push(all[i as int]));
            i = i + 1;
            assert(r.deep_view() =~= all.take(i as int));
        }
        proof {
            assert(all.take(i as int) =~= all);
            use_type_invariant(self);
        }
        r
    }

    /// The packs of the library that are there, or else those that were installed.
    fn list_where(&self, builtin: bool) -> (r: Vec<&PackIndexEntry>)
        ensures
            r.deep_view() == packs_of(self.deep_view().index).filter(listed(builtin)),
            names_once(r.deep_view()),
    {
        let ghost all = packs_of(self.deep_view().index);
        let ghost keep = listed(builtin);
        let count = self.index.len();
        let mut r: Vec<&PackIndexEntry> = Vec::new();
        let mut i: usize = 0;
        proof {
            reveal(Seq::filter);
            assert(all.take(0).filter(keep) =~= Seq::empty());
        }
        while i < count
            invariant
                i <= count,
                count == all.len(),
                all == packs_of(self.deep_view().index),
                keep == listed(builtin),
                r.deep_view() == all.take(i as int).filter(keep),
            decreases count - i,
        {
            let ghost before = r.deep_view();
            proof {
                reveal(Seq::filter);
                assert(all.take(i + 1).drop_last() =~= all.take(i as int));
            }
            let pack = self.index.value_at(i);
            let local = match &pack.source {
                PackSource::Local { path } => true,
                _ => false,
            };
            if pack.is_builtin == builtin && (builtin || local) {
                r.push(pack);
                assert(r.deep_view() =~= before.push(all[i as int]));
            }
            i = i + 1;
        }
        proof {
            assert(all.take(i as int) =~= all);
            use_type_invariant(self);
            law_listings_hold_no_pack_twice(self.deep_view().index, keep);
        }
        r
    }

    /// The packs that are there without being installed, none of them twice.
    pub fn list_builtin(&self) -> (r: Vec<&PackIndexEntry>)
        ensures
            r.deep_view() == packs_of(self.deep_view().index).filter(
                |pack: PackIndexEntryView| pack.is_builtin,
            ),
            names_once(r.deep_view()),
    {
        proof {
            assert(listed(true) =~= (|pack: PackIndexEntryView| pack.is_builtin));
        }
        self.list_where(true)
    }

    /// The packs that were installed, none of them twice: a planned pack is not
    /// among them.
    pub fn list_installed(&self) -> (r: Vec<&PackIndexEntry>)
        ensures
            r.deep_view() == packs_of(self.deep_view().index).filter(
                |pack: PackIndexEntryView| is_installed(pack),
            ),
            names_once(r.deep_view()),
    {
        proof {
            assert(listed(false) =~= (|pack: PackIndexEntryView| is_installed(pack)));
        }
        self.list_where(false)
    }

    /// The pack of a name, given what its directory among the installed packs was
    /// loaded as, where there is one.
    pub fn load_installed(
        &self,
        name: &str,
        project_dir: &str,
        installed: &Option<Result<DomainPack, String>>,
    ) -> (r: Result<DomainPack, PackLoadError>)
        ensures
            collections::outcome(r) == loaded_as(
                name@,
                project_dir@,
                match installed {
                    Some(loaded) => Some(collections::outcome(*loaded)),
                    None => None,
                },
            ),
    {
        if text::same(name, "coding") {
            return Ok(coding_pack::coding_pack(project_dir));
        }
        if text::same(name, "research") {
            return Ok(research_pack::research_pack(project_dir));
        }
        match installed {
            Some(Ok(pack)) => Ok(pack.clone()),
            Some(Err(said)) => Err(PackLoadError::LoadFailed(name.to_string(), said.clone())),
            None => Err(PackLoadError::NotFound(name.to_string())),
        }
    }

    /// The name of the pack that was installed, given what was found at the
    /// source, whether there is a pack of the name already, and what was said where
    /// the work of [`plan_install`] failed.
    pub fn install(
        &self,
        source: &PackSource,
        seen: &LocalSource,
        taken: bool,
        failure: &Option<String>,
    ) -> (r: Result<String, PackInstallError>)
        ensures
            collections::outcome(r) == installed_as(
                planned(source.deep_view(), seen.deep_view()),
                taken,
                failure.deep_view(),
            ),
    {
        match plan_install(source, seen) {
            InstallPlan::Refuse(error) => Err(error),
            InstallPlan::Copy { name, whole } => if taken {
                Err(PackInstallError::AlreadyInstalled(name))
            } else {
                match failure {
                    None => Ok(name),
                    Some(said) => Err(PackInstallError::CopyFailed(said.clone())),
                }
            },
            InstallPlan::Clone { name, repo_url, branch } => if taken {
                Err(PackInstallError::AlreadyInstalled(name))
            } else {
                match failure {
                    None => Ok(name),
                    Some(said) => Err(PackInstallError::GitFailed(said.clone())),
                }
            },
        }
    }
}

// ─── Loading ────────────────────────────────────────────────────────────────

/// The pack of a name, or why there is none.
pub open spec fn loaded_as(
    name: Seq<char>,
    project_dir: Seq<char>,
    installed: Option<Result<DomainPackView, Seq<char>>>,
) -> Result<DomainPackView, PackLoadErrorView> {
    if name == "coding"@ {
        Ok(coding_pack::coding_contents(project_dir))
    } else if name == "research"@ {
        Ok(research_pack::research_contents(project_dir))
    } else {
        match installed {
            Some(Ok(pack)) => Ok(pack),
            Some(Err(said)) => Err(PackLoadErrorView::LoadFailed(name, said)),
            None => Err(PackLoadErrorView::NotFound(name)),
        }
    }
}

// ─── Installing ─────────────────────────────────────────────────────────────

/// What was found at the path of a source.
#[derive(Debug, PartialEq)]
pub struct LocalSource {
    /// Whether there is anything.
    pub exists: bool,
    /// Whether it is a directory.
    pub is_dir: bool,
    /// The name in its configuration, where it is a directory and can be loaded.
    pub configured_name: Option<String>,
    /// The last part of the path.
    pub file_name: String,
    /// The last part of the path without its extension, where there is one.
    pub stem: Option<String>,
}

/// The contents of a [`LocalSource`].
#[verifier::ext_equal]
pub struct LocalSourceView {
    pub exists: bool,
    pub is_dir: bool,
    pub configured_name: Option<Seq<char>>,
    pub file_name: Seq<char>,
    pub stem: Option<Seq<char>>,
}

impl DeepView for LocalSource {
    type V = LocalSourceView;

    open spec fn deep_view(&self) -> LocalSourceView {
        LocalSourceView {
            exists: self.exists,
            is_dir: self.is_dir,
            configured_name: self.configured_name.deep_view(),
            file_name: self.file_name.deep_view(),
            stem: self.stem.deep_view(),
        }
    }
}

impl Duplicate for LocalSource {
    fn duplicate(&self) -> (copy: Self) {
        LocalSource {
            exists: self.exists,
            is_dir: self.is_dir,
            configured_name: self.configured_name.duplicate(),
            file_name: self.file_name.duplicate(),
            stem: self.stem.duplicate(),
        }
    }
}

impl Clone for LocalSource {
    fn clone(&self) -> (copy: Self)
        ensures
            copy.deep_view() == self.deep_view(),
    {
        self.duplicate()
    }
}

/// What is to be done to install a pack.
#[derive(Debug, PartialEq)]
pub enum InstallPlan {
    /// Nothing.
    Refuse(PackInstallError),
    /// Copy the path into the directory of this name: as a whole, or as a file of it.
    Copy { name: String, whole: bool },
    /// Clone the repository into the directory of this name.
    Clone { name: String, repo_url: String, branch: Option<String> },
}

/// The contents of a [`InstallPlan`].
#[verifier::ext_equal]
pub enum InstallPlanView {
    Refuse(PackInstallErrorView),
    Copy { name: Seq<char>, whole: bool },
    Clone { name: Seq<char>, repo_url: Seq<char>, branch: Option<Seq<char>> },
}

impl DeepView for InstallPlan {
    type V = InstallPlanView;

    open spec fn deep_view(&self) -> InstallPlanView {
        match self {
            InstallPlan::Refuse(value) => InstallPlanView::Refuse(value.deep_view()),
            InstallPlan::Copy { name, whole } => InstallPlanView::Copy {
                name: name.deep_view(),
                whole: *whole,
            },
            InstallPlan::Clone { name, repo_url, branch } => InstallPlanView::Clone {
                name: name.deep_view(),
                repo_url: repo_url.deep_view(),
                branch: branch.deep_view(),
            },
        }
    }
}

impl Duplicate for InstallPlan {
    fn duplicate(&self) -> (copy: Self) {
        match self {
            InstallPlan::Refuse(value) => InstallPlan::Refuse(value.duplicate()),
            InstallPlan::Copy { name, whole } => InstallPlan::Copy {
                name: name.duplicate(),
                whole: *whole,
            },
            InstallPlan::Clone { name, repo_url, branch } => InstallPlan::Clone {
                name: name.duplicate(),
                repo_url: repo_url.duplicate(),
                branch: branch.duplicate(),
            },
        }
    }
}

impl Clone for InstallPlan {
    fn clone(&self) -> (copy: Self)
        ensures
            copy.deep_view() == self.deep_view(),
    {
        self.duplicate()
    }
}

/// The name of a pack in a repository: the last part of its address, without
/// what marks it as a repository.
pub open spec fn repository_name(url: Seq<char>) -> Seq<char> {
    let bare = text::without_suffixes(url, ".git"@);
    bare.subrange(bare.len() - text::after_last(bare, '/'), bare.len() as int)
}

/// The name of a pack in a repository: the last part of its address, without
/// what marks it as a repository.
pub fn extract_pack_name_from_git_url(url: &str) -> (r: String)
    ensures
        r@ == repository_name(url@),
{
    proof {
        reveal_strlit(".git");
    }
    let bare = text::trim_end_matches(url, ".git");
    let v = text::chars(bare.as_str());
    let mut i: usize = v.len();
    while i > 0 && v[i - 1] != '/'
        invariant
            i <= v.len(),
            forall|k: int| i <= k < v.len() ==> v@[k] != '/',
        decreases i,
    {
        i = i - 1;
    }
    proof {
        text::lemma_after_last(v@, '/', v@.len() - i);
    }
    text::substring(&v, i, v.len())
}

/// The name of a pack at a path.
pub open spec fn local_name(seen: LocalSourceView) -> Seq<char> {
    if seen.is_dir {
        match seen.configured_name {
            Some(name) => name,
            None => seen.file_name,
        }
    } else {
        match seen.stem {
            Some(stem) => stem,
            None => "custom"@,
        }
    }
}

/// What is said where the registry is asked for a pack.
pub open spec fn registry_message(name: Seq<char>, version: Option<Seq<char>>) -> Seq<char> {
    "Registry installation for '"@ + name + "' v"@ + (match version {
        Some(version) => version,
        None => "latest"@,
    }) + " is not yet implemented. Use Git or Local source."@
}

/// What is to be done to install a pack.
pub open spec fn planned(source: PackSourceView, seen: LocalSourceView) -> InstallPlanView {
    match source {
        PackSourceView::Local { path } => if seen.exists {
            InstallPlanView::Copy { name: local_name(seen), whole: seen.is_dir }
        } else {
            InstallPlanView::Refuse(PackInstallErrorView::SourceNotFound(path))
        },
        PackSourceView::Git { repo_url, ref_ } => InstallPlanView::Clone {
            name: repository_name(repo_url),
            repo_url,
            branch: ref_,
        },
        PackSourceView::Registry { name, version } => InstallPlanView::Refuse(
            PackInstallErrorView::NotImplemented(registry_message(name, version)),
        ),
    }
}

/// The name of the pack that was installed, or why none was.
pub open spec fn installed_as(
    plan: InstallPlanView,
    taken: bool,
    failure: Option<Seq<char>>,
) -> Result<Seq<char>, PackInstallErrorView> {
    match plan {
        InstallPlanView::Refuse(error) => Err(error),
        InstallPlanView::Copy { name, whole } => if taken {
            Err(PackInstallErrorView::AlreadyInstalled(name))
        } else {
            match failure {
                None => Ok(name),
                Some(said) => Err(PackInstallErrorView::CopyFailed(said)),
            }
        },
        InstallPlanView::Clone { name, repo_url, branch } => if taken {
            Err(PackInstallErrorView::AlreadyInstalled(name))
        } else {
            match failure {
                None => Ok(name),
                Some(said) => Err(PackInstallErrorView::GitFailed(said)),
            }
        },
    }
}

/// What is to be done to install a pack, given what was found at the source.
pub fn plan_install(source: &PackSource, seen: &LocalSource) -> (r: InstallPlan)
    ensures
        r.deep_view() == planned(source.deep_view(), seen.deep_view()),
{
    match source {
        PackSource::Local { path } => {
            if !seen.exists {
                return InstallPlan::Refuse(PackInstallError::SourceNotFound(path.clone()));
            }
            let name = if seen.is_dir {
                match &seen.configured_name {
                    Some(name) => name.clone(),
                    None => seen.file_name.clone(),
                }
            } else {
                match &seen.stem {
                    Some(stem) => stem.clone(),
                    None => "custom".to_string(),
                }
            };
            InstallPlan::Copy { name, whole: seen.is_dir }
        },
        PackSource::Git { repo_url, ref_ } => InstallPlan::Clone {
            name: extract_pack_name_from_git_url(repo_url.as_str()),
            repo_url: repo_url.clone(),
            branch: ref_.duplicate(),
        },
        PackSource::Registry { name, version } => {
            let mut said = text::concat("Registry installation for '", name.as_str());
            said.push_str("' v");
            match version {
                Some(version) => {
                    said.push_str(version.as_str());
                },
                None => {
                    said.push_str("latest");
                },
            }
            said.push_str(" is not yet implemented. Use Git or Local source.");
            InstallPlan::Refuse(PackInstallError::NotImplemented(said))
        },
    }
}

/// What `git` is called with to clone a repository into a directory.
pub open spec fn clone_command(
    repo_url: Seq<char>,
    branch: Option<Seq<char>>,
    directory: Seq<char>,
) -> Seq<Seq<char>> {
    match branch {
        Some(branch) => seq!["clone"@, "--branch"@, branch, repo_url, directory],
        None => seq!["clone"@, repo_url, directory],
    }
}

/// What `git` is called with to clone a repository into a directory.
pub fn clone_arguments(repo_url: &str, branch: &Option<String>, directory: &str) -> (r: Vec<String>)
    ensures
        r.deep_view() == clone_command(repo_url@, branch.deep_view(), directory@),
{
    match branch {
        Some(branch) => text::texts(["clone", "--branch", branch.as_str(), repo_url, directory]),
        None => text::texts(["clone", repo_url, directory]),
    }
}

// ─── Laws ───────────────────────────────────────────────────────────────────

proof fn lemma_with_installed(
    index: Seq<(Seq<char>, PackIndexEntryView)>,
    found: Seq<FoundPackView>,
    name: Seq<char>,
)
    ensures
        collections::lookup(index, name) matches Some(pack) ==> collections::lookup(
            with_installed(index, found),
            name,
        ) == Some(pack),
        collections::lookup(with_installed(index, found), name).is_some() == (
        collections::lookup(index, name).is_some() || exists|i: int|
            0 <= i < found.len() && (#[trigger] found[i]).name == name),
    decreases found.len(),
{
    if found.len() > 0 {
        let front = found.drop_last();
        let before = with_installed(index, front);
        let last = found.last();
        lemma_with_installed(index, front, name);
        assert(found[found.len() - 1] == last);
        assert forall|i: int| 0 <= i < front.len() implies front[i] == found[i] by {}
        if collections::lookup(before, last.name).is_none() {
            collections::law_lookup_after_insert(before, last.name, installed_entry(last), name);
        }
        if exists|i: int| 0 <= i < found.len() && (#[trigger] found[i]).name == name {
            let i = choose|i: int| 0 <= i < found.len() && (#[trigger] found[i]).name == name;
            if i < front.len() {
                assert(front[i].name == name);
            }
        }
    }
}

/// An installed pack never takes the place of one that is known from the start,
/// and each name that was found has an entry.
pub proof fn law_builtin_packs_stay(
    index: Seq<(Seq<char>, PackIndexEntryView)>,
    found: Seq<FoundPackView>,
    name: Seq<char>,
)
    ensures
        collections::lookup(index, name) matches Some(pack) ==> collections::lookup(
            with_installed(index, found),
            name,
        ) == Some(pack),
        forall|i: int|
            0 <= i < found.len() ==> collections::lookup(
                with_installed(index, found),
                (#[trigger] found[i]).name,
            ).is_some(),
{
    lemma_with_installed(index, found, name);
    assert forall|i: int| 0 <= i < found.len() implies collections::lookup(
        with_installed(index, found),
        (#[trigger] found[i]).name,
    ).is_some() by {
        lemma_with_installed(index, found, found[i].name);
    }
}

proof fn lemma_entered_names(
    index: Seq<(Seq<char>, PackIndexEntryView)>,
    pack: PackIndexEntryView,
)
    requires
        own_names(index),
    ensures
        own_names(collections::entered(index, pack.name, pack)),
    decreases index.len(),
{
    if index.len() > 0 && index[0].0 != pack.name {
        let rest = index.drop_first();
        assert(own_names(rest)) by {
            assert forall|i: int| 0 <= i < rest.len() implies (#[trigger] rest[i]).0
                == rest[i].1.name by {
                assert(rest[i] == index[i + 1]);
            }
        }
        lemma_entered_names(rest, pack);
    }
}

proof fn lemma_with_packs_names(
    index: Seq<(Seq<char>, PackIndexEntryView)>,
    packs: Seq<PackIndexEntryView>,
)
    requires
        own_names(index),
        collections::distinct_keys(index),
    ensures
        own_names(with_packs(index, packs)),
        collections::distinct_keys(with_packs(index, packs)),
    decreases packs.len(),
{
    if packs.len() > 0 {
        let before = with_packs(index, packs.drop_last());
        lemma_with_packs_names(index, packs.drop_last());
        lemma_entered_names(before, packs.last());
        collections::law_entered_keys_stay_distinct(before, packs.last().name, packs.last());
    }
}

proof fn lemma_with_installed_names(
    index: Seq<(Seq<char>, PackIndexEntryView)>,
    found: Seq<FoundPackView>,
)
    requires
        own_names(index),
        collections::distinct_keys(index),
    ensures
        own_names(with_installed(index, found)),
        collections::distinct_keys(with_installed(index, found)),
    decreases found.len(),
{
    if found.len() > 0 {
        let before = with_installed(index, found.drop_last());
        let pack = installed_entry(found.last());
        lemma_with_installed_names(index, found.drop_last());
        lemma_entered_names(before, pack);
        collections::law_entered_keys_stay_distinct(before, pack.name, pack);
    }
}

proof fn lemma_filter_names(
    packs: Seq<PackIndexEntryView>,
    keep: spec_fn(PackIndexEntryView) -> bool,
)
    requires
        names_once(packs),
    ensures
        names_once(packs.filter(keep)),
    decreases packs.len(),
{
    reveal(Seq::filter);
    if packs.len() > 0 {
        let front = packs.drop_last();
        let kept = front.filter(keep);
        lemma_filter_names(front, keep);
        assert forall|i: int| 0 <= i < kept.len() implies (#[trigger] kept[i]).name
            != packs.last().name by {
            collections::lemma_filter_item(front, keep, kept[i]);
            assert(kept.contains(kept[i]));
            let k = choose|k: int| 0 <= k < front.len() && front[k] == kept[i];
            assert(packs[k].name != packs[packs.len() - 1].name);
        }
    }
}

/// Where each pack stands under its own name and no name stands twice, no listing
/// and no search holds a pack twice, whatever it goes by.
pub proof fn law_listings_hold_no_pack_twice(
    index: Seq<(Seq<char>, PackIndexEntryView)>,
    keep: spec_fn(PackIndexEntryView) -> bool,
)
    requires
        own_names(index),
        collections::distinct_keys(index),
    ensures
        names_once(packs_of(index)),
        names_once(packs_of(index).filter(keep)),
{
    assert forall|i: int, j: int| 0 <= i < j < packs_of(index).len() implies (
    #[trigger] packs_of(index)[i]).name != (#[trigger] packs_of(index)[j]).name by {
        assert(index[i].0 != index[j].0);
    }
    lemma_filter_names(packs_of(index), keep);
}

/// Whatever was installed, in the index of a new registry each pack stands under
/// its own name, and no name stands twice.
pub proof fn law_index_holds_each_name_once(found: Seq<FoundPackView>)
    ensures
        ({
            let index = with_installed(with_packs(Seq::empty(), builtin_packs()), found);
            &&& own_names(index)
            &&& collections::distinct_keys(index)
        }),
{
    lemma_with_packs_names(Seq::empty(), builtin_packs());
    lemma_with_installed_names(with_packs(Seq::empty(), builtin_packs()), found);
}

/// The empty query finds every pack.
pub proof fn law_empty_query_finds_all(packs: Seq<PackIndexEntryView>)
    ensures
        packs.filter(
            |pack: PackIndexEntryView| answers(pack, text::in_lower_case(Seq::empty())),
        ) == packs,
{
    let query = text::in_lower_case(Seq::empty());
    let keep = |pack: PackIndexEntryView| answers(pack, query);
    assert(query =~= Seq::empty());
    assert forall|i: int| 0 <= i < packs.len() implies keep(#[trigger] packs[i]) by {
        let name = text::in_lower_case(packs[i].name);
        assert(name.subrange(0, 0) =~= query);
        assert(text::stands_at(name, query, 0));
    }
    lemma_filter_all(packs, keep);
}

/// A pack of the library is never listed as installed, and a planned pack is
/// listed as neither. A search finds exactly the known packs that answer it.
pub proof fn law_lists_share_out_the_packs(
    packs: Seq<PackIndexEntryView>,
    pack: PackIndexEntryView,
    query: Seq<char>,
)
    ensures
        ({
            let builtin = packs.filter(|pack: PackIndexEntryView| pack.is_builtin);
            let installed = packs.filter(|pack: PackIndexEntryView| is_installed(pack));
            let found = packs.filter(|pack: PackIndexEntryView| answers(pack, query));
            &&& builtin.contains(pack) == (packs.contains(pack) && pack.is_builtin)
            &&& installed.contains(pack) == (packs.contains(pack) && is_installed(pack))
            &&& !(builtin.contains(pack) && installed.contains(pack))
            &&& !pack.is_builtin && pack.source is Registry ==> !builtin.contains(pack)
                && !installed.contains(pack)
            &&& found.contains(pack) == (packs.contains(pack) && answers(pack, query))
        }),
{
    collections::lemma_filter_item(packs, |pack: PackIndexEntryView| pack.is_builtin, pack);
    collections::lemma_filter_item(packs, |pack: PackIndexEntryView| is_installed(pack), pack);
    collections::lemma_filter_item(packs, |pack: PackIndexEntryView| answers(pack, query), pack);
}

/// The packs, each under its own name.
pub open spec fn by_name(packs: Seq<PackIndexEntryView>) -> Seq<(Seq<char>, PackIndexEntryView)> {
    packs.map_values(|pack: PackIndexEntryView| (pack.name, pack))
}

proof fn lemma_with_packs_by_name(packs: Seq<PackIndexEntryView>)
    requires
        names_once(packs),
    ensures
        with_packs(Seq::empty(), packs) == by_name(packs),
    decreases packs.len(),
{
    if packs.len() > 0 {
        let front = packs.drop_last();
        let last = packs.last();
        lemma_with_packs_by_name(front);
        assert forall|i: int| 0 <= i < by_name(front).len() implies (
        #[trigger] by_name(front)[i]).0 != last.name by {
            assert(packs[i].name != packs[packs.len() - 1].name);
        }
        collections::lemma_lookup_at(by_name(front), last.name);
        collections::lemma_entered_last(by_name(front), last.name, last);
        assert(by_name(front).push((last.name, last)) =~= by_name(packs));
    } else {
        assert(by_name(packs) =~= Seq::empty());
    }
}

proof fn lemma_known_names()
    ensures
        names_once(builtin_packs()),
        with_packs(Seq::empty(), builtin_packs()) == by_name(builtin_packs()),
{
    reveal_strlit("coding");
    reveal_strlit("research");
    reveal_strlit("general");
    reveal_strlit("writing");
    reveal_strlit("data");
    reveal_strlit("devops");
    assert("coding"@[0] == 'c' && "research"@[0] == 'r' && "general"@[0] == 'g');
    assert("writing"@[0] == 'w' && "data"@[1] == 'a' && "data"@[0] == 'd');
    assert("devops"@[0] == 'd' && "devops"@[1] == 'e');
    let packs = builtin_packs();
    assert(packs[0].name == "coding"@ && packs[1].name == "research"@);
    assert(packs[2].name == "general"@ && packs[3].name == "writing"@);
    assert(packs[4].name == "data"@ && packs[5].name == "devops"@);
    lemma_with_packs_by_name(packs);
}

/// The entry is that of a pack that was found.
pub open spec fn comes_from(
    entry: (Seq<char>, PackIndexEntryView),
    found: Seq<FoundPackView>,
) -> bool {
    exists|k: int|
        0 <= k < found.len() && entry == ((#[trigger] found[k]).name, installed_entry(found[k]))
}

proof fn lemma_installed_come_last(
    index: Seq<(Seq<char>, PackIndexEntryView)>,
    found: Seq<FoundPackView>,
)
    ensures
        index.is_prefix_of(with_installed(index, found)),
        forall|i: int|
            index.len() <= i < with_installed(index, found).len() ==> comes_from(
                #[trigger] with_installed(index, found)[i],
                found,
            ),
    decreases found.len(),
{
    let all = with_installed(index, found);
    if found.len() > 0 {
        let front = found.drop_last();
        let last = found.last();
        let before = with_installed(index, front);
        lemma_installed_come_last(index, front);
        if collections::lookup(before, last.name).is_none() {
            collections::lemma_entered_last(before, last.name, installed_entry(last));
            assert(all.take(index.len() as int) =~= before.take(index.len() as int));
        }
        assert forall|i: int| index.len() <= i < all.len() implies comes_from(
            #[trigger] all[i],
            found,
        ) by {
            if i < before.len() {
                assert(comes_from(before[i], front));
                let k = choose|k: int|
                    0 <= k < front.len() && before[i] == (
                        (#[trigger] front[k]).name,
                        installed_entry(front[k]),
                    );
                assert(found[k] == front[k]);
            } else {
                assert(found[found.len() - 1] == last);
            }
        }
    } else {
        assert(index.take(index.len() as int) =~= index);
    }
}

/// Whatever was found on disk, a new registry knows the packs that are known from the
/// start, and every other pack that it knows was found on disk: it has the name of
/// what was found, is of the local version, and is none of the library's.
pub proof fn law_new_registry_knows(found: Seq<FoundPackView>)
    ensures
        ({
            let index = with_installed(with_packs(Seq::empty(), builtin_packs()), found);
            let known = seq![
                "coding"@,
                "research"@,
                "general"@,
                "writing"@,
                "data"@,
                "devops"@,
            ];
            &&& index.len() >= 6
            &&& packs_of(index).take(6) == builtin_packs()
            &&& forall|k: int|
                0 <= k < 6 ==> (#[trigger] packs_of(index)[k]).name == known[k]
                    && collections::lookup(index, known[k]) == Some(builtin_packs()[k])
            &&& forall|i: int|
                6 <= i < index.len() ==> {
                    &&& comes_from(#[trigger] index[i], found)
                    &&& index[i].1.version == "local"@
                    &&& !index[i].1.is_builtin
                }
        }),
{
    let packs = builtin_packs();
    let start = with_packs(Seq::empty(), packs);
    let index = with_installed(start, found);
    lemma_known_names();
    lemma_installed_come_last(start, found);
    law_index_holds_each_name_once(found);
    assert(start.len() == 6);
    assert forall|k: int| 0 <= k < 6 implies #[trigger] index[k] == (packs[k].name, packs[k]) by {
        assert(index.take(6)[k] == start[k]);
    }
    assert(packs_of(index).take(6) =~= packs);
    assert forall|k: int| 0 <= k < 6 implies collections::lookup(
        index,
        (#[trigger] packs[k]).name,
    ) == Some(packs[k]) by {
        collections::lemma_lookup_at(index, packs[k].name);
        assert(index[k].0 == packs[k].name);
    }
    assert(packs[0].name == "coding"@ && packs[1].name == "research"@);
    assert(packs[2].name == "general"@ && packs[3].name == "writing"@);
    assert(packs[4].name == "data"@ && packs[5].name == "devops"@);
}

/// Whatever was found on disk, the packs of the library that a new registry lists are
/// those for coding, for research and for general use.
pub proof fn law_library_packs_are_listed(found: Seq<FoundPackView>)
    ensures
        ({
            let index = with_installed(with_packs(Seq::empty(), builtin_packs()), found);
            let listed = packs_of(index).filter(|pack: PackIndexEntryView| pack.is_builtin);
            &&& listed == builtin_packs().take(3)
            &&& listed.map_values(|pack: PackIndexEntryView| pack.name)
                == seq!["coding"@, "research"@, "general"@]
        }),
{
    let packs = builtin_packs();
    let index = with_installed(with_packs(Seq::empty(), packs), found);
    let keep = |pack: PackIndexEntryView| pack.is_builtin;
    law_new_registry_knows(found);
    let rest = packs_of(index).skip(6);
    assert(packs_of(index) =~= packs + rest);
    Seq::filter_distributes_over_add(packs, rest, keep);
    lemma_filter_none(rest, keep);
    assert(packs =~= packs.take(3) + packs.skip(3));
    Seq::filter_distributes_over_add(packs.take(3), packs.skip(3), keep);
    lemma_filter_none(packs.skip(3), keep);
    lemma_filter_all(packs.take(3), keep);
    assert(packs_of(index).filter(keep) =~= packs.take(3));
    assert(packs.take(3).map_values(|pack: PackIndexEntryView| pack.name) =~= seq![
        "coding"@,
        "research"@,
        "general"@,
    ]);
}

proof fn lemma_filter_none(
    packs: Seq<PackIndexEntryView>,
    keep: spec_fn(PackIndexEntryView) -> bool,
)
    requires
        forall|i: int| 0 <= i < packs.len() ==> !keep(#[trigger] packs[i]),
    ensures
        packs.filter(keep) == Seq::<PackIndexEntryView>::empty(),
    decreases packs.len(),
{
    reveal(Seq::filter);
    if packs.len() > 0 {
        lemma_filter_none(packs.drop_last(), keep);
    }
}

proof fn lemma_filter_all(
    packs: Seq<PackIndexEntryView>,
    keep: spec_fn(PackIndexEntryView) -> bool,
)
    requires
        forall|i: int| 0 <= i < packs.len() ==> keep(#[trigger] packs[i]),
    ensures
        packs.filter(keep) == packs,
    decreases packs.len(),
{
    reveal(Seq::filter);
    if packs.len() > 0 {
        lemma_filter_all(packs.drop_last(), keep);
        assert(packs.drop_last().push(packs.last()) =~= packs);
    }
}

/// Where nothing was installed, nothing is listed as installed.
pub proof fn law_nothing_installed_from_the_start()
    ensures
        packs_of(
            with_installed(with_packs(Seq::empty(), builtin_packs()), Seq::empty()),
        ).filter(|pack: PackIndexEntryView| is_installed(pack)) == Seq::<
            PackIndexEntryView,
        >::empty(),
{
    lemma_known_names();
    let index = with_packs(Seq::empty(), builtin_packs());
    assert(packs_of(index) =~= builtin_packs());
    lemma_filter_none(packs_of(index), |pack: PackIndexEntryView| is_installed(pack));
}

/// A pack is installed only where its source is there, its name is free and the
/// work went well.
pub proof fn law_nothing_is_overwritten(
    source: PackSourceView,
    seen: LocalSourceView,
    taken: bool,
    failure: Option<Seq<char>>,
)
    ensures
        installed_as(planned(source, seen), taken, failure).is_ok() ==> {
            &&& !taken
            &&& failure.is_none()
            &&& source is Registry ==> false
            &&& source is Local ==> seen.exists
        },
        taken ==> installed_as(planned(source, seen), taken, failure).is_err(),
{
}

/// What is said of a pack that could not be installed or loaded names what it is about.
pub proof fn law_failures_are_told(name: Seq<char>, said: Seq<char>)
    ensures
        text::occurs(install_message(PackInstallErrorView::SourceNotFound(name)), name),
        text::occurs(install_message(PackInstallErrorView::AlreadyInstalled(name)), name),
        text::occurs(install_message(PackInstallErrorView::CopyFailed(said)), said),
        text::occurs(install_message(PackInstallErrorView::GitFailed(said)), said),
        text::occurs(install_message(PackInstallErrorView::NotImplemented(said)), said),
        text::occurs(load_message(PackLoadErrorView::NotFound(name)), name),
        text::in_order(load_message(PackLoadErrorView::LoadFailed(name, said)), seq![name, said]),
{
    let none = Seq::<char>::empty();
    text::lemma_occurs_inside("Source not found: "@, name, none);
    assert("Source not found: "@ + name + none =~= "Source not found: "@ + name);
    text::lemma_occurs_inside("Pack '"@, name, "' already installed"@);
    text::lemma_occurs_inside("Copy failed: "@, said, none);
    assert("Copy failed: "@ + said + none =~= "Copy failed: "@ + said);
    text::lemma_occurs_inside("Git clone failed: "@, said, none);
    assert("Git clone failed: "@ + said + none =~= "Git clone failed: "@ + said);
    text::lemma_occurs_inside("Not implemented: "@, said, none);
    assert("Not implemented: "@ + said + none =~= "Not implemented: "@ + said);
    text::lemma_occurs_inside("Pack '"@, name, "' not found"@);
    let start = "Failed to load pack '"@;
    text::lemma_in_order_between(start, name, "': "@);
    text::lemma_in_order_piece(start + name + "': "@, seq![name], said);
    assert(seq![name].push(said) =~= seq![name, said]);
}

/// A pack that was found is entered under its name, with its place and the first
/// description that was found; without one it is called an installed pack.
pub proof fn law_found_pack_is_entered(pack: FoundPackView, i: int)
    ensures
        installed_entry(pack).name == pack.name,
        installed_entry(pack).source == (PackSourceView::Local { path: pack.path }),
        installed_entry(pack).tags == seq![pack.name],
        is_installed(installed_entry(pack)),
        0 <= i < pack.descriptions.len() && (forall|k: int|
            0 <= k < i ==> (#[trigger] pack.descriptions[k]) is None) ==> (
        pack.descriptions[i] matches Some(description) ==> installed_entry(pack).description
            == description),
        (forall|k: int| 0 <= k < pack.descriptions.len() ==> (#[trigger] pack.descriptions[k])
            is None) ==> installed_entry(pack).description == "Installed domain pack"@,
{
    lemma_first_text(pack.descriptions, i);
}

proof fn lemma_first_text(found: Seq<Option<Seq<char>>>, i: int)
    ensures
        0 <= i < found.len() && (forall|k: int| 0 <= k < i ==> (#[trigger] found[k]) is None)
            && found[i] is Some ==> first_text(found) == found[i],
        (forall|k: int| 0 <= k < found.len() ==> (#[trigger] found[k]) is None) ==> first_text(
            found,
        ) is None,
    decreases found.len(),
{
    if found.len() > 0 {
        let rest = found.drop_first();
        lemma_first_text(rest, i - 1);
        assert forall|k: int| 0 <= k < rest.len() implies #[trigger] rest[k] == found[k + 1] by {}
        if forall|k: int| 0 <= k < found.len() ==> (#[trigger] found[k]) is None {
            assert(found[0] is None);
        }
        if 0 < i < found.len() && (forall|k: int| 0 <= k < i ==> (#[trigger] found[k]) is None) {
            assert(found[0] is None);
        }
    }
}

/// A pack that is found joins the index at its end, unless its name is known.
pub proof fn law_further_found_pack(
    index: Seq<(Seq<char>, PackIndexEntryView)>,
    found: Seq<FoundPackView>,
    pack: FoundPackView,
)
    ensures
        collections::lookup(with_installed(index, found), pack.name) is None ==> with_installed(
            index,
            found.push(pack),
        ) == with_installed(index, found).push((pack.name, installed_entry(pack))),
        collections::lookup(with_installed(index, found), pack.name) is Some ==> with_installed(
            index,
            found.push(pack),
        ) == with_installed(index, found),
        with_installed(index, Seq::empty()) == index,
{
    assert(found.push(pack).drop_last() =~= found);
    if collections::lookup(with_installed(index, found), pack.name) is None {
        collections::lemma_entered_last(
            with_installed(index, found),
            pack.name,
            installed_entry(pack),
        );
    }
}

/// A pack answers a query that its name, its description or one of its tags holds, whatever
/// the case of their letters, and no other.
pub proof fn law_what_answers_a_query(pack: PackIndexEntryView, query: Seq<char>, i: int)
    ensures
        text::occurs(text::in_lower_case(pack.name), query) ==> answers(pack, query),
        text::occurs(text::in_lower_case(pack.description), query) ==> answers(pack, query),
        0 <= i < pack.tags.len() && text::occurs(text::in_lower_case(pack.tags[i]), query)
            ==> answers(pack, query),
        answers(pack, query) && !text::occurs(text::in_lower_case(pack.name), query)
            && !text::occurs(text::in_lower_case(pack.description), query) ==> exists|k: int|
            0 <= k < pack.tags.len() && text::occurs(
                text::in_lower_case(#[trigger] pack.tags[k]),
                query,
            ),
{
}

/// The packs of the library are built for the project; any other is the one that was
/// installed, and one that was not, or could not be read, is refused by its name.
pub proof fn law_loaded_by_name(
    name: Seq<char>,
    project_dir: Seq<char>,
    pack: DomainPackView,
    said: Seq<char>,
)
    ensures
        loaded_as("coding"@, project_dir, None) == Ok::<DomainPackView, PackLoadErrorView>(
            coding_pack::coding_contents(project_dir),
        ),
        loaded_as("research"@, project_dir, None) == Ok::<DomainPackView, PackLoadErrorView>(
            research_pack::research_contents(project_dir),
        ),
        name != "coding"@ && name != "research"@ ==> {
            &&& loaded_as(name, project_dir, Some(Ok(pack))) == Ok::<
                DomainPackView,
                PackLoadErrorView,
            >(pack)
            &&& loaded_as(name, project_dir, Some(Err(said))) == Err::<
                DomainPackView,
                PackLoadErrorView,
            >(PackLoadErrorView::LoadFailed(name, said))
            &&& loaded_as(name, project_dir, None) == Err::<DomainPackView, PackLoadErrorView>(
                PackLoadErrorView::NotFound(name),
            )
        },
{
    reveal_strlit("coding");
    reveal_strlit("research");
    assert("coding"@.len() != "research"@.len());
}

/// A repository is called by the last part of its address, with or without `.git` behind
/// it.
pub proof fn law_repository_is_called(before: Seq<char>, name: Seq<char>)
    requires
        !name.contains('/'),
        !".git"@.is_suffix_of(before + seq!['/'] + name),
    ensures
        repository_name(before + seq!['/'] + name) == name,
        repository_name(before + seq!['/'] + name + ".git"@) == name,
{
    let bare = before + seq!['/'] + name;
    reveal_strlit(".git");
    text::law_copies_are_taken_off(bare, ".git"@);
    assert forall|k: int| bare.len() - name.len() <= k < bare.len() implies bare[k] != '/' by {
        assert(bare[k] == name[k - before.len() - 1]);
        assert(name.contains(name[k - before.len() - 1]));
    }
    text::lemma_after_last(bare, '/', name.len() as int);
    assert(bare.subrange(bare.len() - name.len(), bare.len() as int) =~= name);
}

/// What is done to install a pack: a source on this machine is copied where it is there,
/// under the name that its configuration gives, or else under that of its directory or
/// file; a repository is cloned as its address says; and a registry is refused.
pub proof fn law_installation_is_planned(
    path: Seq<char>,
    seen: LocalSourceView,
    repo_url: Seq<char>,
    ref_: Option<Seq<char>>,
)
    ensures
        ({
            let local = planned(PackSourceView::Local { path }, seen);
            let git = planned(PackSourceView::Git { repo_url, ref_ }, seen);
            let registry = planned(PackSourceView::Registry { name: path, version: ref_ }, seen);
            &&& !seen.exists ==> local == InstallPlanView::Refuse(
                PackInstallErrorView::SourceNotFound(path),
            )
            &&& seen.exists ==> (local matches InstallPlanView::Copy { name, whole } && {
                &&& whole == seen.is_dir
                &&& seen.is_dir ==> (seen.configured_name matches Some(given) ==> name == given)
                &&& seen.is_dir && seen.configured_name is None ==> name == seen.file_name
                &&& !seen.is_dir ==> (seen.stem matches Some(stem) ==> name == stem)
                &&& !seen.is_dir && seen.stem is None ==> name == "custom"@
            })
            &&& git matches InstallPlanView::Clone { name, repo_url: from, branch } && {
                &&& name == repository_name(repo_url)
                &&& from == repo_url
                &&& branch == ref_
            }
            &&& registry matches InstallPlanView::Refuse(
                PackInstallErrorView::NotImplemented(said),
            ) && text::occurs(said, path)
        }),
{
    let version = match ref_ {
        Some(version) => version,
        None => "latest"@,
    };
    let start = "Registry installation for '"@;
    let end = "' v"@ + version + " is not yet implemented. Use Git or Local source."@;
    text::lemma_occurs_inside(start, path, end);
    assert(start + path + end =~= registry_message(path, ref_));
}

/// A pack is installed under its name where the name is free and the work went well; a name
/// that is taken is refused before any work counts, and work that failed says why.
pub proof fn law_what_comes_of_an_installation(
    name: Seq<char>,
    whole: bool,
    url: Seq<char>,
    branch: Option<Seq<char>>,
    failure: Option<Seq<char>>,
    said: Seq<char>,
    error: PackInstallErrorView,
)
    ensures
        ({
            let copy = InstallPlanView::Copy { name, whole };
            let clone = InstallPlanView::Clone { name, repo_url: url, branch };
            let taken = Err::<Seq<char>, PackInstallErrorView>(
                PackInstallErrorView::AlreadyInstalled(name),
            );
            &&& installed_as(copy, false, None) == Ok::<Seq<char>, PackInstallErrorView>(name)
            &&& installed_as(clone, false, None) == Ok::<Seq<char>, PackInstallErrorView>(name)
            &&& installed_as(copy, true, failure) == taken
            &&& installed_as(clone, true, failure) == taken
            &&& installed_as(copy, false, Some(said)) == Err::<Seq<char>, PackInstallErrorView>(
                PackInstallErrorView::CopyFailed(said),
            )
            &&& installed_as(clone, false, Some(said)) == Err::<Seq<char>, PackInstallErrorView>(
                PackInstallErrorView::GitFailed(said),
            )
            &&& installed_as(InstallPlanView::Refuse(error), whole, failure) == Err::<
                Seq<char>,
                PackInstallErrorView,
            >(error)
        }),
{
}

/// A repository is cloned from its address into the directory, at the branch where one is
/// given.
pub proof fn law_clone_command(url: Seq<char>, branch: Seq<char>, directory: Seq<char>)
    ensures
        ({
            let plain = clone_command(url, None, directory);
            let branched = clone_command(url, Some(branch), directory);
            &&& plain[0] == "clone"@ && branched[0] == "clone"@
            &&& plain.last() == directory && branched.last() == directory
            &&& plain.drop_last().last() == url && branched.drop_last().last() == url
            &&& plain.len() == 3
            &&& branched.len() == 5
            &&& branched[1] == "--branch"@ && branched[2] == branch
        }),
{
}

/// What the entries of the packs of the library say: their names, descriptions and tags;
/// those that are planned are not part of the library yet.
pub proof fn law_library_entries(name: Seq<char>, description: Seq<char>, tags: Seq<Seq<char>>)
    ensures
        ({
            let builtin = builtin_entry_of(name, description, tags);
            let planned = planned_entry_of(name, description, tags);
            &&& builtin.name == name && planned.name == name
            &&& builtin.description == description && planned.description == description
            &&& builtin.tags == tags && planned.tags == tags
            &&& builtin.is_builtin && !planned.is_builtin
            &&& builtin.source is Local && planned.source is Registry
            &&& planned.version == "planned"@
            &&& !is_installed(builtin) && !is_installed(planned)
        }),
{
}

} // verus!
