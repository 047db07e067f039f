//! What the agents of a domain remember, for how long, and where.

use vstd::prelude::*;
use crate::collections::{self, Keyed};
use crate::duplicate::Duplicate;
use crate::text;
use crate::time;

verus! {

/// The seconds of a day.
pub const DAY_SECS: u64 = 86_400;

/// The shorter of two durations.
pub open spec fn shorter(a: u128, b: u128) -> u128 {
    if a <= b {
        a
    } else {
        b
    }
}

fn shortest(a: u128, b: u128) -> (r: u128)
    ensures
        r == shorter(a, b),
{
    if a <= b {
        a
    } else {
        b
    }
}

/// The lesser of two numbers.
pub open spec fn lesser(a: u64, b: u64) -> u64 {
    if a <= b {
        a
    } else {
        b
    }
}

/// The lesser of two sizes.
pub open spec fn lesser_size(a: usize, b: usize) -> usize {
    if a <= b {
        a
    } else {
        b
    }
}

fn least(a: u64, b: u64) -> (r: u64)
    ensures
        r == lesser(a, b),
{
    if a <= b {
        a
    } else {
        b
    }
}

fn least_size(a: usize, b: usize) -> (r: usize)
    ensures
        r == lesser_size(a, b),
{
    if a <= b {
        a
    } else {
        b
    }
}

// ─── Working state ──────────────────────────────────────────────────────────

/// Where something is kept.
#[derive(Debug, Clone, Copy, PartialEq, Eq, Structural)]
pub enum StorageRoot {
    /// In the project, under `.oneai`.
    InRepo,
    /// In the home directory of the user, under `.oneai`.
    HomeDir,
}

impl DeepView for StorageRoot {
    type V = StorageRoot;

    open spec fn deep_view(&self) -> StorageRoot {
        *self
    }
}

impl Duplicate for StorageRoot {
    fn duplicate(&self) -> (copy: Self) {
        *self
    }
}

/// When the state of the work is written down.
#[derive(Debug, Clone, Copy, PartialEq, Eq, Structural)]
pub enum CheckpointGranularity {
    /// After each action.
    EveryStep,
    /// Where a task begins, pauses, goes on or ends.
    OnTaskBoundary,
    /// At decisions, obstacles and the end.
    CriticalNodes,
}

impl DeepView for CheckpointGranularity {
    type V = CheckpointGranularity;

    open spec fn deep_view(&self) -> CheckpointGranularity {
        *self
    }
}

impl Duplicate for CheckpointGranularity {
    fn duplicate(&self) -> (copy: Self) {
        *self
    }
}

/// What the state of the work is held against when it is taken up again.
#[derive(Debug, Clone, Copy, PartialEq, Eq, Structural)]
pub enum GroundTruthReconciliation {
    /// Nothing.
    Nothing,
    /// The repository.
    Git,
}

impl DeepView for GroundTruthReconciliation {
    type V = GroundTruthReconciliation;

    open spec fn deep_view(&self) -> GroundTruthReconciliation {
        *self
    }
}

impl Duplicate for GroundTruthReconciliation {
    fn duplicate(&self) -> (copy: Self) {
        *self
    }
}

/// Whether unfinished work of earlier sessions is brought up.
#[derive(Debug, Clone, Copy, PartialEq, Eq, Structural)]
pub enum CrossSessionSurface {
    /// In the first turn of a session.
    AutoInject,
    /// When the user asks.
    OnDemand,
}

impl DeepView for CrossSessionSurface {
    type V = CrossSessionSurface;

    open spec fn deep_view(&self) -> CrossSessionSurface {
        *self
    }
}

impl Duplicate for CrossSessionSurface {
    fn duplicate(&self) -> (copy: Self) {
        *self
    }
}

/// What becomes of the log of a task that is done.
#[derive(Debug, Clone, Copy, PartialEq, Eq, Structural)]
pub enum Retention {
    /// It is packed away.
    ArchiveOnComplete,
    /// It stays.
    Keep,
}

impl DeepView for Retention {
    type V = Retention;

    open spec fn deep_view(&self) -> Retention {
        *self
    }
}

impl Duplicate for Retention {
    fn duplicate(&self) -> (copy: Self) {
        *self
    }
}

/// How much of the state is carried along.
#[derive(Debug, Clone, Copy, PartialEq, Eq, Structural)]
pub enum WorkingStateThickness {
    /// What cannot be found again elsewhere.
    Thin,
    /// All of it.
    Thick,
}

impl DeepView for WorkingStateThickness {
    type V = WorkingStateThickness;

    open spec fn deep_view(&self) -> WorkingStateThickness {
        *self
    }
}

impl Duplicate for WorkingStateThickness {
    fn duplicate(&self) -> (copy: Self) {
        *self
    }
}

impl StorageRoot {
    /// The place of this name: the project where there is none.
    pub open spec fn named(name: Seq<char>) -> StorageRoot {
        if name == "home_dir"@ {
            StorageRoot::HomeDir
        } else {
            StorageRoot::InRepo
        }
    }

    /// The place of this name: the project where there is none.
    pub fn from_str(s: &str) -> (r: Self)
        ensures
            r == StorageRoot::named(s@),
    {
        if text::same(s, "home_dir") {
            StorageRoot::HomeDir
        } else {
            StorageRoot::InRepo
        }
    }
}

impl CheckpointGranularity {
    /// The granularity of this name: each action where there is none.
    pub open spec fn named(name: Seq<char>) -> CheckpointGranularity {
        if name == "on_task_boundary"@ {
            CheckpointGranularity::OnTaskBoundary
        } else if name == "critical_nodes"@ {
            CheckpointGranularity::CriticalNodes
        } else {
            CheckpointGranularity::EveryStep
        }
    }

    /// The granularity of this name: each action where there is none.
    pub fn from_str(s: &str) -> (r: Self)
        ensures
            r == CheckpointGranularity::named(s@),
    {
        if text::same(s, "on_task_boundary") {
            CheckpointGranularity::OnTaskBoundary
        } else if text::same(s, "critical_nodes") {
            CheckpointGranularity::CriticalNodes
        } else {
            CheckpointGranularity::EveryStep
        }
    }
}

impl GroundTruthReconciliation {
    /// The way of this name: the repository where there is none.
    pub open spec fn named(name: Seq<char>) -> GroundTruthReconciliation {
        if name == "none"@ {
            GroundTruthReconciliation::Nothing
        } else {
            GroundTruthReconciliation::Git
        }
    }

    /// The way of this name: the repository where there is none.
    pub fn from_str(s: &str) -> (r: Self)
        ensures
            r == GroundTruthReconciliation::named(s@),
    {
        if text::same(s, "none") {
            GroundTruthReconciliation::Nothing
        } else {
            GroundTruthReconciliation::Git
        }
    }
}

impl CrossSessionSurface {
    /// The way of this name: in the first turn where there is none.
    pub open spec fn named(name: Seq<char>) -> CrossSessionSurface {
        if name == "on_demand"@ {
            CrossSessionSurface::OnDemand
        } else {
            CrossSessionSurface::AutoInject
        }
    }

    /// The way of this name: in the first turn where there is none.
    pub fn from_str(s: &str) -> (r: Self)
        ensures
            r == CrossSessionSurface::named(s@),
    {
        if text::same(s, "on_demand") {
            CrossSessionSurface::OnDemand
        } else {
            CrossSessionSurface::AutoInject
        }
    }
}

impl Retention {
    /// The way of this name: packed away where there is none.
    pub open spec fn named(name: Seq<char>) -> Retention {
        if name == "keep"@ {
            Retention::Keep
        } else {
            Retention::ArchiveOnComplete
        }
    }

    /// The way of this name: packed away where there is none.
    pub fn from_str(s: &str) -> (r: Self)
        ensures
            r == Retention::named(s@),
    {
        if text::same(s, "keep") {
            Retention::Keep
        } else {
            Retention::ArchiveOnComplete
        }
    }
}

impl WorkingStateThickness {
    /// The thickness of this name: thin where there is none.
    pub open spec fn named(name: Seq<char>) -> WorkingStateThickness {
        if name == "thick"@ {
            WorkingStateThickness::Thick
        } else {
            WorkingStateThickness::Thin
        }
    }

    /// The thickness of this name: thin where there is none.
    pub fn from_str(s: &str) -> (r: Self)
        ensures
            r == WorkingStateThickness::named(s@),
    {
        if text::same(s, "thick") {
            WorkingStateThickness::Thick
        } else {
            WorkingStateThickness::Thin
        }
    }
}

/// When the log of a task is folded.
#[derive(Debug, PartialEq, Eq)]
pub struct CompactionConfig {
    /// Past so many events.
    pub event_threshold: usize,
    /// So many recent events are kept as they are.
    pub keep_recent: usize,
}

/// The contents of a [`CompactionConfig`].
#[verifier::ext_equal]
pub struct CompactionConfigView {
    pub event_threshold: usize,
    pub keep_recent: usize,
}

impl DeepView for CompactionConfig {
    type V = CompactionConfigView;

    open spec fn deep_view(&self) -> CompactionConfigView {
        CompactionConfigView {
            event_threshold: self.event_threshold,
            keep_recent: self.keep_recent,
        }
    }
}

impl Duplicate for CompactionConfig {
    fn duplicate(&self) -> (copy: Self) {
        CompactionConfig {
            event_threshold: self.event_threshold,
            keep_recent: self.keep_recent,
        }
    }
}

impl Clone for CompactionConfig {
    fn clone(&self) -> (copy: Self)
        ensures
            copy.deep_view() == self.deep_view(),
    {
        self.duplicate()
    }
}

impl Default for CompactionConfig {
    fn default() -> (r: Self)
        ensures
            r.event_threshold == 200,
            r.keep_recent == 50,
    {
        CompactionConfig { event_threshold: 200, keep_recent: 50 }
    }
}

/// How the state of the work is kept.
#[derive(Debug, PartialEq, Eq)]
pub struct WorkingStatePolicy {
    /// Where.
    pub storage_root: StorageRoot,
    /// When it is written down.
    pub checkpoint_granularity: CheckpointGranularity,
    /// What it is held against when it is taken up again.
    pub ground_truth_reconciliation: GroundTruthReconciliation,
    /// Whether unfinished work is brought up.
    pub cross_session_surface: CrossSessionSurface,
    /// What becomes of the log of a task that is done.
    pub retention: Retention,
    /// How much of it is carried along.
    pub thickness: WorkingStateThickness,
    /// When the log is folded.
    pub compaction: CompactionConfig,
    /// The age in nanoseconds at which a packed log is dropped.
    pub max_age_before_archive: u128,
}

/// The contents of a [`WorkingStatePolicy`].
#[verifier::ext_equal]
pub struct WorkingStatePolicyView {
    pub storage_root: StorageRoot,
    pub checkpoint_granularity: CheckpointGranularity,
    pub ground_truth_reconciliation: GroundTruthReconciliation,
    pub cross_session_surface: CrossSessionSurface,
    pub retention: Retention,
    pub thickness: WorkingStateThickness,
    pub compaction: CompactionConfigView,
    pub max_age_before_archive: u128,
}

impl DeepView for WorkingStatePolicy {
    type V = WorkingStatePolicyView;

    open spec fn deep_view(&self) -> WorkingStatePolicyView {
        WorkingStatePolicyView {
            storage_root: self.storage_root,
            checkpoint_granularity: self.checkpoint_granularity,
            ground_truth_reconciliation: self.ground_truth_reconciliation,
            cross_session_surface: self.cross_session_surface,
            retention: self.retention,
            thickness: self.thickness,
            compaction: self.compaction.deep_view(),
            max_age_before_archive: self.max_age_before_archive,
        }
    }
}

impl Duplicate for WorkingStatePolicy {
    fn duplicate(&self) -> (copy: Self) {
        WorkingStatePolicy {
            storage_root: self.storage_root,
            checkpoint_granularity: self.checkpoint_granularity,
            ground_truth_reconciliation: self.ground_truth_reconciliation,
            cross_session_surface: self.cross_session_surface,
            retention: self.retention,
            thickness: self.thickness,
            compaction: self.compaction.duplicate(),
            max_age_before_archive: self.max_age_before_archive,
        }
    }
}

impl Clone for WorkingStatePolicy {
    fn clone(&self) -> (copy: Self)
        ensures
            copy.deep_view() == self.deep_view(),
    {
        self.duplicate()
    }
}

/// How the state is kept in a coding domain.
pub open spec fn coding_working_state() -> WorkingStatePolicyView {
    WorkingStatePolicyView {
        storage_root: StorageRoot::InRepo,
        checkpoint_granularity: CheckpointGranularity::EveryStep,
        ground_truth_reconciliation: GroundTruthReconciliation::Git,
        cross_session_surface: CrossSessionSurface::AutoInject,
        retention: Retention::ArchiveOnComplete,
        thickness: WorkingStateThickness::Thin,
        compaction: CompactionConfigView { event_threshold: 200, keep_recent: 50 },
        max_age_before_archive: time::seconds(2_592_000),
    }
}

/// How the state is kept in a domain of conversation.
pub open spec fn assistant_working_state() -> WorkingStatePolicyView {
    WorkingStatePolicyView {
        storage_root: StorageRoot::HomeDir,
        checkpoint_granularity: CheckpointGranularity::OnTaskBoundary,
        ground_truth_reconciliation: GroundTruthReconciliation::Nothing,
        cross_session_surface: CrossSessionSurface::AutoInject,
        retention: Retention::Keep,
        thickness: WorkingStateThickness::Thick,
        compaction: CompactionConfigView { event_threshold: 500, keep_recent: 100 },
        max_age_before_archive: time::seconds(7_776_000),
    }
}

/// The policy of two domains: the choices of the first, and the lower bounds.
pub open spec fn merged_working_state(
    primary: WorkingStatePolicyView,
    other: WorkingStatePolicyView,
) -> WorkingStatePolicyView {
    WorkingStatePolicyView {
        compaction: CompactionConfigView {
            event_threshold: lesser_size(
                primary.compaction.event_threshold,
                other.compaction.event_threshold,
            ),
            keep_recent: lesser_size(primary.compaction.keep_recent, other.compaction.keep_recent),
        },
        max_age_before_archive: shorter(
            primary.max_age_before_archive,
            other.max_age_before_archive,
        ),
        ..primary
    }
}

impl WorkingStatePolicy {
    /// How the state is kept in a coding domain.
    pub fn coding() -> (r: Self)
        ensures
            r.deep_view() == coding_working_state(),
    {
        WorkingStatePolicy {
            storage_root: StorageRoot::InRepo,
            checkpoint_granularity: CheckpointGranularity::EveryStep,
            ground_truth_reconciliation: GroundTruthReconciliation::Git,
            cross_session_surface: CrossSessionSurface::AutoInject,
            retention: Retention::ArchiveOnComplete,
            thickness: WorkingStateThickness::Thin,
            compaction: CompactionConfig { event_threshold: 200, keep_recent: 50 },
            max_age_before_archive: 30 * time::DAY,
        }
    }

    /// How the state is kept in a domain of conversation.
    pub fn assistant() -> (r: Self)
        ensures
            r.deep_view() == assistant_working_state(),
    {
        WorkingStatePolicy {
            storage_root: StorageRoot::HomeDir,
            checkpoint_granularity: CheckpointGranularity::OnTaskBoundary,
            ground_truth_reconciliation: GroundTruthReconciliation::Nothing,
            cross_session_surface: CrossSessionSurface::AutoInject,
            retention: Retention::Keep,
            thickness: WorkingStateThickness::Thick,
            compaction: CompactionConfig { event_threshold: 500, keep_recent: 100 },
            max_age_before_archive: 90 * time::DAY,
        }
    }

    /// The policy of two domains: the choices of the first, and the lower
    /// bounds.
    pub fn merge(primary: &Self, other: &Self) -> (r: Self)
        ensures
            r.deep_view() == merged_working_state(primary.deep_view(), other.deep_view()),
    {
        WorkingStatePolicy {
            storage_root: primary.storage_root,
            checkpoint_granularity: primary.checkpoint_granularity,
            ground_truth_reconciliation: primary.ground_truth_reconciliation,
            cross_session_surface: primary.cross_session_surface,
            retention: primary.retention,
            thickness: primary.thickness,
            compaction: CompactionConfig {
                event_threshold: least_size(
                    primary.compaction.event_threshold,
                    other.compaction.event_threshold,
                ),
                keep_recent: least_size(
                    primary.compaction.keep_recent,
                    other.compaction.keep_recent,
                ),
            },
            max_age_before_archive: shortest(
                primary.max_age_before_archive,
                other.max_age_before_archive,
            ),
        }
    }
}

impl Default for WorkingStatePolicy {
    fn default() -> (r: Self)
        ensures
            r.deep_view() == coding_working_state(),
    {
        WorkingStatePolicy::coding()
    }
}

/// Merged bounds are at most those of either domain, and a log that keeps
/// fewer events than it takes to fold it does so after the merge.
pub proof fn law_merged_working_state_bounds(
    primary: WorkingStatePolicyView,
    other: WorkingStatePolicyView,
)
    ensures
        ({
            let merged = merged_working_state(primary, other);
            &&& merged.compaction.event_threshold <= primary.compaction.event_threshold
            &&& merged.compaction.event_threshold <= other.compaction.event_threshold
            &&& merged.compaction.keep_recent <= primary.compaction.keep_recent
            &&& merged.compaction.keep_recent <= other.compaction.keep_recent
            &&& merged.max_age_before_archive <= primary.max_age_before_archive
            &&& merged.max_age_before_archive <= other.max_age_before_archive
            &&& primary.compaction.keep_recent < primary.compaction.event_threshold
                && other.compaction.keep_recent < other.compaction.event_threshold
                ==> merged.compaction.keep_recent < merged.compaction.event_threshold
        }),
{
}

// ─── Skills ─────────────────────────────────────────────────────────────────

/// When skills are retired.
#[derive(Debug, PartialEq, Eq)]
pub struct SkillLifecyclePolicy {
    /// After so many idle nanoseconds a skill is stale.
    pub stale_after: u128,
    /// After so many idle nanoseconds it is packed away.
    pub archive_after: u128,
    /// Whether this happens by itself.
    pub auto_transitions: bool,
    /// How many backups are kept.
    pub backup_count: usize,
    /// Where.
    pub storage_root: StorageRoot,
    /// For so many nanoseconds a skill that was never used is left alone.
    pub grace_unused: u128,
}

/// The contents of a [`SkillLifecyclePolicy`].
#[verifier::ext_equal]
pub struct SkillLifecyclePolicyView {
    pub stale_after: u128,
    pub archive_after: u128,
    pub auto_transitions: bool,
    pub backup_count: usize,
    pub storage_root: StorageRoot,
    pub grace_unused: u128,
}

impl DeepView for SkillLifecyclePolicy {
    type V = SkillLifecyclePolicyView;

    open spec fn deep_view(&self) -> SkillLifecyclePolicyView {
        SkillLifecyclePolicyView {
            stale_after: self.stale_after,
            archive_after: self.archive_after,
            auto_transitions: self.auto_transitions,
            backup_count: self.backup_count,
            storage_root: self.storage_root,
            grace_unused: self.grace_unused,
        }
    }
}

impl Duplicate for SkillLifecyclePolicy {
    fn duplicate(&self) -> (copy: Self) {
        SkillLifecyclePolicy {
            stale_after: self.stale_after,
            archive_after: self.archive_after,
            auto_transitions: self.auto_transitions,
            backup_count: self.backup_count,
            storage_root: self.storage_root,
            grace_unused: self.grace_unused,
        }
    }
}

impl Clone for SkillLifecyclePolicy {
    fn clone(&self) -> (copy: Self)
        ensures
            copy.deep_view() == self.deep_view(),
    {
        self.duplicate()
    }
}

/// When skills are retired in a coding domain.
pub open spec fn coding_skills() -> SkillLifecyclePolicyView {
    SkillLifecyclePolicyView {
        stale_after: time::seconds(2_592_000),
        archive_after: time::seconds(7_776_000),
        auto_transitions: true,
        backup_count: 5,
        storage_root: StorageRoot::HomeDir,
        grace_unused: time::seconds(604_800),
    }
}

/// When skills are retired in a domain of conversation.
pub open spec fn assistant_skills() -> SkillLifecyclePolicyView {
    SkillLifecyclePolicyView {
        stale_after: time::seconds(5_184_000),
        archive_after: time::seconds(15_552_000),
        auto_transitions: true,
        backup_count: 5,
        storage_root: StorageRoot::HomeDir,
        grace_unused: time::seconds(1_209_600),
    }
}

/// The policy of two domains: the lower bounds, the place of the first, and
/// by itself where either says so.
pub open spec fn merged_skills(
    primary: SkillLifecyclePolicyView,
    other: SkillLifecyclePolicyView,
) -> SkillLifecyclePolicyView {
    SkillLifecyclePolicyView {
        stale_after: shorter(primary.stale_after, other.stale_after),
        archive_after: shorter(primary.archive_after, other.archive_after),
        auto_transitions: primary.auto_transitions || other.auto_transitions,
        backup_count: lesser_size(primary.backup_count, other.backup_count),
        storage_root: primary.storage_root,
        grace_unused: shorter(primary.grace_unused, other.grace_unused),
    }
}

impl SkillLifecyclePolicy {
    /// When skills are retired in a coding domain.
    pub fn coding() -> (r: Self)
        ensures
            r.deep_view() == coding_skills(),
    {
        SkillLifecyclePolicy {
            stale_after: 30 * time::DAY,
            archive_after: 90 * time::DAY,
            auto_transitions: true,
            backup_count: 5,
            storage_root: StorageRoot::HomeDir,
            grace_unused: 7 * time::DAY,
        }
    }

    /// When skills are retired in a domain of conversation.
    pub fn assistant() -> (r: Self)
        ensures
            r.deep_view() == assistant_skills(),
    {
        SkillLifecyclePolicy {
            stale_after: 60 * time::DAY,
            archive_after: 180 * time::DAY,
            auto_transitions: true,
            backup_count: 5,
            storage_root: StorageRoot::HomeDir,
            grace_unused: 14 * time::DAY,
        }
    }

    /// The policy of two domains.
    pub fn merge(primary: &Self, other: &Self) -> (r: Self)
        ensures
            r.deep_view() == merged_skills(primary.deep_view(), other.deep_view()),
    {
        SkillLifecyclePolicy {
            stale_after: shortest(primary.stale_after, other.stale_after),
            archive_after: shortest(primary.archive_after, other.archive_after),
            auto_transitions: primary.auto_transitions || other.auto_transitions,
            backup_count: least_size(primary.backup_count, other.backup_count),
            storage_root: primary.storage_root,
            grace_unused: shortest(primary.grace_unused, other.grace_unused),
        }
    }
}

impl Default for SkillLifecyclePolicy {
    fn default() -> (r: Self)
        ensures
            r.deep_view() == coding_skills(),
    {
        SkillLifecyclePolicy::coding()
    }
}

/// A skill goes stale before it is packed away in a merged policy, where it
/// does so in both domains; and no sooner does it outlive either domain's
/// bounds.
pub proof fn law_merged_skills_bounds(
    primary: SkillLifecyclePolicyView,
    other: SkillLifecyclePolicyView,
)
    ensures
        ({
            let merged = merged_skills(primary, other);
            &&& merged.stale_after <= primary.stale_after && merged.stale_after
                <= other.stale_after
            &&& merged.archive_after <= primary.archive_after && merged.archive_after
                <= other.archive_after
            &&& merged.backup_count <= primary.backup_count && merged.backup_count
                <= other.backup_count
            &&& primary.stale_after < primary.archive_after && other.stale_after
                < other.archive_after ==> merged.stale_after < merged.archive_after
        }),
{
}

// ─── Facts ──────────────────────────────────────────────────────────────────

/// A kind of facts.
#[derive(Debug, PartialEq, Eq)]
pub struct FactType {
    pub name: String,
}

/// The contents of a [`FactType`].
#[verifier::ext_equal]
pub struct FactTypeView {
    pub name: Seq<char>,
}

impl DeepView for FactType {
    type V = FactTypeView;

    open spec fn deep_view(&self) -> FactTypeView {
        FactTypeView {
            name: self.name.deep_view(),
        }
    }
}

impl Duplicate for FactType {
    fn duplicate(&self) -> (copy: Self) {
        FactType {
            name: self.name.duplicate(),
        }
    }
}

impl Clone for FactType {
    fn clone(&self) -> (copy: Self)
        ensures
            copy.deep_view() == self.deep_view(),
    {
        self.duplicate()
    }
}

impl FactType {
    /// The kind of this name.
    pub fn new(name: &str) -> (r: Self)
        ensures
            r.deep_view() == (FactTypeView { name: name@ }),
    {
        FactType { name: name.to_string() }
    }
}

impl Keyed for FactType {
    open spec fn key_of(contents: FactTypeView) -> Seq<char> {
        contents.name
    }

    fn key(&self) -> (key: &str) {
        self.name.as_str()
    }
}

/// The kinds of these names.
pub open spec fn kinds(names: Seq<Seq<char>>) -> Seq<FactTypeView> {
    names.map_values(|name: Seq<char>| FactTypeView { name })
}

/// The kinds of these names.
pub fn fact_types(names: &Vec<String>) -> (r: Vec<FactType>)
    ensures
        r.deep_view() == kinds(names.deep_view()),
{
    let mut r: Vec<FactType> = Vec::new();
    let mut i: usize = 0;
    while i < names.len()
        invariant
            i <= names.len(),
            r.deep_view() == kinds(names.deep_view().take(i as int)),
        decreases names.len() - i,
    {
        let ghost before = r.deep_view();
        let ghost name = names.deep_view()[i as int];
        assert(name == names@[i as int]@);
        r.push(FactType::new(names[i].as_str()));
        assert(r.deep_view() =~= before.push(FactTypeView { name }));
        i = i + 1;
        assert(r.deep_view() =~= kinds(names.deep_view().take(i as int)));
    }
    assert(names.deep_view().take(i as int) =~= names.deep_view());
    r
}

/// How facts are looked for.
#[derive(Debug, Clone, Copy, PartialEq, Eq, Structural)]
pub enum RecallStrategy {
    /// By words, and by meaning where words find nothing.
    KeywordFirst,
    /// By meaning, and by words where meaning finds nothing.
    SemanticFirst,
    /// By both together.
    Hybrid,
}

impl DeepView for RecallStrategy {
    type V = RecallStrategy;

    open spec fn deep_view(&self) -> RecallStrategy {
        *self
    }
}

impl Duplicate for RecallStrategy {
    fn duplicate(&self) -> (copy: Self) {
        *self
    }
}

/// How facts are recalled in each turn.
#[derive(Debug, PartialEq, Eq)]
pub struct RecallConfig {
    pub strategy: RecallStrategy,
    /// How many at most.
    pub top_k: usize,
    /// Whether older facts count less.
    pub time_decay: bool,
}

/// The contents of a [`RecallConfig`].
#[verifier::ext_equal]
pub struct RecallConfigView {
    pub strategy: RecallStrategy,
    pub top_k: usize,
    pub time_decay: bool,
}

impl DeepView for RecallConfig {
    type V = RecallConfigView;

    open spec fn deep_view(&self) -> RecallConfigView {
        RecallConfigView {
            strategy: self.strategy,
            top_k: self.top_k,
            time_decay: self.time_decay,
        }
    }
}

impl Duplicate for RecallConfig {
    fn duplicate(&self) -> (copy: Self) {
        RecallConfig {
            strategy: self.strategy,
            top_k: self.top_k,
            time_decay: self.time_decay,
        }
    }
}

impl Clone for RecallConfig {
    fn clone(&self) -> (copy: Self)
        ensures
            copy.deep_view() == self.deep_view(),
    {
        self.duplicate()
    }
}

/// How facts are recalled where nothing else is said.
pub open spec fn usual_recall() -> RecallConfigView {
    RecallConfigView { strategy: RecallStrategy::Hybrid, top_k: 5, time_decay: true }
}

impl Default for RecallConfig {
    fn default() -> (r: Self)
        ensures
            r.deep_view() == usual_recall(),
    {
        RecallConfig { strategy: RecallStrategy::Hybrid, top_k: 5, time_decay: true }
    }
}

/// When facts are forgotten. The weights are given in millionths.
#[derive(Debug, PartialEq, Eq)]
pub struct DecayPolicy {
    /// Whether they are.
    pub enabled: bool,
    /// Below this weight a fact leaves the core.
    pub min_salience: u64,
    /// Below this weight an old fact leaves the archive.
    pub archive_forget_salience: u64,
    /// The age in seconds of an old fact.
    pub archive_ttl_secs: u64,
    /// The seconds in which the weight of a fact halves.
    pub recency_half_life_secs: u64,
    /// Whether this is done at each reflection.
    pub sweep_on_reflect: bool,
}

/// The contents of a [`DecayPolicy`].
#[verifier::ext_equal]
pub struct DecayPolicyView {
    pub enabled: bool,
    pub min_salience: u64,
    pub archive_forget_salience: u64,
    pub archive_ttl_secs: u64,
    pub recency_half_life_secs: u64,
    pub sweep_on_reflect: bool,
}

impl DeepView for DecayPolicy {
    type V = DecayPolicyView;

    open spec fn deep_view(&self) -> DecayPolicyView {
        DecayPolicyView {
            enabled: self.enabled,
            min_salience: self.min_salience,
            archive_forget_salience: self.archive_forget_salience,
            archive_ttl_secs: self.archive_ttl_secs,
            recency_half_life_secs: self.recency_half_life_secs,
            sweep_on_reflect: self.sweep_on_reflect,
        }
    }
}

impl Duplicate for DecayPolicy {
    fn duplicate(&self) -> (copy: Self) {
        DecayPolicy {
            enabled: self.enabled,
            min_salience: self.min_salience,
            archive_forget_salience: self.archive_forget_salience,
            archive_ttl_secs: self.archive_ttl_secs,
            recency_half_life_secs: self.recency_half_life_secs,
            sweep_on_reflect: self.sweep_on_reflect,
        }
    }
}

impl Clone for DecayPolicy {
    fn clone(&self) -> (copy: Self)
        ensures
            copy.deep_view() == self.deep_view(),
    {
        self.duplicate()
    }
}

/// Facts are kept.
pub open spec fn keeping() -> DecayPolicyView {
    DecayPolicyView {
        enabled: false,
        min_salience: 100_000,
        archive_forget_salience: 50_000,
        archive_ttl_secs: 15_552_000,
        recency_half_life_secs: 2_592_000,
        sweep_on_reflect: false,
    }
}

impl Default for DecayPolicy {
    fn default() -> (r: Self)
        ensures
            r.deep_view() == keeping(),
    {
        DecayPolicy {
            enabled: false,
            min_salience: 100_000,
            archive_forget_salience: 50_000,
            archive_ttl_secs: 180 * DAY_SECS,
            recency_half_life_secs: 30 * DAY_SECS,
            sweep_on_reflect: false,
        }
    }
}

/// The policy of two domains: facts are forgotten where either says so, by the
/// lower bounds, and at each reflection where both say so.
pub open spec fn merged_decay(primary: DecayPolicyView, other: DecayPolicyView) -> DecayPolicyView {
    DecayPolicyView {
        enabled: primary.enabled || other.enabled,
        min_salience: lesser(primary.min_salience, other.min_salience),
        archive_forget_salience: lesser(
            primary.archive_forget_salience,
            other.archive_forget_salience,
        ),
        archive_ttl_secs: lesser(primary.archive_ttl_secs, other.archive_ttl_secs),
        recency_half_life_secs: lesser(
            primary.recency_half_life_secs,
            other.recency_half_life_secs,
        ),
        sweep_on_reflect: primary.sweep_on_reflect && other.sweep_on_reflect,
    }
}

/// The policy of two domains.
pub fn merge_decay(primary: &DecayPolicy, other: &DecayPolicy) -> (r: DecayPolicy)
    ensures
        r.deep_view() == merged_decay(primary.deep_view(), other.deep_view()),
{
    DecayPolicy {
        enabled: primary.enabled || other.enabled,
        min_salience: least(primary.min_salience, other.min_salience),
        archive_forget_salience: least(
            primary.archive_forget_salience,
            other.archive_forget_salience,
        ),
        archive_ttl_secs: least(primary.archive_ttl_secs, other.archive_ttl_secs),
        recency_half_life_secs: least(
            primary.recency_half_life_secs,
            other.recency_half_life_secs,
        ),
        sweep_on_reflect: primary.sweep_on_reflect && other.sweep_on_reflect,
    }
}

// ─── MemoryProfile ──────────────────────────────────────────────────────────

/// What the agents of a domain remember.
#[derive(Debug, PartialEq, Eq)]
pub struct MemoryProfile {
    /// What users call it.
    pub name: String,
    /// The kinds of facts that are taken from a conversation.
    pub extraction_schema: Vec<FactType>,
    /// How facts are recalled.
    pub recall: RecallConfig,
    /// How many tokens of facts are always at hand.
    pub core_budget_tokens: usize,
    /// Whether agents look after their memory themselves.
    pub enable_memory_tools: bool,
    /// The kinds of facts that are kept of the user, beyond the session.
    pub habit_fact_types: Vec<FactType>,
    /// How the state of the work is kept.
    pub working_state: WorkingStatePolicy,
    /// When skills are retired.
    pub skill_lifecycle: SkillLifecyclePolicy,
    /// When facts are forgotten.
    pub decay: DecayPolicy,
}

/// The contents of a [`MemoryProfile`].
#[verifier::ext_equal]
pub struct MemoryProfileView {
    pub name: Seq<char>,
    pub extraction_schema: Seq<FactTypeView>,
    pub recall: RecallConfigView,
    pub core_budget_tokens: usize,
    pub enable_memory_tools: bool,
    pub habit_fact_types: Seq<FactTypeView>,
    pub working_state: WorkingStatePolicyView,
    pub skill_lifecycle: SkillLifecyclePolicyView,
    pub decay: DecayPolicyView,
}

impl DeepView for MemoryProfile {
    type V = MemoryProfileView;

    open spec fn deep_view(&self) -> MemoryProfileView {
        MemoryProfileView {
            name: self.name.deep_view(),
            extraction_schema: self.extraction_schema.deep_view(),
            recall: self.recall.deep_view(),
            core_budget_tokens: self.core_budget_tokens,
            enable_memory_tools: self.enable_memory_tools,
            habit_fact_types: self.habit_fact_types.deep_view(),
            working_state: self.working_state.deep_view(),
            skill_lifecycle: self.skill_lifecycle.deep_view(),
            decay: self.decay.deep_view(),
        }
    }
}

impl Duplicate for MemoryProfile {
    fn duplicate(&self) -> (copy: Self) {
        MemoryProfile {
            name: self.name.duplicate(),
            extraction_schema: self.extraction_schema.duplicate(),
            recall: self.recall.duplicate(),
            core_budget_tokens: self.core_budget_tokens,
            enable_memory_tools: self.enable_memory_tools,
            habit_fact_types: self.habit_fact_types.duplicate(),
            working_state: self.working_state.duplicate(),
            skill_lifecycle: self.skill_lifecycle.duplicate(),
            decay: self.decay.duplicate(),
        }
    }
}

impl Clone for MemoryProfile {
    fn clone(&self) -> (copy: Self)
        ensures
            copy.deep_view() == self.deep_view(),
    {
        self.duplicate()
    }
}

/// The profile that has nothing but a name.
pub open spec fn bare_memory(name: Seq<char>) -> MemoryProfileView {
    MemoryProfileView {
        name,
        extraction_schema: Seq::empty(),
        recall: usual_recall(),
        core_budget_tokens: 2048,
        enable_memory_tools: false,
        habit_fact_types: Seq::empty(),
        working_state: coding_working_state(),
        skill_lifecycle: coding_skills(),
        decay: keeping(),
    }
}

/// What is remembered in a coding domain.
pub open spec fn coding_memory() -> MemoryProfileView {
    MemoryProfileView {
        extraction_schema: seq![
            FactTypeView { name: "user_tooling_pref"@ },
            FactTypeView { name: "decision"@ },
            FactTypeView { name: "open_task"@ },
            FactTypeView { name: "critical_file"@ },
        ],
        enable_memory_tools: true,
        habit_fact_types: seq![FactTypeView { name: "user_tooling_pref"@ }],
        ..bare_memory("coding"@)
    }
}

/// What is remembered in a research domain.
pub open spec fn research_memory() -> MemoryProfileView {
    MemoryProfileView {
        extraction_schema: seq![
            FactTypeView { name: "source"@ },
            FactTypeView { name: "claim"@ },
            FactTypeView { name: "open_question"@ },
            FactTypeView { name: "user_interest"@ },
        ],
        core_budget_tokens: 1536,
        enable_memory_tools: true,
        habit_fact_types: seq![
            FactTypeView { name: "user_interest"@ },
            FactTypeView { name: "source"@ },
        ],
        working_state: assistant_working_state(),
        skill_lifecycle: assistant_skills(),
        decay: DecayPolicyView { enabled: true, ..keeping() },
        ..bare_memory("research"@)
    }
}

/// The profile of two domains.
pub open spec fn merged_memory(
    primary: MemoryProfileView,
    other: MemoryProfileView,
) -> MemoryProfileView {
    MemoryProfileView {
        name: primary.name + "+"@ + other.name,
        extraction_schema: collections::with_first::<FactType>(
            primary.extraction_schema,
            other.extraction_schema,
        ),
        recall: primary.recall,
        core_budget_tokens: lesser_size(primary.core_budget_tokens, other.core_budget_tokens),
        enable_memory_tools: primary.enable_memory_tools || other.enable_memory_tools,
        habit_fact_types: collections::with_first::<FactType>(
            primary.habit_fact_types,
            other.habit_fact_types,
        ),
        working_state: merged_working_state(primary.working_state, other.working_state),
        skill_lifecycle: merged_skills(primary.skill_lifecycle, other.skill_lifecycle),
        decay: merged_decay(primary.decay, other.decay),
    }
}

impl MemoryProfile {
    /// A profile that has nothing but a name.
    pub fn new(name: &str) -> (r: Self)
        ensures
            r.deep_view() == bare_memory(name@),
    {
        MemoryProfile {
            name: name.to_string(),
            extraction_schema: Vec::new(),
            recall: RecallConfig::default(),
            core_budget_tokens: 2048,
            enable_memory_tools: false,
            habit_fact_types: Vec::new(),
            working_state: WorkingStatePolicy::coding(),
            skill_lifecycle: SkillLifecyclePolicy::coding(),
            decay: DecayPolicy::default(),
        }
    }

    /// The profile with these kinds of facts.
    pub fn extraction_schema(self, schema: Vec<FactType>) -> (r: Self)
        ensures
            r.deep_view() == (MemoryProfileView {
                extraction_schema: schema.deep_view(),
                ..self.deep_view()
            }),
    {
        MemoryProfile { extraction_schema: schema, ..self }
    }

    /// The profile with this way to recall.
    pub fn recall(self, recall: RecallConfig) -> (r: Self)
        ensures
            r.deep_view() == (MemoryProfileView {
                recall: recall.deep_view(),
                ..self.deep_view()
            }),
    {
        MemoryProfile { recall, ..self }
    }

    /// The profile with this budget.
    pub fn core_budget_tokens(self, tokens: usize) -> (r: Self)
        ensures
            r.deep_view() == (MemoryProfileView {
                core_budget_tokens: tokens,
                ..self.deep_view()
            }),
    {
        MemoryProfile { core_budget_tokens: tokens, ..self }
    }

    /// The profile whose agents look after their memory, or do not.
    pub fn enable_memory_tools(self, enabled: bool) -> (r: Self)
        ensures
            r.deep_view() == (MemoryProfileView {
                enable_memory_tools: enabled,
                ..self.deep_view()
            }),
    {
        MemoryProfile { enable_memory_tools: enabled, ..self }
    }

    /// The profile with these habits.
    pub fn habit_fact_types(self, types: Vec<FactType>) -> (r: Self)
        ensures
            r.deep_view() == (MemoryProfileView {
                habit_fact_types: types.deep_view(),
                ..self.deep_view()
            }),
    {
        MemoryProfile { habit_fact_types: types, ..self }
    }

    /// The profile with this way to forget.
    pub fn decay(self, decay: DecayPolicy) -> (r: Self)
        ensures
            r.deep_view() == (MemoryProfileView {
                decay: decay.deep_view(),
                ..self.deep_view()
            }),
    {
        MemoryProfile { decay, ..self }
    }

    /// The profile with this way to keep the state of the work.
    pub fn working_state(self, policy: WorkingStatePolicy) -> (r: Self)
        ensures
            r.deep_view() == (MemoryProfileView {
                working_state: policy.deep_view(),
                ..self.deep_view()
            }),
    {
        MemoryProfile { working_state: policy, ..self }
    }

    /// The profile with this way to retire skills.
    pub fn skill_lifecycle(self, policy: SkillLifecyclePolicy) -> (r: Self)
        ensures
            r.deep_view() == (MemoryProfileView {
                skill_lifecycle: policy.deep_view(),
                ..self.deep_view()
            }),
    {
        MemoryProfile { skill_lifecycle: policy, ..self }
    }

    /// What is remembered in a coding domain.
    pub fn coding() -> (r: Self)
        ensures
            r.deep_view() == coding_memory(),
    {
        MemoryProfile::new("coding").extraction_schema(
            vec![
                FactType::new("user_tooling_pref"),
                FactType::new("decision"),
                FactType::new("open_task"),
                FactType::new("critical_file"),
            ],
        ).recall(RecallConfig { strategy: RecallStrategy::Hybrid, top_k: 5, time_decay: true })
            .core_budget_tokens(2048).enable_memory_tools(true).habit_fact_types(
            vec![FactType::new("user_tooling_pref")],
        )
    }

    /// What is remembered in a research domain.
    pub fn research() -> (r: Self)
        ensures
            r.deep_view() == research_memory(),
    {
        MemoryProfile::new("research").extraction_schema(
            vec![
                FactType::new("source"),
                FactType::new("claim"),
                FactType::new("open_question"),
                FactType::new("user_interest"),
            ],
        ).recall(RecallConfig::default()).core_budget_tokens(1536).enable_memory_tools(
            true,
        ).habit_fact_types(
            vec![FactType::new("user_interest"), FactType::new("source")],
        ).working_state(WorkingStatePolicy::assistant()).skill_lifecycle(
            SkillLifecyclePolicy::assistant(),
        ).decay(DecayPolicy { enabled: true, ..DecayPolicy::default() })
    }

    /// The profile of two domains: the kinds of facts of both, the lower
    /// bounds, and the way of the first to recall.
    pub fn merge(primary: &Self, other: &Self) -> (r: Self)
        ensures
            r.deep_view() == merged_memory(primary.deep_view(), other.deep_view()),
    {
        let mut schema = primary.extraction_schema.duplicate();
        collections::extend_first(&mut schema, &other.extraction_schema);
        let mut habits = primary.habit_fact_types.duplicate();
        collections::extend_first(&mut habits, &other.habit_fact_types);
        let mut name = primary.name.clone();
        name.push_str("+");
        name.push_str(other.name.as_str());
        MemoryProfile {
            name,
            extraction_schema: schema,
            recall: primary.recall.duplicate(),
            core_budget_tokens: least_size(primary.core_budget_tokens, other.core_budget_tokens),
            enable_memory_tools: primary.enable_memory_tools || other.enable_memory_tools,
            habit_fact_types: habits,
            working_state: WorkingStatePolicy::merge(
                &primary.working_state,
                &other.working_state,
            ),
            skill_lifecycle: SkillLifecyclePolicy::merge(
                &primary.skill_lifecycle,
                &other.skill_lifecycle,
            ),
            decay: merge_decay(&primary.decay, &other.decay),
        }
    }
}

impl Default for MemoryProfile {
    fn default() -> (r: Self)
        ensures
            r.deep_view() == bare_memory("default"@),
    {
        MemoryProfile::new("default")
    }
}

/// A merged profile takes the kinds of facts that either takes, and no others;
/// its budget is at most that of either.
pub proof fn law_merged_memory(
    primary: MemoryProfileView,
    other: MemoryProfileView,
    kind: Seq<char>,
)
    ensures
        ({
            let merged = merged_memory(primary, other);
            &&& collections::holds_key::<FactType>(merged.extraction_schema, kind)
                == (collections::holds_key::<FactType>(primary.extraction_schema, kind)
                || collections::holds_key::<FactType>(other.extraction_schema, kind))
            &&& collections::holds_key::<FactType>(merged.habit_fact_types, kind)
                == (collections::holds_key::<FactType>(primary.habit_fact_types, kind)
                || collections::holds_key::<FactType>(other.habit_fact_types, kind))
            &&& merged.core_budget_tokens <= primary.core_budget_tokens
            &&& merged.core_budget_tokens <= other.core_budget_tokens
        }),
{
    collections::law_with_first::<FactType>(primary.extraction_schema, other.extraction_schema);
    collections::law_with_first::<FactType>(primary.habit_fact_types, other.habit_fact_types);
}

/// What a merged profile takes from the two: every bound is the lower one, what either
/// turns on is on, and the ways of the first are kept.
pub proof fn law_merged_memory_takes(primary: MemoryProfileView, other: MemoryProfileView)
    ensures
        ({
            let merged = merged_memory(primary, other);
            &&& text::occurs(merged.name, primary.name)
            &&& text::occurs(merged.name, other.name)
            &&& merged.recall == primary.recall
            &&& merged.enable_memory_tools <==> primary.enable_memory_tools
                || other.enable_memory_tools
            &&& primary.extraction_schema.is_prefix_of(merged.extraction_schema)
            &&& primary.habit_fact_types.is_prefix_of(merged.habit_fact_types)
            &&& merged.core_budget_tokens == primary.core_budget_tokens || merged.core_budget_tokens == other.core_budget_tokens
            &&& merged.core_budget_tokens <= primary.core_budget_tokens && merged.core_budget_tokens <= other.core_budget_tokens
            &&& merged.decay.enabled <==> primary.decay.enabled || other.decay.enabled
            &&& merged.decay.sweep_on_reflect <==> primary.decay.sweep_on_reflect
                && other.decay.sweep_on_reflect
            &&& merged.decay.min_salience == primary.decay.min_salience || merged.decay.min_salience == other.decay.min_salience
            &&& merged.decay.min_salience <= primary.decay.min_salience && merged.decay.min_salience <= other.decay.min_salience
            &&& merged.decay.archive_forget_salience == primary.decay.archive_forget_salience || merged.decay.archive_forget_salience == other.decay.archive_forget_salience
            &&& merged.decay.archive_forget_salience <= primary.decay.archive_forget_salience && merged.decay.archive_forget_salience <= other.decay.archive_forget_salience
            &&& merged.decay.archive_ttl_secs == primary.decay.archive_ttl_secs || merged.decay.archive_ttl_secs == other.decay.archive_ttl_secs
            &&& merged.decay.archive_ttl_secs <= primary.decay.archive_ttl_secs && merged.decay.archive_ttl_secs <= other.decay.archive_ttl_secs
            &&& merged.decay.recency_half_life_secs == primary.decay.recency_half_life_secs || merged.decay.recency_half_life_secs == other.decay.recency_half_life_secs
            &&& merged.decay.recency_half_life_secs <= primary.decay.recency_half_life_secs && merged.decay.recency_half_life_secs <= other.decay.recency_half_life_secs
        }),
{
    collections::law_with_first::<FactType>(primary.extraction_schema, other.extraction_schema);
    collections::law_with_first::<FactType>(primary.habit_fact_types, other.habit_fact_types);
    text::lemma_occurs_inside(Seq::empty(), primary.name, "+"@ + other.name);
    assert(Seq::<char>::empty() + primary.name + ("+"@ + other.name) =~= primary.name + "+"@
        + other.name);
    text::lemma_occurs_inside(primary.name + "+"@, other.name, Seq::empty());
    assert(primary.name + "+"@ + other.name + Seq::<char>::empty() =~= primary.name + "+"@
        + other.name);
}

/// How the state of the work is kept after a merge: in the ways of the first, by the lower
/// bounds.
pub proof fn law_merged_working_state_takes(primary: MemoryProfileView, other: MemoryProfileView)
    ensures
        ({
            let one = primary.working_state;
            let two = other.working_state;
            let merged = merged_memory(primary, other).working_state;
            &&& merged.storage_root == one.storage_root
            &&& merged.checkpoint_granularity == one.checkpoint_granularity
            &&& merged.ground_truth_reconciliation == one.ground_truth_reconciliation
            &&& merged.cross_session_surface == one.cross_session_surface
            &&& merged.retention == one.retention
            &&& merged.thickness == one.thickness
            &&& merged.compaction.event_threshold == one.compaction.event_threshold || merged.compaction.event_threshold == two.compaction.event_threshold
            &&& merged.compaction.event_threshold <= one.compaction.event_threshold && merged.compaction.event_threshold <= two.compaction.event_threshold
            &&& merged.compaction.keep_recent == one.compaction.keep_recent || merged.compaction.keep_recent == two.compaction.keep_recent
            &&& merged.compaction.keep_recent <= one.compaction.keep_recent && merged.compaction.keep_recent <= two.compaction.keep_recent
            &&& merged.max_age_before_archive == one.max_age_before_archive || merged.max_age_before_archive == two.max_age_before_archive
            &&& merged.max_age_before_archive <= one.max_age_before_archive && merged.max_age_before_archive <= two.max_age_before_archive
        }),
{
}

/// When skills are retired after a merge: by themselves where either says so, in the place
/// of the first, by the lower bounds.
pub proof fn law_merged_skills_take(primary: MemoryProfileView, other: MemoryProfileView)
    ensures
        ({
            let one = primary.skill_lifecycle;
            let two = other.skill_lifecycle;
            let merged = merged_memory(primary, other).skill_lifecycle;
            &&& merged.auto_transitions <==> one.auto_transitions || two.auto_transitions
            &&& merged.storage_root == one.storage_root
            &&& merged.stale_after == one.stale_after || merged.stale_after == two.stale_after
            &&& merged.stale_after <= one.stale_after && merged.stale_after <= two.stale_after
            &&& merged.archive_after == one.archive_after || merged.archive_after == two.archive_after
            &&& merged.archive_after <= one.archive_after && merged.archive_after <= two.archive_after
            &&& merged.grace_unused == one.grace_unused || merged.grace_unused == two.grace_unused
            &&& merged.grace_unused <= one.grace_unused && merged.grace_unused <= two.grace_unused
            &&& merged.backup_count == one.backup_count || merged.backup_count == two.backup_count
            &&& merged.backup_count <= one.backup_count && merged.backup_count <= two.backup_count
        }),
{
}

/// The choices are known by their words, and a word that is not known stands for the usual
/// choice.
pub proof fn law_choices_by_word(word: Seq<char>)
    ensures
        word == "home_dir"@ ==> StorageRoot::named(word) == StorageRoot::HomeDir,
        word != "home_dir"@ ==> StorageRoot::named(word) == StorageRoot::InRepo,
        word == "on_task_boundary"@ ==> CheckpointGranularity::named(word)
            == CheckpointGranularity::OnTaskBoundary,
        word == "critical_nodes"@ ==> CheckpointGranularity::named(word)
            == CheckpointGranularity::CriticalNodes,
        word != "on_task_boundary"@ && word != "critical_nodes"@ ==> CheckpointGranularity::named(
            word,
        ) == CheckpointGranularity::EveryStep,
        word == "none"@ ==> GroundTruthReconciliation::named(word)
            == GroundTruthReconciliation::Nothing,
        word != "none"@ ==> GroundTruthReconciliation::named(word)
            == GroundTruthReconciliation::Git,
        word == "on_demand"@ ==> CrossSessionSurface::named(word) == CrossSessionSurface::OnDemand,
        word != "on_demand"@ ==> CrossSessionSurface::named(word)
            == CrossSessionSurface::AutoInject,
        word == "keep"@ ==> Retention::named(word) == Retention::Keep,
        word != "keep"@ ==> Retention::named(word) == Retention::ArchiveOnComplete,
        word == "thick"@ ==> WorkingStateThickness::named(word) == WorkingStateThickness::Thick,
        word != "thick"@ ==> WorkingStateThickness::named(word) == WorkingStateThickness::Thin,
{
    reveal_strlit("on_task_boundary");
    reveal_strlit("critical_nodes");
    assert("on_task_boundary"@.len() != "critical_nodes"@.len());
}

/// Each profile of the library keeps its bounds: fewer events stay than there are before,
/// skills are stale before they are put away, nothing is forgotten that would not have been
/// put away, and each kind of habit is a kind that is remembered.
pub proof fn law_profiles_keep_their_bounds(name: Seq<char>, i: int)
    ensures
        ({
            let bare = bare_memory(name);
            let coding = coding_memory();
            let research = research_memory();
            &&& bare.name == name && coding.name == "coding"@ && research.name == "research"@
            &&& bounds_agree(bare) && bounds_agree(coding) && bounds_agree(research)
            &&& !bare.enable_memory_tools && coding.enable_memory_tools
                && research.enable_memory_tools
            &&& !bare.decay.enabled && !coding.decay.enabled && research.decay.enabled
            &&& bare.extraction_schema.len() == 0
            &&& 0 <= i < coding.habit_fact_types.len() ==> coding.extraction_schema.contains(
                coding.habit_fact_types[i],
            )
            &&& 0 <= i < research.habit_fact_types.len() ==> research.extraction_schema.contains(
                research.habit_fact_types[i],
            )
        }),
{
    let coding = coding_memory();
    let research = research_memory();
    assert(coding.extraction_schema[0] == coding.habit_fact_types[0]);
    assert(research.extraction_schema[3] == research.habit_fact_types[0]);
    assert(research.extraction_schema[0] == research.habit_fact_types[1]);
}

/// The bounds of a profile agree with each other.
pub open spec fn bounds_agree(memory: MemoryProfileView) -> bool {
    &&& memory.working_state.compaction.keep_recent
        < memory.working_state.compaction.event_threshold
    &&& memory.skill_lifecycle.grace_unused < memory.skill_lifecycle.stale_after
    &&& memory.skill_lifecycle.stale_after < memory.skill_lifecycle.archive_after
    &&& memory.decay.archive_forget_salience <= memory.decay.min_salience
}

/// The kinds of facts are as many as their names, in the same order.
pub proof fn law_kinds_by_name(names: Seq<Seq<char>>, i: int)
    ensures
        kinds(names).len() == names.len(),
        0 <= i < names.len() ==> kinds(names)[i].name == names[i],
{
}

} // verus!
