//! The usual sources of what an agent knows of its surroundings.
//!
//! Reading the disk, running commands and asking for the time is left to the
//! caller, which hands the results to the functions here.

use vstd::prelude::*;
use crate::context_source::{
    ContextSource, RefreshPolicy, RefreshPolicyView, SourceHandle, SourceHandleView,
};
use crate::data::{self, DataValue, DataView};
use crate::duplicate::Duplicate;
use crate::text;
use crate::time;
use crate::working_state::{WorkingState, WorkingStateView};

verus! {

// ─── Sources ────────────────────────────────────────────────────────────────

/// A source that looks at a directory.
pub open spec fn source_in(
    key: Seq<char>,
    project_dir: Seq<char>,
    refresh_policy: RefreshPolicyView,
    priority: u32,
) -> SourceHandleView {
    SourceHandleView { key, project_dir: Some(project_dir), refresh_policy, priority }
}

/// A source that looks at no directory.
pub open spec fn source_anywhere(
    key: Seq<char>,
    refresh_policy: RefreshPolicyView,
    priority: u32,
) -> SourceHandleView {
    SourceHandleView { key, project_dir: None, refresh_policy, priority }
}

/// The branch, the changes and the last commits of the repository.
#[derive(Debug, PartialEq)]
pub struct GitStatusSource {
    project_dir: String,
}

/// The contents of a [`GitStatusSource`].
#[verifier::ext_equal]
pub struct GitStatusSourceView {
    pub project_dir: Seq<char>,
}

impl DeepView for GitStatusSource {
    type V = GitStatusSourceView;

    closed spec fn deep_view(&self) -> GitStatusSourceView {
        GitStatusSourceView {
            project_dir: self.project_dir.deep_view(),
        }
    }
}

impl Duplicate for GitStatusSource {
    fn duplicate(&self) -> (copy: Self) {
        GitStatusSource {
            project_dir: self.project_dir.duplicate(),
        }
    }
}

impl Clone for GitStatusSource {
    fn clone(&self) -> (copy: Self)
        ensures
            copy.deep_view() == self.deep_view(),
    {
        self.duplicate()
    }
}

impl GitStatusSource {
    /// The source for a project.
    pub fn new(project_dir: &str) -> (r: Self)
        ensures
            r.deep_view().project_dir == project_dir@,
    {
        GitStatusSource { project_dir: project_dir.to_string() }
    }

    /// This source as a domain holds it.
    pub fn handle(&self) -> (r: SourceHandle)
        ensures
            r.deep_view() == source_in(
                "git_status"@,
                self.deep_view().project_dir,
                RefreshPolicyView::OnChange,
                10,
            ),
    {
        SourceHandle {
            key: "git_status".to_string(),
            project_dir: Some(self.project_dir.clone()),
            refresh_policy: RefreshPolicy::OnChange,
            priority: 10,
        }
    }
}

impl ContextSource for GitStatusSource {
    open spec fn spec_key(&self) -> Seq<char> {
        "git_status"@
    }

    fn key(&self) -> (key: &str) {
        "git_status"
    }

    fn refresh_policy(&self) -> (policy: RefreshPolicy)
        ensures
            policy == RefreshPolicy::OnChange,
    {
        RefreshPolicy::OnChange
    }

    fn priority(&self) -> (n: u32)
        ensures
            n == 10,
    {
        10
    }
}

/// The files of the project.
#[derive(Debug, PartialEq)]
pub struct FileTreeSource {
    project_dir: String,
}

/// The contents of a [`FileTreeSource`].
#[verifier::ext_equal]
pub struct FileTreeSourceView {
    pub project_dir: Seq<char>,
}

impl DeepView for FileTreeSource {
    type V = FileTreeSourceView;

    closed spec fn deep_view(&self) -> FileTreeSourceView {
        FileTreeSourceView {
            project_dir: self.project_dir.deep_view(),
        }
    }
}

impl Duplicate for FileTreeSource {
    fn duplicate(&self) -> (copy: Self) {
        FileTreeSource {
            project_dir: self.project_dir.duplicate(),
        }
    }
}

impl Clone for FileTreeSource {
    fn clone(&self) -> (copy: Self)
        ensures
            copy.deep_view() == self.deep_view(),
    {
        self.duplicate()
    }
}

impl FileTreeSource {
    /// The source for a project.
    pub fn new(project_dir: &str) -> (r: Self)
        ensures
            r.deep_view().project_dir == project_dir@,
    {
        FileTreeSource { project_dir: project_dir.to_string() }
    }

    /// This source as a domain holds it.
    pub fn handle(&self) -> (r: SourceHandle)
        ensures
            r.deep_view() == source_in(
                "file_tree"@,
                self.deep_view().project_dir,
                RefreshPolicyView::OnceAtStart,
                20,
            ),
    {
        SourceHandle {
            key: "file_tree".to_string(),
            project_dir: Some(self.project_dir.clone()),
            refresh_policy: RefreshPolicy::OnceAtStart,
            priority: 20,
        }
    }
}

impl ContextSource for FileTreeSource {
    open spec fn spec_key(&self) -> Seq<char> {
        "file_tree"@
    }

    fn key(&self) -> (key: &str) {
        "file_tree"
    }

    fn refresh_policy(&self) -> (policy: RefreshPolicy)
        ensures
            policy == RefreshPolicy::OnceAtStart,
    {
        RefreshPolicy::OnceAtStart
    }

    fn priority(&self) -> (n: u32)
        ensures
            n == 20,
    {
        20
    }
}

/// What the project says of itself in its manifest.
#[derive(Debug, PartialEq)]
pub struct ProjectConfigSource {
    project_dir: String,
}

/// The contents of a [`ProjectConfigSource`].
#[verifier::ext_equal]
pub struct ProjectConfigSourceView {
    pub project_dir: Seq<char>,
}

impl DeepView for ProjectConfigSource {
    type V = ProjectConfigSourceView;

    closed spec fn deep_view(&self) -> ProjectConfigSourceView {
        ProjectConfigSourceView {
            project_dir: self.project_dir.deep_view(),
        }
    }
}

impl Duplicate for ProjectConfigSource {
    fn duplicate(&self) -> (copy: Self) {
        ProjectConfigSource {
            project_dir: self.project_dir.duplicate(),
        }
    }
}

impl Clone for ProjectConfigSource {
    fn clone(&self) -> (copy: Self)
        ensures
            copy.deep_view() == self.deep_view(),
    {
        self.duplicate()
    }
}

impl ProjectConfigSource {
    /// The source for a project.
    pub fn new(project_dir: &str) -> (r: Self)
        ensures
            r.deep_view().project_dir == project_dir@,
    {
        ProjectConfigSource { project_dir: project_dir.to_string() }
    }

    /// This source as a domain holds it.
    pub fn handle(&self) -> (r: SourceHandle)
        ensures
            r.deep_view() == source_in(
                "project_config"@,
                self.deep_view().project_dir,
                RefreshPolicyView::OnceAtStart,
                30,
            ),
    {
        SourceHandle {
            key: "project_config".to_string(),
            project_dir: Some(self.project_dir.clone()),
            refresh_policy: RefreshPolicy::OnceAtStart,
            priority: 30,
        }
    }
}

impl ContextSource for ProjectConfigSource {
    open spec fn spec_key(&self) -> Seq<char> {
        "project_config"@
    }

    fn key(&self) -> (key: &str) {
        "project_config"
    }

    fn refresh_policy(&self) -> (policy: RefreshPolicy)
        ensures
            policy == RefreshPolicy::OnceAtStart,
    {
        RefreshPolicy::OnceAtStart
    }

    fn priority(&self) -> (n: u32)
        ensures
            n == 30,
    {
        30
    }
}

/// What the project tells the agents that work on it.
#[derive(Debug, PartialEq)]
pub struct ProjectInstructionsSource {
    project_dir: String,
}

/// The contents of a [`ProjectInstructionsSource`].
#[verifier::ext_equal]
pub struct ProjectInstructionsSourceView {
    pub project_dir: Seq<char>,
}

impl DeepView for ProjectInstructionsSource {
    type V = ProjectInstructionsSourceView;

    closed spec fn deep_view(&self) -> ProjectInstructionsSourceView {
        ProjectInstructionsSourceView {
            project_dir: self.project_dir.deep_view(),
        }
    }
}

impl Duplicate for ProjectInstructionsSource {
    fn duplicate(&self) -> (copy: Self) {
        ProjectInstructionsSource {
            project_dir: self.project_dir.duplicate(),
        }
    }
}

impl Clone for ProjectInstructionsSource {
    fn clone(&self) -> (copy: Self)
        ensures
            copy.deep_view() == self.deep_view(),
    {
        self.duplicate()
    }
}

impl ProjectInstructionsSource {
    /// The source for a project.
    pub fn new(project_dir: &str) -> (r: Self)
        ensures
            r.deep_view().project_dir == project_dir@,
    {
        ProjectInstructionsSource { project_dir: project_dir.to_string() }
    }

    /// This source as a domain holds it.
    pub fn handle(&self) -> (r: SourceHandle)
        ensures
            r.deep_view() == source_in(
                "project_instructions"@,
                self.deep_view().project_dir,
                RefreshPolicyView::OnceAtStart,
                1,
            ),
    {
        SourceHandle {
            key: "project_instructions".to_string(),
            project_dir: Some(self.project_dir.clone()),
            refresh_policy: RefreshPolicy::OnceAtStart,
            priority: 1,
        }
    }
}

impl ContextSource for ProjectInstructionsSource {
    open spec fn spec_key(&self) -> Seq<char> {
        "project_instructions"@
    }

    fn key(&self) -> (key: &str) {
        "project_instructions"
    }

    fn refresh_policy(&self) -> (policy: RefreshPolicy)
        ensures
            policy == RefreshPolicy::OnceAtStart,
    {
        RefreshPolicy::OnceAtStart
    }

    fn priority(&self) -> (n: u32)
        ensures
            n == 1,
    {
        1
    }
}

/// The date and the time.
#[derive(Debug, PartialEq)]
pub struct DateSource {
}

/// The contents of a [`DateSource`].
#[verifier::ext_equal]
pub struct DateSourceView {
}

impl DeepView for DateSource {
    type V = DateSourceView;

    open spec fn deep_view(&self) -> DateSourceView {
        DateSourceView {
        }
    }
}

impl Duplicate for DateSource {
    fn duplicate(&self) -> (copy: Self) {
        DateSource {
        }
    }
}

impl Clone for DateSource {
    fn clone(&self) -> (copy: Self)
        ensures
            copy.deep_view() == self.deep_view(),
    {
        self.duplicate()
    }
}

impl DateSource {
    /// The source.
    pub fn new() -> (r: Self)
        ensures
            r.handle_view() == source_anywhere(
                "date"@,
                RefreshPolicyView::Periodic(time::seconds(3600)),
                5,
            ),
    {
        DateSource {}
    }

    /// What a domain holds of this source.
    pub open spec fn handle_view(&self) -> SourceHandleView {
        source_anywhere("date"@, RefreshPolicyView::Periodic(time::seconds(3600)), 5)
    }

    /// This source as a domain holds it.
    pub fn handle(&self) -> (r: SourceHandle)
        ensures
            r.deep_view() == self.handle_view(),
    {
        SourceHandle {
            key: "date".to_string(),
            project_dir: None,
            refresh_policy: RefreshPolicy::Periodic(time::from_secs(3600)),
            priority: 5,
        }
    }
}

impl Default for DateSource {
    fn default() -> (r: Self)
        ensures
            r.handle_view() == source_anywhere(
                "date"@,
                RefreshPolicyView::Periodic(time::seconds(3600)),
                5,
            ),
    {
        DateSource::new()
    }
}

impl ContextSource for DateSource {
    open spec fn spec_key(&self) -> Seq<char> {
        "date"@
    }

    fn key(&self) -> (key: &str) {
        "date"
    }

    fn refresh_policy(&self) -> (policy: RefreshPolicy)
        ensures
            policy == RefreshPolicy::Periodic(time::seconds(3600)),
    {
        RefreshPolicy::Periodic(time::from_secs(3600))
    }

    fn priority(&self) -> (n: u32)
        ensures
            n == 5,
    {
        5
    }
}

/// The machine that the agent runs on.
#[derive(Debug, PartialEq)]
pub struct EnvironmentInfoSource {
}

/// The contents of a [`EnvironmentInfoSource`].
#[verifier::ext_equal]
pub struct EnvironmentInfoSourceView {
}

impl DeepView for EnvironmentInfoSource {
    type V = EnvironmentInfoSourceView;

    open spec fn deep_view(&self) -> EnvironmentInfoSourceView {
        EnvironmentInfoSourceView {
        }
    }
}

impl Duplicate for EnvironmentInfoSource {
    fn duplicate(&self) -> (copy: Self) {
        EnvironmentInfoSource {
        }
    }
}

impl Clone for EnvironmentInfoSource {
    fn clone(&self) -> (copy: Self)
        ensures
            copy.deep_view() == self.deep_view(),
    {
        self.duplicate()
    }
}

impl EnvironmentInfoSource {
    /// The source.
    pub fn new() -> (r: Self)
        ensures
            r.handle_view() == source_anywhere("environment"@, RefreshPolicyView::OnceAtStart, 15),
    {
        EnvironmentInfoSource {}
    }

    /// What a domain holds of this source.
    pub open spec fn handle_view(&self) -> SourceHandleView {
        source_anywhere("environment"@, RefreshPolicyView::OnceAtStart, 15)
    }

    /// This source as a domain holds it.
    pub fn handle(&self) -> (r: SourceHandle)
        ensures
            r.deep_view() == self.handle_view(),
    {
        SourceHandle {
            key: "environment".to_string(),
            project_dir: None,
            refresh_policy: RefreshPolicy::OnceAtStart,
            priority: 15,
        }
    }
}

impl Default for EnvironmentInfoSource {
    fn default() -> (r: Self)
        ensures
            r.handle_view() == source_anywhere("environment"@, RefreshPolicyView::OnceAtStart, 15),
    {
        EnvironmentInfoSource::new()
    }
}

impl ContextSource for EnvironmentInfoSource {
    open spec fn spec_key(&self) -> Seq<char> {
        "environment"@
    }

    fn key(&self) -> (key: &str) {
        "environment"
    }

    fn refresh_policy(&self) -> (policy: RefreshPolicy)
        ensures
            policy == RefreshPolicy::OnceAtStart,
    {
        RefreshPolicy::OnceAtStart
    }

    fn priority(&self) -> (n: u32)
        ensures
            n == 15,
    {
        15
    }
}

/// Whether the repository has moved since the state of a task was written.
#[derive(Debug, PartialEq)]
pub struct GitReconciliationSource {
    project_dir: String,
    task_id: String,
    session_id: String,
}

/// The contents of a [`GitReconciliationSource`].
#[verifier::ext_equal]
pub struct GitReconciliationSourceView {
    pub project_dir: Seq<char>,
    pub task_id: Seq<char>,
    pub session_id: Seq<char>,
}

impl DeepView for GitReconciliationSource {
    type V = GitReconciliationSourceView;

    closed spec fn deep_view(&self) -> GitReconciliationSourceView {
        GitReconciliationSourceView {
            project_dir: self.project_dir.deep_view(),
            task_id: self.task_id.deep_view(),
            session_id: self.session_id.deep_view(),
        }
    }
}

impl Duplicate for GitReconciliationSource {
    fn duplicate(&self) -> (copy: Self) {
        GitReconciliationSource {
            project_dir: self.project_dir.duplicate(),
            task_id: self.task_id.duplicate(),
            session_id: self.session_id.duplicate(),
        }
    }
}

impl Clone for GitReconciliationSource {
    fn clone(&self) -> (copy: Self)
        ensures
            copy.deep_view() == self.deep_view(),
    {
        self.duplicate()
    }
}

impl GitReconciliationSource {
    /// The source for a task of a project, worked on in a session.
    pub fn new(project_dir: &str, task_id: &str, session_id: &str) -> (r: Self)
        ensures
            r.deep_view() == (GitReconciliationSourceView {
                project_dir: project_dir@,
                task_id: task_id@,
                session_id: session_id@,
            }),
    {
        GitReconciliationSource {
            project_dir: project_dir.to_string(),
            task_id: task_id.to_string(),
            session_id: session_id.to_string(),
        }
    }

    /// The project.
    pub fn project_dir(&self) -> (r: &str)
        ensures
            r@ == self.deep_view().project_dir,
    {
        self.project_dir.as_str()
    }

    /// The task.
    pub fn task_id(&self) -> (r: &str)
        ensures
            r@ == self.deep_view().task_id,
    {
        self.task_id.as_str()
    }

    /// The session.
    pub fn session_id(&self) -> (r: &str)
        ensures
            r@ == self.deep_view().session_id,
    {
        self.session_id.as_str()
    }
}

impl ContextSource for GitReconciliationSource {
    open spec fn spec_key(&self) -> Seq<char> {
        "git_reconciliation"@
    }

    fn key(&self) -> (key: &str) {
        "git_reconciliation"
    }

    fn refresh_policy(&self) -> (policy: RefreshPolicy)
        ensures
            policy == RefreshPolicy::OnResume,
    {
        RefreshPolicy::OnResume
    }

    fn priority(&self) -> (n: u32)
        ensures
            n == 3,
    {
        3
    }
}

// ─── Git status ─────────────────────────────────────────────────────────────

/// What happened to a file.
#[derive(Debug, Clone, Copy, PartialEq, Eq, Structural)]
pub enum ChangeKind {
    Modified,
    Created,
    Deleted,
}

impl DeepView for ChangeKind {
    type V = ChangeKind;

    open spec fn deep_view(&self) -> ChangeKind {
        *self
    }
}

impl Duplicate for ChangeKind {
    fn duplicate(&self) -> (copy: Self) {
        *self
    }
}

/// A line of the short status of a repository is cut behind its third byte:
/// there a character ends.
pub open spec fn cuts_cleanly(line: Seq<char>) -> bool {
    text::byte_len(line) < 3 || text::byte_len(
        line.take(text::chars_reaching(line, 3) as int),
    ) == 3
}

/// Each line of a short status can be cut.
pub open spec fn clean_status(status: Seq<char>) -> bool {
    forall|i: int|
        0 <= i < text::line_seq(status).len() ==> #[trigger] cuts_cleanly(
            text::line_seq(status)[i],
        )
}

/// The path in a line of the short status.
pub open spec fn status_path(line: Seq<char>) -> Seq<char> {
    text::trimmed_of(text::trimmed(line.skip(text::chars_reaching(line, 3) as int)), '"')
}

/// The second letter of the code in a line of the short status is `c`.
pub open spec fn second_code(line: Seq<char>, c: char) -> bool {
    line.len() > 1 && text::char_width(line[0]) == 1 && line[1] == c
}

/// What a line of the short status says: a file and what happened to it.
pub open spec fn status_change(line: Seq<char>) -> Option<(ChangeKind, Seq<char>)> {
    let path = status_path(line);
    if text::byte_len(line) < 3 || path.len() == 0 {
        None
    } else if line[0] == 'D' || second_code(line, 'D') {
        Some((ChangeKind::Deleted, path))
    } else if line[0] == 'A' || second_code(line, 'A') || (line[0] == '?' && second_code(
        line,
        '?',
    )) {
        Some((ChangeKind::Created, path))
    } else {
        Some((ChangeKind::Modified, path))
    }
}

/// The files to which this happened.
pub open spec fn changed_paths(lines: Seq<Seq<char>>, kind: ChangeKind) -> Seq<Seq<char>>
    decreases lines.len(),
{
    if lines.len() == 0 {
        Seq::empty()
    } else {
        let before = changed_paths(lines.drop_last(), kind);
        match status_change(lines.last()) {
            Some((k, path)) => if k == kind {
                before.push(path)
            } else {
                before
            },
            None => before,
        }
    }
}

/// A line that names files, where there are any.
pub open spec fn paths_line(label: Seq<char>, paths: Seq<Seq<char>>) -> Seq<char> {
    if paths.len() == 0 {
        Seq::empty()
    } else {
        label + text::joined(paths, ", "@)
    }
}

/// What is said of a repository, by what three commands printed: the name of
/// the branch, the short status and the last commits.
pub open spec fn git_status_text(
    branch: Option<Seq<char>>,
    status: Option<Seq<char>>,
    commits: Option<Seq<char>>,
) -> Seq<char> {
    let lines = match status {
        Some(status) => text::line_seq(status),
        None => Seq::empty(),
    };
    let modified = changed_paths(lines, ChangeKind::Modified);
    let created = changed_paths(lines, ChangeKind::Created);
    let deleted = changed_paths(lines, ChangeKind::Deleted);
    "Git Branch: "@ + (match branch {
        Some(branch) => text::trimmed(branch),
        None => "unknown"@,
    }) + "\nChanges: "@ + text::digits(modified.len() + created.len() + deleted.len())
        + " modified/new/deleted files"@ + paths_line("\nModified: "@, modified) + paths_line(
        "\nCreated: "@,
        created,
    ) + paths_line("\nDeleted: "@, deleted) + "\nRecent Commits:\n"@ + (match commits {
        Some(commits) => text::trimmed(commits),
        None => "no commits"@,
    })
}

/// Whether each line of a short status can be cut behind its third byte.
pub fn is_clean_status(status: &str) -> (r: bool)
    ensures
        r == clean_status(status@),
{
    let lines = text::lines(status);
    let mut i: usize = 0;
    while i < lines.len()
        invariant
            i <= lines.len(),
            lines.deep_view() == text::line_seq(status@),
            forall|k: int| 0 <= k < i ==> #[trigger] cuts_cleanly(text::line_seq(status@)[k]),
        decreases lines.len() - i,
    {
        assert(lines.deep_view()[i as int] == lines@[i as int]@);
        let line = lines[i].as_str();
        if text::len_bytes(line) >= 3 {
            let code = text::take_reaching(line, 3);
            if text::len_bytes(code.as_str()) != 3 {
                assert(!cuts_cleanly(text::line_seq(status@)[i as int]));
                return false;
            }
        }
        assert(cuts_cleanly(text::line_seq(status@)[i as int]));
        i = i + 1;
    }
    true
}

/// What a line of the short status says: a file and what happened to it.
pub fn parse_status_line(line: &str) -> (r: Option<(ChangeKind, String)>)
    requires
        cuts_cleanly(line@),
    ensures
        r.deep_view() == status_change(line@),
{
    if text::len_bytes(line) < 3 {
        return None;
    }
    let v = text::chars(line);
    let code = text::take_reaching(line, 3);
    let from = text::chars(code.as_str()).len();
    assert(from == text::chars_reaching(line@, 3));
    let rest = text::substring(&v, from, v.len());
    assert(rest@ =~= line@.skip(from as int));
    let trimmed = text::trim(rest.as_str());
    let path = text::trim_matches(trimmed.as_str(), '"');
    if text::chars(path.as_str()).len() == 0 {
        return None;
    }
    proof {
        text::lemma_byte_len_empty(line@);
    }
    let x = v[0];
    let single = x as u32 <= 0x7f;
    assert(single == (text::char_width(x) == 1));
    let y = if single && v.len() > 1 {
        v[1]
    } else {
        ' '
    };
    if x == 'D' || y == 'D' {
        Some((ChangeKind::Deleted, path))
    } else if x == 'A' || y == 'A' || (x == '?' && y == '?') {
        Some((ChangeKind::Created, path))
    } else {
        Some((ChangeKind::Modified, path))
    }
}

/// Appends the label and the paths, where there are any.
fn push_paths(content: &mut String, label: &str, paths: &Vec<String>)
    ensures
        final(content)@ == old(content)@ + paths_line(label@, paths.deep_view()),
{
    if paths.len() > 0 {
        content.push_str(label);
        content.push_str(text::join(paths, ", ").as_str());
    }
    assert(content@ =~= old(content)@ + paths_line(label@, paths.deep_view()));
}

/// What is said of a repository, by what three commands printed: the name of
/// the branch, the short status and the last commits. A command that failed
/// printed nothing.
pub fn git_status_content(
    branch: Option<&str>,
    status: Option<&str>,
    commits: Option<&str>,
) -> (r: String)
    requires
        match status {
            Some(status) => clean_status(status@),
            None => true,
        },
    ensures
        r@ == git_status_text(
            match branch {
                Some(branch) => Some(branch@),
                None => None,
            },
            match status {
                Some(status) => Some(status@),
                None => None,
            },
            match commits {
                Some(commits) => Some(commits@),
                None => None,
            },
        ),
{
    let lines = match status {
        Some(status) => text::lines(status),
        None => Vec::new(),
    };
    let ghost all = lines.deep_view();
    let mut modified: Vec<String> = Vec::new();
    let mut created: Vec<String> = Vec::new();
    let mut deleted: Vec<String> = Vec::new();
    let mut i: usize = 0;
    while i < lines.len()
        invariant
            i <= lines.len(),
            all == lines.deep_view(),
            forall|k: int| 0 <= k < all.len() ==> #[trigger] cuts_cleanly(all[k]),
            modified.len() + created.len() + deleted.len() <= i,
            modified.deep_view() == changed_paths(all.take(i as int), ChangeKind::Modified),
            created.deep_view() == changed_paths(all.take(i as int), ChangeKind::Created),
            deleted.deep_view() == changed_paths(all.take(i as int), ChangeKind::Deleted),
        decreases lines.len() - i,
    {
        assert(all.take(i + 1).drop_last() =~= all.take(i as int));
        assert(all[i as int] == lines@[i as int]@);
        assert(cuts_cleanly(all[i as int]));
        let ghost m = modified.deep_view();
        let ghost c = created.deep_view();
        let ghost d = deleted.deep_view();
        if let Some((kind, path)) = parse_status_line(lines[i].as_str()) {
            let ghost p = path@;
            match kind {
                ChangeKind::Modified => {
                    modified.push(path);
                    assert(modified.deep_view() =~= m.push(p));
                },
                ChangeKind::Created => {
                    created.push(path);
                    assert(created.deep_view() =~= c.push(p));
                },
                ChangeKind::Deleted => {
                    deleted.push(path);
                    assert(deleted.deep_view() =~= d.push(p));
                },
            }
        }
        i = i + 1;
    }
    assert(all.take(i as int) =~= all);
    let count: usize = modified.len() + created.len() + deleted.len();
    let mut content = "Git Branch: ".to_string();
    match branch {
        Some(branch) => {
            content.push_str(text::trim(branch).as_str());
        },
        None => {
            content.push_str("unknown");
        },
    }
    content.push_str("\nChanges: ");
    content.push_str(text::decimal(count as u64).as_str());
    content.push_str(" modified/new/deleted files");
    push_paths(&mut content, "\nModified: ", &modified);
    push_paths(&mut content, "\nCreated: ", &created);
    push_paths(&mut content, "\nDeleted: ", &deleted);
    content.push_str("\nRecent Commits:\n");
    match commits {
        Some(commits) => {
            content.push_str(text::trim(commits).as_str());
        },
        None => {
            content.push_str("no commits");
        },
    }
    content
}

/// Each line that names a file counts once: as modified, created or deleted.
pub proof fn law_changes_are_counted_once(lines: Seq<Seq<char>>)
    ensures
        changed_paths(lines, ChangeKind::Modified).len() + changed_paths(
            lines,
            ChangeKind::Created,
        ).len() + changed_paths(lines, ChangeKind::Deleted).len() == lines.filter(
            |line: Seq<char>| status_change(line) is Some,
        ).len(),
    decreases lines.len(),
{
    reveal(Seq::filter);
    if lines.len() > 0 {
        law_changes_are_counted_once(lines.drop_last());
    }
}

// ─── Files of the project ───────────────────────────────────────────────────

/// How many bytes of the list of files are kept.
pub const TREE_LIMIT: usize = 2000;

/// What is said of the files of a project, by what the command that lists them
/// printed.
pub open spec fn file_tree_text(output: Option<Seq<char>>) -> Seq<char> {
    match output {
        Some(output) => {
            let tree = text::trimmed(output);
            "Project Structure:\n"@ + if text::byte_len(tree) > TREE_LIMIT {
                tree.take(text::chars_reaching(tree, TREE_LIMIT as nat) as int)
                    + "... [truncated]"@
            } else {
                tree
            }
        },
        None => "Project Structure: unable to scan"@,
    }
}

/// What is said of the files of a project, by what the command that lists them
/// printed.
pub fn file_tree_content(output: Option<&str>) -> (r: String)
    ensures
        r@ == file_tree_text(
            match output {
                Some(output) => Some(output@),
                None => None,
            },
        ),
{
    match output {
        Some(output) => {
            let tree = text::trim(output);
            let mut r = "Project Structure:\n".to_string();
            if text::len_bytes(tree.as_str()) > TREE_LIMIT {
                r.push_str(text::take_reaching(tree.as_str(), TREE_LIMIT).as_str());
                r.push_str("... [truncated]");
            } else {
                r.push_str(tree.as_str());
            }
            assert(r@ =~= file_tree_text(Some(output@)));
            r
        },
        None => "Project Structure: unable to scan".to_string(),
    }
}

/// What is said of the files of a project stays short, however many there are.
pub proof fn law_file_tree_is_bounded(output: Seq<char>)
    ensures
        text::byte_len(file_tree_text(Some(output))) <= TREE_LIMIT + 37,
{
    let tree = text::trimmed(output);
    reveal_strlit("Project Structure:\n");
    reveal_strlit("... [truncated]");
    text::lemma_ascii_byte_len("Project Structure:\n"@);
    text::lemma_ascii_byte_len("... [truncated]"@);
    if text::byte_len(tree) > TREE_LIMIT {
        let kept = tree.take(text::chars_reaching(tree, TREE_LIMIT as nat) as int);
        text::lemma_reaching_bytes(tree, TREE_LIMIT as nat);
        text::lemma_byte_len_add(kept, "... [truncated]"@);
        text::lemma_byte_len_add("Project Structure:\n"@, kept + "... [truncated]"@);
    } else {
        text::lemma_byte_len_add("Project Structure:\n"@, tree);
    }
}

// ─── Manifest ───────────────────────────────────────────────────────────────

/// How many lines of a manifest are shown.
pub const CONFIG_LINES: usize = 50;

/// What is said of a package by its manifest.
pub open spec fn package_text(manifest: DataView) -> Seq<char> {
    "Project Config (package.json): name="@ + manifest.text_or("name"@, "unknown"@) + ", version="@
        + manifest.text_or("version"@, "unknown"@) + ", dependencies="@ + text::digits(
        match manifest.object_field("dependencies"@) {
            Some(dependencies) => dependencies.len(),
            None => 0,
        },
    )
}

/// What is said of a project, by the texts of the manifests that could be read.
pub open spec fn project_config_text(cargo: Option<Seq<char>>, package: Option<DataView>) -> Seq<
    char,
> {
    match (cargo, package) {
        (Some(cargo), _) => "Project Config (Cargo.toml):\n"@ + text::joined(
            text::first_lines(text::line_seq(cargo), CONFIG_LINES as int),
            "\n"@,
        ),
        (None, Some(manifest)) => package_text(manifest),
        (None, None) => "Project Config: no recognized config file found"@,
    }
}

/// What is said of a package by its manifest.
pub fn package_summary(manifest: &DataValue) -> (r: String)
    ensures
        r@ == package_text(manifest.deep_view()),
{
    let mut r = "Project Config (package.json): name=".to_string();
    r.push_str(manifest.text_or("name", "unknown").as_str());
    r.push_str(", version=");
    r.push_str(manifest.text_or("version", "unknown").as_str());
    r.push_str(", dependencies=");
    let count: usize = match manifest.object_at("dependencies") {
        Some(dependencies) => dependencies.len(),
        None => 0,
    };
    r.push_str(text::decimal(count as u64).as_str());
    r
}

/// What is said of a project, by its manifests as far as they were understood.
pub fn project_config_of(cargo: Option<&str>, package: Option<&DataValue>) -> (r: String)
    ensures
        r@ == project_config_text(
            match cargo {
                Some(cargo) => Some(cargo@),
                None => None,
            },
            match package {
                Some(package) => Some(package.deep_view()),
                None => None,
            },
        ),
{
    match cargo {
        Some(cargo) => {
            let lines = text::lines(cargo);
            let n: usize = if lines.len() > CONFIG_LINES {
                CONFIG_LINES
            } else {
                lines.len()
            };
            let mut r = "Project Config (Cargo.toml):\n".to_string();
            r.push_str(text::join_first(&lines, n, "\n").as_str());
            assert(lines.deep_view().take(n as int) =~= text::first_lines(
                text::line_seq(cargo@),
                CONFIG_LINES as int,
            ));
            r
        },
        None => match package {
            Some(manifest) => package_summary(manifest),
            None => "Project Config: no recognized config file found".to_string(),
        },
    }
}

/// What is said of a project, by the texts of `Cargo.toml` and `package.json`
/// as far as they could be read.
pub fn project_config_content(cargo: Option<&str>, package: Option<&str>) -> (r: String)
    ensures
        r@ == project_config_text(
            match cargo {
                Some(cargo) => Some(cargo@),
                None => None,
            },
            match package {
                Some(package) => data::json_document(package@),
                None => None,
            },
        ),
{
    let manifest = match package {
        Some(package) => data::parse_json(package),
        None => None,
    };
    match &manifest {
        Some(manifest) => project_config_of(cargo, Some(manifest)),
        None => project_config_of(cargo, None),
    }
}

// ─── Date and machine ───────────────────────────────────────────────────────

/// What is said of a point in time.
pub open spec fn date_text(date: Seq<char>, time: Seq<char>, weekday: Seq<char>) -> Seq<char> {
    "Current Date: "@ + date + "\nCurrent Time: "@ + time + "\nDay of Week: "@ + weekday
}

/// What is said of a point in time.
pub fn date_content(date: &str, time: &str, weekday: &str) -> (r: String)
    ensures
        r@ == date_text(date@, time@, weekday@),
{
    let mut r = "Current Date: ".to_string();
    r.push_str(date);
    r.push_str("\nCurrent Time: ");
    r.push_str(time);
    r.push_str("\nDay of Week: ");
    r.push_str(weekday);
    r
}

/// What is said of a machine.
pub open spec fn environment_text(
    cwd: Option<Seq<char>>,
    platform: Seq<char>,
    arch: Seq<char>,
    shell: Option<Seq<char>>,
    windows: bool,
) -> Seq<char> {
    "Working Directory: "@ + (match cwd {
        Some(cwd) => cwd,
        None => "unknown"@,
    }) + "\nPlatform: "@ + platform + "\nArchitecture: "@ + arch + "\nShell: "@ + (match shell {
        Some(shell) => shell,
        None => if windows {
            "powershell"@
        } else {
            "sh"@
        },
    })
}

/// What is said of a machine.
pub fn environment_content(
    cwd: Option<&str>,
    platform: &str,
    arch: &str,
    shell: Option<&str>,
    windows: bool,
) -> (r: String)
    ensures
        r@ == environment_text(
            match cwd {
                Some(cwd) => Some(cwd@),
                None => None,
            },
            platform@,
            arch@,
            match shell {
                Some(shell) => Some(shell@),
                None => None,
            },
            windows,
        ),
{
    let mut r = "Working Directory: ".to_string();
    match cwd {
        Some(cwd) => {
            r.push_str(cwd);
        },
        None => {
            r.push_str("unknown");
        },
    }
    r.push_str("\nPlatform: ");
    r.push_str(platform);
    r.push_str("\nArchitecture: ");
    r.push_str(arch);
    r.push_str("\nShell: ");
    match shell {
        Some(shell) => {
            r.push_str(shell);
        },
        None => {
            if windows {
                r.push_str("powershell");
            } else {
                r.push_str("sh");
            }
        },
    }
    r
}

// ─── Instructions ───────────────────────────────────────────────────────────

/// Where the path of a file of instructions begins.
#[derive(Debug, Clone, Copy, PartialEq, Eq, Structural)]
pub enum InstructionBase {
    /// In the project.
    Project,
    /// In the home directory of the user.
    Home,
}

impl DeepView for InstructionBase {
    type V = InstructionBase;

    open spec fn deep_view(&self) -> InstructionBase {
        *self
    }
}

impl Duplicate for InstructionBase {
    fn duplicate(&self) -> (copy: Self) {
        *self
    }
}

/// The names of the files with instructions, in the order in which they are tried:
/// the framework's own, that of the third kind and the one that several agents share.
pub open spec fn usual_instruction_names(third: Seq<char>) -> Seq<Seq<char>> {
    seq!["ONEAI.md"@, third, "AGENTS.md"@]
}

/// The names of the files with instructions, in the order in which they are tried.
pub fn instruction_names(third: &str) -> (r: Vec<String>)
    ensures
        r.deep_view() == usual_instruction_names(third@),
{
    text::texts(["ONEAI.md", third, "AGENTS.md"])
}

/// The directories of a project that may hold instructions: the root, then
/// those where code usually lies.
pub open spec fn instruction_dirs() -> Seq<Seq<char>> {
    seq![""@, "src/"@, "lib/"@, "app/"@, "crates/"@, "packages/"@, "modules/"@]
}

/// The files of these names in a directory.
pub open spec fn files_in(
    base: InstructionBase,
    dir: Seq<char>,
    names: Seq<Seq<char>>,
) -> Seq<(InstructionBase, Seq<char>)> {
    names.map_values(|name: Seq<char>| (base, dir + name))
}

/// The files of these names in each of the directories, one directory after
/// the other.
pub open spec fn files_in_all(dirs: Seq<Seq<char>>, names: Seq<Seq<char>>) -> Seq<
    (InstructionBase, Seq<char>),
>
    decreases dirs.len(),
{
    if dirs.len() == 0 {
        Seq::empty()
    } else {
        files_in_all(dirs.drop_last(), names) + files_in(
            InstructionBase::Project,
            dirs.last(),
            names,
        )
    }
}

/// The files of these names that may hold instructions, in the order in which
/// they are tried: those of the project, then those of the user.
pub open spec fn instruction_files(names: Seq<Seq<char>>) -> Seq<(InstructionBase, Seq<char>)> {
    files_in_all(instruction_dirs(), names) + files_in(InstructionBase::Home, ".oneai/"@, names)
}

/// Appends the files of these names in a directory.
fn push_files(
    files: &mut Vec<(InstructionBase, String)>,
    base: InstructionBase,
    dir: &str,
    names: &Vec<String>,
)
    ensures
        final(files).deep_view() == old(files).deep_view() + files_in(
            base,
            dir@,
            names.deep_view(),
        ),
{
    let ghost start = files.deep_view();
    let ghost all = files_in(base, dir@, names.deep_view());
    let mut i: usize = 0;
    assert(start + all.take(0) =~= start);
    while i < names.len()
        invariant
            i <= names.len(),
            all == files_in(base, dir@, names.deep_view()),
            files.deep_view() == start + all.take(i as int),
        decreases names.len() - i,
    {
        let ghost before = files.deep_view();
        assert(names.deep_view()[i as int] == names@[i as int]@);
        files.push((base, text::concat(dir, names[i].as_str())));
        assert(files.deep_view() =~= before.push(all[i as int]));
        i = i + 1;
        assert(files.deep_view() =~= start + all.take(i as int));
    }
    assert(all.take(i as int) =~= all);
}

/// The files of these names that may hold instructions, in the order in which
/// they are tried.
pub fn instruction_candidates(names: &Vec<String>) -> (r: Vec<(InstructionBase, String)>)
    ensures
        r.deep_view() == instruction_files(names.deep_view()),
{
    let dirs = text::texts(["", "src/", "lib/", "app/", "crates/", "packages/", "modules/"]);
    let ghost all = dirs.deep_view();
    assert(all =~= instruction_dirs());
    let mut files: Vec<(InstructionBase, String)> = Vec::new();
    let mut i: usize = 0;
    assert(files.deep_view() =~= files_in_all(all.take(0), names.deep_view()));
    while i < dirs.len()
        invariant
            i <= dirs.len(),
            all == dirs.deep_view(),
            files.deep_view() == files_in_all(all.take(i as int), names.deep_view()),
        decreases dirs.len() - i,
    {
        assert(all.take(i + 1).drop_last() =~= all.take(i as int));
        assert(all[i as int] == dirs@[i as int]@);
        push_files(&mut files, InstructionBase::Project, dirs[i].as_str(), names);
        i = i + 1;
    }
    assert(all.take(i as int) =~= all);
    push_files(&mut files, InstructionBase::Home, ".oneai/", names);
    files
}

/// What was read holds instructions: a file was there, and it is not blank.
pub open spec fn usable(content: Option<Seq<char>>) -> bool {
    match content {
        Some(content) => text::trimmed(content).len() > 0,
        None => false,
    }
}

/// The first content that holds instructions.
pub open spec fn first_usable(contents: Seq<Option<Seq<char>>>) -> Option<Seq<char>>
    decreases contents.len(),
{
    if contents.len() == 0 {
        None
    } else if usable(contents[0]) {
        contents[0]
    } else {
        first_usable(contents.drop_first())
    }
}

/// Whether what was read of a file holds instructions.
pub fn is_usable(content: &Option<String>) -> (r: bool)
    ensures
        r == usable(content.deep_view()),
{
    match content {
        Some(content) => !text::is_blank(content.as_str()),
        None => false,
    }
}

/// The first content that holds instructions, by what was read of each
/// candidate.
pub fn pick_instructions(contents: &Vec<Option<String>>) -> (r: Option<String>)
    ensures
        r.deep_view() == first_usable(contents.deep_view()),
{
    let ghost all = contents.deep_view();
    let mut i: usize = 0;
    assert(all.skip(0) =~= all);
    while i < contents.len()
        invariant
            i <= contents.len(),
            all == contents.deep_view(),
            first_usable(all) == first_usable(all.skip(i as int)),
        decreases contents.len() - i,
    {
        assert(all.skip(i as int)[0] == all[i as int]);
        assert(all[i as int] == contents@[i as int].deep_view());
        if is_usable(&contents[i]) {
            return contents[i].duplicate();
        }
        assert(all.skip(i as int).drop_first() =~= all.skip(i + 1));
        i = i + 1;
    }
    None
}

/// Instructions of the project come before those of the user, and those in its
/// root before all others.
pub proof fn law_instruction_order(names: Seq<Seq<char>>, i: int, j: int)
    requires
        0 <= i < instruction_files(names).len(),
        0 <= j < instruction_files(names).len(),
        instruction_files(names)[i].0 == InstructionBase::Project,
        instruction_files(names)[j].0 == InstructionBase::Home,
    ensures
        i < j,
        instruction_files(names).len() == 8 * names.len(),
        forall|k: int|
            0 <= k < names.len() ==> #[trigger] instruction_files(names)[k] == (
                InstructionBase::Project,
                names[k],
            ),
{
    let dirs = instruction_dirs();
    let project = files_in_all(dirs, names);
    lemma_files_in_all(dirs, names);
    assert(names.len() * dirs.len() == 7 * names.len()) by (nonlinear_arith)
        requires
            dirs.len() == 7,
    ;
    reveal_strlit("");
    lemma_root_files(dirs, names);
    let all = instruction_files(names);
    assert forall|k: int| 0 <= k < names.len() implies #[trigger] all[k] == (
        InstructionBase::Project,
        names[k],
    ) by {
        assert(all[k] == project[k]);
        assert(project[k] == (InstructionBase::Project, dirs[0] + names[k]));
        assert(dirs[0] + names[k] =~= names[k]);
    }
    if j < project.len() {
        assert(all[j] == project[j]);
    }
    if i >= project.len() {
        assert(all[i] == files_in(InstructionBase::Home, ".oneai/"@, names)[i - project.len()]);
    }
}

proof fn lemma_files_in_all(dirs: Seq<Seq<char>>, names: Seq<Seq<char>>)
    ensures
        files_in_all(dirs, names).len() == names.len() * dirs.len(),
        forall|k: int|
            0 <= k < files_in_all(dirs, names).len() ==> (#[trigger] files_in_all(dirs, names)[k]).0
                == InstructionBase::Project,
    decreases dirs.len(),
{
    let n = names.len() as int;
    let d = dirs.len() as int;
    if d > 0 {
        lemma_files_in_all(dirs.drop_last(), names);
        assert(n * d == n * (d - 1) + n) by (nonlinear_arith);
    } else {
        assert(n * d == 0) by (nonlinear_arith)
            requires
                d == 0,
        ;
    }
}

proof fn lemma_root_files(dirs: Seq<Seq<char>>, names: Seq<Seq<char>>)
    requires
        dirs.len() > 0,
    ensures
        files_in_all(dirs, names).len() >= names.len(),
        forall|k: int|
            0 <= k < names.len() ==> #[trigger] files_in_all(dirs, names)[k] == (
                InstructionBase::Project,
                dirs[0] + names[k],
            ),
    decreases dirs.len(),
{
    if dirs.len() > 1 {
        lemma_root_files(dirs.drop_last(), names);
        let front = files_in_all(dirs.drop_last(), names);
        assert forall|k: int| 0 <= k < names.len() implies #[trigger] files_in_all(dirs, names)[k] == (
            InstructionBase::Project,
            dirs[0] + names[k],
        ) by {
            assert(front[k] == (InstructionBase::Project, dirs[0] + names[k]));
        }
    } else {
        assert(files_in_all(dirs.drop_last(), names) =~= Seq::empty());
    }
}

// ─── Reconciliation ─────────────────────────────────────────────────────────

/// Whether the state of a task has fallen behind the repository.
#[derive(Debug, PartialEq, Eq)]
pub struct ReconciliationReport {
    /// Whether it has.
    pub drift: bool,
    /// Why, in a few words.
    pub summary: String,
    /// What was held against each other, a line each.
    pub details: String,
}

/// The contents of a [`ReconciliationReport`].
#[verifier::ext_equal]
pub struct ReconciliationReportView {
    pub drift: bool,
    pub summary: Seq<char>,
    pub details: Seq<char>,
}

impl DeepView for ReconciliationReport {
    type V = ReconciliationReportView;

    open spec fn deep_view(&self) -> ReconciliationReportView {
        ReconciliationReportView {
            drift: self.drift,
            summary: self.summary.deep_view(),
            details: self.details.deep_view(),
        }
    }
}

impl Duplicate for ReconciliationReport {
    fn duplicate(&self) -> (copy: Self) {
        ReconciliationReport {
            drift: self.drift,
            summary: self.summary.duplicate(),
            details: self.details.duplicate(),
        }
    }
}

impl Clone for ReconciliationReport {
    fn clone(&self) -> (copy: Self)
        ensures
            copy.deep_view() == self.deep_view(),
    {
        self.duplicate()
    }
}

/// The block that tells of a state that has fallen behind.
pub open spec fn reconciliation_block(report: ReconciliationReportView) -> Seq<char> {
    if !report.drift {
        Seq::empty()
    } else {
        BLOCK_HEAD@ + report.summary + "\n"@ + report.details + BLOCK_TAIL@
    }
}

/// What the block begins with.
pub const BLOCK_HEAD: &'static str = "[Reconciliation] (do not compress — working state flagged STALE vs git)\n⚠️ ";

/// What the block ends with.
pub const BLOCK_TAIL: &'static str = "\nRe-verify the current step against the actual repo state before proceeding; external ground truth wins on conflict.";

impl ReconciliationReport {
    /// The block that tells of a state that has fallen behind: nothing where it
    /// has not.
    pub fn render_block(&self) -> (r: String)
        ensures
            r@ == reconciliation_block(self.deep_view()),
    {
        if !self.drift {
            return String::new();
        }
        let mut r = BLOCK_HEAD.to_string();
        r.push_str(self.summary.as_str());
        r.push_str("\n");
        r.push_str(self.details.as_str());
        r.push_str(BLOCK_TAIL);
        r
    }
}

/// The last commit is newer than the state of the task, by their time stamps.
pub open spec fn head_is_newer(head: Option<Seq<char>>, updated_at: Seq<char>) -> bool {
    match head {
        Some(head) => text::trimmed(updated_at).len() > 0 && text::text_before(
            text::trimmed(updated_at),
            text::trimmed(head),
        ),
        None => false,
    }
}

/// What is said where the repository has moved or the state was edited.
pub open spec fn drift_summary(newer: bool, dirty: bool) -> Seq<char> {
    (if newer {
        "git HEAD advanced after the working state's last write"@
    } else {
        Seq::empty()
    }) + (if newer && dirty {
        "; "@
    } else {
        Seq::empty()
    }) + (if dirty {
        ".oneai/ has uncommitted working-state edits"@
    } else {
        Seq::empty()
    })
}

/// What was held against each other.
pub open spec fn drift_details(head: Option<Seq<char>>, state: WorkingStateView) -> Seq<char> {
    (match head {
        Some(head) => "git HEAD commit: "@ + head + "\n"@,
        None => Seq::empty(),
    }) + "working state updated_at: "@ + state.updated_at + "\n"@ + "task goal: "@ + state.goal
        + "\n"@ + (if state.steps.len() > 0 {
        "pinned steps: "@ + text::digits(state.steps.len()) + "\n"@
    } else {
        Seq::empty()
    })
}

/// Whether the state of a task has fallen behind the repository, and how.
pub open spec fn drift_report(
    head: Option<Seq<char>>,
    dirty: bool,
    state: WorkingStateView,
) -> ReconciliationReportView {
    let newer = head_is_newer(head, state.updated_at);
    if head is Some && (newer || dirty) {
        ReconciliationReportView {
            drift: true,
            summary: drift_summary(newer, dirty),
            details: drift_details(head, state),
        }
    } else {
        ReconciliationReportView { drift: false, summary: Seq::empty(), details: Seq::empty() }
    }
}

/// Whether the state of a task has fallen behind the repository: the last
/// commit is newer, or the files that hold the state were edited. Without a
/// commit there is nothing to fall behind.
pub fn detect_drift(head_commit_ts: Option<&str>, oneai_dirty: bool, ws: &WorkingState) -> (r:
    ReconciliationReport)
    ensures
        r.deep_view() == drift_report(
            match head_commit_ts {
                Some(head) => Some(head@),
                None => None,
            },
            oneai_dirty,
            ws.deep_view(),
        ),
{
    let ghost head_view = match head_commit_ts {
        Some(head) => Some(head@),
        None => None,
    };
    let written = text::trim(ws.updated_at.as_str());
    let newer = match head_commit_ts {
        Some(head) => {
            let head = text::trim(head);
            !text::is_blank(ws.updated_at.as_str()) && text::less(
                written.as_str(),
                head.as_str(),
            )
        },
        None => false,
    };
    assert(newer == head_is_newer(head_view, ws.updated_at@));
    if head_commit_ts.is_none() || !newer && !oneai_dirty {
        return ReconciliationReport {
            drift: false,
            summary: String::new(),
            details: String::new(),
        };
    }
    let mut summary = String::new();
    if newer {
        summary.push_str("git HEAD advanced after the working state's last write");
    }
    if oneai_dirty {
        if newer {
            summary.push_str("; ");
        }
        summary.push_str(".oneai/ has uncommitted working-state edits");
    }
    assert(summary@ =~= drift_summary(newer, oneai_dirty));
    let mut details = String::new();
    if let Some(head) = head_commit_ts {
        details.push_str("git HEAD commit: ");
        details.push_str(head);
        details.push_str("\n");
    }
    details.push_str("working state updated_at: ");
    details.push_str(ws.updated_at.as_str());
    details.push_str("\n");
    details.push_str("task goal: ");
    details.push_str(ws.goal.as_str());
    details.push_str("\n");
    if ws.steps.len() > 0 {
        details.push_str("pinned steps: ");
        details.push_str(text::decimal(ws.steps.len() as u64).as_str());
        details.push_str("\n");
    }
    assert(details@ =~= drift_details(head_view, ws.deep_view()));
    ReconciliationReport { drift: true, summary, details }
}

/// What is said and written down when a task is taken up again.
#[derive(Debug, PartialEq, Eq)]
pub struct Reconciliation {
    /// The block that the model sees: empty where there is nothing to say.
    pub block: String,
    /// What goes into the log of the task, where its state has fallen behind.
    pub event: Option<ReconciliationReport>,
}

/// The contents of a [`Reconciliation`].
#[verifier::ext_equal]
pub struct ReconciliationView {
    pub block: Seq<char>,
    pub event: Option<ReconciliationReportView>,
}

impl DeepView for Reconciliation {
    type V = ReconciliationView;

    open spec fn deep_view(&self) -> ReconciliationView {
        ReconciliationView {
            block: self.block.deep_view(),
            event: self.event.deep_view(),
        }
    }
}

impl Duplicate for Reconciliation {
    fn duplicate(&self) -> (copy: Self) {
        Reconciliation {
            block: self.block.duplicate(),
            event: self.event.duplicate(),
        }
    }
}

impl Clone for Reconciliation {
    fn clone(&self) -> (copy: Self)
        ensures
            copy.deep_view() == self.deep_view(),
    {
        self.duplicate()
    }
}

/// What is said and written down when a task is taken up again.
pub open spec fn reconciled(
    state: Option<WorkingStateView>,
    head: Option<Seq<char>>,
    dirty: Option<bool>,
) -> ReconciliationView {
    match state {
        None => ReconciliationView { block: Seq::empty(), event: None },
        Some(state) => {
            let report = drift_report(
                head,
                match dirty {
                    Some(dirty) => dirty,
                    None => false,
                },
                state,
            );
            ReconciliationView {
                block: reconciliation_block(report),
                event: if report.drift {
                    Some(report)
                } else {
                    None
                },
            }
        },
    }
}

/// What is said and written down when a task is taken up again: nothing where
/// the task is not known, or its state is up to date.
pub fn reconcile(state: Option<&WorkingState>, head: Option<&str>, dirty: Option<bool>) -> (r:
    Reconciliation)
    ensures
        r.deep_view() == reconciled(
            match state {
                Some(state) => Some(state.deep_view()),
                None => None,
            },
            match head {
                Some(head) => Some(head@),
                None => None,
            },
            dirty,
        ),
{
    match state {
        None => Reconciliation { block: String::new(), event: None },
        Some(state) => {
            let dirty = match dirty {
                Some(dirty) => dirty,
                None => false,
            };
            let report = detect_drift(head, dirty, state);
            let block = report.render_block();
            let event = if report.drift {
                Some(report)
            } else {
                None
            };
            Reconciliation { block, event }
        },
    }
}

/// Lets what is said when a task is taken up again through once.
#[derive(Debug)]
pub struct ReportOnce {
    reported: bool,
}

impl ReportOnce {
    /// Nothing was said yet.
    pub fn new() -> (r: Self)
        ensures
            !r.spent(),
    {
        ReportOnce { reported: false }
    }

    /// Whether it was said.
    pub closed spec fn spent(&self) -> bool {
        self.reported
    }

    /// Whether it was said.
    pub fn is_spent(&self) -> (r: bool)
        ensures
            r == self.spent(),
    {
        self.reported
    }

    /// What is said and written down: what [`reconcile`] gives the first time, and
    /// nothing from then on.
    pub fn report(
        &mut self,
        state: Option<&WorkingState>,
        head: Option<&str>,
        dirty: Option<bool>,
    ) -> (r: Reconciliation)
        ensures
            final(self).spent(),
            r.deep_view() == reconciled(
                match state {
                    Some(state) => if old(self).spent() {
                        None
                    } else {
                        Some(state.deep_view())
                    },
                    None => None,
                },
                match head {
                    Some(head) => Some(head@),
                    None => None,
                },
                dirty,
            ),
    {
        let known = if self.reported {
            None
        } else {
            state
        };
        self.reported = true;
        reconcile(known, head, dirty)
    }
}

impl Default for ReportOnce {
    fn default() -> (r: Self)
        ensures
            !r.spent(),
    {
        ReportOnce::new()
    }
}

/// What a git command gave: what it printed, without the white space around
/// it, where it succeeded.
pub open spec fn command_result(success: bool, stdout: Seq<char>) -> Option<Seq<char>> {
    if success {
        Some(text::trimmed(stdout))
    } else {
        None
    }
}

/// What a git command gave.
pub fn git_result(success: bool, stdout: &str) -> (r: Option<String>)
    ensures
        r.deep_view() == command_result(success, stdout@),
{
    if success {
        Some(text::trim(stdout))
    } else {
        None
    }
}

/// Whether the files that hold the state were edited, by the short status of
/// their directory: unknown where it could not be had.
pub fn is_dirty(status: Option<&str>) -> (r: Option<bool>)
    ensures
        match status {
            Some(status) => r == Some(text::trimmed(status@).len() > 0),
            None => r is None,
        },
{
    match status {
        Some(status) => Some(!text::is_blank(status)),
        None => None,
    }
}

/// A state that is newer than the last commit is up to date unless its files
/// were edited, and where there are commits edits are always reported; without a
/// commit nothing ever is.
pub proof fn law_no_drift(head: Option<Seq<char>>, dirty: bool, state: WorkingStateView)
    ensures
        head is None ==> !drift_report(head, dirty, state).drift,
        !head_is_newer(head, state.updated_at) ==> !drift_report(head, false, state).drift,
        head is Some ==> drift_report(head, true, state).drift,
        !drift_report(head, dirty, state).drift ==> reconciliation_block(
            drift_report(head, dirty, state),
        ).len() == 0,
{
}

/// A file that a line of the short status names is among those to which the same thing
/// happened, and each of those is named by a line.
pub proof fn law_changes_are_listed(lines: Seq<Seq<char>>, kind: ChangeKind, path: Seq<char>)
    ensures
        changed_paths(lines, kind).contains(path) <==> exists|i: int|
            0 <= i < lines.len() && status_change(#[trigger] lines[i]) == Some((kind, path)),
    decreases lines.len(),
{
    if lines.len() > 0 {
        let front = lines.drop_last();
        let before = changed_paths(front, kind);
        law_changes_are_listed(front, kind, path);
        let now = changed_paths(lines, kind);
        if before.contains(path) {
            let k = choose|k: int| 0 <= k < before.len() && before[k] == path;
            assert(now[k] == path);
            let i = choose|i: int|
                0 <= i < front.len() && status_change(#[trigger] front[i]) == Some((kind, path));
            assert(lines[i] == front[i]);
        }
        if status_change(lines.last()) == Some((kind, path)) {
            assert(now[now.len() - 1] == path);
            assert(lines[lines.len() - 1] == lines.last());
        }
        if now.contains(path) && !before.contains(path) {
            let k = choose|k: int| 0 <= k < now.len() && now[k] == path;
            assert(k == before.len());
            assert(lines[lines.len() - 1] == lines.last());
        }
        if exists|i: int|
            0 <= i < lines.len() && status_change(#[trigger] lines[i]) == Some((kind, path)) {
            let i = choose|i: int|
                0 <= i < lines.len() && status_change(#[trigger] lines[i]) == Some((kind, path));
            if i < front.len() {
                assert(front[i] == lines[i]);
            }
        }
    }
}

/// What a line of the short status says goes by the two letters that it begins with: a
/// file is deleted where either is a `D`, else created where either is an `A` or both are
/// question marks, and else modified.
pub proof fn law_status_goes_by_letters(x: char, y: char, path: Seq<char>)
    requires
        x as u32 <= 0x7f,
        y as u32 <= 0x7f,
        path.len() > 0,
        text::trimmed(path) == path,
        text::trimmed_of(path, '"') == path,
    ensures
        x == 'D' || y == 'D' ==> status_change(seq![x, y, ' '] + path) == Some(
            (ChangeKind::Deleted, path),
        ),
        x != 'D' && y != 'D' && (x == 'A' || y == 'A' || x == '?' && y == '?') ==> status_change(
            seq![x, y, ' '] + path,
        ) == Some((ChangeKind::Created, path)),
        x != 'D' && y != 'D' && x != 'A' && y != 'A' && (x != '?' || y != '?') ==> status_change(
            seq![x, y, ' '] + path,
        ) == Some((ChangeKind::Modified, path)),
{
    let line = seq![x, y, ' '] + path;
    assert(line[0] == x && line[1] == y && line[2] == ' ');
    let one = line.drop_first();
    let two = one.drop_first();
    assert(one[0] == y);
    assert(two[0] == ' ');
    assert(text::chars_reaching(two.drop_first(), 0) == 0);
    assert(text::chars_reaching(two, 1) == 1);
    assert(text::chars_reaching(one, 2) == 2);
    assert(text::chars_reaching(line, 3) == 3);
    assert(line.skip(3) =~= path);
    text::lemma_byte_len_add(seq![x, y, ' '], path);
    text::lemma_ascii_byte_len(seq![x, y, ' ']);
}

/// What is said of a repository names the branch, how many files changed, each of them,
/// and the last commits, in this order.
pub proof fn law_git_status_tells_all(
    branch: Seq<char>,
    status: Seq<char>,
    commits: Seq<char>,
)
    ensures
        ({
            let lines = text::line_seq(status);
            let modified = changed_paths(lines, ChangeKind::Modified);
            let created = changed_paths(lines, ChangeKind::Created);
            let deleted = changed_paths(lines, ChangeKind::Deleted);
            text::in_order(
                git_status_text(Some(branch), Some(status), Some(commits)),
                seq![
                    text::trimmed(branch),
                    text::digits(modified.len() + created.len() + deleted.len()),
                ] + modified + created + deleted + seq![text::trimmed(commits)],
            )
        }),
{
    let lines = text::line_seq(status);
    let modified = changed_paths(lines, ChangeKind::Modified);
    let created = changed_paths(lines, ChangeKind::Created);
    let deleted = changed_paths(lines, ChangeKind::Deleted);
    let n = modified.len() + created.len() + deleted.len();
    lemma_paths_in_order("\nModified: "@, modified);
    lemma_paths_in_order("\nCreated: "@, created);
    lemma_paths_in_order("\nDeleted: "@, deleted);
    let s1 = "Git Branch: "@;
    let p1 = Seq::<Seq<char>>::empty();
    assert(text::in_order(s1, p1));
    let s2 = s1 + text::trimmed(branch);
    let p2 = p1.push(text::trimmed(branch));
    text::lemma_in_order_piece(s1, p1, text::trimmed(branch));
    let s3 = s2 + "\nChanges: "@;
    let p3 = p2;
    text::lemma_in_order_before(s2, p2, "\nChanges: "@);
    let s4 = s3 + text::digits(n);
    let p4 = p3.push(text::digits(n));
    text::lemma_in_order_piece(s3, p3, text::digits(n));
    let s5 = s4 + " modified/new/deleted files"@;
    let p5 = p4;
    text::lemma_in_order_before(s4, p4, " modified/new/deleted files"@);
    let s6 = s5 + paths_line("\nModified: "@, modified);
    let p6 = p5 + modified;
    text::lemma_in_order_add(s5, p5, paths_line("\nModified: "@, modified), modified);
    let s7 = s6 + paths_line("\nCreated: "@, created);
    let p7 = p6 + created;
    text::lemma_in_order_add(s6, p6, paths_line("\nCreated: "@, created), created);
    let s8 = s7 + paths_line("\nDeleted: "@, deleted);
    let p8 = p7 + deleted;
    text::lemma_in_order_add(s7, p7, paths_line("\nDeleted: "@, deleted), deleted);
    let s9 = s8 + "\nRecent Commits:\n"@;
    let p9 = p8;
    text::lemma_in_order_before(s8, p8, "\nRecent Commits:\n"@);
    let s10 = s9 + text::trimmed(commits);
    let p10 = p9.push(text::trimmed(commits));
    text::lemma_in_order_piece(s9, p9, text::trimmed(commits));
    assert(p10 =~= seq![text::trimmed(branch), text::digits(n)] + modified + created + deleted
        + seq![text::trimmed(commits)]);
}

/// Where a command of the repository failed, what is said is the same but for the part
/// that it would have given.
pub proof fn law_git_status_without(status: Option<Seq<char>>, other: Seq<char>)
    ensures
        git_status_text(None, status, Some(other)) == git_status_text(
            Some("unknown"@),
            status,
            Some(other),
        ),
        git_status_text(Some(other), status, None) == git_status_text(
            Some(other),
            status,
            Some("no commits"@),
        ),
        git_status_text(Some(other), None, Some(other)) == git_status_text(
            Some(other),
            Some(Seq::empty()),
            Some(other),
        ),
{
    reveal_strlit("unknown");
    reveal_strlit("no commits");
    lemma_unpadded("unknown"@);
    lemma_unpadded("no commits"@);
}

proof fn lemma_unpadded(s: Seq<char>)
    requires
        s.len() > 0,
        !text::white_space(s[0]),
        !text::white_space(s.last()),
    ensures
        text::trimmed(s) == s,
{
}

proof fn lemma_paths_in_order(label: Seq<char>, paths: Seq<Seq<char>>)
    ensures
        text::in_order(paths_line(label, paths), paths),
{
    if paths.len() > 0 {
        text::lemma_joined_in_order(paths, ", "@);
        assert(text::in_order(label, Seq::empty()));
        text::lemma_in_order_add(label, Seq::empty(), text::joined(paths, ", "@), paths);
        assert(Seq::<Seq<char>>::empty() + paths =~= paths);
    }
}

/// A list of files that is short enough is given whole, and of a longer one the beginning,
/// as far as the limit reaches, with a word that more was there.
pub proof fn law_file_tree_is_kept(output: Seq<char>)
    ensures
        ({
            let tree = text::trimmed(output);
            let label = "Project Structure:\n"@;
            &&& text::byte_len(tree) <= 2000 ==> file_tree_text(Some(output)) == label + tree
            &&& text::byte_len(tree) > 2000 ==> exists|kept: Seq<char>|
                #![trigger kept.is_prefix_of(tree)]
                kept.is_prefix_of(tree) && 2000 <= text::byte_len(kept) <= 2003
                    && file_tree_text(Some(output)) == label + (kept + "... [truncated]"@)
        }),
{
    let tree = text::trimmed(output);
    if text::byte_len(tree) > TREE_LIMIT {
        let kept = tree.take(text::chars_reaching(tree, TREE_LIMIT as nat) as int);
        text::lemma_reaching_bytes(tree, TREE_LIMIT as nat);
        text::lemma_reaching_bounds(tree, TREE_LIMIT as nat);
        assert(kept.is_prefix_of(tree));
    }
}

/// What is said of a project with a manifest of Rust holds its first lines, whatever else
/// there is.
pub proof fn law_config_holds_the_first_lines(
    cargo: Seq<char>,
    package: Option<DataView>,
    n: int,
)
    requires
        0 <= n <= text::line_seq(cargo).len(),
        n == 50 || n < 50 && n == text::line_seq(cargo).len(),
    ensures
        text::in_order(
            project_config_text(Some(cargo), package),
            text::line_seq(cargo).take(n),
        ),
        project_config_text(Some(cargo), package) == project_config_text(Some(cargo), None),
{
    let lines = text::line_seq(cargo);
    let shown = lines.take(n);
    assert(shown =~= text::first_lines(lines, CONFIG_LINES as int));
    text::lemma_joined_in_order(shown, "\n"@);
    let label = "Project Config (Cargo.toml):\n"@;
    assert(text::in_order(label, Seq::empty()));
    text::lemma_in_order_add(label, Seq::empty(), text::joined(shown, "\n"@), shown);
    assert(Seq::<Seq<char>>::empty() + shown =~= shown);
}

/// What is said of a package names it, its version and how many others it depends on.
pub proof fn law_package_is_named(manifest: DataView)
    ensures
        ({
            let text = project_config_text(None, Some(manifest));
            let name = match manifest.text_field("name"@) {
                Some(name) => name,
                None => "unknown"@,
            };
            let version = match manifest.text_field("version"@) {
                Some(version) => version,
                None => "unknown"@,
            };
            let count = text::digits(
                match manifest.object_field("dependencies"@) {
                    Some(dependencies) => dependencies.len(),
                    None => 0,
                },
            );
            text::in_order(text, seq![name, version, count])
        }),
{
    let name = manifest.text_or("name"@, "unknown"@);
    let version = manifest.text_or("version"@, "unknown"@);
    let count = text::digits(
        match manifest.object_field("dependencies"@) {
            Some(dependencies) => dependencies.len(),
            None => 0,
        },
    );
    let s1 = "Project Config (package.json): name="@;
    let p1 = Seq::<Seq<char>>::empty();
    assert(text::in_order(s1, p1));
    let s2 = s1 + name;
    let p2 = p1.push(name);
    text::lemma_in_order_piece(s1, p1, name);
    let s3 = s2 + ", version="@;
    let p3 = p2;
    text::lemma_in_order_before(s2, p2, ", version="@);
    let s4 = s3 + version;
    let p4 = p3.push(version);
    text::lemma_in_order_piece(s3, p3, version);
    let s5 = s4 + ", dependencies="@;
    let p5 = p4;
    text::lemma_in_order_before(s4, p4, ", dependencies="@);
    let s6 = s5 + count;
    let p6 = p5.push(count);
    text::lemma_in_order_piece(s5, p5, count);
    assert(p6 =~= seq![name, version, count]);
}

/// What is said of a point in time holds the date, the time and the day of the week.
pub proof fn law_date_is_told(date: Seq<char>, time: Seq<char>, weekday: Seq<char>)
    ensures
        text::in_order(date_text(date, time, weekday), seq![date, time, weekday]),
{
    let s1 = "Current Date: "@;
    let p1 = Seq::<Seq<char>>::empty();
    assert(text::in_order(s1, p1));
    let s2 = s1 + date;
    let p2 = p1.push(date);
    text::lemma_in_order_piece(s1, p1, date);
    let s3 = s2 + "\nCurrent Time: "@;
    let p3 = p2;
    text::lemma_in_order_before(s2, p2, "\nCurrent Time: "@);
    let s4 = s3 + time;
    let p4 = p3.push(time);
    text::lemma_in_order_piece(s3, p3, time);
    let s5 = s4 + "\nDay of Week: "@;
    let p5 = p4;
    text::lemma_in_order_before(s4, p4, "\nDay of Week: "@);
    let s6 = s5 + weekday;
    let p6 = p5.push(weekday);
    text::lemma_in_order_piece(s5, p5, weekday);
    assert(p6 =~= seq![date, time, weekday]);
}

/// What is said of a machine holds the directory, the platform, the architecture and the
/// shell; a shell that is not known is the usual one of the system.
pub proof fn law_machine_is_told(
    cwd: Seq<char>,
    platform: Seq<char>,
    arch: Seq<char>,
    shell: Seq<char>,
    windows: bool,
)
    ensures
        text::in_order(
            environment_text(Some(cwd), platform, arch, Some(shell), windows),
            seq![cwd, platform, arch, shell],
        ),
        environment_text(None, platform, arch, Some(shell), windows) == environment_text(
            Some("unknown"@),
            platform,
            arch,
            Some(shell),
            windows,
        ),
        environment_text(Some(cwd), platform, arch, None, true) == environment_text(
            Some(cwd),
            platform,
            arch,
            Some("powershell"@),
            true,
        ),
        environment_text(Some(cwd), platform, arch, None, false) == environment_text(
            Some(cwd),
            platform,
            arch,
            Some("sh"@),
            false,
        ),
{
    let s1 = "Working Directory: "@;
    let p1 = Seq::<Seq<char>>::empty();
    assert(text::in_order(s1, p1));
    let s2 = s1 + cwd;
    let p2 = p1.push(cwd);
    text::lemma_in_order_piece(s1, p1, cwd);
    let s3 = s2 + "\nPlatform: "@;
    let p3 = p2;
    text::lemma_in_order_before(s2, p2, "\nPlatform: "@);
    let s4 = s3 + platform;
    let p4 = p3.push(platform);
    text::lemma_in_order_piece(s3, p3, platform);
    let s5 = s4 + "\nArchitecture: "@;
    let p5 = p4;
    text::lemma_in_order_before(s4, p4, "\nArchitecture: "@);
    let s6 = s5 + arch;
    let p6 = p5.push(arch);
    text::lemma_in_order_piece(s5, p5, arch);
    let s7 = s6 + "\nShell: "@;
    let p7 = p6;
    text::lemma_in_order_before(s6, p6, "\nShell: "@);
    let s8 = s7 + shell;
    let p8 = p7.push(shell);
    text::lemma_in_order_piece(s7, p7, shell);
    assert(p8 =~= seq![cwd, platform, arch, shell]);
}

/// The instructions are the first of those that were read that are not blank, and there
/// are none where nothing else was read.
pub proof fn law_first_instructions_count(contents: Seq<Option<Seq<char>>>, i: int)
    requires
        0 <= i <= contents.len(),
        forall|k: int|
            0 <= k < i ==> ((#[trigger] contents[k]) matches Some(content) ==> text::trimmed(
                content,
            ).len() == 0),
    ensures
        i == contents.len() ==> first_usable(contents) is None,
        i < contents.len() ==> (contents[i] matches Some(content) ==> text::trimmed(content).len()
            > 0 ==> first_usable(contents) == Some(content)),
    decreases contents.len(),
{
    if i > 0 {
        let rest = contents.drop_first();
        assert(!usable(contents[0]));
        assert forall|k: int| 0 <= k < i - 1 implies ((#[trigger] rest[k]) matches Some(content)
            ==> text::trimmed(content).len() == 0) by {
            assert(rest[k] == contents[k + 1]);
        }
        law_first_instructions_count(rest, i - 1);
    }
}

/// Each name is tried in each of the directories of a project, and in the directory of the
/// user.
pub proof fn law_each_name_is_tried(names: Seq<Seq<char>>, dir: Seq<char>, name: Seq<char>)
    requires
        names.contains(name),
    ensures
        dir == ""@ || dir == "src/"@ || dir == "lib/"@ || dir == "app/"@ || dir == "crates/"@
            || dir == "packages/"@ || dir == "modules/"@ ==> instruction_files(names).contains(
            (InstructionBase::Project, dir + name),
        ),
        instruction_files(names).contains((InstructionBase::Home, ".oneai/"@ + name)),
{
    let dirs = instruction_dirs();
    let project = files_in_all(dirs, names);
    let home = files_in(InstructionBase::Home, ".oneai/"@, names);
    let all = instruction_files(names);
    let k = choose|k: int| 0 <= k < names.len() && names[k] == name;
    assert(all[project.len() + k] == home[k]);
    assert(all.contains((InstructionBase::Home, ".oneai/"@ + name)));
    assert(dirs[0] == ""@ && dirs[1] == "src/"@ && dirs[2] == "lib/"@ && dirs[3] == "app/"@
        && dirs[4] == "crates/"@ && dirs[5] == "packages/"@ && dirs[6] == "modules/"@);
    if dirs.contains(dir) {
        lemma_file_in_all(dirs, names, dir, name);
        let n = choose|n: int|
            0 <= n < project.len() && project[n] == (InstructionBase::Project, dir + name);
        assert(all[n] == project[n]);
    }
}

proof fn lemma_file_in_all(
    dirs: Seq<Seq<char>>,
    names: Seq<Seq<char>>,
    dir: Seq<char>,
    name: Seq<char>,
)
    requires
        dirs.contains(dir),
        names.contains(name),
    ensures
        files_in_all(dirs, names).contains((InstructionBase::Project, dir + name)),
    decreases dirs.len(),
{
    let front = files_in_all(dirs.drop_last(), names);
    let now = files_in(InstructionBase::Project, dirs.last(), names);
    let all = files_in_all(dirs, names);
    if dirs.last() == dir {
        let k = choose|k: int| 0 <= k < names.len() && names[k] == name;
        assert(all[front.len() + k] == now[k]);
    } else {
        let i = choose|i: int| 0 <= i < dirs.len() && dirs[i] == dir;
        assert(dirs.drop_last()[i] == dir);
        lemma_file_in_all(dirs.drop_last(), names, dir, name);
        let n = choose|n: int|
            0 <= n < front.len() && front[n] == (InstructionBase::Project, dir + name);
        assert(all[n] == front[n]);
    }
}

/// A state has fallen behind exactly where there is a commit, and the commit is newer than
/// the state or the files of the state were edited; what is reported then says which, and
/// tells the time of the commit, that of the state, and the goal.
pub proof fn law_drift_is_told(head: Seq<char>, dirty: bool, state: WorkingStateView)
    ensures
        ({
            let report = drift_report(Some(head), dirty, state);
            let written = text::trimmed(state.updated_at);
            let newer = written.len() > 0 && text::text_before(written, text::trimmed(head));
            &&& report.drift <==> newer || dirty
            &&& newer ==> text::occurs(
                report.summary,
                "git HEAD advanced after the working state's last write"@,
            )
            &&& newer && !dirty ==> report.summary
                == "git HEAD advanced after the working state's last write"@
            &&& dirty ==> text::occurs(
                report.summary,
                ".oneai/ has uncommitted working-state edits"@,
            )
            &&& dirty && !newer ==> report.summary
                == ".oneai/ has uncommitted working-state edits"@
            &&& report.drift ==> text::in_order(
                report.details,
                seq![head, state.updated_at, state.goal],
            )
            &&& report.drift && state.steps.len() > 0 ==> text::in_order(
                report.details,
                seq![head, state.updated_at, state.goal, text::digits(state.steps.len())],
            )
        }),
{
    let written = text::trimmed(state.updated_at);
    let newer = written.len() > 0 && text::text_before(written, text::trimmed(head));
    let ahead = "git HEAD advanced after the working state's last write"@;
    let edited = ".oneai/ has uncommitted working-state edits"@;
    let none = Seq::<char>::empty();
    text::lemma_occurs_inside(none, ahead, "; "@ + edited);
    assert(none + ahead + ("; "@ + edited) =~= ahead + "; "@ + edited);
    text::lemma_occurs_inside(ahead + "; "@, edited, none);
    assert(ahead + "; "@ + edited + none =~= ahead + "; "@ + edited);
    text::lemma_occurs_inside(none, ahead, none);
    assert(none + ahead + none =~= ahead);
    text::lemma_occurs_inside(none, edited, none);
    assert(none + edited + none =~= edited);
    assert(drift_summary(true, false) =~= ahead);
    assert(drift_summary(false, true) =~= edited);
    assert(drift_summary(true, true) =~= ahead + "; "@ + edited);
    lemma_details_in_order(head, state);
}

proof fn lemma_details_in_order(head: Seq<char>, state: WorkingStateView)
    ensures
        text::in_order(
            drift_details(Some(head), state),
            seq![head, state.updated_at, state.goal],
        ),
        state.steps.len() > 0 ==> text::in_order(
            drift_details(Some(head), state),
            seq![head, state.updated_at, state.goal, text::digits(state.steps.len())],
        ),
{
    let front = "git HEAD commit: "@ + head + "\n"@;
    text::lemma_in_order_between("git HEAD commit: "@, head, "\n"@);
    let s1 = Seq::<char>::empty();
    let p1 = Seq::<Seq<char>>::empty();
    assert(text::in_order(s1, p1));
    let s2 = s1 + front;
    let p2 = p1 + seq![head];
    text::lemma_in_order_add(s1, p1, front, seq![head]);
    let s3 = s2 + "working state updated_at: "@;
    let p3 = p2;
    text::lemma_in_order_before(s2, p2, "working state updated_at: "@);
    let s4 = s3 + state.updated_at;
    let p4 = p3.push(state.updated_at);
    text::lemma_in_order_piece(s3, p3, state.updated_at);
    let s5 = s4 + "\n"@;
    let p5 = p4;
    text::lemma_in_order_before(s4, p4, "\n"@);
    let s6 = s5 + "task goal: "@;
    let p6 = p5;
    text::lemma_in_order_before(s5, p5, "task goal: "@);
    let s7 = s6 + state.goal;
    let p7 = p6.push(state.goal);
    text::lemma_in_order_piece(s6, p6, state.goal);
    let s8 = s7 + "\n"@;
    let p8 = p7;
    text::lemma_in_order_before(s7, p7, "\n"@);
    let base = s8;
    let pieces = seq![head, state.updated_at, state.goal];
    assert(p8 =~= pieces);
    let steps = if state.steps.len() > 0 {
        "pinned steps: "@ + text::digits(state.steps.len()) + "\n"@
    } else {
        Seq::empty()
    };
    assert(drift_details(Some(head), state) =~= base + steps);
    text::lemma_in_order_before(base, pieces, steps);
    if state.steps.len() > 0 {
        let count = text::digits(state.steps.len());
        text::lemma_in_order_between("pinned steps: "@, count, "\n"@);
        text::lemma_in_order_add(base, pieces, steps, seq![count]);
        assert(pieces + seq![count] =~= seq![head, state.updated_at, state.goal, count]);
    }
}

/// What the model sees of a state that has fallen behind holds what was reported, and what
/// was reported goes into the log; of a task that is not known, or of a state that is up to
/// date, it sees nothing, and nothing is written down.
pub proof fn law_drift_is_shown(
    state: WorkingStateView,
    head: Option<Seq<char>>,
    dirty: bool,
)
    ensures
        ({
            let report = drift_report(head, dirty, state);
            let said = reconciled(Some(state), head, Some(dirty));
            &&& report.drift ==> said.event == Some(report) && text::in_order(
                said.block,
                seq![report.summary, report.details],
            )
            &&& !report.drift ==> said.event is None && said.block.len() == 0
            &&& reconciled(Some(state), head, None) == reconciled(Some(state), head, Some(false))
            &&& reconciled(None, head, Some(dirty)).event is None
            &&& reconciled(None, head, Some(dirty)).block.len() == 0
        }),
{
    let report = drift_report(head, dirty, state);
    let s1 = BLOCK_HEAD@;
    let p1 = Seq::<Seq<char>>::empty();
    assert(text::in_order(s1, p1));
    let s2 = s1 + report.summary;
    let p2 = p1.push(report.summary);
    text::lemma_in_order_piece(s1, p1, report.summary);
    let s3 = s2 + "\n"@;
    let p3 = p2;
    text::lemma_in_order_before(s2, p2, "\n"@);
    let s4 = s3 + report.details;
    let p4 = p3.push(report.details);
    text::lemma_in_order_piece(s3, p3, report.details);
    let s5 = s4 + BLOCK_TAIL@;
    let p5 = p4;
    text::lemma_in_order_before(s4, p4, BLOCK_TAIL@);
    assert(p5 =~= seq![report.summary, report.details]);
}

/// What a git command printed counts, without the white space around it, only where it
/// succeeded.
pub proof fn law_command_counts_on_success(stdout: Seq<char>)
    ensures
        command_result(true, stdout) == Some(text::trimmed(stdout)),
        command_result(false, stdout) is None,
{
}

} // verus!
