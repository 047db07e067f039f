//! What is kept about sessions, reactions, hosts and scheduled tasks.
//!
//! Points in time are nanoseconds since the Unix epoch, but where a name says
//! otherwise.

use vstd::prelude::*;
use crate::collections::Table;
use crate::duplicate::Duplicate;

verus! {

/// Stands in the id of a snapshot of discarded messages.
pub const DISCARDED_SNAPSHOT_MARKER: &'static str = "::discarded::";

/// A saved conversation in brief.
#[derive(Debug)]
pub struct SessionInfo {
    /// The id of the conversation.
    pub id: String,
    /// When it began.
    pub created_at: i128,
    /// When it last changed.
    pub updated_at: i128,
    /// How many messages it has.
    pub message_count: usize,
    /// A title, where there is one.
    pub title: Option<String>,
    /// The directory that it is about.
    pub workspace: Option<String>,
    /// Whether it was put away.
    pub archived: bool,
}

/// The contents of a [`SessionInfo`].
#[verifier::ext_equal]
pub struct SessionInfoView {
    pub id: Seq<char>,
    pub created_at: i128,
    pub updated_at: i128,
    pub message_count: usize,
    pub title: Option<Seq<char>>,
    pub workspace: Option<Seq<char>>,
    pub archived: bool,
}

impl DeepView for SessionInfo {
    type V = SessionInfoView;

    open spec fn deep_view(&self) -> SessionInfoView {
        SessionInfoView {
            id: self.id.deep_view(),
            created_at: self.created_at,
            updated_at: self.updated_at,
            message_count: self.message_count,
            title: self.title.deep_view(),
            workspace: self.workspace.deep_view(),
            archived: self.archived,
        }
    }
}

impl Duplicate for SessionInfo {
    fn duplicate(&self) -> (copy: Self) {
        SessionInfo {
            id: self.id.duplicate(),
            created_at: self.created_at,
            updated_at: self.updated_at,
            message_count: self.message_count,
            title: self.title.duplicate(),
            workspace: self.workspace.duplicate(),
            archived: self.archived,
        }
    }
}

impl Clone for SessionInfo {
    fn clone(&self) -> (copy: Self)
        ensures
            copy.deep_view() == self.deep_view(),
    {
        self.duplicate()
    }
}

impl SessionInfo {
    /// A conversation without a title.
    pub fn new(id: String, created_at: i128, updated_at: i128, message_count: usize) -> (r: Self)
        ensures
            r.deep_view() == (SessionInfoView {
                id: id@,
                created_at,
                updated_at,
                message_count,
                title: None,
                workspace: None,
                archived: false,
            }),
    {
        SessionInfo::with_title(id, created_at, updated_at, message_count, None)
    }

    /// A conversation, maybe with a title.
    pub fn with_title(
        id: String,
        created_at: i128,
        updated_at: i128,
        message_count: usize,
        title: Option<String>,
    ) -> (r: Self)
        ensures
            r.deep_view() == (SessionInfoView {
                id: id@,
                created_at,
                updated_at,
                message_count,
                title: title.deep_view(),
                workspace: None,
                archived: false,
            }),
    {
        SessionInfo {
            id,
            created_at,
            updated_at,
            message_count,
            title,
            workspace: None,
            archived: false,
        }
    }

    /// This conversation with a directory.
    pub fn with_workspace(self, workspace: Option<String>) -> (r: Self)
        ensures
            r.deep_view() == (SessionInfoView {
                workspace: workspace.deep_view(),
                ..self.deep_view()
            }),
    {
        SessionInfo { workspace, ..self }
    }

    /// This conversation, put away or not.
    pub fn with_archived(self, archived: bool) -> (r: Self)
        ensures
            r.deep_view() == (SessionInfoView { archived, ..self.deep_view() }),
    {
        SessionInfo { archived, ..self }
    }
}

/// A user's reaction to a message.
#[derive(Debug, PartialEq, Eq, Default)]
pub struct FeedbackEntry {
    /// By which it is told from others.
    pub id: String,
    /// The conversation.
    pub session_id: String,
    /// The turn of the message.
    pub turn_id: String,
    /// Who wrote the message.
    pub message_role: String,
    /// The kind of reaction.
    pub kind: String,
    /// What the user wrote.
    pub text: Option<String>,
    /// When, in milliseconds.
    pub created_at_ms: u64,
}

/// The contents of a [`FeedbackEntry`].
#[verifier::ext_equal]
pub struct FeedbackEntryView {
    pub id: Seq<char>,
    pub session_id: Seq<char>,
    pub turn_id: Seq<char>,
    pub message_role: Seq<char>,
    pub kind: Seq<char>,
    pub text: Option<Seq<char>>,
    pub created_at_ms: u64,
}

impl DeepView for FeedbackEntry {
    type V = FeedbackEntryView;

    open spec fn deep_view(&self) -> FeedbackEntryView {
        FeedbackEntryView {
            id: self.id.deep_view(),
            session_id: self.session_id.deep_view(),
            turn_id: self.turn_id.deep_view(),
            message_role: self.message_role.deep_view(),
            kind: self.kind.deep_view(),
            text: self.text.deep_view(),
            created_at_ms: self.created_at_ms,
        }
    }
}

impl Duplicate for FeedbackEntry {
    fn duplicate(&self) -> (copy: Self) {
        FeedbackEntry {
            id: self.id.duplicate(),
            session_id: self.session_id.duplicate(),
            turn_id: self.turn_id.duplicate(),
            message_role: self.message_role.duplicate(),
            kind: self.kind.duplicate(),
            text: self.text.duplicate(),
            created_at_ms: self.created_at_ms,
        }
    }
}

impl Clone for FeedbackEntry {
    fn clone(&self) -> (copy: Self)
        ensures
            copy.deep_view() == self.deep_view(),
    {
        self.duplicate()
    }
}

/// A host that the user admitted or blocked.
#[derive(Debug, PartialEq, Eq, Default)]
pub struct HostAllowEntry {
    /// The name of the host, in lower case and without a port.
    pub host: String,
    /// When, in milliseconds.
    pub recorded_at_ms: u64,
}

/// The contents of a [`HostAllowEntry`].
#[verifier::ext_equal]
pub struct HostAllowEntryView {
    pub host: Seq<char>,
    pub recorded_at_ms: u64,
}

impl DeepView for HostAllowEntry {
    type V = HostAllowEntryView;

    open spec fn deep_view(&self) -> HostAllowEntryView {
        HostAllowEntryView {
            host: self.host.deep_view(),
            recorded_at_ms: self.recorded_at_ms,
        }
    }
}

impl Duplicate for HostAllowEntry {
    fn duplicate(&self) -> (copy: Self) {
        HostAllowEntry {
            host: self.host.duplicate(),
            recorded_at_ms: self.recorded_at_ms,
        }
    }
}

impl Clone for HostAllowEntry {
    fn clone(&self) -> (copy: Self)
        ensures
            copy.deep_view() == self.deep_view(),
    {
        self.duplicate()
    }
}

/// A task that runs by a schedule.
#[derive(Debug)]
pub struct CronJobSpec {
    /// By which it is told from others; where it is empty, one is made up.
    pub id: String,
    /// What users call it.
    pub name: String,
    /// When it runs, in the words of the schedule.
    pub schedule: String,
    /// What is to be done.
    pub task: String,
    /// Where it was set up.
    pub platform: String,
    /// The channel to answer in.
    pub channel: String,
    /// The session to work in.
    pub session_id: String,
    /// The domain pack to work with.
    pub pack: String,
    /// Who set it up.
    pub user_id: String,
    /// Whether the answer goes to the channel ("origin") or nowhere ("silent").
    pub deliver: String,
    /// Whether it runs at all.
    pub enabled: bool,
    /// Further facts about it.
    pub metadata: Table<String>,
}

/// The contents of a [`CronJobSpec`].
#[verifier::ext_equal]
pub struct CronJobSpecView {
    pub id: Seq<char>,
    pub name: Seq<char>,
    pub schedule: Seq<char>,
    pub task: Seq<char>,
    pub platform: Seq<char>,
    pub channel: Seq<char>,
    pub session_id: Seq<char>,
    pub pack: Seq<char>,
    pub user_id: Seq<char>,
    pub deliver: Seq<char>,
    pub enabled: bool,
    pub metadata: Seq<(Seq<char>, Seq<char>)>,
}

impl DeepView for CronJobSpec {
    type V = CronJobSpecView;

    open spec fn deep_view(&self) -> CronJobSpecView {
        CronJobSpecView {
            id: self.id.deep_view(),
            name: self.name.deep_view(),
            schedule: self.schedule.deep_view(),
            task: self.task.deep_view(),
            platform: self.platform.deep_view(),
            channel: self.channel.deep_view(),
            session_id: self.session_id.deep_view(),
            pack: self.pack.deep_view(),
            user_id: self.user_id.deep_view(),
            deliver: self.deliver.deep_view(),
            enabled: self.enabled,
            metadata: self.metadata.deep_view(),
        }
    }
}

impl Duplicate for CronJobSpec {
    fn duplicate(&self) -> (copy: Self) {
        CronJobSpec {
            id: self.id.duplicate(),
            name: self.name.duplicate(),
            schedule: self.schedule.duplicate(),
            task: self.task.duplicate(),
            platform: self.platform.duplicate(),
            channel: self.channel.duplicate(),
            session_id: self.session_id.duplicate(),
            pack: self.pack.duplicate(),
            user_id: self.user_id.duplicate(),
            deliver: self.deliver.duplicate(),
            enabled: self.enabled,
            metadata: self.metadata.duplicate(),
        }
    }
}

impl Clone for CronJobSpec {
    fn clone(&self) -> (copy: Self)
        ensures
            copy.deep_view() == self.deep_view(),
    {
        self.duplicate()
    }
}

/// Where the answer of a job goes where it does not say.
pub fn cron_default_deliver() -> (r: String)
    ensures
        r@ == "origin"@,
{
    "origin".to_string()
}

/// Whether a job runs where it does not say.
pub fn cron_default_true() -> (r: bool)
    ensures
        r,
{
    true
}

impl CronJobSpec {
    /// A job of which only what must be set is set.
    pub fn new(name: String, schedule: String, task: String) -> (r: Self)
        ensures
            r.deep_view() == (CronJobSpecView {
                id: Seq::empty(),
                name: name@,
                schedule: schedule@,
                task: task@,
                platform: Seq::empty(),
                channel: Seq::empty(),
                session_id: Seq::empty(),
                pack: Seq::empty(),
                user_id: Seq::empty(),
                deliver: "origin"@,
                enabled: true,
                metadata: Seq::empty(),
            }),
    {
        CronJobSpec {
            id: String::new(),
            name,
            schedule,
            task,
            platform: String::new(),
            channel: String::new(),
            session_id: String::new(),
            pack: String::new(),
            user_id: String::new(),
            deliver: cron_default_deliver(),
            enabled: cron_default_true(),
            metadata: Table::new(),
        }
    }
}

/// A task that is to run later.
#[derive(Debug)]
pub struct ScheduledTask {
    pub id: String,
    pub name: String,
    /// What to run, written down.
    pub payload: String,
    /// Further facts about it.
    pub metadata: Table<String>,
}

/// The contents of a [`ScheduledTask`].
#[verifier::ext_equal]
pub struct ScheduledTaskView {
    pub id: Seq<char>,
    pub name: Seq<char>,
    pub payload: Seq<char>,
    pub metadata: Seq<(Seq<char>, Seq<char>)>,
}

impl DeepView for ScheduledTask {
    type V = ScheduledTaskView;

    open spec fn deep_view(&self) -> ScheduledTaskView {
        ScheduledTaskView {
            id: self.id.deep_view(),
            name: self.name.deep_view(),
            payload: self.payload.deep_view(),
            metadata: self.metadata.deep_view(),
        }
    }
}

impl Duplicate for ScheduledTask {
    fn duplicate(&self) -> (copy: Self) {
        ScheduledTask {
            id: self.id.duplicate(),
            name: self.name.duplicate(),
            payload: self.payload.duplicate(),
            metadata: self.metadata.duplicate(),
        }
    }
}

impl Clone for ScheduledTask {
    fn clone(&self) -> (copy: Self)
        ensures
            copy.deep_view() == self.deep_view(),
    {
        self.duplicate()
    }
}

/// By which a scheduled task can be called off.
#[derive(Debug)]
pub struct TaskHandle {
    pub task_id: String,
    /// What the platform calls it.
    pub platform_handle: String,
}

/// The contents of a [`TaskHandle`].
#[verifier::ext_equal]
pub struct TaskHandleView {
    pub task_id: Seq<char>,
    pub platform_handle: Seq<char>,
}

impl DeepView for TaskHandle {
    type V = TaskHandleView;

    open spec fn deep_view(&self) -> TaskHandleView {
        TaskHandleView {
            task_id: self.task_id.deep_view(),
            platform_handle: self.platform_handle.deep_view(),
        }
    }
}

impl Duplicate for TaskHandle {
    fn duplicate(&self) -> (copy: Self) {
        TaskHandle {
            task_id: self.task_id.duplicate(),
            platform_handle: self.platform_handle.duplicate(),
        }
    }
}

impl Clone for TaskHandle {
    fn clone(&self) -> (copy: Self)
        ensures
            copy.deep_view() == self.deep_view(),
    {
        self.duplicate()
    }
}

} // verus!
