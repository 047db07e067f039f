//! The state of the work on a task.

use vstd::prelude::*;
use crate::duplicate::Duplicate;

verus! {

/// How far a task is.
#[derive(Debug, Clone, Copy, PartialEq, Eq, Structural)]
pub enum TaskStatus {
    Active,
    Paused,
    Completed,
}

impl DeepView for TaskStatus {
    type V = TaskStatus;

    open spec fn deep_view(&self) -> TaskStatus {
        *self
    }
}

impl Duplicate for TaskStatus {
    fn duplicate(&self) -> (copy: Self) {
        *self
    }
}

/// How far a step of a task is.
#[derive(Debug, Clone, Copy, PartialEq, Eq, Structural)]
pub enum StepStatus {
    Pending,
    InProgress,
    Completed,
    Failed,
}

impl DeepView for StepStatus {
    type V = StepStatus;

    open spec fn deep_view(&self) -> StepStatus {
        *self
    }
}

impl Duplicate for StepStatus {
    fn duplicate(&self) -> (copy: Self) {
        *self
    }
}

/// A step of a task.
#[derive(Debug, PartialEq, Eq)]
pub struct Step {
    pub id: String,
    pub description: String,
    pub status: StepStatus,
    /// The steps that come before.
    pub depends_on: Vec<String>,
    /// Its place among the steps.
    pub order: u32,
    /// What is said while it is worked on.
    pub active_form: Option<String>,
    /// When it was last written.
    pub updated_at: String,
}

/// The contents of a [`Step`].
#[verifier::ext_equal]
pub struct StepView {
    pub id: Seq<char>,
    pub description: Seq<char>,
    pub status: StepStatus,
    pub depends_on: Seq<Seq<char>>,
    pub order: u32,
    pub active_form: Option<Seq<char>>,
    pub updated_at: Seq<char>,
}

impl DeepView for Step {
    type V = StepView;

    open spec fn deep_view(&self) -> StepView {
        StepView {
            id: self.id.deep_view(),
            description: self.description.deep_view(),
            status: self.status,
            depends_on: self.depends_on.deep_view(),
            order: self.order,
            active_form: self.active_form.deep_view(),
            updated_at: self.updated_at.deep_view(),
        }
    }
}

impl Duplicate for Step {
    fn duplicate(&self) -> (copy: Self) {
        Step {
            id: self.id.duplicate(),
            description: self.description.duplicate(),
            status: self.status,
            depends_on: self.depends_on.duplicate(),
            order: self.order,
            active_form: self.active_form.duplicate(),
            updated_at: self.updated_at.duplicate(),
        }
    }
}

impl Clone for Step {
    fn clone(&self) -> (copy: Self)
        ensures
            copy.deep_view() == self.deep_view(),
    {
        self.duplicate()
    }
}

/// The state of the work on a task.
#[derive(Debug, PartialEq, Eq)]
pub struct WorkingState {
    pub task_id: String,
    pub user_id: String,
    pub project: String,
    /// What the task is for.
    pub goal: String,
    pub intent: String,
    pub status: TaskStatus,
    pub steps: Vec<Step>,
    pub decisions: Vec<String>,
    pub blockers: Vec<String>,
    pub notes: Vec<String>,
    /// The session that works on it.
    pub owner_session: String,
    pub created_at: String,
    /// When the state was last written.
    pub updated_at: String,
}

/// The contents of a [`WorkingState`].
#[verifier::ext_equal]
pub struct WorkingStateView {
    pub task_id: Seq<char>,
    pub user_id: Seq<char>,
    pub project: Seq<char>,
    pub goal: Seq<char>,
    pub intent: Seq<char>,
    pub status: TaskStatus,
    pub steps: Seq<StepView>,
    pub decisions: Seq<Seq<char>>,
    pub blockers: Seq<Seq<char>>,
    pub notes: Seq<Seq<char>>,
    pub owner_session: Seq<char>,
    pub created_at: Seq<char>,
    pub updated_at: Seq<char>,
}

impl DeepView for WorkingState {
    type V = WorkingStateView;

    open spec fn deep_view(&self) -> WorkingStateView {
        WorkingStateView {
            task_id: self.task_id.deep_view(),
            user_id: self.user_id.deep_view(),
            project: self.project.deep_view(),
            goal: self.goal.deep_view(),
            intent: self.intent.deep_view(),
            status: self.status,
            steps: self.steps.deep_view(),
            decisions: self.decisions.deep_view(),
            blockers: self.blockers.deep_view(),
            notes: self.notes.deep_view(),
            owner_session: self.owner_session.deep_view(),
            created_at: self.created_at.deep_view(),
            updated_at: self.updated_at.deep_view(),
        }
    }
}

impl Duplicate for WorkingState {
    fn duplicate(&self) -> (copy: Self) {
        WorkingState {
            task_id: self.task_id.duplicate(),
            user_id: self.user_id.duplicate(),
            project: self.project.duplicate(),
            goal: self.goal.duplicate(),
            intent: self.intent.duplicate(),
            status: self.status,
            steps: self.steps.duplicate(),
            decisions: self.decisions.duplicate(),
            blockers: self.blockers.duplicate(),
            notes: self.notes.duplicate(),
            owner_session: self.owner_session.duplicate(),
            created_at: self.created_at.duplicate(),
            updated_at: self.updated_at.duplicate(),
        }
    }
}

impl Clone for WorkingState {
    fn clone(&self) -> (copy: Self)
        ensures
            copy.deep_view() == self.deep_view(),
    {
        self.duplicate()
    }
}

} // verus!
