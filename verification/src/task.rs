//! Tasks of the platform that carries out the work. The workflow creates
//! them, looks them up and sets their status; it does not run them.

use vstd::prelude::*;
use vstd::string::*;

use crate::encoding::str_eq;

verus! {

/// How a task stands.
#[derive(Clone, Copy, Debug, PartialEq, Eq, Structural)]
pub enum TaskStatus {
    Todo,
    InProgress,
    InReview,
    Done,
    Cancelled,
}

impl TaskStatus {
    /// The name under which the status is stored.
    pub open spec fn spec_name(self) -> Seq<char> {
        match self {
            TaskStatus::Todo => "todo"@,
            TaskStatus::InProgress => "inprogress"@,
            TaskStatus::InReview => "inreview"@,
            TaskStatus::Done => "done"@,
            TaskStatus::Cancelled => "cancelled"@,
        }
    }

    /// The status that a name stands for, if it is one of the five names.
    pub open spec fn spec_from_name(name: Seq<char>) -> Option<TaskStatus> {
        if name == "todo"@ {
            Some(TaskStatus::Todo)
        } else if name == "inprogress"@ {
            Some(TaskStatus::InProgress)
        } else if name == "inreview"@ {
            Some(TaskStatus::InReview)
        } else if name == "done"@ {
            Some(TaskStatus::Done)
        } else if name == "cancelled"@ {
            Some(TaskStatus::Cancelled)
        } else {
            None
        }
    }

    /// The name under which the status is stored.
    pub fn as_str(&self) -> (name: &'static str)
        ensures
            name@ == self.spec_name(),
    {
        match self {
            TaskStatus::Todo => "todo",
            TaskStatus::InProgress => "inprogress",
            TaskStatus::InReview => "inreview",
            TaskStatus::Done => "done",
            TaskStatus::Cancelled => "cancelled",
        }
    }

    /// Reads a status from its name.
    pub fn from_name(name: &str) -> (status: Option<TaskStatus>)
        ensures
            status == Self::spec_from_name(name@),
    {
        if str_eq(name, "todo") {
            Some(TaskStatus::Todo)
        } else if str_eq(name, "inprogress") {
            Some(TaskStatus::InProgress)
        } else if str_eq(name, "inreview") {
            Some(TaskStatus::InReview)
        } else if str_eq(name, "done") {
            Some(TaskStatus::Done)
        } else if str_eq(name, "cancelled") {
            Some(TaskStatus::Cancelled)
        } else {
            None
        }
    }
}

/// One unit of work of a local project.
#[derive(Clone, Debug, PartialEq, Eq)]
pub struct Task {
    pub id: u128,
    pub project_id: u128,
    pub title: String,
    pub description: Option<String>,
    pub status: TaskStatus,
    pub parent_task_attempt: Option<u128>,
    pub created_at: i64,
    pub updated_at: i64,
}

/// `Task` by the plain values that it holds.
pub struct TaskView {
    pub id: u128,
    pub project_id: u128,
    pub title: Seq<char>,
    pub description: Option<Seq<char>>,
    pub status: TaskStatus,
    pub parent_task_attempt: Option<u128>,
    pub created_at: i64,
    pub updated_at: i64,
}

impl View for Task {
    type V = TaskView;

    open spec fn view(&self) -> TaskView {
        TaskView {
            id: self.id,
            project_id: self.project_id,
            title: self.title@,
            description: self.description.deep_view(),
            status: self.status,
            parent_task_attempt: self.parent_task_attempt,
            created_at: self.created_at,
            updated_at: self.updated_at,
        }
    }
}

impl DeepView for Task {
    type V = TaskView;

    open spec fn deep_view(&self) -> TaskView {
        self@
    }
}

/// What is needed to create a task.
#[derive(Clone, Debug, PartialEq, Eq)]
pub struct CreateTask {
    pub project_id: u128,
    pub title: String,
    pub description: Option<String>,
    pub parent_task_attempt: Option<u128>,
    pub image_ids: Option<Vec<u128>>,
}

impl CreateTask {
    /// The task that these data describe, new at time `now`.
    pub open spec fn spec_task(self, task_id: u128, now: i64) -> TaskView {
        TaskView {
            id: task_id,
            project_id: self.project_id,
            title: self.title@,
            description: self.description.deep_view(),
            status: TaskStatus::Todo,
            parent_task_attempt: self.parent_task_attempt,
            created_at: now,
            updated_at: now,
        }
    }
}

/// A task's prompt: the title, and the description where there is one.
pub open spec fn spec_prompt(task: TaskView) -> Seq<char> {
    match task.description {
        Some(description) => "Title: "@ + task.title + "\n\nDescription:"@ + description,
        None => task.title,
    }
}

impl Task {
    /// The task's prompt.
    pub fn to_prompt(&self) -> (prompt: String)
        ensures
            prompt@ == spec_prompt(self@),
    {
        match &self.description {
            Some(description) => {
                let mut prompt = String::from_str("Title: ");
                prompt.append(self.title.as_str());
                prompt.append("\n\nDescription:");
                prompt.append(description.as_str());
                prompt
            },
            None => self.title.clone(),
        }
    }
}

} // verus!
