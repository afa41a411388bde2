//! What the service's endpoints decide, apart from how they are served:
//! the handling of a decision that the team submits, the listing of
//! projects, the manual resynchronisation and the watching of a project for
//! changes.

use vstd::prelude::*;

use crate::error::{view_result, ErrorView, Missing, WebAssistError};
use crate::models::{
    stage_sequence, ApprovalDecision, ApprovalStatus, SyncStatus, WebAssistProject, WebAssistStage,
    STAGE_COUNT,
};
use crate::project_manager::{spec_handle_approval_response, ProjectManager};
use crate::store::{spec_count_pending, LocalStore, StoreView};
use crate::supabase_client::{RemoteRequest, RemoteRequestView, SupabaseConfigView};

verus! {

/// A change that a subscriber of a project is told.
#[derive(Clone, Copy, Debug, PartialEq, Eq)]
pub enum WebAssistEvent {
    StageChanged { project_id: u128, old_stage: WebAssistStage, new_stage: WebAssistStage },
    ApprovalRequested { project_id: u128, approval_id: u128, stage: WebAssistStage },
    ApprovalResponded { project_id: u128, approval_id: u128, status: ApprovalStatus },
    TaskStarted { project_id: u128, task_id: u128, stage: WebAssistStage },
    TaskCompleted { project_id: u128, task_id: u128, stage: WebAssistStage },
    SyncStatusChanged { project_id: u128, old_status: SyncStatus, new_status: SyncStatus },
}

/// What a watcher has last seen of a project.
#[derive(Clone, Copy, Debug, PartialEq, Eq)]
pub struct Observed {
    pub stage: WebAssistStage,
    pub sync_status: SyncStatus,
}

/// What a watcher does after a look at its project.
#[derive(Clone, Debug, PartialEq, Eq)]
pub enum WatchStep {
    /// The project is there: `events` are to be told, and `observed` is what
    /// the next look compares with.
    Continue { observed: Observed, events: Vec<WebAssistEvent> },
    /// The project is gone: the watcher ends.
    Stop,
}

/// The changes between two looks at a project: of its stage first, then of
/// its sync status. The first look tells nothing.
pub open spec fn spec_changes(project_id: u128, last: Option<Observed>, current: Observed) -> Seq<
    WebAssistEvent,
> {
    match last {
        None => Seq::empty(),
        Some(seen) => {
            let stage_events = if seen.stage != current.stage {
                seq![
                    WebAssistEvent::StageChanged {
                        project_id,
                        old_stage: seen.stage,
                        new_stage: current.stage,
                    },
                ]
            } else {
                Seq::empty()
            };
            if seen.sync_status != current.sync_status {
                stage_events.push(
                    WebAssistEvent::SyncStatusChanged {
                        project_id,
                        old_status: seen.sync_status,
                        new_status: current.sync_status,
                    },
                )
            } else {
                stage_events
            }
        },
    }
}

/// One look of a watcher at its project. The watcher only reads: it gets
/// the project as the store holds it, compares it with what it saw last,
/// and ends when the project is gone.
pub fn project_events(
    webassist_project_id: u128,
    last: Option<Observed>,
    current: Option<WebAssistProject>,
) -> (step: WatchStep)
    ensures
        match current {
            None => step == WatchStep::Stop,
            Some(project) => step matches WatchStep::Continue { observed, events } && observed
                == (Observed { stage: project.current_stage, sync_status: project.sync_status })
                && events@ == spec_changes(webassist_project_id, last, observed),
        },
{
    let project = match current {
        Some(project) => project,
        None => {
            return WatchStep::Stop;
        },
    };
    let observed = Observed { stage: project.current_stage, sync_status: project.sync_status };
    let mut events: Vec<WebAssistEvent> = Vec::new();
    match last {
        Some(seen) => {
            if seen.stage != observed.stage {
                events.push(
                    WebAssistEvent::StageChanged {
                        project_id: webassist_project_id,
                        old_stage: seen.stage,
                        new_stage: observed.stage,
                    },
                );
            }
            if seen.sync_status != observed.sync_status {
                events.push(
                    WebAssistEvent::SyncStatusChanged {
                        project_id: webassist_project_id,
                        old_status: seen.sync_status,
                        new_status: observed.sync_status,
                    },
                );
            }
        },
        None => {},
    }
    assert(events@ =~= spec_changes(webassist_project_id, last, observed));
    WatchStep::Continue { observed, events }
}

/// One line of the list of projects.
#[derive(Clone, Copy, Debug, PartialEq, Eq)]
pub struct WebAssistProjectSummary {
    pub id: u128,
    pub webassist_project_id: u128,
    pub otto_project_id: u128,
    pub current_stage: WebAssistStage,
    pub sync_status: SyncStatus,
    pub pending_approvals_count: usize,
    pub created_at: i64,
    pub updated_at: i64,
}

/// The line that stands for a project row.
pub open spec fn spec_summary(store: StoreView, project: WebAssistProject) -> WebAssistProjectSummary {
    WebAssistProjectSummary {
        id: project.id,
        webassist_project_id: project.webassist_project_id,
        otto_project_id: project.otto_project_id,
        current_stage: project.current_stage,
        sync_status: project.sync_status,
        pending_approvals_count: spec_count_pending(
            store.approvals,
            project.id,
            store.approvals.len(),
        ) as usize,
        created_at: project.created_at,
        updated_at: project.updated_at,
    }
}

/// All projects, each with the number of its approvals that wait.
pub fn list_projects(store: &LocalStore) -> (summaries: Vec<WebAssistProjectSummary>)
    ensures
        summaries@.len() == store@.projects.len(),
        forall|i: int|
            0 <= i < summaries@.len() ==> #[trigger] summaries@[i] == spec_summary(
                store@,
                store@.projects[i],
            ),
{
    let rows = store.projects();
    let mut summaries: Vec<WebAssistProjectSummary> = Vec::new();
    let mut i: usize = 0;
    while i < rows.len()
        invariant
            i <= rows.len(),
            rows@ == store@.projects,
            summaries@.len() == i,
            forall|k: int|
                0 <= k < i ==> #[trigger] summaries@[k] == spec_summary(store@, store@.projects[k]),
        decreases rows.len() - i,
    {
        let project = rows[i];
        summaries.push(
            WebAssistProjectSummary {
                id: project.id,
                webassist_project_id: project.webassist_project_id,
                otto_project_id: project.otto_project_id,
                current_stage: project.current_stage,
                sync_status: project.sync_status,
                pending_approvals_count: store.count_pending_approvals(project.id),
                created_at: project.created_at,
                updated_at: project.updated_at,
            },
        );
        i = i + 1;
    }
    summaries
}

/// The store after a manual resynchronisation of a project: the project is
/// marked active again.
pub open spec fn spec_manual_sync(store: StoreView, webassist_project_id: u128, now: i64) -> (
    StoreView,
    Result<(), ErrorView>,
) {
    match store.project_by_remote(webassist_project_id) {
        None => (store, Err(ErrorView::NotFound(Missing::Project))),
        Some(project) => (store.set_sync_status(project.id, SyncStatus::Active, now), Ok(())),
    }
}

/// Marks a project as active again, on the team's request.
pub fn manual_sync(store: &mut LocalStore, webassist_project_id: u128, now: i64) -> (done: Result<
    (),
    WebAssistError,
>)
    requires
        old(store)@.wf(),
    ensures
        final(store)@.wf(),
        (final(store)@, view_result(done)) == spec_manual_sync(
            old(store)@,
            webassist_project_id,
            now,
        ),
{
    match store.project_by_remote_id(webassist_project_id) {
        Some(project) => {
            store.set_sync_status(project.id, SyncStatus::Active, now);
            Ok(())
        },
        None => Err(WebAssistError::NotFound(Missing::Project)),
    }
}

/// The store after the team has submitted a decision on an approval, and
/// the requests that tell the remote backend. The approval and its project
/// must exist, and the approval must still wait; the decision is then
/// handled as a client's answer is.
pub open spec fn spec_submit_approval(
    client: SupabaseConfigView,
    store: StoreView,
    approval_id: u128,
    status: ApprovalStatus,
    feedback: Option<Seq<char>>,
    now: i64,
) -> (StoreView, Result<Seq<RemoteRequestView>, ErrorView>) {
    match store.approval_by_id(approval_id) {
        None => (store, Err(ErrorView::NotFound(Missing::Approval))),
        Some(approval) => if approval.status != ApprovalStatus::Pending {
            (store, Err(ErrorView::Conflict))
        } else {
            match store.project_index(approval.web_assist_project_id) {
                None => (store, Err(ErrorView::NotFound(Missing::Project))),
                Some(i) => spec_handle_approval_response(
                    client,
                    store,
                    store.projects[i].webassist_project_id,
                    approval_id,
                    status,
                    feedback,
                    now,
                ),
            }
        },
    }
}

/// Takes a decision on an approval that the team submits from its own side.
pub fn submit_approval(
    manager: &ProjectManager,
    store: &mut LocalStore,
    approval_id: u128,
    decision: ApprovalDecision,
    now: i64,
) -> (calls: Result<Vec<RemoteRequest>, WebAssistError>)
    requires
        old(store)@.wf(),
    ensures
        final(store)@.wf(),
        (final(store)@, view_result(calls)) == spec_submit_approval(
            manager.client(),
            old(store)@,
            approval_id,
            decision.status,
            decision.feedback.deep_view(),
            now,
        ),
{
    let (status, row_id) = match store.approval_by_id(approval_id) {
        Some(approval) => (approval.status, approval.web_assist_project_id),
        None => {
            return Err(WebAssistError::NotFound(Missing::Approval));
        },
    };
    if status != ApprovalStatus::Pending {
        return Err(WebAssistError::Conflict);
    }
    let project = match store.project_by_id(row_id) {
        Some(project) => project,
        None => {
            return Err(WebAssistError::NotFound(Missing::Project));
        },
    };
    manager.handle_approval_response(
        store,
        project.webassist_project_id,
        approval_id,
        decision.status,
        decision.feedback,
        now,
    )
}

/// How the task of one stage of a project stands.
#[derive(Clone, Copy, Debug, PartialEq, Eq)]
pub struct TaskStatus {
    pub stage: WebAssistStage,
    pub task_id: u128,
    pub status: crate::task::TaskStatus,
    pub progress: Option<i32>,
    pub started_at: Option<i64>,
    pub completed_at: Option<i64>,
}

/// How a project stands: its stage, its sync status and its tasks.
#[derive(Clone, Debug, PartialEq, Eq)]
pub struct WebAssistProjectStatus {
    pub otto_project_id: u128,
    pub webassist_project_id: u128,
    pub current_stage: WebAssistStage,
    pub sync_status: SyncStatus,
    pub tasks: Vec<TaskStatus>,
}

/// How the task of a stage stands: begun when it was created, completed
/// when it was last changed if it is done.
pub open spec fn spec_task_status(stage: WebAssistStage, task: crate::task::TaskView) -> TaskStatus {
    TaskStatus {
        stage,
        task_id: task.id,
        status: task.status,
        progress: None,
        started_at: Some(task.created_at),
        completed_at: if task.status == crate::task::TaskStatus::Done {
            Some(task.updated_at)
        } else {
            None
        },
    }
}

/// The tasks of the first `n` stages that the store holds, in the order of
/// the stages.
pub open spec fn spec_task_statuses(store: StoreView, mapping: Seq<u128>, n: nat) -> Seq<TaskStatus>
    decreases n,
{
    if n == 0 {
        Seq::empty()
    } else {
        let before = spec_task_statuses(store, mapping, (n - 1) as nat);
        match store.task_by_id(mapping[n - 1]) {
            Some(task) => before.push(spec_task_status(stage_sequence()[n - 1], task)),
            None => before,
        }
    }
}

/// How a project stands, with the tasks of its stages in the order of the
/// stages. A task that the store does not hold is left out.
pub fn get_project_status(store: &LocalStore, webassist_project_id: u128) -> (status: Result<
    WebAssistProjectStatus,
    WebAssistError,
>)
    ensures
        match store@.project_by_remote(webassist_project_id) {
            None => status matches Err(e) && e@ == ErrorView::NotFound(Missing::Project),
            Some(project) => status matches Ok(report) && report.otto_project_id
                == project.otto_project_id && report.webassist_project_id
                == project.webassist_project_id && report.current_stage == project.current_stage
                && report.sync_status == project.sync_status && report.tasks@
                == spec_task_statuses(store@, project.stage_task_mapping@, STAGE_COUNT as nat),
        },
{
    let project = match store.project_by_remote_id(webassist_project_id) {
        Some(project) => project,
        None => {
            return Err(WebAssistError::NotFound(Missing::Project));
        },
    };
    let stages = WebAssistStage::all_stages();
    let mut tasks: Vec<TaskStatus> = Vec::new();
    let mut i: usize = 0;
    while i < STAGE_COUNT
        invariant
            i <= STAGE_COUNT,
            stages@ == stage_sequence(),
            tasks@ == spec_task_statuses(store@, project.stage_task_mapping@, i as nat),
        decreases STAGE_COUNT - i,
    {
        let stage = stages[i];
        let task_id = project.stage_task_mapping.task_for(stage);
        match store.task_by_id(task_id) {
            Some(task) => {
                let completed_at = if task.status == crate::task::TaskStatus::Done {
                    Some(task.updated_at)
                } else {
                    None
                };
                tasks.push(
                    TaskStatus {
                        stage,
                        task_id: task.id,
                        status: task.status,
                        progress: None,
                        started_at: Some(task.created_at),
                        completed_at,
                    },
                );
            },
            None => {},
        }
        i = i + 1;
    }
    Ok(
        WebAssistProjectStatus {
            otto_project_id: project.otto_project_id,
            webassist_project_id: project.webassist_project_id,
            current_stage: project.current_stage,
            sync_status: project.sync_status,
            tasks,
        },
    )
}

} // verus!
