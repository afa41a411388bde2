//! Mirrors the progress of tasks and projects to the remote backend whenever
//! a unit of local execution ends.

use vstd::prelude::*;

use crate::models::{StageTaskMapping, WebAssistStage, STAGE_COUNT};
use crate::store::{LocalStore, StoreView};
use crate::supabase_client::{
    RemoteRequest, RemoteRequestView, RemoteTaskStatus, SupabaseClient, SupabaseConfigView,
};
use crate::task::TaskStatus;

verus! {

/// How a unit of local execution stands.
#[derive(Clone, Copy, Debug, PartialEq, Eq, Structural)]
pub enum ExecutionProcessStatus {
    Running,
    Completed,
    Failed,
    Killed,
}

/// A unit of local execution: the task it ran for, the local project that
/// owns the task, and how it stands.
#[derive(Clone, Copy, Debug, PartialEq, Eq)]
pub struct ExecutionContext {
    pub task_id: u128,
    pub project_id: u128,
    pub status: ExecutionProcessStatus,
}

/// The status and progress that the remote backend is told for a unit of
/// execution. A failed or killed unit is told as in progress at 0: the
/// remote side has no state for failure.
pub open spec fn spec_remote_progress(status: ExecutionProcessStatus) -> (RemoteTaskStatus, i32) {
    match status {
        ExecutionProcessStatus::Running => (RemoteTaskStatus::InProgress, 50),
        ExecutionProcessStatus::Completed => (RemoteTaskStatus::Done, 100),
        ExecutionProcessStatus::Failed => (RemoteTaskStatus::InProgress, 0),
        ExecutionProcessStatus::Killed => (RemoteTaskStatus::InProgress, 0),
    }
}

/// The status and progress that the remote backend is told for a unit of
/// execution.
pub fn remote_progress(status: ExecutionProcessStatus) -> (told: (RemoteTaskStatus, i32))
    ensures
        told == spec_remote_progress(status),
{
    match status {
        ExecutionProcessStatus::Running => (RemoteTaskStatus::InProgress, 50),
        ExecutionProcessStatus::Completed => (RemoteTaskStatus::Done, 100),
        ExecutionProcessStatus::Failed | ExecutionProcessStatus::Killed => (
            RemoteTaskStatus::InProgress,
            0,
        ),
    }
}

/// True where the store holds the task and the task is done.
pub open spec fn task_is_done(store: StoreView, task_id: u128) -> bool {
    store.task_by_id(task_id) matches Some(task) && task.status == TaskStatus::Done
}

/// Number of the first `n` entries of a mapping whose task is done.
pub open spec fn spec_count_done(store: StoreView, mapping: Seq<u128>, n: nat) -> nat
    decreases n,
{
    if n == 0 {
        0
    } else {
        spec_count_done(store, mapping, (n - 1) as nat) + if task_is_done(
            store,
            mapping[n - 1],
        ) {
            1nat
        } else {
            0nat
        }
    }
}

/// Overall progress of a project in percent: the share of its tasks that are
/// done, rounded down.
pub open spec fn spec_aggregate_progress(completed: int) -> int {
    completed * 100 / (STAGE_COUNT as int)
}

/// Overall progress of a project of which `completed` tasks are done.
pub fn aggregate_progress(completed: usize) -> (progress: i32)
    requires
        completed <= STAGE_COUNT,
    ensures
        progress == spec_aggregate_progress(completed as int),
        0 <= progress <= 100,
{
    let percent: usize = completed * 100 / STAGE_COUNT;
    percent as i32
}

/// What became of the end of a unit of execution.
#[derive(Clone, Debug, PartialEq, Eq)]
pub enum SyncOutcome {
    /// The task's project is none of this workflow.
    NotTracked,
    /// The project's mapping does not hold the task.
    UnmappedTask,
    /// Two requests go out, each on its own: the progress of the task and
    /// the overall progress of the project.
    Synced {
        stage: WebAssistStage,
        status: RemoteTaskStatus,
        progress: i32,
        overall_progress: i32,
        task_update: RemoteRequest,
        project_update: RemoteRequest,
    },
}

/// `SyncOutcome` by the plain values that it holds.
pub enum SyncOutcomeView {
    NotTracked,
    UnmappedTask,
    Synced {
        stage: WebAssistStage,
        status: RemoteTaskStatus,
        progress: i32,
        overall_progress: i32,
        task_update: RemoteRequestView,
        project_update: RemoteRequestView,
    },
}

impl View for SyncOutcome {
    type V = SyncOutcomeView;

    open spec fn view(&self) -> SyncOutcomeView {
        match self {
            SyncOutcome::NotTracked => SyncOutcomeView::NotTracked,
            SyncOutcome::UnmappedTask => SyncOutcomeView::UnmappedTask,
            SyncOutcome::Synced {
                stage,
                status,
                progress,
                overall_progress,
                task_update,
                project_update,
            } => SyncOutcomeView::Synced {
                stage: *stage,
                status: *status,
                progress: *progress,
                overall_progress: *overall_progress,
                task_update: task_update@,
                project_update: project_update@,
            },
        }
    }
}

/// What the end of a unit of execution leads to.
pub open spec fn spec_on_execution_completed(
    client: SupabaseConfigView,
    store: StoreView,
    ctx: ExecutionContext,
    now: i64,
) -> SyncOutcomeView {
    match store.project_by_local(ctx.project_id) {
        None => SyncOutcomeView::NotTracked,
        Some(project) => match project.stage_task_mapping.spec_stage_of(ctx.task_id) {
            None => SyncOutcomeView::UnmappedTask,
            Some(stage) => {
                let told = spec_remote_progress(ctx.status);
                let overall = spec_aggregate_progress(
                    spec_count_done(store, project.stage_task_mapping@, STAGE_COUNT as nat) as int,
                ) as i32;
                SyncOutcomeView::Synced {
                    stage,
                    status: told.0,
                    progress: told.1,
                    overall_progress: overall,
                    task_update: client.update_otto_coder_task(ctx.task_id, told.1, told.0, now),
                    project_update: client.update_otto_coder_project(
                        project.otto_project_id,
                        project.current_stage.spec_name(),
                        overall,
                    ),
                }
            },
        },
    }
}

/// No more tasks are done than there are entries.
pub proof fn count_done_is_bounded(store: StoreView, mapping: Seq<u128>, n: nat)
    ensures
        spec_count_done(store, mapping, n) <= n,
    decreases n,
{
    if n > 0 {
        count_done_is_bounded(store, mapping, (n - 1) as nat);
    }
}

/// The overall progress that is told is the share of done tasks. For a
/// task of a tracked project, with `k` of the project's nine tasks done,
/// the project is told at `k * 100 / 9` percent, rounded down: at 0 with
/// none done, at 100 with all nine done and only then.
pub proof fn progress_is_share_of_done_tasks(
    client: SupabaseConfigView,
    store: StoreView,
    ctx: ExecutionContext,
    now: i64,
)
    requires
        store.project_by_local(ctx.project_id) matches Some(project)
            && project.stage_task_mapping.spec_stage_of(ctx.task_id).is_some(),
    ensures
        ({
            let project = store.project_by_local(ctx.project_id).unwrap();
            let k = spec_count_done(store, project.stage_task_mapping@, STAGE_COUNT as nat);
            &&& k <= STAGE_COUNT
            &&& spec_on_execution_completed(client, store, ctx, now) matches SyncOutcomeView::Synced {
                overall_progress,
                ..
            } && overall_progress == k * 100 / 9 && 0 <= overall_progress <= 100 && (
            overall_progress == 100 <==> k == 9) && (k == 0 ==> overall_progress == 0)
        }),
{
    let project = store.project_by_local(ctx.project_id).unwrap();
    count_done_is_bounded(store, project.stage_task_mapping@, STAGE_COUNT as nat);
}

/// Keeps the remote backend's view of tasks and projects up to date.
pub struct TaskSyncService {
    supabase_client: SupabaseClient,
}

impl TaskSyncService {
    /// How the remote backend is reached.
    pub closed spec fn client(&self) -> SupabaseConfigView {
        self.supabase_client@
    }

    /// A service that builds its requests with this client.
    pub fn new(supabase_client: SupabaseClient) -> (service: TaskSyncService)
        ensures
            service.client() == supabase_client@,
    {
        TaskSyncService { supabase_client }
    }

    /// Number of tasks of a project that are done.
    pub fn count_completed_tasks(store: &LocalStore, mapping: &StageTaskMapping) -> (count: usize)
        ensures
            count == spec_count_done(store@, mapping@, STAGE_COUNT as nat),
            count <= STAGE_COUNT,
    {
        let stages = WebAssistStage::all_stages();
        let mut count: usize = 0;
        let mut i: usize = 0;
        while i < STAGE_COUNT
            invariant
                i <= STAGE_COUNT,
                stages@ == crate::models::stage_sequence(),
                count == spec_count_done(store@, mapping@, i as nat),
                count <= i,
            decreases STAGE_COUNT - i,
        {
            let stage = stages[i];
            let task_id = mapping.task_for(stage);
            assert(task_id == mapping@[i as int]);
            let done = match store.task_by_id(task_id) {
                Some(task) => task.status == TaskStatus::Done,
                None => false,
            };
            assert(done == task_is_done(store@, task_id));
            if done {
                count = count + 1;
            }
            i = i + 1;
        }
        count
    }

    /// Reacts to the end of a unit of execution. Nothing happens for a task
    /// of a project that this workflow does not track, nor for a task that
    /// the project's mapping does not hold. Otherwise the progress of the
    /// task and the overall progress of the project are each to be sent.
    pub fn on_execution_completed(&self, store: &LocalStore, ctx: &ExecutionContext, now: i64) -> (
        outcome: SyncOutcome)
        ensures
            outcome@ == spec_on_execution_completed(self.client(), store@, *ctx, now),
    {
        let project = match store.project_by_local_id(ctx.project_id) {
            Some(project) => project,
            None => {
                return SyncOutcome::NotTracked;
            },
        };
        let stage = match project.stage_task_mapping.stage_of(ctx.task_id) {
            Some(stage) => stage,
            None => {
                return SyncOutcome::UnmappedTask;
            },
        };
        let (status, progress) = remote_progress(ctx.status);
        let task_update = self.supabase_client.update_otto_coder_task(
            ctx.task_id,
            progress,
            status,
            now,
        );
        let completed = Self::count_completed_tasks(store, &project.stage_task_mapping);
        let overall_progress = aggregate_progress(completed);
        let project_update = self.supabase_client.update_otto_coder_project(
            project.otto_project_id,
            project.current_stage.as_str(),
            overall_progress,
        );
        SyncOutcome::Synced { stage, status, progress, overall_progress, task_update, project_update }
    }
}

} // verus!
