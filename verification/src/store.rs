//! The local store: the projects, approvals and tasks that the workflow
//! keeps, and the rules that every change of them obeys. The store is the
//! authority on stage and approval state; the remote backend only mirrors it.

use vstd::prelude::*;

use crate::encoding::fresh_id;
use crate::models::{
    ApprovalStatus, ApprovalView, Deliverable, DeliverableView, StageTaskMapping, SyncStatus,
    WebAssistApproval, WebAssistProject, WebAssistStage,
};
use crate::task::{CreateTask, Task, TaskStatus, TaskView};

verus! {

/// Why the store refused a change.
#[derive(Clone, Copy, Debug, PartialEq, Eq, Structural)]
pub enum StoreError {
    /// A row with this identifier exists already.
    DuplicateId,
    /// The project's stage has an approval that still waits.
    PendingExists,
    /// No row has this identifier.
    NotFound,
    /// The approval has a response already.
    AlreadyResponded,
}

/// The rows of the workflow. They change only through the functions of this module, which keep the rules of `StoreView::wf`.
pub struct LocalStore {
    projects: Vec<WebAssistProject>,
    approvals: Vec<WebAssistApproval>,
    tasks: Vec<Task>,
}

/// The store as plain sequences of rows, each in the order of insertion.
pub struct StoreView {
    pub projects: Seq<WebAssistProject>,
    pub approvals: Seq<ApprovalView>,
    pub tasks: Seq<TaskView>,
}

impl View for LocalStore {
    type V = StoreView;

    closed spec fn view(&self) -> StoreView {
        StoreView {
            projects: self.projects@,
            approvals: self.approvals.deep_view(),
            tasks: self.tasks.deep_view(),
        }
    }
}

/// True where `stage` lies after `current` in the workflow order.
pub open spec fn is_ahead(stage: WebAssistStage, current: WebAssistStage) -> bool {
    stage.spec_index() > current.spec_index()
}

impl StoreView {
    /// The identifiers of the project rows, in the order of the rows.
    pub open spec fn project_ids(self) -> Seq<u128> {
        Seq::new(self.projects.len(), |i: int| self.projects[i].id)
    }

    /// The remote backend's identifiers of the projects, in the order of the rows.
    pub open spec fn project_remote_ids(self) -> Seq<u128> {
        Seq::new(self.projects.len(), |i: int| self.projects[i].webassist_project_id)
    }

    /// The local projects' identifiers, in the order of the rows.
    pub open spec fn project_local_ids(self) -> Seq<u128> {
        Seq::new(self.projects.len(), |i: int| self.projects[i].otto_project_id)
    }

    /// The identifiers of the approvals, in the order of the rows.
    pub open spec fn approval_ids(self) -> Seq<u128> {
        Seq::new(self.approvals.len(), |i: int| self.approvals[i].id)
    }

    /// The remote backend's identifiers of the approvals, in the order of the rows.
    pub open spec fn approval_remote_ids(self) -> Seq<Option<u128>> {
        Seq::new(self.approvals.len(), |i: int| self.approvals[i].approval_id)
    }

    /// The identifiers of the tasks, in the order of the rows.
    pub open spec fn task_ids(self) -> Seq<u128> {
        Seq::new(self.tasks.len(), |i: int| self.tasks[i].id)
    }

    /// The rules of the store: no identifier is used twice within a table,
    /// an approval without a response is pending, and a stage of a project
    /// has at most one pending approval.
    pub open spec fn wf(self) -> bool {
        &&& self.project_ids().no_duplicates()
        &&& self.approval_ids().no_duplicates()
        &&& self.task_ids().no_duplicates()
        &&& forall|i: int|
            0 <= i < self.approvals.len() && (#[trigger] self.approvals[i]).responded_at.is_none()
                ==> self.approvals[i].status == ApprovalStatus::Pending
        &&& forall|i: int, j: int|
            0 <= i < self.approvals.len() && 0 <= j < self.approvals.len() && (
            #[trigger] self.approvals[i]).status == ApprovalStatus::Pending && (
            #[trigger] self.approvals[j]).status == ApprovalStatus::Pending
                && self.approvals[i].web_assist_project_id == self.approvals[j].web_assist_project_id
                && self.approvals[i].stage_name == self.approvals[j].stage_name ==> i == j
    }

    /// Position of the project row with this identifier.
    pub open spec fn project_index(self, id: u128) -> Option<int> {
        self.project_ids().index_of_first(id)
    }

    /// The first project that stands for this project of the remote backend.
    pub open spec fn project_by_remote(self, remote_id: u128) -> Option<WebAssistProject> {
        match self.project_remote_ids().index_of_first(remote_id) {
            Some(i) => Some(self.projects[i]),
            None => None,
        }
    }

    /// The first project that stands for this local project.
    pub open spec fn project_by_local(self, local_id: u128) -> Option<WebAssistProject> {
        match self.project_local_ids().index_of_first(local_id) {
            Some(i) => Some(self.projects[i]),
            None => None,
        }
    }

    /// Position of the approval with this identifier.
    pub open spec fn approval_index(self, id: u128) -> Option<int> {
        self.approval_ids().index_of_first(id)
    }

    /// The approval with this identifier.
    pub open spec fn approval_by_id(self, id: u128) -> Option<ApprovalView> {
        match self.approval_index(id) {
            Some(i) => Some(self.approvals[i]),
            None => None,
        }
    }

    /// Position of the first approval bound to this identifier of the remote
    /// backend.
    pub open spec fn approval_index_by_remote(self, remote_id: u128) -> Option<int> {
        self.approval_remote_ids().index_of_first(Some(remote_id))
    }

    /// True where this stage of this project has an approval that waits.
    pub open spec fn has_pending(self, project_id: u128, stage: WebAssistStage) -> bool {
        exists|i: int|
            0 <= i < self.approvals.len() && (#[trigger] self.approvals[i]).is_pending_for(
                project_id,
                stage,
            )
    }

    /// True where exactly one approval waits for this stage of this project.
    pub open spec fn has_exactly_one_pending(self, project_id: u128, stage: WebAssistStage) -> bool {
        exists|i: int|
            0 <= i < self.approvals.len() && (#[trigger] self.approvals[i]).is_pending_for(
                project_id,
                stage,
            ) && forall|j: int|
                0 <= j < self.approvals.len() && (#[trigger] self.approvals[j]).is_pending_for(
                    project_id,
                    stage,
                ) ==> j == i
    }

    /// Position of the task with this identifier.
    pub open spec fn task_index(self, id: u128) -> Option<int> {
        self.task_ids().index_of_first(id)
    }

    /// The task with this identifier.
    pub open spec fn task_by_id(self, id: u128) -> Option<TaskView> {
        match self.task_index(id) {
            Some(i) => Some(self.tasks[i]),
            None => None,
        }
    }

    /// The store with one more project row.
    pub open spec fn with_project(self, project: WebAssistProject) -> StoreView {
        StoreView { projects: self.projects.push(project), ..self }
    }

    /// The store with one more approval.
    pub open spec fn with_approval(self, approval: ApprovalView) -> StoreView {
        StoreView { approvals: self.approvals.push(approval), ..self }
    }

    /// The store with one more task.
    pub open spec fn with_task(self, task: TaskView) -> StoreView {
        StoreView { tasks: self.tasks.push(task), ..self }
    }

    /// The store after the project row `id` has moved to `stage`. The row
    /// moves only forward: where `stage` is not ahead of the row's stage, or
    /// no row has this identifier, nothing changes.
    pub open spec fn advance_project(self, id: u128, stage: WebAssistStage, now: i64) -> StoreView {
        match self.project_index(id) {
            Some(i) => if is_ahead(stage, self.projects[i].current_stage) {
                StoreView {
                    projects: self.projects.update(
                        i,
                        WebAssistProject { current_stage: stage, updated_at: now, ..self.projects[i] },
                    ),
                    ..self
                }
            } else {
                self
            },
            None => self,
        }
    }

    /// The store after the project row `id` has taken a new sync status.
    pub open spec fn set_sync_status(self, id: u128, status: SyncStatus, now: i64) -> StoreView {
        match self.project_index(id) {
            Some(i) => StoreView {
                projects: self.projects.update(
                    i,
                    WebAssistProject {
                        sync_status: status,
                        last_synced_at: Some(now),
                        updated_at: now,
                        ..self.projects[i]
                    },
                ),
                ..self
            },
            None => self,
        }
    }

    /// The store after a response to the approval `id` has been recorded.
    /// Nothing changes where the approval is missing or has a response.
    pub open spec fn respond(
        self,
        id: u128,
        status: ApprovalStatus,
        feedback: Option<Seq<char>>,
        now: i64,
    ) -> StoreView {
        match self.approval_index(id) {
            Some(i) => if self.approvals[i].is_terminal() {
                self
            } else {
                StoreView {
                    approvals: self.approvals.update(
                        i,
                        self.approvals[i].responded(status, feedback, now),
                    ),
                    ..self
                }
            },
            None => self,
        }
    }

    /// The store after the approval `id` has been bound to its counterpart in
    /// the remote backend.
    pub open spec fn bind_remote(self, id: u128, remote_id: u128) -> StoreView {
        match self.approval_index(id) {
            Some(i) => StoreView {
                approvals: self.approvals.update(
                    i,
                    ApprovalView { approval_id: Some(remote_id), ..self.approvals[i] },
                ),
                ..self
            },
            None => self,
        }
    }

    /// The store after the task `id` has taken a new status.
    pub open spec fn set_task_status(self, id: u128, status: TaskStatus, now: i64) -> StoreView {
        match self.task_index(id) {
            Some(i) => StoreView {
                tasks: self.tasks.update(i, TaskView { status, updated_at: now, ..self.tasks[i] }),
                ..self
            },
            None => self,
        }
    }
}

/// Number of the first `n` approvals that wait for this project.
pub open spec fn spec_count_pending(approvals: Seq<ApprovalView>, project_id: u128, n: nat) -> nat
    decreases n,
{
    if n == 0 {
        0
    } else {
        spec_count_pending(approvals, project_id, (n - 1) as nat) + if approvals[n
            - 1].web_assist_project_id == project_id && approvals[n - 1].status
            == ApprovalStatus::Pending {
            1nat
        } else {
            0nat
        }
    }
}

/// What a change of the store never undoes: every project row stays in its
/// place with its identifiers and its mapping, and its stage does not move
/// backward.
pub open spec fn history_respected(before: StoreView, after: StoreView) -> bool {
    &&& before.projects.len() <= after.projects.len()
    &&& forall|i: int|
        0 <= i < before.projects.len() ==> {
            &&& (#[trigger] after.projects[i]).id == before.projects[i].id
            &&& after.projects[i].webassist_project_id == before.projects[i].webassist_project_id
            &&& after.projects[i].otto_project_id == before.projects[i].otto_project_id
            &&& after.projects[i].stage_task_mapping == before.projects[i].stage_task_mapping
            &&& after.projects[i].current_stage.spec_index()
                >= before.projects[i].current_stage.spec_index()
        }
}

impl StoreView {
    /// A pending approval with an unused identifier, for a stage of a
    /// project on which none waits, keeps the rules of the store.
    pub proof fn with_approval_keeps_rules(self, approval: ApprovalView)
        requires
            self.wf(),
            approval.status == ApprovalStatus::Pending,
            self.approval_index(approval.id).is_none(),
            !self.has_pending(approval.web_assist_project_id, approval.stage_name),
        ensures
            self.with_approval(approval).wf(),
            self.with_approval(approval).has_pending(
                approval.web_assist_project_id,
                approval.stage_name,
            ),
            self.with_approval(approval).projects == self.projects,
            self.with_approval(approval).tasks == self.tasks,
    {
        let after = self.with_approval(approval);
        self.approval_ids().index_of_first_ensures(approval.id);
        assert(after.approval_ids() =~= self.approval_ids().push(approval.id));
        assert(after.project_ids() =~= self.project_ids());
        assert(after.task_ids() =~= self.task_ids());
        assert forall|i: int, j: int|
            0 <= i < after.approvals.len() && 0 <= j < after.approvals.len() && (
            #[trigger] after.approvals[i]).status == ApprovalStatus::Pending && (
            #[trigger] after.approvals[j]).status == ApprovalStatus::Pending
                && after.approvals[i].web_assist_project_id
                == after.approvals[j].web_assist_project_id && after.approvals[i].stage_name
                == after.approvals[j].stage_name implies i == j by {
            if i < self.approvals.len() && j == self.approvals.len() {
                assert(self.approvals[i].is_pending_for(
                    approval.web_assist_project_id,
                    approval.stage_name,
                ));
            }
            if j < self.approvals.len() && i == self.approvals.len() {
                assert(self.approvals[j].is_pending_for(
                    approval.web_assist_project_id,
                    approval.stage_name,
                ));
            }
        }
        assert(after.approvals[self.approvals.len() as int].is_pending_for(
            approval.web_assist_project_id,
            approval.stage_name,
        ));
    }

    /// Under the rules of the store, a stage on which an approval waits has
    /// exactly one such approval.
    pub proof fn pending_is_single(self, project_id: u128, stage: WebAssistStage)
        requires
            self.wf(),
            self.has_pending(project_id, stage),
        ensures
            self.has_exactly_one_pending(project_id, stage),
    {
        let i = choose|i: int|
            0 <= i < self.approvals.len() && (#[trigger] self.approvals[i]).is_pending_for(
                project_id,
                stage,
            );
        assert forall|j: int|
            0 <= j < self.approvals.len() && (#[trigger] self.approvals[j]).is_pending_for(
                project_id,
                stage,
            ) implies j == i by {}
    }

    /// A recorded response keeps the rules of the store, leaves the projects
    /// and tasks alone, and leaves the approval with a response.
    pub proof fn respond_keeps_rules(
        self,
        id: u128,
        status: ApprovalStatus,
        feedback: Option<Seq<char>>,
        now: i64,
    )
        requires
            self.wf(),
        ensures
            self.respond(id, status, feedback, now).wf(),
            self.respond(id, status, feedback, now).projects == self.projects,
            self.respond(id, status, feedback, now).tasks == self.tasks,
            self.respond(id, status, feedback, now).approval_ids() == self.approval_ids(),
            self.approval_by_id(id).is_some() ==> (self.respond(
                id,
                status,
                feedback,
                now,
            ).approval_by_id(id) matches Some(a) && a.is_terminal()),
    {
        let after = self.respond(id, status, feedback, now);
        self.approval_ids().index_of_first_ensures(id);
        assert(after.approval_ids() =~= self.approval_ids());
        assert(after.project_ids() =~= self.project_ids());
        assert(after.task_ids() =~= self.task_ids());
        match self.approval_index(id) {
            Some(i) => {
                if !self.approvals[i].is_terminal() {
                    assert(self.approvals[i].status == ApprovalStatus::Pending);
                    assert(after.approvals[i].is_terminal());
                }
            },
            None => {},
        }
    }

    /// A move of a project keeps the rules of the store and the history of
    /// its projects, and leaves the approvals and tasks alone.
    pub proof fn advance_keeps_rules(self, id: u128, stage: WebAssistStage, now: i64)
        requires
            self.wf(),
        ensures
            self.advance_project(id, stage, now).wf(),
            history_respected(self, self.advance_project(id, stage, now)),
            self.advance_project(id, stage, now).approvals == self.approvals,
            self.advance_project(id, stage, now).tasks == self.tasks,
            self.advance_project(id, stage, now).project_ids() == self.project_ids(),
            self.advance_project(id, stage, now).project_remote_ids() == self.project_remote_ids(),
            self.advance_project(id, stage, now).project_local_ids() == self.project_local_ids(),
    {
        let after = self.advance_project(id, stage, now);
        self.project_ids().index_of_first_ensures(id);
        assert(after.project_ids() =~= self.project_ids());
        assert(after.project_remote_ids() =~= self.project_remote_ids());
        assert(after.project_local_ids() =~= self.project_local_ids());
        assert(after.approval_ids() =~= self.approval_ids());
        assert(after.task_ids() =~= self.task_ids());
    }

    /// A change of a project's sync status keeps the rules of the store and
    /// the history of its projects, and leaves the approvals and tasks alone.
    pub proof fn set_sync_status_keeps_rules(self, id: u128, status: SyncStatus, now: i64)
        requires
            self.wf(),
        ensures
            self.set_sync_status(id, status, now).wf(),
            history_respected(self, self.set_sync_status(id, status, now)),
            self.set_sync_status(id, status, now).approvals == self.approvals,
            self.set_sync_status(id, status, now).tasks == self.tasks,
            self.set_sync_status(id, status, now).project_ids() == self.project_ids(),
            self.set_sync_status(id, status, now).project_remote_ids() == self.project_remote_ids(),
            self.set_sync_status(id, status, now).project_local_ids() == self.project_local_ids(),
    {
        let after = self.set_sync_status(id, status, now);
        self.project_ids().index_of_first_ensures(id);
        assert(after.project_ids() =~= self.project_ids());
        assert(after.project_remote_ids() =~= self.project_remote_ids());
        assert(after.project_local_ids() =~= self.project_local_ids());
        assert(after.approval_ids() =~= self.approval_ids());
        assert(after.task_ids() =~= self.task_ids());
    }
}

/// The first position of `needle` is `i` where `i` holds it and no earlier
/// position does.
pub proof fn first_index_found<K>(keys: Seq<K>, needle: K, i: int)
    requires
        0 <= i < keys.len(),
        keys[i] == needle,
        forall|j: int| 0 <= j < i ==> keys[j] != needle,
    ensures
        keys.index_of_first(needle) == Some(i),
{
    keys.index_of_first_ensures(needle);
    assert(keys.contains(needle));
    let first = keys.index_of_first(needle).unwrap();
    assert(keys[first] == needle);
}

/// `needle` has no first position where no position holds it.
pub proof fn first_index_missing<K>(keys: Seq<K>, needle: K)
    requires
        forall|j: int| 0 <= j < keys.len() ==> keys[j] != needle,
    ensures
        keys.index_of_first(needle).is_none(),
{
    keys.index_of_first_ensures(needle);
}

/// Where a key occurs in a sequence without duplicates, its first position
/// is its only one.
pub proof fn first_index_unique<K>(keys: Seq<K>, i: int)
    requires
        0 <= i < keys.len(),
        keys.no_duplicates(),
    ensures
        keys.index_of_first(keys[i]) == Some(i),
{
    keys.index_of_first_ensures(keys[i]);
    assert(keys.contains(keys[i]));
}

proof fn deep_view_push<T: DeepView>(before: Vec<T>, after: Vec<T>, x: T)
    requires
        after@ == before@.push(x),
    ensures
        after.deep_view() == before.deep_view().push(x.deep_view()),
{
    assert(after.deep_view() =~= before.deep_view().push(x.deep_view()));
}

proof fn deep_view_update<T: DeepView>(before: Vec<T>, after: Vec<T>, i: int, x: T)
    requires
        0 <= i < before@.len(),
        after@ == before@.update(i, x),
    ensures
        after.deep_view() == before.deep_view().update(i, x.deep_view()),
{
    assert(after.deep_view() =~= before.deep_view().update(i, x.deep_view()));
}

impl LocalStore {
    /// An empty store.
    pub fn new() -> (store: LocalStore)
        ensures
            store@.projects.len() == 0,
            store@.approvals.len() == 0,
            store@.tasks.len() == 0,
            store@.wf(),
            forall|id: u128| (#[trigger] store@.project_index(id)).is_none(),
            forall|id: u128| (#[trigger] store@.project_by_remote(id)).is_none(),
            forall|id: u128| (#[trigger] store@.project_by_local(id)).is_none(),
            forall|id: u128| (#[trigger] store@.approval_index(id)).is_none(),
            forall|id: u128| (#[trigger] store@.task_index(id)).is_none(),
    {
        let store = LocalStore { projects: Vec::new(), approvals: Vec::new(), tasks: Vec::new() };
        proof {
            assert forall|id: u128| (#[trigger] store@.project_index(id)).is_none() by {
                first_index_missing(store@.project_ids(), id);
            }
            assert forall|id: u128| (#[trigger] store@.project_by_remote(id)).is_none() by {
                first_index_missing(store@.project_remote_ids(), id);
            }
            assert forall|id: u128| (#[trigger] store@.project_by_local(id)).is_none() by {
                first_index_missing(store@.project_local_ids(), id);
            }
            assert forall|id: u128| (#[trigger] store@.approval_index(id)).is_none() by {
                first_index_missing(store@.approval_ids(), id);
            }
            assert forall|id: u128| (#[trigger] store@.task_index(id)).is_none() by {
                first_index_missing(store@.task_ids(), id);
            }
        }
        store
    }

    /// The project rows in the order of insertion.
    pub fn projects(&self) -> (rows: &Vec<WebAssistProject>)
        ensures
            rows@ == self@.projects,
    {
        &self.projects
    }

    /// The approval rows in the order of insertion.
    pub fn approvals(&self) -> (rows: &Vec<WebAssistApproval>)
        ensures
            rows.deep_view() == self@.approvals,
    {
        &self.approvals
    }

    /// The task rows in the order of insertion.
    pub fn tasks(&self) -> (rows: &Vec<Task>)
        ensures
            rows.deep_view() == self@.tasks,
    {
        &self.tasks
    }

    fn project_position(&self, id: u128) -> (found: Option<usize>)
        ensures
            match found {
                Some(i) => self@.project_index(id) == Some(i as int) && i < self@.projects.len(),
                None => self@.project_index(id).is_none(),
            },
    {
        let mut i: usize = 0;
        while i < self.projects.len()
            invariant
                i <= self.projects.len(),
                forall|j: int| 0 <= j < i ==> self@.project_ids()[j] != id,
            decreases self.projects.len() - i,
        {
            if self.projects[i].id == id {
                proof {
                    first_index_found(self@.project_ids(), id, i as int);
                }
                return Some(i);
            }
            i = i + 1;
        }
        proof {
            first_index_missing(self@.project_ids(), id);
        }
        None
    }

    fn approval_position(&self, id: u128) -> (found: Option<usize>)
        ensures
            match found {
                Some(i) => self@.approval_index(id) == Some(i as int) && i < self@.approvals.len(),
                None => self@.approval_index(id).is_none(),
            },
    {
        let mut i: usize = 0;
        while i < self.approvals.len()
            invariant
                i <= self.approvals.len(),
                forall|j: int| 0 <= j < i ==> self@.approval_ids()[j] != id,
            decreases self.approvals.len() - i,
        {
            if self.approvals[i].id == id {
                proof {
                    first_index_found(self@.approval_ids(), id, i as int);
                }
                return Some(i);
            }
            i = i + 1;
        }
        proof {
            first_index_missing(self@.approval_ids(), id);
        }
        None
    }

    fn task_position(&self, id: u128) -> (found: Option<usize>)
        ensures
            match found {
                Some(i) => self@.task_index(id) == Some(i as int) && i < self@.tasks.len(),
                None => self@.task_index(id).is_none(),
            },
    {
        let mut i: usize = 0;
        while i < self.tasks.len()
            invariant
                i <= self.tasks.len(),
                forall|j: int| 0 <= j < i ==> self@.task_ids()[j] != id,
            decreases self.tasks.len() - i,
        {
            if self.tasks[i].id == id {
                proof {
                    first_index_found(self@.task_ids(), id, i as int);
                }
                return Some(i);
            }
            i = i + 1;
        }
        proof {
            first_index_missing(self@.task_ids(), id);
        }
        None
    }

    /// True where a project row has this identifier.
    pub fn has_project(&self, id: u128) -> (found: bool)
        ensures
            found == self@.project_index(id).is_some(),
            found == self@.project_ids().contains(id),
    {
        proof {
            self@.project_ids().index_of_first_ensures(id);
        }
        self.project_position(id).is_some()
    }

    /// True where a task has this identifier.
    pub fn has_task(&self, id: u128) -> (found: bool)
        ensures
            found == self@.task_index(id).is_some(),
            found == self@.task_ids().contains(id),
    {
        proof {
            self@.task_ids().index_of_first_ensures(id);
        }
        self.task_position(id).is_some()
    }

    /// True where an approval has this identifier.
    pub fn has_approval(&self, id: u128) -> (found: bool)
        ensures
            found == self@.approval_index(id).is_some(),
            found == self@.approval_ids().contains(id),
    {
        proof {
            self@.approval_ids().index_of_first_ensures(id);
        }
        self.approval_position(id).is_some()
    }

    /// The first project that stands for this project of the remote backend.
    pub fn project_by_remote_id(&self, remote_id: u128) -> (found: Option<WebAssistProject>)
        ensures
            found == self@.project_by_remote(remote_id),
    {
        let mut i: usize = 0;
        while i < self.projects.len()
            invariant
                i <= self.projects.len(),
                forall|j: int| 0 <= j < i ==> self@.project_remote_ids()[j] != remote_id,
            decreases self.projects.len() - i,
        {
            if self.projects[i].webassist_project_id == remote_id {
                proof {
                    first_index_found(self@.project_remote_ids(), remote_id, i as int);
                }
                return Some(self.projects[i]);
            }
            i = i + 1;
        }
        proof {
            first_index_missing(self@.project_remote_ids(), remote_id);
        }
        None
    }

    /// The project row with this identifier.
    pub fn project_by_id(&self, id: u128) -> (found: Option<WebAssistProject>)
        ensures
            found == match self@.project_index(id) {
                Some(i) => Some(self@.projects[i]),
                None => None,
            },
    {
        match self.project_position(id) {
            Some(i) => Some(self.projects[i]),
            None => None,
        }
    }

    /// Number of approvals of a project that wait.
    pub fn count_pending_approvals(&self, project_id: u128) -> (count: usize)
        ensures
            count == spec_count_pending(self@.approvals, project_id, self@.approvals.len()),
    {
        let mut count: usize = 0;
        let mut i: usize = 0;
        while i < self.approvals.len()
            invariant
                i <= self.approvals.len(),
                count <= i,
                count == spec_count_pending(self@.approvals, project_id, i as nat),
            decreases self.approvals.len() - i,
        {
            let row = &self.approvals[i];
            assert(self@.approvals[i as int] == row@);
            if row.web_assist_project_id == project_id && row.status == ApprovalStatus::Pending {
                count = count + 1;
            }
            i = i + 1;
        }
        count
    }

    /// The first project that stands for this local project.
    pub fn project_by_local_id(&self, local_id: u128) -> (found: Option<WebAssistProject>)
        ensures
            found == self@.project_by_local(local_id),
    {
        let mut i: usize = 0;
        while i < self.projects.len()
            invariant
                i <= self.projects.len(),
                forall|j: int| 0 <= j < i ==> self@.project_local_ids()[j] != local_id,
            decreases self.projects.len() - i,
        {
            if self.projects[i].otto_project_id == local_id {
                proof {
                    first_index_found(self@.project_local_ids(), local_id, i as int);
                }
                return Some(self.projects[i]);
            }
            i = i + 1;
        }
        proof {
            first_index_missing(self@.project_local_ids(), local_id);
        }
        None
    }

    /// The approval with this identifier.
    pub fn approval_by_id(&self, id: u128) -> (found: Option<&WebAssistApproval>)
        ensures
            found.deep_view() == self@.approval_by_id(id),
    {
        match self.approval_position(id) {
            Some(i) => Some(&self.approvals[i]),
            None => None,
        }
    }

    /// The first approval bound to this identifier of the remote backend.
    pub fn approval_by_remote_id(&self, remote_id: u128) -> (found: Option<&WebAssistApproval>)
        ensures
            match self@.approval_index_by_remote(remote_id) {
                Some(i) => found.deep_view() == Some(self@.approvals[i]),
                None => found.is_none(),
            },
    {
        let mut i: usize = 0;
        while i < self.approvals.len()
            invariant
                i <= self.approvals.len(),
                forall|j: int| 0 <= j < i ==> self@.approval_remote_ids()[j] != Some(remote_id),
            decreases self.approvals.len() - i,
        {
            match self.approvals[i].approval_id {
                Some(bound) => {
                    if bound == remote_id {
                        proof {
                            first_index_found(
                                self@.approval_remote_ids(),
                                Some(remote_id),
                                i as int,
                            );
                        }
                        return Some(&self.approvals[i]);
                    }
                },
                None => {},
            }
            i = i + 1;
        }
        proof {
            first_index_missing(self@.approval_remote_ids(), Some(remote_id));
        }
        None
    }

    /// True where this stage of this project has an approval that waits.
    pub fn has_pending_approval(&self, project_id: u128, stage: WebAssistStage) -> (waiting: bool)
        ensures
            waiting == self@.has_pending(project_id, stage),
    {
        let mut i: usize = 0;
        while i < self.approvals.len()
            invariant
                i <= self.approvals.len(),
                forall|j: int|
                    0 <= j < i ==> !(#[trigger] self@.approvals[j]).is_pending_for(project_id, stage),
            decreases self.approvals.len() - i,
        {
            let row = &self.approvals[i];
            if row.web_assist_project_id == project_id && row.stage_name == stage && row.status
                == ApprovalStatus::Pending {
                assert(self@.approvals[i as int].is_pending_for(project_id, stage));
                return true;
            }
            i = i + 1;
        }
        false
    }

    /// The task with this identifier.
    pub fn task_by_id(&self, id: u128) -> (found: Option<&Task>)
        ensures
            found.deep_view() == self@.task_by_id(id),
    {
        match self.task_position(id) {
            Some(i) => Some(&self.tasks[i]),
            None => None,
        }
    }

    /// Adds a project row. Refused where a row with its identifier exists.
    pub fn insert_project(&mut self, project: WebAssistProject) -> (done: Result<(), StoreError>)
        requires
            old(self)@.wf(),
        ensures
            final(self)@.wf(),
            match done {
                Ok(_) => old(self)@.project_index(project.id).is_none() && final(self)@ == old(
                    self,
                )@.with_project(project) && final(self)@.project_index(project.id) == Some(
                    old(self)@.projects.len() as int,
                ),
                Err(e) => e == StoreError::DuplicateId && old(self)@.project_index(
                    project.id,
                ).is_some() && final(self)@ == old(self)@,
            },
    {
        if self.project_position(project.id).is_some() {
            return Err(StoreError::DuplicateId);
        }
        proof {
            old(self)@.project_ids().index_of_first_ensures(project.id);
        }
        self.projects.push(project);
        proof {
            let before = old(self)@;
            let after = self@;
            assert(after.projects == before.projects.push(project));
            assert(after.project_ids() =~= before.project_ids().push(project.id));
            first_index_unique(after.project_ids(), before.projects.len() as int);
            assert(after.approvals == before.approvals);
            assert(after.tasks == before.tasks);
            assert(after.approval_ids() =~= before.approval_ids());
            assert(after.task_ids() =~= before.task_ids());
        }
        Ok(())
    }

    /// Moves the project row `id` to `stage` where that is a move forward.
    /// Returns whether the row moved.
    pub fn advance_project(&mut self, id: u128, stage: WebAssistStage, now: i64) -> (moved: bool)
        requires
            old(self)@.wf(),
        ensures
            final(self)@.wf(),
            final(self)@ == old(self)@.advance_project(id, stage, now),
            moved == match old(self)@.project_index(id) {
                Some(i) => is_ahead(stage, old(self)@.projects[i].current_stage),
                None => false,
            },
    {
        match self.project_position(id) {
            Some(i) => {
                let row = self.projects[i];
                if stage.index() > row.current_stage.index() {
                    let moved_row = WebAssistProject {
                        current_stage: stage,
                        updated_at: now,
                        ..row
                    };
                    self.projects.set(i, moved_row);
                    proof {
                        let before = old(self)@;
                        let after = self@;
                        assert(after.project_ids() =~= before.project_ids());
                        assert(after.approval_ids() =~= before.approval_ids());
                        assert(after.task_ids() =~= before.task_ids());
                    }
                    true
                } else {
                    false
                }
            },
            None => false,
        }
    }

    /// Sets the sync status of the project row `id` and notes the time.
    /// Returns whether a row has this identifier.
    pub fn set_sync_status(&mut self, id: u128, status: SyncStatus, now: i64) -> (found: bool)
        requires
            old(self)@.wf(),
        ensures
            final(self)@.wf(),
            final(self)@ == old(self)@.set_sync_status(id, status, now),
            found == old(self)@.project_index(id).is_some(),
    {
        match self.project_position(id) {
            Some(i) => {
                let row = self.projects[i];
                let changed = WebAssistProject {
                    sync_status: status,
                    last_synced_at: Some(now),
                    updated_at: now,
                    ..row
                };
                self.projects.set(i, changed);
                proof {
                    let before = old(self)@;
                    let after = self@;
                    assert(after.project_ids() =~= before.project_ids());
                    assert(after.approval_ids() =~= before.approval_ids());
                    assert(after.task_ids() =~= before.task_ids());
                }
                true
            },
            None => false,
        }
    }

    /// Adds a pending approval. Refused where a row with its identifier
    /// exists, or where the stage of the project has an approval that waits.
    pub fn insert_approval(&mut self, approval: WebAssistApproval) -> (done: Result<(), StoreError>)
        requires
            old(self)@.wf(),
            approval.status == ApprovalStatus::Pending,
        ensures
            final(self)@.wf(),
            match done {
                Ok(_) => {
                    &&& old(self)@.approval_index(approval.id).is_none()
                    &&& !old(self)@.has_pending(approval.web_assist_project_id, approval.stage_name)
                    &&& final(self)@ == old(self)@.with_approval(approval@)
                    &&& final(self)@.approval_index(approval.id) == Some(
                        old(self)@.approvals.len() as int,
                    )
                },
                Err(e) => {
                    &&& final(self)@ == old(self)@
                    &&& e == if old(self)@.approval_index(approval.id).is_some() {
                        StoreError::DuplicateId
                    } else {
                        StoreError::PendingExists
                    }
                    &&& old(self)@.approval_index(approval.id).is_some() || old(self)@.has_pending(
                        approval.web_assist_project_id,
                        approval.stage_name,
                    )
                },
            },
    {
        if self.approval_position(approval.id).is_some() {
            return Err(StoreError::DuplicateId);
        }
        if self.has_pending_approval(approval.web_assist_project_id, approval.stage_name) {
            return Err(StoreError::PendingExists);
        }
        proof {
            old(self)@.approval_ids().index_of_first_ensures(approval.id);
        }
        let ghost added = approval@;
        let ghost pushed = approval;
        self.approvals.push(approval);
        proof {
            deep_view_push(old(self).approvals, self.approvals, pushed);
            old(self)@.with_approval_keeps_rules(added);
            assert(self@.approval_ids() =~= old(self)@.approval_ids().push(added.id));
            first_index_unique(self@.approval_ids(), old(self)@.approvals.len() as int);
        }
        Ok(())
    }

    /// Records the response to the approval `id`. Refused where the approval
    /// is missing or has a response already.
    pub fn record_response(
        &mut self,
        id: u128,
        status: ApprovalStatus,
        feedback: Option<String>,
        now: i64,
    ) -> (done: Result<(), StoreError>)
        requires
            old(self)@.wf(),
        ensures
            final(self)@.wf(),
            final(self)@ == old(self)@.respond(id, status, feedback.deep_view(), now),
            match done {
                Ok(_) => old(self)@.approval_by_id(id) matches Some(a) && !a.is_terminal(),
                Err(e) => final(self)@ == old(self)@ && match old(self)@.approval_by_id(id) {
                    Some(a) => a.is_terminal() && e == StoreError::AlreadyResponded,
                    None => e == StoreError::NotFound,
                },
            },
    {
        match self.approval_position(id) {
            Some(i) => {
                if self.approvals[i].responded_at.is_some() {
                    return Err(StoreError::AlreadyResponded);
                }
                let ghost fb = feedback.deep_view();
                let mut row = self.approvals.remove(i);
                let ghost old_row = row;
                row.status = status;
                row.client_feedback = feedback;
                row.responded_at = Some(now);
                row.updated_at = now;
                let ghost new_row = row;
                self.approvals.insert(i, row);
                proof {
                    let before = old(self)@;
                    let after = self@;
                    assert(self.approvals@ =~= old(self).approvals@.update(i as int, new_row));
                    deep_view_update(old(self).approvals, self.approvals, i as int, new_row);
                    assert(new_row@ == before.approvals[i as int].responded(status, fb, now));
                    assert(after.approval_ids() =~= before.approval_ids());
                    assert(after.project_ids() =~= before.project_ids());
                    assert(after.task_ids() =~= before.task_ids());
                    assert(before.approvals[i as int].status == ApprovalStatus::Pending);
                }
                Ok(())
            },
            None => Err(StoreError::NotFound),
        }
    }

    /// Binds the approval `id` to its counterpart in the remote backend.
    /// Returns whether a row has this identifier.
    pub fn bind_remote_approval(&mut self, id: u128, remote_id: u128) -> (found: bool)
        requires
            old(self)@.wf(),
        ensures
            final(self)@.wf(),
            final(self)@ == old(self)@.bind_remote(id, remote_id),
            found == old(self)@.approval_index(id).is_some(),
    {
        match self.approval_position(id) {
            Some(i) => {
                let mut row = self.approvals.remove(i);
                row.approval_id = Some(remote_id);
                let ghost new_row = row;
                self.approvals.insert(i, row);
                proof {
                    let before = old(self)@;
                    let after = self@;
                    assert(self.approvals@ =~= old(self).approvals@.update(i as int, new_row));
                    deep_view_update(old(self).approvals, self.approvals, i as int, new_row);
                    assert(new_row@ == ApprovalView {
                        approval_id: Some(remote_id),
                        ..before.approvals[i as int]
                    });
                    assert(after.approval_ids() =~= before.approval_ids());
                    assert(after.project_ids() =~= before.project_ids());
                    assert(after.task_ids() =~= before.task_ids());
                }
                true
            },
            None => false,
        }
    }

    /// Adds a task. Refused where a task with its identifier exists.
    pub fn insert_task(&mut self, task: Task) -> (done: Result<(), StoreError>)
        requires
            old(self)@.wf(),
        ensures
            final(self)@.wf(),
            match done {
                Ok(_) => old(self)@.task_index(task.id).is_none() && final(self)@ == old(
                    self,
                )@.with_task(task@) && final(self)@.task_index(task.id) == Some(
                    old(self)@.tasks.len() as int,
                ),
                Err(e) => e == StoreError::DuplicateId && old(self)@.task_index(task.id).is_some()
                    && final(self)@ == old(self)@,
            },
    {
        if self.task_position(task.id).is_some() {
            return Err(StoreError::DuplicateId);
        }
        proof {
            old(self)@.task_ids().index_of_first_ensures(task.id);
        }
        let ghost pushed = task;
        self.tasks.push(task);
        proof {
            let before = old(self)@;
            let after = self@;
            deep_view_push(old(self).tasks, self.tasks, pushed);
            assert(after.task_ids() =~= before.task_ids().push(pushed.id));
            first_index_unique(after.task_ids(), before.tasks.len() as int);
            assert(after.project_ids() =~= before.project_ids());
            assert(after.approval_ids() =~= before.approval_ids());
        }
        Ok(())
    }

    /// Sets the status of the task `id`. Returns whether a task has this
    /// identifier.
    pub fn set_task_status(&mut self, id: u128, status: TaskStatus, now: i64) -> (found: bool)
        requires
            old(self)@.wf(),
        ensures
            final(self)@.wf(),
            final(self)@ == old(self)@.set_task_status(id, status, now),
            found == old(self)@.task_index(id).is_some(),
    {
        match self.task_position(id) {
            Some(i) => {
                let mut row = self.tasks.remove(i);
                row.status = status;
                row.updated_at = now;
                let ghost new_row = row;
                self.tasks.insert(i, row);
                proof {
                    let before = old(self)@;
                    let after = self@;
                    assert(self.tasks@ =~= old(self).tasks@.update(i as int, new_row));
                    deep_view_update(old(self).tasks, self.tasks, i as int, new_row);
                    assert(new_row@ == TaskView {
                        status,
                        updated_at: now,
                        ..before.tasks[i as int]
                    });
                    assert(after.task_ids() =~= before.task_ids());
                    assert(after.project_ids() =~= before.project_ids());
                    assert(after.approval_ids() =~= before.approval_ids());
                }
                true
            },
            None => false,
        }
    }
}

/// A new project row: at the first stage, active, never synced.
pub open spec fn spec_new_project(
    project: WebAssistProject,
    id: u128,
    webassist_project_id: u128,
    otto_project_id: u128,
    mapping: StageTaskMapping,
    now: i64,
) -> bool {
    project == WebAssistProject {
        id,
        webassist_project_id,
        otto_project_id,
        current_stage: WebAssistStage::InitialReview,
        stage_task_mapping: mapping,
        sync_status: SyncStatus::Active,
        last_synced_at: None,
        created_at: now,
        updated_at: now,
    }
}

/// A new approval row: pending, unanswered, unknown to the remote backend.
pub open spec fn spec_pending_approval(
    id: u128,
    project_id: u128,
    stage: WebAssistStage,
    preview_url: Option<Seq<char>>,
    deliverables: Seq<DeliverableView>,
    now: i64,
) -> ApprovalView {
    ApprovalView {
        id,
        web_assist_project_id: project_id,
        stage_name: stage,
        approval_id: None,
        status: ApprovalStatus::Pending,
        requested_at: now,
        responded_at: None,
        client_feedback: None,
        preview_url,
        deliverables,
        created_at: now,
        updated_at: now,
    }
}

/// True where `i` is the position of the approval that
/// `find_by_project_and_stage` hands out: the one of this project and stage
/// that was created last, and of those created at the same time the one
/// that was inserted last.
pub open spec fn is_latest_approval(
    store: StoreView,
    project_id: u128,
    stage: WebAssistStage,
    i: int,
) -> bool {
    &&& 0 <= i < store.approvals.len()
    &&& store.approvals[i].web_assist_project_id == project_id
    &&& store.approvals[i].stage_name == stage
    &&& forall|j: int|
        0 <= j < store.approvals.len() && (#[trigger] store.approvals[j]).web_assist_project_id
            == project_id && store.approvals[j].stage_name == stage ==> {
            ||| store.approvals[j].created_at < store.approvals[i].created_at
            ||| (store.approvals[j].created_at == store.approvals[i].created_at && j <= i)
        }
}

impl WebAssistProject {
    /// The first project that stands for this project of the remote backend.
    pub fn find_by_webassist_id(store: &LocalStore, webassist_project_id: u128) -> (found: Option<
        WebAssistProject,
    >)
        ensures
            found == store@.project_by_remote(webassist_project_id),
    {
        store.project_by_remote_id(webassist_project_id)
    }

    /// The first project that stands for this local project.
    pub fn find_by_otto_id(store: &LocalStore, otto_project_id: u128) -> (found: Option<
        WebAssistProject,
    >)
        ensures
            found == store@.project_by_local(otto_project_id),
    {
        store.project_by_local_id(otto_project_id)
    }

    /// Adds the link between a project of the remote backend and a local
    /// project under a fresh identifier. See `create_with_id`.
    pub fn create(
        store: &mut LocalStore,
        webassist_project_id: u128,
        otto_project_id: u128,
        stage_task_mapping: StageTaskMapping,
        now: i64,
    ) -> (created: Result<WebAssistProject, StoreError>)
        requires
            old(store)@.wf(),
        ensures
            final(store)@.wf(),
            match created {
                Ok(project) => {
                    &&& spec_new_project(
                        project,
                        project.id,
                        webassist_project_id,
                        otto_project_id,
                        stage_task_mapping,
                        now,
                    )
                    &&& old(store)@.project_index(project.id).is_none()
                    &&& final(store)@ == old(store)@.with_project(project)
                },
                Err(e) => e == StoreError::DuplicateId && final(store)@ == old(store)@,
            },
    {
        let id = fresh_id();
        Self::create_with_id(store, id, webassist_project_id, otto_project_id, stage_task_mapping, now)
    }

    /// Adds the link between a project of the remote backend and a local
    /// project: a row at the first stage, active. Refused where a row has
    /// the identifier `id`.
    pub fn create_with_id(
        store: &mut LocalStore,
        id: u128,
        webassist_project_id: u128,
        otto_project_id: u128,
        stage_task_mapping: StageTaskMapping,
        now: i64,
    ) -> (created: Result<WebAssistProject, StoreError>)
        requires
            old(store)@.wf(),
        ensures
            final(store)@.wf(),
            match created {
                Ok(project) => {
                    &&& spec_new_project(
                        project,
                        id,
                        webassist_project_id,
                        otto_project_id,
                        stage_task_mapping,
                        now,
                    )
                    &&& old(store)@.project_index(id).is_none()
                    &&& final(store)@ == old(store)@.with_project(project)
                },
                Err(e) => e == StoreError::DuplicateId && old(store)@.project_index(id).is_some()
                    && final(store)@ == old(store)@,
            },
    {
        let project = WebAssistProject {
            id,
            webassist_project_id,
            otto_project_id,
            current_stage: WebAssistStage::InitialReview,
            stage_task_mapping,
            sync_status: SyncStatus::Active,
            last_synced_at: None,
            created_at: now,
            updated_at: now,
        };
        match store.insert_project(project) {
            Ok(_) => Ok(project),
            Err(e) => Err(e),
        }
    }

    /// Moves the project row `id` to `stage` where that is a move forward.
    /// Returns whether the row moved.
    pub fn update_stage(store: &mut LocalStore, id: u128, stage: WebAssistStage, now: i64) -> (moved:
        bool)
        requires
            old(store)@.wf(),
        ensures
            final(store)@.wf(),
            final(store)@ == old(store)@.advance_project(id, stage, now),
            moved == match old(store)@.project_index(id) {
                Some(i) => is_ahead(stage, old(store)@.projects[i].current_stage),
                None => false,
            },
    {
        store.advance_project(id, stage, now)
    }

    /// Sets the sync status of the project row `id` and notes the time.
    /// Returns whether a row has this identifier.
    pub fn update_sync_status(store: &mut LocalStore, id: u128, status: SyncStatus, now: i64) -> (found:
        bool)
        requires
            old(store)@.wf(),
        ensures
            final(store)@.wf(),
            final(store)@ == old(store)@.set_sync_status(id, status, now),
            found == old(store)@.project_index(id).is_some(),
    {
        store.set_sync_status(id, status, now)
    }
}

impl WebAssistApproval {
    /// The approval with this identifier.
    pub fn find_by_id(store: &LocalStore, id: u128) -> (found: Option<&WebAssistApproval>)
        ensures
            found.deep_view() == store@.approval_by_id(id),
    {
        store.approval_by_id(id)
    }

    /// The latest approval of a stage of a project.
    pub fn find_by_project_and_stage(
        store: &LocalStore,
        project_id: u128,
        stage: WebAssistStage,
    ) -> (found: Option<&WebAssistApproval>)
        ensures
            match found {
                Some(approval) => exists|i: int|
                    is_latest_approval(store@, project_id, stage, i) && approval@
                        == store@.approvals[i],
                None => forall|j: int|
                    0 <= j < store@.approvals.len() ==> !((
                    #[trigger] store@.approvals[j]).web_assist_project_id == project_id
                        && store@.approvals[j].stage_name == stage),
            },
    {
        let rows = store.approvals();
        let mut best: Option<usize> = None;
        let mut i: usize = 0;
        while i < rows.len()
            invariant
                i <= rows.len(),
                rows.deep_view() == store@.approvals,
                match best {
                    Some(b) => {
                        &&& b < i
                        &&& store@.approvals[b as int].web_assist_project_id == project_id
                        &&& store@.approvals[b as int].stage_name == stage
                        &&& forall|j: int|
                            0 <= j < i && (#[trigger] store@.approvals[j]).web_assist_project_id
                                == project_id && store@.approvals[j].stage_name == stage ==> {
                                ||| store@.approvals[j].created_at < store@.approvals[b as int].created_at
                                ||| (store@.approvals[j].created_at
                                    == store@.approvals[b as int].created_at && j <= b)
                            }
                    },
                    None => forall|j: int|
                        0 <= j < i ==> !((
                        #[trigger] store@.approvals[j]).web_assist_project_id == project_id
                            && store@.approvals[j].stage_name == stage),
                },
            decreases rows.len() - i,
        {
            let row = &rows[i];
            assert(rows.deep_view()[i as int] == row@);
            if row.web_assist_project_id == project_id && row.stage_name == stage {
                match best {
                    Some(b) => {
                        assert(rows.deep_view()[b as int] == rows[b as int]@);
                        if rows[b].created_at <= row.created_at {
                            best = Some(i);
                        }
                    },
                    None => {
                        best = Some(i);
                    },
                }
            }
            i = i + 1;
        }
        match best {
            Some(b) => {
                assert(rows.deep_view()[b as int] == rows[b as int]@);
                assert(is_latest_approval(store@, project_id, stage, b as int));
                Some(&rows[b])
            },
            None => None,
        }
    }

    /// Adds a pending approval under a fresh identifier, and hands out the
    /// identifier. See `create_with_id`.
    pub fn create(
        store: &mut LocalStore,
        project_id: u128,
        stage: WebAssistStage,
        preview_url: Option<String>,
        deliverables: Vec<Deliverable>,
        now: i64,
    ) -> (created: Result<u128, StoreError>)
        requires
            old(store)@.wf(),
        ensures
            final(store)@.wf(),
            match created {
                Ok(id) => {
                    &&& old(store)@.approval_index(id).is_none()
                    &&& !old(store)@.has_pending(project_id, stage)
                    &&& final(store)@ == old(store)@.with_approval(
                        spec_pending_approval(
                            id,
                            project_id,
                            stage,
                            preview_url.deep_view(),
                            deliverables.deep_view(),
                            now,
                        ),
                    )
                },
                Err(e) => final(store)@ == old(store)@ && (e == StoreError::DuplicateId || (e
                    == StoreError::PendingExists && old(store)@.has_pending(project_id, stage))),
            },
    {
        let id = fresh_id();
        match Self::create_with_id(store, id, project_id, stage, preview_url, deliverables, now) {
            Ok(_) => Ok(id),
            Err(e) => Err(e),
        }
    }

    /// Adds a pending approval for a stage of a project. Refused where a
    /// row has the identifier `id`, or where an approval waits for the stage
    /// of the project.
    pub fn create_with_id(
        store: &mut LocalStore,
        id: u128,
        project_id: u128,
        stage: WebAssistStage,
        preview_url: Option<String>,
        deliverables: Vec<Deliverable>,
        now: i64,
    ) -> (created: Result<(), StoreError>)
        requires
            old(store)@.wf(),
        ensures
            final(store)@.wf(),
            match created {
                Ok(_) => {
                    &&& old(store)@.approval_index(id).is_none()
                    &&& !old(store)@.has_pending(project_id, stage)
                    &&& final(store)@ == old(store)@.with_approval(
                        spec_pending_approval(
                            id,
                            project_id,
                            stage,
                            preview_url.deep_view(),
                            deliverables.deep_view(),
                            now,
                        ),
                    )
                },
                Err(e) => {
                    &&& final(store)@ == old(store)@
                    &&& e == if old(store)@.approval_index(id).is_some() {
                        StoreError::DuplicateId
                    } else {
                        StoreError::PendingExists
                    }
                    &&& old(store)@.approval_index(id).is_some() || old(store)@.has_pending(
                        project_id,
                        stage,
                    )
                },
            },
    {
        let row = WebAssistApproval {
            id,
            web_assist_project_id: project_id,
            stage_name: stage,
            approval_id: None,
            status: ApprovalStatus::Pending,
            requested_at: now,
            responded_at: None,
            client_feedback: None,
            preview_url,
            deliverables,
            created_at: now,
            updated_at: now,
        };
        store.insert_approval(row)
    }

    /// Records the response to the approval `id`: its status, the feedback
    /// and the time. Refused where the approval is missing or has a
    /// response already.
    pub fn update_status(
        store: &mut LocalStore,
        id: u128,
        status: ApprovalStatus,
        feedback: Option<String>,
        now: i64,
    ) -> (done: Result<(), StoreError>)
        requires
            old(store)@.wf(),
        ensures
            final(store)@.wf(),
            final(store)@ == old(store)@.respond(id, status, feedback.deep_view(), now),
            match done {
                Ok(_) => old(store)@.approval_by_id(id) matches Some(a) && !a.is_terminal(),
                Err(e) => final(store)@ == old(store)@ && match old(store)@.approval_by_id(id) {
                    Some(a) => a.is_terminal() && e == StoreError::AlreadyResponded,
                    None => e == StoreError::NotFound,
                },
            },
    {
        store.record_response(id, status, feedback, now)
    }
}

impl Task {
    /// The task with this identifier.
    pub fn find_by_id(store: &LocalStore, id: u128) -> (found: Option<&Task>)
        ensures
            found.deep_view() == store@.task_by_id(id),
    {
        store.task_by_id(id)
    }

    /// The task with this identifier, where it belongs to this project.
    pub fn find_by_id_and_project_id(store: &LocalStore, id: u128, project_id: u128) -> (found:
        Option<&Task>)
        ensures
            found.deep_view() == match store@.task_by_id(id) {
                Some(task) => if task.project_id == project_id {
                    Some(task)
                } else {
                    None
                },
                None => None,
            },
    {
        match store.task_by_id(id) {
            Some(task) => if task.project_id == project_id {
                Some(task)
            } else {
                None
            },
            None => None,
        }
    }

    /// True where the project has a task with this identifier.
    pub fn exists_in_project(store: &LocalStore, id: u128, project_id: u128) -> (found: bool)
        ensures
            found == (store@.task_by_id(id) matches Some(task) && task.project_id == project_id),
    {
        Self::find_by_id_and_project_id(store, id, project_id).is_some()
    }

    /// Adds a task that is still to do. Refused where a task has the
    /// identifier `task_id`.
    pub fn create(store: &mut LocalStore, data: &CreateTask, task_id: u128, now: i64) -> (created:
        Result<(), StoreError>)
        requires
            old(store)@.wf(),
        ensures
            final(store)@.wf(),
            match created {
                Ok(_) => old(store)@.task_index(task_id).is_none() && final(store)@ == old(
                    store,
                )@.with_task(data.spec_task(task_id, now)),
                Err(e) => e == StoreError::DuplicateId && old(store)@.task_index(task_id).is_some()
                    && final(store)@ == old(store)@,
            },
    {
        let description = match &data.description {
            Some(text) => Some(text.clone()),
            None => None,
        };
        let task = Task {
            id: task_id,
            project_id: data.project_id,
            title: data.title.clone(),
            description,
            status: TaskStatus::Todo,
            parent_task_attempt: data.parent_task_attempt,
            created_at: now,
            updated_at: now,
        };
        store.insert_task(task)
    }

    /// Sets the status of the task `id`. Returns whether a task has this
    /// identifier.
    pub fn update_status(store: &mut LocalStore, id: u128, status: TaskStatus, now: i64) -> (found:
        bool)
        requires
            old(store)@.wf(),
        ensures
            final(store)@.wf(),
            final(store)@ == old(store)@.set_task_status(id, status, now),
            found == old(store)@.task_index(id).is_some(),
    {
        store.set_task_status(id, status, now)
    }
}

/// True where no value occurs twice.
fn all_distinct(ids: &Vec<u128>) -> (distinct: bool)
    ensures
        distinct == ids@.no_duplicates(),
{
    let mut i: usize = 0;
    while i < ids.len()
        invariant
            i <= ids.len(),
            forall|k: int, l: int| 0 <= k < l < i ==> ids@[k] != ids@[l],
        decreases ids.len() - i,
    {
        let mut j: usize = 0;
        while j < i
            invariant
                j <= i < ids.len(),
                forall|k: int| 0 <= k < j ==> ids@[k] != ids@[i as int],
            decreases i - j,
        {
            if ids[j] == ids[i] {
                return false;
            }
            j = j + 1;
        }
        i = i + 1;
    }
    true
}

/// True where the approvals obey the rules of the store: one without a
/// response is pending, and no stage of a project has two that wait.
fn approvals_obey_rules(rows: &Vec<WebAssistApproval>) -> (obeyed: bool)
    ensures
        obeyed == ({
            let approvals = rows.deep_view();
            &&& forall|i: int|
                0 <= i < approvals.len() && (#[trigger] approvals[i]).responded_at.is_none()
                    ==> approvals[i].status == ApprovalStatus::Pending
            &&& forall|i: int, j: int|
                0 <= i < approvals.len() && 0 <= j < approvals.len() && (
                #[trigger] approvals[i]).status == ApprovalStatus::Pending && (
                #[trigger] approvals[j]).status == ApprovalStatus::Pending
                    && approvals[i].web_assist_project_id == approvals[j].web_assist_project_id
                    && approvals[i].stage_name == approvals[j].stage_name ==> i == j
        }),
{
    let ghost approvals = rows.deep_view();
    let mut i: usize = 0;
    while i < rows.len()
        invariant
            i <= rows.len(),
            approvals == rows.deep_view(),
            forall|k: int|
                0 <= k < i && (#[trigger] approvals[k]).responded_at.is_none() ==> approvals[k].status
                    == ApprovalStatus::Pending,
            forall|k: int, l: int|
                0 <= k < l < i && (#[trigger] approvals[k]).status == ApprovalStatus::Pending && (
                #[trigger] approvals[l]).status == ApprovalStatus::Pending
                    && approvals[k].web_assist_project_id == approvals[l].web_assist_project_id
                    && approvals[k].stage_name == approvals[l].stage_name ==> false,
        decreases rows.len() - i,
    {
        let row = &rows[i];
        assert(approvals[i as int] == row@);
        if row.responded_at.is_none() && row.status != ApprovalStatus::Pending {
            return false;
        }
        if row.status == ApprovalStatus::Pending {
            let mut j: usize = 0;
            while j < i
                invariant
                    j <= i < rows.len(),
                    approvals == rows.deep_view(),
                    approvals[i as int] == row@,
                    row.status == ApprovalStatus::Pending,
                    forall|k: int|
                        0 <= k < j && (#[trigger] approvals[k]).status == ApprovalStatus::Pending
                            && approvals[k].web_assist_project_id == row.web_assist_project_id
                            && approvals[k].stage_name == row.stage_name ==> false,
                decreases i - j,
            {
                let other = &rows[j];
                assert(approvals[j as int] == other@);
                if other.status == ApprovalStatus::Pending && other.web_assist_project_id
                    == row.web_assist_project_id && other.stage_name == row.stage_name {
                    return false;
                }
                j = j + 1;
            }
        }
        i = i + 1;
    }
    assert forall|a: int, b: int|
        0 <= a < approvals.len() && 0 <= b < approvals.len() && (
        #[trigger] approvals[a]).status == ApprovalStatus::Pending && (
        #[trigger] approvals[b]).status == ApprovalStatus::Pending
            && approvals[a].web_assist_project_id == approvals[b].web_assist_project_id
            && approvals[a].stage_name == approvals[b].stage_name implies a == b by {
        if a < b {
            assert(approvals[a].status == ApprovalStatus::Pending);
        } else if b < a {
            assert(approvals[b].status == ApprovalStatus::Pending);
        }
    }
    true
}

impl LocalStore {
    /// A store that holds these rows, as where rows that were saved are
    /// taken up again. `None` where the rows break the rules of the store.
    pub fn from_rows(
        projects: Vec<WebAssistProject>,
        approvals: Vec<WebAssistApproval>,
        tasks: Vec<Task>,
    ) -> (store: Option<LocalStore>)
        ensures
            ({
                let rows = StoreView {
                    projects: projects@,
                    approvals: approvals.deep_view(),
                    tasks: tasks.deep_view(),
                };
                match store {
                    Some(s) => s@ == rows && rows.wf(),
                    None => !rows.wf(),
                }
            }),
    {
        let ghost rows = StoreView {
            projects: projects@,
            approvals: approvals.deep_view(),
            tasks: tasks.deep_view(),
        };
        let mut project_ids: Vec<u128> = Vec::new();
        let mut i: usize = 0;
        while i < projects.len()
            invariant
                i <= projects.len(),
                project_ids@.len() == i,
                forall|k: int| 0 <= k < i ==> project_ids@[k] == projects@[k].id,
            decreases projects.len() - i,
        {
            project_ids.push(projects[i].id);
            i = i + 1;
        }
        assert(project_ids@ =~= rows.project_ids());
        let mut approval_ids: Vec<u128> = Vec::new();
        let mut i: usize = 0;
        while i < approvals.len()
            invariant
                i <= approvals.len(),
                approval_ids@.len() == i,
                forall|k: int| 0 <= k < i ==> approval_ids@[k] == approvals@[k].id,
            decreases approvals.len() - i,
        {
            approval_ids.push(approvals[i].id);
            i = i + 1;
        }
        assert(approval_ids@ =~= rows.approval_ids());
        let mut task_ids: Vec<u128> = Vec::new();
        let mut i: usize = 0;
        while i < tasks.len()
            invariant
                i <= tasks.len(),
                task_ids@.len() == i,
                forall|k: int| 0 <= k < i ==> task_ids@[k] == tasks@[k].id,
            decreases tasks.len() - i,
        {
            task_ids.push(tasks[i].id);
            i = i + 1;
        }
        assert(task_ids@ =~= rows.task_ids());
        if all_distinct(&project_ids) && all_distinct(&approval_ids) && all_distinct(&task_ids)
            && approvals_obey_rules(&approvals) {
            Some(LocalStore { projects, approvals, tasks })
        } else {
            None
        }
    }
}

} // verus!
