//! Creates projects and resumes the workflow when a client has answered.

use vstd::prelude::*;
use vstd::string::*;

use crate::approval_sync::{respond_and_tell, spec_sync_to_webassist};
use crate::encoding::{fresh_id, id_text, id_to_text};
use crate::error::{view_result, ErrorView, Missing, WebAssistError};
use crate::json::{spec_text_member, text_member, JsonField, JsonMembers};
use crate::models::{
    stage_sequence, ApprovalStatus, CreateRequestView, CreateWebAssistProjectRequest,
    StageTaskMapping, SyncStatus, WebAssistProject, WebAssistStage, STAGE_COUNT,
};
use crate::stage_brief::{
    spec_stage_description, spec_stage_title, stage_description, stage_title, Requirements,
    RequirementsView,
};
use crate::store::{history_respected, LocalStore, StoreView};
use crate::supabase_client::{
    as_text, clone_text, first_record, own_text, spec_first_record, RemoteReply, RemoteReplyView,
    RemoteRequest, RemoteRequestView, SupabaseClient, SupabaseConfigView,
};
use crate::task::{Task, TaskStatus, TaskView};

verus! {

/// The entry that tells the team that a client has asked for changes.
pub open spec fn spec_changes_requested(
    client: SupabaseConfigView,
    project_ref: u128,
    feedback: Option<Seq<char>>,
) -> RemoteRequestView {
    client.create_project_update(
        project_ref,
        "approval_rejected"@,
        "Changes Requested"@,
        "Client requested changes: "@ + match feedback {
            Some(text) => text,
            None => "No feedback provided"@,
        },
        None,
    )
}

/// The requests that a list may hold: none or one.
pub open spec fn spec_maybe(request: Option<RemoteRequestView>) -> Seq<RemoteRequestView> {
    match request {
        Some(r) => seq![r],
        None => Seq::empty(),
    }
}

/// The store after a client's answer to an approval, and the requests that
/// tell the remote backend.
///
/// The project and the approval must exist, and the approval must not have
/// an answer yet. The answer is recorded on the approval. An approved stage
/// moves the project to the stage's successor, where there is one and it
/// lies ahead; a rejection or a request for changes pauses the project and
/// tells the team; a pending answer changes nothing more.
pub open spec fn spec_handle_approval_response(
    client: SupabaseConfigView,
    store: StoreView,
    project_ref: u128,
    approval_id: u128,
    status: ApprovalStatus,
    feedback: Option<Seq<char>>,
    now: i64,
) -> (StoreView, Result<Seq<RemoteRequestView>, ErrorView>) {
    match store.project_by_remote(project_ref) {
        None => (store, Err(ErrorView::NotFound(Missing::Project))),
        Some(project) => match spec_sync_to_webassist(
            client,
            store,
            approval_id,
            status,
            feedback,
            now,
        ) {
            (recorded, Err(e)) => (recorded, Err(e)),
            (recorded, Ok(told)) => match status {
                ApprovalStatus::Approved => match store.approval_by_id(
                    approval_id,
                ).unwrap().stage_name.spec_next() {
                    Some(next) => (
                        recorded.advance_project(project.id, next, now),
                        Ok(spec_maybe(told)),
                    ),
                    None => (recorded, Ok(spec_maybe(told))),
                },
                ApprovalStatus::Rejected | ApprovalStatus::ChangesRequested => (
                    recorded.set_sync_status(project.id, SyncStatus::Paused, now),
                    Ok(spec_maybe(told).push(spec_changes_requested(client, project_ref, feedback))),
                ),
                ApprovalStatus::Pending => (recorded, Ok(spec_maybe(told))),
            },
        },
    }
}

/// A second answer to an approval is refused. Where an answer to an approval
/// has been accepted, any further answer to the same approval, at any time
/// and with any status, yields `Conflict` and changes nothing: the project's
/// stage has moved at most once.
pub proof fn second_response_conflicts(
    client: SupabaseConfigView,
    store: StoreView,
    project_ref: u128,
    approval_id: u128,
    status: ApprovalStatus,
    feedback: Option<Seq<char>>,
    now: i64,
    again_status: ApprovalStatus,
    again_feedback: Option<Seq<char>>,
    later: i64,
)
    requires
        store.wf(),
        spec_handle_approval_response(
            client,
            store,
            project_ref,
            approval_id,
            status,
            feedback,
            now,
        ).1.is_ok(),
    ensures
        ({
            let first = spec_handle_approval_response(
                client,
                store,
                project_ref,
                approval_id,
                status,
                feedback,
                now,
            );
            let second = spec_handle_approval_response(
                client,
                first.0,
                project_ref,
                approval_id,
                again_status,
                again_feedback,
                later,
            );
            &&& first.0.wf()
            &&& second.1 == Err::<Seq<RemoteRequestView>, ErrorView>(ErrorView::Conflict)
            &&& second.0 == first.0
            &&& first.0.project_by_remote(project_ref) == second.0.project_by_remote(project_ref)
        }),
{
    let first = spec_handle_approval_response(
        client,
        store,
        project_ref,
        approval_id,
        status,
        feedback,
        now,
    );
    let project = store.project_by_remote(project_ref).unwrap();
    let recorded = store.respond(approval_id, status, feedback, now);
    store.respond_keeps_rules(approval_id, status, feedback, now);
    assert(recorded.approval_by_id(approval_id) matches Some(a) && a.is_terminal());
    match status {
        ApprovalStatus::Approved => {
            match store.approval_by_id(approval_id).unwrap().stage_name.spec_next() {
                Some(next) => {
                    recorded.advance_keeps_rules(project.id, next, now);
                },
                None => {},
            }
        },
        ApprovalStatus::Rejected | ApprovalStatus::ChangesRequested => {
            recorded.set_sync_status_keeps_rules(project.id, SyncStatus::Paused, now);
        },
        ApprovalStatus::Pending => {},
    }
    assert(first.0.approvals == recorded.approvals);
    assert(first.0.approval_ids() =~= recorded.approval_ids());
    assert(first.0.project_remote_ids() == store.project_remote_ids());
    assert(first.0.approval_by_id(approval_id) matches Some(a) && a.is_terminal());
    store.project_remote_ids().index_of_first_ensures(project_ref);
    assert(first.0.project_by_remote(project_ref).is_some());
}

/// An answer to an approval never undoes history: no project row loses its
/// place, its identifiers or its mapping, and no stage moves backward.
pub proof fn response_respects_history(
    client: SupabaseConfigView,
    store: StoreView,
    project_ref: u128,
    approval_id: u128,
    status: ApprovalStatus,
    feedback: Option<Seq<char>>,
    now: i64,
)
    requires
        store.wf(),
    ensures
        history_respected(
            store,
            spec_handle_approval_response(
                client,
                store,
                project_ref,
                approval_id,
                status,
                feedback,
                now,
            ).0,
        ),
        spec_handle_approval_response(
            client,
            store,
            project_ref,
            approval_id,
            status,
            feedback,
            now,
        ).0.wf(),
{
    store.respond_keeps_rules(approval_id, status, feedback, now);
    let recorded = store.respond(approval_id, status, feedback, now);
    match store.project_by_remote(project_ref) {
        Some(project) => {
            match store.approval_by_id(approval_id) {
                Some(approval) => {
                    match approval.stage_name.spec_next() {
                        Some(next) => {
                            recorded.advance_keeps_rules(project.id, next, now);
                        },
                        None => {},
                    }
                    recorded.set_sync_status_keeps_rules(project.id, SyncStatus::Paused, now);
                },
                None => {},
            }
        },
        None => {},
    }
}

/// What is to be set up on disk and in the platform that runs the tasks
/// before a project can be created here.
#[derive(Clone, Debug, PartialEq, Eq)]
pub struct ScaffoldPlan {
    /// The directory that holds all projects.
    pub root: String,
    /// The project's own directory below `root`.
    pub directory_name: String,
    /// The directory of the code repository below the project's directory.
    pub repository_name: &'static str,
    /// The name of the local project.
    pub project_name: String,
    pub setup_script: &'static str,
    pub dev_script: &'static str,
}

/// `ScaffoldPlan` by the plain values that it holds.
pub struct ScaffoldPlanView {
    pub root: Seq<char>,
    pub directory_name: Seq<char>,
    pub repository_name: Seq<char>,
    pub project_name: Seq<char>,
    pub setup_script: Seq<char>,
    pub dev_script: Seq<char>,
}

impl View for ScaffoldPlan {
    type V = ScaffoldPlanView;

    open spec fn view(&self) -> ScaffoldPlanView {
        ScaffoldPlanView {
            root: self.root@,
            directory_name: self.directory_name@,
            repository_name: self.repository_name@,
            project_name: self.project_name@,
            setup_script: self.setup_script@,
            dev_script: self.dev_script@,
        }
    }
}

/// The plan for the project of a request, below the directory `root`.
pub open spec fn spec_scaffold_plan(root: Seq<char>, request: CreateRequestView) -> ScaffoldPlanView {
    ScaffoldPlanView {
        root,
        directory_name: id_text(request.project_id),
        repository_name: "project"@,
        project_name: request.company_name + " ("@ + request.project_number + ")"@,
        setup_script: "npm install"@,
        dev_script: "npm run dev"@,
    }
}

/// What a record of requirements says, as far as the briefs use it.
pub open spec fn spec_requirements_of(record: JsonMembers) -> RequirementsView {
    RequirementsView {
        industry: spec_text_member(record, "industry"@),
        target_audience: spec_text_member(record, "targetAudience"@),
        requirements: spec_text_member(record, "requirements"@),
    }
}

/// The failure to read the requirements that a failed reply stands for.
pub open spec fn spec_fetch_failure(e: ErrorView) -> ErrorView {
    match e {
        ErrorView::RemoteCallFailed { status, detail } => ErrorView::RemoteFetchFailed {
            status,
            detail,
        },
        ErrorView::NotFound(_) => ErrorView::RemoteFetchFailed {
            status: None,
            detail: "no requirements on record"@,
        },
        _ => ErrorView::RemoteFetchFailed { status: None, detail: "unreadable reply"@ },
    }
}

/// The requirements that the reply to `begin_create` holds, or
/// `RemoteFetchFailed`.
pub open spec fn spec_read_requirements(reply: RemoteReplyView) -> Result<
    RequirementsView,
    ErrorView,
> {
    match spec_first_record(reply) {
        Ok(record) => Ok(spec_requirements_of(record)),
        Err(e) => Err(spec_fetch_failure(e)),
    }
}

/// The task of a stage of a new project.
pub open spec fn spec_stage_task(
    request: CreateRequestView,
    requirements: RequirementsView,
    otto_project_id: u128,
    stage: WebAssistStage,
    task_id: u128,
    now: i64,
) -> TaskView {
    TaskView {
        id: task_id,
        project_id: otto_project_id,
        title: spec_stage_title(stage),
        description: Some(spec_stage_description(stage, request, requirements)),
        status: TaskStatus::Todo,
        parent_task_attempt: None,
        created_at: now,
        updated_at: now,
    }
}

/// The store after the tasks of the first `n` stages have been added.
pub open spec fn spec_with_stage_tasks(
    store: StoreView,
    request: CreateRequestView,
    requirements: RequirementsView,
    otto_project_id: u128,
    task_ids: Seq<u128>,
    now: i64,
    n: nat,
) -> StoreView
    decreases n,
{
    if n == 0 {
        store
    } else {
        spec_with_stage_tasks(
            store,
            request,
            requirements,
            otto_project_id,
            task_ids,
            now,
            (n - 1) as nat,
        ).with_task(
            spec_stage_task(
                request,
                requirements,
                otto_project_id,
                stage_sequence()[n - 1],
                task_ids[n - 1],
                now,
            ),
        )
    }
}

/// True where a new project can take these identifiers: no project row has
/// `row_id`, no task has one of `task_ids`, and these differ from each other.
pub open spec fn ids_are_free(store: StoreView, row_id: u128, task_ids: Seq<u128>) -> bool {
    &&& store.project_index(row_id).is_none()
    &&& task_ids.no_duplicates()
    &&& forall|i: int| 0 <= i < task_ids.len() ==> !store.task_ids().contains(#[trigger] task_ids[i])
}

/// True for the row of a project that has just been created.
pub open spec fn is_new_project(
    project: WebAssistProject,
    request: CreateRequestView,
    otto_project_id: u128,
    row_id: u128,
    task_ids: Seq<u128>,
    now: i64,
) -> bool {
    &&& project.id == row_id
    &&& project.webassist_project_id == request.project_id
    &&& project.otto_project_id == otto_project_id
    &&& project.current_stage == WebAssistStage::InitialReview
    &&& project.stage_task_mapping@ == task_ids
    &&& project.sync_status == SyncStatus::Active
    &&& project.last_synced_at.is_none()
    &&& project.created_at == now
    &&& project.updated_at == now
}

/// The store after the creation of `project`: one task for each stage, in
/// the order of the stages, then the project's row, then the first task set
/// in progress.
pub open spec fn spec_store_with_project(
    store: StoreView,
    request: CreateRequestView,
    requirements: RequirementsView,
    project: WebAssistProject,
    now: i64,
) -> StoreView {
    spec_with_stage_tasks(
        store,
        request,
        requirements,
        project.otto_project_id,
        project.stage_task_mapping@,
        now,
        STAGE_COUNT as nat,
    ).with_project(project).set_task_status(
        project.stage_task_mapping@[0],
        TaskStatus::InProgress,
        now,
    )
}

/// The entry that tells a client that the project has been set up.
pub open spec fn spec_project_created(
    client: SupabaseConfigView,
    project_ref: u128,
    otto_project_id: u128,
) -> RemoteRequestView {
    client.create_project_update(
        project_ref,
        "project_created"@,
        "Otto Coder Project Created"@,
        "AI agents are now setting up your project. Initial review is starting..."@,
        Some(otto_project_id),
    )
}

/// What the creation of a project with given identifiers comes to: where
/// the identifiers are free, the new row, the store that holds it and its
/// tasks, and the entry that tells the client; else `LocalPersistFailed`
/// and an unchanged store.
pub open spec fn creation_outcome(
    client: SupabaseConfigView,
    before: StoreView,
    after: StoreView,
    created: Result<(WebAssistProject, Seq<RemoteRequestView>), ErrorView>,
    request: CreateRequestView,
    requirements: RequirementsView,
    otto_project_id: u128,
    row_id: u128,
    task_ids: Seq<u128>,
    now: i64,
) -> bool {
    if ids_are_free(before, row_id, task_ids) {
        &&& created matches Ok((project, calls))
        &&& is_new_project(project, request, otto_project_id, row_id, task_ids, now)
        &&& after == spec_store_with_project(before, request, requirements, project, now)
        &&& calls == seq![spec_project_created(client, request.project_id, otto_project_id)]
    } else {
        &&& after == before
        &&& created == Err::<(WebAssistProject, Seq<RemoteRequestView>), ErrorView>(
            ErrorView::LocalPersistFailed,
        )
    }
}

/// Adding the tasks of the first `n` stages appends their identifiers to
/// those of the tasks, and touches nothing else.
pub proof fn stage_tasks_extend_store(
    store: StoreView,
    request: CreateRequestView,
    requirements: RequirementsView,
    otto_project_id: u128,
    task_ids: Seq<u128>,
    now: i64,
    n: nat,
)
    requires
        n <= task_ids.len(),
        n <= STAGE_COUNT,
    ensures
        ({
            let after = spec_with_stage_tasks(
                store,
                request,
                requirements,
                otto_project_id,
                task_ids,
                now,
                n,
            );
            &&& after.projects == store.projects
            &&& after.approvals == store.approvals
            &&& after.tasks.len() == store.tasks.len() + n
            &&& after.tasks.subrange(0, store.tasks.len() as int) == store.tasks
            &&& after.task_ids() == store.task_ids() + task_ids.subrange(0, n as int)
            &&& forall|k: int|
                0 <= k < n ==> #[trigger] after.tasks[store.tasks.len() + k] == spec_stage_task(
                    request,
                    requirements,
                    otto_project_id,
                    stage_sequence()[k],
                    task_ids[k],
                    now,
                )
        }),
    decreases n,
{
    let after = spec_with_stage_tasks(
        store,
        request,
        requirements,
        otto_project_id,
        task_ids,
        now,
        n,
    );
    if n == 0 {
        assert(after.tasks.subrange(0, store.tasks.len() as int) =~= store.tasks);
        assert(after.task_ids() =~= store.task_ids() + task_ids.subrange(0, 0));
    } else {
        let m = (n - 1) as nat;
        stage_tasks_extend_store(store, request, requirements, otto_project_id, task_ids, now, m);
        let before = spec_with_stage_tasks(
            store,
            request,
            requirements,
            otto_project_id,
            task_ids,
            now,
            m,
        );
        assert(after.tasks.subrange(0, store.tasks.len() as int) =~= before.tasks.subrange(
            0,
            store.tasks.len() as int,
        ));
        assert(after.task_ids() =~= before.task_ids().push(task_ids[m as int]));
        assert(task_ids.subrange(0, n as int) =~= task_ids.subrange(0, m as int).push(
            task_ids[m as int],
        ));
        assert(after.task_ids() =~= store.task_ids() + task_ids.subrange(0, n as int));
        assert forall|k: int| 0 <= k < n implies #[trigger] after.tasks[store.tasks.len() + k]
            == spec_stage_task(
            request,
            requirements,
            otto_project_id,
            stage_sequence()[k],
            task_ids[k],
            now,
        ) by {
            if k < m {
                assert(after.tasks[store.tasks.len() + k] == before.tasks[store.tasks.len() + k]);
            }
        }
    }
}

/// A created project has one task for each stage. After a creation with
/// free identifiers the store holds the rows it held before, the new
/// project's row at the first stage, and nine new tasks in the order of the
/// stages: the task of each stage carries the stage's title and description
/// and is found under the identifier that the mapping gives for the stage;
/// the task of the first stage is in progress, the others are still to do.
pub proof fn created_project_has_one_task_per_stage(
    before: StoreView,
    request: CreateRequestView,
    requirements: RequirementsView,
    project: WebAssistProject,
    now: i64,
)
    requires
        before.wf(),
        ids_are_free(before, project.id, project.stage_task_mapping@),
        project.current_stage == WebAssistStage::InitialReview,
    ensures
        ({
            let after = spec_store_with_project(before, request, requirements, project, now);
            let mapping = project.stage_task_mapping@;
            &&& after.wf()
            &&& history_respected(before, after)
            &&& mapping.len() == STAGE_COUNT
            &&& after.projects == before.projects.push(project)
            &&& after.approvals == before.approvals
            &&& after.tasks.len() == before.tasks.len() + STAGE_COUNT
            &&& after.tasks.subrange(0, before.tasks.len() as int) == before.tasks
            &&& forall|k: int|
                0 <= k < STAGE_COUNT ==> {
                    let task = spec_stage_task(
                        request,
                        requirements,
                        project.otto_project_id,
                        stage_sequence()[k],
                        mapping[k],
                        now,
                    );
                    &&& after.task_index(#[trigger] mapping[k]) == Some(before.tasks.len() + k)
                    &&& after.tasks[before.tasks.len() + k] == if k == 0 {
                        TaskView { status: TaskStatus::InProgress, ..task }
                    } else {
                        task
                    }
                }
        }),
{
    project.stage_task_mapping.has_one_entry_per_stage();
    let mapping = project.stage_task_mapping@;
    let n = STAGE_COUNT as nat;
    let with_tasks = spec_with_stage_tasks(
        before,
        request,
        requirements,
        project.otto_project_id,
        mapping,
        now,
        n,
    );
    stage_tasks_extend_store(before, request, requirements, project.otto_project_id, mapping, now, n);
    assert(mapping.subrange(0, n as int) =~= mapping);
    let ids = with_tasks.task_ids();
    assert(ids == before.task_ids() + mapping);
    assert(ids.no_duplicates()) by {
        assert forall|i: int, j: int| 0 <= i < ids.len() && 0 <= j < ids.len() && i != j implies ids[i]
            != ids[j] by {
            let base = before.task_ids().len();
            if i < base && j >= base {
                assert(mapping[j - base] == ids[j]);
                assert(before.task_ids()[i] == ids[i]);
                assert(before.task_ids().contains(ids[i]));
            } else if j < base && i >= base {
                assert(mapping[i - base] == ids[i]);
                assert(before.task_ids()[j] == ids[j]);
                assert(before.task_ids().contains(ids[j]));
            } else if i < base && j < base {
                assert(before.task_ids()[i] == ids[i]);
                assert(before.task_ids()[j] == ids[j]);
            } else {
                assert(mapping[i - base] == ids[i]);
                assert(mapping[j - base] == ids[j]);
            }
        }
    }
    assert(with_tasks.project_ids() =~= before.project_ids());
    assert(with_tasks.approval_ids() =~= before.approval_ids());
    assert(with_tasks.wf());
    let with_row = with_tasks.with_project(project);
    before.project_ids().index_of_first_ensures(project.id);
    assert(with_row.project_ids() =~= before.project_ids().push(project.id));
    assert(with_row.approval_ids() =~= with_tasks.approval_ids());
    assert(with_row.task_ids() =~= ids);
    assert(with_row.wf());
    let after = with_row.set_task_status(mapping[0], TaskStatus::InProgress, now);
    assert(ids[before.tasks.len() as int] == mapping[0]);
    crate::store::first_index_unique(ids, before.tasks.len() as int);
    assert(with_row.task_index(mapping[0]) == Some(before.tasks.len() as int));
    assert(after.task_ids() =~= ids);
    assert(after.project_ids() =~= with_row.project_ids());
    assert(after.approval_ids() =~= with_row.approval_ids());
    assert(after.tasks.subrange(0, before.tasks.len() as int) =~= before.tasks);
    assert forall|k: int| 0 <= k < STAGE_COUNT implies {
        let task = spec_stage_task(
            request,
            requirements,
            project.otto_project_id,
            stage_sequence()[k],
            mapping[k],
            now,
        );
        &&& after.task_index(#[trigger] mapping[k]) == Some(before.tasks.len() + k)
        &&& after.tasks[before.tasks.len() + k] == if k == 0 {
            TaskView { status: TaskStatus::InProgress, ..task }
        } else {
            task
        }
    } by {
        assert(ids[before.tasks.len() + k] == mapping[k]);
        crate::store::first_index_unique(ids, before.tasks.len() + k);
        assert(with_tasks.tasks[before.tasks.len() + k] == spec_stage_task(
            request,
            requirements,
            project.otto_project_id,
            stage_sequence()[k],
            mapping[k],
            now,
        ));
    }
}

/// Creates projects and processes the answers to approvals.
pub struct ProjectManager {
    supabase_client: SupabaseClient,
    projects_directory: String,
}

impl ProjectManager {
    /// How the remote backend is reached.
    pub closed spec fn client(&self) -> SupabaseConfigView {
        self.supabase_client@
    }

    /// The directory that holds the projects.
    pub closed spec fn directory(&self) -> Seq<char> {
        self.projects_directory@
    }

    /// A manager that builds its requests with this client and plans projects below this directory.
    pub fn new(supabase_client: SupabaseClient, projects_directory: String) -> (manager:
        ProjectManager)
        ensures
            manager.client() == supabase_client@,
            manager.directory() == projects_directory@,
    {
        ProjectManager { supabase_client, projects_directory }
    }

    /// Processes a client's answer to an approval. The requests that it
    /// hands out are to be sent; none of them, if it fails, undoes what the
    /// store holds.
    ///
    /// Fails, with the store unchanged, where the project or the approval is
    /// missing (`NotFound`) and where the approval has an answer already
    /// (`Conflict`).
    pub fn handle_approval_response(
        &self,
        store: &mut LocalStore,
        webassist_project_id: u128,
        approval_id: u128,
        status: ApprovalStatus,
        feedback: Option<String>,
        now: i64,
    ) -> (calls: Result<Vec<RemoteRequest>, WebAssistError>)
        requires
            old(store)@.wf(),
        ensures
            final(store)@.wf(),
            (final(store)@, view_result(calls)) == spec_handle_approval_response(
                self.client(),
                old(store)@,
                webassist_project_id,
                approval_id,
                status,
                feedback.deep_view(),
                now,
            ),
    {
        let project = match store.project_by_remote_id(webassist_project_id) {
            Some(project) => project,
            None => {
                return Err(WebAssistError::NotFound(Missing::Project));
            },
        };
        let stage = match store.approval_by_id(approval_id) {
            Some(approval) => approval.stage_name,
            None => {
                return Err(WebAssistError::NotFound(Missing::Approval));
            },
        };
        let feedback_copy = clone_text(&feedback);
        let told = match respond_and_tell(
            &self.supabase_client,
            store,
            approval_id,
            status,
            feedback,
            now,
        ) {
            Ok(told) => told,
            Err(e) => {
                return Err(e);
            },
        };
        let mut calls: Vec<RemoteRequest> = Vec::new();
        match told {
            Some(request) => {
                calls.push(request);
            },
            None => {},
        }
        assert(calls.deep_view() =~= spec_maybe(told.deep_view()));
        match status {
            ApprovalStatus::Approved => {
                match stage.next_stage() {
                    Some(next) => {
                        self.start_next_stage(store, project.id, next, now);
                    },
                    None => {},
                }
            },
            ApprovalStatus::Rejected | ApprovalStatus::ChangesRequested => {
                store.set_sync_status(project.id, SyncStatus::Paused, now);
                let mut message = String::from_str("Client requested changes: ");
                match as_text(&feedback_copy) {
                    Some(text) => message.append(text),
                    None => message.append("No feedback provided"),
                }
                let ghost before = calls.deep_view();
                let notice = self.supabase_client.create_project_update(
                    webassist_project_id,
                    "approval_rejected",
                    "Changes Requested",
                    message.as_str(),
                    None,
                );
                calls.push(notice);
                assert(calls.deep_view() =~= before.push(notice@));
            },
            ApprovalStatus::Pending => {},
        }
        Ok(calls)
    }

    /// The first step of a creation: the request that reads the
    /// requirements. Its reply goes to `read_requirements`.
    pub fn begin_create(&self, request: &CreateWebAssistProjectRequest) -> (fetch: RemoteRequest)
        ensures
            fetch@ == self.client().get_wizard_completion(request.wizard_completion_id),
    {
        self.supabase_client.get_wizard_completion(request.wizard_completion_id)
    }

    /// What a record of requirements says, as far as the briefs use it: the
    /// industry, the audience and the requirements, each where the record
    /// holds it as a string.
    pub fn requirements_of(record: &Vec<(String, JsonField)>) -> (requirements: Requirements)
        ensures
            requirements@ == spec_requirements_of(record.deep_view()),
    {
        Requirements {
            industry: own_text(text_member(record, "industry")),
            target_audience: own_text(text_member(record, "targetAudience")),
            requirements: own_text(text_member(record, "requirements")),
        }
    }

    /// Reads the reply to `begin_create`. Any failure to get the
    /// requirements ends the creation with `RemoteFetchFailed`.
    pub fn read_requirements(reply: RemoteReply) -> (read: Result<Requirements, WebAssistError>)
        ensures
            view_result(read) == spec_read_requirements(reply@),
    {
        match first_record(reply) {
            Ok(record) => Ok(Self::requirements_of(&record)),
            Err(WebAssistError::RemoteCallFailed { status, detail }) => Err(
                WebAssistError::RemoteFetchFailed { status, detail },
            ),
            Err(WebAssistError::NotFound(_)) => Err(
                WebAssistError::RemoteFetchFailed {
                    status: None,
                    detail: String::from_str("no requirements on record"),
                },
            ),
            Err(_) => Err(
                WebAssistError::RemoteFetchFailed {
                    status: None,
                    detail: String::from_str("unreadable reply"),
                },
            ),
        }
    }

    /// The second step of a creation: what is to be set up outside this
    /// library. Its outcome goes to `create_project_from_webhook`.
    pub fn scaffold_plan(&self, request: &CreateWebAssistProjectRequest) -> (plan: ScaffoldPlan)
        ensures
            plan@ == spec_scaffold_plan(self.directory(), request@),
    {
        let mut project_name = request.company_name.clone();
        project_name.append(" (");
        project_name.append(request.project_number.as_str());
        project_name.append(")");
        ScaffoldPlan {
            root: self.projects_directory.clone(),
            directory_name: id_to_text(request.project_id),
            repository_name: "project",
            project_name,
            setup_script: "npm install",
            dev_script: "npm run dev",
        }
    }

    /// The last steps of a creation, with fresh identifiers for the project
    /// row and its tasks. `scaffolded` is the outcome of the plan: the
    /// identifier of the local project, or the reason why it could not be
    /// set up, which ends the creation with `ScaffoldFailed`. See
    /// `create_project_with_ids` for what happens once the identifiers are
    /// drawn.
    pub fn create_project_from_webhook(
        &self,
        store: &mut LocalStore,
        request: &CreateWebAssistProjectRequest,
        requirements: &Requirements,
        scaffolded: Result<u128, String>,
        now: i64,
    ) -> (created: Result<(WebAssistProject, Vec<RemoteRequest>), WebAssistError>)
        requires
            old(store)@.wf(),
        ensures
            final(store)@.wf(),
            match scaffolded {
                Err(reason) => final(store)@ == old(store)@ && view_result(created) == Err::<
                    (WebAssistProject, Seq<RemoteRequestView>),
                    ErrorView,
                >(ErrorView::ScaffoldFailed { reason: reason@ }),
                Ok(otto_project_id) => exists|row_id: u128, task_ids: Seq<u128>|
                    task_ids.len() == STAGE_COUNT && creation_outcome(
                        self.client(),
                        old(store)@,
                        final(store)@,
                        view_result(created),
                        request@,
                        requirements@,
                        otto_project_id,
                        row_id,
                        task_ids,
                        now,
                    ),
            },
    {
        let otto_project_id = match scaffolded {
            Ok(id) => id,
            Err(reason) => {
                return Err(WebAssistError::ScaffoldFailed { reason });
            },
        };
        let row_id = fresh_id();
        let task_ids: [u128; 9] = [
            fresh_id(),
            fresh_id(),
            fresh_id(),
            fresh_id(),
            fresh_id(),
            fresh_id(),
            fresh_id(),
            fresh_id(),
            fresh_id(),
        ];
        broadcast use vstd::array::group_array_axioms;

        self.create_project_with_ids(
            store,
            request,
            requirements,
            otto_project_id,
            row_id,
            task_ids,
            now,
        )
    }

    /// Creates the project of a request: one task for each stage in the
    /// order of the stages, the project's row at the first stage with its
    /// mapping complete, the entry that tells the client, and the first
    /// task set in progress. The entry is to be sent; the project stands
    /// whether or not that succeeds.
    ///
    /// Fails with `LocalPersistFailed`, and changes nothing, where one of the
    /// identifiers is in use or two of them are equal.
    pub fn create_project_with_ids(
        &self,
        store: &mut LocalStore,
        request: &CreateWebAssistProjectRequest,
        requirements: &Requirements,
        otto_project_id: u128,
        row_id: u128,
        task_ids: [u128; 9],
        now: i64,
    ) -> (created: Result<(WebAssistProject, Vec<RemoteRequest>), WebAssistError>)
        requires
            old(store)@.wf(),
        ensures
            final(store)@.wf(),
            task_ids@.len() == STAGE_COUNT,
            creation_outcome(
                self.client(),
                old(store)@,
                final(store)@,
                view_result(created),
                request@,
                requirements@,
                otto_project_id,
                row_id,
                task_ids@,
                now,
            ),
    {
        broadcast use vstd::array::group_array_axioms;

        if !Self::ids_free(store, row_id, &task_ids) {
            return Err(WebAssistError::LocalPersistFailed);
        }
        let mapping = StageTaskMapping::new(task_ids);
        self.create_stage_tasks(store, otto_project_id, request, requirements, &mapping, now);
        let project = WebAssistProject {
            id: row_id,
            webassist_project_id: request.project_id,
            otto_project_id,
            current_stage: WebAssistStage::InitialReview,
            stage_task_mapping: mapping,
            sync_status: SyncStatus::Active,
            last_synced_at: None,
            created_at: now,
            updated_at: now,
        };
        proof {
            stage_tasks_extend_store(
                old(store)@,
                request@,
                requirements@,
                otto_project_id,
                task_ids@,
                now,
                STAGE_COUNT as nat,
            );
            assert(store@.project_ids() =~= old(store)@.project_ids());
        }
        match store.insert_project(project) {
            Ok(_) => {},
            Err(_) => {
                assert(false);
                return Err(WebAssistError::LocalPersistFailed);
            },
        }
        Self::start_first_task(store, &mapping, now);
        let notice = self.supabase_client.create_project_update(
            request.project_id,
            "project_created",
            "Otto Coder Project Created",
            "AI agents are now setting up your project. Initial review is starting...",
            Some(otto_project_id),
        );
        let mut calls: Vec<RemoteRequest> = Vec::new();
        calls.push(notice);
        assert(calls.deep_view() =~= seq![notice@]);
        Ok((project, calls))
    }

    fn ids_free(store: &LocalStore, row_id: u128, task_ids: &[u128; 9]) -> (free: bool)
        ensures
            free == ids_are_free(store@, row_id, task_ids@),
    {
        broadcast use vstd::array::group_array_axioms;

        if store.has_project(row_id) {
            return false;
        }
        let mut i: usize = 0;
        while i < STAGE_COUNT
            invariant
                i <= STAGE_COUNT,
                task_ids@.len() == STAGE_COUNT,
                forall|k: int| 0 <= k < i ==> !store@.task_ids().contains(#[trigger] task_ids@[k]),
                forall|k: int, l: int| 0 <= k < l < i ==> task_ids@[k] != task_ids@[l],
            decreases STAGE_COUNT - i,
        {
            if store.has_task(task_ids[i]) {
                return false;
            }
            let mut j: usize = 0;
            while j < i
                invariant
                    j <= i < STAGE_COUNT,
                    task_ids@.len() == STAGE_COUNT,
                    forall|k: int| 0 <= k < j ==> task_ids@[k] != task_ids@[i as int],
                decreases i - j,
            {
                if task_ids[j] == task_ids[i] {
                    assert(!task_ids@.no_duplicates());
                    return false;
                }
                j = j + 1;
            }
            i = i + 1;
        }
        true
    }

    fn create_stage_tasks(
        &self,
        store: &mut LocalStore,
        otto_project_id: u128,
        request: &CreateWebAssistProjectRequest,
        requirements: &Requirements,
        mapping: &StageTaskMapping,
        now: i64,
    )
        requires
            old(store)@.wf(),
            mapping@.len() == STAGE_COUNT,
            mapping@.no_duplicates(),
            forall|i: int|
                0 <= i < mapping@.len() ==> !old(store)@.task_ids().contains(#[trigger] mapping@[i]),
        ensures
            final(store)@.wf(),
            final(store)@ == spec_with_stage_tasks(
                old(store)@,
                request@,
                requirements@,
                otto_project_id,
                mapping@,
                now,
                STAGE_COUNT as nat,
            ),
    {
        let stages = WebAssistStage::all_stages();
        let mut i: usize = 0;
        while i < STAGE_COUNT
            invariant
                i <= STAGE_COUNT,
                stages@ == stage_sequence(),
                mapping@.len() == STAGE_COUNT,
                mapping@.no_duplicates(),
                forall|k: int|
                    0 <= k < mapping@.len() ==> !old(store)@.task_ids().contains(
                        #[trigger] mapping@[k],
                    ),
                store@.wf(),
                store@ == spec_with_stage_tasks(
                    old(store)@,
                    request@,
                    requirements@,
                    otto_project_id,
                    mapping@,
                    now,
                    i as nat,
                ),
            decreases STAGE_COUNT - i,
        {
            let stage = stages[i];
            let task_id = mapping.task_for(stage);
            let task = Task {
                id: task_id,
                project_id: otto_project_id,
                title: stage_title(stage),
                description: Some(stage_description(stage, request, requirements)),
                status: TaskStatus::Todo,
                parent_task_attempt: None,
                created_at: now,
                updated_at: now,
            };
            proof {
                stage_tasks_extend_store(
                    old(store)@,
                    request@,
                    requirements@,
                    otto_project_id,
                    mapping@,
                    now,
                    i as nat,
                );
                let sofar = mapping@.subrange(0, i as int);
                assert(!sofar.contains(task_id)) by {
                    if sofar.contains(task_id) {
                        let k = choose|k: int| 0 <= k < sofar.len() && sofar[k] == task_id;
                        assert(mapping@[k] == mapping@[i as int]);
                    }
                }
                assert(!store@.task_ids().contains(task_id)) by {
                    if store@.task_ids().contains(task_id) {
                        let k = choose|k: int|
                            0 <= k < store@.task_ids().len() && store@.task_ids()[k] == task_id;
                        if k < old(store)@.task_ids().len() {
                            assert(old(store)@.task_ids()[k] == task_id);
                            assert(old(store)@.task_ids().contains(task_id));
                        } else {
                            assert(sofar[k - old(store)@.task_ids().len()] == task_id);
                        }
                    }
                }
                store@.task_ids().index_of_first_ensures(task_id);
            }
            match store.insert_task(task) {
                Ok(_) => {},
                Err(_) => {
                    assert(false);
                },
            }
            i = i + 1;
        }
    }

    fn start_first_task(store: &mut LocalStore, mapping: &StageTaskMapping, now: i64)
        requires
            old(store)@.wf(),
        ensures
            final(store)@.wf(),
            mapping@.len() == STAGE_COUNT,
            final(store)@ == old(store)@.set_task_status(mapping@[0], TaskStatus::InProgress, now),
    {
        let first = mapping.task_for(WebAssistStage::InitialReview);
        store.set_task_status(first, TaskStatus::InProgress, now);
    }

    fn start_next_stage(
        &self,
        store: &mut LocalStore,
        project_row_id: u128,
        next_stage: WebAssistStage,
        now: i64,
    )
        requires
            old(store)@.wf(),
        ensures
            final(store)@.wf(),
            final(store)@ == old(store)@.advance_project(project_row_id, next_stage, now),
    {
        store.advance_project(project_row_id, next_stage, now);
    }
}

} // verus!
