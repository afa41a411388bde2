//! Reacts to the completion of a stage's task: a gated stage waits for its
//! approval, any other stage hands over to the next one.

use vstd::prelude::*;
use vstd::string::*;

use crate::approval_sync::{create_approval, spec_create_approval_request};
use crate::encoding::fresh_id;
use crate::error::{view_result, ErrorView, Missing, WebAssistError};
use crate::models::{DeliverableView, WebAssistStage};
use crate::store::{history_respected, LocalStore, StoreView};
use crate::supabase_client::{
    RemoteRequest, RemoteRequestView, SupabaseClient, SupabaseConfigView,
};

verus! {

/// What the completion of a stage's task led to. Every request in it is to
/// be sent; none of them, if it fails, undoes what the store holds.
#[derive(Clone, Debug, PartialEq, Eq)]
pub enum StageOutcome {
    /// The task is not that of the project's current stage: a stale,
    /// repeated or early signal.
    Ignored,
    /// A pending approval was written. `registration` makes it known to the
    /// remote backend, and the reply to it goes to
    /// `ApprovalSync::record_remote_approval`; `notification` tells the
    /// client that input is needed.
    ApprovalRequested { approval_id: u128, registration: RemoteRequest, notification: RemoteRequest },
    /// The stage has an approval that waits; none was added.
    ApprovalAlreadyPending { notification: RemoteRequest },
    /// The project has moved to the next stage.
    Advanced { next: WebAssistStage, notification: RemoteRequest, stage_update: RemoteRequest },
    /// The last stage is complete.
    Delivered { notification: RemoteRequest, stage_update: RemoteRequest },
}

/// `StageOutcome` by the plain values that it holds.
pub enum StageOutcomeView {
    Ignored,
    ApprovalRequested {
        approval_id: u128,
        registration: RemoteRequestView,
        notification: RemoteRequestView,
    },
    ApprovalAlreadyPending { notification: RemoteRequestView },
    Advanced { next: WebAssistStage, notification: RemoteRequestView, stage_update: RemoteRequestView },
    Delivered { notification: RemoteRequestView, stage_update: RemoteRequestView },
}

impl View for StageOutcome {
    type V = StageOutcomeView;

    open spec fn view(&self) -> StageOutcomeView {
        match self {
            StageOutcome::Ignored => StageOutcomeView::Ignored,
            StageOutcome::ApprovalRequested {
                approval_id,
                registration,
                notification,
            } => StageOutcomeView::ApprovalRequested {
                approval_id: *approval_id,
                registration: registration@,
                notification: notification@,
            },
            StageOutcome::ApprovalAlreadyPending {
                notification,
            } => StageOutcomeView::ApprovalAlreadyPending { notification: notification@ },
            StageOutcome::Advanced { next, notification, stage_update } => StageOutcomeView::Advanced {
                next: *next,
                notification: notification@,
                stage_update: stage_update@,
            },
            StageOutcome::Delivered { notification, stage_update } => StageOutcomeView::Delivered {
                notification: notification@,
                stage_update: stage_update@,
            },
        }
    }
}

impl DeepView for StageOutcome {
    type V = StageOutcomeView;

    open spec fn deep_view(&self) -> StageOutcomeView {
        self@
    }
}

/// The entry that tells a client that a stage waits for approval.
pub open spec fn spec_approval_needed(
    client: SupabaseConfigView,
    project_ref: u128,
    stage: WebAssistStage,
) -> RemoteRequestView {
    client.create_project_update(
        project_ref,
        "approval_requested"@,
        "Your Approval Needed"@,
        "Stage '"@ + stage.spec_display_name() + "' is complete and ready for your review."@,
        None,
    )
}

/// The entry that tells a client that a stage has begun.
pub open spec fn spec_stage_started(
    client: SupabaseConfigView,
    project_ref: u128,
    stage: WebAssistStage,
) -> RemoteRequestView {
    client.create_project_update(
        project_ref,
        "stage_started"@,
        "Stage Started: "@ + stage.spec_display_name(),
        "AI agents are now working on "@ + stage.spec_display_name(),
        None,
    )
}

/// The entry that tells a client that the project is delivered.
pub open spec fn spec_project_completed(
    client: SupabaseConfigView,
    project_ref: u128,
) -> RemoteRequestView {
    client.create_project_update(
        project_ref,
        "project_completed"@,
        "🎉 Project Delivered!"@,
        "Your website is complete and has been delivered. Thank you!"@,
        None,
    )
}

/// The store after the task of `completed` has ended, and what it led to.
///
/// A task of a stage that is not the project's current one changes
/// nothing. A gated stage gets a pending approval unless one waits, and the
/// client is told that input is needed. Any other stage hands over to its
/// successor at 0 percent; the last stage ends the project at 100 percent.
pub open spec fn spec_on_task_completed(
    client: SupabaseConfigView,
    store: StoreView,
    project_ref: u128,
    completed: WebAssistStage,
    approval_id: u128,
    remote_stage_id: u128,
    now: i64,
) -> (StoreView, Result<StageOutcomeView, ErrorView>) {
    match store.project_by_remote(project_ref) {
        None => (store, Err(ErrorView::NotFound(Missing::Project))),
        Some(project) => if project.current_stage != completed {
            (store, Ok(StageOutcomeView::Ignored))
        } else if completed.spec_requires_approval() {
            let notification = spec_approval_needed(client, project_ref, completed);
            if store.has_pending(project.id, completed) {
                (store, Ok(StageOutcomeView::ApprovalAlreadyPending { notification }))
            } else {
                match spec_create_approval_request(
                    client,
                    store,
                    project_ref,
                    completed,
                    None,
                    Seq::<DeliverableView>::empty(),
                    approval_id,
                    remote_stage_id,
                    now,
                ) {
                    (next, Ok((id, registration))) => (
                        next,
                        Ok(
                            StageOutcomeView::ApprovalRequested {
                                approval_id: id,
                                registration,
                                notification,
                            },
                        ),
                    ),
                    (next, Err(e)) => (next, Err(e)),
                }
            }
        } else {
            match completed.spec_next() {
                Some(next) => (
                    store.advance_project(project.id, next, now),
                    Ok(
                        StageOutcomeView::Advanced {
                            next,
                            notification: spec_stage_started(client, project_ref, next),
                            stage_update: client.update_project_stage(project_ref, next, 0, now),
                        },
                    ),
                ),
                None => (
                    store,
                    Ok(
                        StageOutcomeView::Delivered {
                            notification: spec_project_completed(client, project_ref),
                            stage_update: client.update_project_stage(
                                project_ref,
                                WebAssistStage::Delivered,
                                100,
                                now,
                            ),
                        },
                    ),
                ),
            }
        },
    }
}

/// A repeated completion adds no second approval. Where the task of a
/// project's current stage completes, the stage is gated, and the
/// identifier drawn for the approval is unused or an approval waits
/// already, then after this completion and an immediate second one exactly
/// one approval waits for the stage of the project: the second completion
/// finds it, leaves the store as it is, and only tells the client again.
pub proof fn repeated_completion_leaves_one_pending(
    client: SupabaseConfigView,
    store: StoreView,
    project_ref: u128,
    stage: WebAssistStage,
    approval_id: u128,
    remote_stage_id: u128,
    now: i64,
    again_approval_id: u128,
    again_remote_stage_id: u128,
    later: i64,
)
    requires
        store.wf(),
        stage.spec_requires_approval(),
        store.project_by_remote(project_ref) matches Some(project) && project.current_stage == stage
            && (store.approval_index(approval_id).is_none() || store.has_pending(
            project.id,
            stage,
        )),
    ensures
        ({
            let project = store.project_by_remote(project_ref).unwrap();
            let first = spec_on_task_completed(
                client,
                store,
                project_ref,
                stage,
                approval_id,
                remote_stage_id,
                now,
            );
            let second = spec_on_task_completed(
                client,
                first.0,
                project_ref,
                stage,
                again_approval_id,
                again_remote_stage_id,
                later,
            );
            &&& first.1.is_ok()
            &&& second.0 == first.0
            &&& second.0.wf()
            &&& second.0.has_exactly_one_pending(project.id, stage)
            &&& second.1 == Ok::<StageOutcomeView, ErrorView>(
                StageOutcomeView::ApprovalAlreadyPending {
                    notification: spec_approval_needed(client, project_ref, stage),
                },
            )
            &&& !store.has_pending(project.id, stage) ==> first.0.approvals.len()
                == store.approvals.len() + 1
            &&& store.has_pending(project.id, stage) ==> first.0 == store
        }),
{
    let project = store.project_by_remote(project_ref).unwrap();
    let first = spec_on_task_completed(
        client,
        store,
        project_ref,
        stage,
        approval_id,
        remote_stage_id,
        now,
    );
    if !store.has_pending(project.id, stage) {
        let added = crate::store::spec_pending_approval(
            approval_id,
            project.id,
            stage,
            None,
            Seq::<DeliverableView>::empty(),
            now,
        );
        store.with_approval_keeps_rules(added);
        assert(first.0 == store.with_approval(added));
        assert(first.0.project_remote_ids() =~= store.project_remote_ids());
    }
    assert(first.0.project_by_remote(project_ref) == Some(project));
    assert(first.0.has_pending(project.id, stage));
    first.0.pending_is_single(project.id, stage);
}

/// The completion of a task never undoes history, and keeps the rules of
/// the store: no project row loses its place, its identifiers or its
/// mapping, and no stage moves backward.
pub proof fn completion_respects_history(
    client: SupabaseConfigView,
    store: StoreView,
    project_ref: u128,
    completed: WebAssistStage,
    approval_id: u128,
    remote_stage_id: u128,
    now: i64,
)
    requires
        store.wf(),
    ensures
        spec_on_task_completed(
            client,
            store,
            project_ref,
            completed,
            approval_id,
            remote_stage_id,
            now,
        ).0.wf(),
        history_respected(
            store,
            spec_on_task_completed(
                client,
                store,
                project_ref,
                completed,
                approval_id,
                remote_stage_id,
                now,
            ).0,
        ),
{
    match store.project_by_remote(project_ref) {
        Some(project) => {
            if completed.spec_requires_approval() {
                if !store.has_pending(project.id, completed) && store.approval_index(
                    approval_id,
                ).is_none() {
                    store.with_approval_keeps_rules(
                        crate::store::spec_pending_approval(
                            approval_id,
                            project.id,
                            completed,
                            None,
                            Seq::<DeliverableView>::empty(),
                            now,
                        ),
                    );
                }
            } else {
                match completed.spec_next() {
                    Some(next) => {
                        store.advance_keeps_rules(project.id, next, now);
                    },
                    None => {},
                }
            }
        },
        None => {},
    }
}

/// Moves projects through their stages as tasks complete.
pub struct StageExecutor {
    supabase_client: SupabaseClient,
}

impl StageExecutor {
    /// How the remote backend is reached.
    pub closed spec fn client(&self) -> SupabaseConfigView {
        self.supabase_client@
    }

    /// An executor that builds its requests with this client.
    pub fn new(supabase_client: SupabaseClient) -> (executor: StageExecutor)
        ensures
            executor.client() == supabase_client@,
    {
        StageExecutor { supabase_client }
    }

    /// Reacts to the completion of the task of a stage, with fresh
    /// identifiers for an approval that may have to be written. See
    /// `on_task_completed_with` for what happens once they are drawn.
    pub fn on_task_completed(
        &self,
        store: &mut LocalStore,
        project_ref: u128,
        completed_stage: WebAssistStage,
        now: i64,
    ) -> (outcome: Result<StageOutcome, WebAssistError>)
        requires
            old(store)@.wf(),
        ensures
            final(store)@.wf(),
            exists|approval_id: u128, remote_stage_id: u128|
                (final(store)@, view_result(outcome)) == spec_on_task_completed(
                    self.client(),
                    old(store)@,
                    project_ref,
                    completed_stage,
                    approval_id,
                    remote_stage_id,
                    now,
                ),
    {
        let approval_id = fresh_id();
        let remote_stage_id = fresh_id();
        self.on_task_completed_with(
            store,
            project_ref,
            completed_stage,
            approval_id,
            remote_stage_id,
            now,
        )
    }

    /// Reacts to the completion of the task of a stage. `approval_id` and
    /// `remote_stage_id` are used where a pending approval is written.
    ///
    /// Fails where no project stands for `project_ref`, and where a pending
    /// approval is due and `approval_id` is in use; the store is unchanged
    /// then.
    pub fn on_task_completed_with(
        &self,
        store: &mut LocalStore,
        project_ref: u128,
        completed_stage: WebAssistStage,
        approval_id: u128,
        remote_stage_id: u128,
        now: i64,
    ) -> (outcome: Result<StageOutcome, WebAssistError>)
        requires
            old(store)@.wf(),
        ensures
            final(store)@.wf(),
            (final(store)@, view_result(outcome)) == spec_on_task_completed(
                self.client(),
                old(store)@,
                project_ref,
                completed_stage,
                approval_id,
                remote_stage_id,
                now,
            ),
    {
        let project = match store.project_by_remote_id(project_ref) {
            Some(project) => project,
            None => {
                return Err(WebAssistError::NotFound(Missing::Project));
            },
        };
        if project.current_stage != completed_stage {
            return Ok(StageOutcome::Ignored);
        }
        if completed_stage.requires_approval() {
            self.handle_approval_required_stage(
                store,
                project_ref,
                project.id,
                completed_stage,
                approval_id,
                remote_stage_id,
                now,
            )
        } else {
            Ok(self.advance_to_next_stage(store, project_ref, project.id, completed_stage, now))
        }
    }

    fn handle_approval_required_stage(
        &self,
        store: &mut LocalStore,
        project_ref: u128,
        project_row_id: u128,
        stage: WebAssistStage,
        approval_id: u128,
        remote_stage_id: u128,
        now: i64,
    ) -> (outcome: Result<StageOutcome, WebAssistError>)
        requires
            old(store)@.wf(),
            old(store)@.project_by_remote(project_ref) matches Some(p) && p.id == project_row_id,
            stage.spec_requires_approval(),
        ensures
            final(store)@.wf(),
            (final(store)@, view_result(outcome)) == (if old(store)@.has_pending(
                project_row_id,
                stage,
            ) {
                (
                    old(store)@,
                    Ok(
                        StageOutcomeView::ApprovalAlreadyPending {
                            notification: spec_approval_needed(self.client(), project_ref, stage),
                        },
                    ),
                )
            } else {
                match spec_create_approval_request(
                    self.client(),
                    old(store)@,
                    project_ref,
                    stage,
                    None,
                    Seq::<DeliverableView>::empty(),
                    approval_id,
                    remote_stage_id,
                    now,
                ) {
                    (next, Ok((id, registration))) => (
                        next,
                        Ok(
                            StageOutcomeView::ApprovalRequested {
                                approval_id: id,
                                registration,
                                notification: spec_approval_needed(
                                    self.client(),
                                    project_ref,
                                    stage,
                                ),
                            },
                        ),
                    ),
                    (next, Err(e)) => (next, Err(e)),
                }
            }),
    {
        let mut message = String::from_str("Stage '");
        message.append(stage.display_name());
        message.append("' is complete and ready for your review.");
        let notification = self.supabase_client.create_project_update(
            project_ref,
            "approval_requested",
            "Your Approval Needed",
            message.as_str(),
            None,
        );
        if store.has_pending_approval(project_row_id, stage) {
            return Ok(StageOutcome::ApprovalAlreadyPending { notification });
        }
        let deliverables: Vec<crate::models::Deliverable> = Vec::new();
        assert(deliverables.deep_view() =~= Seq::<DeliverableView>::empty());
        match create_approval(
            &self.supabase_client,
            store,
            project_ref,
            stage,
            None,
            deliverables,
            approval_id,
            remote_stage_id,
            now,
        ) {
            Ok((id, registration)) => Ok(
                StageOutcome::ApprovalRequested { approval_id: id, registration, notification },
            ),
            Err(e) => Err(e),
        }
    }

    fn advance_to_next_stage(
        &self,
        store: &mut LocalStore,
        project_ref: u128,
        project_row_id: u128,
        current_stage: WebAssistStage,
        now: i64,
    ) -> (outcome: StageOutcome)
        requires
            old(store)@.wf(),
        ensures
            final(store)@.wf(),
            match current_stage.spec_next() {
                Some(next) => final(store)@ == old(store)@.advance_project(
                    project_row_id,
                    next,
                    now,
                ) && outcome@ == (StageOutcomeView::Advanced {
                    next,
                    notification: spec_stage_started(self.client(), project_ref, next),
                    stage_update: self.client().update_project_stage(project_ref, next, 0, now),
                }),
                None => final(store)@ == old(store)@ && outcome@ == (StageOutcomeView::Delivered {
                    notification: spec_project_completed(self.client(), project_ref),
                    stage_update: self.client().update_project_stage(
                        project_ref,
                        WebAssistStage::Delivered,
                        100,
                        now,
                    ),
                }),
            },
    {
        match current_stage.next_stage() {
            Some(next) => {
                store.advance_project(project_row_id, next, now);
                let mut title = String::from_str("Stage Started: ");
                title.append(next.display_name());
                let mut message = String::from_str("AI agents are now working on ");
                message.append(next.display_name());
                let notification = self.supabase_client.create_project_update(
                    project_ref,
                    "stage_started",
                    title.as_str(),
                    message.as_str(),
                    None,
                );
                let stage_update = self.supabase_client.update_project_stage(
                    project_ref,
                    next,
                    0,
                    now,
                );
                StageOutcome::Advanced { next, notification, stage_update }
            },
            None => self.handle_project_completion(project_ref, now),
        }
    }

    fn handle_project_completion(&self, project_ref: u128, now: i64) -> (outcome: StageOutcome)
        ensures
            outcome@ == (StageOutcomeView::Delivered {
                notification: spec_project_completed(self.client(), project_ref),
                stage_update: self.client().update_project_stage(
                    project_ref,
                    WebAssistStage::Delivered,
                    100,
                    now,
                ),
            }),
    {
        let notification = self.supabase_client.create_project_update(
            project_ref,
            "project_completed",
            "🎉 Project Delivered!",
            "Your website is complete and has been delivered. Thank you!",
            None,
        );
        let stage_update = self.supabase_client.update_project_stage(
            project_ref,
            WebAssistStage::Delivered,
            100,
            now,
        );
        StageOutcome::Delivered { notification, stage_update }
    }

    /// The request that records a file or link that a stage has produced.
    pub fn register_deliverable(
        &self,
        otto_project_id: u128,
        stage: WebAssistStage,
        name: &str,
        url: &str,
        file_type: &str,
        description: Option<&str>,
        mime_type: Option<&str>,
        size_bytes: Option<i64>,
    ) -> (request: RemoteRequest)
        ensures
            request@ == self.client().create_otto_coder_deliverable(
                otto_project_id,
                stage.spec_name(),
                name@,
                url@,
                file_type@,
                description.deep_view(),
                mime_type.deep_view(),
                size_bytes,
            ),
    {
        self.supabase_client.create_otto_coder_deliverable(
            otto_project_id,
            stage.as_str(),
            name,
            url,
            file_type,
            description,
            mime_type,
            size_bytes,
        )
    }
}

} // verus!
