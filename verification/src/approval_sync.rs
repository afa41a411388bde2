//! Approvals in both directions: the local row is written first, the remote
//! backend is told afterwards, and what the backend answers is recorded when
//! the answer is handed in.

use vstd::prelude::*;

use crate::encoding::fresh_id;
use crate::error::{view_result, ErrorView, Missing, WebAssistError};
use crate::models::{
    ApprovalStatus, ApprovalView, Deliverable, DeliverableView, WebAssistApproval, WebAssistStage,
};
use crate::store::{spec_pending_approval, LocalStore, StoreView};
use crate::supabase_client::{
    as_text, attachments_of, clone_text, created_approval_id, spec_attachments,
    spec_created_approval_id, RemoteReply, RemoteReplyView, RemoteRequest, RemoteRequestView,
    SupabaseClient, SupabaseConfigView,
};

verus! {

/// The store after an approval has been asked for, and what the caller
/// gets: the approval's identifier with the request that registers it at the
/// remote backend, or the failure.
///
/// The local row is written before the kind of approval is looked up, so it
/// stays where the stage turns out to need no approval.
pub open spec fn spec_create_approval_request(
    client: SupabaseConfigView,
    store: StoreView,
    project_ref: u128,
    stage: WebAssistStage,
    preview_url: Option<Seq<char>>,
    deliverables: Seq<DeliverableView>,
    approval_id: u128,
    remote_stage_id: u128,
    now: i64,
) -> (StoreView, Result<(u128, RemoteRequestView), ErrorView>) {
    match store.project_by_remote(project_ref) {
        None => (store, Err(ErrorView::NotFound(Missing::Project))),
        Some(project) => if store.approval_index(approval_id).is_some() {
            (store, Err(ErrorView::LocalPersistFailed))
        } else if store.has_pending(project.id, stage) {
            (store, Err(ErrorView::Conflict))
        } else {
            let next = store.with_approval(
                spec_pending_approval(approval_id, project.id, stage, preview_url, deliverables, now),
            );
            match stage.spec_approval_type() {
                None => (next, Err(ErrorView::StageNotGated)),
                Some(kind) => (
                    next,
                    Ok(
                        (
                            approval_id,
                            client.create_approval_request(
                                project_ref,
                                remote_stage_id,
                                kind,
                                preview_url,
                                Some(spec_attachments(deliverables)),
                            ),
                        ),
                    ),
                ),
            }
        },
    }
}

/// The store after the reply to the registration of an approval has been
/// handed in, and the identifier that the backend gave. A reply that is no
/// success, or cannot be read, leaves the row without that identifier.
pub open spec fn spec_record_remote_approval(
    store: StoreView,
    approval_id: u128,
    reply: RemoteReplyView,
) -> (StoreView, Result<u128, ErrorView>) {
    match spec_created_approval_id(reply) {
        Err(e) => (store, Err(e)),
        Ok(remote_id) => if store.approval_index(approval_id).is_some() {
            (store.bind_remote(approval_id, remote_id), Ok(remote_id))
        } else {
            (store, Err(ErrorView::NotFound(Missing::Approval)))
        },
    }
}

/// The store after a response has been recorded for the approval `id`, or
/// the failure: the approval is missing, or has a response already.
pub open spec fn spec_record_response(
    store: StoreView,
    id: u128,
    status: ApprovalStatus,
    feedback: Option<Seq<char>>,
    now: i64,
) -> (StoreView, Result<ApprovalView, ErrorView>) {
    match store.approval_by_id(id) {
        None => (store, Err(ErrorView::NotFound(Missing::Approval))),
        Some(approval) => if approval.is_terminal() {
            (store, Err(ErrorView::Conflict))
        } else {
            (store.respond(id, status, feedback, now), Ok(approval))
        },
    }
}

/// The store after a local response has been recorded, and the request that
/// tells the remote backend, where the approval is known there.
pub open spec fn spec_sync_to_webassist(
    client: SupabaseConfigView,
    store: StoreView,
    approval_id: u128,
    status: ApprovalStatus,
    feedback: Option<Seq<char>>,
    now: i64,
) -> (StoreView, Result<Option<RemoteRequestView>, ErrorView>) {
    match spec_record_response(store, approval_id, status, feedback, now) {
        (next, Ok(approval)) => (
            next,
            Ok(
                match approval.approval_id {
                    Some(remote_id) => Some(
                        client.update_approval(remote_id, status, feedback, now),
                    ),
                    None => None,
                },
            ),
        ),
        (next, Err(e)) => (next, Err(e)),
    }
}

/// The store after a response that the remote backend reports has been
/// recorded for the approval bound to `remote_id`.
pub open spec fn spec_sync_from_webassist(
    store: StoreView,
    remote_id: u128,
    status: ApprovalStatus,
    feedback: Option<Seq<char>>,
    now: i64,
) -> (StoreView, Result<(), ErrorView>) {
    match store.approval_index_by_remote(remote_id) {
        None => (store, Err(ErrorView::NotFound(Missing::Approval))),
        Some(i) => match spec_record_response(store, store.approvals[i].id, status, feedback, now) {
            (next, Ok(_)) => (next, Ok(())),
            (next, Err(e)) => (next, Err(e)),
        },
    }
}

/// True for an approval that waits locally and is known to the remote
/// backend: the two sides may have drifted apart.
pub open spec fn is_reconciliation_candidate(approval: ApprovalView) -> bool {
    approval.status == ApprovalStatus::Pending && approval.approval_id.is_some()
}

/// The identifiers of the reconciliation candidates among the first `n`
/// approvals, in the order of the rows.
pub open spec fn spec_candidates(approvals: Seq<ApprovalView>, n: nat) -> Seq<u128>
    decreases n,
{
    if n == 0 {
        Seq::empty()
    } else {
        let before = spec_candidates(approvals, (n - 1) as nat);
        if is_reconciliation_candidate(approvals[n - 1]) {
            before.push(approvals[n - 1].id)
        } else {
            before
        }
    }
}

/// Records the response to an approval in the store.
pub fn record_response(
    store: &mut LocalStore,
    approval_id: u128,
    status: ApprovalStatus,
    feedback: Option<String>,
    now: i64,
) -> (bound: Result<Option<u128>, WebAssistError>)
    requires
        old(store)@.wf(),
    ensures
        final(store)@.wf(),
        final(store)@ == spec_record_response(
            old(store)@,
            approval_id,
            status,
            feedback.deep_view(),
            now,
        ).0,
        view_result(bound) == match spec_record_response(
            old(store)@,
            approval_id,
            status,
            feedback.deep_view(),
            now,
        ).1 {
            Ok(approval) => Ok(approval.approval_id),
            Err(e) => Err(e),
        },
{
    let bound = match store.approval_by_id(approval_id) {
        Some(approval) => approval.approval_id,
        None => {
            return Err(WebAssistError::NotFound(Missing::Approval));
        },
    };
    match store.record_response(approval_id, status, feedback, now) {
        Ok(_) => Ok(bound),
        Err(e) => Err(WebAssistError::from_store(e)),
    }
}

/// Keeps approvals in step between the local store and the remote backend.
pub struct ApprovalSync {
    supabase_client: SupabaseClient,
}

impl ApprovalSync {
    /// How the remote backend is reached.
    pub closed spec fn client(&self) -> SupabaseConfigView {
        self.supabase_client@
    }

    /// An approval sync that builds its requests with this client.
    pub fn new(supabase_client: SupabaseClient) -> (sync: ApprovalSync)
        ensures
            sync.client() == supabase_client@,
    {
        ApprovalSync { supabase_client }
    }

    /// Asks for the approval of a stage, with fresh identifiers for the
    /// approval and for the stage's record at the remote backend. See
    /// `create_approval_request_with` for what happens once they are drawn.
    pub fn create_approval_request(
        &self,
        store: &mut LocalStore,
        project_ref: u128,
        stage: WebAssistStage,
        preview_url: Option<String>,
        deliverables: Vec<Deliverable>,
        now: i64,
    ) -> (asked: Result<(u128, RemoteRequest), WebAssistError>)
        requires
            old(store)@.wf(),
        ensures
            final(store)@.wf(),
            exists|approval_id: u128, remote_stage_id: u128|
                (final(store)@, view_result(asked)) == spec_create_approval_request(
                    self.client(),
                    old(store)@,
                    project_ref,
                    stage,
                    preview_url.deep_view(),
                    deliverables.deep_view(),
                    approval_id,
                    remote_stage_id,
                    now,
                ),
    {
        let approval_id = fresh_id();
        let remote_stage_id = fresh_id();
        create_approval(
            &self.supabase_client,
            store,
            project_ref,
            stage,
            preview_url,
            deliverables,
            approval_id,
            remote_stage_id,
            now,
        )
    }

    /// Asks for the approval of a stage: writes the pending row, then hands
    /// out the request that registers the approval at the remote backend.
    /// The reply to that request goes to `record_remote_approval`.
    ///
    /// Fails, with the store unchanged, where no project stands for
    /// `project_ref`, where `approval_id` is in use, or where the stage of
    /// the project has an approval that waits. Fails after the row is
    /// written where the stage needs no approval.
    pub fn create_approval_request_with(
        &self,
        store: &mut LocalStore,
        project_ref: u128,
        stage: WebAssistStage,
        preview_url: Option<String>,
        deliverables: Vec<Deliverable>,
        approval_id: u128,
        remote_stage_id: u128,
        now: i64,
    ) -> (asked: Result<(u128, RemoteRequest), WebAssistError>)
        requires
            old(store)@.wf(),
        ensures
            final(store)@.wf(),
            (final(store)@, view_result(asked)) == spec_create_approval_request(
                self.client(),
                old(store)@,
                project_ref,
                stage,
                preview_url.deep_view(),
                deliverables.deep_view(),
                approval_id,
                remote_stage_id,
                now,
            ),
    {
        create_approval(
            &self.supabase_client,
            store,
            project_ref,
            stage,
            preview_url,
            deliverables,
            approval_id,
            remote_stage_id,
            now,
        )
    }

    /// Hands in the reply to the registration of an approval. On success the
    /// local row is bound to the identifier that the backend gave; otherwise
    /// the row stays as it is, without one.
    pub fn record_remote_approval(
        &self,
        store: &mut LocalStore,
        approval_id: u128,
        reply: RemoteReply,
    ) -> (bound: Result<u128, WebAssistError>)
        requires
            old(store)@.wf(),
        ensures
            final(store)@.wf(),
            (final(store)@, view_result(bound)) == spec_record_remote_approval(
                old(store)@,
                approval_id,
                reply@,
            ),
    {
        let remote_id = match created_approval_id(reply) {
            Ok(remote_id) => remote_id,
            Err(e) => {
                return Err(e);
            },
        };
        if store.bind_remote_approval(approval_id, remote_id) {
            Ok(remote_id)
        } else {
            Err(WebAssistError::NotFound(Missing::Approval))
        }
    }

    /// Records a response that was given locally and hands out the request
    /// that tells the remote backend. An approval that the backend does not
    /// know yet gives no request.
    pub fn sync_approval_to_webassist(
        &self,
        store: &mut LocalStore,
        approval_id: u128,
        status: ApprovalStatus,
        feedback: Option<String>,
        now: i64,
    ) -> (told: Result<Option<RemoteRequest>, WebAssistError>)
        requires
            old(store)@.wf(),
        ensures
            final(store)@.wf(),
            (final(store)@, view_result(told)) == spec_sync_to_webassist(
                self.client(),
                old(store)@,
                approval_id,
                status,
                feedback.deep_view(),
                now,
            ),
    {
        respond_and_tell(&self.supabase_client, store, approval_id, status, feedback, now)
    }

    /// Records a response that the remote backend reports, for the approval
    /// bound to `remote_approval_id`.
    pub fn sync_approval_from_webassist(
        &self,
        store: &mut LocalStore,
        remote_approval_id: u128,
        status: ApprovalStatus,
        feedback: Option<String>,
        now: i64,
    ) -> (done: Result<(), WebAssistError>)
        requires
            old(store)@.wf(),
        ensures
            final(store)@.wf(),
            (final(store)@, view_result(done)) == spec_sync_from_webassist(
                old(store)@,
                remote_approval_id,
                status,
                feedback.deep_view(),
                now,
            ),
    {
        let local_id = match store.approval_by_remote_id(remote_approval_id) {
            Some(approval) => approval.id,
            None => {
                return Err(WebAssistError::NotFound(Missing::Approval));
            },
        };
        match record_response(store, local_id, status, feedback, now) {
            Ok(_) => Ok(()),
            Err(e) => Err(e),
        }
    }

    /// Lists the approvals on which the two sides may have drifted apart:
    /// those that wait locally and are known to the remote backend. The
    /// pass changes nothing; how a divergence is settled is left open.
    pub fn resolve_conflicts(&self, store: &LocalStore) -> (candidates: Vec<u128>)
        ensures
            candidates@ == spec_candidates(store@.approvals, store@.approvals.len()),
    {
        let rows = store.approvals();
        let mut candidates: Vec<u128> = Vec::new();
        let mut i: usize = 0;
        while i < rows.len()
            invariant
                i <= rows.len(),
                rows.deep_view() == store@.approvals,
                candidates@ == spec_candidates(store@.approvals, i as nat),
            decreases rows.len() - i,
        {
            let row = &rows[i];
            assert(rows.deep_view()[i as int] == row@);
            if row.status == ApprovalStatus::Pending && row.approval_id.is_some() {
                candidates.push(row.id);
            }
            i = i + 1;
        }
        candidates
    }
}

/// Writes the pending row and builds the request that registers it.
pub(crate) fn create_approval(
    client: &SupabaseClient,
    store: &mut LocalStore,
    project_ref: u128,
    stage: WebAssistStage,
    preview_url: Option<String>,
    deliverables: Vec<Deliverable>,
    approval_id: u128,
    remote_stage_id: u128,
    now: i64,
) -> (asked: Result<(u128, RemoteRequest), WebAssistError>)
    requires
        old(store)@.wf(),
    ensures
        final(store)@.wf(),
        (final(store)@, view_result(asked)) == spec_create_approval_request(
            client@,
            old(store)@,
            project_ref,
            stage,
            preview_url.deep_view(),
            deliverables.deep_view(),
            approval_id,
            remote_stage_id,
            now,
        ),
{
    let project = match store.project_by_remote_id(project_ref) {
        Some(project) => project,
        None => {
            return Err(WebAssistError::NotFound(Missing::Project));
        },
    };
    let attachments = attachments_of(&deliverables);
    let preview_copy = clone_text(&preview_url);
    let row = WebAssistApproval {
        id: approval_id,
        web_assist_project_id: project.id,
        stage_name: stage,
        approval_id: None,
        status: ApprovalStatus::Pending,
        requested_at: now,
        responded_at: None,
        client_feedback: None,
        preview_url,
        deliverables,
        created_at: now,
        updated_at: now,
    };
    match store.insert_approval(row) {
        Ok(_) => {},
        Err(e) => {
            return Err(WebAssistError::from_store(e));
        },
    }
    match stage.approval_type() {
        Some(kind) => Ok(
            (
                approval_id,
                client.create_approval_request(
                    project_ref,
                    remote_stage_id,
                    kind,
                    as_text(&preview_copy),
                    Some(attachments),
                ),
            ),
        ),
        None => Err(WebAssistError::StageNotGated),
    }
}

/// Records a response and builds the request that tells the remote backend.
pub(crate) fn respond_and_tell(
    client: &SupabaseClient,
    store: &mut LocalStore,
    approval_id: u128,
    status: ApprovalStatus,
    feedback: Option<String>,
    now: i64,
) -> (told: Result<Option<RemoteRequest>, WebAssistError>)
    requires
        old(store)@.wf(),
    ensures
        final(store)@.wf(),
        (final(store)@, view_result(told)) == spec_sync_to_webassist(
            client@,
            old(store)@,
            approval_id,
            status,
            feedback.deep_view(),
            now,
        ),
{
    let feedback_copy = clone_text(&feedback);
    match record_response(store, approval_id, status, feedback, now) {
        Ok(Some(remote_id)) => Ok(
            Some(client.update_approval(remote_id, status, as_text(&feedback_copy), now)),
        ),
        Ok(None) => Ok(None),
        Err(e) => Err(e),
    }
}

} // verus!
