//! The requests that mirror local state to the remote backend, and the
//! reading of its replies. Nothing is sent from here: a request is a value
//! that the caller hands to its HTTP client, and a reply is a value that the
//! caller hands back.

use vstd::prelude::*;
use vstd::string::*;

use crate::encoding::{
    id_of_text, id_text, id_to_text, parse_id, rfc3339_of, timestamp_text,
};
use crate::error::{view_result, ErrorView, Missing, ParseFault, WebAssistError};
use crate::json::{
    json_object_list_of, parse_object_list, spec_text_member, text_member, JsonField, JsonMembers,
};
use crate::models::{ApprovalStatus, Deliverable, DeliverableView, SyncStatus, WebAssistStage};

verus! {

/// Seconds after which an outbound request is given up.
pub const REQUEST_TIMEOUT_SECS: u64 = 30;

/// Where the remote backend is and how to sign in.
#[derive(Clone, Debug, PartialEq, Eq)]
pub struct SupabaseConfig {
    pub url: String,
    /// The restricted key, sent with every request.
    pub anon_key: String,
    /// The elevated key, used to sign in where it is configured.
    pub service_role_key: Option<String>,
}

/// `SupabaseConfig` by the plain values that it holds.
pub struct SupabaseConfigView {
    pub url: Seq<char>,
    pub anon_key: Seq<char>,
    pub service_role_key: Option<Seq<char>>,
}

impl View for SupabaseConfig {
    type V = SupabaseConfigView;

    open spec fn view(&self) -> SupabaseConfigView {
        SupabaseConfigView {
            url: self.url@,
            anon_key: self.anon_key@,
            service_role_key: self.service_role_key.deep_view(),
        }
    }
}

/// The HTTP methods that the requests use.
#[derive(Clone, Copy, Debug, PartialEq, Eq, Structural)]
pub enum HttpMethod {
    Get,
    Post,
    Patch,
}

/// What the remote backend is asked to send back after a write.
#[derive(Clone, Copy, Debug, PartialEq, Eq, Structural)]
pub enum Prefer {
    /// `return=minimal`
    Minimal,
    /// `return=representation`
    Representation,
}

/// The status of a task as the remote backend knows it.
#[derive(Clone, Copy, Debug, PartialEq, Eq, Structural)]
pub enum RemoteTaskStatus {
    Todo,
    InProgress,
    Done,
}

impl RemoteTaskStatus {
    /// The name under which the status is sent.
    pub open spec fn spec_name(self) -> Seq<char> {
        match self {
            RemoteTaskStatus::Todo => "Todo"@,
            RemoteTaskStatus::InProgress => "InProgress"@,
            RemoteTaskStatus::Done => "Done"@,
        }
    }

    /// The name under which the status is sent.
    pub fn as_str(&self) -> (name: &'static str)
        ensures
            name@ == self.spec_name(),
    {
        match self {
            RemoteTaskStatus::Todo => "Todo",
            RemoteTaskStatus::InProgress => "InProgress",
            RemoteTaskStatus::Done => "Done",
        }
    }
}

/// A deliverable in the form in which an approval carries it.
#[derive(Clone, Debug, PartialEq, Eq)]
pub struct Attachment {
    pub id: u128,
    pub name: String,
    pub url: String,
    pub kind: String,
    pub size: Option<u64>,
}

/// `Attachment` by the plain values that it holds.
pub struct AttachmentView {
    pub id: u128,
    pub name: Seq<char>,
    pub url: Seq<char>,
    pub kind: Seq<char>,
    pub size: Option<u64>,
}

impl View for Attachment {
    type V = AttachmentView;

    open spec fn view(&self) -> AttachmentView {
        AttachmentView {
            id: self.id,
            name: self.name@,
            url: self.url@,
            kind: self.kind@,
            size: self.size,
        }
    }
}

impl DeepView for Attachment {
    type V = AttachmentView;

    open spec fn deep_view(&self) -> AttachmentView {
        self@
    }
}

/// The attachment that stands for a deliverable.
pub open spec fn spec_attachment(d: DeliverableView) -> AttachmentView {
    AttachmentView { id: d.id, name: d.name, url: d.url, kind: d.kind, size: d.size }
}

/// The attachments that stand for a list of deliverables, in their order.
pub open spec fn spec_attachments(ds: Seq<DeliverableView>) -> Seq<AttachmentView> {
    Seq::new(ds.len(), |i: int| spec_attachment(ds[i]))
}

/// The attachments that stand for a list of deliverables, in their order.
pub fn attachments_of(deliverables: &Vec<Deliverable>) -> (attachments: Vec<Attachment>)
    ensures
        attachments.deep_view() == spec_attachments(deliverables.deep_view()),
{
    let mut attachments: Vec<Attachment> = Vec::new();
    let mut i: usize = 0;
    while i < deliverables.len()
        invariant
            i <= deliverables.len(),
            attachments@.len() == i,
            forall|j: int|
                0 <= j < i ==> (#[trigger] attachments@[j])@ == spec_attachment(
                    deliverables@[j]@,
                ),
        decreases deliverables.len() - i,
    {
        let d = &deliverables[i];
        attachments.push(
            Attachment {
                id: d.id,
                name: d.name.clone(),
                url: d.url.clone(),
                kind: d.kind.clone(),
                size: d.size,
            },
        );
        i = i + 1;
    }
    assert(attachments.deep_view() =~= spec_attachments(deliverables.deep_view()));
    attachments
}

/// What a request carries to the remote backend.
#[derive(Clone, Debug, PartialEq, Eq)]
pub enum RemoteBody {
    /// An entry of the project's activity feed.
    ProjectUpdate {
        project_id: u128,
        update_type: String,
        title: String,
        message: String,
        created_by: &'static str,
        is_visible_to_client: bool,
        /// The local project that the entry is about, where it names one.
        otto_project_id: Option<u128>,
    },
    /// The stage and progress of a project.
    ProjectStage { current_stage: WebAssistStage, stage_progress: i32, updated_at: Option<String> },
    /// A new approval, pending.
    NewApproval {
        project_id: u128,
        stage_id: u128,
        approval_type: String,
        status: ApprovalStatus,
        requested_by: &'static str,
        preview_url: Option<String>,
        attachments: Vec<Attachment>,
    },
    /// The response to an approval.
    ApprovalUpdate {
        status: ApprovalStatus,
        responded_at: Option<String>,
        client_feedback: Option<String>,
    },
    /// The completion of a stage.
    StageCompletion { completed_at: Option<String>, deliverables: Option<Vec<Attachment>> },
    /// The record that links a local project to a project of the backend.
    ProjectLink {
        webassist_project_id: u128,
        otto_project_id: u128,
        current_stage: WebAssistStage,
        sync_status: SyncStatus,
        overall_progress: i32,
    },
    /// The stage and overall progress of a linked project.
    ProjectProgress { current_stage: String, overall_progress: i32, sync_status: SyncStatus },
    /// The record of one task of a linked project.
    NewTask {
        otto_project_id: u128,
        stage_name: String,
        stage_order: i32,
        task_id: u128,
        status: RemoteTaskStatus,
        progress: i32,
    },
    /// The progress of one task. `started_at` is set for a task in progress,
    /// `completed_at` for one that is done.
    TaskProgress {
        status: RemoteTaskStatus,
        progress: i32,
        started_at: Option<String>,
        completed_at: Option<String>,
    },
    /// A file or link that a stage has produced.
    NewDeliverable {
        otto_project_id: u128,
        stage_name: String,
        name: String,
        url: String,
        kind: String,
        description: Option<String>,
        mime_type: Option<String>,
        size_bytes: Option<i64>,
    },
}

/// `RemoteBody` by the plain values that it holds.
pub enum RemoteBodyView {
    ProjectUpdate {
        project_id: u128,
        update_type: Seq<char>,
        title: Seq<char>,
        message: Seq<char>,
        created_by: Seq<char>,
        is_visible_to_client: bool,
        otto_project_id: Option<u128>,
    },
    ProjectStage {
        current_stage: WebAssistStage,
        stage_progress: i32,
        updated_at: Option<Seq<char>>,
    },
    NewApproval {
        project_id: u128,
        stage_id: u128,
        approval_type: Seq<char>,
        status: ApprovalStatus,
        requested_by: Seq<char>,
        preview_url: Option<Seq<char>>,
        attachments: Seq<AttachmentView>,
    },
    ApprovalUpdate {
        status: ApprovalStatus,
        responded_at: Option<Seq<char>>,
        client_feedback: Option<Seq<char>>,
    },
    StageCompletion { completed_at: Option<Seq<char>>, deliverables: Option<Seq<AttachmentView>> },
    ProjectLink {
        webassist_project_id: u128,
        otto_project_id: u128,
        current_stage: WebAssistStage,
        sync_status: SyncStatus,
        overall_progress: i32,
    },
    ProjectProgress { current_stage: Seq<char>, overall_progress: i32, sync_status: SyncStatus },
    NewTask {
        otto_project_id: u128,
        stage_name: Seq<char>,
        stage_order: i32,
        task_id: u128,
        status: RemoteTaskStatus,
        progress: i32,
    },
    TaskProgress {
        status: RemoteTaskStatus,
        progress: i32,
        started_at: Option<Seq<char>>,
        completed_at: Option<Seq<char>>,
    },
    NewDeliverable {
        otto_project_id: u128,
        stage_name: Seq<char>,
        name: Seq<char>,
        url: Seq<char>,
        kind: Seq<char>,
        description: Option<Seq<char>>,
        mime_type: Option<Seq<char>>,
        size_bytes: Option<i64>,
    },
}

impl View for RemoteBody {
    type V = RemoteBodyView;

    open spec fn view(&self) -> RemoteBodyView {
        match self {
            RemoteBody::ProjectUpdate {
                project_id,
                update_type,
                title,
                message,
                created_by,
                is_visible_to_client,
                otto_project_id,
            } => RemoteBodyView::ProjectUpdate {
                project_id: *project_id,
                update_type: update_type@,
                title: title@,
                message: message@,
                created_by: created_by@,
                is_visible_to_client: *is_visible_to_client,
                otto_project_id: *otto_project_id,
            },
            RemoteBody::ProjectStage {
                current_stage,
                stage_progress,
                updated_at,
            } => RemoteBodyView::ProjectStage {
                current_stage: *current_stage,
                stage_progress: *stage_progress,
                updated_at: updated_at.deep_view(),
            },
            RemoteBody::NewApproval {
                project_id,
                stage_id,
                approval_type,
                status,
                requested_by,
                preview_url,
                attachments,
            } => RemoteBodyView::NewApproval {
                project_id: *project_id,
                stage_id: *stage_id,
                approval_type: approval_type@,
                status: *status,
                requested_by: requested_by@,
                preview_url: preview_url.deep_view(),
                attachments: attachments.deep_view(),
            },
            RemoteBody::ApprovalUpdate {
                status,
                responded_at,
                client_feedback,
            } => RemoteBodyView::ApprovalUpdate {
                status: *status,
                responded_at: responded_at.deep_view(),
                client_feedback: client_feedback.deep_view(),
            },
            RemoteBody::StageCompletion {
                completed_at,
                deliverables,
            } => RemoteBodyView::StageCompletion {
                completed_at: completed_at.deep_view(),
                deliverables: deliverables.deep_view(),
            },
            RemoteBody::ProjectLink {
                webassist_project_id,
                otto_project_id,
                current_stage,
                sync_status,
                overall_progress,
            } => RemoteBodyView::ProjectLink {
                webassist_project_id: *webassist_project_id,
                otto_project_id: *otto_project_id,
                current_stage: *current_stage,
                sync_status: *sync_status,
                overall_progress: *overall_progress,
            },
            RemoteBody::ProjectProgress {
                current_stage,
                overall_progress,
                sync_status,
            } => RemoteBodyView::ProjectProgress {
                current_stage: current_stage@,
                overall_progress: *overall_progress,
                sync_status: *sync_status,
            },
            RemoteBody::NewTask {
                otto_project_id,
                stage_name,
                stage_order,
                task_id,
                status,
                progress,
            } => RemoteBodyView::NewTask {
                otto_project_id: *otto_project_id,
                stage_name: stage_name@,
                stage_order: *stage_order,
                task_id: *task_id,
                status: *status,
                progress: *progress,
            },
            RemoteBody::TaskProgress {
                status,
                progress,
                started_at,
                completed_at,
            } => RemoteBodyView::TaskProgress {
                status: *status,
                progress: *progress,
                started_at: started_at.deep_view(),
                completed_at: completed_at.deep_view(),
            },
            RemoteBody::NewDeliverable {
                otto_project_id,
                stage_name,
                name,
                url,
                kind,
                description,
                mime_type,
                size_bytes,
            } => RemoteBodyView::NewDeliverable {
                otto_project_id: *otto_project_id,
                stage_name: stage_name@,
                name: name@,
                url: url@,
                kind: kind@,
                description: description.deep_view(),
                mime_type: mime_type.deep_view(),
                size_bytes: *size_bytes,
            },
        }
    }
}

impl DeepView for RemoteBody {
    type V = RemoteBodyView;

    open spec fn deep_view(&self) -> RemoteBodyView {
        self@
    }
}

/// One request to the remote backend.
#[derive(Clone, Debug, PartialEq, Eq)]
pub struct RemoteRequest {
    pub method: HttpMethod,
    pub url: String,
    /// The value of the `Authorization` header.
    pub authorization: String,
    /// The value of the `apikey` header.
    pub api_key: String,
    /// The value of the `Prefer` header; a read sends none.
    pub prefer: Option<Prefer>,
    /// What is sent as JSON; a read sends nothing.
    pub body: Option<RemoteBody>,
    pub timeout_secs: u64,
}

/// `RemoteRequest` by the plain values that it holds.
pub struct RemoteRequestView {
    pub method: HttpMethod,
    pub url: Seq<char>,
    pub authorization: Seq<char>,
    pub api_key: Seq<char>,
    pub prefer: Option<Prefer>,
    pub body: Option<RemoteBodyView>,
    pub timeout_secs: u64,
}

impl View for RemoteRequest {
    type V = RemoteRequestView;

    open spec fn view(&self) -> RemoteRequestView {
        RemoteRequestView {
            method: self.method,
            url: self.url@,
            authorization: self.authorization@,
            api_key: self.api_key@,
            prefer: self.prefer,
            body: self.body.deep_view(),
            timeout_secs: self.timeout_secs,
        }
    }
}

impl DeepView for RemoteRequest {
    type V = RemoteRequestView;

    open spec fn deep_view(&self) -> RemoteRequestView {
        self@
    }
}

/// What came back for a request.
#[derive(Clone, Debug, PartialEq, Eq)]
pub enum RemoteReply {
    /// The backend answered.
    Response { status: u16, body: String },
    /// No answer arrived.
    Unreachable { reason: String },
}

/// `RemoteReply` by the plain values that it holds.
pub enum RemoteReplyView {
    Response { status: u16, body: Seq<char> },
    Unreachable { reason: Seq<char> },
}

impl View for RemoteReply {
    type V = RemoteReplyView;

    open spec fn view(&self) -> RemoteReplyView {
        match self {
            RemoteReply::Response { status, body } => RemoteReplyView::Response {
                status: *status,
                body: body@,
            },
            RemoteReply::Unreachable { reason } => RemoteReplyView::Unreachable {
                reason: reason@,
            },
        }
    }
}

/// A status of the 2xx class.
pub open spec fn is_success(status: u16) -> bool {
    200 <= status < 300
}

/// The body of a successful answer, or the failure that the reply stands
/// for: an answer outside the 2xx class with its status and body, a missing
/// answer with its reason.
pub open spec fn spec_check_reply(reply: RemoteReplyView) -> Result<Seq<char>, ErrorView> {
    match reply {
        RemoteReplyView::Response { status, body } => if is_success(status) {
            Ok(body)
        } else {
            Err(ErrorView::RemoteCallFailed { status: Some(status), detail: body })
        },
        RemoteReplyView::Unreachable { reason } => Err(
            ErrorView::RemoteCallFailed { status: None, detail: reason },
        ),
    }
}

/// The first object of a reply that lists records.
pub open spec fn spec_first_record(reply: RemoteReplyView) -> Result<JsonMembers, ErrorView> {
    match spec_check_reply(reply) {
        Ok(body) => match json_object_list_of(vstd::utf8::encode_utf8(body)) {
            Some(list) => if list.len() > 0 {
                Ok(list[0])
            } else {
                Err(ErrorView::NotFound(Missing::RemoteRecord))
            },
            None => Err(ErrorView::ParseError(ParseFault::RemoteReply)),
        },
        Err(e) => Err(e),
    }
}

/// The identifier that a record carries as text under "id".
pub open spec fn spec_record_id(record: JsonMembers) -> Result<u128, ErrorView> {
    match spec_text_member(record, "id"@) {
        Some(text) => match id_of_text(text) {
            Some(id) => Ok(id),
            None => Err(ErrorView::ParseError(ParseFault::RemoteReply)),
        },
        None => Err(ErrorView::ParseError(ParseFault::RemoteReply)),
    }
}

/// The identifier that the backend gave to an approval it has created.
pub open spec fn spec_created_approval_id(reply: RemoteReplyView) -> Result<u128, ErrorView> {
    match spec_first_record(reply) {
        Ok(record) => spec_record_id(record),
        Err(e) => Err(e),
    }
}

/// Reads a reply: the body of a successful answer, or the failure.
pub fn check_reply(reply: RemoteReply) -> (checked: Result<String, WebAssistError>)
    ensures
        view_result(checked) == spec_check_reply(reply@),
{
    match reply {
        RemoteReply::Response { status, body } => {
            if 200 <= status && status < 300 {
                Ok(body)
            } else {
                Err(WebAssistError::RemoteCallFailed { status: Some(status), detail: body })
            }
        },
        RemoteReply::Unreachable { reason } => Err(
            WebAssistError::RemoteCallFailed { status: None, detail: reason },
        ),
    }
}

/// Reads a reply to a write: success, or the failure.
pub fn check_write_reply(reply: RemoteReply) -> (checked: Result<(), WebAssistError>)
    ensures
        view_result(checked) == match spec_check_reply(reply@) {
            Ok(_) => Ok(()),
            Err(e) => Err(e),
        },
{
    match check_reply(reply) {
        Ok(_) => Ok(()),
        Err(e) => Err(e),
    }
}

/// Reads a reply that lists records and hands out the first one.
pub fn first_record(reply: RemoteReply) -> (record: Result<Vec<(String, JsonField)>, WebAssistError>)
    ensures
        view_result(record) == spec_first_record(reply@),
{
    let body = match check_reply(reply) {
        Ok(body) => body,
        Err(e) => {
            return Err(e);
        },
    };
    match parse_object_list(body.as_str().as_bytes()) {
        Some(mut list) => {
            if list.len() > 0 {
                let ghost before = list;
                let first = list.swap_remove(0);
                assert(first == before@[0]);
                assert(before.deep_view()[0] == first.deep_view());
                Ok(first)
            } else {
                assert(list.deep_view().len() == 0);
                Err(WebAssistError::NotFound(Missing::RemoteRecord))
            }
        },
        None => Err(WebAssistError::ParseError(ParseFault::RemoteReply)),
    }
}

/// The identifier that a record carries as text under "id".
pub fn record_id(record: &Vec<(String, JsonField)>) -> (id: Result<u128, WebAssistError>)
    ensures
        view_result(id) == spec_record_id(record.deep_view()),
{
    match text_member(record, "id") {
        Some(text) => match parse_id(text) {
            Some(id) => Ok(id),
            None => Err(WebAssistError::ParseError(ParseFault::RemoteReply)),
        },
        None => Err(WebAssistError::ParseError(ParseFault::RemoteReply)),
    }
}

/// Reads the reply to the creation of an approval: the identifier that the
/// backend gave it.
pub fn created_approval_id(reply: RemoteReply) -> (id: Result<u128, WebAssistError>)
    ensures
        view_result(id) == spec_created_approval_id(reply@),
{
    match first_record(reply) {
        Ok(record) => record_id(&record),
        Err(e) => Err(e),
    }
}

/// Copies a string that may be missing.
pub fn clone_text(text: &Option<String>) -> (copy: Option<String>)
    ensures
        copy.deep_view() == text.deep_view(),
{
    match text {
        Some(t) => Some(t.clone()),
        None => None,
    }
}

/// The string, where there is one, as a slice.
pub fn as_text(text: &Option<String>) -> (slice: Option<&str>)
    ensures
        slice.deep_view() == text.deep_view(),
{
    match text {
        Some(t) => Some(t.as_str()),
        None => None,
    }
}

/// An owned copy of a string slice that may be missing.
pub fn own_text(text: Option<&str>) -> (copy: Option<String>)
    ensures
        copy.deep_view() == text.deep_view(),
{
    match text {
        Some(t) => Some(String::from_str(t)),
        None => None,
    }
}

/// The name under which entries and approvals of this workflow are signed.
pub const AUTHOR: &'static str = "team:otto-coder";

impl SupabaseConfigView {
    /// The `Authorization` header: the elevated key where there is one, else
    /// the restricted key.
    pub open spec fn authorization(self) -> Seq<char> {
        "Bearer "@ + match self.service_role_key {
            Some(key) => key,
            None => self.anon_key,
        }
    }

    /// The request with this method, path and content.
    pub open spec fn request(
        self,
        method: HttpMethod,
        path: Seq<char>,
        prefer: Option<Prefer>,
        body: Option<RemoteBodyView>,
    ) -> RemoteRequestView {
        RemoteRequestView {
            method,
            url: self.url + path,
            authorization: self.authorization(),
            api_key: self.anon_key,
            prefer,
            body,
            timeout_secs: REQUEST_TIMEOUT_SECS,
        }
    }

    /// The request that `SupabaseClient::create_project_update` builds.
    pub open spec fn create_project_update(
        self,
        project_id: u128,
        update_type: Seq<char>,
        title: Seq<char>,
        message: Seq<char>,
        otto_project_id: Option<u128>,
    ) -> RemoteRequestView {
        self.request(
            HttpMethod::Post,
            "/rest/v1/project_updates"@,
            Some(Prefer::Minimal),
            Some(
                RemoteBodyView::ProjectUpdate {
                    project_id,
                    update_type,
                    title,
                    message,
                    created_by: AUTHOR@,
                    is_visible_to_client: true,
                    otto_project_id,
                },
            ),
        )
    }

    /// The request that `SupabaseClient::update_project_stage` builds.
    pub open spec fn update_project_stage(
        self,
        project_id: u128,
        current_stage: WebAssistStage,
        stage_progress: i32,
        now: i64,
    ) -> RemoteRequestView {
        self.request(
            HttpMethod::Patch,
            "/rest/v1/projects?id=eq."@ + id_text(project_id),
            Some(Prefer::Minimal),
            Some(
                RemoteBodyView::ProjectStage {
                    current_stage,
                    stage_progress,
                    updated_at: rfc3339_of(now),
                },
            ),
        )
    }

    /// The request that `SupabaseClient::create_approval_request` builds.
    pub open spec fn create_approval_request(
        self,
        project_id: u128,
        stage_id: u128,
        approval_type: Seq<char>,
        preview_url: Option<Seq<char>>,
        attachments: Option<Seq<AttachmentView>>,
    ) -> RemoteRequestView {
        self.request(
            HttpMethod::Post,
            "/rest/v1/project_approvals"@,
            Some(Prefer::Representation),
            Some(
                RemoteBodyView::NewApproval {
                    project_id,
                    stage_id,
                    approval_type,
                    status: ApprovalStatus::Pending,
                    requested_by: AUTHOR@,
                    preview_url,
                    attachments: match attachments {
                        Some(list) => list,
                        None => Seq::empty(),
                    },
                },
            ),
        )
    }

    /// The request that `SupabaseClient::update_approval` builds.
    pub open spec fn update_approval(
        self,
        approval_id: u128,
        status: ApprovalStatus,
        feedback: Option<Seq<char>>,
        now: i64,
    ) -> RemoteRequestView {
        self.request(
            HttpMethod::Patch,
            "/rest/v1/project_approvals?id=eq."@ + id_text(approval_id),
            Some(Prefer::Minimal),
            Some(
                RemoteBodyView::ApprovalUpdate {
                    status,
                    responded_at: rfc3339_of(now),
                    client_feedback: feedback,
                },
            ),
        )
    }

    /// The request that `SupabaseClient::complete_stage` builds.
    pub open spec fn complete_stage(
        self,
        stage_id: u128,
        deliverables: Option<Seq<AttachmentView>>,
        now: i64,
    ) -> RemoteRequestView {
        self.request(
            HttpMethod::Patch,
            "/rest/v1/project_stages?id=eq."@ + id_text(stage_id),
            Some(Prefer::Minimal),
            Some(RemoteBodyView::StageCompletion { completed_at: rfc3339_of(now), deliverables }),
        )
    }

    /// The entry for the activity feed that follows the completion of a stage.
    pub open spec fn stage_completed_update(self, project_id: u128) -> RemoteRequestView {
        self.create_project_update(
            project_id,
            "stage_completed"@,
            "Stage Completed"@,
            "Stage has been completed by AI agent"@,
            None,
        )
    }

    /// The request that `SupabaseClient::get_project` builds.
    pub open spec fn get_project(self, project_id: u128) -> RemoteRequestView {
        self.request(
            HttpMethod::Get,
            "/rest/v1/projects?id=eq."@ + id_text(project_id),
            None,
            None,
        )
    }

    /// The request that `SupabaseClient::get_wizard_completion` builds.
    pub open spec fn get_wizard_completion(self, wizard_completion_id: u128) -> RemoteRequestView {
        self.request(
            HttpMethod::Get,
            "/rest/v1/wizard_completions?id=eq."@ + id_text(wizard_completion_id),
            None,
            None,
        )
    }

    /// The request that `SupabaseClient::create_otto_coder_project` builds.
    pub open spec fn create_otto_coder_project(
        self,
        webassist_project_id: u128,
        otto_project_id: u128,
    ) -> RemoteRequestView {
        self.request(
            HttpMethod::Post,
            "/rest/v1/otto_coder_projects"@,
            Some(Prefer::Minimal),
            Some(
                RemoteBodyView::ProjectLink {
                    webassist_project_id,
                    otto_project_id,
                    current_stage: WebAssistStage::InitialReview,
                    sync_status: SyncStatus::Active,
                    overall_progress: 0,
                },
            ),
        )
    }

    /// The request that `SupabaseClient::update_otto_coder_project` builds.
    pub open spec fn update_otto_coder_project(
        self,
        otto_project_id: u128,
        current_stage: Seq<char>,
        overall_progress: i32,
    ) -> RemoteRequestView {
        self.request(
            HttpMethod::Patch,
            "/rest/v1/otto_coder_projects?otto_project_id=eq."@ + id_text(otto_project_id),
            Some(Prefer::Minimal),
            Some(
                RemoteBodyView::ProjectProgress {
                    current_stage,
                    overall_progress,
                    sync_status: SyncStatus::Active,
                },
            ),
        )
    }

    /// The request that `SupabaseClient::create_otto_coder_task` builds.
    pub open spec fn create_otto_coder_task(
        self,
        otto_project_id: u128,
        stage_name: Seq<char>,
        stage_order: i32,
        task_id: u128,
        status: RemoteTaskStatus,
    ) -> RemoteRequestView {
        self.request(
            HttpMethod::Post,
            "/rest/v1/otto_coder_tasks"@,
            Some(Prefer::Minimal),
            Some(
                RemoteBodyView::NewTask {
                    otto_project_id,
                    stage_name,
                    stage_order,
                    task_id,
                    status,
                    progress: 0,
                },
            ),
        )
    }

    /// The request that `SupabaseClient::update_otto_coder_task` builds.
    pub open spec fn update_otto_coder_task(
        self,
        task_id: u128,
        progress: i32,
        status: RemoteTaskStatus,
        now: i64,
    ) -> RemoteRequestView {
        self.request(
            HttpMethod::Patch,
            "/rest/v1/otto_coder_tasks?task_id=eq."@ + id_text(task_id),
            Some(Prefer::Minimal),
            Some(
                RemoteBodyView::TaskProgress {
                    status,
                    progress,
                    started_at: if status == RemoteTaskStatus::InProgress {
                        rfc3339_of(now)
                    } else {
                        None
                    },
                    completed_at: if status == RemoteTaskStatus::Done {
                        rfc3339_of(now)
                    } else {
                        None
                    },
                },
            ),
        )
    }

    /// The request that `SupabaseClient::create_otto_coder_deliverable` builds.
    pub open spec fn create_otto_coder_deliverable(
        self,
        otto_project_id: u128,
        stage_name: Seq<char>,
        name: Seq<char>,
        url: Seq<char>,
        file_type: Seq<char>,
        description: Option<Seq<char>>,
        mime_type: Option<Seq<char>>,
        size_bytes: Option<i64>,
    ) -> RemoteRequestView {
        self.request(
            HttpMethod::Post,
            "/rest/v1/otto_coder_deliverables"@,
            Some(Prefer::Minimal),
            Some(
                RemoteBodyView::NewDeliverable {
                    otto_project_id,
                    stage_name,
                    name,
                    url,
                    kind: file_type,
                    description,
                    mime_type,
                    size_bytes,
                },
            ),
        )
    }
}

/// Builds the requests to one remote backend.
#[derive(Clone, Debug, PartialEq, Eq)]
pub struct SupabaseClient {
    config: SupabaseConfig,
}

impl View for SupabaseClient {
    type V = SupabaseConfigView;

    closed spec fn view(&self) -> SupabaseConfigView {
        self.config@
    }
}

impl SupabaseClient {
    /// A client for the backend that the configuration names. No
    /// configuration is refused.
    pub fn new(config: SupabaseConfig) -> (client: Result<SupabaseClient, WebAssistError>)
        ensures
            client matches Ok(c) && c@ == config@,
    {
        Ok(SupabaseClient { config })
    }

    /// The configuration that the client was made with.
    pub fn config(&self) -> (config: &SupabaseConfig)
        ensures
            config@ == self@,
    {
        &self.config
    }

    /// A second client for the same backend.
    pub fn duplicate(&self) -> (copy: SupabaseClient)
        ensures
            copy@ == self@,
    {
        SupabaseClient {
            config: SupabaseConfig {
                url: self.config.url.clone(),
                anon_key: self.config.anon_key.clone(),
                service_role_key: clone_text(&self.config.service_role_key),
            },
        }
    }

    /// The `Authorization` header: the elevated key where there is one, else
    /// the restricted key.
    pub fn auth_header(&self) -> (header: String)
        ensures
            header@ == self@.authorization(),
    {
        let mut header = String::from_str("Bearer ");
        match &self.config.service_role_key {
            Some(key) => header.append(key.as_str()),
            None => header.append(self.config.anon_key.as_str()),
        }
        header
    }

    fn build(
        &self,
        method: HttpMethod,
        path: String,
        prefer: Option<Prefer>,
        body: Option<RemoteBody>,
    ) -> (request: RemoteRequest)
        ensures
            request@ == self@.request(method, path@, prefer, body.deep_view()),
    {
        let mut url = self.config.url.clone();
        url.append(path.as_str());
        RemoteRequest {
            method,
            url,
            authorization: self.auth_header(),
            api_key: self.config.anon_key.clone(),
            prefer,
            body,
            timeout_secs: REQUEST_TIMEOUT_SECS,
        }
    }

    fn path_with_id(prefix: &str, id: u128) -> (path: String)
        ensures
            path@ == prefix@ + id_text(id),
    {
        let mut path = String::from_str(prefix);
        let text = id_to_text(id);
        path.append(text.as_str());
        path
    }

    /// Adds an entry to the activity feed of a project.
    pub fn create_project_update(
        &self,
        project_id: u128,
        update_type: &str,
        title: &str,
        message: &str,
        otto_project_id: Option<u128>,
    ) -> (request: RemoteRequest)
        ensures
            request@ == self@.create_project_update(
                project_id,
                update_type@,
                title@,
                message@,
                otto_project_id,
            ),
    {
        self.build(
            HttpMethod::Post,
            String::from_str("/rest/v1/project_updates"),
            Some(Prefer::Minimal),
            Some(
                RemoteBody::ProjectUpdate {
                    project_id,
                    update_type: String::from_str(update_type),
                    title: String::from_str(title),
                    message: String::from_str(message),
                    created_by: AUTHOR,
                    is_visible_to_client: true,
                    otto_project_id,
                },
            ),
        )
    }

    /// Sets the stage and progress of a project.
    pub fn update_project_stage(
        &self,
        project_id: u128,
        current_stage: WebAssistStage,
        stage_progress: i32,
        now: i64,
    ) -> (request: RemoteRequest)
        ensures
            request@ == self@.update_project_stage(project_id, current_stage, stage_progress, now),
    {
        self.build(
            HttpMethod::Patch,
            Self::path_with_id("/rest/v1/projects?id=eq.", project_id),
            Some(Prefer::Minimal),
            Some(
                RemoteBody::ProjectStage {
                    current_stage,
                    stage_progress,
                    updated_at: timestamp_text(now),
                },
            ),
        )
    }

    /// Registers a pending approval. The reply lists the record that the
    /// backend has made; `created_approval_id` reads its identifier.
    pub fn create_approval_request(
        &self,
        project_id: u128,
        stage_id: u128,
        approval_type: &str,
        preview_url: Option<&str>,
        attachments: Option<Vec<Attachment>>,
    ) -> (request: RemoteRequest)
        ensures
            request@ == self@.create_approval_request(
                project_id,
                stage_id,
                approval_type@,
                preview_url.deep_view(),
                attachments.deep_view(),
            ),
    {
        let list = match attachments {
            Some(list) => list,
            None => {
                let empty: Vec<Attachment> = Vec::new();
                assert(empty.deep_view() =~= Seq::<AttachmentView>::empty());
                empty
            },
        };
        self.build(
            HttpMethod::Post,
            String::from_str("/rest/v1/project_approvals"),
            Some(Prefer::Representation),
            Some(
                RemoteBody::NewApproval {
                    project_id,
                    stage_id,
                    approval_type: String::from_str(approval_type),
                    status: ApprovalStatus::Pending,
                    requested_by: AUTHOR,
                    preview_url: own_text(preview_url),
                    attachments: list,
                },
            ),
        )
    }

    /// Records the response to an approval.
    pub fn update_approval(
        &self,
        approval_id: u128,
        status: ApprovalStatus,
        feedback: Option<&str>,
        now: i64,
    ) -> (request: RemoteRequest)
        ensures
            request@ == self@.update_approval(approval_id, status, feedback.deep_view(), now),
    {
        self.build(
            HttpMethod::Patch,
            Self::path_with_id("/rest/v1/project_approvals?id=eq.", approval_id),
            Some(Prefer::Minimal),
            Some(
                RemoteBody::ApprovalUpdate {
                    status,
                    responded_at: timestamp_text(now),
                    client_feedback: own_text(feedback),
                },
            ),
        )
    }

    /// Marks a stage as completed. Once the backend has accepted this, the
    /// entry of `after_stage_completion` goes to the project's activity feed.
    pub fn complete_stage(
        &self,
        stage_id: u128,
        deliverables: Option<Vec<Attachment>>,
        now: i64,
    ) -> (request: RemoteRequest)
        ensures
            request@ == self@.complete_stage(stage_id, deliverables.deep_view(), now),
    {
        self.build(
            HttpMethod::Patch,
            Self::path_with_id("/rest/v1/project_stages?id=eq.", stage_id),
            Some(Prefer::Minimal),
            Some(RemoteBody::StageCompletion { completed_at: timestamp_text(now), deliverables }),
        )
    }

    /// What follows a reply to `complete_stage`: on success the entry for the
    /// activity feed of the project, else the failure.
    pub fn after_stage_completion(&self, project_id: u128, reply: RemoteReply) -> (next: Result<
        RemoteRequest,
        WebAssistError,
    >)
        ensures
            view_result(next) == match spec_check_reply(reply@) {
                Ok(_) => Ok(self@.stage_completed_update(project_id)),
                Err(e) => Err(e),
            },
    {
        match check_reply(reply) {
            Ok(_) => Ok(
                self.create_project_update(
                    project_id,
                    "stage_completed",
                    "Stage Completed",
                    "Stage has been completed by AI agent",
                    None,
                ),
            ),
            Err(e) => Err(e),
        }
    }

    /// Reads a project. `first_record` hands out the record of the reply.
    pub fn get_project(&self, project_id: u128) -> (request: RemoteRequest)
        ensures
            request@ == self@.get_project(project_id),
    {
        self.build(
            HttpMethod::Get,
            Self::path_with_id("/rest/v1/projects?id=eq.", project_id),
            None,
            None,
        )
    }

    /// Reads the requirements that a client has entered. `first_record`
    /// hands out the record of the reply.
    pub fn get_wizard_completion(&self, wizard_completion_id: u128) -> (request: RemoteRequest)
        ensures
            request@ == self@.get_wizard_completion(wizard_completion_id),
    {
        self.build(
            HttpMethod::Get,
            Self::path_with_id("/rest/v1/wizard_completions?id=eq.", wizard_completion_id),
            None,
            None,
        )
    }

    /// Links a local project to a project of the backend.
    pub fn create_otto_coder_project(&self, webassist_project_id: u128, otto_project_id: u128) -> (
        request: RemoteRequest)
        ensures
            request@ == self@.create_otto_coder_project(webassist_project_id, otto_project_id),
    {
        self.build(
            HttpMethod::Post,
            String::from_str("/rest/v1/otto_coder_projects"),
            Some(Prefer::Minimal),
            Some(
                RemoteBody::ProjectLink {
                    webassist_project_id,
                    otto_project_id,
                    current_stage: WebAssistStage::InitialReview,
                    sync_status: SyncStatus::Active,
                    overall_progress: 0,
                },
            ),
        )
    }

    /// Sets the stage and overall progress of a linked project.
    pub fn update_otto_coder_project(
        &self,
        otto_project_id: u128,
        current_stage: &str,
        overall_progress: i32,
    ) -> (request: RemoteRequest)
        ensures
            request@ == self@.update_otto_coder_project(
                otto_project_id,
                current_stage@,
                overall_progress,
            ),
    {
        self.build(
            HttpMethod::Patch,
            Self::path_with_id("/rest/v1/otto_coder_projects?otto_project_id=eq.", otto_project_id),
            Some(Prefer::Minimal),
            Some(
                RemoteBody::ProjectProgress {
                    current_stage: String::from_str(current_stage),
                    overall_progress,
                    sync_status: SyncStatus::Active,
                },
            ),
        )
    }

    /// Records a task of a linked project, with no progress yet.
    pub fn create_otto_coder_task(
        &self,
        otto_project_id: u128,
        stage_name: &str,
        stage_order: i32,
        task_id: u128,
        status: RemoteTaskStatus,
    ) -> (request: RemoteRequest)
        ensures
            request@ == self@.create_otto_coder_task(
                otto_project_id,
                stage_name@,
                stage_order,
                task_id,
                status,
            ),
    {
        self.build(
            HttpMethod::Post,
            String::from_str("/rest/v1/otto_coder_tasks"),
            Some(Prefer::Minimal),
            Some(
                RemoteBody::NewTask {
                    otto_project_id,
                    stage_name: String::from_str(stage_name),
                    stage_order,
                    task_id,
                    status,
                    progress: 0,
                },
            ),
        )
    }

    /// Sets the status and progress of a task. A task in progress gets the
    /// time as its start, a task that is done as its completion.
    pub fn update_otto_coder_task(
        &self,
        task_id: u128,
        progress: i32,
        status: RemoteTaskStatus,
        now: i64,
    ) -> (request: RemoteRequest)
        ensures
            request@ == self@.update_otto_coder_task(task_id, progress, status, now),
    {
        let started_at = match status {
            RemoteTaskStatus::InProgress => timestamp_text(now),
            _ => None,
        };
        let completed_at = match status {
            RemoteTaskStatus::Done => timestamp_text(now),
            _ => None,
        };
        self.build(
            HttpMethod::Patch,
            Self::path_with_id("/rest/v1/otto_coder_tasks?task_id=eq.", task_id),
            Some(Prefer::Minimal),
            Some(RemoteBody::TaskProgress { status, progress, started_at, completed_at }),
        )
    }

    /// Records a file or link that a stage has produced.
    pub fn create_otto_coder_deliverable(
        &self,
        otto_project_id: u128,
        stage_name: &str,
        name: &str,
        url: &str,
        file_type: &str,
        description: Option<&str>,
        mime_type: Option<&str>,
        size_bytes: Option<i64>,
    ) -> (request: RemoteRequest)
        ensures
            request@ == self@.create_otto_coder_deliverable(
                otto_project_id,
                stage_name@,
                name@,
                url@,
                file_type@,
                description.deep_view(),
                mime_type.deep_view(),
                size_bytes,
            ),
    {
        self.build(
            HttpMethod::Post,
            String::from_str("/rest/v1/otto_coder_deliverables"),
            Some(Prefer::Minimal),
            Some(
                RemoteBody::NewDeliverable {
                    otto_project_id,
                    stage_name: String::from_str(stage_name),
                    name: String::from_str(name),
                    url: String::from_str(url),
                    kind: String::from_str(file_type),
                    description: own_text(description),
                    mime_type: own_text(mime_type),
                    size_bytes,
                },
            ),
        )
    }
}

} // verus!
