//! Inbound events of the remote backend: the check of their signature, the
//! reading of their envelope and their routing.

use vstd::prelude::*;
use vstd::string::*;
use vstd::utf8::*;

use crate::encoding::{
    constant_time_eq, hex_encode, hex_of, hex_of_is_injective, id_of_text, parse_id, str_eq,
};
use crate::error::{view_result, ErrorView, ParseFault, WebAssistError};
use crate::json::{
    flag_member, json_object_of, parse_object, spec_flag_member, spec_text_member, text_member,
    JsonField, JsonMembers,
};
use crate::models::{
    ApprovalStatus, CreateRequestView, CreateWebAssistProjectRequest, WebhookEvent,
    WebhookEventView,
};
use crate::project_manager::{spec_handle_approval_response, ProjectManager};
use crate::store::{LocalStore, StoreView};
use crate::supabase_client::{own_text, RemoteRequest, RemoteRequestView, SupabaseConfigView};

verus! {

/// The HMAC-SHA256 tag of a message under a key.
pub uninterp spec fn hmac_sha256_tag(key: Seq<u8>, message: Seq<u8>) -> Seq<u8>;

/// `Hmac::<Sha256>`: keyed with `key`, fed `message`, finalised. The key
/// setup accepts a key of any length, so a tag always comes back.
#[verifier::external_body]
pub(crate) fn hmac_sha256(key: &[u8], message: &[u8]) -> (tag: Option<Vec<u8>>)
    ensures
        tag.is_some(),
        tag.unwrap()@ == hmac_sha256_tag(key@, message@),
{
    let mut mac = <hmac::Hmac<sha2::Sha256> as hmac::Mac>::new_from_slice(key).ok()?;
    hmac::Mac::update(&mut mac, message);
    Some(hmac::Mac::finalize(mac).into_bytes().to_vec())
}

/// The signature that a body must carry under a secret: the HMAC-SHA256 tag
/// of the body's bytes, keyed with the secret's bytes, in lower-case
/// hexadecimal.
pub open spec fn expected_signature(secret: Seq<char>, payload: Seq<u8>) -> Seq<char> {
    hex_of(hmac_sha256_tag(encode_utf8(secret), payload))
}

/// True where `signature` is the signature of `payload` under `secret`.
pub open spec fn spec_verify(payload: Seq<u8>, signature: Seq<char>, secret: Seq<char>) -> bool {
    signature == expected_signature(secret, payload)
}

/// The signature of a body verifies under the secret that made it.
pub proof fn own_signature_verifies(payload: Seq<u8>, secret: Seq<char>)
    ensures
        spec_verify(payload, expected_signature(secret, payload), secret),
{
}

/// A signature made under another secret does not verify, unless the two
/// secrets give the body the same tag.
pub proof fn other_secret_fails(payload: Seq<u8>, secret: Seq<char>, other: Seq<char>)
    requires
        hmac_sha256_tag(encode_utf8(other), payload) != hmac_sha256_tag(
            encode_utf8(secret),
            payload,
        ),
    ensures
        !spec_verify(payload, expected_signature(other, payload), secret),
{
    if expected_signature(other, payload) == expected_signature(secret, payload) {
        hex_of_is_injective(
            hmac_sha256_tag(encode_utf8(other), payload),
            hmac_sha256_tag(encode_utf8(secret), payload),
        );
    }
}

/// The signature of one body does not verify for another body, unless the
/// secret gives both the same tag.
pub proof fn tampered_payload_fails(payload: Seq<u8>, tampered: Seq<u8>, secret: Seq<char>)
    requires
        hmac_sha256_tag(encode_utf8(secret), tampered) != hmac_sha256_tag(
            encode_utf8(secret),
            payload,
        ),
    ensures
        !spec_verify(tampered, expected_signature(secret, payload), secret),
{
    if expected_signature(secret, payload) == expected_signature(secret, tampered) {
        hex_of_is_injective(
            hmac_sha256_tag(encode_utf8(secret), payload),
            hmac_sha256_tag(encode_utf8(secret), tampered),
        );
    }
}

/// True where `signature` is the lower-case hexadecimal text of `tag`. The
/// comparison reads all of both texts whatever they hold.
pub fn signature_matches(signature: &str, tag: &[u8]) -> (valid: bool)
    ensures
        valid == (signature@ == hex_of(tag@)),
{
    broadcast use vstd::utf8::encode_utf8_decode_utf8;

    let expected = hex_encode(tag);
    let valid = constant_time_eq(signature.as_bytes(), expected.as_str().as_bytes());
    proof {
        if encode_utf8(signature@) == encode_utf8(expected@) {
            assert(decode_utf8(encode_utf8(signature@)) == signature@);
            assert(decode_utf8(encode_utf8(expected@)) == expected@);
        }
    }
    valid
}

/// Checks the signature of a body: true where `signature` is the
/// lower-case hexadecimal HMAC-SHA256 tag of `payload` under `secret`.
pub fn verify_webhook_signature(payload: &[u8], signature: &str, secret: &str) -> (verified: Result<
    bool,
    WebAssistError,
>)
    ensures
        verified matches Ok(valid) && valid == spec_verify(payload@, signature@, secret@),
{
    match hmac_sha256(secret.as_bytes(), payload) {
        Some(tag) => Ok(signature_matches(signature, tag.as_slice())),
        None => Err(WebAssistError::AuthenticationFailed),
    }
}

/// A client's answer to an approval, as an event carries it.
#[derive(Clone, Debug, PartialEq, Eq)]
pub struct ApprovalUpdate {
    pub approval_id: u128,
    pub project_id: u128,
    pub status: ApprovalStatus,
    pub client_feedback: Option<String>,
}

/// `ApprovalUpdate` by the plain values that it holds.
pub struct ApprovalUpdateView {
    pub approval_id: u128,
    pub project_id: u128,
    pub status: ApprovalStatus,
    pub client_feedback: Option<Seq<char>>,
}

impl View for ApprovalUpdate {
    type V = ApprovalUpdateView;

    open spec fn view(&self) -> ApprovalUpdateView {
        ApprovalUpdateView {
            approval_id: self.approval_id,
            project_id: self.project_id,
            status: self.status,
            client_feedback: self.client_feedback.deep_view(),
        }
    }
}

impl DeepView for ApprovalUpdate {
    type V = ApprovalUpdateView;

    open spec fn deep_view(&self) -> ApprovalUpdateView {
        self@
    }
}

/// What an event led to.
#[derive(Clone, Debug, PartialEq, Eq)]
pub enum WebhookOutcome {
    /// A project is to be created. `fetch` reads its requirements; the
    /// creation goes on with `ProjectManager::read_requirements`.
    ProjectCreation { request: CreateWebAssistProjectRequest, fetch: RemoteRequest },
    /// A client's answer has been processed; `calls` are to be sent.
    ApprovalHandled { calls: Vec<RemoteRequest> },
    /// The remote backend reports a change of stage. Nothing follows.
    StageChangeNoted { project_id: u128, stage_name: String },
    /// An event of a kind that this workflow does not know. Nothing follows.
    Ignored { event: String },
}

/// `WebhookOutcome` by the plain values that it holds.
pub enum WebhookOutcomeView {
    ProjectCreation { request: CreateRequestView, fetch: RemoteRequestView },
    ApprovalHandled { calls: Seq<RemoteRequestView> },
    StageChangeNoted { project_id: u128, stage_name: Seq<char> },
    Ignored { event: Seq<char> },
}

impl View for WebhookOutcome {
    type V = WebhookOutcomeView;

    open spec fn view(&self) -> WebhookOutcomeView {
        match self {
            WebhookOutcome::ProjectCreation { request, fetch } => WebhookOutcomeView::ProjectCreation {
                request: request@,
                fetch: fetch@,
            },
            WebhookOutcome::ApprovalHandled { calls } => WebhookOutcomeView::ApprovalHandled {
                calls: calls.deep_view(),
            },
            WebhookOutcome::StageChangeNoted {
                project_id,
                stage_name,
            } => WebhookOutcomeView::StageChangeNoted {
                project_id: *project_id,
                stage_name: stage_name@,
            },
            WebhookOutcome::Ignored { event } => WebhookOutcomeView::Ignored { event: event@ },
        }
    }
}

impl DeepView for WebhookOutcome {
    type V = WebhookOutcomeView;

    open spec fn deep_view(&self) -> WebhookOutcomeView {
        self@
    }
}

/// The event that a body holds: a JSON object with a string under "event".
pub open spec fn spec_parse_envelope(payload: Seq<u8>) -> Result<WebhookEventView, ErrorView> {
    match json_object_of(payload) {
        None => Err(ErrorView::ParseError(ParseFault::Envelope)),
        Some(members) => match spec_text_member(members, "event"@) {
            Some(event) => Ok(WebhookEventView { event, data: members }),
            None => Err(ErrorView::ParseError(ParseFault::EventName)),
        },
    }
}

/// The identifier held as text by the member with this name.
pub open spec fn spec_id_member(members: JsonMembers, name: Seq<char>) -> Option<u128> {
    match spec_text_member(members, name) {
        Some(text) => id_of_text(text),
        None => None,
    }
}

/// What a "project.created" event asks for. Each of the five members is
/// required; the first that is missing or malformed is the fault.
pub open spec fn spec_parse_project_created(data: JsonMembers) -> Result<
    CreateRequestView,
    ErrorView,
> {
    if spec_id_member(data, "project_id"@).is_none() {
        Err(ErrorView::ParseError(ParseFault::ProjectId))
    } else if spec_text_member(data, "project_number"@).is_none() {
        Err(ErrorView::ParseError(ParseFault::ProjectNumber))
    } else if spec_text_member(data, "company_name"@).is_none() {
        Err(ErrorView::ParseError(ParseFault::CompanyName))
    } else if spec_id_member(data, "wizard_completion_id"@).is_none() {
        Err(ErrorView::ParseError(ParseFault::WizardCompletionId))
    } else if spec_flag_member(data, "is_rush_delivery"@).is_none() {
        Err(ErrorView::ParseError(ParseFault::IsRushDelivery))
    } else {
        Ok(
            CreateRequestView {
                project_id: spec_id_member(data, "project_id"@).unwrap(),
                project_number: spec_text_member(data, "project_number"@).unwrap(),
                company_name: spec_text_member(data, "company_name"@).unwrap(),
                wizard_completion_id: spec_id_member(data, "wizard_completion_id"@).unwrap(),
                is_rush_delivery: spec_flag_member(data, "is_rush_delivery"@).unwrap(),
            },
        )
    }
}

/// What an "approval.updated" event reports. The approval, the project and
/// the status are required; feedback is taken where it is a string.
pub open spec fn spec_parse_approval_updated(data: JsonMembers) -> Result<
    ApprovalUpdateView,
    ErrorView,
> {
    if spec_id_member(data, "approval_id"@).is_none() {
        Err(ErrorView::ParseError(ParseFault::ApprovalId))
    } else if spec_id_member(data, "project_id"@).is_none() {
        Err(ErrorView::ParseError(ParseFault::ProjectId))
    } else {
        match spec_text_member(data, "status"@) {
            None => Err(ErrorView::ParseError(ParseFault::Status)),
            Some(name) => match ApprovalStatus::spec_from_name(name) {
                None => Err(ErrorView::ParseError(ParseFault::Status)),
                Some(status) => Ok(
                    ApprovalUpdateView {
                        approval_id: spec_id_member(data, "approval_id"@).unwrap(),
                        project_id: spec_id_member(data, "project_id"@).unwrap(),
                        status,
                        client_feedback: spec_text_member(data, "client_feedback"@),
                    },
                ),
            },
        }
    }
}

/// What a "project.stage_changed" event reports: the project and the name
/// of the stage, both required.
pub open spec fn spec_parse_stage_changed(data: JsonMembers) -> Result<
    (u128, Seq<char>),
    ErrorView,
> {
    match spec_id_member(data, "project_id"@) {
        None => Err(ErrorView::ParseError(ParseFault::ProjectId)),
        Some(project_id) => match spec_text_member(data, "stage_name"@) {
            None => Err(ErrorView::ParseError(ParseFault::StageName)),
            Some(stage_name) => Ok((project_id, stage_name)),
        },
    }
}

/// The store after an event that has been read is routed, and what it led
/// to. Each known kind of event must carry its required members. An event
/// of an unknown kind is accepted and ignored. Only "approval.updated"
/// changes the store.
pub open spec fn spec_dispatch(
    client: SupabaseConfigView,
    store: StoreView,
    envelope: WebhookEventView,
    now: i64,
) -> (StoreView, Result<WebhookOutcomeView, ErrorView>) {
    if envelope.event == "project.created"@ {
        match spec_parse_project_created(envelope.data) {
            Ok(request) => (
                store,
                Ok(
                    WebhookOutcomeView::ProjectCreation {
                        request,
                        fetch: client.get_wizard_completion(request.wizard_completion_id),
                    },
                ),
            ),
            Err(e) => (store, Err(e)),
        }
    } else if envelope.event == "approval.updated"@ {
        match spec_parse_approval_updated(envelope.data) {
            Ok(update) => match spec_handle_approval_response(
                client,
                store,
                update.project_id,
                update.approval_id,
                update.status,
                update.client_feedback,
                now,
            ) {
                (next, Ok(calls)) => (next, Ok(WebhookOutcomeView::ApprovalHandled { calls })),
                (next, Err(e)) => (next, Err(e)),
            },
            Err(e) => (store, Err(e)),
        }
    } else if envelope.event == "project.stage_changed"@ {
        match spec_parse_stage_changed(envelope.data) {
            Ok((project_id, stage_name)) => (
                store,
                Ok(WebhookOutcomeView::StageChangeNoted { project_id, stage_name }),
            ),
            Err(e) => (store, Err(e)),
        }
    } else {
        (store, Ok(WebhookOutcomeView::Ignored { event: envelope.event }))
    }
}

/// The store after an event has been handled, and what it led to.
///
/// A signature that is supplied must match, else the event is refused with
/// `AuthenticationFailed` before anything is read. An event without a
/// signature is taken as it is. The body must be an envelope, which is then
/// routed.
pub open spec fn spec_handle_webhook(
    client: SupabaseConfigView,
    secret: Seq<char>,
    store: StoreView,
    payload: Seq<u8>,
    signature: Option<Seq<char>>,
    now: i64,
) -> (StoreView, Result<WebhookOutcomeView, ErrorView>) {
    if signature.is_some() && !spec_verify(payload, signature.unwrap(), secret) {
        (store, Err(ErrorView::AuthenticationFailed))
    } else {
        match spec_parse_envelope(payload) {
            Err(e) => (store, Err(e)),
            Ok(envelope) => spec_dispatch(client, store, envelope, now),
        }
    }
}

/// Reads the envelope of an event.
pub fn parse_envelope(payload: &[u8]) -> (envelope: Result<WebhookEvent, WebAssistError>)
    ensures
        view_result(envelope) == spec_parse_envelope(payload@),
{
    match parse_object(payload) {
        None => Err(WebAssistError::ParseError(ParseFault::Envelope)),
        Some(members) => {
            let event = match text_member(&members, "event") {
                Some(event) => String::from_str(event),
                None => {
                    return Err(WebAssistError::ParseError(ParseFault::EventName));
                },
            };
            Ok(WebhookEvent { event, data: members })
        },
    }
}

/// The identifier held as text by the member with this name.
pub fn id_member(members: &Vec<(String, JsonField)>, name: &str) -> (id: Option<u128>)
    ensures
        id == spec_id_member(members.deep_view(), name@),
{
    match text_member(members, name) {
        Some(text) => parse_id(text),
        None => None,
    }
}

/// Reads what a "project.created" event asks for.
pub fn parse_project_created(data: &Vec<(String, JsonField)>) -> (request: Result<
    CreateWebAssistProjectRequest,
    WebAssistError,
>)
    ensures
        view_result(request) == spec_parse_project_created(data.deep_view()),
{
    let project_id = match id_member(data, "project_id") {
        Some(id) => id,
        None => {
            return Err(WebAssistError::ParseError(ParseFault::ProjectId));
        },
    };
    let project_number = match text_member(data, "project_number") {
        Some(text) => String::from_str(text),
        None => {
            return Err(WebAssistError::ParseError(ParseFault::ProjectNumber));
        },
    };
    let company_name = match text_member(data, "company_name") {
        Some(text) => String::from_str(text),
        None => {
            return Err(WebAssistError::ParseError(ParseFault::CompanyName));
        },
    };
    let wizard_completion_id = match id_member(data, "wizard_completion_id") {
        Some(id) => id,
        None => {
            return Err(WebAssistError::ParseError(ParseFault::WizardCompletionId));
        },
    };
    let is_rush_delivery = match flag_member(data, "is_rush_delivery") {
        Some(flag) => flag,
        None => {
            return Err(WebAssistError::ParseError(ParseFault::IsRushDelivery));
        },
    };
    Ok(
        CreateWebAssistProjectRequest {
            project_id,
            project_number,
            company_name,
            wizard_completion_id,
            is_rush_delivery,
        },
    )
}

/// Reads what an "approval.updated" event reports.
pub fn parse_approval_updated(data: &Vec<(String, JsonField)>) -> (update: Result<
    ApprovalUpdate,
    WebAssistError,
>)
    ensures
        view_result(update) == spec_parse_approval_updated(data.deep_view()),
{
    let approval_id = match id_member(data, "approval_id") {
        Some(id) => id,
        None => {
            return Err(WebAssistError::ParseError(ParseFault::ApprovalId));
        },
    };
    let project_id = match id_member(data, "project_id") {
        Some(id) => id,
        None => {
            return Err(WebAssistError::ParseError(ParseFault::ProjectId));
        },
    };
    let status = match text_member(data, "status") {
        Some(name) => match ApprovalStatus::from_name(name) {
            Some(status) => status,
            None => {
                return Err(WebAssistError::ParseError(ParseFault::Status));
            },
        },
        None => {
            return Err(WebAssistError::ParseError(ParseFault::Status));
        },
    };
    let client_feedback = own_text(text_member(data, "client_feedback"));
    Ok(ApprovalUpdate { approval_id, project_id, status, client_feedback })
}

/// Reads what a "project.stage_changed" event reports.
pub fn parse_stage_changed(data: &Vec<(String, JsonField)>) -> (change: Result<
    (u128, String),
    WebAssistError,
>)
    ensures
        view_result(change) == spec_parse_stage_changed(data.deep_view()),
{
    let project_id = match id_member(data, "project_id") {
        Some(id) => id,
        None => {
            return Err(WebAssistError::ParseError(ParseFault::ProjectId));
        },
    };
    match text_member(data, "stage_name") {
        Some(name) => Ok((project_id, String::from_str(name))),
        None => Err(WebAssistError::ParseError(ParseFault::StageName)),
    }
}

/// Receives the events of the remote backend.
pub struct WebhookHandler {
    project_manager: ProjectManager,
    webhook_secret: String,
}

impl WebhookHandler {
    /// How the remote backend is reached.
    pub closed spec fn client(&self) -> SupabaseConfigView {
        self.project_manager.client()
    }

    /// The secret that signs the events.
    pub closed spec fn secret(&self) -> Seq<char> {
        self.webhook_secret@
    }

    /// The directory that holds the projects.
    pub closed spec fn directory(&self) -> Seq<char> {
        self.project_manager.directory()
    }

    /// A handler that routes to this manager and checks signatures under this secret.
    pub fn new(project_manager: ProjectManager, webhook_secret: String) -> (handler: WebhookHandler)
        ensures
            handler.client() == project_manager.client(),
            handler.directory() == project_manager.directory(),
            handler.secret() == webhook_secret@,
    {
        WebhookHandler { project_manager, webhook_secret }
    }

    /// The manager that this handler routes to.
    pub fn project_manager(&self) -> (manager: &ProjectManager)
        ensures
            manager.client() == self.client(),
            manager.directory() == self.directory(),
    {
        &self.project_manager
    }

    /// Checks and handles one event.
    pub fn handle_webhook(
        &self,
        store: &mut LocalStore,
        payload: &[u8],
        signature: Option<&str>,
        now: i64,
    ) -> (outcome: Result<WebhookOutcome, WebAssistError>)
        requires
            old(store)@.wf(),
        ensures
            final(store)@.wf(),
            (final(store)@, view_result(outcome)) == spec_handle_webhook(
                self.client(),
                self.secret(),
                old(store)@,
                payload@,
                signature.deep_view(),
                now,
            ),
    {
        match signature {
            Some(text) => {
                match verify_webhook_signature(payload, text, self.webhook_secret.as_str()) {
                    Ok(true) => {},
                    _ => {
                        return Err(WebAssistError::AuthenticationFailed);
                    },
                }
            },
            None => {},
        }
        let envelope = match parse_envelope(payload) {
            Ok(envelope) => envelope,
            Err(e) => {
                return Err(e);
            },
        };
        self.dispatch(store, envelope, now)
    }

    /// Routes an event that has been read to what handles its kind.
    pub fn dispatch(&self, store: &mut LocalStore, envelope: WebhookEvent, now: i64) -> (outcome:
        Result<WebhookOutcome, WebAssistError>)
        requires
            old(store)@.wf(),
        ensures
            final(store)@.wf(),
            (final(store)@, view_result(outcome)) == spec_dispatch(
                self.client(),
                old(store)@,
                envelope@,
                now,
            ),
    {
        if str_eq(envelope.event.as_str(), "project.created") {
            self.handle_project_created(&envelope.data)
        } else if str_eq(envelope.event.as_str(), "approval.updated") {
            self.handle_approval_updated(store, &envelope.data, now)
        } else if str_eq(envelope.event.as_str(), "project.stage_changed") {
            Self::handle_stage_changed(&envelope.data)
        } else {
            Ok(WebhookOutcome::Ignored { event: envelope.event })
        }
    }

    fn handle_project_created(&self, data: &Vec<(String, JsonField)>) -> (outcome: Result<
        WebhookOutcome,
        WebAssistError,
    >)
        ensures
            view_result(outcome) == match spec_parse_project_created(data.deep_view()) {
                Ok(request) => Ok(
                    WebhookOutcomeView::ProjectCreation {
                        request,
                        fetch: self.client().get_wizard_completion(request.wizard_completion_id),
                    },
                ),
                Err(e) => Err(e),
            },
    {
        match parse_project_created(data) {
            Ok(request) => {
                let fetch = self.project_manager.begin_create(&request);
                Ok(WebhookOutcome::ProjectCreation { request, fetch })
            },
            Err(e) => Err(e),
        }
    }

    fn handle_approval_updated(
        &self,
        store: &mut LocalStore,
        data: &Vec<(String, JsonField)>,
        now: i64,
    ) -> (outcome: Result<WebhookOutcome, WebAssistError>)
        requires
            old(store)@.wf(),
        ensures
            final(store)@.wf(),
            (final(store)@, view_result(outcome)) == match spec_parse_approval_updated(
                data.deep_view(),
            ) {
                Ok(update) => match spec_handle_approval_response(
                    self.client(),
                    old(store)@,
                    update.project_id,
                    update.approval_id,
                    update.status,
                    update.client_feedback,
                    now,
                ) {
                    (next, Ok(calls)) => (next, Ok(WebhookOutcomeView::ApprovalHandled { calls })),
                    (next, Err(e)) => (next, Err(e)),
                },
                Err(e) => (old(store)@, Err(e)),
            },
    {
        let update = match parse_approval_updated(data) {
            Ok(update) => update,
            Err(e) => {
                return Err(e);
            },
        };
        match self.project_manager.handle_approval_response(
            store,
            update.project_id,
            update.approval_id,
            update.status,
            update.client_feedback,
            now,
        ) {
            Ok(calls) => Ok(WebhookOutcome::ApprovalHandled { calls }),
            Err(e) => Err(e),
        }
    }

    fn handle_stage_changed(data: &Vec<(String, JsonField)>) -> (outcome: Result<
        WebhookOutcome,
        WebAssistError,
    >)
        ensures
            view_result(outcome) == match spec_parse_stage_changed(data.deep_view()) {
                Ok((project_id, stage_name)) => Ok(
                    WebhookOutcomeView::StageChangeNoted { project_id, stage_name },
                ),
                Err(e) => Err(e),
            },
    {
        match parse_stage_changed(data) {
            Ok((project_id, stage_name)) => Ok(
                WebhookOutcome::StageChangeNoted { project_id, stage_name },
            ),
            Err(e) => Err(e),
        }
    }
}

} // verus!
