//! The failures that the workflow reports.

use vstd::prelude::*;

use crate::store::StoreError;

verus! {

/// The part of a message that could not be read.
#[derive(Clone, Copy, Debug, PartialEq, Eq, Structural)]
pub enum ParseFault {
    /// The body is no JSON object.
    Envelope,
    /// The object has no event name, or one that is no string.
    EventName,
    ProjectId,
    ProjectNumber,
    CompanyName,
    WizardCompletionId,
    IsRushDelivery,
    ApprovalId,
    Status,
    StageName,
    /// A reply of the remote backend did not have the expected shape.
    RemoteReply,
}

/// What a request referred to and was not there.
#[derive(Clone, Copy, Debug, PartialEq, Eq, Structural)]
pub enum Missing {
    Project,
    Approval,
    /// The remote backend answered with an empty list.
    RemoteRecord,
}

/// What can go wrong in the workflow.
#[derive(Clone, Debug, PartialEq, Eq)]
pub enum WebAssistError {
    /// A signature was supplied and does not match the body.
    AuthenticationFailed,
    /// The envelope is malformed or lacks a required field.
    ParseError(ParseFault),
    NotFound(Missing),
    /// The request collides with what an earlier one left: a response to an
    /// approval that has one, or a second pending approval for a stage.
    Conflict,
    /// The remote backend did not answer with success. `status` is the HTTP
    /// status, or `None` where no answer arrived; `detail` is the body of
    /// the answer or the reason why none arrived.
    RemoteCallFailed { status: Option<u16>, detail: String },
    /// The requirements could not be read from the remote backend.
    RemoteFetchFailed { status: Option<u16>, detail: String },
    /// The local project could not be set up.
    ScaffoldFailed { reason: String },
    /// The local store refused a row.
    LocalPersistFailed,
    /// An approval was asked for a stage that needs none.
    StageNotGated,
}

/// `WebAssistError` by the plain values that it holds.
pub enum ErrorView {
    AuthenticationFailed,
    ParseError(ParseFault),
    NotFound(Missing),
    Conflict,
    RemoteCallFailed { status: Option<u16>, detail: Seq<char> },
    RemoteFetchFailed { status: Option<u16>, detail: Seq<char> },
    ScaffoldFailed { reason: Seq<char> },
    LocalPersistFailed,
    StageNotGated,
}

impl View for WebAssistError {
    type V = ErrorView;

    open spec fn view(&self) -> ErrorView {
        match self {
            WebAssistError::AuthenticationFailed => ErrorView::AuthenticationFailed,
            WebAssistError::ParseError(fault) => ErrorView::ParseError(*fault),
            WebAssistError::NotFound(missing) => ErrorView::NotFound(*missing),
            WebAssistError::Conflict => ErrorView::Conflict,
            WebAssistError::RemoteCallFailed { status, detail } => ErrorView::RemoteCallFailed {
                status: *status,
                detail: detail@,
            },
            WebAssistError::RemoteFetchFailed { status, detail } => ErrorView::RemoteFetchFailed {
                status: *status,
                detail: detail@,
            },
            WebAssistError::ScaffoldFailed { reason } => ErrorView::ScaffoldFailed {
                reason: reason@,
            },
            WebAssistError::LocalPersistFailed => ErrorView::LocalPersistFailed,
            WebAssistError::StageNotGated => ErrorView::StageNotGated,
        }
    }
}

impl DeepView for WebAssistError {
    type V = ErrorView;

    open spec fn deep_view(&self) -> ErrorView {
        self@
    }
}

/// The failure that stands for a refusal of the store.
pub open spec fn spec_store_failure(e: StoreError) -> ErrorView {
    match e {
        StoreError::DuplicateId => ErrorView::LocalPersistFailed,
        StoreError::PendingExists => ErrorView::Conflict,
        StoreError::NotFound => ErrorView::NotFound(Missing::Approval),
        StoreError::AlreadyResponded => ErrorView::Conflict,
    }
}

impl WebAssistError {
    /// The failure that stands for a refusal of the store.
    pub fn from_store(e: StoreError) -> (failure: WebAssistError)
        ensures
            failure@ == spec_store_failure(e),
    {
        match e {
            StoreError::DuplicateId => WebAssistError::LocalPersistFailed,
            StoreError::PendingExists => WebAssistError::Conflict,
            StoreError::NotFound => WebAssistError::NotFound(Missing::Approval),
            StoreError::AlreadyResponded => WebAssistError::Conflict,
        }
    }

    /// A short name of the failure's kind.
    pub fn kind(&self) -> (name: &'static str)
        ensures
            name@ == match self@ {
                ErrorView::AuthenticationFailed => "authentication failed"@,
                ErrorView::ParseError(_) => "parse error"@,
                ErrorView::NotFound(_) => "not found"@,
                ErrorView::Conflict => "conflict"@,
                ErrorView::RemoteCallFailed { .. } => "remote call failed"@,
                ErrorView::RemoteFetchFailed { .. } => "remote fetch failed"@,
                ErrorView::ScaffoldFailed { .. } => "scaffold failed"@,
                ErrorView::LocalPersistFailed => "local persist failed"@,
                ErrorView::StageNotGated => "stage not gated"@,
            },
    {
        match self {
            WebAssistError::AuthenticationFailed => "authentication failed",
            WebAssistError::ParseError(_) => "parse error",
            WebAssistError::NotFound(_) => "not found",
            WebAssistError::Conflict => "conflict",
            WebAssistError::RemoteCallFailed { .. } => "remote call failed",
            WebAssistError::RemoteFetchFailed { .. } => "remote fetch failed",
            WebAssistError::ScaffoldFailed { .. } => "scaffold failed",
            WebAssistError::LocalPersistFailed => "local persist failed",
            WebAssistError::StageNotGated => "stage not gated",
        }
    }
}

/// A result by the views of what it holds.
pub open spec fn view_result<T: DeepView, E: DeepView>(r: Result<T, E>) -> Result<T::V, E::V> {
    match r {
        Ok(value) => Ok(value.deep_view()),
        Err(failure) => Err(failure.deep_view()),
    }
}

} // verus!
