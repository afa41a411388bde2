//! Orchestration core of a staged client-delivery workflow: the stage
//! machine, webhook authentication and routing, approval gating and the
//! mirroring of local state to a remote backend.

pub mod approval_sync;
pub mod config;
pub mod encoding;
pub mod error;
pub mod github_account;
pub mod integration;
pub mod json;
pub mod models;
pub mod project_manager;
pub mod routes;
pub mod stage_brief;
pub mod stage_executor;
pub mod store;
pub mod supabase_client;
pub mod task;
pub mod task_sync;
pub mod webhook;

pub use approval_sync::ApprovalSync;
pub use config::WebAssistConfig;
pub use error::WebAssistError;
pub use models::{
    ApprovalDecision, ApprovalStatus, CreateWebAssistProjectRequest, Deliverable, StageTaskMapping,
    SyncStatus, WebAssistApproval, WebAssistProject, WebAssistStage, WebhookEvent,
};
pub use project_manager::ProjectManager;
pub use stage_executor::StageExecutor;
pub use store::LocalStore;
pub use supabase_client::{SupabaseClient, SupabaseConfig};
pub use task_sync::TaskSyncService;
pub use webhook::{verify_webhook_signature, WebhookHandler};
