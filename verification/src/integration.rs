//! Sets up the parts of the integration from its settings.

use std::path::PathBuf;
use vstd::prelude::*;
use vstd::string::*;

use crate::approval_sync::ApprovalSync;
use crate::config::WebAssistConfig;
use crate::project_manager::ProjectManager;
use crate::supabase_client::{SupabaseClient, SupabaseConfig, SupabaseConfigView};
use crate::webhook::WebhookHandler;

verus! {

/// The parts of a running integration.
pub struct Integration {
    pub webhook_handler: WebhookHandler,
    pub project_manager: ProjectManager,
    pub approval_sync: ApprovalSync,
}

/// What is told where the integration is switched on and its settings are
/// incomplete.
pub const INCOMPLETE_SETTINGS: &'static str =
    "WebAssist configuration is incomplete. Check webhook_secret, projects_directory, and supabase settings.";

/// `Path::to_string_lossy`: the path as text, for the plan of a project's
/// directories.
#[verifier::external_body]
fn path_text(path: &PathBuf) -> String {
    path.to_string_lossy().into_owned()
}

/// How the remote backend is reached under valid settings: at the
/// configured address, with the configured keys, the restricted key empty
/// where none is configured.
pub open spec fn spec_backend(config: &WebAssistConfig) -> SupabaseConfigView {
    SupabaseConfigView {
        url: config.supabase.url.unwrap()@,
        anon_key: match config.supabase.anon_key {
            Some(key) => key@,
            None => Seq::empty(),
        },
        service_role_key: Some(config.supabase.service_role_key.unwrap()@),
    }
}

/// Sets up the integration. Settings that switch it off give nothing;
/// settings that switch it on and are incomplete are refused; valid
/// settings give a handler, a manager and an approval sync that all talk to
/// the configured backend, the handler with the configured secret.
pub fn initialize_web_assist(config: &WebAssistConfig) -> (parts: Result<
    Option<Integration>,
    String,
>)
    ensures
        match parts {
            Ok(None) => !config.enabled,
            Ok(Some(integration)) => {
                &&& config.spec_is_valid()
                &&& integration.webhook_handler.client() == spec_backend(config)
                &&& integration.webhook_handler.secret() == config.webhook_secret.unwrap()@
                &&& integration.project_manager.client() == spec_backend(config)
                &&& integration.approval_sync.client() == spec_backend(config)
            },
            Err(message) => config.enabled && !config.spec_is_valid() && message@
                == INCOMPLETE_SETTINGS@,
        },
{
    if !config.enabled {
        return Ok(None);
    }
    if !config.is_valid() {
        return Err(String::from_str(INCOMPLETE_SETTINGS));
    }
    let anon_key = match &config.supabase.anon_key {
        Some(key) => key.clone(),
        None => String::new(),
    };
    let backend = SupabaseConfig {
        url: String::from_str(config.supabase_url()),
        anon_key,
        service_role_key: Some(String::from_str(config.supabase_service_role_key())),
    };
    let client = match SupabaseClient::new(backend) {
        Ok(client) => client,
        Err(_) => {
            return Err(String::from_str(INCOMPLETE_SETTINGS));
        },
    };
    let directory = path_text(config.projects_directory());
    let project_manager = ProjectManager::new(client.duplicate(), directory.clone());
    let approval_sync = ApprovalSync::new(client.duplicate());
    let webhook_handler = WebhookHandler::new(
        ProjectManager::new(client, directory),
        String::from_str(config.webhook_secret()),
    );
    Ok(Some(Integration { webhook_handler, project_manager, approval_sync }))
}

} // verus!
