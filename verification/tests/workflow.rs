use hmac::{Hmac, Mac};
use sha2::Sha256;

use web_assist::approval_sync::ApprovalSync;
use web_assist::error::{Missing, WebAssistError};
use web_assist::models::{
    ApprovalStatus, CreateWebAssistProjectRequest, StageTaskMapping, SyncStatus, WebAssistApproval,
    WebAssistProject, WebAssistStage,
};
use web_assist::project_manager::ProjectManager;
use web_assist::stage_brief::{stage_description, Requirements};
use web_assist::stage_executor::{StageExecutor, StageOutcome};
use web_assist::store::LocalStore;
use web_assist::supabase_client::{
    HttpMethod, Prefer, RemoteBody, RemoteReply, SupabaseClient, SupabaseConfig,
};
use web_assist::task::{Task, TaskStatus};
use web_assist::webhook::{WebhookHandler, WebhookOutcome};

const REMOTE: u128 = 0x550e8400_e29b_41d4_a716_446655440000;
const WIZARD: u128 = 0x123e4567_e89b_12d3_a456_426614174000;

fn client() -> SupabaseClient {
    SupabaseClient::new(SupabaseConfig {
        url: "https://example.supabase.co".to_string(),
        anon_key: "test-anon-key".to_string(),
        service_role_key: Some("test-service-key".to_string()),
    })
    .unwrap()
}

fn manager() -> ProjectManager {
    ProjectManager::new(client(), "/srv/projects".to_string())
}

fn request() -> CreateWebAssistProjectRequest {
    CreateWebAssistProjectRequest {
        project_id: REMOTE,
        project_number: "WA-2025-001".to_string(),
        company_name: "Acme".to_string(),
        wizard_completion_id: WIZARD,
        is_rush_delivery: false,
    }
}

fn requirements() -> Requirements {
    Requirements {
        industry: Some("bakery".to_string()),
        target_audience: None,
        requirements: Some("A shop with opening hours.".to_string()),
    }
}

fn store_at(stage: WebAssistStage) -> LocalStore {
    let mut store = LocalStore::new();
    let mapping = StageTaskMapping::new([11, 12, 13, 14, 15, 16, 17, 18, 19]);
    let project = WebAssistProject::create_with_id(&mut store, 1, REMOTE, 2, mapping, 100).unwrap();
    if stage != WebAssistStage::InitialReview {
        assert!(WebAssistProject::update_stage(&mut store, project.id, stage, 101));
    }
    store
}

fn current_stage(store: &LocalStore) -> WebAssistStage {
    WebAssistProject::find_by_webassist_id(store, REMOTE).unwrap().current_stage
}

fn pending_count(store: &LocalStore, stage: WebAssistStage) -> usize {
    store
        .approvals()
        .iter()
        .filter(|a| a.web_assist_project_id == 1 && a.stage_name == stage && a.status == ApprovalStatus::Pending)
        .count()
}

#[test]
fn signed_creation_event_leads_to_a_project_with_nine_tasks() {
    let secret = "shared-secret";
    let body = br#"{"event":"project.created","project_id":"550e8400-e29b-41d4-a716-446655440000","project_number":"WA-2025-001","company_name":"Acme","wizard_completion_id":"123e4567-e89b-12d3-a456-426614174000","is_rush_delivery":false}"#;
    let mut mac = Hmac::<Sha256>::new_from_slice(secret.as_bytes()).unwrap();
    mac.update(body);
    let signature = hex::encode(mac.finalize().into_bytes());

    let mut store = LocalStore::new();
    let handler = WebhookHandler::new(manager(), secret.to_string());
    let outcome = handler.handle_webhook(&mut store, body, Some(&signature), 1000).unwrap();
    let request = match outcome {
        WebhookOutcome::ProjectCreation { request, fetch } => {
            assert_eq!(fetch.method, HttpMethod::Get);
            request
        }
        other => panic!("unexpected outcome: {other:?}"),
    };

    let reply = RemoteReply::Response {
        status: 200,
        body: r#"[{"id":"123e4567-e89b-12d3-a456-426614174000","industry":"bakery","targetAudience":"locals","requirements":"A shop.","pages":5}]"#.to_string(),
    };
    let requirements = ProjectManager::read_requirements(reply).unwrap();
    assert_eq!(requirements.industry.as_deref(), Some("bakery"));
    assert_eq!(requirements.target_audience.as_deref(), Some("locals"));
    assert_eq!(requirements.requirements.as_deref(), Some("A shop."));

    let plan = handler.project_manager().scaffold_plan(&request);
    assert_eq!(plan.root, "/srv/projects");
    assert_eq!(plan.directory_name, "550e8400-e29b-41d4-a716-446655440000");
    assert_eq!(plan.repository_name, "project");
    assert_eq!(plan.project_name, "Acme (WA-2025-001)");
    assert_eq!(plan.setup_script, "npm install");
    assert_eq!(plan.dev_script, "npm run dev");

    let (project, calls) = handler
        .project_manager()
        .create_project_from_webhook(&mut store, &request, &requirements, Ok(77), 2000)
        .unwrap();

    assert_eq!(store.tasks().len(), 9);
    assert_eq!(store.projects().len(), 1);
    assert_eq!(store.projects()[0], project);
    assert_eq!(project.webassist_project_id, REMOTE);
    assert_eq!(project.otto_project_id, 77);
    assert_eq!(project.current_stage, WebAssistStage::InitialReview);
    assert_eq!(project.sync_status, SyncStatus::Active);
    assert_eq!(project.last_synced_at, None);

    let stages = WebAssistStage::all_stages();
    let mut seen = Vec::new();
    for (i, stage) in stages.iter().enumerate() {
        let task_id = project.stage_task_mapping.task_for(*stage);
        assert!(!seen.contains(&task_id));
        seen.push(task_id);
        assert_eq!(project.stage_task_mapping.stage_of(task_id), Some(*stage));
        let task = Task::find_by_id(&store, task_id).unwrap();
        assert_eq!(store.tasks()[i].id, task_id);
        assert_eq!(task.project_id, 77);
        assert_eq!(task.title, format!("Stage {}: {}", i + 1, stage.display_name()));
        assert_eq!(task.description, Some(stage_description(*stage, &request, &requirements)));
        let expected = if i == 0 { TaskStatus::InProgress } else { TaskStatus::Todo };
        assert_eq!(task.status, expected);
    }
    assert_eq!(seen.len(), 9);

    assert_eq!(calls.len(), 1);
    assert_eq!(calls[0].method, HttpMethod::Post);
    assert_eq!(calls[0].url, "https://example.supabase.co/rest/v1/project_updates");
    assert_eq!(calls[0].authorization, "Bearer test-service-key");
    assert_eq!(
        calls[0].body,
        Some(RemoteBody::ProjectUpdate {
            project_id: REMOTE,
            update_type: "project_created".to_string(),
            title: "Otto Coder Project Created".to_string(),
            message: "AI agents are now setting up your project. Initial review is starting...".to_string(),
            created_by: "team:otto-coder",
            is_visible_to_client: true,
            otto_project_id: Some(77),
        })
    );
}

#[test]
fn creation_with_given_identifiers_is_exact() {
    let mut store = LocalStore::new();
    let (project, _) = manager()
        .create_project_with_ids(&mut store, &request(), &requirements(), 77, 500, [1, 2, 3, 4, 5, 6, 7, 8, 9], 2000)
        .unwrap();
    assert_eq!(project.id, 500);
    assert_eq!(project.created_at, 2000);
    assert_eq!(project.stage_task_mapping, StageTaskMapping::new([1, 2, 3, 4, 5, 6, 7, 8, 9]));
    let ids: Vec<u128> = store.tasks().iter().map(|t| t.id).collect();
    assert_eq!(ids, vec![1, 2, 3, 4, 5, 6, 7, 8, 9]);
    assert_eq!(store.tasks()[0].status, TaskStatus::InProgress);
    assert_eq!(store.tasks()[0].updated_at, 2000);
    assert_eq!(store.tasks()[8].title, "Stage 9: Project Delivered");
}

#[test]
fn creation_with_identifiers_in_use_changes_nothing() {
    let mut store = LocalStore::new();
    let m = manager();
    m.create_project_with_ids(&mut store, &request(), &requirements(), 77, 500, [1, 2, 3, 4, 5, 6, 7, 8, 9], 2000)
        .unwrap();
    let repeated_task = m.create_project_with_ids(
        &mut store, &request(), &requirements(), 78, 501, [21, 22, 23, 24, 9, 26, 27, 28, 29], 2001,
    );
    assert_eq!(repeated_task, Err(WebAssistError::LocalPersistFailed));
    let repeated_row = m.create_project_with_ids(
        &mut store, &request(), &requirements(), 78, 500, [21, 22, 23, 24, 25, 26, 27, 28, 29], 2001,
    );
    assert_eq!(repeated_row, Err(WebAssistError::LocalPersistFailed));
    let twice = m.create_project_with_ids(
        &mut store, &request(), &requirements(), 78, 501, [21, 22, 23, 24, 25, 26, 27, 28, 21], 2001,
    );
    assert_eq!(twice, Err(WebAssistError::LocalPersistFailed));
    assert_eq!(store.projects().len(), 1);
    assert_eq!(store.tasks().len(), 9);
}

#[test]
fn failed_fetch_of_requirements_ends_the_creation() {
    let refused = RemoteReply::Response { status: 503, body: "down".to_string() };
    assert_eq!(
        ProjectManager::read_requirements(refused),
        Err(WebAssistError::RemoteFetchFailed { status: Some(503), detail: "down".to_string() })
    );
    let lost = RemoteReply::Unreachable { reason: "dns".to_string() };
    assert_eq!(
        ProjectManager::read_requirements(lost),
        Err(WebAssistError::RemoteFetchFailed { status: None, detail: "dns".to_string() })
    );
    let empty = RemoteReply::Response { status: 200, body: "[]".to_string() };
    assert_eq!(
        ProjectManager::read_requirements(empty),
        Err(WebAssistError::RemoteFetchFailed { status: None, detail: "no requirements on record".to_string() })
    );
    let garbled = RemoteReply::Response { status: 200, body: "{}".to_string() };
    assert_eq!(
        ProjectManager::read_requirements(garbled),
        Err(WebAssistError::RemoteFetchFailed { status: None, detail: "unreadable reply".to_string() })
    );
}

#[test]
fn failed_scaffold_ends_the_creation_and_commits_nothing() {
    let mut store = LocalStore::new();
    let created = manager().create_project_from_webhook(
        &mut store,
        &request(),
        &requirements(),
        Err("npx exited with 1".to_string()),
        2000,
    );
    assert_eq!(created, Err(WebAssistError::ScaffoldFailed { reason: "npx exited with 1".to_string() }));
    assert!(store.projects().is_empty());
    assert!(store.tasks().is_empty());
}

#[test]
fn completion_of_a_gated_stage_asks_for_one_approval() {
    let mut store = store_at(WebAssistStage::DesignMockup);
    let executor = StageExecutor::new(client());
    let first = executor
        .on_task_completed_with(&mut store, REMOTE, WebAssistStage::DesignMockup, 40, 41, 200)
        .unwrap();
    match first {
        StageOutcome::ApprovalRequested { approval_id, registration, notification } => {
            assert_eq!(approval_id, 40);
            assert_eq!(registration.method, HttpMethod::Post);
            assert_eq!(registration.url, "https://example.supabase.co/rest/v1/project_approvals");
            assert_eq!(registration.prefer, Some(Prefer::Representation));
            assert_eq!(
                notification.body,
                Some(RemoteBody::ProjectUpdate {
                    project_id: REMOTE,
                    update_type: "approval_requested".to_string(),
                    title: "Your Approval Needed".to_string(),
                    message: "Stage 'Design Mockup Creation' is complete and ready for your review.".to_string(),
                    created_by: "team:otto-coder",
                    is_visible_to_client: true,
                    otto_project_id: None,
                })
            );
        }
        other => panic!("unexpected outcome: {other:?}"),
    }
    assert_eq!(pending_count(&store, WebAssistStage::DesignMockup), 1);
    assert_eq!(current_stage(&store), WebAssistStage::DesignMockup);

    let second = executor
        .on_task_completed_with(&mut store, REMOTE, WebAssistStage::DesignMockup, 42, 43, 201)
        .unwrap();
    assert!(matches!(second, StageOutcome::ApprovalAlreadyPending { .. }));
    assert_eq!(store.approvals().len(), 1);
    assert_eq!(pending_count(&store, WebAssistStage::DesignMockup), 1);
    assert_eq!(current_stage(&store), WebAssistStage::DesignMockup);
}

#[test]
fn every_gated_stage_keeps_one_pending_approval_over_two_completions() {
    for stage in [WebAssistStage::DesignMockup, WebAssistStage::ContentCollection, WebAssistStage::ClientPreview] {
        let mut store = store_at(stage);
        let executor = StageExecutor::new(client());
        executor.on_task_completed(&mut store, REMOTE, stage, 200).unwrap();
        executor.on_task_completed(&mut store, REMOTE, stage, 201).unwrap();
        assert_eq!(pending_count(&store, stage), 1);
        assert_eq!(store.approvals().len(), 1);
    }
}

#[test]
fn completion_with_an_identifier_in_use_is_a_persist_failure() {
    let mut store = store_at(WebAssistStage::DesignMockup);
    let project = WebAssistProject::find_by_webassist_id(&store, REMOTE).unwrap();
    WebAssistApproval::create_with_id(&mut store, 40, project.id, WebAssistStage::ClientPreview, None, Vec::new(), 1)
        .unwrap();
    let executor = StageExecutor::new(client());
    assert_eq!(
        executor.on_task_completed_with(&mut store, REMOTE, WebAssistStage::DesignMockup, 40, 41, 200),
        Err(WebAssistError::LocalPersistFailed)
    );
    assert_eq!(pending_count(&store, WebAssistStage::DesignMockup), 0);
}

#[test]
fn completion_of_another_stage_than_the_current_one_is_ignored() {
    let mut store = store_at(WebAssistStage::Development);
    let executor = StageExecutor::new(client());
    for stale in [WebAssistStage::AiResearch, WebAssistStage::DesignMockup, WebAssistStage::Deployment] {
        assert_eq!(executor.on_task_completed_with(&mut store, REMOTE, stale, 40, 41, 200), Ok(StageOutcome::Ignored));
    }
    assert_eq!(current_stage(&store), WebAssistStage::Development);
    assert!(store.approvals().is_empty());
}

#[test]
fn completion_for_an_unknown_project_is_not_found() {
    let mut store = LocalStore::new();
    let executor = StageExecutor::new(client());
    assert_eq!(
        executor.on_task_completed(&mut store, REMOTE, WebAssistStage::InitialReview, 200),
        Err(WebAssistError::NotFound(Missing::Project))
    );
}

#[test]
fn completion_of_an_open_stage_moves_to_the_next_one() {
    let mut store = store_at(WebAssistStage::InitialReview);
    let executor = StageExecutor::new(client());
    let outcome = executor.on_task_completed(&mut store, REMOTE, WebAssistStage::InitialReview, 200).unwrap();
    match outcome {
        StageOutcome::Advanced { next, notification, stage_update } => {
            assert_eq!(next, WebAssistStage::AiResearch);
            assert_eq!(
                notification.body,
                Some(RemoteBody::ProjectUpdate {
                    project_id: REMOTE,
                    update_type: "stage_started".to_string(),
                    title: "Stage Started: AI Research & Analysis".to_string(),
                    message: "AI agents are now working on AI Research & Analysis".to_string(),
                    created_by: "team:otto-coder",
                    is_visible_to_client: true,
                    otto_project_id: None,
                })
            );
            assert_eq!(stage_update.method, HttpMethod::Patch);
            assert_eq!(
                stage_update.url,
                "https://example.supabase.co/rest/v1/projects?id=eq.550e8400-e29b-41d4-a716-446655440000"
            );
            assert_eq!(
                stage_update.body,
                Some(RemoteBody::ProjectStage {
                    current_stage: WebAssistStage::AiResearch,
                    stage_progress: 0,
                    updated_at: Some("1970-01-01T00:00:00.200+00:00".to_string()),
                })
            );
        }
        other => panic!("unexpected outcome: {other:?}"),
    }
    let project = WebAssistProject::find_by_webassist_id(&store, REMOTE).unwrap();
    assert_eq!(project.current_stage, WebAssistStage::AiResearch);
    assert_eq!(project.updated_at, 200);
}

#[test]
fn completion_of_the_last_stage_delivers_the_project() {
    let mut store = store_at(WebAssistStage::Delivered);
    let executor = StageExecutor::new(client());
    let outcome = executor.on_task_completed(&mut store, REMOTE, WebAssistStage::Delivered, 200).unwrap();
    match outcome {
        StageOutcome::Delivered { notification, stage_update } => {
            match notification.body {
                Some(RemoteBody::ProjectUpdate { update_type, .. }) => assert_eq!(update_type, "project_completed"),
                other => panic!("unexpected body: {other:?}"),
            }
            assert_eq!(
                stage_update.body,
                Some(RemoteBody::ProjectStage {
                    current_stage: WebAssistStage::Delivered,
                    stage_progress: 100,
                    updated_at: Some("1970-01-01T00:00:00.200+00:00".to_string()),
                })
            );
        }
        other => panic!("unexpected outcome: {other:?}"),
    }
    assert_eq!(current_stage(&store), WebAssistStage::Delivered);
}

#[test]
fn approved_gated_stage_moves_to_its_successor() {
    let mut store = store_at(WebAssistStage::ClientPreview);
    StageExecutor::new(client())
        .on_task_completed_with(&mut store, REMOTE, WebAssistStage::ClientPreview, 40, 41, 200)
        .unwrap();
    let calls = manager()
        .handle_approval_response(&mut store, REMOTE, 40, ApprovalStatus::Approved, None, 300)
        .unwrap();
    assert!(calls.is_empty());
    let project = WebAssistProject::find_by_webassist_id(&store, REMOTE).unwrap();
    assert_eq!(project.current_stage, WebAssistStage::Deployment);
    assert_eq!(project.sync_status, SyncStatus::Active);
    let row = WebAssistApproval::find_by_id(&store, 40).unwrap();
    assert_eq!(row.status, ApprovalStatus::Approved);
    assert_eq!(row.responded_at, Some(300));
}

#[test]
fn rejected_gated_stage_pauses_the_project_where_it_stands() {
    for status in [ApprovalStatus::Rejected, ApprovalStatus::ChangesRequested] {
        let mut store = store_at(WebAssistStage::DesignMockup);
        StageExecutor::new(client())
            .on_task_completed_with(&mut store, REMOTE, WebAssistStage::DesignMockup, 40, 41, 200)
            .unwrap();
        let calls = manager()
            .handle_approval_response(&mut store, REMOTE, 40, status, Some("Too dark".to_string()), 300)
            .unwrap();
        let project = WebAssistProject::find_by_webassist_id(&store, REMOTE).unwrap();
        assert_eq!(project.sync_status, SyncStatus::Paused);
        assert_eq!(project.current_stage, WebAssistStage::DesignMockup);
        assert_eq!(project.last_synced_at, Some(300));
        assert_eq!(calls.len(), 1);
        assert_eq!(
            calls[0].body,
            Some(RemoteBody::ProjectUpdate {
                project_id: REMOTE,
                update_type: "approval_rejected".to_string(),
                title: "Changes Requested".to_string(),
                message: "Client requested changes: Too dark".to_string(),
                created_by: "team:otto-coder",
                is_visible_to_client: true,
                otto_project_id: None,
            })
        );
    }
}

#[test]
fn rejection_without_feedback_says_so() {
    let mut store = store_at(WebAssistStage::DesignMockup);
    StageExecutor::new(client())
        .on_task_completed_with(&mut store, REMOTE, WebAssistStage::DesignMockup, 40, 41, 200)
        .unwrap();
    let calls = manager()
        .handle_approval_response(&mut store, REMOTE, 40, ApprovalStatus::Rejected, None, 300)
        .unwrap();
    match &calls[0].body {
        Some(RemoteBody::ProjectUpdate { message, .. }) => {
            assert_eq!(message, "Client requested changes: No feedback provided")
        }
        other => panic!("unexpected body: {other:?}"),
    }
}

#[test]
fn response_known_to_the_remote_side_is_pushed_first() {
    let mut store = store_at(WebAssistStage::DesignMockup);
    StageExecutor::new(client())
        .on_task_completed_with(&mut store, REMOTE, WebAssistStage::DesignMockup, 40, 41, 200)
        .unwrap();
    let reply = RemoteReply::Response {
        status: 201,
        body: r#"[{"id":"123e4567-e89b-12d3-a456-426614174000"}]"#.to_string(),
    };
    ApprovalSync::new(client()).record_remote_approval(&mut store, 40, reply).unwrap();
    let calls = manager()
        .handle_approval_response(&mut store, REMOTE, 40, ApprovalStatus::Rejected, None, 300)
        .unwrap();
    assert_eq!(calls.len(), 2);
    assert_eq!(calls[0].method, HttpMethod::Patch);
    assert_eq!(
        calls[0].body,
        Some(RemoteBody::ApprovalUpdate {
            status: ApprovalStatus::Rejected,
            responded_at: Some("1970-01-01T00:00:00.300+00:00".to_string()),
            client_feedback: None,
        })
    );
    assert_eq!(calls[1].method, HttpMethod::Post);
}

#[test]
fn second_response_is_a_conflict_and_moves_nothing() {
    let mut store = store_at(WebAssistStage::DesignMockup);
    StageExecutor::new(client())
        .on_task_completed_with(&mut store, REMOTE, WebAssistStage::DesignMockup, 40, 41, 200)
        .unwrap();
    let m = manager();
    m.handle_approval_response(&mut store, REMOTE, 40, ApprovalStatus::Approved, None, 300).unwrap();
    assert_eq!(current_stage(&store), WebAssistStage::ContentCollection);
    assert_eq!(
        m.handle_approval_response(&mut store, REMOTE, 40, ApprovalStatus::Approved, None, 301),
        Err(WebAssistError::Conflict)
    );
    assert_eq!(
        m.handle_approval_response(&mut store, REMOTE, 40, ApprovalStatus::Rejected, None, 302),
        Err(WebAssistError::Conflict)
    );
    let project = WebAssistProject::find_by_webassist_id(&store, REMOTE).unwrap();
    assert_eq!(project.current_stage, WebAssistStage::ContentCollection);
    assert_eq!(project.sync_status, SyncStatus::Active);
    assert_eq!(WebAssistApproval::find_by_id(&store, 40).unwrap().responded_at, Some(300));
}

#[test]
fn response_for_a_missing_project_or_approval_is_not_found() {
    let mut store = store_at(WebAssistStage::DesignMockup);
    let m = manager();
    assert_eq!(
        m.handle_approval_response(&mut store, 999, 40, ApprovalStatus::Approved, None, 300),
        Err(WebAssistError::NotFound(Missing::Project))
    );
    assert_eq!(
        m.handle_approval_response(&mut store, REMOTE, 40, ApprovalStatus::Approved, None, 300),
        Err(WebAssistError::NotFound(Missing::Approval))
    );
    assert_eq!(current_stage(&store), WebAssistStage::DesignMockup);
}

#[test]
fn pending_response_is_recorded_and_changes_nothing_else() {
    let mut store = store_at(WebAssistStage::DesignMockup);
    StageExecutor::new(client())
        .on_task_completed_with(&mut store, REMOTE, WebAssistStage::DesignMockup, 40, 41, 200)
        .unwrap();
    let calls = manager()
        .handle_approval_response(&mut store, REMOTE, 40, ApprovalStatus::Pending, None, 300)
        .unwrap();
    assert!(calls.is_empty());
    let project = WebAssistProject::find_by_webassist_id(&store, REMOTE).unwrap();
    assert_eq!(project.current_stage, WebAssistStage::DesignMockup);
    assert_eq!(project.sync_status, SyncStatus::Active);
    let row = WebAssistApproval::find_by_id(&store, 40).unwrap();
    assert_eq!(row.status, ApprovalStatus::Pending);
    assert_eq!(row.responded_at, Some(300));
}

#[test]
fn late_approval_of_an_earlier_stage_does_not_move_the_project_back() {
    let mut store = store_at(WebAssistStage::Development);
    ApprovalSync::new(client())
        .create_approval_request_with(&mut store, REMOTE, WebAssistStage::DesignMockup, None, Vec::new(), 40, 41, 200)
        .unwrap();
    manager()
        .handle_approval_response(&mut store, REMOTE, 40, ApprovalStatus::Approved, None, 300)
        .unwrap();
    assert_eq!(current_stage(&store), WebAssistStage::Development);
}

#[test]
fn workflow_runs_from_the_first_stage_to_delivery() {
    let mut store = LocalStore::new();
    let m = manager();
    m.create_project_with_ids(&mut store, &request(), &requirements(), 77, 500, [1, 2, 3, 4, 5, 6, 7, 8, 9], 0)
        .unwrap();
    let executor = StageExecutor::new(client());
    let mut visited = vec![current_stage(&store)];
    let mut now = 1;
    let mut next_id: u128 = 1000;
    while current_stage(&store) != WebAssistStage::Delivered {
        let stage = current_stage(&store);
        next_id += 2;
        now += 1;
        match executor.on_task_completed_with(&mut store, REMOTE, stage, next_id, next_id + 1, now).unwrap() {
            StageOutcome::ApprovalRequested { approval_id, .. } => {
                assert!(stage.requires_approval());
                now += 1;
                m.handle_approval_response(&mut store, REMOTE, approval_id, ApprovalStatus::Approved, None, now)
                    .unwrap();
            }
            StageOutcome::Advanced { next, .. } => {
                assert!(!stage.requires_approval());
                assert_eq!(Some(next), stage.next_stage());
            }
            other => panic!("unexpected outcome: {other:?}"),
        }
        visited.push(current_stage(&store));
    }
    assert_eq!(visited, WebAssistStage::all_stages());
    assert_eq!(store.approvals().len(), 3);
    assert!(store.approvals().iter().all(|a| a.status == ApprovalStatus::Approved));
}

#[test]
fn requirements_are_taken_from_the_record_where_they_are_strings() {
    let record = vec![
        ("industry".to_string(), web_assist::json::JsonField::Text("bakery".to_string())),
        ("targetAudience".to_string(), web_assist::json::JsonField::Null),
        ("other".to_string(), web_assist::json::JsonField::Flag(true)),
    ];
    let read = ProjectManager::requirements_of(&record);
    assert_eq!(read.industry.as_deref(), Some("bakery"));
    assert_eq!(read.target_audience, None);
    assert_eq!(read.requirements, None);
}
