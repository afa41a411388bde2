use web_assist::error::{Missing, ParseFault, WebAssistError};
use web_assist::json::JsonField;
use web_assist::models::{ApprovalStatus, Deliverable, SyncStatus, WebAssistStage};
use web_assist::stage_executor::StageExecutor;
use web_assist::supabase_client::{
    attachments_of, check_reply, check_write_reply, created_approval_id, first_record, record_id,
    Attachment,
    HttpMethod, Prefer, RemoteBody, RemoteReply, RemoteTaskStatus, SupabaseClient, SupabaseConfig,
    REQUEST_TIMEOUT_SECS,
};

const ID: u128 = 0xa1a2a3a4_b1b2_c1c2_d1d2_d3d4d5d6d7d8;
const ID_TEXT: &str = "a1a2a3a4-b1b2-c1c2-d1d2-d3d4d5d6d7d8";

fn client() -> SupabaseClient {
    SupabaseClient::new(SupabaseConfig {
        url: "https://example.supabase.co".to_string(),
        anon_key: "test-anon-key".to_string(),
        service_role_key: Some("test-service-key".to_string()),
    })
    .unwrap()
}

#[test]
fn test_supabase_client_creation() {
    let config = SupabaseConfig {
        url: "https://example.supabase.co".to_string(),
        anon_key: "test-anon-key".to_string(),
        service_role_key: Some("test-service-key".to_string()),
    };

    let client = SupabaseClient::new(config);
    assert!(client.is_ok());
}

#[test]
fn elevated_key_is_preferred_for_signing_in() {
    assert_eq!(client().auth_header(), "Bearer test-service-key");
    let restricted = SupabaseClient::new(SupabaseConfig {
        url: "https://example.supabase.co".to_string(),
        anon_key: "test-anon-key".to_string(),
        service_role_key: None,
    })
    .unwrap();
    assert_eq!(restricted.auth_header(), "Bearer test-anon-key");
    let request = client().get_project(ID);
    assert_eq!(request.authorization, "Bearer test-service-key");
    assert_eq!(request.api_key, "test-anon-key");
    assert_eq!(request.timeout_secs, REQUEST_TIMEOUT_SECS);
    assert_eq!(REQUEST_TIMEOUT_SECS, 30);
    assert_eq!(client().duplicate(), client());
    assert_eq!(client().config().url, "https://example.supabase.co");
}

#[test]
fn identifiers_appear_hyphenated_in_addresses() {
    let request = client().get_project(ID);
    assert_eq!(request.method, HttpMethod::Get);
    assert_eq!(request.url, format!("https://example.supabase.co/rest/v1/projects?id=eq.{ID_TEXT}"));
    assert_eq!(request.prefer, None);
    assert_eq!(request.body, None);
    let zero = client().get_wizard_completion(0);
    assert_eq!(
        zero.url,
        "https://example.supabase.co/rest/v1/wizard_completions?id=eq.00000000-0000-0000-0000-000000000000"
    );
    let max = client().get_wizard_completion(u128::MAX);
    assert_eq!(
        max.url,
        "https://example.supabase.co/rest/v1/wizard_completions?id=eq.ffffffff-ffff-ffff-ffff-ffffffffffff"
    );
}

#[test]
fn activity_entry_is_signed_by_the_team() {
    let request = client().create_project_update(ID, "stage_started", "Title", "Message", Some(9));
    assert_eq!(request.method, HttpMethod::Post);
    assert_eq!(request.url, "https://example.supabase.co/rest/v1/project_updates");
    assert_eq!(request.prefer, Some(Prefer::Minimal));
    assert_eq!(
        request.body,
        Some(RemoteBody::ProjectUpdate {
            project_id: ID,
            update_type: "stage_started".to_string(),
            title: "Title".to_string(),
            message: "Message".to_string(),
            created_by: "team:otto-coder",
            is_visible_to_client: true,
            otto_project_id: Some(9),
        })
    );
}

#[test]
fn stage_patch_addresses_the_project() {
    let request = client().update_project_stage(ID, WebAssistStage::Development, 40, 1234);
    assert_eq!(request.method, HttpMethod::Patch);
    assert_eq!(request.url, format!("https://example.supabase.co/rest/v1/projects?id=eq.{ID_TEXT}"));
    assert_eq!(request.prefer, Some(Prefer::Minimal));
    assert_eq!(
        request.body,
        Some(RemoteBody::ProjectStage {
            current_stage: WebAssistStage::Development,
            stage_progress: 40,
            updated_at: Some("1970-01-01T00:00:01.234+00:00".to_string()),
        })
    );
}

#[test]
fn approval_registration_asks_for_the_record_back() {
    let request = client().create_approval_request(ID, 7, "final_preview", None, None);
    assert_eq!(request.prefer, Some(Prefer::Representation));
    assert_eq!(
        request.body,
        Some(RemoteBody::NewApproval {
            project_id: ID,
            stage_id: 7,
            approval_type: "final_preview".to_string(),
            status: ApprovalStatus::Pending,
            requested_by: "team:otto-coder",
            preview_url: None,
            attachments: Vec::new(),
        })
    );
}

#[test]
fn approval_patch_carries_the_response() {
    let request = client().update_approval(ID, ApprovalStatus::Approved, Some("fine"), 55);
    assert_eq!(request.method, HttpMethod::Patch);
    assert_eq!(request.url, format!("https://example.supabase.co/rest/v1/project_approvals?id=eq.{ID_TEXT}"));
    assert_eq!(
        request.body,
        Some(RemoteBody::ApprovalUpdate {
            status: ApprovalStatus::Approved,
            responded_at: Some("1970-01-01T00:00:00.055+00:00".to_string()),
            client_feedback: Some("fine".to_string()),
        })
    );
}

#[test]
fn stage_completion_is_followed_by_an_activity_entry() {
    let c = client();
    let request = c.complete_stage(ID, None, 77);
    assert_eq!(request.method, HttpMethod::Patch);
    assert_eq!(request.url, format!("https://example.supabase.co/rest/v1/project_stages?id=eq.{ID_TEXT}"));
    assert_eq!(request.body, Some(RemoteBody::StageCompletion {
            completed_at: Some("1970-01-01T00:00:00.077+00:00".to_string()),
            deliverables: None,
        }));

    let next = c
        .after_stage_completion(5, RemoteReply::Response { status: 204, body: String::new() })
        .unwrap();
    assert_eq!(
        next.body,
        Some(RemoteBody::ProjectUpdate {
            project_id: 5,
            update_type: "stage_completed".to_string(),
            title: "Stage Completed".to_string(),
            message: "Stage has been completed by AI agent".to_string(),
            created_by: "team:otto-coder",
            is_visible_to_client: true,
            otto_project_id: None,
        })
    );
    assert_eq!(
        c.after_stage_completion(5, RemoteReply::Response { status: 409, body: "no".to_string() }),
        Err(WebAssistError::RemoteCallFailed { status: Some(409), detail: "no".to_string() })
    );
}

#[test]
fn linked_project_records_are_built_as_the_backend_expects() {
    let c = client();
    let link = c.create_otto_coder_project(1, ID);
    assert_eq!(link.url, "https://example.supabase.co/rest/v1/otto_coder_projects");
    assert_eq!(
        link.body,
        Some(RemoteBody::ProjectLink {
            webassist_project_id: 1,
            otto_project_id: ID,
            current_stage: WebAssistStage::InitialReview,
            sync_status: SyncStatus::Active,
            overall_progress: 0,
        })
    );
    let progress = c.update_otto_coder_project(ID, "development", 44);
    assert_eq!(
        progress.url,
        format!("https://example.supabase.co/rest/v1/otto_coder_projects?otto_project_id=eq.{ID_TEXT}")
    );
    assert_eq!(
        progress.body,
        Some(RemoteBody::ProjectProgress {
            current_stage: "development".to_string(),
            overall_progress: 44,
            sync_status: SyncStatus::Active,
        })
    );
    let task = c.create_otto_coder_task(ID, "qa", 6, 3, RemoteTaskStatus::InProgress);
    assert_eq!(task.url, "https://example.supabase.co/rest/v1/otto_coder_tasks");
    assert_eq!(
        task.body,
        Some(RemoteBody::NewTask {
            otto_project_id: ID,
            stage_name: "qa".to_string(),
            stage_order: 6,
            task_id: 3,
            status: RemoteTaskStatus::InProgress,
            progress: 0,
        })
    );
}

#[test]
fn task_patch_sets_the_time_that_fits_the_status() {
    let c = client();
    let running = c.update_otto_coder_task(ID, 50, RemoteTaskStatus::InProgress, 9);
    assert_eq!(running.url, format!("https://example.supabase.co/rest/v1/otto_coder_tasks?task_id=eq.{ID_TEXT}"));
    assert_eq!(
        running.body,
        Some(RemoteBody::TaskProgress {
            status: RemoteTaskStatus::InProgress,
            progress: 50,
            started_at: Some("1970-01-01T00:00:00.009+00:00".to_string()),
            completed_at: None,
        })
    );
    let done = c.update_otto_coder_task(ID, 100, RemoteTaskStatus::Done, 9);
    assert_eq!(
        done.body,
        Some(RemoteBody::TaskProgress {
            status: RemoteTaskStatus::Done,
            progress: 100,
            started_at: None,
            completed_at: Some("1970-01-01T00:00:00.009+00:00".to_string()),
        })
    );
    let todo = c.update_otto_coder_task(ID, 0, RemoteTaskStatus::Todo, 9);
    assert_eq!(
        todo.body,
        Some(RemoteBody::TaskProgress {
            status: RemoteTaskStatus::Todo,
            progress: 0,
            started_at: None,
            completed_at: None,
        })
    );
    assert_eq!(RemoteTaskStatus::Todo.as_str(), "Todo");
    assert_eq!(RemoteTaskStatus::InProgress.as_str(), "InProgress");
    assert_eq!(RemoteTaskStatus::Done.as_str(), "Done");
}

#[test]
fn deliverable_is_registered_under_the_name_of_its_stage() {
    let executor = StageExecutor::new(client());
    let request = executor.register_deliverable(
        ID,
        WebAssistStage::QualityAssurance,
        "Report",
        "https://files.example/report.pdf",
        "file",
        Some("Test report"),
        None,
        Some(4096),
    );
    assert_eq!(request.method, HttpMethod::Post);
    assert_eq!(request.url, "https://example.supabase.co/rest/v1/otto_coder_deliverables");
    assert_eq!(
        request.body,
        Some(RemoteBody::NewDeliverable {
            otto_project_id: ID,
            stage_name: "quality_assurance".to_string(),
            name: "Report".to_string(),
            url: "https://files.example/report.pdf".to_string(),
            kind: "file".to_string(),
            description: Some("Test report".to_string()),
            mime_type: None,
            size_bytes: Some(4096),
        })
    );
}

#[test]
fn deliverables_become_attachments_in_order() {
    let deliverables = vec![
        Deliverable { id: 1, name: "a".to_string(), url: "u1".to_string(), kind: "file".to_string(), size: None, created_at: 5 },
        Deliverable { id: 2, name: "b".to_string(), url: "u2".to_string(), kind: "link".to_string(), size: Some(9), created_at: 6 },
    ];
    assert_eq!(
        attachments_of(&deliverables),
        vec![
            Attachment { id: 1, name: "a".to_string(), url: "u1".to_string(), kind: "file".to_string(), size: None },
            Attachment { id: 2, name: "b".to_string(), url: "u2".to_string(), kind: "link".to_string(), size: Some(9) },
        ]
    );
    assert!(attachments_of(&Vec::new()).is_empty());
}

#[test]
fn reply_is_a_success_only_in_the_2xx_class() {
    for status in [200u16, 201, 204, 299] {
        assert_eq!(
            check_reply(RemoteReply::Response { status, body: "ok".to_string() }),
            Ok("ok".to_string())
        );
        assert_eq!(check_write_reply(RemoteReply::Response { status, body: String::new() }), Ok(()));
    }
    for status in [0u16, 199, 300, 301, 400, 404, 500, u16::MAX] {
        assert_eq!(
            check_reply(RemoteReply::Response { status, body: "why".to_string() }),
            Err(WebAssistError::RemoteCallFailed { status: Some(status), detail: "why".to_string() })
        );
    }
    assert_eq!(
        check_write_reply(RemoteReply::Unreachable { reason: "refused".to_string() }),
        Err(WebAssistError::RemoteCallFailed { status: None, detail: "refused".to_string() })
    );
}

#[test]
fn first_record_of_a_reply_is_handed_out_by_member() {
    let reply = RemoteReply::Response {
        status: 200,
        body: r#"[{"name":"first","flag":true,"n":3,"none":null,"list":[1],"nested":{"a":1}},{"name":"second"}]"#.to_string(),
    };
    let mut record = first_record(reply).unwrap();
    record.sort_by(|a, b| a.0.cmp(&b.0));
    assert_eq!(
        record,
        vec![
            ("flag".to_string(), JsonField::Flag(true)),
            ("list".to_string(), JsonField::Array),
            ("n".to_string(), JsonField::Number),
            ("name".to_string(), JsonField::Text("first".to_string())),
            ("nested".to_string(), JsonField::Object),
            ("none".to_string(), JsonField::Null),
        ]
    );
    assert_eq!(
        first_record(RemoteReply::Response { status: 200, body: "[]".to_string() }),
        Err(WebAssistError::NotFound(Missing::RemoteRecord))
    );
    assert_eq!(
        first_record(RemoteReply::Response { status: 200, body: "[1]".to_string() }),
        Err(WebAssistError::ParseError(ParseFault::RemoteReply))
    );
    assert_eq!(
        first_record(RemoteReply::Response { status: 404, body: "[]".to_string() }),
        Err(WebAssistError::RemoteCallFailed { status: Some(404), detail: "[]".to_string() })
    );
}

#[test]
fn created_approval_is_known_by_the_identifier_in_the_reply() {
    let reply = RemoteReply::Response { status: 201, body: format!(r#"[{{"id":"{ID_TEXT}"}}]"#) };
    assert_eq!(created_approval_id(reply), Ok(ID));
    let reply = RemoteReply::Response { status: 201, body: r#"[{"id":"nope"}]"#.to_string() };
    assert_eq!(created_approval_id(reply), Err(WebAssistError::ParseError(ParseFault::RemoteReply)));
    let reply = RemoteReply::Response { status: 201, body: r#"[{"uid":"x"}]"#.to_string() };
    assert_eq!(created_approval_id(reply), Err(WebAssistError::ParseError(ParseFault::RemoteReply)));
}

#[test]
fn instants_are_written_in_rfc_3339() {
    let at = |millis: i64| match client().update_project_stage(ID, WebAssistStage::Delivered, 100, millis).body {
        Some(RemoteBody::ProjectStage { updated_at, .. }) => updated_at,
        other => panic!("unexpected body: {other:?}"),
    };
    assert_eq!(at(0).as_deref(), Some("1970-01-01T00:00:00+00:00"));
    assert_eq!(at(947_638_923_004).as_deref(), Some("2000-01-12T01:02:03.004+00:00"));
    assert_eq!(at(-1).as_deref(), Some("1969-12-31T23:59:59.999+00:00"));
    assert_eq!(at(1_735_689_600_000).as_deref(), Some("2025-01-01T00:00:00+00:00"));
    assert_eq!(at(i64::MAX), None);
    assert_eq!(at(i64::MIN), None);
}

#[test]
fn identifier_of_a_record_is_read_from_its_id_member() {
    let record = vec![
        ("name".to_string(), JsonField::Text("x".to_string())),
        ("id".to_string(), JsonField::Text(ID_TEXT.to_string())),
    ];
    assert_eq!(record_id(&record), Ok(ID));
    assert_eq!(
        record_id(&vec![("id".to_string(), JsonField::Number)]),
        Err(WebAssistError::ParseError(ParseFault::RemoteReply))
    );
    assert_eq!(record_id(&Vec::new()), Err(WebAssistError::ParseError(ParseFault::RemoteReply)));
}
