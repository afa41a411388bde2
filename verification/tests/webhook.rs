use hmac::{Hmac, Mac};
use sha2::Sha256;

use web_assist::error::{Missing, ParseFault, WebAssistError};
use web_assist::approval_sync::ApprovalSync;
use web_assist::models::{
    ApprovalStatus, StageTaskMapping, SyncStatus, WebAssistProject, WebAssistStage,
};
use web_assist::project_manager::ProjectManager;
use web_assist::store::LocalStore;
use web_assist::supabase_client::{HttpMethod, SupabaseClient, SupabaseConfig};
use web_assist::json::JsonField;
use web_assist::models::WebhookEvent;
use web_assist::webhook::{
    signature_matches, verify_webhook_signature, WebhookHandler, WebhookOutcome,
};

type HmacSha256 = Hmac<Sha256>;

fn sign(secret: &str, payload: &[u8]) -> String {
    let mut mac = HmacSha256::new_from_slice(secret.as_bytes()).unwrap();
    mac.update(payload);
    hex::encode(mac.finalize().into_bytes())
}

fn client() -> SupabaseClient {
    SupabaseClient::new(SupabaseConfig {
        url: "https://example.supabase.co".to_string(),
        anon_key: "test-anon-key".to_string(),
        service_role_key: Some("test-service-key".to_string()),
    })
    .unwrap()
}

fn handler(secret: &str) -> WebhookHandler {
    WebhookHandler::new(
        ProjectManager::new(client(), "/srv/projects".to_string()),
        secret.to_string(),
    )
}

const PROJECT: &str = "550e8400-e29b-41d4-a716-446655440000";
const WIZARD: &str = "123e4567-e89b-12d3-a456-426614174000";

#[test]
fn test_verify_webhook_signature() {
    let secret = "test-secret";
    let payload = b"test payload";

    let mut mac = HmacSha256::new_from_slice(secret.as_bytes()).unwrap();
    mac.update(payload);
    let signature = hex::encode(mac.finalize().into_bytes());

    assert!(verify_webhook_signature(payload, &signature, secret).unwrap());
}

#[test]
fn test_verify_webhook_signature_invalid() {
    let secret = "test-secret";
    let payload = b"test payload";
    let wrong_signature = "invalid";

    assert!(!verify_webhook_signature(payload, wrong_signature, secret).unwrap());
}

#[test]
fn signature_matches_a_known_tag() {
    // RFC 4231, test case 2.
    let signature = "5bdcc146bf60754e6a042426089575c75a003f089d2739839dec58b964ec3843";
    assert!(verify_webhook_signature(b"what do ya want for nothing?", signature, "Jefe").unwrap());
}

#[test]
fn signature_in_upper_case_is_refused() {
    let signature = "5BDCC146BF60754E6A042426089575C75A003F089D2739839DEC58B964EC3843";
    assert!(!verify_webhook_signature(b"what do ya want for nothing?", signature, "Jefe").unwrap());
}

#[test]
fn signature_under_another_secret_is_refused() {
    let payload = b"test payload";
    let signature = sign("other-secret", payload);
    assert!(!verify_webhook_signature(payload, &signature, "test-secret").unwrap());
}

#[test]
fn signature_of_a_tampered_payload_is_refused() {
    let signature = sign("test-secret", b"test payload");
    assert!(!verify_webhook_signature(b"test payloae", &signature, "test-secret").unwrap());
}

#[test]
fn signature_differing_in_the_last_digit_is_refused() {
    let payload = b"test payload";
    let mut signature = sign("test-secret", payload);
    let last = signature.pop().unwrap();
    signature.push(if last == '0' { '1' } else { '0' });
    assert!(!verify_webhook_signature(payload, &signature, "test-secret").unwrap());
}

#[test]
fn mismatched_signature_is_an_authentication_failure() {
    let mut store = LocalStore::new();
    let body = format!(r#"{{"event":"project.stage_changed","project_id":"{PROJECT}","stage_name":"development"}}"#);
    let outcome = handler("secret").handle_webhook(&mut store, body.as_bytes(), Some("invalid"), 1);
    assert_eq!(outcome, Err(WebAssistError::AuthenticationFailed));
}

#[test]
fn mismatched_signature_is_refused_before_the_body_is_read() {
    let mut store = LocalStore::new();
    let outcome = handler("secret").handle_webhook(&mut store, b"not json", Some("invalid"), 1);
    assert_eq!(outcome, Err(WebAssistError::AuthenticationFailed));
}

#[test]
fn missing_signature_is_tolerated() {
    let mut store = LocalStore::new();
    let body = format!(r#"{{"event":"project.stage_changed","project_id":"{PROJECT}","stage_name":"development"}}"#);
    let outcome = handler("secret").handle_webhook(&mut store, body.as_bytes(), None, 1);
    assert_eq!(
        outcome,
        Ok(WebhookOutcome::StageChangeNoted {
            project_id: 0x550e8400_e29b_41d4_a716_446655440000,
            stage_name: "development".to_string(),
        })
    );
}

#[test]
fn unknown_event_is_ignored() {
    let mut store = LocalStore::new();
    let body = br#"{"event":"invoice.paid","amount":12}"#;
    let signature = sign("secret", body);
    let outcome = handler("secret").handle_webhook(&mut store, body, Some(&signature), 1);
    assert_eq!(outcome, Ok(WebhookOutcome::Ignored { event: "invoice.paid".to_string() }));
    assert!(store.projects().is_empty());
}

#[test]
fn malformed_body_is_a_parse_error() {
    let mut store = LocalStore::new();
    let h = handler("secret");
    assert_eq!(
        h.handle_webhook(&mut store, b"not json", None, 1),
        Err(WebAssistError::ParseError(ParseFault::Envelope))
    );
    assert_eq!(
        h.handle_webhook(&mut store, b"[1, 2]", None, 1),
        Err(WebAssistError::ParseError(ParseFault::Envelope))
    );
    assert_eq!(
        h.handle_webhook(&mut store, br#"{"event":"project.created"} trailing"#, None, 1),
        Err(WebAssistError::ParseError(ParseFault::Envelope))
    );
}

#[test]
fn envelope_without_event_name_is_a_parse_error() {
    let mut store = LocalStore::new();
    let h = handler("secret");
    assert_eq!(
        h.handle_webhook(&mut store, br#"{"project_id":"x"}"#, None, 1),
        Err(WebAssistError::ParseError(ParseFault::EventName))
    );
    assert_eq!(
        h.handle_webhook(&mut store, br#"{"event":7}"#, None, 1),
        Err(WebAssistError::ParseError(ParseFault::EventName))
    );
}

#[test]
fn project_created_event_begins_a_creation() {
    let mut store = LocalStore::new();
    let body = format!(
        r#"{{"event":"project.created","project_id":"{PROJECT}","project_number":"WA-2025-001","company_name":"Acme","wizard_completion_id":"{WIZARD}","is_rush_delivery":true}}"#
    );
    let signature = sign("secret", body.as_bytes());
    let outcome = handler("secret")
        .handle_webhook(&mut store, body.as_bytes(), Some(&signature), 1)
        .unwrap();
    match outcome {
        WebhookOutcome::ProjectCreation { request, fetch } => {
            assert_eq!(request.project_id, 0x550e8400_e29b_41d4_a716_446655440000);
            assert_eq!(request.project_number, "WA-2025-001");
            assert_eq!(request.company_name, "Acme");
            assert_eq!(request.wizard_completion_id, 0x123e4567_e89b_12d3_a456_426614174000);
            assert!(request.is_rush_delivery);
            assert_eq!(fetch.method, HttpMethod::Get);
            assert_eq!(
                fetch.url,
                format!("https://example.supabase.co/rest/v1/wizard_completions?id=eq.{WIZARD}")
            );
            assert_eq!(fetch.body, None);
            assert_eq!(fetch.prefer, None);
        }
        other => panic!("unexpected outcome: {other:?}"),
    }
    assert!(store.projects().is_empty());
    assert!(store.tasks().is_empty());
}

#[test]
fn project_created_event_names_the_missing_member() {
    let mut store = LocalStore::new();
    let h = handler("secret");
    let cases: Vec<(String, ParseFault)> = vec![
        (
            format!(r#"{{"event":"project.created","project_number":"N","company_name":"C","wizard_completion_id":"{WIZARD}","is_rush_delivery":false}}"#),
            ParseFault::ProjectId,
        ),
        (
            format!(r#"{{"event":"project.created","project_id":"not-a-uuid","project_number":"N","company_name":"C","wizard_completion_id":"{WIZARD}","is_rush_delivery":false}}"#),
            ParseFault::ProjectId,
        ),
        (
            format!(r#"{{"event":"project.created","project_id":"{PROJECT}","company_name":"C","wizard_completion_id":"{WIZARD}","is_rush_delivery":false}}"#),
            ParseFault::ProjectNumber,
        ),
        (
            format!(r#"{{"event":"project.created","project_id":"{PROJECT}","project_number":"N","company_name":null,"wizard_completion_id":"{WIZARD}","is_rush_delivery":false}}"#),
            ParseFault::CompanyName,
        ),
        (
            format!(r#"{{"event":"project.created","project_id":"{PROJECT}","project_number":"N","company_name":"C","wizard_completion_id":17,"is_rush_delivery":false}}"#),
            ParseFault::WizardCompletionId,
        ),
        (
            format!(r#"{{"event":"project.created","project_id":"{PROJECT}","project_number":"N","company_name":"C","wizard_completion_id":"{WIZARD}","is_rush_delivery":"yes"}}"#),
            ParseFault::IsRushDelivery,
        ),
    ];
    for (body, fault) in cases {
        assert_eq!(
            h.handle_webhook(&mut store, body.as_bytes(), None, 1),
            Err(WebAssistError::ParseError(fault))
        );
    }
}

#[test]
fn identifier_is_read_in_every_form_that_the_parser_takes() {
    let mut store = LocalStore::new();
    let h = handler("secret");
    for form in [
        "550e8400-e29b-41d4-a716-446655440000",
        "550e8400e29b41d4a716446655440000",
        "550E8400-E29B-41D4-A716-446655440000",
        "{550e8400-e29b-41d4-a716-446655440000}",
        "urn:uuid:550e8400-e29b-41d4-a716-446655440000",
    ] {
        let body = format!(r#"{{"event":"project.stage_changed","project_id":"{form}","stage_name":"qa"}}"#);
        assert_eq!(
            h.handle_webhook(&mut store, body.as_bytes(), None, 1),
            Ok(WebhookOutcome::StageChangeNoted {
                project_id: 0x550e8400_e29b_41d4_a716_446655440000,
                stage_name: "qa".to_string(),
            })
        );
    }
}

#[test]
fn stage_changed_event_needs_project_and_stage() {
    let mut store = LocalStore::new();
    let h = handler("secret");
    assert_eq!(
        h.handle_webhook(&mut store, br#"{"event":"project.stage_changed","stage_name":"qa"}"#, None, 1),
        Err(WebAssistError::ParseError(ParseFault::ProjectId))
    );
    let body = format!(r#"{{"event":"project.stage_changed","project_id":"{PROJECT}"}}"#);
    assert_eq!(
        h.handle_webhook(&mut store, body.as_bytes(), None, 1),
        Err(WebAssistError::ParseError(ParseFault::StageName))
    );
}

#[test]
fn approval_updated_event_needs_its_members() {
    let mut store = LocalStore::new();
    let h = handler("secret");
    let body = format!(r#"{{"event":"approval.updated","project_id":"{PROJECT}","status":"approved"}}"#);
    assert_eq!(
        h.handle_webhook(&mut store, body.as_bytes(), None, 1),
        Err(WebAssistError::ParseError(ParseFault::ApprovalId))
    );
    let body = format!(r#"{{"event":"approval.updated","approval_id":"{WIZARD}","status":"approved"}}"#);
    assert_eq!(
        h.handle_webhook(&mut store, body.as_bytes(), None, 1),
        Err(WebAssistError::ParseError(ParseFault::ProjectId))
    );
    let body = format!(r#"{{"event":"approval.updated","approval_id":"{WIZARD}","project_id":"{PROJECT}"}}"#);
    assert_eq!(
        h.handle_webhook(&mut store, body.as_bytes(), None, 1),
        Err(WebAssistError::ParseError(ParseFault::Status))
    );
    let body = format!(r#"{{"event":"approval.updated","approval_id":"{WIZARD}","project_id":"{PROJECT}","status":"maybe"}}"#);
    assert_eq!(
        h.handle_webhook(&mut store, body.as_bytes(), None, 1),
        Err(WebAssistError::ParseError(ParseFault::Status))
    );
}

#[test]
fn approval_updated_event_for_an_unknown_project_is_not_found() {
    let mut store = LocalStore::new();
    let body = format!(r#"{{"event":"approval.updated","approval_id":"{WIZARD}","project_id":"{PROJECT}","status":"approved"}}"#);
    assert_eq!(
        handler("secret").handle_webhook(&mut store, body.as_bytes(), None, 1),
        Err(WebAssistError::NotFound(Missing::Project))
    );
}

#[test]
fn approval_updated_event_moves_the_project_on() {
    let mut store = LocalStore::new();
    let remote: u128 = 0x550e8400_e29b_41d4_a716_446655440000;
    let mapping = StageTaskMapping::new([1, 2, 3, 4, 5, 6, 7, 8, 9]);
    let project = WebAssistProject::create_with_id(&mut store, 70, remote, 71, mapping, 10).unwrap();
    assert!(WebAssistProject::update_stage(&mut store, project.id, WebAssistStage::DesignMockup, 11));
    let sync = ApprovalSync::new(client());
    let approval: u128 = 0x123e4567_e89b_12d3_a456_426614174000;
    sync.create_approval_request_with(
        &mut store,
        remote,
        WebAssistStage::DesignMockup,
        None,
        Vec::new(),
        approval,
        900,
        12,
    )
    .unwrap();

    let body = format!(
        r#"{{"event":"approval.updated","approval_id":"{WIZARD}","project_id":"{PROJECT}","status":"approved","client_feedback":"Looks good"}}"#
    );
    let signature = sign("secret", body.as_bytes());
    let h = handler("secret");
    let outcome = h.handle_webhook(&mut store, body.as_bytes(), Some(&signature), 20);
    assert_eq!(outcome, Ok(WebhookOutcome::ApprovalHandled { calls: Vec::new() }));

    let row = WebAssistProject::find_by_webassist_id(&store, remote).unwrap();
    assert_eq!(row.current_stage, WebAssistStage::ContentCollection);
    assert_eq!(row.sync_status, SyncStatus::Active);
    let recorded = store.approval_by_id(approval).unwrap();
    assert_eq!(recorded.status, ApprovalStatus::Approved);
    assert_eq!(recorded.responded_at, Some(20));
    assert_eq!(recorded.client_feedback.as_deref(), Some("Looks good"));

    // The same event delivered again is refused and moves nothing.
    let again = h.handle_webhook(&mut store, body.as_bytes(), Some(&signature), 30);
    assert_eq!(again, Err(WebAssistError::Conflict));
    let row = WebAssistProject::find_by_webassist_id(&store, remote).unwrap();
    assert_eq!(row.current_stage, WebAssistStage::ContentCollection);
    assert_eq!(store.approval_by_id(approval).unwrap().responded_at, Some(20));
}

#[test]
fn signature_is_compared_with_the_hexadecimal_text_of_the_tag() {
    assert!(signature_matches("00ff10ab", &[0x00, 0xff, 0x10, 0xab]));
    assert!(!signature_matches("00FF10AB", &[0x00, 0xff, 0x10, 0xab]));
    assert!(!signature_matches("00ff10a", &[0x00, 0xff, 0x10, 0xab]));
    assert!(!signature_matches("00ff10abcd", &[0x00, 0xff, 0x10, 0xab]));
    assert!(!signature_matches("00ff10ac", &[0x00, 0xff, 0x10, 0xab]));
    assert!(signature_matches("", &[]));
    assert!(!signature_matches("\u{0}\u{ff}", &[0x00, 0xff]));
}

#[test]
fn read_event_is_routed_by_its_name() {
    let mut store = LocalStore::new();
    let h = handler("secret");
    let event = |name: &str, data: Vec<(String, JsonField)>| WebhookEvent { event: name.to_string(), data };
    let text = |s: &str| JsonField::Text(s.to_string());

    let known = h.dispatch(
        &mut store,
        event(
            "project.stage_changed",
            vec![("project_id".to_string(), text(PROJECT)), ("stage_name".to_string(), text("qa"))],
        ),
        1,
    );
    assert_eq!(
        known,
        Ok(WebhookOutcome::StageChangeNoted {
            project_id: 0x550e8400_e29b_41d4_a716_446655440000,
            stage_name: "qa".to_string(),
        })
    );
    let unknown = h.dispatch(&mut store, event("project.archived", Vec::new()), 1);
    assert_eq!(unknown, Ok(WebhookOutcome::Ignored { event: "project.archived".to_string() }));
    let wrong_kind = h.dispatch(
        &mut store,
        event(
            "project.stage_changed",
            vec![("project_id".to_string(), JsonField::Number), ("stage_name".to_string(), text("qa"))],
        ),
        1,
    );
    assert_eq!(wrong_kind, Err(WebAssistError::ParseError(ParseFault::ProjectId)));
    let first_member_wins = h.dispatch(
        &mut store,
        event(
            "project.stage_changed",
            vec![
                ("stage_name".to_string(), text("first")),
                ("project_id".to_string(), text(PROJECT)),
                ("stage_name".to_string(), text("second")),
            ],
        ),
        1,
    );
    assert_eq!(
        first_member_wins,
        Ok(WebhookOutcome::StageChangeNoted {
            project_id: 0x550e8400_e29b_41d4_a716_446655440000,
            stage_name: "first".to_string(),
        })
    );
}
