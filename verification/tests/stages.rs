use web_assist::models::{ApprovalStatus, StageActor, StageTaskMapping, SyncStatus, WebAssistStage};
use web_assist::stage_brief::{stage_brief, stage_description, stage_title, Requirements};
use web_assist::models::CreateWebAssistProjectRequest;

#[test]
fn next_stage_walks_through_every_stage_once() {
    let mut visited = vec![WebAssistStage::InitialReview];
    let mut current = WebAssistStage::InitialReview;
    while let Some(next) = current.next_stage() {
        assert!(!visited.contains(&next));
        visited.push(next);
        current = next;
    }
    assert_eq!(
        visited,
        vec![
            WebAssistStage::InitialReview,
            WebAssistStage::AiResearch,
            WebAssistStage::DesignMockup,
            WebAssistStage::ContentCollection,
            WebAssistStage::Development,
            WebAssistStage::QualityAssurance,
            WebAssistStage::ClientPreview,
            WebAssistStage::Deployment,
            WebAssistStage::Delivered,
        ]
    );
    assert_eq!(current, WebAssistStage::Delivered);
    assert_eq!(WebAssistStage::Delivered.next_stage(), None);
    assert_eq!(visited, WebAssistStage::all_stages());
}

#[test]
fn stage_positions_follow_the_order() {
    let stages = WebAssistStage::all_stages();
    assert_eq!(stages.len(), 9);
    for (i, stage) in stages.iter().enumerate() {
        assert_eq!(stage.index(), i);
        assert_eq!(WebAssistStage::from_index(i), Some(*stage));
        assert_eq!(stage.ordinal_text(), (i + 1).to_string());
    }
    assert_eq!(WebAssistStage::from_index(9), None);
    assert_eq!(WebAssistStage::from_index(usize::MAX), None);
}

#[test]
fn stage_metadata_is_as_tabled() {
    let table = [
        (WebAssistStage::InitialReview, false, false, 2, "initial_review", "Initial Review & Research Setup", None),
        (WebAssistStage::AiResearch, true, false, 2, "ai_research", "AI Research & Analysis", None),
        (WebAssistStage::DesignMockup, true, true, 8, "design_mockup", "Design Mockup Creation", Some("design_mockup")),
        (WebAssistStage::ContentCollection, true, true, 6, "content_collection", "Content Collection & SEO", Some("content_review")),
        (WebAssistStage::Development, true, false, 16, "development", "Full-Stack Development", None),
        (WebAssistStage::QualityAssurance, false, false, 4, "quality_assurance", "Quality Assurance & Testing", None),
        (WebAssistStage::ClientPreview, false, true, 6, "client_preview", "Client Preview & Final Review", Some("final_preview")),
        (WebAssistStage::Deployment, true, false, 4, "deployment", "Production Deployment", None),
        (WebAssistStage::Delivered, false, false, 0, "delivered", "Project Delivered", None),
    ];
    for (stage, ai, gated, hours, name, display, approval) in table {
        assert_eq!(stage.is_ai_stage(), ai);
        assert_eq!(stage.actor(), if ai { StageActor::Ai } else { StageActor::Human });
        assert_eq!(stage.requires_approval(), gated);
        assert_eq!(stage.duration_hours(), hours);
        assert_eq!(stage.as_str(), name);
        assert_eq!(stage.to_string(), name);
        assert_eq!(stage.display_name(), display);
        assert_eq!(stage.approval_type(), approval);
    }
}

#[test]
fn status_names_are_as_stored() {
    assert_eq!(SyncStatus::Active.as_str(), "active");
    assert_eq!(SyncStatus::Paused.as_str(), "paused");
    assert_eq!(SyncStatus::Error.as_str(), "error");
    assert_eq!(SyncStatus::Completed.as_str(), "completed");
    for status in [
        ApprovalStatus::Pending,
        ApprovalStatus::Approved,
        ApprovalStatus::Rejected,
        ApprovalStatus::ChangesRequested,
    ] {
        assert_eq!(ApprovalStatus::from_name(status.as_str()), Some(status));
    }
    assert_eq!(ApprovalStatus::ChangesRequested.as_str(), "changes_requested");
    assert_eq!(ApprovalStatus::from_name("Approved"), None);
    assert_eq!(ApprovalStatus::from_name(""), None);
}

#[test]
fn mapping_gives_each_stage_its_task() {
    let mapping = StageTaskMapping::new([10, 20, 30, 40, 50, 60, 70, 80, 90]);
    for (i, stage) in WebAssistStage::all_stages().iter().enumerate() {
        let task = ((i + 1) * 10) as u128;
        assert_eq!(mapping.task_for(*stage), task);
        assert_eq!(mapping.stage_of(task), Some(*stage));
    }
    assert_eq!(mapping.stage_of(15), None);
    let repeated = StageTaskMapping::new([7, 7, 3, 4, 5, 6, 7, 8, 9]);
    assert_eq!(repeated.stage_of(7), Some(WebAssistStage::InitialReview));
}

#[test]
fn task_title_names_place_and_stage() {
    assert_eq!(stage_title(WebAssistStage::InitialReview), "Stage 1: Initial Review & Research Setup");
    assert_eq!(stage_title(WebAssistStage::Development), "Stage 5: Full-Stack Development");
    assert_eq!(stage_title(WebAssistStage::Delivered), "Stage 9: Project Delivered");
}

#[test]
fn task_description_opens_with_the_project_context() {
    let request = CreateWebAssistProjectRequest {
        project_id: 1,
        project_number: "WA-2025-001".to_string(),
        company_name: "Acme".to_string(),
        wizard_completion_id: 2,
        is_rush_delivery: true,
    };
    let requirements = Requirements {
        industry: Some("bakery".to_string()),
        target_audience: Some("locals".to_string()),
        requirements: Some("A shop.".to_string()),
    };
    let text = stage_description(WebAssistStage::Delivered, &request, &requirements);
    assert_eq!(
        text,
        "**Project:** WA-2025-001\n\n**Company:** Acme\n**Industry:** bakery\n**Target Audience:** locals\n**Rush Delivery:** Yes (24h)\n\n**Requirements:**\nA shop.\n\n\n\n# Project Delivered\n\nProject is complete! The website is live and delivered to the client.\n\n30-day support period begins now.\n"
    );
}

#[test]
fn task_description_falls_back_where_requirements_are_silent() {
    let request = CreateWebAssistProjectRequest {
        project_id: 1,
        project_number: "N".to_string(),
        company_name: "C".to_string(),
        wizard_completion_id: 2,
        is_rush_delivery: false,
    };
    let requirements = Requirements { industry: None, target_audience: None, requirements: None };
    let text = stage_description(WebAssistStage::Deployment, &request, &requirements);
    let context = "**Project:** N\n\n**Company:** C\n**Industry:** general business\n**Target Audience:** general audience\n**Rush Delivery:** No (48h)\n\n**Requirements:**\nSee wizard completion for details\n\n";
    assert_eq!(text, format!("{}\n\n{}", context, stage_brief(WebAssistStage::Deployment)));
    assert!(stage_brief(WebAssistStage::Deployment).starts_with("# Production Deployment\n\nDeploy the website to production.\n\n## Objectives:\n- Deploy"));
    assert!(stage_brief(WebAssistStage::DesignMockup).ends_with("**NOTE:** This stage requires CLIENT APPROVAL before proceeding.\n"));
}

#[test]
fn every_stage_has_its_own_brief() {
    let stages = WebAssistStage::all_stages();
    for (i, a) in stages.iter().enumerate() {
        assert!(stage_brief(*a).starts_with("# "));
        for b in &stages[i + 1..] {
            assert_ne!(stage_brief(*a), stage_brief(*b));
        }
    }
}
