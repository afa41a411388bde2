use web_assist::models::{StageTaskMapping, WebAssistProject, WebAssistStage};
use web_assist::store::LocalStore;
use web_assist::supabase_client::{RemoteBody, RemoteTaskStatus, SupabaseClient, SupabaseConfig};
use web_assist::task::{CreateTask, Task, TaskStatus};
use web_assist::task_sync::{
    aggregate_progress, remote_progress, ExecutionContext, ExecutionProcessStatus, SyncOutcome,
    TaskSyncService,
};

fn service() -> TaskSyncService {
    TaskSyncService::new(
        SupabaseClient::new(SupabaseConfig {
            url: "https://example.supabase.co".to_string(),
            anon_key: "test-anon-key".to_string(),
            service_role_key: None,
        })
        .unwrap(),
    )
}

fn store_with_done(done: usize) -> LocalStore {
    let mut store = LocalStore::new();
    let ids: [u128; 9] = [11, 12, 13, 14, 15, 16, 17, 18, 19];
    for (i, id) in ids.iter().enumerate() {
        let data = CreateTask {
            project_id: 2,
            title: format!("task {i}"),
            description: None,
            parent_task_attempt: None,
            image_ids: None,
        };
        Task::create(&mut store, &data, *id, 1).unwrap();
        if i < done {
            assert!(Task::update_status(&mut store, *id, TaskStatus::Done, 2));
        }
    }
    WebAssistProject::create_with_id(&mut store, 1, 100, 2, StageTaskMapping::new(ids), 3).unwrap();
    store
}

#[test]
fn aggregate_progress_is_the_share_of_done_tasks_rounded_down() {
    assert_eq!(aggregate_progress(3), 33);
    let expected = [0, 11, 22, 33, 44, 55, 66, 77, 88, 100];
    for (k, percent) in expected.iter().enumerate() {
        assert_eq!(aggregate_progress(k), *percent);
    }
}

#[test]
fn execution_status_maps_to_remote_status_and_progress() {
    assert_eq!(remote_progress(ExecutionProcessStatus::Running), (RemoteTaskStatus::InProgress, 50));
    assert_eq!(remote_progress(ExecutionProcessStatus::Completed), (RemoteTaskStatus::Done, 100));
    assert_eq!(remote_progress(ExecutionProcessStatus::Failed), (RemoteTaskStatus::InProgress, 0));
    assert_eq!(remote_progress(ExecutionProcessStatus::Killed), (RemoteTaskStatus::InProgress, 0));
}

#[test]
fn done_tasks_are_counted_over_the_mapping() {
    for done in 0..=9 {
        let store = store_with_done(done);
        let project = WebAssistProject::find_by_otto_id(&store, 2).unwrap();
        assert_eq!(TaskSyncService::count_completed_tasks(&store, &project.stage_task_mapping), done);
    }
    let mut store = LocalStore::new();
    let mapping = StageTaskMapping::new([1, 2, 3, 4, 5, 6, 7, 8, 9]);
    assert_eq!(TaskSyncService::count_completed_tasks(&store, &mapping), 0);
    let data = CreateTask { project_id: 2, title: "t".to_string(), description: None, parent_task_attempt: None, image_ids: None };
    Task::create(&mut store, &data, 5, 1).unwrap();
    Task::update_status(&mut store, 5, TaskStatus::InReview, 2);
    assert_eq!(TaskSyncService::count_completed_tasks(&store, &mapping), 0);
}

#[test]
fn completed_execution_pushes_task_and_project_progress() {
    let store = store_with_done(3);
    let ctx = ExecutionContext { task_id: 14, project_id: 2, status: ExecutionProcessStatus::Completed };
    match service().on_execution_completed(&store, &ctx, 500) {
        SyncOutcome::Synced { stage, status, progress, overall_progress, task_update, project_update } => {
            assert_eq!(stage, WebAssistStage::ContentCollection);
            assert_eq!(status, RemoteTaskStatus::Done);
            assert_eq!(progress, 100);
            assert_eq!(overall_progress, 33);
            assert_eq!(
                task_update.url,
                "https://example.supabase.co/rest/v1/otto_coder_tasks?task_id=eq.00000000-0000-0000-0000-00000000000e"
            );
            assert_eq!(
                task_update.body,
                Some(RemoteBody::TaskProgress {
                    status: RemoteTaskStatus::Done,
                    progress: 100,
                    started_at: None,
                    completed_at: Some("1970-01-01T00:00:00.500+00:00".to_string()),
                })
            );
            assert_eq!(
                project_update.url,
                "https://example.supabase.co/rest/v1/otto_coder_projects?otto_project_id=eq.00000000-0000-0000-0000-000000000002"
            );
            match project_update.body {
                Some(RemoteBody::ProjectProgress { current_stage, overall_progress, .. }) => {
                    assert_eq!(current_stage, "initial_review");
                    assert_eq!(overall_progress, 33);
                }
                other => panic!("unexpected body: {other:?}"),
            }
        }
        other => panic!("unexpected outcome: {other:?}"),
    }
}

#[test]
fn failed_execution_is_told_as_in_progress_at_zero() {
    let store = store_with_done(0);
    for status in [ExecutionProcessStatus::Failed, ExecutionProcessStatus::Killed] {
        let ctx = ExecutionContext { task_id: 11, project_id: 2, status };
        match service().on_execution_completed(&store, &ctx, 500) {
            SyncOutcome::Synced { stage, status, progress, overall_progress, .. } => {
                assert_eq!(stage, WebAssistStage::InitialReview);
                assert_eq!(status, RemoteTaskStatus::InProgress);
                assert_eq!(progress, 0);
                assert_eq!(overall_progress, 0);
            }
            other => panic!("unexpected outcome: {other:?}"),
        }
    }
}

#[test]
fn execution_of_an_unrelated_project_is_left_alone() {
    let store = store_with_done(0);
    let ctx = ExecutionContext { task_id: 11, project_id: 999, status: ExecutionProcessStatus::Completed };
    assert_eq!(service().on_execution_completed(&store, &ctx, 500), SyncOutcome::NotTracked);
}

#[test]
fn execution_of_a_task_outside_the_mapping_is_left_alone() {
    let store = store_with_done(0);
    let ctx = ExecutionContext { task_id: 4242, project_id: 2, status: ExecutionProcessStatus::Running };
    assert_eq!(service().on_execution_completed(&store, &ctx, 500), SyncOutcome::UnmappedTask);
}
