use submission_gateway::lookup::{
    do_get_full_snapshot, do_get_snapshot, get_aliases, get_cluster_info, get_collection,
    get_collection_aliases, get_collections, get_full_snapshot, get_snapshot, Download,
    DownloadRequest, Lookup,
};
use submission_gateway::gateway::{Effect, Event, Submission};
use submission_gateway::operation::{
    create_full_snapshot, delete_collection_snapshot, delete_full_snapshot, list_full_snapshots,
    recover_from_snapshot, update_aliases, update_collection, update_collection_cluster, Lane,
    Operation, Request,
};
use submission_gateway::outcome::ExecutionResult;
use submission_gateway::policy::{SnapshotPriority, SnapshottingParam, WaitPolicy, WaitTimeout};
use submission_gateway::snapshot::SnapshotLocation;
use std::time::Duration;

#[test]
fn lookups_name_what_they_read() {
    assert_eq!(get_collections(), Lookup::Collections);
    assert_eq!(get_aliases(), Lookup::Aliases);
    assert_eq!(get_collection("foo".to_string()), Lookup::Collection { name: "foo".to_string() });
    assert_eq!(
        get_collection_aliases("foo".to_string()),
        Lookup::CollectionAliases { name: "foo".to_string() }
    );
    assert_eq!(
        get_cluster_info("foo".to_string()),
        Lookup::ClusterInfo { name: "foo".to_string() }
    );
}

#[test]
fn lookups_always_wait() {
    for lookup in [get_collections(), get_aliases(), get_collection("foo".to_string())] {
        assert_eq!(lookup.policy(), WaitPolicy { blocking: true, timeout: None });
    }
}

#[test]
fn download_waits_as_told() {
    assert_eq!(
        do_get_snapshot("foo", "a.snapshot", true),
        DownloadRequest {
            download: Download::Snapshot {
                collection: "foo".to_string(),
                snapshot: "a.snapshot".to_string(),
            },
            policy: WaitPolicy { blocking: true, timeout: None },
        }
    );
    assert_eq!(
        do_get_full_snapshot("full.snapshot", false),
        DownloadRequest {
            download: Download::FullSnapshot { snapshot: "full.snapshot".to_string() },
            policy: WaitPolicy { blocking: false, timeout: None },
        }
    );
}

#[test]
fn download_waits_by_default() {
    let absent = SnapshottingParam { wait: None };
    let no = SnapshottingParam { wait: Some(false) };
    assert_eq!(get_snapshot("foo", "a", &absent), do_get_snapshot("foo", "a", true));
    assert_eq!(get_snapshot("foo", "a", &no), do_get_snapshot("foo", "a", false));
    assert_eq!(get_full_snapshot("a", &absent), do_get_full_snapshot("a", true));
    assert_eq!(get_full_snapshot("a", &no), do_get_full_snapshot("a", false));
}

#[test]
fn download_that_is_not_waited_for_is_acknowledged() {
    let request = do_get_snapshot("foo", "a.snapshot", false);
    let mut submission = Submission::new(request.policy);
    assert_eq!(
        submission.step::<String>(Event::Arrived),
        Effect::LaunchAndRespond(ExecutionResult::Accepted)
    );
    let request = do_get_snapshot("foo", "a.snapshot", true);
    let mut submission = Submission::new(request.policy);
    assert_eq!(submission.step::<String>(Event::Arrived), Effect::LaunchAndWait { timer: None });
    assert_eq!(
        submission.step(Event::Finished(Ok("/var/snapshots/foo/a.snapshot".to_string()))),
        Effect::Respond(ExecutionResult::Success("/var/snapshots/foo/a.snapshot".to_string()))
    );
}

#[test]
fn requests_hold_operation_and_policy() {
    let bounded = WaitTimeout { timeout: Some(30) };
    let policy = WaitPolicy { blocking: true, timeout: Some(Duration::from_secs(30)) };
    assert_eq!(
        update_collection("foo".to_string(), vec![1, 2], &bounded),
        Request {
            operation: Operation::UpdateCollection { name: "foo".to_string(), payload: vec![1, 2] },
            policy,
        }
    );
    assert_eq!(
        update_aliases(vec![7], &bounded),
        Request { operation: Operation::ChangeAliases { payload: vec![7] }, policy }
    );
    assert_eq!(
        update_collection_cluster("foo".to_string(), vec![], &bounded),
        Request {
            operation: Operation::ClusterReconfigure {
                collection: "foo".to_string(),
                payload: vec![],
            },
            policy,
        }
    );
    let params = SnapshottingParam { wait: Some(false) };
    let policy = WaitPolicy { blocking: false, timeout: None };
    assert_eq!(
        list_full_snapshots(&params),
        Request { operation: Operation::ListFullSnapshots, policy }
    );
    assert_eq!(
        create_full_snapshot(&params),
        Request { operation: Operation::CreateFullSnapshot, policy }
    );
    assert_eq!(
        delete_full_snapshot("a".to_string(), &params),
        Request { operation: Operation::DeleteFullSnapshot { snapshot: "a".to_string() }, policy }
    );
    assert_eq!(
        delete_collection_snapshot("foo".to_string(), "a".to_string(), &params),
        Request {
            operation: Operation::DeleteSnapshot {
                collection: "foo".to_string(),
                snapshot: "a".to_string(),
            },
            policy,
        }
    );
    let location = SnapshotLocation { url: "http://example.com/a.snapshot".to_string() };
    assert_eq!(
        recover_from_snapshot(
            "foo".to_string(),
            location.clone(),
            Some(SnapshotPriority::Replica),
            &params
        ),
        Request {
            operation: Operation::RecoverSnapshot {
                collection: "foo".to_string(),
                location,
                priority: Some(SnapshotPriority::Replica),
            },
            policy,
        }
    );
}

#[test]
fn operations_take_their_lane() {
    let bounded = WaitTimeout { timeout: None };
    let params = SnapshottingParam { wait: None };
    assert_eq!(update_aliases(vec![], &bounded).operation.lane(), Lane::CollectionMeta);
    assert_eq!(
        update_collection("foo".to_string(), vec![], &bounded).operation.lane(),
        Lane::CollectionMeta
    );
    assert_eq!(
        update_collection_cluster("foo".to_string(), vec![], &bounded).operation.lane(),
        Lane::Cluster
    );
    assert_eq!(list_full_snapshots(&params).operation.lane(), Lane::Snapshot);
    assert_eq!(
        delete_full_snapshot("a".to_string(), &params).operation.lane(),
        Lane::Snapshot
    );
}
