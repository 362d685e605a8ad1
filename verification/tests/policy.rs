use std::time::Duration;

use submission_gateway::policy::{
    SnapshotPriority, SnapshotUploadingParam, SnapshottingParam, WaitPolicy, WaitTimeout,
};

#[test]
fn timeout_is_deserialized() {
    let timeout: WaitTimeout = WaitTimeout::from_query("").unwrap();
    assert!(timeout.timeout.is_none());
    let timeout: WaitTimeout = WaitTimeout::from_query("timeout=10").unwrap();
    assert_eq!(timeout.timeout, Some(10))
}

#[test]
fn timeout_is_whole_seconds() {
    let query = WaitTimeout { timeout: Some(10) };
    assert_eq!(query.timeout(), Some(Duration::from_secs(10)));
    assert_eq!(query.timeout().unwrap().as_secs(), 10);
    assert_eq!(query.timeout().unwrap().subsec_nanos(), 0);
    assert_eq!(query.timeout().unwrap().as_nanos(), 10_000_000_000);
}

#[test]
fn absent_timeout_is_no_bound() {
    let query = WaitTimeout { timeout: None };
    assert_eq!(query.timeout(), None);
    assert_eq!(query.policy(), WaitPolicy { blocking: true, timeout: None });
}

#[test]
fn timeout_of_zero_is_a_bound() {
    let query = WaitTimeout { timeout: Some(0) };
    assert_eq!(query.timeout(), Some(Duration::ZERO));
    assert_eq!(query.policy(), WaitPolicy { blocking: true, timeout: Some(Duration::ZERO) });
}

#[test]
fn largest_timeout_fits() {
    let query = WaitTimeout { timeout: Some(u64::MAX) };
    assert_eq!(query.timeout().unwrap().as_secs(), u64::MAX);
}

#[test]
fn collection_meta_requests_always_wait() {
    assert!(WaitTimeout { timeout: None }.policy().blocking);
    assert!(WaitTimeout { timeout: Some(3) }.policy().blocking);
    assert_eq!(
        WaitTimeout { timeout: Some(3) }.policy().timeout,
        Some(Duration::from_secs(3))
    );
}

#[test]
fn wait_defaults_to_true() {
    assert!(SnapshottingParam { wait: None }.policy().blocking);
    assert!(SnapshottingParam { wait: Some(true) }.policy().blocking);
    assert!(!SnapshottingParam { wait: Some(false) }.policy().blocking);
}

#[test]
fn snapshot_requests_have_no_bound() {
    assert_eq!(SnapshottingParam { wait: None }.policy().timeout, None);
    assert_eq!(SnapshottingParam { wait: Some(false) }.policy().timeout, None);
}

#[test]
fn upload_parameters_wait_by_default() {
    let params = SnapshotUploadingParam { wait: None, priority: Some(SnapshotPriority::Snapshot) };
    assert_eq!(params.policy(), WaitPolicy { blocking: true, timeout: None });
    let params = SnapshotUploadingParam { wait: Some(false), priority: None };
    assert_eq!(params.policy(), WaitPolicy { blocking: false, timeout: None });
}
