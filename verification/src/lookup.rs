//! Reads: requests that change nothing.
//!
//! Listings and descriptions are answered by the executor at once and are
//! always waited for. Snapshot downloads first have the executor resolve the
//! snapshot's path and take a `wait` parameter like the other snapshot
//! requests. A download that is not waited for is acknowledged like any other
//! request that is not waited for: there is no file to send yet, and none is
//! made up.

use vstd::prelude::*;
use crate::policy::{wait_policy, SnapshottingParam, WaitPolicy, WaitPolicyView};

verus! {

/// A listing or description.
#[derive(Clone, Debug, PartialEq, Eq)]
pub enum Lookup {
    /// All collections.
    Collections,
    /// All aliases.
    Aliases,
    /// One collection.
    Collection { name: String },
    /// The aliases of one collection.
    CollectionAliases { name: String },
    /// The cluster topology of one collection.
    ClusterInfo { name: String },
}

/// Mathematical model of a [`Lookup`].
pub enum LookupView {
    Collections,
    Aliases,
    Collection { name: Seq<char> },
    CollectionAliases { name: Seq<char> },
    ClusterInfo { name: Seq<char> },
}

impl View for Lookup {
    type V = LookupView;

    open spec fn view(&self) -> LookupView {
        match self {
            Lookup::Collections => LookupView::Collections,
            Lookup::Aliases => LookupView::Aliases,
            Lookup::Collection { name } => LookupView::Collection { name: name@ },
            Lookup::CollectionAliases { name } => LookupView::CollectionAliases { name: name@ },
            Lookup::ClusterInfo { name } => LookupView::ClusterInfo { name: name@ },
        }
    }
}

/// The policy of a request that has no say in how it is waited for: it waits,
/// without a bound.
pub open spec fn always_wait() -> WaitPolicyView {
    WaitPolicyView { blocking: true, timeout: None }
}

impl Lookup {
    /// The policy under which a lookup is answered.
    pub fn policy(&self) -> (p: WaitPolicy)
        ensures
            p@ == always_wait(),
    {
        WaitPolicy { blocking: true, timeout: None }
    }
}

/// `GET /collections`.
pub fn get_collections() -> (lookup: Lookup)
    ensures
        lookup@ == LookupView::Collections,
{
    Lookup::Collections
}

/// `GET /aliases`.
pub fn get_aliases() -> (lookup: Lookup)
    ensures
        lookup@ == LookupView::Aliases,
{
    Lookup::Aliases
}

/// `GET /collections/{name}`.
pub fn get_collection(name: String) -> (lookup: Lookup)
    ensures
        lookup@ == (LookupView::Collection { name: name@ }),
{
    Lookup::Collection { name }
}

/// `GET /collections/{name}/aliases`.
pub fn get_collection_aliases(name: String) -> (lookup: Lookup)
    ensures
        lookup@ == (LookupView::CollectionAliases { name: name@ }),
{
    Lookup::CollectionAliases { name }
}

/// `GET /collections/{name}/cluster`.
pub fn get_cluster_info(name: String) -> (lookup: Lookup)
    ensures
        lookup@ == (LookupView::ClusterInfo { name: name@ }),
{
    Lookup::ClusterInfo { name }
}

/// The snapshot file that a download asks for.
#[derive(Clone, Debug, PartialEq, Eq)]
pub enum Download {
    /// A snapshot of one collection.
    Snapshot { collection: String, snapshot: String },
    /// A snapshot of the whole node.
    FullSnapshot { snapshot: String },
}

/// Mathematical model of a [`Download`].
pub enum DownloadView {
    Snapshot { collection: Seq<char>, snapshot: Seq<char> },
    FullSnapshot { snapshot: Seq<char> },
}

impl View for Download {
    type V = DownloadView;

    open spec fn view(&self) -> DownloadView {
        match self {
            Download::Snapshot { collection, snapshot } => DownloadView::Snapshot {
                collection: collection@,
                snapshot: snapshot@,
            },
            Download::FullSnapshot { snapshot } => DownloadView::FullSnapshot {
                snapshot: snapshot@,
            },
        }
    }
}

/// A download together with the policy under which it is waited for.
#[derive(Clone, Debug, PartialEq, Eq)]
pub struct DownloadRequest {
    pub download: Download,
    pub policy: WaitPolicy,
}

/// Mathematical model of a [`DownloadRequest`].
pub struct DownloadRequestView {
    pub download: DownloadView,
    pub policy: WaitPolicyView,
}

impl View for DownloadRequest {
    type V = DownloadRequestView;

    open spec fn view(&self) -> DownloadRequestView {
        DownloadRequestView { download: self.download@, policy: self.policy@ }
    }
}

/// The download of a collection's snapshot. The executor is asked for the
/// snapshot's path in any case; with `wait` the caller gets the file at that
/// path, without it an acknowledgment.
pub fn do_get_snapshot(collection_name: &str, snapshot_name: &str, wait: bool) -> (request:
    DownloadRequest)
    ensures
        request@ == (DownloadRequestView {
            download: DownloadView::Snapshot {
                collection: collection_name@,
                snapshot: snapshot_name@,
            },
            policy: wait_policy(Some(wait)),
        }),
{
    DownloadRequest {
        download: Download::Snapshot {
            collection: collection_name.to_owned(),
            snapshot: snapshot_name.to_owned(),
        },
        policy: WaitPolicy { blocking: wait, timeout: None },
    }
}

/// The download of a snapshot of the whole node. The executor is asked for the
/// snapshot's path in any case; with `wait` the caller gets the file at that
/// path, without it an acknowledgment.
pub fn do_get_full_snapshot(snapshot_name: &str, wait: bool) -> (request: DownloadRequest)
    ensures
        request@ == (DownloadRequestView {
            download: DownloadView::FullSnapshot { snapshot: snapshot_name@ },
            policy: wait_policy(Some(wait)),
        }),
{
    DownloadRequest {
        download: Download::FullSnapshot { snapshot: snapshot_name.to_owned() },
        policy: WaitPolicy { blocking: wait, timeout: None },
    }
}

/// `GET /collections/{name}/snapshots/{snapshot_name}`.
pub fn get_snapshot(
    collection_name: &str,
    snapshot_name: &str,
    params: &SnapshottingParam,
) -> (request: DownloadRequest)
    ensures
        request@ == (DownloadRequestView {
            download: DownloadView::Snapshot {
                collection: collection_name@,
                snapshot: snapshot_name@,
            },
            policy: wait_policy(params.wait),
        }),
{
    let wait = params.policy().blocking;
    do_get_snapshot(collection_name, snapshot_name, wait)
}

/// `GET /snapshots/{snapshot_name}`.
pub fn get_full_snapshot(snapshot_name: &str, params: &SnapshottingParam) -> (request:
    DownloadRequest)
    ensures
        request@ == (DownloadRequestView {
            download: DownloadView::FullSnapshot { snapshot: snapshot_name@ },
            policy: wait_policy(params.wait),
        }),
{
    let wait = params.policy().blocking;
    do_get_full_snapshot(snapshot_name, wait)
}

} // verus!
