//! Operations: what a request asks of the executor, and the requests that the
//! endpoints make of their parameters.
//!
//! An operation is immutable once made. Collection-meta and cluster
//! operations are always waited for, at most as long as the caller's
//! `timeout`; snapshot operations are waited for unless the caller says
//! `wait=false`, and never with a bound.

use vstd::prelude::*;
use crate::outcome::{LocalError, LocalErrorView};
use crate::policy::{
    timeout_policy, wait_policy, SnapshotPriority, SnapshotUploadingParam, SnapshottingParam,
    WaitPolicy, WaitPolicyView, WaitTimeout,
};
use crate::snapshot::{saved_view, SnapshotLocation};

verus! {

/// The path that an operation takes through the gateway.
#[derive(Clone, Copy, Debug, PartialEq, Eq, Structural)]
pub enum Lane {
    /// Creating, updating and deleting collections, and changing aliases.
    CollectionMeta,
    /// Changing the cluster's topology.
    Cluster,
    /// Creating, listing, deleting, uploading and recovering snapshots.
    Snapshot,
}

/// An uploaded snapshot that is yet to be persisted.
#[derive(Clone, Debug, PartialEq, Eq)]
pub struct Upload {
    /// The collection that the snapshot is for.
    pub collection: String,
    /// The file name that the caller supplied, if any.
    pub file_name: Option<String>,
    /// The caller's priority hint for the recovery that follows.
    pub priority: Option<SnapshotPriority>,
}

/// Mathematical model of an [`Upload`].
pub struct UploadView {
    pub collection: Seq<char>,
    pub file_name: Option<Seq<char>>,
    pub priority: Option<SnapshotPriority>,
}

impl View for Upload {
    type V = UploadView;

    open spec fn view(&self) -> UploadView {
        UploadView {
            collection: self.collection@,
            file_name: match self.file_name {
                Some(name) => Some(name@),
                None => None,
            },
            priority: self.priority,
        }
    }
}

/// What a request asks for. Payloads are the request bodies as received; the
/// gateway hands them on without looking inside.
#[derive(Clone, Debug, PartialEq, Eq)]
pub enum Operation {
    CreateCollection { name: String, payload: Vec<u8> },
    UpdateCollection { name: String, payload: Vec<u8> },
    DeleteCollection { name: String },
    ChangeAliases { payload: Vec<u8> },
    ClusterReconfigure { collection: String, payload: Vec<u8> },
    CreateSnapshot { collection: String },
    ListSnapshots { collection: String },
    DeleteSnapshot { collection: String, snapshot: String },
    UploadSnapshot(Upload),
    RecoverSnapshot {
        collection: String,
        location: SnapshotLocation,
        priority: Option<SnapshotPriority>,
    },
    ListFullSnapshots,
    CreateFullSnapshot,
    DeleteFullSnapshot { snapshot: String },
}

/// Mathematical model of an [`Operation`].
pub enum OperationView {
    CreateCollection { name: Seq<char>, payload: Seq<u8> },
    UpdateCollection { name: Seq<char>, payload: Seq<u8> },
    DeleteCollection { name: Seq<char> },
    ChangeAliases { payload: Seq<u8> },
    ClusterReconfigure { collection: Seq<char>, payload: Seq<u8> },
    CreateSnapshot { collection: Seq<char> },
    ListSnapshots { collection: Seq<char> },
    DeleteSnapshot { collection: Seq<char>, snapshot: Seq<char> },
    UploadSnapshot(UploadView),
    RecoverSnapshot {
        collection: Seq<char>,
        location: Seq<char>,
        priority: Option<SnapshotPriority>,
    },
    ListFullSnapshots,
    CreateFullSnapshot,
    DeleteFullSnapshot { snapshot: Seq<char> },
}

impl OperationView {
    /// The path that the operation takes through the gateway.
    pub open spec fn lane(self) -> Lane {
        match self {
            OperationView::CreateCollection { .. } => Lane::CollectionMeta,
            OperationView::UpdateCollection { .. } => Lane::CollectionMeta,
            OperationView::DeleteCollection { .. } => Lane::CollectionMeta,
            OperationView::ChangeAliases { .. } => Lane::CollectionMeta,
            OperationView::ClusterReconfigure { .. } => Lane::Cluster,
            _ => Lane::Snapshot,
        }
    }
}

impl View for Operation {
    type V = OperationView;

    open spec fn view(&self) -> OperationView {
        match self {
            Operation::CreateCollection { name, payload } => OperationView::CreateCollection {
                name: name@,
                payload: payload@,
            },
            Operation::UpdateCollection { name, payload } => OperationView::UpdateCollection {
                name: name@,
                payload: payload@,
            },
            Operation::DeleteCollection { name } => OperationView::DeleteCollection { name: name@ },
            Operation::ChangeAliases { payload } => OperationView::ChangeAliases {
                payload: payload@,
            },
            Operation::ClusterReconfigure {
                collection,
                payload,
            } => OperationView::ClusterReconfigure { collection: collection@, payload: payload@ },
            Operation::CreateSnapshot { collection } => OperationView::CreateSnapshot {
                collection: collection@,
            },
            Operation::ListSnapshots { collection } => OperationView::ListSnapshots {
                collection: collection@,
            },
            Operation::DeleteSnapshot { collection, snapshot } => OperationView::DeleteSnapshot {
                collection: collection@,
                snapshot: snapshot@,
            },
            Operation::UploadSnapshot(upload) => OperationView::UploadSnapshot(upload@),
            Operation::RecoverSnapshot {
                collection,
                location,
                priority,
            } => OperationView::RecoverSnapshot {
                collection: collection@,
                location: location@,
                priority: *priority,
            },
            Operation::ListFullSnapshots => OperationView::ListFullSnapshots,
            Operation::CreateFullSnapshot => OperationView::CreateFullSnapshot,
            Operation::DeleteFullSnapshot { snapshot } => OperationView::DeleteFullSnapshot {
                snapshot: snapshot@,
            },
        }
    }
}

impl Operation {
    /// The path that the operation takes through the gateway.
    pub fn lane(&self) -> (lane: Lane)
        ensures
            lane == self@.lane(),
    {
        match self {
            Operation::CreateCollection { .. } => Lane::CollectionMeta,
            Operation::UpdateCollection { .. } => Lane::CollectionMeta,
            Operation::DeleteCollection { .. } => Lane::CollectionMeta,
            Operation::ChangeAliases { .. } => Lane::CollectionMeta,
            Operation::ClusterReconfigure { .. } => Lane::Cluster,
            _ => Lane::Snapshot,
        }
    }
}

/// An operation together with the policy under which it is waited for.
#[derive(Clone, Debug, PartialEq, Eq)]
pub struct Request {
    pub operation: Operation,
    pub policy: WaitPolicy,
}

/// Mathematical model of a [`Request`].
pub struct RequestView {
    pub operation: OperationView,
    pub policy: WaitPolicyView,
}

impl RequestView {
    /// Whether the policy is one that the operation's endpoint can express:
    /// collection-meta and cluster operations always wait, snapshot operations
    /// wait without a bound or not at all.
    pub open spec fn well_formed(self) -> bool {
        match self.operation.lane() {
            Lane::CollectionMeta => self.policy.blocking,
            Lane::Cluster => self.policy.blocking,
            Lane::Snapshot => self.policy.timeout is None,
        }
    }
}

impl View for Request {
    type V = RequestView;

    open spec fn view(&self) -> RequestView {
        RequestView { operation: self.operation@, policy: self.policy@ }
    }
}

/// The phase of an upload that follows the saving of the file: the recovery
/// from the saved location, with the upload's collection and priority; or the
/// failure to save, with which the request ends.
pub open spec fn recovery_of(
    upload: UploadView,
    saved: Result<Seq<char>, LocalErrorView>,
) -> Result<OperationView, LocalErrorView> {
    match saved {
        Ok(location) => Ok(
            OperationView::RecoverSnapshot {
                collection: upload.collection,
                location,
                priority: upload.priority,
            },
        ),
        Err(e) => Err(e),
    }
}

/// The view of the operation that an upload turns into.
pub open spec fn recovery_view(recovery: Result<Operation, LocalError>) -> Result<
    OperationView,
    LocalErrorView,
> {
    match recovery {
        Ok(operation) => Ok(operation@),
        Err(e) => Err(e@),
    }
}

impl Upload {
    /// Moves on from saving the file to recovering from it. Where saving
    /// failed there is no operation for the executor, only the failure.
    pub fn recover(self, saved: Result<SnapshotLocation, LocalError>) -> (recovery: Result<
        Operation,
        LocalError,
    >)
        ensures
            recovery_view(recovery) == recovery_of(self@, saved_view(saved)),
    {
        match saved {
            Ok(location) => Ok(
                Operation::RecoverSnapshot {
                    collection: self.collection,
                    location,
                    priority: self.priority,
                },
            ),
            Err(e) => Err(e),
        }
    }
}

/// `PUT /collections/{name}`: create a collection.
pub fn create_collection(name: String, payload: Vec<u8>, query: &WaitTimeout) -> (request: Request)
    ensures
        request@ == (RequestView {
            operation: OperationView::CreateCollection { name: name@, payload: payload@ },
            policy: timeout_policy(query.timeout),
        }),
{
    Request { operation: Operation::CreateCollection { name, payload }, policy: query.policy() }
}

/// `PATCH /collections/{name}`: update a collection.
pub fn update_collection(name: String, payload: Vec<u8>, query: &WaitTimeout) -> (request: Request)
    ensures
        request@ == (RequestView {
            operation: OperationView::UpdateCollection { name: name@, payload: payload@ },
            policy: timeout_policy(query.timeout),
        }),
{
    Request { operation: Operation::UpdateCollection { name, payload }, policy: query.policy() }
}

/// `DELETE /collections/{name}`: delete a collection.
pub fn delete_collection(name: String, query: &WaitTimeout) -> (request: Request)
    ensures
        request@ == (RequestView {
            operation: OperationView::DeleteCollection { name: name@ },
            policy: timeout_policy(query.timeout),
        }),
{
    Request { operation: Operation::DeleteCollection { name }, policy: query.policy() }
}

/// `POST /collections/aliases`: change aliases.
pub fn update_aliases(payload: Vec<u8>, query: &WaitTimeout) -> (request: Request)
    ensures
        request@ == (RequestView {
            operation: OperationView::ChangeAliases { payload: payload@ },
            policy: timeout_policy(query.timeout),
        }),
{
    Request { operation: Operation::ChangeAliases { payload }, policy: query.policy() }
}

/// `POST /collections/{name}/cluster`: change the cluster's topology.
pub fn update_collection_cluster(name: String, payload: Vec<u8>, query: &WaitTimeout) -> (request:
    Request)
    ensures
        request@ == (RequestView {
            operation: OperationView::ClusterReconfigure { collection: name@, payload: payload@ },
            policy: timeout_policy(query.timeout),
        }),
{
    Request {
        operation: Operation::ClusterReconfigure { collection: name, payload },
        policy: query.policy(),
    }
}

/// `GET /collections/{name}/snapshots`: list a collection's snapshots.
pub fn list_snapshots(collection: String, params: &SnapshottingParam) -> (request: Request)
    ensures
        request@ == (RequestView {
            operation: OperationView::ListSnapshots { collection: collection@ },
            policy: wait_policy(params.wait),
        }),
{
    Request { operation: Operation::ListSnapshots { collection }, policy: params.policy() }
}

/// `POST /collections/{name}/snapshots`: create a snapshot of a collection.
pub fn create_snapshot(collection: String, params: &SnapshottingParam) -> (request: Request)
    ensures
        request@ == (RequestView {
            operation: OperationView::CreateSnapshot { collection: collection@ },
            policy: wait_policy(params.wait),
        }),
{
    Request { operation: Operation::CreateSnapshot { collection }, policy: params.policy() }
}

/// `POST /collections/{name}/snapshots/upload`: take in a snapshot file and
/// recover the collection from it.
pub fn upload_snapshot(
    collection: String,
    file_name: Option<String>,
    params: &SnapshotUploadingParam,
) -> (request: Request)
    ensures
        request@ == (RequestView {
            operation: OperationView::UploadSnapshot(
                UploadView {
                    collection: collection@,
                    file_name: match file_name {
                        Some(name) => Some(name@),
                        None => None,
                    },
                    priority: params.priority,
                },
            ),
            policy: wait_policy(params.wait),
        }),
{
    Request {
        operation: Operation::UploadSnapshot(
            Upload { collection, file_name, priority: params.priority },
        ),
        policy: params.policy(),
    }
}

/// `PUT /collections/{name}/snapshots/recover`: recover a collection from a
/// snapshot at the given location.
pub fn recover_from_snapshot(
    collection: String,
    location: SnapshotLocation,
    priority: Option<SnapshotPriority>,
    params: &SnapshottingParam,
) -> (request: Request)
    ensures
        request@ == (RequestView {
            operation: OperationView::RecoverSnapshot {
                collection: collection@,
                location: location@,
                priority,
            },
            policy: wait_policy(params.wait),
        }),
{
    Request {
        operation: Operation::RecoverSnapshot { collection, location, priority },
        policy: params.policy(),
    }
}

/// `GET /snapshots`: list the snapshots of the whole node.
pub fn list_full_snapshots(params: &SnapshottingParam) -> (request: Request)
    ensures
        request@ == (RequestView {
            operation: OperationView::ListFullSnapshots,
            policy: wait_policy(params.wait),
        }),
{
    Request { operation: Operation::ListFullSnapshots, policy: params.policy() }
}

/// `POST /snapshots`: create a snapshot of the whole node.
pub fn create_full_snapshot(params: &SnapshottingParam) -> (request: Request)
    ensures
        request@ == (RequestView {
            operation: OperationView::CreateFullSnapshot,
            policy: wait_policy(params.wait),
        }),
{
    Request { operation: Operation::CreateFullSnapshot, policy: params.policy() }
}

/// `DELETE /snapshots/{snapshot_name}`: delete a snapshot of the whole node.
pub fn delete_full_snapshot(snapshot: String, params: &SnapshottingParam) -> (request: Request)
    ensures
        request@ == (RequestView {
            operation: OperationView::DeleteFullSnapshot { snapshot: snapshot@ },
            policy: wait_policy(params.wait),
        }),
{
    Request { operation: Operation::DeleteFullSnapshot { snapshot }, policy: params.policy() }
}

/// `DELETE /collections/{name}/snapshots/{snapshot_name}`: delete a snapshot
/// of a collection.
pub fn delete_collection_snapshot(
    collection: String,
    snapshot: String,
    params: &SnapshottingParam,
) -> (request: Request)
    ensures
        request@ == (RequestView {
            operation: OperationView::DeleteSnapshot {
                collection: collection@,
                snapshot: snapshot@,
            },
            policy: wait_policy(params.wait),
        }),
{
    Request {
        operation: Operation::DeleteSnapshot { collection, snapshot },
        policy: params.policy(),
    }
}

/// Every request that an endpoint makes has a policy that its operation's
/// path can express, and a recovery made of an upload keeps that.
pub proof fn lemma_endpoint_requests_are_well_formed(
    operation: OperationView,
    timeout: Option<u64>,
    wait: Option<bool>,
)
    ensures
        operation.lane() != Lane::Snapshot ==> (RequestView {
            operation,
            policy: timeout_policy(timeout),
        }).well_formed(),
        operation.lane() == Lane::Snapshot ==> (RequestView {
            operation,
            policy: wait_policy(wait),
        }).well_formed(),
{
}

} // verus!
