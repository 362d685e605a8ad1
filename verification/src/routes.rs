//! The HTTP surface: which methods and paths the gateway answers, and which
//! query parameters each endpoint reads.
//!
//! Matching a request against a pattern is the web server's work; the table
//! of what to match belongs to the gateway.

use vstd::prelude::*;

verus! {

/// An HTTP method.
#[derive(Clone, Copy, Debug, PartialEq, Eq, Structural)]
pub enum Method {
    Get,
    Post,
    Put,
    Patch,
    Delete,
}

/// The query parameters that an endpoint reads.
#[derive(Clone, Copy, Debug, PartialEq, Eq, Structural)]
pub enum QueryKind {
    /// None.
    Plain,
    /// `timeout`, in whole seconds.
    Timeout,
    /// `wait`.
    Wait,
    /// `wait` and `priority`.
    WaitAndPriority,
}

/// The endpoints of the gateway.
#[derive(Clone, Copy, Debug, PartialEq, Eq, Structural)]
pub enum Endpoint {
    GetCollections,
    GetCollection,
    CreateCollection,
    UpdateCollection,
    DeleteCollection,
    GetAliases,
    GetCollectionAliases,
    UpdateAliases,
    GetClusterInfo,
    UpdateCollectionCluster,
    ListSnapshots,
    CreateSnapshot,
    UploadSnapshot,
    RecoverFromSnapshot,
    GetSnapshot,
    ListFullSnapshots,
    CreateFullSnapshot,
    GetFullSnapshot,
    DeleteFullSnapshot,
    DeleteCollectionSnapshot,
}

/// The method that an endpoint answers.
pub open spec fn method_of(endpoint: Endpoint) -> Method {
    match endpoint {
        Endpoint::GetCollections => Method::Get,
        Endpoint::GetCollection => Method::Get,
        Endpoint::CreateCollection => Method::Put,
        Endpoint::UpdateCollection => Method::Patch,
        Endpoint::DeleteCollection => Method::Delete,
        Endpoint::GetAliases => Method::Get,
        Endpoint::GetCollectionAliases => Method::Get,
        Endpoint::UpdateAliases => Method::Post,
        Endpoint::GetClusterInfo => Method::Get,
        Endpoint::UpdateCollectionCluster => Method::Post,
        Endpoint::ListSnapshots => Method::Get,
        Endpoint::CreateSnapshot => Method::Post,
        Endpoint::UploadSnapshot => Method::Post,
        Endpoint::RecoverFromSnapshot => Method::Put,
        Endpoint::GetSnapshot => Method::Get,
        Endpoint::ListFullSnapshots => Method::Get,
        Endpoint::CreateFullSnapshot => Method::Post,
        Endpoint::GetFullSnapshot => Method::Get,
        Endpoint::DeleteFullSnapshot => Method::Delete,
        Endpoint::DeleteCollectionSnapshot => Method::Delete,
    }
}

/// The path pattern that an endpoint answers; a name in braces stands for
/// one path segment.
pub open spec fn pattern_of(endpoint: Endpoint) -> Seq<char> {
    match endpoint {
        Endpoint::GetCollections => "/collections"@,
        Endpoint::GetCollection => "/collections/{name}"@,
        Endpoint::CreateCollection => "/collections/{name}"@,
        Endpoint::UpdateCollection => "/collections/{name}"@,
        Endpoint::DeleteCollection => "/collections/{name}"@,
        Endpoint::GetAliases => "/aliases"@,
        Endpoint::GetCollectionAliases => "/collections/{name}/aliases"@,
        Endpoint::UpdateAliases => "/collections/aliases"@,
        Endpoint::GetClusterInfo => "/collections/{name}/cluster"@,
        Endpoint::UpdateCollectionCluster => "/collections/{name}/cluster"@,
        Endpoint::ListSnapshots => "/collections/{name}/snapshots"@,
        Endpoint::CreateSnapshot => "/collections/{name}/snapshots"@,
        Endpoint::UploadSnapshot => "/collections/{name}/snapshots/upload"@,
        Endpoint::RecoverFromSnapshot => "/collections/{name}/snapshots/recover"@,
        Endpoint::GetSnapshot => "/collections/{name}/snapshots/{snapshot_name}"@,
        Endpoint::ListFullSnapshots => "/snapshots"@,
        Endpoint::CreateFullSnapshot => "/snapshots"@,
        Endpoint::GetFullSnapshot => "/snapshots/{snapshot_name}"@,
        Endpoint::DeleteFullSnapshot => "/snapshots/{snapshot_name}"@,
        Endpoint::DeleteCollectionSnapshot => "/collections/{name}/snapshots/{snapshot_name}"@,
    }
}

/// The query parameters that an endpoint reads: `timeout` where it changes
/// collections, aliases or the cluster, `wait` where it deals in snapshots,
/// none where it only describes.
pub open spec fn query_of(endpoint: Endpoint) -> QueryKind {
    match endpoint {
        Endpoint::GetCollections => QueryKind::Plain,
        Endpoint::GetCollection => QueryKind::Plain,
        Endpoint::CreateCollection => QueryKind::Timeout,
        Endpoint::UpdateCollection => QueryKind::Timeout,
        Endpoint::DeleteCollection => QueryKind::Timeout,
        Endpoint::GetAliases => QueryKind::Plain,
        Endpoint::GetCollectionAliases => QueryKind::Plain,
        Endpoint::UpdateAliases => QueryKind::Timeout,
        Endpoint::GetClusterInfo => QueryKind::Plain,
        Endpoint::UpdateCollectionCluster => QueryKind::Timeout,
        Endpoint::ListSnapshots => QueryKind::Wait,
        Endpoint::CreateSnapshot => QueryKind::Wait,
        Endpoint::UploadSnapshot => QueryKind::WaitAndPriority,
        Endpoint::RecoverFromSnapshot => QueryKind::Wait,
        Endpoint::GetSnapshot => QueryKind::Wait,
        Endpoint::ListFullSnapshots => QueryKind::Wait,
        Endpoint::CreateFullSnapshot => QueryKind::Wait,
        Endpoint::GetFullSnapshot => QueryKind::Wait,
        Endpoint::DeleteFullSnapshot => QueryKind::Wait,
        Endpoint::DeleteCollectionSnapshot => QueryKind::Wait,
    }
}

impl Endpoint {
    /// The method that the endpoint answers.
    pub fn method(self) -> (m: Method)
        ensures
            m == method_of(self),
    {
        match self {
            Endpoint::GetCollections => Method::Get,
            Endpoint::GetCollection => Method::Get,
            Endpoint::CreateCollection => Method::Put,
            Endpoint::UpdateCollection => Method::Patch,
            Endpoint::DeleteCollection => Method::Delete,
            Endpoint::GetAliases => Method::Get,
            Endpoint::GetCollectionAliases => Method::Get,
            Endpoint::UpdateAliases => Method::Post,
            Endpoint::GetClusterInfo => Method::Get,
            Endpoint::UpdateCollectionCluster => Method::Post,
            Endpoint::ListSnapshots => Method::Get,
            Endpoint::CreateSnapshot => Method::Post,
            Endpoint::UploadSnapshot => Method::Post,
            Endpoint::RecoverFromSnapshot => Method::Put,
            Endpoint::GetSnapshot => Method::Get,
            Endpoint::ListFullSnapshots => Method::Get,
            Endpoint::CreateFullSnapshot => Method::Post,
            Endpoint::GetFullSnapshot => Method::Get,
            Endpoint::DeleteFullSnapshot => Method::Delete,
            Endpoint::DeleteCollectionSnapshot => Method::Delete,
        }
    }

    /// The path pattern that the endpoint answers.
    pub fn pattern(self) -> (p: &'static str)
        ensures
            p@ == pattern_of(self),
    {
        match self {
            Endpoint::GetCollections => "/collections",
            Endpoint::GetCollection => "/collections/{name}",
            Endpoint::CreateCollection => "/collections/{name}",
            Endpoint::UpdateCollection => "/collections/{name}",
            Endpoint::DeleteCollection => "/collections/{name}",
            Endpoint::GetAliases => "/aliases",
            Endpoint::GetCollectionAliases => "/collections/{name}/aliases",
            Endpoint::UpdateAliases => "/collections/aliases",
            Endpoint::GetClusterInfo => "/collections/{name}/cluster",
            Endpoint::UpdateCollectionCluster => "/collections/{name}/cluster",
            Endpoint::ListSnapshots => "/collections/{name}/snapshots",
            Endpoint::CreateSnapshot => "/collections/{name}/snapshots",
            Endpoint::UploadSnapshot => "/collections/{name}/snapshots/upload",
            Endpoint::RecoverFromSnapshot => "/collections/{name}/snapshots/recover",
            Endpoint::GetSnapshot => "/collections/{name}/snapshots/{snapshot_name}",
            Endpoint::ListFullSnapshots => "/snapshots",
            Endpoint::CreateFullSnapshot => "/snapshots",
            Endpoint::GetFullSnapshot => "/snapshots/{snapshot_name}",
            Endpoint::DeleteFullSnapshot => "/snapshots/{snapshot_name}",
            Endpoint::DeleteCollectionSnapshot => "/collections/{name}/snapshots/{snapshot_name}",
        }
    }

    /// The query parameters that the endpoint reads.
    pub fn query(self) -> (q: QueryKind)
        ensures
            q == query_of(self),
    {
        match self {
            Endpoint::GetCollections => QueryKind::Plain,
            Endpoint::GetCollection => QueryKind::Plain,
            Endpoint::CreateCollection => QueryKind::Timeout,
            Endpoint::UpdateCollection => QueryKind::Timeout,
            Endpoint::DeleteCollection => QueryKind::Timeout,
            Endpoint::GetAliases => QueryKind::Plain,
            Endpoint::GetCollectionAliases => QueryKind::Plain,
            Endpoint::UpdateAliases => QueryKind::Timeout,
            Endpoint::GetClusterInfo => QueryKind::Plain,
            Endpoint::UpdateCollectionCluster => QueryKind::Timeout,
            Endpoint::ListSnapshots => QueryKind::Wait,
            Endpoint::CreateSnapshot => QueryKind::Wait,
            Endpoint::UploadSnapshot => QueryKind::WaitAndPriority,
            Endpoint::RecoverFromSnapshot => QueryKind::Wait,
            Endpoint::GetSnapshot => QueryKind::Wait,
            Endpoint::ListFullSnapshots => QueryKind::Wait,
            Endpoint::CreateFullSnapshot => QueryKind::Wait,
            Endpoint::GetFullSnapshot => QueryKind::Wait,
            Endpoint::DeleteFullSnapshot => QueryKind::Wait,
            Endpoint::DeleteCollectionSnapshot => QueryKind::Wait,
        }
    }
}

/// The endpoints of the collections API, in the order in which they are
/// registered.
pub open spec fn collections_api() -> Seq<Endpoint> {
    seq![
        Endpoint::GetCollections,
        Endpoint::GetCollection,
        Endpoint::CreateCollection,
        Endpoint::UpdateCollection,
        Endpoint::DeleteCollection,
        Endpoint::GetAliases,
        Endpoint::GetCollectionAliases,
        Endpoint::UpdateAliases,
        Endpoint::GetClusterInfo,
        Endpoint::UpdateCollectionCluster,
    ]
}

/// The endpoints of the snapshots API, in the order in which they are
/// registered.
pub open spec fn snapshots_api() -> Seq<Endpoint> {
    seq![
        Endpoint::ListSnapshots,
        Endpoint::CreateSnapshot,
        Endpoint::UploadSnapshot,
        Endpoint::RecoverFromSnapshot,
        Endpoint::GetSnapshot,
        Endpoint::ListFullSnapshots,
        Endpoint::CreateFullSnapshot,
        Endpoint::GetFullSnapshot,
        Endpoint::DeleteFullSnapshot,
        Endpoint::DeleteCollectionSnapshot,
    ]
}

/// The endpoints of the collections API, in the order in which they are to be
/// registered with the web server.
pub fn config_collections_api() -> (endpoints: Vec<Endpoint>)
    ensures
        endpoints@ == collections_api(),
{
    let mut endpoints = Vec::new();
    endpoints.push(Endpoint::GetCollections);
    endpoints.push(Endpoint::GetCollection);
    endpoints.push(Endpoint::CreateCollection);
    endpoints.push(Endpoint::UpdateCollection);
    endpoints.push(Endpoint::DeleteCollection);
    endpoints.push(Endpoint::GetAliases);
    endpoints.push(Endpoint::GetCollectionAliases);
    endpoints.push(Endpoint::UpdateAliases);
    endpoints.push(Endpoint::GetClusterInfo);
    endpoints.push(Endpoint::UpdateCollectionCluster);
    endpoints
}

/// The endpoints of the snapshots API, in the order in which they are to be
/// registered with the web server.
pub fn config_snapshots_api() -> (endpoints: Vec<Endpoint>)
    ensures
        endpoints@ == snapshots_api(),
{
    let mut endpoints = Vec::new();
    endpoints.push(Endpoint::ListSnapshots);
    endpoints.push(Endpoint::CreateSnapshot);
    endpoints.push(Endpoint::UploadSnapshot);
    endpoints.push(Endpoint::RecoverFromSnapshot);
    endpoints.push(Endpoint::GetSnapshot);
    endpoints.push(Endpoint::ListFullSnapshots);
    endpoints.push(Endpoint::CreateFullSnapshot);
    endpoints.push(Endpoint::GetFullSnapshot);
    endpoints.push(Endpoint::DeleteFullSnapshot);
    endpoints.push(Endpoint::DeleteCollectionSnapshot);
    endpoints
}

/// Every endpoint is registered by exactly one of the two APIs, exactly once.
pub proof fn lemma_every_endpoint_is_registered_once(endpoint: Endpoint)
    ensures
        exists|i: int|
            0 <= i < 20 && #[trigger] (collections_api() + snapshots_api())[i] == endpoint,
        forall|i: int, j: int|
            0 <= i < 20 && 0 <= j < 20 && #[trigger] (collections_api() + snapshots_api())[i]
                == #[trigger] (collections_api() + snapshots_api())[j] ==> i == j,
{
    let all = collections_api() + snapshots_api();
    assert(all.len() == 20);
    assert(all[0] == Endpoint::GetCollections);
    assert(all[1] == Endpoint::GetCollection);
    assert(all[2] == Endpoint::CreateCollection);
    assert(all[3] == Endpoint::UpdateCollection);
    assert(all[4] == Endpoint::DeleteCollection);
    assert(all[5] == Endpoint::GetAliases);
    assert(all[6] == Endpoint::GetCollectionAliases);
    assert(all[7] == Endpoint::UpdateAliases);
    assert(all[8] == Endpoint::GetClusterInfo);
    assert(all[9] == Endpoint::UpdateCollectionCluster);
    assert(all[10] == Endpoint::ListSnapshots);
    assert(all[11] == Endpoint::CreateSnapshot);
    assert(all[12] == Endpoint::UploadSnapshot);
    assert(all[13] == Endpoint::RecoverFromSnapshot);
    assert(all[14] == Endpoint::GetSnapshot);
    assert(all[15] == Endpoint::ListFullSnapshots);
    assert(all[16] == Endpoint::CreateFullSnapshot);
    assert(all[17] == Endpoint::GetFullSnapshot);
    assert(all[18] == Endpoint::DeleteFullSnapshot);
    assert(all[19] == Endpoint::DeleteCollectionSnapshot);
}

/// No two endpoints answer the same method on the same path pattern.
pub proof fn lemma_routes_are_distinct(a: Endpoint, b: Endpoint)
    requires
        method_of(a) == method_of(b),
        pattern_of(a) == pattern_of(b),
    ensures
        a == b,
{
    reveal_strlit("/collections");
    reveal_strlit("/collections/{name}");
    reveal_strlit("/aliases");
    reveal_strlit("/collections/{name}/aliases");
    reveal_strlit("/collections/aliases");
    reveal_strlit("/collections/{name}/cluster");
    reveal_strlit("/collections/{name}/snapshots");
    reveal_strlit("/collections/{name}/snapshots/upload");
    reveal_strlit("/collections/{name}/snapshots/recover");
    reveal_strlit("/collections/{name}/snapshots/{snapshot_name}");
    reveal_strlit("/snapshots");
    reveal_strlit("/snapshots/{snapshot_name}");
    if pattern_of(a).len() == 27 {
        assert("/collections/{name}/aliases"@[20] == 'a');
        assert("/collections/{name}/cluster"@[20] == 'c');
    }
}

} // verus!
