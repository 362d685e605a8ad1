//! Wait policies: whether, and for how long, a caller waits for an operation.
//!
//! Collection-meta and cluster requests carry an optional `timeout` in whole
//! seconds and always wait; snapshot requests carry an optional `wait` flag
//! that defaults to `true` and never a timeout.

use std::time::Duration;
use vstd::prelude::*;

verus! {

/// The length of a `Duration` in nanoseconds, as `Duration::as_nanos` reports it.
pub uninterp spec fn duration_nanos(d: Duration) -> nat;

/// `Duration::from_secs` makes a duration of exactly the given number of whole
/// seconds, with no fractional part.
pub assume_specification[ Duration::from_secs ](secs: u64) -> (d: Duration)
    ensures
        duration_nanos(d) == seconds_as_nanos(secs),
;

/// Nanoseconds in the given number of whole seconds.
pub open spec fn seconds_as_nanos(secs: u64) -> nat {
    secs as nat * 1_000_000_000
}

/// How a request is to be waited for.
#[derive(Clone, Copy, Debug, PartialEq, Eq)]
pub struct WaitPolicy {
    /// Whether the caller waits for the executor at all.
    pub blocking: bool,
    /// The longest the caller waits; `None` waits as long as the executor takes.
    pub timeout: Option<Duration>,
}

/// Mathematical model of a [`WaitPolicy`]: the timeout in nanoseconds.
pub struct WaitPolicyView {
    pub blocking: bool,
    pub timeout: Option<nat>,
}

impl View for WaitPolicy {
    type V = WaitPolicyView;

    open spec fn view(&self) -> WaitPolicyView {
        WaitPolicyView {
            blocking: self.blocking,
            timeout: match self.timeout {
                Some(d) => Some(duration_nanos(d)),
                None => None,
            },
        }
    }
}

/// The policy of a collection-meta request with the given `timeout` parameter:
/// it always waits, for at most that many seconds.
pub open spec fn timeout_policy(timeout: Option<u64>) -> WaitPolicyView {
    WaitPolicyView {
        blocking: true,
        timeout: match timeout {
            Some(secs) => Some(seconds_as_nanos(secs)),
            None => None,
        },
    }
}

/// The policy of a snapshot request with the given `wait` parameter: it waits
/// unless told not to, and without a bound.
pub open spec fn wait_policy(wait: Option<bool>) -> WaitPolicyView {
    WaitPolicyView {
        blocking: match wait {
            Some(w) => w,
            None => true,
        },
        timeout: None,
    }
}

/// Query parameters of a collection-meta or cluster request.
#[derive(Clone, Copy, Debug, PartialEq, Eq)]
pub struct WaitTimeout {
    /// How long the caller is willing to wait, in whole seconds.
    pub timeout: Option<u64>,
}

impl WaitTimeout {
    /// The wait bound as a duration; `None` where the caller gave none.
    pub fn timeout(&self) -> (r: Option<Duration>)
        ensures
            r.is_some() == self.timeout.is_some(),
            r matches Some(d) ==> duration_nanos(d) == seconds_as_nanos(self.timeout.unwrap()),
    {
        match self.timeout {
            Some(secs) => Some(Duration::from_secs(secs)),
            None => None,
        }
    }

    /// The policy these parameters stand for.
    pub fn policy(&self) -> (p: WaitPolicy)
        ensures
            p@ == timeout_policy(self.timeout),
    {
        WaitPolicy { blocking: true, timeout: self.timeout() }
    }
}

/// Query parameters of a snapshot request.
#[derive(Clone, Copy, Debug, PartialEq, Eq)]
pub struct SnapshottingParam {
    /// Whether to wait for the executor; absent means yes.
    pub wait: Option<bool>,
}

impl SnapshottingParam {
    /// The policy these parameters stand for.
    pub fn policy(&self) -> (p: WaitPolicy)
        ensures
            p@ == wait_policy(self.wait),
    {
        let blocking = match self.wait {
            Some(w) => w,
            None => true,
        };
        WaitPolicy { blocking, timeout: None }
    }
}

/// Which side wins where a recovered snapshot and the existing replicas differ.
#[derive(Clone, Copy, Debug, PartialEq, Eq, Structural)]
pub enum SnapshotPriority {
    /// The snapshot's data is preferred.
    Snapshot,
    /// The data of the existing replicas is preferred.
    Replica,
}

/// Query parameters of a snapshot upload.
#[derive(Clone, Copy, Debug, PartialEq, Eq)]
pub struct SnapshotUploadingParam {
    /// Whether to wait for the recovery; absent means yes.
    pub wait: Option<bool>,
    /// The caller's priority hint, handed on to the recovery unchanged.
    pub priority: Option<SnapshotPriority>,
}

impl SnapshotUploadingParam {
    /// The policy these parameters stand for.
    pub fn policy(&self) -> (p: WaitPolicy)
        ensures
            p@ == wait_policy(self.wait),
    {
        let blocking = match self.wait {
            Some(w) => w,
            None => true,
        };
        WaitPolicy { blocking, timeout: None }
    }
}

} // verus!
