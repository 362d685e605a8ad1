//! The uniform result of one submission and the error taxonomy behind it.

use vstd::prelude::*;

verus! {

/// The kinds of failure a caller can be told about.
#[derive(Clone, Copy, Debug, PartialEq, Eq, Structural)]
pub enum ErrorKind {
    /// The collection or snapshot named by the request is unknown.
    NotFound,
    /// The request collides with existing state or a concurrent change.
    Conflict,
    /// The caller's wait bound elapsed before the executor answered.
    Timeout,
    /// The request was malformed; the executor was never contacted.
    BadInput,
    /// The executor failed for a reason of its own.
    ExecutorFailure,
    /// The local file system failed while a snapshot was persisted.
    IOFailure,
}

/// A failure reported by the executor, with its message.
#[derive(Clone, Debug, PartialEq, Eq)]
pub enum ExecutorError {
    NotFound(String),
    Conflict(String),
    Failure(String),
}

/// Mathematical model of an [`ExecutorError`].
pub enum ExecutorErrorView {
    NotFound(Seq<char>),
    Conflict(Seq<char>),
    Failure(Seq<char>),
}

impl ExecutorErrorView {
    /// The kind under which the error is reported to the caller.
    pub open spec fn kind(self) -> ErrorKind {
        match self {
            ExecutorErrorView::NotFound(_) => ErrorKind::NotFound,
            ExecutorErrorView::Conflict(_) => ErrorKind::Conflict,
            ExecutorErrorView::Failure(_) => ErrorKind::ExecutorFailure,
        }
    }

    /// The executor's message, unchanged.
    pub open spec fn message(self) -> Seq<char> {
        match self {
            ExecutorErrorView::NotFound(m) => m,
            ExecutorErrorView::Conflict(m) => m,
            ExecutorErrorView::Failure(m) => m,
        }
    }
}

impl View for ExecutorError {
    type V = ExecutorErrorView;

    open spec fn view(&self) -> ExecutorErrorView {
        match self {
            ExecutorError::NotFound(m) => ExecutorErrorView::NotFound(m@),
            ExecutorError::Conflict(m) => ExecutorErrorView::Conflict(m@),
            ExecutorError::Failure(m) => ExecutorErrorView::Failure(m@),
        }
    }
}

impl ExecutorError {
    /// The kind under which this error is reported to the caller.
    pub fn kind(&self) -> (k: ErrorKind)
        ensures
            k == self@.kind(),
    {
        match self {
            ExecutorError::NotFound(_) => ErrorKind::NotFound,
            ExecutorError::Conflict(_) => ErrorKind::Conflict,
            ExecutorError::Failure(_) => ErrorKind::ExecutorFailure,
        }
    }

    /// Gives up the error for its message.
    pub fn into_message(self) -> (m: String)
        ensures
            m@ == self@.message(),
    {
        match self {
            ExecutorError::NotFound(m) => m,
            ExecutorError::Conflict(m) => m,
            ExecutorError::Failure(m) => m,
        }
    }
}

/// A failure found on this side of the executor, before it is contacted.
#[derive(Clone, Debug, PartialEq, Eq)]
pub enum LocalError {
    /// The request was malformed.
    BadInput(String),
    /// The local file system failed.
    IOFailure(String),
}

/// Mathematical model of a [`LocalError`].
pub enum LocalErrorView {
    BadInput(Seq<char>),
    IOFailure(Seq<char>),
}

impl LocalErrorView {
    /// The kind under which the error is reported to the caller.
    pub open spec fn kind(self) -> ErrorKind {
        match self {
            LocalErrorView::BadInput(_) => ErrorKind::BadInput,
            LocalErrorView::IOFailure(_) => ErrorKind::IOFailure,
        }
    }

    /// The error's message.
    pub open spec fn message(self) -> Seq<char> {
        match self {
            LocalErrorView::BadInput(m) => m,
            LocalErrorView::IOFailure(m) => m,
        }
    }

    /// The failure that the caller is told of.
    pub open spec fn result<T>(self) -> ExecutionResultView<T> {
        ExecutionResultView::Failure(self.kind(), self.message())
    }
}

impl View for LocalError {
    type V = LocalErrorView;

    open spec fn view(&self) -> LocalErrorView {
        match self {
            LocalError::BadInput(m) => LocalErrorView::BadInput(m@),
            LocalError::IOFailure(m) => LocalErrorView::IOFailure(m@),
        }
    }
}

impl LocalError {
    /// Turns the error into the failure that the caller is told of.
    pub fn into_result<T>(self) -> (r: ExecutionResult<T>)
        ensures
            r@ == self@.result::<T>(),
    {
        match self {
            LocalError::BadInput(m) => ExecutionResult::Failure(ErrorKind::BadInput, m),
            LocalError::IOFailure(m) => ExecutionResult::Failure(ErrorKind::IOFailure, m),
        }
    }
}

/// What one submission comes to: exactly one of a payload, a typed failure, or
/// an acknowledgment that the work goes on in the background.
#[derive(Clone, Debug, PartialEq, Eq)]
pub enum ExecutionResult<T> {
    Success(T),
    Failure(ErrorKind, String),
    Accepted,
}

/// Mathematical model of an [`ExecutionResult`].
pub enum ExecutionResultView<T> {
    Success(T),
    Failure(ErrorKind, Seq<char>),
    Accepted,
}

impl<T> View for ExecutionResult<T> {
    type V = ExecutionResultView<T>;

    open spec fn view(&self) -> ExecutionResultView<T> {
        match self {
            ExecutionResult::Success(payload) => ExecutionResultView::Success(*payload),
            ExecutionResult::Failure(kind, message) => ExecutionResultView::Failure(
                *kind,
                message@,
            ),
            ExecutionResult::Accepted => ExecutionResultView::Accepted,
        }
    }
}

/// The result that an executor outcome is passed on as: a payload becomes
/// `Success`, an error becomes a `Failure` of its kind with its message.
pub open spec fn outcome_result<T>(outcome: Result<T, ExecutorErrorView>) -> ExecutionResultView<
    T,
> {
    match outcome {
        Ok(payload) => ExecutionResultView::Success(payload),
        Err(e) => ExecutionResultView::Failure(e.kind(), e.message()),
    }
}

/// The view of an executor outcome.
pub open spec fn outcome_view<T>(outcome: Result<T, ExecutorError>) -> Result<
    T,
    ExecutorErrorView,
> {
    match outcome {
        Ok(payload) => Ok(payload),
        Err(e) => Err(e@),
    }
}

impl<T> ExecutionResult<T> {
    /// Passes an executor outcome on to the caller, error kind and message
    /// unchanged.
    pub fn from_outcome(outcome: Result<T, ExecutorError>) -> (r: ExecutionResult<T>)
        ensures
            r@ == outcome_result(outcome_view(outcome)),
    {
        match outcome {
            Ok(payload) => ExecutionResult::Success(payload),
            Err(e) => {
                let kind = e.kind();
                ExecutionResult::Failure(kind, e.into_message())
            },
        }
    }

    pub fn is_success(&self) -> (b: bool)
        ensures
            b == (self@ is Success),
    {
        matches!(self, ExecutionResult::Success(_))
    }

    pub fn is_failure(&self) -> (b: bool)
        ensures
            b == (self@ is Failure),
    {
        matches!(self, ExecutionResult::Failure(_, _))
    }

    pub fn is_accepted(&self) -> (b: bool)
        ensures
            b == (self@ is Accepted),
    {
        matches!(self, ExecutionResult::Accepted)
    }
}

} // verus!
